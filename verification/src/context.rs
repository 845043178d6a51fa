//! What a call carries besides its arguments, and how an asynchronous call
//! can end.

use crate::error::ContractError;
use vstd::prelude::*;

verus! {

/// The circumstances of a call: who makes it, which account the contract
/// runs as, and the deposit attached to it.
pub struct CallContext {
    pub predecessor_account_id: String,
    pub current_account_id: String,
    pub attached_deposit: u128,
}

/// How an asynchronous call failed.
#[derive(Clone, Copy, Debug, PartialEq, Eq, Structural)]
pub enum PromiseError {
    /// The call was carried out and failed.
    Failed,
    /// The outcome of the call is not known yet.
    NotReady,
}

impl CallContext {
    /// The contract calls itself.
    pub open spec fn self_call(self) -> bool {
        self.predecessor_account_id@ == self.current_account_id@
    }

    /// Why a privileged entry point that asks for the attached deposit of
    /// exactly one unit refuses the call, if it does.
    pub open spec fn entry_rejection(self) -> Option<ContractError> {
        if !self.self_call() {
            Some(ContractError::NotPrivate)
        } else if self.attached_deposit != 1 {
            Some(ContractError::RequiresOneYocto)
        } else {
            None
        }
    }

    /// Tells whether the contract calls itself.
    pub fn is_self_call(&self) -> (own: bool)
        ensures
            own == self.self_call(),
    {
        self.predecessor_account_id == self.current_account_id
    }

    /// Admits the call to a privileged entry point, or says why not.
    pub fn check_entry(&self) -> (result: Result<(), ContractError>)
        ensures
            result == match self.entry_rejection() {
                Some(e) => Err::<(), ContractError>(e),
                None => Ok(()),
            },
    {
        if !self.is_self_call() {
            Err(ContractError::NotPrivate)
        } else if self.attached_deposit != 1 {
            Err(ContractError::RequiresOneYocto)
        } else {
            Ok(())
        }
    }
}

} // verus!
