//! Moving tokens between accounts.

use crate::contract::Contract;
use crate::error::ContractError;
use vstd::prelude::*;

verus! {

/// The first reason for which a transfer is rejected, if there is one.
pub open spec fn transfer_rejection(
    sender_id: Seq<char>,
    receiver_id: Seq<char>,
    sender_balance: nat,
    amount: nat,
) -> Option<ContractError> {
    if sender_id == receiver_id {
        Some(ContractError::SameAccount)
    } else if amount == 0 {
        Some(ContractError::ZeroAmount)
    } else if sender_balance < amount {
        Some(ContractError::InsufficientBalance)
    } else {
        None
    }
}

impl Contract {
    /// Moves `amount` tokens from `sender_id` to `receiver_id`. The total
    /// supply and the locked reserve stay as they are. A rejected transfer
    /// changes nothing.
    pub fn ft_transfer(&mut self, sender_id: &String, receiver_id: &String, amount: u128) -> (result:
        Result<(), ContractError>)
        requires
            old(self).wf(),
        ensures
            final(self).wf(),
            match result {
                Ok(_) => {
                    &&& transfer_rejection(
                        sender_id@,
                        receiver_id@,
                        old(self)@.balance(sender_id@),
                        amount as nat,
                    ) is None
                    &&& final(self)@ == old(self)@.debit(sender_id@, amount as nat).credit(
                        receiver_id@,
                        amount as nat,
                    )
                    &&& final(self)@.total_supply == old(self)@.total_supply
                    &&& final(self)@.balance(sender_id@) == old(self)@.balance(sender_id@) - amount
                    &&& final(self)@.balance(receiver_id@) == old(self)@.balance(receiver_id@)
                        + amount
                },
                Err(e) => {
                    &&& transfer_rejection(
                        sender_id@,
                        receiver_id@,
                        old(self)@.balance(sender_id@),
                        amount as nat,
                    ) == Some(e)
                    &&& *final(self) == *old(self)
                },
            },
    {
        if *sender_id == *receiver_id {
            return Err(ContractError::SameAccount);
        }
        if amount == 0 {
            return Err(ContractError::ZeroAmount);
        }
        match self.internal_burn(amount, sender_id) {
            Ok(_) => {},
            Err(e) => {
                return Err(e);
            },
        }
        proof {
            old(self).lemma_wf();
        }
        let minted = self.internal_mint(amount, receiver_id);
        assert(minted is Ok);
        Ok(())
    }
}

} // verus!
