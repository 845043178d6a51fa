//! Burning: tokens are destroyed and reserve currency is paid back.
//!
//! The ledger is changed at once and optimistically; the reimbursement is
//! then sent on the reserve-currency ledger. If that transfer fails, the
//! completion handler puts the ledger back as it was before the burn.

use crate::context::{CallContext, PromiseError};
use crate::contract::{Contract, FtTransfer};
use crate::error::ContractError;
use vstd::prelude::*;

verus! {

/// What a successful burn hands back: the reimbursement that is to be
/// transferred, and what the completion handler needs to undo the burn.
#[derive(Debug, PartialEq, Eq)]
pub struct BurnReceipt {
    pub transfer: FtTransfer,
    pub sell_amount: u128,
    pub reimburse_amount: u128,
    pub account_id: String,
    pub attached_deposit: u128,
}

/// The attached deposit that goes back to the caller of a burn that failed.
#[derive(Debug, PartialEq, Eq)]
pub struct Refund {
    pub receiver_id: String,
    pub amount: u128,
}

/// How a burn ended: the reserve currency that reached the caller, and the
/// refund that is to be made where it did not.
#[derive(Debug, PartialEq, Eq)]
pub struct BurnSettlement {
    pub returned: u128,
    pub refund: Option<Refund>,
}

/// The first reason for which a burn is rejected, if there is one.
pub open spec fn burn_rejection(
    ctx: CallContext,
    balance: nat,
    reserve_locked: nat,
    total_supply: nat,
    sell_amount: nat,
    reimburse_amount: nat,
) -> Option<ContractError> {
    if ctx.entry_rejection() is Some {
        ctx.entry_rejection()
    } else if sell_amount == 0 {
        Some(ContractError::ZeroAmount)
    } else if balance < sell_amount {
        Some(ContractError::InsufficientBalance)
    } else if reserve_locked == 0 || total_supply == 0 || sell_amount > total_supply {
        Some(ContractError::InsufficientSupply)
    } else if reimburse_amount > reserve_locked {
        Some(ContractError::ReserveOverflow)
    } else {
        None
    }
}

/// The first reason for which a sale cannot be booked, if there is one: the
/// reimbursement may not exceed the locked reserve, nor the tokens sold the
/// balance of the account.
pub open spec fn sale_rejection(
    balance: nat,
    reserve_locked: nat,
    sell_amount: nat,
    reimburse_amount: nat,
) -> Option<ContractError> {
    if reimburse_amount > reserve_locked {
        Some(ContractError::ReserveOverflow)
    } else if sell_amount > balance {
        Some(ContractError::InsufficientBalance)
    } else {
        None
    }
}

/// The first reason for which a failed burn cannot be undone, if there is
/// one.
pub open spec fn compensation_rejection(
    ctx: CallContext,
    reserve_locked: nat,
    total_supply: nat,
    sell_amount: nat,
    reimburse_amount: nat,
) -> Option<ContractError> {
    if !ctx.self_call() {
        Some(ContractError::NotPrivate)
    } else if total_supply + sell_amount > u128::MAX {
        Some(ContractError::SupplyOverflow)
    } else if reserve_locked + reimburse_amount > u128::MAX {
        Some(ContractError::ReserveOverflow)
    } else {
        None
    }
}

impl Contract {
    /// Burns `sell_amount` tokens of `account_id`. `reimburse_amount` is what
    /// the pricing curve returns for the sale at the current supply and
    /// reserve.
    ///
    /// The reimbursement leaves the locked reserve, and the tokens leave the
    /// account and the supply. The receipt names the transfer of the
    /// reimbursement that is still to be made. A rejected burn changes
    /// nothing.
    pub fn ft_burn(
        &mut self,
        ctx: &CallContext,
        sell_amount: u128,
        account_id: String,
        reimburse_amount: u128,
    ) -> (result: Result<BurnReceipt, ContractError>)
        requires
            old(self).wf(),
        ensures
            final(self).wf(),
            match result {
                Ok(receipt) => {
                    &&& burn_rejection(
                        *ctx,
                        old(self)@.balance(account_id@),
                        old(self)@.reserve_locked,
                        old(self)@.total_supply,
                        sell_amount as nat,
                        reimburse_amount as nat,
                    ) is None
                    &&& final(self)@ == old(self)@.release(reimburse_amount as nat).debit(
                        account_id@,
                        sell_amount as nat,
                    )
                    &&& receipt.transfer.receiver_id@ == account_id@
                    &&& receipt.transfer.amount == reimburse_amount
                    &&& receipt.sell_amount == sell_amount
                    &&& receipt.reimburse_amount == reimburse_amount
                    &&& receipt.account_id@ == account_id@
                    &&& receipt.attached_deposit == ctx.attached_deposit
                },
                Err(e) => {
                    &&& burn_rejection(
                        *ctx,
                        old(self)@.balance(account_id@),
                        old(self)@.reserve_locked,
                        old(self)@.total_supply,
                        sell_amount as nat,
                        reimburse_amount as nat,
                    ) == Some(e)
                    &&& *final(self) == *old(self)
                },
            },
    {
        match self.check_burn(ctx, sell_amount, &account_id) {
            Ok(_) => {},
            Err(e) => {
                return Err(e);
            },
        }
        match self.continous_sale(reimburse_amount, sell_amount, &account_id) {
            Ok(_) => {},
            Err(e) => {
                return Err(e);
            },
        }
        let receiver_id = account_id.clone();
        Ok(
            BurnReceipt {
                transfer: FtTransfer { receiver_id, amount: reimburse_amount },
                sell_amount,
                reimburse_amount,
                account_id,
                attached_deposit: ctx.attached_deposit,
            },
        )
    }

    /// Checks a burn before any price is asked: the call, the amount, the
    /// balance of the account, and that there are reserve and supply to burn
    /// against.
    pub(crate) fn check_burn(&self, ctx: &CallContext, sell_amount: u128, account_id: &String) -> (result:
        Result<(), ContractError>)
        requires
            self.wf(),
        ensures
            result == match burn_rejection(
                *ctx,
                self@.balance(account_id@),
                self@.reserve_locked,
                self@.total_supply,
                sell_amount as nat,
                0,
            ) {
                Some(e) => Err::<(), ContractError>(e),
                None => Ok(()),
            },
    {
        match ctx.check_entry() {
            Ok(_) => {},
            Err(e) => {
                return Err(e);
            },
        }
        if sell_amount == 0 {
            return Err(ContractError::ZeroAmount);
        }
        if self.ft_balance_of(account_id) < sell_amount {
            return Err(ContractError::InsufficientBalance);
        }
        if self.lzr_locked() == 0 || self.ft_total_supply() == 0 || sell_amount
            > self.ft_total_supply() {
            return Err(ContractError::InsufficientSupply);
        }
        Ok(())
    }

    /// Books a sale: releases `reimburse_amount` from the locked reserve and
    /// destroys `sell_amount` tokens of `account_id`, or changes nothing. The
    /// reserve is never taken below zero: a reimbursement above what is
    /// locked is refused.
    pub fn continous_sale(&mut self, reimburse_amount: u128, sell_amount: u128, account_id: &String) -> (result:
        Result<u128, ContractError>)
        requires
            old(self).wf(),
        ensures
            final(self).wf(),
            match result {
                Ok(reimbursed) => {
                    &&& sale_rejection(
                        old(self)@.balance(account_id@),
                        old(self)@.reserve_locked,
                        sell_amount as nat,
                        reimburse_amount as nat,
                    ) is None
                    &&& reimbursed == reimburse_amount
                    &&& reimbursed <= old(self)@.reserve_locked
                    &&& final(self)@.reserve_locked == old(self)@.reserve_locked - reimbursed
                    &&& final(self)@ == old(self)@.release(reimburse_amount as nat).debit(
                        account_id@,
                        sell_amount as nat,
                    )
                },
                Err(e) => {
                    &&& sale_rejection(
                        old(self)@.balance(account_id@),
                        old(self)@.reserve_locked,
                        sell_amount as nat,
                        reimburse_amount as nat,
                    ) == Some(e)
                    &&& *final(self) == *old(self)
                },
            },
    {
        if reimburse_amount > self.lzr_locked() {
            return Err(ContractError::ReserveOverflow);
        }
        if sell_amount > self.ft_balance_of(account_id) {
            return Err(ContractError::InsufficientBalance);
        }
        let locked = self.lzr_locked() - reimburse_amount;
        self.set_reserve(locked);
        let burned = self.internal_burn(sell_amount, account_id);
        assert(burned is Ok);
        Ok(reimburse_amount)
    }

    /// Takes the outcome of the reimbursement transfer that followed a burn.
    ///
    /// Where the transfer succeeded the burn stands, and the reimbursement is
    /// what reached the caller. Where it failed the burn is undone: the
    /// tokens go back to the account and the supply, the reimbursement goes
    /// back into the locked reserve, nothing reached the caller, and the
    /// attached deposit is to be refunded.
    pub fn on_burn_transfer_callback(
        &mut self,
        ctx: &CallContext,
        call_result: Result<(), PromiseError>,
        sell_amount: u128,
        reimburse_amount: u128,
        account_id: String,
        attached_deposit: u128,
    ) -> (result: Result<BurnSettlement, ContractError>)
        requires
            old(self).wf(),
        ensures
            final(self).wf(),
            !ctx.self_call() ==> {
                &&& *final(self) == *old(self)
                &&& result == Err::<BurnSettlement, ContractError>(ContractError::NotPrivate)
            },
            ctx.self_call() && call_result is Ok ==> {
                &&& *final(self) == *old(self)
                &&& result matches Ok(settlement)
                &&& settlement.returned == reimburse_amount
                &&& settlement.refund is None
            },
            ctx.self_call() && call_result is Err ==> match result {
                Ok(settlement) => {
                    &&& compensation_rejection(
                        *ctx,
                        old(self)@.reserve_locked,
                        old(self)@.total_supply,
                        sell_amount as nat,
                        reimburse_amount as nat,
                    ) is None
                    &&& final(self)@ == old(self)@.credit(account_id@, sell_amount as nat).lock(
                        reimburse_amount as nat,
                    )
                    &&& settlement.returned == 0
                    &&& settlement.refund matches Some(refund)
                    &&& refund.receiver_id@ == account_id@
                    &&& refund.amount == attached_deposit
                },
                Err(e) => {
                    &&& compensation_rejection(
                        *ctx,
                        old(self)@.reserve_locked,
                        old(self)@.total_supply,
                        sell_amount as nat,
                        reimburse_amount as nat,
                    ) == Some(e)
                    &&& *final(self) == *old(self)
                },
            },
    {
        if !ctx.is_self_call() {
            return Err(ContractError::NotPrivate);
        }
        if call_result.is_ok() {
            return Ok(BurnSettlement { returned: reimburse_amount, refund: None });
        }
        if self.ft_total_supply().checked_add(sell_amount).is_none() {
            return Err(ContractError::SupplyOverflow);
        }
        let locked = match self.lzr_locked().checked_add(reimburse_amount) {
            Some(locked) => locked,
            None => {
                return Err(ContractError::ReserveOverflow);
            },
        };
        let minted = self.internal_mint(sell_amount, &account_id);
        assert(minted is Ok);
        self.set_reserve(locked);
        Ok(
            BurnSettlement {
                returned: 0,
                refund: Some(Refund { receiver_id: account_id, amount: attached_deposit }),
            },
        )
    }
}

} // verus!
