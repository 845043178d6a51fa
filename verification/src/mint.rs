//! Minting: a deposit of reserve currency buys new tokens.
//!
//! The incoming amount is split three ways: the reward share of the
//! beneficiary, the platform fee, and the remainder, which alone backs new
//! tokens. The ledger is changed at once; the reward share is then sent to
//! the beneficiary on the reserve-currency ledger. If that transfer fails the
//! failure is reported, and the mint stands.

use crate::context::{CallContext, PromiseError};
use crate::contract::{Contract, FtTransfer};
use crate::error::ContractError;
use vstd::prelude::*;

verus! {

/// The percentage of an incoming amount that is kept as platform fee.
pub const PLATFORM_FEE_PERCENT: u128 = 10;

/// What a successful mint hands back: the tokens created, and the transfer of
/// the reward share that is to be made.
#[derive(Debug, PartialEq, Eq)]
pub struct MintReceipt {
    pub tokens_minted: u128,
    pub reward: FtTransfer,
}

/// The share of an incoming amount that goes to the beneficiary.
pub open spec fn founder_reward(amount: nat, founder_percent: nat) -> nat {
    amount * founder_percent / 100
}

/// The share of an incoming amount that is kept as platform fee.
pub open spec fn platform_fee(amount: nat) -> nat {
    amount * PLATFORM_FEE_PERCENT as nat / 100
}

/// What is left of an incoming amount after the reward share and the
/// platform fee: the deposit that backs new tokens. Nothing is left where
/// the two take the whole amount or more.
pub open spec fn net_deposit(amount: nat, founder_percent: nat) -> nat {
    if founder_reward(amount, founder_percent) + platform_fee(amount) <= amount {
        (amount - founder_reward(amount, founder_percent) - platform_fee(amount)) as nat
    } else {
        0
    }
}

/// The first reason for which a mint is rejected, if there is one.
pub open spec fn mint_rejection(
    ctx: CallContext,
    reserve_locked: nat,
    total_supply: nat,
    amount: nat,
    founder_percent: nat,
    tokens_minted: nat,
) -> Option<ContractError> {
    if ctx.entry_rejection() is Some {
        ctx.entry_rejection()
    } else if amount * founder_percent > u128::MAX {
        Some(ContractError::AmountOverflow)
    } else if net_deposit(amount, founder_percent) == 0 {
        Some(ContractError::ZeroDeposit)
    } else {
        deposit_rejection(
            reserve_locked,
            total_supply,
            net_deposit(amount, founder_percent),
            tokens_minted,
        )
    }
}

/// The first reason for which a deposit cannot be booked, if there is one.
pub open spec fn deposit_rejection(
    reserve_locked: nat,
    total_supply: nat,
    deposit: nat,
    tokens_minted: nat,
) -> Option<ContractError> {
    if reserve_locked + deposit > u128::MAX {
        Some(ContractError::ReserveOverflow)
    } else if total_supply + tokens_minted > u128::MAX {
        Some(ContractError::SupplyOverflow)
    } else {
        None
    }
}

/// The share of `amount` that goes to the beneficiary, where the product of
/// amount and percentage is in range.
pub fn reward_share(amount: u128, founder_percent: u128) -> (reward: Option<u128>)
    ensures
        reward is Some <==> amount * founder_percent <= u128::MAX,
        reward matches Some(r) ==> r == founder_reward(amount as nat, founder_percent as nat),
{
    match amount.checked_mul(founder_percent) {
        Some(product) => Some(product / 100),
        None => None,
    }
}

/// The deposit that is left of `amount` after the reward share and the
/// platform fee, where the product of amount and percentage is in range.
pub fn deposit_after_split(amount: u128, founder_percent: u128) -> (deposit: Option<u128>)
    ensures
        deposit is Some <==> amount * founder_percent <= u128::MAX,
        deposit matches Some(d) ==> {
            &&& d == net_deposit(amount as nat, founder_percent as nat)
            &&& d > 0 ==> d + founder_reward(amount as nat, founder_percent as nat)
                + platform_fee(amount as nat) == amount
        },
{
    let reward = match reward_share(amount, founder_percent) {
        Some(reward) => reward,
        None => {
            return None;
        },
    };
    let fee = amount / 10;
    if reward > amount - fee {
        return Some(0);
    }
    Some(amount - fee - reward)
}

impl Contract {
    /// Mints for `account_id` against an incoming `amount` of reserve
    /// currency. `tokens_minted` is what the pricing curve returns for the net
    /// deposit at the current supply and reserve.
    ///
    /// The reward share and the platform fee are taken off the amount, the
    /// rest is locked as reserve, and `tokens_minted` tokens are created for
    /// the account: the reserve never grows by more than what came in. The
    /// receipt names the transfer of the reward share that is still to be
    /// made. A rejected mint changes nothing.
    pub fn ft_mint(
        &mut self,
        ctx: &CallContext,
        amount: u128,
        account_id: String,
        founder_id: String,
        founder_percent: u128,
        tokens_minted: u128,
    ) -> (result: Result<MintReceipt, ContractError>)
        requires
            old(self).wf(),
        ensures
            final(self).wf(),
            match result {
                Ok(receipt) => {
                    &&& mint_rejection(
                        *ctx,
                        old(self)@.reserve_locked,
                        old(self)@.total_supply,
                        amount as nat,
                        founder_percent as nat,
                        tokens_minted as nat,
                    ) is None
                    &&& final(self)@ == old(self)@.lock(
                        net_deposit(amount as nat, founder_percent as nat),
                    ).credit(account_id@, tokens_minted as nat)
                    &&& receipt.reward.amount + net_deposit(
                        amount as nat,
                        founder_percent as nat,
                    ) + platform_fee(amount as nat) == amount
                    &&& receipt.tokens_minted == tokens_minted
                    &&& receipt.reward.receiver_id@ == founder_id@
                    &&& receipt.reward.amount == founder_reward(
                        amount as nat,
                        founder_percent as nat,
                    )
                },
                Err(e) => {
                    &&& mint_rejection(
                        *ctx,
                        old(self)@.reserve_locked,
                        old(self)@.total_supply,
                        amount as nat,
                        founder_percent as nat,
                        tokens_minted as nat,
                    ) == Some(e)
                    &&& *final(self) == *old(self)
                },
            },
    {
        match ctx.check_entry() {
            Ok(_) => {},
            Err(e) => {
                return Err(e);
            },
        }
        let founder_reward_amount = match reward_share(amount, founder_percent) {
            Some(reward) => reward,
            None => {
                return Err(ContractError::AmountOverflow);
            },
        };
        let deposit_amount = match deposit_after_split(amount, founder_percent) {
            Some(deposit) => deposit,
            None => {
                return Err(ContractError::AmountOverflow);
            },
        };
        if deposit_amount == 0 {
            return Err(ContractError::ZeroDeposit);
        }
        match self.continous_mint(deposit_amount, &account_id, tokens_minted) {
            Ok(minted) => Ok(
                MintReceipt {
                    tokens_minted: minted,
                    reward: FtTransfer { receiver_id: founder_id, amount: founder_reward_amount },
                },
            ),
            Err(e) => Err(e),
        }
    }

    /// Books a deposit: locks `deposit` as reserve and creates
    /// `tokens_minted` tokens for `account_id`, or changes nothing.
    pub fn continous_mint(&mut self, deposit: u128, account_id: &String, tokens_minted: u128) -> (result:
        Result<u128, ContractError>)
        requires
            old(self).wf(),
        ensures
            final(self).wf(),
            match result {
                Ok(minted) => {
                    &&& deposit_rejection(
                        old(self)@.reserve_locked,
                        old(self)@.total_supply,
                        deposit as nat,
                        tokens_minted as nat,
                    ) is None
                    &&& minted == tokens_minted
                    &&& final(self)@ == old(self)@.lock(deposit as nat).credit(
                        account_id@,
                        tokens_minted as nat,
                    )
                },
                Err(e) => {
                    &&& deposit_rejection(
                        old(self)@.reserve_locked,
                        old(self)@.total_supply,
                        deposit as nat,
                        tokens_minted as nat,
                    ) == Some(e)
                    &&& *final(self) == *old(self)
                },
            },
    {
        let locked = match self.lzr_locked().checked_add(deposit) {
            Some(locked) => locked,
            None => {
                return Err(ContractError::ReserveOverflow);
            },
        };
        match self.internal_mint(tokens_minted, account_id) {
            Ok(_) => {},
            Err(e) => {
                return Err(e);
            },
        }
        self.set_reserve(locked);
        Ok(tokens_minted)
    }

    /// Takes the outcome of the reward transfer that followed a mint: the
    /// number of tokens minted where it succeeded, a failure where it did not.
    /// Either way the ledger stays as the mint left it: a mint is not undone.
    pub fn on_transfer_callback(
        &mut self,
        ctx: &CallContext,
        call_result: Result<(), PromiseError>,
        tokens_minted: u128,
    ) -> (result: Result<u128, ContractError>)
        ensures
            *final(self) == *old(self),
            result == if !ctx.self_call() {
                Err::<u128, ContractError>(ContractError::NotPrivate)
            } else if call_result is Err {
                Err(ContractError::RewardTransferFailed)
            } else {
                Ok(tokens_minted)
            },
    {
        if !ctx.is_self_call() {
            return Err(ContractError::NotPrivate);
        }
        match call_result {
            Ok(_) => Ok(tokens_minted),
            Err(_) => Err(ContractError::RewardTransferFailed),
        }
    }
}

} // verus!
