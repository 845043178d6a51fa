//! The factory that sets up a token contract of its own for a creator.
//!
//! Setting one up is a single asynchronous step: the factory decides what is
//! to be created, the caller carries it out, and the completion handler
//! refunds the attached deposit where the creation failed.

use crate::burn::Refund;
use crate::context::CallContext;
use crate::error::ContractError;
use near_sdk::AccountId;
use vstd::prelude::*;
use vstd::string::*;

verus! {

/// The deposit attached to the initialisation call of a new contract.
pub const NO_DEPOSIT: u128 = 0;

/// The gas given to the initialisation call of a new contract.
pub const CREATE_CALL_GAS: u64 = 25_000_000_000_000;

/// The factory of creator coins. It keeps no state.
pub struct CreatorCoinFactory {}

/// The arguments of the initialisation call of a new contract.
#[derive(Debug, PartialEq, Eq)]
pub struct CreatorCoinArgs {
    pub owner_id: String,
}

/// What is to be done to set up a creator coin: create the account, deploy
/// the token contract to it, hand it the attached deposit, and initialise it
/// with `init_args`. The completion handler is then called with
/// `attached_deposit` and `predecessor_account_id`.
#[derive(Debug, PartialEq, Eq)]
pub struct CoinCreation {
    pub account_id: String,
    pub init_args: CreatorCoinArgs,
    pub init_deposit: u128,
    pub init_gas: u64,
    pub attached_deposit: u128,
    pub predecessor_account_id: String,
}

/// How the creation of a coin ended, and the refund that is to be made where
/// it failed.
#[derive(Debug, PartialEq, Eq)]
pub struct CoinOutcome {
    pub created: bool,
    pub refund: Option<Refund>,
}

/// A lower-case letter or a digit.
pub open spec fn is_alphanumeric(c: char) -> bool {
    ('a' <= c && c <= 'z') || ('0' <= c && c <= '9')
}

/// One of the characters that separate the parts of an account identifier.
pub open spec fn is_separator(c: char) -> bool {
    c == '-' || c == '_' || c == '.'
}

/// The rule for account identifiers: 2 to 64 characters, each a lower-case
/// letter, a digit or a separator, with no separator at either end and no
/// two separators in a row.
pub open spec fn valid_account_id(id: Seq<char>) -> bool {
    &&& 2 <= id.len() <= 64
    &&& forall|i: int| 0 <= i < id.len() ==> is_alphanumeric(id[i]) || is_separator(id[i])
    &&& !is_separator(id[0])
    &&& !is_separator(id[id.len() - 1])
    &&& forall|i: int|
        0 < i < id.len() ==> !(is_separator(id[i - 1]) && is_separator(#[trigger] id[i]))
}

/// The identifier of the account of the coin `name` under the factory's own
/// account.
pub open spec fn coin_account_id(name: Seq<char>, factory_id: Seq<char>) -> Seq<char> {
    name + seq!['.'] + factory_id
}

/// Parsing a string as a `near_sdk::AccountId`: it succeeds exactly on the
/// strings that follow the rule for account identifiers.
#[verifier::external_body]
fn is_valid_account_id(id: &String) -> (ok: bool)
    ensures
        ok == valid_account_id(id@),
{
    id.parse::<AccountId>().is_ok()
}

impl CreatorCoinFactory {
    /// Decides how the coin `name` of `owner_id` is set up: on the account
    /// `name` under the factory's own, with the deposit attached to this
    /// call. Refused where that is no valid account identifier.
    pub fn create(&mut self, ctx: &CallContext, owner_id: String, name: String) -> (result: Result<
        CoinCreation,
        ContractError,
    >)
        ensures
            match result {
                Ok(creation) => {
                    &&& valid_account_id(coin_account_id(name@, ctx.current_account_id@))
                    &&& creation.account_id@ == coin_account_id(name@, ctx.current_account_id@)
                    &&& creation.init_args.owner_id@ == owner_id@
                    &&& creation.init_deposit == NO_DEPOSIT
                    &&& creation.init_gas == CREATE_CALL_GAS
                    &&& creation.attached_deposit == ctx.attached_deposit
                    &&& creation.predecessor_account_id@ == ctx.predecessor_account_id@
                },
                Err(e) => {
                    &&& e == ContractError::InvalidAccountId
                    &&& !valid_account_id(coin_account_id(name@, ctx.current_account_id@))
                },
            },
    {
        let mut account_id = name;
        account_id.append(".");
        account_id.append(ctx.current_account_id.as_str());
        proof {
            reveal_strlit(".");
            assert("."@ =~= seq!['.']);
        }
        if !is_valid_account_id(&account_id) {
            return Err(ContractError::InvalidAccountId);
        }
        Ok(
            CoinCreation {
                account_id,
                init_args: CreatorCoinArgs { owner_id },
                init_deposit: NO_DEPOSIT,
                init_gas: CREATE_CALL_GAS,
                attached_deposit: ctx.attached_deposit,
                predecessor_account_id: ctx.predecessor_account_id.clone(),
            },
        )
    }

    /// Takes the outcome of the creation of a coin. Where it failed, the
    /// deposit that was attached to `create` goes back to who called it.
    /// Only the factory itself may report an outcome.
    pub fn on_coin_create(
        &mut self,
        ctx: &CallContext,
        attached_deposit: u128,
        predecessor_account_id: String,
        coin_created: bool,
    ) -> (result: Result<CoinOutcome, ContractError>)
        ensures
            !ctx.self_call() ==> result == Err::<CoinOutcome, ContractError>(
                ContractError::NotPrivate,
            ),
            ctx.self_call() ==> {
                &&& result matches Ok(outcome)
                &&& outcome.created == coin_created
                &&& coin_created ==> outcome.refund is None
                &&& !coin_created ==> {
                    &&& outcome.refund matches Some(refund)
                    &&& refund.receiver_id@ == predecessor_account_id@
                    &&& refund.amount == attached_deposit
                }
            },
    {
        if !ctx.is_self_call() {
            return Err(ContractError::NotPrivate);
        }
        if coin_created {
            return Ok(CoinOutcome { created: true, refund: None });
        }
        Ok(
            CoinOutcome {
                created: false,
                refund: Some(Refund { receiver_id: predecessor_account_id, amount: attached_deposit }),
            },
        )
    }
}

} // verus!
