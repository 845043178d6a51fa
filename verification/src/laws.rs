//! What holds of the ledger across operations.

use crate::accounts::{lemma_balance_le_total, lemma_total_insert};
use crate::burn::{burn_rejection, compensation_rejection};
use crate::context::CallContext;
use crate::contract::ContractView;
use crate::mint::{founder_reward, mint_rejection, net_deposit, platform_fee};
use vstd::prelude::*;

verus! {

/// In a consistent ledger an account has an entry in the balance mapping if
/// and only if its balance is not zero.
pub proof fn lemma_entry_iff_nonzero(ledger: ContractView, id: Seq<char>)
    requires
        ledger.consistent(),
    ensures
        ledger.balances.dom().contains(id) <==> ledger.balance(id) != 0,
{
}

/// Creating tokens for an account keeps the ledger consistent: the total
/// supply and the sum of all balances grow by the same amount.
pub proof fn lemma_credit_consistent(ledger: ContractView, id: Seq<char>, amount: nat)
    requires
        ledger.consistent(),
    ensures
        ledger.credit(id, amount).consistent(),
        ledger.credit(id, amount).total_supply == ledger.total_supply + amount,
        ledger.credit(id, amount).balance(id) == ledger.balance(id) + amount,
        ledger.credit(id, amount).reserve_locked == ledger.reserve_locked,
{
    lemma_total_insert(ledger.balances, id, ledger.balance(id) + amount);
}

/// Destroying tokens that an account holds keeps the ledger consistent: the
/// total supply and the sum of all balances shrink by the same amount.
pub proof fn lemma_debit_consistent(ledger: ContractView, id: Seq<char>, amount: nat)
    requires
        ledger.consistent(),
        amount <= ledger.balance(id),
    ensures
        amount <= ledger.total_supply,
        ledger.debit(id, amount).consistent(),
        ledger.debit(id, amount).total_supply == ledger.total_supply - amount,
        ledger.debit(id, amount).balance(id) == ledger.balance(id) - amount,
        ledger.debit(id, amount).reserve_locked == ledger.reserve_locked,
{
    lemma_balance_le_total(ledger.balances, id);
    lemma_total_insert(ledger.balances, id, (ledger.balance(id) - amount) as nat);
}

/// Locking and releasing reserve leave balances and supply alone, and a
/// release of no more than what is locked leaves a reserve that is not
/// negative.
pub proof fn lemma_reserve_moves(ledger: ContractView, amount: nat)
    requires
        ledger.consistent(),
    ensures
        ledger.lock(amount).consistent(),
        ledger.lock(amount).reserve_locked == ledger.reserve_locked + amount,
        amount <= ledger.reserve_locked ==> {
            &&& ledger.release(amount).consistent()
            &&& ledger.release(amount).reserve_locked + amount == ledger.reserve_locked
            &&& ledger.release(amount).lock(amount) == ledger
        },
{
}

/// An accepted mint splits the incoming amount without creating any: the
/// reward share, the platform fee and the deposit that is locked as reserve
/// add up to the amount, so reward and deposit together never exceed it.
pub proof fn lemma_mint_split(
    ctx: CallContext,
    ledger: ContractView,
    amount: nat,
    founder_percent: nat,
    tokens_minted: nat,
)
    requires
        mint_rejection(
            ctx,
            ledger.reserve_locked,
            ledger.total_supply,
            amount,
            founder_percent,
            tokens_minted,
        ) is None,
    ensures
        net_deposit(amount, founder_percent) > 0,
        founder_reward(amount, founder_percent) + platform_fee(amount) + net_deposit(
            amount,
            founder_percent,
        ) == amount,
        founder_reward(amount, founder_percent) + net_deposit(amount, founder_percent) <= amount,
        ledger.lock(net_deposit(amount, founder_percent)).reserve_locked <= ledger.reserve_locked
            + amount,
{
}

/// Whatever the percentage, the deposit that is left of an amount is no more
/// than the amount less the reward share.
pub proof fn lemma_net_deposit_bounded(amount: nat, founder_percent: nat)
    ensures
        net_deposit(amount, founder_percent) + founder_reward(amount, founder_percent) <= amount
            || net_deposit(amount, founder_percent) == 0,
        net_deposit(amount, founder_percent) <= amount,
{
}

/// Undoing a burn restores the ledger exactly: after a burn of `sell_amount`
/// tokens of `id` against `reimburse_amount` of reserve, the compensation for
/// the same burn gives back the state from before it.
pub proof fn lemma_compensation_restores(
    ledger: ContractView,
    id: Seq<char>,
    sell_amount: nat,
    reimburse_amount: nat,
)
    requires
        ledger.consistent(),
        sell_amount <= ledger.balance(id),
        reimburse_amount <= ledger.reserve_locked,
    ensures
        ledger.release(reimburse_amount).debit(id, sell_amount).credit(id, sell_amount).lock(
            reimburse_amount,
        ) == ledger,
{
    lemma_balance_le_total(ledger.balances, id);
    let burned = ledger.release(reimburse_amount).debit(id, sell_amount);
    let restored = burned.credit(id, sell_amount).lock(reimburse_amount);
    assert(restored.balances =~= ledger.balances);
}

/// A burn that the ledger accepted can always be undone: the compensation
/// for it is never rejected for want of numeric range.
pub proof fn lemma_compensation_accepted(
    ctx: CallContext,
    ledger: ContractView,
    id: Seq<char>,
    sell_amount: nat,
    reimburse_amount: nat,
)
    requires
        ledger.consistent(),
        ledger.total_supply <= u128::MAX,
        ledger.reserve_locked <= u128::MAX,
        burn_rejection(
            ctx,
            ledger.balance(id),
            ledger.reserve_locked,
            ledger.total_supply,
            sell_amount,
            reimburse_amount,
        ) is None,
    ensures
        compensation_rejection(
            ctx,
            ledger.release(reimburse_amount).debit(id, sell_amount).reserve_locked,
            ledger.release(reimburse_amount).debit(id, sell_amount).total_supply,
            sell_amount,
            reimburse_amount,
        ) is None,
{
    lemma_balance_le_total(ledger.balances, id);
}

/// Burning more than the account holds, burning while no reserve is locked
/// and burning more than the total supply are each rejected, whatever the
/// call carries and whatever the curve returned.
pub proof fn lemma_burn_rejected(
    ctx: CallContext,
    ledger: ContractView,
    id: Seq<char>,
    sell_amount: nat,
    reimburse_amount: nat,
)
    requires
        ledger.consistent(),
        sell_amount > ledger.balance(id) || ledger.reserve_locked == 0 || sell_amount
            > ledger.total_supply,
    ensures
        burn_rejection(
            ctx,
            ledger.balance(id),
            ledger.reserve_locked,
            ledger.total_supply,
            sell_amount,
            reimburse_amount,
        ) is Some,
{
    lemma_balance_le_total(ledger.balances, id);
}

/// A transfer between two accounts leaves the total supply and the locked
/// reserve as they are, and moves exactly the amount.
pub proof fn lemma_transfer_conserves(
    ledger: ContractView,
    sender_id: Seq<char>,
    receiver_id: Seq<char>,
    amount: nat,
)
    requires
        ledger.consistent(),
        sender_id != receiver_id,
        amount <= ledger.balance(sender_id),
    ensures
        ledger.debit(sender_id, amount).credit(receiver_id, amount).consistent(),
        ledger.debit(sender_id, amount).credit(receiver_id, amount).total_supply
            == ledger.total_supply,
        ledger.debit(sender_id, amount).credit(receiver_id, amount).reserve_locked
            == ledger.reserve_locked,
        ledger.debit(sender_id, amount).credit(receiver_id, amount).balance(sender_id)
            == ledger.balance(sender_id) - amount,
        ledger.debit(sender_id, amount).credit(receiver_id, amount).balance(receiver_id)
            == ledger.balance(receiver_id) + amount,
{
    lemma_debit_consistent(ledger, sender_id, amount);
    lemma_credit_consistent(ledger.debit(sender_id, amount), receiver_id, amount);
}

} // verus!
