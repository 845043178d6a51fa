// The balance mapping and the ledger's own mutations.

use creator_coin::accounts::Accounts;
use creator_coin::context::CallContext;
use creator_coin::contract::{Contract, FtTransfer};
use creator_coin::error::ContractError;
use creator_coin::metadata::{TokenMetadata, TOKEN_DECIMAL};
use creator_coin::context::PromiseError;
use creator_coin::mint::{deposit_after_split, reward_share, MintReceipt};

fn id(name: &str) -> String {
    name.to_string()
}

fn private_call() -> CallContext {
    CallContext {
        predecessor_account_id: id("token.near"),
        current_account_id: id("token.near"),
        attached_deposit: 1,
    }
}

fn funded(balance: u128, reserve: u128) -> Contract {
    let mut contract = Contract::new_default_meta(id("owner"), id(""));
    contract.continous_mint(reserve, &id("alice"), balance).unwrap();
    contract
}

#[test]
fn accounts_hold_only_positive_balances() {
    let mut accounts = Accounts::new();
    assert_eq!(accounts.internal_unwrap_balance_of(&id("alice")), 0);
    accounts.internal_update_account(&id("alice"), 5);
    accounts.internal_update_account(&id("bob"), 7);
    assert_eq!(accounts.internal_unwrap_balance_of(&id("alice")), 5);
    assert_eq!(accounts.internal_unwrap_balance_of(&id("bob")), 7);
    accounts.internal_update_account(&id("alice"), 9);
    assert_eq!(accounts.internal_unwrap_balance_of(&id("alice")), 9);
    accounts.internal_update_account(&id("alice"), 0);
    assert_eq!(accounts.internal_unwrap_balance_of(&id("alice")), 0);
    assert_eq!(accounts.internal_unwrap_balance_of(&id("bob")), 7);
    accounts.internal_update_account(&id("carol"), 0);
    assert_eq!(accounts.internal_unwrap_balance_of(&id("carol")), 0);
}

#[test]
fn new_contract_is_empty() {
    let contract = Contract::new_default_meta(id("owner"), id("icon"));
    assert_eq!(contract.ft_total_supply(), 0);
    assert_eq!(contract.lzr_locked(), 0);
    assert_eq!(contract.ft_balance_of(&id("owner")), 0);
    assert_eq!(contract.owner_id(), "owner");
    let metadata = contract.ft_metadata();
    assert_eq!(metadata.spec, "ft-1.0.0");
    assert_eq!(metadata.name, "Loozr-CT");
    assert_eq!(metadata.symbol, "LZR-CT");
    assert_eq!(metadata.icon, Some(id("icon")));
    assert_eq!(metadata.reference, None);
    assert_eq!(metadata.reference_hash, None);
    assert_eq!(metadata.decimals, 24);
    assert_eq!(TOKEN_DECIMAL, 24);
    assert!(metadata.is_valid());
    assert_eq!(contract.reserve_balance(), 0);
}

#[test]
fn metadata_validity() {
    let mut metadata = TokenMetadata::creator_token(id(""));
    assert!(metadata.is_valid());
    metadata.reference = Some(id("https://example.com"));
    assert!(!metadata.is_valid());
    metadata.reference_hash = Some(vec![0u8; 31]);
    assert!(!metadata.is_valid());
    metadata.reference_hash = Some(vec![0u8; 32]);
    assert!(metadata.is_valid());
    metadata.reference = None;
    assert!(!metadata.is_valid());
    metadata.reference_hash = None;
    metadata.spec = id("ft-2.0.0");
    assert!(!metadata.is_valid());
}

#[test]
fn new_keeps_the_given_metadata() {
    let mut metadata = TokenMetadata::creator_token(id("x"));
    metadata.name = id("Other");
    let contract = Contract::new(id("owner"), metadata);
    assert_eq!(contract.ft_metadata().name, "Other");
    assert_eq!(contract.owner_id(), "owner");
    assert_eq!(contract.ft_total_supply(), 0);
}

#[test]
fn mint_and_burn_move_balance_and_supply_together() {
    let mut contract = Contract::new_default_meta(id("owner"), id(""));
    contract.internal_mint(10, &id("alice")).unwrap();
    contract.internal_mint(5, &id("bob")).unwrap();
    assert_eq!(contract.ft_total_supply(), 15);
    assert_eq!(contract.ft_balance_of(&id("alice")), 10);
    contract.internal_burn(4, &id("alice")).unwrap();
    assert_eq!(contract.ft_total_supply(), 11);
    assert_eq!(contract.ft_balance_of(&id("alice")), 6);
    assert_eq!(contract.internal_burn(7, &id("alice")), Err(ContractError::InsufficientBalance));
    assert_eq!(contract.ft_total_supply(), 11);
    contract.internal_burn(6, &id("alice")).unwrap();
    assert_eq!(contract.ft_balance_of(&id("alice")), 0);
    assert_eq!(contract.ft_total_supply(), 5);
    assert_eq!(contract.ft_balance_of(&id("bob")), 5);
    assert_eq!(contract.lzr_locked(), 0);
}

#[test]
fn supply_overflow_is_refused() {
    let mut contract = Contract::new_default_meta(id("owner"), id(""));
    contract.internal_mint(u128::MAX, &id("alice")).unwrap();
    assert_eq!(contract.internal_mint(1, &id("bob")), Err(ContractError::SupplyOverflow));
    assert_eq!(contract.internal_mint(1, &id("alice")), Err(ContractError::SupplyOverflow));
    assert_eq!(contract.ft_total_supply(), u128::MAX);
    assert_eq!(contract.ft_balance_of(&id("alice")), u128::MAX);
    assert_eq!(contract.ft_balance_of(&id("bob")), 0);
    assert_eq!(
        contract.continous_mint(5, &id("bob"), 1),
        Err(ContractError::SupplyOverflow)
    );
    assert_eq!(contract.lzr_locked(), 0);
}

#[test]
fn reserve_overflow_is_refused() {
    let mut contract = Contract::new_default_meta(id("owner"), id(""));
    contract.continous_mint(u128::MAX, &id("alice"), 3).unwrap();
    assert_eq!(contract.lzr_locked(), u128::MAX);
    assert_eq!(contract.continous_mint(1, &id("alice"), 1), Err(ContractError::ReserveOverflow));
    assert_eq!(contract.ft_total_supply(), 3);
    assert_eq!(contract.lzr_locked(), u128::MAX);
}

#[test]
fn fee_split() {
    // Reward share, platform fee and deposit add up to the amount.
    assert_eq!(
        deposit_after_split(10_000_000_000_000_000_000_000_000, 10),
        Some(8_000_000_000_000_000_000_000_000)
    );
    assert_eq!(
        deposit_after_split(10_000_000_000_000_000_000_000_000, 0),
        Some(9_000_000_000_000_000_000_000_000)
    );
    assert_eq!(deposit_after_split(100, 50), Some(40));
    assert_eq!(deposit_after_split(100, 89), Some(1));
    assert_eq!(deposit_after_split(1000, 15), Some(750));
    assert_eq!(deposit_after_split(19, 10), Some(17));
    assert_eq!(deposit_after_split(1, 0), Some(1));
    assert_eq!(deposit_after_split(9, 50), Some(5));
    // Nothing is left where reward and fee take all of it, or more.
    assert_eq!(deposit_after_split(0, 10), Some(0));
    assert_eq!(deposit_after_split(100, 90), Some(0));
    assert_eq!(deposit_after_split(100, 100), Some(0));
    assert_eq!(deposit_after_split(100, 250), Some(0));
    assert_eq!(deposit_after_split(u128::MAX, 1), Some(u128::MAX - u128::MAX / 10 - u128::MAX / 100));
    assert_eq!(deposit_after_split(u128::MAX, 2), None);
    assert_eq!(reward_share(10_000_000_000_000_000_000_000_000, 10), Some(1_000_000_000_000_000_000_000_000));
    assert_eq!(reward_share(199, 50), Some(99));
    assert_eq!(reward_share(7, 0), Some(0));
    assert_eq!(reward_share(1, 250), Some(2));
    assert_eq!(reward_share(u128::MAX, 2), None);
    assert_eq!(reward_share(u128::MAX, 1), Some(u128::MAX / 100));
}

#[test]
fn mint_books_deposit_and_names_the_reward() {
    let mut contract = Contract::new_default_meta(id("owner"), id(""));
    let receipt = contract.ft_mint(&private_call(), 1000, id("alice"), id("founder"), 15, 77).unwrap();
    assert_eq!(
        receipt,
        MintReceipt { tokens_minted: 77, reward: FtTransfer { receiver_id: id("founder"), amount: 150 } }
    );
    assert_eq!(contract.ft_total_supply(), 77);
    assert_eq!(contract.ft_balance_of(&id("alice")), 77);
    assert_eq!(contract.ft_balance_of(&id("founder")), 0);
    assert_eq!(contract.lzr_locked(), 750);
}

#[test]
fn reward_and_deposit_never_exceed_the_amount() {
    let mut contract = Contract::new_default_meta(id("owner"), id(""));
    let receipt = contract.ft_mint(&private_call(), 100, id("alice"), id("founder"), 50, 7).unwrap();
    assert_eq!(receipt.reward.amount, 50);
    assert_eq!(contract.lzr_locked(), 40);
    assert!(receipt.reward.amount + contract.lzr_locked() <= 100);
    let receipt = contract.ft_mint(&private_call(), 100, id("alice"), id("founder"), 89, 7).unwrap();
    assert_eq!(receipt.reward.amount, 89);
    assert_eq!(contract.lzr_locked(), 41);
    assert_eq!(contract.ft_total_supply(), 14);
}

#[test]
fn sale_is_booked_or_changes_nothing() {
    let mut contract = funded(50, 40);
    assert_eq!(contract.continous_sale(41, 10, &id("alice")), Err(ContractError::ReserveOverflow));
    assert_eq!(contract.continous_sale(40, 51, &id("alice")), Err(ContractError::InsufficientBalance));
    assert_eq!(contract.continous_sale(1, 1, &id("bob")), Err(ContractError::InsufficientBalance));
    assert_eq!(contract.ft_total_supply(), 50);
    assert_eq!(contract.ft_balance_of(&id("alice")), 50);
    assert_eq!(contract.lzr_locked(), 40);
    assert_eq!(contract.continous_sale(15, 10, &id("alice")), Ok(15));
    assert_eq!(contract.ft_total_supply(), 40);
    assert_eq!(contract.ft_balance_of(&id("alice")), 40);
    assert_eq!(contract.lzr_locked(), 25);
    assert_eq!(contract.continous_sale(25, 40, &id("alice")), Ok(25));
    assert_eq!(contract.ft_total_supply(), 0);
    assert_eq!(contract.lzr_locked(), 0);
    assert_eq!(contract.continous_sale(1, 0, &id("alice")), Err(ContractError::ReserveOverflow));
}

#[test]
fn mint_rejections() {
    let mut contract = funded(50, 40);
    let mut ctx = private_call();
    ctx.predecessor_account_id = id("mallory");
    assert_eq!(
        contract.ft_mint(&ctx, 1000, id("alice"), id("founder"), 10, 5),
        Err(ContractError::NotPrivate)
    );
    let mut ctx = private_call();
    ctx.attached_deposit = 0;
    assert_eq!(
        contract.ft_mint(&ctx, 1000, id("alice"), id("founder"), 10, 5),
        Err(ContractError::RequiresOneYocto)
    );
    ctx.attached_deposit = 2;
    assert_eq!(
        contract.ft_mint(&ctx, 1000, id("alice"), id("founder"), 10, 5),
        Err(ContractError::RequiresOneYocto)
    );
    let ctx = private_call();
    assert_eq!(
        contract.ft_mint(&ctx, u128::MAX, id("alice"), id("founder"), 2, 5),
        Err(ContractError::AmountOverflow)
    );
    assert_eq!(
        contract.ft_mint(&ctx, 0, id("alice"), id("founder"), 10, 5),
        Err(ContractError::ZeroDeposit)
    );
    assert_eq!(
        contract.ft_mint(&ctx, 100, id("alice"), id("founder"), 90, 5),
        Err(ContractError::ZeroDeposit)
    );
    assert_eq!(
        contract.ft_mint(&ctx, 100, id("alice"), id("founder"), 250, 5),
        Err(ContractError::ZeroDeposit)
    );
    assert_eq!(
        contract.ft_mint(&ctx, 10, id("alice"), id("founder"), 1, u128::MAX),
        Err(ContractError::SupplyOverflow)
    );
    assert_eq!(contract.ft_total_supply(), 50);
    assert_eq!(contract.ft_balance_of(&id("alice")), 50);
    assert_eq!(contract.lzr_locked(), 40);
    let mut full = funded(50, u128::MAX - 8);
    assert_eq!(
        full.ft_mint(&ctx, 10, id("alice"), id("founder"), 1, u128::MAX),
        Err(ContractError::ReserveOverflow)
    );
    assert_eq!(full.ft_total_supply(), 50);
    assert_eq!(full.lzr_locked(), u128::MAX - 8);
    assert!(full.ft_mint(&ctx, 8, id("alice"), id("founder"), 1, 1).is_ok());
    assert_eq!(full.lzr_locked(), u128::MAX);
}

#[test]
fn burn_rejections_change_nothing() {
    let mut contract = funded(50, 40);
    contract.ft_transfer(&id("alice"), &id("bob"), 20).unwrap();
    let ctx = private_call();
    // More than the caller's balance.
    assert_eq!(
        contract.ft_burn(&ctx, 31, id("alice"), 1),
        Err(ContractError::InsufficientBalance)
    );
    // More than the total supply.
    assert_eq!(
        contract.ft_burn(&ctx, 51, id("alice"), 1),
        Err(ContractError::InsufficientBalance)
    );
    assert_eq!(contract.ft_burn(&ctx, 0, id("alice"), 0), Err(ContractError::ZeroAmount));
    // A reimbursement above the locked reserve.
    assert_eq!(contract.ft_burn(&ctx, 10, id("alice"), 41), Err(ContractError::ReserveOverflow));
    let mut outsider = private_call();
    outsider.predecessor_account_id = id("alice");
    assert_eq!(contract.ft_burn(&outsider, 10, id("alice"), 1), Err(ContractError::NotPrivate));
    let mut unpaid = private_call();
    unpaid.attached_deposit = 0;
    assert_eq!(contract.ft_burn(&unpaid, 10, id("alice"), 1), Err(ContractError::RequiresOneYocto));
    assert_eq!(contract.ft_total_supply(), 50);
    assert_eq!(contract.ft_balance_of(&id("alice")), 30);
    assert_eq!(contract.ft_balance_of(&id("bob")), 20);
    assert_eq!(contract.lzr_locked(), 40);
}

#[test]
fn burn_without_reserve_is_rejected() {
    let mut contract = Contract::new_default_meta(id("owner"), id(""));
    contract.internal_mint(50, &id("alice")).unwrap();
    let ctx = private_call();
    assert_eq!(contract.ft_burn(&ctx, 10, id("alice"), 0), Err(ContractError::InsufficientSupply));
    assert_eq!(contract.sale_input(&ctx, 10, &id("alice")), Err(ContractError::InsufficientSupply));
    assert_eq!(contract.ft_total_supply(), 50);
    assert_eq!(contract.ft_balance_of(&id("alice")), 50);
    assert_eq!(contract.lzr_locked(), 0);
}

#[test]
fn burn_then_failure_restores_exactly() {
    let mut contract = funded(50, 40);
    let ctx = private_call();
    let receipt = contract.ft_burn(&ctx, 50, id("alice"), 40).unwrap();
    assert_eq!(contract.ft_total_supply(), 0);
    assert_eq!(contract.ft_balance_of(&id("alice")), 0);
    assert_eq!(contract.lzr_locked(), 0);
    assert_eq!(receipt.transfer, FtTransfer { receiver_id: id("alice"), amount: 40 });
    let settlement = contract
        .on_burn_transfer_callback(
            &ctx,
            Err(PromiseError::NotReady),
            receipt.sell_amount,
            receipt.reimburse_amount,
            receipt.account_id,
            receipt.attached_deposit,
        )
        .unwrap();
    assert_eq!(settlement.returned, 0);
    assert_eq!(settlement.refund.unwrap().amount, 1);
    assert_eq!(contract.ft_total_supply(), 50);
    assert_eq!(contract.ft_balance_of(&id("alice")), 50);
    assert_eq!(contract.lzr_locked(), 40);
}

#[test]
fn compensation_rejections() {
    let mut contract = funded(u128::MAX, u128::MAX);
    let ctx = private_call();
    assert_eq!(
        contract.on_burn_transfer_callback(&ctx, Err(PromiseError::Failed), 1, 1, id("alice"), 1),
        Err(ContractError::SupplyOverflow)
    );
    assert_eq!(
        contract.on_burn_transfer_callback(&ctx, Err(PromiseError::Failed), 0, 1, id("alice"), 1),
        Err(ContractError::ReserveOverflow)
    );
    let mut outsider = private_call();
    outsider.current_account_id = id("other");
    assert_eq!(
        contract.on_burn_transfer_callback(&outsider, Ok(()), 0, 0, id("alice"), 1),
        Err(ContractError::NotPrivate)
    );
    assert_eq!(
        contract.on_transfer_callback(&outsider, Ok(()), 5),
        Err(ContractError::NotPrivate)
    );
    assert_eq!(contract.ft_total_supply(), u128::MAX);
    assert_eq!(contract.lzr_locked(), u128::MAX);
}

#[test]
fn transfer_rejections() {
    let mut contract = funded(50, 40);
    assert_eq!(contract.ft_transfer(&id("alice"), &id("alice"), 5), Err(ContractError::SameAccount));
    assert_eq!(contract.ft_transfer(&id("alice"), &id("bob"), 0), Err(ContractError::ZeroAmount));
    assert_eq!(
        contract.ft_transfer(&id("alice"), &id("bob"), 51),
        Err(ContractError::InsufficientBalance)
    );
    assert_eq!(
        contract.ft_transfer(&id("bob"), &id("alice"), 1),
        Err(ContractError::InsufficientBalance)
    );
    contract.ft_transfer(&id("alice"), &id("bob"), 50).unwrap();
    assert_eq!(contract.ft_balance_of(&id("alice")), 0);
    assert_eq!(contract.ft_balance_of(&id("bob")), 50);
    assert_eq!(contract.ft_total_supply(), 50);
    assert_eq!(contract.lzr_locked(), 40);
}

#[test]
fn call_context_checks() {
    let ctx = private_call();
    assert!(ctx.is_self_call());
    assert_eq!(ctx.check_entry(), Ok(()));
    let outsider = CallContext {
        predecessor_account_id: id("alice"),
        current_account_id: id("token.near"),
        attached_deposit: 0,
    };
    assert!(!outsider.is_self_call());
    assert_eq!(outsider.check_entry(), Err(ContractError::NotPrivate));
}
