// Setting up a creator coin.

use creator_coin::burn::Refund;
use creator_coin::context::CallContext;
use creator_coin::error::ContractError;
use creator_coin::factory::{
    CoinCreation, CoinOutcome, CreatorCoinArgs, CreatorCoinFactory, CREATE_CALL_GAS, NO_DEPOSIT,
};

fn id(name: &str) -> String {
    name.to_string()
}

fn call(predecessor: &str, current: &str, attached_deposit: u128) -> CallContext {
    CallContext {
        predecessor_account_id: id(predecessor),
        current_account_id: id(current),
        attached_deposit,
    }
}

#[test]
fn create_names_the_account_under_the_factory() {
    let mut factory = CreatorCoinFactory {};
    let creation = factory.create(&call("alice.near", "factory.near", 500), id("alice.near"), id("alice"));
    assert_eq!(
        creation,
        Ok(CoinCreation {
            account_id: id("alice.factory.near"),
            init_args: CreatorCoinArgs { owner_id: id("alice.near") },
            init_deposit: 0,
            init_gas: 25_000_000_000_000,
            attached_deposit: 500,
            predecessor_account_id: id("alice.near"),
        })
    );
    assert_eq!(NO_DEPOSIT, 0);
    assert_eq!(CREATE_CALL_GAS, 25_000_000_000_000);
}

#[test]
fn create_refuses_invalid_names() {
    let mut factory = CreatorCoinFactory {};
    let ctx = call("alice.near", "factory.near", 500);
    for name in ["", "Alice", "al ice", "alice.", ".alice", "al--ice", "al_.ice", "alice_", "ålice"] {
        assert_eq!(
            factory.create(&ctx, id("alice.near"), id(name)),
            Err(ContractError::InvalidAccountId),
            "{}",
            name
        );
    }
    let long = "a".repeat(51);
    assert!(factory.create(&ctx, id("alice.near"), long.clone()).is_ok());
    let too_long = "a".repeat(52);
    assert_eq!(
        factory.create(&ctx, id("alice.near"), too_long),
        Err(ContractError::InvalidAccountId)
    );
    for name in ["a", "a-b", "a_b.c", "0", "b-o_w_e-n"] {
        assert!(factory.create(&ctx, id("alice.near"), id(name)).is_ok(), "{}", name);
    }
}

#[test]
fn failed_creation_refunds_the_deposit() {
    let mut factory = CreatorCoinFactory {};
    let own = call("factory.near", "factory.near", 0);
    assert_eq!(
        factory.on_coin_create(&own, 500, id("alice.near"), true),
        Ok(CoinOutcome { created: true, refund: None })
    );
    assert_eq!(
        factory.on_coin_create(&own, 500, id("alice.near"), false),
        Ok(CoinOutcome {
            created: false,
            refund: Some(Refund { receiver_id: id("alice.near"), amount: 500 }),
        })
    );
    let outsider = call("alice.near", "factory.near", 0);
    assert_eq!(
        factory.on_coin_create(&outsider, 500, id("alice.near"), false),
        Err(ContractError::NotPrivate)
    );
}
