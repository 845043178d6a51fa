//! The reasons for which the ledger rejects an operation.

use vstd::prelude::*;
use vstd::string::*;

verus! {

/// Why an operation was rejected. A rejected operation changes nothing.
#[derive(Clone, Copy, Debug, PartialEq, Eq, Structural)]
pub enum ContractError {
    /// A privileged entry point was called by another account than the
    /// contract's own.
    NotPrivate,
    /// The call did not carry the attached deposit of exactly one unit.
    RequiresOneYocto,
    /// Nothing is left of the incoming amount to back new tokens, once the
    /// reward share and the platform fee are taken off.
    ZeroDeposit,
    /// The amount to burn or to transfer is zero.
    ZeroAmount,
    /// The account holds fewer tokens than the operation takes from it.
    InsufficientBalance,
    /// No reserve is locked, no token exists, or the amount exceeds the supply.
    InsufficientSupply,
    /// The reserve would leave its numeric range, above or below.
    ReserveOverflow,
    /// The total supply would leave its numeric range.
    SupplyOverflow,
    /// The reward share of the incoming amount cannot be computed in range.
    AmountOverflow,
    /// An amount, or a ratio of two amounts, is outside what decimal
    /// arithmetic can hold.
    DecimalRange,
    /// A name is no valid account identifier.
    InvalidAccountId,
    /// Sender and receiver of a transfer are the same account.
    SameAccount,
    /// The transfer of the reward share to the beneficiary failed.
    RewardTransferFailed,
}

impl ContractError {
    /// The text that tells the caller why the operation was rejected.
    pub open spec fn text(self) -> Seq<char> {
        match self {
            ContractError::NotPrivate => "Method is private"@,
            ContractError::RequiresOneYocto => "Requires attached deposit of exactly 1 yoctoNEAR"@,
            ContractError::ZeroDeposit => "Must send loozr to buy tokens"@,
            ContractError::ZeroAmount => "Amount must be non-zero."@,
            ContractError::InsufficientBalance => "Amount exceeds creator coin locked in"@,
            ContractError::InsufficientSupply => "Amount exceeds creator coin in supply"@,
            ContractError::ReserveOverflow => "Reserve balance overflow"@,
            ContractError::SupplyOverflow => "Total supply overflow"@,
            ContractError::AmountOverflow => "Amount overflow"@,
            ContractError::DecimalRange => "Amount exceeds the decimal range"@,
            ContractError::InvalidAccountId => "The account ID is invalid"@,
            ContractError::SameAccount => "Sender and receiver should be different"@,
            ContractError::RewardTransferFailed => "Reward transfer failed"@,
        }
    }

    /// The text that tells the caller why the operation was rejected.
    pub fn message(&self) -> (message: String)
        ensures
            message@ == self.text(),
    {
        match self {
            ContractError::NotPrivate => String::from_str("Method is private"),
            ContractError::RequiresOneYocto => String::from_str(
                "Requires attached deposit of exactly 1 yoctoNEAR",
            ),
            ContractError::ZeroDeposit => String::from_str("Must send loozr to buy tokens"),
            ContractError::ZeroAmount => String::from_str("Amount must be non-zero."),
            ContractError::InsufficientBalance => String::from_str(
                "Amount exceeds creator coin locked in",
            ),
            ContractError::InsufficientSupply => String::from_str(
                "Amount exceeds creator coin in supply",
            ),
            ContractError::ReserveOverflow => String::from_str("Reserve balance overflow"),
            ContractError::SupplyOverflow => String::from_str("Total supply overflow"),
            ContractError::AmountOverflow => String::from_str("Amount overflow"),
            ContractError::DecimalRange => String::from_str("Amount exceeds the decimal range"),
            ContractError::InvalidAccountId => String::from_str("The account ID is invalid"),
            ContractError::SameAccount => String::from_str(
                "Sender and receiver should be different",
            ),
            ContractError::RewardTransferFailed => String::from_str("Reward transfer failed"),
        }
    }
}

} // verus!
