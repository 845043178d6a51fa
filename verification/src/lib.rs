//! A continuous-pricing token ledger.
//!
//! Tokens are minted against deposits of a reserve currency and burned to
//! redeem it. The price is set by a bonding curve, which is evaluated outside
//! this crate in floating point; everything that is decided from its result
//! is stated and proved here: the balance mapping and its invariants, the
//! lockstep of supply and balances, the reserve bookkeeping, and the two-phase
//! mint and burn operations with their completion handlers.

pub mod accounts;
pub mod burn;
pub mod context;
pub mod contract;
pub mod error;
pub mod factory;
pub mod laws;
pub mod metadata;
pub mod mint;
pub mod pricing;
pub mod transfer;
