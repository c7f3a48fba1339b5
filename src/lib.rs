//! Verified support for test scenarios around a wrapped native token contract:
//! 256-bit amounts, a model of the contract's balances, and the decision that
//! turns the stages of a sent transaction into a result.
pub mod amount;
pub mod ledger;
pub mod transaction;
