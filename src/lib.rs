//! A ledger of client accounts driven by a feed of deposits, withdrawals,
//! disputes, resolves and chargebacks.

pub mod amount;
pub mod types;
pub mod account;
pub mod engine;
pub mod theorems;
