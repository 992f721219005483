//! A constant-product liquidity pool for one pair of assets.
//!
//! The pool record, its three state transitions (deposit, withdrawal, swap) and the
//! account checks in front of them are plain functions on plain values. Moving the
//! assets themselves is the ledger's work: an operation hands out the ledger calls it
//! needs one at a time and commits the new pool record only when each has succeeded.

pub mod address;
pub mod error;
pub mod math;
pub mod pool;
pub mod accounts;
pub mod ledger;
pub mod operations;
pub mod laws;

pub use crate::accounts::{InitializeDex, LiquidityOperations, Swap, TokenAccount};
pub use crate::address::Address;
pub use crate::error::ErrorCode;
pub use crate::ledger::{Directive, LedgerCall, Receipt, Settlement};
pub use crate::operations::{add_liquidity, initialize_dex, remove_liquidity, swap};
pub use crate::pool::Dex;
