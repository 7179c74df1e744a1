//! A custodial two-asset portfolio that is rebalanced toward per-mille target
//! allocations through a two-leg swap across order books quoted in one shared
//! currency.
//!
//! Everything here works on plain values: the host program reads vault
//! balances, prices and the clock, places the orders the library asks for and
//! hands the observed balances back.

pub mod errors;
pub mod allocation;
pub mod scale;
pub mod portfolio;
pub mod risk;
pub mod swap;
pub mod rebalance;
