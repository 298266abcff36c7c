//! Atomic-order token swap logic for Injective spot markets.
//!
//! The library holds the decisions of the swap contract: route keys and route
//! validation, configuration updates, swap estimation over order books, and the
//! bookkeeping of a multi-step atomic swap. Chain access (storage, queries,
//! messages) is performed by the caller, which hands the library plain values.

pub mod decimal;
pub mod helpers;
pub mod error;
pub mod types;
pub mod state;
pub mod msg;
pub mod admin;
pub mod orderbook;
pub mod queries;
pub mod swap;
pub mod contract;
pub mod test_utils;
