//! A trustless two-party token-swap escrow.
//!
//! A maker locks an amount of one asset in a custody vault and names the
//! amount of another asset wanted in return; any taker may settle the trade
//! atomically, or the maker may reclaim the deposit first. The custody
//! address is derived deterministically from the offer's identity, so no
//! private key can move vault funds: only the engine's own operations can.

pub mod addresses;
pub mod engine;
pub mod errors;
pub mod laws;
pub mod offer;
