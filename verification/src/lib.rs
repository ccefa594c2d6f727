//! A trustless two-party asset-swap escrow.
//!
//! A maker deposits a quantity of one asset into a custody vault and names the
//! amount of a second asset they demand in return; any taker may fulfill the
//! trade atomically, or the maker may cancel and reclaim the deposit. The
//! modules below hold the escrow record and vault data model, the
//! deterministic vault-authority derivation, the three settlement operations
//! (open, fulfill, cancel) with their contracts, and the persisted record
//! layout.

pub mod authority;
pub mod codec;
pub mod pubkey;
pub mod settlement;
pub mod state;
