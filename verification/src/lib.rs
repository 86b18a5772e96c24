//! Bookkeeping core of a bidirectional bridge relayer.
//!
//! The crate keeps the authoritative record of every in-flight and completed
//! cross-network transfer: two directional transaction ledgers, a registry of
//! bridge operators ("minters"), and two token-twin registries. A periodic
//! reaper evicts entries that were observed but never confirmed.

pub mod types;
pub mod store;
pub mod state;
pub mod reaper;
pub mod laws;
pub mod codec;
