//! A deterministic ledger of per-account health records and two global
//! counters, with authenticated writes and an append-only event log.

pub mod records;
pub mod origin;
pub mod event;
pub mod store;
pub mod call;
pub mod state;
pub mod module;
pub mod laws;
