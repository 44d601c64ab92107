//! A yes/no polling contract for a CosmWasm host.
//!
//! The host keeps the state: one administrative record and one tally per
//! question. The handlers in [`contract`] read and write it through the
//! trusted declarations in [`host`], and their contracts are stated over the
//! mathematical model of that state in [`state`].

pub mod contract;
pub mod error;
pub mod host;
pub mod laws;
pub mod msg;
pub mod state;
