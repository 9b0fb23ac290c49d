//! Client tracking for a cross-chain relayer: validated host identifiers,
//! the correlation of client events into builder objects, and the client and
//! consensus state queries.
use vstd::prelude::*;

pub mod client_builder;
pub mod commands;
pub mod config;
pub mod events;
pub mod identifier;
pub mod query;

verus! {

} // verus!
