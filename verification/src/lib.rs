//! Settlement core of a cross-chain asset bridge.
//!
//! The library records token-lock events observed on a source chain, collects
//! validator attestations for each lock, and tracks per-user transfer history,
//! all in records addressed by deterministically derived storage addresses.

use vstd::prelude::*;

pub mod encoding;
pub mod error;
pub mod state;
pub mod store;
pub mod addressing;
pub mod utils;
pub mod model;
pub mod processor;
pub mod instruction;
pub mod properties;

verus! {

/// Current format version stamped into every freshly created record.
/// A record whose version differs is treated as absent.
pub const PROGRAM_VERSION: u8 = 1;

} // verus!
