//! Relates ledger accounts to the public keys added to them, by queries of an
//! analytical action log, and reads per-account state snapshots from a
//! key-value store.
//!
//! `lookup` composes the two log lookups and `log` gives their meaning over a
//! sequence of records, with the laws they obey; `state` composes and decodes
//! the key-value reads; `error` tags each backend failure by its origin;
//! `connection` builds the two store handles.
use vstd::prelude::*;

pub mod codes;
pub mod connection;
pub mod error;
pub mod log;
pub mod lookup;
pub mod state;

verus! {

} // verus!
