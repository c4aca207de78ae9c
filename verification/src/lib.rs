//! A fixed-price "selling lock": an authorization predicate for a UTXO-style
//! ledger cell. The owner of the cell may reclaim it unconditionally; anyone
//! else may consume it by paying the owner at least the advertised price,
//! provided the transaction does not re-create a same-owner sale cell with
//! extra programmable semantics attached.
//!
//! The decision logic is a pure function of the invoking lock descriptor and a
//! read-only snapshot of the transaction's input and output cells. Host-VM
//! syscalls that produce that snapshot live outside this library.
use vstd::prelude::*;

pub mod aggregate;
pub mod classify;
pub mod codec;
pub mod engine;
pub mod laws;
pub mod types;

verus! {

} // verus!
