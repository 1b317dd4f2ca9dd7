//! A time-locked, authority-gated escrow: a sender deposits native or
//! fungible-token value into a custodial vault, naming a receiver and a
//! release time; after the release time (plus a fixed minimum delay) the
//! recorded receiver, and nobody else, may move the value out.
//!
//! The operations here are the decision and bookkeeping core: they take the
//! observable state of the involved accounts as plain values, validate, and
//! update that state. The surrounding ledger runtime performs the actual
//! account reads, signature checks and transfers.

use vstd::prelude::*;

pub mod authority;
pub mod error;
pub mod gate;
pub mod ident;
pub mod laws;
pub mod native;
pub mod state;
pub mod token;

verus! {

/// Minimum number of time units that must elapse past an escrow's
/// `start_time` before a withdrawal is allowed.
pub const MIN_DELAY: u64 = 2;

} // verus!
