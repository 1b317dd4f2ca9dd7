//! The release gate: the identity-and-time check that every withdrawal,
//! native or token, must pass before any value leaves the vault. Both
//! withdrawal variants share this one routine.

use vstd::prelude::*;

use crate::MIN_DELAY;
use crate::error::EscrowError;
use crate::ident::Identity;
use crate::ident::identity_eq;

verus! {

/// What the release gate decides: the caller must be the recorded receiver
/// (else `Unauthorized`, regardless of timing), and the current time must
/// have reached `start_time + MIN_DELAY` (else `TooEarly`).
pub open spec fn release_gate_spec(
    stored_receiver: Identity,
    caller: Identity,
    start_time: u64,
    now: u64,
) -> Result<(), EscrowError> {
    if stored_receiver@ != caller@ {
        Err(EscrowError::Unauthorized)
    } else if (now as int) < start_time + MIN_DELAY {
        Err(EscrowError::TooEarly)
    } else {
        Ok(())
    }
}

/// Runs the release gate. `now` is the ledger's current timestamp, read by
/// the caller at execution time.
pub fn release_gate(
    stored_receiver: &Identity,
    caller: &Identity,
    start_time: u64,
    now: u64,
) -> (r: Result<(), EscrowError>)
    ensures
        r == release_gate_spec(*stored_receiver, *caller, start_time, now),
{
    if !identity_eq(stored_receiver, caller) {
        Err(EscrowError::Unauthorized)
    } else if now < MIN_DELAY || now - MIN_DELAY < start_time {
        Err(EscrowError::TooEarly)
    } else {
        Ok(())
    }
}

} // verus!
