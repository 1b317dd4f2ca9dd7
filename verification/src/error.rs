//! The error taxonomy of the escrow operations. Every validation failure
//! maps to exactly one of these kinds, and a failed operation leaves all
//! account state unchanged.

use vstd::prelude::*;

verus! {

/// Why an escrow operation was rejected.
#[derive(Clone, Copy, Debug, PartialEq, Eq, Structural)]
pub enum EscrowError {
    /// The caller is not the expected signer of the operation.
    NotAuthorized,
    /// The caller's identity does not match the identity stored in the
    /// escrow record.
    Unauthorized,
    /// The time gate (`start_time + MIN_DELAY`) has not been reached yet.
    TooEarly,
    /// An escrow record already exists where a fresh one was required.
    AlreadyExists,
    /// The balance being debited is smaller than the requested amount.
    InsufficientFunds,
    /// The escrow record that the operation needs is missing.
    NotFound,
}

} // verus!
