//! Errors of the roll request and fulfillment entry points. Each aborts the
//! triggering operation with no state change.

use vstd::prelude::*;

verus! {

/// Why a request or fulfillment was rejected.
#[derive(Clone, Copy, Debug, PartialEq, Eq, Structural)]
pub enum RarityError {
    /// A record already exists for this requester identity and nonce.
    DuplicateRequest,
    /// The callback's caller is not the designated oracle identity.
    UntrustedCallback,
    /// The targeted record was already finalized by an earlier callback.
    AlreadyFulfilled,
    /// No record exists at the targeted address.
    RecordNotFound,
    /// No well-formed oracle queue is configured.
    OracleUnavailable,
    /// The callback's randomness value is not exactly 32 bytes.
    MalformedRandomness,
}

} // verus!
