//! A verified core of a federation activity-processing pipeline.
//!
//! Remote servers push signed activities (follow, vote, delete, undo, ...)
//! to a local inbox; this library authenticates the transport envelope,
//! decodes the wire payload into a closed set of activity kinds, verifies
//! protocol-level authorization, resolves referenced objects under a
//! recursion budget, and applies idempotent state transitions.  Outbound
//! delivery planning (recipient fan-out and retry policy) is also verified.
//! Network and persistence I/O stay outside; the library works on plain
//! values handed in by its callers.

use vstd::prelude::*;

pub mod apply;
pub mod codec;
pub mod dispatch;
pub mod envelope;
pub mod gate;
pub mod local_user;
pub mod pipeline;
pub mod resolver;
pub mod storage;
pub mod table;
pub mod verify;

verus! {

/// The error vocabulary of the pipeline.  Every rejection of an inbound
/// activity is one of these kinds; none is ever coerced into success.
#[derive(Clone, Copy, Debug, PartialEq, Eq, Structural)]
pub enum FederationError {
    /// A required field is missing or invalid, or the top-level kind is unknown.
    MalformedEnvelope,
    /// The body digest or signature does not match.
    AuthenticationFailure,
    /// The actor lacks permission for the action.
    AuthorizationFailure,
    /// A resolution chain exceeded the recursion budget.
    RecursionExceeded,
    /// A referenced remote object could not be fetched.
    ResolutionFailure,
    /// A local persistence fault.
    StorageFailure,
}

impl FederationError {
    /// Whether the sender may retry the request: local faults and failed
    /// remote fetches are transient; every protocol-level rejection is
    /// permanent.
    pub open spec fn spec_retryable(self) -> bool {
        self is StorageFailure || self is ResolutionFailure
    }

    /// The HTTP status class reported to the sender: permanent rejections
    /// are client errors (no retry expected), local faults are server
    /// errors (the sender retries).
    pub fn http_status(&self) -> (s: u16)
        ensures
            s == 500 <==> self.spec_retryable(),
            s == 400 || s == 500,
    {
        match self {
            FederationError::StorageFailure => 500,
            FederationError::ResolutionFailure => 500,
            _ => 400,
        }
    }
}

} // verus!
