//! Error taxonomy of the sync engine, and the classification of remote
//! failures into rate-limited and other conditions.

use vstd::prelude::*;

verus! {

/// HTTP status code by which the remote service signals rate limiting.
pub const RATE_LIMIT_STATUS: u16 = 429;

/// A failure reported by the remote data service, as the transport hands
/// it to the engine.
#[derive(Clone, Copy, Debug, PartialEq, Eq, Structural)]
pub enum RemoteError {
    /// The service answered with a non-success HTTP status code.
    HttpStatus(u16),
    /// The request did not complete at the network or protocol level.
    Transport,
}

/// How the retry policy treats a remote failure.
#[derive(Clone, Copy, Debug, PartialEq, Eq, Structural)]
pub enum ErrorClass {
    /// The service asked the caller to slow down; the call may be retried.
    RateLimited,
    /// Any other failure; surfaced immediately, never retried.
    Other,
}

/// A remote failure counts as rate limiting exactly when the service
/// answered with the rate-limit status code.
pub open spec fn is_rate_limited(e: RemoteError) -> bool {
    e == RemoteError::HttpStatus(RATE_LIMIT_STATUS)
}

/// Classify a remote failure: the rate-limit status code means rate
/// limiting; every other failure is not retried.
pub fn classify(e: &RemoteError) -> (c: ErrorClass)
    ensures
        c == ErrorClass::RateLimited <==> is_rate_limited(*e),
{
    match e {
        RemoteError::HttpStatus(status) => {
            if *status == RATE_LIMIT_STATUS {
                ErrorClass::RateLimited
            } else {
                ErrorClass::Other
            }
        },
        RemoteError::Transport => ErrorClass::Other,
    }
}

/// Errors surfaced by a sync run.
#[derive(Clone, Copy, Debug, PartialEq, Eq, Structural)]
pub enum SyncError {
    /// A remote fetch failed, after retrying where it was rate-limited.
    Fetch(RemoteError),
    /// A later stage referenced a transaction id that script discovery never
    /// returned: an internal contract violation, not an environment condition.
    InvariantViolation,
    /// The database commit failed after all network work succeeded.
    Commit,
}

} // verus!
