//! The failures that a request can end in, and how each is shown to the
//! client.

use vstd::prelude::*;

verus! {

/// Why a request failed.
#[derive(Clone, Copy, Debug, PartialEq, Eq, Structural)]
pub enum ServiceError {
    /// Unacceptable filename or missing payload.
    Validation,
    /// A per-file, per-request or memory-pool limit was exceeded.
    Capacity,
    /// The client used up its quota for the current window.
    RateLimit,
    /// The identifier or alias resolves to nothing.
    NotFound,
    /// Both backends are unusable.
    Backend,
    /// The guard of the in-process backend could not be acquired.
    Lock,
}

impl ServiceError {
    /// The HTTP status shown for the failure.
    pub open spec fn status(self) -> u16 {
        match self {
            ServiceError::Validation => 400,
            ServiceError::Capacity => 413,
            ServiceError::RateLimit => 429,
            ServiceError::NotFound => 404,
            ServiceError::Backend => 500,
            ServiceError::Lock => 500,
        }
    }

    /// Failures that the client caused are shown in the 4xx class; the others
    /// in the 5xx class.
    pub open spec fn caused_by_client(self) -> bool {
        !(self is Backend || self is Lock)
    }

    /// The HTTP status shown for the failure: 4xx for what the client caused,
    /// 5xx otherwise.
    pub fn status_code(self) -> (code: u16)
        ensures
            code == self.status(),
            self.caused_by_client() <==> 400 <= code < 500,
            !self.caused_by_client() <==> 500 <= code < 600,
    {
        match self {
            ServiceError::Validation => 400,
            ServiceError::Capacity => 413,
            ServiceError::RateLimit => 429,
            ServiceError::NotFound => 404,
            ServiceError::Backend => 500,
            ServiceError::Lock => 500,
        }
    }
}

} // verus!
