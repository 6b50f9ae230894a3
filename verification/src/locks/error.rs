//! Errors that come from the lock service's endpoints.

use vstd::prelude::*;
use vstd::string::StringExecFns;

verus! {

/// The JSON body every non-success response of the lock service carries.
#[derive(Clone, Debug, PartialEq, Eq)]
pub struct ErrorResponse {
    pub status: u16,
    pub title: String,
    pub detail: Option<String>,
}

/// Check a lock-service response: a client- or server-error status becomes
/// a [`LocksError`] carrying the response body, classified by status; any
/// other status passes through.
pub fn map_error(status: u16, body: ErrorResponse) -> (r: Result<u16, LocksError>)
    ensures
        !(400 <= status < 600) ==> r == Result::<u16, LocksError>::Ok(status),
        400 <= status < 600 ==> r == Result::<u16, LocksError>::Err(
            LocksError { body, kind: spec_kind_of_status(Some(status)) },
        ),
{
    if 400 <= status && status < 600 {
        let kind = LocksErrorKind::from(Some(status));
        Err(LocksError { body, kind })
    } else {
        Ok(status)
    }
}

/// A failure reported by the lock service: the response body it sent, and
/// the kind its HTTP status maps to.
#[derive(Clone, Debug)]
pub struct LocksError {
    pub body: ErrorResponse,
    pub kind: LocksErrorKind,
}

impl LocksError {
    /// The human-readable message: the response's title, with the detail
    /// appended after a dash when there is one.
    pub fn message(&self) -> (r: String)
        ensures
            self.body.detail is None ==> r@ == self.body.title@,
            self.body.detail matches Some(d) ==> r@ == self.body.title@ + " - "@ + d@,
    {
        let mut msg = self.body.title.clone();
        match &self.body.detail {
            Some(d) => {
                msg.append(" - ");
                msg.append(d.as_str());
            },
            None => {},
        }
        msg
    }
}

impl PartialEq for LocksError {
    /// Two lock errors are the same failure when their kinds agree; the
    /// body text plays no part.
    fn eq(&self, other: &Self) -> (r: bool) {
        self.kind == other.kind
    }
}

impl vstd::std_specs::cmp::PartialEqSpecImpl for LocksError {
    open spec fn obeys_eq_spec() -> bool {
        true
    }

    open spec fn eq_spec(&self, other: &Self) -> bool {
        self.kind == other.kind
    }
}

/// The condition a lock-service HTTP status stands for.
#[derive(Debug, Copy, Clone, PartialEq, Eq, Structural)]
#[non_exhaustive]
pub enum LocksErrorKind {
    /// An HTTP status code with no mapping of its own.
    UnimplementedHttpStatus(u16),
    /// HTTP 400 - bad request.
    InvalidRequest,
    /// HTTP 401 - the service does not know the caller.
    NotLoggedIn,
    /// HTTP 404 - not found.
    LockNotFound,
    /// HTTP 409 - conflict: the lock is already held.
    LockAlreadyHeld,
    /// HTTP 500 - internal error.
    InternalError,
    /// HTTP 503 - service unavailable.
    ServiceUnavailable,
    /// Not an HTTP status error.
    Unknown,
}

/// The kind each status code maps to; `None` is a failure without a status.
pub open spec fn spec_kind_of_status(code: Option<u16>) -> LocksErrorKind {
    match code {
        Some(c) => if c == 400 {
            LocksErrorKind::InvalidRequest
        } else if c == 401 {
            LocksErrorKind::NotLoggedIn
        } else if c == 404 {
            LocksErrorKind::LockNotFound
        } else if c == 409 {
            LocksErrorKind::LockAlreadyHeld
        } else if c == 500 {
            LocksErrorKind::InternalError
        } else if c == 503 {
            LocksErrorKind::ServiceUnavailable
        } else {
            LocksErrorKind::UnimplementedHttpStatus(c)
        },
        None => LocksErrorKind::Unknown,
    }
}

impl From<Option<u16>> for LocksErrorKind {
    fn from(code: Option<u16>) -> (r: Self) {
        match code {
            Some(400) => LocksErrorKind::InvalidRequest,
            Some(401) => LocksErrorKind::NotLoggedIn,
            Some(404) => LocksErrorKind::LockNotFound,
            Some(409) => LocksErrorKind::LockAlreadyHeld,
            Some(500) => LocksErrorKind::InternalError,
            Some(503) => LocksErrorKind::ServiceUnavailable,
            Some(c) => LocksErrorKind::UnimplementedHttpStatus(c),
            None => LocksErrorKind::Unknown,
        }
    }
}

impl vstd::std_specs::convert::FromSpecImpl<Option<u16>> for LocksErrorKind {
    open spec fn obeys_from_spec() -> bool {
        true
    }

    open spec fn from_spec(code: Option<u16>) -> Self {
        spec_kind_of_status(code)
    }
}

} // verus!
