//! Error kinds for the API core, and the CLI-level error type.
//!
//! The remote services report failures as HTTP status codes; the core maps
//! each status to a fixed kind so that callers can match on the condition
//! rather than on a raw number.  The one status with special control-flow
//! meaning is 401: it is the signal that the bearer token is no longer valid
//! and drives the one-shot re-authentication of the request executor.

use vstd::prelude::*;

verus! {

/// A failure reported by, or on the way to, a remote API endpoint.
#[derive(Clone, Copy, Debug, PartialEq, Eq, Structural)]
pub enum ApiErrorKind {
    /// No API key was supplied when a request needed one; never retried.
    MissingRequestApiKey,
    /// The targeting parameters match no supported request shape.
    InvalidTargetShape,
    /// HTTP 401: the service rejected the bearer token.
    AuthenticationRejected,
    /// HTTP 400.
    BadRequest,
    /// HTTP 404.
    ResourceNotFound,
    /// HTTP 409.
    ResourceConflict,
    /// HTTP 500.
    InternalServiceError,
    /// HTTP 503.
    ServiceUnavailable,
    /// Any other HTTP status, preserved for diagnostics.
    UnclassifiedHttpStatus(u16),
    /// A network or TLS failure before any HTTP status was received.
    TransportFailure,
}

/// The kind an HTTP status code is classified as.
pub open spec fn spec_classify(status: u16) -> ApiErrorKind {
    if status == 400 {
        ApiErrorKind::BadRequest
    } else if status == 401 {
        ApiErrorKind::AuthenticationRejected
    } else if status == 404 {
        ApiErrorKind::ResourceNotFound
    } else if status == 409 {
        ApiErrorKind::ResourceConflict
    } else if status == 500 {
        ApiErrorKind::InternalServiceError
    } else if status == 503 {
        ApiErrorKind::ServiceUnavailable
    } else {
        ApiErrorKind::UnclassifiedHttpStatus(status)
    }
}

/// Classify a non-success HTTP status code into an error kind.
pub fn classify_status(status: u16) -> (r: ApiErrorKind)
    ensures
        r == spec_classify(status),
{
    match status {
        400 => ApiErrorKind::BadRequest,
        401 => ApiErrorKind::AuthenticationRejected,
        404 => ApiErrorKind::ResourceNotFound,
        409 => ApiErrorKind::ResourceConflict,
        500 => ApiErrorKind::InternalServiceError,
        503 => ApiErrorKind::ServiceUnavailable,
        _ => ApiErrorKind::UnclassifiedHttpStatus(status),
    }
}

/// Check a response status: 2xx is success, anything else is classified.
pub fn check_status(status: u16) -> (r: Result<(), ApiErrorKind>)
    ensures
        200 <= status < 300 ==> r is Ok,
        !(200 <= status < 300) ==> r == Result::<(), ApiErrorKind>::Err(spec_classify(status)),
{
    if 200 <= status && status < 300 {
        Ok(())
    } else {
        Err(classify_status(status))
    }
}

/// The kind of a CLI-level failure.
#[derive(Clone, Debug)]
pub enum CliErrorKind {
    /// A path that was expected to exist does not.
    MissingPath,
    /// A value of the named sort already exists and `--force` was not given.
    ExistingValue(String),
    /// An argument declared as base64 does not decode.
    InvalidBase64,
    /// No item in the local state matches the given name or ID.
    NoMatchingItem(String),
    /// More than one item matches the given name or ID.
    AmbiguousItem(String),
    /// A failure from the API core.
    Api(ApiErrorKind),
}

/// A terminal color used when rendering a context segment.
#[derive(Clone, Copy, Debug, PartialEq, Eq, Structural)]
pub enum TermColor {
    Red,
    Green,
    Yellow,
}

/// One piece of hint text attached to an error, optionally colored.
#[derive(Clone, Debug)]
pub struct ContextSegment {
    pub color: Option<TermColor>,
    pub text: String,
}

/// A CLI-level error: a kind plus ordered hint text for the user.
#[derive(Clone, Debug)]
pub struct CliError {
    pub kind: CliErrorKind,
    pub context: Vec<ContextSegment>,
}

impl CliErrorKind {
    /// Wrap this kind in a `CliError` with no context.
    pub fn into_err(self) -> (r: CliError)
        ensures
            r.kind == self,
            r.context@ =~= Seq::<ContextSegment>::empty(),
    {
        CliError { kind: self, context: Vec::new() }
    }
}

impl CliError {
    /// Append a plain piece of context text.
    pub fn context(self, text: String) -> (r: CliError)
        ensures
            r.kind == self.kind,
            r.context@ =~= self.context@.push(ContextSegment { color: None, text }),
    {
        let mut e = self;
        e.context.push(ContextSegment { color: None, text });
        e
    }

    /// Append a colored piece of context text.
    pub fn color_context(self, color: TermColor, text: String) -> (r: CliError)
        ensures
            r.kind == self.kind,
            r.context@ =~= self.context@.push(ContextSegment { color: Some(color), text }),
    {
        let mut e = self;
        e.context.push(ContextSegment { color: Some(color), text });
        e
    }
}

} // verus!
