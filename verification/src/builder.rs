//! The request-builder layer: targeting parameters are matched against a
//! fixed table of request shapes, and a successful match yields an immutable
//! `BoundRequest` descriptor carrying the credential token and the transport
//! options that the caller must honor when it sends the request.

use vstd::prelude::*;

use crate::error::ApiErrorKind;

verus! {

/// Which insecure-transport overrides this build of the client supports.
///
/// Plaintext HTTP and invalid-certificate acceptance are features a build
/// of the client either has or lacks; this type carries that compile-time
/// decision as an explicit value, so that a build without the feature can
/// never be talked into an insecure request.
#[derive(Clone, Copy, Debug, PartialEq, Eq, Structural)]
pub struct TransportSupport {
    /// Whether this build supports plaintext HTTP at all.
    pub insecure_urls: bool,
    /// Whether this build supports accepting invalid TLS certificates.
    pub invalid_certs: bool,
}

/// User-requested transport overrides; both default to `false`.
#[derive(Clone, Copy, Debug, PartialEq, Eq, Structural)]
pub struct TransportOptions {
    /// Allow plaintext HTTP endpoints.
    pub allow_insecure_urls: bool,
    /// Allow invalid or self-signed TLS certificates.
    pub allow_invalid_certs: bool,
}

impl TransportOptions {
    /// The options that remain after the compile-time safety floor is
    /// applied: an override the build does not support is forced off.
    pub open spec fn spec_effective(self, support: TransportSupport) -> TransportOptions {
        TransportOptions {
            allow_insecure_urls: self.allow_insecure_urls && support.insecure_urls,
            allow_invalid_certs: self.allow_invalid_certs && support.invalid_certs,
        }
    }

    /// Apply the compile-time safety floor to these options.
    pub fn effective(self, support: TransportSupport) -> (r: TransportOptions)
        ensures
            r == self.spec_effective(support),
    {
        TransportOptions {
            allow_insecure_urls: self.allow_insecure_urls && support.insecure_urls,
            allow_invalid_certs: self.allow_invalid_certs && support.invalid_certs,
        }
    }
}

impl Default for TransportOptions {
    /// Both overrides default to off.
    fn default() -> (r: Self)
        ensures
            r == (TransportOptions { allow_insecure_urls: false, allow_invalid_certs: false }),
    {
        TransportOptions { allow_insecure_urls: false, allow_invalid_certs: false }
    }
}

/// The remote operation signature a set of targeting parameters maps to.
#[derive(Clone, Debug, PartialEq, Eq)]
pub enum RequestShape {
    /// One fully qualified restriction: an API plus a restricted directory.
    Single { api: String, directory: String },
    /// All restrictions of one API, optionally resumed at a cursor.
    ApiRange { api: String, from_dir: Option<String> },
    /// A scan over every API, optionally resumed at a pair of cursors.
    AllRange { from_api: Option<String>, from_dir: Option<String> },
}

/// An immutable, ready-to-send request descriptor.
///
/// A `BoundRequest` is never mutated in place: whenever the targeting
/// parameters or the credential change, a fresh descriptor is built, so a
/// stale combination of shape and token can never be observed.
#[derive(Clone, Debug, PartialEq, Eq)]
pub struct BoundRequest {
    /// The matched request shape.
    pub shape: RequestShape,
    /// The bearer token the request is bound to, sent as
    /// `Authorization: Bearer {token}`.
    pub token: String,
    /// The base URL override; `None` means the service's default base URL.
    pub base_url: Option<String>,
    /// Whether the sender may use plaintext HTTP (after the safety floor).
    pub allow_http: bool,
    /// Whether the sender may accept invalid TLS certificates.
    pub allow_invalid_certs: bool,
}

/// The shape table: which combination of targeting parameters maps to which
/// request shape.  Exactly three combinations are valid; a directory without
/// an API names nothing and is rejected.
pub open spec fn spec_shape(
    api: Option<String>,
    directory: Option<String>,
    from_api: Option<String>,
    from_dir: Option<String>,
) -> Result<RequestShape, ApiErrorKind> {
    match (api, directory) {
        (Some(a), Some(d)) => Ok(RequestShape::Single { api: a, directory: d }),
        (Some(a), None) => Ok(RequestShape::ApiRange { api: a, from_dir }),
        (None, None) => Ok(RequestShape::AllRange { from_api, from_dir }),
        (None, Some(_)) => Err(ApiErrorKind::InvalidTargetShape),
    }
}

/// The descriptor that a successful build yields.
pub open spec fn spec_build(
    api: Option<String>,
    directory: Option<String>,
    from_api: Option<String>,
    from_dir: Option<String>,
    token: String,
    base_url: Option<String>,
    opts: TransportOptions,
) -> Result<BoundRequest, ApiErrorKind> {
    match spec_shape(api, directory, from_api, from_dir) {
        Ok(shape) => Ok(
            BoundRequest {
                shape,
                token,
                base_url,
                allow_http: opts.allow_insecure_urls,
                allow_invalid_certs: opts.allow_invalid_certs,
            },
        ),
        Err(e) => Err(e),
    }
}

/// Match the targeting parameters against the shape table and bind the
/// result to the given credential token and transport options.
///
/// The token is taken from the caller's current credential on every call:
/// a rebuild after a credential refresh can never reuse a stale token.
pub fn build_bound_request(
    api: &Option<String>,
    directory: &Option<String>,
    from_api: &Option<String>,
    from_dir: &Option<String>,
    token: &String,
    base_url: &Option<String>,
    opts: TransportOptions,
) -> (r: Result<BoundRequest, ApiErrorKind>)
    ensures
        r == spec_build(*api, *directory, *from_api, *from_dir, *token, *base_url, opts),
{
    let shape = match (api, directory) {
        (Some(a), Some(d)) => RequestShape::Single { api: a.clone(), directory: d.clone() },
        (Some(a), None) => RequestShape::ApiRange { api: a.clone(), from_dir: from_dir.clone() },
        (None, None) => RequestShape::AllRange {
            from_api: from_api.clone(),
            from_dir: from_dir.clone(),
        },
        (None, Some(_)) => {
            return Err(ApiErrorKind::InvalidTargetShape);
        },
    };
    Ok(
        BoundRequest {
            shape,
            token: token.clone(),
            base_url: base_url.clone(),
            allow_http: opts.allow_insecure_urls,
            allow_invalid_certs: opts.allow_invalid_certs,
        },
    )
}

/// The transport safety floor: when a build does not support plaintext
/// HTTP, no choice of user options can produce a request that allows it,
/// and likewise for invalid certificates.
pub proof fn lemma_transport_safety_floor(opts: TransportOptions, support: TransportSupport)
    ensures
        !support.insecure_urls ==> !opts.spec_effective(support).allow_insecure_urls,
        !support.invalid_certs ==> !opts.spec_effective(support).allow_invalid_certs,
{
}

} // verus!
