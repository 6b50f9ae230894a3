//! The API endpoints related to tokens and authentication.
//!
//! The identity service exchanges a long-lived API key for a short-lived
//! bearer token with one `POST` to its token path.  This module builds the
//! immutable descriptor for that call and interprets its outcome; the caller
//! performs the actual round trip and hands the status and body back.

use vstd::prelude::*;
use vstd::string::StrSliceExecFns;
use vstd::string::StringExecFns;

use crate::error::ApiErrorKind;
use crate::error::spec_classify;

verus! {

/// The base URL of the identity service.
pub const IDENTITY_API_URL: &'static str = "https://flightdeck.cplane.cloud/";

/// The path of the token endpoint under the identity base URL.
pub const TOKEN_API_BASE_PATH: &'static str = "v1/token";

/// An access token with tenant subdomain and ID.
#[derive(Clone, Debug, PartialEq)]
pub struct AccessToken {
    /// The JWT token.
    pub token: String,
    /// Tenant OID.
    pub tenant: String,
    /// Tenant subdomain.
    pub subdomain: String,
}

/// A builder for a [`TokenRequest`].
#[derive(Debug)]
pub struct TokenRequestBuilder {
    /// Required for bearer authentication.
    pub api_key: Option<String>,
    /// Overrides the identity service's base URL when present.
    pub base_url: Option<String>,
    /// Allow the token endpoint to be plain HTTP.
    pub allow_http: bool,
    /// Allow invalid TLS certificates on the token endpoint.
    pub allow_invalid_certs: bool,
}

/// The URL the token request is sent to: the token path joined onto the
/// base URL (or onto the identity service's default base URL).
pub open spec fn spec_token_endpoint(base_url: Option<String>) -> Seq<char> {
    match base_url {
        Some(b) => if b@.len() > 0 && b@[b@.len() - 1] == '/' {
            b@ + TOKEN_API_BASE_PATH@
        } else {
            b@ + "/"@ + TOKEN_API_BASE_PATH@
        },
        None => IDENTITY_API_URL@ + TOKEN_API_BASE_PATH@,
    }
}

impl Default for TokenRequestBuilder {
    /// An empty builder: no key, no override, both overrides off.
    fn default() -> (r: Self)
        ensures
            r.api_key is None,
            r.base_url is None,
            !r.allow_http,
            !r.allow_invalid_certs,
    {
        TokenRequestBuilder {
            api_key: None,
            base_url: None,
            allow_http: false,
            allow_invalid_certs: false,
        }
    }
}

impl TokenRequestBuilder {
    /// Create a new, empty builder.
    pub fn new() -> (r: Self)
        ensures
            r.api_key is None,
            r.base_url is None,
            !r.allow_http,
            !r.allow_invalid_certs,
    {
        Self::default()
    }

    /// Set the API key used in bearer authorization.  Required.
    pub fn api_key(self, key: String) -> (r: Self)
        ensures
            r == (TokenRequestBuilder { api_key: Some(key), ..self }),
    {
        TokenRequestBuilder { api_key: Some(key), ..self }
    }

    /// Allow a non-HTTPS token endpoint for this request (default `false`).
    pub fn allow_http(self, yes: bool) -> (r: Self)
        ensures
            r == (TokenRequestBuilder { allow_http: yes, ..self }),
    {
        TokenRequestBuilder { allow_http: yes, ..self }
    }

    /// Allow invalid TLS certificates (default `false`).
    pub fn allow_invalid_certs(self, yes: bool) -> (r: Self)
        ensures
            r == (TokenRequestBuilder { allow_invalid_certs: yes, ..self }),
    {
        TokenRequestBuilder { allow_invalid_certs: yes, ..self }
    }

    /// Override the identity service's base URL.
    pub fn base_url(self, url: String) -> (r: Self)
        ensures
            r == (TokenRequestBuilder { base_url: Some(url), ..self }),
    {
        TokenRequestBuilder { base_url: Some(url), ..self }
    }

    /// Build a [`TokenRequest`] from the given parameters.
    ///
    /// Fails if and only if no API key was supplied.
    pub fn build(self) -> (r: Result<TokenRequest, ApiErrorKind>)
        ensures
            self.api_key is None ==> r == Result::<TokenRequest, ApiErrorKind>::Err(
                ApiErrorKind::MissingRequestApiKey,
            ),
            self.api_key matches Some(k) ==> r matches Ok(t) && t.api_key == k
                && t.endpoint_url@ == spec_token_endpoint(self.base_url) && t.https_only
                == !self.allow_http && t.accept_invalid_certs == self.allow_invalid_certs,
    {
        let api_key = match self.api_key {
            Some(k) => k,
            None => {
                return Err(ApiErrorKind::MissingRequestApiKey);
            },
        };
        let endpoint_url = match &self.base_url {
            Some(b) => {
                let mut url = b.clone();
                let n = url.as_str().unicode_len();
                if !(n > 0 && url.as_str().get_char(n - 1) == '/') {
                    url.append("/");
                }
                url.append(TOKEN_API_BASE_PATH);
                url
            },
            None => {
                let mut url = String::from_str(IDENTITY_API_URL);
                url.append(TOKEN_API_BASE_PATH);
                url
            },
        };
        Ok(
            TokenRequest {
                api_key,
                endpoint_url,
                https_only: !self.allow_http,
                accept_invalid_certs: self.allow_invalid_certs,
            },
        )
    }
}

/// An immutable descriptor for one `POST` against the token endpoint.
///
/// The caller sends it with `Authorization: Bearer {api_key}` and an empty
/// body, and interprets the outcome with [`interpret_access_token`] (plain
/// text) or by decoding the JSON body on a success status.
#[derive(Clone, Debug)]
pub struct TokenRequest {
    /// The long-lived API key sent as the bearer credential.
    pub api_key: String,
    /// The resolved URL of the token endpoint.
    pub endpoint_url: String,
    /// Whether the sender must insist on HTTPS.
    pub https_only: bool,
    /// Whether the sender may accept invalid TLS certificates.
    pub accept_invalid_certs: bool,
}

impl TokenRequest {
    /// Create a new request builder.
    pub fn builder() -> (r: TokenRequestBuilder)
        ensures
            r.api_key is None,
            r.base_url is None,
            !r.allow_http,
            !r.allow_invalid_certs,
    {
        TokenRequestBuilder::new()
    }
}

/// Interpret the outcome of a plain-text token request: on a success
/// status the body is the token itself; any other status is classified.
pub fn interpret_access_token(status: u16, body: String) -> (r: Result<String, ApiErrorKind>)
    ensures
        200 <= status < 300 ==> r == Result::<String, ApiErrorKind>::Ok(body),
        !(200 <= status < 300) ==> r == Result::<String, ApiErrorKind>::Err(spec_classify(status)),
{
    if 200 <= status && status < 300 {
        Ok(body)
    } else {
        Err(crate::error::classify_status(status))
    }
}

} // verus!
