//! URL-safe base64 handling for CLI arguments and lock names.
//!
//! Keys and lock names travel to the remote services in unpadded, URL-safe
//! base64.  An argument may arrive already encoded — then it is checked and
//! passed through — or raw, in which case it is encoded here.  The encoding
//! itself is done by the `base64` crate; this module gives its results
//! names and states what the library relies on.

use vstd::prelude::*;

use base64::Engine;

use crate::error::CliError;
use crate::error::CliErrorKind;

verus! {

/// The unpadded, URL-safe base64 encoding of a string's UTF-8 bytes.
pub uninterp spec fn b64url_of(s: Seq<char>) -> Seq<char>;

/// Whether a string is valid unpadded, URL-safe base64.
pub uninterp spec fn is_b64url(s: Seq<char>) -> bool;

/// Relies on base64's `Engine::encode` with the URL-safe alphabet and no
/// padding: the result is a pure function of the input bytes, and an empty
/// input encodes to an empty string.
#[verifier::external_body]
fn b64_encode(s: &str) -> (r: String)
    ensures
        r@ == b64url_of(s@),
        s@.len() == 0 ==> r@.len() == 0,
{
    let engine = base64::engine::GeneralPurpose::new(
        &base64::alphabet::URL_SAFE,
        base64::engine::general_purpose::NO_PAD,
    );
    engine.encode(s)
}

/// Relies on base64's `Engine::decode` with the URL-safe alphabet and no
/// padding: it returns `Ok` exactly on the strings that are valid unpadded,
/// URL-safe base64, as a pure function of the input.
#[verifier::external_body]
fn b64_decode_check(s: &str) -> (r: bool)
    ensures
        r == is_b64url(s@),
{
    let engine = base64::engine::GeneralPurpose::new(
        &base64::alphabet::URL_SAFE,
        base64::engine::general_purpose::NO_PAD,
    );
    engine.decode(s).is_ok()
}

/// Encode a string as unpadded, URL-safe base64.
pub fn base64_url_encode(s: &str) -> (r: String)
    ensures
        r@ == b64url_of(s@),
        s@.len() == 0 ==> r@.len() == 0,
{
    b64_encode(s)
}

/// Whether a string is valid unpadded, URL-safe base64.
pub fn is_base64_url(s: &str) -> (r: bool)
    ensures
        r == is_b64url(s@),
{
    b64_decode_check(s)
}

/// Normalize an optional key argument to its encoded form.
///
/// A present value that the caller marked as already encoded is checked:
/// valid base64 passes through unchanged, anything else is rejected.  A raw
/// value is encoded.  An absent value stays absent.
pub fn maybe_base64_arg(value: Option<String>, already_encoded: bool) -> (r: Result<
    Option<String>,
    CliError,
>)
    ensures
        value is None ==> r == Result::<Option<String>, CliError>::Ok(None),
        value matches Some(s) ==> {
            &&& already_encoded && is_b64url(s@) ==> r == Result::<Option<String>, CliError>::Ok(
                Some(s),
            )
            &&& already_encoded && !is_b64url(s@) ==> (r matches Err(e)
                && e.kind is InvalidBase64)
            &&& !already_encoded ==> (r matches Ok(o) && (o matches Some(enc) && enc@ == b64url_of(
                s@,
            )))
        },
{
    let s = match value {
        None => {
            return Ok(None);
        },
        Some(s) => s,
    };
    if already_encoded {
        if is_base64_url(s.as_str()) {
            Ok(Some(s))
        } else {
            Err(CliErrorKind::InvalidBase64.into_err())
        }
    } else {
        Ok(Some(base64_url_encode(s.as_str())))
    }
}

} // verus!
