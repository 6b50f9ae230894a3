//! Name validation and random name generation for flights and formations.
//!
//! A flight or formation name is a short, DNS-label-like identifier: one to
//! twenty-seven characters, lowercase ASCII letters, digits and hyphens,
//! beginning with a letter and not ending with a hyphen.  Fresh names are
//! drawn from the `names` crate's adjective-noun generator and filtered
//! through the validator, so every generated name is valid by construction.

use vstd::prelude::*;
use vstd::string::StrSliceExecFns;

verus! {

/// The longest valid flight or formation name.
pub const MAX_NAME_LEN: usize = 27;

/// Whether `c` is a lowercase ASCII letter.
pub open spec fn is_lower_alpha(c: char) -> bool {
    'a' <= c <= 'z'
}

/// Whether `c` may appear in a name.
pub open spec fn is_name_char(c: char) -> bool {
    is_lower_alpha(c) || ('0' <= c <= '9') || c == '-'
}

/// Whether `s` is a valid flight or formation name.
pub open spec fn spec_valid_name(s: Seq<char>) -> bool {
    &&& 1 <= s.len() <= MAX_NAME_LEN
    &&& (forall|i: int| 0 <= i < s.len() ==> is_name_char(#[trigger] s[i]))
    &&& is_lower_alpha(s[0])
    &&& s[s.len() - 1] != '-'
}

/// Check whether `name` is a valid name.
fn validate_name(name: &str) -> (r: bool)
    ensures
        r == spec_valid_name(name@),
{
    let n = name.unicode_len();
    if n < 1 || n > MAX_NAME_LEN {
        return false;
    }
    let first = name.get_char(0);
    if !('a' <= first && first <= 'z') {
        return false;
    }
    if name.get_char(n - 1) == '-' {
        return false;
    }
    let mut i: usize = 0;
    while i < n
        invariant
            n == name@.len(),
            0 <= i <= n,
            forall|j: int| 0 <= j < i ==> is_name_char(#[trigger] name@[j]),
        decreases n - i,
    {
        let c = name.get_char(i);
        let ok = ('a' <= c && c <= 'z') || ('0' <= c && c <= '9') || c == '-';
        if !ok {
            return false;
        }
        i += 1;
    }
    true
}

/// Check whether `name` may name a flight.
pub fn validate_flight_name(name: &str) -> (r: bool)
    ensures
        r == spec_valid_name(name@),
{
    validate_name(name)
}

/// Check whether `name` may name a formation.
pub fn validate_formation_name(name: &str) -> (r: bool)
    ensures
        r == spec_valid_name(name@),
{
    validate_name(name)
}

/// Relies on names' `Generator`: its iterator always yields a candidate, so
/// `find` stops exactly at the first candidate the validator accepts, and
/// the returned name satisfies the validator.
#[verifier::external_body]
fn find_valid_flight_name() -> (r: String)
    ensures
        spec_valid_name(r@),
{
    names::Generator::default().find(|name| validate_flight_name(name.as_str())).expect(
        "the name generator never runs dry",
    )
}

/// Relies on names' `Generator`: its iterator always yields a candidate, so
/// `find` stops exactly at the first candidate the validator accepts, and
/// the returned name satisfies the validator.
#[verifier::external_body]
fn find_valid_formation_name() -> (r: String)
    ensures
        spec_valid_name(r@),
{
    names::Generator::default().find(|name| validate_formation_name(name.as_str())).expect(
        "the name generator never runs dry",
    )
}

/// Generate a random, valid flight name.
pub fn generate_flight_name() -> (r: String)
    ensures
        spec_valid_name(r@),
{
    find_valid_flight_name()
}

/// Generate a random, valid formation name.
pub fn generate_formation_name() -> (r: String)
    ensures
        spec_valid_name(r@),
{
    find_valid_formation_name()
}

} // verus!
