//! Declarations of chrono's timestamp types, and the one parse the crate
//! needs.  The records carry these values through without looking inside
//! them; only chrono itself ever computes with them.

use vstd::prelude::*;

verus! {

#[verifier::external_type_specification]
#[verifier::external_body]
pub struct ExNaiveDateTime(chrono::NaiveDateTime);

/// Whether a string has the service's timestamp shape,
/// `{year}-{month}-{day}T{hour}:{minute}:{second}Z`, with all parts in
/// range.  Exactly these strings parse to a timestamp.
pub uninterp spec fn datetime_parses(s: Seq<char>) -> bool;

/// Relies on chrono's `NaiveDateTime::parse_from_str` with a fixed format
/// string: the result depends on the input string alone, and is `Some`
/// exactly on strings of the service's timestamp shape.
#[verifier::external_body]
pub(crate) fn parse_datetime(s: &str) -> (r: Option<chrono::NaiveDateTime>)
    ensures
        r is Some <==> datetime_parses(s@),
{
    chrono::NaiveDateTime::parse_from_str(s, "%Y-%m-%dT%H:%M:%SZ").ok()
}

} // verus!
