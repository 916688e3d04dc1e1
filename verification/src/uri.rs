//! Trusted interface to `http`'s URI parser.

use vstd::prelude::*;

verus! {

#[verifier::external_type_specification]
#[verifier::external_body]
pub struct ExUri(http::Uri);

#[verifier::external_type_specification]
#[verifier::external_body]
pub struct ExInvalidUri(http::uri::InvalidUri);

/// Whether `http`'s URI grammar accepts the string. The parse is a
/// deterministic function of the characters alone.
pub uninterp spec fn uri_parses(s: Seq<char>) -> bool;

/// Relies on `<http::Uri as FromStr>::from_str`: a deterministic parse that
/// returns `Ok` exactly when the string is a well-formed URI.
pub assume_specification[ <http::Uri as core::str::FromStr>::from_str ](s: &str) -> (r: Result<
    http::Uri,
    http::uri::InvalidUri,
>)
    ensures
        r is Ok <==> uri_parses(s@),
;

} // verus!
