//! Trusted interface to `http`'s header-value validation.

use vstd::prelude::*;

verus! {

#[verifier::external_type_specification]
#[verifier::external_body]
pub struct ExHeaderValue(http::header::HeaderValue);

#[verifier::external_type_specification]
#[verifier::external_body]
pub struct ExInvalidHeaderValue(http::header::InvalidHeaderValue);

/// Whether a character may stand in a header value: horizontal tab, or
/// anything but the other C0 control characters and delete. Bytes 128..=255
/// are accepted by the validator, so every character beyond ASCII passes.
pub open spec fn header_char_ok(c: char) -> bool {
    c == '\t' || (c as u32 >= 32 && c as u32 != 127)
}

/// Whether a whole string is a valid header value.
pub open spec fn header_value_ok(s: Seq<char>) -> bool {
    forall|i: int| 0 <= i < s.len() ==> header_char_ok(#[trigger] s[i])
}

/// Relies on `http::HeaderValue::from_str`: it accepts exactly the strings
/// whose bytes are tab or in 32..=255 less delete, which at the level of
/// characters is `header_value_ok`.
pub assume_specification[ http::header::HeaderValue::from_str ](src: &str) -> (r: Result<
    http::header::HeaderValue,
    http::header::InvalidHeaderValue,
>)
    ensures
        r is Ok <==> header_value_ok(src@),
;

} // verus!
