//! The HTTP client's error type and its rule for header values.

use vstd::prelude::*;

verus! {

/// An error of the HTTP client (`reqwest`); opaque here.
#[verifier::external_type_specification]
#[verifier::external_body]
pub struct ExHttpError(reqwest::Error);

/// A character that may stand in an HTTP header value: a tab, or anything
/// from the space upward but DEL. (The UTF-8 bytes of a character above
/// U+007F are all 0x80 or more, so every such character is allowed.)
pub open spec fn is_header_char(c: char) -> bool {
    c == '\t' || (c as u32 >= 32 && c as u32 != 127)
}

/// Every character of `s` may stand in an HTTP header value.
pub open spec fn is_header_text(s: Seq<char>) -> bool {
    forall|i: int| 0 <= i < s.len() ==> #[trigger] is_header_char(s[i])
}

/// Whether `text` parses as an HTTP header value.
///
/// Trusted: calls `reqwest::header::HeaderValue::from_str` (the `http`
/// crate's), which accepts a string exactly when each of its bytes `b`
/// satisfies `b >= 32 && b != 127 || b == b'\t'`; stated here per character.
#[verifier::external_body]
pub(crate) fn header_value_accepts(text: &str) -> (ok: bool)
    ensures
        ok == is_header_text(text@),
{
    reqwest::header::HeaderValue::from_str(text).is_ok()
}

} // verus!
