//! A framework-neutral HTTP response: status, named header values and body
//! bytes, with the header-value rule that `http` applies.

use vstd::prelude::*;

verus! {

/// Whether `http` accepts the byte `b` in a header value: visible
/// characters, space, tab and any byte of a multi-byte character.
pub open spec fn header_value_byte(b: u8) -> bool {
    (b >= 32 && b != 127) || b == 9
}

/// Whether `http` accepts the text `s` as a header value: every byte of its
/// UTF-8 form is accepted.
pub open spec fn header_value_text(s: Seq<char>) -> bool {
    let bytes = vstd::utf8::encode_utf8(s);
    forall|i: int| 0 <= i < bytes.len() ==> header_value_byte(#[trigger] bytes[i])
}

/// `http::HeaderValue::from_str(s).is_ok()`. The source checks each byte of
/// `s` with `b >= 32 && b != 127 || b == b'\t'` and fails on the first that
/// does not pass; the contract states exactly that.
#[verifier::external_body]
pub(crate) fn header_value_accepts(s: &str) -> (r: bool)
    ensures
        r == header_value_text(s@),
{
    http::HeaderValue::from_str(s).is_ok()
}

/// A response as plain values: status code, headers in order (name in lower
/// case, value), body bytes.
#[derive(Debug)]
pub struct ResponseParts {
    pub status: u16,
    pub headers: Vec<(String, String)>,
    pub body: Vec<u8>,
}

/// The header pairs as character sequences.
pub open spec fn header_views(h: Seq<(String, String)>) -> Seq<(Seq<char>, Seq<char>)> {
    h.map_values(|p: (String, String)| (p.0@, p.1@))
}

/// A response that cannot be built.
#[derive(Debug, Clone, Copy, PartialEq, Eq, Structural)]
pub enum ResponseError {
    /// A header value holds a byte that `http` refuses.
    InvalidHeaderValue,
}

} // verus!
