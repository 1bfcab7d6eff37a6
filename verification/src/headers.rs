//! The header map of `reqwest`, as far as the session uses it.
//!
//! Verus does not look inside a `HeaderMap` or a `HeaderValue`. What they hold
//! is named here, and the contracts below say over those names what the calls
//! do. Nothing in this file is proved: the contracts are taken from the source
//! of the `http` crate, whose `header` module `reqwest` hands on.

use reqwest::header::{HeaderMap, HeaderValue, InvalidHeaderValue};
use vstd::prelude::*;
use vstd::utf8::encode_utf8;

verus! {

#[verifier::external_type_specification]
#[verifier::external_body]
#[verifier::reject_recursive_types(T)]
pub struct ExHeaderMap<T>(HeaderMap<T>);

#[verifier::external_type_specification]
#[verifier::external_body]
pub struct ExHeaderValue(HeaderValue);

#[verifier::external_type_specification]
#[verifier::external_body]
pub struct ExInvalidHeaderValue(InvalidHeaderValue);

/// The fields of a header map: for each name that it holds, in lower case, the
/// bytes of the first value under that name.
pub uninterp spec fn header_fields(headers: HeaderMap) -> Map<Seq<char>, Seq<u8>>;

/// The bytes of a header value.
pub uninterp spec fn header_value_bytes(value: HeaderValue) -> Seq<u8>;

/// The bytes that may stand in a header value: a tab, or anything from the
/// space upward but the delete character.
pub open spec fn is_value_byte(b: u8) -> bool {
    b >= 32 && b != 127 || b == 9
}

/// Whether `text` can be sent as the value of a header.
pub open spec fn is_header_text(text: Seq<char>) -> bool {
    let bytes = encode_utf8(text);
    forall|i: int| 0 <= i < bytes.len() ==> is_value_byte(#[trigger] bytes[i])
}

/// The characters of a header name that this library relies on: letters, digits
/// and the hyphen. The map accepts a few more.
pub open spec fn is_name_char(c: char) -> bool {
    ('a' <= c && c <= 'z') || ('A' <= c && c <= 'Z') || ('0' <= c && c <= '9') || c == '-'
}

/// Whether `name` is a header name of such characters, short enough for the map
/// to take it whole.
pub open spec fn is_header_name(name: Seq<char>) -> bool {
    &&& 0 < name.len() <= 64
    &&& forall|i: int| 0 <= i < name.len() ==> is_name_char(#[trigger] name[i])
}

/// `c` in lower case, where it is an upper-case letter of ASCII.
pub open spec fn lower_char(c: char) -> char {
    if 'A' <= c && c <= 'Z' {
        ((c as u8) + 32) as char
    } else {
        c
    }
}

/// The name under which the map files a header given as `name`: header names do
/// not tell upper case from lower.
pub open spec fn header_key(name: Seq<char>) -> Seq<char> {
    name.map_values(|c: char| lower_char(c))
}

/// How many names a map may hold for `set_header` to be called on it. The map
/// itself takes several thousand before it refuses to grow.
pub const HEADER_LIMIT: usize = 1024;

/// The fields of a map that holds nothing.
pub open spec fn no_fields() -> Map<Seq<char>, Seq<u8>> {
    Map::empty()
}

/// `HeaderMap::new`: a map without fields.
#[verifier::external_body]
pub(crate) fn new_headers() -> (headers: HeaderMap)
    ensures
        header_fields(headers) == no_fields(),
{
    HeaderMap::new()
}

/// `HeaderValue::from_str`: a value of the bytes of `text`, unless one of them
/// may not stand in a header value.
#[verifier::external_body]
pub(crate) fn parse_header_value(text: &str) -> (parsed: Result<HeaderValue, InvalidHeaderValue>)
    ensures
        parsed is Ok <==> is_header_text(text@),
        parsed matches Ok(value) ==> header_value_bytes(value) == encode_utf8(text@),
{
    HeaderValue::from_str(text)
}

/// `HeaderMap::insert`: `value` becomes the only value under `name`, and the
/// other fields stay as they are.
#[verifier::external_body]
pub(crate) fn set_header(headers: &mut HeaderMap, name: &'static str, value: HeaderValue)
    requires
        is_header_name(name@),
        header_fields(*old(headers)).dom().finite(),
        header_fields(*old(headers)).dom().len() < HEADER_LIMIT,
    ensures
        header_fields(*final(headers)) == header_fields(*old(headers)).insert(
            header_key(name@),
            header_value_bytes(value),
        ),
{
    headers.insert(name, value);
}

/// `HeaderMap::clone`: a map with the same fields.
#[verifier::external_body]
pub(crate) fn copy_headers(headers: &HeaderMap) -> (copy: HeaderMap)
    ensures
        header_fields(copy) == header_fields(*headers),
{
    headers.clone()
}

} // verus!
