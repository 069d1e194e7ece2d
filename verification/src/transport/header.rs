//! The header set of a request or response, held in `http::HeaderMap`.
//!
//! The map, its names and its values are the `http` crate's own types. What
//! this module states about them is believed, not proved: each item below
//! names the `http` function it describes.

use http::header::{HeaderMap, HeaderName, HeaderValue};
use http::header::{InvalidHeaderName, InvalidHeaderValue, MaxSizeReached};
use vstd::prelude::*;

verus! {

/// `http::HeaderMap`, the header set. Nothing inside it is visible here.
#[verifier::external_type_specification]
#[verifier::external_body]
#[verifier::reject_recursive_types(T)]
pub struct ExHeaderMap<T>(HeaderMap<T>);

/// `http::header::HeaderName`, a name accepted for a header.
#[verifier::external_type_specification]
#[verifier::external_body]
pub struct ExHeaderName(HeaderName);

/// `http::header::HeaderValue`, a value accepted for a header.
#[verifier::external_type_specification]
#[verifier::external_body]
pub struct ExHeaderValue(HeaderValue);

/// `http::header::InvalidHeaderName`, the refusal of a name.
#[verifier::external_type_specification]
#[verifier::external_body]
pub struct ExInvalidHeaderName(InvalidHeaderName);

/// `http::header::InvalidHeaderValue`, the refusal of a value.
#[verifier::external_type_specification]
#[verifier::external_body]
pub struct ExInvalidHeaderValue(InvalidHeaderValue);

/// `http::header::MaxSizeReached`, the refusal of a header set at its
/// capacity.
#[verifier::external_type_specification]
#[verifier::external_body]
pub struct ExMaxSizeReached(MaxSizeReached);

/// The longest header name `http` accepts, in bytes.
pub const MAX_HEADER_NAME_LEN: usize = 65535;

/// Whether `b` may stand in a header name as `http` takes one: a letter, a
/// digit, or one of ``! " # $ % & ' * + - . ^ _ ` | ~``.
pub open spec fn is_name_byte(b: u8) -> bool {
    ||| 33 <= b <= 39
    ||| b == 42
    ||| b == 43
    ||| b == 45
    ||| b == 46
    ||| 48 <= b <= 57
    ||| 65 <= b <= 90
    ||| 94 <= b <= 122
    ||| b == 124
    ||| b == 126
}

/// `b` with an upper-case ASCII letter replaced by its lower-case form.
pub open spec fn lower_byte(b: u8) -> u8 {
    if 65 <= b <= 90 {
        (b + 32) as u8
    } else {
        b
    }
}

/// Whether `name` can be a header name: between 1 and 65535 bytes, each of
/// them a name byte.
pub open spec fn is_header_name(name: Seq<u8>) -> bool {
    &&& 1 <= name.len() <= MAX_HEADER_NAME_LEN
    &&& forall|i: int| 0 <= i < name.len() ==> is_name_byte(#[trigger] name[i])
}

/// `name` in the form under which the header set files it: every letter in
/// lower case.
pub open spec fn normalized_name(name: Seq<u8>) -> Seq<u8> {
    Seq::new(name.len(), |i: int| lower_byte(name[i]))
}

/// Whether `b` may stand in a header value: a tab, or any byte from 32 up but
/// for 127.
pub open spec fn is_value_byte(b: u8) -> bool {
    (b >= 32 && b != 127) || b == 9
}

/// Whether `value` can be a header value: each byte is a value byte.
pub open spec fn is_header_value(value: Seq<u8>) -> bool {
    forall|i: int| 0 <= i < value.len() ==> is_value_byte(#[trigger] value[i])
}

/// The bytes of a header name, as `HeaderName::as_str` gives them.
pub uninterp spec fn header_name_bytes(name: HeaderName) -> Seq<u8>;

/// The bytes of a header value, as `HeaderValue::as_bytes` gives them.
pub uninterp spec fn header_value_bytes(value: HeaderValue) -> Seq<u8>;

/// What a header set holds: for each name in it, the first value filed under
/// that name.
pub uninterp spec fn header_map_view(map: HeaderMap) -> Map<Seq<u8>, Seq<u8>>;

/// Whether a header set has room to file a value under `name`: whether
/// `HeaderMap::try_insert` with that name succeeds on the set as it stands.
/// Which sets have room is not stated here, but for the set that `new` makes.
pub uninterp spec fn header_map_takes(map: HeaderMap, name: Seq<u8>) -> bool;

/// Whether a header set has room under every name.
pub open spec fn takes_every_name(map: HeaderMap) -> bool {
    forall|name: Seq<u8>| #[trigger] header_map_takes(map, name)
}

/// The header set that holds nothing.
pub open spec fn no_headers() -> Map<Seq<u8>, Seq<u8>> {
    Map::empty()
}

/// `http::HeaderMap::new`: a header set that holds nothing, and that has room
/// under every name, since a set without entries makes its first table on
/// the first insertion.
#[verifier::external_body]
pub(crate) fn header_map_new() -> (headers: HeaderMap)
    ensures
        header_map_view(headers) == no_headers(),
        forall|name: Seq<u8>| #[trigger] header_map_takes(headers, name),
{
    HeaderMap::new()
}

/// `http::header::HeaderName::from_bytes`: accepts exactly the byte strings
/// that are header names, and files each under its lower-case form.
#[verifier::external_body]
pub(crate) fn header_name_from_bytes(src: &[u8]) -> (parsed: Result<HeaderName, InvalidHeaderName>)
    ensures
        parsed is Ok <==> is_header_name(src@),
        parsed matches Ok(name) ==> header_name_bytes(name) == normalized_name(src@),
{
    HeaderName::from_bytes(src)
}

/// `http::header::HeaderValue::from_bytes`: accepts exactly the byte strings
/// that are header values, and keeps the bytes as they are.
#[verifier::external_body]
pub(crate) fn header_value_from_bytes(src: &[u8]) -> (parsed: Result<HeaderValue, InvalidHeaderValue>)
    ensures
        parsed is Ok <==> is_header_value(src@),
        parsed matches Ok(value) ==> header_value_bytes(value) == src@,
{
    HeaderValue::from_bytes(src)
}

/// `http::HeaderMap::try_insert`: succeeds exactly where the set has room
/// under `name`. On success the set holds `value`, and only it, under `name`,
/// and every other name as before; on failure it holds what it held.
#[verifier::external_body]
pub(crate) fn header_map_try_insert(
    map: &mut HeaderMap,
    name: HeaderName,
    value: HeaderValue,
) -> (inserted: Result<Option<HeaderValue>, MaxSizeReached>)
    ensures
        inserted is Ok <==> header_map_takes(*old(map), header_name_bytes(name)),
        inserted is Ok ==> header_map_view(*final(map)) == header_map_view(*old(map)).insert(
            header_name_bytes(name),
            header_value_bytes(value),
        ),
        inserted is Err ==> header_map_view(*final(map)) == header_map_view(*old(map)),
{
    map.try_insert(name, value)
}

} // verus!
