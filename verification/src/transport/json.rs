//! JSON documents, read by `serde_json`.
//!
//! A parsed document is `serde_json::Value`, which the verifier cannot look
//! into. What this module states about parsing and about reading a document
//! is believed, not proved: each item below names the `serde_json` function it
//! describes.

use crate::text::slice_text;
use serde_json::Value;
use vstd::prelude::*;

verus! {

/// `serde_json::Value`, a parsed document. Nothing inside it is visible
/// here.
#[verifier::external_type_specification]
#[verifier::external_body]
pub struct ExValue(Value);

/// `serde_json::Error`, the refusal of bytes that spell no document.
#[verifier::external_type_specification]
#[verifier::external_body]
pub struct ExJsonError(serde_json::Error);

/// A JSON document as a mathematical value. A number stands for itself only:
/// nothing here reads one.
pub enum Json {
    Null,
    Bool(bool),
    Number,
    Text(Seq<char>),
    Array(Seq<Json>),
    Object(Map<Seq<char>, Json>),
}

/// The member of `document` under `key`, where `document` is an object that
/// has one.
pub open spec fn json_field(document: Json, key: Seq<char>) -> Option<Json> {
    match document {
        Json::Object(members) => if members.dom().contains(key) {
            Some(members[key])
        } else {
            None
        },
        _ => None,
    }
}

/// The characters of `document`, where it is a string.
pub open spec fn json_text(document: Json) -> Option<Seq<char>> {
    match document {
        Json::Text(text) => Some(text),
        _ => None,
    }
}

/// The document held by a parsed value.
pub uninterp spec fn json_view(value: Value) -> Json;

/// The document that `bytes` spell, where they spell one.
pub uninterp spec fn json_document(bytes: Seq<u8>) -> Option<Json>;

/// The document a borrowed value holds, if a value is given.
pub open spec fn json_view_of(value: Option<&Value>) -> Option<Json> {
    match value {
        Some(v) => Some(json_view(*v)),
        None => None,
    }
}

/// `serde_json::from_slice`, reading a `Value`: succeeds exactly where the
/// bytes spell a document, and then holds that document.
#[verifier::external_body]
pub(crate) fn json_from_slice(bytes: &[u8]) -> (parsed: Result<Value, serde_json::Error>)
    ensures
        parsed is Ok <==> json_document(bytes@) is Some,
        parsed matches Ok(value) ==> json_document(bytes@) == Some(json_view(value)),
{
    serde_json::from_slice::<Value>(bytes)
}

/// `serde_json::Value::get` with a string index: the member under `key` where
/// the value is an object that has one, and nothing otherwise.
#[verifier::external_body]
pub(crate) fn json_get<'a>(value: &'a Value, key: &str) -> (member: Option<&'a Value>)
    ensures
        json_view_of(member) == json_field(json_view(*value), key@),
{
    value.get(key)
}

/// `serde_json::Value::as_str`: the characters where the value is a string,
/// and nothing otherwise.
#[verifier::external_body]
pub(crate) fn json_as_str<'a>(value: &'a Value) -> (text: Option<&'a str>)
    ensures
        slice_text(text) == json_text(json_view(*value)),
{
    value.as_str()
}

} // verus!
