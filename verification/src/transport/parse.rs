//! Decoding a raw response: checking its status, and reading its body as a
//! bare status, as one JSON value, or as a sequence of elements.

use crate::communicate::util::chunk_bytes;
use crate::errors::{ErrorKind, ErrorKindView, TransportFault};
use crate::text::text_view;
use crate::transport::header::header_map_view;
use crate::transport::json::{
    json_as_str, json_document, json_field, json_from_slice, json_get, json_text, json_view, Json,
};
use http::header::HeaderMap;
use serde_json::Value;
use vstd::prelude::*;

verus! {

/// The statuses an operation takes for success.
#[derive(Debug, Clone, PartialEq, Eq)]
pub enum Expected {
    /// Every status of the success class, 200 to 299.
    Success,
    /// The listed statuses and no other.
    OneOf(Vec<u16>),
}

impl Expected {
    /// Whether `status` counts as success.
    pub open spec fn admits(&self, status: u16) -> bool {
        match *self {
            Expected::Success => 200 <= status <= 299,
            Expected::OneOf(codes) => codes@.contains(status),
        }
    }

    /// Whether `status` counts as success.
    pub fn contains(&self, status: u16) -> (found: bool)
        ensures
            found == self.admits(status),
    {
        match self {
            Expected::Success => 200 <= status && status <= 299,
            Expected::OneOf(codes) => {
                let mut i: usize = 0;
                while i < codes.len()
                    invariant
                        i <= codes.len(),
                        self.admits(status) == codes@.contains(status),
                        forall|j: int| 0 <= j < i ==> codes@[j] != status,
                    decreases codes.len() - i,
                {
                    if codes[i] == status {
                        assert(codes@[i as int] == status);
                        return true;
                    }
                    i += 1;
                }
                false
            },
        }
    }
}

/// How the body of a response ended.
#[derive(Debug, Clone, Copy, PartialEq, Eq, Structural)]
pub enum BodyEnd {
    /// The daemon closed the body in order.
    Complete,
    /// The connection failed before the body was whole.
    Broken(TransportFault),
}

/// A response as it came off the connection: the status, the header set, the
/// chunks of the body in the order the daemon wrote them, and how the body
/// ended.
#[derive(Debug)]
pub struct RawResponse {
    pub status: u16,
    pub header: HeaderMap,
    pub chunks: Vec<Vec<u8>>,
    pub end: BodyEnd,
}

/// A [`RawResponse`] as mathematical values.
pub struct RawResponseView {
    pub status: u16,
    pub header: Map<Seq<u8>, Seq<u8>>,
    pub chunks: Seq<Seq<u8>>,
    pub end: BodyEnd,
}

impl View for RawResponse {
    type V = RawResponseView;

    open spec fn view(&self) -> RawResponseView {
        RawResponseView {
            status: self.status,
            header: header_map_view(self.header),
            chunks: chunk_bytes(self.chunks@),
            end: self.end,
        }
    }
}

/// The bytes of a body: its chunks, one after the other.
pub open spec fn joined(chunks: Seq<Seq<u8>>) -> Seq<u8>
    decreases chunks.len(),
{
    if chunks.len() == 0 {
        Seq::empty()
    } else {
        joined(chunks.drop_last()) + chunks.last()
    }
}

/// The whole of a body: the bytes of its chunks, one after the other.
pub fn drain(chunks: &Vec<Vec<u8>>) -> (body: Vec<u8>)
    ensures
        body@ == joined(chunk_bytes(chunks@)),
{
    let mut body: Vec<u8> = Vec::new();
    let mut i: usize = 0;
    while i < chunks.len()
        invariant
            i <= chunks.len(),
            body@ == joined(chunk_bytes(chunks@).take(i as int)),
        decreases chunks.len() - i,
    {
        proof {
            let all = chunk_bytes(chunks@);
            assert(all.take(i + 1).drop_last() == all.take(i as int));
            assert(all.take(i + 1).last() == chunks@[i as int]@);
        }
        body.extend_from_slice(chunks[i].as_slice());
        i += 1;
    }
    proof {
        let all = chunk_bytes(chunks@);
        assert(all.take(i as int) == all);
    }
    body
}

/// The string under `key` in `document`, where `document` is an object whose
/// member under `key` is a string.
pub open spec fn text_field(document: Json, key: Seq<char>) -> Option<Seq<char>> {
    match json_field(document, key) {
        Some(member) => json_text(member),
        None => None,
    }
}

/// The message of a daemon's error body: the string under `message`, where
/// the body is a JSON object that has one.
pub open spec fn daemon_message(body: Seq<u8>) -> Option<Seq<char>> {
    match json_document(body) {
        Some(document) => text_field(document, "message"@),
        None => None,
    }
}

/// The string under `key` in `document`, where there is one.
pub fn field_text(document: &Value, key: &str) -> (text: Option<String>)
    ensures
        text_view(text) == text_field(json_view(*document), key@),
{
    match json_get(document, key) {
        Some(member) => match json_as_str(member) {
            Some(text) => Some(text.to_owned()),
            None => None,
        },
        None => None,
    }
}

/// The message a daemon's error body carries, where it carries one.
pub fn error_message(body: &[u8]) -> (message: Option<String>)
    ensures
        text_view(message) == daemon_message(body@),
{
    match json_from_slice(body) {
        Ok(document) => field_text(&document, "message"),
        Err(_) => None,
    }
}

/// The error for a status outside the expected set: the status itself, and
/// the daemon's message where the body received carries one.
pub open spec fn refusal(raw: RawResponseView) -> ErrorKindView {
    ErrorKindView::Api { status: raw.status, message: daemon_message(joined(raw.chunks)) }
}

/// The error for a response whose status is outside the expected set: its
/// body is read for the daemon's message.
pub fn api_error(raw: RawResponse) -> (error: ErrorKind)
    ensures
        error@ == refusal(raw@),
{
    let body = drain(&raw.chunks);
    ErrorKind::Api { status: raw.status, message: error_message(body.as_slice()) }
}

/// What status-only decoding yields.
pub open spec fn status_outcome(raw: RawResponseView, expected: Expected) -> Result<
    u16,
    ErrorKindView,
> {
    if !expected.admits(raw.status) {
        Err(refusal(raw))
    } else {
        match raw.end {
            BodyEnd::Broken(fault) => Err(ErrorKindView::Transport(fault)),
            BodyEnd::Complete => Ok(raw.status),
        }
    }
}

/// Status-only decoding: the status itself, where it is expected and the body
/// ended in order. The response is consumed, so no byte of its body is left
/// unread.
///
/// A status that is not expected yields `Api`, however the body ended; an
/// expected status whose body broke off yields `Transport`.
pub fn status_code(raw: RawResponse, expected: &Expected) -> (result: Result<u16, ErrorKind>)
    ensures
        match result {
            Ok(status) => status_outcome(raw@, *expected) == Ok::<u16, ErrorKindView>(status),
            Err(error) => status_outcome(raw@, *expected) == Err::<u16, ErrorKindView>(error@),
        },
{
    if !expected.contains(raw.status) {
        return Err(api_error(raw));
    }
    match raw.end {
        BodyEnd::Broken(fault) => Err(ErrorKind::Transport(fault)),
        BodyEnd::Complete => Ok(raw.status),
    }
}

/// What single-value decoding yields.
pub open spec fn value_outcome(raw: RawResponseView, expected: Expected) -> Result<
    Json,
    ErrorKindView,
> {
    match status_outcome(raw, expected) {
        Err(error) => Err(error),
        Ok(_) => match json_document(joined(raw.chunks)) {
            Some(document) => Ok(document),
            None => Err(ErrorKindView::Decode),
        },
    }
}

/// What single-value decoding answers for each outcome of parsing the body:
/// the document where there is one, `Decode` where there is none.
pub fn parsed_value(parsed: Result<Value, serde_json::Error>) -> (result: Result<Value, ErrorKind>)
    ensures
        match parsed {
            Ok(document) => result == Ok::<Value, ErrorKind>(document),
            Err(_) => result == Err::<Value, ErrorKind>(ErrorKind::Decode),
        },
{
    match parsed {
        Ok(document) => Ok(document),
        Err(_) => Err(ErrorKind::Decode),
    }
}

/// Single-value decoding: buffers the whole body and reads it as one JSON
/// value.
///
/// A status that is not expected yields `Api`; an expected status whose body
/// broke off yields `Transport`; an expected status whose whole body spells
/// no JSON document yields `Decode`.
pub fn parse_to_value(raw: RawResponse, expected: &Expected) -> (result: Result<Value, ErrorKind>)
    ensures
        match result {
            Ok(document) => value_outcome(raw@, *expected) == Ok::<Json, ErrorKindView>(
                json_view(document),
            ),
            Err(error) => value_outcome(raw@, *expected) == Err::<Json, ErrorKindView>(error@),
        },
{
    if !expected.contains(raw.status) {
        return Err(api_error(raw));
    }
    match raw.end {
        BodyEnd::Broken(fault) => Err(ErrorKind::Transport(fault)),
        BodyEnd::Complete => {
            let body = drain(&raw.chunks);
            parsed_value(json_from_slice(body.as_slice()))
        },
    }
}

} // verus!
