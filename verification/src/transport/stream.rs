//! Streamed decoding: the body of a response read as a sequence of elements
//! while it arrives.
//!
//! A decoder is fed the events of a body one at a time, each chunk and then
//! the end, and answers each with the elements that event completed. Reading
//! a whole response at once is feeding its events in order.

use crate::communicate::util::{chunk_bytes, Body, BodyView, IntoRequestArgs};
use crate::errors::{ErrorKind, ErrorKindView, TransportFault};
use crate::transport::json::{json_document, json_from_slice, json_view, Json};
use crate::transport::parse::{
    api_error, joined, parsed_value, refusal, BodyEnd, Expected, RawResponse, RawResponseView,
};
use serde_json::Value;
use vstd::prelude::*;

verus! {

/// How a streamed body is cut into elements.
#[derive(Debug, Clone, Copy, PartialEq, Eq, Structural)]
pub enum StreamMode {
    /// Each chunk is one JSON value.
    Json,
    /// Each line of the body is one JSON value, wherever the chunks divide.
    JsonLines,
    /// Each chunk is taken as the bytes it is.
    Bytes,
}

/// One element of a streamed body.
#[derive(Debug, PartialEq, Eq)]
pub enum Element {
    Json(Value),
    Bytes(Vec<u8>),
}

/// An [`Element`] as mathematical values.
pub enum ElementView {
    Json(Json),
    Bytes(Seq<u8>),
}

impl View for Element {
    type V = ElementView;

    open spec fn view(&self) -> ElementView {
        match *self {
            Element::Json(document) => ElementView::Json(json_view(document)),
            Element::Bytes(bytes) => ElementView::Bytes(bytes@),
        }
    }
}

/// Each element of `elements` as mathematical values, in order.
pub open spec fn element_views(elements: Seq<Element>) -> Seq<ElementView> {
    Seq::new(elements.len(), |i: int| elements[i]@)
}

/// The element one chunk is read as, where it can be read: the chunk itself
/// as bytes, else the JSON document it spells.
pub open spec fn element_of(mode: StreamMode, chunk: Seq<u8>) -> Option<ElementView> {
    match mode {
        StreamMode::Bytes => Some(ElementView::Bytes(chunk)),
        _ => match json_document(chunk) {
            Some(document) => Some(ElementView::Json(document)),
            None => None,
        },
    }
}

/// Reads one chunk as one element.
pub fn decode_chunk(mode: StreamMode, chunk: Vec<u8>) -> (element: Result<Element, ErrorKind>)
    ensures
        match element {
            Ok(read) => element_of(mode, chunk@) == Some(read@),
            Err(error) => element_of(mode, chunk@) is None && error == ErrorKind::Decode,
        },
{
    match mode {
        StreamMode::Bytes => Ok(Element::Bytes(chunk)),
        _ => match parsed_value(json_from_slice(chunk.as_slice())) {
            Ok(document) => Ok(Element::Json(document)),
            Err(error) => Err(error),
        },
    }
}

/// The byte that ends a line.
pub const NEWLINE: u8 = 10;

/// What stands behind the last line end of `bytes`: the line still open.
pub open spec fn rest_of(bytes: Seq<u8>) -> Seq<u8>
    decreases bytes.len(),
{
    if bytes.len() == 0 {
        Seq::empty()
    } else if bytes.last() == NEWLINE {
        Seq::empty()
    } else {
        rest_of(bytes.drop_last()).push(bytes.last())
    }
}

/// The lines of `bytes` that a line end closes, each without its line end.
pub open spec fn lines_of(bytes: Seq<u8>) -> Seq<Seq<u8>>
    decreases bytes.len(),
{
    if bytes.len() == 0 {
        Seq::empty()
    } else if bytes.last() == NEWLINE {
        lines_of(bytes.drop_last()).push(rest_of(bytes.drop_last()))
    } else {
        lines_of(bytes.drop_last())
    }
}

/// Whether `bytes` holds no line end.
pub open spec fn unbroken(bytes: Seq<u8>) -> bool {
    forall|i: int| 0 <= i < bytes.len() ==> #[trigger] bytes[i] != NEWLINE
}

/// Whether `b` is a space, a tab or a carriage return.
pub open spec fn is_blank_byte(b: u8) -> bool {
    b == 32 || b == 9 || b == 13
}

/// Whether a line holds nothing to read: it is empty or all blank bytes.
pub open spec fn is_blank(line: Seq<u8>) -> bool {
    forall|i: int| 0 <= i < line.len() ==> is_blank_byte(#[trigger] line[i])
}

/// The element a line is read as: none for a blank line, else the JSON
/// document it spells. The outer `None` says it spells none.
pub open spec fn record_of(line: Seq<u8>) -> Option<Option<ElementView>> {
    if is_blank(line) {
        Some(None)
    } else {
        match json_document(line) {
            Some(document) => Some(Some(ElementView::Json(document))),
            None => None,
        }
    }
}

/// The elements that lines are read as, where every line that is not blank
/// can be read.
pub open spec fn record_elements(lines: Seq<Seq<u8>>) -> Option<Seq<ElementView>>
    decreases lines.len(),
{
    if lines.len() == 0 {
        Some(Seq::empty())
    } else {
        match (record_elements(lines.drop_last()), record_of(lines.last())) {
            (Some(elements), Some(Some(element))) => Some(elements.push(element)),
            (Some(elements), Some(None)) => Some(elements),
            _ => None,
        }
    }
}

/// What a connection hands the consumer of a streamed body: the next chunk,
/// or the end of the body.
#[derive(Debug, Clone, PartialEq, Eq)]
pub enum StreamEvent {
    Chunk(Vec<u8>),
    End(BodyEnd),
}

/// A [`StreamEvent`] as mathematical values.
pub enum StreamEventView {
    Chunk(Seq<u8>),
    End(BodyEnd),
}

impl View for StreamEvent {
    type V = StreamEventView;

    open spec fn view(&self) -> StreamEventView {
        match *self {
            StreamEvent::Chunk(chunk) => StreamEventView::Chunk(chunk@),
            StreamEvent::End(end) => StreamEventView::End(end),
        }
    }
}

/// The consumer's side of a streamed body: it holds the line still open, and
/// whether the stream is still open. A stream closes at its end and at its
/// first failure; a closed stream yields nothing further.
#[derive(Debug)]
pub struct StreamDecoder {
    mode: StreamMode,
    pending: Vec<u8>,
    open: bool,
}

/// A [`StreamDecoder`] as mathematical values.
pub struct StreamDecoderView {
    pub mode: StreamMode,
    pub pending: Seq<u8>,
    pub open: bool,
}

impl View for StreamDecoder {
    type V = StreamDecoderView;

    closed spec fn view(&self) -> StreamDecoderView {
        StreamDecoderView { mode: self.mode, pending: self.pending@, open: self.open }
    }
}

/// A decoder at the start of a body.
pub open spec fn started(mode: StreamMode) -> StreamDecoderView {
    StreamDecoderView { mode, pending: Seq::empty(), open: true }
}

/// A decoder whose stream has closed.
pub open spec fn closed(mode: StreamMode) -> StreamDecoderView {
    StreamDecoderView { mode, pending: Seq::empty(), open: false }
}

/// The answer to one event: the decoder after it, and the elements the event
/// completed or the error at which the stream failed.
///
/// A chunk completes its own element, or in lines the elements of the lines
/// it closes. The end of a body that closed in order completes the line
/// still open, if any. The end of a body that broke off is `Transport`.
pub open spec fn fed(state: StreamDecoderView, event: StreamEventView) -> (
    StreamDecoderView,
    Result<Seq<ElementView>, ErrorKindView>,
) {
    if !state.open {
        (state, Ok(Seq::empty()))
    } else {
        match event {
            StreamEventView::End(BodyEnd::Broken(fault)) => (
                closed(state.mode),
                Err(ErrorKindView::Transport(fault)),
            ),
            StreamEventView::End(BodyEnd::Complete) => match state.mode {
                StreamMode::JsonLines => match record_elements(seq![state.pending]) {
                    Some(elements) => (closed(state.mode), Ok(elements)),
                    None => (closed(state.mode), Err(ErrorKindView::Decode)),
                },
                _ => (closed(state.mode), Ok(Seq::empty())),
            },
            StreamEventView::Chunk(chunk) => match state.mode {
                StreamMode::JsonLines => match record_elements(lines_of(state.pending + chunk)) {
                    Some(elements) => (
                        StreamDecoderView {
                            mode: state.mode,
                            pending: rest_of(state.pending + chunk),
                            open: true,
                        },
                        Ok(elements),
                    ),
                    None => (closed(state.mode), Err(ErrorKindView::Decode)),
                },
                _ => match element_of(state.mode, chunk) {
                    Some(element) => (state, Ok(seq![element])),
                    None => (closed(state.mode), Err(ErrorKindView::Decode)),
                },
            },
        }
    }
}

/// Bytes without a line end are one open line and close none.
proof fn lemma_unbroken(bytes: Seq<u8>)
    requires
        unbroken(bytes),
    ensures
        rest_of(bytes) == bytes,
        lines_of(bytes) == Seq::<Seq<u8>>::empty(),
    decreases bytes.len(),
{
    if bytes.len() > 0 {
        lemma_unbroken(bytes.drop_last());
        assert(bytes.drop_last().push(bytes.last()) =~= bytes);
    } else {
        assert(bytes =~= Seq::empty());
    }
}

/// The open line holds no line end.
proof fn lemma_rest_is_unbroken(bytes: Seq<u8>)
    ensures
        unbroken(rest_of(bytes)),
    decreases bytes.len(),
{
    if bytes.len() > 0 && bytes.last() != NEWLINE {
        lemma_rest_is_unbroken(bytes.drop_last());
    }
}

/// Lines do not depend on where the bytes are divided: the lines of two parts
/// put together are the lines of the first, then the lines of what the first
/// left open followed by the second.
proof fn lemma_lines_of_parts(first: Seq<u8>, second: Seq<u8>)
    ensures
        lines_of(first + second) == lines_of(first) + lines_of(rest_of(first) + second),
        rest_of(first + second) == rest_of(rest_of(first) + second),
    decreases second.len(),
{
    lemma_rest_is_unbroken(first);
    if second.len() == 0 {
        assert(first + second =~= first);
        assert(rest_of(first) + second =~= rest_of(first));
        lemma_unbroken(rest_of(first));
        assert(lines_of(first) + Seq::<Seq<u8>>::empty() =~= lines_of(first));
    } else {
        let shorter = second.drop_last();
        lemma_lines_of_parts(first, shorter);
        assert((first + second).drop_last() =~= first + shorter);
        assert((rest_of(first) + second).drop_last() =~= rest_of(first) + shorter);
        assert((first + second).last() == second.last());
        assert((rest_of(first) + second).last() == second.last());
        if second.last() == NEWLINE {
            assert((lines_of(first) + lines_of(rest_of(first) + shorter)).push(
                rest_of(rest_of(first) + shorter),
            ) =~= lines_of(first) + lines_of(rest_of(first) + shorter).push(
                rest_of(rest_of(first) + shorter),
            ));
        }
    }
}

/// The elements of lines put together are the elements of each part, one
/// after the other, and there are none where either part cannot be read.
proof fn lemma_record_elements_of_parts(first: Seq<Seq<u8>>, second: Seq<Seq<u8>>)
    ensures
        record_elements(first + second) == match (
            record_elements(first),
            record_elements(second),
        ) {
            (Some(before), Some(after)) => Some(before + after),
            _ => None,
        },
    decreases second.len(),
{
    if second.len() == 0 {
        assert(first + second =~= first);
        if record_elements(first) is Some {
            assert(record_elements(first).unwrap() + Seq::<ElementView>::empty()
                =~= record_elements(first).unwrap());
        }
    } else {
        let shorter = second.drop_last();
        lemma_record_elements_of_parts(first, shorter);
        assert((first + second).drop_last() =~= first + shorter);
        assert((first + second).last() == second.last());
        match (record_elements(first), record_elements(shorter), record_of(second.last())) {
            (Some(before), Some(after), Some(Some(element))) => {
                assert((before + after).push(element) =~= before + after.push(element));
            },
            _ => {},
        }
    }
}

impl StreamDecoder {
    /// The line still open holds no line end.
    #[verifier::type_invariant]
    spec fn wf(self) -> bool {
        unbroken(self.pending@)
    }

    /// A decoder at the start of a body.
    pub fn new(mode: StreamMode) -> (decoder: StreamDecoder)
        ensures
            decoder@ == started(mode),
    {
        StreamDecoder { mode, pending: Vec::new(), open: true }
    }

    /// Whether the stream may yield further elements.
    pub fn is_open(&self) -> (open: bool)
        ensures
            open == self@.open,
    {
        self.open
    }

    /// Closes the stream and gives up the line still open.
    fn close(&mut self)
        ensures
            final(self)@ == closed(old(self)@.mode),
    {
        self.pending = Vec::new();
        self.open = false;
    }

    /// Answers one event of the body: the elements it completed, or the error
    /// at which the stream failed.
    pub fn feed(&mut self, event: StreamEvent) -> (result: Result<Vec<Element>, ErrorKind>)
        ensures
            final(self)@ == fed(old(self)@, event@).0,
            match result {
                Ok(elements) => fed(old(self)@, event@).1 == Ok::<
                    Seq<ElementView>,
                    ErrorKindView,
                >(element_views(elements@)),
                Err(error) => fed(old(self)@, event@).1 == Err::<
                    Seq<ElementView>,
                    ErrorKindView,
                >(error@),
            },
    {
        if !self.open {
            let elements: Vec<Element> = Vec::new();
            assert(element_views(elements@) =~= Seq::<ElementView>::empty());
            return Ok(elements);
        }
        match event {
            StreamEvent::End(BodyEnd::Broken(fault)) => {
                self.close();
                Err(ErrorKind::Transport(fault))
            },
            StreamEvent::End(BodyEnd::Complete) => {
                let mut elements: Vec<Element> = Vec::new();
                assert(element_views(elements@) =~= Seq::<ElementView>::empty());
                match self.mode {
                    StreamMode::JsonLines => {
                        proof {
                            let line = self.pending@;
                            reveal_with_fuel(record_elements, 2);
                            assert(seq![line].drop_last() =~= Seq::<Seq<u8>>::empty());
                            assert(seq![line].last() == line);
                        }
                        let record = decode_record(self.pending.as_slice());
                        self.close();
                        match record {
                            Ok(Some(element)) => {
                                assert(element_views(elements@.push(element))
                                    =~= element_views(elements@).push(element@));
                                elements.push(element);
                                Ok(elements)
                            },
                            Ok(None) => Ok(elements),
                            Err(error) => Err(error),
                        }
                    },
                    _ => {
                        self.close();
                        Ok(elements)
                    },
                }
            },
            StreamEvent::Chunk(chunk) => match self.mode {
                StreamMode::JsonLines => self.feed_lines(chunk),
                mode => match decode_chunk(mode, chunk) {
                    Ok(element) => {
                        let mut elements: Vec<Element> = Vec::new();
                        elements.push(element);
                        assert(element_views(elements@) =~= seq![element@]);
                        Ok(elements)
                    },
                    Err(error) => {
                        self.close();
                        Err(error)
                    },
                },
            },
        }
    }

    /// Answers a chunk of a body read in lines.
    fn feed_lines(&mut self, chunk: Vec<u8>) -> (result: Result<Vec<Element>, ErrorKind>)
        requires
            old(self)@.open,
            old(self)@.mode == StreamMode::JsonLines,
        ensures
            final(self)@ == fed(old(self)@, StreamEventView::Chunk(chunk@)).0,
            match result {
                Ok(elements) => fed(old(self)@, StreamEventView::Chunk(chunk@)).1 == Ok::<
                    Seq<ElementView>,
                    ErrorKindView,
                >(element_views(elements@)),
                Err(error) => fed(old(self)@, StreamEventView::Chunk(chunk@)).1 == Err::<
                    Seq<ElementView>,
                    ErrorKindView,
                >(error@),
            },
    {
        let ghost start = self.pending@;
        proof {
            use_type_invariant(&*self);
        }
        let mut line: Vec<u8> = Vec::new();
        std::mem::swap(&mut self.pending, &mut line);
        let mut elements: Vec<Element> = Vec::new();
        let mut i: usize = 0;
        proof {
            lemma_unbroken(start);
            assert(start + chunk@.take(0) =~= start);
            assert(element_views(elements@) =~= Seq::<ElementView>::empty());
        }
        while i < chunk.len()
            invariant
                i <= chunk.len(),
                old(self)@ == (StreamDecoderView {
                    mode: StreamMode::JsonLines,
                    pending: start,
                    open: true,
                }),
                self@ == started(StreamMode::JsonLines),
                line@ == rest_of(start + chunk@.take(i as int)),
                record_elements(lines_of(start + chunk@.take(i as int))) == Some(
                    element_views(elements@),
                ),
            decreases chunk.len() - i,
        {
            let byte = chunk[i];
            proof {
                let before = start + chunk@.take(i as int);
                let after = start + chunk@.take(i + 1);
                assert(after.drop_last() =~= before);
                assert(after.last() == byte);
                if byte == NEWLINE {
                    let closed_lines = lines_of(before).push(rest_of(before));
                    assert(closed_lines.drop_last() =~= lines_of(before));
                    assert(closed_lines.last() == rest_of(before));
                }
            }
            if byte == NEWLINE {
                let record = decode_record(line.as_slice());
                line = Vec::new();
                match record {
                    Ok(Some(element)) => {
                        assert(element_views(elements@.push(element)) =~= element_views(
                            elements@,
                        ).push(element@));
                        elements.push(element);
                    },
                    Ok(None) => {},
                    Err(error) => {
                        proof {
                            let read = start + chunk@.take(i + 1);
                            let unread = chunk@.skip(i + 1);
                            assert(read + unread =~= start + chunk@);
                            lemma_lines_of_parts(read, unread);
                            lemma_record_elements_of_parts(
                                lines_of(read),
                                lines_of(rest_of(read) + unread),
                            );
                        }
                        self.open = false;
                        return Err(error);
                    },
                }
            } else {
                line.push(byte);
            }
            i += 1;
        }
        proof {
            assert(chunk@.take(i as int) =~= chunk@);
            lemma_rest_is_unbroken(start + chunk@);
        }
        self.pending = line;
        Ok(elements)
    }
}

/// Whether `line` holds nothing to read.
fn blank(line: &[u8]) -> (found: bool)
    ensures
        found == is_blank(line@),
{
    let mut i: usize = 0;
    while i < line.len()
        invariant
            i <= line.len(),
            forall|j: int| 0 <= j < i ==> is_blank_byte(#[trigger] line@[j]),
        decreases line.len() - i,
    {
        let byte = line[i];
        if !(byte == 32 || byte == 9 || byte == 13) {
            assert(!is_blank_byte(line@[i as int]));
            return false;
        }
        i += 1;
    }
    true
}

/// Reads one line: no element for a blank line, else the JSON value it
/// spells.
fn decode_record(line: &[u8]) -> (record: Result<Option<Element>, ErrorKind>)
    ensures
        match record {
            Ok(Some(element)) => record_of(line@) == Some(Some(element@)),
            Ok(None) => record_of(line@) == Some(None::<ElementView>),
            Err(error) => record_of(line@) is None && error == ErrorKind::Decode,
        },
{
    if blank(line) {
        return Ok(None);
    }
    match parsed_value(json_from_slice(line)) {
        Ok(document) => Ok(Some(Element::Json(document))),
        Err(error) => Err(error),
    }
}

/// The answer to a run of chunks fed in order from `state`: the decoder after
/// them and all the elements they completed, or the first error, at which
/// feeding stops.
pub open spec fn fed_all(state: StreamDecoderView, chunks: Seq<Seq<u8>>) -> (
    StreamDecoderView,
    Result<Seq<ElementView>, ErrorKindView>,
)
    decreases chunks.len(),
{
    if chunks.len() == 0 {
        (state, Ok(Seq::empty()))
    } else {
        let (before, read) = fed_all(state, chunks.drop_last());
        match read {
            Err(error) => (before, Err(error)),
            Ok(elements) => {
                let (after, more) = fed(before, StreamEventView::Chunk(chunks.last()));
                match more {
                    Ok(completed) => (after, Ok(elements + completed)),
                    Err(error) => (after, Err(error)),
                }
            },
        }
    }
}

/// What streamed decoding yields once the body has been consumed to its end:
/// what feeding its chunks and then its end to a fresh decoder yields.
pub open spec fn stream_outcome(raw: RawResponseView, expected: Expected, mode: StreamMode) -> Result<
    Seq<ElementView>,
    ErrorKindView,
> {
    if !expected.admits(raw.status) {
        Err(refusal(raw))
    } else {
        let (before, read) = fed_all(started(mode), raw.chunks);
        match read {
            Err(error) => Err(error),
            Ok(elements) => match fed(before, StreamEventView::End(raw.end)).1 {
                Ok(completed) => Ok(elements + completed),
                Err(error) => Err(error),
            },
        }
    }
}

/// Streamed decoding of a body consumed to its end: the elements of its
/// chunks, in the order the daemon wrote them.
///
/// A status that is not expected yields `Api`. With an expected status, the
/// first element that cannot be read yields `Decode`; a body that broke off
/// yields `Transport` and none of its elements; a body of no chunks that
/// closed in order yields the empty sequence.
pub fn stream_elements(raw: RawResponse, expected: &Expected, mode: StreamMode) -> (result: Result<
    Vec<Element>,
    ErrorKind,
>)
    ensures
        match result {
            Ok(elements) => stream_outcome(raw@, *expected, mode) == Ok::<
                Seq<ElementView>,
                ErrorKindView,
            >(element_views(elements@)),
            Err(error) => stream_outcome(raw@, *expected, mode) == Err::<
                Seq<ElementView>,
                ErrorKindView,
            >(error@),
        },
{
    if !expected.contains(raw.status) {
        return Err(api_error(raw));
    }
    let ghost all = chunk_bytes(raw.chunks@);
    let mut decoder = StreamDecoder::new(mode);
    let mut elements: Vec<Element> = Vec::new();
    let mut i: usize = 0;
    proof {
        assert(element_views(elements@) =~= Seq::<ElementView>::empty());
    }
    while i < raw.chunks.len()
        invariant
            i <= raw.chunks.len(),
            expected.admits(raw.status),
            all == chunk_bytes(raw.chunks@),
            fed_all(started(mode), all.take(i as int)) == (
                decoder@,
                Ok::<Seq<ElementView>, ErrorKindView>(element_views(elements@)),
            ),
        decreases raw.chunks.len() - i,
    {
        proof {
            assert(all.take(i + 1).drop_last() =~= all.take(i as int));
            assert(all.take(i + 1).last() == raw.chunks@[i as int]@);
        }
        let chunk = vstd::slice::slice_to_vec(raw.chunks[i].as_slice());
        match decoder.feed(StreamEvent::Chunk(chunk)) {
            Ok(mut completed) => {
                proof {
                    lemma_views_of_parts(elements@, completed@);
                }
                elements.append(&mut completed);
            },
            Err(error) => {
                proof {
                    lemma_failure_stays(started(mode), all, i + 1);
                }
                return Err(error);
            },
        }
        i += 1;
    }
    proof {
        assert(all.take(i as int) =~= all);
    }
    match decoder.feed(StreamEvent::End(raw.end)) {
        Ok(mut completed) => {
            proof {
                lemma_views_of_parts(elements@, completed@);
            }
            elements.append(&mut completed);
            Ok(elements)
        },
        Err(error) => Err(error),
    }
}

/// The views of elements put together are the views of each part, one after
/// the other.
proof fn lemma_views_of_parts(first: Seq<Element>, second: Seq<Element>)
    ensures
        element_views(first + second) == element_views(first) + element_views(second),
{
    assert(element_views(first + second) =~= element_views(first) + element_views(second));
}

/// Feeding stops at the first error: where a run of chunks fails, every
/// longer run fails with the same error and leaves the same decoder.
proof fn lemma_failure_stays(state: StreamDecoderView, chunks: Seq<Seq<u8>>, n: int)
    requires
        0 <= n <= chunks.len(),
        fed_all(state, chunks.take(n)).1 is Err,
    ensures
        fed_all(state, chunks) == fed_all(state, chunks.take(n)),
    decreases chunks.len(),
{
    if n < chunks.len() {
        assert(chunks.drop_last().take(n) =~= chunks.take(n));
        lemma_failure_stays(state, chunks.drop_last(), n);
    } else {
        assert(chunks.take(n) =~= chunks);
    }
}

/// The elements that chunks taken as bytes are read as: each chunk itself.
pub open spec fn byte_elements(chunks: Seq<Seq<u8>>) -> Seq<ElementView> {
    Seq::new(chunks.len(), |i: int| ElementView::Bytes(chunks[i]))
}

/// The bytes that elements carry: the chunk of each element taken as bytes,
/// and nothing for a JSON value.
pub open spec fn payloads(elements: Seq<ElementView>) -> Seq<Seq<u8>> {
    Seq::new(
        elements.len(),
        |i: int|
            match elements[i] {
                ElementView::Bytes(bytes) => bytes,
                ElementView::Json(_) => Seq::empty(),
            },
    )
}

/// Chunks taken as bytes can always be read, and come back as they are.
pub proof fn lemma_bytes_are_kept(chunks: Seq<Seq<u8>>)
    ensures
        fed_all(started(StreamMode::Bytes), chunks) == (
            started(StreamMode::Bytes),
            Ok::<Seq<ElementView>, ErrorKindView>(byte_elements(chunks)),
        ),
    decreases chunks.len(),
{
    if chunks.len() > 0 {
        lemma_bytes_are_kept(chunks.drop_last());
        assert(byte_elements(chunks.drop_last()) + seq![ElementView::Bytes(chunks.last())]
            =~= byte_elements(chunks));
    } else {
        assert(byte_elements(chunks) =~= Seq::<ElementView>::empty());
    }
}

/// A round trip keeps every byte: a request built around a query and a body
/// carries both unchanged; and where the daemon sends the body back under an
/// expected status, in one chunk or in many, streamed decoding as bytes yields
/// those chunks, whose bytes, one after the other, are the body.
pub proof fn lemma_echo_round_trip(
    path: &str,
    query: &str,
    body: Vec<u8>,
    echo: RawResponseView,
    expected: Expected,
)
    requires
        expected.admits(echo.status),
        echo.end == BodyEnd::Complete,
        joined(echo.chunks) == body@,
    ensures
        (path, Some(query), Some(Body::Bytes(body))).request_args().query == query@,
        (path, Some(query), Some(Body::Bytes(body))).request_args().body == BodyView::Bytes(body@),
        stream_outcome(echo, expected, StreamMode::Bytes) == Ok::<Seq<ElementView>, ErrorKindView>(
            byte_elements(echo.chunks),
        ),
        joined(payloads(byte_elements(echo.chunks))) == body@,
{
    lemma_bytes_are_kept(echo.chunks);
    assert(byte_elements(echo.chunks) + Seq::<ElementView>::empty() =~= byte_elements(
        echo.chunks,
    ));
    assert(payloads(byte_elements(echo.chunks)) =~= echo.chunks);
}

/// The boundaries of a streamed body under an expected status: a body of no
/// chunks that closed in order yields the empty sequence, not an error; a
/// body that broke off never yields a sequence, and yields `Transport` unless
/// an element before the break could not be read, which as bytes does not
/// happen.
pub proof fn lemma_stream_boundaries(raw: RawResponseView, expected: Expected, mode: StreamMode)
    requires
        expected.admits(raw.status),
    ensures
        raw.chunks.len() == 0 && raw.end == BodyEnd::Complete ==> stream_outcome(
            raw,
            expected,
            mode,
        ) == Ok::<Seq<ElementView>, ErrorKindView>(Seq::empty()),
        raw.end is Broken ==> stream_outcome(raw, expected, mode) is Err,
        raw.end matches BodyEnd::Broken(fault) ==> (fed_all(started(mode), raw.chunks).1 is Ok
            || mode == StreamMode::Bytes ==> stream_outcome(raw, expected, mode) == Err::<
            Seq<ElementView>,
            ErrorKindView,
        >(ErrorKindView::Transport(fault))),
{
    lemma_bytes_are_kept(raw.chunks);
    lemma_stays_open(started(mode), raw.chunks);
    if raw.chunks.len() == 0 && raw.end == BodyEnd::Complete {
        let line = Seq::<u8>::empty();
        reveal_with_fuel(record_elements, 2);
        assert(seq![line].drop_last() =~= Seq::<Seq<u8>>::empty());
        assert(is_blank(seq![line].last()));
        assert(Seq::<ElementView>::empty() + Seq::<ElementView>::empty()
            =~= Seq::<ElementView>::empty());
    }
}

/// A body that breaks off reaches the consumer that is reading it: whatever
/// an open decoder has read so far and whatever line it holds open, the break
/// is answered with `Transport`, never with an orderly end, and closes the
/// stream.
pub proof fn lemma_break_reaches_the_consumer(
    state: StreamDecoderView,
    fault: TransportFault,
)
    requires
        state.open,
    ensures
        fed(state, StreamEventView::End(BodyEnd::Broken(fault))).1 == Err::<
            Seq<ElementView>,
            ErrorKindView,
        >(ErrorKindView::Transport(fault)),
        !fed(state, StreamEventView::End(BodyEnd::Broken(fault))).0.open,
{
}

/// A decoder that has answered every chunk without error is still open.
proof fn lemma_stays_open(state: StreamDecoderView, chunks: Seq<Seq<u8>>)
    requires
        state.open,
    ensures
        fed_all(state, chunks).1 is Ok ==> fed_all(state, chunks).0.open,
    decreases chunks.len(),
{
    if chunks.len() > 0 {
        lemma_stays_open(state, chunks.drop_last());
    }
}

/// What reading a body in lines comes to, whatever its chunks: the elements
/// of the lines the body closes, and the line it leaves open.
pub open spec fn lines_read(body: Seq<u8>) -> (
    StreamDecoderView,
    Result<Seq<ElementView>, ErrorKindView>,
) {
    match record_elements(lines_of(body)) {
        Some(elements) => (
            StreamDecoderView { mode: StreamMode::JsonLines, pending: rest_of(body), open: true },
            Ok(elements),
        ),
        None => (closed(StreamMode::JsonLines), Err(ErrorKindView::Decode)),
    }
}

/// Feeding a body in lines chunk by chunk comes to reading its bytes in one
/// piece.
pub proof fn lemma_lines_read_in_chunks(chunks: Seq<Seq<u8>>)
    ensures
        fed_all(started(StreamMode::JsonLines), chunks) == lines_read(joined(chunks)),
    decreases chunks.len(),
{
    if chunks.len() > 0 {
        let before = joined(chunks.drop_last());
        lemma_lines_read_in_chunks(chunks.drop_last());
        lemma_lines_of_parts(before, chunks.last());
        lemma_record_elements_of_parts(lines_of(before), lines_of(rest_of(before) + chunks.last()));
    }
}

/// A body read in lines yields the same whatever way the daemon's bytes were
/// cut into chunks: two responses with the same status, the same bytes and
/// the same end are decoded alike.
pub proof fn lemma_lines_ignore_chunking(
    first: RawResponseView,
    second: RawResponseView,
    expected: Expected,
)
    requires
        first.status == second.status,
        first.end == second.end,
        joined(first.chunks) == joined(second.chunks),
    ensures
        stream_outcome(first, expected, StreamMode::JsonLines) == stream_outcome(
            second,
            expected,
            StreamMode::JsonLines,
        ),
{
    lemma_lines_read_in_chunks(first.chunks);
    lemma_lines_read_in_chunks(second.chunks);
}

} // verus!
