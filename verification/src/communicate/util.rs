//! The arguments of a request and the forms from which they are built.

use crate::errors::{ErrorKind, RequestFault};
use crate::text::{slice_text, text_view};
use crate::transport::header::{
    header_map_new, header_map_takes, header_map_try_insert, header_map_view,
    header_name_from_bytes, header_value_from_bytes, is_header_name, is_header_value, no_headers,
    normalized_name, takes_every_name,
};
use http::header::{HeaderMap, HeaderValue, MaxSizeReached};
use url::form_urlencoded;
use vstd::prelude::*;
use vstd::string::*;

verus! {

/// The environment variable that names the daemon's address.
pub const URI_ENV: &'static str = "SHIPLIFT_URI";

/// The daemon's address where none is configured.
pub const DEFAULT_URI: &'static str = "unix://var/run/docker.sock";

/// Whether form encoding leaves `b` as it is: a letter, a digit, or one of
/// `* - . _`.
pub open spec fn is_unreserved(b: u8) -> bool {
    ||| b == 42
    ||| b == 45
    ||| b == 46
    ||| 48 <= b <= 57
    ||| 65 <= b <= 90
    ||| b == 95
    ||| 97 <= b <= 122
}

/// The upper-case hexadecimal digit for `n`, which is below 16.
pub open spec fn hex_digit(n: u8) -> char {
    if n < 10 {
        ((48 + n) as u8) as char
    } else {
        ((55 + n) as u8) as char
    }
}

/// One byte in `application/x-www-form-urlencoded` form: itself where it is
/// unreserved, `+` for a space, else `%` and its two hexadecimal digits.
pub open spec fn form_byte(b: u8) -> Seq<char> {
    if is_unreserved(b) {
        seq![b as char]
    } else if b == 32 {
        seq!['+']
    } else {
        seq!['%', hex_digit(b / 16), hex_digit(b % 16)]
    }
}

/// A byte string in `application/x-www-form-urlencoded` form: the forms of its
/// bytes, in order.
pub open spec fn form_encode(bytes: Seq<u8>) -> Seq<char>
    decreases bytes.len(),
{
    if bytes.len() == 0 {
        Seq::empty()
    } else {
        form_encode(bytes.drop_last()) + form_byte(bytes.last())
    }
}

/// The query string of one pair: the encoded name, `=`, the encoded value.
pub open spec fn form_pair(name: Seq<u8>, value: Seq<u8>) -> Seq<char> {
    form_encode(name) + seq!['='] + form_encode(value)
}

/// `url::form_urlencoded::Serializer::append_pair`, on a serializer that
/// holds nothing yet: the pair in `application/x-www-form-urlencoded` form,
/// name and value taken as their UTF-8 bytes.
#[verifier::external_body]
fn serialize_pair(name: &str, value: &str) -> (query: String)
    ensures
        query@ == form_pair(name.spec_bytes(), value.spec_bytes()),
{
    form_urlencoded::Serializer::new(String::new()).append_pair(name, value).finish()
}

/// The query string `name=value`, form-encoded, where a value is given; no
/// query where none is.
pub fn build_simple_query(name: &str, value: Option<&str>) -> (query: Option<String>)
    ensures
        value is None ==> query is None,
        value matches Some(text) ==> query matches Some(encoded) && encoded@ == form_pair(
            name.spec_bytes(),
            text.spec_bytes(),
        ),
{
    let mut query = None;

    if let Some(val) = value {
        query = Some(serialize_pair(name, val))
    };

    query
}

/// An optional owned string seen as an optional slice.
pub trait AsSlice {
    /// The characters held, if any.
    spec fn text(&self) -> Option<Seq<char>>;

    fn as_slice(&self) -> (slice: Option<&str>)
        ensures
            slice_text(slice) == self.text(),
    ;
}

impl AsSlice for Option<String> {
    open spec fn text(&self) -> Option<Seq<char>> {
        text_view(*self)
    }

    fn as_slice(&self) -> (slice: Option<&str>) {
        match self {
            Some(ref x) => Some(x.as_str()),
            None => None,
        }
    }
}

/// The body of a request: absent, held in memory, or a stream given as the
/// chunks it yields, in order.
#[derive(Debug, Clone, PartialEq, Eq)]
pub enum Body {
    Empty,
    Bytes(Vec<u8>),
    Stream(Vec<Vec<u8>>),
}

/// A [`Body`] as mathematical values.
pub enum BodyView {
    Empty,
    Bytes(Seq<u8>),
    Stream(Seq<Seq<u8>>),
}

/// The bytes of each chunk of `chunks`, in order.
pub open spec fn chunk_bytes(chunks: Seq<Vec<u8>>) -> Seq<Seq<u8>> {
    Seq::new(chunks.len(), |i: int| chunks[i]@)
}

impl View for Body {
    type V = BodyView;

    open spec fn view(&self) -> BodyView {
        match *self {
            Body::Empty => BodyView::Empty,
            Body::Bytes(bytes) => BodyView::Bytes(bytes@),
            Body::Stream(chunks) => BodyView::Stream(chunk_bytes(chunks@)),
        }
    }
}

impl Default for Body {
    /// The absent body.
    fn default() -> (body: Body)
        ensures
            body@ == BodyView::Empty,
    {
        Body::Empty
    }
}

/// What a request carries besides its method.
#[derive(Debug)]
pub struct RequestArgs {
    pub path: String,
    pub query: String,
    pub body: Body,
    pub header: HeaderMap,
}

/// [`RequestArgs`] as mathematical values. `header` maps each name, in lower
/// case, to the value filed under it.
pub struct RequestArgsView {
    pub path: Seq<char>,
    pub query: Seq<char>,
    pub body: BodyView,
    pub header: Map<Seq<u8>, Seq<u8>>,
}

impl View for RequestArgs {
    type V = RequestArgsView;

    open spec fn view(&self) -> RequestArgsView {
        RequestArgsView {
            path: self.path@,
            query: self.query@,
            body: self.body@,
            header: header_map_view(self.header),
        }
    }
}

/// The arguments every form starts from: empty path, empty query, no body,
/// no headers.
pub open spec fn default_args() -> RequestArgsView {
    RequestArgsView {
        path: Seq::empty(),
        query: Seq::empty(),
        body: BodyView::Empty,
        header: no_headers(),
    }
}

impl Default for RequestArgs {
    /// The arguments every form starts from. Their header set has room under
    /// every name.
    fn default() -> (args: RequestArgs)
        ensures
            args@ == default_args(),
            forall|name: Seq<u8>| #[trigger] header_map_takes(args.header, name),
    {
        RequestArgs {
            path: String::new(),
            query: String::new(),
            body: Body::Empty,
            header: header_map_new(),
        }
    }
}

/// What `set_header` answers once name and value have been accepted, for each
/// outcome of the insertion.
pub fn insertion_outcome(
    inserted: Result<Option<HeaderValue>, MaxSizeReached>,
) -> (outcome: Result<(), ErrorKind>)
    ensures
        inserted is Ok ==> outcome is Ok,
        inserted is Err ==> outcome == Err::<(), ErrorKind>(
            ErrorKind::InvalidRequest(RequestFault::HeaderCapacity),
        ),
{
    match inserted {
        Ok(_) => Ok(()),
        Err(_) => Err(ErrorKind::InvalidRequest(RequestFault::HeaderCapacity)),
    }
}

impl RequestArgs {
    /// Files `value` under `key`, in place of whatever was filed under that
    /// name in any case of its letters.
    ///
    /// A `key` that is no header name, or a `value` that is no header value,
    /// is rejected here, and the arguments stay as they were. A name and a
    /// value that are accepted are filed exactly where the header set has room
    /// under the name, as the set of fresh arguments has under every name;
    /// where it has none, the arguments stay as they were.
    pub fn set_header(&mut self, key: &str, value: &str) -> (outcome: Result<(), ErrorKind>)
        ensures
            !is_header_name(key.spec_bytes()) ==> outcome == Err::<(), ErrorKind>(
                ErrorKind::InvalidRequest(RequestFault::HeaderName),
            ),
            is_header_name(key.spec_bytes()) && !is_header_value(value.spec_bytes()) ==> outcome
                == Err::<(), ErrorKind>(ErrorKind::InvalidRequest(RequestFault::HeaderValue)),
            is_header_name(key.spec_bytes()) && is_header_value(value.spec_bytes()) ==> (outcome
                is Ok <==> header_map_takes(old(self).header, normalized_name(key.spec_bytes()))),
            is_header_name(key.spec_bytes()) && is_header_value(value.spec_bytes()) ==> outcome
                is Ok || outcome == Err::<(), ErrorKind>(
                ErrorKind::InvalidRequest(RequestFault::HeaderCapacity),
            ),
            outcome is Ok ==> final(self)@ == (RequestArgsView {
                header: old(self)@.header.insert(
                    normalized_name(key.spec_bytes()),
                    value.spec_bytes(),
                ),
                ..old(self)@
            }),
            outcome is Err ==> final(self)@ == old(self)@,
    {
        let name = match header_name_from_bytes(key.as_bytes()) {
            Ok(name) => name,
            Err(_) => {
                return Err(ErrorKind::InvalidRequest(RequestFault::HeaderName));
            },
        };
        let filed = match header_value_from_bytes(value.as_bytes()) {
            Ok(filed) => filed,
            Err(_) => {
                return Err(ErrorKind::InvalidRequest(RequestFault::HeaderValue));
            },
        };
        insertion_outcome(header_map_try_insert(&mut self.header, name, filed))
    }
}

/// A form from which the arguments of a request are built. What a form does
/// not give takes its default: an empty query, no body, no headers. The
/// header set of the arguments built has room under every name.
pub trait IntoRequestArgs: Sized {
    /// The arguments this form stands for.
    spec fn request_args(self) -> RequestArgsView;

    fn into_request_args(self) -> (args: RequestArgs)
        ensures
            args@ == self.request_args(),
            takes_every_name(args.header),
    ;
}

/// The query a form gives, or the empty default.
pub open spec fn query_or_default(query: Option<&str>) -> Seq<char> {
    match query {
        Some(q) => q@,
        None => Seq::empty(),
    }
}

/// The body a form gives, or the absent default.
pub open spec fn body_or_default(body: Option<Body>) -> BodyView {
    match body {
        Some(b) => b@,
        None => BodyView::Empty,
    }
}

/// The form that gives a bare path.
impl<'a> IntoRequestArgs for &'a str {
    open spec fn request_args(self) -> RequestArgsView {
        RequestArgsView { path: self@, ..default_args() }
    }

    fn into_request_args(self) -> (args: RequestArgs) {
        let mut args = RequestArgs::default();
        args.path = self.to_owned();

        args
    }
}

/// The form that gives a path and, optionally, a query.
impl<'a, 'b> IntoRequestArgs for (&'a str, Option<&'b str>) {
    open spec fn request_args(self) -> RequestArgsView {
        RequestArgsView { path: self.0@, query: query_or_default(self.1), ..default_args() }
    }

    fn into_request_args(self) -> (args: RequestArgs) {
        let mut args = RequestArgs::default();

        args.path = self.0.to_owned();
        args.query = match self.1 {
            Some(query) => query.to_owned(),
            None => String::new(),
        };

        args
    }
}

/// The form that gives a path and, optionally, a body.
impl<'a> IntoRequestArgs for (&'a str, Option<Body>) {
    open spec fn request_args(self) -> RequestArgsView {
        RequestArgsView { path: self.0@, body: body_or_default(self.1), ..default_args() }
    }

    fn into_request_args(self) -> (args: RequestArgs) {
        let mut args = RequestArgs::default();
        args.path = self.0.to_owned();
        args.body = match self.1 {
            Some(body) => body,
            None => Body::default(),
        };

        args
    }
}

/// The form that gives a path and, optionally, a query and a body.
impl<'a, 'b> IntoRequestArgs for (&'a str, Option<&'b str>, Option<Body>) {
    open spec fn request_args(self) -> RequestArgsView {
        RequestArgsView {
            path: self.0@,
            query: query_or_default(self.1),
            body: body_or_default(self.2),
            ..default_args()
        }
    }

    fn into_request_args(self) -> (args: RequestArgs) {
        let mut args = RequestArgs::default();

        args.path = self.0.to_owned();
        args.query = match self.1 {
            Some(query) => query.to_owned(),
            None => String::new(),
        };
        args.body = match self.2 {
            Some(body) => body,
            None => Body::default(),
        };

        args
    }
}

/// Whatever a form omits takes its default: each form stands for the same
/// arguments as the full form in which the omitted query or body is given as
/// absent, and an absent query is the empty query, an absent body no body, and
/// no form sets a header.
pub proof fn lemma_omitted_fields_take_defaults(path: &str, query: Option<&str>, body: Option<Body>)
    ensures
        path.request_args() == (path, None::<&str>, None::<Body>).request_args(),
        (path, query).request_args() == (path, query, None::<Body>).request_args(),
        (path, body).request_args() == (path, None::<&str>, body).request_args(),
        path.request_args().query == Seq::<char>::empty(),
        path.request_args().body == BodyView::Empty,
        (path, query).request_args().body == BodyView::Empty,
        (path, body).request_args().query == Seq::<char>::empty(),
        (path, query, body).request_args().path == path@,
        (path, query, body).request_args().header == no_headers(),
{
}

/// Header insertion is last-write-wins per case-insensitive name: where two
/// names differ at most in the case of their letters, filing under the first
/// and then under the second leaves what filing under the second alone would
/// leave.
pub proof fn lemma_last_write_wins(
    header: Map<Seq<u8>, Seq<u8>>,
    first: Seq<u8>,
    earlier: Seq<u8>,
    second: Seq<u8>,
    later: Seq<u8>,
)
    requires
        normalized_name(first) == normalized_name(second),
    ensures
        header.insert(normalized_name(first), earlier).insert(normalized_name(second), later)
            == header.insert(normalized_name(second), later),
        header.insert(normalized_name(first), earlier).insert(normalized_name(second), later)[
            normalized_name(first)
        ] == later,
{
    assert(header.insert(normalized_name(first), earlier).insert(normalized_name(second), later)
        =~= header.insert(normalized_name(second), later));
}

} // verus!
