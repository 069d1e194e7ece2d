//! The requests an interaction client dispatches, one constructor for each
//! verb it offers.

use crate::communicate::util::{IntoRequestArgs, RequestArgs, RequestArgsView};
use crate::errors::{ErrorKind, RequestFault};
use crate::transport::endpoint::{authority_of, Endpoint, EndpointView};
use crate::transport::header::{
    header_map_takes, is_header_value, normalized_name, takes_every_name,
};
use http::uri::{InvalidUri, Uri};
use std::str::FromStr;
use vstd::prelude::*;
use vstd::string::*;
use vstd::utf8::{encode_utf8, is_ascii_chars_encode_utf8};

verus! {

/// The verb of a request.
#[derive(Debug, Clone, Copy, PartialEq, Eq, Structural)]
pub enum Method {
    Get,
    Post,
    Put,
    Delete,
}

/// A request ready to be dispatched. It is built afresh for each call and is
/// not changed once handed over.
#[derive(Debug)]
pub struct Request {
    pub method: Method,
    pub args: RequestArgs,
}

/// What follows the verb on the request line: the path, and the query behind
/// a `?` where there is one.
pub open spec fn target_of(path: Seq<char>, query: Seq<char>) -> Seq<char> {
    if query.len() == 0 {
        path
    } else {
        path + seq!['?'] + query
    }
}

/// `http::Uri`, a parsed URI. Nothing inside it is visible here.
#[verifier::external_type_specification]
#[verifier::external_body]
pub struct ExUri(Uri);

/// `http::uri::InvalidUri`, the refusal of a text that is no URI.
#[verifier::external_type_specification]
#[verifier::external_body]
pub struct ExInvalidUri(InvalidUri);

/// Whether `http` takes `target` for a URI, and so for the target of a
/// request.
pub uninterp spec fn is_uri(target: Seq<char>) -> bool;

/// `http::Uri::from_str`: succeeds exactly on the texts that `http` takes for
/// a URI. Which texts those are is not stated here.
#[verifier::external_body]
fn uri_from_str(target: &str) -> (parsed: Result<Uri, InvalidUri>)
    ensures
        parsed is Ok <==> is_uri(target@),
{
    Uri::from_str(target)
}

/// What checking a request answers for each outcome of parsing its target.
pub fn target_checked(parsed: Result<Uri, InvalidUri>) -> (outcome: Result<(), ErrorKind>)
    ensures
        parsed is Ok ==> outcome is Ok,
        parsed is Err ==> outcome == Err::<(), ErrorKind>(
            ErrorKind::InvalidRequest(RequestFault::Target),
        ),
{
    match parsed {
        Ok(_) => Ok(()),
        Err(_) => Err(ErrorKind::InvalidRequest(RequestFault::Target)),
    }
}

/// The name of the header that says which host a request is for, `host`.
pub open spec fn host_header() -> Seq<u8> {
    seq![104u8, 111u8, 115u8, 116u8]
}

/// The value of the `host` header for requests to `endpoint`: the bytes of
/// its name.
pub open spec fn host_value(endpoint: EndpointView) -> Seq<u8> {
    encode_utf8(authority_of(endpoint))
}

impl Request {
    /// A `GET` request with the arguments `args` stands for.
    pub fn get<A: IntoRequestArgs>(args: A) -> (request: Request)
        ensures
            request.method == Method::Get,
            request.args@ == args.request_args(),
            takes_every_name(request.args.header),
    {
        Request { method: Method::Get, args: args.into_request_args() }
    }

    /// A `POST` request with the arguments `args` stands for.
    pub fn post<A: IntoRequestArgs>(args: A) -> (request: Request)
        ensures
            request.method == Method::Post,
            request.args@ == args.request_args(),
            takes_every_name(request.args.header),
    {
        Request { method: Method::Post, args: args.into_request_args() }
    }

    /// A `PUT` request with the arguments `args` stands for.
    pub fn put<A: IntoRequestArgs>(args: A) -> (request: Request)
        ensures
            request.method == Method::Put,
            request.args@ == args.request_args(),
            takes_every_name(request.args.header),
    {
        Request { method: Method::Put, args: args.into_request_args() }
    }

    /// A `DELETE` request with the arguments `args` stands for.
    pub fn delete<A: IntoRequestArgs>(args: A) -> (request: Request)
        ensures
            request.method == Method::Delete,
            request.args@ == args.request_args(),
            takes_every_name(request.args.header),
    {
        Request { method: Method::Delete, args: args.into_request_args() }
    }

    /// The request as it goes to the daemon at `endpoint`: its `host` header
    /// names the endpoint, in place of any host the caller filed.
    ///
    /// An endpoint whose name is no header value is rejected here. Otherwise
    /// the request is addressed exactly where its header set has room under
    /// `host`, as the set of every request fresh from a verb has.
    pub fn addressed(self, endpoint: &Endpoint) -> (result: Result<Request, ErrorKind>)
        ensures
            !is_header_value(host_value(endpoint@)) ==> result == Err::<Request, ErrorKind>(
                ErrorKind::InvalidRequest(RequestFault::HeaderValue),
            ),
            is_header_value(host_value(endpoint@)) ==> (result is Ok <==> header_map_takes(
                self.args.header,
                host_header(),
            )),
            is_header_value(host_value(endpoint@)) ==> result is Ok || result == Err::<
                Request,
                ErrorKind,
            >(ErrorKind::InvalidRequest(RequestFault::HeaderCapacity)),
            result matches Ok(request) ==> request.method == self.method && request.args@ == (
                RequestArgsView {
                    header: self.args@.header.insert(host_header(), host_value(endpoint@)),
                    ..self.args@
                }
            ),
    {
        let mut request = self;
        let authority = endpoint.authority();
        proof {
            reveal_strlit("host");
            is_ascii_chars_encode_utf8("host"@);
            assert("host".spec_bytes() =~= host_header());
            assert(normalized_name(host_header()) =~= host_header());
        }
        match request.args.set_header("host", authority.as_str()) {
            Ok(()) => Ok(request),
            Err(error) => Err(error),
        }
    }

    /// Whether the request can be sent: its path and query must form a
    /// target. This is found out here, before any connection is opened.
    pub fn check(&self) -> (outcome: Result<(), ErrorKind>)
        ensures
            is_uri(target_of(self.args@.path, self.args@.query)) ==> outcome is Ok,
            !is_uri(target_of(self.args@.path, self.args@.query)) ==> outcome == Err::<
                (),
                ErrorKind,
            >(ErrorKind::InvalidRequest(RequestFault::Target)),
    {
        let target = self.target();
        target_checked(uri_from_str(target.as_str()))
    }

    /// What follows the verb on the request line.
    pub fn target(&self) -> (target: String)
        ensures
            target@ == target_of(self.args@.path, self.args@.query),
    {
        let mut target = self.args.path.clone();
        if !self.args.query.as_str().is_empty() {
            target.append("?");
            target.append(self.args.query.as_str());
            proof {
                reveal_strlit("?");
                assert("?"@ == seq!['?']);
            }
        }
        target
    }
}

} // verus!
