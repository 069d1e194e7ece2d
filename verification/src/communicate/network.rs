//! The handle for one network.
//!
//! A handle holds the network's identifier and nothing else. Each operation
//! comes in two halves: one that builds the request to dispatch, and one that
//! reads the response the daemon gave to it.

use crate::communicate::util::{default_args, AsSlice, RequestArgsView};
use crate::errors::{ErrorKind, ErrorKindView};
use crate::models::network_details::{details_of, NetworkDetails, NetworkDetailsView};
use crate::transport::header::takes_every_name;
use crate::transport::interact::{Method, Request};
use crate::transport::parse::{
    daemon_message, joined, parse_to_value, status_code, status_outcome, value_outcome, Expected,
    RawResponse, RawResponseView,
};
use vstd::prelude::*;
use vstd::string::*;

verus! {

/// The handle for the network with a given identifier. It is cheap to make
/// and to clone, and holds no connection.
#[derive(Debug, Clone)]
pub struct Network {
    id: String,
}

/// The path of the network `id`. The identifier stands in it as it is given:
/// one that holds a `/` or another reserved character is escaped by the
/// caller beforehand.
pub open spec fn network_path(id: Seq<char>) -> Seq<char> {
    "/networks/"@ + id
}

/// The path under which containers join the network `id`.
pub open spec fn connect_path(id: Seq<char>) -> Seq<char> {
    network_path(id) + "/connect"@
}

/// The path under which containers leave the network `id`.
pub open spec fn disconnect_path(id: Seq<char>) -> Seq<char> {
    network_path(id) + "/disconnect"@
}

/// The query a connection's options serialize to, or the empty query where
/// they serialize to none.
pub open spec fn query_text(opts: Option<String>) -> Seq<char> {
    match opts {
        Some(query) => query@,
        None => Seq::empty(),
    }
}

/// What inspecting a network yields for a response.
pub open spec fn inspect_outcome(raw: RawResponseView) -> Result<
    NetworkDetailsView,
    ErrorKindView,
> {
    match value_outcome(raw, Expected::Success) {
        Err(error) => Err(error),
        Ok(document) => match details_of(document) {
            Some(details) => Ok(details),
            None => Err(ErrorKindView::Decode),
        },
    }
}

impl Network {
    /// The handle for the network `id`.
    pub fn new(id: String) -> (network: Network)
        ensures
            network.spec_id() == id@,
    {
        Network { id }
    }

    /// The identifier this handle was made with.
    pub closed spec fn spec_id(&self) -> Seq<char> {
        self.id@
    }

    /// The identifier of the network.
    pub fn id(&self) -> (id: &str)
        ensures
            id@ == self.spec_id(),
    {
        self.id.as_str()
    }

    /// The path of this network.
    fn path(&self) -> (path: String)
        ensures
            path@ == network_path(self.spec_id()),
    {
        String::from_str("/networks/").concat(self.id.as_str())
    }

    /// The request that asks the daemon for the network's details.
    pub fn inspect(&self) -> (request: Request)
        ensures
            request.method == Method::Get,
            request.args@ == (RequestArgsView {
                path: network_path(self.spec_id()),
                ..default_args()
            }),
            takes_every_name(request.args.header),
    {
        let path = self.path();

        Request::get(path.as_str())
    }

    /// The details the daemon gave in answer to `inspect`.
    pub fn inspect_response(&self, raw: RawResponse) -> (result: Result<NetworkDetails, ErrorKind>)
        ensures
            match result {
                Ok(details) => inspect_outcome(raw@) == Ok::<NetworkDetailsView, ErrorKindView>(
                    details@,
                ),
                Err(error) => inspect_outcome(raw@) == Err::<NetworkDetailsView, ErrorKindView>(
                    error@,
                ),
            },
    {
        match parse_to_value(raw, &Expected::Success) {
            Ok(document) => NetworkDetails::from_json(&document),
            Err(error) => Err(error),
        }
    }

    /// The request that deletes the network.
    pub fn delete(&self) -> (request: Request)
        ensures
            request.method == Method::Delete,
            request.args@ == (RequestArgsView {
                path: network_path(self.spec_id()),
                ..default_args()
            }),
            takes_every_name(request.args.header),
    {
        let path = self.path();

        Request::delete(path.as_str())
    }

    /// The status the daemon gave in answer to `delete`.
    pub fn delete_response(&self, raw: RawResponse) -> (result: Result<u16, ErrorKind>)
        ensures
            match result {
                Ok(status) => status_outcome(raw@, Expected::Success) == Ok::<u16, ErrorKindView>(
                    status,
                ),
                Err(error) => status_outcome(raw@, Expected::Success) == Err::<
                    u16,
                    ErrorKindView,
                >(error@),
            },
    {
        status_code(raw, &Expected::Success)
    }

    /// The request that connects a container to the network. `opts` is the
    /// query that the connection's options serialize to, if any.
    pub fn connect(&self, opts: &Option<String>) -> (request: Request)
        ensures
            request.method == Method::Post,
            request.args@ == (RequestArgsView {
                path: connect_path(self.spec_id()),
                query: query_text(*opts),
                ..default_args()
            }),
            takes_every_name(request.args.header),
    {
        let path = self.path().concat("/connect");
        let args = (path.as_str(), AsSlice::as_slice(opts));

        Request::post(args)
    }

    /// The status the daemon gave in answer to `connect`.
    pub fn connect_response(&self, raw: RawResponse) -> (result: Result<u16, ErrorKind>)
        ensures
            match result {
                Ok(status) => status_outcome(raw@, Expected::Success) == Ok::<u16, ErrorKindView>(
                    status,
                ),
                Err(error) => status_outcome(raw@, Expected::Success) == Err::<
                    u16,
                    ErrorKindView,
                >(error@),
            },
    {
        status_code(raw, &Expected::Success)
    }

    /// The request that disconnects a container from the network. `opts` is
    /// the query that the connection's options serialize to, if any.
    pub fn disconnect(&self, opts: &Option<String>) -> (request: Request)
        ensures
            request.method == Method::Post,
            request.args@ == (RequestArgsView {
                path: disconnect_path(self.spec_id()),
                query: query_text(*opts),
                ..default_args()
            }),
            takes_every_name(request.args.header),
    {
        let path = self.path().concat("/disconnect");
        let args = (path.as_str(), AsSlice::as_slice(opts));

        Request::post(args)
    }

    /// The status the daemon gave in answer to `disconnect`.
    pub fn disconnect_response(&self, raw: RawResponse) -> (result: Result<u16, ErrorKind>)
        ensures
            match result {
                Ok(status) => status_outcome(raw@, Expected::Success) == Ok::<u16, ErrorKindView>(
                    status,
                ),
                Err(error) => status_outcome(raw@, Expected::Success) == Err::<
                    u16,
                    ErrorKindView,
                >(error@),
            },
    {
        status_code(raw, &Expected::Success)
    }
}

/// Deleting a network the daemon does not know fails the same way every
/// time: the answer to a response of status 404 is `Api` with that status and
/// the message of its body, whatever handle reads it and whatever was asked
/// before; and two such responses with the same body are answered alike,
/// however their bodies were cut into chunks and however they ended.
pub proof fn lemma_delete_unknown_is_stable(first: RawResponseView, second: RawResponseView)
    requires
        first.status == 404,
        second.status == 404,
        joined(first.chunks) == joined(second.chunks),
    ensures
        status_outcome(first, Expected::Success) == Err::<u16, ErrorKindView>(
            ErrorKindView::Api { status: 404, message: daemon_message(joined(first.chunks)) },
        ),
        status_outcome(first, Expected::Success) == status_outcome(second, Expected::Success),
{
}

} // verus!
