//! The error taxonomy shared by every stage of an operation.

use crate::text::text_view;
use vstd::prelude::*;

verus! {

/// Why no connection to the daemon could be established.
#[derive(Debug, Clone, Copy, PartialEq, Eq, Structural)]
pub enum ConnectionFault {
    /// The configured address names neither a socket nor a host and port.
    BadAddress,
    /// The socket path does not exist or is not a socket.
    BadPath,
    /// The host name could not be resolved.
    Resolution,
    /// The daemon refused the connection.
    Refused,
    /// The TLS handshake failed.
    Handshake,
}

/// What went wrong on a connection after it was established.
#[derive(Debug, Clone, Copy, PartialEq, Eq, Structural)]
pub enum TransportFault {
    /// The connection was reset.
    Reset,
    /// The daemon sent bytes that do not frame a response.
    Framing,
    /// The daemon closed the connection before the response was complete.
    Closed,
    /// The caller's deadline passed.
    TimedOut,
}

/// Which component of a request the caller supplied malformed.
#[derive(Debug, Clone, Copy, PartialEq, Eq, Structural)]
pub enum RequestFault {
    /// The header name is empty, too long, or holds a byte that no name may
    /// hold.
    HeaderName,
    /// The header value holds a control byte other than a tab.
    HeaderValue,
    /// The header set cannot take another name.
    HeaderCapacity,
    /// Path and query do not form a request target.
    Target,
}

impl ConnectionFault {
    /// The fault for a connection that could not be opened: `Refused` where
    /// the daemon's side turned the connection away; otherwise the address
    /// led nowhere, which for a socket is `BadPath` and for a host
    /// `Resolution`.
    pub fn classify(socket: bool, refused: bool) -> (fault: ConnectionFault)
        ensures
            fault == if refused {
                ConnectionFault::Refused
            } else if socket {
                ConnectionFault::BadPath
            } else {
                ConnectionFault::Resolution
            },
    {
        if refused {
            ConnectionFault::Refused
        } else if socket {
            ConnectionFault::BadPath
        } else {
            ConnectionFault::Resolution
        }
    }
}

impl TransportFault {
    /// The fault for a failure on an established connection, from what is
    /// known of it: a passed deadline is `TimedOut`; else bytes that frame no
    /// response are `Framing`; else an early close is `Closed`; anything else
    /// is `Reset`.
    pub fn classify(timed_out: bool, malformed: bool, cut_short: bool) -> (fault: TransportFault)
        ensures
            fault == if timed_out {
                TransportFault::TimedOut
            } else if malformed {
                TransportFault::Framing
            } else if cut_short {
                TransportFault::Closed
            } else {
                TransportFault::Reset
            },
    {
        if timed_out {
            TransportFault::TimedOut
        } else if malformed {
            TransportFault::Framing
        } else if cut_short {
            TransportFault::Closed
        } else {
            TransportFault::Reset
        }
    }
}

/// The failure of one operation. Once produced it is final for that operation:
/// no result is returned beside it.
#[derive(Debug, Clone, PartialEq, Eq)]
pub enum ErrorKind {
    /// No connection could be established.
    Connection(ConnectionFault),
    /// I/O failed after the connection was established.
    Transport(TransportFault),
    /// The caller supplied a malformed request component; nothing was sent.
    InvalidRequest(RequestFault),
    /// The daemon answered with a status outside the expected set. `message`
    /// is the daemon's own message where its body carried one.
    Api { status: u16, message: Option<String> },
    /// The daemon answered with an expected status, but its body could not be
    /// read as the value the operation returns.
    Decode,
}

/// An [`ErrorKind`] as mathematical values.
pub enum ErrorKindView {
    Connection(ConnectionFault),
    Transport(TransportFault),
    InvalidRequest(RequestFault),
    Api { status: u16, message: Option<Seq<char>> },
    Decode,
}

impl View for ErrorKind {
    type V = ErrorKindView;

    open spec fn view(&self) -> ErrorKindView {
        match *self {
            ErrorKind::Connection(fault) => ErrorKindView::Connection(fault),
            ErrorKind::Transport(fault) => ErrorKindView::Transport(fault),
            ErrorKind::InvalidRequest(fault) => ErrorKindView::InvalidRequest(fault),
            ErrorKind::Api { status, message } => ErrorKindView::Api {
                status,
                message: text_view(message),
            },
            ErrorKind::Decode => ErrorKindView::Decode,
        }
    }
}

} // verus!
