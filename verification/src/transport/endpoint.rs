//! How the daemon is reached: over a local socket, or at a host and port.
//!
//! An address is configured as text: `unix://` and the socket's path, or
//! `tcp://` or `http://` and `host:port`. Opening the connection is the
//! caller's part; choosing the endpoint an address names is done here.

use crate::communicate::util::DEFAULT_URI;
use crate::errors::{ConnectionFault, ErrorKind};
use vstd::prelude::*;
use vstd::string::*;

verus! {

/// The certificate, private key and certificate authority with which a
/// connection to a host is secured.
#[derive(Debug, Clone, PartialEq, Eq)]
pub struct TlsMaterial {
    pub certificate: Vec<u8>,
    pub key: Vec<u8>,
    pub authority: Vec<u8>,
}

/// [`TlsMaterial`] as mathematical values.
pub struct TlsMaterialView {
    pub certificate: Seq<u8>,
    pub key: Seq<u8>,
    pub authority: Seq<u8>,
}

impl View for TlsMaterial {
    type V = TlsMaterialView;

    open spec fn view(&self) -> TlsMaterialView {
        TlsMaterialView {
            certificate: self.certificate@,
            key: self.key@,
            authority: self.authority@,
        }
    }
}

/// Where the daemon listens.
#[derive(Debug, Clone, PartialEq, Eq)]
pub enum Endpoint {
    /// A socket in the file system.
    Socket { path: String },
    /// A host and port, reached over TCP, and over TLS where material is
    /// given.
    Network { host: String, port: u16, tls: Option<TlsMaterial> },
}

/// An [`Endpoint`] as mathematical values.
pub enum EndpointView {
    Socket { path: Seq<char> },
    Network { host: Seq<char>, port: u16, tls: Option<TlsMaterialView> },
}

impl View for Endpoint {
    type V = EndpointView;

    open spec fn view(&self) -> EndpointView {
        match *self {
            Endpoint::Socket { path } => EndpointView::Socket { path: path@ },
            Endpoint::Network { host, port, tls } => EndpointView::Network {
                host: host@,
                port,
                tls: match tls {
                    Some(material) => Some(material@),
                    None => None,
                },
            },
        }
    }
}

/// The prefix of a socket address, `unix://`.
pub open spec fn unix_scheme() -> Seq<char> {
    seq!['u', 'n', 'i', 'x', ':', '/', '/']
}

/// A prefix of a host address, `tcp://`.
pub open spec fn tcp_scheme() -> Seq<char> {
    seq!['t', 'c', 'p', ':', '/', '/']
}

/// A prefix of a host address, `http://`.
pub open spec fn http_scheme() -> Seq<char> {
    seq!['h', 't', 't', 'p', ':', '/', '/']
}

/// Whether `c` is a decimal digit.
pub open spec fn is_digit(c: char) -> bool {
    '0' <= c <= '9'
}

/// The number that decimal digits spell.
pub open spec fn decimal(digits: Seq<char>) -> nat
    decreases digits.len(),
{
    if digits.len() == 0 {
        0
    } else {
        decimal(digits.drop_last()) * 10 + (digits.last() as nat - '0' as nat) as nat
    }
}

/// The port that `digits` spell: one to five decimal digits whose number is at
/// most 65535.
pub open spec fn port_of(digits: Seq<char>) -> Option<u16> {
    if 1 <= digits.len() <= 5 && (forall|i: int|
        0 <= i < digits.len() ==> is_digit(#[trigger] digits[i])) && decimal(digits) <= 65535 {
        Some(decimal(digits) as u16)
    } else {
        None
    }
}

/// The place of the last `:` in `text`, where it has one.
pub open spec fn last_colon(text: Seq<char>) -> Option<int>
    decreases text.len(),
{
    if text.len() == 0 {
        None
    } else if text.last() == ':' {
        Some(text.len() - 1)
    } else {
        last_colon(text.drop_last())
    }
}

/// The host endpoint that `host:port` names: the host is what stands before
/// the last `:`, is not empty and holds no `/`; the port is what stands
/// behind it.
pub open spec fn address_of(authority: Seq<char>) -> Option<EndpointView> {
    match last_colon(authority) {
        None => None,
        Some(at) => {
            let host = authority.take(at);
            if host.len() > 0 && !host.contains('/') {
                match port_of(authority.skip(at + 1)) {
                    Some(port) => Some(EndpointView::Network { host, port, tls: None }),
                    None => None,
                }
            } else {
                None
            }
        },
    }
}

/// The endpoint an address names, where it names one. What follows `unix://`
/// is the socket's path from the root of the file system.
pub open spec fn endpoint_of(uri: Seq<char>) -> Option<EndpointView> {
    if unix_scheme().is_prefix_of(uri) {
        if uri.len() > unix_scheme().len() {
            Some(EndpointView::Socket { path: seq!['/'] + uri.skip(unix_scheme().len() as int) })
        } else {
            None
        }
    } else if tcp_scheme().is_prefix_of(uri) {
        address_of(uri.skip(tcp_scheme().len() as int))
    } else if http_scheme().is_prefix_of(uri) {
        address_of(uri.skip(http_scheme().len() as int))
    } else {
        None
    }
}

/// The address in force: the configured one, or `DEFAULT_URI`.
pub open spec fn configured_uri(uri: Option<&str>) -> Seq<char> {
    match uri {
        Some(uri) => uri@,
        None => DEFAULT_URI@,
    }
}

/// The decimal digit for `d`, which is below ten.
pub open spec fn digit_char(d: nat) -> char {
    ('0' as nat + d) as char
}

/// The decimal digits of `n`, without leading zeros.
pub open spec fn digits_of(n: nat) -> Seq<char>
    decreases n,
{
    if n < 10 {
        seq![digit_char(n)]
    } else {
        digits_of(n / 10).push(digit_char(n % 10))
    }
}

/// The name by which requests address the daemon at an endpoint: `host:port`
/// for a host, and `localhost` for a socket, which has no name of its own.
pub open spec fn authority_of(endpoint: EndpointView) -> Seq<char> {
    match endpoint {
        EndpointView::Socket { .. } => "localhost"@,
        EndpointView::Network { host, port, .. } => host + seq![':'] + digits_of(port as nat),
    }
}

/// The error for an address that names no endpoint.
pub open spec fn bad_address() -> ErrorKind {
    ErrorKind::Connection(ConnectionFault::BadAddress)
}

/// Whether `text` begins with `prefix`.
fn has_prefix(text: &str, prefix: &str) -> (found: bool)
    ensures
        found == prefix@.is_prefix_of(text@),
{
    let n = prefix.unicode_len();
    if text.unicode_len() < n {
        return false;
    }
    let mut i: usize = 0;
    while i < n
        invariant
            i <= n,
            n == prefix@.len(),
            n <= text@.len(),
            forall|j: int| 0 <= j < i ==> text@[j] == prefix@[j],
        decreases n - i,
    {
        if text.get_char(i) != prefix.get_char(i) {
            assert(text@.subrange(0, n as int)[i as int] != prefix@[i as int]);
            return false;
        }
        i += 1;
    }
    assert(text@.subrange(0, n as int) =~= prefix@);
    true
}

/// The place of the last `:` in `text`, where it has one.
fn find_last_colon(text: &str) -> (found: Option<usize>)
    ensures
        match found {
            Some(at) => last_colon(text@) == Some(at as int) && at < text@.len(),
            None => last_colon(text@) is None,
        },
{
    let mut n = text.unicode_len();
    assert(text@.take(n as int) == text@);
    while n > 0
        invariant
            n <= text@.len(),
            last_colon(text@) == last_colon(text@.take(n as int)),
        decreases n,
    {
        if text.get_char(n - 1) == ':' {
            return Some(n - 1);
        }
        assert(text@.take(n as int).drop_last() == text@.take(n - 1));
        n -= 1;
    }
    None
}

/// Whether `text` holds a `/`.
fn holds_slash(text: &str) -> (found: bool)
    ensures
        found == text@.contains('/'),
{
    let n = text.unicode_len();
    let mut i: usize = 0;
    while i < n
        invariant
            i <= n,
            n == text@.len(),
            forall|j: int| 0 <= j < i ==> text@[j] != '/',
        decreases n - i,
    {
        if text.get_char(i) == '/' {
            assert(text@[i as int] == '/');
            return true;
        }
        i += 1;
    }
    false
}

/// The value of the decimal digit `c`, where it is one.
fn digit_value(c: char) -> (value: Option<u32>)
    ensures
        match value {
            Some(v) => is_digit(c) && v == c as nat - '0' as nat,
            None => !is_digit(c),
        },
{
    if '0' <= c && c <= '9' {
        Some(c as u32 - '0' as u32)
    } else {
        None
    }
}

/// The port that `digits` spell, where they spell one.
fn parse_port(digits: &str) -> (port: Option<u16>)
    ensures
        port == port_of(digits@),
{
    let n = digits.unicode_len();
    if n < 1 || n > 5 {
        return None;
    }
    let mut value: u32 = 0;
    let mut i: usize = 0;
    while i < n
        invariant
            i <= n,
            1 <= n <= 5,
            n == digits@.len(),
            forall|j: int| 0 <= j < i ==> is_digit(#[trigger] digits@[j]),
            value == decimal(digits@.take(i as int)),
            value < pow10(i as nat),
        decreases n - i,
    {
        let c = digits.get_char(i);
        match digit_value(c) {
            Some(d) => {
                proof {
                    assert(digits@.take(i + 1).drop_last() == digits@.take(i as int));
                    assert(digits@.take(i + 1).last() == c);
                    lemma_pow10_bounds(i as nat);
                }
                value = value * 10 + d;
            },
            None => {
                assert(!is_digit(digits@[i as int]));
                return None;
            },
        }
        i += 1;
    }
    assert(digits@.take(n as int) == digits@);
    if value <= 65535 {
        Some(value as u16)
    } else {
        None
    }
}

/// Ten to the power `n`.
spec fn pow10(n: nat) -> nat
    decreases n,
{
    if n == 0 {
        1
    } else {
        10 * pow10((n - 1) as nat)
    }
}

/// Powers of ten up to the fifth stay far below what 32 bits hold.
proof fn lemma_pow10_bounds(n: nat)
    requires
        n <= 5,
    ensures
        pow10(n) <= 100000,
        pow10(n + 1) == 10 * pow10(n),
{
    reveal_with_fuel(pow10, 7);
}

/// The host endpoint that `host:port` names, where it names one.
fn parse_address(authority: &str) -> (endpoint: Option<Endpoint>)
    ensures
        match endpoint {
            Some(found) => address_of(authority@) == Some(found@),
            None => address_of(authority@) is None,
        },
{
    let at = match find_last_colon(authority) {
        Some(at) => at,
        None => {
            return None;
        },
    };
    let n = authority.unicode_len();
    let host = authority.substring_char(0, at);
    let digits = authority.substring_char(at + 1, n);
    assert(host@ == authority@.take(at as int));
    assert(digits@ == authority@.skip(at + 1));
    if at == 0 || holds_slash(host) {
        return None;
    }
    match parse_port(digits) {
        Some(port) => Some(Endpoint::Network { host: host.to_owned(), port, tls: None }),
        None => None,
    }
}

/// The text of one decimal digit.
fn digit_text(d: u16) -> (text: &'static str)
    requires
        d < 10,
    ensures
        text@ == seq![digit_char(d as nat)],
{
    proof {
        reveal_strlit("0");
        reveal_strlit("1");
        reveal_strlit("2");
        reveal_strlit("3");
        reveal_strlit("4");
        reveal_strlit("5");
        reveal_strlit("6");
        reveal_strlit("7");
        reveal_strlit("8");
        reveal_strlit("9");
    }
    let text = if d == 0 {
        "0"
    } else if d == 1 {
        "1"
    } else if d == 2 {
        "2"
    } else if d == 3 {
        "3"
    } else if d == 4 {
        "4"
    } else if d == 5 {
        "5"
    } else if d == 6 {
        "6"
    } else if d == 7 {
        "7"
    } else if d == 8 {
        "8"
    } else {
        "9"
    };
    assert(text@ =~= seq![digit_char(d as nat)]);
    text
}

/// The decimal digits of a port.
fn port_text(port: u16) -> (text: String)
    ensures
        text@ == digits_of(port as nat),
    decreases port,
{
    if port < 10 {
        String::from_str(digit_text(port))
    } else {
        let mut text = port_text(port / 10);
        text.append(digit_text(port % 10));
        text
    }
}

impl Endpoint {
    /// The endpoint that `uri` names, or `Connection` where it names none.
    pub fn from_uri(uri: &str) -> (result: Result<Endpoint, ErrorKind>)
        ensures
            match result {
                Ok(endpoint) => endpoint_of(uri@) == Some(endpoint@),
                Err(error) => endpoint_of(uri@) is None && error == bad_address(),
            },
    {
        proof {
            reveal_strlit("unix://");
            reveal_strlit("tcp://");
            reveal_strlit("http://");
            reveal_strlit("/");
            assert("unix://"@ =~= unix_scheme());
            assert("tcp://"@ =~= tcp_scheme());
            assert("http://"@ =~= http_scheme());
            assert("/"@ =~= seq!['/']);
        }
        let n = uri.unicode_len();
        if has_prefix(uri, "unix://") {
            if n > 7 {
                let rest = uri.substring_char(7, n);
                assert(rest@ == uri@.skip(7));
                Ok(Endpoint::Socket { path: String::from_str("/").concat(rest) })
            } else {
                Err(ErrorKind::Connection(ConnectionFault::BadAddress))
            }
        } else if has_prefix(uri, "tcp://") {
            let rest = uri.substring_char(6, n);
            assert(rest@ == uri@.skip(6));
            match parse_address(rest) {
                Some(endpoint) => Ok(endpoint),
                None => Err(ErrorKind::Connection(ConnectionFault::BadAddress)),
            }
        } else if has_prefix(uri, "http://") {
            let rest = uri.substring_char(7, n);
            assert(rest@ == uri@.skip(7));
            match parse_address(rest) {
                Some(endpoint) => Ok(endpoint),
                None => Err(ErrorKind::Connection(ConnectionFault::BadAddress)),
            }
        } else {
            Err(ErrorKind::Connection(ConnectionFault::BadAddress))
        }
    }

    /// The endpoint that the configured address names, or the one that
    /// `DEFAULT_URI` names where none is configured.
    pub fn configured(uri: Option<&str>) -> (result: Result<Endpoint, ErrorKind>)
        ensures
            match result {
                Ok(endpoint) => endpoint_of(configured_uri(uri)) == Some(endpoint@),
                Err(error) => endpoint_of(configured_uri(uri)) is None && error == bad_address(),
            },
    {
        match uri {
            Some(uri) => Endpoint::from_uri(uri),
            None => Endpoint::from_uri(DEFAULT_URI),
        }
    }

    /// This endpoint, secured with `material` where it is a host; a socket
    /// stays as it is.
    pub fn with_tls(self, material: TlsMaterial) -> (endpoint: Endpoint)
        ensures
            endpoint@ == match self@ {
                EndpointView::Socket { path } => EndpointView::Socket { path },
                EndpointView::Network { host, port, tls } => EndpointView::Network {
                    host,
                    port,
                    tls: Some(material@),
                },
            },
    {
        match self {
            Endpoint::Socket { path } => Endpoint::Socket { path },
            Endpoint::Network { host, port, tls: _ } => Endpoint::Network {
                host,
                port,
                tls: Some(material),
            },
        }
    }

    /// The name by which requests address the daemon at this endpoint.
    pub fn authority(&self) -> (text: String)
        ensures
            text@ == authority_of(self@),
    {
        match self {
            Endpoint::Socket { .. } => String::from_str("localhost"),
            Endpoint::Network { host, port, .. } => {
                proof {
                    reveal_strlit(":");
                    assert(":"@ =~= seq![':']);
                }
                let mut text = host.clone();
                text.append(":");
                text.append(port_text(*port).as_str());
                text
            },
        }
    }
}

/// Where no address is configured, the daemon is reached over the socket at
/// `/var/run/docker.sock`.
pub proof fn lemma_default_endpoint()
    ensures
        endpoint_of(configured_uri(None)) == Some(
            EndpointView::Socket { path: "/var/run/docker.sock"@ },
        ),
{
    reveal_strlit("unix://var/run/docker.sock");
    reveal_strlit("/var/run/docker.sock");
    let uri = DEFAULT_URI@;
    assert(uri.subrange(0, 7) =~= unix_scheme());
    assert(seq!['/'] + uri.skip(7) =~= "/var/run/docker.sock"@);
}

/// The digits of a number spell that number, and there are at most five of
/// them for a number below a hundred thousand.
pub proof fn lemma_digits_spell_the_number(n: nat)
    ensures
        decimal(digits_of(n)) == n,
        digits_of(n).len() >= 1,
        n < 100000 ==> digits_of(n).len() <= 5,
        forall|i: int| 0 <= i < digits_of(n).len() ==> is_digit(#[trigger] digits_of(n)[i]),
    decreases n,
{
    reveal_with_fuel(decimal, 2);
    if n < 10 {
        assert(digits_of(n).drop_last() =~= Seq::<char>::empty());
    } else {
        lemma_digits_spell_the_number(n / 10);
        assert(digits_of(n).drop_last() =~= digits_of(n / 10));
        if n < 100000 {
            lemma_short_numbers(n / 10);
        }
    }
}

/// A number below ten thousand has at most four digits.
proof fn lemma_short_numbers(n: nat)
    requires
        n < 10000,
    ensures
        digits_of(n).len() <= 4,
{
    reveal_with_fuel(digits_of, 5);
}

/// Writing a port and reading it back gives the port.
pub proof fn lemma_port_round_trip(port: u16)
    ensures
        port_of(digits_of(port as nat)) == Some(port),
{
    lemma_digits_spell_the_number(port as nat);
}

/// No digit is a `:`, so the last `:` of `host:port` is the one between.
proof fn lemma_colon_before_digits(host: Seq<char>, digits: Seq<char>)
    requires
        forall|i: int| 0 <= i < digits.len() ==> is_digit(#[trigger] digits[i]),
    ensures
        last_colon(host + seq![':'] + digits) == Some(host.len() as int),
    decreases digits.len(),
{
    let whole = host + seq![':'] + digits;
    if digits.len() == 0 {
        assert(whole.last() == ':');
    } else {
        assert(whole.last() == digits.last());
        assert(is_digit(digits[digits.len() - 1]));
        assert(whole.drop_last() =~= host + seq![':'] + digits.drop_last());
        lemma_colon_before_digits(host, digits.drop_last());
    }
}

/// An address written from a host and a port names that host and that port:
/// for every host that is not empty and holds no `/`, the text `host:port`
/// is read back as the two, and so is the address `tcp://host:port`.
pub proof fn lemma_address_round_trip(host: Seq<char>, port: u16)
    requires
        host.len() > 0,
        !host.contains('/'),
    ensures
        address_of(authority_of(EndpointView::Network { host, port, tls: None })) == Some(
            EndpointView::Network { host, port, tls: None },
        ),
        endpoint_of(tcp_scheme() + authority_of(EndpointView::Network { host, port, tls: None }))
            == Some(EndpointView::Network { host, port, tls: None }),
{
    let digits = digits_of(port as nat);
    let whole = host + seq![':'] + digits;
    lemma_digits_spell_the_number(port as nat);
    lemma_colon_before_digits(host, digits);
    assert(whole.take(host.len() as int) =~= host);
    assert(whole.skip(host.len() as int + 1) =~= digits);
    let uri = tcp_scheme() + whole;
    assert(uri[0] == 't');
    assert(uri.subrange(0, 6) =~= tcp_scheme());
    assert(uri.skip(6) =~= whole);
}

} // verus!
