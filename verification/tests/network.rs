use async_docker::communicate::network::Network;
use async_docker::communicate::util::Body;
use async_docker::errors::{ErrorKind, TransportFault};
use async_docker::transport::endpoint::Endpoint;
use async_docker::transport::interact::{Method, Request};
use async_docker::transport::parse::{BodyEnd, Expected, RawResponse};
use async_docker::transport::stream::{stream_elements, Element, StreamMode};
use http::header::HeaderMap;

fn response(status: u16, body: &[u8]) -> RawResponse {
    RawResponse {
        status,
        header: HeaderMap::new(),
        chunks: vec![body.to_vec()],
        end: BodyEnd::Complete,
    }
}

#[test]
fn inspect_decodes_identifier_and_name() {
    let network = Network::new("abc".to_string());
    let request = network.inspect();
    assert_eq!(request.method, Method::Get);
    assert_eq!(request.args.path, "/networks/abc");
    assert_eq!(request.args.query, "");
    assert_eq!(request.args.body, Body::Empty);
    assert!(request.args.header.is_empty());

    let details = network
        .inspect_response(response(200, br#"{"Id":"abc","Name":"bridge"}"#))
        .unwrap();
    assert_eq!(details.id, "abc");
    assert_eq!(details.name, "bridge");
}

#[test]
fn connect_refused_carries_the_daemon_message() {
    let network = Network::new("abc".to_string());
    let request = network.connect(&None);
    assert_eq!(request.method, Method::Post);
    assert_eq!(request.args.path, "/networks/abc/connect");

    let result = network.connect_response(response(403, br#"{"message":"forbidden"}"#));
    assert_eq!(
        result,
        Err(ErrorKind::Api { status: 403, message: Some("forbidden".to_string()) })
    );
}

#[test]
fn delete_yields_the_bare_status() {
    let network = Network::new("abc".to_string());
    let request = network.delete();
    assert_eq!(request.method, Method::Delete);
    assert_eq!(request.args.path, "/networks/abc");

    let raw = RawResponse {
        status: 204,
        header: HeaderMap::new(),
        chunks: Vec::new(),
        end: BodyEnd::Complete,
    };
    assert_eq!(network.delete_response(raw), Ok(204));
}

#[test]
fn inspect_with_unreadable_details_is_a_decode_error() {
    let network = Network::new("abc".to_string());
    assert_eq!(network.inspect_response(response(200, b"{\"Id\":\"abc\"")), Err(ErrorKind::Decode));
    assert_eq!(
        network.inspect_response(response(200, br#"{"Id":"abc"}"#)),
        Err(ErrorKind::Decode)
    );
    assert_eq!(
        network.inspect_response(response(404, br#"{"message":"network abc not found"}"#)),
        Err(ErrorKind::Api { status: 404, message: Some("network abc not found".to_string()) })
    );
    let broken = RawResponse {
        status: 200,
        header: HeaderMap::new(),
        chunks: vec![br#"{"Id":"abc","Name":"bridge"}"#.to_vec()],
        end: BodyEnd::Broken(TransportFault::Closed),
    };
    assert_eq!(
        network.inspect_response(broken),
        Err(ErrorKind::Transport(TransportFault::Closed))
    );
}

#[test]
fn delete_of_unknown_network_fails_the_same_way_each_time() {
    let body = br#"{"message":"network missing not found"}"#;
    let expected = Err(ErrorKind::Api {
        status: 404,
        message: Some("network missing not found".to_string()),
    });
    let network = Network::new("missing".to_string());
    assert_eq!(network.delete_response(response(404, body)), expected);
    let _ = network.inspect();
    let _ = network.connect_response(response(200, b""));
    assert_eq!(network.delete_response(response(404, body)), expected);
    let rechunked = RawResponse {
        status: 404,
        header: HeaderMap::new(),
        chunks: vec![body[..10].to_vec(), body[10..].to_vec()],
        end: BodyEnd::Broken(TransportFault::Reset),
    };
    assert_eq!(Network::new("other".to_string()).delete_response(rechunked), expected);
    assert_eq!(network.delete().args.path, "/networks/missing");
    assert_eq!(network.delete().target(), network.delete().target());
}

#[test]
fn connect_and_disconnect_carry_the_options_as_query() {
    let network = Network::new("net1".to_string());
    assert_eq!(network.id(), "net1");

    let request = network.connect(&Some("Container=web".to_string()));
    assert_eq!(request.method, Method::Post);
    assert_eq!(request.args.path, "/networks/net1/connect");
    assert_eq!(request.args.query, "Container=web");
    assert_eq!(request.args.body, Body::Empty);
    assert!(request.args.header.is_empty());
    assert_eq!(request.target(), "/networks/net1/connect?Container=web");

    let request = network.disconnect(&Some("Container=web&Force=true".to_string()));
    assert_eq!(request.method, Method::Post);
    assert_eq!(request.args.path, "/networks/net1/disconnect");
    assert_eq!(request.args.query, "Container=web&Force=true");
    assert_eq!(request.target(), "/networks/net1/disconnect?Container=web&Force=true");

    let request = network.disconnect(&None);
    assert_eq!(request.args.path, "/networks/net1/disconnect");
    assert_eq!(request.args.query, "");
    assert_eq!(request.target(), "/networks/net1/disconnect");

    assert_eq!(network.connect_response(response(200, b"")), Ok(200));
    assert_eq!(
        network.disconnect_response(response(500, b"oops")),
        Err(ErrorKind::Api { status: 500, message: None })
    );
}

#[test]
fn identifier_stands_in_the_path_as_given() {
    assert_eq!(Network::new("a/b c".to_string()).inspect().args.path, "/networks/a/b c");
    assert_eq!(Network::new(String::new()).delete().args.path, "/networks/");
}

#[test]
fn request_body_echoed_by_the_daemon_comes_back_byte_for_byte() {
    let body: Vec<u8> = (0..=255).collect();
    let request = Request::put(("/echo", Some("a=b+c"), Some(Body::Bytes(body.clone()))));
    assert_eq!(request.args.query, "a=b+c");
    let sent = match request.args.body {
        Body::Bytes(bytes) => bytes,
        _ => panic!("the body was given in memory"),
    };
    assert_eq!(sent, body);
    let echo = RawResponse {
        status: 200,
        header: HeaderMap::new(),
        chunks: vec![sent[..100].to_vec(), sent[100..].to_vec()],
        end: BodyEnd::Complete,
    };
    let elements = stream_elements(echo, &Expected::Success, StreamMode::Bytes).unwrap();
    let mut received = Vec::new();
    for element in elements {
        match element {
            Element::Bytes(bytes) => received.extend(bytes),
            Element::Json(_) => panic!("bytes were asked for"),
        }
    }
    assert_eq!(received, body);
    assert_ne!(received, vec![0u8; 256]);
}

#[test]
fn requests_of_a_handle_can_be_addressed() {
    let network = Network::new("abc".to_string());
    let socket = Endpoint::Socket { path: "/var/run/docker.sock".to_string() };
    let query = Some("Container=web".to_string());
    for request in [
        network.inspect(),
        network.delete(),
        network.connect(&query),
        network.disconnect(&query),
    ] {
        let path = request.args.path.clone();
        let addressed = request.addressed(&socket).unwrap();
        assert_eq!(addressed.args.path, path);
        assert_eq!(addressed.args.header.len(), 1);
        assert_eq!(addressed.args.header.get("host").unwrap().as_bytes(), b"localhost");
    }
}
