use async_docker::communicate::util::{
    build_simple_query, insertion_outcome, AsSlice, Body, IntoRequestArgs, RequestArgs,
    DEFAULT_URI, URI_ENV,
};
use async_docker::errors::{ErrorKind, RequestFault};
use async_docker::transport::endpoint::Endpoint;
use async_docker::transport::interact::{target_checked, Method, Request};
use http::header::{HeaderMap, HeaderValue};

#[test]
fn simple_query_without_value_is_absent() {
    assert_eq!(build_simple_query("name", None), None);
}

#[test]
fn simple_query_joins_name_and_value() {
    assert_eq!(build_simple_query("name", Some("web")), Some("name=web".to_string()));
    assert_eq!(build_simple_query("t", Some("a b")), Some("t=a+b".to_string()));
}

#[test]
fn simple_query_with_empty_value_keeps_the_name() {
    assert_eq!(build_simple_query("name", Some("")), Some("name=".to_string()));
    assert_eq!(build_simple_query("", Some("")), Some("=".to_string()));
}

#[test]
fn simple_query_keeps_unreserved_bytes() {
    assert_eq!(
        build_simple_query("k", Some("AZaz09*-._")),
        Some("k=AZaz09*-._".to_string())
    );
}

#[test]
fn simple_query_escapes_reserved_bytes() {
    assert_eq!(
        build_simple_query("foo", Some("bar & baz")),
        Some("foo=bar+%26+baz".to_string())
    );
    assert_eq!(
        build_simple_query("a=b", Some("c/d?e#f~g")),
        Some("a%3Db=c%2Fd%3Fe%23f%7Eg".to_string())
    );
    assert_eq!(build_simple_query("k", Some("+%\n\u{0}")), Some("k=%2B%25%0A%00".to_string()));
}

#[test]
fn simple_query_escapes_each_byte_of_a_character() {
    assert_eq!(
        build_simple_query("saison", Some("Été+hiver")),
        Some("saison=%C3%89t%C3%A9%2Bhiver".to_string())
    );
}

#[test]
fn as_slice_borrows_the_held_string() {
    let held = Some("force=1".to_string());
    assert_eq!(AsSlice::as_slice(&held), Some("force=1"));
    let absent: Option<String> = None;
    assert_eq!(AsSlice::as_slice(&absent), None);
}

#[test]
fn default_arguments_are_empty() {
    let args = RequestArgs::default();
    assert_eq!(args.path, "");
    assert_eq!(args.query, "");
    assert_eq!(args.body, Body::Empty);
    assert!(args.header.is_empty());
    assert_eq!(Body::default(), Body::Empty);
}

#[test]
fn bare_path_takes_every_default() {
    let args = "/info".into_request_args();
    assert_eq!(args.path, "/info");
    assert_eq!(args.query, "");
    assert_eq!(args.body, Body::Empty);
    assert!(args.header.is_empty());
}

#[test]
fn path_and_query_takes_the_default_body() {
    let args = ("/images/json", Some("all=1")).into_request_args();
    assert_eq!(args.path, "/images/json");
    assert_eq!(args.query, "all=1");
    assert_eq!(args.body, Body::Empty);
    assert!(args.header.is_empty());

    let args = ("/images/json", None::<&str>).into_request_args();
    assert_eq!(args.path, "/images/json");
    assert_eq!(args.query, "");
    assert_eq!(args.body, Body::Empty);
}

#[test]
fn path_and_body_takes_the_default_query() {
    let args = ("/build", Some(Body::Bytes(vec![1, 2, 3]))).into_request_args();
    assert_eq!(args.path, "/build");
    assert_eq!(args.query, "");
    assert_eq!(args.body, Body::Bytes(vec![1, 2, 3]));
    assert!(args.header.is_empty());

    let args = ("/build", None::<Body>).into_request_args();
    assert_eq!(args.path, "/build");
    assert_eq!(args.query, "");
    assert_eq!(args.body, Body::Empty);
}

#[test]
fn path_query_and_body_are_all_kept() {
    let stream = Body::Stream(vec![vec![1, 2], vec![], vec![3]]);
    let args = ("/containers/x/archive", Some("path=%2Ftmp"), Some(stream.clone()))
        .into_request_args();
    assert_eq!(args.path, "/containers/x/archive");
    assert_eq!(args.query, "path=%2Ftmp");
    assert_eq!(args.body, stream);
    assert!(args.header.is_empty());

    let args = ("/p", None::<&str>, None::<Body>).into_request_args();
    assert_eq!(args.path, "/p");
    assert_eq!(args.query, "");
    assert_eq!(args.body, Body::Empty);
    assert!(args.header.is_empty());
}

#[test]
fn set_header_files_the_value_under_the_lower_case_name() {
    let mut args = "/images/create".into_request_args();
    assert_eq!(args.set_header("X-Registry-Auth", "e30="), Ok(()));
    assert_eq!(args.header.len(), 1);
    assert_eq!(args.header.get("x-registry-auth").unwrap().as_bytes(), b"e30=");
    let names: Vec<String> = args.header.keys().map(|name| name.as_str().to_string()).collect();
    assert_eq!(names, vec!["x-registry-auth".to_string()]);
    assert_eq!(args.path, "/images/create");
    assert_eq!(args.query, "");
    assert_eq!(args.body, Body::Empty);
}

#[test]
fn set_header_last_write_wins_whatever_the_case() {
    let mut args = "/".into_request_args();
    assert_eq!(args.set_header("Content-Type", "application/json"), Ok(()));
    assert_eq!(args.set_header("X-Other", "1"), Ok(()));
    assert_eq!(args.set_header("content-TYPE", "application/x-tar"), Ok(()));
    assert_eq!(args.header.len(), 2);
    assert_eq!(args.header.get("content-type").unwrap().as_bytes(), b"application/x-tar");
    assert_eq!(args.header.get_all("content-type").iter().count(), 1);
    assert_eq!(args.header.get("x-other").unwrap().as_bytes(), b"1");
}

#[test]
fn set_header_rejects_a_malformed_name() {
    let mut args = "/".into_request_args();
    assert_eq!(args.set_header("X-One", "1"), Ok(()));
    for name in ["", "bad name", "bad:name", "caf\u{e9}", "a/b", "a\nb", "(x)"] {
        assert_eq!(
            args.set_header(name, "v"),
            Err(ErrorKind::InvalidRequest(RequestFault::HeaderName))
        );
    }
    let long = "a".repeat(65536);
    assert_eq!(
        args.set_header(&long, "v"),
        Err(ErrorKind::InvalidRequest(RequestFault::HeaderName))
    );
    assert_eq!(args.header.len(), 1);
    assert_eq!(args.header.get("x-one").unwrap().as_bytes(), b"1");
}

#[test]
fn set_header_accepts_every_name_byte() {
    let mut args = "/".into_request_args();
    assert_eq!(args.set_header("!\"#$%&'*+-.^_`|~09AZaz", "v"), Ok(()));
    assert!(args.header.contains_key("!\"#$%&'*+-.^_`|~09azaz"));
    let longest = "b".repeat(65535);
    assert_eq!(args.set_header(&longest, "v"), Ok(()));
    assert_eq!(args.header.len(), 2);
}

#[test]
fn set_header_rejects_a_malformed_value() {
    let mut args = "/".into_request_args();
    for value in ["line\nbreak", "carriage\rreturn", "nul\u{0}", "del\u{7f}", "\u{1f}"] {
        assert_eq!(
            args.set_header("X-Name", value),
            Err(ErrorKind::InvalidRequest(RequestFault::HeaderValue))
        );
    }
    assert!(args.header.is_empty());
    assert_eq!(
        args.set_header("bad name", "bad\nvalue"),
        Err(ErrorKind::InvalidRequest(RequestFault::HeaderName))
    );
}

#[test]
fn set_header_accepts_tabs_and_bytes_above_ascii() {
    let mut args = "/".into_request_args();
    assert_eq!(args.set_header("X-Name", "a\tb c~"), Ok(()));
    assert_eq!(args.header.get("x-name").unwrap().as_bytes(), b"a\tb c~");
    assert_eq!(args.set_header("X-Name", ""), Ok(()));
    assert_eq!(args.header.get("x-name").unwrap().as_bytes(), b"");
    assert_eq!(args.set_header("X-Name", "caf\u{e9}"), Ok(()));
    assert_eq!(args.header.get("x-name").unwrap().as_bytes(), "caf\u{e9}".as_bytes());
}

#[test]
fn set_header_reports_a_full_header_set() {
    let mut args = "/".into_request_args();
    let mut accepted: usize = 0;
    let mut refused = None;
    for i in 0..40000 {
        match args.set_header(&format!("x-{}", i), "v") {
            Ok(()) => accepted += 1,
            Err(error) => {
                refused = Some(error);
                break;
            }
        }
    }
    assert_eq!(refused, Some(ErrorKind::InvalidRequest(RequestFault::HeaderCapacity)));
    assert_eq!(args.header.len(), accepted);
    assert!(accepted > 0);
    assert!(!args.header.contains_key(format!("x-{}", accepted).as_str()));
    assert!(args.header.contains_key(format!("x-{}", accepted - 1).as_str()));
}

#[test]
fn verbs_set_the_method_and_keep_the_arguments() {
    let request = Request::get("/version");
    assert_eq!(request.method, Method::Get);
    assert_eq!(request.args.path, "/version");
    assert_eq!(request.args.query, "");

    let request = Request::post(("/containers/create", Some("name=web")));
    assert_eq!(request.method, Method::Post);
    assert_eq!(request.args.path, "/containers/create");
    assert_eq!(request.args.query, "name=web");

    let request = Request::put(("/containers/x/archive", Some(Body::Bytes(vec![9]))));
    assert_eq!(request.method, Method::Put);
    assert_eq!(request.args.body, Body::Bytes(vec![9]));

    let request = Request::delete(("/images/x", Some("force=1"), None::<Body>));
    assert_eq!(request.method, Method::Delete);
    assert_eq!(request.args.query, "force=1");
    assert_eq!(request.args.body, Body::Empty);
}

#[test]
fn target_joins_path_and_query() {
    assert_eq!(Request::get("/version").target(), "/version");
    assert_eq!(Request::get(("/images/json", Some("all=1"))).target(), "/images/json?all=1");
    assert_eq!(Request::get(("/images/json", Some(""))).target(), "/images/json");
    assert_eq!(Request::get(("/images/json", None::<&str>)).target(), "/images/json");
}

#[test]
fn address_constants() {
    assert_eq!(URI_ENV, "SHIPLIFT_URI");
    assert_eq!(DEFAULT_URI, "unix://var/run/docker.sock");
}

#[test]
fn every_ascii_byte_is_encoded_by_its_rule() {
    for byte in 0u8..128 {
        let unchanged = byte.is_ascii_alphanumeric() || b"*-._".contains(&byte);
        let encoded = if unchanged {
            (byte as char).to_string()
        } else if byte == b' ' {
            "+".to_string()
        } else {
            format!("%{:02X}", byte)
        };
        let text = (byte as char).to_string();
        assert_eq!(
            build_simple_query(&text, Some(&text)),
            Some(format!("{}={}", encoded, encoded))
        );
    }
    for text in ["\u{80}", "\u{ff}", "\u{7ff}", "\u{800}", "\u{ffff}", "\u{10000}", "\u{10ffff}"] {
        let encoded: String = text.bytes().map(|byte| format!("%{:02X}", byte)).collect();
        assert_eq!(build_simple_query("k", Some(text)), Some(format!("k={}", encoded)));
    }
}

#[test]
fn every_ascii_byte_is_a_name_byte_by_its_rule() {
    for byte in 0u8..128 {
        let accepted = byte.is_ascii_alphanumeric() || b"!\"#$%&'*+-.^_`|~".contains(&byte);
        let mut args = "/".into_request_args();
        let name = (byte as char).to_string();
        if accepted {
            assert_eq!(args.set_header(&name, "v"), Ok(()));
            let filed = (byte.to_ascii_lowercase() as char).to_string();
            let names: Vec<String> =
                args.header.keys().map(|name| name.as_str().to_string()).collect();
            assert_eq!(names, vec![filed]);
        } else {
            assert_eq!(
                args.set_header(&name, "v"),
                Err(ErrorKind::InvalidRequest(RequestFault::HeaderName))
            );
            assert!(args.header.is_empty());
        }
    }
}

#[test]
fn every_ascii_byte_is_a_value_byte_by_its_rule() {
    for byte in 0u8..128 {
        let accepted = (byte >= 32 && byte != 127) || byte == b'\t';
        let mut args = "/".into_request_args();
        let value = format!("a{}b", byte as char);
        if accepted {
            assert_eq!(args.set_header("x-name", &value), Ok(()));
            assert_eq!(args.header.get("x-name").unwrap().as_bytes(), value.as_bytes());
        } else {
            assert_eq!(
                args.set_header("x-name", &value),
                Err(ErrorKind::InvalidRequest(RequestFault::HeaderValue))
            );
            assert!(args.header.is_empty());
        }
    }
}

#[test]
fn check_accepts_a_well_formed_target() {
    assert_eq!(Request::get("/version").check(), Ok(()));
    assert_eq!(Request::get("/").check(), Ok(()));
    assert_eq!(Request::post(("/networks/abc/connect", Some("Container=web&Force=true"))).check(), Ok(()));
    assert_eq!(Request::get(("/images/json", Some("filters=%7B%22dangling%22%3A%5B%22true%22%5D%7D"))).check(), Ok(()));
    assert_eq!(target_checked("/version".parse::<http::Uri>()), Ok(()));
}

#[test]
fn check_rejects_a_malformed_target() {
    let malformed = Err(ErrorKind::InvalidRequest(RequestFault::Target));
    assert_eq!(Request::get("").check(), malformed);
    assert_eq!(Request::get("/networks/a b").check(), malformed);
    assert_eq!(Request::get(("/networks", Some("a b"))).check(), malformed);
    assert_eq!(Request::get("/networks/\u{7f}").check(), malformed);
    let long = format!("/{}", "a".repeat(70000));
    assert_eq!(Request::delete(long.as_str()).check(), malformed);
    assert_eq!(target_checked("/a b".parse::<http::Uri>()), malformed);
}

#[test]
fn addressed_request_names_its_host() {
    let endpoint = Endpoint::Network { host: "docker.example".to_string(), port: 2375, tls: None };
    let request = Request::get(("/images/json", Some("all=1"))).addressed(&endpoint).unwrap();
    assert_eq!(request.method, Method::Get);
    assert_eq!(request.args.path, "/images/json");
    assert_eq!(request.args.query, "all=1");
    assert_eq!(request.args.body, Body::Empty);
    assert_eq!(request.args.header.len(), 1);
    assert_eq!(request.args.header.get("host").unwrap().as_bytes(), b"docker.example:2375");

    let socket = Endpoint::Socket { path: "/var/run/docker.sock".to_string() };
    let mut args = "/version".into_request_args();
    assert_eq!(args.set_header("Host", "elsewhere"), Ok(()));
    assert_eq!(args.set_header("X-Registry-Auth", "e30="), Ok(()));
    let request = Request { method: Method::Post, args }.addressed(&socket).unwrap();
    assert_eq!(request.method, Method::Post);
    assert_eq!(request.args.header.len(), 2);
    assert_eq!(request.args.header.get("host").unwrap().as_bytes(), b"localhost");
    assert_eq!(request.args.header.get("x-registry-auth").unwrap().as_bytes(), b"e30=");
}

#[test]
fn addressed_request_rejects_a_host_that_is_no_header_value() {
    let endpoint = Endpoint::Network { host: "bad\nhost".to_string(), port: 80, tls: None };
    let result = Request::get("/version").addressed(&endpoint);
    assert_eq!(result.err(), Some(ErrorKind::InvalidRequest(RequestFault::HeaderValue)));
}

#[test]
fn insertion_outcome_maps_each_outcome() {
    assert_eq!(insertion_outcome(Ok(None)), Ok(()));
    assert_eq!(insertion_outcome(Ok(Some(HeaderValue::from_static("old")))), Ok(()));
    let full = HeaderMap::<HeaderValue>::try_with_capacity(40000).unwrap_err();
    assert_eq!(
        insertion_outcome(Err(full)),
        Err(ErrorKind::InvalidRequest(RequestFault::HeaderCapacity))
    );
}

#[test]
fn fresh_arguments_take_a_header_under_any_name() {
    let body = Body::Bytes(vec![1]);
    let mut forms = vec![
        RequestArgs::default(),
        "/p".into_request_args(),
        ("/p", Some("q=1")).into_request_args(),
        ("/p", Some(body.clone())).into_request_args(),
        ("/p", Some("q=1"), Some(body)).into_request_args(),
        Request::get("/p").args,
        Request::post("/p").args,
        Request::put("/p").args,
        Request::delete("/p").args,
    ];
    for args in forms.iter_mut() {
        assert_eq!(args.set_header("X-Any", "v"), Ok(()));
        assert_eq!(args.header.get("x-any").unwrap().as_bytes(), b"v");
        assert_eq!(args.header.len(), 1);
    }
}
