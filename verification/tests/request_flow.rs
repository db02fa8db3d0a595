use cors_proxy::config::{Config, DEFAULT_SERVER_PORT};
use cors_proxy::proxy::{
    forward_step, handler, preflight_step, reject, settle, Inbound, Outcome, Step,
    STATUS_BAD_REQUEST, STATUS_OK,
};
use cors_proxy::headers::CorsError;
use http::header::{HeaderMap, HeaderValue};
use http::uri::Uri;

fn config(host: &str, allow_headers: Option<&str>) -> Config {
    Config::new(None, host.to_string(), allow_headers.map(|s| s.to_string()))
}

fn inbound(method: &str, path: &str, path_and_query: Option<&str>) -> Inbound {
    Inbound {
        method: method.to_string(),
        path: path.to_string(),
        path_and_query: path_and_query.map(|s| s.to_string()),
    }
}

#[test]
fn config_defaults_the_port() {
    let c = Config::new(None, "http://127.0.0.1:8888/".to_string(), None);
    assert_eq!(c.server_port, 4000);
    assert_eq!(DEFAULT_SERVER_PORT, 4000);
    assert_eq!(c.host, "http://127.0.0.1:8888/");
    assert!(c.allow_headers.is_none());
    let c = Config::new(Some(8080), "http://up".to_string(), Some("X-A,X-B".to_string()));
    assert_eq!(c.server_port, 8080);
    assert_eq!(c.allow_headers.as_deref(), Some("X-A,X-B"));
}

#[test]
fn get_is_forwarded_with_path_and_query() {
    let c = config("http://localhost:9000/", None);
    let step = handler(&c, &inbound("GET", "/foo/bar", Some("/foo/bar?x=1")));
    match step {
        Step::Forward { target, address } => {
            assert_eq!(address, "http://localhost:9000/foo/bar?x=1");
            assert_eq!(target.to_string(), "http://localhost:9000/foo/bar?x=1");
            assert_eq!(Uri::try_from(address.clone()).ok(), Some(target.clone()));
            assert_eq!(target.host(), Some("localhost"));
            assert_eq!(target.port_u16(), Some(9000));
            assert_eq!(target.path(), "/foo/bar");
            assert_eq!(target.query(), Some("x=1"));
        }
        _ => panic!("a GET is forwarded"),
    }
}

#[test]
fn path_alone_is_used_where_path_and_query_are_absent() {
    let c = config("http://up", None);
    match handler(&c, &inbound("POST", "/only/path", None)) {
        Step::Forward { target, address } => {
            assert_eq!(address, "http://up/only/path");
            assert_eq!(target.path(), "/only/path");
        }
        _ => panic!("a POST is forwarded"),
    }
}

#[test]
fn options_is_answered_without_the_upstream() {
    let c = config("http://localhost:9000/", None);
    match handler(&c, &inbound("OPTIONS", "/foo", Some("/foo"))) {
        Step::Respond(reply) => {
            assert_eq!(reply.status, 200);
            assert_eq!(reply.status, STATUS_OK);
            assert!(reply.body.is_empty());
            assert_eq!(reply.headers.get("access-control-allow-origin").unwrap(), "*");
            assert_eq!(
                reply.headers.get("access-control-request-method").unwrap(),
                "GET,POST,PUT,DELETE,OPTIONS,HEAD,PATCH"
            );
            assert_eq!(
                reply.headers.get("access-control-allow-headers").unwrap(),
                "Content-Type,Authorization"
            );
            assert_eq!(reply.headers.get("access-control-allow-credentials").unwrap(), "true");
            assert_eq!(reply.headers.len(), 4);
        }
        _ => panic!("a preflight is answered at once"),
    }
}

#[test]
fn options_is_answered_even_where_the_base_is_no_address() {
    let c = config("not an address", None);
    assert!(matches!(handler(&c, &inbound("OPTIONS", "/foo", Some("/foo"))), Step::Respond(_)));
}

#[test]
fn options_with_custom_allow_headers() {
    let c = config("http://up", Some("X-Custom"));
    match handler(&c, &inbound("OPTIONS", "/foo", Some("/foo"))) {
        Step::Respond(reply) => {
            assert_eq!(reply.headers.get("access-control-allow-headers").unwrap(), "X-Custom");
        }
        _ => panic!("a preflight is answered at once"),
    }
}

#[test]
fn options_with_invalid_allow_headers_is_rejected() {
    let c = config("http://up", Some("bad\nvalue"));
    match handler(&c, &inbound("OPTIONS", "/foo", Some("/foo"))) {
        Step::Reject(rejection) => {
            assert_eq!(rejection.status, 400);
            assert_eq!(rejection.message, "allow-headers is not a valid header value");
        }
        _ => panic!("headers that cannot be written are a failure"),
    }
}

#[test]
fn method_names_are_case_sensitive() {
    let c = config("http://up", None);
    assert!(matches!(handler(&c, &inbound("options", "/a", Some("/a"))), Step::Forward { .. }));
    assert!(matches!(handler(&c, &inbound("HEAD", "/a", Some("/a"))), Step::Forward { .. }));
}

#[test]
fn text_that_is_no_address_is_rejected() {
    let c = config("http://bad host", None);
    match handler(&c, &inbound("GET", "/a", Some("/a"))) {
        Step::Reject(rejection) => {
            assert_eq!(rejection.status, 400);
            assert_eq!(rejection.status, STATUS_BAD_REQUEST);
            assert!(!rejection.message.is_empty());
        }
        _ => panic!("a space cannot stand in an address"),
    }
}

#[test]
fn forward_step_keeps_the_parsed_address() {
    let uri = Uri::try_from("http://up/a?b=c".to_string());
    match forward_step("http://up/a?b=c".to_string(), uri) {
        Step::Forward { target, address } => {
            assert_eq!(target.to_string(), "http://up/a?b=c");
            assert_eq!(address, "http://up/a?b=c");
        }
        _ => panic!("a parsed address is forwarded to"),
    }
    let bad = Uri::try_from("http://a b".to_string());
    assert!(bad.is_err());
    match forward_step("http://a b".to_string(), bad) {
        Step::Reject(rejection) => {
            assert_eq!(rejection.status, 400);
            assert!(!rejection.message.is_empty());
        }
        _ => panic!("an unparsed address is rejected"),
    }
}

#[test]
fn preflight_step_for_each_annotation_result() {
    let mut headers = HeaderMap::new();
    headers.insert("x-kept", HeaderValue::from_static("1"));
    match preflight_step(headers, Ok(())) {
        Step::Respond(reply) => {
            assert_eq!(reply.status, 200);
            assert!(reply.body.is_empty());
            assert_eq!(reply.headers.get("x-kept").unwrap(), "1");
        }
        _ => panic!("an annotated preflight is answered"),
    }
    match preflight_step(HeaderMap::new(), Err(CorsError::Overflow { appended: 3 })) {
        Step::Reject(rejection) => {
            assert_eq!(rejection.status, 400);
            assert_eq!(rejection.message, "the response holds too many headers");
        }
        _ => panic!("a failed annotation is rejected"),
    }
}

#[test]
fn upstream_answer_is_annotated() {
    let c = config("http://up", Some("X-Custom"));
    let mut upstream = HeaderMap::new();
    upstream.insert("content-type", HeaderValue::from_static("application/json"));
    upstream.insert("access-control-allow-origin", HeaderValue::from_static("https://a.example"));
    match settle(&c, Outcome::Answered(upstream)) {
        Ok(headers) => {
            assert_eq!(headers.get("content-type").unwrap(), "application/json");
            assert_eq!(headers.get("access-control-allow-headers").unwrap(), "X-Custom");
            let origins: Vec<&HeaderValue> =
                headers.get_all("access-control-allow-origin").iter().collect();
            assert_eq!(origins.len(), 2);
            assert_eq!(origins[0], "https://a.example");
            assert_eq!(origins[1], "*");
            assert_eq!(headers.get("access-control-allow-credentials").unwrap(), "true");
            assert_eq!(
                headers.get("access-control-request-method").unwrap(),
                "GET,POST,PUT,DELETE,OPTIONS,HEAD,PATCH"
            );
            assert_eq!(headers.len(), 6);
        }
        Err(_) => panic!("an upstream answer is passed on"),
    }
}

#[test]
fn upstream_failure_is_a_bad_request_with_the_error_text() {
    let c = config("http://up", None);
    let text = "client error (Connect): tcp connect error: Connection refused (os error 111)";
    match settle(&c, Outcome::Failed(text.to_string())) {
        Err(rejection) => {
            assert_eq!(rejection.status, 400);
            assert_eq!(rejection.message, text);
            assert!(!rejection.message.is_empty());
        }
        Ok(_) => panic!("a transport failure is no answer"),
    }
}

#[test]
fn a_failure_does_not_affect_the_next_request() {
    let c = config("http://up", None);
    assert!(settle(&c, Outcome::Failed("connection refused".to_string())).is_err());
    let next = settle(&c, Outcome::Answered(HeaderMap::new()));
    assert_eq!(next.ok().map(|h| h.len()), Some(4));
    assert!(matches!(handler(&c, &inbound("GET", "/a", Some("/a"))), Step::Forward { .. }));
}

#[test]
fn upstream_answer_with_invalid_allow_headers_is_rejected() {
    let c = config("http://up", Some("\u{0}"));
    match settle(&c, Outcome::Answered(HeaderMap::new())) {
        Err(rejection) => assert_eq!(rejection.status, 400),
        Ok(_) => panic!("headers that cannot be written are a failure"),
    }
}

#[test]
fn upstream_answer_with_many_headers_is_annotated() {
    let c = config("http://up", None);
    let mut upstream = HeaderMap::new();
    for i in 0..1020 {
        let name = http::header::HeaderName::from_bytes(format!("x-up-{}", i).as_bytes()).unwrap();
        upstream.append(name, HeaderValue::from_static("v"));
    }
    match settle(&c, Outcome::Answered(upstream)) {
        Ok(headers) => {
            assert_eq!(headers.keys_len(), 1024);
            assert_eq!(headers.get("x-up-0").unwrap(), "v");
            assert_eq!(headers.get("access-control-allow-origin").unwrap(), "*");
        }
        Err(_) => panic!("a map with room is annotated"),
    }
}

#[test]
fn reject_is_always_a_bad_request() {
    let r = reject("anything".to_string());
    assert_eq!(r.status, 400);
    assert_eq!(r.message, "anything");
}
