use rust_http_server::request::{parse, Request, RequestKind};

#[test]
fn parses_request_line_and_third_line_host() {
    let text = "GET /static/index.html HTTP/1.1\r\nHost: example\r\nUser-Agent: probe\r\n\r\n";
    let (verb, path, version, host) = parse(text).unwrap();
    assert_eq!(verb, "GET");
    assert_eq!(path, "/static/index.html");
    assert_eq!(version, "HTTP/1.1\r");
    assert_eq!(host, "probe\r");
}

#[test]
fn request_from_keeps_the_text() {
    let text = String::from("POST /form HTTP/1.1\nHost: a\nX: b\n\nbody=1");
    let request = Request::from(text.clone()).unwrap();
    assert_eq!(request.kind, RequestKind::Post);
    assert_eq!(request.path, "/form");
    assert_eq!(request.host, "b");
    assert_eq!(request.data, text);
}

#[test]
fn each_verb_is_recognised() {
    for (verb, kind) in [
        ("GET", RequestKind::Get),
        ("POST", RequestKind::Post),
        ("HEAD", RequestKind::Head),
        ("PUT", RequestKind::Put),
        ("DELETE", RequestKind::Delete),
        ("OPTIONS", RequestKind::Options),
    ] {
        assert_eq!(RequestKind::from(verb), Some(kind));
        assert_eq!(kind.name(), verb);
    }
    assert_eq!(RequestKind::from("get"), None);
    assert_eq!(RequestKind::from("PATCH"), None);
    assert_eq!(RequestKind::from(""), None);
}

#[test]
fn unknown_method_is_refused() {
    let text = String::from("BREW /pot HTTP/1.1\nHost: a\nX: b\n");
    assert!(Request::from(text).is_none());
}

#[test]
fn missing_lines_are_refused() {
    assert!(parse("GET / HTTP/1.1").is_none());
    assert!(parse("GET / HTTP/1.1\nHost: a").is_none());
    assert!(Request::from(String::from("GET / HTTP/1.1\r\nHost: a\r\n\r\n")).is_none());
    assert!(Request::from(String::new()).is_none());
}

#[test]
fn missing_tokens_are_refused() {
    assert!(parse("GET /\nHost: a\nX: b").is_none());
    assert!(parse("GET / HTTP/1.1\nHost: a\nnospace").is_none());
}

#[test]
fn empty_tokens_count() {
    let (verb, path, version, host) = parse("GET  HTTP/1.1\n\n a").unwrap();
    assert_eq!(verb, "GET");
    assert_eq!(path, "");
    assert_eq!(version, "HTTP/1.1");
    assert_eq!(host, "a");
}
