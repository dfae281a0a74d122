use rust_http_server::routing::{Router, WalkEntry};
use rust_http_server::server::{
    Action, Connection, Event, InternalServerError, Phase, ServerError, Transport,
};

const INDEX: &[u8] = b"<html><body>index</body></html>";
const DATE: &str = "Sun, 18 Oct 2026 10:00:00 +0000";

fn static_router() -> Router {
    let entries = vec![WalkEntry {
        components: vec![String::from("index.html")],
        path: String::from("/srv/static/index.html"),
        is_file: true,
    }];
    Router::from("static", &entries)
}

fn request_bytes(path: &str) -> Vec<u8> {
    format!("GET {} HTTP/1.1\r\nhost: 127.0.0.1:9999\r\naccept: */*\r\n\r\n", path).into_bytes()
}

fn body_of(bytes: &[u8]) -> Vec<u8> {
    let mut i = 0;
    while i + 4 <= bytes.len() {
        if &bytes[i..i + 4] == b"\r\n\r\n" {
            return bytes[i + 4..].to_vec();
        }
        i += 1;
    }
    panic!("no blank line in response");
}

fn written(action: Action) -> Vec<u8> {
    match action {
        Action::Write(bytes) => bytes,
        _ => panic!("expected a write"),
    }
}

/// Runs a connection up to its write, answering a file load with `file` and
/// an application call with `reply`; returns the bytes written.
fn exchange(
    transport: Transport,
    router: &Router,
    request: Vec<u8>,
    file: Option<Option<Vec<u8>>>,
    reply: Option<Result<String, InternalServerError>>,
) -> Vec<u8> {
    let has_application = reply.is_some();
    let (mut conn, action) = Connection::start(transport);
    assert!(matches!(action, Action::Read));
    assert_eq!(conn.phase(), Phase::Reading);
    let mut event = Event::Read(Some(request));
    let mut reply = reply;
    let mut file = file;
    loop {
        assert!(conn.accepts(&event));
        let (next, action) = conn.step(event, router, has_application, Some(DATE));
        conn = next;
        event = match action {
            Action::CloseRead => {
                assert_eq!(conn.phase(), Phase::Parsed);
                Event::ReadClosed(true)
            }
            Action::LoadFile(path) => {
                assert_eq!(path, "/srv/static/index.html");
                Event::FileLoaded(file.take().unwrap())
            }
            Action::CallApplication(_) => Event::ApplicationReplied(reply.take().unwrap()),
            Action::Write(bytes) => {
                assert_eq!(conn.phase(), Phase::Responding);
                let (closing, action) = conn.step(Event::Written(true), router, has_application, Some(DATE));
                assert!(matches!(action, Action::CloseWrite));
                assert_eq!(closing.phase(), Phase::Closed);
                let (_, action) = closing.step(Event::WriteClosed(true), router, has_application, Some(DATE));
                assert!(matches!(action, Action::Finish(Ok(()))));
                return bytes;
            }
            _ => panic!("unexpected action"),
        };
    }
}

#[test]
fn static_file_is_served_with_200() {
    let router = static_router();
    let bytes = exchange(
        Transport::Plain,
        &router,
        request_bytes("/static/index.html"),
        Some(Some(INDEX.to_vec())),
        None,
    );
    assert!(bytes.starts_with(b"HTTP/1.1 200 OK\r\n"));
    assert_eq!(body_of(&bytes), INDEX);
    let head = format!("HTTP/1.1 200 OK\r\nDate: {}\r\nServer: rust-http-server\r\n\r\n", DATE);
    assert_eq!(bytes, [head.as_bytes(), INDEX].concat());
}

#[test]
fn unrouted_path_without_application_is_404() {
    let router = static_router();
    let bytes = exchange(Transport::Plain, &router, request_bytes("/index"), None, None);
    assert!(bytes.starts_with(b"HTTP/1.1 404 Not Found\r\n"));
}

#[test]
fn failing_application_gives_500() {
    let router = static_router();
    let failure = Err(InternalServerError(String::from("Error calling python application.")));
    let bytes = exchange(Transport::Plain, &router, request_bytes("/"), None, Some(failure));
    assert!(bytes.starts_with(b"HTTP/1.1 500 Internal Server Error\r\n"));
}

#[test]
fn application_reply_is_written_verbatim() {
    let router = static_router();
    let reply = String::from("HTTP/1.1 200 OK\r\n\r\nHello, World!");
    let bytes = exchange(Transport::Plain, &router, request_bytes("/"), None, Some(Ok(reply.clone())));
    assert_eq!(bytes, reply.into_bytes());
}

#[test]
fn static_routes_win_over_the_application() {
    let router = static_router();
    let bytes = exchange(
        Transport::Plain,
        &router,
        request_bytes("/static/index.html"),
        Some(Some(INDEX.to_vec())),
        Some(Ok(String::from("unused"))),
    );
    assert_eq!(body_of(&bytes), INDEX);
}

#[test]
fn tls_serves_the_same_static_body() {
    let router = static_router();
    let plain = exchange(
        Transport::Plain,
        &router,
        request_bytes("/static/index.html"),
        Some(Some(INDEX.to_vec())),
        None,
    );
    let tls = exchange(
        Transport::Tls,
        &router,
        request_bytes("/static/index.html"),
        Some(Some(INDEX.to_vec())),
        None,
    );
    assert!(tls.starts_with(b"HTTP/1.1 200 OK\r\n"));
    assert_eq!(body_of(&tls), body_of(&plain));
}

#[test]
fn tls_skips_the_read_close() {
    let router = static_router();
    let (conn, _) = Connection::start(Transport::Tls);
    let (conn, action) = conn.step(Event::Read(Some(request_bytes("/nowhere"))), &router, false, Some(DATE));
    assert_eq!(conn.phase(), Phase::Responding);
    assert!(body_of(&written(action)).starts_with(b"<!doctype html>"));
}

#[test]
fn unreadable_file_gives_500() {
    let router = static_router();
    let bytes = exchange(
        Transport::Plain,
        &router,
        request_bytes("/static/index.html"),
        Some(None),
        None,
    );
    assert!(bytes.starts_with(b"HTTP/1.1 500 Internal Server Error\r\n"));
}

#[test]
fn empty_or_failed_read_ends_without_response() {
    let router = static_router();
    let (conn, _) = Connection::start(Transport::Plain);
    let (conn, action) = conn.step(Event::Read(Some(Vec::new())), &router, false, Some(DATE));
    assert!(matches!(action, Action::Finish(Err(ServerError::ClientClosedConnection))));
    assert_eq!(conn.phase(), Phase::Closed);
    assert!(!conn.accepts(&Event::Written(true)));
    let (conn, _) = Connection::start(Transport::Plain);
    let (_, action) = conn.step(Event::Read(None), &router, false, Some(DATE));
    assert!(matches!(action, Action::Finish(Err(ServerError::ClientClosedConnection))));
}

#[test]
fn failed_read_close_ends_without_response() {
    let router = static_router();
    let (conn, _) = Connection::start(Transport::Plain);
    let (conn, action) = conn.step(Event::Read(Some(request_bytes("/"))), &router, false, Some(DATE));
    assert!(matches!(action, Action::CloseRead));
    let (_, action) = conn.step(Event::ReadClosed(false), &router, false, Some(DATE));
    assert!(matches!(action, Action::Finish(Err(ServerError::ClientClosedConnection))));
}

#[test]
fn unparsable_requests_get_500() {
    let router = static_router();
    for request in [
        b"BREW /pot HTTP/1.1\r\nhost: a\r\naccept: b\r\n\r\n".to_vec(),
        b"GET / HTTP/1.1\r\n\r\n".to_vec(),
        vec![0xff, 0xfe, 0x20, 0x0a],
    ] {
        let (conn, _) = Connection::start(Transport::Plain);
        let (conn, action) = conn.step(Event::Read(Some(request)), &router, true, Some(DATE));
        assert_eq!(conn.phase(), Phase::Responding);
        assert!(written(action).starts_with(b"HTTP/1.1 500 Internal Server Error\r\n"));
    }
}

#[test]
fn failed_write_still_closes() {
    let router = static_router();
    let (conn, _) = Connection::start(Transport::Plain);
    let (conn, _) = conn.step(Event::Read(Some(request_bytes("/x"))), &router, false, Some(DATE));
    let (conn, _) = conn.step(Event::ReadClosed(true), &router, false, Some(DATE));
    let (conn, action) = conn.step(Event::Written(false), &router, false, Some(DATE));
    assert!(matches!(action, Action::CloseWrite));
    let (_, action) = conn.step(Event::WriteClosed(false), &router, false, Some(DATE));
    assert!(matches!(action, Action::Finish(Ok(()))));
}

#[test]
fn responses_without_a_date_have_no_date_header() {
    let router = static_router();
    let (conn, _) = Connection::start(Transport::Tls);
    let (_, action) = conn.step(Event::Read(Some(request_bytes("/none"))), &router, false, None);
    let bytes = written(action);
    assert!(bytes.starts_with(b"HTTP/1.1 404 Not Found\r\nServer: rust-http-server\r\n\r\n"));
}
