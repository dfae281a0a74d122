use rust_http_server::response::{Response, ResponseType, NOT_FOUND_PAGE, SERVER_ERROR_PAGE};

fn split_at_blank_line(bytes: &[u8]) -> (Vec<u8>, Vec<u8>) {
    let mut i = 0;
    while i + 4 <= bytes.len() {
        if &bytes[i..i + 4] == b"\r\n\r\n" {
            return (bytes[..i].to_vec(), bytes[i + 4..].to_vec());
        }
        i += 1;
    }
    panic!("no blank line in response");
}

/// Ensures the response is a valid HTTP response
#[test]
fn test_response_structure() {
    let status_line = "HTTP/1.1 200 OK";
    let server_header = format!("Server: {}", "rust-http-server");
    let body = "This is the body";

    let test_response = Response::http_ok(body.to_string());

    let result = test_response.to_string();

    let return_newline = result.matches("\r\n").count();

    assert_eq!(4, return_newline);

    let split_response: Vec<&str> = result.split("\r\n").collect();

    assert_eq!(status_line, split_response[0]);
    assert_eq!(server_header, split_response[2]);
    assert_eq!(body, split_response[split_response.len() - 1]);
}

#[test]
fn file_response_bytes_follow_the_blank_line() {
    let file: Vec<u8> = vec![0, 13, 10, 13, 10, 255, 66];
    let bytes = Response::http_ok_file(file.clone()).to_bytes();
    let (head, body) = split_at_blank_line(&bytes);
    assert_eq!(body, file);
    let head = String::from_utf8(head).unwrap();
    let lines: Vec<&str> = head.split("\r\n").collect();
    assert_eq!(lines.len(), 3);
    assert_eq!(lines[0], "HTTP/1.1 200 OK");
    assert!(lines[1].starts_with("Date: "));
    assert_eq!(lines[2], "Server: rust-http-server");
}

#[test]
fn empty_file_response_ends_with_the_blank_line() {
    let bytes = Response::http_ok_file(Vec::new()).to_bytes();
    assert!(bytes.ends_with(b"\r\n\r\n"));
    let (_, body) = split_at_blank_line(&bytes);
    assert!(body.is_empty());
}

#[test]
fn not_found_serializes_with_404_and_its_page() {
    let text = Response::not_found().to_string();
    assert!(text.starts_with("HTTP/1.1 404 Not Found\r\n"));
    assert!(text.ends_with(NOT_FOUND_PAGE));
    assert!(text.contains("Page Not Found"));
    let (_, body) = split_at_blank_line(text.as_bytes());
    assert_eq!(body, NOT_FOUND_PAGE.as_bytes());
}

#[test]
fn server_error_serializes_with_500_and_its_page() {
    let text = Response::server_error().to_string();
    assert!(text.starts_with("HTTP/1.1 500 Internal Server Error\r\n"));
    assert!(text.ends_with(SERVER_ERROR_PAGE));
    assert!(text.contains("rust-http-server: Internal server error"));
    let bytes = Response::server_error().to_bytes();
    let (_, body) = split_at_blank_line(&bytes);
    assert_eq!(body, SERVER_ERROR_PAGE.as_bytes());
}

#[test]
fn status_codes_follow_the_kind() {
    assert_eq!(Response::http_ok(String::new()).code(), 200);
    assert_eq!(Response::not_found().code(), 404);
    assert_eq!(Response::server_error().code(), 500);
    let redirect = Response::new_file(Vec::new(), None, ResponseType::Redirection);
    assert_eq!(redirect.code(), 300);
    assert_eq!(ResponseType::Redirection.reason(), "Redirection");
    assert_eq!(ResponseType::HTTPOk.reason(), "OK");
}

#[test]
fn version_and_server_name() {
    let r = Response::http_ok(String::from("x"));
    assert_eq!(r.http_version(), "HTTP/1.1");
    assert_eq!(r.server(), "rust-http-server");
}

#[test]
fn added_headers_follow_the_defaults() {
    let mut r = Response::http_ok(String::from("hello"));
    r.add_response_headers("Content-Type: text/plain");
    let text = r.to_string();
    let lines: Vec<&str> = text.split("\r\n").collect();
    assert_eq!(lines[3], "Content-Type: text/plain");
    assert_eq!(lines[4], "");
    assert_eq!(lines[5], "hello");
}

#[test]
fn given_headers_are_kept_in_order() {
    let r = Response::new_file(
        vec![1, 2],
        Some(vec![String::from("A: 1"), String::from("B: 2")]),
        ResponseType::HTTPOk,
    );
    assert_eq!(r.to_bytes(), b"A: 1\r\nB: 2\r\n\r\n\x01\x02".to_vec());
}

#[test]
fn text_body_bytes_are_its_utf8() {
    let r = Response::http_ok(String::from("héllo"));
    let bytes = r.to_bytes();
    let (_, body) = split_at_blank_line(&bytes);
    assert_eq!(body, "héllo".as_bytes());
}

#[test]
fn date_header_is_one_line() {
    let text = Response::http_ok(String::new()).to_string();
    let lines: Vec<&str> = text.split("\r\n").collect();
    assert!(lines[1].starts_with("Date: "));
    assert!(lines[1].len() > "Date: ".len());
    assert!(!lines[1].contains('\n'));
}

#[test]
fn dated_responses_carry_the_given_date() {
    let date = "Tue, 1 Jul 2003 10:52:37 +0200";
    let text = Response::http_ok_at(String::from("x"), Some(date)).to_string();
    assert_eq!(
        text,
        "HTTP/1.1 200 OK\r\nDate: Tue, 1 Jul 2003 10:52:37 +0200\r\nServer: rust-http-server\r\n\r\nx"
    );
    let bytes = Response::http_ok_file_at(vec![7, 8], Some(date)).to_bytes();
    let mut expected =
        b"HTTP/1.1 200 OK\r\nDate: Tue, 1 Jul 2003 10:52:37 +0200\r\nServer: rust-http-server\r\n\r\n"
            .to_vec();
    expected.extend_from_slice(&[7, 8]);
    assert_eq!(bytes, expected);
    let missing = Response::not_found_at(Some(date)).to_string();
    assert!(missing.starts_with("HTTP/1.1 404 Not Found\r\nDate: Tue, 1 Jul 2003 10:52:37 +0200\r\n"));
    let failed = Response::server_error_at(None).to_string();
    assert_eq!(
        failed,
        format!("HTTP/1.1 500 Internal Server Error\r\nServer: rust-http-server\r\n\r\n{}", SERVER_ERROR_PAGE)
    );
}

#[test]
fn clock_date_is_rfc_2822_in_utc() {
    let text = Response::http_ok(String::new()).to_string();
    let date = text.split("\r\n").nth(1).unwrap();
    assert!(date.starts_with("Date: "));
    assert!(date.ends_with(" +0000"));
    assert_eq!(date.matches(':').count(), 3);
}
