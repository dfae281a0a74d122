//! Outbound HTTP responses and their serialisation.

use vstd::prelude::*;
use vstd::string::*;
use vstd::utf8::*;

verus! {

/// The status of a response.
#[derive(Clone, Copy, Debug, PartialEq, Eq, Structural)]
pub enum ResponseType {
    NotFound,
    HTTPOk,
    Redirection,
    ServerError,
}

/// The page sent with a 404 response.
pub const NOT_FOUND_PAGE: &'static str = r#"<!doctype html>
<html lang="en">
<head>
    <meta charset="utf-8">
    <title>Page Not Found</title>
    <meta name="viewport" content="width=device-width, initial-scale=1">
    <style>
        * {
            line-height: 1.2;
            margin: 0;
        }
        html {
            color: #888;
            display: table;
            font-family: sans-serif;
            height: 100%;
            text-align: center;
            width: 100%;
        }
        body {
            display: table-cell;
            vertical-align: middle;
            margin: 2em auto;
        }
        h1 {
            color: #555;
            font-size: 2em;
            font-weight: 400;
        }
        p {
            margin: 0 auto;
            width: 280px;
        }
        @media only screen and (max-width: 280px) {
            body, p {
                width: 95%;
            }
            h1 {
                font-size: 1.5em;
                margin: 0 0 0.3em;
            }
        }
    </style>
</head>
<body>
    <h1>Page Not Found</h1>
    <p>Sorry, but the page you were trying to view does not exist.</p>
</body>
</html>
<!-- IE needs 512+ bytes: https://blogs.msdn.microsoft.com/ieinternals/2010/08/18/friendly-http-error-pages/ -->"#;

/// The page sent with a 500 response.
pub const SERVER_ERROR_PAGE: &'static str = "<html><body><h1>rust-http-server: Internal server error</h1></body></html>";

/// The numeric status code of each kind of response.
pub open spec fn status_code(kind: ResponseType) -> u16 {
    match kind {
        ResponseType::HTTPOk => 200,
        ResponseType::Redirection => 300,
        ResponseType::NotFound => 404,
        ResponseType::ServerError => 500,
    }
}

/// A decimal digit.
pub open spec fn digit_char(d: nat) -> char {
    if d == 0 { '0' }
    else if d == 1 { '1' }
    else if d == 2 { '2' }
    else if d == 3 { '3' }
    else if d == 4 { '4' }
    else if d == 5 { '5' }
    else if d == 6 { '6' }
    else if d == 7 { '7' }
    else if d == 8 { '8' }
    else { '9' }
}

/// The decimal notation of a natural number, without leading zeros.
pub open spec fn decimal(n: nat) -> Seq<char>
    decreases n,
{
    if n < 10 {
        seq![digit_char(n)]
    } else {
        decimal(n / 10) + seq![digit_char(n % 10)]
    }
}

/// The reason phrase that follows the status code.
pub open spec fn reason_phrase(kind: ResponseType) -> Seq<char> {
    match kind {
        ResponseType::HTTPOk => "OK"@,
        ResponseType::Redirection => "Redirection"@,
        ResponseType::NotFound => "Not Found"@,
        ResponseType::ServerError => "Internal Server Error"@,
    }
}

/// The protocol version that every response announces.
pub open spec fn http_version_text() -> Seq<char> {
    "HTTP/1.1"@
}

/// The product name sent in the `Server` header.
pub open spec fn server_name() -> Seq<char> {
    "rust-http-server"@
}

/// `<version> <code> <reason>`.
pub open spec fn status_line(kind: ResponseType) -> Seq<char> {
    http_version_text() + " "@ + decimal(status_code(kind) as nat) + " "@ + reason_phrase(kind)
}

/// The `Server` header line.
pub open spec fn server_header() -> Seq<char> {
    "Server: "@ + server_name()
}

/// Printable text on one line: ASCII, without carriage return or line feed.
pub open spec fn is_single_line(s: Seq<char>) -> bool {
    &&& is_ascii_chars(s)
    &&& forall|i: int| 0 <= i < s.len() ==> s[i] != '\r' && s[i] != '\n'
}

/// Date text for a `Date` header: one line, when there is a date at all.
pub open spec fn is_date_text(date: Option<Seq<char>>) -> bool {
    match date {
        Some(d) => is_single_line(d),
        None => true,
    }
}

/// The headers that every response starts with: the status line, the
/// `Date` header when the time of sending is known, and the `Server` header.
pub open spec fn default_header_lines(kind: ResponseType, date: Option<Seq<char>>) -> Seq<Seq<char>> {
    match date {
        Some(d) => seq![status_line(kind), "Date: "@ + d, server_header()],
        None => seq![status_line(kind), server_header()],
    }
}

/// The headers are the default ones for some date text.
pub open spec fn has_default_headers(headers: Seq<Seq<char>>, kind: ResponseType) -> bool {
    exists|date: Option<Seq<char>>|
        is_date_text(date) && headers == #[trigger] default_header_lines(kind, date)
}

/// Carriage return and line feed.
pub open spec fn crlf() -> Seq<char> {
    seq!['\r', '\n']
}

/// The lines joined, with `sep` between each two.
pub open spec fn joined(lines: Seq<Seq<char>>, sep: Seq<char>) -> Seq<char>
    decreases lines.len(),
{
    if lines.len() == 0 {
        Seq::empty()
    } else if lines.len() == 1 {
        lines[0]
    } else {
        joined(lines.drop_last(), sep) + sep + lines.last()
    }
}

/// The header lines joined by CRLF and closed by a blank line.
pub open spec fn header_block(headers: Seq<Seq<char>>) -> Seq<char> {
    joined(headers, crlf()) + crlf() + crlf()
}

/// The 200 response carrying `file`, sent at `date`.
pub open spec fn file_response(file: Seq<u8>, date: Option<Seq<char>>) -> ResponseModel {
    ResponseModel {
        kind: ResponseType::HTTPOk,
        headers: default_header_lines(ResponseType::HTTPOk, date),
        body: None,
        file: Some(file),
    }
}

/// The response of status `kind` carrying the text `body`, sent at `date`.
pub open spec fn text_response(kind: ResponseType, body: Seq<char>, date: Option<Seq<char>>) -> ResponseModel {
    ResponseModel {
        kind,
        headers: default_header_lines(kind, date),
        body: Some(body),
        file: None,
    }
}

/// What `http_ok_file` returns for `file`: the 200 response carrying it,
/// sent at the time read from the clock.
pub open spec fn is_ok_file_response(r: ResponseModel, file: Seq<u8>) -> bool {
    exists|date: Option<Seq<char>>| is_date_text(date) && r == #[trigger] file_response(file, date)
}

/// A response of status `kind` whose text body is `body`, sent at the time
/// read from the clock.
pub open spec fn is_text_response(r: ResponseModel, kind: ResponseType, body: Seq<char>) -> bool {
    exists|date: Option<Seq<char>>| is_date_text(date) && r == #[trigger] text_response(kind, body, date)
}

/// The view of an optional date text.
pub open spec fn date_view(date: Option<&str>) -> Option<Seq<char>> {
    match date {
        Some(d) => Some(d@),
        None => None,
    }
}

/// The blank line that closes a header block, as bytes.
pub open spec fn blank_line_bytes() -> Seq<u8> {
    seq![13u8, 10u8, 13u8, 10u8]
}

/// A blank-line delimiter of `b` ends at position `k`.
pub open spec fn delimiter_ends_at(b: Seq<u8>, k: int) -> bool {
    &&& 4 <= k <= b.len()
    &&& b.subrange(k - 4, k) == blank_line_bytes()
}

/// The first blank-line delimiter of `b` ends at position `k`: what follows
/// is the body that a reader of `b` finds.
pub open spec fn first_delimiter_end(b: Seq<u8>, k: int) -> bool {
    &&& delimiter_ends_at(b, k)
    &&& forall|j: int| 4 <= j < k ==> !delimiter_ends_at(b, j)
}

/// What a response holds, as mathematical values.
pub struct ResponseModel {
    pub kind: ResponseType,
    pub headers: Seq<Seq<char>>,
    pub body: Option<Seq<char>>,
    pub file: Option<Seq<u8>>,
}

impl ResponseModel {
    /// Exactly one of the text body and the binary body is present.
    pub open spec fn wf(self) -> bool {
        self.body.is_some() != self.file.is_some()
    }

    /// The bytes of the body: the binary body, or the UTF-8 encoding of the
    /// text body.
    pub open spec fn body_bytes(self) -> Seq<u8> {
        match self.file {
            Some(f) => f,
            None => match self.body {
                Some(b) => encode_utf8(b),
                None => Seq::empty(),
            },
        }
    }

    /// The response on the wire: the header block, then the body bytes.
    pub open spec fn serialized_bytes(self) -> Seq<u8> {
        encode_utf8(header_block(self.headers)) + self.body_bytes()
    }

    /// The response as text: the header block, then the text body.
    pub open spec fn serialized_text(self) -> Seq<char> {
        header_block(self.headers) + self.body.unwrap()
    }
}

/// An HTTP response: a status, header lines, and either a text body or a
/// binary body.
pub struct Response {
    kind: ResponseType,
    headers: Vec<String>,
    body: Option<String>,
    file: Option<Vec<u8>>,
}

impl View for Response {
    type V = ResponseModel;

    closed spec fn view(&self) -> ResponseModel {
        ResponseModel {
            kind: self.kind,
            headers: self.headers@.map_values(|h: String| h@),
            body: match self.body {
                Some(b) => Some(b@),
                None => None,
            },
            file: match self.file {
                Some(f) => Some(f@),
                None => None,
            },
        }
    }
}

/// The header lines of an optional list, none when it is absent.
pub open spec fn header_lines(headers: Option<Vec<String>>) -> Seq<Seq<char>> {
    match headers {
        Some(h) => h@.map_values(|s: String| s@),
        None => Seq::empty(),
    }
}

/// Relies on `SystemTime::now`, chrono's `DateTime::from_timestamp` and
/// chrono's RFC 2822 writer (`format_with_items` with `Fixed::RFC2822`, then
/// `DelayedFormat::write_to`): the current time in UTC as RFC 2822 text,
/// which that writer makes of day and month names, digits, spaces, commas,
/// colons and an offset sign only. None when the clock reads before 1970 or
/// the year cannot be written in RFC 2822. None of these calls panics.
#[verifier::external_body]
fn current_date_rfc2822() -> (r: Option<String>)
    ensures
        is_date_text(opt_text(r)),
{
    let since = std::time::SystemTime::now().duration_since(std::time::UNIX_EPOCH).ok()?;
    let now = chrono::DateTime::from_timestamp(since.as_secs() as i64, since.subsec_nanos())?;
    let items = [chrono::format::Item::Fixed(chrono::format::Fixed::RFC2822)];
    let mut text = String::new();
    match now.format_with_items(items.iter()).write_to(&mut text) {
        Ok(()) => Some(text),
        Err(_) => None,
    }
}

/// The view of an optional string.
pub open spec fn opt_text(s: Option<String>) -> Option<Seq<char>> {
    match s {
        Some(t) => Some(t@),
        None => None,
    }
}

proof fn lemma_single_line_concat(a: Seq<char>, b: Seq<char>)
    requires
        is_single_line(a),
        is_single_line(b),
    ensures
        is_single_line(a + b),
{
    assert(forall|i: int| 0 <= i < (a + b).len() ==> '\0' <= #[trigger] (a + b)[i] <= '\u{7f}'
        && (a + b)[i] != '\r' && (a + b)[i] != '\n');
}

proof fn lemma_decimal_single_line(n: nat)
    ensures
        is_single_line(decimal(n)),
        decimal(n).len() >= 1,
    decreases n,
{
    let d = seq![digit_char(n % 10)];
    if n >= 10 {
        lemma_decimal_single_line(n / 10);
        lemma_single_line_concat(decimal(n / 10), d);
    }
}

proof fn lemma_status_line_single_line(kind: ResponseType)
    ensures
        is_single_line(status_line(kind)),
        status_line(kind).len() >= 1,
{
    reveal_strlit("HTTP/1.1");
    reveal_strlit(" ");
    reveal_strlit("OK");
    reveal_strlit("Redirection");
    reveal_strlit("Not Found");
    reveal_strlit("Internal Server Error");
    lemma_decimal_single_line(status_code(kind) as nat);
    lemma_single_line_concat("HTTP/1.1"@, " "@);
    lemma_single_line_concat("HTTP/1.1"@ + " "@, decimal(status_code(kind) as nat));
    lemma_single_line_concat("HTTP/1.1"@ + " "@ + decimal(status_code(kind) as nat), " "@);
    lemma_single_line_concat(
        "HTTP/1.1"@ + " "@ + decimal(status_code(kind) as nat) + " "@,
        reason_phrase(kind),
    );
}

proof fn lemma_default_headers_single_line(kind: ResponseType, date: Option<Seq<char>>)
    requires
        is_date_text(date),
    ensures
        forall|i: int|
            0 <= i < default_header_lines(kind, date).len() ==> is_single_line(
                #[trigger] default_header_lines(kind, date)[i],
            ) && default_header_lines(kind, date)[i].len() >= 1,
{
    lemma_status_line_single_line(kind);
    reveal_strlit("Date: ");
    reveal_strlit("Server: ");
    reveal_strlit("rust-http-server");
    if let Some(d) = date {
        lemma_single_line_concat("Date: "@, d);
    }
    lemma_single_line_concat("Server: "@, "rust-http-server"@);
}

/// The header block of two lines that hold no line break: the carriage
/// returns in it are those of its three separators.
proof fn lemma_two_line_block(h: Seq<Seq<char>>)
    requires
        h.len() == 2,
        forall|i: int| 0 <= i < 2 ==> is_single_line(#[trigger] h[i]) && h[i].len() >= 1,
    ensures
        header_block(h) == h[0] + crlf() + h[1] + crlf() + crlf(),
        is_ascii_chars(header_block(h)),
        forall|i: int|
            0 <= i < header_block(h).len() && #[trigger] header_block(h)[i] == '\r' ==> i
                == h[0].len() || i == h[0].len() + 2 + h[1].len() || i == h[0].len() + 2
                + h[1].len() + 2,
{
    reveal_with_fuel(joined, 2);
    let t = header_block(h);
    let sep_a = h[0].len() as int;
    let sep_b = sep_a + 2 + h[1].len();
    assert(forall|i: int| 0 <= i < t.len() ==> '\0' <= #[trigger] t[i] <= '\u{7f}' && (t[i]
        == '\r' ==> i == sep_a || i == sep_b || i == sep_b + 2));
}

/// The header block of three lines that hold no line break: the carriage
/// returns in it are those of its four separators.
proof fn lemma_three_line_block(h: Seq<Seq<char>>)
    requires
        h.len() == 3,
        forall|i: int| 0 <= i < 3 ==> is_single_line(#[trigger] h[i]) && h[i].len() >= 1,
    ensures
        header_block(h) == h[0] + crlf() + h[1] + crlf() + h[2] + crlf() + crlf(),
        is_ascii_chars(header_block(h)),
        forall|i: int|
            0 <= i < header_block(h).len() && #[trigger] header_block(h)[i] == '\r' ==> i
                == h[0].len() || i == h[0].len() + 2 + h[1].len() || i == h[0].len() + 2
                + h[1].len() + 2 + h[2].len() || i == h[0].len() + 2 + h[1].len() + 2 + h[2].len()
                + 2,
{
    reveal_with_fuel(joined, 3);
    let t = header_block(h);
    let a = h[0];
    let b = h[1];
    let c = h[2];
    let sep_a = a.len() as int;
    let sep_b = sep_a + 2 + b.len();
    let sep_c = sep_b + 2 + c.len();
    assert(forall|i: int| 0 <= i < t.len() ==> '\0' <= #[trigger] t[i] <= '\u{7f}' && (t[i]
        == '\r' ==> i == sep_a || i == sep_b || i == sep_c || i == sep_c + 2));
}

/// A response that starts with the default headers, written out as bytes,
/// carries exactly its body's bytes after its first blank line.
proof fn lemma_body_after_first_blank_line(r: ResponseModel, kind: ResponseType)
    requires
        has_default_headers(r.headers, kind),
    ensures
        ({
            let b = r.serialized_bytes();
            let k = b.len() - r.body_bytes().len();
            first_delimiter_end(b, k) && b.subrange(k, b.len() as int) == r.body_bytes()
        }),
        header_block(r.headers).len() >= r.headers[0].len() + 2,
        header_block(r.headers).take(r.headers[0].len() as int + 2) == r.headers[0] + crlf(),
{
    let h = r.headers;
    let date = choose|date: Option<Seq<char>>|
        is_date_text(date) && h == #[trigger] default_header_lines(kind, date);
    lemma_default_headers_single_line(kind, date);
    if date is Some {
        lemma_three_line_block(h);
    } else {
        lemma_two_line_block(h);
    }
    let t = header_block(h);
    is_ascii_chars_encode_utf8(t);
    let b = r.serialized_bytes();
    let k = t.len() as int;
    assert(b.len() - r.body_bytes().len() == k);
    assert(b.subrange(k, b.len() as int) =~= r.body_bytes());
    assert(forall|i: int| 0 <= i < k ==> #[trigger] b[i] == t[i] as u8);
    assert(b.subrange(k - 4, k) =~= blank_line_bytes());
    assert(forall|j: int| 4 <= j < k ==> !delimiter_ends_at(b, j));
    assert(t.take(h[0].len() as int + 2) =~= h[0] + crlf());
}

/// A 200 response built from a file, written out as bytes, carries exactly
/// the file's bytes after the first blank line that closes its headers.
pub proof fn lemma_file_body_after_blank_line(r: ResponseModel, file: Seq<u8>)
    requires
        is_ok_file_response(r, file),
    ensures
        ({
            let b = r.serialized_bytes();
            let k = b.len() - file.len();
            first_delimiter_end(b, k) && b.subrange(k, b.len() as int) == file
        }),
{
    let date = choose|date: Option<Seq<char>>| is_date_text(date) && r == #[trigger] file_response(file, date);
    assert(has_default_headers(r.headers, ResponseType::HTTPOk));
    lemma_body_after_first_blank_line(r, ResponseType::HTTPOk);
}

/// The built-in 404 and 500 responses start with their status line,
/// `HTTP/1.1 404 Not Found` or `HTTP/1.1 500 Internal Server Error`, and,
/// written out as bytes, carry exactly their built-in page after the first
/// blank line.
pub proof fn lemma_error_responses(r: ResponseModel)
    requires
        is_text_response(r, ResponseType::NotFound, NOT_FOUND_PAGE@) || is_text_response(
            r,
            ResponseType::ServerError,
            SERVER_ERROR_PAGE@,
        ),
    ensures
        r.kind == ResponseType::NotFound ==> r.headers[0] == "HTTP/1.1 404 Not Found"@
            && r.body == Some(NOT_FOUND_PAGE@),
        r.kind == ResponseType::ServerError ==> r.headers[0] == "HTTP/1.1 500 Internal Server Error"@
            && r.body == Some(SERVER_ERROR_PAGE@),
        r.serialized_text().take(r.headers[0].len() as int + 2) == r.headers[0] + crlf(),
        ({
            let b = r.serialized_bytes();
            let page = encode_utf8(r.body.unwrap());
            let k = b.len() - page.len();
            first_delimiter_end(b, k) && b.subrange(k, b.len() as int) == page
        }),
{
    let kind = r.kind;
    let page = r.body.unwrap();
    let date = choose|date: Option<Seq<char>>| is_date_text(date) && r == #[trigger] text_response(kind, page, date);
    assert(has_default_headers(r.headers, kind));
    lemma_body_after_first_blank_line(r, kind);
    assert(r.serialized_text().take(r.headers[0].len() as int + 2) =~= header_block(r.headers).take(r.headers[0].len() as int + 2));
    reveal_strlit("HTTP/1.1");
    reveal_strlit(" ");
    reveal_strlit("Not Found");
    reveal_strlit("Internal Server Error");
    reveal_strlit("HTTP/1.1 404 Not Found");
    reveal_strlit("HTTP/1.1 500 Internal Server Error");
    reveal_with_fuel(decimal, 3);
    if kind == ResponseType::NotFound {
        assert(status_line(kind) =~= "HTTP/1.1 404 Not Found"@);
    } else {
        assert(status_line(kind) =~= "HTTP/1.1 500 Internal Server Error"@);
    }
}

/// Appends the bytes of `src` to `dst`.
fn append_bytes(dst: &mut Vec<u8>, src: &Vec<u8>)
    ensures
        final(dst)@ == old(dst)@ + src@,
{
    let n = src.len();
    let mut i: usize = 0;
    while i < n
        invariant
            n == src@.len(),
            i <= n,
            dst@ == old(dst)@ + src@.take(i as int),
        decreases n - i,
    {
        dst.push(src[i]);
        i = i + 1;
    }
}

impl ResponseType {
    /// The reason phrase of this status.
    pub fn reason(&self) -> (r: &'static str)
        ensures
            r@ == reason_phrase(*self),
    {
        match self {
            ResponseType::HTTPOk => "OK",
            ResponseType::Redirection => "Redirection",
            ResponseType::NotFound => "Not Found",
            ResponseType::ServerError => "Internal Server Error",
        }
    }


    /// The status code, written in decimal.
    fn code_text(&self) -> (r: &'static str)
        ensures
            r@ == decimal(status_code(*self) as nat),
    {
        match self {
            ResponseType::HTTPOk => {
                proof {
                    reveal_strlit("200");
                    reveal_with_fuel(decimal, 3);
                }
                "200"
            },
            ResponseType::Redirection => {
                proof {
                    reveal_strlit("300");
                    reveal_with_fuel(decimal, 3);
                }
                "300"
            },
            ResponseType::NotFound => {
                proof {
                    reveal_strlit("404");
                    reveal_with_fuel(decimal, 3);
                }
                "404"
            },
            ResponseType::ServerError => {
                proof {
                    reveal_strlit("500");
                    reveal_with_fuel(decimal, 3);
                }
                "500"
            },
        }
    }
}

impl Response {
    /// Creates a response whose body is text.
    fn new_text(body: String, headers: Option<Vec<String>>, kind: ResponseType) -> (r: Response)
        ensures
            r@ == (ResponseModel {
                kind,
                headers: header_lines(headers),
                body: Some(body@),
                file: None,
            }),
            r@.wf(),
    {
        let ghost old_headers = headers;
        let headers = match headers {
            Some(h) => h,
            None => Vec::new(),
        };
        let r = Response { body: Some(body), headers, kind, file: None };
        assert(r@.headers =~= header_lines(old_headers));
        r
    }

    /// Creates a response whose body is a buffer of bytes.
    pub fn new_file(file: Vec<u8>, headers: Option<Vec<String>>, kind: ResponseType) -> (r: Response)
        ensures
            r@ == (ResponseModel {
                kind,
                headers: header_lines(headers),
                body: None,
                file: Some(file@),
            }),
            r@.wf(),
    {
        let ghost old_headers = headers;
        let headers = match headers {
            Some(h) => h,
            None => Vec::new(),
        };
        let r = Response { body: None, headers, kind, file: Some(file) };
        assert(r@.headers =~= header_lines(old_headers));
        r
    }

    /// A 200 response with a text body, sent at `date` (RFC 2822 text), or
    /// without a `Date` header when no date is given.
    pub fn http_ok_at(body: String, date: Option<&str>) -> (r: Response)
        ensures
            r@ == text_response(ResponseType::HTTPOk, body@, date_view(date)),
            r@.wf(),
    {
        let mut response = Response::new_text(body, None, ResponseType::HTTPOk);
        response.default_headers(date);
        response
    }

    /// A 200 response with a binary body, sent at `date`.
    pub fn http_ok_file_at(file: Vec<u8>, date: Option<&str>) -> (r: Response)
        ensures
            r@ == file_response(file@, date_view(date)),
            r@.wf(),
    {
        let mut response = Response::new_file(file, None, ResponseType::HTTPOk);
        response.default_headers(date);
        response
    }

    /// A 404 response with the built-in "not found" page, sent at `date`.
    pub fn not_found_at(date: Option<&str>) -> (r: Response)
        ensures
            r@ == text_response(ResponseType::NotFound, NOT_FOUND_PAGE@, date_view(date)),
            r@.wf(),
    {
        let body = String::from_str(NOT_FOUND_PAGE);
        let mut response = Response::new_text(body, None, ResponseType::NotFound);
        response.default_headers(date);
        response
    }

    /// A 500 response with the built-in "internal server error" page, sent
    /// at `date`.
    pub fn server_error_at(date: Option<&str>) -> (r: Response)
        ensures
            r@ == text_response(ResponseType::ServerError, SERVER_ERROR_PAGE@, date_view(date)),
            r@.wf(),
    {
        let body = String::from_str(SERVER_ERROR_PAGE);
        let mut response = Response::new_text(body, None, ResponseType::ServerError);
        response.default_headers(date);
        response
    }

    /// A 200 response with a text body, dated with the clock's current time.
    pub fn http_ok(body: String) -> (r: Response)
        ensures
            is_text_response(r@, ResponseType::HTTPOk, body@),
            r@.wf(),
    {
        let now = current_date_rfc2822();
        match now {
            Some(d) => Response::http_ok_at(body, Some(d.as_str())),
            None => Response::http_ok_at(body, None),
        }
    }

    /// A 200 response with a binary body, dated with the clock's current time.
    pub fn http_ok_file(file: Vec<u8>) -> (r: Response)
        ensures
            is_ok_file_response(r@, file@),
            r@.wf(),
    {
        let now = current_date_rfc2822();
        match now {
            Some(d) => Response::http_ok_file_at(file, Some(d.as_str())),
            None => Response::http_ok_file_at(file, None),
        }
    }

    /// A 404 response with the built-in page, dated with the clock's current
    /// time.
    pub fn not_found() -> (r: Response)
        ensures
            is_text_response(r@, ResponseType::NotFound, NOT_FOUND_PAGE@),
            r@.wf(),
    {
        let now = current_date_rfc2822();
        match now {
            Some(d) => Response::not_found_at(Some(d.as_str())),
            None => Response::not_found_at(None),
        }
    }

    /// A 500 response with the built-in page, dated with the clock's current
    /// time.
    pub fn server_error() -> (r: Response)
        ensures
            is_text_response(r@, ResponseType::ServerError, SERVER_ERROR_PAGE@),
            r@.wf(),
    {
        let now = current_date_rfc2822();
        match now {
            Some(d) => Response::server_error_at(Some(d.as_str())),
            None => Response::server_error_at(None),
        }
    }

    /// Appends the status line, the `Date` header when there is a date, and
    /// the `Server` header.
    fn default_headers(&mut self, date: Option<&str>)
        requires
            old(self)@.headers.len() == 0,
        ensures
            final(self)@ == (ResponseModel {
                headers: default_header_lines(old(self)@.kind, date_view(date)),
                ..old(self)@
            }),
    {
        let mut status = String::from_str(self.http_version());
        status.append(" ");
        status.append(self.kind.code_text());
        status.append(" ");
        status.append(self.kind.reason());
        self.add_response_headers(status.as_str());
        match date {
            Some(d) => {
                let mut line = String::from_str("Date: ");
                line.append(d);
                self.add_response_headers(line.as_str());
            },
            None => {},
        }
        let mut server = String::from_str("Server: ");
        let name = self.server();
        server.append(name.as_str());
        self.add_response_headers(server.as_str());
        assert(self@.headers =~= default_header_lines(old(self)@.kind, date_view(date)));
    }

    /// Appends a header line.
    pub fn add_response_headers(&mut self, header: &str)
        ensures
            final(self)@ == (ResponseModel { headers: old(self)@.headers.push(header@), ..old(self)@ }),
    {
        self.headers.push(String::from_str(header));
        assert(self@.headers =~= old(self)@.headers.push(header@));
    }

    /// The numeric status code.
    pub fn code(&self) -> (r: u16)
        ensures
            r == status_code(self@.kind),
    {
        match self.kind {
            ResponseType::HTTPOk => 200,
            ResponseType::Redirection => 300,
            ResponseType::NotFound => 404,
            ResponseType::ServerError => 500,
        }
    }

    /// The protocol version.
    pub fn http_version(&self) -> (r: &str)
        ensures
            r@ == http_version_text(),
    {
        "HTTP/1.1"
    }

    /// The product name of this server.
    pub fn server(&self) -> (r: String)
        ensures
            r@ == server_name(),
    {
        String::from_str("rust-http-server")
    }

    /// The header block: the header lines joined by CRLF, then a blank line.
    fn headers_only(&self) -> (r: String)
        ensures
            r@ == header_block(self@.headers),
    {
        let ghost lines = self@.headers;
        let n = self.headers.len();
        let mut result = String::new();
        let mut i: usize = 0;
        proof {
            reveal_strlit("\r\n");
        }
        while i < n
            invariant
                n == lines.len(),
                lines == self@.headers,
                i <= n,
                result@ == joined(lines.take(i as int), crlf()),
                "\r\n"@ == crlf(),
            decreases n - i,
        {
            if i > 0 {
                result.append("\r\n");
            }
            result.append(self.headers[i].as_str());
            proof {
                let t = lines.take(i + 1);
                assert(t.drop_last() =~= lines.take(i as int));
            }
            i = i + 1;
        }
        result.append("\r\n\r\n");
        proof {
            reveal_strlit("\r\n\r\n");
            assert(lines.take(n as int) =~= lines);
        }
        result
    }

    /// The response as text. Only a response with a text body has one.
    pub fn to_string(&self) -> (r: String)
        requires
            self@.body.is_some(),
        ensures
            r@ == self@.serialized_text(),
    {
        let mut headers = self.headers_only();
        match &self.body {
            Some(b) => headers.append(b.as_str()),
            None => {},
        }
        headers
    }

    /// The response as bytes: the header block, then the body.
    pub fn to_bytes(&self) -> (r: Vec<u8>)
        ensures
            r@ == self@.serialized_bytes(),
    {
        let text = self.headers_only();
        let mut result = text.as_str().as_bytes_vec();
        match &self.file {
            Some(f) => append_bytes(&mut result, f),
            None => match &self.body {
                Some(b) => {
                    let encoded = b.as_str().as_bytes_vec();
                    append_bytes(&mut result, &encoded);
                },
                None => {},
            },
        }
        result
    }
}

} // verus!
