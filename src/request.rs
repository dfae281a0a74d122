//! Inbound HTTP requests: the request line and the host are read from fixed
//! positions of the text.

use vstd::prelude::*;
use vstd::string::*;

verus! {

/// The method of a request.
#[derive(Clone, Copy, Debug, PartialEq, Eq, Structural)]
pub enum RequestKind {
    Get,
    Post,
    Head,
    Put,
    Delete,
    Options,
}

/// The literal verb of each method.
pub open spec fn method_name(kind: RequestKind) -> Seq<char> {
    match kind {
        RequestKind::Get => "GET"@,
        RequestKind::Post => "POST"@,
        RequestKind::Head => "HEAD"@,
        RequestKind::Put => "PUT"@,
        RequestKind::Delete => "DELETE"@,
        RequestKind::Options => "OPTIONS"@,
    }
}

/// The method whose verb is `verb`, if there is one.
pub open spec fn method_of(verb: Seq<char>) -> Option<RequestKind> {
    if verb == "GET"@ {
        Some(RequestKind::Get)
    } else if verb == "POST"@ {
        Some(RequestKind::Post)
    } else if verb == "HEAD"@ {
        Some(RequestKind::Head)
    } else if verb == "PUT"@ {
        Some(RequestKind::Put)
    } else if verb == "DELETE"@ {
        Some(RequestKind::Delete)
    } else if verb == "OPTIONS"@ {
        Some(RequestKind::Options)
    } else {
        None
    }
}

/// The first position at or after `i` that holds `sep`, or the length of `s`
/// when there is none.
pub open spec fn next_sep(s: Seq<char>, sep: char, i: int) -> int
    decreases s.len() - i,
{
    if i >= s.len() {
        s.len() as int
    } else if s[i] == sep {
        i
    } else {
        next_sep(s, sep, i + 1)
    }
}

/// The pieces of `s` from position `start` on, cut at each `sep`.
pub open spec fn pieces_from(s: Seq<char>, sep: char, start: int) -> Seq<Seq<char>>
    decreases s.len() - start,
{
    let k = next_sep(s, sep, start);
    if start < 0 || k >= s.len() || k < start {
        seq![s.subrange(start, s.len() as int)]
    } else {
        seq![s.subrange(start, k)] + pieces_from(s, sep, k + 1)
    }
}

/// `s` cut at each `sep`: one more piece than there are separators, empty
/// pieces included.
pub open spec fn split_on(s: Seq<char>, sep: char) -> Seq<Seq<char>> {
    pieces_from(s, sep, 0)
}

/// The method token, path, protocol version and host that a request text
/// holds: the three space-separated tokens of the first line, and the second
/// token of the third line. None when a line or a token is missing.
pub open spec fn parse_spec(s: Seq<char>) -> Option<(Seq<char>, Seq<char>, Seq<char>, Seq<char>)> {
    let lines = split_on(s, '\n');
    if lines.len() < 3 {
        None
    } else {
        let first = split_on(lines[0], ' ');
        let third = split_on(lines[2], ' ');
        if first.len() < 3 || third.len() < 2 {
            None
        } else {
            Some((first[0], first[1], first[2], third[1]))
        }
    }
}

/// A parsed request.
pub struct Request {
    pub path: String,
    pub kind: RequestKind,
    pub data: String,
    pub host: String,
}

/// The request that the text `s` decodes to, as (method, path, host); None
/// when it cannot be parsed or its method is not one of the six verbs.
pub open spec fn request_spec(s: Seq<char>) -> Option<(RequestKind, Seq<char>, Seq<char>)> {
    match parse_spec(s) {
        Some((verb, path, _version, host)) => match method_of(verb) {
            Some(kind) => Some((kind, path, host)),
            None => None,
        },
        None => None,
    }
}

proof fn lemma_next_sep_bounds(s: Seq<char>, sep: char, i: int)
    requires
        0 <= i <= s.len(),
    ensures
        i <= next_sep(s, sep, i) <= s.len(),
        next_sep(s, sep, i) < s.len() ==> s[next_sep(s, sep, i)] == sep,
    decreases s.len() - i,
{
    if i < s.len() && s[i] != sep {
        lemma_next_sep_bounds(s, sep, i + 1);
    }
}

proof fn lemma_next_sep_skip(s: Seq<char>, sep: char, i: int, j: int)
    requires
        0 <= i <= j <= s.len(),
        forall|m: int| i <= m < j ==> s[m] != sep,
    ensures
        next_sep(s, sep, i) == next_sep(s, sep, j),
    decreases j - i,
{
    if i < j {
        lemma_next_sep_skip(s, sep, i + 1, j);
    }
}

proof fn lemma_pieces_len(s: Seq<char>, sep: char, start: int)
    requires
        0 <= start <= s.len(),
    ensures
        pieces_from(s, sep, start).len() >= 1,
    decreases s.len() - start,
{
    lemma_next_sep_bounds(s, sep, start);
    let k = next_sep(s, sep, start);
    if k < s.len() {
        lemma_pieces_len(s, sep, k + 1);
    }
}

/// The characters of a string.
pub(crate) fn chars_of(s: &str) -> (r: Vec<char>)
    ensures
        r@ == s@,
{
    let n = s.unicode_len();
    let mut r: Vec<char> = Vec::new();
    let mut i: usize = 0;
    while i < n
        invariant
            n == s@.len(),
            i <= n,
            r@ == s@.take(i as int),
        decreases n - i,
    {
        r.push(s.get_char(i));
        i = i + 1;
    }
    r
}

/// The position of the first `sep` at or after `start`, or the length.
fn find_sep(v: &Vec<char>, sep: char, start: usize) -> (k: usize)
    requires
        start <= v@.len(),
    ensures
        k == next_sep(v@, sep, start as int),
{
    let n = v.len();
    let mut i = start;
    while i < n && v[i] != sep
        invariant
            start <= i <= n,
            n == v@.len(),
            forall|m: int| start <= m < i ==> v@[m] != sep,
        decreases n - i,
    {
        i = i + 1;
    }
    proof {
        lemma_next_sep_skip(v@, sep, start as int, i as int);
    }
    i
}

/// The bounds of piece `n` of `v` cut at each `sep`, if there is such a piece.
pub(crate) fn nth_piece(v: &Vec<char>, sep: char, n: usize) -> (r: Option<(usize, usize)>)
    ensures
        match r {
            Some((lo, hi)) => lo <= hi <= v@.len() && n < split_on(v@, sep).len()
                && split_on(v@, sep)[n as int] == v@.subrange(lo as int, hi as int),
            None => n >= split_on(v@, sep).len(),
        },
{
    let len = v.len();
    let mut start: usize = 0;
    let mut count: usize = 0;
    while count < n
        invariant
            len == v@.len(),
            count <= n,
            start <= len,
            pieces_from(v@, sep, 0).len() == count + pieces_from(v@, sep, start as int).len(),
            forall|m: int|
                0 <= m < pieces_from(v@, sep, start as int).len() ==> pieces_from(v@, sep, 0)[count
                    + m] == #[trigger] pieces_from(v@, sep, start as int)[m],
        decreases n - count,
    {
        let k = find_sep(v, sep, start);
        proof {
            lemma_next_sep_bounds(v@, sep, start as int);
        }
        if k >= len {
            return None;
        }
        proof {
            lemma_pieces_len(v@, sep, k + 1);
            let p = pieces_from(v@, sep, start as int);
            let q = pieces_from(v@, sep, k + 1);
            assert forall|m: int| 0 <= m < q.len() implies pieces_from(v@, sep, 0)[count + 1 + m]
                == #[trigger] q[m] by {
                assert(p[m + 1] == q[m]);
            }
        }
        start = k + 1;
        count = count + 1;
    }
    let k = find_sep(v, sep, start);
    proof {
        lemma_next_sep_bounds(v@, sep, start as int);
        lemma_pieces_len(v@, sep, start as int);
        assert(pieces_from(v@, sep, start as int)[0] == v@.subrange(start as int, k as int));
    }
    Some((start, k))
}

/// The characters of `v` from `lo` up to `hi`.
fn sub_chars(v: &Vec<char>, lo: usize, hi: usize) -> (r: Vec<char>)
    requires
        lo <= hi <= v@.len(),
    ensures
        r@ == v@.subrange(lo as int, hi as int),
{
    let mut r: Vec<char> = Vec::new();
    let mut i = lo;
    while i < hi
        invariant
            lo <= i <= hi,
            hi <= v@.len(),
            r@ == v@.subrange(lo as int, i as int),
        decreases hi - i,
    {
        r.push(v[i]);
        i = i + 1;
    }
    r
}

/// The characters of `s` from `lo` up to `hi`, as a new string.
pub(crate) fn text_between(s: &str, lo: usize, hi: usize) -> (r: String)
    requires
        lo <= hi <= s@.len(),
    ensures
        r@ == s@.subrange(lo as int, hi as int),
{
    String::from_str(s.substring_char(lo, hi))
}

/// Reads the method token, path, protocol version and host of a request
/// text: the three space-separated tokens of its first line, and the second
/// token of its third line.
pub fn parse(request_string: &str) -> (r: Option<(String, String, String, String)>)
    ensures
        match r {
            Some((verb, path, version, host)) => parse_spec(request_string@) == Some(
                (verb@, path@, version@, host@),
            ),
            None => parse_spec(request_string@).is_none(),
        },
{
    let chars = chars_of(request_string);
    let (l0, h0) = match nth_piece(&chars, '\n', 0) {
        Some(p) => p,
        None => {
            proof {
                lemma_pieces_len(chars@, '\n', 0);
            }
            return None;
        },
    };
    let (l2, h2) = match nth_piece(&chars, '\n', 2) {
        Some(p) => p,
        None => return None,
    };
    let line0 = sub_chars(&chars, l0, h0);
    let line2 = sub_chars(&chars, l2, h2);
    let (a0, b0) = match nth_piece(&line0, ' ', 0) {
        Some(p) => p,
        None => {
            proof {
                lemma_pieces_len(line0@, ' ', 0);
            }
            return None;
        },
    };
    let (a1, b1) = match nth_piece(&line0, ' ', 1) {
        Some(p) => p,
        None => return None,
    };
    let (a2, b2) = match nth_piece(&line0, ' ', 2) {
        Some(p) => p,
        None => return None,
    };
    let (a3, b3) = match nth_piece(&line2, ' ', 1) {
        Some(p) => p,
        None => return None,
    };
    let verb = text_between(request_string, l0 + a0, l0 + b0);
    let path = text_between(request_string, l0 + a1, l0 + b1);
    let version = text_between(request_string, l0 + a2, l0 + b2);
    let host = text_between(request_string, l2 + a3, l2 + b3);
    Some((verb, path, version, host))
}

impl Request {
    /// Decodes a request text. None when a line or a token that the request
    /// line and host need is missing, or the method is not one of the six
    /// verbs.
    pub fn from(request_data: String) -> (r: Option<Request>)
        ensures
            match r {
                Some(req) => request_spec(request_data@) == Some((req.kind, req.path@, req.host@))
                    && req.data@ == request_data@,
                None => request_spec(request_data@).is_none(),
            },
    {
        match parse(request_data.as_str()) {
            Some((verb, path, _version, host)) => match RequestKind::from(verb.as_str()) {
                Some(kind) => Some(Request { path, data: request_data, kind, host }),
                None => None,
            },
            None => None,
        }
    }
}

impl RequestKind {
    /// The method whose verb is `string`, if there is one.
    pub fn from(string: &str) -> (r: Option<RequestKind>)
        ensures
            r == method_of(string@),
    {
        let s = String::from_str(string);
        if s == String::from_str("GET") {
            Some(RequestKind::Get)
        } else if s == String::from_str("POST") {
            Some(RequestKind::Post)
        } else if s == String::from_str("HEAD") {
            Some(RequestKind::Head)
        } else if s == String::from_str("PUT") {
            Some(RequestKind::Put)
        } else if s == String::from_str("DELETE") {
            Some(RequestKind::Delete)
        } else if s == String::from_str("OPTIONS") {
            Some(RequestKind::Options)
        } else {
            None
        }
    }

    /// The literal verb of this method.
    pub fn name(&self) -> (r: &'static str)
        ensures
            r@ == method_name(*self),
    {
        match self {
            RequestKind::Get => "GET",
            RequestKind::Post => "POST",
            RequestKind::Head => "HEAD",
            RequestKind::Put => "PUT",
            RequestKind::Delete => "DELETE",
            RequestKind::Options => "OPTIONS",
        }
    }
}

} // verus!
