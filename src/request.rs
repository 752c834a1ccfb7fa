use vstd::prelude::*;
use crate::error::BypsError;
use crate::text::{chars_of, string_of};

verus! {

/// One request header.
#[derive(Clone, Debug, PartialEq, Eq)]
pub struct Header {
    pub name: String,
    pub value: String,
}

impl View for Header {
    type V = (Seq<char>, Seq<char>);

    open spec fn view(&self) -> (Seq<char>, Seq<char>) {
        (self.name@, self.value@)
    }
}

impl Header {
    pub fn new(name: &str, value: &str) -> (r: Header)
        ensures
            r@ == (name@, value@),
    {
        Header { name: name.to_owned(), value: value.to_owned() }
    }
}

/// Everything that determines one HTTP request.
#[derive(Clone, Debug, PartialEq, Eq)]
pub struct RequestSpec {
    pub method: String,
    /// The request target: path and query.
    pub path: String,
    pub headers: Vec<Header>,
    pub version: String,
}

/// The model of a request.
pub struct RequestView {
    pub method: Seq<char>,
    pub path: Seq<char>,
    pub headers: Seq<(Seq<char>, Seq<char>)>,
    pub version: Seq<char>,
}

pub open spec fn headers_view(hs: Seq<Header>) -> Seq<(Seq<char>, Seq<char>)> {
    hs.map_values(|h: Header| h@)
}

impl View for RequestSpec {
    type V = RequestView;

    open spec fn view(&self) -> RequestView {
        RequestView {
            method: self.method@,
            path: self.path@,
            headers: headers_view(self.headers@),
            version: self.version@,
        }
    }
}

/// Whether two lists of headers are equal, name for name and value for value.
pub fn same_headers(a: &Vec<Header>, b: &Vec<Header>) -> (r: bool)
    ensures
        r == (headers_view(a@) == headers_view(b@)),
{
    if a.len() != b.len() {
        assert(headers_view(a@).len() != headers_view(b@).len());
        return false;
    }
    let mut i: usize = 0;
    while i < a.len()
        invariant
            a@.len() == b@.len(),
            i <= a@.len(),
            forall|j: int| 0 <= j < i ==> a@[j]@ == b@[j]@,
        decreases a@.len() - i,
    {
        if a[i].name != b[i].name || a[i].value != b[i].value {
            assert(headers_view(a@)[i as int] != headers_view(b@)[i as int]);
            return false;
        }
        i = i + 1;
    }
    assert(headers_view(a@) =~= headers_view(b@));
    true
}

/// Whether two requests would be sent as the same bytes.
pub fn same_request(a: &RequestSpec, b: &RequestSpec) -> (r: bool)
    ensures
        r == (a@ == b@),
{
    a.method == b.method && a.path == b.path && same_headers(&a.headers, &b.headers)
        && a.version == b.version
}

/// The scheme of a target URL.
#[derive(Clone, Copy, Debug, PartialEq, Eq, Structural)]
pub enum Scheme {
    Http,
    Https,
}

/// An absolute target URL, split into its parts. The fragment is dropped.
#[derive(Clone, Debug, PartialEq, Eq)]
pub struct Target {
    pub scheme: Scheme,
    /// Host, with the port where the URL gives one.
    pub authority: String,
    /// Starts with `/`.
    pub path: String,
    /// What follows `?`, without it; empty where there is none.
    pub query: String,
}

pub struct TargetView {
    pub scheme: Scheme,
    pub authority: Seq<char>,
    pub path: Seq<char>,
    pub query: Seq<char>,
}

impl View for Target {
    type V = TargetView;

    open spec fn view(&self) -> TargetView {
        TargetView {
            scheme: self.scheme,
            authority: self.authority@,
            path: self.path@,
            query: self.query@,
        }
    }
}

/// The query part of a request target: `?query`, or nothing.
pub open spec fn query_part(t: TargetView) -> Seq<char> {
    if t.query.len() == 0 {
        Seq::empty()
    } else {
        seq!['?'] + t.query
    }
}

/// The request for the unmodified target.
pub open spec fn base_request(t: TargetView) -> RequestView {
    RequestView {
        method: "GET"@,
        path: t.path + query_part(t),
        headers: seq![("Host"@, t.authority)],
        version: "HTTP/1.1"@,
    }
}

/// Characters no URL may hold: the space, control characters below U+0020,
/// and U+007F.
pub open spec fn is_forbidden(c: char) -> bool {
    (c as u32) <= 0x20 || (c as u32) == 0x7f
}

/// The position of the first character of `s` that is in `stops`, or the
/// length of `s` where there is none.
pub open spec fn stop_index(s: Seq<char>, stops: Seq<char>) -> nat
    decreases s.len(),
{
    if s.len() == 0 {
        0
    } else if stops.contains(s[0]) {
        0
    } else {
        1 + stop_index(s.drop_first(), stops)
    }
}

/// Length of the scheme prefix that `u` starts with: 7 for `http://`, 8 for
/// `https://`, 0 for anything else.
pub open spec fn scheme_len(u: Seq<char>) -> nat {
    if u.len() >= 7 && u.take(7) == "http://"@ {
        7
    } else if u.len() >= 8 && u.take(8) == "https://"@ {
        8
    } else {
        0
    }
}

/// What a URL parses to, if it is valid.
pub open spec fn parse_url(u: Seq<char>) -> Option<TargetView> {
    let n = scheme_len(u);
    let rest = u.skip(n as int);
    let a = stop_index(rest, seq!['/', '?', '#']);
    let authority = rest.take(a as int);
    let after = rest.skip(a as int);
    let p = stop_index(after, seq!['?', '#']);
    let raw_path = after.take(p as int);
    let tail = after.skip(p as int);
    let q = if tail.len() > 0 && tail[0] == '?' {
        tail.drop_first().take(stop_index(tail.drop_first(), seq!['#']) as int)
    } else {
        Seq::empty()
    };
    if n == 0 || authority.len() == 0 || exists|i: int| 0 <= i < u.len() && is_forbidden(u[i]) {
        None
    } else {
        Some(
            TargetView {
                scheme: if n == 7 { Scheme::Http } else { Scheme::Https },
                authority,
                path: if raw_path.len() == 0 { "/"@ } else { raw_path },
                query: q,
            },
        )
    }
}

/// The characters of `v` from `from` up to `to`.
pub fn slice_chars(v: &Vec<char>, from: usize, to: usize) -> (r: Vec<char>)
    requires
        from <= to <= v@.len(),
    ensures
        r@ == v@.subrange(from as int, to as int),
{
    let mut out: Vec<char> = Vec::new();
    let mut i: usize = from;
    while i < to
        invariant
            from <= i <= to,
            to <= v@.len(),
            out@ == v@.subrange(from as int, i as int),
        decreases to - i,
    {
        out.push(v[i]);
        i = i + 1;
        assert(out@ =~= v@.subrange(from as int, i as int));
    }
    out
}

/// Position of the first character of `s` that is in `stops`, or its length.
pub fn find_stop(s: &Vec<char>, stops: &Vec<char>) -> (r: usize)
    ensures
        r == stop_index(s@, stops@),
        r <= s@.len(),
{
    let mut i: usize = 0;
    assert(s@.skip(0) =~= s@);
    while i < s.len()
        invariant
            i <= s@.len(),
            stop_index(s@, stops@) == i + stop_index(s@.skip(i as int), stops@),
        decreases s@.len() - i,
    {
        let c = s[i];
        let mut hit = false;
        let mut k: usize = 0;
        while k < stops.len()
            invariant
                k <= stops@.len(),
                hit == (exists|m: int| 0 <= m < k && stops@[m] == c),
            decreases stops@.len() - k,
        {
            if stops[k] == c {
                hit = true;
            }
            k = k + 1;
        }
        assert(s@.skip(i as int)[0] == c);
        if hit {
            assert(stops@.contains(c));
            return i;
        }
        assert(!stops@.contains(c));
        assert(s@.skip(i as int).drop_first() =~= s@.skip(i + 1));
        i = i + 1;
    }
    assert(s@.skip(i as int).len() == 0);
    i
}

/// Whether `u` holds a character no URL may hold.
fn has_forbidden(u: &Vec<char>) -> (r: bool)
    ensures
        r == exists|i: int| 0 <= i < u@.len() && is_forbidden(u@[i]),
{
    let mut i: usize = 0;
    while i < u.len()
        invariant
            i <= u@.len(),
            forall|j: int| 0 <= j < i ==> !is_forbidden(u@[j]),
        decreases u@.len() - i,
    {
        let c = u[i];
        if (c as u32) <= 0x20 || (c as u32) == 0x7f {
            return true;
        }
        i = i + 1;
    }
    false
}

/// Whether `u` starts with `prefix`.
fn starts_with(u: &Vec<char>, prefix: &Vec<char>) -> (r: bool)
    ensures
        r == (u@.len() >= prefix@.len() && u@.take(prefix@.len() as int) == prefix@),
{
    if u.len() < prefix.len() {
        return false;
    }
    let head = slice_chars(u, 0, prefix.len());
    assert(head@ == u@.take(prefix@.len() as int));
    crate::text::same_chars(&head, prefix)
}

impl Target {
    /// Parses an absolute `http://` or `https://` URL.
    pub fn parse(url: &str) -> (r: Result<Target, BypsError>)
        ensures
            r matches Ok(t) ==> parse_url(url@) == Some(t@),
            r is Err ==> parse_url(url@) is None,
            r matches Err(e) ==> (e matches BypsError::InvalidUrl(s) && s@ == url@),
    {
        let u = chars_of(url);
        let http = chars_of("http://");
        let https = chars_of("https://");
        proof {
            reveal_strlit("http://");
            reveal_strlit("https://");
        }
        let n: usize = if starts_with(&u, &http) {
            7
        } else if starts_with(&u, &https) {
            8
        } else {
            0
        };
        assert(n == scheme_len(url@));
        if n == 0 || has_forbidden(&u) {
            return Err(BypsError::InvalidUrl(url.to_owned()));
        }
        let rest = slice_chars(&u, n, u.len());
        assert(rest@ =~= url@.skip(n as int));
        let stops = vec!['/', '?', '#'];
        assert(stops@ =~= seq!['/', '?', '#']);
        let a = find_stop(&rest, &stops);
        if a == 0 {
            return Err(BypsError::InvalidUrl(url.to_owned()));
        }
        let authority = slice_chars(&rest, 0, a);
        let after = slice_chars(&rest, a, rest.len());
        let stops2 = vec!['?', '#'];
        assert(stops2@ =~= seq!['?', '#']);
        let p = find_stop(&after, &stops2);
        let raw_path = slice_chars(&after, 0, p);
        let tail = slice_chars(&after, p, after.len());
        let query = if tail.len() > 0 && tail[0] == '?' {
            let q_all = slice_chars(&tail, 1, tail.len());
            assert(q_all@ =~= tail@.drop_first());
            let stops3 = vec!['#'];
            assert(stops3@ =~= seq!['#']);
            let q = find_stop(&q_all, &stops3);
            slice_chars(&q_all, 0, q)
        } else {
            Vec::new()
        };
        let path = if raw_path.len() == 0 {
            chars_of("/")
        } else {
            raw_path
        };
        let t = Target {
            scheme: if n == 7 { Scheme::Http } else { Scheme::Https },
            authority: string_of(&authority),
            path: string_of(&path),
            query: string_of(&query),
        };
        assert(authority@ =~= rest@.take(a as int));
        assert(after@ =~= rest@.skip(a as int));
        assert(raw_path@ =~= after@.take(p as int));
        assert(tail@ =~= after@.skip(p as int));
        Ok(t)
    }

    /// The request for the unmodified target.
    pub fn base_request(&self) -> (r: RequestSpec)
        ensures
            r@ == base_request(self@),
    {
        let mut path = self.path.clone();
        path.append(self.query_part().as_str());
        let mut headers: Vec<Header> = Vec::new();
        headers.push(Header::new("Host", self.authority.as_str()));
        let r = RequestSpec {
            method: "GET".to_owned(),
            path,
            headers,
            version: "HTTP/1.1".to_owned(),
        };
        assert(headers_view(r.headers@) =~= seq![("Host"@, self@.authority)]);
        r
    }

    /// The query part of the request target: `?query`, or nothing.
    pub fn query_part(&self) -> (r: String)
        ensures
            r@ == query_part(self@),
    {
        if self.query.as_str().is_empty() {
            String::new()
        } else {
            let mut q = "?".to_owned();
            proof {
                reveal_strlit("?");
            }
            q.append(self.query.as_str());
            q
        }
    }
}

/// Header lines of a request, each `name: value` and CRLF.
pub open spec fn header_lines(hs: Seq<(Seq<char>, Seq<char>)>) -> Seq<char>
    decreases hs.len(),
{
    if hs.len() == 0 {
        Seq::empty()
    } else {
        header_lines(hs.drop_last()) + hs.last().0 + ": "@ + hs.last().1 + "\r\n"@
    }
}

/// The bytes on the wire for a request: request line, its headers, a
/// `Connection: close` header, and the blank line.
pub open spec fn wire_text(r: RequestView) -> Seq<char> {
    r.method + " "@ + r.path + " "@ + r.version + "\r\n"@ + header_lines(r.headers) + "Connection: close\r\n\r\n"@
}

impl RequestSpec {
    /// The request as sent on the wire.
    pub fn to_wire(&self) -> (r: String)
        ensures
            r@ == wire_text(self@),
    {
        let mut out = self.method.clone();
        out.append(" ");
        out.append(self.path.as_str());
        out.append(" ");
        out.append(self.version.as_str());
        out.append("\r\n");
        let ghost start = out@;
        let mut i: usize = 0;
        while i < self.headers.len()
            invariant
                i <= self.headers@.len(),
                out@ == start + header_lines(headers_view(self.headers@.take(i as int))),
            decreases self.headers@.len() - i,
        {
            proof {
                assert(headers_view(self.headers@.take(i + 1)).drop_last() =~= headers_view(self.headers@.take(i as int)));
            }
            out.append(self.headers[i].name.as_str());
            out.append(": ");
            out.append(self.headers[i].value.as_str());
            out.append("\r\n");
            i = i + 1;
        }
        assert(self.headers@.take(i as int) =~= self.headers@);
        out.append("Connection: close\r\n\r\n");
        out
    }
}

/// The status code of an HTTP status line such as `HTTP/1.1 200 OK`: the
/// three digits after the first space.
pub open spec fn status_of_line(line: Seq<char>) -> Option<u16> {
    let sp = stop_index(line, seq![' ']) as int;
    if sp + 4 <= line.len() && is_digit(line[sp + 1]) && is_digit(line[sp + 2]) && is_digit(line[sp + 3]) && (sp + 4
        == line.len() || line[sp + 4] == ' ' || line[sp + 4] == '\r') {
        Some((digit_value(line[sp + 1]) * 100 + digit_value(line[sp + 2]) * 10 + digit_value(line[sp + 3])) as u16)
    } else {
        None
    }
}

pub open spec fn is_digit(c: char) -> bool {
    '0' <= c && c <= '9'
}

pub open spec fn digit_value(c: char) -> nat {
    (c as u32 - '0' as u32) as nat
}

/// Reads the status code of an HTTP status line.
pub fn parse_status_line(line: &str) -> (r: Option<u16>)
    ensures
        r == status_of_line(line@),
{
    let v = chars_of(line);
    let spaces = vec![' '];
    assert(spaces@ =~= seq![' ']);
    let sp = find_stop(&v, &spaces);
    if sp >= v.len() || v.len() - sp < 4 {
        return None;
    }
    let a = v[sp + 1];
    let b = v[sp + 2];
    let c = v[sp + 3];
    if !('0' <= a && a <= '9' && '0' <= b && b <= '9' && '0' <= c && c <= '9') {
        return None;
    }
    if !(sp + 4 == v.len() || v[sp + 4] == ' ' || v[sp + 4] == '\r') {
        return None;
    }
    let code: u32 = (a as u32 - '0' as u32) * 100 + (b as u32 - '0' as u32) * 10 + (c as u32 - '0' as u32);
    Some(code as u16)
}

} // verus!
