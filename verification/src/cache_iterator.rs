//! Filling the cache ahead of time: which paths to fetch, under which name
//! each response is stored, and the bytes that are stored for it.

use crate::cacher::{extend_chars, sanitize_chars, sanitized, stored_file, SNICacher};
use crate::text::{chars_match_at, chars_of, contains_seq, find_chars, starts_with_seq, string_of};
use vstd::prelude::*;

verus! {

/// The walk through the path lists of the cached hosts.
pub struct CacheIterator {}

/// The list of paths that was written by hand for a host, as it is named
/// before it is looked for.
pub open spec fn static_list_file(root: Seq<char>, host: Seq<char>) -> Seq<char> {
    root + seq!['/'] + host + seq!['/'] + "paths_to_cache_static.txt"@
}

/// What one line of a path list asks for.
pub enum LineAction {
    /// Nothing: the line is empty or a comment.
    Skip,
    /// The host is to be left alone from here on.
    IgnoreHost,
    /// The cookie to send with the requests that follow.
    Cookie(String),
    /// The line is an address to fetch.
    Fetch,
}

pub ghost enum LineActionView {
    Skip,
    IgnoreHost,
    Cookie(Seq<char>),
    Fetch,
}

impl View for LineAction {
    type V = LineActionView;

    open spec fn view(&self) -> LineActionView {
        match self {
            LineAction::Skip => LineActionView::Skip,
            LineAction::IgnoreHost => LineActionView::IgnoreHost,
            LineAction::Cookie(c) => LineActionView::Cookie(c@),
            LineAction::Fetch => LineActionView::Fetch,
        }
    }
}

/// What a line of a path list asks for. In a list written by hand, a line
/// that begins with `#` or `;` is a comment, one that begins with
/// `IGNORE_HOST` ends the host, and one that begins with `COOKIE=` sets the
/// cookie to what follows; every other line that is not empty is an address.
/// In a list that the proxy wrote, every line that is not empty is an address.
pub open spec fn line_action(line: Seq<char>, by_hand: bool) -> LineActionView {
    if line.len() == 0 {
        LineActionView::Skip
    } else if !by_hand {
        LineActionView::Fetch
    } else if line[0] == '#' || line[0] == ';' {
        LineActionView::Skip
    } else if starts_with_seq(line, "IGNORE_HOST"@) {
        LineActionView::IgnoreHost
    } else if starts_with_seq(line, "COOKIE="@) {
        LineActionView::Cookie(line.skip(7))
    } else {
        LineActionView::Fetch
    }
}

/// One request to make: the address and the cookie to send with it.
pub struct Fetch {
    pub url: String,
    pub cookie: String,
}

pub ghost struct FetchView {
    pub url: Seq<char>,
    pub cookie: Seq<char>,
}

impl View for Fetch {
    type V = FetchView;

    open spec fn view(&self) -> FetchView {
        FetchView { url: self.url@, cookie: self.cookie@ }
    }
}

/// The requests of a list, each by its view.
pub open spec fn requests(v: Seq<Fetch>) -> Seq<FetchView> {
    Seq::new(v.len(), |j: int| v[j]@)
}

/// The requests that the lines of a path list ask for, in order, when the
/// cookie in force is `cookie`: the walk ends at the first line that tells to
/// ignore the host.
pub open spec fn fetches(lines: Seq<String>, by_hand: bool, cookie: Seq<char>) -> Seq<FetchView>
    decreases lines.len(),
{
    if lines.len() == 0 {
        Seq::empty()
    } else {
        match line_action(lines[0]@, by_hand) {
            LineActionView::Skip => fetches(lines.drop_first(), by_hand, cookie),
            LineActionView::IgnoreHost => Seq::empty(),
            LineActionView::Cookie(c) => fetches(lines.drop_first(), by_hand, c),
            LineActionView::Fetch => seq![FetchView { url: lines[0]@, cookie }] + fetches(
                lines.drop_first(),
                by_hand,
                cookie,
            ),
        }
    }
}

/// The decimal digit for `d`.
pub open spec fn digit(d: nat) -> char {
    (48 + d) as char
}

/// The decimal numeral of `n`.
pub open spec fn decimal(n: nat) -> Seq<char>
    decreases n,
{
    if n < 10 {
        seq![digit(n)]
    } else {
        decimal(n / 10).push(digit(n % 10))
    }
}

/// The header lines of `headers` whose name contains `content-type`, each as
/// `name: value` with its line end, in order.
pub open spec fn content_type_lines(headers: Seq<(String, String)>) -> Seq<char>
    decreases headers.len(),
{
    if headers.len() == 0 {
        Seq::empty()
    } else if contains_seq(headers[0].0@, "content-type"@) {
        headers[0].0@ + ": "@ + headers[0].1@ + "\r\n"@ + content_type_lines(headers.drop_first())
    } else {
        content_type_lines(headers.drop_first())
    }
}

/// The head of a stored response: the status line, the banner of the cache,
/// the content type as the backend gave it, and the length of the body.
pub open spec fn response_head(headers: Seq<(String, String)>, length: nat) -> Seq<char> {
    "HTTP/1.1 200 OK\r\n"@ + "Server: SNI-PROXY-CACHE/0.0.1\r\n"@ + content_type_lines(headers)
        + "content-length: "@ + decimal(length) + "\r\n\r\n"@
}

fn digit_char(d: usize) -> (c: char)
    requires
        d < 10,
    ensures
        c == digit(d as nat),
{
    let b: u8 = 48u8 + (d as u8);
    b as char
}

/// The decimal numeral of `n`.
pub fn decimal_chars(n: usize) -> (r: Vec<char>)
    ensures
        r@ == decimal(n as nat),
    decreases n,
{
    if n < 10 {
        let mut r: Vec<char> = Vec::new();
        r.push(digit_char(n));
        assert(r@ =~= seq![digit(n as nat)]);
        r
    } else {
        let mut r = decimal_chars(n / 10);
        r.push(digit_char(n % 10));
        r
    }
}

/// The path of the address `url`, as `url::Url` gives it; none where the
/// address cannot be parsed.
pub uninterp spec fn url_path(url: Seq<char>) -> Option<Seq<char>>;

/// Parses `url` with `reqwest::Url::parse` and takes its path.
///
/// Trusted: the path depends on the address alone.
#[verifier::external_body]
fn path_of_url(url: &str) -> (r: Option<String>)
    ensures
        (match r {
            Some(p) => Some(p@),
            None => None,
        }) == url_path(url@),
{
    reqwest::Url::parse(url).ok().map(|u| u.path().to_string())
}

/// The file in which the response fetched from an address with the path
/// `path` is stored for `host`.
pub open spec fn fetched_file(root: Seq<char>, host: Seq<char>, path: Option<Seq<char>>) -> Option<
    Seq<char>,
> {
    match path {
        Some(p) => Some(sanitized(stored_file(root, host, p))),
        None => None,
    }
}

impl CacheIterator {
    /// `file_name` made fit for the cache directory.
    pub fn sanitize_file_name(file_name: String) -> (r: String)
        ensures
            r@ == sanitized(file_name@),
    {
        let name = chars_of(file_name.as_str());
        let clean = sanitize_chars(&name);
        string_of(&clean)
    }

    /// The file in which the response to `http_path` of `host` is stored.
    pub fn get_file_name(root: &str, host: &str, http_path: &str) -> (r: String)
        ensures
            r@ == stored_file(root@, host@, http_path@),
    {
        SNICacher::new().get_file_name(root, host, http_path)
    }

    /// The file in which the response fetched from `url` is stored for
    /// `host`; none where the address cannot be parsed.
    pub fn store_name(root: &str, host: &str, url: &str) -> (r: Option<String>)
        ensures
            (match r {
                Some(n) => Some(n@),
                None => None,
            }) == fetched_file(root@, host@, url_path(url@)),
    {
        match path_of_url(url) {
            Some(p) => Some(Self::store_name_for_path(root, host, p.as_str())),
            None => None,
        }
    }

    /// The file in which the response to `http_path` of `host` is stored,
    /// made fit for the cache directory.
    pub fn store_name_for_path(root: &str, host: &str, http_path: &str) -> (r: String)
        ensures
            r@ == sanitized(stored_file(root@, host@, http_path@)),
    {
        let name = Self::get_file_name(root, host, http_path);
        Self::sanitize_file_name(name)
    }

    /// The name under which the list written by hand is looked for.
    pub fn static_list(root: &str, host: &str) -> (r: String)
        ensures
            r@ == static_list_file(root@, host@),
    {
        let mut raw = chars_of(root);
        raw.push('/');
        let h = chars_of(host);
        extend_chars(&mut raw, &h);
        raw.push('/');
        let f = chars_of("paths_to_cache_static.txt");
        extend_chars(&mut raw, &f);
        assert(raw@ =~= root@ + seq!['/'] + host@ + seq!['/'] + "paths_to_cache_static.txt"@);
        string_of(&raw)
    }

    /// What one line of a path list asks for.
    pub fn classify_line(line: &str, by_hand: bool) -> (r: LineAction)
        ensures
            r@ == line_action(line@, by_hand),
    {
        let l = chars_of(line);
        if l.len() == 0 {
            return LineAction::Skip;
        }
        if !by_hand {
            return LineAction::Fetch;
        }
        if l[0] == '#' || l[0] == ';' {
            return LineAction::Skip;
        }
        let ignore = chars_of("IGNORE_HOST");
        if chars_match_at(&l, &ignore, 0) {
            return LineAction::IgnoreHost;
        }
        let cookie = chars_of("COOKIE=");
        if chars_match_at(&l, &cookie, 0) {
            proof {
                reveal_strlit("COOKIE=");
            }
            let mut rest: Vec<char> = Vec::new();
            let mut i: usize = 7;
            while i < l.len()
                invariant
                    7 <= i <= l@.len(),
                    rest@ == l@.subrange(7, i as int),
                decreases l@.len() - i,
            {
                rest.push(l[i]);
                i += 1;
                assert(rest@ =~= l@.subrange(7, i as int));
            }
            assert(rest@ =~= l@.skip(7));
            return LineAction::Cookie(string_of(&rest));
        }
        LineAction::Fetch
    }

    /// The requests that the lines of a path list ask for, in order. No
    /// cookie is in force at the start.
    pub fn search_file_for_path(lines: &Vec<String>, by_hand: bool) -> (r: Vec<Fetch>)
        ensures
            requests(r@) == fetches(lines@, by_hand, Seq::empty()),
    {
        let ghost goal = fetches(lines@, by_hand, Seq::empty());
        let mut out: Vec<Fetch> = Vec::new();
        let mut cookie = String::new();
        let mut i: usize = 0;
        assert(lines@.skip(0) =~= lines@);
        while i < lines.len()
            invariant
                i <= lines@.len(),
                goal == fetches(lines@, by_hand, Seq::empty()),
                goal == requests(out@) + fetches(
                    lines@.skip(i as int),
                    by_hand,
                    cookie@,
                ),
            decreases lines@.len() - i,
        {
            let ghost rest = lines@.skip(i as int);
            let ghost done = requests(out@);
            assert(rest.drop_first() =~= lines@.skip(i + 1));
            assert(rest[0] == lines@[i as int]);
            match Self::classify_line(lines[i].as_str(), by_hand) {
                LineAction::Skip => {},
                LineAction::IgnoreHost => {
                    assert(goal =~= done);
                    return out;
                },
                LineAction::Cookie(c) => {
                    cookie = c;
                },
                LineAction::Fetch => {
                    let f = Fetch { url: lines[i].clone(), cookie: cookie.clone() };
                    out.push(f);
                    assert(requests(out@) =~= done.push(f@));
                    assert(done.push(f@) + fetches(rest.drop_first(), by_hand, cookie@) =~= done + (
                    seq![f@] + fetches(rest.drop_first(), by_hand, cookie@)));
                },
            }
            i += 1;
        }
        assert(goal =~= requests(out@));
        out
    }

    /// The head of the response that is stored for a body of `length` bytes
    /// fetched with the response headers `headers`.
    pub fn response_head_text(headers: &Vec<(String, String)>, length: usize) -> (r: String)
        ensures
            r@ == response_head(headers@, length as nat),
    {
        let mut head = chars_of("HTTP/1.1 200 OK\r\n");
        let banner = chars_of("Server: SNI-PROXY-CACHE/0.0.1\r\n");
        extend_chars(&mut head, &banner);
        let wanted = chars_of("content-type");
        let colon = chars_of(": ");
        let line_end = chars_of("\r\n");
        let ghost start = head@;
        let mut i: usize = 0;
        assert(headers@.skip(0) =~= headers@);
        while i < headers.len()
            invariant
                i <= headers@.len(),
                wanted@ == "content-type"@,
                colon@ == ": "@,
                line_end@ == "\r\n"@,
                head@ + content_type_lines(headers@.skip(i as int)) == start + content_type_lines(
                    headers@,
                ),
            decreases headers@.len() - i,
        {
            let ghost rest = headers@.skip(i as int);
            let ghost before = head@;
            assert(rest.drop_first() =~= headers@.skip(i + 1));
            assert(rest[0] == headers@[i as int]);
            let name = chars_of(headers[i].0.as_str());
            if find_chars(&name, &wanted).is_some() {
                extend_chars(&mut head, &name);
                extend_chars(&mut head, &colon);
                let value = chars_of(headers[i].1.as_str());
                extend_chars(&mut head, &value);
                extend_chars(&mut head, &line_end);
                assert(head@ + content_type_lines(rest.drop_first()) =~= before + (rest[0].0@
                    + ": "@ + rest[0].1@ + "\r\n"@ + content_type_lines(rest.drop_first())));
            }
            i += 1;
        }
        assert(content_type_lines(headers@.skip(headers@.len() as int)) =~= Seq::<char>::empty());
        assert(head@ =~= start + content_type_lines(headers@));
        let length_name = chars_of("content-length: ");
        extend_chars(&mut head, &length_name);
        let number = decimal_chars(length);
        extend_chars(&mut head, &number);
        let blank = chars_of("\r\n\r\n");
        extend_chars(&mut head, &blank);
        string_of(&head)
    }

    /// The bytes that are stored for a fetched response: the head, then the
    /// body as it came.
    pub fn http_get_file(headers: &Vec<(String, String)>, body: &Vec<u8>) -> (r: Vec<u8>)
        ensures
            r@ == vstd::utf8::encode_utf8(response_head(headers@, body@.len())) + body@,
    {
        let head = Self::response_head_text(headers, body.len());
        let mut out = head.as_str().as_bytes_vec();
        let mut i: usize = 0;
        let ghost start = out@;
        while i < body.len()
            invariant
                i <= body@.len(),
                out@ == start + body@.take(i as int),
            decreases body@.len() - i,
        {
            out.push(body[i]);
            i += 1;
            assert(out@ =~= start + body@.take(i as int));
        }
        assert(body@.take(body@.len() as int) =~= body@);
        out
    }
}

} // verus!
