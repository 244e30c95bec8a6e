//! The head of an HTTP request: where it ends, and what it asks for.
//!
//! The proxy never interprets a request beyond its head. It waits until the
//! buffered bytes hold the blank line that ends a head, has the head parsed,
//! and keeps two things: the value of the `Host` header, which selects the
//! backend, and the request path, which selects a cached response.

use crate::text::{chars_of, contains_seq, find_bytes};
use vstd::prelude::*;

verus! {

/// Number of header slots handed to the parser. A head with more headers is
/// malformed.
pub const MAX_HEADERS: usize = 200;

/// One header line of a request.
pub struct HeaderField {
    pub name: String,
    pub value: Vec<u8>,
}

/// What a complete request head holds, as far as the proxy reads it.
pub struct RequestHead {
    pub path: String,
    pub headers: Vec<HeaderField>,
}

/// The three ways in which parsing a buffer can end.
pub enum HeadParse {
    /// The buffer holds a whole head.
    Complete(RequestHead),
    /// The buffer is a proper beginning of a head.
    Partial,
    /// The buffer cannot be the beginning of a head.
    Invalid,
}

pub ghost struct HeaderView {
    pub name: Seq<char>,
    pub value: Seq<u8>,
}

pub ghost struct HeadView {
    pub path: Seq<char>,
    pub headers: Seq<HeaderView>,
}

pub ghost enum HeadParseView {
    Complete(HeadView),
    Partial,
    Invalid,
}

impl View for HeaderField {
    type V = HeaderView;

    open spec fn view(&self) -> HeaderView {
        HeaderView { name: self.name@, value: self.value@ }
    }
}

impl View for RequestHead {
    type V = HeadView;

    open spec fn view(&self) -> HeadView {
        HeadView {
            path: self.path@,
            headers: Seq::new(self.headers@.len(), |i: int| self.headers@[i]@),
        }
    }
}

impl View for HeadParse {
    type V = HeadParseView;

    open spec fn view(&self) -> HeadParseView {
        match self {
            HeadParse::Complete(h) => HeadParseView::Complete(h@),
            HeadParse::Partial => HeadParseView::Partial,
            HeadParse::Invalid => HeadParseView::Invalid,
        }
    }
}

/// What `httparse` makes of `buf` as a request head when it may fill at most
/// `slots` headers.
pub uninterp spec fn httparse_request(buf: Seq<u8>, slots: usize) -> HeadParseView;

/// The text that lossy UTF-8 decoding makes of `bytes`.
pub uninterp spec fn utf8_lossy(bytes: Seq<u8>) -> Seq<char>;

/// Runs `httparse::Request::parse` on `buf` with `slots` empty header slots.
///
/// Trusted: the outcome depends on `buf` and `slots` alone. `Complete` carries
/// the path and the headers, in order, that the parser stored; a parse that
/// ran out of input is `Partial`; any parse error is `Invalid`.
#[verifier::external_body]
pub(crate) fn parse_request(buf: &[u8], slots: usize) -> (r: HeadParse)
    ensures
        r@ == httparse_request(buf@, slots),
{
    let mut space = vec![httparse::EMPTY_HEADER; slots];
    let mut req = httparse::Request::new(&mut space);
    match req.parse(buf) {
        Ok(httparse::Status::Complete(_)) => HeadParse::Complete(
            RequestHead {
                path: req.path.map(String::from).unwrap_or_default(),
                headers: req.headers.iter().map(
                    |h| HeaderField { name: String::from(h.name), value: h.value.to_vec() },
                ).collect(),
            },
        ),
        Ok(httparse::Status::Partial) => HeadParse::Partial,
        Err(_) => HeadParse::Invalid,
    }
}

/// Decodes `bytes` with `String::from_utf8_lossy`.
///
/// Trusted: the text depends on `bytes` alone.
#[verifier::external_body]
pub(crate) fn lossy_text(bytes: &[u8]) -> (r: String)
    ensures
        r@ == utf8_lossy(bytes@),
{
    String::from_utf8_lossy(bytes).into_owned()
}

/// The four bytes that end a request head: CR LF CR LF.
pub open spec fn head_end() -> Seq<u8> {
    seq![13u8, 10u8, 13u8, 10u8]
}

/// The buffer holds the end of a request head.
pub open spec fn has_head_end(buf: Seq<u8>) -> bool {
    contains_seq(buf, head_end())
}

/// Whether the buffer holds the end of a request head.
pub fn contains_head_end(buf: &Vec<u8>) -> (r: bool)
    ensures
        r == has_head_end(buf@),
{
    let mut pat: Vec<u8> = Vec::new();
    pat.push(13u8);
    pat.push(10u8);
    pat.push(13u8);
    pat.push(10u8);
    assert(pat@ =~= head_end());
    find_bytes(buf.as_slice(), pat.as_slice()).is_some()
}

/// The code of `c`, with the upper-case ASCII letters moved onto the
/// lower-case ones.
pub open spec fn ascii_lower(c: char) -> u32 {
    if 65 <= c as u32 && c as u32 <= 90 {
        (c as u32 + 32) as u32
    } else {
        c as u32
    }
}

/// `name` is the word `host`, in whatever mix of cases.
pub open spec fn is_host_name(name: Seq<char>) -> bool {
    &&& name.len() == 4
    &&& ascii_lower(name[0]) == 104
    &&& ascii_lower(name[1]) == 111
    &&& ascii_lower(name[2]) == 115
    &&& ascii_lower(name[3]) == 116
}

/// Position of the first `Host` header among `headers`, or their number if
/// there is none.
pub open spec fn host_position(headers: Seq<HeaderView>) -> int
    decreases headers.len(),
{
    if headers.len() == 0 {
        0
    } else if is_host_name(headers[0].name) {
        0
    } else {
        1 + host_position(headers.drop_first())
    }
}

/// The bytes of the first `Host` header's value, or none where the head has no
/// such header.
pub open spec fn host_value(head: HeadView) -> Seq<u8> {
    let i = host_position(head.headers);
    if i < head.headers.len() {
        head.headers[i].value
    } else {
        Seq::empty()
    }
}

pub proof fn lemma_host_position(headers: Seq<HeaderView>)
    ensures
        0 <= host_position(headers) <= headers.len(),
        host_position(headers) < headers.len() ==> is_host_name(
            headers[host_position(headers)].name,
        ),
        forall|j: int| 0 <= j < host_position(headers) ==> !is_host_name(#[trigger] headers[j].name),
    decreases headers.len(),
{
    if headers.len() > 0 && !is_host_name(headers[0].name) {
        let rest = headers.drop_first();
        lemma_host_position(rest);
        assert forall|j: int| 0 <= j < host_position(headers) implies !is_host_name(
            #[trigger] headers[j].name,
        ) by {
            if j > 0 {
                assert(headers[j] == rest[j - 1]);
            }
        }
    }
}

fn lower_code(c: char) -> (r: u32)
    ensures
        r == ascii_lower(c),
{
    let u: u32 = c as u32;
    if 65 <= u && u <= 90 {
        u + 32
    } else {
        u
    }
}

/// Whether `name` is the word `host`, in whatever mix of cases.
pub fn names_host(name: &str) -> (r: bool)
    ensures
        r == is_host_name(name@),
{
    let cs = chars_of(name);
    cs.len() == 4 && lower_code(cs[0]) == 104 && lower_code(cs[1]) == 111 && lower_code(cs[2])
        == 115 && lower_code(cs[3]) == 116
}

/// Host name and request path of one request.
pub struct Route {
    pub host: String,
    pub path: String,
}

pub ghost struct RouteView {
    pub host: Seq<char>,
    pub path: Seq<char>,
}

impl View for Route {
    type V = RouteView;

    open spec fn view(&self) -> RouteView {
        RouteView { host: self.host@, path: self.path@ }
    }
}

/// The route that a parsed head asks for: the decoded value of its first
/// `Host` header (empty where it has none) and its path.
pub open spec fn route_of_head(head: HeadView) -> RouteView {
    RouteView { host: utf8_lossy(host_value(head)), path: head.path }
}

/// Host and path of a parsed head. The `Host` header is found by its name,
/// wherever it stands among the headers.
pub fn route_of(head: &RequestHead) -> (r: Route)
    ensures
        r@ == route_of_head(head@),
{
    let ghost hv = head@.headers;
    let mut i: usize = 0;
    proof {
        lemma_host_position(hv);
        assert(hv.skip(0) =~= hv);
    }
    while i < head.headers.len()
        invariant
            i <= head.headers@.len(),
            hv == head@.headers,
            hv.len() == head.headers@.len(),
            host_position(hv) == i + host_position(hv.skip(i as int)),
        decreases head.headers@.len() - i,
    {
        let ghost rest = hv.skip(i as int);
        assert(rest[0] == head.headers@[i as int]@);
        if names_host(head.headers[i].name.as_str()) {
            let host = lossy_text(head.headers[i].value.as_slice());
            return Route { host, path: head.path.clone() };
        }
        proof {
            assert(rest.drop_first() =~= hv.skip(i + 1));
        }
        i += 1;
    }
    let empty: Vec<u8> = Vec::new();
    let host = lossy_text(empty.as_slice());
    assert(empty@ =~= Seq::<u8>::empty());
    Route { host, path: head.path.clone() }
}

/// What the bytes buffered so far say about the request.
pub enum HeadStatus {
    /// A whole head has arrived and asks for this route.
    Routed(Route),
    /// More bytes are needed.
    Incomplete,
    /// The bytes cannot become a request head.
    Malformed,
}

pub ghost enum HeadStatusView {
    Routed(RouteView),
    Incomplete,
    Malformed,
}

impl View for HeadStatus {
    type V = HeadStatusView;

    open spec fn view(&self) -> HeadStatusView {
        match self {
            HeadStatus::Routed(r) => HeadStatusView::Routed(r@),
            HeadStatus::Incomplete => HeadStatusView::Incomplete,
            HeadStatus::Malformed => HeadStatusView::Malformed,
        }
    }
}

/// What a parse outcome means for the connection.
pub open spec fn status_of_parse(parsed: HeadParseView) -> HeadStatusView {
    match parsed {
        HeadParseView::Complete(h) => HeadStatusView::Routed(route_of_head(h)),
        HeadParseView::Partial => HeadStatusView::Incomplete,
        HeadParseView::Invalid => HeadStatusView::Malformed,
    }
}

/// What `buf` says about the request: nothing before the blank line has
/// arrived, and after that whatever parsing it yields.
pub open spec fn head_status(buf: Seq<u8>) -> HeadStatusView {
    if has_head_end(buf) {
        status_of_parse(httparse_request(buf, MAX_HEADERS))
    } else {
        HeadStatusView::Incomplete
    }
}

/// Turns a parse outcome into what it means for the connection.
pub fn classify_parse(parsed: &HeadParse) -> (r: HeadStatus)
    ensures
        r@ == status_of_parse(parsed@),
{
    match parsed {
        HeadParse::Complete(h) => HeadStatus::Routed(route_of(h)),
        HeadParse::Partial => HeadStatus::Incomplete,
        HeadParse::Invalid => HeadStatus::Malformed,
    }
}

/// Looks for a complete request head in `buf` and extracts its route.
pub fn read_head(buf: &Vec<u8>) -> (r: HeadStatus)
    ensures
        r@ == head_status(buf@),
{
    if !contains_head_end(buf) {
        return HeadStatus::Incomplete;
    }
    let parsed = parse_request(buf.as_slice(), MAX_HEADERS);
    classify_parse(&parsed)
}

} // verus!
