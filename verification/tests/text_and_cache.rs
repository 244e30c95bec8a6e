use sni_proxy::cache_iterator::{decimal_chars, CacheIterator, Fetch, LineAction};
use sni_proxy::cacher::{get_cacher, SNICacher};
use sni_proxy::http_head::{
    classify_parse, contains_head_end, names_host, read_head, route_of, HeadParse, HeadStatus,
    HeaderField, RequestHead,
};
use sni_proxy::text::{
    find_bytes, find_chars, replace_chars, str_contains, str_ends_with, str_starts_with,
};

fn chars(s: &str) -> Vec<char> {
    s.chars().collect()
}

fn routed(buf: &[u8]) -> (String, String) {
    match read_head(&buf.to_vec()) {
        HeadStatus::Routed(r) => (r.host, r.path),
        HeadStatus::Incomplete => panic!("incomplete"),
        HeadStatus::Malformed => panic!("malformed"),
    }
}

#[test]
fn search_finds_first_occurrence() {
    assert_eq!(find_bytes(b"abcabc", b"bc"), Some(1));
    assert_eq!(find_bytes(b"abcabc", b"cb"), None);
    assert_eq!(find_bytes(b"abc", b""), Some(0));
    assert_eq!(find_bytes(b"", b"a"), None);
    assert_eq!(find_bytes(b"ab", b"abc"), None);
    assert_eq!(find_chars(&chars("héllo wörld"), &chars("wö")), Some(6));
    assert!(str_contains("paths_to_cache", "to_"));
    assert!(!str_contains("paths", "z"));
    assert!(str_starts_with("COOKIE=a", "COOKIE="));
    assert!(!str_starts_with("COOKI", "COOKIE="));
    assert!(str_ends_with("/a/b/", "/"));
    assert!(!str_ends_with("/a/b", "/"));
    assert!(str_ends_with("x", ""));
}

#[test]
fn replace_scans_left_to_right_once() {
    assert_eq!(replace_chars(&chars("a//b///c"), &chars("//"), &chars("/")), chars("a/b//c"));
    assert_eq!(replace_chars(&chars("aaa"), &chars("aa"), &chars("b")), chars("ba"));
    assert_eq!(replace_chars(&chars("abc"), &chars(""), &chars("x")), chars("abc"));
    assert_eq!(replace_chars(&chars("a?b&c"), &chars("?"), &chars("!")), chars("a!b&c"));
    assert_eq!(replace_chars(&chars(""), &chars("a"), &chars("b")), chars(""));
}

#[test]
fn head_end_is_found_in_bytes() {
    assert!(contains_head_end(&b"GET / HTTP/1.1\r\n\r\n".to_vec()));
    assert!(!contains_head_end(&b"GET / HTTP/1.1\r\n".to_vec()));
    assert!(!contains_head_end(&b"\r\n\r".to_vec()));
    assert!(contains_head_end(&b"\xff\xfe\r\n\r\nbody".to_vec()));
    assert!(!contains_head_end(&Vec::new()));
}

#[test]
fn head_yields_host_and_path() {
    let (host, path) = routed(b"GET /index.html HTTP/1.1\r\nHost: example.com\r\n\r\n");
    assert_eq!(host, "example.com");
    assert_eq!(path, "/index.html");
}

#[test]
fn host_is_found_by_name_not_by_position() {
    let (host, path) = routed(
        b"POST /a?b=c HTTP/1.1\r\nUser-Agent: t\r\nAccept: */*\r\nhOsT: Example.org:8080\r\nHost: second\r\n\r\nbody",
    );
    assert_eq!(host, "Example.org:8080");
    assert_eq!(path, "/a?b=c");
}

#[test]
fn head_without_host_has_empty_host() {
    let (host, path) = routed(b"GET /x HTTP/1.0\r\nAccept: */*\r\n\r\n");
    assert_eq!(host, "");
    assert_eq!(path, "/x");
}

#[test]
fn host_bytes_are_decoded_leniently() {
    let (host, _) = routed(b"GET / HTTP/1.1\r\nHost: caf\xc3\xa9.example\r\n\r\n");
    assert_eq!(host, "café.example");
    let (host, _) = routed(b"GET / HTTP/1.1\r\nHost: bad\xff.example\r\n\r\n");
    assert_eq!(host, "bad\u{fffd}.example");
}

#[test]
fn unfinished_and_broken_heads_are_told_apart() {
    assert!(matches!(read_head(&b"GET / HTTP/1.1\r\nHost: a".to_vec()), HeadStatus::Incomplete));
    assert!(matches!(read_head(&b"\r\n\r\nGET / HT".to_vec()), HeadStatus::Incomplete));
    assert!(matches!(read_head(&b"GET\x00/ HTTP/1.1\r\n\r\n".to_vec()), HeadStatus::Malformed));
    assert!(matches!(read_head(&b"GET / HTTP/9.9\r\n\r\n".to_vec()), HeadStatus::Malformed));
}

#[test]
fn too_many_headers_are_malformed() {
    let mut buf = b"GET / HTTP/1.1\r\n".to_vec();
    for i in 0..201 {
        buf.extend_from_slice(format!("X-{}: v\r\n", i).as_bytes());
    }
    buf.extend_from_slice(b"\r\n");
    assert!(matches!(read_head(&buf), HeadStatus::Malformed));
    let mut fits = b"GET / HTTP/1.1\r\n".to_vec();
    for i in 0..199 {
        fits.extend_from_slice(format!("X-{}: v\r\n", i).as_bytes());
    }
    fits.extend_from_slice(b"Host: last.example\r\n\r\n");
    assert_eq!(routed(&fits).0, "last.example");
}

#[test]
fn parse_outcomes_are_classified() {
    let head = RequestHead {
        path: "/p".to_string(),
        headers: vec![
            HeaderField { name: "Accept".to_string(), value: b"*/*".to_vec() },
            HeaderField { name: "HOST".to_string(), value: b"h.example".to_vec() },
        ],
    };
    let r = route_of(&head);
    assert_eq!(r.host, "h.example");
    assert_eq!(r.path, "/p");
    assert!(matches!(classify_parse(&HeadParse::Complete(head)), HeadStatus::Routed(_)));
    assert!(matches!(classify_parse(&HeadParse::Partial), HeadStatus::Incomplete));
    assert!(matches!(classify_parse(&HeadParse::Invalid), HeadStatus::Malformed));
    assert!(names_host("Host"));
    assert!(names_host("hOST"));
    assert!(!names_host("Hosts"));
    assert!(!names_host("X-Host"));
    assert!(!names_host(""));
}

#[test]
fn file_names_are_made_fit() {
    let c = SNICacher::new();
    assert_eq!(c.sanitize_file_name("cache//example.com".to_string()), "cache/example.com");
    assert_eq!(c.sanitize_file_name("a\\/b".to_string()), "a/b");
    assert_eq!(c.sanitize_file_name("q?x=1&y=2".to_string()), "q!x=1!y=2");
    assert_eq!(c.sanitize_file_name("a\\\\b".to_string()), "a/b");
    assert_eq!(c.sanitize_file_name("a///b".to_string()), "a//b");
    assert_eq!(c.sanitize_file_name(String::new()), "");
    assert_eq!(
        CacheIterator::sanitize_file_name("cache//h/p?x&y".to_string()),
        "cache/h/p!x!y"
    );
}

#[test]
fn stored_file_names_follow_host_and_path() {
    let c = get_cacher();
    assert_eq!(c.get_file_name("/var/cache", "example.com", "/a/b.css"), "/var/cache/example.com//a/b.css");
    assert_eq!(c.cache_file("/var/cache", "example.com", "/a/b.css"), "/var/cache/example.com/a/b.css");
    assert_eq!(c.get_file_name("/var/cache/", "example.com", "/"), "/var/cache/example.com/index.html");
    assert_eq!(c.get_file_name("cache", "example.com", "/docs/"), "cache/example.com/index.html");
    assert_eq!(
        c.get_file_name("cache", "example.com", "http://example.com"),
        "cache/example.com/index.html"
    );
    assert_eq!(c.cache_file("cache", "example.com", "/s?q=1&r=2"), "cache/example.com/s!q=1!r=2");
    assert_eq!(c.host_dir("cache/", "example.com"), "cache/example.com");
    assert_eq!(c.path_list("cache", "example.com"), "cache/example.com/paths_to_cache.txt");
    assert_eq!(
        CacheIterator::get_file_name("cache", "example.com", "/x"),
        "cache/example.com//x"
    );
    assert_eq!(
        CacheIterator::static_list("cache", "example.com"),
        "cache/example.com/paths_to_cache_static.txt"
    );
}

#[test]
fn path_list_entries_and_search() {
    let c = SNICacher::new();
    assert_eq!(c.path_entry("10.0.0.5:8080", "/index.html"), "http://10.0.0.5:8080/index.html");
    let lines = vec![
        "http://10.0.0.5:8080/index.html".to_string(),
        "http://10.0.0.5:8080/style.css".to_string(),
    ];
    assert!(c.search_file_for_path(&lines, "/style.css"));
    assert!(c.search_file_for_path(&lines, "/index"));
    assert!(!c.search_file_for_path(&lines, "/script.js"));
    assert!(!c.search_file_for_path(&Vec::new(), "/"));
    assert_eq!(c.write_add_to_path_file(&lines, "10.0.0.5:8080", "/style.css"), None);
    assert_eq!(
        c.write_add_to_path_file(&lines, "10.0.0.5:8080", "/script.js"),
        Some("http://10.0.0.5:8080/script.js".to_string())
    );
}

#[test]
fn path_list_lines_are_classified() {
    assert!(matches!(CacheIterator::classify_line("", true), LineAction::Skip));
    assert!(matches!(CacheIterator::classify_line("", false), LineAction::Skip));
    assert!(matches!(CacheIterator::classify_line("# note", true), LineAction::Skip));
    assert!(matches!(CacheIterator::classify_line("; note", true), LineAction::Skip));
    assert!(matches!(CacheIterator::classify_line("# note", false), LineAction::Fetch));
    assert!(matches!(CacheIterator::classify_line("IGNORE_HOST now", true), LineAction::IgnoreHost));
    assert!(matches!(CacheIterator::classify_line("IGNORE_HOST", false), LineAction::Fetch));
    match CacheIterator::classify_line("COOKIE=a=b; c=d", true) {
        LineAction::Cookie(c) => assert_eq!(c, "a=b; c=d"),
        _ => panic!("no cookie"),
    }
    match CacheIterator::classify_line("COOKIE=", true) {
        LineAction::Cookie(c) => assert_eq!(c, ""),
        _ => panic!("no cookie"),
    }
    assert!(matches!(CacheIterator::classify_line("http://h/p", true), LineAction::Fetch));
}

fn pairs(fetches: &Vec<Fetch>) -> Vec<(String, String)> {
    fetches.iter().map(|f| (f.url.clone(), f.cookie.clone())).collect()
}

#[test]
fn hand_written_list_sets_cookies_and_stops_at_ignore() {
    let lines: Vec<String> = [
        "# paths",
        "http://h/a",
        "",
        "COOKIE=s=1",
        "http://h/b",
        "COOKIE=s=2",
        "http://h/c",
        "IGNORE_HOST",
        "http://h/d",
    ]
    .iter()
    .map(|l| l.to_string())
    .collect();
    let planned = CacheIterator::search_file_for_path(&lines, true);
    assert_eq!(
        pairs(&planned),
        vec![
            ("http://h/a".to_string(), "".to_string()),
            ("http://h/b".to_string(), "s=1".to_string()),
            ("http://h/c".to_string(), "s=2".to_string()),
        ]
    );
    let plain = CacheIterator::search_file_for_path(&lines, false);
    assert_eq!(plain.len(), 8);
    assert_eq!(plain[0].url, "# paths");
    assert_eq!(plain[7].cookie, "");
}

#[test]
fn stored_response_has_head_and_body() {
    let stored = CacheIterator::http_get_file(&Vec::new(), &b"hi".to_vec());
    assert_eq!(
        stored,
        b"HTTP/1.1 200 OK\r\nServer: SNI-PROXY-CACHE/0.0.1\r\ncontent-length: 2\r\n\r\nhi".to_vec()
    );
    let headers = vec![
        ("date".to_string(), "today".to_string()),
        ("content-type".to_string(), "text/html; charset=utf-8".to_string()),
        ("content-length".to_string(), "999".to_string()),
    ];
    let body = vec![0u8, 255, 10, 13];
    let stored = CacheIterator::http_get_file(&headers, &body);
    let mut expected =
        b"HTTP/1.1 200 OK\r\nServer: SNI-PROXY-CACHE/0.0.1\r\ncontent-type: text/html; charset=utf-8\r\ncontent-length: 4\r\n\r\n"
            .to_vec();
    expected.extend_from_slice(&body);
    assert_eq!(stored, expected);
    assert_eq!(
        CacheIterator::response_head_text(&Vec::new(), 0),
        "HTTP/1.1 200 OK\r\nServer: SNI-PROXY-CACHE/0.0.1\r\ncontent-length: 0\r\n\r\n"
    );
}

#[test]
fn numbers_are_written_in_decimal() {
    assert_eq!(decimal_chars(0), chars("0"));
    assert_eq!(decimal_chars(7), chars("7"));
    assert_eq!(decimal_chars(10), chars("10"));
    assert_eq!(decimal_chars(1234567890), chars("1234567890"));
    assert_eq!(decimal_chars(usize::MAX), chars(&usize::MAX.to_string()));
}

#[test]
fn fetched_responses_are_stored_under_the_path_of_the_address() {
    assert_eq!(
        CacheIterator::store_name("cache", "example.com", "http://10.0.0.5:8080/a/b.css?v=1"),
        Some("cache/example.com/a/b.css".to_string())
    );
    assert_eq!(
        CacheIterator::store_name("cache", "example.com", "http://10.0.0.5:8080"),
        Some("cache/example.com/index.html".to_string())
    );
    assert_eq!(
        CacheIterator::store_name("cache", "example.com", "http://10.0.0.5/docs/"),
        Some("cache/example.com/index.html".to_string())
    );
    assert_eq!(CacheIterator::store_name("cache", "example.com", "/only/a/path"), None);
    assert_eq!(
        CacheIterator::store_name_for_path("cache", "example.com", "/s?q=1&r=2"),
        "cache/example.com/s!q=1!r=2"
    );
}
