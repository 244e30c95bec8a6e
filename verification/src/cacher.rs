//! The cache collaborator: what a session asks of it.

use crate::text::{
    chars_of, contains_seq, ends_with_seq, find_chars, replace_all, replace_chars, str_ends_with,
    string_of,
};
use vstd::prelude::*;

verus! {

/// The error of `std::io`, carried through as it is.
#[verifier::external_type_specification]
#[verifier::external_body]
pub struct ExIoError(std::io::Error);

/// A store of responses that a session consults before it turns to a
/// backend. Nothing is promised of an implementation: a session takes
/// whatever it answers.
pub trait Cacher {
    /// Notes that `http_path` of `host` was fetched from `forward` and gave
    /// `data`, so that it can be stored for later requests.
    fn cache_update_and_test_path(
        &mut self,
        host: &str,
        forward: &str,
        http_path: &str,
        data: &Vec<u8>,
    ) -> std::io::Result<bool>;

    /// The stored response for `http_path` of `host`, if there is one.
    fn cache_read_path(&self, host: &str, http_path: &str) -> Box<Option<Vec<u8>>>;
}

/// A file name made fit for the cache directory: doubled slashes and
/// backslash pairs become one slash, and the two characters that start and
/// divide a query become exclamation marks.
pub open spec fn sanitized(name: Seq<char>) -> Seq<char> {
    let a = replace_all(name, seq!['/', '/'], seq!['/']);
    let b = replace_all(a, seq!['\\', '/'], seq!['/']);
    let c = replace_all(b, seq!['&'], seq!['!']);
    let d = replace_all(c, seq!['?'], seq!['!']);
    replace_all(d, seq!['\\', '\\'], seq!['/'])
}

/// The directory of a host below the cache directory `root`.
pub open spec fn host_directory(root: Seq<char>, host: Seq<char>) -> Seq<char> {
    sanitized(root + seq!['/'] + host)
}

/// The file in which the response to `path` of `host` is stored: the path
/// below the host's directory, or `index.html` there where the path ends in a
/// slash or in the host's name.
pub open spec fn stored_file(root: Seq<char>, host: Seq<char>, path: Seq<char>) -> Seq<char> {
    if ends_with_seq(path, seq!['/']) || ends_with_seq(path, host) {
        host_directory(root, host) + seq!['/'] + "index.html"@
    } else {
        host_directory(root, host) + seq!['/'] + path
    }
}

/// The file that lists the paths of `host` to be fetched into the cache.
pub open spec fn path_list_file(root: Seq<char>, host: Seq<char>) -> Seq<char> {
    sanitized(root + seq!['/'] + host + seq!['/'] + "paths_to_cache.txt"@)
}

/// The line that records a path of a host: the address to fetch it from.
pub open spec fn path_list_entry(forward: Seq<char>, path: Seq<char>) -> Seq<char> {
    "http://"@ + forward + path
}

/// One of the lines mentions `path`.
pub open spec fn mentioned(lines: Seq<String>, path: Seq<char>) -> bool {
    exists|i: int| 0 <= i < lines.len() && contains_seq(#[trigger] lines[i]@, path)
}

fn one(c: char) -> (r: Vec<char>)
    ensures
        r@ == seq![c],
{
    let mut r: Vec<char> = Vec::new();
    r.push(c);
    assert(r@ =~= seq![c]);
    r
}

fn two(a: char, b: char) -> (r: Vec<char>)
    ensures
        r@ == seq![a, b],
{
    let mut r: Vec<char> = Vec::new();
    r.push(a);
    r.push(b);
    assert(r@ =~= seq![a, b]);
    r
}

/// Appends the characters of `more` to `v`.
pub(crate) fn extend_chars(v: &mut Vec<char>, more: &Vec<char>)
    ensures
        final(v)@ == old(v)@ + more@,
{
    let mut i: usize = 0;
    while i < more.len()
        invariant
            i <= more@.len(),
            v@ == old(v)@ + more@.take(i as int),
        decreases more@.len() - i,
    {
        v.push(more[i]);
        i += 1;
        assert(v@ =~= old(v)@ + more@.take(i as int));
    }
    assert(more@.take(more@.len() as int) =~= more@);
}

/// `name` made fit for the cache directory, as characters.
pub(crate) fn sanitize_chars(name: &Vec<char>) -> (r: Vec<char>)
    ensures
        r@ == sanitized(name@),
{
    let slash = one('/');
    let bang = one('!');
    let a = replace_chars(name, &two('/', '/'), &slash);
    let b = replace_chars(&a, &two('\\', '/'), &slash);
    let c = replace_chars(&b, &one('&'), &bang);
    let d = replace_chars(&c, &one('?'), &bang);
    replace_chars(&d, &two('\\', '\\'), &slash)
}

fn host_directory_chars(root: &str, host: &str) -> (r: Vec<char>)
    ensures
        r@ == host_directory(root@, host@),
{
    let mut raw = chars_of(root);
    raw.push('/');
    let h = chars_of(host);
    extend_chars(&mut raw, &h);
    assert(raw@ =~= root@ + seq!['/'] + host@);
    sanitize_chars(&raw)
}

/// The cache on disk, as far as its names and its rules go. Reading and
/// writing the files is left to whoever implements [`Cacher`] with it.
pub struct SNICacher {}

impl SNICacher {
    pub fn new() -> (r: SNICacher) {
        SNICacher {  }
    }

    /// `file_name` made fit for the cache directory.
    pub fn sanitize_file_name(&self, file_name: String) -> (r: String)
        ensures
            r@ == sanitized(file_name@),
    {
        let name = chars_of(file_name.as_str());
        let clean = sanitize_chars(&name);
        string_of(&clean)
    }

    /// The directory of `host` below the cache directory `root`.
    pub fn host_dir(&self, root: &str, host: &str) -> (r: String)
        ensures
            r@ == host_directory(root@, host@),
    {
        let dir = host_directory_chars(root, host);
        string_of(&dir)
    }

    /// The file in which the response to `http_path` of `host` is stored.
    pub fn get_file_name(&self, root: &str, host: &str, http_path: &str) -> (r: String)
        ensures
            r@ == stored_file(root@, host@, http_path@),
    {
        let mut name = host_directory_chars(root, host);
        name.push('/');
        if str_ends_with(http_path, "/") || str_ends_with(http_path, host) {
            proof {
                reveal_strlit("/");
                assert("/"@ =~= seq!['/']);
            }
            let index = chars_of("index.html");
            extend_chars(&mut name, &index);
            assert(name@ =~= host_directory(root@, host@) + seq!['/'] + "index.html"@);
        } else {
            proof {
                reveal_strlit("/");
                assert("/"@ =~= seq!['/']);
            }
            let path = chars_of(http_path);
            extend_chars(&mut name, &path);
            assert(name@ =~= host_directory(root@, host@) + seq!['/'] + http_path@);
        }
        string_of(&name)
    }

    /// The file that is read for a stored response: the name of the stored
    /// file, made fit once more.
    pub fn cache_file(&self, root: &str, host: &str, http_path: &str) -> (r: String)
        ensures
            r@ == sanitized(stored_file(root@, host@, http_path@)),
    {
        let name = self.get_file_name(root, host, http_path);
        self.sanitize_file_name(name)
    }

    /// The file that lists the paths of `host` to be fetched into the cache.
    pub fn path_list(&self, root: &str, host: &str) -> (r: String)
        ensures
            r@ == path_list_file(root@, host@),
    {
        let mut raw = chars_of(root);
        raw.push('/');
        let h = chars_of(host);
        extend_chars(&mut raw, &h);
        raw.push('/');
        let f = chars_of("paths_to_cache.txt");
        extend_chars(&mut raw, &f);
        assert(raw@ =~= root@ + seq!['/'] + host@ + seq!['/'] + "paths_to_cache.txt"@);
        let clean = sanitize_chars(&raw);
        string_of(&clean)
    }

    /// The line that records that `get_request` is fetched from `forward`.
    pub fn path_entry(&self, forward: &str, get_request: &str) -> (r: String)
        ensures
            r@ == path_list_entry(forward@, get_request@),
    {
        let mut line = chars_of("http://");
        let f = chars_of(forward);
        extend_chars(&mut line, &f);
        let p = chars_of(get_request);
        extend_chars(&mut line, &p);
        string_of(&line)
    }

    /// The line to add to the path list of a host, whose lines are `lines`,
    /// so that `get_request` is fetched from `forward`: none where a line
    /// mentions the path already.
    pub fn write_add_to_path_file(&self, lines: &Vec<String>, forward: &str, get_request: &str) -> (r:
        Option<String>)
        ensures
            match r {
                Some(line) => !mentioned(lines@, get_request@) && line@ == path_list_entry(
                    forward@,
                    get_request@,
                ),
                None => mentioned(lines@, get_request@),
            },
    {
        if self.search_file_for_path(lines, get_request) {
            None
        } else {
            Some(self.path_entry(forward, get_request))
        }
    }

    /// Whether one of the lines of the path list mentions `path`, so that it
    /// need not be recorded again.
    pub fn search_file_for_path(&self, lines: &Vec<String>, path: &str) -> (r: bool)
        ensures
            r == mentioned(lines@, path@),
    {
        let p = chars_of(path);
        let mut i: usize = 0;
        while i < lines.len()
            invariant
                i <= lines@.len(),
                p@ == path@,
                forall|j: int| 0 <= j < i ==> !contains_seq(#[trigger] lines@[j]@, path@),
            decreases lines@.len() - i,
        {
            let l = chars_of(lines[i].as_str());
            if find_chars(&l, &p).is_some() {
                return true;
            }
            i += 1;
        }
        false
    }
}

/// The cache in the form in which the proxy loads it.
pub fn get_cacher() -> (r: SNICacher) {
    SNICacher::new()
}

} // verus!
