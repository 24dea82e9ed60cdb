//! HTTP API: response shapes, request payloads and the decisions the
//! handlers make.

pub mod activity;
pub mod api_keys;
pub mod auth;
pub mod cookie;
pub mod domain_rules;
pub mod error;
pub mod list_subscriptions;
pub mod local_records;
pub mod pagination;
pub mod stats;
pub mod extract;

use vstd::prelude::*;
use vstd::string::*;

verus! {

/// The bundled web front end, served for every path the API does not own.
#[derive(Debug, Clone, Copy, PartialEq, Eq)]
pub struct Assets;

/// `s` without its leading `c`s.
pub open spec fn trim_start(s: Seq<char>, c: char) -> Seq<char>
    decreases s.len(),
{
    if s.len() > 0 && s[0] == c {
        trim_start(s.drop_first(), c)
    } else {
        s
    }
}

/// Whether `t` occurs in `s`.
pub open spec fn has_substring(s: Seq<char>, t: Seq<char>) -> bool {
    exists|i: int| 0 <= i && i + t.len() <= s.len() && #[trigger] s.subrange(i, i + t.len()) == t
}

/// Whether `s` ends with `t`.
pub open spec fn has_suffix(s: Seq<char>, t: Seq<char>) -> bool {
    t.len() <= s.len() && s.subrange(s.len() - t.len(), s.len() as int) == t
}

/// The file served for a request path: the path without its leading slashes,
/// or `index.html` when that is empty or, outside `/assets`, names no file
/// with an extension (routes of the single-page front end).
pub open spec fn asset_file(uri_path: Seq<char>) -> Seq<char> {
    let path = trim_start(uri_path, '/');
    let has_extension = path.contains('.');
    let is_index_html = !has_substring(uri_path, "/assets"@) && !has_extension;
    if path.len() == 0 || is_index_html {
        "index.html"@
    } else {
        path
    }
}

/// How long a served file may be cached: files with an extension other than
/// `.html` carry a content hash and never change; pages are revalidated.
pub open spec fn asset_cache_control(path: Seq<char>) -> Seq<char> {
    if path.contains('.') && !has_suffix(path, ".html"@) {
        "public, max-age=31536000, immutable"@
    } else {
        "no-cache"@
    }
}

/// The index of the first character of `s` from `from` on that is not `c`.
fn skip_char(s: &str, c: char, from: usize) -> (i: usize)
    requires
        from <= s@.len(),
    ensures
        from <= i <= s@.len(),
        trim_start(s@.subrange(from as int, s@.len() as int), c) == s@.subrange(i as int, s@.len() as int),
    decreases s@.len() - from,
{
    let n = s.unicode_len();
    if from < n && s.get_char(from) == c {
        let i = skip_char(s, c, from + 1);
        assert(s@.subrange(from as int, s@.len() as int).drop_first() =~= s@.subrange(from + 1, s@.len() as int));
        i
    } else {
        from
    }
}

/// Whether `c` occurs in `s`.
fn contains_char(s: &str, c: char) -> (r: bool)
    ensures
        r == s@.contains(c),
{
    let n = s.unicode_len();
    let mut i: usize = 0;
    while i < n
        invariant
            n == s@.len(),
            i <= n,
            forall|j: int| 0 <= j < i ==> s@[j] != c,
        decreases n - i,
    {
        if s.get_char(i) == c {
            assert(s@[i as int] == c);
            return true;
        }
        i = i + 1;
    }
    false
}

/// Whether `t` occurs in `s` at `at`.
fn occurs_at(s: &str, t: &str, at: usize) -> (r: bool)
    requires
        at + t@.len() <= s@.len(),
    ensures
        r == (s@.subrange(at as int, at + t@.len()) == t@),
{
    let n = s.unicode_len();
    let m = t.unicode_len();
    let mut j: usize = 0;
    while j < m
        invariant
            n == s@.len(),
            m == t@.len(),
            at + m <= s@.len(),
            j <= m,
            forall|k: int| 0 <= k < j ==> s@[at + k] == t@[k],
        decreases m - j,
    {
        if s.get_char(at + j) != t.get_char(j) {
            assert(s@.subrange(at as int, at + t@.len())[j as int] != t@[j as int]);
            return false;
        }
        j = j + 1;
    }
    assert(s@.subrange(at as int, at + t@.len()) =~= t@);
    true
}

/// Whether `t` occurs in `s`.
fn contains_str(s: &str, t: &str) -> (r: bool)
    ensures
        r == has_substring(s@, t@),
{
    let n = s.unicode_len();
    let m = t.unicode_len();
    if m > n {
        return false;
    }
    if m == 0 {
        assert(has_substring(s@, t@)) by {
            assert(s@.subrange(0int, 0int + t@.len()) =~= t@);
        }
        return true;
    }
    let mut i: usize = 0;
    while i <= n - m
        invariant
            n == s@.len(),
            m == t@.len(),
            1 <= m <= n,
            i <= n - m + 1,
            forall|k: int| 0 <= k < i ==> #[trigger] s@.subrange(k, k + m) != t@,
        decreases n - m + 1 - i,
    {
        if occurs_at(s, t, i) {
            return true;
        }
        i = i + 1;
    }
    false
}

/// Whether `s` ends with `t`.
fn ends_with_str(s: &str, t: &str) -> (r: bool)
    ensures
        r == has_suffix(s@, t@),
{
    let n = s.unicode_len();
    let m = t.unicode_len();
    if m > n {
        return false;
    }
    occurs_at(s, t, n - m)
}

impl Assets {
    /// The file to serve for request path `uri_path` (see [`asset_file`]).
    pub fn resolve_path(uri_path: &str) -> (file: String)
        ensures
            file@ == asset_file(uri_path@),
    {
        let n = uri_path.unicode_len();
        let start = skip_char(uri_path, '/', 0);
        assert(uri_path@.subrange(0, uri_path@.len() as int) =~= uri_path@);
        let path = uri_path.substring_char(start, n);
        let has_extension = contains_char(path, '.');
        let is_index_html = !contains_str(uri_path, "/assets") && !has_extension;
        if path.unicode_len() == 0 || is_index_html {
            String::from_str("index.html")
        } else {
            String::from_str(path)
        }
    }

    /// The `Cache-Control` value for served file `path` (see [`asset_cache_control`]).
    pub fn cache_control(path: &str) -> (v: &'static str)
        ensures
            v@ == asset_cache_control(path@),
    {
        if contains_char(path, '.') && !ends_with_str(path, ".html") {
            "public, max-age=31536000, immutable"
        } else {
            "no-cache"
        }
    }
}

} // verus!
