//! Syntactic acceptance filter for submitted URLs.
//!
//! A candidate URL is accepted when it carries an `http`, `https` or `ftp`
//! scheme followed by a non-empty host part, and contains none of a fixed
//! denylist of fragments. The check is purely syntactic: no name
//! resolution is attempted. The denylist is a defence-in-depth heuristic
//! against script and data URLs and query smuggling, not a complete
//! sanitizer.

use vstd::prelude::*;

verus! {

/// Returned when a submitted URL is rejected by the acceptance filter.
pub struct InvalidLink;

/// White space as the pattern counts it: the Unicode white-space code
/// points.
pub open spec fn is_space(c: char) -> bool {
    let u = c as u32;
    ||| u == 0x20
    ||| (0x09 <= u && u <= 0x0d)
    ||| u == 0x85
    ||| u == 0xa0
    ||| u == 0x1680
    ||| (0x2000 <= u && u <= 0x200a)
    ||| u == 0x2028
    ||| u == 0x2029
    ||| u == 0x202f
    ||| u == 0x205f
    ||| u == 0x3000
}

/// `s` begins with `p`.
pub open spec fn starts_with(s: Seq<char>, p: Seq<char>) -> bool {
    p.len() <= s.len() && s.subrange(0, p.len() as int) == p
}

/// `needle` occurs in `s` at position `i`.
pub open spec fn occurs_at(s: Seq<char>, needle: Seq<char>, i: int) -> bool {
    0 <= i && i + needle.len() <= s.len() && s.subrange(i, i + needle.len()) == needle
}

/// `needle` occurs somewhere in `s`.
pub open spec fn contains_seq(s: Seq<char>, needle: Seq<char>) -> bool {
    exists|i: int| occurs_at(s, needle, i)
}

/// The fixed denylist: a space, a query or escape character, a quote, an
/// ampersand, or the prefix of a script or data URL anywhere in the
/// string.
pub open spec fn has_banned_fragment(s: Seq<char>) -> bool {
    ||| contains_seq(s, " "@)
    ||| contains_seq(s, "?"@)
    ||| contains_seq(s, "\""@)
    ||| contains_seq(s, "&"@)
    ||| contains_seq(s, "%"@)
    ||| contains_seq(s, "javascript:"@)
    ||| contains_seq(s, "data:"@)
}

/// Position right after an accepted scheme prefix, or -1 when none of
/// `https://`, `http://`, `ftp://` begins the string.
pub open spec fn scheme_end(s: Seq<char>) -> int {
    if starts_with(s, "https://"@) {
        8
    } else if starts_with(s, "http://"@) {
        7
    } else if starts_with(s, "ftp://"@) {
        6
    } else {
        -1
    }
}

/// The first character of the host part may not be white space nor one
/// of `/`, `$`, `.`, `?`, `#`.
pub open spec fn host_first_char_ok(c: char) -> bool {
    &&& !is_space(c)
    &&& c != '/'
    &&& c != '$'
    &&& c != '.'
    &&& c != '?'
    &&& c != '#'
}

/// The structural pattern: an accepted scheme, then a host part of at
/// least two characters whose first character is admissible, whose
/// second is not a line feed, and which carries no white space from the
/// third character to the end.
pub open spec fn matches_url_pattern(s: Seq<char>) -> bool {
    let k = scheme_end(s);
    &&& k >= 0
    &&& s.len() >= k + 2
    &&& host_first_char_ok(s[k])
    &&& s[k + 1] != '\n'
    &&& forall|i: int| k + 2 <= i < s.len() ==> !is_space(#[trigger] s[i])
}

/// A candidate URL is accepted when it matches the structural pattern
/// and holds no denylisted fragment.
pub open spec fn url_accepted(s: Seq<char>) -> bool {
    !has_banned_fragment(s) && matches_url_pattern(s)
}

fn char_is_space(c: char) -> (b: bool)
    ensures
        b == is_space(c),
{
    let u = c as u32;
    u == 0x20 || (0x09 <= u && u <= 0x0d) || u == 0x85 || u == 0xa0 || u == 0x1680 || (0x2000 <= u
        && u <= 0x200a) || u == 0x2028 || u == 0x2029 || u == 0x202f || u == 0x205f || u == 0x3000
}

fn occurs_at_exec(s: &str, needle: &str, i: usize) -> (b: bool)
    requires
        i + needle@.len() <= s@.len(),
    ensures
        b == occurs_at(s@, needle@, i as int),
{
    let n = s.unicode_len();
    let m = needle.unicode_len();
    let mut j: usize = 0;
    while j < m
        invariant
            n == s@.len(),
            m == needle@.len(),
            i + m <= n,
            0 <= j <= m,
            forall|t: int| 0 <= t < j ==> s@[i + t] == needle@[t],
        decreases m - j,
    {
        if s.get_char(i + j) != needle.get_char(j) {
            assert(s@.subrange(i as int, i + m) != needle@) by {
                assert(s@.subrange(i as int, i + m)[j as int] == s@[i + j]);
            }
            return false;
        }
        j += 1;
    }
    assert(s@.subrange(i as int, i + m) =~= needle@);
    true
}

fn starts_with_exec(s: &str, p: &str) -> (b: bool)
    ensures
        b == starts_with(s@, p@),
{
    let n = s.unicode_len();
    let m = p.unicode_len();
    if m > n {
        return false;
    }
    let r = occurs_at_exec(s, p, 0);
    assert(s@.subrange(0, p@.len() as int) == s@.subrange(0int, 0 + p@.len() as int));
    r
}

fn contains_fragment(s: &str, needle: &str) -> (b: bool)
    ensures
        b == contains_seq(s@, needle@),
{
    let n = s.unicode_len();
    let m = needle.unicode_len();
    if m == 0 {
        assert(occurs_at(s@, needle@, 0)) by {
            assert(s@.subrange(0, 0) =~= needle@);
        }
        return true;
    }
    if m > n {
        assert(forall|t: int| !occurs_at(s@, needle@, t));
        return false;
    }
    let mut i: usize = 0;
    while i <= n - m
        invariant
            n == s@.len(),
            m == needle@.len(),
            1 <= m <= n,
            0 <= i <= n - m + 1,
            forall|t: int| 0 <= t < i ==> !occurs_at(s@, needle@, t),
        decreases n - m + 1 - i,
    {
        if occurs_at_exec(s, needle, i) {
            assert(contains_seq(s@, needle@));
            return true;
        }
        i += 1;
    }
    assert(forall|t: int| !occurs_at(s@, needle@, t));
    false
}

fn matches_pattern_exec(s: &str) -> (b: bool)
    ensures
        b == matches_url_pattern(s@),
{
    let n = s.unicode_len();
    let k: usize;
    if starts_with_exec(s, "https://") {
        k = 8;
    } else if starts_with_exec(s, "http://") {
        k = 7;
    } else if starts_with_exec(s, "ftp://") {
        k = 6;
    } else {
        return false;
    }
    if n < k + 2 {
        return false;
    }
    let c0 = s.get_char(k);
    if char_is_space(c0) || c0 == '/' || c0 == '$' || c0 == '.' || c0 == '?' || c0 == '#' {
        return false;
    }
    let c1 = s.get_char(k + 1);
    if c1 == '\n' {
        return false;
    }
    let mut i: usize = k + 2;
    while i < n
        invariant
            n == s@.len(),
            k + 2 <= i <= n,
            k == scheme_end(s@),
            forall|t: int| k + 2 <= t < i ==> !is_space(#[trigger] s@[t]),
        decreases n - i,
    {
        if char_is_space(s.get_char(i)) {
            return false;
        }
        i += 1;
    }
    true
}

/// The acceptance filter as a test: true exactly on the URLs that
/// `validate_link` accepts.
pub fn url_is_acceptable(link: &str) -> (b: bool)
    ensures
        b == url_accepted(link@),
{
    if contains_fragment(link, " ") {
        return false;
    }
    if contains_fragment(link, "?") {
        return false;
    }
    if contains_fragment(link, "\"") {
        return false;
    }
    if contains_fragment(link, "&") {
        return false;
    }
    if contains_fragment(link, "%") {
        return false;
    }
    if contains_fragment(link, "javascript:") {
        return false;
    }
    if contains_fragment(link, "data:") {
        return false;
    }
    matches_pattern_exec(link)
}

/// Validate a candidate URL before persistence: the accepted URL comes
/// back unchanged, a rejected one is classified as `InvalidLink`, never
/// a crash.
pub fn validate_link(link: String) -> (r: Result<String, InvalidLink>)
    ensures
        match r {
            Ok(u) => url_accepted(link@) && u@ == link@,
            Err(_) => !url_accepted(link@),
        },
{
    if url_is_acceptable(link.as_str()) {
        Ok(link)
    } else {
        Err(InvalidLink)
    }
}

} // verus!
