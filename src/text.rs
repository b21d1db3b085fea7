//! Plain text helpers: prefixes, suffixes and the comment banner that heads
//! every file this library writes.
use vstd::prelude::*;
use vstd::string::*;

verus! {

/// The comment block written at the top of each file.
pub const BANNER: &'static str = "# This is a generated configuration file from AI Lab\n#  See: https://github.com/felixbd/ai-lab/ \n#\n# ai lab - GUI for annotating, training, and evaluating AI models, simplifying workflows\n# Copyright (C) 2024 - Felix Drees - GNU General Public License v3.0\n#\n\n";

pub open spec fn has_prefix(s: Seq<char>, p: Seq<char>) -> bool {
    p.len() <= s.len() && s.subrange(0, p.len() as int) == p
}

pub open spec fn has_suffix(s: Seq<char>, p: Seq<char>) -> bool {
    p.len() <= s.len() && s.subrange(s.len() - p.len(), s.len() as int) == p
}

/// A text with the banner in front taken off; any other text as it is.
pub open spec fn without_banner(s: Seq<char>) -> Seq<char> {
    if has_prefix(s, BANNER@) {
        s.subrange(BANNER@.len() as int, s.len() as int)
    } else {
        s
    }
}

pub open spec fn opt_view(o: Option<&str>) -> Option<Seq<char>> {
    match o {
        Some(s) => Some(s@),
        None => None,
    }
}

pub fn starts_with(s: &str, p: &str) -> (r: bool)
    ensures
        r == has_prefix(s@, p@),
{
    let n = s.unicode_len();
    let m = p.unicode_len();
    if m > n {
        return false;
    }
    let mut i: usize = 0;
    while i < m
        invariant
            m <= n,
            n == s@.len(),
            m == p@.len(),
            i <= m,
            forall|j: int| 0 <= j < i ==> s@[j] == p@[j],
        decreases m - i,
    {
        if s.get_char(i) != p.get_char(i) {
            assert(s@.subrange(0, m as int)[i as int] != p@[i as int]);
            return false;
        }
        i = i + 1;
    }
    assert(s@.subrange(0, m as int) =~= p@);
    true
}

pub fn ends_with(s: &str, p: &str) -> (r: bool)
    ensures
        r == has_suffix(s@, p@),
{
    let n = s.unicode_len();
    let m = p.unicode_len();
    if m > n {
        return false;
    }
    let d = n - m;
    let mut i: usize = 0;
    while i < m
        invariant
            m <= n,
            d == n - m,
            n == s@.len(),
            m == p@.len(),
            i <= m,
            forall|j: int| 0 <= j < i ==> s@[d + j] == p@[j],
        decreases m - i,
    {
        if s.get_char(d + i) != p.get_char(i) {
            assert(s@.subrange(d as int, n as int)[i as int] != p@[i as int]);
            return false;
        }
        i = i + 1;
    }
    assert(s@.subrange(d as int, n as int) =~= p@);
    true
}

pub fn same_text(a: &str, b: &str) -> (r: bool)
    ensures
        r == (a@ == b@),
{
    let r = a.unicode_len() == b.unicode_len() && starts_with(a, b);
    assert(a@.subrange(0, a@.len() as int) =~= a@);
    r
}

/// The text that follows the banner, or the whole text where it does not
/// begin with one.
pub fn strip_banner(s: &str) -> (r: &str)
    ensures
        r@ == without_banner(s@),
{
    if starts_with(s, BANNER) {
        s.substring_char(BANNER.unicode_len(), s.unicode_len())
    } else {
        s
    }
}

/// The banner followed by `body`.
pub fn with_banner(body: &str) -> (r: String)
    ensures
        r@ == BANNER@ + body@,
        without_banner(r@) == body@,
        has_prefix(r@, BANNER@),
{
    let mut out = BANNER.to_owned();
    out.append(body);
    proof {
        assert(out@.subrange(0, BANNER@.len() as int) =~= BANNER@);
        assert(out@.subrange(BANNER@.len() as int, out@.len() as int) =~= body@);
    }
    out
}

} // verus!
