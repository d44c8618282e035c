//! Character-level building blocks for the URL grammar: character classes,
//! case-insensitive literals and maximal runs.
//!
//! Literals ignore case as lowercasing does: an ASCII letter matches its
//! lower-case form, and the Kelvin sign (U+212A), whose lower case is `k`,
//! matches `k`; no other character lowercases to an ASCII letter. Unlike a
//! Unicode case-folding regex, the long s (U+017F) does not match `s`: the
//! pre-check, which lowercases, would not let such a text through either.
//! Word characters are ASCII (`[A-Za-z0-9_]`): platform user names and post
//! ids are. Whitespace is the full Unicode `White_Space` set, so a no-break
//! space ends a link.
use vstd::prelude::*;

verus! {

/// The character classes that the URL grammar scans runs of.
#[derive(Clone, Copy, PartialEq, Eq, Structural, Debug)]
pub enum CharClass {
    /// `[A-Za-z0-9_]`
    Word,
    /// A path segment character: not `/`, whitespace, `)`, `]` or a backtick.
    Segment,
    /// A path character, query included: not whitespace, `)`, `]` or a backtick.
    Path,
}

pub open spec fn is_word_char(c: char) -> bool {
    ('a' <= c && c <= 'z') || ('A' <= c && c <= 'Z') || ('0' <= c && c <= '9') || c == '_'
}

/// Unicode `White_Space`: the characters that end a link in chat text.
pub open spec fn is_space_char(c: char) -> bool {
    ('\t' <= c && c <= '\r') || c == ' ' || c == '\u{85}' || c == '\u{a0}' || c == '\u{1680}'
        || ('\u{2000}' <= c && c <= '\u{200a}') || c == '\u{2028}' || c == '\u{2029}' || c
        == '\u{202f}' || c == '\u{205f}' || c == '\u{3000}'
}

/// Characters that end a link inside chat text or markdown.
pub open spec fn is_link_stop(c: char) -> bool {
    is_space_char(c) || c == ')' || c == ']' || c == '`'
}

pub open spec fn in_class(c: char, k: CharClass) -> bool {
    match k {
        CharClass::Word => is_word_char(c),
        CharClass::Segment => c != '/' && !is_link_stop(c),
        CharClass::Path => !is_link_stop(c),
    }
}

/// `c` lowercases to the lower-case pattern character `l`.
pub open spec fn ci_eq(c: char, l: char) -> bool {
    c == l || ('a' <= l && l <= 'z' && (c as u32) + 32 == (l as u32)) || (l == 'k' && c
        == '\u{212a}')
}

/// The lower-case literal `lit` occurs in `s` at `i`, ignoring case.
pub open spec fn lit_at(s: Seq<char>, i: int, lit: Seq<char>) -> bool {
    &&& 0 <= i
    &&& i + lit.len() <= s.len()
    &&& forall|k: int| 0 <= k < lit.len() ==> ci_eq(#[trigger] s[i + k], lit[k])
}

/// The end of the maximal run of class `k` that starts at `i`.
pub open spec fn run_end(s: Seq<char>, i: int, k: CharClass) -> int
    decreases s.len() - i,
{
    if i < 0 || i >= s.len() || !in_class(s[i], k) {
        i
    } else {
        run_end(s, i + 1, k)
    }
}

pub fn char_in_class(c: char, k: CharClass) -> (r: bool)
    ensures
        r == in_class(c, k),
{
    let space = ('\t' <= c && c <= '\r') || c == ' ' || c == '\u{85}' || c == '\u{a0}' || c
        == '\u{1680}' || ('\u{2000}' <= c && c <= '\u{200a}') || c == '\u{2028}' || c
        == '\u{2029}' || c == '\u{202f}' || c == '\u{205f}' || c == '\u{3000}';
    let stop = space || c == ')' || c == ']' || c == '`';
    match k {
        CharClass::Word => ('a' <= c && c <= 'z') || ('A' <= c && c <= 'Z') || ('0' <= c && c
            <= '9') || c == '_',
        CharClass::Segment => c != '/' && !stop,
        CharClass::Path => !stop,
    }
}

/// Scans the maximal run of class `k` from `i`.
pub fn scan_run(s: &Vec<char>, i: usize, k: CharClass) -> (r: usize)
    requires
        i <= s.len(),
    ensures
        r as int == run_end(s@, i as int, k),
        i <= r <= s.len(),
{
    let mut j: usize = i;
    while j < s.len() && char_in_class(s[j], k)
        invariant
            i <= j <= s.len(),
            run_end(s@, j as int, k) == run_end(s@, i as int, k),
        decreases s.len() - j,
    {
        j = j + 1;
    }
    j
}

pub fn ci_char_eq(c: char, l: char) -> (r: bool)
    ensures
        r == ci_eq(c, l),
{
    c == l || ('a' <= l && l <= 'z' && (c as u32) + 32 == (l as u32)) || (l == 'k' && c
        == '\u{212a}')
}

/// Tests whether the lower-case literal `lit` occurs in `s` at `i`, ignoring case.
pub fn match_lit(s: &Vec<char>, i: usize, lit: &str) -> (r: bool)
    ensures
        r == lit_at(s@, i as int, lit@),
{
    let n = lit.unicode_len();
    if n > s.len() || i > s.len() - n {
        return false;
    }
    let mut k: usize = 0;
    while k < n
        invariant
            n == lit@.len(),
            i + n <= s.len(),
            k <= n,
            forall|m: int| 0 <= m < k ==> ci_eq(#[trigger] s@[i + m], lit@[m]),
        decreases n - k,
    {
        if !ci_char_eq(s[i + k], lit.get_char(k)) {
            return false;
        }
        k = k + 1;
    }
    true
}

/// The characters of `s`, in order.
pub fn chars_of(s: &str) -> (r: Vec<char>)
    ensures
        r@ == s@,
{
    let mut v: Vec<char> = Vec::new();
    for c in it: s.chars()
        invariant
            it.seq() == s@,
            v@ == it.seq().subrange(0, it.index() as int),
    {
        v.push(c);
    }
    v
}

/// The characters of `src` from position `a` up to `b`, as a new string.
pub fn piece(src: &str, a: usize, b: usize) -> (r: String)
    requires
        a <= b <= src@.len(),
    ensures
        r@ == src@.subrange(a as int, b as int),
{
    src.substring_char(a, b).to_owned()
}

/// Tests two strings for equality, character by character.
pub fn str_eq(a: &str, b: &str) -> (r: bool)
    ensures
        r == (a@ == b@),
{
    let x = chars_of(a);
    let y = chars_of(b);
    if x.len() != y.len() {
        return false;
    }
    let mut k: usize = 0;
    while k < x.len()
        invariant
            x@ == a@,
            y@ == b@,
            x.len() == y.len(),
            k <= x.len(),
            forall|m: int| 0 <= m < k ==> x@[m] == y@[m],
        decreases x.len() - k,
    {
        if x[k] != y[k] {
            assert(x@[k as int] != y@[k as int]);
            return false;
        }
        k = k + 1;
    }
    assert(x@ =~= y@);
    true
}

pub proof fn lemma_lit_char(c: Seq<char>, i: int, lit: Seq<char>, k: int)
    requires
        lit_at(c, i, lit),
        0 <= k < lit.len(),
    ensures
        ci_eq(c[i + k], lit[k]),
{
}

pub proof fn lemma_not_lit_at(c: Seq<char>, x: int, lit: Seq<char>, k: int)
    requires
        0 <= k < lit.len(),
        !ci_eq(c[x + k], lit[k]),
    ensures
        !lit_at(c, x, lit),
{
    if lit_at(c, x, lit) {
        lemma_lit_char(c, x, lit, k);
    }
}

pub proof fn lemma_run_end_range(s: Seq<char>, i: int, k: CharClass)
    requires
        0 <= i <= s.len(),
    ensures
        i <= run_end(s, i, k) <= s.len(),
    decreases s.len() - i,
{
    if i < s.len() && in_class(s[i], k) {
        lemma_run_end_range(s, i + 1, k);
    }
}

pub proof fn lemma_run_end_class(s: Seq<char>, i: int, k: CharClass)
    requires
        0 <= i <= s.len(),
    ensures
        forall|j: int| i <= j < run_end(s, i, k) ==> in_class(#[trigger] s[j], k),
    decreases s.len() - i,
{
    if i < s.len() && in_class(s[i], k) {
        lemma_run_end_class(s, i + 1, k);
    }
}

} // verus!
