//! Best-effort recovery of a post author from what a platform answers:
//! the redirect target of a TikTok short link, or a Twitch clip page.
use vstd::prelude::*;

use crate::text::{chars_of, piece};

verus! {

/// `pat` occurs in `s` at `i`, exactly.
pub open spec fn occurs_at(s: Seq<char>, i: int, pat: Seq<char>) -> bool {
    0 <= i && i + pat.len() <= s.len() && s.subrange(i, i + pat.len()) == pat
}

/// The first position at or after `i` where `pat` occurs, or -1.
pub open spec fn find_from(s: Seq<char>, pat: Seq<char>, i: int) -> int
    decreases s.len() + 1 - i,
{
    if i < 0 || i + pat.len() > s.len() {
        -1
    } else if occurs_at(s, i, pat) {
        i
    } else {
        find_from(s, pat, i + 1)
    }
}

/// The last position at or before `i` where `pat` occurs, or -1.
pub open spec fn rfind_from(s: Seq<char>, pat: Seq<char>, i: int) -> int
    decreases i + 1,
{
    if i < 0 {
        -1
    } else if occurs_at(s, i, pat) {
        i
    } else {
        rfind_from(s, pat, i - 1)
    }
}

/// The user name in a `/@<user>/video/...` path: what lies between the first
/// `/@` and the first `/video/` after it, when that is not empty.
pub open spec fn path_author(s: Seq<char>) -> Option<Seq<char>> {
    let a = find_from(s, "/@"@, 0);
    if a < 0 {
        None
    } else {
        let u = a + "/@"@.len();
        let b = find_from(s, "/video/"@, u);
        if b < 0 || b == u {
            None
        } else {
            Some(s.subrange(u, b))
        }
    }
}

/// The user name in a clip title of the form `<title> - <user>`: what follows
/// the last ` - `, when that is not empty.
pub open spec fn title_author(s: Seq<char>) -> Option<Seq<char>> {
    let k = rfind_from(s, " - "@, s.len() - " - "@.len());
    if k < 0 || k + " - "@.len() == s.len() {
        None
    } else {
        Some(s.subrange(k + " - "@.len(), s.len() as int))
    }
}

pub open spec fn opt_seq(o: Option<String>) -> Option<Seq<char>> {
    match o {
        Some(t) => Some(t@),
        None => None,
    }
}

/// What the `content` attribute of the first `og:title` meta tag of an HTML
/// document holds, if there is one.
pub uninterp spec fn og_title_of(html: Seq<char>) -> Option<Seq<char>>;

/// Relies on scraper's `Html::parse_document`, `Selector::parse`, `select` and
/// `attr`: the `content` of the first `meta[property='og:title']` element of
/// the parsed document. The result depends on the text alone.
#[verifier::external_body]
fn og_title(html: &str) -> (r: Option<String>)
    ensures
        opt_seq(r) == og_title_of(html@),
{
    let document = scraper::Html::parse_document(html);
    let selector = scraper::Selector::parse("meta[property='og:title']").ok()?;
    let element = document.select(&selector).next()?;
    let content = element.value().attr("content")?;
    Some(content.to_string())
}

fn occurs_at_exec(s: &Vec<char>, i: usize, pat: &Vec<char>) -> (r: bool)
    requires
        i + pat.len() <= s.len(),
    ensures
        r == occurs_at(s@, i as int, pat@),
{
    let mut k: usize = 0;
    while k < pat.len()
        invariant
            k <= pat.len(),
            i + pat.len() <= s.len(),
            forall|m: int| 0 <= m < k ==> s@[i + m] == pat@[m],
        decreases pat.len() - k,
    {
        if s[i + k] != pat[k] {
            assert(s@.subrange(i as int, i + pat.len())[k as int] != pat@[k as int]);
            return false;
        }
        k = k + 1;
    }
    assert(s@.subrange(i as int, i + pat.len()) =~= pat@);
    true
}

/// The first position at or after `i` where `pat` occurs.
fn find_seq(s: &Vec<char>, pat: &Vec<char>, i: usize) -> (r: Option<usize>)
    ensures
        match r {
            Some(k) => find_from(s@, pat@, i as int) == k as int,
            None => find_from(s@, pat@, i as int) == -1,
        },
{
    if pat.len() > s.len() {
        assert(find_from(s@, pat@, i as int) == -1);
        return None;
    }
    let mut k: usize = i;
    while k <= s.len() - pat.len()
        invariant
            i <= k,
            pat.len() <= s.len(),
            find_from(s@, pat@, i as int) == find_from(s@, pat@, k as int),
        decreases s.len() - k,
    {
        if occurs_at_exec(s, k, pat) {
            return Some(k);
        }
        if k == s.len() - pat.len() {
            assert(find_from(s@, pat@, k + 1) == -1);
            return None;
        }
        k = k + 1;
    }
    None
}

/// The last position at or before `i` where `pat` occurs.
fn rfind_seq(s: &Vec<char>, pat: &Vec<char>, i: usize) -> (r: Option<usize>)
    ensures
        match r {
            Some(k) => rfind_from(s@, pat@, i as int) == k as int,
            None => rfind_from(s@, pat@, i as int) == -1,
        },
{
    let mut k: usize = i;
    loop
        invariant
            k <= i,
            rfind_from(s@, pat@, i as int) == rfind_from(s@, pat@, k as int),
        decreases k,
    {
        if k <= s.len() && pat.len() <= s.len() - k && occurs_at_exec(s, k, pat) {
            return Some(k);
        }
        if k == 0 {
            assert(rfind_from(s@, pat@, -1) == -1);
            return None;
        }
        k = k - 1;
    }
}

/// The TikTok user name in the redirect target of a short link.
pub fn author_from_location(location: &str) -> (r: Option<String>)
    ensures
        opt_seq(r) == path_author(location@),
{
    let s = chars_of(location);
    let at = chars_of("/@");
    let video = chars_of("/video/");
    let a = match find_seq(&s, &at, 0) {
        Some(a) => a,
        None => return None,
    };
    proof {
        lemma_find_from_bounds(s@, at@, 0);
    }
    assert(a + at.len() <= s.len());
    let u = a + at.len();
    let b = match find_seq(&s, &video, u) {
        Some(b) => b,
        None => return None,
    };
    if b == u {
        return None;
    }
    proof {
        lemma_find_from_bounds(s@, video@, u as int);
    }
    Some(piece(location, u, b))
}

/// The Twitch user name in a clip title `<title> - <user>`.
pub fn author_from_title(title: &str) -> (r: Option<String>)
    ensures
        opt_seq(r) == title_author(title@),
{
    let s = chars_of(title);
    let sep = chars_of(" - ");
    if sep.len() > s.len() {
        assert(rfind_from(s@, sep@, s.len() - sep.len()) == -1);
        return None;
    }
    let k = match rfind_seq(&s, &sep, s.len() - sep.len()) {
        Some(k) => k,
        None => return None,
    };
    proof {
        lemma_rfind_from_bounds(s@, sep@, (s.len() - sep.len()) as int);
    }
    if k + sep.len() == s.len() {
        return None;
    }
    Some(piece(title, k + sep.len(), s.len()))
}

/// The Twitch user name on a clip page, read from its `og:title`.
pub fn author_from_page(html: &str) -> (r: Option<String>)
    ensures
        opt_seq(r) == match og_title_of(html@) {
            Some(t) => title_author(t),
            None => None,
        },
{
    match og_title(html) {
        Some(t) => author_from_title(t.as_str()),
        None => None,
    }
}

pub proof fn lemma_find_from_bounds(s: Seq<char>, pat: Seq<char>, i: int)
    ensures
        find_from(s, pat, i) == -1 || (i <= find_from(s, pat, i) && find_from(s, pat, i)
            + pat.len() <= s.len()),
    decreases s.len() + 1 - i,
{
    if !(i < 0 || i + pat.len() > s.len()) && !occurs_at(s, i, pat) {
        lemma_find_from_bounds(s, pat, i + 1);
    }
}

pub proof fn lemma_rfind_from_bounds(s: Seq<char>, pat: Seq<char>, i: int)
    ensures
        rfind_from(s, pat, i) == -1 || (0 <= rfind_from(s, pat, i) <= i && rfind_from(s, pat, i)
            + pat.len() <= s.len()),
    decreases i + 1,
{
    if i >= 0 && !occurs_at(s, i, pat) {
        lemma_rfind_from_bounds(s, pat, i - 1);
    }
}

} // verus!
