//! The platform matcher: the URL grammar of each platform, stated as spec
//! functions over characters, and the scanner that implements it.
//!
//! Every pattern starts with `http://` or `https://`; literal parts match
//! ignoring case, captured parts keep the text as written. A match is
//! looked for at every start position, leftmost first. Detection makes one
//! pass over the start positions, trying every pattern at each.
use vstd::prelude::*;

use crate::platform::{rank, Platform};
use crate::text::{
    chars_of, ci_eq, lemma_run_end_range, lit_at, match_lit, run_end, scan_run, CharClass,
};

verus! {

/// The positions of one match: `[start, end)` and three capture spans.
pub struct SpecHit {
    pub start: int,
    pub end: int,
    pub g1: (int, int),
    pub g2: (int, int),
    pub g3: (int, int),
}

/// A match found by the scanner. The meaning of the spans depends on the
/// platform:
/// - Instagram: `g1` the post type, `g2` the post id path;
/// - Reddit: `g1` the subdomain, `g2` the subreddit, `g3` the trailing path;
/// - TikTok: `g1` the subdomain, `g2` the domain, `g3` the path;
/// - Twitch: `g1` the user name (empty for short clip links), `g2` the clip id;
/// - Twitter: `g1` the user name, `g2` the `/status/...` path.
#[derive(Clone, Copy, Debug)]
pub struct Hit {
    pub start: usize,
    pub end: usize,
    pub g1: (usize, usize),
    pub g2: (usize, usize),
    pub g3: (usize, usize),
}

impl View for Hit {
    type V = SpecHit;

    open spec fn view(&self) -> SpecHit {
        SpecHit {
            start: self.start as int,
            end: self.end as int,
            g1: (self.g1.0 as int, self.g1.1 as int),
            g2: (self.g2.0 as int, self.g2.1 as int),
            g3: (self.g3.0 as int, self.g3.1 as int),
        }
    }
}

pub open spec fn span_in(g: (int, int), n: int) -> bool {
    0 <= g.0 <= g.1 <= n
}

/// The spans of a hit lie inside a text of length `n`.
pub open spec fn hit_wf(h: SpecHit, n: int) -> bool {
    &&& 0 <= h.start <= h.end <= n
    &&& span_in(h.g1, n)
    &&& span_in(h.g2, n)
    &&& span_in(h.g3, n)
}

pub open spec fn opt_int(o: Option<usize>) -> Option<int> {
    match o {
        Some(v) => Some(v as int),
        None => None,
    }
}

pub open spec fn opt_hit(o: Option<Hit>) -> Option<SpecHit> {
    match o {
        Some(h) => Some(h@),
        None => None,
    }
}

/// The position after `lit` when it occurs at `i`.
pub open spec fn skip(s: Seq<char>, i: int, lit: Seq<char>) -> Option<int> {
    if lit_at(s, i, lit) {
        Some(i + lit.len())
    } else {
        None
    }
}

/// The position after an optional `lit` at `i`.
pub open spec fn skip_opt(s: Seq<char>, i: int, lit: Seq<char>) -> int {
    if lit_at(s, i, lit) {
        i + lit.len()
    } else {
        i
    }
}

/// `https?://`
pub open spec fn scheme_end(s: Seq<char>, i: int) -> Option<int> {
    if lit_at(s, i, "https://"@) {
        Some(i + "https://"@.len())
    } else {
        skip(s, i, "http://"@)
    }
}

/// `/` and a non-empty run of segment characters: the end of that run.
pub open spec fn slash_segment(s: Seq<char>, q: int) -> Option<int> {
    if 0 <= q < s.len() && s[q] == '/' && run_end(s, q + 1, CharClass::Segment) > q + 1 {
        Some(run_end(s, q + 1, CharClass::Segment))
    } else {
        None
    }
}

/// `(reels?|p)` followed by a post id, alternatives tried in order.
pub open spec fn instagram_type_end(s: Seq<char>, p: int) -> Option<int> {
    if lit_at(s, p, "reels"@) && slash_segment(s, p + "reels"@.len()) is Some {
        Some(p + "reels"@.len())
    } else if lit_at(s, p, "reel"@) && slash_segment(s, p + "reel"@.len()) is Some {
        Some(p + "reel"@.len())
    } else if lit_at(s, p, "p"@) && slash_segment(s, p + "p"@.len()) is Some {
        Some(p + "p"@.len())
    } else {
        None
    }
}

/// `https?://(www.)?instagram.com/(reels?|p)(/[^/\s)\]`]+)`
pub open spec fn instagram_at(s: Seq<char>, i: int) -> Option<SpecHit> {
    match scheme_end(s, i) {
        None => None,
        Some(p0) => match skip(s, skip_opt(s, p0, "www."@), "instagram.com"@) {
            None => None,
            Some(p1) => match skip(s, p1, "/"@) {
                None => None,
                Some(p2) => match instagram_type_end(s, p2) {
                    None => None,
                    Some(t) => {
                        let e = slash_segment(s, t)->0;
                        Some(SpecHit { start: i, end: e, g1: (p2, t), g2: (t, e), g3: (e, e) })
                    },
                },
            },
        },
    }
}

/// `https?://(www.|old.)?reddit.com/(r/[^/\s)\]`]+)(/[^\s)\]`]*)?`
pub open spec fn reddit_at(s: Seq<char>, i: int) -> Option<SpecHit> {
    match scheme_end(s, i) {
        None => None,
        Some(p0) => {
            let p1 = if lit_at(s, p0, "www."@) {
                p0 + "www."@.len()
            } else {
                skip_opt(s, p0, "old."@)
            };
            let p2 = match skip(s, p1, "reddit.com"@) {
                Some(d) => skip(s, d, "/"@),
                None => None,
            };
            match p2 {
                None => None,
                Some(p2) => match skip(s, p2, "r/"@) {
                    None => None,
                    Some(p3) => {
                        let q = run_end(s, p3, CharClass::Segment);
                        if q == p3 {
                            None
                        } else {
                            let e = if q < s.len() && s[q] == '/' {
                                run_end(s, q + 1, CharClass::Path)
                            } else {
                                q
                            };
                            Some(SpecHit { start: i, end: e, g1: (p0, p1), g2: (p2, q), g3: (q, e) })
                        }
                    },
                },
            }
        },
    }
}

/// The end of the optional short-link subdomain `\w{1,3}.` before `tiktok.com`.
pub open spec fn tiktok_domain_start(s: Seq<char>, p0: int) -> int {
    let w = run_end(s, p0, CharClass::Word);
    if 1 <= w - p0 <= 3 && w < s.len() && s[w] == '.' && lit_at(s, w + 1, "tiktok.com"@) {
        w + 1
    } else {
        p0
    }
}

/// `https?://(\w{1,3}.)?(tiktok.com)(/[^\s)\]`]*)`
pub open spec fn tiktok_at(s: Seq<char>, i: int) -> Option<SpecHit> {
    match scheme_end(s, i) {
        None => None,
        Some(p0) => {
            let d0 = tiktok_domain_start(s, p0);
            match skip(s, d0, "tiktok.com"@) {
                None => None,
                Some(d1) => if d1 < s.len() && s[d1] == '/' {
                    let e = run_end(s, d1 + 1, CharClass::Path);
                    Some(SpecHit { start: i, end: e, g1: (p0, d0), g2: (d0, d1), g3: (d1, e) })
                } else {
                    None
                },
            }
        },
    }
}

/// The full clip form `twitch.tv/<user>/clip/<id>`: user span and clip id start.
pub open spec fn twitch_full(s: Seq<char>, p1: int) -> Option<(int, int, int)> {
    match skip(s, p1, "twitch.tv"@) {
        None => None,
        Some(t) => match skip(s, t, "/"@) {
            None => None,
            Some(u0) => {
                let u1 = run_end(s, u0, CharClass::Word);
                let d = u1 + "/clip/"@.len();
                if u1 > u0 && lit_at(s, u1, "/clip/"@) && run_end(s, d, CharClass::Path) > d {
                    Some((u0, u1, d))
                } else {
                    None
                }
            },
        },
    }
}

/// `clips.twitch.tv/`: where the clip id starts.
pub open spec fn clips_start(s: Seq<char>, p1: int) -> Option<int> {
    match skip(s, p1, "clips."@) {
        None => None,
        Some(c) => match skip(s, c, "twitch.tv"@) {
            None => None,
            Some(t) => skip(s, t, "/"@),
        },
    }
}

/// `https?://(www.)?(twitch.tv/(\w+)/clip/|clips.twitch.tv/)([^\s)\]`]+)`
pub open spec fn twitch_at(s: Seq<char>, i: int) -> Option<SpecHit> {
    match scheme_end(s, i) {
        None => None,
        Some(p0) => {
            let p1 = skip_opt(s, p0, "www."@);
            match twitch_full(s, p1) {
                Some(f) => {
                    let e = run_end(s, f.2, CharClass::Path);
                    Some(SpecHit { start: i, end: e, g1: (f.0, f.1), g2: (f.2, e), g3: (e, e) })
                },
                None => match clips_start(s, p1) {
                    None => None,
                    Some(d) => if run_end(s, d, CharClass::Path) > d {
                        let e = run_end(s, d, CharClass::Path);
                        Some(SpecHit { start: i, end: e, g1: (d, d), g2: (d, e), g3: (e, e) })
                    } else {
                        None
                    },
                },
            }
        },
    }
}

/// `https?://(www.)?(twitter|x).com/(\w+)(/status/[^\s)\]`]*)`
pub open spec fn twitter_at(s: Seq<char>, i: int) -> Option<SpecHit> {
    match scheme_end(s, i) {
        None => None,
        Some(p0) => {
            let p1 = skip_opt(s, p0, "www."@);
            let p2 = if lit_at(s, p1, "twitter.com"@) {
                Some(p1 + "twitter.com"@.len())
            } else {
                skip(s, p1, "x.com"@)
            };
            match p2 {
                None => None,
                Some(p2) => match skip(s, p2, "/"@) {
                    None => None,
                    Some(u0) => {
                        let u1 = run_end(s, u0, CharClass::Word);
                        if u1 > u0 && lit_at(s, u1, "/status/"@) {
                            let e = run_end(s, u1 + "/status/"@.len(), CharClass::Path);
                            Some(SpecHit { start: i, end: e, g1: (u0, u1), g2: (u1, e), g3: (e, e) })
                        } else {
                            None
                        }
                    },
                },
            }
        },
    }
}

/// The match of platform `p`'s pattern that starts at `i`, if any.
pub open spec fn hit_at(s: Seq<char>, i: int, p: Platform) -> Option<SpecHit> {
    match p {
        Platform::Instagram => instagram_at(s, i),
        Platform::Reddit => reddit_at(s, i),
        Platform::TikTok => tiktok_at(s, i),
        Platform::Twitch => twitch_at(s, i),
        Platform::Twitter => twitter_at(s, i),
    }
}

/// The leftmost match of `p`'s pattern that starts at `i` or later.
pub open spec fn first_from(s: Seq<char>, i: int, p: Platform) -> Option<SpecHit>
    decreases s.len() + 1 - i,
{
    if i < 0 || i > s.len() {
        None
    } else {
        match hit_at(s, i, p) {
            Some(h) => Some(h),
            None => first_from(s, i + 1, p),
        }
    }
}

/// The leftmost match of `p`'s pattern in `s`.
pub open spec fn first_hit(s: Seq<char>, p: Platform) -> Option<SpecHit> {
    first_from(s, 0, p)
}

/// The platform detected in `s`: the first in priority order whose pattern
/// matches anywhere in the text.
pub open spec fn detect(s: Seq<char>) -> Option<Platform> {
    if first_hit(s, Platform::Instagram) is Some {
        Some(Platform::Instagram)
    } else if first_hit(s, Platform::Reddit) is Some {
        Some(Platform::Reddit)
    } else if first_hit(s, Platform::TikTok) is Some {
        Some(Platform::TikTok)
    } else if first_hit(s, Platform::Twitch) is Some {
        Some(Platform::Twitch)
    } else if first_hit(s, Platform::Twitter) is Some {
        Some(Platform::Twitter)
    } else {
        None
    }
}

fn skip_lit(s: &Vec<char>, i: usize, lit: &str) -> (r: Option<usize>)
    requires
        i <= s.len(),
    ensures
        opt_int(r) == skip(s@, i as int, lit@),
        r matches Some(j) ==> j <= s.len(),
{
    if match_lit(s, i, lit) {
        Some(i + lit.unicode_len())
    } else {
        None
    }
}

fn skip_opt_lit(s: &Vec<char>, i: usize, lit: &str) -> (r: usize)
    requires
        i <= s.len(),
    ensures
        r as int == skip_opt(s@, i as int, lit@),
        i <= r <= s.len(),
{
    if match_lit(s, i, lit) {
        i + lit.unicode_len()
    } else {
        i
    }
}

fn scan_scheme(s: &Vec<char>, i: usize) -> (r: Option<usize>)
    requires
        i <= s.len(),
    ensures
        opt_int(r) == scheme_end(s@, i as int),
        r matches Some(j) ==> i <= j <= s.len(),
{
    if match_lit(s, i, "https://") {
        Some(i + "https://".unicode_len())
    } else {
        skip_lit(s, i, "http://")
    }
}

fn scan_slash_segment(s: &Vec<char>, q: usize) -> (r: Option<usize>)
    ensures
        opt_int(r) == slash_segment(s@, q as int),
        r matches Some(e) ==> q < e <= s.len(),
{
    if q < s.len() && s[q] == '/' {
        let e = scan_run(s, q + 1, CharClass::Segment);
        if e > q + 1 {
            return Some(e);
        }
    }
    None
}

fn scan_instagram_type(s: &Vec<char>, p: usize) -> (r: Option<usize>)
    requires
        p <= s.len(),
    ensures
        opt_int(r) == instagram_type_end(s@, p as int),
        r matches Some(t) ==> p <= t <= s.len(),
{
    if match_lit(s, p, "reels") && scan_slash_segment(s, p + "reels".unicode_len()).is_some() {
        return Some(p + "reels".unicode_len());
    }
    if match_lit(s, p, "reel") && scan_slash_segment(s, p + "reel".unicode_len()).is_some() {
        return Some(p + "reel".unicode_len());
    }
    if match_lit(s, p, "p") && scan_slash_segment(s, p + "p".unicode_len()).is_some() {
        return Some(p + "p".unicode_len());
    }
    None
}

fn scan_instagram(s: &Vec<char>, i: usize) -> (r: Option<Hit>)
    requires
        i <= s.len(),
    ensures
        opt_hit(r) == instagram_at(s@, i as int),
        r matches Some(h) ==> hit_wf(h@, s.len() as int),
{
    let p0 = match scan_scheme(s, i) {
        Some(p) => p,
        None => return None,
    };
    let p1 = skip_opt_lit(s, p0, "www.");
    let p1 = match skip_lit(s, p1, "instagram.com") {
        Some(p) => p,
        None => return None,
    };
    let p2 = match skip_lit(s, p1, "/") {
        Some(p) => p,
        None => return None,
    };
    let t = match scan_instagram_type(s, p2) {
        Some(t) => t,
        None => return None,
    };
    let e = match scan_slash_segment(s, t) {
        Some(e) => e,
        None => return None,
    };
    Some(Hit { start: i, end: e, g1: (p2, t), g2: (t, e), g3: (e, e) })
}

fn scan_reddit(s: &Vec<char>, i: usize) -> (r: Option<Hit>)
    requires
        i <= s.len(),
    ensures
        opt_hit(r) == reddit_at(s@, i as int),
        r matches Some(h) ==> hit_wf(h@, s.len() as int),
{
    let p0 = match scan_scheme(s, i) {
        Some(p) => p,
        None => return None,
    };
    let p1 = if match_lit(s, p0, "www.") {
        p0 + "www.".unicode_len()
    } else {
        skip_opt_lit(s, p0, "old.")
    };
    let p1d = match skip_lit(s, p1, "reddit.com") {
        Some(p) => p,
        None => return None,
    };
    let p2 = match skip_lit(s, p1d, "/") {
        Some(p) => p,
        None => return None,
    };
    let p3 = match skip_lit(s, p2, "r/") {
        Some(p) => p,
        None => return None,
    };
    let q = scan_run(s, p3, CharClass::Segment);
    if q == p3 {
        return None;
    }
    let e = if q < s.len() && s[q] == '/' {
        scan_run(s, q + 1, CharClass::Path)
    } else {
        q
    };
    Some(Hit { start: i, end: e, g1: (p0, p1), g2: (p2, q), g3: (q, e) })
}

fn scan_tiktok(s: &Vec<char>, i: usize) -> (r: Option<Hit>)
    requires
        i <= s.len(),
    ensures
        opt_hit(r) == tiktok_at(s@, i as int),
        r matches Some(h) ==> hit_wf(h@, s.len() as int),
{
    let p0 = match scan_scheme(s, i) {
        Some(p) => p,
        None => return None,
    };
    let w = scan_run(s, p0, CharClass::Word);
    let d0 = if w - p0 >= 1 && w - p0 <= 3 && w < s.len() && s[w] == '.' && match_lit(
        s,
        w + 1,
        "tiktok.com",
    ) {
        w + 1
    } else {
        p0
    };
    let d1 = match skip_lit(s, d0, "tiktok.com") {
        Some(d) => d,
        None => return None,
    };
    if d1 < s.len() && s[d1] == '/' {
        let e = scan_run(s, d1 + 1, CharClass::Path);
        Some(Hit { start: i, end: e, g1: (p0, d0), g2: (d0, d1), g3: (d1, e) })
    } else {
        None
    }
}

fn scan_twitch_full(s: &Vec<char>, p1: usize) -> (r: Option<(usize, usize, usize)>)
    requires
        p1 <= s.len(),
    ensures
        match r {
            Some(f) => twitch_full(s@, p1 as int) == Some((f.0 as int, f.1 as int, f.2 as int))
                && p1 <= f.0 <= f.1 <= f.2 <= s.len(),
            None => twitch_full(s@, p1 as int) is None,
        },
{
    let t = match skip_lit(s, p1, "twitch.tv") {
        Some(t) => t,
        None => return None,
    };
    let u0 = match skip_lit(s, t, "/") {
        Some(u) => u,
        None => return None,
    };
    let u1 = scan_run(s, u0, CharClass::Word);
    if u1 > u0 && match_lit(s, u1, "/clip/") {
        let d = u1 + "/clip/".unicode_len();
        if scan_run(s, d, CharClass::Path) > d {
            return Some((u0, u1, d));
        }
    }
    None
}

fn scan_twitch(s: &Vec<char>, i: usize) -> (r: Option<Hit>)
    requires
        i <= s.len(),
    ensures
        opt_hit(r) == twitch_at(s@, i as int),
        r matches Some(h) ==> hit_wf(h@, s.len() as int),
{
    let p0 = match scan_scheme(s, i) {
        Some(p) => p,
        None => return None,
    };
    let p1 = skip_opt_lit(s, p0, "www.");
    match scan_twitch_full(s, p1) {
        Some(f) => {
            let e = scan_run(s, f.2, CharClass::Path);
            Some(Hit { start: i, end: e, g1: (f.0, f.1), g2: (f.2, e), g3: (e, e) })
        },
        None => {
            let c = match skip_lit(s, p1, "clips.") {
                Some(c) => c,
                None => return None,
            };
            let t = match skip_lit(s, c, "twitch.tv") {
                Some(t) => t,
                None => return None,
            };
            let d = match skip_lit(s, t, "/") {
                Some(d) => d,
                None => return None,
            };
            let e = scan_run(s, d, CharClass::Path);
            if e > d {
                Some(Hit { start: i, end: e, g1: (d, d), g2: (d, e), g3: (e, e) })
            } else {
                None
            }
        },
    }
}

fn scan_twitter(s: &Vec<char>, i: usize) -> (r: Option<Hit>)
    requires
        i <= s.len(),
    ensures
        opt_hit(r) == twitter_at(s@, i as int),
        r matches Some(h) ==> hit_wf(h@, s.len() as int),
{
    let p0 = match scan_scheme(s, i) {
        Some(p) => p,
        None => return None,
    };
    let p1 = skip_opt_lit(s, p0, "www.");
    let p2 = if match_lit(s, p1, "twitter.com") {
        p1 + "twitter.com".unicode_len()
    } else {
        match skip_lit(s, p1, "x.com") {
            Some(p) => p,
            None => return None,
        }
    };
    let u0 = match skip_lit(s, p2, "/") {
        Some(u) => u,
        None => return None,
    };
    let u1 = scan_run(s, u0, CharClass::Word);
    if u1 > u0 && match_lit(s, u1, "/status/") {
        let e = scan_run(s, u1 + "/status/".unicode_len(), CharClass::Path);
        Some(Hit { start: i, end: e, g1: (u0, u1), g2: (u1, e), g3: (e, e) })
    } else {
        None
    }
}

/// The match of `p`'s pattern that starts at `i`, if any.
pub fn scan_at(s: &Vec<char>, i: usize, p: Platform) -> (r: Option<Hit>)
    requires
        i <= s.len(),
    ensures
        opt_hit(r) == hit_at(s@, i as int, p),
        r matches Some(h) ==> hit_wf(h@, s.len() as int),
{
    match p {
        Platform::Instagram => scan_instagram(s, i),
        Platform::Reddit => scan_reddit(s, i),
        Platform::TikTok => scan_tiktok(s, i),
        Platform::Twitch => scan_twitch(s, i),
        Platform::Twitter => scan_twitter(s, i),
    }
}

/// The leftmost match of `p`'s pattern in `s`.
pub fn find_first(s: &Vec<char>, p: Platform) -> (r: Option<Hit>)
    ensures
        opt_hit(r) == first_hit(s@, p),
        r matches Some(h) ==> hit_wf(h@, s.len() as int),
{
    let mut i: usize = 0;
    while i <= s.len()
        invariant
            i <= s.len() + 1,
            first_from(s@, 0, p) == first_from(s@, i as int, p),
        decreases s.len() + 1 - i,
    {
        match scan_at(s, i, p) {
            Some(h) => return Some(h),
            None => {},
        }
        if i == s.len() {
            assert(first_from(s@, i + 1, p) is None);
            return None;
        }
        i = i + 1;
    }
    None
}

/// `lit` occurs somewhere in `s`, ignoring case.
pub open spec fn contains_ci(s: Seq<char>, lit: Seq<char>) -> bool {
    exists|i: int| lit_at(s, i, lit)
}

/// The cheap pre-check: the text names one of the supported domains.
pub open spec fn mentions_domain(s: Seq<char>) -> bool {
    contains_ci(s, "instagram.com"@) || contains_ci(s, "reddit.com"@) || contains_ci(
        s,
        "tiktok.com"@,
    ) || contains_ci(s, "twitch.tv"@) || contains_ci(s, "twitter.com"@) || contains_ci(
        s,
        "x.com"@,
    )
}

fn find_lit(s: &Vec<char>, lit: &str) -> (r: bool)
    ensures
        r == contains_ci(s@, lit@),
{
    let mut i: usize = 0;
    while i <= s.len()
        invariant
            i <= s.len() + 1,
            forall|j: int| 0 <= j < i ==> !lit_at(s@, j, lit@),
        decreases s.len() + 1 - i,
    {
        if match_lit(s, i, lit) {
            return true;
        }
        if i == s.len() {
            return false;
        }
        i = i + 1;
    }
    false
}

/// A fast pre-check for a supported domain in the text, ignoring case.
pub fn contains_url(input: &str) -> (r: bool)
    ensures
        r == mentions_domain(input@),
{
    let s = chars_of(input);
    find_lit(&s, "instagram.com") || find_lit(&s, "reddit.com") || find_lit(&s, "tiktok.com")
        || find_lit(&s, "twitch.tv") || find_lit(&s, "twitter.com") || find_lit(&s, "x.com")
}

/// Notes whether `p`'s pattern matches at `i`, given what the scan saw
/// before `i`.
fn note_hit(s: &Vec<char>, i: usize, p: Platform, seen: bool) -> (r: bool)
    requires
        i <= s.len(),
        seen ==> first_hit(s@, p) is Some,
        !seen ==> first_from(s@, 0, p) == first_from(s@, i as int, p),
    ensures
        r ==> first_hit(s@, p) is Some,
        !r ==> first_from(s@, 0, p) == first_from(s@, i + 1, p),
{
    if seen {
        true
    } else {
        scan_at(s, i, p).is_some()
    }
}

/// What a scan has seen of platform `p` before position `i`.
pub open spec fn scanned(s: Seq<char>, i: int, p: Platform, seen: bool) -> bool {
    &&& seen ==> first_hit(s, p) is Some
    &&& !seen ==> first_from(s, 0, p) == first_from(s, i, p)
}

/// The platform detected in a character vector: one pass over the start
/// positions tries every platform's pattern at each, and the first platform in
/// priority order that matched anywhere wins.
pub fn detect_chars(s: &Vec<char>) -> (r: Option<Platform>)
    ensures
        r == detect(s@),
{
    let mut i: usize = 0;
    let mut instagram = false;
    let mut reddit = false;
    let mut tiktok = false;
    let mut twitch = false;
    let mut twitter = false;
    loop
        invariant
            i <= s.len(),
            scanned(s@, i as int, Platform::Instagram, instagram),
            scanned(s@, i as int, Platform::Reddit, reddit),
            scanned(s@, i as int, Platform::TikTok, tiktok),
            scanned(s@, i as int, Platform::Twitch, twitch),
            scanned(s@, i as int, Platform::Twitter, twitter),
        decreases s.len() - i,
    {
        instagram = note_hit(s, i, Platform::Instagram, instagram);
        reddit = note_hit(s, i, Platform::Reddit, reddit);
        tiktok = note_hit(s, i, Platform::TikTok, tiktok);
        twitch = note_hit(s, i, Platform::Twitch, twitch);
        twitter = note_hit(s, i, Platform::Twitter, twitter);
        if i == s.len() {
            assert(first_from(s@, i + 1, Platform::Instagram) is None);
            assert(first_from(s@, i + 1, Platform::Reddit) is None);
            assert(first_from(s@, i + 1, Platform::TikTok) is None);
            assert(first_from(s@, i + 1, Platform::Twitch) is None);
            assert(first_from(s@, i + 1, Platform::Twitter) is None);
            return if instagram {
                Some(Platform::Instagram)
            } else if reddit {
                Some(Platform::Reddit)
            } else if tiktok {
                Some(Platform::TikTok)
            } else if twitch {
                Some(Platform::Twitch)
            } else if twitter {
                Some(Platform::Twitter)
            } else {
                None
            };
        }
        i = i + 1;
    }
}

impl Platform {
    /// The first platform, in priority order, whose link pattern matches
    /// anywhere in `input`.
    pub fn try_detect(input: &str) -> (r: Option<Platform>)
        ensures
            r == detect(input@),
    {
        let s = chars_of(input);
        detect_chars(&s)
    }
}

/// Every hit starts where it was looked for.
pub proof fn lemma_hit_start(s: Seq<char>, i: int, p: Platform)
    requires
        hit_at(s, i, p) is Some,
    ensures
        hit_at(s, i, p)->0.start == i,
{
}

/// A match at `i` is found by a leftmost search from any `j <= i`, at or
/// before `i`.
pub proof fn lemma_first_from_finds(s: Seq<char>, j: int, i: int, p: Platform)
    requires
        0 <= j <= i <= s.len(),
        hit_at(s, i, p) is Some,
    ensures
        first_from(s, j, p) is Some,
        j <= first_from(s, j, p)->0.start <= i,
        hit_at(s, first_from(s, j, p)->0.start, p) == first_from(s, j, p),
    decreases i - j,
{
    lemma_hit_start(s, i, p);
    if hit_at(s, j, p) is Some {
        lemma_hit_start(s, j, p);
    } else {
        lemma_first_from_finds(s, j + 1, i, p);
    }
}

/// A link of platform `p` anywhere in a text is detected: detection yields a
/// platform whose pattern matches and that ranks no lower than `p`, and `p`
/// itself when no platform of higher priority matches anywhere in the text.
pub proof fn lemma_embedded_link_detected(s: Seq<char>, i: int, p: Platform)
    requires
        0 <= i <= s.len(),
        hit_at(s, i, p) is Some,
    ensures
        detect(s) is Some,
        rank(detect(s)->0) <= rank(p),
        first_hit(s, detect(s)->0) is Some,
        (forall|q: Platform| rank(q) < rank(p) ==> #[trigger] first_hit(s, q) is None) ==> detect(
            s,
        ) == Some(p),
{
    lemma_first_from_finds(s, 0, i, p);
    if forall|q: Platform| rank(q) < rank(p) ==> #[trigger] first_hit(s, q) is None {
        assert(first_hit(s, Platform::Instagram) is None || rank(p) <= rank(Platform::Instagram));
        assert(first_hit(s, Platform::Reddit) is None || rank(p) <= rank(Platform::Reddit));
        assert(first_hit(s, Platform::TikTok) is None || rank(p) <= rank(Platform::TikTok));
        assert(first_hit(s, Platform::Twitch) is None || rank(p) <= rank(Platform::Twitch));
    }
}

/// The leftmost search result is a hit at its own start.
pub proof fn lemma_first_from_located(s: Seq<char>, i: int, p: Platform)
    requires
        first_from(s, i, p) is Some,
    ensures
        i <= first_from(s, i, p)->0.start <= s.len(),
        hit_at(s, first_from(s, i, p)->0.start, p) == first_from(s, i, p),
    decreases s.len() + 1 - i,
{
    if hit_at(s, i, p) is Some {
        lemma_hit_start(s, i, p);
    } else {
        lemma_first_from_located(s, i + 1, p);
    }
}

/// Every link pattern names its platform's domain.
pub proof fn lemma_hit_names_domain(s: Seq<char>, j: int, p: Platform)
    requires
        hit_at(s, j, p) is Some,
    ensures
        mentions_domain(s),
{
    let p0 = scheme_end(s, j)->0;
    match p {
        Platform::Instagram => {
            let q = skip_opt(s, p0, "www."@);
            assert(lit_at(s, q, "instagram.com"@));
            assert(contains_ci(s, "instagram.com"@));
        },
        Platform::Reddit => {
            let q = if lit_at(s, p0, "www."@) {
                p0 + "www."@.len()
            } else {
                skip_opt(s, p0, "old."@)
            };
            assert(lit_at(s, q, "reddit.com"@));
            assert(contains_ci(s, "reddit.com"@));
        },
        Platform::TikTok => {
            let q = tiktok_domain_start(s, p0);
            assert(lit_at(s, q, "tiktok.com"@));
            assert(contains_ci(s, "tiktok.com"@));
        },
        Platform::Twitch => {
            let q = skip_opt(s, p0, "www."@);
            if twitch_full(s, q) is Some {
                assert(lit_at(s, q, "twitch.tv"@));
            } else {
                let c = skip(s, q, "clips."@)->0;
                assert(lit_at(s, c, "twitch.tv"@));
            }
            assert(contains_ci(s, "twitch.tv"@));
        },
        Platform::Twitter => {
            let q = skip_opt(s, p0, "www."@);
            if lit_at(s, q, "twitter.com"@) {
                assert(contains_ci(s, "twitter.com"@));
            } else {
                assert(lit_at(s, q, "x.com"@));
                assert(contains_ci(s, "x.com"@));
            }
        },
    }
}

/// The cheap pre-check never drops a text in which a link is detected.
pub proof fn lemma_prefilter_sound(s: Seq<char>)
    ensures
        detect(s) is Some ==> mentions_domain(s),
{
    if detect(s) is Some {
        let p = detect(s)->0;
        lemma_first_from_located(s, 0, p);
        lemma_hit_names_domain(s, first_hit(s, p)->0.start, p);
    }
}

/// Every match starts with a scheme, whose `:` is the fifth or sixth character.
pub proof fn lemma_hit_has_scheme(c: Seq<char>, i: int, q: Platform)
    requires
        hit_at(c, i, q) is Some,
    ensures
        scheme_end(c, i) is Some,
        (lit_at(c, i, "https://"@) && c[i + 5] == ':') || (lit_at(c, i, "http://"@) && c[i + 4] == ':'),
{
    reveal_strlit("https://");
    reveal_strlit("http://");
    if lit_at(c, i, "https://"@) {
        assert(ci_eq(c[i + 5], "https://"@[5]));
    } else {
        assert(ci_eq(c[i + 4], "http://"@[4]));
    }
}

/// No start position gives a match: the leftmost search finds none.
pub proof fn lemma_no_hit_anywhere(c: Seq<char>, q: Platform)
    requires
        forall|i: int| 0 <= i <= c.len() ==> #[trigger] hit_at(c, i, q) is None,
    ensures
        first_hit(c, q) is None,
{
    if first_hit(c, q) is Some {
        lemma_first_from_located(c, 0, q);
    }
}

pub open spec fn span_within(g: (int, int), a: int, b: int) -> bool {
    a <= g.0 <= g.1 <= b
}

/// The spans of a match lie after its scheme and within the match.
pub proof fn lemma_hit_spans(s: Seq<char>, i: int, p: Platform)
    requires
        hit_at(s, i, p) is Some,
    ensures
        scheme_end(s, i) is Some,
        ({
            let h = hit_at(s, i, p)->0;
            let p0 = scheme_end(s, i)->0;
            &&& i <= p0
            &&& h.end <= s.len()
            &&& span_within(h.g1, p0, h.end)
            &&& span_within(h.g2, p0, h.end)
            &&& span_within(h.g3, p0, h.end)
        }),
{
    lemma_hit_has_scheme(s, i, p);
    let p0 = scheme_end(s, i)->0;
    let h = hit_at(s, i, p)->0;
    match p {
        Platform::Instagram => {
            let t = h.g1.1;
            lemma_run_end_range(s, t + 1, CharClass::Segment);
        },
        Platform::Reddit => {
            let q = h.g2.1;
            lemma_run_end_range(s, h.g2.0 + "r/"@.len(), CharClass::Segment);
            if q < s.len() && s[q] == '/' {
                lemma_run_end_range(s, q + 1, CharClass::Path);
            }
        },
        Platform::TikTok => {
            let d1 = h.g2.1;
            lemma_run_end_range(s, p0, CharClass::Word);
            lemma_run_end_range(s, d1 + 1, CharClass::Path);
        },
        Platform::Twitch => {
            lemma_run_end_range(s, h.g2.0, CharClass::Path);
            let p1 = skip_opt(s, p0, "www."@);
            match twitch_full(s, p1) {
                Some(f) => {
                    lemma_run_end_range(s, f.0, CharClass::Word);
                },
                None => {},
            }
        },
        Platform::Twitter => {
            lemma_run_end_range(s, h.g1.0, CharClass::Word);
            lemma_run_end_range(s, h.g2.0 + "/status/"@.len(), CharClass::Path);
        },
    }
}

} // verus!
