//! Links inside surrounding text: a link followed by whitespace or the end of
//! the text parses the same wherever it stands.
use vstd::prelude::*;

use crate::matcher::{
    clips_start, hit_at, instagram_at, instagram_type_end, reddit_at, scheme_end, skip,
    skip_opt, slash_segment, tiktok_at, tiktok_domain_start, twitch_at, twitch_full,
    twitter_at, SpecHit,
};
use crate::matcher::{detect, first_from, first_hit, lemma_embedded_link_detected};
use crate::platform::{rank, Platform};
use crate::rewrite::{caption, captured_post_type, rewritten_url, sanitized, slice, url_author};
use crate::text::{ci_eq, in_class, is_space_char, lit_at, run_end, CharClass};

verus! {

/// `b` is empty or starts with whitespace.
pub open spec fn ends_link(b: Seq<char>) -> bool {
    b.len() == 0 || is_space_char(b[0])
}

pub open spec fn no_space(lit: Seq<char>) -> bool {
    forall|k: int| 0 <= k < lit.len() ==> !is_space_char(#[trigger] lit[k])
}

pub proof fn lemma_lit_shift(a: Seq<char>, u: Seq<char>, b: Seq<char>, x: int, lit: Seq<char>)
    requires
        0 <= x <= u.len(),
        ends_link(b),
        no_space(lit),
    ensures
        lit_at(a + u + b, a.len() + x, lit) == lit_at(u, x, lit),
{
    let s = a + u + b;
    let n = a.len() as int;
    if lit_at(u, x, lit) {
        assert forall|k: int| 0 <= k < lit.len() implies ci_eq(#[trigger] s[n + x + k], lit[k]) by {
            assert(s[n + x + k] == u[x + k]);
            assert(ci_eq(u[x + k], lit[k]));
        }
    }
    if lit_at(s, n + x, lit) {
        if x + lit.len() <= u.len() {
            assert forall|k: int| 0 <= k < lit.len() implies ci_eq(#[trigger] u[x + k], lit[k]) by {
                assert(s[n + x + k] == u[x + k]);
                assert(ci_eq(s[n + (x + k)], lit[k]));
            }
        } else {
            let k = u.len() - x;
            assert(s[n + x + k] == b[0]);
            assert(ci_eq(s[n + x + k], lit[k]));
            assert(!is_space_char(lit[k]));
        }
    }
}

pub proof fn lemma_run_shift(a: Seq<char>, u: Seq<char>, b: Seq<char>, j: int, k: CharClass)
    requires
        0 <= j <= u.len(),
        run_end(u, j, k) < u.len() || b.len() == 0 || !in_class(b[0], k),
    ensures
        run_end(a + u + b, a.len() + j, k) == a.len() + run_end(u, j, k),
    decreases u.len() - j,
{
    let s = a + u + b;
    let n = a.len() as int;
    if j < u.len() {
        assert(s[n + j] == u[j]);
        if in_class(u[j], k) {
            lemma_run_shift(a, u, b, j + 1, k);
        }
    } else {
        if b.len() > 0 {
            assert(s[n + j] == b[0]);
        }
    }
}

pub open spec fn shift_opt(o: Option<int>, n: int) -> Option<int> {
    match o {
        Some(v) => Some(v + n),
        None => None,
    }
}

pub proof fn lemma_lits_no_space()
    ensures
        no_space("https://"@),
        no_space("http://"@),
        no_space("www."@),
        no_space("old."@),
        no_space("/"@),
        no_space("r/"@),
        no_space("instagram.com"@),
        no_space("reels"@),
        no_space("reel"@),
        no_space("p"@),
        no_space("reddit.com"@),
        no_space("tiktok.com"@),
        no_space("twitch.tv"@),
        no_space("clips."@),
        no_space("/clip/"@),
        no_space("twitter.com"@),
        no_space("x.com"@),
        no_space("/status/"@),
{
    reveal_strlit("https://");
    reveal_strlit("http://");
    reveal_strlit("www.");
    reveal_strlit("old.");
    reveal_strlit("/");
    reveal_strlit("r/");
    reveal_strlit("instagram.com");
    reveal_strlit("reels");
    reveal_strlit("reel");
    reveal_strlit("p");
    reveal_strlit("reddit.com");
    reveal_strlit("tiktok.com");
    reveal_strlit("twitch.tv");
    reveal_strlit("clips.");
    reveal_strlit("/clip/");
    reveal_strlit("twitter.com");
    reveal_strlit("x.com");
    reveal_strlit("/status/");
}

pub proof fn lemma_skip_shift(a: Seq<char>, u: Seq<char>, b: Seq<char>, x: int, lit: Seq<char>)
    requires
        0 <= x <= u.len(),
        ends_link(b),
        no_space(lit),
    ensures
        skip(a + u + b, a.len() + x, lit) == shift_opt(skip(u, x, lit), a.len() as int),
        skip_opt(a + u + b, a.len() + x, lit) == a.len() + skip_opt(u, x, lit),
        skip(u, x, lit) matches Some(y) ==> y <= u.len(),
        skip_opt(u, x, lit) <= u.len(),
{
    lemma_lit_shift(a, u, b, x, lit);
}

/// Every run the grammar scans ends at the whitespace after a link.
pub proof fn lemma_run_shift_stop(a: Seq<char>, u: Seq<char>, b: Seq<char>, j: int, k: CharClass)
    requires
        0 <= j <= u.len(),
        ends_link(b),
    ensures
        run_end(a + u + b, a.len() + j, k) == a.len() + run_end(u, j, k),
        j <= run_end(u, j, k) <= u.len(),
{
    crate::text::lemma_run_end_range(u, j, k);
    if b.len() > 0 {
        assert(!in_class(b[0], k));
    }
    lemma_run_shift(a, u, b, j, k);
}

pub proof fn lemma_slash_segment_shift(a: Seq<char>, u: Seq<char>, b: Seq<char>, q: int)
    requires
        0 <= q <= u.len(),
        ends_link(b),
    ensures
        slash_segment(a + u + b, a.len() + q) == shift_opt(slash_segment(u, q), a.len() as int),
        slash_segment(u, q) matches Some(e) ==> e <= u.len(),
{
    let s = a + u + b;
    let n = a.len() as int;
    if q < u.len() {
        assert(s[n + q] == u[q]);
        lemma_run_shift_stop(a, u, b, q + 1, CharClass::Segment);
    } else if b.len() > 0 {
        assert(s[n + q] == b[0]);
    }
}

pub proof fn lemma_scheme_shift(a: Seq<char>, u: Seq<char>, b: Seq<char>)
    requires
        ends_link(b),
    ensures
        scheme_end(a + u + b, a.len() as int) == shift_opt(scheme_end(u, 0), a.len() as int),
        scheme_end(u, 0) matches Some(y) ==> y <= u.len(),
{
    lemma_lits_no_space();
    lemma_lit_shift(a, u, b, 0, "https://"@);
    lemma_lit_shift(a, u, b, 0, "http://"@);
}

pub open spec fn shift_hit(h: SpecHit, n: int) -> SpecHit {
    SpecHit {
        start: h.start + n,
        end: h.end + n,
        g1: (h.g1.0 + n, h.g1.1 + n),
        g2: (h.g2.0 + n, h.g2.1 + n),
        g3: (h.g3.0 + n, h.g3.1 + n),
    }
}

pub open spec fn shift_hit_opt(o: Option<SpecHit>, n: int) -> Option<SpecHit> {
    match o {
        Some(h) => Some(shift_hit(h, n)),
        None => None,
    }
}

proof fn lemma_twitter_shift(a: Seq<char>, u: Seq<char>, b: Seq<char>)
    requires
        ends_link(b),
    ensures
        twitter_at(a + u + b, a.len() as int) == shift_hit_opt(twitter_at(u, 0), a.len() as int),
{
    lemma_lits_no_space();
    lemma_scheme_shift(a, u, b);
    if let Some(p0) = scheme_end(u, 0) {
        lemma_skip_shift(a, u, b, p0, "www."@);
        let p1 = skip_opt(u, p0, "www."@);
        lemma_skip_shift(a, u, b, p1, "twitter.com"@);
        lemma_skip_shift(a, u, b, p1, "x.com"@);
        let p2 = if lit_at(u, p1, "twitter.com"@) {
            Some(p1 + "twitter.com"@.len())
        } else {
            skip(u, p1, "x.com"@)
        };
        if let Some(p2) = p2 {
            lemma_skip_shift(a, u, b, p2, "/"@);
            if let Some(u0) = skip(u, p2, "/"@) {
                lemma_run_shift_stop(a, u, b, u0, CharClass::Word);
                let u1 = run_end(u, u0, CharClass::Word);
                lemma_lit_shift(a, u, b, u1, "/status/"@);
                if lit_at(u, u1, "/status/"@) {
                    lemma_run_shift_stop(a, u, b, u1 + "/status/"@.len(), CharClass::Path);
                }
            }
        }
    }
}

proof fn lemma_instagram_shift(a: Seq<char>, u: Seq<char>, b: Seq<char>)
    requires
        ends_link(b),
    ensures
        instagram_at(a + u + b, a.len() as int) == shift_hit_opt(instagram_at(u, 0), a.len() as int),
{
    lemma_lits_no_space();
    lemma_scheme_shift(a, u, b);
    let n = a.len() as int;
    let s = a + u + b;
    if let Some(p0) = scheme_end(u, 0) {
        lemma_skip_shift(a, u, b, p0, "www."@);
        let q = skip_opt(u, p0, "www."@);
        lemma_skip_shift(a, u, b, q, "instagram.com"@);
        if let Some(p1) = skip(u, q, "instagram.com"@) {
            lemma_skip_shift(a, u, b, p1, "/"@);
            if let Some(p2) = skip(u, p1, "/"@) {
                lemma_lit_shift(a, u, b, p2, "reels"@);
                lemma_lit_shift(a, u, b, p2, "reel"@);
                lemma_lit_shift(a, u, b, p2, "p"@);
                if lit_at(u, p2, "reels"@) {
                    lemma_slash_segment_shift(a, u, b, p2 + "reels"@.len());
                }
                if lit_at(u, p2, "reel"@) {
                    lemma_slash_segment_shift(a, u, b, p2 + "reel"@.len());
                }
                if lit_at(u, p2, "p"@) {
                    lemma_slash_segment_shift(a, u, b, p2 + "p"@.len());
                }
                assert(instagram_type_end(s, n + p2) == shift_opt(instagram_type_end(u, p2), n));
                if let Some(t) = instagram_type_end(u, p2) {
                    lemma_slash_segment_shift(a, u, b, t);
                }
            }
        }
    }
}

proof fn lemma_tiktok_shift(a: Seq<char>, u: Seq<char>, b: Seq<char>)
    requires
        ends_link(b),
    ensures
        tiktok_at(a + u + b, a.len() as int) == shift_hit_opt(tiktok_at(u, 0), a.len() as int),
{
    lemma_lits_no_space();
    lemma_scheme_shift(a, u, b);
    let n = a.len() as int;
    let s = a + u + b;
    if let Some(p0) = scheme_end(u, 0) {
        lemma_run_shift_stop(a, u, b, p0, CharClass::Word);
        let w = run_end(u, p0, CharClass::Word);
        if w < u.len() {
            assert(s[n + w] == u[w]);
            lemma_lit_shift(a, u, b, w + 1, "tiktok.com"@);
        } else if b.len() > 0 {
            assert(s[n + w] == b[0]);
        }
        assert(tiktok_domain_start(s, n + p0) == n + tiktok_domain_start(u, p0));
        let d0 = tiktok_domain_start(u, p0);
        lemma_skip_shift(a, u, b, d0, "tiktok.com"@);
        if let Some(d1) = skip(u, d0, "tiktok.com"@) {
            if d1 < u.len() {
                assert(s[n + d1] == u[d1]);
                lemma_run_shift_stop(a, u, b, d1 + 1, CharClass::Path);
            } else if b.len() > 0 {
                assert(s[n + d1] == b[0]);
            }
        }
    }
}

proof fn lemma_twitch_shift(a: Seq<char>, u: Seq<char>, b: Seq<char>)
    requires
        ends_link(b),
    ensures
        twitch_at(a + u + b, a.len() as int) == shift_hit_opt(twitch_at(u, 0), a.len() as int),
{
    lemma_lits_no_space();
    lemma_scheme_shift(a, u, b);
    let n = a.len() as int;
    let s = a + u + b;
    if let Some(p0) = scheme_end(u, 0) {
        lemma_skip_shift(a, u, b, p0, "www."@);
        let p1 = skip_opt(u, p0, "www."@);
        lemma_skip_shift(a, u, b, p1, "twitch.tv"@);
        if let Some(t) = skip(u, p1, "twitch.tv"@) {
            lemma_skip_shift(a, u, b, t, "/"@);
            if let Some(u0) = skip(u, t, "/"@) {
                lemma_run_shift_stop(a, u, b, u0, CharClass::Word);
                let u1 = run_end(u, u0, CharClass::Word);
                lemma_lit_shift(a, u, b, u1, "/clip/"@);
                if lit_at(u, u1, "/clip/"@) {
                    lemma_run_shift_stop(a, u, b, u1 + "/clip/"@.len(), CharClass::Path);
                }
            }
        }
        assert(twitch_full(s, n + p1) == match twitch_full(u, p1) {
            Some(f) => Some((f.0 + n, f.1 + n, f.2 + n)),
            None => None,
        });
        lemma_skip_shift(a, u, b, p1, "clips."@);
        if let Some(c) = skip(u, p1, "clips."@) {
            lemma_skip_shift(a, u, b, c, "twitch.tv"@);
            if let Some(t) = skip(u, c, "twitch.tv"@) {
                lemma_skip_shift(a, u, b, t, "/"@);
            }
        }
        assert(clips_start(s, n + p1) == shift_opt(clips_start(u, p1), n));
        if let Some(f) = twitch_full(u, p1) {
            lemma_run_shift_stop(a, u, b, f.2, CharClass::Path);
        }
        if let Some(d) = clips_start(u, p1) {
            lemma_run_shift_stop(a, u, b, d, CharClass::Path);
        }
    }
}

proof fn lemma_reddit_shift(a: Seq<char>, u: Seq<char>, b: Seq<char>)
    requires
        ends_link(b),
    ensures
        reddit_at(a + u + b, a.len() as int) == shift_hit_opt(reddit_at(u, 0), a.len() as int),
{
    lemma_lits_no_space();
    lemma_scheme_shift(a, u, b);
    let n = a.len() as int;
    let s = a + u + b;
    if let Some(p0) = scheme_end(u, 0) {
        lemma_skip_shift(a, u, b, p0, "www."@);
        lemma_skip_shift(a, u, b, p0, "old."@);
        let p1 = if lit_at(u, p0, "www."@) {
            p0 + "www."@.len()
        } else {
            skip_opt(u, p0, "old."@)
        };
        lemma_skip_shift(a, u, b, p1, "reddit.com"@);
        if let Some(p1d) = skip(u, p1, "reddit.com"@) {
            lemma_skip_shift(a, u, b, p1d, "/"@);
            if let Some(p2) = skip(u, p1d, "/"@) {
                lemma_skip_shift(a, u, b, p2, "r/"@);
                if let Some(p3) = skip(u, p2, "r/"@) {
                    lemma_run_shift_stop(a, u, b, p3, CharClass::Segment);
                    let q = run_end(u, p3, CharClass::Segment);
                    if q < u.len() {
                        assert(s[n + q] == u[q]);
                        if u[q] == '/' {
                            lemma_run_shift_stop(a, u, b, q + 1, CharClass::Path);
                        }
                    } else if b.len() > 0 {
                        assert(s[n + q] == b[0]);
                    }
                }
            }
        }
    }
}

/// A link is matched the same way wherever it stands in a text, as long as
/// whitespace or the end of the text follows it.
pub proof fn lemma_hit_in_context(a: Seq<char>, u: Seq<char>, b: Seq<char>, p: Platform)
    requires
        ends_link(b),
    ensures
        hit_at(a + u + b, a.len() as int, p) == shift_hit_opt(hit_at(u, 0, p), a.len() as int),
{
    match p {
        Platform::Instagram => lemma_instagram_shift(a, u, b),
        Platform::Reddit => lemma_reddit_shift(a, u, b),
        Platform::TikTok => lemma_tiktok_shift(a, u, b),
        Platform::Twitch => lemma_twitch_shift(a, u, b),
        Platform::Twitter => lemma_twitter_shift(a, u, b),
    }
}

proof fn lemma_first_from_skip(s: Seq<char>, j: int, n: int, p: Platform)
    requires
        0 <= j <= n <= s.len(),
        forall|i: int| j <= i < n ==> #[trigger] hit_at(s, i, p) is None,
        hit_at(s, n, p) is Some,
    ensures
        first_from(s, j, p) == hit_at(s, n, p),
    decreases n - j,
{
    if j < n {
        lemma_first_from_skip(s, j + 1, n, p);
    }
}

/// A link `u` of platform `p` standing in a text `a + u + b`, followed by
/// whitespace or the end of the text, is the text's link: when no link of
/// `p` starts before it and no platform of higher priority matches in the
/// text, the text is detected as `p`, its match is `u`'s, and its caption is
/// the one that `u`'s own match gives: the proxy domain with `u`'s path.
pub proof fn lemma_link_in_text(a: Seq<char>, u: Seq<char>, b: Seq<char>, p: Platform)
    requires
        ends_link(b),
        hit_at(u, 0, p) is Some,
        forall|i: int| 0 <= i < a.len() ==> #[trigger] hit_at(a + u + b, i, p) is None,
        forall|q: Platform| rank(q) < rank(p) ==> #[trigger] first_hit(a + u + b, q) is None,
    ensures
        detect(a + u + b) == Some(p),
        first_hit(a + u + b, p) == shift_hit_opt(hit_at(u, 0, p), a.len() as int),
        ({
            let h = hit_at(u, 0, p)->0;
            sanitized(a + u + b) == Some(
                caption(
                    p,
                    url_author(p, u, h),
                    captured_post_type(p, u, h),
                    rewritten_url(p, u, h),
                ),
            )
        }),
{
    let s = a + u + b;
    let n = a.len() as int;
    let h = hit_at(u, 0, p)->0;
    lemma_hit_in_context(a, u, b, p);
    crate::matcher::lemma_hit_spans(u, 0, p);
    lemma_first_from_skip(s, 0, n, p);
    lemma_embedded_link_detected(s, n, p);
    let hs = shift_hit(h, n);
    assert forall|x: int, y: int| 0 <= x <= y <= u.len() implies #[trigger] s.subrange(x + n, y + n)
        == u.subrange(x, y) by {
        assert(s.subrange(x + n, y + n) =~= u.subrange(x, y));
    }
    assert(slice(s, hs.g1) == slice(u, h.g1));
    assert(slice(s, hs.g2) == slice(u, h.g2));
    assert(slice(s, hs.g3) == slice(u, h.g3));
    assert(url_author(p, s, hs) == url_author(p, u, h));
    assert(captured_post_type(p, s, hs) == captured_post_type(p, u, h));
    assert(rewritten_url(p, s, hs) == rewritten_url(p, u, h));
}

} // verus!
