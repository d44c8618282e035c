//! Why the bot's own captions do not start another rewrite: in a caption
//! the only `://` is the one of the proxy link's scheme, so a match could
//! only start there, and no platform's pattern accepts a proxy domain.
use vstd::prelude::*;

use crate::matcher::{
    detect, first_hit, hit_at, lemma_first_from_located, lemma_hit_has_scheme, lemma_hit_spans,
    lemma_no_hit_anywhere, scheme_end, span_within, SpecHit,
};
use crate::platform::{spec_display_name, spec_replacement_domain, Platform};
use crate::rewrite::{caption, parse_spec, sanitized, slice};
use crate::text::{
    ci_eq, lemma_lit_char, lemma_not_lit_at, lemma_run_end_class, lemma_run_end_range, lit_at,
    run_end, CharClass,
};

verus! {

pub open spec fn no_colon(q: Seq<char>) -> bool {
    forall|k: int| 0 <= k < q.len() ==> q[k] != ':'
}

pub proof fn lemma_no_colon_concat(a: Seq<char>, b: Seq<char>)
    requires
        no_colon(a),
        no_colon(b),
    ensures
        no_colon(a + b),
{
    assert forall|k: int| 0 <= k < (a + b).len() implies (a + b)[k] != ':' by {
        if k < a.len() {
            assert((a + b)[k] == a[k]);
        } else {
            assert((a + b)[k] == b[k - a.len()]);
        }
    }
}

/// `q` holds no `://`.
pub open spec fn no_sep(q: Seq<char>) -> bool {
    forall|k: int|
        0 <= k && k + 2 < q.len() ==> !(#[trigger] q[k] == ':' && q[k + 1] == '/' && q[k + 2]
            == '/')
}

/// `q` does not end in `:` or in `:` and one more character.
pub open spec fn ends_clean(q: Seq<char>) -> bool {
    &&& q.len() > 0 ==> q[q.len() - 1] != ':'
    &&& q.len() > 1 ==> q[q.len() - 2] != ':'
}

pub proof fn lemma_no_colon_sep(q: Seq<char>)
    requires
        no_colon(q),
    ensures
        no_sep(q),
        ends_clean(q),
{
}

/// Joining two texts without `://` makes none, unless the second starts with
/// `/` right after a `:`.
pub proof fn lemma_no_sep_join(x: Seq<char>, y: Seq<char>)
    requires
        no_sep(x),
        no_sep(y),
        y.len() == 0 || y[0] != '/' || ends_clean(x),
    ensures
        no_sep(x + y),
{
    let z = x + y;
    let n = x.len() as int;
    assert forall|k: int| 0 <= k && k + 2 < z.len() implies !(#[trigger] z[k] == ':' && z[k + 1]
        == '/' && z[k + 2] == '/') by {
        if k + 2 < n {
            assert(z[k] == x[k] && z[k + 1] == x[k + 1] && z[k + 2] == x[k + 2]);
        } else if k >= n {
            assert(z[k] == y[k - n] && z[k + 1] == y[k + 1 - n] && z[k + 2] == y[k + 2 - n]);
        } else if k + 1 == n {
            assert(z[k] == x[k] && z[k + 1] == y[0]);
        } else {
            assert(z[k] == x[k] && z[k + 1] == x[k + 1] && z[k + 2] == y[0]);
        }
    }
}

/// A text ending in two or more characters without `:` ends clean, whatever
/// comes before it.
pub proof fn lemma_ends_clean_suffix(a: Seq<char>, b: Seq<char>)
    requires
        no_colon(b),
        b.len() >= 2,
    ensures
        ends_clean(a + b),
{
    let z = a + b;
    assert(z[z.len() - 1] == b[b.len() - 1]);
    assert(z[z.len() - 2] == b[b.len() - 2]);
}

pub proof fn lemma_no_sep_sub(s: Seq<char>, a: int, b: int, x: int, y: int)
    requires
        no_sep(s.subrange(a, b)),
        0 <= a <= x <= y <= b <= s.len(),
    ensures
        no_sep(s.subrange(x, y)),
{
    let t = s.subrange(x, y);
    assert forall|k: int| 0 <= k && k + 2 < t.len() implies !(#[trigger] t[k] == ':' && t[k + 1]
        == '/' && t[k + 2] == '/') by {
        let o = s.subrange(a, b);
        let m = k + x - a;
        assert(t[k] == o[m] && t[k + 1] == o[m + 1] && t[k + 2] == o[m + 2]);
    }
}

/// In a text `h + "https://" + r + ")"` where neither `h` nor `r` holds a
/// `://`, a match can only start at that scheme.
pub proof fn lemma_match_only_at_url(c: Seq<char>, h: Seq<char>, r: Seq<char>, i: int, q: Platform)
    requires
        c == h + "https://"@ + r + ")"@,
        no_sep(h),
        no_sep(r),
        hit_at(c, i, q) is Some,
    ensures
        i == h.len(),
        scheme_end(c, i) == Some(h.len() + 8int),
{
    reveal_strlit("https://");
    reveal_strlit("http://");
    reveal_strlit(")");
    lemma_hit_has_scheme(c, i, q);
    let n = h.len() as int;
    let m = n + 8 + r.len();
    assert(c[n] == 'h');
    assert(c[m] == ')');
    assert forall|j: int| 0 <= j && j + 2 < c.len() && #[trigger] c[j] == ':' && c[j + 1] == '/'
        && c[j + 2] == '/' implies j == n + 5 by {
        if j + 2 < n {
            assert(c[j] == h[j] && c[j + 1] == h[j + 1] && c[j + 2] == h[j + 2]);
        } else if j < n {
        } else if j < n + 8 {
            assert(c[j] == "https://"@[j - n]);
        } else if j + 2 < m {
            assert(c[j] == r[j - n - 8] && c[j + 1] == r[j + 1 - n - 8] && c[j + 2] == r[j + 2 - n
                - 8]);
        } else {
        }
    }
    if lit_at(c, i, "https://"@) && c[i + 5] == ':' {
        lemma_lit_char(c, i, "https://"@, 6);
        lemma_lit_char(c, i, "https://"@, 7);
        assert(i == n);
    } else {
        lemma_lit_char(c, i, "http://"@, 5);
        lemma_lit_char(c, i, "http://"@, 6);
        assert(i == n + 1);
        lemma_lit_char(c, i, "http://"@, 0);
        assert(c[n + 1] == "https://"@[1]);
    }
}

pub open spec fn caption_shape(c: Seq<char>, h: Seq<char>, r: Seq<char>) -> bool {
    &&& c == h + "https://"@ + r + ")"@
    &&& no_sep(h)
    &&& no_sep(r)
}

pub proof fn lemma_tail_char(c: Seq<char>, h: Seq<char>, r: Seq<char>, j: int)
    requires
        c == h + "https://"@ + r + ")"@,
        0 <= j < r.len(),
    ensures
        c[h.len() + 8 + j] == r[j],
{
    reveal_strlit("https://");
}

/// The TikTok pattern does not match its own proxy link `[sub.]kkt...`,
/// where `sub` is one to three word characters.
pub proof fn lemma_tiktok_tail(c: Seq<char>, h: Seq<char>, r: Seq<char>, n: int)
    requires
        caption_shape(c, h, r),
        n == 0 || (2 <= n <= 4 && r[n - 1] == '.'),
        forall|j: int| 0 <= j < n - 1 ==> crate::text::is_word_char(#[trigger] r[j]),
        r.len() > n + 3,
        r[n] == 'k',
        r[n + 1] == 'k',
        r[n + 2] == 't',
        r[n + 3] == 'i',
    ensures
        forall|i: int| #[trigger] hit_at(c, i, Platform::TikTok) is None,
{
    reveal_strlit("tiktok.com");
    let p0 = h.len() + 8int;
    assert forall|i: int| #[trigger] hit_at(c, i, Platform::TikTok) is None by {
        if hit_at(c, i, Platform::TikTok) is Some {
            lemma_match_only_at_url(c, h, r, i, Platform::TikTok);
            let w = run_end(c, p0, CharClass::Word);
            if 1 <= w - p0 <= 3 && w < c.len() && c[w] == '.' && lit_at(c, w + 1, "tiktok.com"@) {
                let j = w - p0;
                lemma_tail_char(c, h, r, j);
                assert(j == n - 1);
                lemma_tail_char(c, h, r, n);
                lemma_not_lit_at(c, w + 1, "tiktok.com"@, 0);
            } else {
                if n == 0 {
                    lemma_tail_char(c, h, r, 0);
                    lemma_not_lit_at(c, p0, "tiktok.com"@, 0);
                } else {
                    lemma_tail_char(c, h, r, n - 1);
                    lemma_not_lit_at(c, p0, "tiktok.com"@, n - 1);
                }
            }
        }
    }
}

/// The link that `parse_spec` finds in `s` has no `:` after its scheme.
/// `r` starts with four word characters, the first of which opens no
/// platform domain, nor `www.` or `old.`.
pub open spec fn word_lead(r: Seq<char>) -> bool {
    &&& r.len() >= 4
    &&& forall|j: int| 0 <= j < 4 ==> crate::text::is_word_char(#[trigger] r[j])
    &&& !ci_eq(r[0], 'w')
    &&& !ci_eq(r[0], 'o')
    &&& !ci_eq(r[0], 'i')
    &&& !ci_eq(r[0], 'r')
    &&& !ci_eq(r[0], 't')
    &&& !ci_eq(r[0], 'c')
    &&& !ci_eq(r[0], 'x')
}

pub proof fn lemma_word_lead_extend(a: Seq<char>, b: Seq<char>)
    requires
        word_lead(a),
    ensures
        word_lead(a + b),
{
    assert forall|j: int| 0 <= j < 4 implies crate::text::is_word_char(#[trigger] (a + b)[j]) by {
        assert((a + b)[j] == a[j]);
    }
    assert((a + b)[0] == a[0]);
}

/// The proxy domains of Instagram, Twitch and Twitter, and TikTok's without a
/// subdomain, lead with word characters that open no platform domain.
pub proof fn lemma_proxy_word_lead()
    ensures
        word_lead(spec_replacement_domain(Platform::Instagram)),
        word_lead(spec_replacement_domain(Platform::TikTok)),
        word_lead(spec_replacement_domain(Platform::Twitch)),
        word_lead(spec_replacement_domain(Platform::Twitter)),
{
    reveal_strlit("kkinstagram.com");
    reveal_strlit("kktiktok.com");
    reveal_strlit("fxtwitch.seria.moe");
    reveal_strlit("fxtwitter.com");
    let d = spec_replacement_domain(Platform::Instagram);
    assert forall|j: int| 0 <= j < 4 implies crate::text::is_word_char(#[trigger] d[j]) by {}
    let d = spec_replacement_domain(Platform::TikTok);
    assert forall|j: int| 0 <= j < 4 implies crate::text::is_word_char(#[trigger] d[j]) by {}
    let d = spec_replacement_domain(Platform::Twitch);
    assert forall|j: int| 0 <= j < 4 implies crate::text::is_word_char(#[trigger] d[j]) by {}
    let d = spec_replacement_domain(Platform::Twitter);
    assert forall|j: int| 0 <= j < 4 implies crate::text::is_word_char(#[trigger] d[j]) by {}
}

/// A proxy link whose host starts with four word characters, the first of
/// which opens no platform domain (nor `www.` or `old.`), matches no
/// platform's pattern.
pub proof fn lemma_word_lead_tail(c: Seq<char>, h: Seq<char>, r: Seq<char>)
    requires
        caption_shape(c, h, r),
        word_lead(r),
    ensures
        forall|i: int, q: Platform| #[trigger] hit_at(c, i, q) is None,
{
    reveal_strlit("www.");
    reveal_strlit("old.");
    reveal_strlit("instagram.com");
    reveal_strlit("reddit.com");
    reveal_strlit("tiktok.com");
    reveal_strlit("twitch.tv");
    reveal_strlit("clips.");
    reveal_strlit("twitter.com");
    reveal_strlit("x.com");
    let p0 = h.len() + 8int;
    lemma_tail_char(c, h, r, 0);
    lemma_tail_char(c, h, r, 1);
    lemma_tail_char(c, h, r, 2);
    lemma_tail_char(c, h, r, 3);
    assert forall|i: int, q: Platform| #[trigger] hit_at(c, i, q) is None by {
        if hit_at(c, i, q) is Some {
            lemma_match_only_at_url(c, h, r, i, q);
            lemma_not_lit_at(c, p0, "www."@, 0);
            lemma_not_lit_at(c, p0, "old."@, 0);
            lemma_not_lit_at(c, p0, "instagram.com"@, 0);
            lemma_not_lit_at(c, p0, "reddit.com"@, 0);
            lemma_not_lit_at(c, p0, "tiktok.com"@, 0);
            lemma_not_lit_at(c, p0, "twitch.tv"@, 0);
            lemma_not_lit_at(c, p0, "clips."@, 0);
            lemma_not_lit_at(c, p0, "twitter.com"@, 0);
            lemma_not_lit_at(c, p0, "x.com"@, 0);
        }
    }
}

/// The Reddit proxy link `[www.|old.]rxddit...` matches no platform's pattern.
pub proof fn lemma_reddit_tail_all(c: Seq<char>, h: Seq<char>, r: Seq<char>)
    requires
        caption_shape(c, h, r),
        r.len() > 5,
        (r[0] == 'r' && r[1] == 'x' && r[2] == 'd' && r[3] == 'd' && r[4] == 'i') || ((ci_eq(
            r[0],
            'w',
        ) || ci_eq(r[0], 'o')) && r[1] != '.' && r[2] != '.' && r[3] == '.' && r[4] == 'r'
            && r[5] == 'x'),
    ensures
        forall|i: int, q: Platform| #[trigger] hit_at(c, i, q) is None,
{
    reveal_strlit("www.");
    reveal_strlit("old.");
    reveal_strlit("instagram.com");
    reveal_strlit("reddit.com");
    reveal_strlit("tiktok.com");
    reveal_strlit("twitch.tv");
    reveal_strlit("clips.");
    reveal_strlit("twitter.com");
    reveal_strlit("x.com");
    let p0 = h.len() + 8int;
    lemma_tail_char(c, h, r, 0);
    lemma_tail_char(c, h, r, 1);
    lemma_tail_char(c, h, r, 2);
    lemma_tail_char(c, h, r, 3);
    lemma_tail_char(c, h, r, 4);
    lemma_tail_char(c, h, r, 5);
    assert forall|i: int, q: Platform| #[trigger] hit_at(c, i, q) is None by {
        if hit_at(c, i, q) is Some {
            lemma_match_only_at_url(c, h, r, i, q);
            if r[0] == 'r' {
                lemma_not_lit_at(c, p0, "www."@, 0);
                lemma_not_lit_at(c, p0, "old."@, 0);
                lemma_not_lit_at(c, p0, "instagram.com"@, 0);
                lemma_not_lit_at(c, p0, "reddit.com"@, 1);
                lemma_not_lit_at(c, p0, "tiktok.com"@, 0);
                lemma_not_lit_at(c, p0, "twitch.tv"@, 0);
                lemma_not_lit_at(c, p0, "clips."@, 0);
                lemma_not_lit_at(c, p0, "twitter.com"@, 0);
                lemma_not_lit_at(c, p0, "x.com"@, 0);
            } else {
                lemma_not_lit_at(c, p0, "instagram.com"@, 0);
                lemma_not_lit_at(c, p0, "reddit.com"@, 0);
                lemma_not_lit_at(c, p0, "tiktok.com"@, 0);
                lemma_not_lit_at(c, p0, "twitch.tv"@, 0);
                lemma_not_lit_at(c, p0, "clips."@, 0);
                lemma_not_lit_at(c, p0, "twitter.com"@, 0);
                lemma_not_lit_at(c, p0, "x.com"@, 0);
                lemma_not_lit_at(c, p0 + 4, "instagram.com"@, 0);
                lemma_not_lit_at(c, p0 + 4, "reddit.com"@, 1);
                lemma_not_lit_at(c, p0 + 4, "tiktok.com"@, 0);
                lemma_not_lit_at(c, p0 + 4, "twitch.tv"@, 0);
                lemma_not_lit_at(c, p0 + 4, "clips."@, 0);
                lemma_not_lit_at(c, p0 + 4, "twitter.com"@, 0);
                lemma_not_lit_at(c, p0 + 4, "x.com"@, 0);
            }
        }
    }
}

/// A TikTok proxy link with a short-link subdomain, `<sub>.kkti...`, matches
/// no other platform's pattern.
pub proof fn lemma_tiktok_sub_tail_all(c: Seq<char>, h: Seq<char>, r: Seq<char>, n: int)
    requires
        caption_shape(c, h, r),
        2 <= n <= 4,
        r[n - 1] == '.',
        forall|j: int| 0 <= j < n - 1 ==> crate::text::is_word_char(#[trigger] r[j]),
        r.len() > n + 3,
        r[n] == 'k',
        r[n + 1] == 'k',
        r[n + 2] == 't',
        r[n + 3] == 'i',
    ensures
        forall|i: int, q: Platform| q != Platform::TikTok ==> #[trigger] hit_at(c, i, q) is None,
{
    reveal_strlit("www.");
    reveal_strlit("old.");
    reveal_strlit("instagram.com");
    reveal_strlit("reddit.com");
    reveal_strlit("twitch.tv");
    reveal_strlit("clips.");
    reveal_strlit("twitter.com");
    reveal_strlit("x.com");
    let p0 = h.len() + 8int;
    let k = n - 1;
    lemma_tail_char(c, h, r, k);
    lemma_tail_char(c, h, r, n);
    assert forall|i: int, q: Platform| q != Platform::TikTok implies #[trigger] hit_at(c, i, q)
        is None by {
        if hit_at(c, i, q) is Some {
            lemma_match_only_at_url(c, h, r, i, q);
            lemma_not_lit_at(c, p0, "instagram.com"@, k);
            lemma_not_lit_at(c, p0, "reddit.com"@, k);
            lemma_not_lit_at(c, p0, "twitch.tv"@, k);
            lemma_not_lit_at(c, p0, "clips."@, k);
            lemma_not_lit_at(c, p0, "twitter.com"@, k);
            if n == 2 {
                lemma_tail_char(c, h, r, 2);
                lemma_not_lit_at(c, p0, "x.com"@, 2);
            } else {
                lemma_not_lit_at(c, p0, "x.com"@, k);
            }
            if n == 4 {
                lemma_not_lit_at(c, p0 + 4, "instagram.com"@, 0);
                lemma_not_lit_at(c, p0 + 4, "reddit.com"@, 0);
                lemma_not_lit_at(c, p0 + 4, "twitch.tv"@, 0);
                lemma_not_lit_at(c, p0 + 4, "clips."@, 0);
                lemma_not_lit_at(c, p0 + 4, "twitter.com"@, 0);
                lemma_not_lit_at(c, p0 + 4, "x.com"@, 0);
            } else {
                lemma_tail_char(c, h, r, 3);
                lemma_not_lit_at(c, p0, "www."@, 3);
                lemma_not_lit_at(c, p0, "old."@, 3);
            }
        }
    }
}

/// The link that `parse_spec` finds in `s` holds no `://` after its scheme.
pub open spec fn link_sep_free(s: Seq<char>) -> bool {
    match parse_spec(s) {
        Some((p, h)) => no_sep(s.subrange(scheme_end(s, h.start)->0, h.end)),
        None => true,
    }
}

pub proof fn lemma_lits_no_colon()
    ensures
        no_colon("["@),
        no_colon("[@"@),
        no_colon("[Post"@),
        no_colon(" via "@),
        no_colon("]("@),
        no_colon("/"@),
        no_colon("/clip/"@),
        no_colon("www."@),
        no_colon("Reel"@),
        no_colon("Post"@),
        forall|p: Platform| no_colon(#[trigger] spec_display_name(p)),
        forall|p: Platform| no_colon(#[trigger] spec_replacement_domain(p)),
{
    reveal_strlit("[");
    reveal_strlit("[@");
    reveal_strlit("[Post");
    reveal_strlit(" via ");
    reveal_strlit("](");
    reveal_strlit("/");
    reveal_strlit("/clip/");
    reveal_strlit("www.");
    reveal_strlit("Reel");
    reveal_strlit("Post");
    reveal_strlit("Instagram");
    reveal_strlit("Reddit");
    reveal_strlit("TikTok");
    reveal_strlit("Twitch");
    reveal_strlit("Twitter");
    reveal_strlit("kkinstagram.com");
    reveal_strlit("rxddit.com");
    reveal_strlit("kktiktok.com");
    reveal_strlit("fxtwitch.seria.moe");
    reveal_strlit("fxtwitter.com");
    assert forall|p: Platform| no_colon(#[trigger] spec_display_name(p)) by {
        match p {
            Platform::Instagram => {},
            Platform::Reddit => {},
            Platform::TikTok => {},
            Platform::Twitch => {},
            Platform::Twitter => {},
        }
    }
    assert forall|p: Platform| no_colon(#[trigger] spec_replacement_domain(p)) by {
        match p {
            Platform::Instagram => {},
            Platform::Reddit => {},
            Platform::TikTok => {},
            Platform::Twitch => {},
            Platform::Twitter => {},
        }
    }
}

pub proof fn lemma_no_colon_join(a: Seq<char>, b: Seq<char>, c: Seq<char>, d: Seq<char>, e: Seq<char>)
    requires
        no_colon(a),
        no_colon(b),
        no_colon(c),
        no_colon(d),
        no_colon(e),
    ensures
        no_colon(a + b),
        no_colon(a + b + c),
        no_colon(a + b + c + d),
        no_colon(a + b + c + d + e),
{
    lemma_no_colon_concat(a, b);
    lemma_no_colon_concat(a + b, c);
    lemma_no_colon_concat(a + b + c, d);
    lemma_no_colon_concat(a + b + c + d, e);
}

/// What the per-platform caption lemmas start from: `h` is the hit of `p`
/// in `s`, and the link holds no `://` after its scheme.
pub open spec fn caption_setup(s: Seq<char>, h: SpecHit, p: Platform) -> bool {
    &&& hit_at(s, h.start, p) == Some(h)
    &&& scheme_end(s, h.start) is Some
    &&& span_within(h.g1, scheme_end(s, h.start)->0, h.end)
    &&& span_within(h.g2, scheme_end(s, h.start)->0, h.end)
    &&& span_within(h.g3, scheme_end(s, h.start)->0, h.end)
    &&& h.end <= s.len()
    &&& no_sep(s.subrange(scheme_end(s, h.start)->0, h.end))
}

pub open spec fn caption_of(s: Seq<char>, h: SpecHit, p: Platform) -> Seq<char> {
    caption(
        p,
        crate::rewrite::url_author(p, s, h),
        crate::rewrite::captured_post_type(p, s, h),
        crate::rewrite::rewritten_url(p, s, h),
    )
}

/// Any part of the link after its scheme holds no `://`.
proof fn lemma_piece_sep(s: Seq<char>, h: SpecHit, p: Platform, x: int, y: int)
    requires
        caption_setup(s, h, p),
        scheme_end(s, h.start)->0 <= x <= y <= h.end,
    ensures
        no_sep(s.subrange(x, y)),
{
    lemma_no_sep_sub(s, scheme_end(s, h.start)->0, h.end, x, y);
}

/// Two spans that meet form one part of the link.
proof fn lemma_pieces_meet(s: Seq<char>, h: SpecHit, p: Platform, g: (int, int), k: (int, int))
    requires
        caption_setup(s, h, p),
        scheme_end(s, h.start)->0 <= g.0 <= g.1 == k.0 <= k.1 <= h.end,
    ensures
        no_sep(slice(s, g) + slice(s, k)),
{
    assert(slice(s, g) + slice(s, k) =~= s.subrange(g.0, k.1));
    lemma_piece_sep(s, h, p, g.0, k.1);
}

/// A caption head `lead + who + " via <Platform>]("` holds no `://`.
proof fn lemma_head_sep(lead: Seq<char>, who: Seq<char>, p: Platform)
    requires
        no_colon(lead),
        no_sep(who),
    ensures
        no_sep(lead + who + " via "@ + spec_display_name(p) + "]("@),
{
    lemma_lits_no_colon();
    reveal_strlit(" via ");
    lemma_no_colon_sep(lead);
    lemma_no_sep_join(lead, who);
    let tl = " via "@ + spec_display_name(p) + "]("@;
    lemma_no_colon_join(" via "@, spec_display_name(p), "]("@, "/"@, "/"@);
    lemma_no_colon_sep(tl);
    assert(tl[0] == ' ');
    lemma_no_sep_join(lead + who, tl);
    assert(lead + who + " via "@ + spec_display_name(p) + "]("@ =~= (lead + who) + tl);
}

/// A proxy link tail `pre + dom + path`, where `dom` is a proxy domain and
/// `path` starts after a domain of the original link, holds no `://`.
proof fn lemma_rest_sep(pre: Seq<char>, dom: Seq<char>, path: Seq<char>)
    requires
        no_sep(pre),
        no_colon(dom),
        dom.len() >= 2,
        dom[0] != '/',
        no_sep(path),
    ensures
        no_sep(pre + dom + path),
{
    lemma_no_colon_sep(dom);
    lemma_no_sep_join(pre, dom);
    lemma_ends_clean_suffix(pre, dom);
    lemma_no_sep_join(pre + dom, path);
}

pub proof fn lemma_proxy_domains()
    ensures
        forall|p: Platform|
            #![trigger spec_replacement_domain(p)]
            spec_replacement_domain(p).len() >= 2 && spec_replacement_domain(p)[0] != '/',
{
    reveal_strlit("kkinstagram.com");
    reveal_strlit("rxddit.com");
    reveal_strlit("kktiktok.com");
    reveal_strlit("fxtwitch.seria.moe");
    reveal_strlit("fxtwitter.com");
    assert forall|p: Platform|
        #![trigger spec_replacement_domain(p)]
        spec_replacement_domain(p).len() >= 2 && spec_replacement_domain(p)[0] != '/' by {
        match p {
            Platform::Instagram => {},
            Platform::Reddit => {},
            Platform::TikTok => {},
            Platform::Twitch => {},
            Platform::Twitter => {},
        }
    }
}

pub open spec fn instagram_head(s: Seq<char>, h: SpecHit) -> Seq<char> {
    "["@ + crate::rewrite::post_word(Some(slice(s, h.g1))) + " via "@ + spec_display_name(
        Platform::Instagram,
    ) + "]("@
}

pub open spec fn instagram_path(s: Seq<char>, h: SpecHit) -> Seq<char> {
    "/"@ + slice(s, h.g1) + slice(s, h.g2)
}

proof fn lemma_instagram_caption_shape(s: Seq<char>, h: SpecHit)
    requires
        caption_setup(s, h, Platform::Instagram),
    ensures
        caption_of(s, h, Platform::Instagram) == instagram_head(s, h) + "https://"@ + (
        spec_replacement_domain(Platform::Instagram) + instagram_path(s, h)) + ")"@,
        no_sep(instagram_head(s, h)),
        no_sep(spec_replacement_domain(Platform::Instagram) + instagram_path(s, h)),
{
    lemma_lits_no_colon();
    lemma_proxy_domains();
    let p = Platform::Instagram;
    let g1 = slice(s, h.g1);
    let g2 = slice(s, h.g2);
    let dom = spec_replacement_domain(p);
    let w = crate::rewrite::post_word(Some(g1));
    assert(no_colon(w));
    lemma_no_colon_sep(w);
    lemma_head_sep("["@, w, p);
    assert(h.g1.1 == h.g2.0);
    lemma_pieces_meet(s, h, p, h.g1, h.g2);
    lemma_no_colon_sep("/"@);
    lemma_no_sep_join("/"@, g1 + g2);
    assert(instagram_path(s, h) =~= "/"@ + (g1 + g2));
    lemma_rest_sep(Seq::empty(), dom, instagram_path(s, h));
    assert(Seq::<char>::empty() + dom + instagram_path(s, h) =~= dom + instagram_path(s, h));
    assert(caption_of(s, h, p) =~= instagram_head(s, h) + "https://"@ + (dom + instagram_path(
        s,
        h,
    )) + ")"@);
}

proof fn lemma_caption_instagram(s: Seq<char>, h: SpecHit)
    requires
        caption_setup(s, h, Platform::Instagram),
    ensures
        forall|i: int, q: Platform| #[trigger] hit_at(caption_of(s, h, Platform::Instagram), i, q) is None,
{
    lemma_instagram_caption_shape(s, h);
    let dom = spec_replacement_domain(Platform::Instagram);
    lemma_proxy_word_lead();
    lemma_word_lead_extend(dom, instagram_path(s, h));
    lemma_word_lead_tail(
        caption_of(s, h, Platform::Instagram),
        instagram_head(s, h),
        dom + instagram_path(s, h),
    );
}

pub open spec fn reddit_head(s: Seq<char>, h: SpecHit) -> Seq<char> {
    "["@ + slice(s, h.g2) + " via "@ + spec_display_name(Platform::Reddit) + "]("@
}

pub open spec fn reddit_rest(s: Seq<char>, h: SpecHit) -> Seq<char> {
    slice(s, h.g1) + spec_replacement_domain(Platform::Reddit) + "/"@ + slice(s, h.g2) + slice(
        s,
        h.g3,
    )
}

proof fn lemma_reddit_caption_shape(s: Seq<char>, h: SpecHit)
    requires
        caption_setup(s, h, Platform::Reddit),
    ensures
        caption_of(s, h, Platform::Reddit) == reddit_head(s, h) + "https://"@ + reddit_rest(s, h)
            + ")"@,
        no_sep(reddit_head(s, h)),
        no_sep(reddit_rest(s, h)),
{
    lemma_lits_no_colon();
    lemma_proxy_domains();
    let p = Platform::Reddit;
    let g1 = slice(s, h.g1);
    let g2 = slice(s, h.g2);
    let g3 = slice(s, h.g3);
    let dom = spec_replacement_domain(p);
    lemma_piece_sep(s, h, p, h.g2.0, h.g2.1);
    lemma_head_sep("["@, g2, p);
    lemma_piece_sep(s, h, p, h.g1.0, h.g1.1);
    assert(h.g2.1 == h.g3.0);
    lemma_pieces_meet(s, h, p, h.g2, h.g3);
    lemma_no_colon_concat(dom, "/"@);
    reveal_strlit("/");
    assert((dom + "/"@)[0] == dom[0]);
    lemma_rest_sep(g1, dom + "/"@, g2 + g3);
    assert(reddit_rest(s, h) =~= g1 + (dom + "/"@) + (g2 + g3));
    assert(caption_of(s, h, p) =~= reddit_head(s, h) + "https://"@ + reddit_rest(s, h) + ")"@);
}

proof fn lemma_reddit_rest_facts(s: Seq<char>, h: SpecHit)
    requires
        caption_setup(s, h, Platform::Reddit),
    ensures
        ({
            let r = reddit_rest(s, h);
            &&& r.len() > 5
            &&& (r[0] == 'r' && r[1] == 'x' && r[2] == 'd' && r[3] == 'd' && r[4] == 'i') || ((ci_eq(
                r[0],
                'w',
            ) || ci_eq(r[0], 'o')) && r[1] != '.' && r[2] != '.' && r[3] == '.' && r[4] == 'r'
                && r[5] == 'x')
        }),
{
    reveal_strlit("www.");
    reveal_strlit("old.");
    reveal_strlit("rxddit.com");
    let p0 = scheme_end(s, h.start)->0;
    if lit_at(s, p0, "www."@) {
        lemma_lit_char(s, p0, "www."@, 0);
        lemma_lit_char(s, p0, "www."@, 1);
        lemma_lit_char(s, p0, "www."@, 2);
        lemma_lit_char(s, p0, "www."@, 3);
    } else if lit_at(s, p0, "old."@) {
        lemma_lit_char(s, p0, "old."@, 0);
        lemma_lit_char(s, p0, "old."@, 1);
        lemma_lit_char(s, p0, "old."@, 2);
        lemma_lit_char(s, p0, "old."@, 3);
    }
}

proof fn lemma_caption_reddit(s: Seq<char>, h: SpecHit)
    requires
        caption_setup(s, h, Platform::Reddit),
    ensures
        forall|i: int, q: Platform| #[trigger] hit_at(caption_of(s, h, Platform::Reddit), i, q) is None,
{
    lemma_reddit_caption_shape(s, h);
    lemma_reddit_rest_facts(s, h);
    lemma_reddit_tail_all(caption_of(s, h, Platform::Reddit), reddit_head(s, h), reddit_rest(s, h));
}

proof fn lemma_path_author_sep(t: Seq<char>)
    requires
        no_sep(t),
    ensures
        match crate::author::path_author(t) {
            Some(u) => no_sep(u),
            None => true,
        },
{
    match crate::author::path_author(t) {
        Some(u) => {
            let a = crate::author::find_from(t, "/@"@, 0);
            let b = crate::author::find_from(t, "/video/"@, a + "/@"@.len());
            crate::author::lemma_find_from_bounds(t, "/@"@, 0);
            crate::author::lemma_find_from_bounds(t, "/video/"@, a + "/@"@.len());
            assert(t.subrange(0, t.len() as int) =~= t);
            lemma_no_sep_sub(t, 0, t.len() as int, a + "/@"@.len(), b);
        },
        None => {},
    }
}

pub open spec fn tiktok_head(s: Seq<char>, h: SpecHit) -> Seq<char> {
    let who = match crate::author::path_author(slice(s, h.g3)) {
        Some(u) => "[@"@ + u,
        None => "[Post"@,
    };
    who + " via "@ + spec_display_name(Platform::TikTok) + "]("@
}

pub open spec fn tiktok_rest(s: Seq<char>, h: SpecHit) -> Seq<char> {
    slice(s, h.g1) + spec_replacement_domain(Platform::TikTok) + slice(s, h.g3)
}

proof fn lemma_tiktok_caption_shape(s: Seq<char>, h: SpecHit)
    requires
        caption_setup(s, h, Platform::TikTok),
    ensures
        caption_of(s, h, Platform::TikTok) == tiktok_head(s, h) + "https://"@ + tiktok_rest(s, h)
            + ")"@,
        no_sep(tiktok_head(s, h)),
        no_sep(tiktok_rest(s, h)),
{
    lemma_lits_no_colon();
    lemma_proxy_domains();
    let p = Platform::TikTok;
    let g1 = slice(s, h.g1);
    let g3 = slice(s, h.g3);
    let dom = spec_replacement_domain(p);
    lemma_piece_sep(s, h, p, h.g3.0, h.g3.1);
    lemma_path_author_sep(g3);
    match crate::author::path_author(g3) {
        Some(u) => {
            lemma_head_sep("[@"@, u, p);
        },
        None => {
            lemma_no_colon_sep(Seq::<char>::empty());
            lemma_head_sep("[Post"@, Seq::<char>::empty(), p);
            assert("[Post"@ + Seq::<char>::empty() =~= "[Post"@);
        },
    }
    lemma_piece_sep(s, h, p, h.g1.0, h.g1.1);
    lemma_rest_sep(g1, dom, g3);
    assert(caption_of(s, h, p) =~= tiktok_head(s, h) + "https://"@ + tiktok_rest(s, h) + ")"@);
}

proof fn lemma_tiktok_rest_facts(s: Seq<char>, h: SpecHit)
    requires
        caption_setup(s, h, Platform::TikTok),
    ensures
        ({
            let r = tiktok_rest(s, h);
            let n = (h.g1.1 - h.g1.0) as int;
            &&& n == 0 || (2 <= n <= 4 && r[n - 1] == '.')
            &&& forall|j: int| 0 <= j < n - 1 ==> crate::text::is_word_char(#[trigger] r[j])
            &&& r.len() > n + 3
            &&& r[n] == 'k'
            &&& r[n + 1] == 'k'
            &&& r[n + 2] == 't'
            &&& r[n + 3] == 'i'
        }),
{
    reveal_strlit("kktiktok.com");
    let p0 = scheme_end(s, h.start)->0;
    let r = tiktok_rest(s, h);
    let g1 = slice(s, h.g1);
    let n = g1.len() as int;
    lemma_run_end_class(s, p0, CharClass::Word);
    lemma_run_end_range(s, p0, CharClass::Word);
    assert forall|j: int| 0 <= j < n - 1 implies crate::text::is_word_char(#[trigger] r[j]) by {
        assert(r[j] == s[p0 + j]);
    }
}

proof fn lemma_caption_tiktok(s: Seq<char>, h: SpecHit)
    requires
        caption_setup(s, h, Platform::TikTok),
    ensures
        forall|i: int, q: Platform| #[trigger] hit_at(caption_of(s, h, Platform::TikTok), i, q) is None,
{
    lemma_tiktok_caption_shape(s, h);
    lemma_tiktok_rest_facts(s, h);
    let n = (h.g1.1 - h.g1.0) as int;
    let c = caption_of(s, h, Platform::TikTok);
    let r = tiktok_rest(s, h);
    if n == 0 {
        lemma_proxy_word_lead();
        let dom = spec_replacement_domain(Platform::TikTok);
        lemma_word_lead_extend(dom, slice(s, h.g3));
        assert(r =~= dom + slice(s, h.g3));
        lemma_word_lead_tail(c, tiktok_head(s, h), r);
    } else {
        lemma_tiktok_tail(c, tiktok_head(s, h), r, n);
        lemma_tiktok_sub_tail_all(c, tiktok_head(s, h), r, n);
    }
}

pub open spec fn fx_head(s: Seq<char>, h: SpecHit, p: Platform) -> Seq<char> {
    let who = match crate::rewrite::url_author(p, s, h) {
        Some(u) => "[@"@ + u,
        None => "[Post"@,
    };
    who + " via "@ + spec_display_name(p) + "]("@
}

pub open spec fn fx_path(s: Seq<char>, h: SpecHit, p: Platform) -> Seq<char> {
    if p == Platform::Twitch {
        match crate::rewrite::twitch_user(s, h) {
            Some(u) => "/"@ + u + "/clip/"@ + slice(s, h.g2),
            None => "/clip/"@ + slice(s, h.g2),
        }
    } else {
        "/"@ + slice(s, h.g1) + slice(s, h.g2)
    }
}

proof fn lemma_twitter_caption_shape(s: Seq<char>, h: SpecHit)
    requires
        caption_setup(s, h, Platform::Twitter),
    ensures
        caption_of(s, h, Platform::Twitter) == fx_head(s, h, Platform::Twitter) + "https://"@ + (spec_replacement_domain(Platform::Twitter)
            + fx_path(s, h, Platform::Twitter)) + ")"@,
        no_sep(fx_head(s, h, Platform::Twitter)),
        no_sep(spec_replacement_domain(Platform::Twitter) + fx_path(s, h, Platform::Twitter)),
{
    lemma_lits_no_colon();
    lemma_proxy_domains();
    let p = Platform::Twitter;
    let g1 = slice(s, h.g1);
    let g2 = slice(s, h.g2);
    let dom = spec_replacement_domain(p);
    lemma_piece_sep(s, h, p, h.g1.0, h.g1.1);
    lemma_head_sep("[@"@, g1, p);
    assert(h.g1.1 == h.g2.0);
    lemma_pieces_meet(s, h, p, h.g1, h.g2);
    lemma_no_colon_sep("/"@);
    lemma_no_sep_join("/"@, g1 + g2);
    assert(fx_path(s, h, p) =~= "/"@ + (g1 + g2));
    lemma_rest_sep(Seq::empty(), dom, fx_path(s, h, p));
    assert(Seq::<char>::empty() + dom + fx_path(s, h, p) =~= dom + fx_path(s, h, p));
    assert(caption_of(s, h, p) =~= fx_head(s, h, p) + "https://"@ + (dom + fx_path(s, h, p))
        + ")"@);
}

proof fn lemma_twitch_user_no_colon(s: Seq<char>, h: SpecHit)
    requires
        caption_setup(s, h, Platform::Twitch),
        crate::rewrite::twitch_user(s, h) is Some,
    ensures
        no_colon(slice(s, h.g1)),
{
    let p1 = crate::matcher::skip_opt(s, scheme_end(s, h.start)->0, "www."@);
    let f = crate::matcher::twitch_full(s, p1)->0;
    assert(h.g1 == (f.0, f.1));
    lemma_run_end_class(s, f.0, CharClass::Word);
    let u = slice(s, h.g1);
    assert forall|k: int| 0 <= k < u.len() implies u[k] != ':' by {
        assert(u[k] == s[f.0 + k]);
    }
}

proof fn lemma_twitch_full_caption_shape(s: Seq<char>, h: SpecHit)
    requires
        caption_setup(s, h, Platform::Twitch),
        crate::rewrite::twitch_user(s, h) is Some,
    ensures
        caption_of(s, h, Platform::Twitch) == fx_head(s, h, Platform::Twitch) + "https://"@ + (spec_replacement_domain(Platform::Twitch)
            + fx_path(s, h, Platform::Twitch)) + ")"@,
        no_sep(fx_head(s, h, Platform::Twitch)),
        no_sep(spec_replacement_domain(Platform::Twitch) + fx_path(s, h, Platform::Twitch)),
{
    lemma_lits_no_colon();
    lemma_proxy_domains();
    let p = Platform::Twitch;
    let u = slice(s, h.g1);
    let g2 = slice(s, h.g2);
    let dom = spec_replacement_domain(p);
    lemma_twitch_user_no_colon(s, h);
    lemma_no_colon_sep(u);
    lemma_head_sep("[@"@, u, p);
    lemma_no_colon_concat("/"@, u);
    lemma_no_colon_concat("/"@ + u, "/clip/"@);
    let lead = "/"@ + u + "/clip/"@;
    lemma_no_colon_sep(lead);
    lemma_piece_sep(s, h, p, h.g2.0, h.g2.1);
    lemma_no_sep_join(lead, g2);
    assert(fx_path(s, h, p) =~= lead + g2);
    lemma_rest_sep(Seq::empty(), dom, fx_path(s, h, p));
    assert(Seq::<char>::empty() + dom + fx_path(s, h, p) =~= dom + fx_path(s, h, p));
    assert(caption_of(s, h, p) =~= fx_head(s, h, p) + "https://"@ + (dom + fx_path(s, h, p))
        + ")"@);
}

proof fn lemma_twitch_short_caption_shape(s: Seq<char>, h: SpecHit)
    requires
        caption_setup(s, h, Platform::Twitch),
        crate::rewrite::twitch_user(s, h) is None,
    ensures
        caption_of(s, h, Platform::Twitch) == fx_head(s, h, Platform::Twitch) + "https://"@ + (spec_replacement_domain(Platform::Twitch)
            + fx_path(s, h, Platform::Twitch)) + ")"@,
        no_sep(fx_head(s, h, Platform::Twitch)),
        no_sep(spec_replacement_domain(Platform::Twitch) + fx_path(s, h, Platform::Twitch)),
{
    lemma_lits_no_colon();
    lemma_proxy_domains();
    let p = Platform::Twitch;
    let g2 = slice(s, h.g2);
    let dom = spec_replacement_domain(p);
    lemma_no_colon_sep(Seq::<char>::empty());
    lemma_head_sep("[Post"@, Seq::<char>::empty(), p);
    assert("[Post"@ + Seq::<char>::empty() =~= "[Post"@);
    lemma_no_colon_sep("/clip/"@);
    lemma_piece_sep(s, h, p, h.g2.0, h.g2.1);
    lemma_no_sep_join("/clip/"@, g2);
    assert(fx_path(s, h, p) =~= "/clip/"@ + g2);
    lemma_rest_sep(Seq::empty(), dom, fx_path(s, h, p));
    assert(Seq::<char>::empty() + dom + fx_path(s, h, p) =~= dom + fx_path(s, h, p));
    assert(caption_of(s, h, p) =~= fx_head(s, h, p) + "https://"@ + (dom + fx_path(s, h, p))
        + ")"@);
}

proof fn lemma_caption_fx(s: Seq<char>, h: SpecHit, p: Platform)
    requires
        p == Platform::Twitch || p == Platform::Twitter,
        caption_setup(s, h, p),
    ensures
        forall|i: int, q: Platform| #[trigger] hit_at(caption_of(s, h, p), i, q) is None,
{
    if p == Platform::Twitch {
        if crate::rewrite::twitch_user(s, h) is Some {
            lemma_twitch_full_caption_shape(s, h);
        } else {
            lemma_twitch_short_caption_shape(s, h);
        }
    } else {
        lemma_twitter_caption_shape(s, h);
    }
    lemma_proxy_word_lead();
    let dom = spec_replacement_domain(p);
    lemma_word_lead_extend(dom, fx_path(s, h, p));
    lemma_word_lead_tail(caption_of(s, h, p), fx_head(s, h, p), dom + fx_path(s, h, p));
}

/// The caption that the rewriter builds for a link with no `://` after its
/// scheme is not detected as any platform's link, so posting it cannot start
/// another rewrite.
pub proof fn lemma_caption_not_detected(s: Seq<char>)
    requires
        parse_spec(s) is Some,
        link_sep_free(s),
    ensures
        detect(sanitized(s)->0) is None,
{
    let (p, h) = parse_spec(s)->0;
    lemma_first_from_located(s, 0, p);
    lemma_hit_spans(s, h.start, p);
    assert(caption_setup(s, h, p));
    let c = sanitized(s)->0;
    assert(c == caption_of(s, h, p));
    match p {
        Platform::Instagram => lemma_caption_instagram(s, h),
        Platform::Reddit => lemma_caption_reddit(s, h),
        Platform::TikTok => lemma_caption_tiktok(s, h),
        Platform::Twitch => lemma_caption_fx(s, h, p),
        Platform::Twitter => lemma_caption_fx(s, h, p),
    }
    lemma_no_hit_anywhere(c, Platform::Instagram);
    lemma_no_hit_anywhere(c, Platform::Reddit);
    lemma_no_hit_anywhere(c, Platform::TikTok);
    lemma_no_hit_anywhere(c, Platform::Twitch);
    lemma_no_hit_anywhere(c, Platform::Twitter);
}

} // verus!
