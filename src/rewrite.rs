//! The URL rewriter: fields captured from a detected link, the proxy URL
//! that replaces it, and the caption posted in reply.
use vstd::prelude::*;

use crate::author::{author_from_location, opt_seq, path_author};
use crate::matcher::{
    detect, detect_chars, find_first, first_hit, hit_at, hit_wf, lemma_first_from_located,
    lemma_hit_spans, scheme_end, skip, skip_opt, Hit, SpecHit,
};
use crate::platform::{spec_display_name, spec_replacement_domain, Platform};
use crate::text::{chars_of, lemma_lit_char, lit_at, match_lit, piece};

verus! {

pub open spec fn slice(s: Seq<char>, g: (int, int)) -> Seq<char> {
    s.subrange(g.0, g.1)
}

/// The fields captured from the first supported link of a text.
#[derive(Debug, Clone, PartialEq, Eq)]
pub enum ParsedURL {
    Instagram { url: String, post_type: String, data: String },
    Reddit { url: String, subdomain: String, subreddit: String, data: String },
    Tiktok { url: String, subdomain: String, domain: String, data: String },
    Twitch { url: String, username: Option<String>, data: String },
    Twitter { url: String, username: String, data: String },
}

/// `r` holds the spans of hit `h` of platform `p` in `s`.
pub open spec fn parsed_from(r: ParsedURL, p: Platform, s: Seq<char>, h: SpecHit) -> bool {
    match r {
        ParsedURL::Instagram { url, post_type, data } => {
            &&& p == Platform::Instagram
            &&& url@ == s.subrange(h.start, h.end)
            &&& post_type@ == slice(s, h.g1)
            &&& data@ == slice(s, h.g2)
        },
        ParsedURL::Reddit { url, subdomain, subreddit, data } => {
            &&& p == Platform::Reddit
            &&& url@ == s.subrange(h.start, h.end)
            &&& subdomain@ == slice(s, h.g1)
            &&& subreddit@ == slice(s, h.g2)
            &&& data@ == slice(s, h.g3)
        },
        ParsedURL::Tiktok { url, subdomain, domain, data } => {
            &&& p == Platform::TikTok
            &&& url@ == s.subrange(h.start, h.end)
            &&& subdomain@ == slice(s, h.g1)
            &&& domain@ == slice(s, h.g2)
            &&& data@ == slice(s, h.g3)
        },
        ParsedURL::Twitch { url, username, data } => {
            &&& p == Platform::Twitch
            &&& url@ == s.subrange(h.start, h.end)
            &&& opt_seq(username) == twitch_user(s, h)
            &&& data@ == slice(s, h.g2)
        },
        ParsedURL::Twitter { url, username, data } => {
            &&& p == Platform::Twitter
            &&& url@ == s.subrange(h.start, h.end)
            &&& username@ == slice(s, h.g1)
            &&& data@ == slice(s, h.g2)
        },
    }
}

/// The user name of a Twitch clip link: present in the full form only.
pub open spec fn twitch_user(s: Seq<char>, h: SpecHit) -> Option<Seq<char>> {
    if h.g1.0 < h.g1.1 {
        Some(slice(s, h.g1))
    } else {
        None
    }
}

/// What parsing `s` yields: the detected platform and its leftmost match.
pub open spec fn parse_spec(s: Seq<char>) -> Option<(Platform, SpecHit)> {
    match detect(s) {
        Some(p) => Some((p, first_hit(s, p)->0)),
        None => None,
    }
}

impl ParsedURL {
    fn from_hit(input: &str, p: Platform, h: Hit) -> (r: ParsedURL)
        requires
            hit_wf(h@, input@.len() as int),
        ensures
            parsed_from(r, p, input@, h@),
    {
        let url = piece(input, h.start, h.end);
        match p {
            Platform::Instagram => ParsedURL::Instagram {
                url,
                post_type: piece(input, h.g1.0, h.g1.1),
                data: piece(input, h.g2.0, h.g2.1),
            },
            Platform::Reddit => ParsedURL::Reddit {
                url,
                subdomain: piece(input, h.g1.0, h.g1.1),
                subreddit: piece(input, h.g2.0, h.g2.1),
                data: piece(input, h.g3.0, h.g3.1),
            },
            Platform::TikTok => ParsedURL::Tiktok {
                url,
                subdomain: piece(input, h.g1.0, h.g1.1),
                domain: piece(input, h.g2.0, h.g2.1),
                data: piece(input, h.g3.0, h.g3.1),
            },
            Platform::Twitch => ParsedURL::Twitch {
                url,
                username: if h.g1.0 < h.g1.1 {
                    Some(piece(input, h.g1.0, h.g1.1))
                } else {
                    None
                },
                data: piece(input, h.g2.0, h.g2.1),
            },
            Platform::Twitter => ParsedURL::Twitter {
                url,
                username: piece(input, h.g1.0, h.g1.1),
                data: piece(input, h.g2.0, h.g2.1),
            },
        }
    }

    /// Parses the first supported link of `user_input`: the platform is the
    /// detected one, the fields come from that platform's leftmost match.
    pub fn new(user_input: &str) -> (r: Option<ParsedURL>)
        ensures
            match parse_spec(user_input@) {
                Some((p, h)) => r matches Some(x) && parsed_from(x, p, user_input@, h),
                None => r is None,
            },
    {
        let s = chars_of(user_input);
        let p = match detect_chars(&s) {
            Some(p) => p,
            None => return None,
        };
        match find_first(&s, p) {
            Some(h) => Some(ParsedURL::from_hit(user_input, p, h)),
            None => None,
        }
    }
}

/// Parses the first supported link of `user_input`, as `ParsedURL::new` does.
pub fn get_match(user_input: &str) -> (r: Option<ParsedURL>)
    ensures
        match parse_spec(user_input@) {
            Some((p, h)) => r matches Some(x) && parsed_from(x, p, user_input@, h),
            None => r is None,
        },
{
    ParsedURL::new(user_input)
}

/// The proxy URL that replaces hit `h` of platform `p` in `s`: the
/// platform's domain becomes its proxy domain, the rest is kept.
pub open spec fn rewritten_url(p: Platform, s: Seq<char>, h: SpecHit) -> Seq<char> {
    let dom = spec_replacement_domain(p);
    match p {
        Platform::Instagram => "https://"@ + dom + "/"@ + slice(s, h.g1) + slice(s, h.g2),
        Platform::Reddit => "https://"@ + slice(s, h.g1) + dom + "/"@ + slice(s, h.g2) + slice(
            s,
            h.g3,
        ),
        Platform::TikTok => "https://"@ + slice(s, h.g1) + dom + slice(s, h.g3),
        Platform::Twitch => match twitch_user(s, h) {
            Some(u) => "https://"@ + dom + "/"@ + u + "/clip/"@ + slice(s, h.g2),
            None => "https://"@ + dom + "/clip/"@ + slice(s, h.g2),
        },
        Platform::Twitter => "https://"@ + dom + "/"@ + slice(s, h.g1) + slice(s, h.g2),
    }
}

/// The author name that the link itself shows, if any: the subreddit for
/// Reddit, the `/@user/video/` path part for TikTok, the user for Twitch
/// clips in full form and for Twitter.
pub open spec fn url_author(p: Platform, s: Seq<char>, h: SpecHit) -> Option<Seq<char>> {
    match p {
        Platform::Instagram => None,
        Platform::Reddit => Some(slice(s, h.g2)),
        Platform::TikTok => path_author(slice(s, h.g3)),
        Platform::Twitch => twitch_user(s, h),
        Platform::Twitter => Some(slice(s, h.g1)),
    }
}

/// `t` equals the lower-case literal `lit`, ignoring case.
pub open spec fn ci_is(t: Seq<char>, lit: Seq<char>) -> bool {
    t.len() == lit.len() && lit_at(t, 0, lit)
}

/// The word an Instagram caption uses for a post type.
pub open spec fn post_word(post_type: Option<Seq<char>>) -> Seq<char> {
    match post_type {
        Some(t) => if ci_is(t, "reels"@) || ci_is(t, "reel"@) {
            "Reel"@
        } else {
            "Post"@
        },
        None => "Post"@,
    }
}

/// The markdown caption of a rewritten link.
pub open spec fn caption(
    p: Platform,
    username: Option<Seq<char>>,
    post_type: Option<Seq<char>>,
    url: Seq<char>,
) -> Seq<char> {
    let tail = " via "@ + spec_display_name(p) + "]("@ + url + ")"@;
    match p {
        Platform::Instagram => "["@ + post_word(post_type) + tail,
        Platform::Reddit => match username {
            Some(u) => "["@ + u + tail,
            None => "[Post"@ + tail,
        },
        _ => match username {
            Some(u) => "[@"@ + u + tail,
            None => "[Post"@ + tail,
        },
    }
}

/// A detected link on its way to a rewritten caption.
#[derive(Debug, Clone)]
pub struct UrlProcessor {
    pub platform: Platform,
    pub user_input: String,
    pub clean_url: Option<String>,
    pub username: Option<String>,
    pub post_type: Option<String>,
}

fn join(a: String, b: &str) -> (r: String)
    ensures
        r@ == a@ + b@,
{
    let mut a = a;
    a.append(b);
    a
}

fn post_word_of(post_type: &Option<String>) -> (r: &'static str)
    ensures
        r@ == post_word(opt_seq(*post_type)),
{
    match post_type {
        Some(t) => {
            let c = chars_of(t.as_str());
            if (c.len() == "reels".unicode_len() && match_lit(&c, 0, "reels")) || (c.len()
                == "reel".unicode_len() && match_lit(&c, 0, "reel")) {
                "Reel"
            } else {
                "Post"
            }
        },
        None => "Post",
    }
}

impl UrlProcessor {
    /// Starts processing `input` when a supported platform is detected in it.
    pub fn try_new(input: &str) -> (r: Option<UrlProcessor>)
        ensures
            match detect(input@) {
                Some(p) => r matches Some(u) && u.platform == p && u.user_input@ == input@
                    && u.clean_url is None && u.username is None && u.post_type is None,
                None => r is None,
            },
    {
        let platform = match Platform::try_detect(input) {
            Some(p) => p,
            None => return None,
        };
        Some(UrlProcessor {
            platform,
            user_input: input.to_owned(),
            clean_url: None,
            username: None,
            post_type: None,
        })
    }

    /// Captures the platform's leftmost link in the input and fills in the
    /// proxy URL, the post type (Instagram) and the author that the link
    /// itself shows. `None` when the platform's pattern does not match.
    pub fn capture_url(self) -> (r: Option<UrlProcessor>)
        ensures
            match first_hit(self.user_input@, self.platform) {
                Some(h) => r matches Some(u) && u.platform == self.platform && u.user_input@
                    == self.user_input@ && opt_seq(u.clean_url) == Some(
                    rewritten_url(self.platform, self.user_input@, h),
                ) && opt_seq(u.username) == url_author(self.platform, self.user_input@, h)
                    && opt_seq(u.post_type) == if self.platform == Platform::Instagram {
                    Some(slice(self.user_input@, h.g1))
                } else {
                    None
                },
                None => r is None,
            },
    {
        let input = self.user_input.as_str();
        let s = chars_of(input);
        let h = match find_first(&s, self.platform) {
            Some(h) => h,
            None => return None,
        };
        let dom = self.platform.replacement_domain();
        let (clean_url, username, post_type) = match self.platform {
            Platform::Instagram => {
                let post_type = piece(input, h.g1.0, h.g1.1);
                let data = piece(input, h.g2.0, h.g2.1);
                let url = join(String::from_str("https://"), dom);
                let url = join(join(join(url, "/"), post_type.as_str()), data.as_str());
                (url, None, Some(post_type))
            },
            Platform::Reddit => {
                let subdomain = piece(input, h.g1.0, h.g1.1);
                let subreddit = piece(input, h.g2.0, h.g2.1);
                let data = piece(input, h.g3.0, h.g3.1);
                let url = join(join(String::from_str("https://"), subdomain.as_str()), dom);
                let url = join(join(join(url, "/"), subreddit.as_str()), data.as_str());
                (url, Some(subreddit), None)
            },
            Platform::TikTok => {
                let subdomain = piece(input, h.g1.0, h.g1.1);
                let data = piece(input, h.g3.0, h.g3.1);
                let url = join(join(String::from_str("https://"), subdomain.as_str()), dom);
                let url = join(url, data.as_str());
                (url, author_from_location(data.as_str()), None)
            },
            Platform::Twitch => {
                let data = piece(input, h.g2.0, h.g2.1);
                let base = join(String::from_str("https://"), dom);
                if h.g1.0 < h.g1.1 {
                    let user = piece(input, h.g1.0, h.g1.1);
                    let url = join(join(base, "/"), user.as_str());
                    let url = join(join(url, "/clip/"), data.as_str());
                    (url, Some(user), None)
                } else {
                    let url = join(join(base, "/clip/"), data.as_str());
                    (url, None, None)
                }
            },
            Platform::Twitter => {
                let user = piece(input, h.g1.0, h.g1.1);
                let data = piece(input, h.g2.0, h.g2.1);
                let url = join(String::from_str("https://"), dom);
                let url = join(join(join(url, "/"), user.as_str()), data.as_str());
                (url, Some(user), None)
            },
        };
        Some(UrlProcessor {
            platform: self.platform,
            user_input: self.user_input,
            clean_url: Some(clean_url),
            username,
            post_type,
        })
    }

    /// The text of the platform's leftmost link in the input.
    pub fn get_original_url(&self) -> (r: Option<String>)
        ensures
            opt_seq(r) == match first_hit(self.user_input@, self.platform) {
                Some(h) => Some(self.user_input@.subrange(h.start, h.end)),
                None => None,
            },
    {
        let input = self.user_input.as_str();
        let s = chars_of(input);
        match find_first(&s, self.platform) {
            Some(h) => Some(piece(input, h.start, h.end)),
            None => None,
        }
    }

    /// The link to ask the platform about when the author is still unknown
    /// after capture: TikTok short links and Twitch short clip links.
    pub fn author_lookup_url(&self) -> (r: Option<String>)
        ensures
            opt_seq(r) == if (self.platform == Platform::TikTok || self.platform
                == Platform::Twitch) && self.username is None && self.clean_url is Some {
                match first_hit(self.user_input@, self.platform) {
                    Some(h) => Some(self.user_input@.subrange(h.start, h.end)),
                    None => None,
                }
            } else {
                None
            },
    {
        match self.platform {
            Platform::TikTok | Platform::Twitch => {
                if self.username.is_none() && self.clean_url.is_some() {
                    self.get_original_url()
                } else {
                    None
                }
            },
            _ => None,
        }
    }

    /// Takes the author found by a lookup, when none is known yet.
    pub fn with_author(self, author: Option<String>) -> (r: UrlProcessor)
        ensures
            r.platform == self.platform,
            r.user_input@ == self.user_input@,
            opt_seq(r.clean_url) == opt_seq(self.clean_url),
            opt_seq(r.post_type) == opt_seq(self.post_type),
            opt_seq(r.username) == if self.username is Some {
                opt_seq(self.username)
            } else {
                opt_seq(author)
            },
    {
        if self.username.is_some() {
            self
        } else {
            UrlProcessor { username: author, ..self }
        }
    }

    /// The caption posted in reply: `[<who> via <Platform>](<proxy url>)`.
    pub fn format_output(self) -> (r: Option<String>)
        ensures
            match self.clean_url {
                Some(c) => opt_seq(r) == Some(
                    caption(self.platform, opt_seq(self.username), opt_seq(self.post_type), c@),
                ),
                None => r is None,
            },
    {
        let clean_url = match self.clean_url {
            Some(c) => c,
            None => return None,
        };
        let head = match self.platform {
            Platform::Instagram => join(String::from_str("["), post_word_of(&self.post_type)),
            Platform::Reddit => match &self.username {
                Some(u) => join(String::from_str("["), u.as_str()),
                None => String::from_str("[Post"),
            },
            _ => match &self.username {
                Some(u) => join(String::from_str("[@"), u.as_str()),
                None => String::from_str("[Post"),
            },
        };
        let out = join(join(head, " via "), self.platform.display_name());
        let out = join(join(join(out, "]("), clean_url.as_str()), ")");
        proof {
            let c = caption(self.platform, opt_seq(self.username), opt_seq(self.post_type), clean_url@);
            assert(out@ =~= c);
        }
        Some(out)
    }
}

/// The post type an Instagram caption names.
pub open spec fn captured_post_type(p: Platform, s: Seq<char>, h: SpecHit) -> Option<Seq<char>> {
    if p == Platform::Instagram {
        Some(slice(s, h.g1))
    } else {
        None
    }
}

/// The caption for the first supported link of `s`, with the author that the
/// link itself shows.
pub open spec fn sanitized(s: Seq<char>) -> Option<Seq<char>> {
    match parse_spec(s) {
        Some((p, h)) => Some(
            caption(p, url_author(p, s, h), captured_post_type(p, s, h), rewritten_url(p, s, h)),
        ),
        None => None,
    }
}

/// Rewrites the first supported link of `user_input` into its caption,
/// without asking the platform for the author.
pub fn sanitize_input(user_input: &str) -> (r: Option<String>)
    ensures
        opt_seq(r) == sanitized(user_input@),
{
    let processor = match UrlProcessor::try_new(user_input) {
        Some(u) => u,
        None => return None,
    };
    match processor.capture_url() {
        Some(captured) => captured.format_output(),
        None => None,
    }
}

/// Where the platform's own domain ends in hit `h` of platform `p`: the
/// rest of the link is its path.
pub open spec fn domain_end(p: Platform, h: SpecHit) -> int {
    match p {
        Platform::Instagram => h.g1.0 - 1,
        Platform::Reddit => h.g2.0 - 1,
        Platform::TikTok => h.g2.1,
        Platform::Twitch => h.g2.0,
        Platform::Twitter => h.g1.0 - 1,
    }
}

/// What a proxy link starts with before the proxy domain.
pub open spec fn proxy_prefix(p: Platform, s: Seq<char>, h: SpecHit) -> Seq<char> {
    match p {
        Platform::Reddit => "https://"@ + slice(s, h.g1),
        Platform::TikTok => "https://"@ + slice(s, h.g1),
        _ => "https://"@,
    }
}

pub open spec fn swaps_domain(p: Platform, s: Seq<char>, h: SpecHit) -> bool {
    rewritten_url(p, s, h) == proxy_prefix(p, s, h) + spec_replacement_domain(p) + s.subrange(
        domain_end(p, h),
        h.end,
    )
}

proof fn lemma_swap_instagram(s: Seq<char>, h: SpecHit)
    requires
        hit_at(s, h.start, Platform::Instagram) == Some(h),
    ensures
        swaps_domain(Platform::Instagram, s, h),
{
    reveal_strlit("/");
    let p = Platform::Instagram;
    lemma_hit_spans(s, h.start, p);
    let p0 = scheme_end(s, h.start)->0;
    let p1 = skip(s, skip_opt(s, p0, "www."@), "instagram.com"@)->0;
    lemma_lit_char(s, p1, "/"@, 0);
    assert(s.subrange(p1, h.end) =~= "/"@ + slice(s, h.g1) + slice(s, h.g2));
    let dom = spec_replacement_domain(p);
    assert(rewritten_url(p, s, h) =~= proxy_prefix(p, s, h) + dom + s.subrange(p1, h.end));
}

proof fn lemma_swap_reddit(s: Seq<char>, h: SpecHit)
    requires
        hit_at(s, h.start, Platform::Reddit) == Some(h),
    ensures
        swaps_domain(Platform::Reddit, s, h),
{
    reveal_strlit("/");
    let p = Platform::Reddit;
    lemma_hit_spans(s, h.start, p);
    let d = h.g2.0 - 1;
    lemma_lit_char(s, d, "/"@, 0);
    assert(s.subrange(d, h.end) =~= "/"@ + slice(s, h.g2) + slice(s, h.g3));
    let dom = spec_replacement_domain(p);
    assert(rewritten_url(p, s, h) =~= proxy_prefix(p, s, h) + dom + s.subrange(d, h.end));
}

proof fn lemma_swap_tiktok(s: Seq<char>, h: SpecHit)
    requires
        hit_at(s, h.start, Platform::TikTok) == Some(h),
    ensures
        swaps_domain(Platform::TikTok, s, h),
{
    let p = Platform::TikTok;
    lemma_hit_spans(s, h.start, p);
    let dom = spec_replacement_domain(p);
    assert(rewritten_url(p, s, h) =~= proxy_prefix(p, s, h) + dom + s.subrange(h.g2.1, h.end));
}

proof fn lemma_swap_twitter(s: Seq<char>, h: SpecHit)
    requires
        hit_at(s, h.start, Platform::Twitter) == Some(h),
    ensures
        swaps_domain(Platform::Twitter, s, h),
{
    reveal_strlit("/");
    let p = Platform::Twitter;
    lemma_hit_spans(s, h.start, p);
    let d = h.g1.0 - 1;
    lemma_lit_char(s, d, "/"@, 0);
    assert(s.subrange(d, h.end) =~= "/"@ + slice(s, h.g1) + slice(s, h.g2));
    let dom = spec_replacement_domain(p);
    assert(rewritten_url(p, s, h) =~= proxy_prefix(p, s, h) + dom + s.subrange(d, h.end));
}

/// Rewriting the first supported link of a text swaps the link's domain for
/// the platform's proxy domain and keeps everything after the domain as
/// written. Twitch is the exception: its short clip links are brought to
/// the full form.
pub proof fn lemma_rewrite_swaps_domain(s: Seq<char>)
    requires
        parse_spec(s) is Some,
        detect(s)->0 != Platform::Twitch,
    ensures
        swaps_domain(detect(s)->0, s, first_hit(s, detect(s)->0)->0),
{
    let (p, h) = parse_spec(s)->0;
    lemma_first_from_located(s, 0, p);
    match p {
        Platform::Instagram => lemma_swap_instagram(s, h),
        Platform::Reddit => lemma_swap_reddit(s, h),
        Platform::TikTok => lemma_swap_tiktok(s, h),
        Platform::Twitch => {},
        Platform::Twitter => lemma_swap_twitter(s, h),
    }
}

} // verus!
