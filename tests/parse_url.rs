use link_sanitizer::rewrite::ParsedURL;

fn s(x: &str) -> String {
    x.to_string()
}

#[test]
fn parse_url_test_tiktok_url() {
    match ParsedURL::new("https://vt.tiktok.com/ZSYXeWygm/") {
        Some(ParsedURL::Tiktok { url, .. }) => assert_eq!(url, "https://vt.tiktok.com/ZSYXeWygm/"),
        other => panic!("unexpected {:?}", other),
    }
}

#[test]
fn test_tiktok_url() {
    assert_eq!(
        ParsedURL::new("https://vm.tiktok.com/ZGdah868J/"),
        Some(ParsedURL::Tiktok {
            url: s("https://vm.tiktok.com/ZGdah868J/"),
            subdomain: s("vm."),
            domain: s("tiktok.com"),
            data: s("/ZGdah868J/"),
        })
    );
}

#[test]
fn test_tiktok_url_no_trailing_slash() {
    assert_eq!(
        ParsedURL::new("https://vm.tiktok.com/ZGdah868J"),
        Some(ParsedURL::Tiktok {
            url: s("https://vm.tiktok.com/ZGdah868J"),
            subdomain: s("vm."),
            domain: s("tiktok.com"),
            data: s("/ZGdah868J"),
        })
    );
}

#[test]
fn test_tiktok_full_url_format() {
    assert_eq!(
        ParsedURL::new("https://www.tiktok.com/@testuser/video/1234567890"),
        Some(ParsedURL::Tiktok {
            url: s("https://www.tiktok.com/@testuser/video/1234567890"),
            subdomain: s("www."),
            domain: s("tiktok.com"),
            data: s("/@testuser/video/1234567890"),
        })
    );
}

#[test]
fn parse_url_test_instagram_post_url() {
    assert_eq!(
        ParsedURL::new("https://instagram.com/p/CMeJMFBs66n/"),
        Some(ParsedURL::Instagram {
            url: s("https://instagram.com/p/CMeJMFBs66n"),
            post_type: s("p"),
            data: s("/CMeJMFBs66n"),
        })
    );
}

#[test]
fn test_instagram_post_url() {
    assert_eq!(
        ParsedURL::new("https://instagram.com/p/CMeJMFBs66n/"),
        Some(ParsedURL::Instagram {
            url: s("https://instagram.com/p/CMeJMFBs66n"),
            post_type: s("p"),
            data: s("/CMeJMFBs66n"),
        })
    );
}

#[test]
fn parse_url_test_instagram_reel_url() {
    assert_eq!(
        ParsedURL::new("https://www.instagram.com/reel/C6lmbgLLflh/"),
        Some(ParsedURL::Instagram {
            url: s("https://www.instagram.com/reel/C6lmbgLLflh"),
            post_type: s("reel"),
            data: s("/C6lmbgLLflh"),
        })
    );
}

#[test]
fn test_instagram_reel_url() {
    assert_eq!(
        ParsedURL::new("https://www.instagram.com/reel/C6lmbgLLflh/"),
        Some(ParsedURL::Instagram {
            url: s("https://www.instagram.com/reel/C6lmbgLLflh"),
            post_type: s("reel"),
            data: s("/C6lmbgLLflh"),
        })
    );
}

#[test]
fn test_instagram_reels_url() {
    assert_eq!(
        ParsedURL::new("https://www.instagram.com/reels/C6lmbgLLflh/"),
        Some(ParsedURL::Instagram {
            url: s("https://www.instagram.com/reels/C6lmbgLLflh"),
            post_type: s("reels"),
            data: s("/C6lmbgLLflh"),
        })
    );
}

#[test]
fn parse_url_test_twitter_url() {
    assert_eq!(
        ParsedURL::new("https://x.com/loltyler1/status/179560257244486sf33"),
        Some(ParsedURL::Twitter {
            url: s("https://x.com/loltyler1/status/179560257244486sf33"),
            username: s("loltyler1"),
            data: s("/status/179560257244486sf33"),
        })
    );
}

#[test]
fn test_twitter_url() {
    assert_eq!(
        ParsedURL::new("https://x.com/loltyler1/status/179560257244486sf33"),
        Some(ParsedURL::Twitter {
            url: s("https://x.com/loltyler1/status/179560257244486sf33"),
            username: s("loltyler1"),
            data: s("/status/179560257244486sf33"),
        })
    );
}

#[test]
fn parse_url_test_twitter_with_www_url() {
    assert_eq!(
        ParsedURL::new("http://www.twitter.com/rit_chill/status/1756388311445221859"),
        Some(ParsedURL::Twitter {
            url: s("http://www.twitter.com/rit_chill/status/1756388311445221859"),
            username: s("rit_chill"),
            data: s("/status/1756388311445221859"),
        })
    );
}

#[test]
fn test_twitter_with_www_url() {
    assert_eq!(
        ParsedURL::new("http://www.twitter.com/rit_chill/status/1756388311445221859"),
        Some(ParsedURL::Twitter {
            url: s("http://www.twitter.com/rit_chill/status/1756388311445221859"),
            username: s("rit_chill"),
            data: s("/status/1756388311445221859"),
        })
    );
}

#[test]
fn parse_reddit_and_twitch_links() {
    assert_eq!(
        ParsedURL::new("see https://old.reddit.com/r/rust/comments/abc/title?x=1 now"),
        Some(ParsedURL::Reddit {
            url: s("https://old.reddit.com/r/rust/comments/abc/title?x=1"),
            subdomain: s("old."),
            subreddit: s("r/rust"),
            data: s("/comments/abc/title?x=1"),
        })
    );
    assert_eq!(
        ParsedURL::new("https://www.twitch.tv/streamer/clip/FunnyClip-abc"),
        Some(ParsedURL::Twitch {
            url: s("https://www.twitch.tv/streamer/clip/FunnyClip-abc"),
            username: Some(s("streamer")),
            data: s("FunnyClip-abc"),
        })
    );
    assert_eq!(
        ParsedURL::new("(https://clips.twitch.tv/ShortClip)"),
        Some(ParsedURL::Twitch {
            url: s("https://clips.twitch.tv/ShortClip"),
            username: None,
            data: s("ShortClip"),
        })
    );
}

#[test]
fn parse_no_link() {
    assert_eq!(ParsedURL::new("no links here, just instagram.com talk"), None);
    assert_eq!(ParsedURL::new(""), None);
    assert_eq!(ParsedURL::new("https://instagram.com/stories/abc"), None);
}
