use link_sanitizer::rewrite::{get_match, ParsedURL};

fn url_of(p: Option<ParsedURL>) -> Option<String> {
    match p {
        Some(ParsedURL::Tiktok { url, .. }) => Some(url),
        Some(ParsedURL::Instagram { url, .. }) => Some(url),
        Some(ParsedURL::Twitter { url, .. }) => Some(url),
        Some(ParsedURL::Reddit { url, .. }) => Some(url),
        Some(ParsedURL::Twitch { url, .. }) => Some(url),
        None => None,
    }
}

#[test]
fn regex_test_tiktok_url() {
    let m = get_match("https://vt.tiktok.com/ZSYXeWygm/");
    assert!(matches!(m, Some(ParsedURL::Tiktok { .. })));
    assert_eq!(url_of(m), Some("https://vt.tiktok.com/ZSYXeWygm/".to_string()));
}

#[test]
fn regex_test_instagram_post_url() {
    let m = get_match("https://instagram.com/p/CMeJMFBs66n/");
    match m {
        Some(ParsedURL::Instagram { url, post_type, data }) => {
            assert_eq!(url, "https://instagram.com/p/CMeJMFBs66n");
            assert_eq!(post_type, "p");
            assert_eq!(data, "/CMeJMFBs66n");
        }
        other => panic!("unexpected {:?}", other),
    }
}

#[test]
fn regex_test_instagram_reel_url() {
    let m = get_match("https://www.instagram.com/reel/C6lmbgLLflh/");
    match m {
        Some(ParsedURL::Instagram { url, post_type, data }) => {
            assert_eq!(url, "https://www.instagram.com/reel/C6lmbgLLflh");
            assert_eq!(post_type, "reel");
            assert_eq!(data, "/C6lmbgLLflh");
        }
        other => panic!("unexpected {:?}", other),
    }
}

#[test]
fn regex_test_twitter_url() {
    let m = get_match("https://x.com/loltyler1/status/179560257244486sf33");
    match m {
        Some(ParsedURL::Twitter { url, username, data }) => {
            assert_eq!(url, "https://x.com/loltyler1/status/179560257244486sf33");
            assert_eq!(username, "loltyler1");
            assert_eq!(data, "/status/179560257244486sf33");
        }
        other => panic!("unexpected {:?}", other),
    }
}

#[test]
fn regex_test_twitter_with_www_url() {
    let m = get_match("http://www.twitter.com/rit_chill/status/1756388311445221859");
    match m {
        Some(ParsedURL::Twitter { url, username, data }) => {
            assert_eq!(url, "http://www.twitter.com/rit_chill/status/1756388311445221859");
            assert_eq!(username, "rit_chill");
            assert_eq!(data, "/status/1756388311445221859");
        }
        other => panic!("unexpected {:?}", other),
    }
}
