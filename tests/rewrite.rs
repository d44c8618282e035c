use link_sanitizer::author::{author_from_location, author_from_page, author_from_title};
use link_sanitizer::matcher::contains_url;
use link_sanitizer::platform::Platform;
use link_sanitizer::rewrite::{sanitize_input, UrlProcessor};
use link_sanitizer::trigger::on_message;

fn captured(input: &str) -> UrlProcessor {
    UrlProcessor::try_new(input).unwrap().capture_url().unwrap()
}

#[test]
fn tiktok_short_link_keeps_subdomain_and_path() {
    let p = captured("https://vm.tiktok.com/ZGdah868J/");
    assert!(matches!(p.platform, Platform::TikTok));
    assert_eq!(p.clean_url.as_deref(), Some("https://vm.kktiktok.com/ZGdah868J/"));
    assert_eq!(p.username, None);
    assert_eq!(p.author_lookup_url().as_deref(), Some("https://vm.tiktok.com/ZGdah868J/"));
    assert_eq!(
        sanitize_input("https://vm.tiktok.com/ZGdah868J/").as_deref(),
        Some("[Post via TikTok](https://vm.kktiktok.com/ZGdah868J/)")
    );
}

#[test]
fn tiktok_author_from_redirect() {
    let p = captured("https://vm.tiktok.com/ZGdah868J/");
    let loc = "https://www.tiktok.com/@misahere/video/7444680304293399850?_r=1";
    let author = author_from_location(loc);
    assert_eq!(author.as_deref(), Some("misahere"));
    assert_eq!(
        p.with_author(author).format_output().as_deref(),
        Some("[@misahere via TikTok](https://vm.kktiktok.com/ZGdah868J/)")
    );
    assert_eq!(author_from_location("https://www.tiktok.com/@/video/1"), None);
    assert_eq!(author_from_location("https://www.tiktok.com/login"), None);
}

#[test]
fn tiktok_full_link_shows_author() {
    let p = captured("https://www.tiktok.com/@misahere/video/7444680304293399850");
    assert_eq!(p.clean_url.as_deref(), Some("https://www.kktiktok.com/@misahere/video/7444680304293399850"));
    assert_eq!(p.username.as_deref(), Some("misahere"));
    assert_eq!(p.author_lookup_url(), None);
}

#[test]
fn instagram_post_caption() {
    let p = captured("https://instagram.com/p/CMeJMFBs66n/");
    assert!(matches!(p.platform, Platform::Instagram));
    assert_eq!(p.post_type.as_deref(), Some("p"));
    let out = p.format_output().unwrap();
    assert!(out.starts_with("[Post via Instagram]"));
    assert_eq!(out, "[Post via Instagram](https://kkinstagram.com/p/CMeJMFBs66n)");
}

#[test]
fn instagram_reel_caption() {
    let p = captured("https://www.instagram.com/reel/C6lmbgLLflh/");
    assert_eq!(p.post_type.as_deref(), Some("reel"));
    let out = p.format_output().unwrap();
    assert!(out.starts_with("[Reel via Instagram]"));
    assert_eq!(
        sanitize_input("https://www.instagram.com/REELS/C6lmbgLLflh/").as_deref(),
        Some("[Reel via Instagram](https://kkinstagram.com/REELS/C6lmbgLLflh)")
    );
}

#[test]
fn twitter_caption_with_username() {
    let p = captured("https://x.com/loltyler1/status/1795602572444865533");
    assert!(matches!(p.platform, Platform::Twitter));
    assert_eq!(p.username.as_deref(), Some("loltyler1"));
    assert_eq!(p.clean_url.as_deref(), Some("https://fxtwitter.com/loltyler1/status/1795602572444865533"));
    assert_eq!(
        p.format_output().as_deref(),
        Some("[@loltyler1 via Twitter](https://fxtwitter.com/loltyler1/status/1795602572444865533)")
    );
}

#[test]
fn reddit_and_twitch_rewrites() {
    assert_eq!(
        sanitize_input("look https://www.reddit.com/r/rust/comments/1/x/ ok").as_deref(),
        Some("[r/rust via Reddit](https://www.rxddit.com/r/rust/comments/1/x/)")
    );
    assert_eq!(
        sanitize_input("https://reddit.com/r/rust").as_deref(),
        Some("[r/rust via Reddit](https://rxddit.com/r/rust)")
    );
    assert_eq!(
        sanitize_input("https://twitch.tv/streamer/clip/Abc-1").as_deref(),
        Some("[@streamer via Twitch](https://fxtwitch.seria.moe/streamer/clip/Abc-1)")
    );
    let short = captured("https://clips.twitch.tv/Abc-1");
    assert_eq!(short.clean_url.as_deref(), Some("https://fxtwitch.seria.moe/clip/Abc-1"));
    assert_eq!(short.author_lookup_url().as_deref(), Some("https://clips.twitch.tv/Abc-1"));
}

#[test]
fn link_embedded_in_text_is_found() {
    let text = "hey look at this https://X.com/someone/status/42 lol";
    assert!(matches!(Platform::try_detect(text), Some(Platform::Twitter)));
    assert_eq!(
        sanitize_input(text).as_deref(),
        Some("[@someone via Twitter](https://fxtwitter.com/someone/status/42)")
    );
    assert!(Platform::try_detect("nothing to see").is_none());
}

#[test]
fn detection_priority_order() {
    let text = "https://x.com/a/status/1 and https://instagram.com/p/abc";
    assert!(matches!(Platform::try_detect(text), Some(Platform::Instagram)));
}

#[test]
fn captions_do_not_trigger_again() {
    for input in [
        "https://vm.tiktok.com/ZGdah868J/",
        "https://instagram.com/p/CMeJMFBs66n/",
        "https://www.instagram.com/reel/C6lmbgLLflh/",
        "https://x.com/loltyler1/status/1795602572444865533",
        "https://twitch.tv/streamer/clip/Abc-1",
    ] {
        let caption = sanitize_input(input).unwrap();
        assert!(Platform::try_detect(&caption).is_none(), "caption re-detected: {}", caption);
        let plan = on_message(true, &caption, false, true, None, None);
        assert_eq!(plan.rewrite, None);
    }
}

#[test]
fn prefilter_names_domains() {
    assert!(contains_url("see INSTAGRAM.com/p/x"));
    assert!(contains_url("x.com"));
    assert!(contains_url("twitch.tv"));
    assert!(!contains_url("plain text"));
    assert!(!contains_url(""));
}

#[test]
fn original_url_of_processor() {
    let p = UrlProcessor::try_new("go https://www.instagram.com/p/abc/?igsh=1 go").unwrap();
    assert_eq!(p.get_original_url().as_deref(), Some("https://www.instagram.com/p/abc"));
    assert_eq!(Platform::Instagram.display_name(), "Instagram");
    assert_eq!(Platform::TikTok.replacement_domain(), "kktiktok.com");
    assert!(matches!(Platform::from_index(3), Some(Platform::Twitch)));
    assert!(Platform::from_index(5).is_none());
}

#[test]
fn twitch_author_from_page() {
    let html = r#"<html><head><meta property="og:title" content="Big play - Streamer - streamer_name"></head><body></body></html>"#;
    assert_eq!(author_from_page(html).as_deref(), Some("streamer_name"));
    assert_eq!(author_from_page("<html><head></head></html>"), None);
    assert_eq!(author_from_title("Clip title - someone").as_deref(), Some("someone"));
    assert_eq!(author_from_title("no separator"), None);
    assert_eq!(author_from_title("ends with - "), None);
}

#[test]
fn test_instagram_post_substitution() {
    assert_eq!(
        sanitize_input("https://www.instagram.com/p/C9uiuh4KTlR/").as_deref(),
        Some("[Post via Instagram](https://kkinstagram.com/p/C9uiuh4KTlR)")
    );
}

#[test]
fn test_instagram_reel_substitution() {
    assert_eq!(
        sanitize_input("https://www.instagram.com/reel/C6lmbgLLflh/").as_deref(),
        Some("[Reel via Instagram](https://kkinstagram.com/reel/C6lmbgLLflh)")
    );
}

#[test]
fn test_instagram_reels_substitution() {
    assert_eq!(
        sanitize_input("https://www.instagram.com/reels/C6lmbgLLflh/").as_deref(),
        Some("[Reel via Instagram](https://kkinstagram.com/reels/C6lmbgLLflh)")
    );
}

#[test]
fn test_tiktok_link_substitution() {
    assert_eq!(
        sanitize_input("https://vm.tiktok.com/ZGdah868J/").as_deref(),
        Some("[Post via TikTok](https://vm.kktiktok.com/ZGdah868J/)")
    );
}

#[test]
fn test_tiktok_link_substitution_no_trailing_slash() {
    assert_eq!(
        sanitize_input("https://vm.tiktok.com/ZGdah868J").as_deref(),
        Some("[Post via TikTok](https://vm.kktiktok.com/ZGdah868J)")
    );
}

#[test]
fn query_is_kept_and_unicode_space_ends_link() {
    assert_eq!(
        sanitize_input("https://x.com/user/status/42?s=20 nice").as_deref(),
        Some("[@user via Twitter](https://fxtwitter.com/user/status/42?s=20)")
    );
    assert_eq!(
        sanitize_input("https://x.com/user/status/42\u{a0}nice").as_deref(),
        Some("[@user via Twitter](https://fxtwitter.com/user/status/42)")
    );
}

#[test]
fn subreddit_link_ends_at_whitespace() {
    assert_eq!(
        sanitize_input("https://reddit.com/r/rust ok").as_deref(),
        Some("[r/rust via Reddit](https://rxddit.com/r/rust)")
    );
    assert_eq!(
        sanitize_input("(https://old.reddit.com/r/rust)").as_deref(),
        Some("[r/rust via Reddit](https://old.rxddit.com/r/rust)")
    );
}

#[test]
fn kelvin_sign_folds_to_k() {
    assert!(contains_url("ti\u{212A}tok.com"));
    assert!(!contains_url("in\u{17F}tagram.com"));
    assert!(matches!(
        Platform::try_detect("see https://vm.ti\u{212A}tok.com/ZGdah868J/"),
        Some(Platform::TikTok)
    ));
}

#[test]
fn caption_with_colon_in_path_not_detected() {
    let caption = sanitize_input("https://x.com/user/status/1?t=1:30").unwrap();
    assert_eq!(caption, "[@user via Twitter](https://fxtwitter.com/user/status/1?t=1:30)");
    assert!(Platform::try_detect(&caption).is_none());
}
