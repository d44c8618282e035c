use link_sanitizer::models::{DeletePermission, SanitizerMode, ServerConfig};
use link_sanitizer::trigger::{may_delete, on_delete_button, on_message, on_reaction, wants_message, DeleteOutcome, Source};
use link_sanitizer::commands::{CreditsCommand, SanitizeCommand, SettingsCommand};
use link_sanitizer::models::SettingsMenuType;

fn policy(mode: SanitizerMode) -> Option<ServerConfig> {
    let mut c = ServerConfig::new(1);
    c.sanitizer_mode = mode;
    Some(c)
}

const LINK: &str = "https://x.com/user/status/1";

#[test]
fn manual_mention_plain_message_does_nothing() {
    let plan = on_message(false, LINK, false, false, None, policy(SanitizerMode::ManualMention));
    assert_eq!(plan.rewrite, None);
    assert!(!plan.add_marker && !plan.strip_own && !plan.strip_referenced);
    assert!(!plan.delete_button && !plan.suppress_original);
}

#[test]
fn manual_mention_reply_uses_referenced_link() {
    let plan = on_message(false, "this one please", true, false, Some(LINK), policy(SanitizerMode::ManualMention));
    assert_eq!(plan.rewrite, Some(Source::Referenced));
    assert!(!plan.add_marker);
    let own_link = on_message(false, "https://instagram.com/p/abc", true, false, Some(LINK), policy(SanitizerMode::ManualMention));
    assert_eq!(own_link.rewrite, Some(Source::Own));
    let mention = on_message(false, LINK, false, true, None, policy(SanitizerMode::ManualMention));
    assert_eq!(mention.rewrite, Some(Source::Own));
}

#[test]
fn automatic_and_emote_modes() {
    let auto = on_message(false, LINK, false, false, None, policy(SanitizerMode::Automatic));
    assert_eq!(auto.rewrite, Some(Source::Own));
    assert!(auto.delete_button && auto.suppress_original && !auto.strip_own);
    let emote = on_message(false, LINK, false, false, None, policy(SanitizerMode::ManualEmote));
    assert!(emote.add_marker);
    assert_eq!(emote.rewrite, None);
    let react = on_reaction(false, true, LINK, false, None, policy(SanitizerMode::ManualEmote));
    assert_eq!(react.rewrite, Some(Source::Own));
    assert!(react.strip_own);
    assert_eq!(on_reaction(true, true, LINK, false, None, policy(SanitizerMode::ManualEmote)).rewrite, None);
    assert_eq!(on_reaction(false, false, LINK, false, None, policy(SanitizerMode::ManualEmote)).rewrite, None);
    assert_eq!(on_reaction(false, true, LINK, false, None, policy(SanitizerMode::Automatic)).rewrite, None);
}

#[test]
fn manual_both_mention_strips_both() {
    let plan = on_message(false, "@bot", true, true, Some(LINK), policy(SanitizerMode::ManualBoth));
    assert_eq!(plan.rewrite, Some(Source::Referenced));
    assert!(plan.strip_own && plan.strip_referenced);
    let plain = on_message(false, LINK, false, false, None, policy(SanitizerMode::ManualBoth));
    assert!(plain.add_marker);
    assert_eq!(plain.rewrite, None);
}

#[test]
fn own_and_unrelated_messages_ignored() {
    assert!(!wants_message(true, LINK, false));
    assert!(!wants_message(false, "hello", false));
    assert!(wants_message(false, "hello", true));
    assert_eq!(on_message(true, LINK, false, true, None, policy(SanitizerMode::Automatic)).rewrite, None);
    let dm = on_message(false, LINK, false, false, None, None);
    assert_eq!(dm.rewrite, Some(Source::Own));
    assert!(!dm.delete_button && !dm.suppress_original);
}

#[test]
fn delete_button_permissions() {
    assert!(may_delete(DeletePermission::Everyone, false, false));
    assert!(!may_delete(DeletePermission::Disabled, true, true));
    assert!(may_delete(DeletePermission::AuthorAndMods, true, false));
    assert!(may_delete(DeletePermission::AuthorAndMods, false, true));
    assert!(!may_delete(DeletePermission::AuthorAndMods, false, false));
    let c = ServerConfig::new(1);
    assert_eq!(on_delete_button(c, false, false), DeleteOutcome::Refuse);
    assert_eq!(on_delete_button(c, true, false), DeleteOutcome::Delete { restore_preview: true });
    let mut off = c;
    off.delete_permission = DeletePermission::Disabled;
    assert_eq!(on_delete_button(off, true, true), DeleteOutcome::Ignore);
}

#[test]
fn command_decisions() {
    assert!(SanitizeCommand::offers_delete(true, true));
    assert!(!SanitizeCommand::offers_delete(false, true));
    assert_eq!(SettingsCommand::confirmation(SettingsMenuType::SanitizerMode), "✅ Sanitizer Mode updated");
    assert!(CreditsCommand::message().starts_with("Credits"));
    assert!(CreditsCommand::message().contains("FxTwitter"));
}

#[test]
fn marker_reaction_always_stripped() {
    // A reply whose link is in the referenced message.
    let plan = on_reaction(false, true, "see this", true, Some(LINK), policy(SanitizerMode::ManualBoth));
    assert_eq!(plan.rewrite, Some(Source::Referenced));
    assert!(plan.strip_own && plan.strip_referenced);
    // No link at all: nothing to rewrite, the marker still goes.
    let none = on_reaction(false, true, "no link", false, None, policy(SanitizerMode::ManualEmote));
    assert_eq!(none.rewrite, None);
    assert!(none.strip_own);
    // A mention without any link under ManualBoth strips both messages.
    let both = on_message(false, "hey bot", true, true, Some("plain"), policy(SanitizerMode::ManualBoth));
    assert_eq!(both.rewrite, None);
    assert!(both.strip_own && both.strip_referenced);
}
