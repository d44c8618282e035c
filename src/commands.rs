//! The decisions behind the bot's commands.
use vstd::prelude::*;

use crate::models::SettingsMenuType;

verus! {

/// The `sanitize` command: rewrites the link given to it, or the link of the
/// message it is invoked on.
pub struct SanitizeCommand;

impl SanitizeCommand {
    /// Whether the reply to the command carries a delete button: only for
    /// an invocation in a guild made from a private channel context.
    pub fn offers_delete(in_guild: bool, private_channel: bool) -> (r: bool)
        ensures
            r == (in_guild && private_channel),
    {
        in_guild && private_channel
    }
}

/// The `credits` command: the projects whose proxies the bot links to.
pub struct CreditsCommand;

pub open spec fn credits_text() -> Seq<char> {
    "Credits 🎺\nThese are all the super cool projects I rely on:\n-  **Twitter**: Thanks to FixTweet's reliable [FxTwitter](https://github.com/FixTweet/FxTwitter) project\n-  **TikTok & Instagram**: Thanks to [kkScript](https://kkscript.com/)\n-  **Instagram** (Fallback): Powered by the awesome [InstaFix](https://github.com/Wikidepia/InstaFix) project\n-  **Twitch**: Thanks to [FxTwitch](https://github.com/seriaati/fxtwitch)\n-# The code that powers me is publicly sourced [here](https://github.com/suhaybu/sanitizer-bot) on GitHub."@
}

impl CreditsCommand {
    /// The text shown by the command.
    pub fn message() -> (r: &'static str)
        ensures
            r@ == credits_text(),
    {
        "Credits 🎺\nThese are all the super cool projects I rely on:\n-  **Twitter**: Thanks to FixTweet's reliable [FxTwitter](https://github.com/FixTweet/FxTwitter) project\n-  **TikTok & Instagram**: Thanks to [kkScript](https://kkscript.com/)\n-  **Instagram** (Fallback): Powered by the awesome [InstaFix](https://github.com/Wikidepia/InstaFix) project\n-  **Twitch**: Thanks to [FxTwitch](https://github.com/seriaati/fxtwitch)\n-# The code that powers me is publicly sourced [here](https://github.com/suhaybu/sanitizer-bot) on GitHub."
    }
}

/// The `settings` command: a menu per setting of the guild's policy.
pub struct SettingsCommand;

pub open spec fn confirmation_text(m: SettingsMenuType) -> Seq<char> {
    match m {
        SettingsMenuType::SanitizerMode => "✅ Sanitizer Mode updated"@,
        SettingsMenuType::DeletePermission => "✅ Delete Permission updated"@,
        SettingsMenuType::HideOriginalEmbed => "✅ Original Link Preview updated"@,
    }
}

impl SettingsCommand {
    /// The confirmation shown once a menu's choice is saved.
    pub fn confirmation(menu: SettingsMenuType) -> (r: &'static str)
        ensures
            r@ == confirmation_text(menu),
    {
        match menu {
            SettingsMenuType::SanitizerMode => "✅ Sanitizer Mode updated",
            SettingsMenuType::DeletePermission => "✅ Delete Permission updated",
            SettingsMenuType::HideOriginalEmbed => "✅ Original Link Preview updated",
        }
    }
}

} // verus!
