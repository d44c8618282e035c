//! The trigger state machine: from an incoming event and the guild's policy
//! to what the bot does. Each decision is a pure function of the event.
use vstd::prelude::*;

use crate::matcher::{contains_url, detect, mentions_domain};
use crate::models::{DeletePermission, SanitizerMode, ServerConfig};
use crate::platform::Platform;

verus! {

/// Which message's link is rewritten.
#[derive(Clone, Copy, PartialEq, Eq, Structural, Debug)]
pub enum Source {
    /// The message the event is about.
    Own,
    /// The message it replies to.
    Referenced,
}

/// What the bot does for one event.
#[derive(Clone, Copy, PartialEq, Eq, Structural, Debug)]
pub struct Plan {
    /// React to the event's message with the marker emoji.
    pub add_marker: bool,
    /// Rewrite the link of this message and reply to it.
    pub rewrite: Option<Source>,
    /// After replying, remove the marker reactions from the event's message.
    pub strip_own: bool,
    /// After replying, remove the marker reactions from the referenced message.
    pub strip_referenced: bool,
    /// Put a delete button under the reply.
    pub delete_button: bool,
    /// Once the reply is validated, hide the rewritten message's own preview.
    pub suppress_original: bool,
}

pub open spec fn no_op() -> Plan {
    Plan {
        add_marker: false,
        rewrite: None,
        strip_own: false,
        strip_referenced: false,
        delete_button: false,
        suppress_original: false,
    }
}

pub open spec fn has_link(s: Seq<char>) -> bool {
    detect(s) is Some
}

pub open spec fn opt_has_link(s: Option<Seq<char>>) -> bool {
    match s {
        Some(t) => has_link(t),
        None => false,
    }
}

/// The message whose link is rewritten: the own message when it has a link;
/// else, when the mode rewrites replies, the referenced one when it has a link.
pub open spec fn pick_source(
    own: Seq<char>,
    is_reply: bool,
    referenced: Option<Seq<char>>,
    replies_count: bool,
) -> Option<Source> {
    if has_link(own) {
        Some(Source::Own)
    } else if replies_count && is_reply && opt_has_link(referenced) {
        Some(Source::Referenced)
    } else {
        None
    }
}

/// The plan for rewriting `src` under policy `c`, with the marker reactions
/// to add and to strip: the delete button and the preview suppression follow
/// the policy when there is a rewrite.
pub open spec fn rewrite_plan(
    c: ServerConfig,
    src: Option<Source>,
    add_marker: bool,
    strip_own: bool,
    strip_referenced: bool,
) -> Plan {
    match src {
        None => Plan { add_marker, strip_own, strip_referenced, ..no_op() },
        Some(s) => Plan {
            add_marker,
            rewrite: Some(s),
            strip_own,
            strip_referenced,
            delete_button: c.delete_permission != DeletePermission::Disabled,
            suppress_original: c.hide_original_embed,
        },
    }
}

/// Whether a created message is worth looking at, before any policy lookup:
/// not the bot's own, and naming a supported domain or replying to a message.
pub open spec fn message_wanted(from_self: bool, own: Seq<char>, is_reply: bool) -> bool {
    !from_self && (mentions_domain(own) || is_reply)
}

/// The plan for a created message, given the guild's policy (`None` outside
/// a guild).
pub open spec fn message_plan(
    from_self: bool,
    own: Seq<char>,
    is_reply: bool,
    mentions_bot: bool,
    referenced: Option<Seq<char>>,
    policy: Option<ServerConfig>,
) -> Plan {
    if !message_wanted(from_self, own, is_reply) {
        no_op()
    } else {
        match policy {
            None => match pick_source(own, is_reply, referenced, false) {
                Some(s) => Plan { rewrite: Some(s), ..no_op() },
                None => no_op(),
            },
            Some(c) => match c.sanitizer_mode {
                SanitizerMode::Automatic => rewrite_plan(
                    c,
                    pick_source(own, is_reply, referenced, false),
                    false,
                    false,
                    false,
                ),
                SanitizerMode::ManualEmote => Plan { add_marker: has_link(own), ..no_op() },
                SanitizerMode::ManualMention => if mentions_bot || is_reply {
                    rewrite_plan(c, pick_source(own, is_reply, referenced, true), false, false, false)
                } else {
                    no_op()
                },
                SanitizerMode::ManualBoth => if mentions_bot || is_reply {
                    rewrite_plan(
                        c,
                        pick_source(own, is_reply, referenced, true),
                        false,
                        true,
                        is_reply && referenced is Some,
                    )
                } else {
                    Plan { add_marker: has_link(own), ..no_op() }
                },
            },
        }
    }
}

/// The plan for a reaction added to a message: only a person adding the
/// marker in a guild whose mode uses it triggers a rewrite, and the marker is
/// then stripped from the message whether or not a link was rewritten.
pub open spec fn reaction_plan(
    from_self: bool,
    is_marker: bool,
    own: Seq<char>,
    is_reply: bool,
    referenced: Option<Seq<char>>,
    policy: Option<ServerConfig>,
) -> Plan {
    match policy {
        None => no_op(),
        Some(c) => if from_self || !is_marker || !(c.sanitizer_mode == SanitizerMode::ManualEmote
            || c.sanitizer_mode == SanitizerMode::ManualBoth) {
            no_op()
        } else {
            let src = pick_source(
                own,
                is_reply,
                referenced,
                c.sanitizer_mode == SanitizerMode::ManualBoth,
            );
            rewrite_plan(c, src, false, true, src == Some(Source::Referenced))
        },
    }
}

fn text_has_link(s: &str) -> (r: bool)
    ensures
        r == has_link(s@),
{
    Platform::try_detect(s).is_some()
}

fn choose_source(own: &str, is_reply: bool, referenced: Option<&str>, replies_count: bool) -> (r: Option<Source>)
    ensures
        r == pick_source(own@, is_reply, match referenced {
            Some(t) => Some(t@),
            None => None,
        }, replies_count),
{
    if text_has_link(own) {
        Some(Source::Own)
    } else if replies_count && is_reply {
        match referenced {
            Some(t) => if text_has_link(t) {
                Some(Source::Referenced)
            } else {
                None
            },
            None => None,
        }
    } else {
        None
    }
}

fn plan_rewrite(
    c: ServerConfig,
    src: Option<Source>,
    add_marker: bool,
    strip_own: bool,
    strip_referenced: bool,
) -> (r: Plan)
    ensures
        r == rewrite_plan(c, src, add_marker, strip_own, strip_referenced),
{
    match src {
        None => Plan {
            add_marker,
            rewrite: None,
            strip_own,
            strip_referenced,
            delete_button: false,
            suppress_original: false,
        },
        Some(s) => Plan {
            add_marker,
            rewrite: Some(s),
            strip_own,
            strip_referenced,
            delete_button: c.delete_permission != DeletePermission::Disabled,
            suppress_original: c.hide_original_embed,
        },
    }
}

fn plan_marker_only(add_marker: bool) -> (r: Plan)
    ensures
        r == (Plan { add_marker, ..no_op() }),
{
    Plan {
        add_marker,
        rewrite: None,
        strip_own: false,
        strip_referenced: false,
        delete_button: false,
        suppress_original: false,
    }
}

/// Whether a created message needs the guild's policy looked up: the bot's
/// own messages, and messages that name no supported domain and reply to
/// nothing, are dropped first.
pub fn wants_message(from_self: bool, content: &str, is_reply: bool) -> (r: bool)
    ensures
        r == message_wanted(from_self, content@, is_reply),
{
    !from_self && (is_reply || contains_url(content))
}

/// Decides what to do with a created message.
pub fn on_message(
    from_self: bool,
    content: &str,
    is_reply: bool,
    mentions_bot: bool,
    referenced: Option<&str>,
    policy: Option<ServerConfig>,
) -> (r: Plan)
    ensures
        r == message_plan(from_self, content@, is_reply, mentions_bot, match referenced {
            Some(t) => Some(t@),
            None => None,
        }, policy),
{
    if !wants_message(from_self, content, is_reply) {
        return plan_marker_only(false);
    }
    match policy {
        None => match choose_source(content, is_reply, referenced, false) {
            Some(s) => Plan {
                add_marker: false,
                rewrite: Some(s),
                strip_own: false,
                strip_referenced: false,
                delete_button: false,
                suppress_original: false,
            },
            None => plan_marker_only(false),
        },
        Some(c) => match c.sanitizer_mode {
            SanitizerMode::Automatic => plan_rewrite(
                c,
                choose_source(content, is_reply, referenced, false),
                false,
                false,
                false,
            ),
            SanitizerMode::ManualEmote => plan_marker_only(text_has_link(content)),
            SanitizerMode::ManualMention => if mentions_bot || is_reply {
                plan_rewrite(
                    c,
                    choose_source(content, is_reply, referenced, true),
                    false,
                    false,
                    false,
                )
            } else {
                plan_marker_only(false)
            },
            SanitizerMode::ManualBoth => if mentions_bot || is_reply {
                plan_rewrite(
                    c,
                    choose_source(content, is_reply, referenced, true),
                    false,
                    true,
                    is_reply && referenced.is_some(),
                )
            } else {
                plan_marker_only(text_has_link(content))
            },
        },
    }
}

/// Decides what to do when a reaction is added to a message.
pub fn on_reaction(
    from_self: bool,
    is_marker: bool,
    content: &str,
    is_reply: bool,
    referenced: Option<&str>,
    policy: Option<ServerConfig>,
) -> (r: Plan)
    ensures
        r == reaction_plan(from_self, is_marker, content@, is_reply, match referenced {
            Some(t) => Some(t@),
            None => None,
        }, policy),
{
    match policy {
        None => plan_marker_only(false),
        Some(c) => if from_self || !is_marker || !c.sanitizer_mode.uses_emote() {
            plan_marker_only(false)
        } else {
            let src = choose_source(
                content,
                is_reply,
                referenced,
                c.sanitizer_mode == SanitizerMode::ManualBoth,
            );
            let from_referenced = match src {
                Some(Source::Referenced) => true,
                _ => false,
            };
            plan_rewrite(c, src, false, true, from_referenced)
        },
    }
}

/// A person's marker reaction in a guild whose mode uses the marker always
/// strips the marker from that message afterwards, whether or not a link was
/// rewritten; in every other case a reaction does nothing.
pub proof fn lemma_marker_stripped_after_reaction(
    is_marker: bool,
    own: Seq<char>,
    is_reply: bool,
    referenced: Option<Seq<char>>,
    c: ServerConfig,
)
    ensures
        is_marker && (c.sanitizer_mode == SanitizerMode::ManualEmote || c.sanitizer_mode
            == SanitizerMode::ManualBoth) ==> reaction_plan(
            false,
            is_marker,
            own,
            is_reply,
            referenced,
            Some(c),
        ).strip_own,
        !(is_marker && (c.sanitizer_mode == SanitizerMode::ManualEmote || c.sanitizer_mode
            == SanitizerMode::ManualBoth)) ==> reaction_plan(
            false,
            is_marker,
            own,
            is_reply,
            referenced,
            Some(c),
        ) == no_op(),
{
}

/// Under `ManualBoth`, a mention or a reply strips the marker reactions from
/// the message and from the message it replies to, whether or not a link was
/// found.
pub proof fn lemma_manual_both_mention_strips(
    own: Seq<char>,
    is_reply: bool,
    mentions_bot: bool,
    referenced: Option<Seq<char>>,
    c: ServerConfig,
)
    requires
        c.sanitizer_mode == SanitizerMode::ManualBoth,
        mentions_bot || is_reply,
        mentions_domain(own) || is_reply,
    ensures
        message_plan(false, own, is_reply, mentions_bot, referenced, Some(c)).strip_own,
        message_plan(false, own, is_reply, mentions_bot, referenced, Some(c)).strip_referenced
            == (is_reply && referenced is Some),
{
}

/// The bot's own messages never trigger anything, whatever they say: its
/// rewritten captions are never processed again.
pub proof fn lemma_own_messages_ignored(
    own: Seq<char>,
    is_reply: bool,
    mentions_bot: bool,
    referenced: Option<Seq<char>>,
    policy: Option<ServerConfig>,
    is_marker: bool,
)
    ensures
        message_plan(true, own, is_reply, mentions_bot, referenced, policy) == no_op(),
        reaction_plan(true, is_marker, own, is_reply, referenced, policy) == no_op(),
{
}

/// Under `ManualMention`, a message that neither mentions the bot nor
/// replies does nothing; a reply without a link of its own to a message
/// with a link rewrites the referenced message's link, once.
pub proof fn lemma_manual_mention_dispatch(
    c: ServerConfig,
    own: Seq<char>,
    referenced: Seq<char>,
)
    requires
        c.sanitizer_mode == SanitizerMode::ManualMention,
    ensures
        message_plan(false, own, false, false, None, Some(c)) == no_op(),
        !has_link(own) && has_link(referenced) ==> message_plan(
            false,
            own,
            true,
            false,
            Some(referenced),
            Some(c),
        ).rewrite == Some(Source::Referenced) && !message_plan(
            false,
            own,
            true,
            false,
            Some(referenced),
            Some(c),
        ).add_marker,
{
}

/// Who pressed the delete button, as far as the decision needs it.
pub open spec fn delete_allowed(p: DeletePermission, is_author: bool, can_manage: bool) -> bool {
    match p {
        DeletePermission::Everyone => true,
        DeletePermission::Disabled => false,
        DeletePermission::AuthorAndMods => is_author || can_manage,
    }
}

/// Whether the user who pressed the delete button may delete the reply:
/// anyone under `Everyone`, nobody under `Disabled`, and under
/// `AuthorAndMods` the original message's author or a member who can manage
/// messages.
pub fn may_delete(p: DeletePermission, is_author: bool, can_manage: bool) -> (r: bool)
    ensures
        r == delete_allowed(p, is_author, can_manage),
{
    match p {
        DeletePermission::Everyone => true,
        DeletePermission::Disabled => false,
        DeletePermission::AuthorAndMods => is_author || can_manage,
    }
}

/// What pressing the delete button does.
#[derive(Clone, Copy, PartialEq, Eq, Structural, Debug)]
pub enum DeleteOutcome {
    /// The button is disabled in this guild: nothing happens.
    Ignore,
    /// The user is told they may not delete the reply.
    Refuse,
    /// The reply is deleted; when `restore_preview`, the original message's
    /// preview is shown again.
    Delete { restore_preview: bool },
}

/// Decides what pressing the delete button does under policy `c`.
pub fn on_delete_button(c: ServerConfig, is_author: bool, can_manage: bool) -> (r: DeleteOutcome)
    ensures
        r == (if c.delete_permission == DeletePermission::Disabled {
            DeleteOutcome::Ignore
        } else if !delete_allowed(c.delete_permission, is_author, can_manage) {
            DeleteOutcome::Refuse
        } else {
            DeleteOutcome::Delete { restore_preview: c.hide_original_embed }
        }),
{
    if c.delete_permission == DeletePermission::Disabled {
        DeleteOutcome::Ignore
    } else if !may_delete(c.delete_permission, is_author, can_manage) {
        DeleteOutcome::Refuse
    } else {
        DeleteOutcome::Delete { restore_preview: c.hide_original_embed }
    }
}

} // verus!
