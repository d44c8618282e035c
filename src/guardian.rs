//! The response guardian: decides whether the platform unfolded a posted
//! rewrite into a real preview, how long to wait for it, and how to repair a
//! failed one.
use vstd::prelude::*;

use crate::author::{find_from, occurs_at};
use crate::text::{chars_of, str_eq};

verus! {

/// How often the posted reply is fetched again while no preview shows.
pub const POLL_INTERVAL_MS: u64 = 500;

/// How long to wait for a preview before the reply counts as failed.
pub const EMBED_TIMEOUT_MS: u64 = 10000;

/// How long the error notice of a failed reply stays before it is deleted.
pub const NOTICE_LIFETIME_MS: u64 = 10000;

/// The first preview the platform attached to the reply.
#[derive(Clone, Debug)]
pub struct EmbedInfo {
    pub has_video: bool,
    pub description: Option<String>,
}

pub open spec fn contains_seq(s: Seq<char>, pat: Seq<char>) -> bool {
    find_from(s, pat, 0) >= 0
}

pub open spec fn opt_text(o: Option<String>) -> Option<Seq<char>> {
    match o {
        Some(t) => Some(t@),
        None => None,
    }
}

/// A preview is genuine when it holds a video, or when it is not the
/// proxy's "not found" placeholder for the reply's link.
pub open spec fn response_valid(content: Seq<char>, embed: Option<EmbedInfo>) -> bool {
    match embed {
        None => false,
        Some(e) => if e.has_video {
            true
        } else if contains_seq(content, "fxtwitter.com"@) {
            opt_text(e.description) != Some("Sorry, that post doesn't exist :("@)
        } else if contains_seq(content, "kkinstagram.com"@) {
            opt_text(e.description) != Some("Post might not be available"@)
        } else {
            true
        },
    }
}

fn contains_text(s: &str, pat: &str) -> (r: bool)
    ensures
        r == contains_seq(s@, pat@),
{
    let v = chars_of(s);
    let p = chars_of(pat);
    if p.len() > v.len() {
        assert(find_from(v@, p@, 0) == -1);
        return false;
    }
    let mut k: usize = 0;
    while k <= v.len() - p.len()
        invariant
            p.len() <= v.len(),
            v@ == s@,
            p@ == pat@,
            find_from(v@, p@, 0) == find_from(v@, p@, k as int),
        decreases v.len() - k,
    {
        let mut m: usize = 0;
        let mut same = true;
        while m < p.len() && same
            invariant
                m <= p.len(),
                k + p.len() <= v.len(),
                same ==> forall|j: int| 0 <= j < m ==> v@[k + j] == p@[j],
                !same ==> v@.subrange(k as int, k + p.len()) != p@,
            decreases p.len() - m + if same { 1int } else { 0int },
        {
            if v[k + m] != p[m] {
                assert(v@.subrange(k as int, k + p.len())[m as int] != p@[m as int]);
                same = false;
            } else {
                m = m + 1;
            }
        }
        if same {
            assert(v@.subrange(k as int, k + p.len()) =~= p@);
            assert(occurs_at(v@, k as int, p@));
            return true;
        }
        if k == v.len() - p.len() {
            assert(find_from(v@, p@, k + 1) == -1);
            return false;
        }
        k = k + 1;
    }
    false
}

fn description_is(e: &EmbedInfo, text: &str) -> (r: bool)
    ensures
        r == (opt_text(e.description) == Some(text@)),
{
    match &e.description {
        Some(d) => str_eq(d.as_str(), text),
        None => false,
    }
}

/// Whether the reply with text `content` unfolded into a genuine preview.
pub fn check_bot_response(content: &str, embed: &Option<EmbedInfo>) -> (r: bool)
    ensures
        r == response_valid(content@, *embed),
{
    match embed {
        None => false,
        Some(e) => if e.has_video {
            true
        } else if contains_text(content, "fxtwitter.com") {
            !description_is(e, "Sorry, that post doesn't exist :(")
        } else if contains_text(content, "kkinstagram.com") {
            !description_is(e, "Post might not be available")
        } else {
            true
        },
    }
}

/// The next step while waiting for the reply's preview.
#[derive(Clone, Copy, PartialEq, Eq, Structural, Debug)]
pub enum PollStep {
    /// Sleep this many milliseconds, then fetch the reply again.
    Sleep(u64),
    /// Stop waiting; whether a preview was seen.
    Finish(bool),
}

pub open spec fn poll_step_spec(elapsed_ms: nat, embed_seen: bool) -> PollStep {
    if embed_seen {
        PollStep::Finish(true)
    } else if elapsed_ms >= EMBED_TIMEOUT_MS {
        PollStep::Finish(false)
    } else {
        PollStep::Sleep(POLL_INTERVAL_MS)
    }
}

/// Decides the next step after a fetch of the reply, `elapsed_ms` after it
/// was posted: a preview ends the wait, and so does the timeout.
pub fn poll_step(elapsed_ms: u64, embed_seen: bool) -> (r: PollStep)
    ensures
        r == poll_step_spec(elapsed_ms as nat, embed_seen),
{
    if embed_seen {
        PollStep::Finish(true)
    } else if elapsed_ms >= EMBED_TIMEOUT_MS {
        PollStep::Finish(false)
    } else {
        PollStep::Sleep(POLL_INTERVAL_MS)
    }
}

/// Where the wait ends when the fetches see `seen` in turn, the first one at
/// `elapsed_ms` and each next one after the sleep asked for; `None` while it
/// still goes on.
pub open spec fn watch(seen: Seq<bool>, elapsed_ms: nat) -> Option<bool>
    decreases seen.len(),
{
    if seen.len() == 0 {
        None
    } else {
        match poll_step_spec(elapsed_ms, seen[0]) {
            PollStep::Finish(b) => Some(b),
            PollStep::Sleep(d) => watch(seen.drop_first(), (elapsed_ms + d) as nat),
        }
    }
}

/// One thing the guardian does after the wait.
#[derive(Clone, Copy, PartialEq, Eq, Structural, Debug)]
pub enum GuardAction {
    /// Hide the original message's own preview.
    SuppressOriginal,
    /// Delete the bot's reply.
    DeleteReply,
    /// Post a short error notice in reply to the original message.
    PostNotice,
    /// Delete that notice after this many milliseconds.
    DeleteNoticeAfter(u64),
}

pub open spec fn repair_spec(valid: bool, suppress: bool) -> Seq<GuardAction> {
    if valid {
        if suppress {
            seq![GuardAction::SuppressOriginal]
        } else {
            Seq::empty()
        }
    } else {
        seq![
            GuardAction::DeleteReply,
            GuardAction::PostNotice,
            GuardAction::DeleteNoticeAfter(NOTICE_LIFETIME_MS),
        ]
    }
}

/// What to do once the wait is over: a genuine preview lets the original's
/// preview be hidden now, if the policy asks; a failed one deletes the reply
/// and posts a notice that is removed after its lifetime.
pub fn repair_actions(valid: bool, suppress: bool) -> (r: Vec<GuardAction>)
    ensures
        r@ == repair_spec(valid, suppress),
{
    let mut v: Vec<GuardAction> = Vec::new();
    if valid {
        if suppress {
            v.push(GuardAction::SuppressOriginal);
        }
    } else {
        v.push(GuardAction::DeleteReply);
        v.push(GuardAction::PostNotice);
        v.push(GuardAction::DeleteNoticeAfter(NOTICE_LIFETIME_MS));
    }
    proof {
        if valid && suppress {
            assert(v@ =~= seq![GuardAction::SuppressOriginal]);
        } else if valid {
            assert(v@ =~= Seq::<GuardAction>::empty());
        } else {
            assert(v@ =~= seq![
                GuardAction::DeleteReply,
                GuardAction::PostNotice,
                GuardAction::DeleteNoticeAfter(NOTICE_LIFETIME_MS),
            ]);
        }
    }
    v
}

/// Fetches that never see a preview end the wait as failed once the timeout
/// is reached.
pub proof fn lemma_watch_times_out(seen: Seq<bool>, elapsed_ms: nat)
    requires
        forall|i: int| 0 <= i < seen.len() ==> !seen[i],
        seen.len() > 0,
        elapsed_ms + (seen.len() - 1) * POLL_INTERVAL_MS >= EMBED_TIMEOUT_MS,
    ensures
        watch(seen, elapsed_ms) == Some(false),
    decreases seen.len(),
{
    if elapsed_ms < EMBED_TIMEOUT_MS {
        let rest = seen.drop_first();
        assert forall|i: int| 0 <= i < rest.len() implies !rest[i] by {
            assert(rest[i] == seen[i + 1]);
        }
        lemma_watch_times_out(rest, (elapsed_ms + POLL_INTERVAL_MS) as nat);
    }
}

/// A reply that shows no preview for the whole timeout window is deleted,
/// and exactly one error notice is posted, itself deleted after its
/// lifetime; the original's preview is left alone.
pub proof fn lemma_embedless_reply_repaired(seen: Seq<bool>, suppress: bool)
    requires
        forall|i: int| 0 <= i < seen.len() ==> !seen[i],
        seen.len() == EMBED_TIMEOUT_MS / POLL_INTERVAL_MS + 1,
    ensures
        watch(seen, 0) == Some(false),
        repair_spec(false, suppress) == seq![
            GuardAction::DeleteReply,
            GuardAction::PostNotice,
            GuardAction::DeleteNoticeAfter(NOTICE_LIFETIME_MS),
        ],
        repair_spec(false, suppress).filter(|a: GuardAction| a == GuardAction::PostNotice).len()
            == 1,
        !repair_spec(false, suppress).contains(GuardAction::SuppressOriginal),
{
    lemma_watch_times_out(seen, 0);
    let s = repair_spec(false, suppress);
    let f = |a: GuardAction| a == GuardAction::PostNotice;
    reveal_with_fuel(Seq::filter, 4);
    assert(s.drop_last().drop_last().drop_last() =~= Seq::<GuardAction>::empty());
    assert(s.filter(f) =~= seq![GuardAction::PostNotice]);
    assert(!s.contains(GuardAction::SuppressOriginal)) by {
        if s.contains(GuardAction::SuppressOriginal) {
            let j = choose|j: int| 0 <= j < s.len() && s[j] == GuardAction::SuppressOriginal;
        }
    }
}

/// How a failed reply to a command is repaired.
#[derive(Clone, Copy, PartialEq, Eq, Structural, Debug)]
pub enum CommandRepair {
    /// Nothing to repair.
    Keep,
    /// Delete the reply; once deleted, send a private error notice.
    DeleteThenNotify,
    /// Replace the reply with an error notice.
    EditToError,
}

/// Decides how a reply to a command is repaired: replies in private channels
/// are not checked; a failed one is deleted where the bot is installed in the
/// guild, and edited into an error notice where it is installed for the user.
pub fn command_repair(valid: bool, private_channel: bool, guild_install: bool) -> (r: CommandRepair)
    ensures
        r == (if private_channel || valid {
            CommandRepair::Keep
        } else if guild_install {
            CommandRepair::DeleteThenNotify
        } else {
            CommandRepair::EditToError
        }),
{
    if private_channel || valid {
        CommandRepair::Keep
    } else if guild_install {
        CommandRepair::DeleteThenNotify
    } else {
        CommandRepair::EditToError
    }
}

} // verus!
