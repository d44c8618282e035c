use link_sanitizer::guardian::{
    check_bot_response, command_repair, poll_step, repair_actions, CommandRepair, EmbedInfo,
    GuardAction, PollStep, NOTICE_LIFETIME_MS,
};

fn run_wait(seen: impl Fn(u64) -> bool) -> bool {
    let mut elapsed = 0u64;
    loop {
        match poll_step(elapsed, seen(elapsed)) {
            PollStep::Sleep(d) => elapsed += d,
            PollStep::Finish(b) => return b,
        }
    }
}

#[test]
fn embedless_reply_is_deleted_with_one_notice() {
    assert!(!run_wait(|_| false));
    let actions = repair_actions(false, true);
    assert_eq!(
        actions,
        vec![GuardAction::DeleteReply, GuardAction::PostNotice, GuardAction::DeleteNoticeAfter(10000)]
    );
    assert_eq!(actions.iter().filter(|a| **a == GuardAction::PostNotice).count(), 1);
    assert_eq!(NOTICE_LIFETIME_MS, 10000);
}

#[test]
fn valid_reply_suppresses_only_when_asked() {
    assert!(run_wait(|t| t >= 1500));
    assert_eq!(repair_actions(true, true), vec![GuardAction::SuppressOriginal]);
    assert_eq!(repair_actions(true, false), Vec::<GuardAction>::new());
    assert_eq!(poll_step(9999, false), PollStep::Sleep(500));
    assert_eq!(poll_step(10000, false), PollStep::Finish(false));
}

#[test]
fn response_validity_rules() {
    let none: Option<EmbedInfo> = None;
    assert!(!check_bot_response("[x](https://fxtwitter.com/a/status/1)", &none));
    let video = Some(EmbedInfo { has_video: true, description: Some("Sorry, that post doesn't exist :(".to_string()) });
    assert!(check_bot_response("[x](https://fxtwitter.com/a/status/1)", &video));
    let missing = Some(EmbedInfo { has_video: false, description: Some("Sorry, that post doesn't exist :(".to_string()) });
    assert!(!check_bot_response("[x](https://fxtwitter.com/a/status/1)", &missing));
    assert!(check_bot_response("[x](https://rxddit.com/r/a)", &missing));
    let insta = Some(EmbedInfo { has_video: false, description: Some("Post might not be available".to_string()) });
    assert!(!check_bot_response("[Post via Instagram](https://kkinstagram.com/p/a)", &insta));
    let fine = Some(EmbedInfo { has_video: false, description: None });
    assert!(check_bot_response("[Post via Instagram](https://kkinstagram.com/p/a)", &fine));
}

#[test]
fn command_repairs() {
    assert_eq!(command_repair(false, true, true), CommandRepair::Keep);
    assert_eq!(command_repair(true, false, true), CommandRepair::Keep);
    assert_eq!(command_repair(false, false, true), CommandRepair::DeleteThenNotify);
    assert_eq!(command_repair(false, false, false), CommandRepair::EditToError);
}
