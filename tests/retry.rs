use link_sanitizer::retry::{after_failure, RetryStep, CONNECT_ATTEMPTS, CONNECT_DELAY_MS};

#[test]
fn backoff_doubles_then_gives_up() {
    assert_eq!(after_failure(1, 3, 250), RetryStep::RetryAfter(250));
    assert_eq!(after_failure(2, 3, 250), RetryStep::RetryAfter(500));
    assert_eq!(after_failure(3, 3, 250), RetryStep::GiveUp);
}

#[test]
fn connection_backoff() {
    assert_eq!(after_failure(1, CONNECT_ATTEMPTS, CONNECT_DELAY_MS), RetryStep::RetryAfter(100));
    assert_eq!(after_failure(4, CONNECT_ATTEMPTS, CONNECT_DELAY_MS), RetryStep::RetryAfter(800));
    assert_eq!(after_failure(5, CONNECT_ATTEMPTS, CONNECT_DELAY_MS), RetryStep::GiveUp);
    assert_eq!(after_failure(31, 32, 1_000_000), RetryStep::RetryAfter(1_000_000 * (1u64 << 30)));
}
