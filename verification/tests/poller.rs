use ethproxy::poller::{
    classify_poll, stdin_watch_set, PollFailure, PollOutcome, RawPollResult, ERRNO_INTERRUPTED,
    POLL_TIMEOUT_MS,
};

#[test]
fn no_pending_data_times_out() {
    assert_eq!(
        classify_poll(RawPollResult::Completed(0), false),
        Ok(PollOutcome::TimedOut)
    );
}

#[test]
fn pending_readable_data_is_ready() {
    assert_eq!(
        classify_poll(RawPollResult::Completed(1), true),
        Ok(PollOutcome::Ready)
    );
}

#[test]
fn unexpected_event_bits_are_ignored() {
    assert_eq!(
        classify_poll(RawPollResult::Completed(1), false),
        Ok(PollOutcome::Ignore)
    );
}

#[test]
fn interruption_is_recoverable_not_a_crash() {
    assert_eq!(
        classify_poll(RawPollResult::Failed(ERRNO_INTERRUPTED), false),
        Ok(PollOutcome::InterruptedBySignal)
    );
}

#[test]
fn other_failures_are_fatal() {
    assert_eq!(
        classify_poll(RawPollResult::Failed(9), false),
        Err(PollFailure { errno: 9 })
    );
}

#[test]
fn watch_set_is_stdin_alone() {
    let set = stdin_watch_set(0);
    assert_eq!(set.len(), 1);
    assert_eq!(set[0].fd, 0);
    assert!(set[0].wants_read);
}

#[test]
fn poll_timeout_is_bounded() {
    assert_eq!(POLL_TIMEOUT_MS, 100);
}
