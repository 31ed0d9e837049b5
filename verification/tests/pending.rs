use greetd::pending::{PendingState, Signal};
use greetd::session::Session;

const SECOND: u64 = 1_000_000_000;

fn session() -> Session {
    Session { worker_pid: 5 }
}

#[test]
fn nothing_waits_at_first() {
    let mut state = PendingState::default();
    assert_eq!(state.enforce_timeout(100 * SECOND), None);
    assert_eq!(state, PendingState { session: None, since: None, sent_term: false });
    assert_eq!(state.promote(), None);
    assert_eq!(state.cancel_pending(), None);
}

#[test]
fn greeter_is_asked_after_five_and_killed_after_ten_seconds() {
    let mut state = PendingState::default();
    state.queue(session(), SECOND);
    assert_eq!(state.enforce_timeout(2 * SECOND), None);
    assert_eq!(state.enforce_timeout(6 * SECOND), None);
    assert_eq!(state.enforce_timeout(6 * SECOND + 1), Some(Signal::Term));
    assert_eq!(state.enforce_timeout(7 * SECOND), None);
    assert_eq!(state.enforce_timeout(11 * SECOND), None);
    assert_eq!(state.enforce_timeout(11 * SECOND + 1), Some(Signal::Kill));
    assert_eq!(state.enforce_timeout(12 * SECOND), Some(Signal::Kill));
}

#[test]
fn late_check_kills_at_once() {
    let mut state = PendingState::default();
    state.queue(session(), 0);
    assert_eq!(state.enforce_timeout(60 * SECOND), Some(Signal::Kill));
    assert!(!state.sent_term);
}

#[test]
fn session_without_a_time_waits_from_now_on() {
    let mut state = PendingState { session: Some(session()), since: None, sent_term: false };
    assert_eq!(state.enforce_timeout(9 * SECOND), None);
    assert_eq!(state.since, Some(9 * SECOND));
    assert_eq!(state.enforce_timeout(15 * SECOND), Some(Signal::Term));
}

#[test]
fn queued_session_is_promoted_once() {
    let mut state = PendingState::default();
    state.queue(session(), 3);
    state.enforce_timeout(6 * SECOND);
    assert_eq!(state.promote(), Some(session()));
    assert_eq!(state, PendingState::default());
    assert_eq!(state.promote(), None);
}

#[test]
fn queueing_starts_the_clock_anew() {
    let mut state = PendingState::default();
    state.queue(session(), 0);
    assert_eq!(state.enforce_timeout(6 * SECOND), Some(Signal::Term));
    state.queue(Session { worker_pid: 6 }, 6 * SECOND);
    assert_eq!(state.enforce_timeout(7 * SECOND), None);
    assert_eq!(state.cancel_pending(), Some(Session { worker_pid: 6 }));
    assert_eq!(state, PendingState::default());
}
