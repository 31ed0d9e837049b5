use greetd::daemon::{Daemon, DaemonAction, DaemonEvent, Phase};
use greetd::error::Error;
use greetd::pending::{PendingState, Signal};
use greetd::session::{Session, WaitStatus};

const SECOND: u64 = 1_000_000_000;

fn greeter() -> Session {
    Session { worker_pid: 10 }
}

fn waiting() -> PendingState {
    PendingState { session: Some(Session { worker_pid: 20 }), since: Some(0), sent_term: false }
}

fn at(phase: Phase, pending: PendingState) -> Daemon {
    Daemon { greeter: greeter(), pending, phase }
}

fn exited(pid: i32) -> DaemonEvent {
    DaemonEvent::Reaped(WaitStatus::Exited { pid, code: 0 })
}

fn no_child() -> DaemonEvent {
    DaemonEvent::Reaped(WaitStatus::Other)
}

fn shown(action: DaemonAction) -> String {
    match action {
        DaemonAction::CheckTerminate => "check".to_string(),
        DaemonAction::Reap => "reap".to_string(),
        DaemonAction::StartGreeter => "start greeter".to_string(),
        DaemonAction::Kill { pid, signal: Signal::Term } => format!("term {pid}"),
        DaemonAction::Kill { pid, signal: Signal::Kill } => format!("kill {pid}"),
        DaemonAction::Accept => "accept".to_string(),
        DaemonAction::Serve => "serve".to_string(),
        DaemonAction::Sleep { millis } => format!("sleep {millis}"),
        DaemonAction::Cancel { session } => format!("cancel {}", session.worker_pid),
        DaemonAction::RemoveSocket => "remove socket".to_string(),
        DaemonAction::Finish(Ok(())) => "finish".to_string(),
        DaemonAction::Finish(Err(error)) => format!("finish: {}", error.to_string()),
        DaemonAction::Nothing => "nothing".to_string(),
    }
}

fn course(daemon: Daemon, events: Vec<DaemonEvent>, now: u64) -> (Daemon, Vec<String>) {
    let mut daemon = daemon;
    let mut actions = Vec::new();
    for event in events {
        let (next, action) = daemon.step(event, now);
        daemon = next;
        actions.push(shown(action));
    }
    (daemon, actions)
}

#[test]
fn quiet_round() {
    let (daemon, first) = Daemon::event_loop(greeter());
    assert_eq!(shown(first), "check");
    let events = vec![
        DaemonEvent::Terminate(false),
        no_child(),
        DaemonEvent::Accepted(false),
        DaemonEvent::Done,
    ];
    let (after, actions) = course(daemon, events, 0);
    assert_eq!(actions, vec!["reap", "accept", "sleep 100", "check"]);
    assert_eq!(after, daemon);
}

#[test]
fn connection_is_served() {
    let events = vec![DaemonEvent::Accepted(true), DaemonEvent::Served(waiting())];
    let (daemon, actions) = course(at(Phase::Accepting, PendingState::default()), events, 0);
    assert_eq!(actions, vec!["serve", "sleep 100"]);
    assert_eq!(daemon, at(Phase::Resting, waiting()));
}

#[test]
fn waiting_session_takes_the_greeters_place() {
    let (daemon, actions) = course(at(Phase::Reaping, waiting()), vec![exited(10), no_child()], 0);
    assert_eq!(actions, vec!["reap", "accept"]);
    assert_eq!(daemon.greeter, Session { worker_pid: 20 });
    assert_eq!(daemon.pending, PendingState::default());
}

#[test]
fn greeter_comes_back_after_a_session() {
    let killed = DaemonEvent::Reaped(WaitStatus::Signaled { pid: 10 });
    let events = vec![killed, DaemonEvent::Started(Session { worker_pid: 11 }), no_child()];
    let (daemon, actions) = course(at(Phase::Reaping, PendingState::default()), events, 0);
    assert_eq!(actions, vec!["start greeter", "reap", "accept"]);
    assert_eq!(daemon.greeter, Session { worker_pid: 11 });
}

#[test]
fn other_children_are_passed_over() {
    let (daemon, actions) = course(at(Phase::Reaping, waiting()), vec![exited(99)], 0);
    assert_eq!(actions, vec!["reap"]);
    assert_eq!(daemon, at(Phase::Reaping, waiting()));
}

#[test]
fn greeter_that_does_not_leave_is_signalled() {
    let events = || vec![no_child(), DaemonEvent::Failed(Error::Other("ESRCH".into()))];
    let (daemon, actions) = course(at(Phase::Reaping, waiting()), events(), 6 * SECOND);
    assert_eq!(actions, vec!["term 10", "accept"]);
    assert!(daemon.pending.sent_term);
    let (_, actions) = course(at(Phase::Reaping, waiting()), events(), 11 * SECOND);
    assert_eq!(actions, vec!["kill 10", "accept"]);
    let (_, actions) = course(at(Phase::Reaping, waiting()), vec![no_child()], 5 * SECOND);
    assert_eq!(actions, vec!["accept"]);
}

#[test]
fn shutdown_goes_step_by_step() {
    let events = || {
        vec![
            DaemonEvent::Terminate(true),
            DaemonEvent::Done,
            DaemonEvent::Failed(Error::Other("ESRCH".into())),
            DaemonEvent::Done,
            DaemonEvent::Failed(Error::Other("ESRCH".into())),
            DaemonEvent::Failed(Error::Other("ENOENT".into())),
            DaemonEvent::Done,
        ]
    };
    let (daemon, actions) = course(at(Phase::Polling, waiting()), events(), 0);
    assert_eq!(
        actions,
        vec!["cancel 20", "term 10", "sleep 500", "kill 10", "remove socket", "finish", "nothing"]
    );
    assert_eq!(daemon, at(Phase::Stopped, PendingState::default()));
    let (_, actions) = course(at(Phase::Polling, PendingState::default()), events(), 0);
    assert_eq!(
        actions,
        vec!["term 10", "sleep 500", "kill 10", "remove socket", "finish", "nothing", "nothing"]
    );
}

#[test]
fn shutdown_is_not_undone() {
    let (daemon, _) =
        course(at(Phase::Polling, PendingState::default()), vec![DaemonEvent::Terminate(true)], 0);
    let events =
        vec![DaemonEvent::Terminate(false), DaemonEvent::Accepted(true), exited(10), DaemonEvent::Done];
    let (daemon, actions) = course(daemon, events, 0);
    assert_eq!(actions, vec!["nothing", "nothing", "nothing", "sleep 500"]);
    assert_eq!(daemon.phase, Phase::Waiting);
}

#[test]
fn failures_that_end_the_loop() {
    let failed = || DaemonEvent::Failed(Error::Other("no".into()));
    let (_, actions) =
        course(at(Phase::Reaping, PendingState::default()), vec![exited(10), failed()], 0);
    assert_eq!(actions, vec!["start greeter", "finish: no"]);
    let (_, actions) = course(at(Phase::Accepting, PendingState::default()), vec![failed()], 0);
    assert_eq!(actions, vec!["finish: no"]);
}

#[test]
fn pieces_of_the_loop_decide_as_the_loop_does() {
    let daemon = at(Phase::Reaping, waiting());
    assert_eq!(shown(daemon.reap_greeter_exits(WaitStatus::Other, 0).1), "accept");
    assert_eq!(shown(daemon.handle_next_client(true).1), "serve");
    assert_eq!(shown(daemon.handle_next_client(false).1), "sleep 100");
    assert_eq!(shown(daemon.shutdown().1), "cancel 20");
}
