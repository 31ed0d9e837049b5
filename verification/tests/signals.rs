use greetd::daemon::{Daemon, DaemonAction, DaemonEvent, Phase};
use greetd::pending::PendingState;
use greetd::session::{Session, WaitStatus};
use greetd::signals::{Disposition, HandledSignal, Termination};

#[test]
fn request_to_leave_stays() {
    let mut termination = Termination { requested: false };
    assert!(!termination.should_terminate());
    termination.handle_terminate(HandledSignal::Child);
    assert!(!termination.should_terminate());
    termination.handle_terminate(HandledSignal::Interrupt);
    assert!(termination.should_terminate());
    termination.handle_terminate(HandledSignal::Child);
    termination.handle_terminate(HandledSignal::Terminate);
    assert!(termination.should_terminate());
}

#[test]
fn either_signal_is_enough() {
    for signal in [HandledSignal::Terminate, HandledSignal::Interrupt] {
        let mut termination = Termination { requested: false };
        termination.handle_terminate(signal);
        assert!(termination.should_terminate());
    }
}

#[test]
fn ended_children_are_kept_for_polling() {
    assert_eq!(HandledSignal::Child.handling(), Disposition::Ignore);
    assert_eq!(HandledSignal::Terminate.handling(), Disposition::ShutDown);
    assert_eq!(HandledSignal::Interrupt.handling(), Disposition::ShutDown);
    let greeter = Session { worker_pid: 4 };
    let daemon = Daemon { greeter, pending: PendingState::default(), phase: Phase::Reaping };
    let (_, action) = daemon.step(DaemonEvent::Reaped(WaitStatus::Signaled { pid: 4 }), 0);
    assert!(matches!(action, DaemonAction::StartGreeter));
}
