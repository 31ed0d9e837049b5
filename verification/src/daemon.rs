//! The daemon's main loop: it watches over the greeter, lets a started session
//! take the greeter's place, serves connections and shuts down.
//!
//! A [`Daemon`] is the state of the loop. Each action that it asks for is
//! performed by the caller, who then reports how the action went.

use vstd::prelude::*;

use crate::error;
use crate::error::{Error, ErrorView};
use crate::pending::{PendingState, Signal};
use crate::session;
use crate::session::{Session, WaitStatus};

verus! {

/// How long, in milliseconds, the loop rests between two rounds.
pub const REST_MILLIS: u64 = 100;

/// How long, in milliseconds, a process that was asked to leave at shutdown may
/// take before it is killed.
pub const GRACE_MILLIS: u64 = 500;

/// What the loop is at.
#[derive(Debug, Clone, Copy, PartialEq, Eq, Structural)]
pub enum Phase {
    /// It is being found out whether to shut down.
    Polling,
    /// It is being found out which children have ended.
    Reaping,
    /// A new greeter is being started.
    Restarting,
    /// A greeter that does not leave is being sent a signal.
    Signalling,
    /// A connection is being accepted, if one waits.
    Accepting,
    /// A connection is being served.
    Serving,
    /// The loop rests.
    Resting,
    /// The waiting session is being told to end.
    Cancelling,
    /// The greeter is being asked to leave.
    Terminating,
    /// The greeter is given time to leave.
    Waiting,
    /// The greeter is being killed.
    Killing,
    /// The socket is being removed.
    Cleaning,
    /// The loop is over.
    Stopped,
}

/// The state of the loop: the greeter, or the session that took its place; the
/// session that waits for it to leave; and what the loop is at.
#[derive(Debug, Clone, Copy, PartialEq, Eq, Structural)]
pub struct Daemon {
    pub greeter: Session,
    pub pending: PendingState,
    pub phase: Phase,
}

/// What the loop asks for.
#[derive(Debug)]
pub enum DaemonAction {
    /// Find out whether to shut down.
    CheckTerminate,
    /// Find out whether a child has ended.
    Reap,
    /// Start a greeter.
    StartGreeter,
    /// Send a signal to a process.
    Kill { pid: i32, signal: Signal },
    /// Accept a connection, if one waits.
    Accept,
    /// Serve the accepted connection.
    Serve,
    /// Rest.
    Sleep { millis: u64 },
    /// Tell a session to end.
    Cancel { session: Session },
    /// Remove the socket.
    RemoveSocket,
    /// Leave with a result.
    Finish(Result<(), Error>),
    /// Nothing.
    Nothing,
}

/// How an action went.
#[derive(Debug)]
pub enum DaemonEvent {
    /// Whether to shut down.
    Terminate(bool),
    /// What the system says about children.
    Reaped(WaitStatus),
    /// A greeter was started.
    Started(Session),
    /// Whether a connection was accepted.
    Accepted(bool),
    /// The connection is over; what waits for the greeter to leave by now.
    Served(PendingState),
    /// It is done.
    Done,
    /// It failed.
    Failed(Error),
}

/// The contents of a [`DaemonAction`].
pub enum DaemonActionView {
    CheckTerminate,
    Reap,
    StartGreeter,
    Kill { pid: i32, signal: Signal },
    Accept,
    Serve,
    Sleep { millis: u64 },
    Cancel { session: Session },
    RemoveSocket,
    Finish(Result<(), ErrorView>),
    Nothing,
}

/// The contents of a [`DaemonEvent`].
pub enum DaemonEventView {
    Terminate(bool),
    Reaped(WaitStatus),
    Started(Session),
    Accepted(bool),
    Served(PendingState),
    Done,
    Failed(ErrorView),
}

impl View for DaemonAction {
    type V = DaemonActionView;

    open spec fn view(&self) -> DaemonActionView {
        match self {
            DaemonAction::CheckTerminate => DaemonActionView::CheckTerminate,
            DaemonAction::Reap => DaemonActionView::Reap,
            DaemonAction::StartGreeter => DaemonActionView::StartGreeter,
            DaemonAction::Kill { pid, signal } => DaemonActionView::Kill {
                pid: *pid,
                signal: *signal,
            },
            DaemonAction::Accept => DaemonActionView::Accept,
            DaemonAction::Serve => DaemonActionView::Serve,
            DaemonAction::Sleep { millis } => DaemonActionView::Sleep { millis: *millis },
            DaemonAction::Cancel { session } => DaemonActionView::Cancel { session: *session },
            DaemonAction::RemoveSocket => DaemonActionView::RemoveSocket,
            DaemonAction::Finish(result) => DaemonActionView::Finish(error::outcome(*result)),
            DaemonAction::Nothing => DaemonActionView::Nothing,
        }
    }
}

impl View for DaemonEvent {
    type V = DaemonEventView;

    open spec fn view(&self) -> DaemonEventView {
        match self {
            DaemonEvent::Terminate(terminate) => DaemonEventView::Terminate(*terminate),
            DaemonEvent::Reaped(status) => DaemonEventView::Reaped(*status),
            DaemonEvent::Started(session) => DaemonEventView::Started(*session),
            DaemonEvent::Accepted(accepted) => DaemonEventView::Accepted(*accepted),
            DaemonEvent::Served(pending) => DaemonEventView::Served(*pending),
            DaemonEvent::Done => DaemonEventView::Done,
            DaemonEvent::Failed(error) => DaemonEventView::Failed(error@),
        }
    }
}

impl DaemonEventView {
    /// Whether an action is over, well or not.
    pub open spec fn is_over(self) -> bool {
        self is Done || self is Failed
    }
}

impl Daemon {
    /// The loop, at something else.
    pub open spec fn at(self, phase: Phase) -> Daemon {
        Daemon { phase, ..self }
    }

    /// What the end of a child leads to: the greeter's place is taken by the
    /// session that waits for it, or else by a new greeter. Of other children
    /// no notice is taken. Once no more have ended, a greeter that should have
    /// left is sent the signal that is due.
    pub open spec fn after_reaping(self, status: WaitStatus, now: u64) -> (
        Daemon,
        DaemonActionView,
    ) {
        match status.ended() {
            Some((pid, _)) => if pid != self.greeter.worker_pid {
                (self, DaemonActionView::Reap)
            } else {
                match self.pending.session {
                    Some(session) => (
                        Daemon { greeter: session, pending: PendingState::nothing(), ..self },
                        DaemonActionView::Reap,
                    ),
                    None => (
                        Daemon {
                            pending: PendingState::nothing(),
                            phase: Phase::Restarting,
                            ..self
                        },
                        DaemonActionView::StartGreeter,
                    ),
                }
            },
            None => {
                let daemon = Daemon { pending: self.pending.enforced(now), ..self };
                match self.pending.due(now) {
                    Some(signal) => (
                        daemon.at(Phase::Signalling),
                        DaemonActionView::Kill { pid: self.greeter.worker_pid, signal },
                    ),
                    None => (daemon.at(Phase::Accepting), DaemonActionView::Accept),
                }
            },
        }
    }

    /// The first step of a shutdown: the session that waits is told to end, or
    /// else the greeter is asked to leave.
    pub open spec fn shutting_down(self) -> (Daemon, DaemonActionView) {
        let daemon = Daemon { pending: PendingState::nothing(), ..self };
        match self.pending.session {
            Some(session) => (daemon.at(Phase::Cancelling), DaemonActionView::Cancel { session }),
            None => daemon.terminating(),
        }
    }

    /// The greeter is asked to leave.
    pub open spec fn terminating(self) -> (Daemon, DaemonActionView) {
        (
            self.at(Phase::Terminating),
            DaemonActionView::Kill { pid: self.greeter.worker_pid, signal: Signal::Term },
        )
    }

    /// The loop rests.
    pub open spec fn resting(self) -> (Daemon, DaemonActionView) {
        (self.at(Phase::Resting), DaemonActionView::Sleep { millis: REST_MILLIS })
    }

    /// The loop is over.
    pub open spec fn stopping(self, result: Result<(), ErrorView>) -> (Daemon, DaemonActionView) {
        (self.at(Phase::Stopped), DaemonActionView::Finish(result))
    }

    /// The next state and action. A signal that cannot be sent, a session that
    /// cannot be told and a socket that cannot be removed are passed over. A
    /// report that does not fit the state changes nothing.
    pub open spec fn next(self, event: DaemonEventView, now: u64) -> (Daemon, DaemonActionView) {
        match (self.phase, event) {
            (Phase::Polling, DaemonEventView::Terminate(true)) => self.shutting_down(),
            (Phase::Polling, DaemonEventView::Terminate(false)) => (
                self.at(Phase::Reaping),
                DaemonActionView::Reap,
            ),
            (Phase::Reaping, DaemonEventView::Reaped(status)) => self.after_reaping(status, now),
            (Phase::Restarting, DaemonEventView::Started(session)) => (
                Daemon { greeter: session, ..self }.at(Phase::Reaping),
                DaemonActionView::Reap,
            ),
            (Phase::Restarting, DaemonEventView::Failed(error)) => self.stopping(Err(error)),
            (Phase::Accepting, DaemonEventView::Accepted(true)) => (
                self.at(Phase::Serving),
                DaemonActionView::Serve,
            ),
            (Phase::Accepting, DaemonEventView::Accepted(false)) => self.resting(),
            (Phase::Accepting, DaemonEventView::Failed(error)) => self.stopping(Err(error)),
            (Phase::Serving, DaemonEventView::Served(pending)) => Daemon {
                pending,
                ..self
            }.resting(),
            (phase, event) => if event.is_over() {
                match phase {
                    Phase::Signalling => (self.at(Phase::Accepting), DaemonActionView::Accept),
                    Phase::Resting => (self.at(Phase::Polling), DaemonActionView::CheckTerminate),
                    Phase::Cancelling => self.terminating(),
                    Phase::Terminating => (
                        self.at(Phase::Waiting),
                        DaemonActionView::Sleep { millis: GRACE_MILLIS },
                    ),
                    Phase::Waiting => (
                        self.at(Phase::Killing),
                        DaemonActionView::Kill {
                            pid: self.greeter.worker_pid,
                            signal: Signal::Kill,
                        },
                    ),
                    Phase::Killing => (self.at(Phase::Cleaning), DaemonActionView::RemoveSocket),
                    Phase::Cleaning => self.stopping(Ok(())),
                    _ => (self, DaemonActionView::Nothing),
                }
            } else {
                (self, DaemonActionView::Nothing)
            },
        }
    }

    /// The loop at its start, with the greeter that it watches over, and its
    /// first action.
    pub fn event_loop(greeter: Session) -> (r: (Daemon, DaemonAction))
        ensures
            r.0 == (Daemon { greeter, pending: PendingState::nothing(), phase: Phase::Polling }),
            r.0 == run(greeter, Seq::empty()),
            r.1@ == DaemonActionView::CheckTerminate,
    {
        (
            Daemon { greeter, pending: PendingState::default(), phase: Phase::Polling },
            DaemonAction::CheckTerminate,
        )
    }

    /// Decides what the end of a child leads to.
    pub fn reap_greeter_exits(self, status: WaitStatus, now: u64) -> (r: (Daemon, DaemonAction))
        ensures
            (r.0, r.1@) == self.after_reaping(status, now),
    {
        let mut daemon = self;
        match session::reap_children(status) {
            Some((pid, _)) => {
                if pid != daemon.greeter.pid() {
                    return (daemon, DaemonAction::Reap);
                }
                match daemon.pending.promote() {
                    Some(session) => {
                        daemon.greeter = session;
                        (daemon, DaemonAction::Reap)
                    },
                    None => {
                        daemon.phase = Phase::Restarting;
                        (daemon, DaemonAction::StartGreeter)
                    },
                }
            },
            None => match daemon.pending.enforce_timeout(now) {
                Some(signal) => {
                    daemon.phase = Phase::Signalling;
                    (daemon, DaemonAction::Kill { pid: daemon.greeter.pid(), signal })
                },
                None => {
                    daemon.phase = Phase::Accepting;
                    (daemon, DaemonAction::Accept)
                },
            },
        }
    }

    /// Decides what becomes of a connection that was accepted, or not.
    pub fn handle_next_client(self, accepted: bool) -> (r: (Daemon, DaemonAction))
        ensures
            accepted ==> (r.0, r.1@) == (self.at(Phase::Serving), DaemonActionView::Serve),
            !accepted ==> (r.0, r.1@) == self.resting(),
            (r.0, r.1@) == self.at(Phase::Accepting).next(DaemonEventView::Accepted(accepted), 0),
    {
        if accepted {
            (Daemon { phase: Phase::Serving, ..self }, DaemonAction::Serve)
        } else {
            self.rest()
        }
    }

    /// Begins a shutdown.
    pub fn shutdown(self) -> (r: (Daemon, DaemonAction))
        ensures
            (r.0, r.1@) == self.shutting_down(),
    {
        let mut daemon = self;
        match daemon.pending.cancel_pending() {
            Some(session) => {
                daemon.phase = Phase::Cancelling;
                (daemon, DaemonAction::Cancel { session })
            },
            None => daemon.terminate(),
        }
    }

    fn terminate(self) -> (r: (Daemon, DaemonAction))
        ensures
            (r.0, r.1@) == self.terminating(),
    {
        (
            Daemon { phase: Phase::Terminating, ..self },
            DaemonAction::Kill { pid: self.greeter.pid(), signal: Signal::Term },
        )
    }

    fn rest(self) -> (r: (Daemon, DaemonAction))
        ensures
            (r.0, r.1@) == self.resting(),
    {
        (Daemon { phase: Phase::Resting, ..self }, DaemonAction::Sleep { millis: REST_MILLIS })
    }

    fn stop(self, result: Result<(), Error>) -> (r: (Daemon, DaemonAction))
        ensures
            (r.0, r.1@) == self.stopping(error::outcome(result)),
    {
        (Daemon { phase: Phase::Stopped, ..self }, DaemonAction::Finish(result))
    }

    /// Takes the report that an action is over, where it does not matter how
    /// it went.
    fn after_action(self) -> (r: (Daemon, DaemonAction))
        ensures
            (r.0, r.1@) == self.next(DaemonEventView::Done, 0),
    {
        match self.phase {
            Phase::Signalling => {
                (Daemon { phase: Phase::Accepting, ..self }, DaemonAction::Accept)
            },
            Phase::Resting => {
                (Daemon { phase: Phase::Polling, ..self }, DaemonAction::CheckTerminate)
            },
            Phase::Cancelling => self.terminate(),
            Phase::Terminating => (
                Daemon { phase: Phase::Waiting, ..self },
                DaemonAction::Sleep { millis: GRACE_MILLIS },
            ),
            Phase::Waiting => (
                Daemon { phase: Phase::Killing, ..self },
                DaemonAction::Kill { pid: self.greeter.pid(), signal: Signal::Kill },
            ),
            Phase::Killing => {
                (Daemon { phase: Phase::Cleaning, ..self }, DaemonAction::RemoveSocket)
            },
            Phase::Cleaning => self.stop(Ok(())),
            _ => (self, DaemonAction::Nothing),
        }
    }

    /// Takes the report on the last action and decides on the next one.
    pub fn step(self, event: DaemonEvent, now: u64) -> (r: (Daemon, DaemonAction))
        ensures
            (r.0, r.1@) == self.next(event@, now),
    {
        match (self.phase, event) {
            (Phase::Polling, DaemonEvent::Terminate(true)) => self.shutdown(),
            (Phase::Polling, DaemonEvent::Terminate(false)) => {
                (Daemon { phase: Phase::Reaping, ..self }, DaemonAction::Reap)
            },
            (Phase::Reaping, DaemonEvent::Reaped(status)) => self.reap_greeter_exits(status, now),
            (Phase::Restarting, DaemonEvent::Started(session)) => (
                Daemon { greeter: session, phase: Phase::Reaping, ..self },
                DaemonAction::Reap,
            ),
            (Phase::Restarting, DaemonEvent::Failed(error)) => self.stop(Err(error)),
            (Phase::Accepting, DaemonEvent::Accepted(accepted)) => {
                self.handle_next_client(accepted)
            },
            (Phase::Accepting, DaemonEvent::Failed(error)) => self.stop(Err(error)),
            (Phase::Serving, DaemonEvent::Served(pending)) => {
                let daemon = Daemon { pending, ..self };
                daemon.rest()
            },
            (_, DaemonEvent::Done) => self.after_action(),
            (_, DaemonEvent::Failed(_)) => self.after_action(),
            _ => (self, DaemonAction::Nothing),
        }
    }
}

/// The state of the loop after a sequence of reports, each with the time at
/// which it came.
pub open spec fn run(greeter: Session, events: Seq<(DaemonEventView, u64)>) -> Daemon
    decreases events.len(),
{
    if events.len() == 0 {
        Daemon { greeter, pending: PendingState::nothing(), phase: Phase::Polling }
    } else {
        run(greeter, events.drop_last()).next(events.last().0, events.last().1).0
    }
}

/// When the greeter ends, the session that waits for it takes its place.
pub proof fn waiting_session_takes_over(
    daemon: Daemon,
    status: WaitStatus,
    session: Session,
    now: u64,
)
    requires
        daemon.phase == Phase::Reaping,
        status.ended() matches Some((pid, _)) && pid == daemon.greeter.worker_pid,
        daemon.pending.session == Some(session),
    ensures
        daemon.next(DaemonEventView::Reaped(status), now).0 == (Daemon {
            greeter: session,
            pending: PendingState::nothing(),
            phase: Phase::Reaping,
        }),
{
}

/// When the greeter, or the session that took its place, ends and no session
/// waits, a new greeter is started and watched over.
pub proof fn greeter_comes_back(daemon: Daemon, status: WaitStatus, greeter: Session, now: u64)
    requires
        daemon.phase == Phase::Reaping,
        status.ended() matches Some((pid, _)) && pid == daemon.greeter.worker_pid,
        daemon.pending.session is None,
    ensures
        ({
            let (restarting, action) = daemon.next(DaemonEventView::Reaped(status), now);
            &&& action == DaemonActionView::StartGreeter
            &&& restarting.next(DaemonEventView::Started(greeter), now).0 == (Daemon {
                greeter,
                pending: PendingState::nothing(),
                phase: Phase::Reaping,
            })
        }),
{
}

/// The end of any other child changes nothing.
pub proof fn other_children_do_not_matter(daemon: Daemon, status: WaitStatus, now: u64)
    requires
        daemon.phase == Phase::Reaping,
        status.ended() matches Some((pid, _)) && pid != daemon.greeter.worker_pid,
    ensures
        daemon.next(DaemonEventView::Reaped(status), now) == (daemon, DaemonActionView::Reap),
{
}

/// Signals go to the process that is watched over and to no other; outside a
/// shutdown, only when one is due.
pub proof fn signals_go_to_the_greeter(daemon: Daemon, event: DaemonEventView, now: u64)
    ensures
        daemon.next(event, now).1 matches DaemonActionView::Kill { pid, signal } ==> {
            &&& pid == daemon.greeter.worker_pid
            &&& daemon.phase == Phase::Reaping ==> daemon.pending.due(now) == Some(signal)
            &&& daemon.phase != Phase::Reaping ==> daemon.next(event, now).0.is_shutting_down()
        },
{
}

/// A session that waits is not lost: it takes the greeter's place, or is told
/// to end at shutdown, unless a served connection leaves another one waiting.
pub proof fn waiting_session_is_not_lost(
    daemon: Daemon,
    event: DaemonEventView,
    session: Session,
    now: u64,
)
    requires
        daemon.pending.session == Some(session),
        !(event is Served),
    ensures
        ({
            let (after, action) = daemon.next(event, now);
            ||| after.pending.session == Some(session) && after.pending.since == Some(
                daemon.pending.start(now),
            )
            ||| after.pending == daemon.pending
            ||| after.greeter == session
            ||| action == (DaemonActionView::Cancel { session })
        }),
{
}

/// A connection, however it ended, does not stop the loop.
pub proof fn connections_do_not_stop_the_daemon(daemon: Daemon, pending: PendingState, now: u64)
    requires
        daemon.phase == Phase::Serving,
    ensures
        daemon.next(DaemonEventView::Served(pending), now) == (
            Daemon { greeter: daemon.greeter, pending, phase: Phase::Resting },
            DaemonActionView::Sleep { millis: 100 },
        ),
{
}

/// A shutdown tells the waiting session to end, asks the greeter to leave,
/// gives it half a second, kills it and removes the socket, in this order and
/// whether or not a step succeeds.
pub proof fn shutdown_keeps_its_order(
    daemon: Daemon,
    outcomes: Seq<DaemonEventView>,
    times: Seq<u64>,
)
    requires
        daemon.phase == Phase::Polling,
        outcomes.len() == 5,
        times.len() == 6,
        forall|i: int| 0 <= i < 5 ==> (#[trigger] outcomes[i]).is_over(),
    ensures
        ({
            let pid = daemon.greeter.worker_pid;
            let first = daemon.next(DaemonEventView::Terminate(true), times[0]);
            let asking = match daemon.pending.session {
                Some(session) => first.0.next(outcomes[0], times[1]),
                None => first,
            };
            let waiting = asking.0.next(outcomes[1], times[2]);
            let killing = waiting.0.next(outcomes[2], times[3]);
            let cleaning = killing.0.next(outcomes[3], times[4]);
            let stopping = cleaning.0.next(outcomes[4], times[5]);
            &&& daemon.pending.session matches Some(session) ==> first.1 == (
            DaemonActionView::Cancel { session })
            &&& asking.1 == (DaemonActionView::Kill { pid, signal: Signal::Term })
            &&& waiting.1 == (DaemonActionView::Sleep { millis: 500 })
            &&& killing.1 == (DaemonActionView::Kill { pid, signal: Signal::Kill })
            &&& cleaning.1 == DaemonActionView::RemoveSocket
            &&& stopping.1 == DaemonActionView::Finish(Ok::<(), ErrorView>(()))
            &&& stopping.0 == (Daemon {
                greeter: daemon.greeter,
                pending: PendingState::nothing(),
                phase: Phase::Stopped,
            })
        }),
{
    assert(outcomes[0].is_over() && outcomes[1].is_over() && outcomes[2].is_over()
        && outcomes[3].is_over() && outcomes[4].is_over());
}

impl Daemon {
    /// Whether a shutdown is under way.
    pub open spec fn is_shutting_down(self) -> bool {
        self.phase == Phase::Cancelling || self.phase == Phase::Terminating || self.phase
            == Phase::Waiting || self.phase == Phase::Killing || self.phase == Phase::Cleaning
    }
}

/// Whether the daemon was told to shut down.
pub open spec fn told_to_terminate(events: Seq<(DaemonEventView, u64)>) -> bool {
    exists|i: int| 0 <= i < events.len() && (#[trigger] events[i]).0
        == DaemonEventView::Terminate(true)
}

/// Whether an action failed.
pub open spec fn something_failed(events: Seq<(DaemonEventView, u64)>) -> bool {
    exists|i: int| 0 <= i < events.len() && (#[trigger] events[i]).0 is Failed
}

/// The loop shuts down only when told to, and stops only then or on a failure.
pub proof fn runs_until_told(greeter: Session, events: Seq<(DaemonEventView, u64)>)
    ensures
        run(greeter, events).is_shutting_down() ==> told_to_terminate(events),
        run(greeter, events).phase == Phase::Stopped ==> told_to_terminate(events)
            || something_failed(events),
    decreases events.len(),
{
    if events.len() > 0 {
        let earlier = events.drop_last();
        let n = events.len() - 1;
        runs_until_told(greeter, earlier);
        if told_to_terminate(earlier) {
            let i = choose|i: int|
                0 <= i < earlier.len() && (#[trigger] earlier[i]).0 == DaemonEventView::Terminate(
                    true,
                );
            assert(events[i].0 == DaemonEventView::Terminate(true));
        }
        if something_failed(earlier) {
            let i = choose|i: int| 0 <= i < earlier.len() && (#[trigger] earlier[i]).0 is Failed;
            assert(events[i].0 is Failed);
        }
        assert(events[n] == events.last());
    }
}

/// A shutdown that has begun is not undone: after the daemon was told to shut
/// down, every later state is one of the shutdown or the end of it.
pub proof fn shutdown_is_not_undone(
    greeter: Session,
    events: Seq<(DaemonEventView, u64)>,
    i: int,
    j: int,
)
    requires
        0 <= i < j <= events.len(),
        run(greeter, events.take(i)).phase == Phase::Polling,
        events[i].0 == DaemonEventView::Terminate(true),
    ensures
        run(greeter, events.take(j)).is_shutting_down() || run(greeter, events.take(j)).phase
            == Phase::Stopped,
    decreases j - i,
{
    assert(events.take(j).drop_last() =~= events.take(j - 1));
    assert(events.take(j).last() == events[j - 1]);
    if i + 1 < j {
        shutdown_is_not_undone(greeter, events, i, j - 1);
    }
}

/// What waits for the greeter stays well-formed as long as served connections
/// leave it so.
pub proof fn pending_stays_well_formed(greeter: Session, events: Seq<(DaemonEventView, u64)>)
    requires
        forall|i: int|
            0 <= i < events.len() ==> ((#[trigger] events[i]).0 matches DaemonEventView::Served(
                pending,
            ) ==> pending.wf()),
    ensures
        run(greeter, events).pending.wf(),
    decreases events.len(),
{
    if events.len() > 0 {
        let earlier = events.drop_last();
        assert forall|i: int| 0 <= i < earlier.len() implies ((
        #[trigger] earlier[i]).0 matches DaemonEventView::Served(pending) ==> pending.wf()) by {
            assert(earlier[i] == events[i]);
        }
        pending_stays_well_formed(greeter, earlier);
        assert(events[events.len() - 1] == events.last());
    }
}

/// The loop starts with the greeter that it is given and no session that waits,
/// and first finds out whether to shut down.
pub proof fn loop_starts_with_its_greeter(greeter: Session)
    ensures
        run(greeter, Seq::empty()) == (Daemon {
            greeter,
            pending: PendingState { session: None, since: None, sent_term: false },
            phase: Phase::Polling,
        }),
{
}

/// The course of a round, whoever is watched over and whatever waits: children
/// that have ended come first, then a signal that is due, then a connection, and
/// then the loop rests for a tenth of a second and begins again. Whether the
/// signal could be sent, or the rest was cut short, does not matter.
pub proof fn course_of_a_round(
    greeter: Session,
    pending: PendingState,
    left: PendingState,
    status: WaitStatus,
    error: ErrorView,
    now: u64,
)
    ensures
        ({
            let at = |phase: Phase| Daemon { greeter, pending, phase };
            let done = DaemonEventView::Done;
            let failed = DaemonEventView::Failed(error);
            let accepting = (at(Phase::Accepting), DaemonActionView::Accept);
            let again = (at(Phase::Polling), DaemonActionView::CheckTerminate);
            &&& at(Phase::Polling).next(DaemonEventView::Terminate(false), now) == (
                at(Phase::Reaping),
                DaemonActionView::Reap,
            )
            &&& status.ended() is None ==> {
                let (after, action) = at(Phase::Reaping).next(DaemonEventView::Reaped(status), now);
                &&& after.greeter == greeter
                &&& after.pending == pending.enforced(now)
                &&& pending.due(now) is None ==> {
                    &&& after.phase == Phase::Accepting
                    &&& action == DaemonActionView::Accept
                }
                &&& pending.due(now) matches Some(signal) ==> {
                    &&& after.phase == Phase::Signalling
                    &&& action == (DaemonActionView::Kill { pid: greeter.worker_pid, signal })
                }
            }
            &&& at(Phase::Signalling).next(done, now) == accepting
            &&& at(Phase::Signalling).next(failed, now) == accepting
            &&& at(Phase::Accepting).next(DaemonEventView::Accepted(true), now) == (
                at(Phase::Serving),
                DaemonActionView::Serve,
            )
            &&& at(Phase::Accepting).next(DaemonEventView::Accepted(false), now) == (
                at(Phase::Resting),
                DaemonActionView::Sleep { millis: 100 },
            )
            &&& at(Phase::Serving).next(DaemonEventView::Served(left), now) == (
                Daemon { greeter, pending: left, phase: Phase::Resting },
                DaemonActionView::Sleep { millis: 100 },
            )
            &&& at(Phase::Resting).next(done, now) == again
            &&& at(Phase::Resting).next(failed, now) == again
        }),
{
}

/// What the end of a child leads to, whoever is watched over: if it was not the
/// process that is watched over, nothing; else the waiting session is watched
/// over from then on, or else a new greeter is started and watched over. Nothing
/// waits after that.
pub proof fn course_of_a_succession(
    greeter: Session,
    pending: PendingState,
    waiting: Session,
    started: Session,
    status: WaitStatus,
    error: ErrorView,
    now: u64,
)
    ensures
        ({
            let daemon = Daemon { greeter, pending, phase: Phase::Reaping };
            let nothing = PendingState { session: None, since: None, sent_term: false };
            let reaped = DaemonEventView::Reaped(status);
            let ended = status.ended() matches Some((pid, _)) && pid == greeter.worker_pid;
            let restarting = Daemon { greeter, pending, phase: Phase::Restarting };
            &&& status.ended() is Some && !ended ==> daemon.next(reaped, now) == (
                daemon,
                DaemonActionView::Reap,
            )
            &&& ended && pending.session == Some(waiting) ==> daemon.next(reaped, now) == (
                Daemon { greeter: waiting, pending: nothing, phase: Phase::Reaping },
                DaemonActionView::Reap,
            )
            &&& ended && pending.session is None ==> daemon.next(reaped, now) == (
                Daemon { greeter, pending: nothing, phase: Phase::Restarting },
                DaemonActionView::StartGreeter,
            )
            &&& restarting.next(DaemonEventView::Started(started), now) == (
                Daemon { greeter: started, pending, phase: Phase::Reaping },
                DaemonActionView::Reap,
            )
            &&& restarting.next(DaemonEventView::Failed(error), now) == (
                Daemon { greeter, pending, phase: Phase::Stopped },
                DaemonActionView::Finish(Err::<(), ErrorView>(error)),
            )
        }),
{
}

/// Connections that cannot be accepted end the loop with the failure.
pub proof fn failure_to_accept_ends_the_loop(
    greeter: Session,
    pending: PendingState,
    error: ErrorView,
    now: u64,
)
    ensures
        (Daemon { greeter, pending, phase: Phase::Accepting }).next(
            DaemonEventView::Failed(error),
            now,
        ) == (
            Daemon { greeter, pending, phase: Phase::Stopped },
            DaemonActionView::Finish(Err::<(), ErrorView>(error)),
        ),
{
}

/// The course of a shutdown, whoever is watched over: the waiting session is
/// told to end and waits no longer, the process that is watched over is asked to
/// leave, has half a second, is killed, and the socket is removed. Whether a step
/// succeeds does not matter.
pub proof fn course_of_a_shutdown(
    greeter: Session,
    pending: PendingState,
    waiting: Session,
    event: DaemonEventView,
    now: u64,
)
    requires
        event is Done || event is Failed,
    ensures
        ({
            let at = |phase: Phase| Daemon { greeter, pending, phase };
            let pid = greeter.worker_pid;
            let nothing = PendingState { session: None, since: None, sent_term: false };
            let shut = DaemonEventView::Terminate(true);
            let cancels = (
                Daemon { greeter, pending: nothing, phase: Phase::Cancelling },
                DaemonActionView::Cancel { session: waiting },
            );
            let asks = (
                Daemon { greeter, pending: nothing, phase: Phase::Terminating },
                DaemonActionView::Kill { pid, signal: Signal::Term },
            );
            &&& pending.session == Some(waiting) ==> at(Phase::Polling).next(shut, now) == cancels
            &&& pending.session == Some(waiting) ==> at(Phase::Polling).shutting_down() == cancels
            &&& pending.session is None ==> at(Phase::Polling).next(shut, now) == asks
            &&& pending.session is None ==> at(Phase::Polling).shutting_down() == asks
            &&& at(Phase::Cancelling).next(event, now) == (
                at(Phase::Terminating),
                DaemonActionView::Kill { pid, signal: Signal::Term },
            )
            &&& at(Phase::Terminating).next(event, now) == (
                at(Phase::Waiting),
                DaemonActionView::Sleep { millis: 500 },
            )
            &&& at(Phase::Waiting).next(event, now) == (
                at(Phase::Killing),
                DaemonActionView::Kill { pid, signal: Signal::Kill },
            )
            &&& at(Phase::Killing).next(event, now) == (
                at(Phase::Cleaning),
                DaemonActionView::RemoveSocket,
            )
            &&& at(Phase::Cleaning).next(event, now) == (
                at(Phase::Stopped),
                DaemonActionView::Finish(Ok::<(), ErrorView>(())),
            )
        }),
{
}

impl Phase {
    /// Whether such a report is waited for.
    pub open spec fn awaits(self, event: DaemonEventView) -> bool {
        match event {
            DaemonEventView::Terminate(_) => self == Phase::Polling,
            DaemonEventView::Reaped(_) => self == Phase::Reaping,
            DaemonEventView::Started(_) => self == Phase::Restarting,
            DaemonEventView::Accepted(_) => self == Phase::Accepting,
            DaemonEventView::Served(_) => self == Phase::Serving,
            DaemonEventView::Done => {
                self == Phase::Signalling || self == Phase::Resting || self == Phase::Cancelling
                    || self == Phase::Terminating || self == Phase::Waiting || self
                    == Phase::Killing || self == Phase::Cleaning
            },
            DaemonEventView::Failed(_) => {
                self != Phase::Polling && self != Phase::Reaping && self != Phase::Serving && self
                    != Phase::Stopped
            },
        }
    }
}

/// A report that is not awaited changes nothing.
pub proof fn unawaited_reports_do_not_matter_to_the_loop(
    daemon: Daemon,
    event: DaemonEventView,
    now: u64,
)
    requires
        !daemon.phase.awaits(event),
    ensures
        daemon.next(event, now) == (daemon, DaemonActionView::Nothing),
{
}

/// What the end of a child leads to does not depend on how it is reported.
pub proof fn children_are_reaped_alike(daemon: Daemon, status: WaitStatus, now: u64)
    requires
        daemon.phase == Phase::Reaping,
    ensures
        daemon.after_reaping(status, now) == daemon.next(DaemonEventView::Reaped(status), now),
{
}

/// Actions and reports keep what they hold.
pub proof fn daemon_actions_are_kept(
    pid: i32,
    signal: Signal,
    millis: u64,
    session: Session,
    result: Result<(), Error>,
    status: WaitStatus,
    pending: PendingState,
    flag: bool,
    error: Error,
)
    ensures
        DaemonAction::CheckTerminate@ == DaemonActionView::CheckTerminate,
        DaemonAction::Reap@ == DaemonActionView::Reap,
        DaemonAction::StartGreeter@ == DaemonActionView::StartGreeter,
        (DaemonAction::Kill { pid, signal })@ == (DaemonActionView::Kill { pid, signal }),
        DaemonAction::Accept@ == DaemonActionView::Accept,
        DaemonAction::Serve@ == DaemonActionView::Serve,
        (DaemonAction::Sleep { millis })@ == (DaemonActionView::Sleep { millis }),
        (DaemonAction::Cancel { session })@ == (DaemonActionView::Cancel { session }),
        DaemonAction::RemoveSocket@ == DaemonActionView::RemoveSocket,
        DaemonAction::Finish(result)@ == DaemonActionView::Finish(error::outcome(result)),
        DaemonAction::Nothing@ == DaemonActionView::Nothing,
        DaemonEvent::Terminate(flag)@ == DaemonEventView::Terminate(flag),
        DaemonEvent::Reaped(status)@ == DaemonEventView::Reaped(status),
        DaemonEvent::Started(session)@ == DaemonEventView::Started(session),
        DaemonEvent::Accepted(flag)@ == DaemonEventView::Accepted(flag),
        DaemonEvent::Served(pending)@ == DaemonEventView::Served(pending),
        DaemonEvent::Done@ == DaemonEventView::Done,
        DaemonEvent::Failed(error)@ == DaemonEventView::Failed(error@),
{
}

} // verus!
