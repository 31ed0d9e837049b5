//! The signals that the daemon provides for, and its note of having been asked
//! to leave.

use vstd::prelude::*;

use crate::daemon::{Daemon, DaemonActionView, DaemonEventView, Phase};
use crate::pending::PendingState;
use crate::session::{Session, WaitStatus};

verus! {

/// The signals that the daemon provides for.
#[derive(Debug, Clone, Copy, PartialEq, Eq, Structural)]
pub enum HandledSignal {
    Child,
    Terminate,
    Interrupt,
}

/// What is to happen on a signal.
#[derive(Debug, Clone, Copy, PartialEq, Eq, Structural)]
pub enum Disposition {
    /// The signal has no effect, and children that have ended are kept until
    /// they are polled for. This is what the system does by default when a
    /// child ends.
    Ignore,
    /// The signal has no effect, and the system forgets children that have
    /// ended: polling does not find them. This is what the system does when it
    /// is told to ignore the end of a child.
    Discard,
    /// The daemon notes that it is to shut down.
    ShutDown,
}

impl Disposition {
    /// Whether children that have ended are kept until they are polled for.
    pub open spec fn keeps_ended_children(self) -> bool {
        !(self is Discard)
    }
}

impl HandledSignal {
    /// What is to happen on the signal. The end of a child is polled for, and so
    /// it must be kept; being asked to leave begins a shutdown.
    pub open spec fn disposition(self) -> Disposition {
        match self {
            HandledSignal::Child => Disposition::Ignore,
            HandledSignal::Terminate => Disposition::ShutDown,
            HandledSignal::Interrupt => Disposition::ShutDown,
        }
    }

    /// Decides what is to happen on the signal.
    pub fn handling(self) -> (r: Disposition)
        ensures
            r == self.disposition(),
    {
        match self {
            HandledSignal::Child => Disposition::Ignore,
            HandledSignal::Terminate => Disposition::ShutDown,
            HandledSignal::Interrupt => Disposition::ShutDown,
        }
    }
}

/// What polling finds of a child that has ended.
pub open spec fn polled(on_child: Disposition, ended: WaitStatus) -> WaitStatus {
    if on_child.keeps_ended_children() {
        ended
    } else {
        WaitStatus::Other
    }
}

/// Whether the daemon has been asked to leave.
#[derive(Debug, Clone, Copy, PartialEq, Eq, Structural)]
pub struct Termination {
    pub requested: bool,
}

impl Termination {
    /// The note after a signal.
    pub open spec fn after(self, signal: HandledSignal) -> Termination {
        Termination { requested: self.requested || signal.disposition() is ShutDown }
    }

    /// Whether a shutdown is due.
    pub open spec fn is_due(self) -> bool {
        self.requested
    }

    /// Takes note of a signal.
    pub fn handle_terminate(&mut self, signal: HandledSignal)
        ensures
            *final(self) == old(self).after(signal),
    {
        match signal.handling() {
            Disposition::ShutDown => {
                self.requested = true;
            },
            _ => {},
        }
    }

    /// Whether the daemon is to shut down.
    pub fn should_terminate(&self) -> (r: bool)
        ensures
            r == self.requested,
            r == self.is_due(),
    {
        self.requested
    }
}

/// The note after a sequence of signals, none having been taken at first.
pub open spec fn noted(signals: Seq<HandledSignal>) -> Termination
    decreases signals.len(),
{
    if signals.len() == 0 {
        Termination { requested: false }
    } else {
        noted(signals.drop_last()).after(signals.last())
    }
}

/// The daemon is to shut down exactly when it was asked to leave, by either of
/// the two signals.
pub proof fn either_signal_is_enough(signals: Seq<HandledSignal>)
    ensures
        noted(signals).requested <==> signals.contains(HandledSignal::Terminate)
            || signals.contains(HandledSignal::Interrupt),
    decreases signals.len(),
{
    if signals.len() > 0 {
        let earlier = signals.drop_last();
        either_signal_is_enough(earlier);
        assert(signals =~= earlier.push(signals.last()));
        assert(signals[signals.len() - 1] == signals.last());
        assert forall|signal: HandledSignal| #[trigger] earlier.contains(signal) implies
            signals.contains(signal) by {
            let i = choose|i: int| 0 <= i < earlier.len() && earlier[i] == signal;
            assert(signals[i] == signal);
        }
        assert forall|signal: HandledSignal| #[trigger] signals.contains(signal) implies
            earlier.contains(signal) || signal == signals.last() by {
            let i = choose|i: int| 0 <= i < signals.len() && signals[i] == signal;
            if i < earlier.len() {
                assert(earlier[i] == signal);
            }
        }
    }
}

/// Once the daemon has been asked to leave, it is to shut down at every later
/// time, whatever signals come.
pub proof fn request_to_leave_stays(signals: Seq<HandledSignal>, more: Seq<HandledSignal>)
    requires
        noted(signals).requested,
    ensures
        noted(signals + more).requested,
    decreases more.len(),
{
    if more.len() == 0 {
        assert(signals + more =~= signals);
    } else {
        request_to_leave_stays(signals, more.drop_last());
        assert((signals + more).drop_last() =~= signals + more.drop_last());
    }
}

/// With what is to happen when a child ends, polling finds an ended greeter, or
/// the ended session that took its place, and a new greeter is started and
/// watched over.
pub proof fn ended_greeter_is_found_and_replaced(
    daemon: Daemon,
    ended: WaitStatus,
    greeter: Session,
    now: u64,
)
    requires
        daemon.phase == Phase::Reaping,
        ended.ended() matches Some((pid, _)) && pid == daemon.greeter.worker_pid,
        daemon.pending.session is None,
    ensures
        ({
            let report = DaemonEventView::Reaped(
                polled(HandledSignal::Child.disposition(), ended),
            );
            let (restarting, action) = daemon.next(report, now);
            &&& action == DaemonActionView::StartGreeter
            &&& restarting.next(DaemonEventView::Started(greeter), now).0 == (Daemon {
                greeter,
                pending: PendingState::nothing(),
                phase: Phase::Reaping,
            })
        }),
{
}

/// What is to happen on each of the three signals.
pub proof fn each_signal_has_its_effect(before: Termination)
    ensures
        HandledSignal::Child.disposition().keeps_ended_children(),
        HandledSignal::Child.disposition() == Disposition::Ignore,
        HandledSignal::Terminate.disposition() == Disposition::ShutDown,
        HandledSignal::Interrupt.disposition() == Disposition::ShutDown,
        before.after(HandledSignal::Child) == before,
        before.after(HandledSignal::Terminate).requested,
        before.after(HandledSignal::Interrupt).requested,
        !Disposition::Discard.keeps_ended_children(),
        before.after(HandledSignal::Child).is_due() == before.is_due(),
        before.after(HandledSignal::Terminate).is_due(),
        before.after(HandledSignal::Interrupt).is_due(),
        !noted(Seq::empty()).is_due(),
{
}

} // verus!
