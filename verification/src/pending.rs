//! The session that waits for the greeter to leave.

use vstd::prelude::*;

use crate::session::Session;

verus! {

/// How long, in nanoseconds, a greeter may take to leave before it is asked to.
pub const TERM_AFTER: u64 = 5_000_000_000;

/// How long, in nanoseconds, a greeter may take to leave before it is killed.
pub const KILL_AFTER: u64 = 10_000_000_000;

/// The signals that the daemon sends.
#[derive(Debug, Clone, Copy, PartialEq, Eq, Structural)]
pub enum Signal {
    Term,
    Kill,
}

/// The session that takes the greeter's place once the greeter has left, since
/// when it waits (in nanoseconds of a clock that never runs backwards), and
/// whether the greeter has been asked to leave.
#[derive(Debug, Clone, Copy, PartialEq, Eq, Structural)]
pub struct PendingState {
    pub session: Option<Session>,
    pub since: Option<u64>,
    pub sent_term: bool,
}

impl PendingState {
    /// Nothing waits.
    pub open spec fn nothing() -> PendingState {
        PendingState { session: None, since: None, sent_term: false }
    }

    /// Nothing waits, or a session waits since a known time.
    pub open spec fn wf(self) -> bool {
        if self.session is Some {
            self.since is Some
        } else {
            self == Self::nothing()
        }
    }

    /// Since when the session waits, a session without a time waiting from
    /// `now` on.
    pub open spec fn start(self, now: u64) -> u64 {
        match self.since {
            Some(since) => since,
            None => now,
        }
    }

    /// How long the session has waited.
    pub open spec fn waited(self, now: u64) -> int {
        let start = self.start(now);
        if now < start {
            0
        } else {
            now - start
        }
    }

    /// The signal that is due to the greeter.
    pub open spec fn due(self, now: u64) -> Option<Signal> {
        if self.session is None {
            None
        } else if self.waited(now) > KILL_AFTER {
            Some(Signal::Kill)
        } else if self.waited(now) > TERM_AFTER && !self.sent_term {
            Some(Signal::Term)
        } else {
            None
        }
    }

    /// The state after the due signal was sent.
    pub open spec fn enforced(self, now: u64) -> PendingState {
        if self.session is None {
            self
        } else {
            PendingState {
                session: self.session,
                since: Some(self.start(now)),
                sent_term: self.sent_term || self.due(now) == Some(Signal::Term),
            }
        }
    }

    /// The state after `session` was queued.
    pub open spec fn queued(session: Session, now: u64) -> PendingState {
        PendingState { session: Some(session), since: Some(now), sent_term: false }
    }

    /// Lets `session` wait for the greeter to leave.
    pub fn queue(&mut self, session: Session, now: u64)
        ensures
            *final(self) == Self::queued(session, now),
            final(self).wf(),
    {
        self.session = Some(session);
        self.since = Some(now);
        self.sent_term = false;
    }

    /// Takes out the session that takes the greeter's place, if one waits.
    pub fn promote(&mut self) -> (r: Option<Session>)
        ensures
            r == old(self).session,
            *final(self) == Self::nothing(),
            final(self).wf(),
    {
        let session = self.session.take();
        self.since = None;
        self.sent_term = false;
        session
    }

    /// Decides which signal to send to a greeter that does not leave.
    pub fn enforce_timeout(&mut self, now: u64) -> (r: Option<Signal>)
        ensures
            r == old(self).due(now),
            *final(self) == old(self).enforced(now),
            old(self).wf() ==> final(self).wf(),
    {
        if self.session.is_none() {
            return None;
        }
        let since: u64 = match self.since {
            Some(since) => since,
            None => now,
        };
        self.since = Some(since);
        let elapsed: u64 = if now < since {
            0
        } else {
            now - since
        };
        if elapsed > KILL_AFTER {
            return Some(Signal::Kill);
        }
        if elapsed > TERM_AFTER && !self.sent_term {
            self.sent_term = true;
            return Some(Signal::Term);
        }
        None
    }

    /// Takes out the session that is to be told to end, if one waits.
    pub fn cancel_pending(&mut self) -> (r: Option<Session>)
        ensures
            r == old(self).session,
            *final(self) == Self::nothing(),
            final(self).wf(),
    {
        let session = self.session.take();
        self.since = None;
        self.sent_term = false;
        session
    }
}

impl Default for PendingState {
    fn default() -> (r: Self)
        ensures
            r == PendingState::nothing(),
            r.wf(),
    {
        PendingState { session: None, since: None, sent_term: false }
    }
}

/// The states that a sequence of checks of the clock leads through.
pub open spec fn checked(state: PendingState, times: Seq<u64>) -> PendingState
    decreases times.len(),
{
    if times.len() == 0 {
        state
    } else {
        checked(state, times.drop_last()).enforced(times.last())
    }
}

/// A greeter is sent no signal while nothing waits for it to leave.
pub proof fn no_signal_without_session(state: PendingState, now: u64)
    requires
        state.session is None,
    ensures
        state.due(now) is None,
        state.enforced(now) == state,
{
}

/// After a session was queued, however often the clock is checked: up to five
/// seconds later no signal is due, up to ten seconds later no kill, and after
/// ten seconds always a kill.
pub proof fn signals_keep_to_the_clock(
    session: Session,
    queued_at: u64,
    times: Seq<u64>,
    now: u64,
)
    requires
        queued_at <= now,
    ensures
        ({
            let state = checked(PendingState::queued(session, queued_at), times);
            &&& state.session == Some(session)
            &&& state.since == Some(queued_at)
            &&& now - queued_at <= 5_000_000_000 ==> state.due(now) is None
            &&& now - queued_at <= 10_000_000_000 ==> state.due(now) != Some(Signal::Kill)
            &&& now - queued_at > 10_000_000_000 ==> state.due(now) == Some(Signal::Kill)
        }),
    decreases times.len(),
{
    if times.len() > 0 {
        signals_keep_to_the_clock(session, queued_at, times.drop_last(), now);
    }
}

/// While a session waits, its greeter is asked to leave at the first check
/// between five and ten seconds, and at no later check.
pub proof fn greeter_is_asked_to_leave_once(
    session: Session,
    queued_at: u64,
    times: Seq<u64>,
    now: u64,
)
    requires
        queued_at <= now,
        5_000_000_000 < now - queued_at <= 10_000_000_000,
    ensures
        (checked(PendingState::queued(session, queued_at), times).due(now) == Some(Signal::Term))
            <==> (forall|i: int| #![trigger times[i]]
            0 <= i < times.len() ==> !(5_000_000_000 < times[i] - queued_at <= 10_000_000_000)),
{
    lemma_sent_term(session, queued_at, times);
    signals_keep_to_the_clock(session, queued_at, times, now);
}

proof fn lemma_sent_term(session: Session, queued_at: u64, times: Seq<u64>)
    ensures
        checked(PendingState::queued(session, queued_at), times).sent_term <==> exists|i: int|
            #![trigger times[i]]
            0 <= i < times.len() && 5_000_000_000 < times[i] - queued_at <= 10_000_000_000,
    decreases times.len(),
{
    if times.len() > 0 {
        let earlier = times.drop_last();
        lemma_sent_term(session, queued_at, earlier);
        signals_keep_to_the_clock(session, queued_at, earlier, queued_at);
        let before = checked(PendingState::queued(session, queued_at), earlier);
        if before.sent_term {
            let i = choose|i: int|
                #![trigger earlier[i]]
                0 <= i < earlier.len() && 5_000_000_000 < earlier[i] - queued_at <= 10_000_000_000;
            assert(times[i] == earlier[i]);
        } else {
            assert forall|i: int| 0 <= i < earlier.len() implies !(5_000_000_000 < #[trigger] times[i]
                - queued_at <= 10_000_000_000) by {
                assert(times[i] == earlier[i]);
            }
            assert(times.last() == times[times.len() - 1]);
        }
    }
}

/// A queued session is the one that takes the greeter's place, however often
/// the clock is checked in between.
pub proof fn queued_session_is_promoted(session: Session, queued_at: u64, times: Seq<u64>)
    ensures
        checked(PendingState::queued(session, queued_at), times).session == Some(session),
{
    signals_keep_to_the_clock(session, queued_at, times, queued_at);
}

/// A queued session waits from the time at which it was queued, and its greeter
/// has not been asked to leave; and nothing waits where nothing was queued.
pub proof fn queue_holds_what_was_queued(session: Session, now: u64)
    ensures
        PendingState::queued(session, now).session == Some(session),
        PendingState::queued(session, now).since == Some(now),
        !PendingState::queued(session, now).sent_term,
        PendingState::nothing().session is None,
        PendingState::nothing().since is None,
        !PendingState::nothing().sent_term,
{
}

/// Which signal is due goes by how long the session has waited, to the
/// nanosecond: none up to five seconds, the request to leave up to ten seconds
/// unless it was made before, and from then on the kill, however often.
pub proof fn due_signal_goes_by_the_clock(state: PendingState, since: u64, now: u64)
    requires
        state.session is Some,
        state.since == Some(since),
    ensures
        state.due(now) == Some(Signal::Kill) <==> now - since > 10_000_000_000,
        state.due(now) == Some(Signal::Term) <==> 5_000_000_000 < now - since <= 10_000_000_000
            && !state.sent_term,
{
}

/// Checking the clock keeps the session and since when it waits, counts a wait
/// of unknown length from now on, and notes the request to leave exactly when it
/// is made.
pub proof fn checking_the_clock_keeps_the_session(state: PendingState, now: u64)
    ensures
        state.enforced(now).session == state.session,
        state.since is Some ==> state.enforced(now).since == state.since,
        state.session is Some && state.since is None ==> {
            &&& state.enforced(now).since == Some(now)
            &&& state.due(now) is None
        },
        state.session is Some ==> (state.enforced(now).sent_term <==> state.sent_term || state.due(
            now,
        ) == Some(Signal::Term)),
{
}

} // verus!
