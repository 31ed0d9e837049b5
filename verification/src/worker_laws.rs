//! What holds of every run of a worker, whatever is reported to it.

use vstd::prelude::*;

use crate::error;
use crate::error::ErrorView;
use crate::session::{ForkResult, SessionClass, WorkerRequestView, WorkerResponseView};
use crate::worker::{JobView, PlanView, WorkerActionView, WorkerEventView, WorkerView};

verus! {

/// The state that a report brings a worker to.
#[verifier::opaque]
pub open spec fn moved(worker: WorkerView, event: WorkerEventView) -> WorkerView {
    worker.next(event).0
}

/// The action that a worker asks for upon a report.
#[verifier::opaque]
pub open spec fn asked(worker: WorkerView, event: WorkerEventView) -> WorkerActionView {
    worker.next(event).1
}

/// The state of a worker after a sequence of reports.
pub open spec fn run(events: Seq<WorkerEventView>) -> WorkerView
    decreases events.len(),
{
    if events.len() == 0 {
        WorkerView::Fresh
    } else {
        moved(run(events.drop_last()), events.last())
    }
}

/// The action that a worker asks for after a sequence of reports.
pub open spec fn action_after(events: Seq<WorkerEventView>) -> WorkerActionView {
    if events.len() == 0 {
        WorkerActionView::Receive
    } else {
        asked(run(events.drop_last()), events.last())
    }
}

impl WorkerView {
    /// The job, as long as the worker goes by it.
    pub open spec fn job(self) -> Option<JobView> {
        match self {
            WorkerView::StartingPam { job } => Some(job),
            WorkerView::Prompting { job } => Some(job),
            WorkerView::AwaitingAnswer { job } => Some(job),
            WorkerView::Authenticating { job, .. } => Some(job),
            WorkerView::Unlocking { job } => Some(job),
            WorkerView::Announcing { job } => Some(job),
            WorkerView::AwaitingStart { job } => Some(job),
            WorkerView::Opening { job, .. } => Some(job),
            WorkerView::LookingUp { job, .. } => Some(job),
            _ => match self.plan() {
                Some(plan) => Some(plan.job),
                None => None,
            },
        }
    }

    /// The plan, as long as the worker goes by it.
    pub open spec fn plan(self) -> Option<PlanView> {
        match self {
            WorkerView::Leading { plan } => Some(plan),
            WorkerView::OpeningTerminal { plan } => Some(plan),
            WorkerView::SettingTextMode { plan } => Some(plan),
            WorkerView::Activating { plan } => Some(plan),
            WorkerView::Forking { plan, .. } => Some(plan),
            WorkerView::JoiningGroups { plan, .. } => Some(plan),
            WorkerView::SettingGid { plan, .. } => Some(plan),
            WorkerView::SettingUid { plan, .. } => Some(plan),
            WorkerView::GoingHome { plan, .. } => Some(plan),
            _ => None,
        }
    }

    /// Whether the worker is past authentication and has not left.
    pub open spec fn is_past_authentication(self) -> bool {
        !(self is Fresh || self is StartingPam || self is Prompting || self is AwaitingAnswer
            || self is Authenticating || self is Ended)
    }

    /// Whether this is the worker itself, after it forked off the session's
    /// process.
    pub open spec fn is_watching(self) -> bool {
        self is Reporting || self is Waiting || self is Closing || self is Ended
    }
}

impl WorkerActionView {
    /// Whether the action announces, opens or starts a session.
    pub open spec fn needs_authentication(self) -> bool {
        ||| self is OpenSession
        ||| self is Fork
        ||| self is Exec
        ||| self == WorkerActionView::Send(WorkerResponseView::Ready)
        ||| self matches WorkerActionView::Send(WorkerResponseView::Started { .. })
    }

    /// Whether the action gives up privileges or runs the session's command.
    pub open spec fn is_for_the_session_process(self) -> bool {
        self is InitGroups || self is SetGid || self is SetUid || self is ChangeDirectory
            || self is Exec
    }
}

/// Whether the report at position `i` says that PAM has authenticated the user
/// of `job`.
pub open spec fn authenticated_at(events: Seq<WorkerEventView>, job: JobView, i: int) -> bool {
    &&& 0 <= i < events.len()
    &&& run(events.take(i)) matches WorkerView::Authenticating { job: checked, .. } && checked
        == job
    &&& events[i] is Done
}

/// Whether PAM has authenticated the user of `job`.
pub open spec fn authenticated(events: Seq<WorkerEventView>, job: JobView) -> bool {
    exists|i: int| authenticated_at(events, job, i)
}

proof fn lemma_authentication_step(worker: WorkerView, event: WorkerEventView)
    ensures
        moved(worker, event).is_past_authentication() ==> {
            ||| worker.is_past_authentication() && (moved(worker, event).job() is Some
                ==> worker.job() == moved(worker, event).job())
            ||| worker is Authenticating && event is Done && worker.job() == moved(
                worker,
                event,
            ).job()
        },
        asked(worker, event).needs_authentication() ==> worker.is_past_authentication() || moved(
            worker,
            event,
        ).is_past_authentication(),
{
    reveal(moved);
    reveal(asked);
}

proof fn lemma_authenticated_stays(events: Seq<WorkerEventView>, job: JobView)
    requires
        events.len() > 0,
        authenticated(events.drop_last(), job),
    ensures
        authenticated(events, job),
{
    let i = choose|i: int| authenticated_at(events.drop_last(), job, i);
    assert(events.drop_last().take(i) =~= events.take(i));
    assert(authenticated_at(events, job, i));
}

/// Whatever a worker does on behalf of a job after it leaves authentication
/// behind, PAM has authenticated the user of that very job before.
pub proof fn past_authentication_is_authenticated(events: Seq<WorkerEventView>)
    ensures
        run(events).is_past_authentication() ==> exists|job: JobView| authenticated(events, job),
        run(events).is_past_authentication() && run(events).job() is Some ==> authenticated(
            events,
            run(events).job()->0,
        ),
    decreases events.len(),
{
    if events.len() > 0 {
        let earlier = events.drop_last();
        let before = run(earlier);
        past_authentication_is_authenticated(earlier);
        lemma_authentication_step(before, events.last());
        if run(events).is_past_authentication() {
            if before is Authenticating {
                let job = before->Authenticating_job;
                assert(events.take(events.len() - 1) =~= earlier);
                assert(authenticated_at(events, job, events.len() - 1));
                assert(authenticated(events, job));
            } else {
                assert(before.is_past_authentication());
                let job = choose|job: JobView| authenticated(earlier, job);
                lemma_authenticated_stays(events, job);
                if run(events).job() is Some {
                    assert(before.job() == run(events).job());
                    lemma_authenticated_stays(events, before.job()->0);
                }
            }
        }
    }
}

/// No session is announced, opened or started unless PAM has authenticated a
/// user before.
pub proof fn session_needs_authentication(events: Seq<WorkerEventView>)
    requires
        action_after(events).needs_authentication(),
    ensures
        exists|job: JobView| authenticated(events, job),
{
    let earlier = events.drop_last();
    let before = run(earlier);
    past_authentication_is_authenticated(earlier);
    past_authentication_is_authenticated(events);
    lemma_authentication_step(before, events.last());
    if !run(events).is_past_authentication() {
        assert(before.is_past_authentication());
        let job = choose|job: JobView| authenticated(earlier, job);
        lemma_authenticated_stays(events, job);
    }
}

impl JobView {
    /// The message that asks a worker for the job.
    pub open spec fn initiation(self) -> WorkerRequestView {
        WorkerRequestView::Initiate {
            service: self.service,
            class: self.class,
            user: self.user,
            authenticate: self.authenticate,
            tty: self.tty,
            source_profile: self.source_profile,
            greetd_sock: self.greetd_sock,
        }
    }
}

/// Whether the answer stands for the password.
pub open spec fn gives_password(event: WorkerEventView, password: Seq<char>) -> bool {
    ||| event == WorkerEventView::Received(WorkerRequestView::AuthResponse(Some(password)))
    ||| password == Seq::<char>::empty() && event == WorkerEventView::Received(
        WorkerRequestView::AuthResponse(None),
    )
}

/// Whether an answer that stands for the password came.
pub open spec fn password_given(events: Seq<WorkerEventView>, password: Seq<char>) -> bool {
    exists|i: int| 0 <= i < events.len() && #[trigger] gives_password(events[i], password)
}

proof fn lemma_job_step(worker: WorkerView, event: WorkerEventView)
    ensures
        moved(worker, event).job() matches Some(job) ==> {
            ||| worker.job() == Some(job)
            ||| event == WorkerEventView::Received(job.initiation())
        },
        moved(worker, event) matches WorkerView::Authenticating { job, password } ==> {
            ||| worker == moved(worker, event)
            ||| !job.authenticate && password == Seq::<char>::empty()
            ||| gives_password(event, password)
        },
{
    reveal(moved);
}

/// The job that a worker goes by is one that it was asked for, to the letter.
pub proof fn job_is_the_one_asked_for(events: Seq<WorkerEventView>)
    ensures
        run(events).job() matches Some(job) ==> events.contains(
            WorkerEventView::Received(job.initiation()),
        ),
    decreases events.len(),
{
    if events.len() > 0 {
        let earlier = events.drop_last();
        job_is_the_one_asked_for(earlier);
        lemma_job_step(run(earlier), events.last());
        if let Some(job) = run(events).job() {
            let asked = WorkerEventView::Received(job.initiation());
            if run(earlier).job() == Some(job) {
                let i = choose|i: int| 0 <= i < earlier.len() && earlier[i] == asked;
                assert(events[i] == asked);
            } else {
                assert(events[events.len() - 1] == asked);
            }
        }
    }
}

/// Whether the worker prompts for a session that needs a login, if it prompts.
spec fn prompts_for_a_login(worker: WorkerView) -> bool {
    match worker {
        WorkerView::Prompting { job } => job.authenticate,
        WorkerView::AwaitingAnswer { job } => job.authenticate,
        WorkerView::Authenticating { job, password } => {
            job.authenticate || password == Seq::<char>::empty()
        },
        _ => true,
    }
}

proof fn lemma_prompt_step(worker: WorkerView, event: WorkerEventView)
    requires
        prompts_for_a_login(worker),
    ensures
        prompts_for_a_login(moved(worker, event)),
{
    reveal(moved);
}

proof fn lemma_prompts_for_a_login(events: Seq<WorkerEventView>)
    ensures
        prompts_for_a_login(run(events)),
    decreases events.len(),
{
    if events.len() > 0 {
        lemma_prompts_for_a_login(events.drop_last());
        lemma_prompt_step(run(events.drop_last()), events.last());
    }
}

/// The password that a worker has PAM check is the one that it was sent; for a
/// session that needs no login it is empty.
pub proof fn password_is_the_one_received(events: Seq<WorkerEventView>)
    ensures
        run(events) matches WorkerView::Authenticating { job, password } ==> {
            if job.authenticate {
                password_given(events, password)
            } else {
                password == Seq::<char>::empty()
            }
        },
    decreases events.len(),
{
    if events.len() > 0 {
        let earlier = events.drop_last();
        password_is_the_one_received(earlier);
        lemma_job_step(run(earlier), events.last());
        lemma_prompts_for_a_login(events);
        if let WorkerView::Authenticating { job, password } = run(events) {
            if job.authenticate {
                if run(earlier) == run(events) {
                    let i = choose|i: int|
                        0 <= i < earlier.len() && #[trigger] gives_password(earlier[i], password);
                    assert(gives_password(events[i], password));
                } else {
                    assert(gives_password(events[events.len() - 1], password));
                }
            }
        }
    }
}

/// A session that needs a login is announced, opened or started only after the
/// prompt for the password was answered: where every job that a worker is asked
/// for needs a login, an answer has come before.
pub proof fn login_needs_an_answer(events: Seq<WorkerEventView>)
    requires
        action_after(events).needs_authentication(),
        forall|job: JobView|
            events.contains(WorkerEventView::Received(#[trigger] job.initiation()))
                ==> job.authenticate,
    ensures
        exists|password: Seq<char>| #[trigger] password_given(events, password),
{
    session_needs_authentication(events);
    let job = choose|job: JobView| authenticated(events, job);
    let i = choose|i: int| authenticated_at(events, job, i);
    let until = events.take(i);
    job_is_the_one_asked_for(until);
    password_is_the_one_received(until);
    let asked = WorkerEventView::Received(job.initiation());
    let j = choose|j: int| 0 <= j < until.len() && until[j] == asked;
    assert(events[j] == asked);
    let password = run(until)->Authenticating_password;
    let k = choose|k: int| 0 <= k < until.len() && #[trigger] gives_password(until[k], password);
    assert(gives_password(events[k], password));
    assert(password_given(events, password));
}

impl WorkerView {
    /// Whether the worker has told the daemon that the user is authenticated,
    /// and has not left.
    pub open spec fn is_past_announcing(self) -> bool {
        self.is_past_authentication() && !(self is Unlocking) && !(self is Announcing)
    }

    /// Whether the worker has had the session opened, and has not left.
    pub open spec fn is_past_opening(self) -> bool {
        self.is_past_announcing() && !(self is AwaitingStart) && !(self is Opening)
    }
}

/// Whether the worker asked, after the first `i` reports, for the daemon to be
/// told that the user is authenticated.
pub open spec fn announced_at(events: Seq<WorkerEventView>, i: int) -> bool {
    &&& 0 <= i <= events.len()
    &&& action_after(events.take(i)) == WorkerActionView::Send(WorkerResponseView::Ready)
}

/// Whether the report at `j` says that the daemon was told what the worker asked
/// for after the first `i` reports: that the user is authenticated.
pub open spec fn ready_sent_at(events: Seq<WorkerEventView>, i: int, j: int) -> bool {
    &&& announced_at(events, i)
    &&& i <= j < events.len()
    &&& run(events.take(j)) is Announcing
    &&& events[j] is Done
}

/// Whether the daemon was told that the user is authenticated.
pub open spec fn ready_sent(events: Seq<WorkerEventView>) -> bool {
    exists|i: int, j: int| ready_sent_at(events, i, j)
}

/// Whether the worker asked, after the first `i` reports, for PAM to open the
/// session.
pub open spec fn opening_asked_at(events: Seq<WorkerEventView>, i: int) -> bool {
    &&& 0 <= i <= events.len()
    &&& action_after(events.take(i)) is OpenSession
}

/// Whether the report at `j` says that PAM has opened the session, as the
/// worker asked after the first `i` reports.
pub open spec fn opened_at(events: Seq<WorkerEventView>, i: int, j: int) -> bool {
    &&& opening_asked_at(events, i)
    &&& i <= j < events.len()
    &&& run(events.take(j)) is Opening
    &&& events[j] is Done
}

/// Whether PAM has opened the session.
pub open spec fn opened(events: Seq<WorkerEventView>) -> bool {
    exists|i: int, j: int| opened_at(events, i, j)
}

proof fn lemma_order_step(worker: WorkerView, event: WorkerEventView)
    ensures
        moved(worker, event) is Announcing ==> worker is Announcing || asked(worker, event)
            == WorkerActionView::Send(WorkerResponseView::Ready),
        moved(worker, event).is_past_announcing() ==> worker.is_past_announcing() || worker
            is Announcing && event is Done,
        moved(worker, event) is Opening ==> worker is Opening || asked(worker, event)
            is OpenSession,
        moved(worker, event).is_past_opening() ==> worker.is_past_opening() || worker is Opening
            && event is Done,
        asked(worker, event) is OpenSession ==> worker is AwaitingStart,
        asked(worker, event) matches WorkerActionView::Send(WorkerResponseView::Started { .. })
            ==> worker is Forking,
{
    reveal(moved);
    reveal(asked);
}

/// What the worker has done so far, by the state that it is in.
spec fn in_order(events: Seq<WorkerEventView>) -> bool {
    &&& run(events) is Announcing ==> exists|i: int| announced_at(events, i)
    &&& run(events).is_past_announcing() ==> ready_sent(events)
    &&& run(events) is Opening ==> exists|i: int| opening_asked_at(events, i)
    &&& run(events).is_past_opening() ==> opened(events)
}

proof fn lemma_order_stays(events: Seq<WorkerEventView>)
    requires
        events.len() > 0,
    ensures
        forall|i: int| #[trigger]
            announced_at(events.drop_last(), i) ==> announced_at(events, i),
        forall|i: int| #[trigger]
            opening_asked_at(events.drop_last(), i) ==> opening_asked_at(events, i),
        ready_sent(events.drop_last()) ==> ready_sent(events),
        opened(events.drop_last()) ==> opened(events),
{
    let earlier = events.drop_last();
    assert forall|i: int| 0 <= i <= earlier.len() implies #[trigger] events.take(i)
        == earlier.take(i) by {
        assert(events.take(i) =~= earlier.take(i));
    }
    assert forall|i: int| #[trigger] announced_at(earlier, i) implies announced_at(events, i) by {
        assert(events.take(i) == earlier.take(i));
    }
    assert forall|i: int| #[trigger] opening_asked_at(earlier, i) implies opening_asked_at(
        events,
        i,
    ) by {
        assert(events.take(i) == earlier.take(i));
    }
    if ready_sent(earlier) {
        let (i, j) = choose|i: int, j: int| ready_sent_at(earlier, i, j);
        assert(announced_at(events, i));
        assert(events.take(j) == earlier.take(j));
        assert(ready_sent_at(events, i, j));
    }
    if opened(earlier) {
        let (i, j) = choose|i: int, j: int| opened_at(earlier, i, j);
        assert(opening_asked_at(events, i));
        assert(events.take(j) == earlier.take(j));
        assert(opened_at(events, i, j));
    }
}

proof fn lemma_in_order(events: Seq<WorkerEventView>)
    ensures
        in_order(events),
    decreases events.len(),
{
    if events.len() > 0 {
        let earlier = events.drop_last();
        let before = run(earlier);
        let n = events.len() - 1;
        lemma_in_order(earlier);
        lemma_order_step(before, events.last());
        lemma_order_stays(events);
        assert(events.take(n) =~= earlier);
        assert(events.take(events.len() as int) =~= events);
        if run(events) is Announcing {
            if before is Announcing {
                let i = choose|i: int| announced_at(earlier, i);
                assert(announced_at(events, i));
            } else {
                assert(announced_at(events, events.len() as int));
            }
        }
        if run(events).is_past_announcing() && !before.is_past_announcing() {
            let i = choose|i: int| announced_at(earlier, i);
            assert(announced_at(events, i));
            assert(ready_sent_at(events, i, n));
        }
        if run(events) is Opening {
            if before is Opening {
                let i = choose|i: int| opening_asked_at(earlier, i);
                assert(opening_asked_at(events, i));
            } else {
                assert(opening_asked_at(events, events.len() as int));
            }
        }
        if run(events).is_past_opening() && !before.is_past_opening() {
            let i = choose|i: int| opening_asked_at(earlier, i);
            assert(opening_asked_at(events, i));
            assert(opened_at(events, i, n));
        }
    }
}

/// A session is opened only after the daemon was told that the user is
/// authenticated.
pub proof fn session_opens_after_the_announcement(events: Seq<WorkerEventView>)
    requires
        action_after(events) is OpenSession,
    ensures
        ready_sent(events.drop_last()),
        ready_sent(events),
{
    lemma_in_order(events.drop_last());
    lemma_order_step(run(events.drop_last()), events.last());
    lemma_order_stays(events);
}

/// The daemon is told that the session has started only after PAM has opened
/// the session, which in turn was after the daemon was told that the user is
/// authenticated.
pub proof fn session_starts_after_it_was_opened(events: Seq<WorkerEventView>)
    requires
        action_after(events) matches WorkerActionView::Send(WorkerResponseView::Started { .. }),
    ensures
        opened(events.drop_last()),
        opened(events),
        exists|i: int, j: int, k: int, l: int| #![trigger ready_sent_at(events, i, j), opened_at(events, k, l)]
            ready_sent_at(events, i, j) && opened_at(events, k, l) && j < k,
{
    let earlier = events.drop_last();
    lemma_in_order(earlier);
    lemma_order_step(run(earlier), events.last());
    lemma_order_stays(events);
    let (k, l) = choose|k: int, l: int| opened_at(events, k, l);
    let asked = events.take(k);
    session_opens_after_the_announcement(asked);
    let (i, j) = choose|i: int, j: int| ready_sent_at(asked, i, j);
    assert(asked.take(i) =~= events.take(i));
    assert(asked.take(j) =~= events.take(j));
    assert(ready_sent_at(events, i, j));
}

/// Whether the reports at `i`, `j` and `k` say that the session's process took
/// on the groups, the group id and the user id of the user in `plan`.
pub open spec fn privileges_dropped_at(
    events: Seq<WorkerEventView>,
    plan: PlanView,
    i: int,
    j: int,
    k: int,
) -> bool {
    &&& 0 <= i < j < k < events.len()
    &&& run(events.take(i)) matches WorkerView::JoiningGroups { plan: p, .. } && p == plan
    &&& events[i] is Done
    &&& run(events.take(j)) matches WorkerView::SettingGid { plan: p, .. } && p == plan
    &&& events[j] is Done
    &&& run(events.take(k)) matches WorkerView::SettingUid { plan: p, .. } && p == plan
    &&& events[k] is Done
}

/// Whether the session's process runs with the privileges of the user in
/// `plan` only.
pub open spec fn privileges_dropped(events: Seq<WorkerEventView>, plan: PlanView) -> bool {
    exists|i: int, j: int, k: int| privileges_dropped_at(events, plan, i, j, k)
}

/// What has been reported by the time the session's process has reached a
/// state.
spec fn dropped_so_far(events: Seq<WorkerEventView>) -> bool {
    match run(events) {
        WorkerView::SettingGid { plan, .. } => exists|i: int| groups_joined_at(events, plan, i),
        WorkerView::SettingUid { plan, .. } => exists|i: int, j: int|
            gid_set_at(events, plan, i, j),
        WorkerView::GoingHome { plan, .. } => privileges_dropped(events, plan),
        _ => true,
    }
}

spec fn groups_joined_at(events: Seq<WorkerEventView>, plan: PlanView, i: int) -> bool {
    &&& 0 <= i < events.len()
    &&& run(events.take(i)) matches WorkerView::JoiningGroups { plan: p, .. } && p == plan
    &&& events[i] is Done
}

spec fn gid_set_at(events: Seq<WorkerEventView>, plan: PlanView, i: int, j: int) -> bool {
    &&& i < j
    &&& groups_joined_at(events, plan, i)
    &&& j < events.len()
    &&& run(events.take(j)) matches WorkerView::SettingGid { plan: p, .. } && p == plan
    &&& events[j] is Done
}

proof fn lemma_privilege_step(worker: WorkerView, event: WorkerEventView)
    ensures
        moved(worker, event) matches WorkerView::SettingGid { plan, .. } ==> {
            &&& worker.plan() == Some(plan)
            &&& worker is SettingGid || worker is JoiningGroups && event is Done
        },
        moved(worker, event) matches WorkerView::SettingUid { plan, .. } ==> {
            &&& worker.plan() == Some(plan)
            &&& worker is SettingUid || worker is SettingGid && event is Done
        },
        moved(worker, event) matches WorkerView::GoingHome { plan, .. } ==> {
            &&& worker.plan() == Some(plan)
            &&& worker is GoingHome || worker is SettingUid && event is Done
        },
        asked(worker, event) is Exec ==> {
            &&& worker matches WorkerView::GoingHome { plan, environment }
            &&& asked(worker, event) == (WorkerActionView::Exec {
                path: "/bin/sh"@,
                args: seq!["/bin/sh"@, "-c"@, plan.command()],
                env: environment,
            })
        },
{
    reveal(moved);
    reveal(asked);
    if worker is GoingHome {
        error::c_text_is_kept(worker.plan()->0.command(), Seq::empty());
    }
}

proof fn lemma_dropped_so_far(events: Seq<WorkerEventView>)
    ensures
        dropped_so_far(events),
    decreases events.len(),
{
    if events.len() > 0 {
        let earlier = events.drop_last();
        let last = events.len() - 1;
        lemma_dropped_so_far(earlier);
        lemma_privilege_step(run(earlier), events.last());
        assert(events.take(last) =~= earlier);
        assert forall|i: int| 0 <= i < last implies earlier.take(i) == #[trigger] events.take(
            i,
        ) by {
            assert(earlier.take(i) =~= events.take(i));
        }
        match run(events) {
            WorkerView::SettingGid { plan, .. } => {
                if run(earlier) is SettingGid {
                    let i = choose|i: int| groups_joined_at(earlier, plan, i);
                    assert(groups_joined_at(events, plan, i));
                } else {
                    assert(groups_joined_at(events, plan, last));
                }
            },
            WorkerView::SettingUid { plan, .. } => {
                if run(earlier) is SettingUid {
                    let (i, j) = choose|i: int, j: int| gid_set_at(earlier, plan, i, j);
                    assert(gid_set_at(events, plan, i, j));
                } else {
                    let i = choose|i: int| groups_joined_at(earlier, plan, i);
                    assert(gid_set_at(events, plan, i, last));
                }
            },
            WorkerView::GoingHome { plan, .. } => {
                if run(earlier) is GoingHome {
                    let (i, j, k) = choose|i: int, j: int, k: int|
                        privileges_dropped_at(earlier, plan, i, j, k);
                    assert(privileges_dropped_at(events, plan, i, j, k));
                } else {
                    let (i, j) = choose|i: int, j: int| gid_set_at(earlier, plan, i, j);
                    assert(privileges_dropped_at(events, plan, i, j, last));
                }
            },
            _ => {},
        }
    }
}

/// The session's command runs only after the session's process has taken on
/// the groups, the group id and the user id of the session's user, in that
/// order and each with success; and it is the command of that plan.
pub proof fn command_runs_without_privileges(events: Seq<WorkerEventView>)
    requires
        action_after(events) is Exec,
    ensures
        run(events.drop_last()) matches WorkerView::GoingHome { plan, environment } && {
            &&& privileges_dropped(events.drop_last(), plan)
            &&& action_after(events) == (WorkerActionView::Exec {
                path: "/bin/sh"@,
                args: seq!["/bin/sh"@, "-c"@, plan.command()],
                env: environment,
            })
        },
{
    lemma_dropped_so_far(events.drop_last());
    lemma_privilege_step(run(events.drop_last()), events.last());
}

impl WorkerView {
    /// Whether the environment that the worker holds is the one that its plan
    /// gives.
    pub open spec fn has_planned_environment(self) -> bool {
        match self {
            WorkerView::Forking { plan, environment } => environment == plan.environment(),
            WorkerView::JoiningGroups { plan, environment } => environment == plan.environment(),
            WorkerView::SettingGid { plan, environment } => environment == plan.environment(),
            WorkerView::SettingUid { plan, environment } => environment == plan.environment(),
            WorkerView::GoingHome { plan, environment } => environment == plan.environment(),
            _ => true,
        }
    }
}

proof fn lemma_environment_step(worker: WorkerView, event: WorkerEventView)
    requires
        worker.has_planned_environment(),
    ensures
        moved(worker, event).has_planned_environment(),
{
    reveal(moved);
    if worker.plan() is Some {
        error::c_text_is_kept(Seq::empty(), worker.plan()->0.environment());
    }
}

/// The environment with which a session's command runs is the one that its
/// plan gives.
pub proof fn command_runs_in_planned_environment(events: Seq<WorkerEventView>)
    ensures
        run(events).has_planned_environment(),
    decreases events.len(),
{
    if events.len() > 0 {
        command_runs_in_planned_environment(events.drop_last());
        lemma_environment_step(run(events.drop_last()), events.last());
    }
}

/// The worker that waits for the session's process keeps its own privileges:
/// it never takes on a user's groups or ids and never runs the command.
pub proof fn watching_worker_keeps_privileges(worker: WorkerView, event: WorkerEventView)
    requires
        worker.is_watching(),
    ensures
        worker.next(event).0.is_watching(),
        !worker.next(event).1.is_for_the_session_process(),
{
}

/// The side of the fork that is not the session's process watches over it.
pub proof fn parent_watches(worker: WorkerView, child: i32)
    requires
        worker is Forking,
    ensures
        worker.next(WorkerEventView::Forked(ForkResult::Parent { child })).0.is_watching(),
{
}

/// A worker that has started a session leaves in peace only right after PAM
/// was asked to close the session.
pub proof fn session_is_closed_before_leaving(events: Seq<WorkerEventView>)
    requires
        events.len() > 0,
        run(events.drop_last()).is_watching(),
        action_after(events) == WorkerActionView::Leave(Ok(())),
    ensures
        run(events.drop_last()) is Closing,
        action_after(entering(events)) is CloseSession,
{
    lemma_closing_step(run(events.drop_last()), events.last());
    lemma_closing_was_entered(events.drop_last());
}

/// The reports up to the one that brought the worker to close the session.
pub open spec fn entering(events: Seq<WorkerEventView>) -> Seq<WorkerEventView>
    decreases events.len(),
{
    if events.len() == 0 || action_after(events) is CloseSession {
        events
    } else {
        entering(events.drop_last())
    }
}

proof fn lemma_closing_step(worker: WorkerView, event: WorkerEventView)
    ensures
        moved(worker, event) is Closing ==> worker is Closing || asked(
            worker,
            event,
        ) is CloseSession,
        worker.is_watching() && asked(worker, event) == WorkerActionView::Leave(Ok(()))
            ==> worker is Closing,
{
    reveal(moved);
    reveal(asked);
}

proof fn lemma_closing_was_entered(events: Seq<WorkerEventView>)
    requires
        run(events) is Closing,
    ensures
        action_after(entering(events)) is CloseSession,
    decreases events.len(),
{
    if !(action_after(events) is CloseSession) {
        lemma_closing_step(run(events.drop_last()), events.last());
        lemma_closing_was_entered(events.drop_last());
    }
}

/// A worker that waits for a message leaves in peace when it is told to.
pub proof fn cancel_is_obeyed(worker: WorkerView)
    requires
        worker is Fresh || worker is AwaitingAnswer || worker is AwaitingStart,
    ensures
        worker.next(WorkerEventView::Received(WorkerRequestView::Cancel)) == (
            WorkerView::Ended,
            WorkerActionView::Leave(Ok::<(), ErrorView>(())),
        ),
{
}

/// A worker that has left does nothing more.
pub proof fn ended_is_final(event: WorkerEventView)
    ensures
        WorkerView::Ended.next(event) == (WorkerView::Ended, WorkerActionView::Nothing),
{
}

/// Once PAM and the keyring have had the password, nothing of it is left in
/// the worker: two workers that differ in the password only are then the same.
pub proof fn password_is_not_kept(job: JobView, one: Seq<char>, other: Seq<char>)
    requires
        job.authenticate,
    ensures
        ({
            let first = (WorkerView::AwaitingAnswer { job }).next(
                WorkerEventView::Received(WorkerRequestView::AuthResponse(Some(one))),
            ).0;
            let second = (WorkerView::AwaitingAnswer { job }).next(
                WorkerEventView::Received(WorkerRequestView::AuthResponse(Some(other))),
            ).0;
            &&& first.next(WorkerEventView::Done).0 == second.next(WorkerEventView::Done).0
            &&& first.next(WorkerEventView::Done).0 == (WorkerView::Unlocking { job })
        }),
{
}

/// The daemon's socket is named to greeters and to nobody else: the
/// environment of a user's session does not depend on it.
pub proof fn socket_is_for_greeters(plan: PlanView, socket: Seq<char>)
    ensures
        plan.job.class == SessionClass::Greeter ==> plan.environment().contains(
            "GREETD_SOCK="@ + plan.job.greetd_sock,
        ),
        plan.job.class == SessionClass::User ==> plan.environment() == (PlanView {
            job: JobView { greetd_sock: socket, ..plan.job },
            ..plan
        }).environment(),
{
    if plan.job.class == SessionClass::Greeter {
        assert(plan.environment()[6] == "GREETD_SOCK="@ + plan.job.greetd_sock);
    }
}

/// A session that asks for no authentication is not prompted for.
pub proof fn no_prompt_without_authentication(job: JobView)
    requires
        !job.authenticate,
    ensures
        (WorkerView::StartingPam { job }).next(WorkerEventView::Done).1 == (
        WorkerActionView::Authenticate { user: job.user, password: Seq::empty() }),
{
}

} // verus!
