//! What a worker does with what it is told, from the first message to the end
//! of the session.

use vstd::prelude::*;

use crate::error;
use crate::error::{Error, ErrorView};
use crate::session::{
    ForkResult,
    SessionClass,
    WorkerRequest,
    WorkerRequestView,
    WorkerResponse,
    WorkerResponseView,
};
use crate::terminal::TerminalModeView;
use crate::text;
use crate::worker::{
    Job,
    JobView,
    Launch,
    LaunchView,
    Plan,
    PlanView,
    UserInfo,
    UserInfoView,
    Worker,
    WorkerAction,
    WorkerActionView,
    WorkerEvent,
    WorkerEventView,
    WorkerView,
};
use crate::worker_laws;

verus! {

/// The environment of a session: the user's home directory, name and shell, the
/// kind of terminal and the seat; for a greeter the daemon's socket, and for no
/// one else; and then, entry by entry, what the greeter added. Whether profiles
/// are read, and what is run, does not matter to it.
pub proof fn environment_is_as_asked_for(plan: PlanView, source_profile: bool, cmd: Seq<Seq<char>>)
    ensures
        ({
            let environment = plan.environment();
            let added = plan.launch.env;
            let n: int = match plan.job.class {
                SessionClass::Greeter => 7,
                SessionClass::User => 6,
            };
            &&& environment.len() == n + added.len()
            &&& environment[0] == "HOME="@ + plan.user_info.dir
            &&& environment[1] == "USER="@ + plan.user_info.name
            &&& environment[2] == "LOGNAME="@ + plan.user_info.name
            &&& environment[3] == "SHELL="@ + plan.user_info.shell
            &&& environment[4] == "TERM=linux"@
            &&& environment[5] == "XDG_SEAT=seat0"@
            &&& plan.job.class is Greeter ==> environment[6] == "GREETD_SOCK="@
                + plan.job.greetd_sock
            &&& environment.skip(n) == added
            &&& forall|i: int| 0 <= i < added.len() ==> environment[n + i] == #[trigger] added[i]
        }),
        ({
            let other = PlanView {
                job: JobView { source_profile, ..plan.job },
                launch: LaunchView { cmd, ..plan.launch },
                ..plan
            };
            other.environment() == plan.environment()
        }),
{
    let environment = plan.environment();
    let added = plan.launch.env;
    let n: int = match plan.job.class {
        SessionClass::Greeter => 7,
        SessionClass::User => 6,
    };
    assert(environment.skip(n) =~= added);
    assert forall|i: int| 0 <= i < added.len() implies environment[n + i] == #[trigger] added[i] by {
        assert(environment.skip(n)[i] == added[i]);
    }
}

/// The shell's command: the words of the session's command, one after the other
/// with a blank between them, in place of the shell; and before it the system's
/// profile and the user's, if profiles are to be read. Nothing else matters to
/// it.
pub proof fn command_is_as_asked_for(
    plan: PlanView,
    word: Seq<char>,
    words: Seq<Seq<char>>,
    other: PlanView,
)
    ensures
        !plan.job.source_profile && plan.launch.cmd == seq![word] ==> plan.command() == "exec "@
            + word,
        !plan.job.source_profile && words.len() > 0 && plan.launch.cmd == words.push(word)
            ==> plan.command() == (PlanView {
            launch: LaunchView { cmd: words, ..plan.launch },
            ..plan
        }).command() + " "@ + word,
        !plan.job.source_profile && plan.launch.cmd.len() == 0 ==> plan.command() == "exec "@,
        plan.job.source_profile ==> plan.command()
            == "[ -f /etc/profile ] && . /etc/profile; [ -f $HOME/.profile ] && . $HOME/.profile; "@
            + (PlanView { job: JobView { source_profile: false, ..plan.job }, ..plan }).command(),
        plan.job.source_profile == other.job.source_profile && plan.launch.cmd == other.launch.cmd
            ==> plan.command() == other.command(),
{
    text::joined_lists_are_joined(words, seq![word], word, " "@);
    let all = words.push(word);
    assert(all =~= words + seq![word]);
    let blank = " "@;
    let before = "exec "@ + text::joined(words, blank);
    assert("exec "@ + (text::joined(words, blank) + blank + word) =~= before + blank + word);
    assert(plan.launch.cmd.len() == 0 ==> plan.launch.cmd =~= Seq::<Seq<char>>::empty());
    assert("exec "@ + Seq::<char>::empty() =~= "exec "@);
}

/// A worker takes on the job that the first message describes, field by field,
/// and sets PAM up for the job's service.
pub proof fn first_message_describes_the_job(
    service: Seq<char>,
    class: SessionClass,
    user: Seq<char>,
    authenticate: bool,
    tty: TerminalModeView,
    source_profile: bool,
    greetd_sock: Seq<char>,
)
    ensures
        ({
            let first = WorkerRequestView::Initiate {
                service,
                class,
                user,
                authenticate,
                tty,
                source_profile,
                greetd_sock,
            };
            let (state, action) = WorkerView::Fresh.next(WorkerEventView::Received(first));
            &&& state matches WorkerView::StartingPam { job }
            &&& job.service == service
            &&& job.class == class
            &&& job.user == user
            &&& job.authenticate == authenticate
            &&& job.tty == tty
            &&& job.source_profile == source_profile
            &&& job.greetd_sock == greetd_sock
            &&& action == (WorkerActionView::StartPam { service })
        }),
{
}

/// The course of a login: where the user has to authenticate, the password is
/// asked for in secret, the answer is what PAM checks for that user, no answer
/// being the empty one, and then the keyring is unlocked with it; else PAM is
/// given no password. After that the daemon is told that the worker is ready.
/// The job stays as it is.
pub proof fn course_of_a_login(
    job: JobView,
    password: Seq<char>,
)
    ensures
        ({
            let done = WorkerEventView::Done;
            let answer = |answer: Option<Seq<char>>|
                WorkerEventView::Received(WorkerRequestView::AuthResponse(answer));
            let ready = (
                WorkerView::Announcing { job },
                WorkerActionView::Send(WorkerResponseView::Ready),
            );
            let checks = |password: Seq<char>|
                (
                    WorkerView::Authenticating { job, password },
                    WorkerActionView::Authenticate { user: job.user, password },
                );
            &&& job.authenticate ==> (WorkerView::StartingPam { job }).next(done) == (
                WorkerView::Prompting { job },
                WorkerActionView::Send(
                    WorkerResponseView::AuthPrompt { prompt: "Password: "@, echo: false },
                ),
            )
            &&& !job.authenticate ==> (WorkerView::StartingPam { job }).next(done) == checks(
                Seq::empty(),
            )
            &&& (WorkerView::Prompting { job }).next(done) == (
                WorkerView::AwaitingAnswer { job },
                WorkerActionView::Receive,
            )
            &&& (WorkerView::AwaitingAnswer { job }).next(answer(Some(password))) == checks(
                password,
            )
            &&& (WorkerView::AwaitingAnswer { job }).next(answer(None)) == checks(Seq::empty())
            &&& job.authenticate ==> (WorkerView::Authenticating { job, password }).next(done) == (
                WorkerView::Unlocking { job },
                WorkerActionView::UnlockKeyring { user: job.user, password },
            )
            &&& !job.authenticate ==> (WorkerView::Authenticating { job, password }).next(done)
                == ready
            &&& (WorkerView::Unlocking { job }).next(done) == ready
            &&& (WorkerView::Announcing { job }).next(done) == (
                WorkerView::AwaitingStart { job },
                WorkerActionView::Receive,
            )
        }),
{
}

/// What is prepared for a session: the command and what is added to its
/// environment are those of the message, word by word; the user is the job's;
/// and a virtual terminal is opened, set to text mode and, if that is wanted,
/// switched to, before the session's process is forked off.
pub proof fn course_of_a_preparation(
    job: JobView,
    cmd: Seq<Seq<char>>,
    env: Seq<Seq<char>>,
    user_info: UserInfoView,
    path: Seq<char>,
    vt: u32,
)
    ensures
        ({
            let done = WorkerEventView::Done;
            let start = WorkerEventView::Received(WorkerRequestView::Start { cmd, env });
            let found = WorkerEventView::Found(Some(user_info));
            let launch = LaunchView { cmd, env };
            let plan = PlanView { job, launch, user_info };
            let forks = match error::c_texts(plan.environment()) {
                Ok(environment) => (
                    WorkerView::Forking { plan, environment },
                    WorkerActionView::Fork,
                ),
                Err(error) => (WorkerView::Ended, WorkerActionView::Leave(Err(error))),
            };
            &&& (WorkerView::AwaitingStart { job }).next(start) == (
                WorkerView::Opening { job, launch },
                WorkerActionView::OpenSession,
            )
            &&& (WorkerView::Opening { job, launch }).next(done) == (
                WorkerView::LookingUp { job, launch },
                WorkerActionView::LookUpUser { user: job.user },
            )
            &&& (WorkerView::LookingUp { job, launch }).next(found) == (
                WorkerView::Leading { plan },
                WorkerActionView::BecomeLeader,
            )
            &&& job.tty is Stdin ==> (WorkerView::Leading { plan }).next(done) == forks
            &&& job.tty == (TerminalModeView::Vt { path, vt, switch: true }) ==> {
                &&& (WorkerView::Leading { plan }).next(done) == (
                    WorkerView::OpeningTerminal { plan },
                    WorkerActionView::OpenTerminal { path },
                )
                &&& (WorkerView::SettingTextMode { plan }).next(done) == (
                    WorkerView::Activating { plan },
                    WorkerActionView::ActivateVt { vt },
                )
            }
            &&& job.tty == (TerminalModeView::Vt { path, vt, switch: false }) ==> {
                &&& (WorkerView::Leading { plan }).next(done) == (
                    WorkerView::OpeningTerminal { plan },
                    WorkerActionView::OpenTerminal { path },
                )
                &&& (WorkerView::SettingTextMode { plan }).next(done) == forks
            }
            &&& (WorkerView::OpeningTerminal { plan }).next(done) == (
                WorkerView::SettingTextMode { plan },
                WorkerActionView::SetTextMode,
            )
            &&& (WorkerView::Activating { plan }).next(done) == forks
        }),
{
}

/// The course of a session in the worker: it reports the child under the
/// child's own number, waits for it, again whenever a signal cut the wait
/// short, has PAM close the session whether or not the wait succeeded, and
/// leaves in peace.
pub proof fn course_of_a_watch(
    plan: PlanView,
    environment: Seq<Seq<char>>,
    child: i32,
    error: ErrorView,
)
    ensures
        ({
            let done = WorkerEventView::Done;
            let (state, action) = (WorkerView::Forking { plan, environment }).next(
                WorkerEventView::Forked(ForkResult::Parent { child }),
            );
            let waits = (WorkerView::Waiting { child }, WorkerActionView::Wait { child });
            let closes = (WorkerView::Closing, WorkerActionView::CloseSession);
            &&& state == (WorkerView::Reporting { child })
            &&& action matches WorkerActionView::Send(WorkerResponseView::Started { pid })
            &&& pid == if child >= 0 {
                child as int
            } else {
                child + 0x1_0000_0000
            }
            &&& (WorkerView::Reporting { child }).next(done) == waits
            &&& (WorkerView::Waiting { child }).next(WorkerEventView::Interrupted) == waits
            &&& (WorkerView::Waiting { child }).next(done) == closes
            &&& (WorkerView::Waiting { child }).next(WorkerEventView::Failed(error)) == closes
            &&& WorkerView::Closing.next(done) == (
                WorkerView::Ended,
                WorkerActionView::Leave(Ok::<(), ErrorView>(())),
            )
        }),
{
}

/// The course of a session in its own process: it takes on the groups, the main
/// group and the id of the user, goes to the user's home directory, if it can,
/// and has the shell run the command in the environment that was put together.
/// If the shell cannot be run, it exits with a failure.
pub proof fn course_of_a_session(
    plan: PlanView,
    environment: Seq<Seq<char>>,
    error: ErrorView,
)
    ensures
        ({
            let done = WorkerEventView::Done;
            let failed = WorkerEventView::Failed(error);
            let forked = WorkerEventView::Forked(ForkResult::Child);
            let user_info = plan.user_info;
            let runs = match error::c_text(plan.command()) {
                Ok(command) => (
                    WorkerView::Executing,
                    WorkerActionView::Exec {
                        path: "/bin/sh"@,
                        args: seq!["/bin/sh"@, "-c"@, plan.command()],
                        env: environment,
                    },
                ),
                Err(error) => (WorkerView::Ended, WorkerActionView::Leave(Err(error))),
            };
            &&& (WorkerView::Forking { plan, environment }).next(forked) == (match error::c_text(
                user_info.name,
            ) {
                Ok(_) => (
                    WorkerView::JoiningGroups { plan, environment },
                    WorkerActionView::InitGroups { name: user_info.name, gid: user_info.gid },
                ),
                Err(error) => (WorkerView::Ended, WorkerActionView::Leave(Err(error))),
            })
            &&& (WorkerView::JoiningGroups { plan, environment }).next(done) == (
                WorkerView::SettingGid { plan, environment },
                WorkerActionView::SetGid { gid: user_info.gid },
            )
            &&& (WorkerView::SettingGid { plan, environment }).next(done) == (
                WorkerView::SettingUid { plan, environment },
                WorkerActionView::SetUid { uid: user_info.uid },
            )
            &&& (WorkerView::SettingUid { plan, environment }).next(done) == (
                WorkerView::GoingHome { plan, environment },
                WorkerActionView::ChangeDirectory { dir: user_info.home },
            )
            &&& (WorkerView::GoingHome { plan, environment }).next(done) == runs
            &&& (WorkerView::GoingHome { plan, environment }).next(failed) == runs
            &&& WorkerView::Executing.next(failed) == (
                WorkerView::Ended,
                WorkerActionView::Quit { code: 1 },
            )
        }),
{
    error::c_text_is_kept(plan.command(), Seq::empty());
    error::c_text_is_kept(plan.user_info.name, Seq::empty());
}

/// What makes a worker leave, and with which result: a message that does not
/// fit is a failure that says what was expected, but being told to end is none;
/// what PAM refuses is told with PAM's own words; an unknown user is named; and
/// any other failure is passed on as it is.
pub proof fn failures_end_a_worker(
    state: WorkerView,
    job: JobView,
    launch: LaunchView,
    password: Seq<char>,
    request: WorkerRequestView,
    why: Seq<char>,
    error: ErrorView,
)
    ensures
        ({
            let leaves = |result: Result<(), ErrorView>|
                (WorkerView::Ended, WorkerActionView::Leave(result));
            let other = |text: Seq<char>| leaves(Err(ErrorView::Other(text)));
            let received = WorkerEventView::Received(request);
            let refused = WorkerEventView::PamFailed(why);
            let awaiting_answer = WorkerView::AwaitingAnswer { job };
            let awaiting_start = WorkerView::AwaitingStart { job };
            &&& request is Cancel ==> {
                &&& WorkerView::Fresh.next(received) == leaves(Ok(()))
                &&& awaiting_answer.next(received) == leaves(Ok(()))
                &&& awaiting_start.next(received) == leaves(Ok(()))
            }
            &&& request is AuthResponse || request is Start ==> WorkerView::Fresh.next(received)
                == other("expected Initiate"@)
            &&& request is Initiate || request is Start ==> awaiting_answer.next(received)
                == other("expected AuthResponse"@)
            &&& request is Initiate || request is AuthResponse ==> awaiting_start.next(received)
                == other("expected Start"@)
            &&& (WorkerView::StartingPam { job }).next(refused) == leaves(
                Err(ErrorView::Auth("PAM init failed: "@ + why)),
            )
            &&& (WorkerView::Authenticating { job, password }).next(refused) == leaves(
                Err(ErrorView::Auth("authentication failed: "@ + why)),
            )
            &&& (WorkerView::Opening { job, launch }).next(refused) == other(
                "failed to open session: "@ + why,
            )
            &&& (WorkerView::LookingUp { job, launch }).next(WorkerEventView::Found(None))
                == other("user not found: "@ + job.user)
            &&& state is Fresh || state is Prompting || state is AwaitingAnswer || state
                is Announcing || state is AwaitingStart || state is LookingUp || state is Leading
                || state is OpeningTerminal || state is SettingTextMode || state is Activating
                || state is Forking || state is Reporting || state is JoiningGroups || state
                is SettingGid || state is SettingUid ==> state.next(WorkerEventView::Failed(error))
                == leaves(Err(error))
        }),
{
}

impl WorkerView {
    /// Whether the state waits for such a report.
    pub open spec fn awaits(self, event: WorkerEventView) -> bool {
        match event {
            WorkerEventView::Received(_) => {
                self is Fresh || self is AwaitingAnswer || self is AwaitingStart
            },
            WorkerEventView::PamFailed(_) => {
                self is StartingPam || self is Authenticating || self is Opening
            },
            WorkerEventView::Found(_) => self is LookingUp,
            WorkerEventView::Forked(_) => self is Forking,
            WorkerEventView::Interrupted => self is Waiting,
            WorkerEventView::Done => {
                !(self is Fresh || self is AwaitingAnswer || self is AwaitingStart || self
                    is LookingUp || self is Forking || self is Executing || self is Ended)
            },
            WorkerEventView::Failed(_) => {
                !(self is StartingPam || self is Authenticating || self is Unlocking || self
                    is Opening || self is Closing || self is Ended)
            },
        }
    }
}

/// A report that is not awaited changes nothing.
pub proof fn unawaited_reports_do_not_matter_to_a_worker(state: WorkerView, event: WorkerEventView)
    requires
        !state.awaits(event),
    ensures
        state.next(event) == (state, WorkerActionView::Nothing),
{
}

/// Whatever a worker holds of its job, its command and its user, it holds
/// unchanged from one report to the next.
pub proof fn what_a_worker_holds_stays(state: WorkerView, event: WorkerEventView)
    ensures
        ({
            let after = state.next(event).0;
            &&& after.plan() matches Some(plan) ==> {
                ||| state.plan() == Some(plan)
                ||| state == (WorkerView::LookingUp { job: plan.job, launch: plan.launch }) && event
                    == WorkerEventView::Found(Some(plan.user_info))
            }
            &&& after matches WorkerView::Opening { job, launch } ==> {
                ||| state == after
                ||| state == (WorkerView::AwaitingStart { job }) && event
                    == WorkerEventView::Received(
                    WorkerRequestView::Start { cmd: launch.cmd, env: launch.env },
                )
            }
            &&& after matches WorkerView::LookingUp { job, launch } ==> {
                ||| state == after
                ||| state == (WorkerView::Opening { job, launch })
            }
            &&& after.job() matches Some(job) ==> {
                ||| state.job() == Some(job)
                ||| state is Fresh
            }
        }),
{
}

/// Jobs, commands, users and plans keep what they hold.
pub proof fn plans_are_kept(job: Job, launch: Launch, user_info: UserInfo, plan: Plan)
    ensures
        job@.service == job.service@,
        job@.class == job.class,
        job@.user == job.user@,
        job@.authenticate == job.authenticate,
        job@.tty == job.tty@,
        job@.source_profile == job.source_profile,
        job@.greetd_sock == job.greetd_sock@,
        launch@.cmd == launch.cmd.deep_view(),
        launch@.env == launch.env.deep_view(),
        user_info@.name == user_info.name@,
        user_info@.dir == user_info.dir@,
        user_info@.home == user_info.home@,
        user_info@.shell == user_info.shell@,
        user_info@.uid == user_info.uid,
        user_info@.gid == user_info.gid,
        plan@.job == plan.job@,
        plan@.launch == plan.launch@,
        plan@.user_info == plan.user_info@,
{
}

/// States keep what they hold.
pub proof fn states_are_kept(
    job: Job,
    launch: Launch,
    plan: Plan,
    password: String,
    environment: Vec<String>,
    child: i32,
)
    ensures
        Worker::Fresh@ == WorkerView::Fresh,
        (Worker::StartingPam { job })@ == (WorkerView::StartingPam { job: job@ }),
        (Worker::Prompting { job })@ == (WorkerView::Prompting { job: job@ }),
        (Worker::AwaitingAnswer { job })@ == (WorkerView::AwaitingAnswer { job: job@ }),
        (Worker::Authenticating { job, password })@ == (WorkerView::Authenticating {
            job: job@,
            password: password@,
        }),
        (Worker::Unlocking { job })@ == (WorkerView::Unlocking { job: job@ }),
        (Worker::Announcing { job })@ == (WorkerView::Announcing { job: job@ }),
        (Worker::AwaitingStart { job })@ == (WorkerView::AwaitingStart { job: job@ }),
        (Worker::Opening { job, launch })@ == (WorkerView::Opening {
            job: job@,
            launch: launch@,
        }),
        (Worker::LookingUp { job, launch })@ == (WorkerView::LookingUp {
            job: job@,
            launch: launch@,
        }),
        (Worker::Leading { plan })@ == (WorkerView::Leading { plan: plan@ }),
        (Worker::OpeningTerminal { plan })@ == (WorkerView::OpeningTerminal { plan: plan@ }),
        (Worker::SettingTextMode { plan })@ == (WorkerView::SettingTextMode { plan: plan@ }),
        (Worker::Activating { plan })@ == (WorkerView::Activating { plan: plan@ }),
        (Worker::Forking { plan, environment })@ == (WorkerView::Forking {
            plan: plan@,
            environment: environment.deep_view(),
        }),
        (Worker::Reporting { child })@ == (WorkerView::Reporting { child }),
        (Worker::Waiting { child })@ == (WorkerView::Waiting { child }),
        Worker::Closing@ == WorkerView::Closing,
        (Worker::JoiningGroups { plan, environment })@ == (WorkerView::JoiningGroups {
            plan: plan@,
            environment: environment.deep_view(),
        }),
        (Worker::SettingGid { plan, environment })@ == (WorkerView::SettingGid {
            plan: plan@,
            environment: environment.deep_view(),
        }),
        (Worker::SettingUid { plan, environment })@ == (WorkerView::SettingUid {
            plan: plan@,
            environment: environment.deep_view(),
        }),
        (Worker::GoingHome { plan, environment })@ == (WorkerView::GoingHome {
            plan: plan@,
            environment: environment.deep_view(),
        }),
        Worker::Executing@ == WorkerView::Executing,
        Worker::Ended@ == WorkerView::Ended,
{
}

/// Actions keep what they hold.
pub proof fn worker_actions_are_kept(
    response: WorkerResponse,
    text: String,
    password: String,
    number: u32,
    child: i32,
    dir: Vec<u8>,
    args: Vec<String>,
    env: Vec<String>,
    result: Result<(), Error>,
)
    ensures
        WorkerAction::Receive@ == WorkerActionView::Receive,
        WorkerAction::Send(response)@ == WorkerActionView::Send(response@),
        (WorkerAction::StartPam { service: text })@ == (WorkerActionView::StartPam {
            service: text@,
        }),
        (WorkerAction::Authenticate { user: text, password })@ == (WorkerActionView::Authenticate {
            user: text@,
            password: password@,
        }),
        (WorkerAction::UnlockKeyring { user: text, password })@
            == (WorkerActionView::UnlockKeyring { user: text@, password: password@ }),
        WorkerAction::OpenSession@ == WorkerActionView::OpenSession,
        (WorkerAction::LookUpUser { user: text })@ == (WorkerActionView::LookUpUser {
            user: text@,
        }),
        WorkerAction::BecomeLeader@ == WorkerActionView::BecomeLeader,
        (WorkerAction::OpenTerminal { path: text })@ == (WorkerActionView::OpenTerminal {
            path: text@,
        }),
        WorkerAction::SetTextMode@ == WorkerActionView::SetTextMode,
        (WorkerAction::ActivateVt { vt: number })@ == (WorkerActionView::ActivateVt {
            vt: number,
        }),
        WorkerAction::Fork@ == WorkerActionView::Fork,
        (WorkerAction::Wait { child })@ == (WorkerActionView::Wait { child }),
        WorkerAction::CloseSession@ == WorkerActionView::CloseSession,
        (WorkerAction::InitGroups { name: text, gid: number })@ == (WorkerActionView::InitGroups {
            name: text@,
            gid: number,
        }),
        (WorkerAction::SetGid { gid: number })@ == (WorkerActionView::SetGid { gid: number }),
        (WorkerAction::SetUid { uid: number })@ == (WorkerActionView::SetUid { uid: number }),
        (WorkerAction::ChangeDirectory { dir })@ == (WorkerActionView::ChangeDirectory {
            dir: dir@,
        }),
        (WorkerAction::Exec { path: text, args, env })@ == (WorkerActionView::Exec {
            path: text@,
            args: args.deep_view(),
            env: env.deep_view(),
        }),
        WorkerAction::Leave(result)@ == WorkerActionView::Leave(error::outcome(result)),
        (WorkerAction::Quit { code: child })@ == (WorkerActionView::Quit { code: child }),
        WorkerAction::Nothing@ == WorkerActionView::Nothing,
{
}

/// Reports keep what they hold.
pub proof fn worker_events_are_kept(
    error: Error,
    why: String,
    request: WorkerRequest,
    user_info: UserInfo,
    fork: ForkResult,
)
    ensures
        WorkerEvent::Done@ == WorkerEventView::Done,
        WorkerEvent::Failed(error)@ == WorkerEventView::Failed(error@),
        WorkerEvent::PamFailed(why)@ == WorkerEventView::PamFailed(why@),
        WorkerEvent::Received(request)@ == WorkerEventView::Received(request@),
        WorkerEvent::Found(Some(user_info))@ == WorkerEventView::Found(Some(user_info@)),
        WorkerEvent::Found(None)@ == WorkerEventView::Found(None),
        WorkerEvent::Forked(fork)@ == WorkerEventView::Forked(fork),
        WorkerEvent::Interrupted@ == WorkerEventView::Interrupted,
{
}

/// A worker begins by waiting for the first message.
pub proof fn worker_begins_by_listening()
    ensures
        WorkerView::listening().0 == WorkerView::Fresh,
        WorkerView::listening().1 == WorkerActionView::Receive,
{
}

/// Whether such a message to start a command came.
pub open spec fn start_received(events: Seq<WorkerEventView>, launch: LaunchView) -> bool {
    events.contains(
        WorkerEventView::Received(WorkerRequestView::Start { cmd: launch.cmd, env: launch.env }),
    )
}

/// Whether such an entry of a user was found.
pub open spec fn user_found(events: Seq<WorkerEventView>, user_info: UserInfoView) -> bool {
    events.contains(WorkerEventView::Found(Some(user_info)))
}

proof fn lemma_received_stays(events: Seq<WorkerEventView>, event: WorkerEventView)
    requires
        events.len() > 0,
        events.drop_last().contains(event),
    ensures
        events.contains(event),
{
    let earlier = events.drop_last();
    let i = choose|i: int| 0 <= i < earlier.len() && earlier[i] == event;
    assert(events[i] == event);
}

/// What a session is started from was received: the command and what is added to
/// its environment are those of a message, word by word, and the user's entry is
/// one that was found.
pub proof fn plan_is_made_of_what_was_received(events: Seq<WorkerEventView>)
    ensures
        worker_laws::run(events) matches WorkerView::Opening { launch, .. } ==> start_received(
            events,
            launch,
        ),
        worker_laws::run(events) matches WorkerView::LookingUp { launch, .. } ==> start_received(
            events,
            launch,
        ),
        worker_laws::run(events).plan() matches Some(plan) ==> start_received(events, plan.launch)
            && user_found(events, plan.user_info),
    decreases events.len(),
{
    if events.len() > 0 {
        let earlier = events.drop_last();
        let state = worker_laws::run(earlier);
        let event = events.last();
        reveal(worker_laws::moved);
        plan_is_made_of_what_was_received(earlier);
        what_a_worker_holds_stays(state, event);
        assert(events[events.len() - 1] == event);
        assert(events.contains(event));
        let launch = match worker_laws::run(events) {
            WorkerView::Opening { launch, .. } => launch,
            WorkerView::LookingUp { launch, .. } => launch,
            after => after.plan()->0.launch,
        };
        let start = WorkerEventView::Received(
            WorkerRequestView::Start { cmd: launch.cmd, env: launch.env },
        );
        if earlier.contains(start) {
            lemma_received_stays(events, start);
        }
        let found = WorkerEventView::Found(Some(worker_laws::run(events).plan()->0.user_info));
        if earlier.contains(found) {
            lemma_received_stays(events, found);
        }
    }
}

} // verus!
