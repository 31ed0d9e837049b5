//! The worker of a session: it authenticates the user, opens the session,
//! starts the session's command and waits for it.
//!
//! A [`Worker`] is the state that a worker process is in. Each action that it
//! asks for is performed by the process, which then reports how the action
//! went; the report leads to the next state and the next action.

use vstd::prelude::*;
use vstd::string::*;

use crate::error;
use crate::error::{c_string, c_strings, prefixed, Error, ErrorView};
use crate::session::{ForkResult, SessionClass, WorkerRequest, WorkerRequestView, WorkerResponse, WorkerResponseView};
use crate::terminal::{TerminalMode, TerminalModeView};
use crate::text;

verus! {

/// What a worker is asked to do, out of the first message to it.
#[derive(Debug)]
pub struct Job {
    pub service: String,
    pub class: SessionClass,
    pub user: String,
    pub authenticate: bool,
    pub tty: TerminalMode,
    pub source_profile: bool,
    pub greetd_sock: String,
}

/// The command to start, and what the greeter adds to its environment.
#[derive(Debug)]
pub struct Launch {
    pub cmd: Vec<String>,
    pub env: Vec<String>,
}

/// The system's entry for a user.
#[derive(Debug)]
pub struct UserInfo {
    pub name: String,
    /// The home directory as text, for the environment.
    pub dir: String,
    /// The home directory's path as the system has it, which need not be text.
    pub home: Vec<u8>,
    pub shell: String,
    pub uid: u32,
    pub gid: u32,
}

/// Everything that a session is started from.
#[derive(Debug)]
pub struct Plan {
    pub job: Job,
    pub launch: Launch,
    pub user_info: UserInfo,
}

/// The state of a worker.
#[derive(Debug)]
pub enum Worker {
    /// It waits for the first message.
    Fresh,
    /// It sets up PAM.
    StartingPam { job: Job },
    /// It sends the prompt for the password.
    Prompting { job: Job },
    /// It waits for the answer to the prompt.
    AwaitingAnswer { job: Job },
    /// PAM checks the password.
    Authenticating { job: Job, password: String },
    /// The user's keyring is being unlocked.
    Unlocking { job: Job },
    /// It tells the daemon that the user is authenticated.
    Announcing { job: Job },
    /// It waits for the command to start.
    AwaitingStart { job: Job },
    /// PAM opens the session.
    Opening { job: Job, launch: Launch },
    /// It looks up the user.
    LookingUp { job: Job, launch: Launch },
    /// It becomes the leader of a new process session.
    Leading { plan: Plan },
    /// It opens the terminal.
    OpeningTerminal { plan: Plan },
    /// It sets the terminal to text mode.
    SettingTextMode { plan: Plan },
    /// It switches to the terminal.
    Activating { plan: Plan },
    /// It forks off the session's process.
    Forking { plan: Plan, environment: Vec<String> },
    /// It tells the daemon that the session has started.
    Reporting { child: i32 },
    /// It waits for the session's process to end.
    Waiting { child: i32 },
    /// PAM closes the session.
    Closing,
    /// The session's process takes on the user's groups.
    JoiningGroups { plan: Plan, environment: Vec<String> },
    /// The session's process takes on the user's main group.
    SettingGid { plan: Plan, environment: Vec<String> },
    /// The session's process takes on the user's id.
    SettingUid { plan: Plan, environment: Vec<String> },
    /// The session's process changes to the user's home directory.
    GoingHome { plan: Plan, environment: Vec<String> },
    /// The session's process runs the session's command.
    Executing,
    /// It has left.
    Ended,
}

/// What a worker asks its process to do.
#[derive(Debug)]
pub enum WorkerAction {
    /// Receive a message from the daemon.
    Receive,
    /// Send a message to the daemon.
    Send(WorkerResponse),
    /// Set up PAM for a service.
    StartPam { service: String },
    /// Have PAM authenticate the user.
    Authenticate { user: String, password: String },
    /// Unlock the user's keyring, as far as that is possible.
    UnlockKeyring { user: String, password: String },
    /// Have PAM open the session.
    OpenSession,
    /// Look up the user's entry.
    LookUpUser { user: String },
    /// Become the leader of a new process session.
    BecomeLeader,
    /// Open the terminal at a path.
    OpenTerminal { path: String },
    /// Set the opened terminal to text mode.
    SetTextMode,
    /// Switch to a virtual terminal.
    ActivateVt { vt: u32 },
    /// Fork.
    Fork,
    /// Wait for a child to end.
    Wait { child: i32 },
    /// Have PAM close the session.
    CloseSession,
    /// Take on the groups of a user.
    InitGroups { name: String, gid: u32 },
    /// Take on a group id.
    SetGid { gid: u32 },
    /// Take on a user id.
    SetUid { uid: u32 },
    /// Change to the directory at a path.
    ChangeDirectory { dir: Vec<u8> },
    /// Run a program in place of this one.
    Exec { path: String, args: Vec<String>, env: Vec<String> },
    /// Leave the worker with a result.
    Leave(Result<(), Error>),
    /// Exit at once with a status.
    Quit { code: i32 },
    /// Nothing.
    Nothing,
}

/// How an action went.
#[derive(Debug)]
pub enum WorkerEvent {
    /// It is done.
    Done,
    /// It failed.
    Failed(Error),
    /// PAM refused it, with an explanation.
    PamFailed(String),
    /// A message came.
    Received(WorkerRequest),
    /// The user has this entry, or none.
    Found(Option<UserInfo>),
    /// The fork is done.
    Forked(ForkResult),
    /// A signal cut it short.
    Interrupted,
}

/// The contents of a [`Job`].
pub struct JobView {
    pub service: Seq<char>,
    pub class: SessionClass,
    pub user: Seq<char>,
    pub authenticate: bool,
    pub tty: TerminalModeView,
    pub source_profile: bool,
    pub greetd_sock: Seq<char>,
}

/// The contents of a [`Launch`].
pub struct LaunchView {
    pub cmd: Seq<Seq<char>>,
    pub env: Seq<Seq<char>>,
}

/// The contents of a [`UserInfo`].
pub struct UserInfoView {
    pub name: Seq<char>,
    pub dir: Seq<char>,
    pub home: Seq<u8>,
    pub shell: Seq<char>,
    pub uid: u32,
    pub gid: u32,
}

/// The contents of a [`Plan`].
pub struct PlanView {
    pub job: JobView,
    pub launch: LaunchView,
    pub user_info: UserInfoView,
}

/// The contents of a [`Worker`].
pub enum WorkerView {
    Fresh,
    StartingPam { job: JobView },
    Prompting { job: JobView },
    AwaitingAnswer { job: JobView },
    Authenticating { job: JobView, password: Seq<char> },
    Unlocking { job: JobView },
    Announcing { job: JobView },
    AwaitingStart { job: JobView },
    Opening { job: JobView, launch: LaunchView },
    LookingUp { job: JobView, launch: LaunchView },
    Leading { plan: PlanView },
    OpeningTerminal { plan: PlanView },
    SettingTextMode { plan: PlanView },
    Activating { plan: PlanView },
    Forking { plan: PlanView, environment: Seq<Seq<char>> },
    Reporting { child: i32 },
    Waiting { child: i32 },
    Closing,
    JoiningGroups { plan: PlanView, environment: Seq<Seq<char>> },
    SettingGid { plan: PlanView, environment: Seq<Seq<char>> },
    SettingUid { plan: PlanView, environment: Seq<Seq<char>> },
    GoingHome { plan: PlanView, environment: Seq<Seq<char>> },
    Executing,
    Ended,
}

/// The contents of a [`WorkerAction`].
pub enum WorkerActionView {
    Receive,
    Send(WorkerResponseView),
    StartPam { service: Seq<char> },
    Authenticate { user: Seq<char>, password: Seq<char> },
    UnlockKeyring { user: Seq<char>, password: Seq<char> },
    OpenSession,
    LookUpUser { user: Seq<char> },
    BecomeLeader,
    OpenTerminal { path: Seq<char> },
    SetTextMode,
    ActivateVt { vt: u32 },
    Fork,
    Wait { child: i32 },
    CloseSession,
    InitGroups { name: Seq<char>, gid: u32 },
    SetGid { gid: u32 },
    SetUid { uid: u32 },
    ChangeDirectory { dir: Seq<u8> },
    Exec { path: Seq<char>, args: Seq<Seq<char>>, env: Seq<Seq<char>> },
    Leave(Result<(), ErrorView>),
    Quit { code: i32 },
    Nothing,
}

/// The contents of a [`WorkerEvent`].
pub enum WorkerEventView {
    Done,
    Failed(ErrorView),
    PamFailed(Seq<char>),
    Received(WorkerRequestView),
    Found(Option<UserInfoView>),
    Forked(ForkResult),
    Interrupted,
}

impl View for Job {
    type V = JobView;

    open spec fn view(&self) -> JobView {
        JobView {
            service: self.service@,
            class: self.class,
            user: self.user@,
            authenticate: self.authenticate,
            tty: self.tty@,
            source_profile: self.source_profile,
            greetd_sock: self.greetd_sock@,
        }
    }
}

impl View for Launch {
    type V = LaunchView;

    open spec fn view(&self) -> LaunchView {
        LaunchView { cmd: self.cmd.deep_view(), env: self.env.deep_view() }
    }
}

impl View for UserInfo {
    type V = UserInfoView;

    open spec fn view(&self) -> UserInfoView {
        UserInfoView {
            name: self.name@,
            dir: self.dir@,
            home: self.home@,
            shell: self.shell@,
            uid: self.uid,
            gid: self.gid,
        }
    }
}

impl View for Plan {
    type V = PlanView;

    open spec fn view(&self) -> PlanView {
        PlanView { job: self.job@, launch: self.launch@, user_info: self.user_info@ }
    }
}

impl View for Worker {
    type V = WorkerView;

    open spec fn view(&self) -> WorkerView {
        match self {
            Worker::Fresh => WorkerView::Fresh,
            Worker::StartingPam { job } => WorkerView::StartingPam { job: job@ },
            Worker::Prompting { job } => WorkerView::Prompting { job: job@ },
            Worker::AwaitingAnswer { job } => WorkerView::AwaitingAnswer { job: job@ },
            Worker::Authenticating { job, password } => WorkerView::Authenticating {
                job: job@,
                password: password@,
            },
            Worker::Unlocking { job } => WorkerView::Unlocking { job: job@ },
            Worker::Announcing { job } => WorkerView::Announcing { job: job@ },
            Worker::AwaitingStart { job } => WorkerView::AwaitingStart { job: job@ },
            Worker::Opening { job, launch } => WorkerView::Opening { job: job@, launch: launch@ },
            Worker::LookingUp { job, launch } => WorkerView::LookingUp {
                job: job@,
                launch: launch@,
            },
            Worker::Leading { plan } => WorkerView::Leading { plan: plan@ },
            Worker::OpeningTerminal { plan } => WorkerView::OpeningTerminal { plan: plan@ },
            Worker::SettingTextMode { plan } => WorkerView::SettingTextMode { plan: plan@ },
            Worker::Activating { plan } => WorkerView::Activating { plan: plan@ },
            Worker::Forking { plan, environment } => WorkerView::Forking {
                plan: plan@,
                environment: environment.deep_view(),
            },
            Worker::Reporting { child } => WorkerView::Reporting { child: *child },
            Worker::Waiting { child } => WorkerView::Waiting { child: *child },
            Worker::Closing => WorkerView::Closing,
            Worker::JoiningGroups { plan, environment } => WorkerView::JoiningGroups {
                plan: plan@,
                environment: environment.deep_view(),
            },
            Worker::SettingGid { plan, environment } => WorkerView::SettingGid {
                plan: plan@,
                environment: environment.deep_view(),
            },
            Worker::SettingUid { plan, environment } => WorkerView::SettingUid {
                plan: plan@,
                environment: environment.deep_view(),
            },
            Worker::GoingHome { plan, environment } => WorkerView::GoingHome {
                plan: plan@,
                environment: environment.deep_view(),
            },
            Worker::Executing => WorkerView::Executing,
            Worker::Ended => WorkerView::Ended,
        }
    }
}

impl View for WorkerAction {
    type V = WorkerActionView;

    open spec fn view(&self) -> WorkerActionView {
        match self {
            WorkerAction::Receive => WorkerActionView::Receive,
            WorkerAction::Send(response) => WorkerActionView::Send(response@),
            WorkerAction::StartPam { service } => WorkerActionView::StartPam { service: service@ },
            WorkerAction::Authenticate { user, password } => WorkerActionView::Authenticate {
                user: user@,
                password: password@,
            },
            WorkerAction::UnlockKeyring { user, password } => WorkerActionView::UnlockKeyring {
                user: user@,
                password: password@,
            },
            WorkerAction::OpenSession => WorkerActionView::OpenSession,
            WorkerAction::LookUpUser { user } => WorkerActionView::LookUpUser { user: user@ },
            WorkerAction::BecomeLeader => WorkerActionView::BecomeLeader,
            WorkerAction::OpenTerminal { path } => WorkerActionView::OpenTerminal { path: path@ },
            WorkerAction::SetTextMode => WorkerActionView::SetTextMode,
            WorkerAction::ActivateVt { vt } => WorkerActionView::ActivateVt { vt: *vt },
            WorkerAction::Fork => WorkerActionView::Fork,
            WorkerAction::Wait { child } => WorkerActionView::Wait { child: *child },
            WorkerAction::CloseSession => WorkerActionView::CloseSession,
            WorkerAction::InitGroups { name, gid } => WorkerActionView::InitGroups {
                name: name@,
                gid: *gid,
            },
            WorkerAction::SetGid { gid } => WorkerActionView::SetGid { gid: *gid },
            WorkerAction::SetUid { uid } => WorkerActionView::SetUid { uid: *uid },
            WorkerAction::ChangeDirectory { dir } => WorkerActionView::ChangeDirectory {
                dir: dir@,
            },
            WorkerAction::Exec { path, args, env } => WorkerActionView::Exec {
                path: path@,
                args: args.deep_view(),
                env: env.deep_view(),
            },
            WorkerAction::Leave(result) => WorkerActionView::Leave(error::outcome(*result)),
            WorkerAction::Quit { code } => WorkerActionView::Quit { code: *code },
            WorkerAction::Nothing => WorkerActionView::Nothing,
        }
    }
}

impl View for WorkerEvent {
    type V = WorkerEventView;

    open spec fn view(&self) -> WorkerEventView {
        match self {
            WorkerEvent::Done => WorkerEventView::Done,
            WorkerEvent::Failed(error) => WorkerEventView::Failed(error@),
            WorkerEvent::PamFailed(why) => WorkerEventView::PamFailed(why@),
            WorkerEvent::Received(request) => WorkerEventView::Received(request@),
            WorkerEvent::Found(Some(user_info)) => WorkerEventView::Found(Some(user_info@)),
            WorkerEvent::Found(None) => WorkerEventView::Found(None),
            WorkerEvent::Forked(fork) => WorkerEventView::Forked(*fork),
            WorkerEvent::Interrupted => WorkerEventView::Interrupted,
        }
    }
}

impl PlanView {
    /// The entries of the session's environment, in order: what every session
    /// gets, the daemon's socket for a greeter, and what the greeter adds.
    pub open spec fn environment(self) -> Seq<Seq<char>> {
        let own = seq![
            "HOME="@ + self.user_info.dir,
            "USER="@ + self.user_info.name,
            "LOGNAME="@ + self.user_info.name,
            "SHELL="@ + self.user_info.shell,
            "TERM=linux"@,
            "XDG_SEAT=seat0"@,
        ];
        let socket = match self.job.class {
            SessionClass::Greeter => seq!["GREETD_SOCK="@ + self.job.greetd_sock],
            SessionClass::User => Seq::empty(),
        };
        own + socket + self.launch.env
    }

    /// The shell command that runs the session's command.
    pub open spec fn command(self) -> Seq<char> {
        let run = "exec "@ + text::joined(self.launch.cmd, " "@);
        if self.job.source_profile {
            "[ -f /etc/profile ] && . /etc/profile; [ -f $HOME/.profile ] && . $HOME/.profile; "@
                + run
        } else {
            run
        }
    }
}

/// A worker that leaves with a result.
pub open spec fn leaves(result: Result<(), ErrorView>) -> (WorkerView, WorkerActionView) {
    (WorkerView::Ended, WorkerActionView::Leave(result))
}

/// A worker that leaves because of a failure.
pub open spec fn fails(error: ErrorView) -> (WorkerView, WorkerActionView) {
    leaves(Err(error))
}

/// A worker whose session is ready to be forked off, unless an entry of its
/// environment cannot be handed to the system.
pub open spec fn forks(plan: PlanView) -> (WorkerView, WorkerActionView) {
    match error::c_texts(plan.environment()) {
        Ok(environment) => (WorkerView::Forking { plan, environment }, WorkerActionView::Fork),
        Err(error) => fails(error),
    }
}

impl WorkerView {
    /// A worker at its start, and its first action.
    pub open spec fn listening() -> (WorkerView, WorkerActionView) {
        (WorkerView::Fresh, WorkerActionView::Receive)
    }

    /// A message that does not fit: `Cancel` ends the worker in peace, any
    /// other is a failure.
    pub open spec fn misfit(request: WorkerRequestView, expected: Seq<char>) -> (
        WorkerView,
        WorkerActionView,
    ) {
        match request {
            WorkerRequestView::Cancel => leaves(Ok(())),
            _ => fails(ErrorView::Other(expected)),
        }
    }

    /// The next state and action up to the moment when the command to start
    /// arrives.
    pub open spec fn next_in_login(self, event: WorkerEventView) -> (
        WorkerView,
        WorkerActionView,
    ) {
        match (self, event) {
            (WorkerView::Fresh, WorkerEventView::Received(request)) => match request {
                WorkerRequestView::Initiate {
                    service,
                    class,
                    user,
                    authenticate,
                    tty,
                    source_profile,
                    greetd_sock,
                } => (
                    WorkerView::StartingPam {
                        job: JobView {
                            service,
                            class,
                            user,
                            authenticate,
                            tty,
                            source_profile,
                            greetd_sock,
                        },
                    },
                    WorkerActionView::StartPam { service },
                ),
                _ => Self::misfit(request, "expected Initiate"@),
            },
            (WorkerView::Fresh, WorkerEventView::Failed(error)) => fails(error),
            (WorkerView::StartingPam { job }, WorkerEventView::Done) => if job.authenticate {
                (
                    WorkerView::Prompting { job },
                    WorkerActionView::Send(
                        WorkerResponseView::AuthPrompt { prompt: "Password: "@, echo: false },
                    ),
                )
            } else {
                (
                    WorkerView::Authenticating { job, password: Seq::empty() },
                    WorkerActionView::Authenticate { user: job.user, password: Seq::empty() },
                )
            },
            (WorkerView::StartingPam { job }, WorkerEventView::PamFailed(why)) => fails(
                ErrorView::Auth("PAM init failed: "@ + why),
            ),
            (WorkerView::Prompting { job }, WorkerEventView::Done) => (
                WorkerView::AwaitingAnswer { job },
                WorkerActionView::Receive,
            ),
            (WorkerView::Prompting { job }, WorkerEventView::Failed(error)) => fails(error),
            (WorkerView::AwaitingAnswer { job }, WorkerEventView::Received(request)) => {
                match request {
                    WorkerRequestView::AuthResponse(answer) => {
                        let password = match answer {
                            Some(password) => password,
                            None => Seq::empty(),
                        };
                        (
                            WorkerView::Authenticating { job, password },
                            WorkerActionView::Authenticate { user: job.user, password },
                        )
                    },
                    _ => Self::misfit(request, "expected AuthResponse"@),
                }
            },
            (WorkerView::AwaitingAnswer { job }, WorkerEventView::Failed(error)) => fails(error),
            (WorkerView::Authenticating { job, password }, WorkerEventView::Done) => {
                if job.authenticate {
                    (
                        WorkerView::Unlocking { job },
                        WorkerActionView::UnlockKeyring { user: job.user, password },
                    )
                } else {
                    (
                        WorkerView::Announcing { job },
                        WorkerActionView::Send(WorkerResponseView::Ready),
                    )
                }
            },
            (WorkerView::Authenticating { job, password }, WorkerEventView::PamFailed(why)) => {
                fails(ErrorView::Auth("authentication failed: "@ + why))
            },
            (WorkerView::Unlocking { job }, WorkerEventView::Done) => (
                WorkerView::Announcing { job },
                WorkerActionView::Send(WorkerResponseView::Ready),
            ),
            (WorkerView::Announcing { job }, WorkerEventView::Done) => (
                WorkerView::AwaitingStart { job },
                WorkerActionView::Receive,
            ),
            (WorkerView::Announcing { job }, WorkerEventView::Failed(error)) => fails(error),
            (WorkerView::AwaitingStart { job }, WorkerEventView::Received(request)) => {
                match request {
                    WorkerRequestView::Start { cmd, env } => (
                        WorkerView::Opening { job, launch: LaunchView { cmd, env } },
                        WorkerActionView::OpenSession,
                    ),
                    _ => Self::misfit(request, "expected Start"@),
                }
            },
            (WorkerView::AwaitingStart { job }, WorkerEventView::Failed(error)) => fails(error),
            _ => (self, WorkerActionView::Nothing),
        }
    }

    /// The next state and action between the command to start and the fork.
    pub open spec fn next_in_preparation(self, event: WorkerEventView) -> (
        WorkerView,
        WorkerActionView,
    ) {
        match (self, event) {
            (WorkerView::Opening { job, launch }, WorkerEventView::Done) => (
                WorkerView::LookingUp { job, launch },
                WorkerActionView::LookUpUser { user: job.user },
            ),
            (WorkerView::Opening { job, launch }, WorkerEventView::PamFailed(why)) => fails(
                ErrorView::Other("failed to open session: "@ + why),
            ),
            (WorkerView::LookingUp { job, launch }, WorkerEventView::Found(Some(user_info))) => (
                WorkerView::Leading { plan: PlanView { job, launch, user_info } },
                WorkerActionView::BecomeLeader,
            ),
            (WorkerView::LookingUp { job, launch }, WorkerEventView::Found(None)) => fails(
                ErrorView::Other("user not found: "@ + job.user),
            ),
            (WorkerView::LookingUp { job, launch }, WorkerEventView::Failed(error)) => fails(error),
            (WorkerView::Leading { plan }, WorkerEventView::Done) => match plan.job.tty {
                TerminalModeView::Vt { path, vt, switch } => (
                    WorkerView::OpeningTerminal { plan },
                    WorkerActionView::OpenTerminal { path },
                ),
                TerminalModeView::Stdin => forks(plan),
            },
            (WorkerView::Leading { plan }, WorkerEventView::Failed(error)) => fails(error),
            (WorkerView::OpeningTerminal { plan }, WorkerEventView::Done) => (
                WorkerView::SettingTextMode { plan },
                WorkerActionView::SetTextMode,
            ),
            (WorkerView::OpeningTerminal { plan }, WorkerEventView::Failed(error)) => fails(error),
            (WorkerView::SettingTextMode { plan }, WorkerEventView::Done) => match plan.job.tty {
                TerminalModeView::Vt { path, vt, switch: true } => (
                    WorkerView::Activating { plan },
                    WorkerActionView::ActivateVt { vt },
                ),
                _ => forks(plan),
            },
            (WorkerView::SettingTextMode { plan }, WorkerEventView::Failed(error)) => fails(error),
            (WorkerView::Activating { plan }, WorkerEventView::Done) => forks(plan),
            (WorkerView::Activating { plan }, WorkerEventView::Failed(error)) => fails(error),
            _ => (self, WorkerActionView::Nothing),
        }
    }

    /// The next state and action from the fork on, in the worker and in the
    /// session's process.
    pub open spec fn next_after_preparation(self, event: WorkerEventView) -> (
        WorkerView,
        WorkerActionView,
    ) {
        match (self, event) {
            (WorkerView::Forking { plan, environment }, WorkerEventView::Forked(fork)) => {
                match fork {
                    ForkResult::Parent { child } => (
                        WorkerView::Reporting { child },
                        WorkerActionView::Send(
                            WorkerResponseView::Started {
                                pid: (child as int % 0x1_0000_0000) as u32,
                            },
                        ),
                    ),
                    ForkResult::Child => match error::c_text(plan.user_info.name) {
                        Ok(name) => (
                            WorkerView::JoiningGroups { plan, environment },
                            WorkerActionView::InitGroups { name, gid: plan.user_info.gid },
                        ),
                        Err(error) => fails(error),
                    },
                }
            },
            (WorkerView::Forking { plan, environment }, WorkerEventView::Failed(error)) => {
                fails(error)
            },
            (WorkerView::Reporting { child }, WorkerEventView::Done) => (
                WorkerView::Waiting { child },
                WorkerActionView::Wait { child },
            ),
            (WorkerView::Reporting { child }, WorkerEventView::Failed(error)) => fails(error),
            (WorkerView::Waiting { child }, WorkerEventView::Interrupted) => (
                self,
                WorkerActionView::Wait { child },
            ),
            (WorkerView::Waiting { child }, WorkerEventView::Done) => (
                WorkerView::Closing,
                WorkerActionView::CloseSession,
            ),
            (WorkerView::Waiting { child }, WorkerEventView::Failed(error)) => (
                WorkerView::Closing,
                WorkerActionView::CloseSession,
            ),
            (WorkerView::Closing, WorkerEventView::Done) => leaves(Ok(())),
            (WorkerView::JoiningGroups { plan, environment }, WorkerEventView::Done) => (
                WorkerView::SettingGid { plan, environment },
                WorkerActionView::SetGid { gid: plan.user_info.gid },
            ),
            (WorkerView::JoiningGroups { plan, environment }, WorkerEventView::Failed(error)) => {
                fails(error)
            },
            (WorkerView::SettingGid { plan, environment }, WorkerEventView::Done) => (
                WorkerView::SettingUid { plan, environment },
                WorkerActionView::SetUid { uid: plan.user_info.uid },
            ),
            (WorkerView::SettingGid { plan, environment }, WorkerEventView::Failed(error)) => {
                fails(error)
            },
            (WorkerView::SettingUid { plan, environment }, WorkerEventView::Done) => (
                WorkerView::GoingHome { plan, environment },
                WorkerActionView::ChangeDirectory { dir: plan.user_info.home },
            ),
            (WorkerView::SettingUid { plan, environment }, WorkerEventView::Failed(error)) => {
                fails(error)
            },
            (WorkerView::GoingHome { plan, environment }, WorkerEventView::Done) => {
                executes(plan, environment)
            },
            (WorkerView::GoingHome { plan, environment }, WorkerEventView::Failed(_)) => {
                executes(plan, environment)
            },
            (WorkerView::Executing, WorkerEventView::Failed(_)) => (
                WorkerView::Ended,
                WorkerActionView::Quit { code: 1 },
            ),
            _ => (self, WorkerActionView::Nothing),
        }
    }

    /// Whether the state comes before the command to start.
    pub open spec fn in_login(self) -> bool {
        self is Fresh || self is StartingPam || self is Prompting || self is AwaitingAnswer
            || self is Authenticating || self is Unlocking || self is Announcing
            || self is AwaitingStart
    }

    /// Whether the state lies between the command to start and the fork.
    pub open spec fn in_preparation(self) -> bool {
        self is Opening || self is LookingUp || self is Leading || self is OpeningTerminal
            || self is SettingTextMode || self is Activating
    }

    /// The next state and action. A report that does not fit the state changes
    /// nothing.
    pub open spec fn next(self, event: WorkerEventView) -> (WorkerView, WorkerActionView) {
        if self.in_login() {
            self.next_in_login(event)
        } else if self.in_preparation() {
            self.next_in_preparation(event)
        } else {
            self.next_after_preparation(event)
        }
    }
}

/// A session's process that runs the session's command, unless the command
/// cannot be handed to the system.
pub open spec fn executes(plan: PlanView, environment: Seq<Seq<char>>) -> (
    WorkerView,
    WorkerActionView,
) {
    match error::c_text(plan.command()) {
        Ok(command) => (
            WorkerView::Executing,
            WorkerActionView::Exec {
                path: "/bin/sh"@,
                args: seq!["/bin/sh"@, "-c"@, command],
                env: environment,
            },
        ),
        Err(error) => fails(error),
    }
}

/// Leaves the worker with a result.
fn leave(result: Result<(), Error>) -> (r: (Worker, WorkerAction))
    ensures
        (r.0@, r.1@) == leaves(error::outcome(result)),
{
    (Worker::Ended, WorkerAction::Leave(result))
}

/// Leaves the worker because of a message that does not fit.
fn misfit(request: WorkerRequest, expected: &str) -> (r: (Worker, WorkerAction))
    ensures
        (r.0@, r.1@) == WorkerView::misfit(request@, expected@),
{
    match request {
        WorkerRequest::Cancel => leave(Ok(())),
        _ => leave(Err(Error::from(expected))),
    }
}

impl Plan {
    /// The entries of the session's environment.
    fn environment(&self) -> (r: Vec<String>)
        ensures
            r.deep_view() == self@.environment(),
    {
        let mut entries = vec![
            prefixed("HOME=", self.user_info.dir.as_str()),
            prefixed("USER=", self.user_info.name.as_str()),
            prefixed("LOGNAME=", self.user_info.name.as_str()),
            prefixed("SHELL=", self.user_info.shell.as_str()),
            "TERM=linux".to_string(),
            "XDG_SEAT=seat0".to_string(),
        ];
        let ghost own = entries.deep_view();
        assert(own =~= seq![
            "HOME="@ + self.user_info.dir@,
            "USER="@ + self.user_info.name@,
            "LOGNAME="@ + self.user_info.name@,
            "SHELL="@ + self.user_info.shell@,
            "TERM=linux"@,
            "XDG_SEAT=seat0"@,
        ]);
        match self.job.class {
            SessionClass::Greeter => {
                entries.push(prefixed("GREETD_SOCK=", self.job.greetd_sock.as_str()));
                assert(entries.deep_view() =~= own + seq!["GREETD_SOCK="@ + self.job.greetd_sock@]);
            },
            SessionClass::User => {
                assert(entries.deep_view() =~= own + Seq::<Seq<char>>::empty());
            },
        }
        let ghost before = entries.deep_view();
        let ghost added = self.launch.env.deep_view();
        let mut i: usize = 0;
        while i < self.launch.env.len()
            invariant
                i <= self.launch.env.len(),
                added == self.launch.env.deep_view(),
                entries.deep_view() == before + added.take(i as int),
            decreases self.launch.env.len() - i,
        {
            let ghost so_far = entries.deep_view();
            entries.push(self.launch.env[i].clone());
            assert(entries.deep_view() =~= so_far.push(added[i as int]));
            assert(added.take(i + 1) =~= added.take(i as int).push(added[i as int]));
            assert(entries.deep_view() =~= before + added.take(i + 1));
            i = i + 1;
        }
        assert(added.take(i as int) =~= added);
        entries
    }

    /// The shell command that runs the session's command.
    fn command(&self) -> (r: String)
        ensures
            r@ == self@.command(),
    {
        let run = prefixed("exec ", text::join(&self.launch.cmd, " ").as_str());
        if self.job.source_profile {
            prefixed(
                "[ -f /etc/profile ] && . /etc/profile; [ -f $HOME/.profile ] && . $HOME/.profile; ",
                run.as_str(),
            )
        } else {
            run
        }
    }
}

/// Asks for the fork, once the environment is known to be sound.
fn fork(plan: Plan) -> (r: (Worker, WorkerAction))
    ensures
        (r.0@, r.1@) == forks(plan@),
{
    match c_strings(plan.environment()) {
        Ok(environment) => (Worker::Forking { plan, environment }, WorkerAction::Fork),
        Err(error) => leave(Err(error)),
    }
}

/// Asks to run the session's command.
fn execute(plan: Plan, environment: Vec<String>) -> (r: (Worker, WorkerAction))
    ensures
        (r.0@, r.1@) == executes(plan@, environment.deep_view()),
{
    match c_string(plan.command()) {
        Ok(command) => {
            let args = vec!["/bin/sh".to_string(), "-c".to_string(), command];
            assert(args.deep_view() =~= seq!["/bin/sh"@, "-c"@, command@]);
            (
                Worker::Executing,
                WorkerAction::Exec { path: "/bin/sh".to_string(), args, env: environment },
            )
        },
        Err(error) => leave(Err(error)),
    }
}

impl Worker {
    /// A worker that has just been forked off, and its first action: to
    /// receive a message.
    pub fn new() -> (r: (Worker, WorkerAction))
        ensures
            (r.0@, r.1@) == (WorkerView::Fresh, WorkerActionView::Receive),
            (r.0@, r.1@) == WorkerView::listening(),
    {
        (Worker::Fresh, WorkerAction::Receive)
    }

    fn is_in_login(&self) -> (r: bool)
        ensures
            r == self@.in_login(),
    {
        matches!(
            self,
            Worker::Fresh | Worker::StartingPam { .. } | Worker::Prompting { .. }
                | Worker::AwaitingAnswer { .. } | Worker::Authenticating { .. }
                | Worker::Unlocking { .. } | Worker::Announcing { .. }
                | Worker::AwaitingStart { .. }
        )
    }

    fn is_in_preparation(&self) -> (r: bool)
        ensures
            r == self@.in_preparation(),
    {
        matches!(
            self,
            Worker::Opening { .. } | Worker::LookingUp { .. } | Worker::Leading { .. }
                | Worker::OpeningTerminal { .. } | Worker::SettingTextMode { .. }
                | Worker::Activating { .. }
        )
    }

    fn step_in_login(self, event: WorkerEvent) -> (r: (Worker, WorkerAction))
        ensures
            (r.0@, r.1@) == self@.next_in_login(event@),
    {
        match (self, event) {
            (Worker::Fresh, WorkerEvent::Received(request)) => match request {
                WorkerRequest::Initiate {
                    service,
                    class,
                    user,
                    authenticate,
                    tty,
                    source_profile,
                    greetd_sock,
                } => {
                    let action = WorkerAction::StartPam { service: service.clone() };
                    let job = Job {
                        service,
                        class,
                        user,
                        authenticate,
                        tty,
                        source_profile,
                        greetd_sock,
                    };
                    (Worker::StartingPam { job }, action)
                },
                other => misfit(other, "expected Initiate"),
            },
            (Worker::Fresh, WorkerEvent::Failed(error)) => leave(Err(error)),
            (Worker::StartingPam { job }, WorkerEvent::Done) => {
                if job.authenticate {
                    (
                        Worker::Prompting { job },
                        WorkerAction::Send(
                            WorkerResponse::AuthPrompt {
                                prompt: "Password: ".to_string(),
                                echo: false,
                            },
                        ),
                    )
                } else {
                    let action = WorkerAction::Authenticate {
                        user: job.user.clone(),
                        password: String::new(),
                    };
                    (Worker::Authenticating { job, password: String::new() }, action)
                }
            },
            (Worker::StartingPam { job }, WorkerEvent::PamFailed(why)) => {
                leave(Err(Error::Auth(prefixed("PAM init failed: ", why.as_str()))))
            },
            (Worker::Prompting { job }, WorkerEvent::Done) => {
                (Worker::AwaitingAnswer { job }, WorkerAction::Receive)
            },
            (Worker::Prompting { job }, WorkerEvent::Failed(error)) => leave(Err(error)),
            (Worker::AwaitingAnswer { job }, WorkerEvent::Received(request)) => match request {
                WorkerRequest::AuthResponse(answer) => {
                    let password = match answer {
                        Some(password) => password,
                        None => String::new(),
                    };
                    let action = WorkerAction::Authenticate {
                        user: job.user.clone(),
                        password: password.clone(),
                    };
                    (Worker::Authenticating { job, password }, action)
                },
                other => misfit(other, "expected AuthResponse"),
            },
            (Worker::AwaitingAnswer { job }, WorkerEvent::Failed(error)) => leave(Err(error)),
            (Worker::Authenticating { job, password }, WorkerEvent::Done) => {
                if job.authenticate {
                    let action = WorkerAction::UnlockKeyring { user: job.user.clone(), password };
                    (Worker::Unlocking { job }, action)
                } else {
                    (Worker::Announcing { job }, WorkerAction::Send(WorkerResponse::Ready))
                }
            },
            (Worker::Authenticating { job, password }, WorkerEvent::PamFailed(why)) => {
                leave(Err(Error::Auth(prefixed("authentication failed: ", why.as_str()))))
            },
            (Worker::Unlocking { job }, WorkerEvent::Done) => {
                (Worker::Announcing { job }, WorkerAction::Send(WorkerResponse::Ready))
            },
            (Worker::Announcing { job }, WorkerEvent::Done) => {
                (Worker::AwaitingStart { job }, WorkerAction::Receive)
            },
            (Worker::Announcing { job }, WorkerEvent::Failed(error)) => leave(Err(error)),
            (Worker::AwaitingStart { job }, WorkerEvent::Received(request)) => match request {
                WorkerRequest::Start { cmd, env } => {
                    (
                        Worker::Opening { job, launch: Launch { cmd, env } },
                        WorkerAction::OpenSession,
                    )
                },
                other => misfit(other, "expected Start"),
            },
            (Worker::AwaitingStart { job }, WorkerEvent::Failed(error)) => leave(Err(error)),
            (worker, _) => (worker, WorkerAction::Nothing),
        }
    }

    fn step_in_preparation(self, event: WorkerEvent) -> (r: (Worker, WorkerAction))
        ensures
            (r.0@, r.1@) == self@.next_in_preparation(event@),
    {
        match (self, event) {
            (Worker::Opening { job, launch }, WorkerEvent::Done) => {
                let action = WorkerAction::LookUpUser { user: job.user.clone() };
                (Worker::LookingUp { job, launch }, action)
            },
            (Worker::Opening { job, launch }, WorkerEvent::PamFailed(why)) => {
                leave(Err(Error::Other(prefixed("failed to open session: ", why.as_str()))))
            },
            (Worker::LookingUp { job, launch }, WorkerEvent::Found(Some(user_info))) => {
                (
                    Worker::Leading { plan: Plan { job, launch, user_info } },
                    WorkerAction::BecomeLeader,
                )
            },
            (Worker::LookingUp { job, launch }, WorkerEvent::Found(None)) => {
                leave(Err(Error::Other(prefixed("user not found: ", job.user.as_str()))))
            },
            (Worker::LookingUp { job, launch }, WorkerEvent::Failed(error)) => leave(Err(error)),
            (Worker::Leading { plan }, WorkerEvent::Done) => {
                let path = match &plan.job.tty {
                    TerminalMode::Vt { path, .. } => Some(path.clone()),
                    TerminalMode::Stdin => None,
                };
                match path {
                    Some(path) => {
                        (Worker::OpeningTerminal { plan }, WorkerAction::OpenTerminal { path })
                    },
                    None => fork(plan),
                }
            },
            (Worker::Leading { plan }, WorkerEvent::Failed(error)) => leave(Err(error)),
            (Worker::OpeningTerminal { plan }, WorkerEvent::Done) => {
                (Worker::SettingTextMode { plan }, WorkerAction::SetTextMode)
            },
            (Worker::OpeningTerminal { plan }, WorkerEvent::Failed(error)) => leave(Err(error)),
            (Worker::SettingTextMode { plan }, WorkerEvent::Done) => {
                let target = match &plan.job.tty {
                    TerminalMode::Vt { vt, switch, .. } => if *switch {
                        Some(*vt)
                    } else {
                        None
                    },
                    TerminalMode::Stdin => None,
                };
                match target {
                    Some(vt) => (Worker::Activating { plan }, WorkerAction::ActivateVt { vt }),
                    None => fork(plan),
                }
            },
            (Worker::SettingTextMode { plan }, WorkerEvent::Failed(error)) => leave(Err(error)),
            (Worker::Activating { plan }, WorkerEvent::Done) => fork(plan),
            (Worker::Activating { plan }, WorkerEvent::Failed(error)) => leave(Err(error)),
            (worker, _) => (worker, WorkerAction::Nothing),
        }
    }

    fn step_after_preparation(self, event: WorkerEvent) -> (r: (Worker, WorkerAction))
        ensures
            (r.0@, r.1@) == self@.next_after_preparation(event@),
    {
        match (self, event) {
            (Worker::Forking { plan, environment }, WorkerEvent::Forked(fork)) => match fork {
                ForkResult::Parent { child } => {
                    let wide: i64 = child as i64;
                    assert(wide as u32 == wide % 0x1_0000_0000) by (bit_vector);
                    let pid: u32 = #[verifier::truncate] (wide as u32);
                    (
                        Worker::Reporting { child },
                        WorkerAction::Send(WorkerResponse::Started { pid }),
                    )
                },
                ForkResult::Child => match c_string(plan.user_info.name.clone()) {
                    Ok(name) => {
                        let gid: u32 = plan.user_info.gid;
                        (
                            Worker::JoiningGroups { plan, environment },
                            WorkerAction::InitGroups { name, gid },
                        )
                    },
                    Err(error) => leave(Err(error)),
                },
            },
            (Worker::Forking { plan, environment }, WorkerEvent::Failed(error)) => {
                leave(Err(error))
            },
            (Worker::Reporting { child }, WorkerEvent::Done) => {
                (Worker::Waiting { child }, WorkerAction::Wait { child })
            },
            (Worker::Reporting { child }, WorkerEvent::Failed(error)) => leave(Err(error)),
            (Worker::Waiting { child }, WorkerEvent::Interrupted) => {
                (Worker::Waiting { child }, WorkerAction::Wait { child })
            },
            (Worker::Waiting { child }, WorkerEvent::Done) => {
                (Worker::Closing, WorkerAction::CloseSession)
            },
            (Worker::Waiting { child }, WorkerEvent::Failed(_)) => {
                (Worker::Closing, WorkerAction::CloseSession)
            },
            (Worker::Closing, WorkerEvent::Done) => leave(Ok(())),
            (Worker::JoiningGroups { plan, environment }, WorkerEvent::Done) => {
                let gid: u32 = plan.user_info.gid;
                (Worker::SettingGid { plan, environment }, WorkerAction::SetGid { gid })
            },
            (Worker::JoiningGroups { plan, environment }, WorkerEvent::Failed(error)) => {
                leave(Err(error))
            },
            (Worker::SettingGid { plan, environment }, WorkerEvent::Done) => {
                let uid: u32 = plan.user_info.uid;
                (Worker::SettingUid { plan, environment }, WorkerAction::SetUid { uid })
            },
            (Worker::SettingGid { plan, environment }, WorkerEvent::Failed(error)) => {
                leave(Err(error))
            },
            (Worker::SettingUid { plan, environment }, WorkerEvent::Done) => {
                let dir = plan.user_info.home.clone();
                assert(dir@ =~= plan.user_info.home@);
                (Worker::GoingHome { plan, environment }, WorkerAction::ChangeDirectory { dir })
            },
            (Worker::SettingUid { plan, environment }, WorkerEvent::Failed(error)) => {
                leave(Err(error))
            },
            (Worker::GoingHome { plan, environment }, WorkerEvent::Done) => {
                execute(plan, environment)
            },
            (Worker::GoingHome { plan, environment }, WorkerEvent::Failed(_)) => {
                execute(plan, environment)
            },
            (Worker::Executing, WorkerEvent::Failed(_)) => {
                (Worker::Ended, WorkerAction::Quit { code: 1 })
            },
            (worker, _) => (worker, WorkerAction::Nothing),
        }
    }

    /// Takes the report on the last action and decides on the next one.
    pub fn step(self, event: WorkerEvent) -> (r: (Worker, WorkerAction))
        ensures
            (r.0@, r.1@) == self@.next(event@),
    {
        if self.is_in_login() {
            self.step_in_login(event)
        } else if self.is_in_preparation() {
            self.step_in_preparation(event)
        } else {
            self.step_after_preparation(event)
        }
    }
}

} // verus!
