//! How the daemon comes up: from the configuration to what it runs with, and
//! from there to the main loop.
//!
//! A [`Setup`] and then a [`Startup`] are the state of this. Each action that
//! they ask for is performed by the caller, who then reports how the action
//! went.

use vstd::prelude::*;

use crate::config;
use crate::config::{config_path, Config, ConfigFile, ConfigView};
use crate::error;
use crate::error::{prefixed, Error, ErrorView, NixError};
use crate::runtime;
use crate::runtime::{
    listener_owner,
    pam_service_paths,
    vt_query,
    DirectSessionRequest,
    DirectSessionRequestView,
    Runtime,
    RuntimeView,
    Surroundings,
    SurroundingsView,
    VtQuery,
};
use crate::session::Session;
use crate::signals::{Disposition, HandledSignal};

verus! {

/// The state of the way from the configuration to what the daemon runs with.
#[derive(Debug)]
pub enum Setup {
    /// The configuration file is being read.
    Loading { path: String },
    /// The daemon's memory is being locked.
    Locking { config: Config },
    /// The system is being told what to do on a signal.
    Handling { config: Config, signal: HandledSignal },
    /// It is being found out what there is on the system.
    Surveying { config: Config },
    /// This part is over.
    Finished,
}

/// What a [`Setup`] asks for.
#[derive(Debug)]
pub enum SetupAction {
    /// Read and parse the configuration file.
    LoadConfig { path: String },
    /// Lock the daemon's memory.
    LockMemory,
    /// Tell the system what to do on a signal.
    Handle { signal: HandledSignal, disposition: Disposition },
    /// Find out what there is: what the device says, and which files of the
    /// users' and of the greeter's PAM service exist.
    Survey { query: Option<VtQuery>, service: (String, String), greeter_service: (String, String) },
    /// Go on with what the daemon runs with, or with the failure.
    Finish(Result<Runtime, Error>),
    /// Nothing.
    Nothing,
}

/// How an action went.
#[derive(Debug)]
pub enum SetupEvent {
    /// What the parser made of the file, or why the file could not be read.
    Loaded(Result<Result<ConfigFile, String>, String>),
    /// What there is on the system.
    Surveyed(Surroundings),
    /// It is done.
    Done,
    /// It failed.
    Failed(Error),
}

/// The contents of a [`Setup`].
pub enum SetupView {
    Loading { path: Seq<char> },
    Locking { config: ConfigView },
    Handling { config: ConfigView, signal: HandledSignal },
    Surveying { config: ConfigView },
    Finished,
}

/// The contents of a [`SetupAction`].
pub enum SetupActionView {
    LoadConfig { path: Seq<char> },
    LockMemory,
    Handle { signal: HandledSignal, disposition: Disposition },
    Survey {
        query: Option<VtQuery>,
        service: (Seq<char>, Seq<char>),
        greeter_service: (Seq<char>, Seq<char>),
    },
    Finish(Result<RuntimeView, ErrorView>),
    Nothing,
}

/// The contents of a [`SetupEvent`].
pub enum SetupEventView {
    Loaded(Result<Result<ConfigFile, String>, String>),
    Surveyed(SurroundingsView),
    Done,
    Failed(ErrorView),
}

impl View for Setup {
    type V = SetupView;

    open spec fn view(&self) -> SetupView {
        match self {
            Setup::Loading { path } => SetupView::Loading { path: path@ },
            Setup::Locking { config } => SetupView::Locking { config: config@ },
            Setup::Handling { config, signal } => SetupView::Handling {
                config: config@,
                signal: *signal,
            },
            Setup::Surveying { config } => SetupView::Surveying { config: config@ },
            Setup::Finished => SetupView::Finished,
        }
    }
}

impl View for SetupAction {
    type V = SetupActionView;

    open spec fn view(&self) -> SetupActionView {
        match self {
            SetupAction::LoadConfig { path } => SetupActionView::LoadConfig { path: path@ },
            SetupAction::LockMemory => SetupActionView::LockMemory,
            SetupAction::Handle { signal, disposition } => SetupActionView::Handle {
                signal: *signal,
                disposition: *disposition,
            },
            SetupAction::Survey { query, service, greeter_service } => SetupActionView::Survey {
                query: *query,
                service: (service.0@, service.1@),
                greeter_service: (greeter_service.0@, greeter_service.1@),
            },
            SetupAction::Finish(result) => SetupActionView::Finish(error::outcome(*result)),
            SetupAction::Nothing => SetupActionView::Nothing,
        }
    }
}

impl View for SetupEvent {
    type V = SetupEventView;

    open spec fn view(&self) -> SetupEventView {
        match self {
            SetupEvent::Loaded(read) => SetupEventView::Loaded(*read),
            SetupEvent::Surveyed(found) => SetupEventView::Surveyed(found@),
            SetupEvent::Done => SetupEventView::Done,
            SetupEvent::Failed(error) => SetupEventView::Failed(error@),
        }
    }
}

impl SetupView {
    /// The file that was named is read, or else the system's.
    pub open spec fn loading(argument: Option<Seq<char>>) -> (SetupView, SetupActionView) {
        let path = config::or_default(argument, "/etc/greetd/config.toml"@);
        (SetupView::Loading { path }, SetupActionView::LoadConfig { path })
    }

    /// This part is over.
    pub open spec fn finishing(result: Result<RuntimeView, ErrorView>) -> (
        SetupView,
        SetupActionView,
    ) {
        (SetupView::Finished, SetupActionView::Finish(result))
    }

    /// The system is told what to do on a signal.
    pub open spec fn handling(config: ConfigView, signal: HandledSignal) -> (
        SetupView,
        SetupActionView,
    ) {
        (
            SetupView::Handling { config, signal },
            SetupActionView::Handle { signal, disposition: signal.disposition() },
        )
    }

    /// The next state and action. Memory that cannot be locked is passed over.
    /// A report that does not fit the state changes nothing.
    pub open spec fn next(self, event: SetupEventView) -> (SetupView, SetupActionView) {
        match (self, event) {
            (SetupView::Loading { path }, SetupEventView::Loaded(read)) => {
                match config::loaded(path, read) {
                    Ok(config) => (SetupView::Locking { config }, SetupActionView::LockMemory),
                    Err(error) => Self::finishing(Err(error)),
                }
            },
            (SetupView::Locking { config }, SetupEventView::Done) => Self::handling(
                config,
                HandledSignal::Child,
            ),
            (SetupView::Locking { config }, SetupEventView::Failed(_)) => Self::handling(
                config,
                HandledSignal::Child,
            ),
            (SetupView::Handling { config, signal }, SetupEventView::Done) => match signal {
                HandledSignal::Child => Self::handling(config, HandledSignal::Terminate),
                HandledSignal::Terminate => Self::handling(config, HandledSignal::Interrupt),
                HandledSignal::Interrupt => (
                    SetupView::Surveying { config },
                    SetupActionView::Survey {
                        query: runtime::device_query(config.vt),
                        service: runtime::service_files(config.service),
                        greeter_service: runtime::service_files(config.greeter_service),
                    },
                ),
            },
            (SetupView::Handling { .. }, SetupEventView::Failed(error)) => Self::finishing(
                Err(error),
            ),
            (SetupView::Surveying { config }, SetupEventView::Surveyed(found)) => Self::finishing(
                config.runtime(found),
            ),
            _ => (self, SetupActionView::Nothing),
        }
    }
}

impl Setup {
    /// Begins: the configuration file is the one named on the command line, if
    /// one is.
    pub fn load_config(argument: Option<String>) -> (r: (Setup, SetupAction))
        ensures
            ({
                let path = config::or_default(argument.deep_view(), "/etc/greetd/config.toml"@);
                (r.0@, r.1@) == (SetupView::Loading { path }, SetupActionView::LoadConfig { path })
            }),
            (r.0@, r.1@) == SetupView::loading(argument.deep_view()),
    {
        let path = config_path(argument);
        (Setup::Loading { path: path.clone() }, SetupAction::LoadConfig { path })
    }

    fn finish(result: Result<Runtime, Error>) -> (r: (Setup, SetupAction))
        ensures
            (r.0@, r.1@) == SetupView::finishing(error::outcome(result)),
    {
        (Setup::Finished, SetupAction::Finish(result))
    }

    fn handle(config: Config, signal: HandledSignal) -> (r: (Setup, SetupAction))
        ensures
            (r.0@, r.1@) == SetupView::handling(config@, signal),
    {
        (
            Setup::Handling { config, signal },
            SetupAction::Handle { signal, disposition: signal.handling() },
        )
    }

    /// Decides what to tell the system after it was told about `signal`.
    pub fn setup_signal_handlers(config: Config, signal: HandledSignal) -> (r: (
        Setup,
        SetupAction,
    ))
        ensures
            (r.0@, r.1@) == (SetupView::Handling { config: config@, signal }).next(
                SetupEventView::Done,
            ),
    {
        match signal {
            HandledSignal::Child => Self::handle(config, HandledSignal::Terminate),
            HandledSignal::Terminate => Self::handle(config, HandledSignal::Interrupt),
            HandledSignal::Interrupt => {
                let query = vt_query(&config);
                let service = pam_service_paths(config.service.as_str());
                let greeter_service = pam_service_paths(config.greeter_service.as_str());
                (
                    Setup::Surveying { config },
                    SetupAction::Survey { query, service, greeter_service },
                )
            },
        }
    }

    /// Takes the report on the last action and decides on the next one.
    pub fn step(self, event: SetupEvent) -> (r: (Setup, SetupAction))
        ensures
            (r.0@, r.1@) == self@.next(event@),
    {
        match (self, event) {
            (Setup::Loading { path }, SetupEvent::Loaded(read)) => {
                match Config::load(path.as_str(), read) {
                    Ok(config) => (Setup::Locking { config }, SetupAction::LockMemory),
                    Err(error) => Self::finish(Err(error)),
                }
            },
            (Setup::Locking { config }, SetupEvent::Done) => {
                Self::handle(config, HandledSignal::Child)
            },
            (Setup::Locking { config }, SetupEvent::Failed(_)) => {
                Self::handle(config, HandledSignal::Child)
            },
            (Setup::Handling { config, signal }, SetupEvent::Done) => {
                Self::setup_signal_handlers(config, signal)
            },
            (Setup::Handling { .. }, SetupEvent::Failed(error)) => Self::finish(Err(error)),
            (Setup::Surveying { config }, SetupEvent::Surveyed(found)) => {
                Self::finish(Runtime::from_config(config, found))
            },
            (setup, _) => (setup, SetupAction::Nothing),
        }
    }
}

/// What a start is at.
#[derive(Debug, Clone, Copy, PartialEq, Eq, Structural)]
pub enum Stage {
    /// The greeter's user is being looked up.
    LookingUp,
    /// A socket that is left from before is being removed.
    Removing { uid: u32, gid: u32 },
    /// The socket is being bound.
    Binding { uid: u32, gid: u32 },
    /// The socket is being given to the greeter's user.
    Chowning,
    /// It is being found out whether the first run is over.
    CheckingRunfile,
    /// The session of the first run is being started.
    StartingInitial,
    /// It is being noted that the first run is over.
    WritingRunfile,
    /// The greeter is being started.
    StartingGreeter,
    /// The socket is being made not to block.
    Unblocking { greeter: Session },
    /// The main loop runs.
    Running,
    /// The daemon is done.
    Stopped,
}

/// The state of the way to the main loop.
#[derive(Debug)]
pub struct Startup {
    pub runtime: Runtime,
    pub stage: Stage,
}

/// What a [`Startup`] asks for.
#[derive(Debug)]
pub enum StartupAction {
    /// Look up a user.
    LookUpUser { name: String },
    /// Remove a file, if it is there.
    Remove { path: String },
    /// Bind a socket.
    Bind { path: String },
    /// Change the owner of a file.
    Chown { path: String, uid: u32, gid: u32 },
    /// Find out whether a file exists.
    CheckExists { path: String },
    /// Start the session of the first run.
    StartInitial { request: DirectSessionRequest },
    /// Write an empty file.
    WriteEmpty { path: String },
    /// Start the greeter.
    StartGreeter { request: DirectSessionRequest },
    /// Make the socket not to block.
    Unblock,
    /// Run the main loop.
    RunLoop { greeter: Session },
    /// Leave with a result.
    Finish(Result<(), Error>),
    /// Nothing.
    Nothing,
}

/// How an action went.
#[derive(Debug)]
pub enum StartupEvent {
    /// The ids of the user, if there is one, or why that could not be found out.
    UserFound(Result<Option<(u32, u32)>, NixError>),
    /// Whether the file exists.
    Exists(bool),
    /// A session was started.
    Started(Session),
    /// It is done.
    Done,
    /// It failed.
    Failed(Error),
}

/// The contents of a [`Startup`].
pub struct StartupView {
    pub runtime: RuntimeView,
    pub stage: Stage,
}

/// The contents of a [`StartupAction`].
pub enum StartupActionView {
    LookUpUser { name: Seq<char> },
    Remove { path: Seq<char> },
    Bind { path: Seq<char> },
    Chown { path: Seq<char>, uid: u32, gid: u32 },
    CheckExists { path: Seq<char> },
    StartInitial { request: DirectSessionRequestView },
    WriteEmpty { path: Seq<char> },
    StartGreeter { request: DirectSessionRequestView },
    Unblock,
    RunLoop { greeter: Session },
    Finish(Result<(), ErrorView>),
    Nothing,
}

/// The contents of a [`StartupEvent`].
pub enum StartupEventView {
    UserFound(Result<Option<(u32, u32)>, ErrorView>),
    Exists(bool),
    Started(Session),
    Done,
    Failed(ErrorView),
}

impl View for Startup {
    type V = StartupView;

    open spec fn view(&self) -> StartupView {
        StartupView { runtime: self.runtime@, stage: self.stage }
    }
}

impl View for StartupAction {
    type V = StartupActionView;

    open spec fn view(&self) -> StartupActionView {
        match self {
            StartupAction::LookUpUser { name } => StartupActionView::LookUpUser { name: name@ },
            StartupAction::Remove { path } => StartupActionView::Remove { path: path@ },
            StartupAction::Bind { path } => StartupActionView::Bind { path: path@ },
            StartupAction::Chown { path, uid, gid } => StartupActionView::Chown {
                path: path@,
                uid: *uid,
                gid: *gid,
            },
            StartupAction::CheckExists { path } => StartupActionView::CheckExists { path: path@ },
            StartupAction::StartInitial { request } => StartupActionView::StartInitial {
                request: request@,
            },
            StartupAction::WriteEmpty { path } => StartupActionView::WriteEmpty { path: path@ },
            StartupAction::StartGreeter { request } => StartupActionView::StartGreeter {
                request: request@,
            },
            StartupAction::Unblock => StartupActionView::Unblock,
            StartupAction::RunLoop { greeter } => StartupActionView::RunLoop { greeter: *greeter },
            StartupAction::Finish(result) => StartupActionView::Finish(error::outcome(*result)),
            StartupAction::Nothing => StartupActionView::Nothing,
        }
    }
}

impl View for StartupEvent {
    type V = StartupEventView;

    open spec fn view(&self) -> StartupEventView {
        match self {
            StartupEvent::UserFound(Ok(found)) => StartupEventView::UserFound(Ok(*found)),
            StartupEvent::UserFound(Err(error)) => StartupEventView::UserFound(
                Err(Error::Nix(*error)@),
            ),
            StartupEvent::Exists(exists) => StartupEventView::Exists(*exists),
            StartupEvent::Started(session) => StartupEventView::Started(*session),
            StartupEvent::Done => StartupEventView::Done,
            StartupEvent::Failed(error) => StartupEventView::Failed(error@),
        }
    }
}

impl StartupView {
    /// The start, at something else.
    pub open spec fn at(self, stage: Stage) -> StartupView {
        StartupView { runtime: self.runtime, stage }
    }

    /// The daemon is done.
    pub open spec fn stopping(self, result: Result<(), ErrorView>) -> (
        StartupView,
        StartupActionView,
    ) {
        (self.at(Stage::Stopped), StartupActionView::Finish(result))
    }

    /// It is noted that the first run is over.
    pub open spec fn writing_runfile(self) -> (StartupView, StartupActionView) {
        (
            self.at(Stage::WritingRunfile),
            StartupActionView::WriteEmpty { path: self.runtime.runfile },
        )
    }

    /// The socket is bound.
    pub open spec fn binding(self, uid: u32, gid: u32) -> (StartupView, StartupActionView) {
        (
            self.at(Stage::Binding { uid, gid }),
            StartupActionView::Bind { path: self.runtime.sock_path },
        )
    }

    /// The next state and action. A socket left from before that cannot be
    /// removed is passed over; any other failure ends the daemon. A report that
    /// does not fit the state changes nothing.
    pub open spec fn next(self, event: StartupEventView) -> (StartupView, StartupActionView) {
        match (self.stage, event) {
            (Stage::LookingUp, StartupEventView::UserFound(found)) => match found {
                Ok(Some((uid, gid))) => (
                    self.at(Stage::Removing { uid, gid }),
                    StartupActionView::Remove { path: self.runtime.sock_path },
                ),
                Ok(None) => self.stopping(
                    Err(
                        ErrorView::Other("greeter user not found: "@ + self.runtime.greeter_user),
                    ),
                ),
                Err(error) => self.stopping(Err(error)),
            },
            (Stage::Removing { uid, gid }, StartupEventView::Done) => self.binding(uid, gid),
            (Stage::Removing { uid, gid }, StartupEventView::Failed(_)) => self.binding(uid, gid),
            (Stage::Binding { uid, gid }, StartupEventView::Done) => (
                self.at(Stage::Chowning),
                StartupActionView::Chown { path: self.runtime.sock_path, uid, gid },
            ),
            (Stage::Chowning, StartupEventView::Done) => (
                self.at(Stage::CheckingRunfile),
                StartupActionView::CheckExists { path: self.runtime.runfile },
            ),
            (Stage::CheckingRunfile, StartupEventView::Exists(exists)) => {
                match self.runtime.initial(exists) {
                    Some(request) => (
                        self.at(Stage::StartingInitial),
                        StartupActionView::StartInitial { request },
                    ),
                    None => self.writing_runfile(),
                }
            },
            (Stage::StartingInitial, StartupEventView::Started(_)) => self.writing_runfile(),
            (Stage::WritingRunfile, StartupEventView::Done) => (
                self.at(Stage::StartingGreeter),
                StartupActionView::StartGreeter { request: self.runtime.greeter() },
            ),
            (Stage::StartingGreeter, StartupEventView::Started(greeter)) => (
                self.at(Stage::Unblocking { greeter }),
                StartupActionView::Unblock,
            ),
            (Stage::Unblocking { greeter }, StartupEventView::Done) => (
                self.at(Stage::Running),
                StartupActionView::RunLoop { greeter },
            ),
            (Stage::Running, StartupEventView::Done) => self.stopping(Ok(())),
            (Stage::LookingUp, _) => (self, StartupActionView::Nothing),
            (Stage::CheckingRunfile, _) => (self, StartupActionView::Nothing),
            (Stage::Stopped, _) => (self, StartupActionView::Nothing),
            (_, StartupEventView::Failed(error)) => self.stopping(Err(error)),
            _ => (self, StartupActionView::Nothing),
        }
    }
}

impl Startup {
    /// Begins: the socket is to belong to the greeter's user, who is looked up
    /// first.
    pub fn create_listener(runtime: Runtime) -> (r: (Startup, StartupAction))
        ensures
            (r.0@, r.1@) == (
                StartupView { runtime: runtime@, stage: Stage::LookingUp },
                StartupActionView::LookUpUser { name: runtime@.greeter_user },
            ),
            r.0@ == run(runtime@, Seq::empty()),
            r.1@ == action_after(runtime@, Seq::empty()),
    {
        let name = runtime.greeter_user.clone();
        (Startup { runtime, stage: Stage::LookingUp }, StartupAction::LookUpUser { name })
    }

    fn stop(self, result: Result<(), Error>) -> (r: (Startup, StartupAction))
        ensures
            (r.0@, r.1@) == self@.stopping(error::outcome(result)),
    {
        (
            Startup { runtime: self.runtime, stage: Stage::Stopped },
            StartupAction::Finish(result),
        )
    }

    fn bind(self, uid: u32, gid: u32) -> (r: (Startup, StartupAction))
        ensures
            (r.0@, r.1@) == self@.binding(uid, gid),
    {
        let path = self.runtime.sock_path.clone();
        (
            Startup { runtime: self.runtime, stage: Stage::Binding { uid, gid } },
            StartupAction::Bind { path },
        )
    }

    /// Has it noted that the first run is over.
    fn create_runfile(self) -> (r: (Startup, StartupAction))
        ensures
            (r.0@, r.1@) == self@.writing_runfile(),
    {
        let path = self.runtime.runfile.clone();
        (
            Startup { runtime: self.runtime, stage: Stage::WritingRunfile },
            StartupAction::WriteEmpty { path },
        )
    }

    /// Takes the report on the last action and decides on the next one.
    pub fn step(self, event: StartupEvent) -> (r: (Startup, StartupAction))
        ensures
            (r.0@, r.1@) == self@.next(event@),
    {
        match (self.stage, event) {
            (Stage::LookingUp, StartupEvent::UserFound(found)) => {
                match listener_owner(self.runtime.greeter_user.as_str(), found) {
                    Ok((uid, gid)) => {
                        let path = self.runtime.sock_path.clone();
                        (
                            Startup {
                                runtime: self.runtime,
                                stage: Stage::Removing { uid, gid },
                            },
                            StartupAction::Remove { path },
                        )
                    },
                    Err(error) => self.stop(Err(error)),
                }
            },
            (Stage::Removing { uid, gid }, StartupEvent::Done) => self.bind(uid, gid),
            (Stage::Removing { uid, gid }, StartupEvent::Failed(_)) => self.bind(uid, gid),
            (Stage::Binding { uid, gid }, StartupEvent::Done) => {
                let path = self.runtime.sock_path.clone();
                (
                    Startup { runtime: self.runtime, stage: Stage::Chowning },
                    StartupAction::Chown { path, uid, gid },
                )
            },
            (Stage::Chowning, StartupEvent::Done) => {
                let path = self.runtime.runfile.clone();
                (
                    Startup { runtime: self.runtime, stage: Stage::CheckingRunfile },
                    StartupAction::CheckExists { path },
                )
            },
            (Stage::CheckingRunfile, StartupEvent::Exists(exists)) => {
                match self.runtime.initial_request(exists) {
                    Some(request) => (
                        Startup { runtime: self.runtime, stage: Stage::StartingInitial },
                        StartupAction::StartInitial { request },
                    ),
                    None => self.create_runfile(),
                }
            },
            (Stage::StartingInitial, StartupEvent::Started(_)) => self.create_runfile(),
            (Stage::WritingRunfile, StartupEvent::Done) => {
                let request = self.runtime.greeter_request();
                (
                    Startup { runtime: self.runtime, stage: Stage::StartingGreeter },
                    StartupAction::StartGreeter { request },
                )
            },
            (Stage::StartingGreeter, StartupEvent::Started(greeter)) => (
                Startup { runtime: self.runtime, stage: Stage::Unblocking { greeter } },
                StartupAction::Unblock,
            ),
            (Stage::Unblocking { greeter }, StartupEvent::Done) => (
                Startup { runtime: self.runtime, stage: Stage::Running },
                StartupAction::RunLoop { greeter },
            ),
            (Stage::Running, StartupEvent::Done) => self.stop(Ok(())),
            (Stage::LookingUp, _) => (self, StartupAction::Nothing),
            (Stage::CheckingRunfile, _) => (self, StartupAction::Nothing),
            (Stage::Stopped, _) => (self, StartupAction::Nothing),
            (_, StartupEvent::Failed(error)) => self.stop(Err(error)),
            _ => (self, StartupAction::Nothing),
        }
    }
}

/// What the daemon leaves with after a result.
pub open spec fn parting(result: Result<(), ErrorView>) -> (Option<Seq<char>>, i32) {
    match result {
        Ok(_) => (None, 0),
        Err(error) => (Some("greetd: "@ + error.message()), 1),
    }
}

/// What the daemon leaves with: a line for the log, if it failed, and its exit
/// status.
pub fn farewell(result: Result<(), Error>) -> (r: (Option<String>, i32))
    ensures
        match result {
            Ok(_) => r.0 is None && r.1 == 0,
            Err(error) => r.0.deep_view() == Some("greetd: "@ + error@.message()) && r.1 == 1,
        },
        (r.0.deep_view(), r.1) == parting(error::outcome(result)),
{
    match result {
        Ok(_) => (None, 0),
        Err(error) => (Some(prefixed("greetd: ", error.to_string().as_str())), 1),
    }
}

/// Before anything else is done with a configuration, the system is told about
/// all three signals, and then what there is on the system decides what the
/// daemon runs with; whether memory could be locked does not matter.
pub proof fn setup_handles_signals_first(
    path: Seq<char>,
    read: Result<Result<ConfigFile, String>, String>,
    locked: SetupEventView,
    found: SurroundingsView,
)
    requires
        config::loaded(path, read) is Ok,
        locked is Done || locked is Failed,
    ensures
        ({
            let config = config::loaded(path, read)->Ok_0;
            let locking = (SetupView::Loading { path }).next(SetupEventView::Loaded(read));
            let child = locking.0.next(locked);
            let terminate = child.0.next(SetupEventView::Done);
            let interrupt = terminate.0.next(SetupEventView::Done);
            let surveying = interrupt.0.next(SetupEventView::Done);
            let finished = surveying.0.next(SetupEventView::Surveyed(found));
            &&& locking.1 == SetupActionView::LockMemory
            &&& child.1 == (SetupActionView::Handle {
                signal: HandledSignal::Child,
                disposition: Disposition::Ignore,
            })
            &&& terminate.1 == (SetupActionView::Handle {
                signal: HandledSignal::Terminate,
                disposition: Disposition::ShutDown,
            })
            &&& interrupt.1 == (SetupActionView::Handle {
                signal: HandledSignal::Interrupt,
                disposition: Disposition::ShutDown,
            })
            &&& surveying.1 is Survey
            &&& finished == (
                SetupView::Finished,
                SetupActionView::Finish(config.runtime(found)),
            )
        }),
{
}

/// The state of a start after a sequence of reports.
pub open spec fn run(runtime: RuntimeView, events: Seq<StartupEventView>) -> StartupView
    decreases events.len(),
{
    if events.len() == 0 {
        StartupView { runtime, stage: Stage::LookingUp }
    } else {
        run(runtime, events.drop_last()).next(events.last()).0
    }
}

/// The action that a start asks for after a sequence of reports.
pub open spec fn action_after(
    runtime: RuntimeView,
    events: Seq<StartupEventView>,
) -> StartupActionView {
    if events.len() == 0 {
        StartupActionView::LookUpUser { name: runtime.greeter_user }
    } else {
        run(runtime, events.drop_last()).next(events.last()).1
    }
}

/// What the daemon runs with does not change.
pub proof fn runtime_is_kept(runtime: RuntimeView, events: Seq<StartupEventView>)
    ensures
        run(runtime, events).runtime == runtime,
    decreases events.len(),
{
    if events.len() > 0 {
        runtime_is_kept(runtime, events.drop_last());
    }
}

impl Stage {
    /// Whether the socket is in place.
    pub open spec fn has_socket(self) -> bool {
        match self {
            Stage::LookingUp => false,
            Stage::Removing { .. } => false,
            Stage::Binding { .. } => false,
            Stage::Chowning => false,
            Stage::Stopped => false,
            _ => true,
        }
    }
}

/// Whether a user with these ids was found.
pub open spec fn found_user(events: Seq<StartupEventView>, uid: u32, gid: u32) -> bool {
    events.contains(StartupEventView::UserFound(Ok(Some((uid, gid)))))
}

proof fn lemma_found_stays(events: Seq<StartupEventView>, uid: u32, gid: u32)
    requires
        events.len() > 0,
        found_user(events.drop_last(), uid, gid),
    ensures
        found_user(events, uid, gid),
{
    let wanted = StartupEventView::UserFound(Ok(Some((uid, gid))));
    let earlier = events.drop_last();
    let i = choose|i: int| 0 <= i < earlier.len() && earlier[i] == wanted;
    assert(events[i] == wanted);
}

/// The socket is given to nobody but a user that was found, under the ids that
/// were found.
pub proof fn socket_is_for_the_found_user(runtime: RuntimeView, events: Seq<StartupEventView>)
    ensures
        run(runtime, events).stage matches Stage::Removing { uid, gid } ==> found_user(
            events,
            uid,
            gid,
        ),
        run(runtime, events).stage matches Stage::Binding { uid, gid } ==> found_user(
            events,
            uid,
            gid,
        ),
        action_after(runtime, events) matches StartupActionView::Chown { path, uid, gid } ==> {
            &&& found_user(events, uid, gid)
            &&& path == runtime.sock_path
        },
    decreases events.len(),
{
    if events.len() > 0 {
        let earlier = events.drop_last();
        let before = run(runtime, earlier);
        socket_is_for_the_found_user(runtime, earlier);
        runtime_is_kept(runtime, earlier);
        if let Stage::Removing { uid, gid } = before.stage {
            lemma_found_stays(events, uid, gid);
        }
        if let Stage::Binding { uid, gid } = before.stage {
            lemma_found_stays(events, uid, gid);
        }
        if let Stage::Removing { uid, gid } = run(runtime, events).stage {
            if before.stage is LookingUp {
                assert(events[events.len() - 1] == StartupEventView::UserFound(
                    Ok(Some((uid, gid))),
                ));
            }
        }
    }
}

/// Whether the report at position `i` says that the socket was given away.
pub open spec fn given_at(runtime: RuntimeView, events: Seq<StartupEventView>, i: int) -> bool {
    &&& 0 <= i < events.len()
    &&& run(runtime, events.take(i)).stage is Chowning
    &&& events[i] is Done
}

/// No session is started, neither the first nor the greeter, before the socket
/// is in place and was given to the greeter's user.
pub proof fn sessions_wait_for_the_socket(runtime: RuntimeView, events: Seq<StartupEventView>)
    ensures
        run(runtime, events).stage.has_socket() ==> exists|i: int| given_at(runtime, events, i),
        action_after(runtime, events) is StartInitial || action_after(runtime, events)
            is StartGreeter ==> run(runtime, events).stage.has_socket(),
    decreases events.len(),
{
    if events.len() > 0 {
        let earlier = events.drop_last();
        let n = events.len() - 1;
        sessions_wait_for_the_socket(runtime, earlier);
        if run(runtime, earlier).stage.has_socket() {
            let i = choose|i: int| given_at(runtime, earlier, i);
            assert(events.take(i) =~= earlier.take(i));
            assert(given_at(runtime, events, i));
        } else if run(runtime, events).stage.has_socket() {
            assert(events.take(n) =~= earlier);
            assert(given_at(runtime, events, n));
        }
    }
}

/// The stage at which the socket is given away is reached by asking for it.
pub proof fn socket_is_given_as_asked(startup: StartupView, event: StartupEventView)
    ensures
        startup.next(event).0.stage is Chowning && !(startup.stage is Chowning)
            ==> startup.next(event).1 is Chown,
{
}

/// The session of the first run is started only where one is configured and
/// the first run is not over; once it is, never again.
pub proof fn first_session_is_for_the_first_run(startup: StartupView, event: StartupEventView)
    ensures
        startup.next(event).1 matches StartupActionView::StartInitial { request } ==> {
            &&& startup.stage is CheckingRunfile
            &&& event == StartupEventView::Exists(false)
            &&& startup.runtime.initial_session matches Some(initial)
            &&& request.user == initial.user
            &&& request.cmd == seq![initial.command]
            &&& request.service == startup.runtime.pam_service
        },
        startup.runtime.initial(true) is None,
{
}

/// The first run counts as over only when its session has started, or when it
/// has none or was over before.
pub proof fn first_run_ends_with_its_session(startup: StartupView, event: StartupEventView)
    ensures
        startup.next(event).1 is WriteEmpty ==> {
            ||| startup.stage is StartingInitial && event is Started
            ||| event == StartupEventView::Exists(true)
            ||| startup.runtime.initial_session is None
        },
        startup.next(event).1 matches StartupActionView::WriteEmpty { path } ==> path
            == startup.runtime.runfile,
        startup.next(event).1 is StartGreeter ==> startup.stage is WritingRunfile,
{
}

/// The main loop watches over a session that was started as the greeter.
pub proof fn loop_watches_the_greeter(runtime: RuntimeView, events: Seq<StartupEventView>)
    ensures
        run(runtime, events).stage matches Stage::Unblocking { greeter } ==> events.contains(
            StartupEventView::Started(greeter),
        ),
        action_after(runtime, events) matches StartupActionView::RunLoop { greeter }
            ==> events.contains(StartupEventView::Started(greeter)),
    decreases events.len(),
{
    if events.len() > 0 {
        let earlier = events.drop_last();
        loop_watches_the_greeter(runtime, earlier);
        match run(runtime, earlier).stage {
            Stage::Unblocking { greeter } => {
                let wanted = StartupEventView::Started(greeter);
                let i = choose|i: int| 0 <= i < earlier.len() && earlier[i] == wanted;
                assert(events[i] == wanted);
            },
            _ => {
                assert(events[events.len() - 1] == events.last());
            },
        }
    }
}

} // verus!
