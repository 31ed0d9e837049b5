//! What each report leads to while the daemon comes up, and what is asked for
//! then.

use vstd::prelude::*;

use crate::config;
use crate::config::{Config, ConfigFile, ConfigView, InitialSessionView, VtSelection};
use crate::error;
use crate::error::{Error, ErrorView, NixError};
use crate::runtime;
use crate::runtime::{
    DirectSessionRequest,
    Runtime,
    RuntimeView,
    Surroundings,
    SurroundingsView,
    VtQuery,
};
use crate::session::{Session, SessionClass};
use crate::signals::{Disposition, HandledSignal};
use crate::startup;
use crate::startup::{
    Setup,
    SetupAction,
    SetupActionView,
    SetupEvent,
    SetupEventView,
    SetupView,
    Stage,
    Startup,
    StartupAction,
    StartupActionView,
    StartupEvent,
    StartupEventView,
    StartupView,
};

verus! {

/// The daemon begins by reading the configuration file that was named, or else
/// the system's.
pub proof fn named_configuration_is_read(path: Seq<char>)
    ensures
        SetupView::loading(Some(path)) == (
            SetupView::Loading { path },
            SetupActionView::LoadConfig { path },
        ),
        SetupView::loading(None) == (
            SetupView::Loading { path: "/etc/greetd/config.toml"@ },
            SetupActionView::LoadConfig { path: "/etc/greetd/config.toml"@ },
        ),
{
}

/// The course of a setup, for every configuration: a file that makes no
/// configuration ends it with that failure; memory is locked if possible; the
/// end of children is ignored and the two signals that end the daemon shut it
/// down, unless the system refuses; the system is asked about what the
/// configuration names; and what is found decides with it what the daemon runs
/// with.
pub proof fn course_of_a_setup(
    path: Seq<char>,
    read: Result<Result<ConfigFile, String>, String>,
    config: ConfigView,
    signal: HandledSignal,
    found: SurroundingsView,
    error: ErrorView,
)
    ensures
        ({
            let loading = SetupView::Loading { path };
            let loaded = SetupEventView::Loaded(read);
            let locking = SetupView::Locking { config };
            let handling = |signal: HandledSignal| SetupView::Handling { config, signal };
            let done = SetupEventView::Done;
            let failed = SetupEventView::Failed(error);
            let handles = |signal: HandledSignal, disposition: Disposition|
                (
                    SetupView::Handling { config, signal },
                    SetupActionView::Handle { signal, disposition },
                );
            let over = |result: Result<RuntimeView, ErrorView>|
                (SetupView::Finished, SetupActionView::Finish(result));
            &&& config::loaded(path, read) == Ok::<ConfigView, ErrorView>(config)
                ==> loading.next(loaded) == (locking, SetupActionView::LockMemory)
            &&& config::loaded(path, read) == Err::<ConfigView, ErrorView>(error)
                ==> loading.next(loaded) == over(Err(error))
            &&& locking.next(done) == handles(HandledSignal::Child, Disposition::Ignore)
            &&& locking.next(failed) == handles(HandledSignal::Child, Disposition::Ignore)
            &&& handling(HandledSignal::Child).next(done) == handles(
                HandledSignal::Terminate,
                Disposition::ShutDown,
            )
            &&& handling(HandledSignal::Terminate).next(done) == handles(
                HandledSignal::Interrupt,
                Disposition::ShutDown,
            )
            &&& handling(HandledSignal::Interrupt).next(done) == (
                SetupView::Surveying { config },
                SetupActionView::Survey {
                    query: match config.vt {
                        VtSelection::Current => Some(VtQuery::Current),
                        VtSelection::Next => Some(VtQuery::Next),
                        _ => None,
                    },
                    service: ("/etc/pam.d/"@ + config.service, "/usr/lib/pam.d/"@ + config.service),
                    greeter_service: (
                        "/etc/pam.d/"@ + config.greeter_service,
                        "/usr/lib/pam.d/"@ + config.greeter_service,
                    ),
                },
            )
            &&& handling(signal).next(failed) == over(Err(error))
            &&& (SetupView::Surveying { config }).next(SetupEventView::Surveyed(found)) == over(
                config.runtime(found),
            )
        }),
{
}

impl SetupView {
    /// Whether the state waits for such a report.
    pub open spec fn awaits(self, event: SetupEventView) -> bool {
        match event {
            SetupEventView::Loaded(_) => self is Loading,
            SetupEventView::Surveyed(_) => self is Surveying,
            SetupEventView::Done => self is Locking || self is Handling,
            SetupEventView::Failed(_) => self is Locking || self is Handling,
        }
    }
}

/// The course of a start, for whatever the daemon runs with: its socket is bound
/// at its own path, after what was left there is removed, if possible, and given
/// to the user that was found; on the first run the first session is started,
/// which is the user's own on the users' PAM service; the first run is noted; the
/// greeter is started, on its own service; and the loop watches over the greeter
/// that was started.
pub proof fn course_of_a_startup(
    runtime: RuntimeView,
    uid: u32,
    gid: u32,
    initial: InitialSessionView,
    session: Session,
    error: ErrorView,
)
    ensures
        ({
            let at = |stage: Stage| StartupView { runtime, stage };
            let done = StartupEventView::Done;
            let failed = StartupEventView::Failed(error);
            let found = |found: Result<Option<(u32, u32)>, ErrorView>|
                StartupEventView::UserFound(found);
            let binds = (
                at(Stage::Binding { uid, gid }),
                StartupActionView::Bind { path: runtime.sock_path },
            );
            let notes = (
                at(Stage::WritingRunfile),
                StartupActionView::WriteEmpty { path: runtime.runfile },
            );
            let over = |result: Result<(), ErrorView>|
                (at(Stage::Stopped), StartupActionView::Finish(result));
            &&& at(Stage::LookingUp).next(found(Ok(Some((uid, gid))))) == (
                at(Stage::Removing { uid, gid }),
                StartupActionView::Remove { path: runtime.sock_path },
            )
            &&& at(Stage::LookingUp).next(found(Ok(None))) == over(
                Err(ErrorView::Other("greeter user not found: "@ + runtime.greeter_user)),
            )
            &&& at(Stage::LookingUp).next(found(Err(error))) == over(Err(error))
            &&& at(Stage::Removing { uid, gid }).next(done) == binds
            &&& at(Stage::Removing { uid, gid }).next(failed) == binds
            &&& at(Stage::Binding { uid, gid }).next(done) == (
                at(Stage::Chowning),
                StartupActionView::Chown { path: runtime.sock_path, uid, gid },
            )
            &&& at(Stage::Chowning).next(done) == (
                at(Stage::CheckingRunfile),
                StartupActionView::CheckExists { path: runtime.runfile },
            )
            &&& at(Stage::CheckingRunfile).next(StartupEventView::Exists(true)) == notes
            &&& runtime.initial_session is None ==> at(Stage::CheckingRunfile).next(
                StartupEventView::Exists(false),
            ) == notes
            &&& runtime.initial_session == Some(initial) ==> {
                let (state, action) = at(Stage::CheckingRunfile).next(
                    StartupEventView::Exists(false),
                );
                &&& state == at(Stage::StartingInitial)
                &&& action matches StartupActionView::StartInitial { request }
                &&& request.service == runtime.pam_service
                &&& request.class == SessionClass::User
                &&& request.user == initial.user
                &&& request.cmd == seq![initial.command]
            }
            &&& at(Stage::StartingInitial).next(StartupEventView::Started(session)) == notes
            &&& {
                let (state, action) = at(Stage::WritingRunfile).next(done);
                &&& state == at(Stage::StartingGreeter)
                &&& action matches StartupActionView::StartGreeter { request }
                &&& request.service == runtime.greeter_pam_service
                &&& request.class == SessionClass::Greeter
                &&& request.user == runtime.greeter_user
                &&& request.cmd == seq![runtime.greeter_command]
            }
            &&& at(Stage::StartingGreeter).next(StartupEventView::Started(session)) == (
                at(Stage::Unblocking { greeter: session }),
                StartupActionView::Unblock,
            )
            &&& at(Stage::Unblocking { greeter: session }).next(done) == (
                at(Stage::Running),
                StartupActionView::RunLoop { greeter: session },
            )
            &&& at(Stage::Running).next(done) == over(Ok(()))
        }),
{
}

/// Any failure of a step that a start needs ends it, with that failure.
pub proof fn failures_end_a_startup(startup: StartupView, error: ErrorView)
    requires
        !(startup.stage is LookingUp || startup.stage is Removing || startup.stage
            is CheckingRunfile || startup.stage is Stopped),
    ensures
        startup.next(StartupEventView::Failed(error)) == (
            StartupView { runtime: startup.runtime, stage: Stage::Stopped },
            StartupActionView::Finish(Err::<(), ErrorView>(error)),
        ),
{
}

/// A start begins with the lookup of the greeter's user.
pub proof fn start_begins_with_the_greeters_user(runtime: RuntimeView)
    ensures
        startup::run(runtime, Seq::empty()) == (StartupView { runtime, stage: Stage::LookingUp }),
        startup::action_after(runtime, Seq::empty()) == (StartupActionView::LookUpUser {
            name: runtime.greeter_user,
        }),
{
}

impl Stage {
    /// Whether such a report is waited for.
    pub open spec fn awaits(self, event: StartupEventView) -> bool {
        match event {
            StartupEventView::UserFound(_) => self is LookingUp,
            StartupEventView::Exists(_) => self is CheckingRunfile,
            StartupEventView::Started(_) => self is StartingInitial || self is StartingGreeter,
            StartupEventView::Done => {
                self is Removing || self is Binding || self is Chowning || self is WritingRunfile
                    || self is Unblocking || self is Running
            },
            StartupEventView::Failed(_) => {
                !(self is LookingUp || self is CheckingRunfile || self is Stopped)
            },
        }
    }
}

/// A report that is not awaited changes nothing.
pub proof fn unawaited_reports_do_not_matter_to_the_start(
    setup: SetupView,
    event: SetupEventView,
    startup: StartupView,
    report: StartupEventView,
)
    ensures
        !setup.awaits(event) ==> setup.next(event) == (setup, SetupActionView::Nothing),
        !startup.stage.awaits(report) ==> startup.next(report) == (
            startup,
            StartupActionView::Nothing,
        ),
{
}

/// The socket belongs to the user that was found, who has to exist.
pub proof fn owner_is_the_one_found(name: Seq<char>, uid: u32, gid: u32, error: NixError)
    ensures
        runtime::owner(name, Ok(Some((uid, gid)))) == Ok::<(u32, u32), ErrorView>((uid, gid)),
        runtime::owner(name, Ok(None)) == Err::<(u32, u32), ErrorView>(
            ErrorView::Other("greeter user not found: "@ + name),
        ),
        runtime::owner(name, Err(error)) == Err::<(u32, u32), ErrorView>(Error::Nix(error)@),
{
}

/// A daemon that failed says why and exits with a failure; one that did not says
/// nothing and exits with none.
pub proof fn daemon_says_why_it_failed(error: ErrorView)
    ensures
        startup::parting(Ok(())) == (None::<Seq<char>>, 0i32),
        startup::parting(Err(error)) == (Some("greetd: "@ + error.message()), 1i32),
{
}

/// The states, actions and reports of a setup keep what they hold.
pub proof fn setups_are_kept(
    path: String,
    config: Config,
    signal: HandledSignal,
    disposition: Disposition,
    query: Option<VtQuery>,
    service: (String, String),
    greeter_service: (String, String),
    result: Result<Runtime, Error>,
    read: Result<Result<ConfigFile, String>, String>,
    found: Surroundings,
    error: Error,
)
    ensures
        (Setup::Loading { path })@ == (SetupView::Loading { path: path@ }),
        (Setup::Locking { config })@ == (SetupView::Locking { config: config@ }),
        (Setup::Handling { config, signal })@ == (SetupView::Handling { config: config@, signal }),
        (Setup::Surveying { config })@ == (SetupView::Surveying { config: config@ }),
        Setup::Finished@ == SetupView::Finished,
        (SetupAction::LoadConfig { path })@ == (SetupActionView::LoadConfig { path: path@ }),
        SetupAction::LockMemory@ == SetupActionView::LockMemory,
        (SetupAction::Handle { signal, disposition })@ == (SetupActionView::Handle {
            signal,
            disposition,
        }),
        (SetupAction::Survey { query, service, greeter_service })@ == (SetupActionView::Survey {
            query,
            service: (service.0@, service.1@),
            greeter_service: (greeter_service.0@, greeter_service.1@),
        }),
        SetupAction::Finish(result)@ == SetupActionView::Finish(error::outcome(result)),
        SetupAction::Nothing@ == SetupActionView::Nothing,
        SetupEvent::Loaded(read)@ == SetupEventView::Loaded(read),
        SetupEvent::Surveyed(found)@ == SetupEventView::Surveyed(found@),
        SetupEvent::Done@ == SetupEventView::Done,
        SetupEvent::Failed(error)@ == SetupEventView::Failed(error@),
{
}

/// The states, actions and reports of a start keep what they hold.
pub proof fn startups_are_kept(
    startup: Startup,
    text: String,
    uid: u32,
    gid: u32,
    request: DirectSessionRequest,
    greeter: Session,
    result: Result<(), Error>,
    found: Option<(u32, u32)>,
    refused: NixError,
    exists: bool,
    error: Error,
)
    ensures
        startup@ == (StartupView { runtime: startup.runtime@, stage: startup.stage }),
        (StartupAction::LookUpUser { name: text })@ == (StartupActionView::LookUpUser {
            name: text@,
        }),
        (StartupAction::Remove { path: text })@ == (StartupActionView::Remove { path: text@ }),
        (StartupAction::Bind { path: text })@ == (StartupActionView::Bind { path: text@ }),
        (StartupAction::Chown { path: text, uid, gid })@ == (StartupActionView::Chown {
            path: text@,
            uid,
            gid,
        }),
        (StartupAction::CheckExists { path: text })@ == (StartupActionView::CheckExists {
            path: text@,
        }),
        (StartupAction::StartInitial { request })@ == (StartupActionView::StartInitial {
            request: request@,
        }),
        (StartupAction::WriteEmpty { path: text })@ == (StartupActionView::WriteEmpty {
            path: text@,
        }),
        (StartupAction::StartGreeter { request })@ == (StartupActionView::StartGreeter {
            request: request@,
        }),
        StartupAction::Unblock@ == StartupActionView::Unblock,
        (StartupAction::RunLoop { greeter })@ == (StartupActionView::RunLoop { greeter }),
        StartupAction::Finish(result)@ == StartupActionView::Finish(error::outcome(result)),
        StartupAction::Nothing@ == StartupActionView::Nothing,
        StartupEvent::UserFound(Ok(found))@ == StartupEventView::UserFound(Ok(found)),
        StartupEvent::UserFound(Err(refused))@ == StartupEventView::UserFound(
            Err(Error::Nix(refused)@),
        ),
        StartupEvent::Exists(exists)@ == StartupEventView::Exists(exists),
        StartupEvent::Started(greeter)@ == StartupEventView::Started(greeter),
        StartupEvent::Done@ == StartupEventView::Done,
        StartupEvent::Failed(error)@ == StartupEventView::Failed(error@),
{
}

} // verus!
