//! What the daemon runs with: the configuration, seen against the system that
//! the daemon finds.

use vstd::prelude::*;
use vstd::string::*;

use crate::config::{Config, ConfigView, InitialSession, InitialSessionView, VtSelection};
use crate::error;
use crate::error::{prefixed, Error, ErrorView, NixError};
use crate::session::SessionClass;
use crate::terminal::{device_path, TerminalMode, TerminalModeView};
use crate::text;

verus! {

/// The device that knows about the virtual terminals.
pub const VT_DEVICE: &'static str = "/dev/tty0";

/// What the daemon runs with.
#[derive(Debug)]
pub struct Runtime {
    pub pam_service: String,
    pub greeter_pam_service: String,
    pub greeter_command: String,
    pub greeter_user: String,
    pub term_mode: TerminalMode,
    pub source_profile: bool,
    pub sock_path: String,
    pub runfile: String,
    pub initial_session: Option<RuntimeInitialSession>,
}

/// The session to start on the first run.
#[derive(Debug)]
pub struct RuntimeInitialSession {
    pub user: String,
    pub command: String,
}

/// A session that the daemon starts by itself, without a login.
#[derive(Debug)]
pub struct DirectSessionRequest {
    pub service: String,
    pub class: SessionClass,
    pub user: String,
    pub cmd: Vec<String>,
}

/// In which of the two directories a PAM service has a file.
#[derive(Debug, Clone, Copy, PartialEq, Eq, Structural)]
pub struct PamFiles {
    pub etc: bool,
    pub usr_lib: bool,
}

/// What to ask the virtual terminals' device for.
#[derive(Debug, Clone, Copy, PartialEq, Eq, Structural)]
pub enum VtQuery {
    Current,
    Next,
}

/// What the daemon finds on the system.
#[derive(Debug)]
pub struct Surroundings {
    /// The device's answer. It is looked at only where the configuration asks
    /// for the current or the next terminal.
    pub vt: Result<u32, Error>,
    /// The files of the users' PAM service.
    pub service: PamFiles,
    /// The files of the greeter's PAM service.
    pub greeter_service: PamFiles,
    /// The daemon's process id.
    pub pid: i32,
}

/// The contents of a [`Runtime`].
pub struct RuntimeView {
    pub pam_service: Seq<char>,
    pub greeter_pam_service: Seq<char>,
    pub greeter_command: Seq<char>,
    pub greeter_user: Seq<char>,
    pub term_mode: TerminalModeView,
    pub source_profile: bool,
    pub sock_path: Seq<char>,
    pub runfile: Seq<char>,
    pub initial_session: Option<InitialSessionView>,
}

/// The contents of a [`DirectSessionRequest`].
pub struct DirectSessionRequestView {
    pub service: Seq<char>,
    pub class: SessionClass,
    pub user: Seq<char>,
    pub cmd: Seq<Seq<char>>,
}

/// The contents of [`Surroundings`].
pub struct SurroundingsView {
    pub vt: Result<u32, ErrorView>,
    pub service: PamFiles,
    pub greeter_service: PamFiles,
    pub pid: i32,
}

impl DeepView for RuntimeInitialSession {
    type V = InitialSessionView;

    open spec fn deep_view(&self) -> InitialSessionView {
        InitialSessionView { command: self.command@, user: self.user@ }
    }
}

impl View for Runtime {
    type V = RuntimeView;

    open spec fn view(&self) -> RuntimeView {
        RuntimeView {
            pam_service: self.pam_service@,
            greeter_pam_service: self.greeter_pam_service@,
            greeter_command: self.greeter_command@,
            greeter_user: self.greeter_user@,
            term_mode: self.term_mode@,
            source_profile: self.source_profile,
            sock_path: self.sock_path@,
            runfile: self.runfile@,
            initial_session: self.initial_session.deep_view(),
        }
    }
}

impl View for DirectSessionRequest {
    type V = DirectSessionRequestView;

    open spec fn view(&self) -> DirectSessionRequestView {
        DirectSessionRequestView {
            service: self.service@,
            class: self.class,
            user: self.user@,
            cmd: self.cmd.deep_view(),
        }
    }
}

impl View for Surroundings {
    type V = SurroundingsView;

    open spec fn view(&self) -> SurroundingsView {
        SurroundingsView {
            vt: error::outcome(self.vt),
            service: self.service,
            greeter_service: self.greeter_service,
            pid: self.pid,
        }
    }
}

impl PamFiles {
    /// Whether the service has a file at all.
    pub open spec fn any(self) -> bool {
        self.etc || self.usr_lib
    }
}

/// The files that the PAM service `name` can have.
pub open spec fn service_files(name: Seq<char>) -> (Seq<char>, Seq<char>) {
    ("/etc/pam.d/"@ + name, "/usr/lib/pam.d/"@ + name)
}

/// What to ask the device for, if anything.
pub open spec fn device_query(vt: VtSelection) -> Option<VtQuery> {
    match vt {
        VtSelection::Current => Some(VtQuery::Current),
        VtSelection::Next => Some(VtQuery::Next),
        _ => None,
    }
}

/// The PAM service `name`, if it has a file.
pub open spec fn pam_service(name: Seq<char>, files: PamFiles) -> Result<Seq<char>, ErrorView> {
    if files.any() {
        Ok(name)
    } else {
        Err(ErrorView::Other("PAM service not found: "@ + name))
    }
}

/// The terminal that a number from the device stands for.
pub open spec fn mode_from_device(
    vt: VtSelection,
    switch: bool,
    answer: Result<u32, ErrorView>,
) -> Result<TerminalModeView, ErrorView> {
    match answer {
        Ok(number) => Ok(TerminalModeView::on_vt(number, switch && vt == VtSelection::Next)),
        Err(error) => Err(error),
    }
}

/// The terminal that a selection stands for.
pub open spec fn terminal_mode(
    vt: VtSelection,
    switch: bool,
    answer: Result<u32, ErrorView>,
) -> Result<TerminalModeView, ErrorView> {
    match vt {
        VtSelection::NoVt => Ok(TerminalModeView::Stdin),
        VtSelection::Current => mode_from_device(vt, switch, answer),
        VtSelection::Next => mode_from_device(vt, switch, answer),
        VtSelection::Specific(number) => Ok(TerminalModeView::on_vt(number, switch)),
    }
}

/// The daemon's socket.
pub open spec fn sock_path(pid: i32) -> Seq<char> {
    "/run/greetd-"@ + text::signed_decimal(pid as int) + ".sock"@
}

impl ConfigView {
    /// What the daemon runs with: the terminal and the users' PAM service have
    /// to be there; in place of a greeter's PAM service that is not there, the
    /// users' is taken.
    pub open spec fn runtime(self, found: SurroundingsView) -> Result<RuntimeView, ErrorView> {
        match (
            terminal_mode(self.vt, self.switch, found.vt),
            pam_service(self.service, found.service),
        ) {
            (Err(error), _) => Err(error),
            (Ok(_), Err(error)) => Err(error),
            (Ok(term_mode), Ok(service)) => Ok(
                RuntimeView {
                    pam_service: service,
                    greeter_pam_service: match pam_service(
                        self.greeter_service,
                        found.greeter_service,
                    ) {
                        Ok(greeter_service) => greeter_service,
                        Err(_) => service,
                    },
                    greeter_command: self.greeter_command,
                    greeter_user: self.greeter_user,
                    term_mode,
                    source_profile: self.source_profile,
                    sock_path: sock_path(found.pid),
                    runfile: self.runfile,
                    initial_session: self.initial_session,
                },
            ),
        }
    }
}

impl RuntimeView {
    /// The greeter's session.
    pub open spec fn greeter(self) -> DirectSessionRequestView {
        DirectSessionRequestView {
            service: self.greeter_pam_service,
            class: SessionClass::Greeter,
            user: self.greeter_user,
            cmd: seq![self.greeter_command],
        }
    }

    /// The session to start before the first greeter: the one that the
    /// configuration names, unless the first run is over.
    pub open spec fn initial(self, runfile_exists: bool) -> Option<DirectSessionRequestView> {
        match self.initial_session {
            Some(initial) => if runfile_exists {
                None
            } else {
                Some(
                    DirectSessionRequestView {
                        service: self.pam_service,
                        class: SessionClass::User,
                        user: initial.user,
                        cmd: seq![initial.command],
                    },
                )
            },
            None => None,
        }
    }
}

/// Where the file of a PAM service may be, in the order of preference.
pub fn pam_service_paths(name: &str) -> (r: (String, String))
    ensures
        (r.0@, r.1@) == service_files(name@),
{
    (prefixed("/etc/pam.d/", name), prefixed("/usr/lib/pam.d/", name))
}

/// The PAM service `name`, if it has a file.
pub fn find_pam_service(name: &str, files: PamFiles) -> (r: Result<String, Error>)
    ensures
        error::outcome(r) == pam_service(name@, files),
{
    if files.etc || files.usr_lib {
        return Ok(name.to_string());
    }
    Err(Error::from(prefixed("PAM service not found: ", name)))
}

/// What to ask the virtual terminals' device for, if anything.
pub fn vt_query(config: &Config) -> (r: Option<VtQuery>)
    ensures
        r == device_query(config.vt),
{
    match config.vt {
        VtSelection::Current => Some(VtQuery::Current),
        VtSelection::Next => Some(VtQuery::Next),
        _ => None,
    }
}

/// The terminal that sessions run on.
pub fn get_terminal_mode(config: &Config, answer: Result<u32, Error>) -> (r: Result<
    TerminalMode,
    Error,
>)
    ensures
        error::outcome(r) == terminal_mode(config.vt, config.switch, error::outcome(answer)),
{
    match config.vt {
        VtSelection::NoVt => Ok(TerminalMode::Stdin),
        VtSelection::Current => terminal_mode_from_device(config, answer),
        VtSelection::Next => terminal_mode_from_device(config, answer),
        VtSelection::Specific(vt) => Ok(
            TerminalMode::Vt { path: device_path(vt), vt, switch: config.switch },
        ),
    }
}

/// The terminal whose number the device gave.
pub fn terminal_mode_from_device(config: &Config, answer: Result<u32, Error>) -> (r: Result<
    TerminalMode,
    Error,
>)
    ensures
        error::outcome(r) == mode_from_device(config.vt, config.switch, error::outcome(answer)),
{
    match answer {
        Ok(vt) => Ok(
            TerminalMode::Vt {
                path: device_path(vt),
                vt,
                switch: config.switch && config.vt == VtSelection::Next,
            },
        ),
        Err(error) => Err(error),
    }
}

impl From<InitialSession> for RuntimeInitialSession {
    fn from(initial: InitialSession) -> (r: Self) {
        RuntimeInitialSession { user: initial.user, command: initial.command }
    }
}

impl vstd::std_specs::convert::FromSpecImpl<InitialSession> for RuntimeInitialSession {
    open spec fn obeys_from_spec() -> bool {
        true
    }

    open spec fn from_spec(initial: InitialSession) -> RuntimeInitialSession {
        RuntimeInitialSession { user: initial.user, command: initial.command }
    }
}

impl Runtime {
    /// Sees the configuration against the system.
    pub fn from_config(config: Config, found: Surroundings) -> (r: Result<Self, Error>)
        ensures
            error::outcome(r) == config@.runtime(found@),
    {
        let term_mode = match get_terminal_mode(&config, found.vt) {
            Ok(term_mode) => term_mode,
            Err(error) => {
                return Err(error);
            },
        };
        let pam_service = match find_pam_service(config.service.as_str(), found.service) {
            Ok(pam_service) => pam_service,
            Err(error) => {
                return Err(error);
            },
        };
        let greeter_pam_service = match find_pam_service(
            config.greeter_service.as_str(),
            found.greeter_service,
        ) {
            Ok(greeter_pam_service) => greeter_pam_service,
            Err(_) => pam_service.clone(),
        };
        let initial_session = match config.initial_session {
            Some(initial) => Some(RuntimeInitialSession::from(initial)),
            None => None,
        };
        let mut sock_path = prefixed(
            "/run/greetd-",
            text::signed_decimal_text(found.pid).as_str(),
        );
        sock_path.append(".sock");

        Ok(
            Runtime {
                pam_service,
                greeter_pam_service,
                greeter_command: config.greeter_command,
                greeter_user: config.greeter_user,
                term_mode,
                source_profile: config.source_profile,
                sock_path,
                runfile: config.runfile,
                initial_session,
            },
        )
    }

    /// The session to start before the first greeter, if there is one to start.
    pub fn initial_request(&self, runfile_exists: bool) -> (r: Option<DirectSessionRequest>)
        ensures
            match r {
                Some(request) => self@.initial(runfile_exists) == Some(request@),
                None => self@.initial(runfile_exists) is None,
            },
    {
        if runfile_exists {
            return None;
        }
        match &self.initial_session {
            Some(initial) => {
                let cmd = vec![initial.command.clone()];
                assert(cmd.deep_view() =~= seq![initial.command@]);
                Some(
                    DirectSessionRequest {
                        service: self.pam_service.clone(),
                        class: SessionClass::User,
                        user: initial.user.clone(),
                        cmd,
                    },
                )
            },
            None => None,
        }
    }

    /// The greeter's session.
    pub fn greeter_request(&self) -> (r: DirectSessionRequest)
        ensures
            r@ == self@.greeter(),
    {
        let cmd = vec![self.greeter_command.clone()];
        assert(cmd.deep_view() =~= seq![self.greeter_command@]);
        DirectSessionRequest {
            service: self.greeter_pam_service.clone(),
            class: SessionClass::Greeter,
            user: self.greeter_user.clone(),
            cmd,
        }
    }
}

/// The ids of the greeter's user, if there is one.
pub open spec fn owner(
    greeter_user: Seq<char>,
    found: Result<Option<(u32, u32)>, NixError>,
) -> Result<(u32, u32), ErrorView> {
    match found {
        Ok(Some(ids)) => Ok(ids),
        Ok(None) => Err(ErrorView::Other("greeter user not found: "@ + greeter_user)),
        Err(error) => Err(Error::Nix(error)@),
    }
}

/// To whom the daemon's socket is to belong: the ids of the greeter's user,
/// who has to exist.
pub fn listener_owner(greeter_user: &str, found: Result<Option<(u32, u32)>, NixError>) -> (r: Result<
    (u32, u32),
    Error,
>)
    ensures
        match (found, r) {
            (Ok(Some(ids)), Ok(owner)) => owner == ids,
            (Ok(None), Err(error)) => error@ == ErrorView::Other(
                "greeter user not found: "@ + greeter_user@,
            ),
            (Err(error), Err(passed)) => passed == Error::Nix(error),
            _ => false,
        },
        match r {
            Ok(ids) => owner(greeter_user@, found) == Ok::<(u32, u32), ErrorView>(ids),
            Err(error) => owner(greeter_user@, found) == Err::<(u32, u32), ErrorView>(error@),
        },
{
    match found {
        Ok(Some(ids)) => Ok(ids),
        Ok(None) => Err(Error::from(prefixed("greeter user not found: ", greeter_user))),
        Err(error) => Err(Error::from(error)),
    }
}

/// A daemon comes up without a PAM service of the greeter's own, which then
/// uses the users'; without the users' it does not.
pub proof fn only_the_users_service_is_needed(config: ConfigView, found: SurroundingsView)
    requires
        terminal_mode(config.vt, config.switch, found.vt) is Ok,
    ensures
        config.runtime(found) is Ok <==> found.service.any(),
        found.service.any() ==> {
            let runtime = config.runtime(found)->Ok_0;
            &&& runtime.pam_service == config.service
            &&& found.greeter_service.any() ==> runtime.greeter_pam_service
                == config.greeter_service
            &&& !found.greeter_service.any() ==> runtime.greeter_pam_service == config.service
        },
{
}

/// The device is asked only where the configuration leaves the number of the
/// terminal open; else its answer does not matter.
pub proof fn given_terminal_needs_no_device(
    vt: VtSelection,
    switch: bool,
    one: Result<u32, ErrorView>,
    other: Result<u32, ErrorView>,
)
    requires
        vt is NoVt || vt is Specific,
    ensures
        terminal_mode(vt, switch, one) == terminal_mode(vt, switch, other),
        terminal_mode(vt, switch, one) is Ok,
{
}

/// The daemon switches to a terminal only where the configuration says so, and
/// never away from the one that is active.
pub proof fn switching_is_asked_for(
    vt: VtSelection,
    switch: bool,
    answer: Result<u32, ErrorView>,
)
    ensures
        terminal_mode(vt, switch, answer) matches Ok(TerminalModeView::Vt { switch: switches, .. })
            ==> switches == (switch && vt != VtSelection::Current),
{
}

/// What the daemon runs with is what the configuration says, wherever the
/// configuration says it.
pub proof fn runtime_is_as_configured(config: ConfigView, found: SurroundingsView)
    requires
        config.runtime(found) is Ok,
    ensures
        ({
            let runtime = config.runtime(found)->Ok_0;
            &&& runtime.source_profile == config.source_profile
            &&& runtime.greeter_command == config.greeter_command
            &&& runtime.greeter_user == config.greeter_user
            &&& runtime.runfile == config.runfile
            &&& runtime.initial_session == config.initial_session
            &&& runtime.pam_service == config.service
            &&& runtime.greeter_pam_service == (if found.greeter_service.etc
                || found.greeter_service.usr_lib {
                config.greeter_service
            } else {
                config.service
            })
            &&& runtime.sock_path == "/run/greetd-"@ + text::signed_decimal(found.pid as int)
                + ".sock"@
            &&& match config.vt {
                VtSelection::NoVt => runtime.term_mode == TerminalModeView::Stdin,
                VtSelection::Specific(vt) => runtime.term_mode == (TerminalModeView::Vt {
                    path: "/dev/tty"@ + text::decimal(vt as nat),
                    vt,
                    switch: config.switch,
                }),
                VtSelection::Current => found.vt matches Ok(vt) && runtime.term_mode == (
                TerminalModeView::Vt {
                    path: "/dev/tty"@ + text::decimal(vt as nat),
                    vt,
                    switch: false,
                }),
                VtSelection::Next => found.vt matches Ok(vt) && runtime.term_mode == (
                TerminalModeView::Vt {
                    path: "/dev/tty"@ + text::decimal(vt as nat),
                    vt,
                    switch: config.switch,
                }),
            }
        }),
{
}

/// The daemon does not come up where the terminal is to be asked for and the
/// device fails, which is then the failure, or else where the users' PAM service
/// has no file, which is then the failure; and only there.
pub proof fn what_keeps_the_daemon_from_coming_up(config: ConfigView, found: SurroundingsView)
    ensures
        (config.vt is Current || config.vt is Next) && found.vt is Err ==> config.runtime(found)
            == Err::<RuntimeView, ErrorView>(found.vt->Err_0),
        !((config.vt is Current || config.vt is Next) && found.vt is Err)
            && !found.service.etc && !found.service.usr_lib ==> config.runtime(found) == Err::<
            RuntimeView,
            ErrorView,
        >(ErrorView::Other("PAM service not found: "@ + config.service)),
        !((config.vt is Current || config.vt is Next) && found.vt is Err) && (found.service.etc
            || found.service.usr_lib) ==> config.runtime(found) is Ok,
{
}

/// A PAM service is found in either of its two places, under its own name.
pub proof fn services_are_found_in_either_place(name: Seq<char>, files: PamFiles)
    ensures
        service_files(name).0 == "/etc/pam.d/"@ + name,
        service_files(name).1 == "/usr/lib/pam.d/"@ + name,
        files.etc || files.usr_lib ==> pam_service(name, files) == Ok::<Seq<char>, ErrorView>(name),
        !files.etc && !files.usr_lib ==> pam_service(name, files) == Err::<Seq<char>, ErrorView>(
            ErrorView::Other("PAM service not found: "@ + name),
        ),
{
}

/// The device is asked for the active or for a free terminal where the
/// configuration wants that one, and for none else.
pub proof fn device_is_asked_for_what_is_wanted(number: u32)
    ensures
        device_query(VtSelection::Current) == Some(VtQuery::Current),
        device_query(VtSelection::Next) == Some(VtQuery::Next),
        device_query(VtSelection::NoVt) is None,
        device_query(VtSelection::Specific(number)) is None,
{
}

/// The terminal that each selection stands for, and the failure where the
/// device fails.
pub proof fn selections_stand_for_terminals(
    switch: bool,
    answer: Result<u32, ErrorView>,
    vt: u32,
    other: u32,
    error: ErrorView,
)
    ensures
        terminal_mode(VtSelection::NoVt, switch, answer) == Ok::<TerminalModeView, ErrorView>(
            TerminalModeView::Stdin,
        ),
        terminal_mode(VtSelection::Specific(vt), switch, answer) == Ok::<
            TerminalModeView,
            ErrorView,
        >((TerminalModeView::Vt { path: "/dev/tty"@ + text::decimal(vt as nat), vt, switch })),
        terminal_mode(VtSelection::Current, switch, Ok(vt)) == Ok::<TerminalModeView, ErrorView>(
            (TerminalModeView::Vt {
                path: "/dev/tty"@ + text::decimal(vt as nat),
                vt,
                switch: false,
            }),
        ),
        terminal_mode(VtSelection::Next, switch, Ok(vt)) == Ok::<TerminalModeView, ErrorView>(
            (TerminalModeView::Vt { path: "/dev/tty"@ + text::decimal(vt as nat), vt, switch }),
        ),
        terminal_mode(VtSelection::Current, switch, Err(error)) == Err::<
            TerminalModeView,
            ErrorView,
        >(error),
        terminal_mode(VtSelection::Next, switch, Err(error)) == Err::<TerminalModeView, ErrorView>(
            error,
        ),
        mode_from_device(VtSelection::Next, switch, answer) == terminal_mode(
            VtSelection::Next,
            switch,
            answer,
        ),
        mode_from_device(VtSelection::Current, switch, answer) == terminal_mode(
            VtSelection::Current,
            switch,
            answer,
        ),
        mode_from_device(VtSelection::NoVt, switch, Ok(vt)) == terminal_mode(
            VtSelection::Current,
            switch,
            Ok(vt),
        ),
        mode_from_device(VtSelection::Specific(other), switch, Ok(vt)) == terminal_mode(
            VtSelection::Current,
            switch,
            Ok(vt),
        ),
{
}

/// The greeter runs its own command as its own user on its own PAM service; the
/// session of the first run its command as its user on the users' PAM service,
/// where one is configured and the first run is not over.
pub proof fn direct_sessions_are_as_configured(runtime: RuntimeView, initial: InitialSessionView)
    ensures
        runtime.greeter().service == runtime.greeter_pam_service,
        runtime.greeter().class == SessionClass::Greeter,
        runtime.greeter().user == runtime.greeter_user,
        runtime.greeter().cmd == seq![runtime.greeter_command],
        runtime.initial(true) is None,
        runtime.initial_session is None ==> runtime.initial(false) is None,
        runtime.initial_session == Some(initial) ==> {
            &&& runtime.initial(false) matches Some(request)
            &&& request.service == runtime.pam_service
            &&& request.class == SessionClass::User
            &&& request.user == initial.user
            &&& request.cmd == seq![initial.command]
        },
{
}

/// What the daemon runs with, what it starts and what it finds keep what they
/// hold, and so does the configuration.
pub proof fn runtimes_are_kept(
    config: Config,
    runtime: Runtime,
    request: DirectSessionRequest,
    found: Surroundings,
    initial: InitialSession,
    first: RuntimeInitialSession,
)
    ensures
        first.deep_view() == (InitialSessionView { command: first.command@, user: first.user@ }),
        config@ == (ConfigView {
            vt: config.vt,
            switch: config.switch,
            source_profile: config.source_profile,
            runfile: config.runfile@,
            service: config.service@,
            greeter_command: config.greeter_command@,
            greeter_user: config.greeter_user@,
            greeter_service: config.greeter_service@,
            initial_session: config.initial_session.deep_view(),
        }),
        initial.deep_view() == (InitialSessionView {
            command: initial.command@,
            user: initial.user@,
        }),
        runtime@ == (RuntimeView {
            pam_service: runtime.pam_service@,
            greeter_pam_service: runtime.greeter_pam_service@,
            greeter_command: runtime.greeter_command@,
            greeter_user: runtime.greeter_user@,
            term_mode: runtime.term_mode@,
            source_profile: runtime.source_profile,
            sock_path: runtime.sock_path@,
            runfile: runtime.runfile@,
            initial_session: runtime.initial_session.deep_view(),
        }),
        request@ == (DirectSessionRequestView {
            service: request.service@,
            class: request.class,
            user: request.user@,
            cmd: request.cmd.deep_view(),
        }),
        found@ == (SurroundingsView {
            vt: error::outcome(found.vt),
            service: found.service,
            greeter_service: found.greeter_service,
            pid: found.pid,
        }),
{
}

} // verus!
