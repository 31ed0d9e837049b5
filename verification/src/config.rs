//! The daemon's configuration.

use vstd::prelude::*;
use vstd::string::*;

use crate::error;
use crate::error::{prefixed, Error, ErrorView};

verus! {

/// Which virtual terminal the greeter runs on.
#[derive(Debug, Clone, Copy, PartialEq, Eq, Structural)]
pub enum VtSelection {
    /// None: the greeter runs on the daemon's own standard input.
    NoVt,
    /// The one that is active.
    Current,
    /// The first one that is free.
    Next,
    /// The one with this number.
    Specific(u32),
}

/// The value of `vt` in a configuration file, as far as it is looked at.
#[derive(Debug)]
pub enum VtValue {
    String(String),
    Integer(i64),
    /// A value that is neither a string nor an integer.
    Other,
}

/// `[terminal]` as a configuration file gives it.
#[derive(Debug)]
pub struct TerminalSection {
    pub vt: VtValue,
    pub switch: Option<bool>,
}

/// `[general]` as a configuration file gives it.
#[derive(Debug)]
pub struct GeneralSection {
    pub source_profile: Option<bool>,
    pub runfile: Option<String>,
    pub service: Option<String>,
}

/// `[default_session]` or `[initial_session]` as a configuration file gives it.
#[derive(Debug)]
pub struct SessionSection {
    pub command: String,
    pub user: Option<String>,
    pub service: Option<String>,
}

/// What a configuration file holds: the keys it gives, without defaults.
#[derive(Debug)]
pub struct ConfigFile {
    pub terminal: TerminalSection,
    pub general: Option<GeneralSection>,
    pub default_session: SessionSection,
    pub initial_session: Option<SessionSection>,
}

/// The configuration: what the file gives, and the defaults for the rest.
#[derive(Debug)]
pub struct Config {
    pub vt: VtSelection,
    pub switch: bool,
    pub source_profile: bool,
    pub runfile: String,
    pub service: String,
    pub greeter_command: String,
    pub greeter_user: String,
    pub greeter_service: String,
    pub initial_session: Option<InitialSession>,
}

/// The session to start on the first run, without a login.
#[derive(Debug)]
pub struct InitialSession {
    pub command: String,
    pub user: String,
}

/// The contents of an [`InitialSession`].
pub struct InitialSessionView {
    pub command: Seq<char>,
    pub user: Seq<char>,
}

/// The contents of a [`Config`].
pub struct ConfigView {
    pub vt: VtSelection,
    pub switch: bool,
    pub source_profile: bool,
    pub runfile: Seq<char>,
    pub service: Seq<char>,
    pub greeter_command: Seq<char>,
    pub greeter_user: Seq<char>,
    pub greeter_service: Seq<char>,
    pub initial_session: Option<InitialSessionView>,
}

impl DeepView for InitialSession {
    type V = InitialSessionView;

    open spec fn deep_view(&self) -> InitialSessionView {
        InitialSessionView { command: self.command@, user: self.user@ }
    }
}

impl View for Config {
    type V = ConfigView;

    open spec fn view(&self) -> ConfigView {
        ConfigView {
            vt: self.vt,
            switch: self.switch,
            source_profile: self.source_profile,
            runfile: self.runfile@,
            service: self.service@,
            greeter_command: self.greeter_command@,
            greeter_user: self.greeter_user@,
            greeter_service: self.greeter_service@,
            initial_session: self.initial_session.deep_view(),
        }
    }
}

/// What a key stands for: the value that the file gives, else the default.
pub open spec fn or_default<T>(given: Option<T>, default: T) -> T {
    match given {
        Some(value) => value,
        None => default,
    }
}

/// The selection that a `vt` value stands for, if it stands for one. Of an
/// integer the low 32 bits count.
pub open spec fn vt_selection(value: VtValue) -> Result<VtSelection, ErrorView> {
    match value {
        VtValue::String(s) => if s@ == "none"@ {
            Ok(VtSelection::NoVt)
        } else if s@ == "current"@ {
            Ok(VtSelection::Current)
        } else if s@ == "next"@ {
            Ok(VtSelection::Next)
        } else {
            Err(ErrorView::Config("invalid vt value: "@ + s@))
        },
        VtValue::Integer(n) => Ok(VtSelection::Specific((n as int % 0x1_0000_0000) as u32)),
        VtValue::Other => Err(ErrorView::Config("vt must be string or integer"@)),
    }
}

impl ConfigFile {
    /// The switch to the terminal that the file asks for.
    pub open spec fn switch(self) -> bool {
        or_default(self.terminal.switch, true)
    }

    /// Whether the file wants profiles sourced.
    pub open spec fn source_profile(self) -> bool {
        match self.general {
            Some(general) => or_default(general.source_profile, true),
            None => true,
        }
    }

    /// The first-run marker.
    pub open spec fn runfile(self) -> Seq<char> {
        match self.general {
            Some(general) => or_default(general.runfile.deep_view(), "/run/greetd.run"@),
            None => "/run/greetd.run"@,
        }
    }

    /// The PAM service for users.
    pub open spec fn service(self) -> Seq<char> {
        match self.general {
            Some(general) => or_default(general.service.deep_view(), "greetd"@),
            None => "greetd"@,
        }
    }

    /// The session of the first run.
    pub open spec fn initial(self) -> Option<InitialSessionView> {
        match self.initial_session {
            Some(session) => Some(
                InitialSessionView {
                    command: session.command@,
                    user: or_default(session.user.deep_view(), "greeter"@),
                },
            ),
            None => None,
        }
    }

    /// The configuration that the file stands for, if it stands for one.
    pub open spec fn config(self) -> Result<ConfigView, ErrorView> {
        match vt_selection(self.terminal.vt) {
            Ok(vt) => Ok(
                ConfigView {
                    vt,
                    switch: self.switch(),
                    source_profile: self.source_profile(),
                    runfile: self.runfile(),
                    service: self.service(),
                    greeter_command: self.default_session.command@,
                    greeter_user: or_default(self.default_session.user.deep_view(), "greeter"@),
                    greeter_service: or_default(
                        self.default_session.service.deep_view(),
                        "greetd-greeter"@,
                    ),
                    initial_session: self.initial(),
                },
            ),
            Err(error) => Err(error),
        }
    }
}

/// The configuration, out of what the parser made of the file's text: the
/// file's contents, or why it refused the text.
pub open spec fn parsed(file: Result<ConfigFile, String>) -> Result<ConfigView, ErrorView> {
    match file {
        Ok(file) => file.config(),
        Err(why) => Err(ErrorView::Config("failed to parse config: "@ + why@)),
    }
}

/// The configuration, out of how reading the file at `path` went: what the
/// parser made of its text, or why it could not be read.
pub open spec fn loaded(
    path: Seq<char>,
    read: Result<Result<ConfigFile, String>, String>,
) -> Result<ConfigView, ErrorView> {
    match read {
        Ok(file) => parsed(file),
        Err(why) => Err(ErrorView::Config("failed to read "@ + path + ": "@ + why@)),
    }
}

/// The value of a flag that a file leaves out.
pub fn default_true() -> (r: bool)
    ensures
        r,
{
    true
}

/// The first-run marker of a file that names none.
pub fn default_runfile() -> (r: String)
    ensures
        r@ == "/run/greetd.run"@,
{
    "/run/greetd.run".to_string()
}

/// The PAM service of a file that names none.
pub fn default_service() -> (r: String)
    ensures
        r@ == "greetd"@,
{
    "greetd".to_string()
}

/// The user of a session for which a file names none.
pub fn default_greeter_user() -> (r: String)
    ensures
        r@ == "greeter"@,
{
    "greeter".to_string()
}

fn text_or(given: Option<String>, default: String) -> (r: String)
    ensures
        r@ == or_default(given.deep_view(), default@),
{
    match given {
        Some(text) => text,
        None => default,
    }
}

/// Makes a selection of a `vt` value.
pub fn parse_vt(value: &VtValue) -> (r: Result<VtSelection, Error>)
    ensures
        match r {
            Ok(vt) => vt_selection(*value) == Ok::<VtSelection, ErrorView>(vt),
            Err(error) => vt_selection(*value) == Err::<VtSelection, ErrorView>(error@),
        },
{
    match value {
        VtValue::String(s) => {
            if *s == "none".to_string() {
                Ok(VtSelection::NoVt)
            } else if *s == "current".to_string() {
                Ok(VtSelection::Current)
            } else if *s == "next".to_string() {
                Ok(VtSelection::Next)
            } else {
                Err(Error::Config(prefixed("invalid vt value: ", s.as_str())))
            }
        },
        VtValue::Integer(n) => {
            let number: i64 = *n;
            assert(number as u32 == number % 0x1_0000_0000) by (bit_vector);
            Ok(VtSelection::Specific(#[verifier::truncate] (number as u32)))
        },
        VtValue::Other => Err(Error::Config("vt must be string or integer".to_string())),
    }
}

/// The configuration file to read: the one named on the command line, else the
/// system's.
pub fn config_path(argument: Option<String>) -> (r: String)
    ensures
        r@ == or_default(argument.deep_view(), "/etc/greetd/config.toml"@),
{
    text_or(argument, "/etc/greetd/config.toml".to_string())
}

impl Config {
    /// Makes a configuration of the file at `path`. Where the file could be
    /// read, `read` holds what the parser made of its text; else it says why
    /// the file could not be read.
    pub fn load(path: &str, read: Result<Result<ConfigFile, String>, String>) -> (r: Result<
        Self,
        Error,
    >)
        ensures
            error::outcome(r) == loaded(path@, read),
    {
        match read {
            Ok(file) => Self::parse(file),
            Err(why) => {
                let mut text = prefixed("failed to read ", path);
                text.append(": ");
                text.append(why.as_str());
                Err(Error::Config(text))
            },
        }
    }

    /// Makes a configuration of what the parser made of a file's text, and
    /// fills in what the file leaves out.
    pub fn parse(file: Result<ConfigFile, String>) -> (r: Result<Self, Error>)
        ensures
            error::outcome(r) == parsed(file),
    {
        let file = match file {
            Ok(file) => file,
            Err(why) => {
                return Err(Error::Config(prefixed("failed to parse config: ", why.as_str())));
            },
        };

        let vt = match parse_vt(&file.terminal.vt) {
            Ok(vt) => vt,
            Err(error) => {
                return Err(error);
            },
        };

        let (source_profile, runfile, service) = match file.general {
            Some(general) => (
                match general.source_profile {
                    Some(given) => given,
                    None => default_true(),
                },
                text_or(general.runfile, default_runfile()),
                text_or(general.service, default_service()),
            ),
            None => (true, default_runfile(), default_service()),
        };

        let initial_session = match file.initial_session {
            Some(session) => Some(
                InitialSession {
                    command: session.command,
                    user: text_or(session.user, default_greeter_user()),
                },
            ),
            None => None,
        };

        Ok(
            Config {
                vt,
                switch: match file.terminal.switch {
                    Some(given) => given,
                    None => default_true(),
                },
                source_profile,
                runfile,
                service,
                greeter_command: file.default_session.command,
                greeter_user: text_or(file.default_session.user, default_greeter_user()),
                greeter_service: text_or(
                    file.default_session.service,
                    "greetd-greeter".to_string(),
                ),
                initial_session,
            },
        )
    }
}

/// A file that leaves out what it may leave out stands for the documented
/// defaults.
pub proof fn defaults_are_as_documented(file: ConfigFile)
    requires
        vt_selection(file.terminal.vt) is Ok,
        file.terminal.switch is None,
        file.general is None,
        file.default_session.user is None,
        file.default_session.service is None,
        file.initial_session is None,
    ensures
        file.config() == Ok::<ConfigView, ErrorView>(
            (ConfigView {
                vt: vt_selection(file.terminal.vt)->Ok_0,
                switch: true,
                source_profile: true,
                runfile: "/run/greetd.run"@,
                service: "greetd"@,
                greeter_command: file.default_session.command@,
                greeter_user: "greeter"@,
                greeter_service: "greetd-greeter"@,
                initial_session: None,
            }),
        ),
{
}

/// An empty `[general]` section stands for the same as none.
pub proof fn empty_general_section_changes_nothing(file: ConfigFile, general: GeneralSection)
    requires
        file.general is None,
        general.source_profile is None,
        general.runfile is None,
        general.service is None,
    ensures
        (ConfigFile { general: Some(general), ..file }).config() == file.config(),
{
}

/// Only the choice of the terminal can be wrong about a file that could be
/// parsed: a word other than the three known ones, or neither a word nor a
/// number.
pub proof fn only_the_terminal_can_be_wrong(file: ConfigFile)
    ensures
        file.config() is Err <==> match file.terminal.vt {
            VtValue::String(s) => s@ != "none"@ && s@ != "current"@ && s@ != "next"@,
            VtValue::Integer(_) => false,
            VtValue::Other => true,
        },
{
}

/// The words for a terminal, and its number: each of the three words stands for
/// its selection and any other word for none; a number stands for the terminal
/// with that number, as far as 32 bits hold it.
pub proof fn terminal_is_the_one_named(value: VtValue)
    ensures
        value matches VtValue::String(word) ==> {
            &&& vt_selection(value) == Ok::<VtSelection, ErrorView>(VtSelection::NoVt) <==> word@
                == "none"@
            &&& vt_selection(value) == Ok::<VtSelection, ErrorView>(VtSelection::Current)
                <==> word@ == "current"@
            &&& vt_selection(value) == Ok::<VtSelection, ErrorView>(VtSelection::Next) <==> word@
                == "next"@
            &&& word@ != "none"@ && word@ != "current"@ && word@ != "next"@ ==> vt_selection(value)
                == Err::<VtSelection, ErrorView>(
                ErrorView::Config("invalid vt value: "@ + word@),
            )
        },
        value matches VtValue::Integer(number) ==> {
            &&& vt_selection(value) matches Ok(VtSelection::Specific(vt)) && (number - vt)
                % 0x1_0000_0000 == 0
            &&& 0 <= number <= u32::MAX ==> vt_selection(value) == Ok::<VtSelection, ErrorView>(
                VtSelection::Specific(number as u32),
            )
        },
        value is Other ==> vt_selection(value) == Err::<VtSelection, ErrorView>(
            ErrorView::Config("vt must be string or integer"@),
        ),
{
    reveal_strlit("none");
    reveal_strlit("current");
    reveal_strlit("next");
    assert("none"@.len() == 4 && "current"@.len() == 7 && "next"@.len() == 4);
    assert("none"@[1] == 'o' && "next"@[1] == 'e');
}

/// Every key that a file gives is the value in the configuration, whatever else
/// the file gives or leaves out.
pub proof fn given_keys_are_kept(file: ConfigFile)
    requires
        file.config() is Ok,
    ensures
        ({
            let config = file.config()->Ok_0;
            let general = file.general;
            let session = file.default_session;
            &&& vt_selection(file.terminal.vt) == Ok::<VtSelection, ErrorView>(config.vt)
            &&& file.terminal.switch matches Some(switch) ==> config.switch == switch
            &&& general matches Some(general) ==> {
                &&& general.source_profile matches Some(source) ==> config.source_profile == source
                &&& general.runfile matches Some(runfile) ==> config.runfile == runfile@
                &&& general.service matches Some(service) ==> config.service == service@
            }
            &&& config.greeter_command == session.command@
            &&& session.user matches Some(user) ==> config.greeter_user == user@
            &&& session.service matches Some(service) ==> config.greeter_service == service@
            &&& file.initial_session is Some <==> config.initial_session is Some
            &&& file.initial_session matches Some(initial) ==> {
                &&& (config.initial_session->0).command == initial.command@
                &&& initial.user matches Some(user) ==> (config.initial_session->0).user == user@
            }
        }),
{
}

/// Every key that a file leaves out is the documented default in the
/// configuration, whatever else the file gives or leaves out.
pub proof fn keys_left_out_are_defaults(file: ConfigFile)
    requires
        file.config() is Ok,
    ensures
        ({
            let config = file.config()->Ok_0;
            let general = file.general;
            &&& file.terminal.switch is None ==> config.switch
            &&& general is None || (general->0).source_profile is None ==> config.source_profile
            &&& general is None || (general->0).runfile is None ==> config.runfile
                == "/run/greetd.run"@
            &&& general is None || (general->0).service is None ==> config.service == "greetd"@
            &&& file.default_session.user is None ==> config.greeter_user == "greeter"@
            &&& file.default_session.service is None ==> config.greeter_service
                == "greetd-greeter"@
            &&& file.initial_session matches Some(initial) ==> (initial.user is None ==> (
            config.initial_session->0).user == "greeter"@)
        }),
{
}

/// A configuration comes of a file exactly where it could be read, its text was
/// accepted, and its terminal is one; else the failure says which of the three
/// it was, and why.
pub proof fn failures_to_load_are_told_apart(
    path: Seq<char>,
    read: Result<Result<ConfigFile, String>, String>,
)
    ensures
        read matches Err(why) ==> loaded(path, read) == Err::<ConfigView, ErrorView>(
            ErrorView::Config("failed to read "@ + path + ": "@ + why@),
        ),
        read matches Ok(Err(why)) ==> loaded(path, read) == Err::<ConfigView, ErrorView>(
            ErrorView::Config("failed to parse config: "@ + why@),
        ),
        read matches Ok(Ok(file)) ==> {
            &&& loaded(path, read) == file.config()
            &&& parsed(Ok(file)) == file.config()
            &&& vt_selection(file.terminal.vt) matches Err(error) ==> loaded(path, read) == Err::<
                ConfigView,
                ErrorView,
            >(error)
            &&& vt_selection(file.terminal.vt) is Ok ==> loaded(path, read) is Ok
        },
{
}

/// A value that is given is taken, and only where none is given the default.
pub proof fn default_steps_in_for_nothing<T>(given: Option<T>, value: T, default: T)
    ensures
        or_default(Some(value), default) == value,
        or_default(None, default) == default,
        given is Some ==> or_default(given, default) == given->0,
{
}

} // verus!
