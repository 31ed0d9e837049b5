use greetd::config::{
    ConfigFile, SessionSection, TerminalSection, VtValue,
};
use greetd::error::{Error, NixError};
use greetd::runtime::{PamFiles, Runtime, RuntimeInitialSession, Surroundings, VtQuery};
use greetd::session::Session;
use greetd::signals::{Disposition, HandledSignal};
use greetd::startup::{
    farewell, Setup, SetupAction, SetupEvent, Stage, Startup, StartupAction, StartupEvent,
};
use greetd::terminal::TerminalMode;

fn file(vt: VtValue) -> ConfigFile {
    ConfigFile {
        terminal: TerminalSection { vt, switch: None },
        general: None,
        default_session: SessionSection { command: "agreety".into(), user: None, service: None },
        initial_session: None,
    }
}

fn found() -> Surroundings {
    let files = PamFiles { etc: true, usr_lib: false };
    Surroundings { vt: Ok(4), service: files, greeter_service: files, pid: 1 }
}

fn runtime(initial: bool) -> Runtime {
    Runtime {
        pam_service: "greetd".into(),
        greeter_pam_service: "greetd-greeter".into(),
        greeter_command: "agreety".into(),
        greeter_user: "greeter".into(),
        term_mode: TerminalMode::Stdin,
        source_profile: true,
        sock_path: "/run/greetd-1.sock".into(),
        runfile: "/run/greetd.run".into(),
        initial_session: if initial {
            Some(RuntimeInitialSession { user: "john".into(), command: "sway".into() })
        } else {
            None
        },
    }
}

fn setup(argument: Option<&str>, events: Vec<SetupEvent>) -> Vec<String> {
    let (mut setup, first) = Setup::load_config(argument.map(|a| a.to_string()));
    let mut actions = vec![setup_shown(first)];
    for event in events {
        let (next, action) = setup.step(event);
        setup = next;
        actions.push(setup_shown(action));
    }
    actions
}

fn setup_shown(action: SetupAction) -> String {
    match action {
        SetupAction::LoadConfig { path } => format!("load {path}"),
        SetupAction::LockMemory => "lock".to_string(),
        SetupAction::Handle { signal, disposition } => {
            let signal = match signal {
                HandledSignal::Child => "child",
                HandledSignal::Terminate => "terminate",
                HandledSignal::Interrupt => "interrupt",
            };
            let disposition = match disposition {
                Disposition::Ignore => "ignored",
                Disposition::Discard => "discarded",
                Disposition::ShutDown => "shuts down",
            };
            format!("{signal} {disposition}")
        }
        SetupAction::Survey { query, service, greeter_service } => {
            let query = match query {
                Some(VtQuery::Current) => "current",
                Some(VtQuery::Next) => "next",
                None => "none",
            };
            format!("{query} {} {} {}", service.0, service.1, greeter_service.0)
        }
        SetupAction::Finish(Ok(runtime)) => {
            format!("runs {} {}", runtime.sock_path, runtime.term_mode.to_json())
        }
        SetupAction::Finish(Err(error)) => format!("failed: {}", error.to_string()),
        SetupAction::Nothing => "nothing".to_string(),
    }
}

fn failed_setup() -> SetupEvent {
    SetupEvent::Failed(Error::Other("no".into()))
}

#[test]
fn setup_leads_from_the_file_to_the_runtime() {
    let actions = setup(
        None,
        vec![
            SetupEvent::Loaded(Ok(Ok(file(VtValue::String("next".into()))))),
            failed_setup(),
            SetupEvent::Done,
            SetupEvent::Done,
            SetupEvent::Done,
            SetupEvent::Surveyed(found()),
            SetupEvent::Done,
        ],
    );
    assert_eq!(
        actions,
        vec![
            "load /etc/greetd/config.toml",
            "lock",
            "child ignored",
            "terminate shuts down",
            "interrupt shuts down",
            "next /etc/pam.d/greetd /usr/lib/pam.d/greetd /etc/pam.d/greetd-greeter",
            r#"runs /run/greetd-1.sock {"Vt":{"path":"/dev/tty4","vt":4,"switch":true}}"#,
            "nothing",
        ]
    );
}

#[test]
fn bad_configuration_ends_the_setup() {
    assert_eq!(
        setup(Some("/x"), vec![SetupEvent::Loaded(Err("gone".into()))]),
        vec!["load /x", "failed: config error: failed to read /x: gone"]
    );
    assert_eq!(
        setup(Some("/x"), vec![SetupEvent::Loaded(Ok(Err("bad".into())))])[1],
        "failed: config error: failed to parse config: bad"
    );
    assert_eq!(
        setup(Some("/x"), vec![SetupEvent::Loaded(Ok(Ok(file(VtValue::Other))))])[1],
        "failed: config error: vt must be string or integer"
    );
}

#[test]
fn signals_have_to_be_handled() {
    let loaded = SetupEvent::Loaded(Ok(Ok(file(VtValue::Integer(1)))));
    let actions = setup(None, vec![loaded, SetupEvent::Done, SetupEvent::Done, failed_setup()]);
    assert_eq!(actions[4], "failed: no");
}

#[test]
fn missing_service_ends_the_setup() {
    let loaded = SetupEvent::Loaded(Ok(Ok(file(VtValue::Integer(1)))));
    let none = PamFiles { etc: false, usr_lib: false };
    let bare = Surroundings { vt: Ok(1), service: none, greeter_service: none, pid: 1 };
    let actions = setup(
        None,
        vec![
            loaded,
            SetupEvent::Done,
            SetupEvent::Done,
            SetupEvent::Done,
            SetupEvent::Done,
            SetupEvent::Surveyed(bare),
        ],
    );
    assert_eq!(actions[6], "failed: PAM service not found: greetd");
}

fn startup_shown(action: StartupAction) -> String {
    match action {
        StartupAction::LookUpUser { name } => format!("look up {name}"),
        StartupAction::Remove { path } => format!("remove {path}"),
        StartupAction::Bind { path } => format!("bind {path}"),
        StartupAction::Chown { path, uid, gid } => format!("chown {path} {uid} {gid}"),
        StartupAction::CheckExists { path } => format!("exists {path}"),
        StartupAction::StartInitial { request } => format!("initial {} {:?}", request.user, request.cmd),
        StartupAction::WriteEmpty { path } => format!("write {path}"),
        StartupAction::StartGreeter { request } => format!("greeter {} {:?}", request.user, request.cmd),
        StartupAction::Unblock => "unblock".to_string(),
        StartupAction::RunLoop { greeter } => format!("loop {}", greeter.worker_pid),
        StartupAction::Finish(Ok(())) => "finish".to_string(),
        StartupAction::Finish(Err(error)) => format!("finish: {}", error.to_string()),
        StartupAction::Nothing => "nothing".to_string(),
    }
}

fn startup(runtime: Runtime, events: Vec<StartupEvent>) -> Vec<String> {
    let (mut startup, first) = Startup::create_listener(runtime);
    assert_eq!(startup.stage, Stage::LookingUp);
    let mut actions = vec![startup_shown(first)];
    for event in events {
        let (next, action) = startup.step(event);
        startup = next;
        actions.push(startup_shown(action));
    }
    actions
}

fn listening() -> Vec<StartupEvent> {
    vec![
        StartupEvent::UserFound(Ok(Some((30, 40)))),
        StartupEvent::Failed(Error::Other("ENOENT".into())),
        StartupEvent::Done,
        StartupEvent::Done,
    ]
}

fn followed(mut events: Vec<StartupEvent>, more: Vec<StartupEvent>) -> Vec<StartupEvent> {
    events.extend(more);
    events
}

fn started(worker_pid: i32) -> StartupEvent {
    StartupEvent::Started(Session { worker_pid })
}

#[test]
fn first_run_starts_its_session_before_the_greeter() {
    let rest = vec![
        StartupEvent::Exists(false),
        started(5),
        StartupEvent::Done,
        started(6),
        StartupEvent::Done,
        StartupEvent::Done,
        StartupEvent::Done,
    ];
    assert_eq!(
        startup(runtime(true), followed(listening(), rest)),
        vec![
            "look up greeter",
            "remove /run/greetd-1.sock",
            "bind /run/greetd-1.sock",
            "chown /run/greetd-1.sock 30 40",
            "exists /run/greetd.run",
            r#"initial john ["sway"]"#,
            "write /run/greetd.run",
            r#"greeter greeter ["agreety"]"#,
            "unblock",
            "loop 6",
            "finish",
            "nothing",
        ]
    );
}

#[test]
fn later_runs_start_only_the_greeter() {
    let rest = || vec![StartupEvent::Exists(true), StartupEvent::Done];
    let actions = startup(runtime(true), followed(listening(), rest()));
    assert_eq!(actions[5..], ["write /run/greetd.run", r#"greeter greeter ["agreety"]"#]);
    let first = vec![StartupEvent::Exists(false), StartupEvent::Done];
    let actions = startup(runtime(false), followed(listening(), first));
    assert_eq!(actions[5..], ["write /run/greetd.run", r#"greeter greeter ["agreety"]"#]);
}

#[test]
fn failures_end_the_start() {
    let failed = || StartupEvent::Failed(Error::Other("no".into()));
    let bound = vec![StartupEvent::UserFound(Ok(Some((1, 1)))), StartupEvent::Done, failed()];
    assert_eq!(startup(runtime(true), bound)[3], "finish: no");
    let initial = followed(listening(), vec![StartupEvent::Exists(false), failed(), started(1)]);
    assert_eq!(startup(runtime(true), initial)[6..], ["finish: no", "nothing"]);
    let greeter =
        followed(listening(), vec![StartupEvent::Exists(true), StartupEvent::Done, failed()]);
    assert_eq!(startup(runtime(true), greeter)[7], "finish: no");
    let missing = vec![StartupEvent::UserFound(Ok(None))];
    assert_eq!(startup(runtime(true), missing)[1], "finish: greeter user not found: greeter");
    let nix = NixError { interrupted: false, text: "EIO".into() };
    let broken = vec![StartupEvent::UserFound(Err(nix))];
    assert_eq!(startup(runtime(true), broken)[1], "finish: nix error: EIO");
}

#[test]
fn failures_of_the_loop_are_passed_on() {
    let rest = vec![
        StartupEvent::Exists(true),
        StartupEvent::Done,
        started(6),
        StartupEvent::Done,
        StartupEvent::Failed(Error::Other("no".into())),
    ];
    assert_eq!(startup(runtime(true), followed(listening(), rest))[9], "finish: no");
}

#[test]
fn daemon_says_why_it_leaves() {
    assert_eq!(farewell(Ok(())), (None, 0));
    let (line, status) = farewell(Err(Error::Config("bad".into())));
    assert_eq!(line.unwrap(), "greetd: config error: bad");
    assert_eq!(status, 1);
}
