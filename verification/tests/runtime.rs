use greetd::config::{Config, InitialSession, VtSelection};
use greetd::error::{Error, NixError};
use greetd::runtime::{
    find_pam_service, get_terminal_mode, listener_owner, pam_service_paths,
    terminal_mode_from_device, vt_query, PamFiles, Runtime, RuntimeInitialSession, Surroundings,
    VtQuery,
};
use greetd::session::SessionClass;
use greetd::terminal::TerminalMode;

fn config(vt: VtSelection, switch: bool) -> Config {
    Config {
        vt,
        switch,
        source_profile: true,
        runfile: "/run/greetd.run".into(),
        service: "greetd".into(),
        greeter_command: "agreety".into(),
        greeter_user: "greeter".into(),
        greeter_service: "greetd-greeter".into(),
        initial_session: Some(InitialSession { command: "sway".into(), user: "john".into() }),
    }
}

fn files(etc: bool, usr_lib: bool) -> PamFiles {
    PamFiles { etc, usr_lib }
}

fn found(vt: Result<u32, Error>, service: PamFiles, greeter_service: PamFiles) -> Surroundings {
    Surroundings { vt, service, greeter_service, pid: 321 }
}

fn no_device() -> Result<u32, Error> {
    Err(Error::Other("no device".into()))
}

fn mode_text(mode: Result<TerminalMode, Error>) -> String {
    mode.unwrap().to_json()
}

#[test]
fn service_files_are_looked_for_in_two_places() {
    let (etc, usr_lib) = pam_service_paths("login");
    assert_eq!(etc, "/etc/pam.d/login");
    assert_eq!(usr_lib, "/usr/lib/pam.d/login");
    assert_eq!(find_pam_service("login", files(true, false)).unwrap(), "login");
    assert_eq!(find_pam_service("login", files(false, true)).unwrap(), "login");
    let missing = find_pam_service("login", files(false, false)).unwrap_err();
    assert_eq!(missing.to_string(), "PAM service not found: login");
}

#[test]
fn no_terminal_means_standard_input() {
    let mode = get_terminal_mode(&config(VtSelection::NoVt, true), no_device());
    assert!(matches!(mode, Ok(TerminalMode::Stdin)));
}

#[test]
fn given_terminal_is_taken_as_it_is() {
    let mode = get_terminal_mode(&config(VtSelection::Specific(7), true), no_device());
    assert_eq!(mode_text(mode), r#"{"Vt":{"path":"/dev/tty7","vt":7,"switch":true}}"#);
    let mode = get_terminal_mode(&config(VtSelection::Specific(7), false), no_device());
    assert_eq!(mode_text(mode), r#"{"Vt":{"path":"/dev/tty7","vt":7,"switch":false}}"#);
}

#[test]
fn active_terminal_is_not_switched_to() {
    let mode = get_terminal_mode(&config(VtSelection::Current, true), Ok(3));
    assert_eq!(mode_text(mode), r#"{"Vt":{"path":"/dev/tty3","vt":3,"switch":false}}"#);
}

#[test]
fn free_terminal_is_switched_to_if_wanted() {
    let mode = terminal_mode_from_device(&config(VtSelection::Next, true), Ok(8));
    assert_eq!(mode_text(mode), r#"{"Vt":{"path":"/dev/tty8","vt":8,"switch":true}}"#);
    let mode = get_terminal_mode(&config(VtSelection::Next, false), Ok(8));
    assert_eq!(mode_text(mode), r#"{"Vt":{"path":"/dev/tty8","vt":8,"switch":false}}"#);
    let failed = get_terminal_mode(&config(VtSelection::Next, true), no_device()).unwrap_err();
    assert_eq!(failed.to_string(), "no device");
}

#[test]
fn device_is_asked_only_where_needed() {
    assert_eq!(vt_query(&config(VtSelection::Current, true)), Some(VtQuery::Current));
    assert_eq!(vt_query(&config(VtSelection::Next, true)), Some(VtQuery::Next));
    assert_eq!(vt_query(&config(VtSelection::NoVt, true)), None);
    assert_eq!(vt_query(&config(VtSelection::Specific(1), true)), None);
}

#[test]
fn runtime_takes_over_the_configuration() {
    let surroundings = found(no_device(), files(true, false), files(false, true));
    let runtime = Runtime::from_config(config(VtSelection::Specific(1), true), surroundings).unwrap();
    assert_eq!(runtime.pam_service, "greetd");
    assert_eq!(runtime.greeter_pam_service, "greetd-greeter");
    assert_eq!(runtime.greeter_command, "agreety");
    assert_eq!(runtime.greeter_user, "greeter");
    assert!(runtime.source_profile);
    assert_eq!(runtime.sock_path, "/run/greetd-321.sock");
    assert_eq!(runtime.runfile, "/run/greetd.run");
    let initial = runtime.initial_session.unwrap();
    assert_eq!((initial.user.as_str(), initial.command.as_str()), ("john", "sway"));
}

#[test]
fn greeter_falls_back_to_the_users_service() {
    let surroundings = found(no_device(), files(true, false), files(false, false));
    let runtime = Runtime::from_config(config(VtSelection::NoVt, true), surroundings).unwrap();
    assert_eq!(runtime.greeter_pam_service, "greetd");
}

#[test]
fn users_service_has_to_exist() {
    let surroundings = found(no_device(), files(false, false), files(true, true));
    let failed = Runtime::from_config(config(VtSelection::NoVt, true), surroundings).unwrap_err();
    assert_eq!(failed.to_string(), "PAM service not found: greetd");
}

#[test]
fn terminal_is_looked_at_first() {
    let surroundings = found(no_device(), files(false, false), files(false, false));
    let failed = Runtime::from_config(config(VtSelection::Current, true), surroundings).unwrap_err();
    assert_eq!(failed.to_string(), "no device");
}

#[test]
fn first_session_is_for_the_first_run_only() {
    let surroundings = found(no_device(), files(true, true), files(true, true));
    let runtime = Runtime::from_config(config(VtSelection::NoVt, true), surroundings).unwrap();
    assert!(runtime.initial_request(true).is_none());
    let request = runtime.initial_request(false).unwrap();
    assert_eq!(request.service, "greetd");
    assert_eq!(request.class, SessionClass::User);
    assert_eq!(request.user, "john");
    assert_eq!(request.cmd, vec!["sway"]);
    let greeter = runtime.greeter_request();
    assert_eq!(greeter.service, "greetd-greeter");
    assert_eq!(greeter.class, SessionClass::Greeter);
    assert_eq!(greeter.user, "greeter");
    assert_eq!(greeter.cmd, vec!["agreety"]);
}

#[test]
fn no_first_session_where_none_is_configured() {
    let mut config = config(VtSelection::NoVt, true);
    config.initial_session = None;
    let surroundings = found(no_device(), files(true, true), files(true, true));
    let runtime = Runtime::from_config(config, surroundings).unwrap();
    assert!(runtime.initial_request(false).is_none());
}

#[test]
fn first_session_keeps_its_user_and_command() {
    let initial = InitialSession { command: "sway".into(), user: "john".into() };
    let kept = RuntimeInitialSession::from(initial);
    assert_eq!(kept.user, "john");
    assert_eq!(kept.command, "sway");
}

#[test]
fn socket_belongs_to_an_existing_user() {
    assert_eq!(listener_owner("greeter", Ok(Some((10, 20)))).unwrap(), (10, 20));
    let missing = listener_owner("greeter", Ok(None)).unwrap_err();
    assert_eq!(missing.to_string(), "greeter user not found: greeter");
    let failed = NixError { interrupted: false, text: "EIO: I/O error".into() };
    let failed = listener_owner("greeter", Err(failed)).unwrap_err();
    assert_eq!(failed.to_string(), "nix error: EIO: I/O error");
}
