use greetd::config::{
    config_path, default_greeter_user, default_runfile, default_service, default_true, parse_vt,
    Config, ConfigFile, GeneralSection, SessionSection, TerminalSection, VtSelection, VtValue,
};
use greetd::error::Error;

fn text_at(table: &toml::Table, key: &str) -> Option<String> {
    table.get(key).map(|value| value.as_str().unwrap().to_string())
}

fn flag_at(table: &toml::Table, key: &str) -> Option<bool> {
    table.get(key).map(|value| value.as_bool().unwrap())
}

fn table_at<'a>(table: &'a toml::Table, key: &str) -> Option<&'a toml::Table> {
    table.get(key).map(|value| value.as_table().unwrap())
}

fn session_of(table: &toml::Table) -> Result<SessionSection, String> {
    Ok(SessionSection {
        command: text_at(table, "command").ok_or("missing field `command`")?,
        user: text_at(table, "user"),
        service: text_at(table, "service"),
    })
}

fn read(content: &str) -> Result<ConfigFile, String> {
    let file = content.parse::<toml::Table>().map_err(|e| e.to_string())?;
    let terminal = table_at(&file, "terminal").ok_or("missing field `terminal`")?;
    let vt = match terminal.get("vt").ok_or("missing field `vt`")? {
        toml::Value::String(s) => VtValue::String(s.clone()),
        toml::Value::Integer(n) => VtValue::Integer(*n),
        _ => VtValue::Other,
    };
    let default_session =
        session_of(table_at(&file, "default_session").ok_or("missing field `default_session`")?)?;
    let initial_session = match table_at(&file, "initial_session") {
        Some(table) => Some(session_of(table)?),
        None => None,
    };
    Ok(ConfigFile {
        terminal: TerminalSection { vt, switch: flag_at(terminal, "switch") },
        general: table_at(&file, "general").map(|general| GeneralSection {
            source_profile: flag_at(general, "source_profile"),
            runfile: text_at(general, "runfile"),
            service: text_at(general, "service"),
        }),
        default_session,
        initial_session,
    })
}

fn parse(content: &str) -> Result<Config, Error> {
    Config::parse(read(content))
}

#[test]
fn minimal_config() {
    let config = parse(
        r#"
[terminal]
vt = 1

[default_session]
command = "agreety"
"#,
    )
    .unwrap();

    assert!(matches!(config.vt, VtSelection::Specific(1)));
    assert!(config.switch);
    assert_eq!(config.greeter_command, "agreety");
    assert_eq!(config.greeter_user, "greeter");
    assert_eq!(config.greeter_service, "greetd-greeter");
    assert!(config.source_profile);
    assert_eq!(config.runfile, "/run/greetd.run");
    assert_eq!(config.service, "greetd");
    assert!(config.initial_session.is_none());
}

#[test]
fn vt_selection_none() {
    let config = parse(
        r#"
[terminal]
vt = "none"

[default_session]
command = "test"
"#,
    )
    .unwrap();

    assert!(matches!(config.vt, VtSelection::NoVt));
}

#[test]
fn vt_selection_current() {
    let config = parse(
        r#"
[terminal]
vt = "current"

[default_session]
command = "test"
"#,
    )
    .unwrap();

    assert!(matches!(config.vt, VtSelection::Current));
}

#[test]
fn vt_selection_next() {
    let config = parse(
        r#"
[terminal]
vt = "next"

[default_session]
command = "test"
"#,
    )
    .unwrap();

    assert!(matches!(config.vt, VtSelection::Next));
}

#[test]
fn vt_selection_specific() {
    let config = parse(
        r#"
[terminal]
vt = 7

[default_session]
command = "test"
"#,
    )
    .unwrap();

    assert!(matches!(config.vt, VtSelection::Specific(7)));
}

#[test]
fn invalid_vt_string() {
    let result = parse(
        r#"
[terminal]
vt = "invalid"

[default_session]
command = "test"
"#,
    );

    assert!(result.is_err());
    let err = result.unwrap_err().to_string();
    assert!(err.contains("invalid vt value"));
    assert_eq!(err, "config error: invalid vt value: invalid");
}

#[test]
fn switch_disabled() {
    let config = parse(
        r#"
[terminal]
vt = 1
switch = false

[default_session]
command = "test"
"#,
    )
    .unwrap();

    assert!(!config.switch);
}

#[test]
fn custom_general_section() {
    let config = parse(
        r#"
[terminal]
vt = 1

[general]
source_profile = false
runfile = "/custom/path"
service = "custom-pam"

[default_session]
command = "test"
"#,
    )
    .unwrap();

    assert!(!config.source_profile);
    assert_eq!(config.runfile, "/custom/path");
    assert_eq!(config.service, "custom-pam");
}

#[test]
fn custom_session_user_and_service() {
    let config = parse(
        r#"
[terminal]
vt = 1

[default_session]
command = "my-greeter"
user = "custom-user"
service = "custom-greeter-pam"
"#,
    )
    .unwrap();

    assert_eq!(config.greeter_command, "my-greeter");
    assert_eq!(config.greeter_user, "custom-user");
    assert_eq!(config.greeter_service, "custom-greeter-pam");
}

#[test]
fn initial_session() {
    let config = parse(
        r#"
[terminal]
vt = 1

[default_session]
command = "greeter"

[initial_session]
command = "sway"
user = "john"
"#,
    )
    .unwrap();

    let initial = config.initial_session.unwrap();
    assert_eq!(initial.command, "sway");
    assert_eq!(initial.user, "john");
}

#[test]
fn missing_terminal_section() {
    let result = parse(
        r#"
[default_session]
command = "test"
"#,
    );

    assert!(result.is_err());
}

#[test]
fn missing_default_session() {
    let result = parse(
        r#"
[terminal]
vt = 1
"#,
    );

    assert!(result.is_err());
}

#[test]
fn missing_command() {
    let result = parse(
        r#"
[terminal]
vt = 1

[default_session]
user = "greeter"
"#,
    );

    assert!(result.is_err());
}

#[test]
fn general_section_may_be_partial() {
    let config = parse(
        r#"
[terminal]
vt = 1

[general]
service = "login"

[default_session]
command = "test"
"#,
    )
    .unwrap();

    assert!(config.source_profile);
    assert_eq!(config.runfile, "/run/greetd.run");
    assert_eq!(config.service, "login");
}

#[test]
fn initial_session_has_a_default_user() {
    let config = parse(
        r#"
[terminal]
vt = 1

[default_session]
command = "test"

[initial_session]
command = "sway"
"#,
    )
    .unwrap();

    assert_eq!(config.initial_session.unwrap().user, "greeter");
}

#[test]
fn vt_of_another_kind_is_refused() {
    let err = parse_vt(&VtValue::Other).unwrap_err();
    assert_eq!(err.to_string(), "config error: vt must be string or integer");
}

#[test]
fn vt_numbers_keep_their_low_bits() {
    assert_eq!(parse_vt(&VtValue::Integer(-1)).unwrap(), VtSelection::Specific(u32::MAX));
    assert_eq!(parse_vt(&VtValue::Integer(0x1_0000_0007)).unwrap(), VtSelection::Specific(7));
    assert_eq!(parse_vt(&VtValue::Integer(0)).unwrap(), VtSelection::Specific(0));
}

#[test]
fn parse_errors_are_config_errors() {
    let err = parse("[terminal").unwrap_err();
    assert!(err.to_string().starts_with("config error: failed to parse config: "));
    assert!(matches!(err, Error::Config(_)));
}

#[test]
fn unreadable_file_is_a_config_error() {
    let err = Config::load("/etc/x.toml", Err("No such file or directory (os error 2)".into()))
        .unwrap_err();
    assert_eq!(
        err.to_string(),
        "config error: failed to read /etc/x.toml: No such file or directory (os error 2)"
    );
}

#[test]
fn loaded_file_is_parsed() {
    let content = "[terminal]\nvt = 2\n[default_session]\ncommand = \"x\"\n";
    let config = Config::load("/etc/x.toml", Ok(read(content))).unwrap();
    assert_eq!(config.vt, VtSelection::Specific(2));
    assert_eq!(config.greeter_command, "x");
}

#[test]
fn config_path_has_a_default() {
    assert_eq!(config_path(None), "/etc/greetd/config.toml");
    assert_eq!(config_path(Some("/tmp/c.toml".into())), "/tmp/c.toml");
}

#[test]
fn documented_defaults() {
    assert!(default_true());
    assert_eq!(default_runfile(), "/run/greetd.run");
    assert_eq!(default_service(), "greetd");
    assert_eq!(default_greeter_user(), "greeter");
}
