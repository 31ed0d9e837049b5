use greetd::frame::encode;
use greetd::greeter::{Greeter, GreeterAction};
use greetd::ipc::Request;

fn args() -> Vec<String> {
    vec!["test-greeter".into(), "testuser".into(), "testpass".into(), "/bin/bash".into()]
}

fn message(action: GreeterAction) -> Vec<u8> {
    match action {
        GreeterAction::Exchange { message } => message,
        _ => panic!("no message"),
    }
}

fn end(action: GreeterAction) -> (String, i32) {
    match action {
        GreeterAction::Leave { note, status } => (note, status),
        _ => panic!("not over"),
    }
}

const PROMPT: &str =
    r#"{"type":"auth_message","auth_message_type":"secret","auth_message":"Password: "}"#;
const SUCCESS: &str = r#"{"type":"success"}"#;
const ERROR: &str = r#"{"type":"error","error_type":"auth_error","description":"no"}"#;

#[test]
fn arguments_are_needed() {
    let (greeter, action) = Greeter::new(&vec!["test-greeter".into(), "a".into(), "b".into()]);
    assert_eq!(end(action), ("Usage: test-greeter <username> <password> <command>".into(), 1));
    assert!(matches!(greeter, Greeter::Left));
    assert!(matches!(greeter.step(SUCCESS).1, GreeterAction::Nothing));
}

#[test]
fn greeter_logs_in_and_starts_the_command() {
    let (greeter, action) = Greeter::new(&args());
    assert_eq!(message(action), encode(br#"{"type":"create_session","username":"testuser"}"#));
    let (greeter, action) = greeter.step(PROMPT);
    assert_eq!(
        message(action),
        encode(br#"{"type":"post_auth_message_response","response":"testpass"}"#)
    );
    let (greeter, action) = greeter.step(SUCCESS);
    assert_eq!(message(action), encode(br#"{"type":"start_session","cmd":["/bin/bash"]}"#));
    let (_, action) = greeter.step(SUCCESS);
    assert_eq!(end(action), ("Session started, greeter exiting".into(), 0));
}

#[test]
fn messages_are_the_daemons_requests() {
    let (greeter, action) = Greeter::new(&args());
    let create = Request::CreateSession { username: "testuser".into() };
    assert_eq!(message(action), encode(create.to_json().as_bytes()));
    let answer = Request::PostAuthMessageResponse { response: Some("testpass".into()) };
    assert_eq!(message(greeter.step(PROMPT).1), encode(answer.to_json().as_bytes()));
}

#[test]
fn password_is_given_only_if_asked_for() {
    let (greeter, _) = Greeter::new(&args());
    let (_, action) = greeter.step(SUCCESS);
    assert_eq!(message(action), encode(br#"{"type":"start_session","cmd":["/bin/bash"]}"#));
}

#[test]
fn refused_password_ends_the_greeter() {
    let (greeter, _) = Greeter::new(&args());
    let (greeter, _) = greeter.step(PROMPT);
    assert_eq!(end(greeter.step(ERROR).1), ("Authentication failed".into(), 1));
}

#[test]
fn refused_command_ends_the_greeter() {
    let (greeter, _) = Greeter::new(&args());
    let (greeter, _) = greeter.step(SUCCESS);
    assert_eq!(end(greeter.step(ERROR).1), ("Failed to start session".into(), 1));
}
