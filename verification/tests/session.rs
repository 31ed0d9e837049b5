use greetd::error::{Error, IoError, IoErrorKind};
use greetd::session::{
    exit_code, last_words, parse_msg, reap_children, recv_msg, send_msg, ForkResult, Session,
    SessionClass, Spawned, WaitStatus, WorkerRequest, WorkerResponse, MESSAGE_LIMIT,
};
use greetd::terminal::{activate, current_vt, device_path, next_vt, TerminalMode};

fn io(kind: IoErrorKind) -> IoError {
    IoError { kind, text: "no luck".into() }
}

#[test]
fn initiate_is_written_with_its_fields_in_order() {
    let tty = TerminalMode::Vt { path: "/dev/tty7".into(), vt: 7, switch: true };
    let request =
        Session::initiate("greetd", SessionClass::User, "bob", true, &tty, false, "/run/g.sock");
    assert_eq!(
        request.to_json(),
        concat_lines(&[
            r#"{"Initiate":{"service":"greetd","class":"User","user":"bob","#,
            r#""authenticate":true,"#,
            r#""tty":{"Vt":{"path":"/dev/tty7","vt":7,"switch":true}},"#,
            r#""source_profile":false,"greetd_sock":"/run/g.sock"}}"#,
        ])
    );
}

fn concat_lines(lines: &[&str]) -> String {
    lines.concat()
}

#[test]
fn initiate_on_standard_input() {
    let request = Session::initiate(
        "greetd-greeter",
        SessionClass::Greeter,
        "greeter",
        false,
        &TerminalMode::Stdin,
        true,
        "s",
    );
    let json: serde_json::Value = serde_json::from_str(&request.to_json()).unwrap();
    assert_eq!(json["Initiate"]["tty"], "Stdin");
    assert_eq!(json["Initiate"]["class"], "Greeter");
    assert_eq!(json["Initiate"]["authenticate"], false);
    assert_eq!(json["Initiate"]["source_profile"], true);
}

#[test]
fn worker_requests_are_tagged() {
    assert_eq!(Session::respond(Some("pw".into())).to_json(), r#"{"AuthResponse":"pw"}"#);
    assert_eq!(Session::respond(None).to_json(), r#"{"AuthResponse":null}"#);
    assert_eq!(
        Session::start(vec!["sh".into()], vec!["A=b".into()]).to_json(),
        r#"{"Start":{"cmd":["sh"],"env":["A=b"]}}"#
    );
    assert_eq!(Session::cancel().to_json(), r#""Cancel""#);
    assert!(matches!(Session::cancel(), WorkerRequest::Cancel));
}

#[test]
fn worker_responses_are_tagged() {
    let prompt = WorkerResponse::AuthPrompt { prompt: "Password: ".into(), echo: false };
    assert_eq!(prompt.to_json(), r#"{"AuthPrompt":{"prompt":"Password: ","echo":false}}"#);
    assert_eq!(WorkerResponse::Ready.to_json(), r#""Ready""#);
    assert_eq!(WorkerResponse::Started { pid: 42 }.to_json(), r#"{"Started":{"pid":42}}"#);
    assert_eq!(WorkerResponse::Error("x\"".into()).to_json(), r#"{"Error":"x\""}"#);
}

#[test]
fn prompts_are_told_from_other_answers() {
    let prompt = WorkerResponse::AuthPrompt { prompt: "PIN".into(), echo: true };
    assert_eq!(Session::get_auth_prompt(prompt).unwrap(), Some(("PIN".to_string(), true)));
    assert_eq!(Session::get_auth_prompt(WorkerResponse::Ready).unwrap(), None);
    let refused = Session::get_auth_prompt(WorkerResponse::Error("no".into())).unwrap_err();
    assert_eq!(refused.to_string(), "auth error: no");
    let early = Session::get_auth_prompt(WorkerResponse::Started { pid: 1 }).unwrap_err();
    assert_eq!(early.to_string(), "unexpected Started");
}

#[test]
fn start_is_told_from_other_answers() {
    assert_eq!(Session::started(WorkerResponse::Started { pid: 9 }).unwrap(), 9);
    let failed = Session::started(WorkerResponse::Error("no".into())).unwrap_err();
    assert_eq!(failed.to_string(), "no");
    let ready = Session::started(WorkerResponse::Ready).unwrap_err();
    assert_eq!(ready.to_string(), "unexpected response");
    let prompt = WorkerResponse::AuthPrompt { prompt: "p".into(), echo: false };
    assert_eq!(Session::started(prompt).unwrap_err().to_string(), "unexpected response");
}

#[test]
fn fork_has_two_sides() {
    let parent = Session::spawn(Ok(ForkResult::Parent { child: 17 })).unwrap();
    match parent {
        Spawned::Daemon(session) => assert_eq!(session.pid(), 17),
        Spawned::Worker => panic!("wrong side"),
    }
    assert!(matches!(Session::spawn(Ok(ForkResult::Child)).unwrap(), Spawned::Worker));
    let failed = Session::spawn(Err(Error::Other("EAGAIN".into()))).unwrap_err();
    assert_eq!(failed.to_string(), "EAGAIN");
}

#[test]
fn interrupted_calls_are_made_again() {
    assert!(send_msg(Err(io(IoErrorKind::Interrupted))).is_none());
    assert!(recv_msg(Err(io(IoErrorKind::Interrupted))).is_none());
    assert!(matches!(send_msg(Ok(5)), Some(Ok(()))));
    assert!(matches!(recv_msg(Ok(5)), Some(Ok(5))));
    let sent = send_msg(Err(io(IoErrorKind::Other))).unwrap().unwrap_err();
    assert_eq!(sent.to_string(), "io error: no luck");
    let received = recv_msg(Err(io(IoErrorKind::UnexpectedEof))).unwrap().unwrap_err();
    assert_eq!(received.to_string(), "io error: no luck");
}

#[test]
fn parser_objections_are_passed_on() {
    assert_eq!(parse_msg(Ok(3)).unwrap(), 3);
    let refused = parse_msg::<u32>(Err("expected value".into())).unwrap_err();
    assert_eq!(refused.to_string(), "expected value");
}

#[test]
fn ended_children_are_reported() {
    assert_eq!(reap_children(WaitStatus::Exited { pid: 3, code: 7 }), Some((3, 7)));
    assert_eq!(reap_children(WaitStatus::Signaled { pid: 3 }), Some((3, 1)));
    assert_eq!(reap_children(WaitStatus::Other), None);
}

#[test]
fn failed_worker_says_why_it_leaves() {
    assert!(last_words(7, 7, &Ok(())).is_none());
    let refused = Err(Error::Auth("authentication failed: no".into()));
    assert!(last_words(7, 8, &refused).is_none());
    let refused = last_words(7, 7, &refused).unwrap();
    assert_eq!(refused.to_json(), r#"{"Error":"authentication failed: no"}"#);
    let unknown = last_words(7, 7, &Err(Error::Config("bad".into()))).unwrap();
    assert_eq!(unknown.to_json(), r#"{"Error":"config error: bad"}"#);
}

#[test]
fn messages_fit_the_buffer_or_are_no_json() {
    let longest = Session::respond(Some("x".repeat(MESSAGE_LIMIT - 19))).to_json();
    assert_eq!(longest.len(), 8192);
    assert!(serde_json::from_str::<serde_json::Value>(&longest).is_ok());
    let longer = Session::respond(Some("x".repeat(MESSAGE_LIMIT - 18))).to_json();
    assert!(serde_json::from_slice::<serde_json::Value>(&longer.as_bytes()[..MESSAGE_LIMIT]).is_err());
    let message = Session::start(vec!["a\"".into(), "b".into()], vec!["C=\u{e9}".into()]).to_json();
    for end in 0..message.len() {
        let cut = &message.as_bytes()[..end];
        assert!(serde_json::from_slice::<serde_json::Value>(cut).is_err());
    }
}

#[test]
fn interrupted_receive_comes_to_its_first_whole_attempt() {
    let mut attempts = vec![Ok(3), Err(io(IoErrorKind::Interrupted)), Err(io(IoErrorKind::Interrupted))];
    let received = loop {
        if let Some(outcome) = recv_msg(attempts.pop().unwrap()) {
            break outcome;
        }
    };
    assert_eq!(received.unwrap(), 3);
}

#[test]
fn worker_status_tells_success() {
    assert_eq!(exit_code(&Ok(())), 0);
    assert_eq!(exit_code(&Err(Error::Other("x".into()))), 1);
}

#[test]
fn terminals_have_devices_and_numbers() {
    assert_eq!(device_path(0), "/dev/tty0");
    assert_eq!(device_path(4294967295), "/dev/tty4294967295");
    assert_eq!(current_vt(63), 63);
    assert_eq!(next_vt(8), 8);
    assert_eq!(next_vt(-1), u32::MAX);
    assert_eq!(activate(9), 9);
    assert_eq!(activate(u32::MAX), -1);
}

#[test]
fn terminal_copies_are_alike() {
    let tty = TerminalMode::Vt { path: "/dev/tty2".into(), vt: 2, switch: false };
    assert_eq!(tty.copy().to_json(), tty.to_json());
    assert_eq!(tty.to_json(), r#"{"Vt":{"path":"/dev/tty2","vt":2,"switch":false}}"#);
    assert_eq!(TerminalMode::Stdin.copy().to_json(), r#""Stdin""#);
}
