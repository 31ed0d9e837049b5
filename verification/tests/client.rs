use greetd::client::{
    auth_prompt_response, error_response, handle_request, Client, ClientAction, ClientEvent,
};
use greetd::error::{Error, IoError, IoErrorKind};
use greetd::ipc::{Request, Response};
use greetd::pending::PendingState;
use greetd::runtime::Runtime;
use greetd::session::{Session, WorkerResponse};
use greetd::terminal::TerminalMode;

fn runtime() -> Runtime {
    Runtime {
        pam_service: "greetd".into(),
        greeter_pam_service: "greetd-greeter".into(),
        greeter_command: "agreety".into(),
        greeter_user: "greeter".into(),
        term_mode: TerminalMode::Stdin,
        source_profile: true,
        sock_path: "/run/greetd-1.sock".into(),
        runfile: "/run/greetd.run".into(),
        initial_session: None,
    }
}

fn session() -> Session {
    Session { worker_pid: 7 }
}

fn failure(text: &str) -> ClientEvent {
    ClientEvent::Failed(Error::Other(text.into()))
}

fn create() -> Request {
    Request::CreateSession { username: "bob".into() }
}

fn start() -> Request {
    Request::StartSession { cmd: vec!["sway".into()], env: vec!["A=b".into()] }
}

fn request(request: Request) -> ClientEvent {
    ClientEvent::Payload(Ok(Ok(request)))
}

fn header() -> ClientEvent {
    ClientEvent::Header(Ok(5u32.to_ne_bytes()))
}

fn hang_up() -> ClientEvent {
    ClientEvent::Header(Err(IoError { kind: IoErrorKind::UnexpectedEof, text: "eof".into() }))
}

/// Hands one report to the connection and shows the action in a few words.
fn told(client: Client, event: ClientEvent, pending: &mut PendingState) -> (Client, String) {
    let (client, action) = client.step(event, &runtime(), pending, 99);
    let shown = match action {
        ClientAction::ReadHeader => "read header".to_string(),
        ClientAction::ReadPayload { len } => format!("read {len}"),
        ClientAction::Spawn => "spawn".to_string(),
        ClientAction::Send { session, request } => {
            format!("to {}: {}", session.worker_pid, request.to_json())
        }
        ClientAction::Receive { session } => format!("from {}", session.worker_pid),
        ClientAction::Write { response } => format!("write {}", response.to_json()),
        ClientAction::Close(Ok(())) => "close".to_string(),
        ClientAction::Close(Err(error)) => format!("close: {}", error.to_string()),
        ClientAction::Nothing => "nothing".to_string(),
    };
    (client, shown)
}

fn conversation(client: Client, events: Vec<ClientEvent>, pending: &mut PendingState) -> Vec<String> {
    let mut client = client;
    let mut actions = Vec::new();
    for event in events {
        let (next, action) = told(client, event, pending);
        client = next;
        actions.push(action);
    }
    actions
}

fn quiet(client: Client, events: Vec<ClientEvent>) -> Vec<String> {
    let mut pending = PendingState::default();
    let actions = conversation(client, events, &mut pending);
    assert_eq!(pending, PendingState::default());
    actions
}

fn fresh() -> Client {
    let (client, action) = Client::handle_client();
    assert!(matches!(action, ClientAction::ReadHeader));
    client
}

#[test]
fn login_goes_through() {
    let mut pending = PendingState::default();
    let prompt = WorkerResponse::AuthPrompt { prompt: "Password: ".into(), echo: false };
    let actions = conversation(
        fresh(),
        vec![
            header(),
            request(create()),
            ClientEvent::Spawned(session()),
            ClientEvent::Done,
            ClientEvent::Received(prompt),
            ClientEvent::Done,
            header(),
            request(Request::PostAuthMessageResponse { response: Some("pw".into()) }),
            ClientEvent::Done,
            ClientEvent::Received(WorkerResponse::Ready),
            ClientEvent::Done,
            header(),
            request(start()),
            ClientEvent::Done,
            ClientEvent::Received(WorkerResponse::Started { pid: 70 }),
            ClientEvent::Done,
            hang_up(),
        ],
        &mut pending,
    );
    assert_eq!(
        actions,
        vec![
            "read 5",
            "spawn",
            concat_all(&[
                r#"to 7: {"Initiate":{"service":"greetd","class":"User","user":"bob","#,
                r#""authenticate":true,"tty":"Stdin","source_profile":true,"#,
                r#""greetd_sock":"/run/greetd-1.sock"}}"#,
            ])
            .as_str(),
            "from 7",
            r#"write {"type":"auth_message","auth_message_type":"secret","auth_message":"Password: "}"#,
            "read header",
            "read 5",
            r#"to 7: {"AuthResponse":"pw"}"#,
            "from 7",
            r#"write {"type":"success"}"#,
            "read header",
            "read 5",
            r#"to 7: {"Start":{"cmd":["sway"],"env":["A=b"]}}"#,
            "from 7",
            r#"write {"type":"success"}"#,
            "read header",
            "close",
        ]
    );
    assert_eq!(
        pending,
        PendingState { session: Some(session()), since: Some(99), sent_term: false }
    );
}

fn concat_all(parts: &[&str]) -> String {
    parts.concat()
}

#[test]
fn session_has_to_be_created_first() {
    let refused =
        r#"write {"type":"error","error_type":"error","description":"no session active"}"#;
    let answer = Request::PostAuthMessageResponse { response: None };
    assert_eq!(quiet(fresh(), vec![header(), request(answer)])[1], refused);
    assert_eq!(quiet(fresh(), vec![header(), request(start())])[1], refused);
}

#[test]
fn cancelling_always_succeeds() {
    let cancel = || request(Request::CancelSession);
    let success = r#"write {"type":"success"}"#;
    assert_eq!(quiet(fresh(), vec![header(), cancel()])[1], success);
    let with_session = || Client::Reading { session: Some(session()) };
    assert_eq!(
        quiet(with_session(), vec![cancel(), ClientEvent::Done, ClientEvent::Done]),
        vec![r#"to 7: "Cancel""#, success, "read header"]
    );
    assert_eq!(
        quiet(with_session(), vec![cancel(), failure("gone"), ClientEvent::Done, hang_up()]),
        vec![r#"to 7: "Cancel""#, success, "read header", "close"]
    );
}

#[test]
fn new_session_ends_the_old_one() {
    let with_session = || Client::Reading { session: Some(session()) };
    assert_eq!(
        quiet(with_session(), vec![request(create()), ClientEvent::Done]),
        vec![r#"to 7: "Cancel""#, "spawn"]
    );
    assert_eq!(
        quiet(with_session(), vec![request(create()), failure("gone")]),
        vec![r#"to 7: "Cancel""#, "spawn"]
    );
}

#[test]
fn hanging_up_ends_the_session() {
    let with_session = || Client::Idle { session: Some(session()) };
    assert_eq!(
        quiet(with_session(), vec![hang_up(), ClientEvent::Done]),
        vec![r#"to 7: "Cancel""#, "close"]
    );
    assert_eq!(
        quiet(with_session(), vec![hang_up(), failure("gone"), ClientEvent::Done]),
        vec![r#"to 7: "Cancel""#, "close", "nothing"]
    );
    assert_eq!(quiet(fresh(), vec![hang_up()]), vec!["close"]);
}

#[test]
fn failed_start_is_answered_and_not_queued() {
    let starting = || Client::Reading { session: Some(session()) };
    let refused = r#"write {"type":"error","error_type":"error","description":"no exec"}"#;
    let told_no = ClientEvent::Received(WorkerResponse::Error("no exec".into()));
    assert_eq!(
        quiet(starting(), vec![request(start()), ClientEvent::Done, told_no, ClientEvent::Done, hang_up()]),
        vec![
            r#"to 7: {"Start":{"cmd":["sway"],"env":["A=b"]}}"#,
            "from 7",
            refused,
            "read header",
            "close"
        ]
    );
    assert_eq!(quiet(starting(), vec![request(start()), failure("no exec")])[1], refused);
    assert_eq!(
        quiet(starting(), vec![request(start()), ClientEvent::Done, failure("no exec")])[2],
        refused
    );
    let odd = ClientEvent::Received(WorkerResponse::Ready);
    assert!(quiet(starting(), vec![request(start()), ClientEvent::Done, odd])[2]
        .contains("unexpected response"));
}

fn told_of(error_type: &str, description: &str) -> String {
    format!(r#"write {{"type":"error","error_type":"{error_type}","description":"{description}"}}"#)
}

#[test]
fn refused_login_is_answered() {
    let refused = ClientEvent::Received(WorkerResponse::Error("bad password".into()));
    let again = vec![
        ClientEvent::Done,
        header(),
        request(Request::PostAuthMessageResponse { response: Some("guess".into()) }),
        ClientEvent::Done,
        refused,
        ClientEvent::Done,
        header(),
        request(create()),
        hang_up(),
    ];
    assert_eq!(
        quiet(Client::Replying { session: Some(session()) }, again),
        vec![
            "read header",
            "read 5",
            r#"to 7: {"AuthResponse":"guess"}"#,
            "from 7",
            told_of("auth_error", "auth error: bad password").as_str(),
            "read header",
            "read 5",
            "spawn",
            "nothing",
        ]
    );
}

#[test]
fn failed_login_is_answered() {
    let spawning = || Client::Spawning { username: "bob".into() };
    assert_eq!(quiet(spawning(), vec![failure("fork")]), vec![told_of("error", "fork")]);
    let initiating = || Client::Initiating { session: session() };
    assert_eq!(quiet(initiating(), vec![failure("send")]), vec![told_of("error", "send")]);
    let awaiting = || Client::AwaitingPrompt { session: session() };
    assert_eq!(quiet(awaiting(), vec![failure("recv")]), vec![told_of("error", "recv")]);
    let denied = ClientEvent::Failed(Error::Auth("no".into()));
    assert_eq!(quiet(awaiting(), vec![denied]), vec![told_of("auth_error", "auth error: no")]);
    let early = ClientEvent::Received(WorkerResponse::Started { pid: 1 });
    assert_eq!(quiet(awaiting(), vec![early]), vec![told_of("error", "unexpected Started")]);
    let responding = || Client::Responding { session: session() };
    assert_eq!(
        quiet(responding(), vec![failure("send"), ClientEvent::Done, hang_up()]),
        vec![told_of("error", "send").as_str(), "read header", "close"]
    );
}

#[test]
fn failures_of_the_stream_close_the_connection() {
    let replying = || Client::Replying { session: None };
    assert_eq!(quiet(replying(), vec![failure("pipe")]), vec!["close: pipe"]);
    let garbage = ClientEvent::Payload(Ok(Err("expected value".into())));
    assert_eq!(
        quiet(fresh(), vec![header(), garbage]),
        vec!["read 5", "close: failed to parse request: expected value"]
    );
    let torn = IoError { kind: IoErrorKind::UnexpectedEof, text: "eof".into() };
    assert_eq!(
        quiet(fresh(), vec![header(), ClientEvent::Payload(Err(torn))])[1],
        "close: io error: eof"
    );
    let reset = IoError { kind: IoErrorKind::Other, text: "reset".into() };
    assert_eq!(
        quiet(fresh(), vec![ClientEvent::Header(Err(reset))]),
        vec!["close: io error: reset"]
    );
}

#[test]
fn failures_are_told_by_their_type() {
    assert_eq!(
        error_response(&Error::Auth("bad password".into())).to_json(),
        r#"{"type":"error","error_type":"auth_error","description":"auth error: bad password"}"#
    );
    assert_eq!(
        error_response(&Error::Config("bad".into())).to_json(),
        r#"{"type":"error","error_type":"error","description":"config error: bad"}"#
    );
}

#[test]
fn responses_answer_the_last_request() {
    let events = vec![
        header(),
        request(start()),
        ClientEvent::Done,
        header(),
        request(create()),
        failure("fork"),
        ClientEvent::Done,
        header(),
        request(Request::CancelSession),
    ];
    let actions = quiet(fresh(), events);
    assert_eq!(actions[1], told_of("error", "no session active"));
    assert_eq!(actions[5], told_of("error", "fork"));
    assert_eq!(actions[8], r#"write {"type":"success"}"#);
}

#[test]
fn session_let_go_is_left_alone() {
    let cancelled = quiet(
        Client::Reading { session: Some(session()) },
        vec![
            request(Request::CancelSession),
            ClientEvent::Done,
            ClientEvent::Done,
            header(),
            request(start()),
            ClientEvent::Done,
            hang_up(),
        ],
    );
    assert_eq!(cancelled.iter().filter(|action| action.starts_with("to 7")).count(), 1);
    assert_eq!(cancelled[6], "close");

    let mut pending = PendingState::default();
    let queued = conversation(
        Client::AwaitingStart { session: session() },
        vec![
            ClientEvent::Received(WorkerResponse::Started { pid: 70 }),
            ClientEvent::Done,
            header(),
            request(Request::CancelSession),
            ClientEvent::Done,
            hang_up(),
        ],
        &mut pending,
    );
    assert_eq!(
        queued,
        vec![
            r#"write {"type":"success"}"#,
            "read header",
            "read 5",
            r#"write {"type":"success"}"#,
            "read header",
            "close",
        ]
    );
    assert_eq!(pending.session, Some(session()));
}

#[test]
fn visible_prompts_are_marked() {
    let prompt = WorkerResponse::AuthPrompt { prompt: "User:".into(), echo: true };
    assert_eq!(
        auth_prompt_response(prompt).unwrap().to_json(),
        r#"{"type":"auth_message","auth_message_type":"visible","auth_message":"User:"}"#
    );
    assert!(matches!(auth_prompt_response(WorkerResponse::Ready), Ok(Response::Success)));
}

#[test]
fn requests_are_told_apart() {
    let (client, action) = handle_request(create(), None);
    assert!(matches!(client, Client::Spawning { username } if username == "bob"));
    assert!(matches!(action, ClientAction::Spawn));
    let (client, _) = handle_request(start(), Some(session()));
    assert!(matches!(client, Client::Starting { session } if session.worker_pid == 7));
}

#[test]
fn reports_out_of_place_change_nothing() {
    assert_eq!(quiet(fresh(), vec![ClientEvent::Done, hang_up()]), vec!["nothing", "close"]);
    assert_eq!(quiet(Client::Closed, vec![header()]), vec!["nothing"]);
}
