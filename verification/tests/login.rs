//! A login from the greeter's first request to the session's command, with a
//! connection and a worker talking to each other.

use greetd::client::{Client, ClientAction, ClientEvent};
use greetd::daemon::{Daemon, DaemonEvent};
use greetd::pending::PendingState;
use greetd::runtime::Runtime;
use greetd::session::{
    last_words, ForkResult, Session, WaitStatus, WorkerRequest, WorkerResponse,
};
use greetd::ipc::Request;
use greetd::terminal::TerminalMode;
use greetd::worker::{UserInfo, Worker, WorkerAction, WorkerEvent};

fn runtime() -> Runtime {
    Runtime {
        pam_service: "greetd".into(),
        greeter_pam_service: "greetd".into(),
        greeter_command: "agreety".into(),
        greeter_user: "greeter".into(),
        term_mode: TerminalMode::Stdin,
        source_profile: false,
        sock_path: "/run/greetd-1.sock".into(),
        runfile: "/run/greetd.run".into(),
        initial_session: None,
    }
}

/// Runs the worker on a message until it says something or leaves, with a PAM
/// that knows one password.
fn worker_hears(worker: Worker, message: WorkerRequest) -> (Worker, Option<WorkerResponse>) {
    let mut worker = worker;
    let mut event = WorkerEvent::Received(message);
    loop {
        let (next, action) = worker.step(event);
        worker = next;
        event = match action {
            WorkerAction::Send(response) => return (worker, Some(response)),
            WorkerAction::Authenticate { user, password } => {
                if user == "bob" && password == "secret" {
                    WorkerEvent::Done
                } else {
                    WorkerEvent::PamFailed("wrong".into())
                }
            }
            WorkerAction::LookUpUser { user } => WorkerEvent::Found(Some(UserInfo {
                name: user,
                dir: "/home/bob".into(),
                home: b"/home/bob".to_vec(),
                shell: "/bin/sh".into(),
                uid: 1,
                gid: 1,
            })),
            WorkerAction::Fork => WorkerEvent::Forked(ForkResult::Parent { child: 8 }),
            WorkerAction::Leave(result) => return (worker, last_words(7, 7, &result)),
            _ => WorkerEvent::Done,
        };
    }
}

/// Sends requests over one connection and collects the responses.
fn greet(requests: Vec<Request>, pending: &mut PendingState) -> Vec<String> {
    let runtime = runtime();
    let mut requests = requests.into_iter();
    let mut worker = None;
    let mut said = None;
    let mut responses = Vec::new();
    let (mut client, mut action) = Client::handle_client();
    loop {
        let event = match action {
            ClientAction::ReadHeader => match requests.len() {
                0 => return responses,
                _ => ClientEvent::Header(Ok(1u32.to_ne_bytes())),
            },
            ClientAction::ReadPayload { .. } => ClientEvent::Payload(Ok(Ok(requests.next().unwrap()))),
            ClientAction::Spawn => {
                worker = Some(Worker::new().0);
                ClientEvent::Spawned(Session { worker_pid: 7 })
            }
            ClientAction::Send { request, .. } => {
                let mut hearing = worker.take().unwrap();
                let (heard, response) = worker_hears(hearing, request);
                hearing = heard;
                if matches!(response, Some(WorkerResponse::AuthPrompt { .. }) | Some(WorkerResponse::Ready)) {
                    hearing = hearing.step(WorkerEvent::Done).0;
                }
                worker = Some(hearing);
                said = response;
                ClientEvent::Done
            }
            ClientAction::Receive { .. } => match said.take() {
                Some(response) => ClientEvent::Received(response),
                None => ClientEvent::Failed("worker is gone".into()),
            },
            ClientAction::Write { response } => {
                responses.push(response.to_json());
                ClientEvent::Done
            }
            ClientAction::Close(Err(error)) => {
                responses.push(format!("closed: {}", error.to_string()));
                return responses;
            }
            _ => return responses,
        };
        (client, action) = client.step(event, &runtime, pending, 0);
    }
}

fn create() -> Request {
    Request::CreateSession { username: "bob".into() }
}

fn answer(password: &str) -> Request {
    Request::PostAuthMessageResponse { response: Some(password.into()) }
}

fn start() -> Request {
    Request::StartSession { cmd: vec!["sway".into()], env: vec![] }
}

const PROMPT: &str =
    r#"{"type":"auth_message","auth_message_type":"secret","auth_message":"Password: "}"#;
const SUCCESS: &str = r#"{"type":"success"}"#;

fn concat_all(parts: &[&str]) -> String {
    parts.concat()
}

#[test]
fn second_try_succeeds() {
    let mut pending = PendingState::default();
    let requests = vec![create(), answer("guess"), create(), answer("secret"), start()];
    let responses = greet(requests, &mut pending);
    assert!(responses[1].contains("auth_error"));
    assert_eq!(responses[2..], [PROMPT, SUCCESS, SUCCESS]);
    assert_eq!(pending.session, Some(Session { worker_pid: 7 }));
}

#[test]
fn right_password_starts_the_session() {
    let mut pending = PendingState::default();
    let responses = greet(vec![create(), answer("secret"), start()], &mut pending);
    assert_eq!(responses, vec![PROMPT, SUCCESS, SUCCESS]);
    assert_eq!(pending.session, Some(Session { worker_pid: 7 }));

    let (daemon, _) = Daemon::event_loop(Session { worker_pid: 3 });
    let daemon = Daemon { pending, ..daemon };
    let (daemon, _) = daemon.step(DaemonEvent::Terminate(false), 0);
    let (daemon, _) = daemon.step(DaemonEvent::Reaped(WaitStatus::Exited { pid: 3, code: 0 }), 0);
    assert_eq!(daemon.greeter, Session { worker_pid: 7 });
}

#[test]
fn wrong_password_starts_nothing() {
    let mut pending = PendingState::default();
    let responses = greet(vec![create(), answer("guess"), start()], &mut pending);
    assert_eq!(
        responses,
        vec![
            PROMPT,
            concat_all(&[
                r#"{"type":"error","error_type":"auth_error","#,
                r#""description":"auth error: authentication failed: wrong"}"#,
            ])
            .as_str(),
            r#"{"type":"error","error_type":"error","description":"no session active"}"#,
        ]
    );
    assert_eq!(pending, PendingState::default());
}

#[test]
fn unanswered_prompt_starts_nothing() {
    let mut pending = PendingState::default();
    let responses = greet(vec![create(), start()], &mut pending);
    assert_eq!(
        responses,
        vec![
            PROMPT,
            r#"{"type":"error","error_type":"error","description":"expected AuthResponse"}"#,
        ]
    );
    assert_eq!(pending, PendingState::default());
}
