use greetd::direct::{
    start_greeter, start_initial_session_if_needed, Direct, DirectAction, DirectEvent,
};
use greetd::error::Error;
use greetd::runtime::{Runtime, RuntimeInitialSession};
use greetd::session::{Session, WorkerResponse};
use greetd::terminal::TerminalMode;

fn runtime() -> Runtime {
    Runtime {
        pam_service: "greetd".into(),
        greeter_pam_service: "greetd-greeter".into(),
        greeter_command: "agreety".into(),
        greeter_user: "greeter".into(),
        term_mode: TerminalMode::Stdin,
        source_profile: true,
        sock_path: "/run/greetd-1.sock".into(),
        runfile: "/run/greetd.run".into(),
        initial_session: Some(RuntimeInitialSession { user: "john".into(), command: "sway".into() }),
    }
}

fn shown(action: DirectAction) -> String {
    match action {
        DirectAction::Spawn => "spawn".to_string(),
        DirectAction::Send { session, request } => {
            format!("to {}: {}", session.worker_pid, request.to_json())
        }
        DirectAction::Receive { session } => format!("from {}", session.worker_pid),
        DirectAction::Finish(Ok(session)) => format!("started {}", session.worker_pid),
        DirectAction::Finish(Err(error)) => format!("failed: {}", error.to_string()),
        DirectAction::Nothing => "nothing".to_string(),
    }
}

fn course(begun: (Direct, DirectAction), events: Vec<DirectEvent>) -> Vec<String> {
    let (mut direct, first) = begun;
    let mut actions = vec![shown(first)];
    for event in events {
        let (next, action) = direct.step(event, &runtime());
        direct = next;
        actions.push(shown(action));
    }
    actions
}

fn spawned() -> DirectEvent {
    DirectEvent::Spawned(Session { worker_pid: 7 })
}

#[test]
fn greeter_starts_without_a_login() {
    let prompt = WorkerResponse::AuthPrompt { prompt: "Password: ".into(), echo: false };
    let actions = course(
        start_greeter(&runtime()),
        vec![
            spawned(),
            DirectEvent::Done,
            DirectEvent::Received(prompt),
            DirectEvent::Done,
            DirectEvent::Received(WorkerResponse::Ready),
            DirectEvent::Done,
            DirectEvent::Received(WorkerResponse::Started { pid: 70 }),
            DirectEvent::Done,
        ],
    );
    assert_eq!(
        actions,
        vec![
            "spawn",
            concat_all(&[
                r#"to 7: {"Initiate":{"service":"greetd-greeter","class":"Greeter","#,
                r#""user":"greeter","authenticate":false,"tty":"Stdin","source_profile":true,"#,
                r#""greetd_sock":"/run/greetd-1.sock"}}"#,
            ])
            .as_str(),
            "from 7",
            r#"to 7: {"AuthResponse":null}"#,
            "from 7",
            r#"to 7: {"Start":{"cmd":["agreety"],"env":[]}}"#,
            "from 7",
            "started 7",
            "nothing",
        ]
    );
}

fn concat_all(parts: &[&str]) -> String {
    parts.concat()
}

#[test]
fn first_session_starts_on_the_first_run() {
    assert!(start_initial_session_if_needed(&runtime(), true).is_none());
    let begun = start_initial_session_if_needed(&runtime(), false).unwrap();
    let actions = course(
        begun,
        vec![
            spawned(),
            DirectEvent::Done,
            DirectEvent::Received(WorkerResponse::Ready),
            DirectEvent::Done,
        ],
    );
    assert!(actions[1].contains(r#""service":"greetd","class":"User","user":"john""#));
    assert_eq!(actions[3], r#"to 7: {"Start":{"cmd":["sway"],"env":[]}}"#);
}

#[test]
fn failures_end_a_direct_start() {
    let failed = || DirectEvent::Failed(Error::Other("no".into()));
    assert_eq!(course(start_greeter(&runtime()), vec![failed()])[1], "failed: no");
    assert_eq!(course(start_greeter(&runtime()), vec![spawned(), failed()])[2], "failed: no");
    let refused = DirectEvent::Received(WorkerResponse::Error("no".into()));
    let begun = vec![spawned(), DirectEvent::Done, refused];
    assert_eq!(course(start_greeter(&runtime()), begun)[3], "failed: auth error: no");
    let late = DirectEvent::Received(WorkerResponse::Error("no".into()));
    let started = vec![
        spawned(),
        DirectEvent::Done,
        DirectEvent::Received(WorkerResponse::Ready),
        DirectEvent::Done,
        late,
    ];
    assert_eq!(course(start_greeter(&runtime()), started)[5], "failed: no");
}
