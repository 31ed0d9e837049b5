use greetd::error::Error;
use greetd::session::{ForkResult, Session, SessionClass, WorkerRequest};
use greetd::terminal::TerminalMode;
use greetd::worker::{UserInfo, Worker, WorkerAction, WorkerEvent};

fn initiate(class: SessionClass, authenticate: bool, tty: TerminalMode, profile: bool) -> WorkerEvent {
    WorkerEvent::Received(Session::initiate(
        "greetd",
        class,
        "bob",
        authenticate,
        &tty,
        profile,
        "/run/g.sock",
    ))
}

fn user() -> WorkerEvent {
    WorkerEvent::Found(Some(UserInfo {
        name: "bob".into(),
        dir: "/home/bob".into(),
        home: b"/home/bob".to_vec(),
        shell: "/bin/zsh".into(),
        uid: 1000,
        gid: 100,
    }))
}

fn start(cmd: &[&str], env: &[&str]) -> WorkerEvent {
    WorkerEvent::Received(Session::start(
        cmd.iter().map(|s| s.to_string()).collect(),
        env.iter().map(|s| s.to_string()).collect(),
    ))
}

fn shown(action: WorkerAction) -> String {
    match action {
        WorkerAction::Receive => "receive".to_string(),
        WorkerAction::Send(response) => format!("send {}", response.to_json()),
        WorkerAction::StartPam { service } => format!("pam {service}"),
        WorkerAction::Authenticate { user, password } => format!("check {user}/{password}"),
        WorkerAction::UnlockKeyring { user, password } => format!("unlock {user}/{password}"),
        WorkerAction::OpenSession => "open".to_string(),
        WorkerAction::LookUpUser { user } => format!("look up {user}"),
        WorkerAction::BecomeLeader => "lead".to_string(),
        WorkerAction::OpenTerminal { path } => format!("tty {path}"),
        WorkerAction::SetTextMode => "text mode".to_string(),
        WorkerAction::ActivateVt { vt } => format!("activate {vt}"),
        WorkerAction::Fork => "fork".to_string(),
        WorkerAction::Wait { child } => format!("wait {child}"),
        WorkerAction::CloseSession => "close".to_string(),
        WorkerAction::InitGroups { name, gid } => format!("groups {name} {gid}"),
        WorkerAction::SetGid { gid } => format!("gid {gid}"),
        WorkerAction::SetUid { uid } => format!("uid {uid}"),
        WorkerAction::ChangeDirectory { dir } => format!("cd {}", String::from_utf8(dir).unwrap()),
        WorkerAction::Exec { path, args, env } => {
            format!("exec {path} {} env {}", args.join("|"), env.join("|"))
        }
        WorkerAction::Leave(Ok(())) => "leave".to_string(),
        WorkerAction::Leave(Err(error)) => format!("leave: {}", error.to_string()),
        WorkerAction::Quit { code } => format!("quit {code}"),
        WorkerAction::Nothing => "nothing".to_string(),
    }
}

fn life(events: Vec<WorkerEvent>) -> Vec<String> {
    let (mut worker, first) = Worker::new();
    assert_eq!(shown(first), "receive");
    let mut actions = Vec::new();
    for event in events {
        let (next, action) = worker.step(event);
        worker = next;
        actions.push(shown(action));
    }
    actions
}

fn done() -> WorkerEvent {
    WorkerEvent::Done
}

fn answer(password: Option<&str>) -> WorkerEvent {
    WorkerEvent::Received(Session::respond(password.map(|p| p.to_string())))
}

fn login() -> Vec<WorkerEvent> {
    vec![
        initiate(SessionClass::User, true, TerminalMode::Stdin, false),
        done(),
        done(),
        answer(Some("pw")),
        done(),
        done(),
        done(),
    ]
}

fn followed(mut events: Vec<WorkerEvent>, more: Vec<WorkerEvent>) -> Vec<WorkerEvent> {
    events.extend(more);
    events
}

#[test]
fn user_logs_in_and_the_parent_watches() {
    let actions = life(followed(
        login(),
        vec![
            start(&["sway", "-d"], &[]),
            done(),
            user(),
            done(),
            WorkerEvent::Forked(ForkResult::Parent { child: 55 }),
            done(),
            WorkerEvent::Interrupted,
            done(),
            done(),
            done(),
        ],
    ));
    assert_eq!(
        actions,
        vec![
            "pam greetd",
            r#"send {"AuthPrompt":{"prompt":"Password: ","echo":false}}"#,
            "receive",
            "check bob/pw",
            "unlock bob/pw",
            r#"send "Ready""#,
            "receive",
            "open",
            "look up bob",
            "lead",
            "fork",
            r#"send {"Started":{"pid":55}}"#,
            "wait 55",
            "wait 55",
            "close",
            "leave",
            "nothing",
        ]
    );
}

#[test]
fn session_process_drops_privileges_and_runs_the_command() {
    let actions = life(followed(
        login(),
        vec![
            start(&["sway", "-d"], &["A=b"]),
            done(),
            user(),
            done(),
            WorkerEvent::Forked(ForkResult::Child),
            done(),
            done(),
            done(),
            done(),
            WorkerEvent::Failed(Error::Other("ENOENT".into())),
        ],
    ));
    assert_eq!(
        actions[11..],
        [
            "groups bob 100",
            "gid 100",
            "uid 1000",
            "cd /home/bob",
            concat_all(&[
                "exec /bin/sh /bin/sh|-c|exec sway -d env ",
                "HOME=/home/bob|USER=bob|LOGNAME=bob|SHELL=/bin/zsh|TERM=linux|XDG_SEAT=seat0|A=b",
            ])
            .as_str(),
            "quit 1",
        ]
    );
}

fn concat_all(parts: &[&str]) -> String {
    parts.concat()
}

#[test]
fn greeter_needs_no_password_and_learns_the_socket() {
    let tty = TerminalMode::Vt { path: "/dev/tty7".into(), vt: 7, switch: true };
    let actions = life(vec![
        initiate(SessionClass::Greeter, false, tty, true),
        done(),
        done(),
        done(),
        start(&["agreety"], &[]),
        done(),
        user(),
        done(),
        done(),
        done(),
        done(),
        WorkerEvent::Forked(ForkResult::Child),
        done(),
        done(),
        done(),
        WorkerEvent::Failed(Error::Other("no home".into())),
    ]);
    assert_eq!(
        actions,
        vec![
            "pam greetd",
            "check bob/",
            r#"send "Ready""#,
            "receive",
            "open",
            "look up bob",
            "lead",
            "tty /dev/tty7",
            "text mode",
            "activate 7",
            "fork",
            "groups bob 100",
            "gid 100",
            "uid 1000",
            "cd /home/bob",
            concat_all(&[
                "exec /bin/sh /bin/sh|-c|[ -f /etc/profile ] && . /etc/profile; ",
                "[ -f $HOME/.profile ] && . $HOME/.profile; exec agreety env ",
                "HOME=/home/bob|USER=bob|LOGNAME=bob|SHELL=/bin/zsh|TERM=linux|XDG_SEAT=seat0|",
                "GREETD_SOCK=/run/g.sock",
            ])
            .as_str(),
        ]
    );
}

#[test]
fn terminal_is_switched_to_only_if_wanted() {
    let tty = TerminalMode::Vt { path: "/dev/tty7".into(), vt: 7, switch: false };
    let actions = life(vec![
        initiate(SessionClass::Greeter, false, tty, false),
        done(),
        done(),
        done(),
        start(&["agreety"], &[]),
        done(),
        user(),
        done(),
        done(),
        done(),
    ]);
    assert_eq!(actions[7..], ["tty /dev/tty7", "text mode", "fork"]);
}

#[test]
fn home_directory_need_not_be_text() {
    let odd = WorkerEvent::Found(Some(UserInfo {
        name: "bob".into(),
        dir: "/home/\u{fffd}".into(),
        home: b"/home/\xff".to_vec(),
        shell: "/bin/sh".into(),
        uid: 1,
        gid: 1,
    }));
    let events = followed(
        login(),
        vec![start(&["sh"], &[]), done(), odd, done(), WorkerEvent::Forked(ForkResult::Child), done(), done()],
    );
    let (mut worker, _) = Worker::new();
    for event in events {
        worker = worker.step(event).0;
    }
    let (worker, action) = worker.step(done());
    assert!(matches!(action, WorkerAction::ChangeDirectory { dir } if dir == b"/home/\xff"));
    assert!(shown(worker.step(done()).1).contains("HOME=/home/\u{fffd}|"));
}

#[test]
fn session_opens_after_the_announcement_and_starts_after_it_was_opened() {
    let early = followed(login(), vec![start(&["sh"], &[])]);
    let actions = life(early);
    let at = |wanted: &str| actions.iter().position(|action| action == wanted);
    assert!(at(r#"send "Ready""#).unwrap() < at("open").unwrap());
    let refused = vec![start(&["sh"], &[]), WorkerEvent::PamFailed("no".into())];
    let actions = life(followed(login(), refused));
    assert!(!actions.iter().any(|action| action.contains("Started") || action == "fork"));
}

#[test]
fn missing_answer_is_an_empty_password() {
    let actions = life(vec![
        initiate(SessionClass::User, true, TerminalMode::Stdin, false),
        done(),
        done(),
        answer(None),
    ]);
    assert_eq!(actions[3], "check bob/");
}

#[test]
fn cancel_is_obeyed_at_each_wait() {
    let cancel = || WorkerEvent::Received(Session::cancel());
    assert_eq!(life(vec![cancel()]), vec!["leave"]);
    let prompted = vec![
        initiate(SessionClass::User, true, TerminalMode::Stdin, false),
        done(),
        done(),
        cancel(),
    ];
    assert_eq!(life(prompted)[3], "leave");
    assert_eq!(life(followed(login(), vec![cancel()]))[7], "leave");
}

#[test]
fn messages_out_of_place_end_the_worker() {
    assert_eq!(life(vec![start(&["sh"], &[])]), vec!["leave: expected Initiate"]);
    let prompted = vec![
        initiate(SessionClass::User, true, TerminalMode::Stdin, false),
        done(),
        done(),
        start(&["sh"], &[]),
    ];
    assert_eq!(life(prompted)[3], "leave: expected AuthResponse");
    assert_eq!(life(followed(login(), vec![answer(None)]))[7], "leave: expected Start");
    assert!(matches!(Session::respond(None), WorkerRequest::AuthResponse(None)));
}

#[test]
fn pam_refusals_end_the_worker() {
    let begun = || initiate(SessionClass::User, true, TerminalMode::Stdin, false);
    let refused = || WorkerEvent::PamFailed("no".into());
    assert_eq!(life(vec![begun(), refused()])[1], "leave: auth error: PAM init failed: no");
    let checked = vec![begun(), done(), done(), answer(Some("x")), refused()];
    assert_eq!(life(checked)[4], "leave: auth error: authentication failed: no");
    let unprompted =
        vec![initiate(SessionClass::Greeter, false, TerminalMode::Stdin, false), done(), refused()];
    assert_eq!(life(unprompted)[2], "leave: auth error: authentication failed: no");
    let opened = followed(login(), vec![start(&["sh"], &[]), refused()]);
    assert_eq!(life(opened)[8], "leave: failed to open session: no");
}

#[test]
fn unknown_user_ends_the_worker() {
    let looked_up =
        followed(login(), vec![start(&["sh"], &[]), done(), WorkerEvent::Found(None)]);
    assert_eq!(life(looked_up)[9], "leave: user not found: bob");
}

#[test]
fn zero_bytes_in_the_environment_end_the_worker() {
    let events =
        followed(login(), vec![start(&["sh"], &["A=\0"]), done(), user(), done()]);
    assert_eq!(
        life(events)[10],
        "leave: nul error: nul byte found in provided data at position: 2"
    );
}

#[test]
fn system_failures_end_the_worker() {
    let failed = || WorkerEvent::Failed(Error::Other("EPERM".into()));
    let led = followed(login(), vec![start(&["sh"], &[]), done(), user(), failed()]);
    assert_eq!(life(led)[10], "leave: EPERM");
    let forked = followed(login(), vec![start(&["sh"], &[]), done(), user(), done(), failed()]);
    assert_eq!(life(forked)[11], "leave: EPERM");
    let child = vec![
        start(&["sh"], &[]),
        done(),
        user(),
        done(),
        WorkerEvent::Forked(ForkResult::Child),
        done(),
        failed(),
    ];
    assert_eq!(life(followed(login(), child))[13], "leave: EPERM");
}

#[test]
fn failed_wait_still_closes_the_session() {
    let watched = vec![
        start(&["sh"], &[]),
        done(),
        user(),
        done(),
        WorkerEvent::Forked(ForkResult::Parent { child: 5 }),
        done(),
        WorkerEvent::Failed(Error::Other("ECHILD".into())),
        done(),
    ];
    assert_eq!(life(followed(login(), watched))[13..], ["close", "leave"]);
}
