//! Sessions as the daemon sees them: a worker process, the messages that go to
//! it and what its answers mean.

use vstd::prelude::*;
use vstd::string::*;

use crate::error;
use crate::error::{Error, ErrorView, IoError, IoErrorKind};
use crate::json;
use crate::terminal::{TerminalMode, TerminalModeView};
use crate::text;

verus! {

/// How many bytes of a worker's message are received at most.
pub const MESSAGE_LIMIT: usize = 8192;

/// For whom a session is.
#[derive(Debug, Clone, Copy, PartialEq, Eq, Structural)]
pub enum SessionClass {
    Greeter,
    User,
}

/// What the daemon tells a worker.
#[derive(Debug)]
pub enum WorkerRequest {
    Initiate {
        service: String,
        class: SessionClass,
        user: String,
        authenticate: bool,
        tty: TerminalMode,
        source_profile: bool,
        greetd_sock: String,
    },
    AuthResponse(Option<String>),
    Start { cmd: Vec<String>, env: Vec<String> },
    Cancel,
}

/// What a worker tells the daemon.
#[derive(Debug)]
pub enum WorkerResponse {
    AuthPrompt { prompt: String, echo: bool },
    Ready,
    Started { pid: u32 },
    Error(String),
}

/// A worker process, known by its process id.
#[derive(Debug, Clone, Copy, PartialEq, Eq, Structural)]
pub struct Session {
    pub worker_pid: i32,
}

/// On which side of a fork the program goes on.
#[derive(Debug, Clone, Copy, PartialEq, Eq, Structural)]
pub enum ForkResult {
    Parent { child: i32 },
    Child,
}

/// What a fork for a new session made of this process.
#[derive(Debug, Clone, Copy, PartialEq, Eq, Structural)]
pub enum Spawned {
    /// The daemon goes on, with a new session.
    Daemon(Session),
    /// This is the new session's worker.
    Worker,
}

/// What the system says about a child process.
#[derive(Debug, Clone, Copy, PartialEq, Eq, Structural)]
pub enum WaitStatus {
    Exited { pid: i32, code: i32 },
    Signaled { pid: i32 },
    /// No child has ended, or there is nothing to wait for.
    Other,
}

/// The contents of a [`WorkerRequest`].
pub enum WorkerRequestView {
    Initiate {
        service: Seq<char>,
        class: SessionClass,
        user: Seq<char>,
        authenticate: bool,
        tty: TerminalModeView,
        source_profile: bool,
        greetd_sock: Seq<char>,
    },
    AuthResponse(Option<Seq<char>>),
    Start { cmd: Seq<Seq<char>>, env: Seq<Seq<char>> },
    Cancel,
}

/// The contents of a [`WorkerResponse`].
pub enum WorkerResponseView {
    AuthPrompt { prompt: Seq<char>, echo: bool },
    Ready,
    Started { pid: u32 },
    Error(Seq<char>),
}

impl View for WorkerRequest {
    type V = WorkerRequestView;

    open spec fn view(&self) -> WorkerRequestView {
        match self {
            WorkerRequest::Initiate {
                service,
                class,
                user,
                authenticate,
                tty,
                source_profile,
                greetd_sock,
            } => WorkerRequestView::Initiate {
                service: service@,
                class: *class,
                user: user@,
                authenticate: *authenticate,
                tty: tty@,
                source_profile: *source_profile,
                greetd_sock: greetd_sock@,
            },
            WorkerRequest::AuthResponse(response) => WorkerRequestView::AuthResponse(
                response.deep_view(),
            ),
            WorkerRequest::Start { cmd, env } => WorkerRequestView::Start {
                cmd: cmd.deep_view(),
                env: env.deep_view(),
            },
            WorkerRequest::Cancel => WorkerRequestView::Cancel,
        }
    }
}

impl View for WorkerResponse {
    type V = WorkerResponseView;

    open spec fn view(&self) -> WorkerResponseView {
        match self {
            WorkerResponse::AuthPrompt { prompt, echo } => WorkerResponseView::AuthPrompt {
                prompt: prompt@,
                echo: *echo,
            },
            WorkerResponse::Ready => WorkerResponseView::Ready,
            WorkerResponse::Started { pid } => WorkerResponseView::Started { pid: *pid },
            WorkerResponse::Error(text) => WorkerResponseView::Error(text@),
        }
    }
}

impl SessionClass {
    /// The name in a message.
    pub open spec fn wire_name(self) -> Seq<char> {
        match self {
            SessionClass::Greeter => "Greeter"@,
            SessionClass::User => "User"@,
        }
    }

    fn name(&self) -> (r: &'static str)
        ensures
            r@ == self.wire_name(),
    {
        match self {
            SessionClass::Greeter => "Greeter",
            SessionClass::User => "User",
        }
    }
}

impl WorkerRequestView {
    /// The message as JSON text.
    pub open spec fn json(self) -> Seq<char> {
        match self {
            WorkerRequestView::Initiate {
                service,
                class,
                user,
                authenticate,
                tty,
                source_profile,
                greetd_sock,
            } => json::object(
                seq![
                    json::member(
                        "Initiate"@,
                        json::object(
                            seq![
                                json::member("service"@, json::string_text(service)),
                                json::member("class"@, json::quoted(class.wire_name())),
                                json::member("user"@, json::string_text(user)),
                                json::member("authenticate"@, json::boolean(authenticate)),
                                json::member("tty"@, tty.json()),
                                json::member("source_profile"@, json::boolean(source_profile)),
                                json::member("greetd_sock"@, json::string_text(greetd_sock)),
                            ],
                        ),
                    ),
                ],
            ),
            WorkerRequestView::AuthResponse(response) => json::object(
                seq![json::member("AuthResponse"@, json::optional_string(response))],
            ),
            WorkerRequestView::Start { cmd, env } => json::object(
                seq![
                    json::member(
                        "Start"@,
                        json::object(
                            seq![
                                json::member("cmd"@, json::string_list(cmd)),
                                json::member("env"@, json::string_list(env)),
                            ],
                        ),
                    ),
                ],
            ),
            WorkerRequestView::Cancel => json::quoted("Cancel"@),
        }
    }
}

impl WorkerResponseView {
    /// The message as JSON text.
    pub open spec fn json(self) -> Seq<char> {
        match self {
            WorkerResponseView::AuthPrompt { prompt, echo } => json::object(
                seq![
                    json::member(
                        "AuthPrompt"@,
                        json::object(
                            seq![
                                json::member("prompt"@, json::string_text(prompt)),
                                json::member("echo"@, json::boolean(echo)),
                            ],
                        ),
                    ),
                ],
            ),
            WorkerResponseView::Ready => json::quoted("Ready"@),
            WorkerResponseView::Started { pid } => json::object(
                seq![
                    json::member(
                        "Started"@,
                        json::object(seq![json::member("pid"@, text::decimal(pid as nat))]),
                    ),
                ],
            ),
            WorkerResponseView::Error(text) => json::object(
                seq![json::member("Error"@, json::string_text(text))],
            ),
        }
    }

    /// What the answer means to a daemon that waits for a prompt: a prompt and
    /// whether to show what is typed, or nothing more to ask, or a failure.
    pub open spec fn prompt(self) -> Result<Option<(Seq<char>, bool)>, ErrorView> {
        match self {
            WorkerResponseView::AuthPrompt { prompt, echo } => Ok(Some((prompt, echo))),
            WorkerResponseView::Ready => Ok(None),
            WorkerResponseView::Error(text) => Err(ErrorView::Auth(text)),
            WorkerResponseView::Started { .. } => Err(ErrorView::Other("unexpected Started"@)),
        }
    }

    /// What the answer means to a daemon that waits for the session to start:
    /// the process id of the session, or a failure.
    pub open spec fn started(self) -> Result<u32, ErrorView> {
        match self {
            WorkerResponseView::Started { pid } => Ok(pid),
            WorkerResponseView::Error(text) => Err(ErrorView::Other(text)),
            _ => Err(ErrorView::Other("unexpected response"@)),
        }
    }
}

/// Renders an object with a single member.
fn single(key: &str, value: &str) -> (r: String)
    ensures
        r@ == json::object(seq![json::member(key@, value@)]),
{
    let members = vec![json::member_text(key, value)];
    assert(members.deep_view() =~= seq![json::member(key@, value@)]);
    json::object_text(&members)
}

impl WorkerRequest {
    /// Renders the message as JSON text.
    pub fn to_json(&self) -> (r: String)
        ensures
            r@ == self@.json(),
    {
        match self {
            WorkerRequest::Initiate {
                service,
                class,
                user,
                authenticate,
                tty,
                source_profile,
                greetd_sock,
            } => {
                let fields = vec![
                    json::member_text("service", json::string(service.as_str()).as_str()),
                    json::member_text("class", json::quoted_text(class.name()).as_str()),
                    json::member_text("user", json::string(user.as_str()).as_str()),
                    json::member_text("authenticate", json::boolean_text(*authenticate).as_str()),
                    json::member_text("tty", tty.to_json().as_str()),
                    json::member_text(
                        "source_profile",
                        json::boolean_text(*source_profile).as_str(),
                    ),
                    json::member_text("greetd_sock", json::string(greetd_sock.as_str()).as_str()),
                ];
                assert(fields.deep_view() =~= seq![
                    json::member("service"@, json::string_text(service@)),
                    json::member("class"@, json::quoted(class.wire_name())),
                    json::member("user"@, json::string_text(user@)),
                    json::member("authenticate"@, json::boolean(*authenticate)),
                    json::member("tty"@, tty@.json()),
                    json::member("source_profile"@, json::boolean(*source_profile)),
                    json::member("greetd_sock"@, json::string_text(greetd_sock@)),
                ]);
                single("Initiate", json::object_text(&fields).as_str())
            },
            WorkerRequest::AuthResponse(response) => {
                single("AuthResponse", json::optional_string_text(response).as_str())
            },
            WorkerRequest::Start { cmd, env } => {
                let fields = vec![
                    json::member_text("cmd", json::string_list_text(cmd).as_str()),
                    json::member_text("env", json::string_list_text(env).as_str()),
                ];
                assert(fields.deep_view() =~= seq![
                    json::member("cmd"@, json::string_list(cmd.deep_view())),
                    json::member("env"@, json::string_list(env.deep_view())),
                ]);
                single("Start", json::object_text(&fields).as_str())
            },
            WorkerRequest::Cancel => json::quoted_text("Cancel"),
        }
    }
}

impl WorkerResponse {
    /// Renders the message as JSON text.
    pub fn to_json(&self) -> (r: String)
        ensures
            r@ == self@.json(),
    {
        match self {
            WorkerResponse::AuthPrompt { prompt, echo } => {
                let fields = vec![
                    json::member_text("prompt", json::string(prompt.as_str()).as_str()),
                    json::member_text("echo", json::boolean_text(*echo).as_str()),
                ];
                assert(fields.deep_view() =~= seq![
                    json::member("prompt"@, json::string_text(prompt@)),
                    json::member("echo"@, json::boolean(*echo)),
                ]);
                single("AuthPrompt", json::object_text(&fields).as_str())
            },
            WorkerResponse::Ready => json::quoted_text("Ready"),
            WorkerResponse::Started { pid } => {
                single(
                    "Started",
                    single("pid", text::decimal_text(*pid as u64).as_str()).as_str(),
                )
            },
            WorkerResponse::Error(text) => single("Error", json::string(text.as_str()).as_str()),
        }
    }
}

/// The contents of a prompt outcome.
pub open spec fn prompt_outcome(r: Result<Option<(String, bool)>, Error>) -> Result<
    Option<(Seq<char>, bool)>,
    ErrorView,
> {
    match r {
        Ok(Some((prompt, echo))) => Ok(Some((prompt@, echo))),
        Ok(None) => Ok(None),
        Err(error) => Err(error@),
    }
}

/// What a fork for a new session makes of this process.
pub open spec fn spawned(forked: Result<ForkResult, Error>) -> Result<Spawned, Error> {
    match forked {
        Ok(ForkResult::Parent { child }) => Ok(Spawned::Daemon(Session { worker_pid: child })),
        Ok(ForkResult::Child) => Ok(Spawned::Worker),
        Err(error) => Err(error),
    }
}

impl Session {
    /// Decides on the outcome of the fork for a new session.
    pub fn spawn(forked: Result<ForkResult, Error>) -> (r: Result<Spawned, Error>)
        ensures
            match (forked, r) {
                (Ok(ForkResult::Parent { child }), Ok(Spawned::Daemon(session))) => {
                    session.worker_pid == child
                },
                (Ok(ForkResult::Child), Ok(Spawned::Worker)) => true,
                (Err(error), Err(passed)) => passed == error,
                _ => false,
            },
            r == spawned(forked),
    {
        match forked {
            Ok(ForkResult::Parent { child }) => Ok(Spawned::Daemon(Session { worker_pid: child })),
            Ok(ForkResult::Child) => Ok(Spawned::Worker),
            Err(error) => Err(error),
        }
    }

    /// The message that tells a fresh worker what session it is for.
    pub fn initiate(
        service: &str,
        class: SessionClass,
        user: &str,
        authenticate: bool,
        tty: &TerminalMode,
        source_profile: bool,
        greetd_sock: &str,
    ) -> (r: WorkerRequest)
        ensures
            r@ == (WorkerRequestView::Initiate {
                service: service@,
                class,
                user: user@,
                authenticate,
                tty: tty@,
                source_profile,
                greetd_sock: greetd_sock@,
            }),
    {
        WorkerRequest::Initiate {
            service: service.to_string(),
            class,
            user: user.to_string(),
            authenticate,
            tty: tty.copy(),
            source_profile,
            greetd_sock: greetd_sock.to_string(),
        }
    }

    /// What a worker's answer means to a daemon that waits for a prompt.
    pub fn get_auth_prompt(reply: WorkerResponse) -> (r: Result<Option<(String, bool)>, Error>)
        ensures
            prompt_outcome(r) == reply@.prompt(),
    {
        match reply {
            WorkerResponse::AuthPrompt { prompt, echo } => Ok(Some((prompt, echo))),
            WorkerResponse::Ready => Ok(None),
            WorkerResponse::Error(text) => Err(Error::Auth(text)),
            WorkerResponse::Started { .. } => Err(Error::from("unexpected Started")),
        }
    }

    /// The message that answers a prompt.
    pub fn respond(response: Option<String>) -> (r: WorkerRequest)
        ensures
            r@ == WorkerRequestView::AuthResponse(response.deep_view()),
    {
        WorkerRequest::AuthResponse(response)
    }

    /// The message that starts the session's command.
    pub fn start(cmd: Vec<String>, env: Vec<String>) -> (r: WorkerRequest)
        ensures
            r@ == (WorkerRequestView::Start { cmd: cmd.deep_view(), env: env.deep_view() }),
    {
        WorkerRequest::Start { cmd, env }
    }

    /// What a worker's answer means to a daemon that waits for the session to
    /// start.
    pub fn started(reply: WorkerResponse) -> (r: Result<u32, Error>)
        ensures
            error::outcome(r) == reply@.started(),
    {
        match reply {
            WorkerResponse::Started { pid } => Ok(pid),
            WorkerResponse::Error(text) => Err(Error::from(text)),
            _ => Err(Error::from("unexpected response")),
        }
    }

    /// The message that ends a session that has not started.
    pub fn cancel() -> (r: WorkerRequest)
        ensures
            r@ == WorkerRequestView::Cancel,
    {
        WorkerRequest::Cancel
    }

    /// The process id of the worker.
    pub fn pid(&self) -> (r: i32)
        ensures
            r == self.worker_pid,
    {
        self.worker_pid
    }
}

/// The status that a result stands for.
pub open spec fn status<T, E>(result: Result<T, E>) -> i32 {
    if result is Ok {
        0
    } else {
        1
    }
}

/// The status with which a worker leaves.
pub fn exit_code(result: &Result<(), Error>) -> (r: i32)
    ensures
        r == status(*result),
        r == (if result is Ok {
            0i32
        } else {
            1i32
        }),
{
    match result {
        Ok(_) => 0,
        Err(_) => 1,
    }
}

/// What the process `here`, which leaves, tells the daemon last: nothing where
/// all went well, else what went wrong. The daemon takes the words of a failed
/// authentication as such. Only the worker speaks; the process that it forked
/// off for its session does not.
pub open spec fn parting(worker: i32, here: i32, result: Result<(), ErrorView>) -> Option<
    WorkerResponseView,
> {
    match result {
        Err(ErrorView::Auth(text)) if here == worker => Some(WorkerResponseView::Error(text)),
        Err(error) if here == worker => Some(WorkerResponseView::Error(error.message())),
        _ => None,
    }
}

/// What the process `here`, which leaves, tells the daemon last, so that the
/// daemon does not wait for the worker in vain.
pub fn last_words(worker: i32, here: i32, result: &Result<(), Error>) -> (r: Option<WorkerResponse>)
    ensures
        match r {
            Some(response) => parting(worker, here, error::outcome(*result)) == Some(response@),
            None => parting(worker, here, error::outcome(*result)) is None,
        },
{
    if here != worker {
        return None;
    }
    match result {
        Ok(_) => None,
        Err(Error::Auth(text)) => Some(WorkerResponse::Error(text.clone())),
        Err(error) => Some(WorkerResponse::Error(error.to_string())),
    }
}

/// What a failed call leads to: where a signal cut it short it is made again,
/// else it fails.
pub open spec fn failed_call<T>(error: IoError) -> Option<Result<T, Error>> {
    if error.kind == IoErrorKind::Interrupted {
        None
    } else {
        Some(Err(Error::Io(error)))
    }
}

/// What an attempt to send comes to: how much was sent does not matter.
pub open spec fn sending(sent: Result<usize, IoError>) -> Option<Result<(), Error>> {
    match sent {
        Ok(_) => Some(Ok(())),
        Err(error) => failed_call(error),
    }
}

/// What an attempt to receive comes to.
pub open spec fn receiving(received: Result<usize, IoError>) -> Option<Result<usize, Error>> {
    match received {
        Ok(len) => Some(Ok(len)),
        Err(error) => failed_call(error),
    }
}

/// Decides on the outcome of sending a message: `None` where a signal cut the
/// call short and it is to be made again.
pub fn send_msg(sent: Result<usize, IoError>) -> (r: Option<Result<(), Error>>)
    ensures
        r == (match sent {
            Ok(_) => Some(Ok(())),
            Err(error) => failed_call(error),
        }),
        r == sending(sent),
{
    match sent {
        Ok(_) => Some(Ok(())),
        Err(error) => {
            if error.kind == IoErrorKind::Interrupted {
                None
            } else {
                Some(Err(Error::from(error)))
            }
        },
    }
}

/// Decides on the outcome of receiving a message: how many bytes of the buffer
/// it fills, or `None` where a signal cut the call short and it is to be made
/// again.
pub fn recv_msg(received: Result<usize, IoError>) -> (r: Option<Result<usize, Error>>)
    ensures
        r == (match received {
            Ok(len) => Some(Ok(len)),
            Err(error) => failed_call(error),
        }),
        r == receiving(received),
{
    match received {
        Ok(len) => Some(Ok(len)),
        Err(error) => {
            if error.kind == IoErrorKind::Interrupted {
                None
            } else {
                Some(Err(Error::from(error)))
            }
        },
    }
}

/// What a call comes to that is made again until it is settled: the first
/// attempt that is.
pub open spec fn settled<T>(attempts: Seq<Option<T>>) -> Option<T>
    decreases attempts.len(),
{
    if attempts.len() == 0 {
        None
    } else if attempts[0] is Some {
        attempts[0]
    } else {
        settled(attempts.skip(1))
    }
}

/// However many times a signal cuts a call short, it comes to what the first
/// attempt comes to that was not cut short.
pub proof fn interruptions_do_not_matter<T>(attempts: Seq<Option<T>>, i: int)
    requires
        0 <= i < attempts.len(),
        attempts[i] is Some,
        forall|j: int| 0 <= j < i ==> attempts[j] is None,
    ensures
        settled(attempts) == attempts[i],
    decreases i,
{
    if i > 0 {
        let later = attempts.skip(1);
        assert forall|j: int| 0 <= j < i - 1 implies later[j] is None by {
            assert(later[j] == attempts[j + 1]);
        }
        interruptions_do_not_matter(later, i - 1);
    }
}

/// What arrives of a message: as much of its start as the receiver has room
/// for.
pub open spec fn delivered(message: Seq<u8>) -> Seq<u8> {
    if message.len() <= MESSAGE_LIMIT {
        message
    } else {
        message.take(MESSAGE_LIMIT as int)
    }
}

/// What a message that was received comes to.
pub open spec fn understood<T>(parsed: Result<T, String>) -> Result<T, Error> {
    match parsed {
        Ok(message) => Ok(message),
        Err(why) => Err(Error::Other(why)),
    }
}

/// Decides on a message that was received: what the parser made of it, or its
/// objection as a failure.
pub fn parse_msg<T>(parsed: Result<T, String>) -> (r: Result<T, Error>)
    ensures
        match (parsed, r) {
            (Ok(message), Ok(same)) => same == message,
            (Err(why), Err(error)) => error == Error::Other(why),
            _ => false,
        },
        r == understood(parsed),
{
    match parsed {
        Ok(message) => Ok(message),
        Err(why) => Err(Error::Other(why)),
    }
}

impl WaitStatus {
    /// The child that has ended, and its status.
    pub open spec fn ended(self) -> Option<(i32, i32)> {
        match self {
            WaitStatus::Exited { pid, code } => Some((pid, code)),
            WaitStatus::Signaled { pid } => Some((pid, 1)),
            WaitStatus::Other => None,
        }
    }
}

/// Which child has ended and with what status, a child that a signal killed
/// counting as status 1.
pub fn reap_children(status: WaitStatus) -> (r: Option<(i32, i32)>)
    ensures
        r == status.ended(),
{
    match status {
        WaitStatus::Exited { pid, code } => Some((pid, code)),
        WaitStatus::Signaled { pid } => Some((pid, 1)),
        WaitStatus::Other => None,
    }
}

/// The two sides of a fork: the daemon has a session whose process is the child,
/// the child is the session's worker, and without a fork there is neither.
pub proof fn fork_has_two_sides(child: i32, error: Error)
    ensures
        spawned(Ok(ForkResult::Parent { child })) matches Ok(Spawned::Daemon(session))
            && session.worker_pid == child,
        spawned(Ok(ForkResult::Child)) matches Ok(Spawned::Worker),
        spawned(Err(error)) == Err::<Spawned, Error>(error),
{
}

/// A worker leaves with zero exactly where all went well, and else with one.
pub proof fn status_tells_success<T, E>(value: T, error: E)
    ensures
        status(Ok::<T, E>(value)) == 0,
        status(Err::<T, E>(error)) == 1,
{
}

/// A call is made again exactly where a signal cut it short; any other failure
/// is passed on, and a success is one, with the length that was received.
pub proof fn only_interruptions_are_repeated(len: usize, error: IoError)
    ensures
        sending(Ok(len)) == Some(Ok::<(), Error>(())),
        receiving(Ok(len)) == Some(Ok::<usize, Error>(len)),
        error.kind is Interrupted ==> sending(Err(error)) is None && receiving(Err(error)) is None,
        !(error.kind is Interrupted) ==> {
            &&& sending(Err(error)) == Some(Err::<(), Error>(Error::Io(error)))
            &&& receiving(Err(error)) == Some(Err::<usize, Error>(Error::Io(error)))
        },
{
}

/// A message that could be parsed is the message, and an objection of the parser
/// is a failure in the parser's words.
pub proof fn parsed_messages_are_kept<T>(message: T, why: String)
    ensures
        understood(Ok::<T, String>(message)) == Ok::<T, Error>(message),
        understood(Err::<T, String>(why)) == Err::<T, Error>(Error::Other(why)),
{
}

/// What the daemon makes of each answer of a worker, when it waits for a prompt
/// and when it waits for the start.
pub proof fn answers_are_told_apart(prompt: Seq<char>, echo: bool, pid: u32, why: Seq<char>)
    ensures
        (WorkerResponseView::AuthPrompt { prompt, echo }).prompt() == Ok::<
            Option<(Seq<char>, bool)>,
            ErrorView,
        >(Some((prompt, echo))),
        WorkerResponseView::Ready.prompt() == Ok::<Option<(Seq<char>, bool)>, ErrorView>(None),
        WorkerResponseView::Error(why).prompt() == Err::<Option<(Seq<char>, bool)>, ErrorView>(
            ErrorView::Auth(why),
        ),
        (WorkerResponseView::Started { pid }).prompt() == Err::<
            Option<(Seq<char>, bool)>,
            ErrorView,
        >(ErrorView::Other("unexpected Started"@)),
        (WorkerResponseView::Started { pid }).started() == Ok::<u32, ErrorView>(pid),
        WorkerResponseView::Error(why).started() == Err::<u32, ErrorView>(ErrorView::Other(why)),
        WorkerResponseView::Ready.started() == Err::<u32, ErrorView>(
            ErrorView::Other("unexpected response"@),
        ),
        (WorkerResponseView::AuthPrompt { prompt, echo }).started() == Err::<u32, ErrorView>(
            ErrorView::Other("unexpected response"@),
        ),
{
}

/// A child counts as ended where it exited, with its own status, or where a
/// signal killed it, with one.
pub proof fn ended_children_have_a_status(pid: i32, code: i32)
    ensures
        (WaitStatus::Exited { pid, code }).ended() == Some((pid, code)),
        (WaitStatus::Signaled { pid }).ended() == Some((pid, 1i32)),
        WaitStatus::Other.ended() is None,
{
}

/// A worker that fails says why, and only then, and only the worker does.
pub proof fn only_a_failed_worker_speaks(worker: i32, here: i32, error: ErrorView)
    ensures
        parting(worker, here, Ok(())) is None,
        parting(worker, here, Err(error)) is Some <==> worker == here,
        error matches ErrorView::Auth(why) ==> parting(worker, worker, Err(error)) == Some(
            WorkerResponseView::Error(why),
        ),
        !(error is Auth) ==> parting(worker, worker, Err(error)) == Some(
            WorkerResponseView::Error(error.message()),
        ),
{
}

/// Messages keep what they hold.
pub proof fn messages_are_kept(
    service: String,
    class: SessionClass,
    user: String,
    authenticate: bool,
    tty: TerminalMode,
    source_profile: bool,
    greetd_sock: String,
    answer: Option<String>,
    cmd: Vec<String>,
    env: Vec<String>,
    pid: u32,
)
    ensures
        (WorkerRequest::Initiate {
            service,
            class,
            user,
            authenticate,
            tty,
            source_profile,
            greetd_sock,
        })@ == (WorkerRequestView::Initiate {
            service: service@,
            class,
            user: user@,
            authenticate,
            tty: tty@,
            source_profile,
            greetd_sock: greetd_sock@,
        }),
        WorkerRequest::AuthResponse(answer)@ == WorkerRequestView::AuthResponse(
            answer.deep_view(),
        ),
        (WorkerRequest::Start { cmd, env })@ == (WorkerRequestView::Start {
            cmd: cmd.deep_view(),
            env: env.deep_view(),
        }),
        WorkerRequest::Cancel@ == WorkerRequestView::Cancel,
        (WorkerResponse::AuthPrompt { prompt: user, echo: authenticate })@ == (
        WorkerResponseView::AuthPrompt { prompt: user@, echo: authenticate }),
        WorkerResponse::Ready@ == WorkerResponseView::Ready,
        (WorkerResponse::Started { pid })@ == (WorkerResponseView::Started { pid }),
        WorkerResponse::Error(user)@ == WorkerResponseView::Error(user@),
{
}

/// Prompts keep what they hold.
pub proof fn prompts_are_kept(prompt: String, echo: bool, error: Error)
    ensures
        prompt_outcome(Ok(Some((prompt, echo)))) == Ok::<Option<(Seq<char>, bool)>, ErrorView>(
            Some((prompt@, echo)),
        ),
        prompt_outcome(Ok(None)) == Ok::<Option<(Seq<char>, bool)>, ErrorView>(None),
        prompt_outcome(Err(error)) == Err::<Option<(Seq<char>, bool)>, ErrorView>(error@),
{
}

} // verus!
