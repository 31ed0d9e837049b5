//! One greeter's connection: requests come in, the session that the greeter is
//! logging into is moved along, and each request is answered.
//!
//! A [`Client`] is the state of the connection. Each action that it asks for is
//! performed by the daemon, which then reports how the action went.

use vstd::prelude::*;

use crate::error;
use crate::error::{Error, ErrorView, IoError, IoErrorView};
use crate::ipc;
use crate::ipc::{AuthMessageType, ErrorType, Request, RequestView, Response, ResponseView};
use crate::pending::PendingState;
use crate::runtime::{Runtime, RuntimeView};
use crate::session::{Session, SessionClass, WorkerRequest, WorkerRequestView, WorkerResponse, WorkerResponseView};

verus! {

/// The state of a connection. The session, where one is named, is the one that
/// the greeter is logging into.
#[derive(Debug)]
pub enum Client {
    /// The header of the next request is awaited.
    Idle { session: Option<Session> },
    /// The payload of a request is awaited.
    Reading { session: Option<Session> },
    /// The session before is being told to end, to make room for a new one.
    Replacing { username: String },
    /// A worker for a new session is being forked off.
    Spawning { username: String },
    /// The worker is being told what session it is for.
    Initiating { session: Session },
    /// The worker's prompt is awaited.
    AwaitingPrompt { session: Session },
    /// The worker's prompt is being answered.
    Responding { session: Session },
    /// The worker is being told to start the session's command.
    Starting { session: Session },
    /// The worker's word that the session has started is awaited.
    AwaitingStart { session: Session },
    /// The session is being told to end, as the greeter asked.
    Cancelling,
    /// A response is being written.
    Replying { session: Option<Session> },
    /// The session is being told to end, as the greeter has hung up.
    HangingUp,
    /// The connection is over.
    Closed,
}

/// What a connection asks the daemon to do.
#[derive(Debug)]
pub enum ClientAction {
    /// Read the header of a request.
    ReadHeader,
    /// Read the payload of a request.
    ReadPayload { len: u32 },
    /// Fork off a worker.
    Spawn,
    /// Send a message to a worker.
    Send { session: Session, request: WorkerRequest },
    /// Receive a message from a worker.
    Receive { session: Session },
    /// Write a response to the greeter.
    Write { response: Response },
    /// Close the connection with a result.
    Close(Result<(), Error>),
    /// Nothing.
    Nothing,
}

/// How an action went.
#[derive(Debug)]
pub enum ClientEvent {
    /// A header was read, or could not be.
    Header(Result<[u8; 4], IoError>),
    /// A payload was read and parsed, or could not be.
    Payload(Result<Result<Request, String>, IoError>),
    /// It is done.
    Done,
    /// It failed.
    Failed(Error),
    /// There is a worker for the session.
    Spawned(Session),
    /// A message came.
    Received(WorkerResponse),
}

/// The contents of a [`Client`].
pub enum ClientView {
    Idle { session: Option<Session> },
    Reading { session: Option<Session> },
    Replacing { username: Seq<char> },
    Spawning { username: Seq<char> },
    Initiating { session: Session },
    AwaitingPrompt { session: Session },
    Responding { session: Session },
    Starting { session: Session },
    AwaitingStart { session: Session },
    Cancelling,
    Replying { session: Option<Session> },
    HangingUp,
    Closed,
}

/// The contents of a [`ClientAction`].
pub enum ClientActionView {
    ReadHeader,
    ReadPayload { len: u32 },
    Spawn,
    Send { session: Session, request: WorkerRequestView },
    Receive { session: Session },
    Write { response: ResponseView },
    Close(Result<(), ErrorView>),
    Nothing,
}

/// The contents of a [`ClientEvent`].
pub enum ClientEventView {
    Header(Result<Seq<u8>, IoErrorView>),
    Payload(Result<Result<RequestView, Seq<char>>, IoErrorView>),
    Done,
    Failed(ErrorView),
    Spawned(Session),
    Received(WorkerResponseView),
}

impl View for Client {
    type V = ClientView;

    open spec fn view(&self) -> ClientView {
        match self {
            Client::Idle { session } => ClientView::Idle { session: *session },
            Client::Reading { session } => ClientView::Reading { session: *session },
            Client::Replacing { username } => ClientView::Replacing { username: username@ },
            Client::Spawning { username } => ClientView::Spawning { username: username@ },
            Client::Initiating { session } => ClientView::Initiating { session: *session },
            Client::AwaitingPrompt { session } => ClientView::AwaitingPrompt { session: *session },
            Client::Responding { session } => ClientView::Responding { session: *session },
            Client::Starting { session } => ClientView::Starting { session: *session },
            Client::AwaitingStart { session } => ClientView::AwaitingStart { session: *session },
            Client::Cancelling => ClientView::Cancelling,
            Client::Replying { session } => ClientView::Replying { session: *session },
            Client::HangingUp => ClientView::HangingUp,
            Client::Closed => ClientView::Closed,
        }
    }
}

impl View for ClientAction {
    type V = ClientActionView;

    open spec fn view(&self) -> ClientActionView {
        match self {
            ClientAction::ReadHeader => ClientActionView::ReadHeader,
            ClientAction::ReadPayload { len } => ClientActionView::ReadPayload { len: *len },
            ClientAction::Spawn => ClientActionView::Spawn,
            ClientAction::Send { session, request } => ClientActionView::Send {
                session: *session,
                request: request@,
            },
            ClientAction::Receive { session } => ClientActionView::Receive { session: *session },
            ClientAction::Write { response } => ClientActionView::Write { response: response@ },
            ClientAction::Close(result) => ClientActionView::Close(error::outcome(*result)),
            ClientAction::Nothing => ClientActionView::Nothing,
        }
    }
}

impl View for ClientEvent {
    type V = ClientEventView;

    open spec fn view(&self) -> ClientEventView {
        match self {
            ClientEvent::Header(header) => ClientEventView::Header(ipc::header_view(*header)),
            ClientEvent::Payload(payload) => ClientEventView::Payload(ipc::payload_view(*payload)),
            ClientEvent::Done => ClientEventView::Done,
            ClientEvent::Failed(error) => ClientEventView::Failed(error@),
            ClientEvent::Spawned(session) => ClientEventView::Spawned(*session),
            ClientEvent::Received(response) => ClientEventView::Received(response@),
        }
    }
}

/// A connection that is over.
pub open spec fn closes(result: Result<(), ErrorView>) -> (ClientView, ClientActionView) {
    (ClientView::Closed, ClientActionView::Close(result))
}

/// A connection on which a response is written.
pub open spec fn replies(session: Option<Session>, response: ResponseView) -> (
    ClientView,
    ClientActionView,
) {
    (ClientView::Replying { session }, ClientActionView::Write { response })
}

/// A connection that has a message sent to a worker.
pub open spec fn sends(client: ClientView, session: Session, request: WorkerRequestView) -> (
    ClientView,
    ClientActionView,
) {
    (client, ClientActionView::Send { session, request })
}

/// The answer to a request that needs a session where there is none.
pub open spec fn no_session() -> ResponseView {
    ResponseView::failure("no session active"@)
}

/// The answer to a request that failed: whether it is the authentication that
/// failed, and the failure in words.
pub open spec fn refusal(error: ErrorView) -> ResponseView {
    ResponseView::Error {
        error_type: if error is Auth {
            ErrorType::AuthError
        } else {
            ErrorType::Error
        },
        description: error.message(),
    }
}

/// A connection on which a greeter is told that its login failed. The login is
/// over; the greeter may begin another one.
pub open spec fn refuses(error: ErrorView) -> (ClientView, ClientActionView) {
    replies(None, refusal(error))
}

/// The message that tells a worker what session it is for: a login of a user.
pub open spec fn initiation(username: Seq<char>, runtime: RuntimeView) -> WorkerRequestView {
    WorkerRequestView::Initiate {
        service: runtime.pam_service,
        class: SessionClass::User,
        user: username,
        authenticate: true,
        tty: runtime.term_mode,
        source_profile: runtime.source_profile,
        greetd_sock: runtime.sock_path,
    }
}

/// What a request leads to.
pub open spec fn on_request(session: Option<Session>, request: RequestView) -> (
    ClientView,
    ClientActionView,
) {
    match (request, session) {
        (RequestView::CreateSession { username }, Some(session)) => sends(
            ClientView::Replacing { username },
            session,
            WorkerRequestView::Cancel,
        ),
        (RequestView::CreateSession { username }, None) => (
            ClientView::Spawning { username },
            ClientActionView::Spawn,
        ),
        (RequestView::PostAuthMessageResponse { response }, Some(session)) => sends(
            ClientView::Responding { session },
            session,
            WorkerRequestView::AuthResponse(response),
        ),
        (RequestView::StartSession { cmd, env }, Some(session)) => sends(
            ClientView::Starting { session },
            session,
            WorkerRequestView::Start { cmd, env },
        ),
        (RequestView::CancelSession, Some(session)) => sends(
            ClientView::Cancelling,
            session,
            WorkerRequestView::Cancel,
        ),
        (RequestView::CancelSession, None) => replies(None, ResponseView::Success),
        (_, None) => replies(None, no_session()),
    }
}

/// The response that a worker's prompt turns into.
pub open spec fn prompt_response(reply: WorkerResponseView) -> Result<ResponseView, ErrorView> {
    match reply.prompt() {
        Ok(Some((prompt, echo))) => Ok(
            ResponseView::AuthMessage {
                auth_message_type: if echo {
                    AuthMessageType::Visible
                } else {
                    AuthMessageType::Secret
                },
                auth_message: prompt,
            },
        ),
        Ok(None) => Ok(ResponseView::Success),
        Err(error) => Err(error),
    }
}

impl ClientView {
    /// A connection at its start, and its first action.
    pub open spec fn fresh() -> (ClientView, ClientActionView) {
        (ClientView::Idle { session: None }, ClientActionView::ReadHeader)
    }

    /// The next state and action. A login that fails is answered with the
    /// failure, and the greeter may try again; only a failure of the greeter's
    /// own stream ends the connection. Telling a session to end counts as done
    /// even where it fails. A report that does not fit the state changes nothing.
    pub open spec fn next(self, event: ClientEventView, runtime: RuntimeView) -> (
        ClientView,
        ClientActionView,
    ) {
        match (self, event) {
            (ClientView::Idle { session }, ClientEventView::Header(header)) => {
                match ipc::announced_length(header) {
                    Ok(Some(len)) => (
                        ClientView::Reading { session },
                        ClientActionView::ReadPayload { len },
                    ),
                    Ok(None) => match session {
                        Some(session) => sends(
                            ClientView::HangingUp,
                            session,
                            WorkerRequestView::Cancel,
                        ),
                        None => closes(Ok(())),
                    },
                    Err(error) => closes(Err(error)),
                }
            },
            (ClientView::Reading { session }, ClientEventView::Payload(payload)) => {
                match ipc::received_request(payload) {
                    Ok(request) => on_request(session, request),
                    Err(error) => closes(Err(error)),
                }
            },
            (ClientView::Replacing { username }, ClientEventView::Done) => (
                ClientView::Spawning { username },
                ClientActionView::Spawn,
            ),
            (ClientView::Replacing { username }, ClientEventView::Failed(_)) => (
                ClientView::Spawning { username },
                ClientActionView::Spawn,
            ),
            (ClientView::Spawning { username }, ClientEventView::Spawned(session)) => sends(
                ClientView::Initiating { session },
                session,
                initiation(username, runtime),
            ),
            (ClientView::Spawning { username }, ClientEventView::Failed(error)) => refuses(error),
            (ClientView::Initiating { session }, ClientEventView::Done) => (
                ClientView::AwaitingPrompt { session },
                ClientActionView::Receive { session },
            ),
            (ClientView::Initiating { session }, ClientEventView::Failed(error)) => refuses(error),
            (ClientView::AwaitingPrompt { session }, ClientEventView::Received(reply)) => {
                match prompt_response(reply) {
                    Ok(response) => replies(Some(session), response),
                    Err(error) => refuses(error),
                }
            },
            (ClientView::AwaitingPrompt { session }, ClientEventView::Failed(error)) => refuses(error),
            (ClientView::Responding { session }, ClientEventView::Done) => (
                ClientView::AwaitingPrompt { session },
                ClientActionView::Receive { session },
            ),
            (ClientView::Responding { session }, ClientEventView::Failed(error)) => refuses(error),
            (ClientView::Starting { session }, ClientEventView::Done) => (
                ClientView::AwaitingStart { session },
                ClientActionView::Receive { session },
            ),
            (ClientView::Starting { session }, ClientEventView::Failed(error)) => replies(
                None,
                ResponseView::failure(error.message()),
            ),
            (ClientView::AwaitingStart { session }, ClientEventView::Received(reply)) => {
                match reply.started() {
                    Ok(_) => replies(None, ResponseView::Success),
                    Err(error) => replies(None, ResponseView::failure(error.message())),
                }
            },
            (ClientView::AwaitingStart { session }, ClientEventView::Failed(error)) => replies(
                None,
                ResponseView::failure(error.message()),
            ),
            (ClientView::Cancelling, ClientEventView::Done) => replies(None, ResponseView::Success),
            (ClientView::Cancelling, ClientEventView::Failed(_)) => replies(
                None,
                ResponseView::Success,
            ),
            (ClientView::Replying { session }, ClientEventView::Done) => (
                ClientView::Idle { session },
                ClientActionView::ReadHeader,
            ),
            (ClientView::Replying { session }, ClientEventView::Failed(error)) => closes(
                Err(error),
            ),
            (ClientView::HangingUp, ClientEventView::Done) => closes(Ok(())),
            (ClientView::HangingUp, ClientEventView::Failed(_)) => closes(Ok(())),
            _ => (self, ClientActionView::Nothing),
        }
    }

    /// The session that a report brings to wait for the greeter to leave: one
    /// whose worker says that it has started.
    pub open spec fn queues(self, event: ClientEventView) -> Option<Session> {
        match (self, event) {
            (ClientView::AwaitingStart { session }, ClientEventView::Received(reply)) => {
                match reply.started() {
                    Ok(_) => Some(session),
                    Err(_) => None,
                }
            },
            _ => None,
        }
    }
}

/// The pending session after a report.
pub open spec fn pending_after(
    pending: PendingState,
    queues: Option<Session>,
    now: u64,
) -> PendingState {
    match queues {
        Some(session) => PendingState::queued(session, now),
        None => pending,
    }
}

fn close(result: Result<(), Error>) -> (r: (Client, ClientAction))
    ensures
        (r.0@, r.1@) == closes(error::outcome(result)),
{
    (Client::Closed, ClientAction::Close(result))
}

fn reply(session: Option<Session>, response: Response) -> (r: (Client, ClientAction))
    ensures
        (r.0@, r.1@) == replies(session, response@),
{
    (Client::Replying { session }, ClientAction::Write { response })
}

/// The answer to a request that failed.
pub fn error_response(error: &Error) -> (r: Response)
    ensures
        r@ == refusal(error@),
{
    let error_type = match error {
        Error::Auth(_) => ErrorType::AuthError,
        _ => ErrorType::Error,
    };
    Response::Error { error_type, description: error.to_string() }
}

fn refuse(error: Error) -> (r: (Client, ClientAction))
    ensures
        (r.0@, r.1@) == refuses(error@),
{
    reply(None, error_response(&error))
}

/// The response that a worker's prompt turns into.
pub fn auth_prompt_response(reply: WorkerResponse) -> (r: Result<Response, Error>)
    ensures
        error::outcome(r) == prompt_response(reply@),
{
    match Session::get_auth_prompt(reply) {
        Ok(Some((prompt, echo))) => Ok(
            Response::AuthMessage {
                auth_message_type: if echo {
                    AuthMessageType::Visible
                } else {
                    AuthMessageType::Secret
                },
                auth_message: prompt,
            },
        ),
        Ok(None) => Ok(Response::Success),
        Err(error) => Err(error),
    }
}

/// Has the session told to end.
fn cancel_session(client: Client, session: Session) -> (r: (Client, ClientAction))
    ensures
        (r.0@, r.1@) == sends(client@, session, WorkerRequestView::Cancel),
{
    (client, ClientAction::Send { session, request: Session::cancel() })
}

/// Begins a login, after the session before was told to end.
fn create_session_response(username: String, session: Option<Session>) -> (r: (
    Client,
    ClientAction,
))
    ensures
        (r.0@, r.1@) == on_request(session, RequestView::CreateSession { username: username@ }),
{
    match session {
        Some(session) => cancel_session(Client::Replacing { username }, session),
        None => (Client::Spawning { username }, ClientAction::Spawn),
    }
}

/// Passes an answer on to the worker.
fn handle_auth_response(response: Option<String>, session: Option<Session>) -> (r: (
    Client,
    ClientAction,
))
    ensures
        (r.0@, r.1@) == on_request(
            session,
            RequestView::PostAuthMessageResponse { response: response.deep_view() },
        ),
{
    match session {
        Some(session) => (
            Client::Responding { session },
            ClientAction::Send { session, request: Session::respond(response) },
        ),
        None => reply(None, Response::error("no session active")),
    }
}

/// Has the session's command started.
fn start_session_response(cmd: Vec<String>, env: Vec<String>, session: Option<Session>) -> (r: (
    Client,
    ClientAction,
))
    ensures
        (r.0@, r.1@) == on_request(
            session,
            RequestView::StartSession { cmd: cmd.deep_view(), env: env.deep_view() },
        ),
{
    match session {
        Some(session) => (
            Client::Starting { session },
            ClientAction::Send { session, request: Session::start(cmd, env) },
        ),
        None => reply(None, Response::error("no session active")),
    }
}

/// Has the session told to end, if there is one.
fn cancel_session_response(session: Option<Session>) -> (r: (Client, ClientAction))
    ensures
        (r.0@, r.1@) == on_request(session, RequestView::CancelSession),
{
    match session {
        Some(session) => cancel_session(Client::Cancelling, session),
        None => reply(None, Response::Success),
    }
}

/// Decides what a request leads to.
pub fn handle_request(request: Request, session: Option<Session>) -> (r: (Client, ClientAction))
    ensures
        (r.0@, r.1@) == on_request(session, request@),
{
    match request {
        Request::CreateSession { username } => create_session_response(username, session),
        Request::PostAuthMessageResponse { response } => handle_auth_response(response, session),
        Request::StartSession { cmd, env } => start_session_response(cmd, env, session),
        Request::CancelSession => cancel_session_response(session),
    }
}

impl Client {
    /// A fresh connection, and its first action: to read a request.
    pub fn handle_client() -> (r: (Client, ClientAction))
        ensures
            (r.0@, r.1@) == (ClientView::Idle { session: None }, ClientActionView::ReadHeader),
            (r.0@, r.1@) == ClientView::fresh(),
    {
        (Client::Idle { session: None }, ClientAction::ReadHeader)
    }

    /// Takes the report on the last action and decides on the next one. A
    /// session that has started is made to wait for the greeter to leave.
    pub fn step(
        self,
        event: ClientEvent,
        runtime: &Runtime,
        pending: &mut PendingState,
        now: u64,
    ) -> (r: (Client, ClientAction))
        ensures
            (r.0@, r.1@) == self@.next(event@, runtime@),
            *final(pending) == pending_after(*old(pending), self@.queues(event@), now),
    {
        match (self, event) {
            (Client::Idle { session }, ClientEvent::Header(header)) => {
                match Request::payload_length(header) {
                    Ok(Some(len)) => {
                        (Client::Reading { session }, ClientAction::ReadPayload { len })
                    },
                    Ok(None) => match session {
                        Some(session) => cancel_session(Client::HangingUp, session),
                        None => close(Ok(())),
                    },
                    Err(error) => close(Err(error)),
                }
            },
            (Client::Reading { session }, ClientEvent::Payload(payload)) => {
                match Request::read_from(payload) {
                    Ok(request) => handle_request(request, session),
                    Err(error) => close(Err(error)),
                }
            },
            (Client::Replacing { username }, ClientEvent::Done) => {
                (Client::Spawning { username }, ClientAction::Spawn)
            },
            (Client::Replacing { username }, ClientEvent::Failed(_)) => {
                (Client::Spawning { username }, ClientAction::Spawn)
            },
            (Client::Spawning { username }, ClientEvent::Spawned(session)) => {
                let request = Session::initiate(
                    runtime.pam_service.as_str(),
                    SessionClass::User,
                    username.as_str(),
                    true,
                    &runtime.term_mode,
                    runtime.source_profile,
                    runtime.sock_path.as_str(),
                );
                (Client::Initiating { session }, ClientAction::Send { session, request })
            },
            (Client::Spawning { username }, ClientEvent::Failed(error)) => refuse(error),
            (Client::Initiating { session }, ClientEvent::Done) => {
                (Client::AwaitingPrompt { session }, ClientAction::Receive { session })
            },
            (Client::Initiating { session }, ClientEvent::Failed(error)) => refuse(error),
            (Client::AwaitingPrompt { session }, ClientEvent::Received(answer)) => {
                match auth_prompt_response(answer) {
                    Ok(response) => reply(Some(session), response),
                    Err(error) => refuse(error),
                }
            },
            (Client::AwaitingPrompt { session }, ClientEvent::Failed(error)) => refuse(error),
            (Client::Responding { session }, ClientEvent::Done) => {
                (Client::AwaitingPrompt { session }, ClientAction::Receive { session })
            },
            (Client::Responding { session }, ClientEvent::Failed(error)) => refuse(error),
            (Client::Starting { session }, ClientEvent::Done) => {
                (Client::AwaitingStart { session }, ClientAction::Receive { session })
            },
            (Client::Starting { session }, ClientEvent::Failed(error)) => {
                reply(None, Response::error(error.to_string().as_str()))
            },
            (Client::AwaitingStart { session }, ClientEvent::Received(answer)) => {
                match Session::started(answer) {
                    Ok(_) => {
                        pending.queue(session, now);
                        reply(None, Response::Success)
                    },
                    Err(error) => reply(None, Response::error(error.to_string().as_str())),
                }
            },
            (Client::AwaitingStart { session }, ClientEvent::Failed(error)) => {
                reply(None, Response::error(error.to_string().as_str()))
            },
            (Client::Cancelling, ClientEvent::Done) => reply(None, Response::Success),
            (Client::Cancelling, ClientEvent::Failed(_)) => reply(None, Response::Success),
            (Client::Replying { session }, ClientEvent::Done) => {
                (Client::Idle { session }, ClientAction::ReadHeader)
            },
            (Client::Replying { session }, ClientEvent::Failed(error)) => close(Err(error)),
            (Client::HangingUp, ClientEvent::Done) => close(Ok(())),
            (Client::HangingUp, ClientEvent::Failed(_)) => close(Ok(())),
            (client, _) => (client, ClientAction::Nothing),
        }
    }
}

} // verus!
