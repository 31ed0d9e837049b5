//! The protocol between greeter and daemon: requests, responses and their
//! JSON text.

use vstd::prelude::*;
use vstd::string::*;
use vstd::utf8;

use crate::error;
use crate::error::{prefixed, Error, ErrorView, IoError, IoErrorKind, IoErrorView};
use crate::frame;
use crate::json;

verus! {

/// What a greeter asks for.
#[derive(Clone, Debug)]
pub enum Request {
    CreateSession { username: String },
    PostAuthMessageResponse { response: Option<String> },
    StartSession { cmd: Vec<String>, env: Vec<String> },
    CancelSession,
}

/// What the daemon answers.
#[derive(Clone, Debug)]
pub enum Response {
    Success,
    Error { error_type: ErrorType, description: String },
    AuthMessage { auth_message_type: AuthMessageType, auth_message: String },
}

/// Whether a failure is about authentication.
#[derive(Clone, Copy, Debug, PartialEq, Eq, Structural)]
pub enum ErrorType {
    Error,
    AuthError,
}

/// How a greeter is to treat a message: ask openly, ask in secret, or show it.
#[derive(Clone, Copy, Debug, PartialEq, Eq, Structural)]
pub enum AuthMessageType {
    Visible,
    Secret,
    Info,
    Error,
}

/// The contents of a [`Request`].
pub enum RequestView {
    CreateSession { username: Seq<char> },
    PostAuthMessageResponse { response: Option<Seq<char>> },
    StartSession { cmd: Seq<Seq<char>>, env: Seq<Seq<char>> },
    CancelSession,
}

/// The contents of a [`Response`].
pub enum ResponseView {
    Success,
    Error { error_type: ErrorType, description: Seq<char> },
    AuthMessage { auth_message_type: AuthMessageType, auth_message: Seq<char> },
}

impl View for Request {
    type V = RequestView;

    open spec fn view(&self) -> RequestView {
        match self {
            Request::CreateSession { username } => RequestView::CreateSession {
                username: username@,
            },
            Request::PostAuthMessageResponse { response } => RequestView::PostAuthMessageResponse {
                response: response.deep_view(),
            },
            Request::StartSession { cmd, env } => RequestView::StartSession {
                cmd: cmd.deep_view(),
                env: env.deep_view(),
            },
            Request::CancelSession => RequestView::CancelSession,
        }
    }
}

impl View for Response {
    type V = ResponseView;

    open spec fn view(&self) -> ResponseView {
        match self {
            Response::Success => ResponseView::Success,
            Response::Error { error_type, description } => ResponseView::Error {
                error_type: *error_type,
                description: description@,
            },
            Response::AuthMessage { auth_message_type, auth_message } => {
                ResponseView::AuthMessage {
                    auth_message_type: *auth_message_type,
                    auth_message: auth_message@,
                }
            },
        }
    }
}

/// How reading a frame's header went: its bytes, or the failure.
pub open spec fn header_view(header: Result<[u8; 4], IoError>) -> Result<Seq<u8>, IoErrorView> {
    match header {
        Ok(bytes) => Ok(bytes@),
        Err(error) => Err(error@),
    }
}

/// How reading a frame's payload went: a request, the parser's objection, or
/// the failure to read.
pub open spec fn payload_view(payload: Result<Result<Request, String>, IoError>) -> Result<
    Result<RequestView, Seq<char>>,
    IoErrorView,
> {
    match payload {
        Ok(Ok(request)) => Ok(Ok(request@)),
        Ok(Err(why)) => Ok(Err(why@)),
        Err(error) => Err(error@),
    }
}

/// What a header means: the length of the payload that follows, or that the
/// greeter has hung up, or a failure.
pub open spec fn announced_length(header: Result<Seq<u8>, IoErrorView>) -> Result<
    Option<u32>,
    ErrorView,
> {
    match header {
        Ok(bytes) => Ok(Some(frame::native_value(bytes) as u32)),
        Err(error) => if error.kind == IoErrorKind::UnexpectedEof {
            Ok(None)
        } else {
            Err(ErrorView::Io(error))
        },
    }
}

/// What a payload means: a request, or a failure.
pub open spec fn received_request(
    payload: Result<Result<RequestView, Seq<char>>, IoErrorView>,
) -> Result<RequestView, ErrorView> {
    match payload {
        Ok(Ok(request)) => Ok(request),
        Ok(Err(why)) => Err(ErrorView::Other("failed to parse request: "@ + why)),
        Err(error) => Err(ErrorView::Io(error)),
    }
}

/// The member that names the kind of a message.
pub open spec fn type_member(name: Seq<char>) -> Seq<char> {
    json::member("type"@, json::quoted(name))
}

impl RequestView {
    /// The request as JSON text.
    pub open spec fn json(self) -> Seq<char> {
        match self {
            RequestView::CreateSession { username } => json::object(
                seq![
                    type_member("create_session"@),
                    json::member("username"@, json::string_text(username)),
                ],
            ),
            RequestView::PostAuthMessageResponse { response } => json::object(
                seq![
                    type_member("post_auth_message_response"@),
                    json::member("response"@, json::optional_string(response)),
                ],
            ),
            RequestView::StartSession { cmd, env } => json::object(
                seq![
                    type_member("start_session"@),
                    json::member("cmd"@, json::string_list(cmd)),
                    json::member("env"@, json::string_list(env)),
                ],
            ),
            RequestView::CancelSession => json::object(seq![type_member("cancel_session"@)]),
        }
    }
}

impl ErrorType {
    /// The name on the wire.
    pub open spec fn wire_name(self) -> Seq<char> {
        match self {
            ErrorType::Error => "error"@,
            ErrorType::AuthError => "auth_error"@,
        }
    }

    fn name(&self) -> (r: &'static str)
        ensures
            r@ == self.wire_name(),
    {
        match self {
            ErrorType::Error => "error",
            ErrorType::AuthError => "auth_error",
        }
    }
}

impl AuthMessageType {
    /// The name on the wire.
    pub open spec fn wire_name(self) -> Seq<char> {
        match self {
            AuthMessageType::Visible => "visible"@,
            AuthMessageType::Secret => "secret"@,
            AuthMessageType::Info => "info"@,
            AuthMessageType::Error => "error"@,
        }
    }

    fn name(&self) -> (r: &'static str)
        ensures
            r@ == self.wire_name(),
    {
        match self {
            AuthMessageType::Visible => "visible",
            AuthMessageType::Secret => "secret",
            AuthMessageType::Info => "info",
            AuthMessageType::Error => "error",
        }
    }
}

impl ResponseView {
    /// The response as JSON text.
    pub open spec fn json(self) -> Seq<char> {
        match self {
            ResponseView::Success => json::object(seq![type_member("success"@)]),
            ResponseView::Error { error_type, description } => json::object(
                seq![
                    type_member("error"@),
                    json::member("error_type"@, json::quoted(error_type.wire_name())),
                    json::member("description"@, json::string_text(description)),
                ],
            ),
            ResponseView::AuthMessage { auth_message_type, auth_message } => json::object(
                seq![
                    type_member("auth_message"@),
                    json::member("auth_message_type"@, json::quoted(auth_message_type.wire_name())),
                    json::member("auth_message"@, json::string_text(auth_message)),
                ],
            ),
        }
    }

    /// The response as it travels.
    pub open spec fn bytes(self) -> Seq<u8> {
        frame::framed(utf8::encode_utf8(self.json()))
    }

    /// A general failure with the given description.
    pub open spec fn failure(description: Seq<char>) -> ResponseView {
        ResponseView::Error { error_type: ErrorType::Error, description }
    }
}

fn type_member_text(name: &str) -> (r: String)
    ensures
        r@ == type_member(name@),
{
    json::member_text("type", json::quoted_text(name).as_str())
}

/// The request to start a session that a greeter makes, with or without an
/// environment.
pub open spec fn start_request(
    cmd: Seq<Seq<char>>,
    env: Option<Seq<Seq<char>>>,
) -> RequestView {
    RequestView::StartSession {
        cmd,
        env: match env {
            Some(env) => env,
            None => Seq::empty(),
        },
    }
}

impl Request {
    /// A request to start a session, out of what a greeter gave: an environment
    /// that it left out is empty.
    pub fn start_session(cmd: Vec<String>, env: Option<Vec<String>>) -> (r: Self)
        ensures
            r@ == (RequestView::StartSession {
                cmd: cmd.deep_view(),
                env: match env {
                    Some(env) => env.deep_view(),
                    None => Seq::empty(),
                },
            }),
            r@ == start_request(cmd.deep_view(), env.deep_view()),
    {
        let env = match env {
            Some(env) => env,
            None => {
                let nothing: Vec<String> = Vec::new();
                assert(nothing.deep_view() =~= Seq::empty());
                nothing
            },
        };
        Request::StartSession { cmd, env }
    }

    /// Renders the request as JSON text.
    pub fn to_json(&self) -> (r: String)
        ensures
            r@ == self@.json(),
    {
        match self {
            Request::CreateSession { username } => {
                let members = vec![
                    type_member_text("create_session"),
                    json::member_text("username", json::string(username.as_str()).as_str()),
                ];
                assert(members.deep_view() =~= seq![
                    type_member("create_session"@),
                    json::member("username"@, json::string_text(username@)),
                ]);
                json::object_text(&members)
            },
            Request::PostAuthMessageResponse { response } => {
                let members = vec![
                    type_member_text("post_auth_message_response"),
                    json::member_text("response", json::optional_string_text(response).as_str()),
                ];
                assert(members.deep_view() =~= seq![
                    type_member("post_auth_message_response"@),
                    json::member("response"@, json::optional_string(response.deep_view())),
                ]);
                json::object_text(&members)
            },
            Request::StartSession { cmd, env } => {
                let members = vec![
                    type_member_text("start_session"),
                    json::member_text("cmd", json::string_list_text(cmd).as_str()),
                    json::member_text("env", json::string_list_text(env).as_str()),
                ];
                assert(members.deep_view() =~= seq![
                    type_member("start_session"@),
                    json::member("cmd"@, json::string_list(cmd.deep_view())),
                    json::member("env"@, json::string_list(env.deep_view())),
                ]);
                json::object_text(&members)
            },
            Request::CancelSession => {
                let members = vec![type_member_text("cancel_session")];
                assert(members.deep_view() =~= seq![type_member("cancel_session"@)]);
                json::object_text(&members)
            },
        }
    }

    /// Decides on the outcome of reading a frame's header: how many bytes of
    /// payload to read next, or `None` where the greeter has hung up.
    pub fn payload_length(header: Result<[u8; 4], IoError>) -> (r: Result<Option<u32>, Error>)
        ensures
            error::outcome(r) == announced_length(header_view(header)),
    {
        match header {
            Ok(bytes) => Ok(Some(frame::decode_length(bytes))),
            Err(error) => {
                if error.kind == IoErrorKind::UnexpectedEof {
                    Ok(None)
                } else {
                    Err(Error::from(error))
                }
            },
        }
    }

    /// Decides on the outcome of reading a frame's payload, whose JSON text was
    /// parsed into a request or refused with an explanation.
    pub fn read_from(payload: Result<Result<Request, String>, IoError>) -> (r: Result<
        Request,
        Error,
    >)
        ensures
            error::outcome(r) == received_request(payload_view(payload)),
            payload matches Ok(Ok(request)) ==> r == Ok::<Request, Error>(request),
    {
        match payload {
            Ok(Ok(request)) => Ok(request),
            Ok(Err(why)) => {
                Err(Error::Other(prefixed("failed to parse request: ", why.as_str())))
            },
            Err(error) => Err(Error::from(error)),
        }
    }
}

impl Response {
    /// A general failure with the given description.
    pub fn error(msg: &str) -> (r: Self)
        ensures
            r@ == ResponseView::failure(msg@),
    {
        Response::Error { error_type: ErrorType::Error, description: msg.to_string() }
    }

    /// Renders the response as JSON text.
    pub fn to_json(&self) -> (r: String)
        ensures
            r@ == self@.json(),
    {
        match self {
            Response::Success => {
                let members = vec![type_member_text("success")];
                assert(members.deep_view() =~= seq![type_member("success"@)]);
                json::object_text(&members)
            },
            Response::Error { error_type, description } => {
                let members = vec![
                    type_member_text("error"),
                    json::member_text("error_type", json::quoted_text(error_type.name()).as_str()),
                    json::member_text("description", json::string(description.as_str()).as_str()),
                ];
                assert(members.deep_view() =~= seq![
                    type_member("error"@),
                    json::member("error_type"@, json::quoted(error_type.wire_name())),
                    json::member("description"@, json::string_text(description@)),
                ]);
                json::object_text(&members)
            },
            Response::AuthMessage { auth_message_type, auth_message } => {
                let members = vec![
                    type_member_text("auth_message"),
                    json::member_text(
                        "auth_message_type",
                        json::quoted_text(auth_message_type.name()).as_str(),
                    ),
                    json::member_text("auth_message", json::string(auth_message.as_str()).as_str()),
                ];
                assert(members.deep_view() =~= seq![
                    type_member("auth_message"@),
                    json::member("auth_message_type"@, json::quoted(auth_message_type.wire_name())),
                    json::member("auth_message"@, json::string_text(auth_message@)),
                ]);
                json::object_text(&members)
            },
        }
    }

    /// The bytes to write to the greeter: one frame around the JSON text.
    pub fn write_to(&self) -> (r: Vec<u8>)
        ensures
            r@ == frame::framed(utf8::encode_utf8(self@.json())),
            r@ == self@.bytes(),
    {
        frame::encode(self.to_json().as_str().as_bytes())
    }
}

/// A command is asked for word by word, and so is its environment, which is
/// empty where the greeter gives none.
pub proof fn commands_are_kept_word_by_word(cmd: Seq<Seq<char>>, env: Seq<Seq<char>>)
    ensures
        start_request(cmd, Some(env)) == (RequestView::StartSession { cmd, env }),
        start_request(cmd, None) == (RequestView::StartSession { cmd, env: Seq::empty() }),
{
}

/// A header means the number that it holds; the end of the stream in its place
/// means that the greeter has hung up; any other failure is passed on.
pub proof fn headers_are_told_apart(len: u32, error: IoErrorView)
    ensures
        announced_length(Ok(frame::native_bytes(len))) == Ok::<Option<u32>, ErrorView>(Some(len)),
        error.kind is UnexpectedEof ==> announced_length(Err(error)) == Ok::<
            Option<u32>,
            ErrorView,
        >(None),
        !(error.kind is UnexpectedEof) ==> announced_length(Err(error)) == Err::<
            Option<u32>,
            ErrorView,
        >(ErrorView::Io(error)),
{
    frame::header_round_trip(len);
}

/// A payload means the request that it holds; an objection of the parser and a
/// failed read are failures, told apart.
pub proof fn payloads_are_told_apart(request: RequestView, why: Seq<char>, error: IoErrorView)
    ensures
        received_request(Ok(Ok(request))) == Ok::<RequestView, ErrorView>(request),
        received_request(Ok(Err(why))) == Err::<RequestView, ErrorView>(
            ErrorView::Other("failed to parse request: "@ + why),
        ),
        received_request(Err(error)) == Err::<RequestView, ErrorView>(ErrorView::Io(error)),
{
}

/// A general failure is one, with its description.
pub proof fn failures_are_described(description: Seq<char>)
    ensures
        ResponseView::failure(description) == (ResponseView::Error {
            error_type: ErrorType::Error,
            description,
        }),
{
}

/// Requests and responses keep what they hold.
pub proof fn requests_and_responses_are_kept(
    text: String,
    answer: Option<String>,
    cmd: Vec<String>,
    env: Vec<String>,
    error_type: ErrorType,
    auth_message_type: AuthMessageType,
)
    ensures
        (Request::CreateSession { username: text })@ == (RequestView::CreateSession {
            username: text@,
        }),
        (Request::PostAuthMessageResponse { response: answer })@ == (
        RequestView::PostAuthMessageResponse { response: answer.deep_view() }),
        (Request::StartSession { cmd, env })@ == (RequestView::StartSession {
            cmd: cmd.deep_view(),
            env: env.deep_view(),
        }),
        Request::CancelSession@ == RequestView::CancelSession,
        Response::Success@ == ResponseView::Success,
        (Response::Error { error_type, description: text })@ == (ResponseView::Error {
            error_type,
            description: text@,
        }),
        (Response::AuthMessage { auth_message_type, auth_message: text })@ == (
        ResponseView::AuthMessage { auth_message_type, auth_message: text@ }),
{
}

/// What was read of a frame is kept.
pub proof fn reads_are_kept(
    header: [u8; 4],
    request: Request,
    why: String,
    error: IoError,
)
    ensures
        header_view(Ok(header)) == Ok::<Seq<u8>, IoErrorView>(header@),
        header_view(Err(error)) == Err::<Seq<u8>, IoErrorView>(error@),
        payload_view(Ok(Ok(request))) == Ok::<Result<RequestView, Seq<char>>, IoErrorView>(
            Ok(request@),
        ),
        payload_view(Ok(Err(why))) == Ok::<Result<RequestView, Seq<char>>, IoErrorView>(
            Err(why@),
        ),
        payload_view(Err(error)) == Err::<Result<RequestView, Seq<char>>, IoErrorView>(error@),
{
}

} // verus!
