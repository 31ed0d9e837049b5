//! What holds of every connection, whatever is reported to it.

use vstd::prelude::*;

use crate::client;
use crate::client::{Client, ClientAction, ClientActionView, ClientEvent, ClientEventView, ClientView};
use crate::error;
use crate::error::{Error, ErrorView, IoError, IoErrorKind, IoErrorView};
use crate::frame;
use crate::ipc;
use crate::ipc::{AuthMessageType, ErrorType, Request, RequestView, Response, ResponseView};
use crate::pending::PendingState;
use crate::runtime::RuntimeView;
use crate::session;
use crate::session::{
    Session,
    SessionClass,
    WorkerRequest,
    WorkerRequestView,
    WorkerResponse,
    WorkerResponseView,
};
use crate::worker::{JobView, WorkerActionView, WorkerEventView, WorkerView};

verus! {

/// The state of a connection after a sequence of reports.
pub open spec fn run(events: Seq<ClientEventView>, runtime: RuntimeView) -> ClientView
    decreases events.len(),
{
    if events.len() == 0 {
        ClientView::Idle { session: None }
    } else {
        run(events.drop_last(), runtime).next(events.last(), runtime).0
    }
}

/// The action that a connection asks for after a sequence of reports.
pub open spec fn action_after(
    events: Seq<ClientEventView>,
    runtime: RuntimeView,
) -> ClientActionView {
    if events.len() == 0 {
        ClientActionView::ReadHeader
    } else {
        run(events.drop_last(), runtime).next(events.last(), runtime).1
    }
}

impl ClientView {
    /// The session that the greeter is logging into.
    pub open spec fn session(self) -> Option<Session> {
        match self {
            ClientView::Idle { session } => session,
            ClientView::Reading { session } => session,
            ClientView::Initiating { session } => Some(session),
            ClientView::AwaitingPrompt { session } => Some(session),
            ClientView::Responding { session } => Some(session),
            ClientView::Starting { session } => Some(session),
            ClientView::AwaitingStart { session } => Some(session),
            ClientView::Replying { session } => session,
            _ => None,
        }
    }

    /// Whether a request has been read that no response was written to yet.
    pub open spec fn owes_response(self) -> bool {
        match self {
            ClientView::Replacing { .. } => true,
            ClientView::Spawning { .. } => true,
            ClientView::Initiating { .. } => true,
            ClientView::AwaitingPrompt { .. } => true,
            ClientView::Responding { .. } => true,
            ClientView::Starting { .. } => true,
            ClientView::AwaitingStart { .. } => true,
            ClientView::Cancelling => true,
            _ => false,
        }
    }

    /// Whether the report brings a request.
    pub open spec fn takes_request(self, event: ClientEventView) -> bool {
        match (self, event) {
            (ClientView::Reading { .. }, ClientEventView::Payload(payload)) => {
                ipc::received_request(payload) is Ok
            },
            _ => false,
        }
    }
}

/// How many requests a sequence of reports brings.
pub open spec fn requests(events: Seq<ClientEventView>, runtime: RuntimeView) -> nat
    decreases events.len(),
{
    if events.len() == 0 {
        0
    } else {
        let earlier = events.drop_last();
        requests(earlier, runtime) + if run(earlier, runtime).takes_request(events.last()) {
            1nat
        } else {
            0
        }
    }
}

/// How many responses a connection has had written after a sequence of reports.
pub open spec fn responses(events: Seq<ClientEventView>, runtime: RuntimeView) -> nat
    decreases events.len(),
{
    if events.len() == 0 {
        0
    } else {
        responses(events.drop_last(), runtime) + if action_after(events, runtime) is Write {
            1nat
        } else {
            0
        }
    }
}

proof fn lemma_response_step(client: ClientView, event: ClientEventView, runtime: RuntimeView)
    ensures
        ({
            let (after, action) = client.next(event, runtime);
            let before: int = if client.owes_response() {
                1
            } else {
                0
            };
            let taken: int = if client.takes_request(event) {
                1
            } else {
                0
            };
            let written: int = if action is Write {
                1
            } else {
                0
            };
            let owed: int = if after.owes_response() {
                1
            } else {
                0
            };
            before + taken - written == owed
        }),
{
}

/// Requests are answered one by one: at any time each request that was read has
/// had its one response, but for the one that is being dealt with, and nothing
/// is written unasked. A connection that is over has left no request without a
/// response.
pub proof fn requests_are_answered_one_by_one(
    events: Seq<ClientEventView>,
    runtime: RuntimeView,
)
    ensures
        requests(events, runtime) == responses(events, runtime) + if run(
            events,
            runtime,
        ).owes_response() {
            1nat
        } else {
            0
        },
        run(events, runtime) is Closed ==> requests(events, runtime) == responses(events, runtime),
    decreases events.len(),
{
    if events.len() > 0 {
        requests_are_answered_one_by_one(events.drop_last(), runtime);
        lemma_response_step(run(events.drop_last(), runtime), events.last(), runtime);
    }
}

impl ClientView {
    /// How many reports a response that is owed is away, at the most.
    pub open spec fn distance(self) -> nat {
        match self {
            ClientView::Replacing { .. } => 4,
            ClientView::Spawning { .. } => 3,
            ClientView::Initiating { .. } => 2,
            ClientView::Responding { .. } => 2,
            ClientView::Starting { .. } => 2,
            ClientView::AwaitingPrompt { .. } => 1,
            ClientView::AwaitingStart { .. } => 1,
            ClientView::Cancelling => 1,
            _ => 0,
        }
    }
}

/// A response that is owed comes: each report that fits brings it nearer or
/// has it written, and no report ends the connection before.
pub proof fn owed_response_comes(
    client: ClientView,
    event: ClientEventView,
    runtime: RuntimeView,
)
    requires
        client.owes_response(),
    ensures
        ({
            let (after, action) = client.next(event, runtime);
            ||| action is Write
            ||| after.owes_response() && after.distance() < client.distance()
            ||| after == client && action is Nothing
        }),
        event is Failed ==> {
            let (after, action) = client.next(event, runtime);
            action is Write || client is Replacing && action is Spawn
        },
{
}

/// Whether the report says that the greeter's own stream failed: a header or a
/// payload that could not be read or understood, or a response that could not
/// be written.
pub open spec fn stream_failed(client: ClientView, event: ClientEventView) -> bool {
    match (client, event) {
        (ClientView::Idle { .. }, ClientEventView::Header(header)) => {
            ipc::announced_length(header) is Err
        },
        (ClientView::Reading { .. }, ClientEventView::Payload(payload)) => {
            ipc::received_request(payload) is Err
        },
        (ClientView::Replying { .. }, ClientEventView::Failed(_)) => true,
        _ => false,
    }
}

/// A connection fails exactly where the greeter's own stream does: no failure
/// of a worker ends it.
pub proof fn only_the_stream_ends_the_connection(
    client: ClientView,
    event: ClientEventView,
    runtime: RuntimeView,
)
    ensures
        (client.next(event, runtime).1 matches ClientActionView::Close(result) && result is Err)
            <==> stream_failed(client, event),
{
}

/// A login that fails is answered: where the worker refuses it, the greeter is
/// told so as a failed authentication; where the worker could not be forked
/// off, told or heard, as whatever failure that was. The greeter may then begin
/// another login.
pub proof fn failed_login_is_answered(
    client: ClientView,
    why: Seq<char>,
    error: ErrorView,
    runtime: RuntimeView,
)
    ensures
        client is AwaitingPrompt ==> client.next(
            ClientEventView::Received(WorkerResponseView::Error(why)),
            runtime,
        ) == client::replies(
            None,
            (ResponseView::Error {
                error_type: ErrorType::AuthError,
                description: "auth error: "@ + why,
            }),
        ),
        client is Spawning || client is Initiating || client is Responding || client
            is AwaitingPrompt ==> client.next(ClientEventView::Failed(error), runtime)
            == client::replies(None, client::refusal(error)),
        (ClientView::Replying { session: None }).next(ClientEventView::Done, runtime) == (
            ClientView::Idle { session: None },
            ClientActionView::ReadHeader,
        ),
{
}

/// A wrong password is answered: what PAM says of it goes from the worker, which
/// leaves, by way of the connection that awaits the worker's answer, to the
/// greeter, as a failed authentication.
pub proof fn wrong_password_is_answered(
    job: JobView,
    password: Seq<char>,
    why: Seq<char>,
    session: Session,
    runtime: RuntimeView,
)
    ensures
        (WorkerView::Authenticating { job, password }).next(WorkerEventView::PamFailed(why)).1
            matches WorkerActionView::Leave(result) && session::parting(
            session.worker_pid,
            session.worker_pid,
            result,
        ) matches Some(words)
            && (ClientView::AwaitingPrompt { session }).next(
            ClientEventView::Received(words),
            runtime,
        ) == client::replies(
            None,
            (ResponseView::Error {
                error_type: ErrorType::AuthError,
                description: "auth error: "@ + ("authentication failed: "@ + why),
            }),
        ),
{
}

/// A connection reads only when no response is owed, so that the count in
/// [`requests_are_answered_one_by_one`] is even at each read.
pub proof fn reading_waits_for_the_response(
    client: ClientView,
    event: ClientEventView,
    runtime: RuntimeView,
)
    ensures
        client.next(event, runtime).1 is ReadHeader ==> client is Replying && !client.next(
            event,
            runtime,
        ).0.owes_response(),
        client.next(event, runtime).1 is ReadPayload ==> client is Idle,
{
}

/// Whoever answers a prompt or starts a session without having created one is
/// told that there is none, and no worker hears of it.
pub proof fn session_is_needed(request: RequestView, runtime: RuntimeView)
    requires
        request is PostAuthMessageResponse || request is StartSession,
    ensures
        (ClientView::Reading { session: None }).next(
            ClientEventView::Payload(Ok(Ok(request))),
            runtime,
        ) == (
            ClientView::Replying { session: None },
            ClientActionView::Write { response: client::no_session() },
        ),
{
}

/// Cancelling succeeds whether or not there is a session, and whether or not
/// its worker could be told.
pub proof fn cancelling_succeeds(
    session: Option<Session>,
    outcome: ClientEventView,
    runtime: RuntimeView,
)
    requires
        outcome is Done || outcome is Failed,
    ensures
        ({
            let asked = ClientEventView::Payload(Ok(Ok(RequestView::CancelSession)));
            let (client, action) = (ClientView::Reading { session }).next(asked, runtime);
            match session {
                None => (client, action) == client::replies(None, ResponseView::Success),
                Some(session) => {
                    &&& action == (ClientActionView::Send {
                        session,
                        request: WorkerRequestView::Cancel,
                    })
                    &&& client.next(outcome, runtime) == client::replies(
                        None,
                        ResponseView::Success,
                    )
                },
            }
        }),
{
}

/// A new session is begun only after the one before was told to end: there is
/// never more than one.
pub proof fn new_session_replaces_the_old(
    session: Session,
    username: Seq<char>,
    outcome: ClientEventView,
    runtime: RuntimeView,
)
    requires
        outcome is Done || outcome is Failed,
    ensures
        ({
            let asked = ClientEventView::Payload(Ok(Ok(RequestView::CreateSession { username })));
            let (client, action) = (ClientView::Reading { session: Some(session) }).next(
                asked,
                runtime,
            );
            &&& action == (ClientActionView::Send { session, request: WorkerRequestView::Cancel })
            &&& client.next(outcome, runtime) == (
                ClientView::Spawning { username },
                ClientActionView::Spawn,
            )
        }),
{
}

/// A worker is forked off only while the greeter has no session.
pub proof fn spawning_has_no_session(
    client: ClientView,
    event: ClientEventView,
    runtime: RuntimeView,
)
    ensures
        client.next(event, runtime).1 is Spawn ==> client.next(event, runtime).0.session() is None,
{
}

/// Whether the greeter is told that its request failed.
pub open spec fn tells_failure(action: ClientActionView) -> bool {
    action is Write && action->response is Error
}

/// A session that leaves a connection is told to end, or waits for the greeter
/// to leave, or failed, of which the greeter is told, or is lost with a
/// greeter's stream that failed.
pub proof fn sessions_are_accounted_for(
    client: ClientView,
    event: ClientEventView,
    runtime: RuntimeView,
    session: Session,
)
    requires
        client.session() == Some(session),
        client.next(event, runtime).0.session() != Some(session),
    ensures
        ({
            let action = client.next(event, runtime).1;
            ||| action == (ClientActionView::Send { session, request: WorkerRequestView::Cancel })
            ||| client.queues(event) == Some(session)
            ||| client.owes_response() && tells_failure(action)
            ||| stream_failed(client, event)
        }),
{
}

/// A greeter that hangs up has its session told to end, and the connection
/// closes in peace whether or not the worker could be told.
pub proof fn hanging_up_ends_the_session(
    session: Option<Session>,
    text: Seq<char>,
    outcome: ClientEventView,
    runtime: RuntimeView,
)
    requires
        outcome is Done || outcome is Failed,
    ensures
        ({
            let end = ClientEventView::Header(
                Err(IoErrorView { kind: IoErrorKind::UnexpectedEof, text }),
            );
            let (client, action) = (ClientView::Idle { session }).next(end, runtime);
            match session {
                None => (client, action) == client::closes(Ok(())),
                Some(session) => {
                    &&& action == (ClientActionView::Send {
                        session,
                        request: WorkerRequestView::Cancel,
                    })
                    &&& client.next(outcome, runtime) == client::closes(Ok(()))
                },
            }
        }),
{
}

/// A session waits for the greeter to leave only once its worker has said that
/// it started; the greeter is then told of the success, and has the session no
/// more.
pub proof fn only_started_sessions_wait(
    client: ClientView,
    event: ClientEventView,
    runtime: RuntimeView,
    pending: PendingState,
    now: u64,
)
    ensures
        client::pending_after(pending, client.queues(event), now) != pending ==> {
            &&& client matches ClientView::AwaitingStart { session }
            &&& event matches ClientEventView::Received(WorkerResponseView::Started { .. })
            &&& client::pending_after(pending, client.queues(event), now) == PendingState::queued(
                session,
                now,
            )
            &&& client.next(event, runtime) == client::replies(None, ResponseView::Success)
        },
{
}

/// The sessions whose workers the reports say were forked off.
pub open spec fn spawned(events: Seq<ClientEventView>, session: Session) -> bool {
    events.contains(ClientEventView::Spawned(session))
}

/// A connection deals only with sessions that were forked off for it, and
/// hands on no others.
pub proof fn sessions_are_its_own(
    events: Seq<ClientEventView>,
    runtime: RuntimeView,
    session: Session,
)
    requires
        run(events, runtime).session() == Some(session),
    ensures
        spawned(events, session),
    decreases events.len(),
{
    let earlier = events.drop_last();
    let before = run(earlier, runtime);
    if events.len() > 0 {
        if before.session() == Some(session) {
            sessions_are_its_own(earlier, runtime, session);
            let i = choose|i: int|
                0 <= i < earlier.len() && earlier[i] == ClientEventView::Spawned(session);
            assert(events[i] == ClientEventView::Spawned(session));
        } else {
            assert(events[events.len() - 1] == ClientEventView::Spawned(session));
        }
    }
}

/// Every session that a greeter begins is the login of a user, on the service
/// for users, and has to authenticate.
pub proof fn logins_authenticate(client: ClientView, event: ClientEventView, runtime: RuntimeView)
    ensures
        client.next(event, runtime).1 matches ClientActionView::Send {
            request: WorkerRequestView::Initiate { service, class, user, authenticate, .. },
            ..
        } ==> {
            &&& client == (ClientView::Spawning { username: user })
            &&& service == runtime.pam_service
            &&& class == SessionClass::User
            &&& authenticate
        },
{
}

/// A connection that is over stays so and asks for nothing.
pub proof fn closed_is_final(event: ClientEventView, runtime: RuntimeView)
    ensures
        ClientView::Closed.next(event, runtime) == (ClientView::Closed, ClientActionView::Nothing),
{
}

/// The last request that a sequence of reports brings, with the session that
/// the greeter had at that time.
pub open spec fn last_request(events: Seq<ClientEventView>, runtime: RuntimeView) -> Option<
    (RequestView, Option<Session>),
>
    decreases events.len(),
{
    if events.len() == 0 {
        None
    } else {
        let earlier = events.drop_last();
        match (run(earlier, runtime), events.last()) {
            (ClientView::Reading { session }, ClientEventView::Payload(Ok(Ok(request)))) => Some(
                (request, session),
            ),
            _ => last_request(earlier, runtime),
        }
    }
}

/// What a greeter that logs in is told upon a report on its worker.
pub open spec fn login_answer(report: ClientEventView) -> Option<ResponseView> {
    match report {
        ClientEventView::Received(reply) => match client::prompt_response(reply) {
            Ok(response) => Some(response),
            Err(error) => Some(client::refusal(error)),
        },
        ClientEventView::Failed(error) => Some(client::refusal(error)),
        _ => None,
    }
}

/// What a greeter that starts its session is told upon a report on its worker.
pub open spec fn start_answer(report: ClientEventView) -> Option<ResponseView> {
    match report {
        ClientEventView::Received(reply) => match reply.started() {
            Ok(_) => Some(ResponseView::Success),
            Err(error) => Some(ResponseView::failure(error.message())),
        },
        ClientEventView::Failed(error) => Some(ResponseView::failure(error.message())),
        _ => None,
    }
}

/// The answer to a request, upon the report that settles it: a login goes by
/// what its worker says, a start by whether the session started, and without a
/// session both are refused; cancelling succeeds.
pub open spec fn answer(
    request: RequestView,
    session: Option<Session>,
    report: ClientEventView,
) -> Option<ResponseView> {
    match (request, session) {
        (RequestView::CreateSession { .. }, _) => login_answer(report),
        (RequestView::PostAuthMessageResponse { .. }, Some(_)) => login_answer(report),
        (RequestView::StartSession { .. }, Some(_)) => start_answer(report),
        (RequestView::CancelSession, _) => Some(ResponseView::Success),
        (_, None) => Some(client::no_session()),
    }
}

/// Whether the state is one of dealing with the request, which came while the
/// greeter had the session.
spec fn deals_with(
    client: ClientView,
    request: RequestView,
    session: Option<Session>,
) -> bool {
    match client {
        ClientView::Replacing { username } => request == (RequestView::CreateSession { username }),
        ClientView::Spawning { username } => request == (RequestView::CreateSession { username }),
        ClientView::Initiating { .. } => request is CreateSession,
        ClientView::AwaitingPrompt { session: current } => {
            request is CreateSession || request is PostAuthMessageResponse && session == Some(
                current,
            )
        },
        ClientView::Responding { session: current } => {
            request is PostAuthMessageResponse && session == Some(current)
        },
        ClientView::Starting { session: current } => {
            request is StartSession && session == Some(current)
        },
        ClientView::AwaitingStart { session: current } => {
            request is StartSession && session == Some(current)
        },
        ClientView::Cancelling => request is CancelSession && session is Some,
        _ => true,
    }
}

proof fn lemma_answer_step(
    client: ClientView,
    event: ClientEventView,
    runtime: RuntimeView,
    request: RequestView,
    session: Option<Session>,
)
    requires
        if client.takes_request(event) {
            client == (ClientView::Reading { session }) && event == ClientEventView::Payload(
                Ok(Ok(request)),
            )
        } else {
            client.owes_response() && deals_with(client, request, session)
        },
    ensures
        deals_with(client.next(event, runtime).0, request, session),
        client.next(event, runtime).1 matches ClientActionView::Write { response } ==> answer(
            request,
            session,
            event,
        ) == Some(response),
{
}

proof fn lemma_deals_with_the_last_request(events: Seq<ClientEventView>, runtime: RuntimeView)
    ensures
        run(events, runtime).owes_response() ==> {
            &&& last_request(events, runtime) is Some
            &&& deals_with(
                run(events, runtime),
                (last_request(events, runtime)->0).0,
                (last_request(events, runtime)->0).1,
            )
        },
        action_after(events, runtime) matches ClientActionView::Write { response } ==> {
            &&& last_request(events, runtime) matches Some((request, session))
            &&& answer(request, session, events.last()) == Some(response)
        },
    decreases events.len(),
{
    if events.len() > 0 {
        let earlier = events.drop_last();
        let before = run(earlier, runtime);
        let event = events.last();
        lemma_deals_with_the_last_request(earlier, runtime);
        lemma_response_step(before, event, runtime);
        if before.takes_request(event) || before.owes_response() {
            let (request, session) = last_request(events, runtime)->0;
            lemma_answer_step(before, event, runtime, request, session);
        }
    }
}

/// Every response is the answer to the last request that was read, as the
/// report before the response settles it.
pub proof fn responses_answer_the_last_request(
    events: Seq<ClientEventView>,
    runtime: RuntimeView,
    response: ResponseView,
)
    requires
        action_after(events, runtime) == (ClientActionView::Write { response }),
    ensures
        last_request(events, runtime) matches Some((request, session)) && answer(
            request,
            session,
            events.last(),
        ) == Some(response),
{
    lemma_deals_with_the_last_request(events, runtime);
}

impl ClientActionView {
    /// Whether a message is sent to the session's worker or awaited from it.
    pub open spec fn addresses(self, session: Session) -> bool {
        match self {
            ClientActionView::Send { session: addressed, .. } => addressed == session,
            ClientActionView::Receive { session: addressed } => addressed == session,
            _ => false,
        }
    }
}

proof fn lemma_session_step(
    client: ClientView,
    event: ClientEventView,
    runtime: RuntimeView,
    session: Session,
)
    requires
        client.session() != Some(session),
        event != ClientEventView::Spawned(session),
    ensures
        client.next(event, runtime).0.session() != Some(session),
        !client.next(event, runtime).1.addresses(session),
{
}

/// Whether a connection has let go of a session after the first `i` reports: it
/// just had it told to end, or just handed it on to wait for the greeter to
/// leave.
pub open spec fn let_go_at(
    events: Seq<ClientEventView>,
    runtime: RuntimeView,
    session: Session,
    i: int,
) -> bool {
    &&& 0 < i <= events.len()
    &&& {
        ||| action_after(events.take(i), runtime) == (ClientActionView::Send {
            session,
            request: WorkerRequestView::Cancel,
        })
        ||| run(events.take(i - 1), runtime).queues(events[i - 1]) == Some(session)
    }
}

/// A session that a connection does not have is left alone by it, until a
/// worker for it is forked off.
pub proof fn other_sessions_are_left_alone(
    events: Seq<ClientEventView>,
    runtime: RuntimeView,
    session: Session,
    i: int,
    j: int,
)
    requires
        0 <= i < j <= events.len(),
        run(events.take(i), runtime).session() != Some(session),
        forall|k: int| i <= k < j ==> events[k] != ClientEventView::Spawned(session),
    ensures
        run(events.take(j), runtime).session() != Some(session),
        !action_after(events.take(j), runtime).addresses(session),
    decreases j - i,
{
    assert(events.take(j).drop_last() =~= events.take(j - 1));
    assert(events.take(j).last() == events[j - 1]);
    if i < j - 1 {
        other_sessions_are_left_alone(events, runtime, session, i, j - 1);
    }
    lemma_session_step(run(events.take(j - 1), runtime), events[j - 1], runtime, session);
}

/// A session that was told to end, or that waits for the greeter to leave, is
/// sent nothing more and is heard no more, unless a worker for it is forked off
/// again.
pub proof fn session_let_go_is_left_alone(
    events: Seq<ClientEventView>,
    runtime: RuntimeView,
    session: Session,
    i: int,
    j: int,
)
    requires
        let_go_at(events, runtime, session, i),
        i < j <= events.len(),
        forall|k: int| i <= k < j ==> events[k] != ClientEventView::Spawned(session),
    ensures
        !action_after(events.take(j), runtime).addresses(session),
{
    assert(events.take(i).drop_last() =~= events.take(i - 1));
    assert(events.take(i).last() == events[i - 1]);
    other_sessions_are_left_alone(events, runtime, session, i, j);
}

/// What each request makes a connection do, by whether the greeter has a
/// session: a new session needs a worker, and the old one must go first; an
/// answer and a command go to the session's worker as they are, the command and
/// its environment word by word; cancelling goes to the worker; and what cannot
/// be done without a session is refused.
pub proof fn requests_go_where_they_belong(
    had: Session,
    username: Seq<char>,
    response: Option<Seq<char>>,
    cmd: Seq<Seq<char>>,
    env: Seq<Seq<char>>,
    runtime: RuntimeView,
)
    ensures
        ({
            let with = ClientView::Reading { session: Some(had) };
            let without = ClientView::Reading { session: None };
            let create = ClientEventView::Payload(Ok(Ok(RequestView::CreateSession { username })));
            let answer = ClientEventView::Payload(
                Ok(Ok(RequestView::PostAuthMessageResponse { response })),
            );
            let start = ClientEventView::Payload(Ok(Ok(RequestView::StartSession { cmd, env })));
            let cancel = ClientEventView::Payload(Ok(Ok(RequestView::CancelSession)));
            let refused = (
                ClientView::Replying { session: None },
                ClientActionView::Write {
                    response: ResponseView::Error {
                        error_type: ErrorType::Error,
                        description: "no session active"@,
                    },
                },
            );
            &&& with.next(create, runtime) == (
                ClientView::Replacing { username },
                ClientActionView::Send { session: had, request: WorkerRequestView::Cancel },
            )
            &&& without.next(create, runtime) == (
                ClientView::Spawning { username },
                ClientActionView::Spawn,
            )
            &&& with.next(answer, runtime) == (
                ClientView::Responding { session: had },
                ClientActionView::Send {
                    session: had,
                    request: WorkerRequestView::AuthResponse(response),
                },
            )
            &&& without.next(answer, runtime) == refused
            &&& with.next(start, runtime) == (
                ClientView::Starting { session: had },
                ClientActionView::Send {
                    session: had,
                    request: WorkerRequestView::Start { cmd, env },
                },
            )
            &&& without.next(start, runtime) == refused
            &&& with.next(cancel, runtime) == (
                ClientView::Cancelling,
                ClientActionView::Send { session: had, request: WorkerRequestView::Cancel },
            )
            &&& without.next(cancel, runtime) == (
                ClientView::Replying { session: None },
                ClientActionView::Write { response: ResponseView::Success },
            )
        }),
{
}

/// A request is decided on in the same way wherever it is.
pub proof fn requests_are_decided_on_alike(
    session: Option<Session>,
    request: RequestView,
    runtime: RuntimeView,
)
    ensures
        client::on_request(session, request) == (ClientView::Reading { session }).next(
            ClientEventView::Payload(Ok(Ok(request))),
            runtime,
        ),
{
}

/// The worker of a login is told what the session is for: the user that the
/// greeter named, a user's session on the users' PAM service that has to
/// authenticate, and the daemon's own terminal, profiles and socket.
pub proof fn worker_of_a_login_is_told_what_it_is_for(
    username: Seq<char>,
    worker: Session,
    runtime: RuntimeView,
)
    ensures
        ({
            let (state, action) = (ClientView::Spawning { username }).next(
                ClientEventView::Spawned(worker),
                runtime,
            );
            &&& state == (ClientView::Initiating { session: worker })
            &&& action matches ClientActionView::Send {
                session,
                request: WorkerRequestView::Initiate {
                    service,
                    class,
                    user,
                    authenticate,
                    tty,
                    source_profile,
                    greetd_sock,
                },
            }
            &&& session == worker
            &&& service == runtime.pam_service
            &&& class == SessionClass::User
            &&& user == username
            &&& authenticate
            &&& tty == runtime.term_mode
            &&& source_profile == runtime.source_profile
            &&& greetd_sock == runtime.sock_path
        }),
{
}

/// Every message that a worker is sent says what the greeter asked for last:
/// the user's name, the answer to the prompt, or the command with its
/// environment, word by word; and it goes to the greeter's own session. A
/// session is told to end where the greeter asks for that or for a new one, or
/// hangs up.
pub proof fn messages_say_what_was_asked(events: Seq<ClientEventView>, runtime: RuntimeView)
    ensures
        action_after(events, runtime) matches ClientActionView::Send { session, request } ==> {
            let last = last_request(events, runtime);
            match request {
                WorkerRequestView::Initiate {
                    service,
                    class,
                    user,
                    authenticate,
                    tty,
                    source_profile,
                    greetd_sock,
                } => {
                    &&& events.last() == ClientEventView::Spawned(session)
                    &&& last matches Some((RequestView::CreateSession { username }, _))
                    &&& user == username
                    &&& service == runtime.pam_service
                    &&& class == SessionClass::User
                    &&& authenticate
                    &&& tty == runtime.term_mode
                    &&& source_profile == runtime.source_profile
                    &&& greetd_sock == runtime.sock_path
                },
                WorkerRequestView::AuthResponse(response) => last == Some(
                    (RequestView::PostAuthMessageResponse { response }, Some(session)),
                ),
                WorkerRequestView::Start { cmd, env } => last == Some(
                    (RequestView::StartSession { cmd, env }, Some(session)),
                ),
                WorkerRequestView::Cancel => {
                    &&& run(events.drop_last(), runtime).session() == Some(session)
                    &&& {
                        ||| events.last() is Header
                        ||| last == Some((RequestView::CancelSession, Some(session)))
                        ||| last matches Some((RequestView::CreateSession { .. }, had)) && had
                            == Some(session)
                    }
                },
            }
        },
{
    if events.len() > 0 {
        let earlier = events.drop_last();
        lemma_deals_with_the_last_request(earlier, runtime);
        lemma_deals_with_the_last_request(events, runtime);
    }
}

/// The course of a request through its worker: each message that was sent has an
/// answer awaited from the same worker; a session that was told to end makes
/// room, or is the success, whether or not it could be told; and after a
/// response the next request is read, with the session that the greeter has.
pub proof fn course_of_a_request(
    worker: Session,
    username: Seq<char>,
    had: Option<Session>,
    error: ErrorView,
    runtime: RuntimeView,
)
    ensures
        ({
            let hear = ClientActionView::Receive { session: worker };
            let awaiting = ClientView::AwaitingPrompt { session: worker };
            let done = ClientEventView::Done;
            let failed = ClientEventView::Failed(error);
            let spawning = (ClientView::Spawning { username }, ClientActionView::Spawn);
            let succeeded = (
                ClientView::Replying { session: None },
                ClientActionView::Write { response: ResponseView::Success },
            );
            let over = (ClientView::Closed, ClientActionView::Close(Ok::<(), ErrorView>(())));
            &&& (ClientView::Replacing { username }).next(done, runtime) == spawning
            &&& (ClientView::Replacing { username }).next(failed, runtime) == spawning
            &&& (ClientView::Initiating { session: worker }).next(done, runtime) == (awaiting, hear)
            &&& (ClientView::Responding { session: worker }).next(done, runtime) == (awaiting, hear)
            &&& (ClientView::Starting { session: worker }).next(done, runtime) == (
                ClientView::AwaitingStart { session: worker },
                hear,
            )
            &&& ClientView::Cancelling.next(done, runtime) == succeeded
            &&& ClientView::Cancelling.next(failed, runtime) == succeeded
            &&& ClientView::HangingUp.next(done, runtime) == over
            &&& ClientView::HangingUp.next(failed, runtime) == over
            &&& (ClientView::Replying { session: had }).next(done, runtime) == (
                ClientView::Idle { session: had },
                ClientActionView::ReadHeader,
            )
            &&& (ClientView::Replying { session: had }).next(failed, runtime) == (
                ClientView::Closed,
                ClientActionView::Close(Err::<(), ErrorView>(error)),
            )
        }),
{
}

/// What a greeter reads from a worker's answers: a prompt in its own words, to
/// be typed openly or in secret as the worker says; success where the worker is
/// ready, and where the session has started; and else the failure. The session
/// stays the greeter's while it logs in.
pub proof fn answers_reach_the_greeter(
    worker: Session,
    prompt: Seq<char>,
    echo: bool,
    pid: u32,
    why: Seq<char>,
    runtime: RuntimeView,
)
    ensures
        ({
            let awaiting = ClientView::AwaitingPrompt { session: worker };
            let starting = ClientView::AwaitingStart { session: worker };
            let asks = ClientEventView::Received(WorkerResponseView::AuthPrompt { prompt, echo });
            let ready = ClientEventView::Received(WorkerResponseView::Ready);
            let started = ClientEventView::Received(WorkerResponseView::Started { pid });
            let refused = ClientEventView::Received(WorkerResponseView::Error(why));
            let failure = |error_type: ErrorType, description: Seq<char>|
                (
                    ClientView::Replying { session: None },
                    ClientActionView::Write {
                        response: ResponseView::Error { error_type, description },
                    },
                );
            &&& awaiting.next(asks, runtime) == (
                ClientView::Replying { session: Some(worker) },
                ClientActionView::Write {
                    response: ResponseView::AuthMessage {
                        auth_message_type: if echo {
                            AuthMessageType::Visible
                        } else {
                            AuthMessageType::Secret
                        },
                        auth_message: prompt,
                    },
                },
            )
            &&& awaiting.next(ready, runtime) == (
                ClientView::Replying { session: Some(worker) },
                ClientActionView::Write { response: ResponseView::Success },
            )
            &&& awaiting.next(refused, runtime) == failure(
                ErrorType::AuthError,
                "auth error: "@ + why,
            )
            &&& awaiting.next(started, runtime) == failure(
                ErrorType::Error,
                "unexpected Started"@,
            )
            &&& starting.next(started, runtime) == (
                ClientView::Replying { session: None },
                ClientActionView::Write { response: ResponseView::Success },
            )
            &&& starting.next(refused, runtime) == failure(ErrorType::Error, why)
            &&& starting.next(ready, runtime) == failure(ErrorType::Error, "unexpected response"@)
            &&& starting.next(asks, runtime) == failure(ErrorType::Error, "unexpected response"@)
        }),
{
}

/// What a greeter is told of a worker that could not be forked off, told or
/// heard: the failure in words, marked as one of authentication exactly where it
/// is one and the greeter is logging in.
pub proof fn failures_reach_the_greeter(
    client: ClientView,
    error: ErrorView,
    runtime: RuntimeView,
)
    ensures
        client is Spawning || client is Initiating || client is Responding || client
            is AwaitingPrompt ==> client.next(ClientEventView::Failed(error), runtime) == (
            ClientView::Replying { session: None },
            ClientActionView::Write {
                response: ResponseView::Error {
                    error_type: if error is Auth {
                        ErrorType::AuthError
                    } else {
                        ErrorType::Error
                    },
                    description: error.message(),
                },
            },
        ),
        client is Starting || client is AwaitingStart ==> client.next(
            ClientEventView::Failed(error),
            runtime,
        ) == (
            ClientView::Replying { session: None },
            ClientActionView::Write {
                response: ResponseView::Error {
                    error_type: ErrorType::Error,
                    description: error.message(),
                },
            },
        ),
        client::refusal(error) == (ResponseView::Error {
            error_type: if error is Auth {
                ErrorType::AuthError
            } else {
                ErrorType::Error
            },
            description: error.message(),
        }),
        client::no_session() == (ResponseView::Error {
            error_type: ErrorType::Error,
            description: "no session active"@,
        }),
{
}

/// The response that each answer of a worker turns into while the greeter logs
/// in, and the failures.
pub proof fn prompts_turn_into_responses(
    prompt: Seq<char>,
    echo: bool,
    pid: u32,
    why: Seq<char>,
)
    ensures
        client::prompt_response(WorkerResponseView::AuthPrompt { prompt, echo }) == Ok::<
            ResponseView,
            ErrorView,
        >(
            (ResponseView::AuthMessage {
                auth_message_type: if echo {
                    AuthMessageType::Visible
                } else {
                    AuthMessageType::Secret
                },
                auth_message: prompt,
            }),
        ),
        client::prompt_response(WorkerResponseView::Ready) == Ok::<ResponseView, ErrorView>(
            ResponseView::Success,
        ),
        client::prompt_response(WorkerResponseView::Error(why)) == Err::<ResponseView, ErrorView>(
            ErrorView::Auth(why),
        ),
        client::prompt_response(WorkerResponseView::Started { pid }) == Err::<
            ResponseView,
            ErrorView,
        >(ErrorView::Other("unexpected Started"@)),
{
}

/// What is read off the greeter's stream: as many bytes as a header announces;
/// at the end of the stream the session is told to end, if there is one, and the
/// connection is over; and what cannot be read or understood ends it with the
/// failure.
pub proof fn stream_is_read_as_announced(
    had: Option<Session>,
    len: u32,
    error: IoErrorView,
    why: Seq<char>,
    runtime: RuntimeView,
)
    ensures
        ({
            let idle = ClientView::Idle { session: had };
            let reading = ClientView::Reading { session: had };
            let broken = ClientEventView::Header(Err(error));
            let over = |result: Result<(), ErrorView>|
                (ClientView::Closed, ClientActionView::Close(result));
            &&& idle.next(ClientEventView::Header(Ok(frame::native_bytes(len))), runtime) == (
                reading,
                ClientActionView::ReadPayload { len },
            )
            &&& error.kind is UnexpectedEof ==> idle.next(broken, runtime) == (match had {
                Some(session) => (
                    ClientView::HangingUp,
                    ClientActionView::Send { session, request: WorkerRequestView::Cancel },
                ),
                None => over(Ok(())),
            })
            &&& !(error.kind is UnexpectedEof) ==> idle.next(broken, runtime) == over(
                Err(ErrorView::Io(error)),
            )
            &&& reading.next(ClientEventView::Payload(Err(error)), runtime) == over(
                Err(ErrorView::Io(error)),
            )
            &&& reading.next(ClientEventView::Payload(Ok(Err(why))), runtime) == over(
                Err(ErrorView::Other("failed to parse request: "@ + why)),
            )
        }),
{
    frame::header_round_trip(len);
}

impl ClientView {
    /// Whether the state waits for such a report.
    pub open spec fn awaits(self, event: ClientEventView) -> bool {
        match event {
            ClientEventView::Header(_) => self is Idle,
            ClientEventView::Payload(_) => self is Reading,
            ClientEventView::Spawned(_) => self is Spawning,
            ClientEventView::Received(_) => self is AwaitingPrompt || self is AwaitingStart,
            ClientEventView::Done => {
                self is Replacing || self is Initiating || self is Responding || self is Starting
                    || self is Cancelling || self is Replying || self is HangingUp
            },
            ClientEventView::Failed(_) => {
                !(self is Idle || self is Reading || self is Closed)
            },
        }
    }
}

/// A report that is not awaited changes nothing.
pub proof fn unawaited_reports_do_not_matter(
    client: ClientView,
    event: ClientEventView,
    runtime: RuntimeView,
)
    requires
        !client.awaits(event),
    ensures
        client.next(event, runtime) == (client, ClientActionView::Nothing),
        client.queues(event) is None,
{
}

/// A session whose worker says that it has started waits for the greeter to
/// leave from that time on, with nothing asked of the greeter yet; any other
/// report leaves what waits as it is.
pub proof fn started_session_waits_from_now_on(
    client: ClientView,
    event: ClientEventView,
    worker: Session,
    pid: u32,
    pending: PendingState,
    now: u64,
)
    ensures
        ({
            let starting = ClientView::AwaitingStart { session: worker };
            let started = ClientEventView::Received(WorkerResponseView::Started { pid });
            client::pending_after(pending, starting.queues(started), now) == (PendingState {
                session: Some(worker),
                since: Some(now),
                sent_term: false,
            })
        }),
        !(client is AwaitingStart && event matches ClientEventView::Received(
            WorkerResponseView::Started { .. },
        )) ==> client::pending_after(pending, client.queues(event), now) == pending,
{
}

/// Connections, what they ask for and what is reported to them keep what they
/// hold.
pub proof fn connections_are_kept(
    session: Session,
    had: Option<Session>,
    username: String,
    request: WorkerRequest,
    response: Response,
    result: Result<(), Error>,
    header: Result<[u8; 4], IoError>,
    payload: Result<Result<Request, String>, IoError>,
    error: Error,
    reply: WorkerResponse,
    len: u32,
)
    ensures
        (Client::Idle { session: had })@ == (ClientView::Idle { session: had }),
        (Client::Reading { session: had })@ == (ClientView::Reading { session: had }),
        (Client::Replying { session: had })@ == (ClientView::Replying { session: had }),
        (Client::Replacing { username })@ == (ClientView::Replacing { username: username@ }),
        (Client::Spawning { username })@ == (ClientView::Spawning { username: username@ }),
        (Client::Initiating { session })@ == (ClientView::Initiating { session }),
        (Client::AwaitingPrompt { session })@ == (ClientView::AwaitingPrompt { session }),
        (Client::Responding { session })@ == (ClientView::Responding { session }),
        (Client::Starting { session })@ == (ClientView::Starting { session }),
        (Client::AwaitingStart { session })@ == (ClientView::AwaitingStart { session }),
        Client::Cancelling@ == ClientView::Cancelling,
        Client::HangingUp@ == ClientView::HangingUp,
        Client::Closed@ == ClientView::Closed,
        ClientAction::ReadHeader@ == ClientActionView::ReadHeader,
        (ClientAction::ReadPayload { len })@ == (ClientActionView::ReadPayload { len }),
        ClientAction::Spawn@ == ClientActionView::Spawn,
        (ClientAction::Send { session, request })@ == (ClientActionView::Send {
            session,
            request: request@,
        }),
        (ClientAction::Receive { session })@ == (ClientActionView::Receive { session }),
        (ClientAction::Write { response })@ == (ClientActionView::Write { response: response@ }),
        ClientAction::Close(result)@ == ClientActionView::Close(error::outcome(result)),
        ClientAction::Nothing@ == ClientActionView::Nothing,
        ClientEvent::Header(header)@ == ClientEventView::Header(ipc::header_view(header)),
        ClientEvent::Payload(payload)@ == ClientEventView::Payload(ipc::payload_view(payload)),
        ClientEvent::Done@ == ClientEventView::Done,
        ClientEvent::Failed(error)@ == ClientEventView::Failed(error@),
        ClientEvent::Spawned(session)@ == ClientEventView::Spawned(session),
        ClientEvent::Received(reply)@ == ClientEventView::Received(reply@),
{
}

/// A connection begins without a session and waits for a request.
pub proof fn connections_begin_without_a_session(runtime: RuntimeView)
    ensures
        ClientView::fresh().0 == (ClientView::Idle { session: None }),
        ClientView::fresh().1 == ClientActionView::ReadHeader,
        run(Seq::empty(), runtime) == (ClientView::Idle { session: None }),
        action_after(Seq::empty(), runtime) == ClientActionView::ReadHeader,
{
}

} // verus!
