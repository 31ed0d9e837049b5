//! Sessions that the daemon starts by itself, without a login: the greeter and
//! the session of the first run.
//!
//! A [`Direct`] is the state of such a start. Each action that it asks for is
//! performed by the daemon, which then reports how the action went.

use vstd::prelude::*;

use crate::config::InitialSessionView;
use crate::error::{Error, ErrorView};
use crate::runtime::{DirectSessionRequest, DirectSessionRequestView, Runtime, RuntimeView};
use crate::session::{
    Session,
    SessionClass,
    WorkerRequest,
    WorkerRequestView,
    WorkerResponse,
    WorkerResponseView,
};

verus! {

/// The state of a start.
#[derive(Debug)]
pub enum Direct {
    /// A worker is being forked off.
    Spawning { request: DirectSessionRequest },
    /// The worker is being told what session it is for.
    Initiating { session: Session, cmd: Vec<String> },
    /// The worker's answer is awaited.
    AwaitingPrompt { session: Session, cmd: Vec<String> },
    /// The worker's prompt is being answered.
    Responding { session: Session, cmd: Vec<String> },
    /// The worker is being told to start the session's command.
    Starting { session: Session },
    /// The worker's word that the session has started is awaited.
    AwaitingStart { session: Session },
    /// The start is over.
    Finished,
}

/// What a start asks the daemon to do.
#[derive(Debug)]
pub enum DirectAction {
    /// Fork off a worker.
    Spawn,
    /// Send a message to a worker.
    Send { session: Session, request: WorkerRequest },
    /// Receive a message from a worker.
    Receive { session: Session },
    /// Go on with the started session, or with the failure.
    Finish(Result<Session, Error>),
    /// Nothing.
    Nothing,
}

/// How an action went.
#[derive(Debug)]
pub enum DirectEvent {
    /// It is done.
    Done,
    /// It failed.
    Failed(Error),
    /// There is a worker for the session.
    Spawned(Session),
    /// A message came.
    Received(WorkerResponse),
}

/// The contents of a [`Direct`].
pub enum DirectView {
    Spawning { request: DirectSessionRequestView },
    Initiating { session: Session, cmd: Seq<Seq<char>> },
    AwaitingPrompt { session: Session, cmd: Seq<Seq<char>> },
    Responding { session: Session, cmd: Seq<Seq<char>> },
    Starting { session: Session },
    AwaitingStart { session: Session },
    Finished,
}

/// The contents of a [`DirectAction`].
pub enum DirectActionView {
    Spawn,
    Send { session: Session, request: WorkerRequestView },
    Receive { session: Session },
    Finish(Result<Session, ErrorView>),
    Nothing,
}

/// The contents of a [`DirectEvent`].
pub enum DirectEventView {
    Done,
    Failed(ErrorView),
    Spawned(Session),
    Received(WorkerResponseView),
}

impl View for Direct {
    type V = DirectView;

    open spec fn view(&self) -> DirectView {
        match self {
            Direct::Spawning { request } => DirectView::Spawning { request: request@ },
            Direct::Initiating { session, cmd } => DirectView::Initiating {
                session: *session,
                cmd: cmd.deep_view(),
            },
            Direct::AwaitingPrompt { session, cmd } => DirectView::AwaitingPrompt {
                session: *session,
                cmd: cmd.deep_view(),
            },
            Direct::Responding { session, cmd } => DirectView::Responding {
                session: *session,
                cmd: cmd.deep_view(),
            },
            Direct::Starting { session } => DirectView::Starting { session: *session },
            Direct::AwaitingStart { session } => DirectView::AwaitingStart { session: *session },
            Direct::Finished => DirectView::Finished,
        }
    }
}

impl View for DirectAction {
    type V = DirectActionView;

    open spec fn view(&self) -> DirectActionView {
        match self {
            DirectAction::Spawn => DirectActionView::Spawn,
            DirectAction::Send { session, request } => DirectActionView::Send {
                session: *session,
                request: request@,
            },
            DirectAction::Receive { session } => DirectActionView::Receive { session: *session },
            DirectAction::Finish(Ok(session)) => DirectActionView::Finish(Ok(*session)),
            DirectAction::Finish(Err(error)) => DirectActionView::Finish(Err(error@)),
            DirectAction::Nothing => DirectActionView::Nothing,
        }
    }
}

impl View for DirectEvent {
    type V = DirectEventView;

    open spec fn view(&self) -> DirectEventView {
        match self {
            DirectEvent::Done => DirectEventView::Done,
            DirectEvent::Failed(error) => DirectEventView::Failed(error@),
            DirectEvent::Spawned(session) => DirectEventView::Spawned(*session),
            DirectEvent::Received(response) => DirectEventView::Received(response@),
        }
    }
}

/// A start that is over.
pub open spec fn finishes(result: Result<Session, ErrorView>) -> (DirectView, DirectActionView) {
    (DirectView::Finished, DirectActionView::Finish(result))
}

/// The message that tells a worker what session it is for: one without a login.
pub open spec fn initiation(
    request: DirectSessionRequestView,
    runtime: RuntimeView,
) -> WorkerRequestView {
    WorkerRequestView::Initiate {
        service: request.service,
        class: request.class,
        user: request.user,
        authenticate: false,
        tty: runtime.term_mode,
        source_profile: runtime.source_profile,
        greetd_sock: runtime.sock_path,
    }
}

impl DirectView {
    /// The next state and action. A prompt is answered with nothing, as often
    /// as it comes. A report that does not fit the state changes nothing.
    pub open spec fn next(self, event: DirectEventView, runtime: RuntimeView) -> (
        DirectView,
        DirectActionView,
    ) {
        match (self, event) {
            (DirectView::Finished, _) => (self, DirectActionView::Nothing),
            (_, DirectEventView::Failed(error)) => finishes(Err(error)),
            (DirectView::Spawning { request }, DirectEventView::Spawned(session)) => (
                DirectView::Initiating { session, cmd: request.cmd },
                DirectActionView::Send { session, request: initiation(request, runtime) },
            ),
            (DirectView::Initiating { session, cmd }, DirectEventView::Done) => (
                DirectView::AwaitingPrompt { session, cmd },
                DirectActionView::Receive { session },
            ),
            (DirectView::AwaitingPrompt { session, cmd }, DirectEventView::Received(reply)) => {
                match reply.prompt() {
                    Ok(Some(_)) => (
                        DirectView::Responding { session, cmd },
                        DirectActionView::Send {
                            session,
                            request: WorkerRequestView::AuthResponse(None),
                        },
                    ),
                    Ok(None) => (
                        DirectView::Starting { session },
                        DirectActionView::Send {
                            session,
                            request: WorkerRequestView::Start { cmd, env: Seq::empty() },
                        },
                    ),
                    Err(error) => finishes(Err(error)),
                }
            },
            (DirectView::Responding { session, cmd }, DirectEventView::Done) => (
                DirectView::AwaitingPrompt { session, cmd },
                DirectActionView::Receive { session },
            ),
            (DirectView::Starting { session }, DirectEventView::Done) => (
                DirectView::AwaitingStart { session },
                DirectActionView::Receive { session },
            ),
            (DirectView::AwaitingStart { session }, DirectEventView::Received(reply)) => {
                match reply.started() {
                    Ok(_) => finishes(Ok(session)),
                    Err(error) => finishes(Err(error)),
                }
            },
            _ => (self, DirectActionView::Nothing),
        }
    }
}

fn finish(result: Result<Session, Error>) -> (r: (Direct, DirectAction))
    ensures
        (r.0@, r.1@) == finishes(
            match result {
                Ok(session) => Ok(session),
                Err(error) => Err(error@),
            },
        ),
{
    (Direct::Finished, DirectAction::Finish(result))
}

/// The start of a session, and its first action.
pub open spec fn begins(request: DirectSessionRequestView) -> (DirectView, DirectActionView) {
    (DirectView::Spawning { request }, DirectActionView::Spawn)
}

/// The start of the greeter, and its first action.
pub open spec fn begins_greeter(runtime: RuntimeView) -> (DirectView, DirectActionView) {
    begins(runtime.greeter())
}

/// The start of the session of the first run, if there is to be one, and its
/// first action.
pub open spec fn begins_initial(runtime: RuntimeView, runfile_exists: bool) -> Option<
    (DirectView, DirectActionView),
> {
    match runtime.initial(runfile_exists) {
        Some(request) => Some(begins(request)),
        None => None,
    }
}

/// Begins the start of a session: a worker is needed first.
pub fn start_session_direct(request: DirectSessionRequest) -> (r: (Direct, DirectAction))
    ensures
        (r.0@, r.1@) == (DirectView::Spawning { request: request@ }, DirectActionView::Spawn),
        (r.0@, r.1@) == begins(request@),
{
    (Direct::Spawning { request }, DirectAction::Spawn)
}

/// Begins the start of the greeter.
pub fn start_greeter(runtime: &Runtime) -> (r: (Direct, DirectAction))
    ensures
        (r.0@, r.1@) == (
            DirectView::Spawning { request: runtime@.greeter() },
            DirectActionView::Spawn,
        ),
        (r.0@, r.1@) == begins_greeter(runtime@),
{
    start_session_direct(runtime.greeter_request())
}

/// Begins the start of the session of the first run, if there is one and the
/// first run is not over.
pub fn start_initial_session_if_needed(runtime: &Runtime, runfile_exists: bool) -> (r: Option<
    (Direct, DirectAction),
>)
    ensures
        match (runtime@.initial(runfile_exists), r) {
            (Some(request), Some(begun)) => (begun.0@, begun.1@) == (
                DirectView::Spawning { request },
                DirectActionView::Spawn,
            ),
            (None, None) => true,
            _ => false,
        },
        match r {
            Some(begun) => begins_initial(runtime@, runfile_exists) == Some((begun.0@, begun.1@)),
            None => begins_initial(runtime@, runfile_exists) is None,
        },
{
    match runtime.initial_request(runfile_exists) {
        Some(request) => Some(start_session_direct(request)),
        None => None,
    }
}

impl Direct {
    /// Takes the report on the last action and decides on the next one.
    pub fn step(self, event: DirectEvent, runtime: &Runtime) -> (r: (Direct, DirectAction))
        ensures
            (r.0@, r.1@) == self@.next(event@, runtime@),
    {
        match (self, event) {
            (Direct::Finished, _) => (Direct::Finished, DirectAction::Nothing),
            (_, DirectEvent::Failed(error)) => finish(Err(error)),
            (Direct::Spawning { request }, DirectEvent::Spawned(session)) => {
                let message = Session::initiate(
                    request.service.as_str(),
                    request.class,
                    request.user.as_str(),
                    false,
                    &runtime.term_mode,
                    runtime.source_profile,
                    runtime.sock_path.as_str(),
                );
                (
                    Direct::Initiating { session, cmd: request.cmd },
                    DirectAction::Send { session, request: message },
                )
            },
            (Direct::Initiating { session, cmd }, DirectEvent::Done) => {
                (Direct::AwaitingPrompt { session, cmd }, DirectAction::Receive { session })
            },
            (Direct::AwaitingPrompt { session, cmd }, DirectEvent::Received(reply)) => {
                match Session::get_auth_prompt(reply) {
                    Ok(Some(_)) => (
                        Direct::Responding { session, cmd },
                        DirectAction::Send { session, request: Session::respond(None) },
                    ),
                    Ok(None) => {
                        let env: Vec<String> = Vec::new();
                        assert(env.deep_view() =~= Seq::empty());
                        (
                            Direct::Starting { session },
                            DirectAction::Send { session, request: Session::start(cmd, env) },
                        )
                    },
                    Err(error) => finish(Err(error)),
                }
            },
            (Direct::Responding { session, cmd }, DirectEvent::Done) => {
                (Direct::AwaitingPrompt { session, cmd }, DirectAction::Receive { session })
            },
            (Direct::Starting { session }, DirectEvent::Done) => {
                (Direct::AwaitingStart { session }, DirectAction::Receive { session })
            },
            (Direct::AwaitingStart { session }, DirectEvent::Received(reply)) => {
                match Session::started(reply) {
                    Ok(_) => finish(Ok(session)),
                    Err(error) => finish(Err(error)),
                }
            },
            (direct, _) => (direct, DirectAction::Nothing),
        }
    }
}

/// The state of a start after a sequence of reports.
pub open spec fn run(
    request: DirectSessionRequestView,
    runtime: RuntimeView,
    events: Seq<DirectEventView>,
) -> DirectView
    decreases events.len(),
{
    if events.len() == 0 {
        DirectView::Spawning { request }
    } else {
        run(request, runtime, events.drop_last()).next(events.last(), runtime).0
    }
}

/// The action that a start asks for after a sequence of reports.
pub open spec fn action_after(
    request: DirectSessionRequestView,
    runtime: RuntimeView,
    events: Seq<DirectEventView>,
) -> DirectActionView {
    if events.len() == 0 {
        DirectActionView::Spawn
    } else {
        run(request, runtime, events.drop_last()).next(events.last(), runtime).1
    }
}

/// What holds of a state that a start of `request` reaches.
spec fn follows(state: DirectView, request: DirectSessionRequestView) -> bool {
    match state {
        DirectView::Spawning { request: r } => r == request,
        DirectView::Initiating { session, cmd } => cmd == request.cmd,
        DirectView::AwaitingPrompt { session, cmd } => cmd == request.cmd,
        DirectView::Responding { session, cmd } => cmd == request.cmd,
        _ => true,
    }
}

proof fn lemma_follows(
    request: DirectSessionRequestView,
    runtime: RuntimeView,
    events: Seq<DirectEventView>,
)
    ensures
        follows(run(request, runtime, events), request),
    decreases events.len(),
{
    if events.len() > 0 {
        lemma_follows(request, runtime, events.drop_last());
    }
}

/// Whatever a worker answers, it is told exactly three kinds of things: what
/// the session is for, without a login; nothing in answer to a prompt; and to
/// start the requested command, with nothing added to its environment.
pub proof fn direct_session_follows_request(
    request: DirectSessionRequestView,
    runtime: RuntimeView,
    events: Seq<DirectEventView>,
)
    ensures
        action_after(request, runtime, events) matches DirectActionView::Send {
            request: message,
            ..
        } ==> {
            ||| message == initiation(request, runtime)
            ||| message == WorkerRequestView::AuthResponse(None)
            ||| message == (WorkerRequestView::Start { cmd: request.cmd, env: Seq::empty() })
        },
{
    if events.len() > 0 {
        lemma_follows(request, runtime, events.drop_last());
    }
}

/// A start succeeds only when the worker says that the session has started.
pub proof fn direct_session_succeeds_when_started(
    request: DirectSessionRequestView,
    runtime: RuntimeView,
    events: Seq<DirectEventView>,
)
    ensures
        action_after(request, runtime, events) matches DirectActionView::Finish(Ok(session)) ==> {
            &&& events.last() matches DirectEventView::Received(WorkerResponseView::Started { .. })
            &&& run(request, runtime, events.drop_last()) == (DirectView::AwaitingStart { session })
        },
{
}

/// A worker for a session without a login is told what the session is for: the
/// request's service, class and user, no authentication, and the daemon's own
/// terminal, profiles and socket.
pub proof fn worker_is_told_what_it_is_for(
    request: DirectSessionRequestView,
    runtime: RuntimeView,
    worker: Session,
)
    ensures
        ({
            let (state, action) = (DirectView::Spawning { request }).next(
                DirectEventView::Spawned(worker),
                runtime,
            );
            &&& state == (DirectView::Initiating { session: worker, cmd: request.cmd })
            &&& action matches DirectActionView::Send {
                session,
                request: WorkerRequestView::Initiate {
                    service,
                    class,
                    user,
                    authenticate,
                    tty,
                    source_profile,
                    greetd_sock,
                },
            }
            &&& session == worker
            &&& service == request.service
            &&& class == request.class
            &&& user == request.user
            &&& !authenticate
            &&& tty == runtime.term_mode
            &&& source_profile == runtime.source_profile
            &&& greetd_sock == runtime.sock_path
        }),
{
}

/// The course of a start: the worker is forked off, told what it is for and
/// heard; each prompt is answered with nothing and the worker heard again; when
/// it is ready it is told to start the request's command, word by word, with
/// nothing added to the environment; and when the session has started, the
/// start is over with that worker's session.
pub proof fn course_of_a_start(
    request: DirectSessionRequestView,
    runtime: RuntimeView,
    worker: Session,
    prompt: Seq<char>,
    echo: bool,
    pid: u32,
)
    ensures
        ({
            let cmd = request.cmd;
            let initiating = (DirectView::Spawning { request }).next(
                DirectEventView::Spawned(worker),
                runtime,
            ).0;
            let awaiting = DirectView::AwaitingPrompt { session: worker, cmd };
            let hear = DirectActionView::Receive { session: worker };
            let responding = awaiting.next(
                DirectEventView::Received(WorkerResponseView::AuthPrompt { prompt, echo }),
                runtime,
            );
            let starting = awaiting.next(
                DirectEventView::Received(WorkerResponseView::Ready),
                runtime,
            );
            let started = starting.0.next(DirectEventView::Done, runtime);
            &&& responding.0 == (DirectView::Responding { session: worker, cmd })
            &&& starting.0 == (DirectView::Starting { session: worker })
            &&& started.0 == (DirectView::AwaitingStart { session: worker })
            &&& initiating.next(DirectEventView::Done, runtime) == (awaiting, hear)
            &&& responding.1 == (DirectActionView::Send {
                session: worker,
                request: WorkerRequestView::AuthResponse(None),
            })
            &&& responding.0.next(DirectEventView::Done, runtime) == (awaiting, hear)
            &&& starting.1 == (DirectActionView::Send {
                session: worker,
                request: WorkerRequestView::Start { cmd, env: Seq::empty() },
            })
            &&& started.1 == hear
            &&& started.0.next(
                DirectEventView::Received(WorkerResponseView::Started { pid }),
                runtime,
            ) == (DirectView::Finished, DirectActionView::Finish(Ok::<Session, ErrorView>(worker)))
        }),
{
}

/// Whatever fails ends a start with that failure, and so does a worker that
/// refuses or answers out of turn.
pub proof fn failures_end_a_start(
    state: DirectView,
    runtime: RuntimeView,
    error: ErrorView,
    worker: Session,
    cmd: Seq<Seq<char>>,
    why: Seq<char>,
    pid: u32,
    prompt: Seq<char>,
    echo: bool,
)
    ensures
        !(state is Finished) ==> state.next(DirectEventView::Failed(error), runtime) == (
            DirectView::Finished,
            DirectActionView::Finish(Err::<Session, ErrorView>(error)),
        ),
        ({
            let awaiting = DirectView::AwaitingPrompt { session: worker, cmd };
            let starting = DirectView::AwaitingStart { session: worker };
            let refused = DirectEventView::Received(WorkerResponseView::Error(why));
            let early = DirectEventView::Received(WorkerResponseView::Started { pid });
            let late = DirectEventView::Received(WorkerResponseView::Ready);
            let odd = DirectEventView::Received(WorkerResponseView::AuthPrompt { prompt, echo });
            &&& awaiting.next(refused, runtime).1 == DirectActionView::Finish(
                Err::<Session, ErrorView>(ErrorView::Auth(why)),
            )
            &&& awaiting.next(early, runtime).1 == DirectActionView::Finish(
                Err::<Session, ErrorView>(ErrorView::Other("unexpected Started"@)),
            )
            &&& starting.next(refused, runtime).1 == DirectActionView::Finish(
                Err::<Session, ErrorView>(ErrorView::Other(why)),
            )
            &&& starting.next(late, runtime).1 == DirectActionView::Finish(
                Err::<Session, ErrorView>(ErrorView::Other("unexpected response"@)),
            )
            &&& starting.next(odd, runtime).1 == starting.next(late, runtime).1
            &&& awaiting.next(refused, runtime).0 is Finished
            &&& awaiting.next(early, runtime).0 is Finished
            &&& starting.next(refused, runtime).0 is Finished
            &&& starting.next(late, runtime).0 is Finished
            &&& starting.next(odd, runtime).0 is Finished
        }),
{
}

impl DirectView {
    /// Whether the state waits for such a report.
    pub open spec fn awaits(self, event: DirectEventView) -> bool {
        match event {
            DirectEventView::Failed(_) => !(self is Finished),
            DirectEventView::Spawned(_) => self is Spawning,
            DirectEventView::Received(_) => self is AwaitingPrompt || self is AwaitingStart,
            DirectEventView::Done => self is Initiating || self is Responding || self is Starting,
        }
    }
}

/// A report that is not awaited changes nothing.
pub proof fn unawaited_reports_do_not_matter_to_a_start(
    state: DirectView,
    event: DirectEventView,
    runtime: RuntimeView,
)
    requires
        !state.awaits(event),
    ensures
        state.next(event, runtime) == (state, DirectActionView::Nothing),
{
}

/// The worker that a start goes by, tells something, waits for or ends with, is
/// at any time one that was forked off for this start.
pub proof fn start_talks_to_its_own_worker(
    request: DirectSessionRequestView,
    runtime: RuntimeView,
    events: Seq<DirectEventView>,
    worker: Session,
)
    requires
        run(request, runtime, events).worker() == Some(worker) || action_after(
            request,
            runtime,
            events,
        ).worker() == Some(worker),
    ensures
        events.contains(DirectEventView::Spawned(worker)),
    decreases events.len(),
{
    if events.len() > 0 {
        let earlier = events.drop_last();
        let before = run(request, runtime, earlier);
        if before.worker() == Some(worker) {
            start_talks_to_its_own_worker(request, runtime, earlier, worker);
            let i = choose|i: int|
                0 <= i < earlier.len() && earlier[i] == DirectEventView::Spawned(worker);
            assert(events[i] == DirectEventView::Spawned(worker));
        } else {
            assert(events[events.len() - 1] == DirectEventView::Spawned(worker));
        }
    }
}

impl DirectView {
    /// The worker that the start has.
    pub open spec fn worker(self) -> Option<Session> {
        match self {
            DirectView::Initiating { session, .. } => Some(session),
            DirectView::AwaitingPrompt { session, .. } => Some(session),
            DirectView::Responding { session, .. } => Some(session),
            DirectView::Starting { session } => Some(session),
            DirectView::AwaitingStart { session } => Some(session),
            _ => None,
        }
    }
}

impl DirectActionView {
    /// The worker that the action concerns.
    pub open spec fn worker(self) -> Option<Session> {
        match self {
            DirectActionView::Send { session, .. } => Some(session),
            DirectActionView::Receive { session } => Some(session),
            DirectActionView::Finish(Ok(session)) => Some(session),
            _ => None,
        }
    }
}

/// A start begins with a worker, for the session that was asked for: the greeter
/// on its own PAM service, or the first session on the users', which there is
/// only if one is configured and the first run is not over.
pub proof fn starts_begin_with_a_worker(
    request: DirectSessionRequestView,
    runtime: RuntimeView,
    initial: InitialSessionView,
)
    ensures
        begins(request) == (DirectView::Spawning { request }, DirectActionView::Spawn),
        begins_greeter(runtime) == (
            DirectView::Spawning {
                request: DirectSessionRequestView {
                    service: runtime.greeter_pam_service,
                    class: SessionClass::Greeter,
                    user: runtime.greeter_user,
                    cmd: seq![runtime.greeter_command],
                },
            },
            DirectActionView::Spawn,
        ),
        begins_initial(runtime, true) is None,
        runtime.initial_session is None ==> begins_initial(runtime, false) is None,
        runtime.initial_session == Some(initial) ==> begins_initial(runtime, false) == Some(
            (
                DirectView::Spawning {
                    request: DirectSessionRequestView {
                        service: runtime.pam_service,
                        class: SessionClass::User,
                        user: initial.user,
                        cmd: seq![initial.command],
                    },
                },
                DirectActionView::Spawn,
            ),
        ),
{
}

/// Every message to start a command, over the whole course of a start, carries
/// the command that was asked for, word by word, and nothing for its environment;
/// and every answer to a prompt is none.
pub proof fn start_runs_what_was_asked_for(
    request: DirectSessionRequestView,
    runtime: RuntimeView,
    events: Seq<DirectEventView>,
)
    ensures
        action_after(request, runtime, events) matches DirectActionView::Send { request: message, .. }
            ==> {
            &&& message matches WorkerRequestView::Start { cmd, env } ==> cmd == request.cmd
                && env.len() == 0
            &&& message matches WorkerRequestView::AuthResponse(answer) ==> answer is None
            &&& !(message is Cancel)
        },
{
    if events.len() > 0 {
        lemma_command_stays(request, runtime, events.drop_last());
    }
}

proof fn lemma_command_stays(
    request: DirectSessionRequestView,
    runtime: RuntimeView,
    events: Seq<DirectEventView>,
)
    ensures
        match run(request, runtime, events) {
            DirectView::Spawning { request: kept } => kept == request,
            DirectView::Initiating { cmd, .. } => cmd == request.cmd,
            DirectView::AwaitingPrompt { cmd, .. } => cmd == request.cmd,
            DirectView::Responding { cmd, .. } => cmd == request.cmd,
            _ => true,
        },
    decreases events.len(),
{
    if events.len() > 0 {
        lemma_command_stays(request, runtime, events.drop_last());
    }
}

/// The states, actions and reports of a start keep what they hold.
pub proof fn starts_are_kept(
    request: DirectSessionRequest,
    session: Session,
    cmd: Vec<String>,
    message: WorkerRequest,
    error: Error,
    reply: WorkerResponse,
)
    ensures
        (Direct::Spawning { request })@ == (DirectView::Spawning { request: request@ }),
        (Direct::Initiating { session, cmd })@ == (DirectView::Initiating {
            session,
            cmd: cmd.deep_view(),
        }),
        (Direct::AwaitingPrompt { session, cmd })@ == (DirectView::AwaitingPrompt {
            session,
            cmd: cmd.deep_view(),
        }),
        (Direct::Responding { session, cmd })@ == (DirectView::Responding {
            session,
            cmd: cmd.deep_view(),
        }),
        (Direct::Starting { session })@ == (DirectView::Starting { session }),
        (Direct::AwaitingStart { session })@ == (DirectView::AwaitingStart { session }),
        Direct::Finished@ == DirectView::Finished,
        DirectAction::Spawn@ == DirectActionView::Spawn,
        (DirectAction::Send { session, request: message })@ == (DirectActionView::Send {
            session,
            request: message@,
        }),
        (DirectAction::Receive { session })@ == (DirectActionView::Receive { session }),
        DirectAction::Finish(Ok(session))@ == DirectActionView::Finish(Ok(session)),
        DirectAction::Finish(Err(error))@ == DirectActionView::Finish(Err(error@)),
        DirectAction::Nothing@ == DirectActionView::Nothing,
        DirectEvent::Done@ == DirectEventView::Done,
        DirectEvent::Failed(error)@ == DirectEventView::Failed(error@),
        DirectEvent::Spawned(session)@ == DirectEventView::Spawned(session),
        DirectEvent::Received(reply)@ == DirectEventView::Received(reply@),
{
}

} // verus!
