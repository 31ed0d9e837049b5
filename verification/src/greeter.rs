//! A minimal greeter for trying the daemon out: it logs one user in with one
//! password and starts one command.
//!
//! A [`Greeter`] is the state of the conversation. It asks for a message to be
//! sent and is handed the reply.

use vstd::prelude::*;
use vstd::string::*;
use vstd::utf8;

use crate::frame;
use crate::ipc;
use crate::ipc::RequestView;
use crate::json;
use crate::message_laws;
use crate::text;

verus! {

/// The state of the conversation.
#[derive(Debug)]
pub enum Greeter {
    /// A session was asked for.
    Creating { password: String, command: String },
    /// The password was given.
    Answering { command: String },
    /// The command was asked for.
    Starting,
    /// The conversation is over.
    Left,
}

/// What the greeter asks for.
#[derive(Debug)]
pub enum GreeterAction {
    /// Send these bytes and wait for the reply.
    Exchange { message: Vec<u8> },
    /// Leave with a note and an exit status.
    Leave { note: String, status: i32 },
    /// Nothing.
    Nothing,
}

/// The contents of a [`Greeter`].
pub enum GreeterView {
    Creating { password: Seq<char>, command: Seq<char> },
    Answering { command: Seq<char> },
    Starting,
    Left,
}

/// The contents of a [`GreeterAction`].
pub enum GreeterActionView {
    Exchange { message: Seq<u8> },
    Leave { note: Seq<char>, status: i32 },
    Nothing,
}

impl View for Greeter {
    type V = GreeterView;

    open spec fn view(&self) -> GreeterView {
        match self {
            Greeter::Creating { password, command } => GreeterView::Creating {
                password: password@,
                command: command@,
            },
            Greeter::Answering { command } => GreeterView::Answering { command: command@ },
            Greeter::Starting => GreeterView::Starting,
            Greeter::Left => GreeterView::Left,
        }
    }
}

impl View for GreeterAction {
    type V = GreeterActionView;

    open spec fn view(&self) -> GreeterActionView {
        match self {
            GreeterAction::Exchange { message } => GreeterActionView::Exchange {
                message: message@,
            },
            GreeterAction::Leave { note, status } => GreeterActionView::Leave {
                note: note@,
                status: *status,
            },
            GreeterAction::Nothing => GreeterActionView::Nothing,
        }
    }
}

/// A message on its way: `word` between `before` and `after`, in a frame. The
/// word is not escaped.
pub open spec fn exchange(before: Seq<char>, word: Seq<char>, after: Seq<char>) -> GreeterActionView {
    GreeterActionView::Exchange {
        message: frame::framed(utf8::encode_utf8(before + word + after)),
    }
}

/// The greeter leaves.
pub open spec fn leave(note: Seq<char>, status: i32) -> (GreeterView, GreeterActionView) {
    (GreeterView::Left, GreeterActionView::Leave { note, status })
}

/// The command is asked for.
pub open spec fn start(command: Seq<char>) -> (GreeterView, GreeterActionView) {
    (
        GreeterView::Starting,
        exchange("{\"type\":\"start_session\",\"cmd\":[\""@, command, "\"]}"@),
    )
}

/// The conversation that the arguments ask for: after the program's own name, a
/// user, a password and a command.
pub open spec fn begin(args: Seq<Seq<char>>) -> (GreeterView, GreeterActionView) {
    if args.len() < 4 {
        leave("Usage: test-greeter <username> <password> <command>"@, 1)
    } else {
        (
            GreeterView::Creating { password: args[2], command: args[3] },
            exchange("{\"type\":\"create_session\",\"username\":\""@, args[1], "\"}"@),
        )
    }
}

impl GreeterView {
    /// The next state and action upon a reply. The password is given only where
    /// it is asked for, and the command is asked for unless the password was
    /// refused.
    pub open spec fn next(self, reply: Seq<char>) -> (GreeterView, GreeterActionView) {
        match self {
            GreeterView::Creating { password, command } => if text::has_substring(
                reply,
                "auth_message"@,
            ) {
                (
                    GreeterView::Answering { command },
                    exchange(
                        "{\"type\":\"post_auth_message_response\",\"response\":\""@,
                        password,
                        "\"}"@,
                    ),
                )
            } else {
                start(command)
            },
            GreeterView::Answering { command } => if text::has_substring(reply, "error"@) {
                leave("Authentication failed"@, 1)
            } else {
                start(command)
            },
            GreeterView::Starting => if text::has_substring(reply, "success"@) {
                leave("Session started, greeter exiting"@, 0)
            } else {
                leave("Failed to start session"@, 1)
            },
            GreeterView::Left => (self, GreeterActionView::Nothing),
        }
    }
}

/// Puts a message together.
fn send(before: &str, word: &str, after: &str) -> (r: GreeterAction)
    ensures
        r@ == exchange(before@, word@, after@),
{
    let mut json = before.to_string();
    json.append(word);
    json.append(after);
    GreeterAction::Exchange { message: frame::encode(json.as_str().as_bytes()) }
}

fn leaving(note: &str, status: i32) -> (r: (Greeter, GreeterAction))
    ensures
        (r.0@, r.1@) == leave(note@, status),
{
    (Greeter::Left, GreeterAction::Leave { note: note.to_string(), status })
}

fn starting(command: &str) -> (r: (Greeter, GreeterAction))
    ensures
        (r.0@, r.1@) == start(command@),
{
    (Greeter::Starting, send("{\"type\":\"start_session\",\"cmd\":[\"", command, "\"]}"))
}

impl Greeter {
    /// Begins the conversation that the arguments ask for.
    pub fn new(args: &Vec<String>) -> (r: (Greeter, GreeterAction))
        ensures
            (r.0@, r.1@) == begin(args.deep_view()),
    {
        if args.len() < 4 {
            return leaving("Usage: test-greeter <username> <password> <command>", 1);
        }
        let action = send(
            "{\"type\":\"create_session\",\"username\":\"",
            args[1].as_str(),
            "\"}",
        );
        (Greeter::Creating { password: args[2].clone(), command: args[3].clone() }, action)
    }

    /// Takes a reply and decides what to do next.
    pub fn step(self, reply: &str) -> (r: (Greeter, GreeterAction))
        ensures
            (r.0@, r.1@) == self@.next(reply@),
    {
        match self {
            Greeter::Creating { password, command } => {
                if text::contains(reply, "auth_message") {
                    let action = send(
                        "{\"type\":\"post_auth_message_response\",\"response\":\"",
                        password.as_str(),
                        "\"}",
                    );
                    (Greeter::Answering { command }, action)
                } else {
                    starting(command.as_str())
                }
            },
            Greeter::Answering { command } => {
                if text::contains(reply, "error") {
                    leaving("Authentication failed", 1)
                } else {
                    starting(command.as_str())
                }
            },
            Greeter::Starting => {
                if text::contains(reply, "success") {
                    leaving("Session started, greeter exiting", 0)
                } else {
                    leaving("Failed to start session", 1)
                }
            },
            Greeter::Left => (Greeter::Left, GreeterAction::Nothing),
        }
    }
}

/// A greeter leaves in peace only upon the reply to its command, and only where
/// that reply speaks of success.
pub proof fn leaves_in_peace_after_success(greeter: GreeterView, reply: Seq<char>)
    ensures
        greeter.next(reply).1 matches GreeterActionView::Leave { status, .. } && status == 0 ==> (
        greeter is Starting && text::has_substring(reply, "success"@)),
{
}

proof fn lemma_create(username: Seq<char>)
    requires
        message_laws::plain(username),
    ensures
        "{\"type\":\"create_session\",\"username\":\""@ + username + "\"}"@
            == (RequestView::CreateSession { username }).json(),
{
    reveal_with_fuel(text::joined, 3);
    reveal_strlit("{\"type\":\"create_session\",\"username\":\"");
    reveal_strlit("\"}");
    reveal_strlit("{");
    reveal_strlit("}");
    reveal_strlit("\"");
    reveal_strlit(":");
    reveal_strlit(",");
    reveal_strlit("type");
    reveal_strlit("create_session");
    reveal_strlit("username");
    message_laws::plain_name_is_written_plainly(username);
    let members = seq![
        ipc::type_member("create_session"@),
        json::member("username"@, json::string_text(username)),
    ];
    assert(members.skip(1) =~= seq![members[1]]);
    assert("{\"type\":\"create_session\",\"username\":\""@ =~= "{"@ + ipc::type_member(
        "create_session"@,
    ) + ","@ + json::quoted("username"@) + ":"@ + "\""@);
    assert("\"}"@ =~= "\""@ + "}"@);
    assert(json::object(members) =~= "{\"type\":\"create_session\",\"username\":\""@ + username
        + "\"}"@);
}

proof fn lemma_answer(password: Seq<char>)
    requires
        message_laws::plain(password),
    ensures
        "{\"type\":\"post_auth_message_response\",\"response\":\""@ + password + "\"}"@
            == (RequestView::PostAuthMessageResponse { response: Some(password) }).json(),
{
    reveal_with_fuel(text::joined, 3);
    reveal_strlit("{\"type\":\"post_auth_message_response\",\"response\":\"");
    reveal_strlit("\"}");
    reveal_strlit("{");
    reveal_strlit("}");
    reveal_strlit("\"");
    reveal_strlit(":");
    reveal_strlit(",");
    reveal_strlit("type");
    reveal_strlit("post_auth_message_response");
    reveal_strlit("response");
    message_laws::plain_name_is_written_plainly(password);
    let members = seq![
        ipc::type_member("post_auth_message_response"@),
        json::member("response"@, json::string_text(password)),
    ];
    assert(members.skip(1) =~= seq![members[1]]);
    assert("{\"type\":\"post_auth_message_response\",\"response\":\""@ =~= "{"@ + ipc::type_member(
        "post_auth_message_response"@,
    ) + ","@ + json::quoted("response"@) + ":"@ + "\""@);
    assert("\"}"@ =~= "\""@ + "}"@);
    assert(json::object(members) =~= "{\"type\":\"post_auth_message_response\",\"response\":\""@
        + password + "\"}"@);
}

/// Words that need no escapes make the messages that the daemon knows: the
/// first one asks for a session of the user, and the answer to a prompt gives
/// the password.
pub proof fn plain_words_make_requests(args: Seq<Seq<char>>, reply: Seq<char>)
    requires
        args.len() >= 4,
        message_laws::plain(args[1]),
        message_laws::plain(args[2]),
        text::has_substring(reply, "auth_message"@),
    ensures
        ({
            let create = RequestView::CreateSession { username: args[1] };
            let answer = RequestView::PostAuthMessageResponse { response: Some(args[2]) };
            let (greeter, action) = begin(args);
            &&& action == (GreeterActionView::Exchange {
                message: frame::framed(utf8::encode_utf8(create.json())),
            })
            &&& greeter.next(reply).1 == (GreeterActionView::Exchange {
                message: frame::framed(utf8::encode_utf8(answer.json())),
            })
        }),
{
    lemma_create(args[1]);
    lemma_answer(args[2]);
}

/// How a conversation begins: with fewer than three words after the program's own
/// name it ends at once, with a note on how it is meant to be begun; else a
/// session is asked for in the name of the first word, and the other two are kept
/// for later, as they are.
pub proof fn conversation_begins_with_its_user(args: Seq<Seq<char>>)
    ensures
        args.len() < 4 ==> begin(args) == (
            GreeterView::Left,
            GreeterActionView::Leave {
                note: "Usage: test-greeter <username> <password> <command>"@,
                status: 1,
            },
        ),
        args.len() >= 4 ==> begin(args) == (
            GreeterView::Creating { password: args[2], command: args[3] },
            GreeterActionView::Exchange {
                message: frame::framed(
                    utf8::encode_utf8(
                        "{\"type\":\"create_session\",\"username\":\""@ + args[1] + "\"}"@,
                    ),
                ),
            },
        ),
{
}

/// The course of a conversation, whatever the password and the command: the
/// password goes out where a reply asks for one, and only then; the command goes
/// out where no password is asked for or the password was not refused; and the
/// note and the status at the end say how it went.
pub proof fn course_of_a_conversation(
    password: Seq<char>,
    command: Seq<char>,
    reply: Seq<char>,
)
    ensures
        ({
            let creating = GreeterView::Creating { password, command };
            let answering = GreeterView::Answering { command };
            let says = |word: Seq<char>| text::has_substring(reply, word);
            let over = |note: Seq<char>, status: i32|
                (GreeterView::Left, GreeterActionView::Leave { note, status });
            let answers = (
                answering,
                GreeterActionView::Exchange {
                    message: frame::framed(
                        utf8::encode_utf8(
                            "{\"type\":\"post_auth_message_response\",\"response\":\""@ + password
                                + "\"}"@,
                        ),
                    ),
                },
            );
            let starts = (
                GreeterView::Starting,
                GreeterActionView::Exchange {
                    message: frame::framed(
                        utf8::encode_utf8(
                            "{\"type\":\"start_session\",\"cmd\":[\""@ + command + "\"]}"@,
                        ),
                    ),
                },
            );
            &&& says("auth_message"@) ==> creating.next(reply) == answers
            &&& !says("auth_message"@) ==> creating.next(reply) == starts
            &&& says("error"@) ==> answering.next(reply) == over("Authentication failed"@, 1)
            &&& !says("error"@) ==> answering.next(reply) == starts
            &&& says("success"@) ==> GreeterView::Starting.next(reply) == over(
                "Session started, greeter exiting"@,
                0,
            )
            &&& !says("success"@) ==> GreeterView::Starting.next(reply) == over(
                "Failed to start session"@,
                1,
            )
            &&& GreeterView::Left.next(reply) == (GreeterView::Left, GreeterActionView::Nothing)
        }),
{
}

/// Conversations and what they ask for keep what they hold.
pub proof fn conversations_are_kept(
    password: String,
    command: String,
    message: Vec<u8>,
    note: String,
    status: i32,
)
    ensures
        (Greeter::Creating { password, command })@ == (GreeterView::Creating {
            password: password@,
            command: command@,
        }),
        (Greeter::Answering { command })@ == (GreeterView::Answering { command: command@ }),
        Greeter::Starting@ == GreeterView::Starting,
        Greeter::Left@ == GreeterView::Left,
        (GreeterAction::Exchange { message })@ == (GreeterActionView::Exchange {
            message: message@,
        }),
        (GreeterAction::Leave { note, status })@ == (GreeterActionView::Leave {
            note: note@,
            status,
        }),
        GreeterAction::Nothing@ == GreeterActionView::Nothing,
{
}

} // verus!
