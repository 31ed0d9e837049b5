//! Messages can be told apart: no two of a kind are written alike, so that
//! whoever reads one knows which it is.

use vstd::prelude::*;
use vstd::string::*;
use vstd::utf8;

use crate::error::{ErrorView, IoErrorKind, IoErrorView};
use crate::frame;
use crate::ipc;
use crate::ipc::{AuthMessageType, ErrorType, RequestView, ResponseView};
use crate::json;
use crate::json_laws;
use crate::json_laws::Json;
use crate::session;
use crate::session::{SessionClass, WorkerRequestView, WorkerResponseView};
use crate::terminal::TerminalModeView;
use crate::text;

verus! {

/// Whether every character of a name stands for itself.
pub open spec fn plain(name: Seq<char>) -> bool {
    forall|i: int| 0 <= i < name.len() ==> name[i] as int >= 32 && name[i] != '"' && name[i] != '\\'
}

proof fn lemma_plain_escaped(name: Seq<char>)
    requires
        plain(name),
    ensures
        json::escaped(name) == name,
    decreases name.len(),
{
    if name.len() > 0 {
        lemma_plain_escaped(name.skip(1));
        assert(json::escape(name[0]) =~= seq![name[0]]);
        assert(name =~= seq![name[0]] + name.skip(1));
    } else {
        assert(json::escaped(name) =~= name);
    }
}

/// A name whose every character stands for itself is written as it is, between
/// quotation marks.
pub proof fn plain_name_is_written_plainly(name: Seq<char>)
    requires
        plain(name),
    ensures
        json::quoted(name) == json::string_text(name),
{
    reveal_strlit("\"");
    lemma_plain_escaped(name);
    assert(json::quoted(name) =~= json::string_text(name));
}

/// The strings as JSON value.
pub open spec fn texts(items: Seq<Seq<char>>) -> Json {
    Json::List(text_values(items))
}

/// The strings as JSON values.
pub open spec fn text_values(items: Seq<Seq<char>>) -> Seq<Json> {
    items.map_values(|item: Seq<char>| Json::Text(item))
}

/// A string as JSON value, or `null` in its absence.
pub open spec fn text_or_null(s: Option<Seq<char>>) -> Json {
    match s {
        Some(s) => Json::Text(s),
        None => Json::Null,
    }
}

spec fn rendered(items: Seq<Seq<char>>) -> Seq<Seq<char>> {
    items.map_values(|item: Seq<char>| json::string_text(item))
}

proof fn lemma_items(items: Seq<Seq<char>>, first: bool)
    ensures
        (if items.len() == 0 {
            Seq::<char>::empty()
        } else {
            json_laws::lead(first)
        }) + (text::joined(rendered(items), ","@) + "]"@) == json_laws::items_text(
            text_values(items),
            first,
        ),
    decreases items.len(),
{
    let nothing = Seq::<char>::empty();
    if items.len() == 0 {
        assert(nothing + (text::joined(rendered(items), ","@) + "]"@) =~= "]"@);
    } else {
        let rest = items.skip(1);
        lemma_items(rest, false);
        assert(rendered(items).skip(1) =~= rendered(rest));
        assert(text_values(items)[0] == Json::Text(items[0]));
        assert(Json::Text(items[0]).text() == json::string_text(items[0]));
        assert(text_values(items).subrange(1, items.len() as int) =~= text_values(rest));
        assert(text::joined(rendered(items), ","@) + "]"@ =~= json::string_text(items[0]) + ((
        if rest.len() == 0 {
            nothing
        } else {
            ","@
        }) + (text::joined(rendered(rest), ","@) + "]"@)));
    }
}

proof fn lemma_string_list(items: Seq<Seq<char>>)
    ensures
        json::string_list(items) == texts(items).text(),
{
    lemma_items(items, true);
    let nothing = Seq::<char>::empty();
    assert(rendered(items) =~= items.map_values(|item: Seq<char>| json::string_text(item)));
    assert(json::string_list(items) =~= "["@ + (nothing + (text::joined(rendered(items), ","@)
        + "]"@)));
}

spec fn written(members: Seq<(Seq<char>, Json)>) -> Seq<Seq<char>> {
    members.map_values(|m: (Seq<char>, Json)| json::member(m.0, m.1.text()))
}

proof fn lemma_members(members: Seq<(Seq<char>, Json)>, first: bool)
    requires
        forall|i: int| 0 <= i < members.len() ==> plain((#[trigger] members[i]).0),
    ensures
        (if members.len() == 0 {
            Seq::<char>::empty()
        } else {
            json_laws::lead(first)
        }) + (text::joined(written(members), ","@) + "}"@) == json_laws::members_text(
            members,
            first,
        ),
    decreases members.len(),
{
    let nothing = Seq::<char>::empty();
    if members.len() == 0 {
        assert(nothing + (text::joined(written(members), ","@) + "}"@) =~= "}"@);
    } else {
        let rest = members.skip(1);
        assert forall|i: int| 0 <= i < rest.len() implies plain((#[trigger] rest[i]).0) by {
            assert(rest[i] == members[i + 1]);
        }
        lemma_members(rest, false);
        plain_name_is_written_plainly(members[0].0);
        assert(written(members).skip(1) =~= written(rest));
        assert(members.subrange(1, members.len() as int) =~= rest);
        assert(text::joined(written(members), ","@) + "}"@ =~= json::string_text(members[0].0) + (
        ":"@ + (members[0].1.text() + ((if rest.len() == 0 {
            nothing
        } else {
            ","@
        }) + (text::joined(written(rest), ","@) + "}"@)))));
    }
}

proof fn lemma_object(members: Seq<(Seq<char>, Json)>)
    requires
        forall|i: int| 0 <= i < members.len() ==> plain((#[trigger] members[i]).0),
    ensures
        json::object(written(members)) == Json::Object(members).text(),
{
    lemma_members(members, true);
    let nothing = Seq::<char>::empty();
    assert(json::object(written(members)) =~= "{"@ + (nothing + (text::joined(
        written(members),
        ","@,
    ) + "}"@)));
}

/// Values that are written alike are alike.
proof fn lemma_same_text(a: Json, b: Json)
    requires
        a.text() == b.text(),
    ensures
        a == b,
{
    let nothing = Seq::<char>::empty();
    json_laws::values_read_back(a, b, nothing, nothing);
}

impl RequestView {
    /// The request as JSON value.
    pub open spec fn value(self) -> Json {
        match self {
            RequestView::CreateSession { username } => Json::Object(
                seq![
                    ("type"@, Json::Text("create_session"@)),
                    ("username"@, Json::Text(username)),
                ],
            ),
            RequestView::PostAuthMessageResponse { response } => Json::Object(
                seq![
                    ("type"@, Json::Text("post_auth_message_response"@)),
                    ("response"@, text_or_null(response)),
                ],
            ),
            RequestView::StartSession { cmd, env } => Json::Object(
                seq![
                    ("type"@, Json::Text("start_session"@)),
                    ("cmd"@, texts(cmd)),
                    ("env"@, texts(env)),
                ],
            ),
            RequestView::CancelSession => Json::Object(
                seq![("type"@, Json::Text("cancel_session"@))],
            ),
        }
    }
}

/// A request is written as the JSON value that it is.
pub proof fn request_is_written_as_its_value(request: RequestView)
    ensures
        request.json() == request.value().text(),
{
    reveal_strlit("type");
    reveal_strlit("create_session");
    reveal_strlit("username");
    reveal_strlit("post_auth_message_response");
    reveal_strlit("response");
    reveal_strlit("start_session");
    reveal_strlit("cmd");
    reveal_strlit("env");
    reveal_strlit("cancel_session");
    plain_name_is_written_plainly("create_session"@);
    plain_name_is_written_plainly("post_auth_message_response"@);
    plain_name_is_written_plainly("start_session"@);
    plain_name_is_written_plainly("cancel_session"@);
    let members = request.value()->Object_0;
    match request {
        RequestView::CreateSession { username } => {
            assert(written(members) =~= seq![
                ipc::type_member("create_session"@),
                json::member("username"@, json::string_text(username)),
            ]);
        },
        RequestView::PostAuthMessageResponse { response } => {
            assert(written(members) =~= seq![
                ipc::type_member("post_auth_message_response"@),
                json::member("response"@, json::optional_string(response)),
            ]);
        },
        RequestView::StartSession { cmd, env } => {
            lemma_string_list(cmd);
            lemma_string_list(env);
            assert(written(members) =~= seq![
                ipc::type_member("start_session"@),
                json::member("cmd"@, json::string_list(cmd)),
                json::member("env"@, json::string_list(env)),
            ]);
        },
        RequestView::CancelSession => {
            assert(written(members) =~= seq![ipc::type_member("cancel_session"@)]);
        },
    }
    lemma_object(members);
}

/// The strings that a list of strings as JSON value holds.
proof fn lemma_texts(a: Seq<Seq<char>>, b: Seq<Seq<char>>)
    requires
        texts(a) == texts(b),
    ensures
        a == b,
{
    assert(text_values(a).len() == a.len() && text_values(b).len() == b.len());
    assert forall|i: int| 0 <= i < a.len() implies a[i] == b[i] by {
        assert(text_values(a)[i] == Json::Text(a[i]));
        assert(text_values(b)[i] == Json::Text(b[i]));
    }
    assert(a =~= b);
}

/// No two requests are written alike.
pub proof fn requests_can_be_told_apart(a: RequestView, b: RequestView)
    requires
        a.json() == b.json(),
    ensures
        a == b,
{
    request_is_written_as_its_value(a);
    request_is_written_as_its_value(b);
    lemma_same_text(a.value(), b.value());
    reveal_strlit("create_session");
    reveal_strlit("post_auth_message_response");
    reveal_strlit("start_session");
    reveal_strlit("cancel_session");
    assert("create_session"@[1] == 'r');
    assert("cancel_session"@[1] == 'a');
    let one = a.value()->Object_0;
    let other = b.value()->Object_0;
    assert(one[0] == other[0] && one[1] == other[1] && one[2] == other[2]);
    match (a, b) {
        (
            RequestView::StartSession { cmd: c, env: e },
            RequestView::StartSession { cmd: d, env: f },
        ) => {
            lemma_texts(c, d);
            lemma_texts(e, f);
        },
        _ => {},
    }
}

impl ResponseView {
    /// The response as JSON value.
    pub open spec fn value(self) -> Json {
        match self {
            ResponseView::Success => Json::Object(seq![("type"@, Json::Text("success"@))]),
            ResponseView::Error { error_type, description } => Json::Object(
                seq![
                    ("type"@, Json::Text("error"@)),
                    ("error_type"@, Json::Text(error_type.wire_name())),
                    ("description"@, Json::Text(description)),
                ],
            ),
            ResponseView::AuthMessage { auth_message_type, auth_message } => Json::Object(
                seq![
                    ("type"@, Json::Text("auth_message"@)),
                    ("auth_message_type"@, Json::Text(auth_message_type.wire_name())),
                    ("auth_message"@, Json::Text(auth_message)),
                ],
            ),
        }
    }
}

proof fn lemma_error_types(a: ErrorType, b: ErrorType)
    ensures
        plain(a.wire_name()),
        a.wire_name() == b.wire_name() ==> a == b,
{
    reveal_strlit("error");
    reveal_strlit("auth_error");
    assert("error"@.len() == 5 && "auth_error"@.len() == 10);
}

proof fn lemma_auth_message_types(a: AuthMessageType, b: AuthMessageType)
    ensures
        plain(a.wire_name()),
        a.wire_name() == b.wire_name() ==> a == b,
{
    reveal_strlit("visible");
    reveal_strlit("secret");
    reveal_strlit("info");
    reveal_strlit("error");
    assert("visible"@.len() == 7 && "secret"@.len() == 6 && "info"@.len() == 4 && "error"@.len()
        == 5);
}

/// A response is written as the JSON value that it is.
pub proof fn response_is_written_as_its_value(response: ResponseView)
    ensures
        response.json() == response.value().text(),
{
    reveal_strlit("type");
    reveal_strlit("success");
    reveal_strlit("error");
    reveal_strlit("error_type");
    reveal_strlit("description");
    reveal_strlit("auth_message");
    reveal_strlit("auth_message_type");
    plain_name_is_written_plainly("success"@);
    plain_name_is_written_plainly("error"@);
    plain_name_is_written_plainly("auth_message"@);
    let members = response.value()->Object_0;
    match response {
        ResponseView::Success => {
            assert(written(members) =~= seq![ipc::type_member("success"@)]);
        },
        ResponseView::Error { error_type, description } => {
            lemma_error_types(error_type, error_type);
            plain_name_is_written_plainly(error_type.wire_name());
            assert(written(members) =~= seq![
                ipc::type_member("error"@),
                json::member("error_type"@, json::quoted(error_type.wire_name())),
                json::member("description"@, json::string_text(description)),
            ]);
        },
        ResponseView::AuthMessage { auth_message_type, auth_message } => {
            lemma_auth_message_types(auth_message_type, auth_message_type);
            plain_name_is_written_plainly(auth_message_type.wire_name());
            assert(written(members) =~= seq![
                ipc::type_member("auth_message"@),
                json::member("auth_message_type"@, json::quoted(auth_message_type.wire_name())),
                json::member("auth_message"@, json::string_text(auth_message)),
            ]);
        },
    }
    lemma_object(members);
}

/// No two responses are written alike.
pub proof fn responses_can_be_told_apart(a: ResponseView, b: ResponseView)
    requires
        a.json() == b.json(),
    ensures
        a == b,
{
    response_is_written_as_its_value(a);
    response_is_written_as_its_value(b);
    lemma_same_text(a.value(), b.value());
    reveal_strlit("success");
    reveal_strlit("error");
    reveal_strlit("auth_message");
    let one = a.value()->Object_0;
    let other = b.value()->Object_0;
    assert(one[0] == other[0] && one[1] == other[1] && one[2] == other[2]);
    match (a, b) {
        (
            ResponseView::Error { error_type: e, .. },
            ResponseView::Error { error_type: f, .. },
        ) => {
            lemma_error_types(e, f);
        },
        (
            ResponseView::AuthMessage { auth_message_type: e, .. },
            ResponseView::AuthMessage { auth_message_type: f, .. },
        ) => {
            lemma_auth_message_types(e, f);
        },
        _ => {},
    }
}

/// Whoever reads a written response off a stream finds its JSON text in the
/// frame, which is the text of no other response, and is left with what follows
/// the frame. This holds of every response whose text fits a frame.
pub proof fn written_response_reads_back(response: ResponseView, rest: Seq<u8>)
    requires
        utf8::encode_utf8(response.json()).len() <= u32::MAX,
    ensures
        ({
            let payload = utf8::encode_utf8(response.json());
            &&& frame::arrival(frame::framed(payload) + rest) == (frame::Arrival::Frame {
                payload,
                rest,
            })
            &&& forall|other: ResponseView|
                utf8::decode_utf8(payload) == #[trigger] other.json() <==> other == response
        }),
{
    let payload = utf8::encode_utf8(response.json());
    frame::frame_round_trip(payload, rest);
    utf8::encode_utf8_decode_utf8(response.json());
    assert forall|other: ResponseView|
        utf8::decode_utf8(payload) == #[trigger] other.json() implies other == response by {
        responses_can_be_told_apart(response, other);
    }
}

/// Whoever reads a framed request off a stream finds its JSON text in the
/// frame, which is the text of no other request, and is left with what follows
/// the frame. This holds of every request whose text fits a frame.
pub proof fn framed_request_reads_back(request: RequestView, rest: Seq<u8>)
    requires
        utf8::encode_utf8(request.json()).len() <= u32::MAX,
    ensures
        ({
            let payload = utf8::encode_utf8(request.json());
            &&& frame::arrival(frame::framed(payload) + rest) == (frame::Arrival::Frame {
                payload,
                rest,
            })
            &&& forall|other: RequestView|
                utf8::decode_utf8(payload) == #[trigger] other.json() <==> other == request
        }),
{
    let payload = utf8::encode_utf8(request.json());
    frame::frame_round_trip(payload, rest);
    utf8::encode_utf8_decode_utf8(request.json());
    assert forall|other: RequestView|
        utf8::decode_utf8(payload) == #[trigger] other.json() implies other == request by {
        requests_can_be_told_apart(request, other);
    }
}

impl TerminalModeView {
    /// The terminal as JSON value.
    pub open spec fn value(self) -> Json {
        match self {
            TerminalModeView::Vt { path, vt, switch } => Json::Object(
                seq![
                    (
                        "Vt"@,
                        Json::Object(
                            seq![
                                ("path"@, Json::Text(path)),
                                ("vt"@, Json::Number(vt as nat)),
                                ("switch"@, Json::Flag(switch)),
                            ],
                        ),
                    ),
                ],
            ),
            TerminalModeView::Stdin => Json::Text("Stdin"@),
        }
    }
}

/// A terminal is written as the JSON value that it is.
pub proof fn terminal_is_written_as_its_value(mode: TerminalModeView)
    ensures
        mode.json() == mode.value().text(),
{
    reveal_strlit("Vt");
    reveal_strlit("path");
    reveal_strlit("vt");
    reveal_strlit("switch");
    reveal_strlit("Stdin");
    match mode {
        TerminalModeView::Vt { path, vt, switch } => {
            let outer = mode.value()->Object_0;
            let inner = outer[0].1->Object_0;
            assert(written(inner) =~= seq![
                json::member("path"@, json::string_text(path)),
                json::member("vt"@, text::decimal(vt as nat)),
                json::member("switch"@, json::boolean(switch)),
            ]);
            lemma_object(inner);
            assert(written(outer) =~= seq![json::member("Vt"@, json::object(written(inner)))]);
            lemma_object(outer);
        },
        TerminalModeView::Stdin => {
            plain_name_is_written_plainly("Stdin"@);
        },
    }
}

proof fn lemma_terminal_values(a: TerminalModeView, b: TerminalModeView)
    requires
        a.value() == b.value(),
    ensures
        a == b,
{
    match (a, b) {
        (TerminalModeView::Vt { .. }, TerminalModeView::Vt { .. }) => {
            let one = (a.value()->Object_0)[0].1->Object_0;
            let other = (b.value()->Object_0)[0].1->Object_0;
            assert(one[0] == other[0] && one[1] == other[1] && one[2] == other[2]);
        },
        _ => {},
    }
}

impl WorkerRequestView {
    /// The members of what an `Initiate` holds.
    pub open spec fn initiate_members(self) -> Seq<(Seq<char>, Json)> {
        match self {
            WorkerRequestView::Initiate {
                service,
                class,
                user,
                authenticate,
                tty,
                source_profile,
                greetd_sock,
            } => seq![
                ("service"@, Json::Text(service)),
                ("class"@, Json::Text(class.wire_name())),
                ("user"@, Json::Text(user)),
                ("authenticate"@, Json::Flag(authenticate)),
                ("tty"@, tty.value()),
                ("source_profile"@, Json::Flag(source_profile)),
                ("greetd_sock"@, Json::Text(greetd_sock)),
            ],
            _ => Seq::empty(),
        }
    }

    /// The message as JSON value.
    pub open spec fn value(self) -> Json {
        match self {
            WorkerRequestView::Initiate { .. } => Json::Object(
                seq![("Initiate"@, Json::Object(self.initiate_members()))],
            ),
            WorkerRequestView::AuthResponse(response) => Json::Object(
                seq![("AuthResponse"@, text_or_null(response))],
            ),
            WorkerRequestView::Start { cmd, env } => Json::Object(
                seq![("Start"@, Json::Object(seq![("cmd"@, texts(cmd)), ("env"@, texts(env))]))],
            ),
            WorkerRequestView::Cancel => Json::Text("Cancel"@),
        }
    }
}

proof fn lemma_classes(a: SessionClass, b: SessionClass)
    ensures
        plain(a.wire_name()),
        a.wire_name() == b.wire_name() ==> a == b,
{
    reveal_strlit("Greeter");
    reveal_strlit("User");
    assert("Greeter"@.len() == 7 && "User"@.len() == 4);
}

proof fn lemma_single(key: Seq<char>, value: Json)
    requires
        plain(key),
    ensures
        json::object(seq![json::member(key, value.text())]) == Json::Object(
            seq![(key, value)],
        ).text(),
{
    let members = seq![(key, value)];
    assert(written(members) =~= seq![json::member(key, value.text())]);
    lemma_object(members);
}

proof fn lemma_initiate(request: WorkerRequestView)
    requires
        request is Initiate,
    ensures
        request.json() == request.value().text(),
{
    reveal_strlit("Initiate");
    reveal_strlit("service");
    reveal_strlit("class");
    reveal_strlit("user");
    reveal_strlit("authenticate");
    reveal_strlit("tty");
    reveal_strlit("source_profile");
    reveal_strlit("greetd_sock");
    if let WorkerRequestView::Initiate {
        service,
        class,
        user,
        authenticate,
        tty,
        source_profile,
        greetd_sock,
    } = request {
        lemma_classes(class, class);
        plain_name_is_written_plainly(class.wire_name());
        terminal_is_written_as_its_value(tty);
        let members = request.initiate_members();
        assert(written(members) =~= seq![
            json::member("service"@, json::string_text(service)),
            json::member("class"@, json::quoted(class.wire_name())),
            json::member("user"@, json::string_text(user)),
            json::member("authenticate"@, json::boolean(authenticate)),
            json::member("tty"@, tty.json()),
            json::member("source_profile"@, json::boolean(source_profile)),
            json::member("greetd_sock"@, json::string_text(greetd_sock)),
        ]);
        lemma_object(members);
        lemma_single("Initiate"@, Json::Object(members));
    }
}

/// A message to a worker is written as the JSON value that it is.
pub proof fn worker_request_is_written_as_its_value(request: WorkerRequestView)
    ensures
        request.json() == request.value().text(),
{
    reveal_strlit("AuthResponse");
    reveal_strlit("Start");
    reveal_strlit("cmd");
    reveal_strlit("env");
    reveal_strlit("Cancel");
    match request {
        WorkerRequestView::Initiate { .. } => {
            lemma_initiate(request);
        },
        WorkerRequestView::AuthResponse(response) => {
            assert(text_or_null(response).text() == json::optional_string(response));
            lemma_single("AuthResponse"@, text_or_null(response));
        },
        WorkerRequestView::Start { cmd, env } => {
            lemma_string_list(cmd);
            lemma_string_list(env);
            let members = seq![("cmd"@, texts(cmd)), ("env"@, texts(env))];
            assert(written(members) =~= seq![
                json::member("cmd"@, json::string_list(cmd)),
                json::member("env"@, json::string_list(env)),
            ]);
            lemma_object(members);
            lemma_single("Start"@, Json::Object(members));
        },
        WorkerRequestView::Cancel => {
            plain_name_is_written_plainly("Cancel"@);
        },
    }
}

/// No two messages to a worker are written alike.
pub proof fn worker_requests_can_be_told_apart(a: WorkerRequestView, b: WorkerRequestView)
    requires
        a.json() == b.json(),
    ensures
        a == b,
{
    worker_request_is_written_as_its_value(a);
    worker_request_is_written_as_its_value(b);
    lemma_same_text(a.value(), b.value());
    reveal_strlit("Initiate");
    reveal_strlit("AuthResponse");
    reveal_strlit("Start");
    assert((a.value()->Object_0)[0] == (b.value()->Object_0)[0]);
    match (a, b) {
        (
            WorkerRequestView::Initiate { class: c, tty: t, .. },
            WorkerRequestView::Initiate { class: d, tty: u, .. },
        ) => {
            let one = a.initiate_members();
            let other = b.initiate_members();
            assert(one == other);
            assert(one[0] == other[0] && one[1] == other[1] && one[2] == other[2] && one[3]
                == other[3] && one[4] == other[4] && one[5] == other[5] && one[6] == other[6]);
            lemma_classes(c, d);
            lemma_terminal_values(t, u);
        },
        (
            WorkerRequestView::Start { cmd: c, env: e },
            WorkerRequestView::Start { cmd: d, env: f },
        ) => {
            let one = (a.value()->Object_0)[0].1->Object_0;
            let other = (b.value()->Object_0)[0].1->Object_0;
            assert(one[0] == other[0] && one[1] == other[1]);
            lemma_texts(c, d);
            lemma_texts(e, f);
        },
        _ => {},
    }
}

impl WorkerResponseView {
    /// The message as JSON value.
    pub open spec fn value(self) -> Json {
        match self {
            WorkerResponseView::AuthPrompt { prompt, echo } => Json::Object(
                seq![
                    (
                        "AuthPrompt"@,
                        Json::Object(
                            seq![("prompt"@, Json::Text(prompt)), ("echo"@, Json::Flag(echo))],
                        ),
                    ),
                ],
            ),
            WorkerResponseView::Ready => Json::Text("Ready"@),
            WorkerResponseView::Started { pid } => Json::Object(
                seq![("Started"@, Json::Object(seq![("pid"@, Json::Number(pid as nat))]))],
            ),
            WorkerResponseView::Error(why) => Json::Object(seq![("Error"@, Json::Text(why))]),
        }
    }
}

/// A message from a worker is written as the JSON value that it is.
pub proof fn worker_response_is_written_as_its_value(response: WorkerResponseView)
    ensures
        response.json() == response.value().text(),
{
    reveal_strlit("AuthPrompt");
    reveal_strlit("prompt");
    reveal_strlit("echo");
    reveal_strlit("Ready");
    reveal_strlit("Started");
    reveal_strlit("pid");
    reveal_strlit("Error");
    match response {
        WorkerResponseView::AuthPrompt { prompt, echo } => {
            let members = seq![("prompt"@, Json::Text(prompt)), ("echo"@, Json::Flag(echo))];
            assert(written(members) =~= seq![
                json::member("prompt"@, json::string_text(prompt)),
                json::member("echo"@, json::boolean(echo)),
            ]);
            lemma_object(members);
            lemma_single("AuthPrompt"@, Json::Object(members));
        },
        WorkerResponseView::Ready => {
            plain_name_is_written_plainly("Ready"@);
        },
        WorkerResponseView::Started { pid } => {
            assert(Json::Number(pid as nat).text() == text::decimal(pid as nat));
            lemma_single("pid"@, Json::Number(pid as nat));
            lemma_single("Started"@, Json::Object(seq![("pid"@, Json::Number(pid as nat))]));
        },
        WorkerResponseView::Error(why) => {
            assert(Json::Text(why).text() == json::string_text(why));
            lemma_single("Error"@, Json::Text(why));
        },
    }
}

/// No two messages from a worker are written alike.
pub proof fn worker_responses_can_be_told_apart(a: WorkerResponseView, b: WorkerResponseView)
    requires
        a.json() == b.json(),
    ensures
        a == b,
{
    worker_response_is_written_as_its_value(a);
    worker_response_is_written_as_its_value(b);
    lemma_same_text(a.value(), b.value());
    reveal_strlit("AuthPrompt");
    reveal_strlit("Started");
    reveal_strlit("Error");
    let one = (a.value()->Object_0)[0];
    let other = (b.value()->Object_0)[0];
    assert(one == other);
    assert((one.1->Object_0)[0] == (other.1->Object_0)[0]);
    assert((one.1->Object_0)[1] == (other.1->Object_0)[1]);
}

/// A text whose bytes are the start of another text's bytes is the start of
/// that text.
proof fn lemma_utf8_start(a: Seq<char>, b: Seq<char>, rest: Seq<u8>)
    requires
        utf8::encode_utf8(a) + rest == utf8::encode_utf8(b),
    ensures
        a.len() <= b.len(),
        a == b.take(a.len() as int),
    decreases a.len(),
{
    if a.len() > 0 {
        let bytes_a = utf8::encode_utf8(a);
        let bytes_b = utf8::encode_utf8(b);
        utf8::encode_utf8_first_scalar(a);
        if b.len() == 0 {
            assert(bytes_b.len() == 0);
            assert((bytes_a + rest).len() > 0);
        }
        utf8::encode_utf8_first_scalar(b);
        assert forall|i: int| 0 <= i < bytes_a.len() implies bytes_a[i] == bytes_b[i] by {
            assert((bytes_a + rest)[i] == bytes_a[i]);
        }
        assert(utf8::decode_first_scalar(bytes_a) == utf8::decode_first_scalar(bytes_b));
        assert(a[0] as u32 == b[0] as u32);
        utf8::char_u32_cast(a[0], a[0] as u32);
        utf8::char_u32_cast(b[0], a[0] as u32);
        let n = utf8::encode_scalar(a[0] as u32).len() as int;
        let more_a = utf8::encode_utf8(a.drop_first());
        let more_b = utf8::encode_utf8(b.drop_first());
        assert(more_a + rest =~= (bytes_a + rest).skip(n));
        assert(more_b =~= bytes_b.skip(n));
        lemma_utf8_start(a.drop_first(), b.drop_first(), rest);
        assert(a =~= seq![a[0]] + a.drop_first());
        assert(b =~= seq![b[0]] + b.drop_first());
    }
    assert(a =~= b.take(a.len() as int));
}

/// What arrives of a message that is too long is no JSON value's text, let
/// alone a message's.
proof fn lemma_cut_message(message: Json, other: Json)
    requires
        !(message is Number),
        utf8::encode_utf8(message.text()).len() > session::MESSAGE_LIMIT,
    ensures
        utf8::encode_utf8(other.text()) != session::delivered(
            utf8::encode_utf8(message.text()),
        ),
{
    let sent = utf8::encode_utf8(message.text());
    let limit = session::MESSAGE_LIMIT as int;
    if utf8::encode_utf8(other.text()) == session::delivered(sent) {
        let rest = sent.skip(limit);
        assert(sent.take(limit) + rest =~= sent);
        lemma_utf8_start(other.text(), message.text(), rest);
        let cut = message.text().skip(other.text().len() as int);
        assert(other.text() + cut =~= message.text());
        json_laws::cut_text_is_no_value(other, message, cut);
    }
}

/// A message to a worker arrives whole where its text fits the receiver's
/// buffer: whoever knows the texts of messages reads the message that was sent.
/// Where the text does not fit, what arrives is the text of no JSON value.
pub proof fn worker_request_arrives_whole_or_is_refused(
    request: WorkerRequestView,
    parse: spec_fn(Seq<u8>) -> Result<WorkerRequestView, Seq<char>>,
)
    requires
        parse(utf8::encode_utf8(request.json())) == Ok::<WorkerRequestView, Seq<char>>(request),
    ensures
        ({
            let sent = utf8::encode_utf8(request.json());
            let arrived = session::delivered(sent);
            if sent.len() <= 8192 {
                &&& parse(arrived) == Ok::<WorkerRequestView, Seq<char>>(request)
                &&& forall|other: WorkerRequestView|
                    utf8::decode_utf8(arrived) == #[trigger] other.json() <==> other == request
            } else {
                &&& arrived == sent.take(8192)
                &&& forall|value: Json| utf8::encode_utf8(#[trigger] value.text()) != arrived
            }
        }),
{
    let sent = utf8::encode_utf8(request.json());
    worker_request_is_written_as_its_value(request);
    if sent.len() <= 8192 {
        utf8::encode_utf8_decode_utf8(request.json());
        assert forall|other: WorkerRequestView|
            utf8::decode_utf8(sent) == #[trigger] other.json() implies other == request by {
            worker_requests_can_be_told_apart(request, other);
        }
    } else {
        assert forall|value: Json|
            utf8::encode_utf8(#[trigger] value.text()) != session::delivered(sent) by {
            lemma_cut_message(request.value(), value);
        }
    }
}

/// A message from a worker arrives whole where its text fits the receiver's
/// buffer: whoever knows the texts of messages reads the message that was sent.
/// Where the text does not fit, what arrives is the text of no JSON value.
pub proof fn worker_response_arrives_whole_or_is_refused(
    response: WorkerResponseView,
    parse: spec_fn(Seq<u8>) -> Result<WorkerResponseView, Seq<char>>,
)
    requires
        parse(utf8::encode_utf8(response.json())) == Ok::<WorkerResponseView, Seq<char>>(response),
    ensures
        ({
            let sent = utf8::encode_utf8(response.json());
            let arrived = session::delivered(sent);
            if sent.len() <= 8192 {
                &&& parse(arrived) == Ok::<WorkerResponseView, Seq<char>>(response)
                &&& forall|other: WorkerResponseView|
                    utf8::decode_utf8(arrived) == #[trigger] other.json() <==> other == response
            } else {
                &&& arrived == sent.take(8192)
                &&& forall|value: Json| utf8::encode_utf8(#[trigger] value.text()) != arrived
            }
        }),
{
    let sent = utf8::encode_utf8(response.json());
    worker_response_is_written_as_its_value(response);
    if sent.len() <= 8192 {
        utf8::encode_utf8_decode_utf8(response.json());
        assert forall|other: WorkerResponseView|
            utf8::decode_utf8(sent) == #[trigger] other.json() implies other == response by {
            worker_responses_can_be_told_apart(response, other);
        }
    } else {
        assert forall|value: Json|
            utf8::encode_utf8(#[trigger] value.text()) != session::delivered(sent) by {
            lemma_cut_message(response.value(), value);
        }
    }
}

/// One read off a greeter's stream: a header, then as many bytes as it
/// announces, which `parse` turns into a request. `end` is the failure that
/// comes where the stream ends too soon. What is left is what follows.
pub open spec fn read_request(
    stream: Seq<u8>,
    parse: spec_fn(Seq<u8>) -> Result<RequestView, Seq<char>>,
    end: IoErrorView,
) -> Result<Option<(RequestView, Seq<u8>)>, ErrorView> {
    let header = if stream.len() < 4 {
        Err(end)
    } else {
        Ok(stream.take(4))
    };
    match ipc::announced_length(header) {
        Ok(Some(len)) => {
            let rest = stream.skip(4);
            let payload = if rest.len() < len {
                Err(end)
            } else {
                Ok(parse(rest.take(len as int)))
            };
            match ipc::received_request(payload) {
                Ok(request) => Ok(Some((request, rest.skip(len as int)))),
                Err(error) => Err(error),
            }
        },
        Ok(None) => Ok(None),
        Err(error) => Err(error),
    }
}

/// Requests that were framed one after the other are read one per read and in
/// order: a read gives the first one and leaves exactly what follows its frame.
/// This holds of every request whose text fits a frame, with any parser that
/// makes of the request's text the request. At the end of the stream a read
/// finds that the greeter has hung up.
pub proof fn framed_request_is_read(
    request: RequestView,
    rest: Seq<u8>,
    parse: spec_fn(Seq<u8>) -> Result<RequestView, Seq<char>>,
    end: IoErrorView,
)
    requires
        utf8::encode_utf8(request.json()).len() <= u32::MAX,
        parse(utf8::encode_utf8(request.json())) == Ok::<RequestView, Seq<char>>(request),
        end.kind == IoErrorKind::UnexpectedEof,
    ensures
        read_request(frame::framed(utf8::encode_utf8(request.json())) + rest, parse, end) == Ok::<
            Option<(RequestView, Seq<u8>)>,
            ErrorView,
        >(Some((request, rest))),
        read_request(Seq::empty(), parse, end) == Ok::<
            Option<(RequestView, Seq<u8>)>,
            ErrorView,
        >(None),
{
    let payload = utf8::encode_utf8(request.json());
    let stream = frame::framed(payload) + rest;
    frame::header_round_trip(frame::announced(payload.len()));
    assert(stream.take(4) =~= frame::native_bytes(frame::announced(payload.len())));
    assert(stream.skip(4) =~= payload + rest);
    assert(stream.skip(4).take(payload.len() as int) =~= payload);
    assert(stream.skip(4).skip(payload.len() as int) =~= rest);
}

} // verus!
