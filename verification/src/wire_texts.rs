//! The texts of messages, letter by letter.

use vstd::prelude::*;
use vstd::string::*;
use vstd::utf8;

use crate::frame;
use crate::ipc;
use crate::ipc::{AuthMessageType, ErrorType, RequestView, ResponseView};
use crate::json;
use crate::session::{SessionClass, WorkerRequestView, WorkerResponseView};
use crate::terminal::TerminalModeView;
use crate::text;

verus! {

proof fn lemma_object_of_1(a: Seq<char>)
    ensures
        json::object(seq![a]) == "{"@ + a + "}"@,
{
    let members = seq![a];
    reveal_with_fuel(text::joined, 2);
    assert(json::object(members) =~= "{"@ + a + "}"@);
}

proof fn lemma_object_of_2(a: Seq<char>, b: Seq<char>)
    ensures
        json::object(seq![a, b]) == "{"@ + a + ","@ + b + "}"@,
{
    let members = seq![a, b];
    reveal_with_fuel(text::joined, 3);
    assert(members.skip(1) =~= seq![b]);
    assert(json::object(members) =~= "{"@ + a + ","@ + b + "}"@);
}

proof fn lemma_object_of_3(a: Seq<char>, b: Seq<char>, c: Seq<char>)
    ensures
        json::object(seq![a, b, c]) == "{"@ + a + ","@ + b + ","@ + c + "}"@,
{
    let members = seq![a, b, c];
    reveal_with_fuel(text::joined, 4);
    assert(members.skip(1) =~= seq![b, c]);
    assert(members.skip(1).skip(1) =~= seq![c]);
    assert(json::object(members) =~= "{"@ + a + ","@ + b + ","@ + c + "}"@);
}

/// The rest of an object, from a comma on.
#[verifier::opaque]
spec fn rest_of(members: Seq<Seq<char>>, end: Seq<char>) -> Seq<char> {
    ","@ + text::joined(members, ","@) + end
}

proof fn lemma_last(lead: Seq<char>, key: Seq<char>, value: Seq<char>, end: Seq<char>)
    requires
        lead == ","@ + json::quoted(key) + ":"@,
    ensures
        rest_of(seq![json::member(key, value)], end) == lead + (value + end),
{
    reveal(rest_of);
    assert(rest_of(seq![json::member(key, value)], end) =~= lead + (value + end));
}

proof fn lemma_next(
    lead: Seq<char>,
    key: Seq<char>,
    value: Seq<char>,
    members: Seq<Seq<char>>,
    end: Seq<char>,
)
    requires
        lead == ","@ + json::quoted(key) + ":"@,
        members.len() > 0,
    ensures
        rest_of(seq![json::member(key, value)] + members, end) == lead + (value + rest_of(
            members,
            end,
        )),
{
    reveal(rest_of);
    let all = seq![json::member(key, value)] + members;
    assert(all.skip(1) =~= members);
    assert(text::joined(all, ","@) == json::member(key, value) + ","@ + text::joined(
        members,
        ","@,
    ));
    assert(rest_of(all, end) =~= lead + (value + rest_of(members, end)));
}

proof fn lemma_create(username: Seq<char>)
    ensures
        (RequestView::CreateSession { username }).json()
            == "{\"type\":\"create_session\",\"username\":"@ + json::string_text(username) + "}"@,
{
    reveal_strlit("{\"type\":\"create_session\",\"username\":");
    reveal_strlit("{");
    reveal_strlit("\"");
    reveal_strlit("type");
    reveal_strlit(":");
    reveal_strlit("create_session");
    reveal_strlit(",");
    reveal_strlit("username");
    reveal_strlit("}");
    lemma_object_of_2(ipc::type_member("create_session"@), json::member("username"@,
        json::string_text(username)));
    assert("{\"type\":\"create_session\",\"username\":"@ =~= "{"@ + "\""@ + "type"@ + "\""@ + ":"@
        + "\""@ + "create_session"@ + "\""@ + ","@ + "\""@ + "username"@ + "\""@ + ":"@);
    assert((RequestView::CreateSession { username }).json()
        =~= "{\"type\":\"create_session\",\"username\":"@ + json::string_text(username) + "}"@);
}

proof fn lemma_answer(response: Seq<char>)
    ensures
        (RequestView::PostAuthMessageResponse { response: Some(response) }).json()
            == "{\"type\":\"post_auth_message_response\",\"response\":"@
            + json::string_text(response) + "}"@,
{
    reveal_strlit("{\"type\":\"post_auth_message_response\",\"response\":");
    reveal_strlit("{");
    reveal_strlit("\"");
    reveal_strlit("type");
    reveal_strlit(":");
    reveal_strlit("post_auth_message_response");
    reveal_strlit(",");
    reveal_strlit("response");
    reveal_strlit("}");
    lemma_object_of_2(ipc::type_member("post_auth_message_response"@), json::member("response"@,
        json::string_text(response)));
    assert("{\"type\":\"post_auth_message_response\",\"response\":"@ =~= "{"@ + "\""@ + "type"@
        + "\""@ + ":"@ + "\""@ + "post_auth_message_response"@ + "\""@ + ","@ + "\""@ + "response"@
        + "\""@ + ":"@);
    assert((RequestView::PostAuthMessageResponse { response: Some(response) }).json()
        =~= "{\"type\":\"post_auth_message_response\",\"response\":"@ + json::string_text(response)
        + "}"@);
}

proof fn lemma_no_answer()
    ensures
        (RequestView::PostAuthMessageResponse { response: None }).json()
            == "{\"type\":\"post_auth_message_response\",\"response\":null}"@,
{
    reveal_strlit("{\"type\":\"post_auth_message_response\",\"response\":null}");
    reveal_strlit("{");
    reveal_strlit("\"");
    reveal_strlit("type");
    reveal_strlit(":");
    reveal_strlit("post_auth_message_response");
    reveal_strlit(",");
    reveal_strlit("response");
    reveal_strlit("null");
    reveal_strlit("}");
    lemma_object_of_2(ipc::type_member("post_auth_message_response"@), json::member("response"@,
        "null"@));
    assert("{\"type\":\"post_auth_message_response\",\"response\":null}"@ =~= "{"@ + "\""@ + "type"@
        + "\""@ + ":"@ + "\""@ + "post_auth_message_response"@ + "\""@ + ","@ + "\""@ + "response"@
        + "\""@ + ":"@ + "null"@ + "}"@);
    assert((RequestView::PostAuthMessageResponse { response: None }).json()
        =~= "{\"type\":\"post_auth_message_response\",\"response\":null}"@);
}

proof fn lemma_start(cmd: Seq<Seq<char>>, env: Seq<Seq<char>>)
    ensures
        (RequestView::StartSession { cmd, env }).json() == "{\"type\":\"start_session\",\"cmd\":"@
            + json::string_list(cmd) + ",\"env\":"@ + json::string_list(env) + "}"@,
{
    reveal_strlit("{\"type\":\"start_session\",\"cmd\":");
    reveal_strlit("{");
    reveal_strlit("\"");
    reveal_strlit("type");
    reveal_strlit(":");
    reveal_strlit("start_session");
    reveal_strlit(",");
    reveal_strlit("cmd");
    reveal_strlit(",\"env\":");
    reveal_strlit("env");
    reveal_strlit("}");
    lemma_object_of_3(ipc::type_member("start_session"@), json::member("cmd"@,
        json::string_list(cmd)), json::member("env"@, json::string_list(env)));
    assert("{\"type\":\"start_session\",\"cmd\":"@ =~= "{"@ + "\""@ + "type"@ + "\""@ + ":"@ + "\""@
        + "start_session"@ + "\""@ + ","@ + "\""@ + "cmd"@ + "\""@ + ":"@);
    assert(",\"env\":"@ =~= ","@ + "\""@ + "env"@ + "\""@ + ":"@);
    assert((RequestView::StartSession { cmd, env }).json()
        =~= "{\"type\":\"start_session\",\"cmd\":"@ + json::string_list(cmd) + ",\"env\":"@
        + json::string_list(env) + "}"@);
}

proof fn lemma_cancel()
    ensures
        RequestView::CancelSession.json() == "{\"type\":\"cancel_session\"}"@,
{
    reveal_strlit("{\"type\":\"cancel_session\"}");
    reveal_strlit("{");
    reveal_strlit("\"");
    reveal_strlit("type");
    reveal_strlit(":");
    reveal_strlit("cancel_session");
    reveal_strlit("}");
    lemma_object_of_1(ipc::type_member("cancel_session"@));
    assert("{\"type\":\"cancel_session\"}"@ =~= "{"@ + "\""@ + "type"@ + "\""@ + ":"@ + "\""@
        + "cancel_session"@ + "\""@ + "}"@);
    assert(RequestView::CancelSession.json() =~= "{\"type\":\"cancel_session\"}"@);
}

proof fn lemma_success()
    ensures
        ResponseView::Success.json() == "{\"type\":\"success\"}"@,
{
    reveal_strlit("{\"type\":\"success\"}");
    reveal_strlit("{");
    reveal_strlit("\"");
    reveal_strlit("type");
    reveal_strlit(":");
    reveal_strlit("success");
    reveal_strlit("}");
    lemma_object_of_1(ipc::type_member("success"@));
    assert("{\"type\":\"success\"}"@ =~= "{"@ + "\""@ + "type"@ + "\""@ + ":"@ + "\""@ + "success"@
        + "\""@ + "}"@);
    assert(ResponseView::Success.json() =~= "{\"type\":\"success\"}"@);
}

proof fn lemma_general_failure(description: Seq<char>)
    ensures
        (ResponseView::Error { error_type: ErrorType::Error, description }).json()
            == "{\"type\":\"error\",\"error_type\":\"error\",\"description\":"@
            + json::string_text(description) + "}"@,
{
    reveal_strlit("{\"type\":\"error\",\"error_type\":\"error\",\"description\":");
    reveal_strlit("{");
    reveal_strlit("\"");
    reveal_strlit("type");
    reveal_strlit(":");
    reveal_strlit("error");
    reveal_strlit(",");
    reveal_strlit("error_type");
    reveal_strlit("description");
    reveal_strlit("}");
    lemma_object_of_3(ipc::type_member("error"@), json::member("error_type"@,
        json::quoted("error"@)), json::member("description"@, json::string_text(description)));
    assert("{\"type\":\"error\",\"error_type\":\"error\",\"description\":"@ =~= "{"@ + "\""@
        + "type"@ + "\""@ + ":"@ + "\""@ + "error"@ + "\""@ + ","@ + "\""@ + "error_type"@ + "\""@
        + ":"@ + "\""@ + "error"@ + "\""@ + ","@ + "\""@ + "description"@ + "\""@ + ":"@);
    assert((ResponseView::Error { error_type: ErrorType::Error, description }).json()
        =~= "{\"type\":\"error\",\"error_type\":\"error\",\"description\":"@
        + json::string_text(description) + "}"@);
}

proof fn lemma_refusal(description: Seq<char>)
    ensures
        (ResponseView::Error { error_type: ErrorType::AuthError, description }).json()
            == "{\"type\":\"error\",\"error_type\":\"auth_error\",\"description\":"@
            + json::string_text(description) + "}"@,
{
    reveal_strlit("{\"type\":\"error\",\"error_type\":\"auth_error\",\"description\":");
    reveal_strlit("{");
    reveal_strlit("\"");
    reveal_strlit("type");
    reveal_strlit(":");
    reveal_strlit("error");
    reveal_strlit(",");
    reveal_strlit("error_type");
    reveal_strlit("auth_error");
    reveal_strlit("description");
    reveal_strlit("}");
    lemma_object_of_3(ipc::type_member("error"@), json::member("error_type"@,
        json::quoted("auth_error"@)), json::member("description"@, json::string_text(description)));
    assert("{\"type\":\"error\",\"error_type\":\"auth_error\",\"description\":"@ =~= "{"@ + "\""@
        + "type"@ + "\""@ + ":"@ + "\""@ + "error"@ + "\""@ + ","@ + "\""@ + "error_type"@ + "\""@
        + ":"@ + "\""@ + "auth_error"@ + "\""@ + ","@ + "\""@ + "description"@ + "\""@ + ":"@);
    assert((ResponseView::Error { error_type: ErrorType::AuthError, description }).json()
        =~= "{\"type\":\"error\",\"error_type\":\"auth_error\",\"description\":"@
        + json::string_text(description) + "}"@);
}

proof fn lemma_visible_message(auth_message: Seq<char>)
    ensures
        (ResponseView::AuthMessage { auth_message_type: AuthMessageType::Visible,
            auth_message }).json()
            == "{\"type\":\"auth_message\",\"auth_message_type\":\"visible\",\"auth_message\":"@
            + json::string_text(auth_message) + "}"@,
{
    reveal_strlit("{\"type\":\"auth_message\",\"auth_message_type\":\"visible\",\"auth_message\":");
    reveal_strlit("{");
    reveal_strlit("\"");
    reveal_strlit("type");
    reveal_strlit(":");
    reveal_strlit("auth_message");
    reveal_strlit(",");
    reveal_strlit("auth_message_type");
    reveal_strlit("visible");
    reveal_strlit("}");
    lemma_object_of_3(ipc::type_member("auth_message"@), json::member("auth_message_type"@,
        json::quoted("visible"@)), json::member("auth_message"@, json::string_text(auth_message)));
    assert("{\"type\":\"auth_message\",\"auth_message_type\":\"visible\",\"auth_message\":"@
        =~= "{"@ + "\""@ + "type"@ + "\""@ + ":"@ + "\""@ + "auth_message"@ + "\""@ + ","@ + "\""@
        + "auth_message_type"@ + "\""@ + ":"@ + "\""@ + "visible"@ + "\""@ + ","@ + "\""@
        + "auth_message"@ + "\""@ + ":"@);
    assert((ResponseView::AuthMessage { auth_message_type: AuthMessageType::Visible,
        auth_message }).json()
        =~= "{\"type\":\"auth_message\",\"auth_message_type\":\"visible\",\"auth_message\":"@
        + json::string_text(auth_message) + "}"@);
}

proof fn lemma_secret_message(auth_message: Seq<char>)
    ensures
        (ResponseView::AuthMessage { auth_message_type: AuthMessageType::Secret,
            auth_message }).json()
            == "{\"type\":\"auth_message\",\"auth_message_type\":\"secret\",\"auth_message\":"@
            + json::string_text(auth_message) + "}"@,
{
    reveal_strlit("{\"type\":\"auth_message\",\"auth_message_type\":\"secret\",\"auth_message\":");
    reveal_strlit("{");
    reveal_strlit("\"");
    reveal_strlit("type");
    reveal_strlit(":");
    reveal_strlit("auth_message");
    reveal_strlit(",");
    reveal_strlit("auth_message_type");
    reveal_strlit("secret");
    reveal_strlit("}");
    lemma_object_of_3(ipc::type_member("auth_message"@), json::member("auth_message_type"@,
        json::quoted("secret"@)), json::member("auth_message"@, json::string_text(auth_message)));
    assert("{\"type\":\"auth_message\",\"auth_message_type\":\"secret\",\"auth_message\":"@ =~= "{"@
        + "\""@ + "type"@ + "\""@ + ":"@ + "\""@ + "auth_message"@ + "\""@ + ","@ + "\""@
        + "auth_message_type"@ + "\""@ + ":"@ + "\""@ + "secret"@ + "\""@ + ","@ + "\""@
        + "auth_message"@ + "\""@ + ":"@);
    assert((ResponseView::AuthMessage { auth_message_type: AuthMessageType::Secret,
        auth_message }).json()
        =~= "{\"type\":\"auth_message\",\"auth_message_type\":\"secret\",\"auth_message\":"@
        + json::string_text(auth_message) + "}"@);
}

proof fn lemma_info_message(auth_message: Seq<char>)
    ensures
        (ResponseView::AuthMessage { auth_message_type: AuthMessageType::Info,
            auth_message }).json()
            == "{\"type\":\"auth_message\",\"auth_message_type\":\"info\",\"auth_message\":"@
            + json::string_text(auth_message) + "}"@,
{
    reveal_strlit("{\"type\":\"auth_message\",\"auth_message_type\":\"info\",\"auth_message\":");
    reveal_strlit("{");
    reveal_strlit("\"");
    reveal_strlit("type");
    reveal_strlit(":");
    reveal_strlit("auth_message");
    reveal_strlit(",");
    reveal_strlit("auth_message_type");
    reveal_strlit("info");
    reveal_strlit("}");
    lemma_object_of_3(ipc::type_member("auth_message"@), json::member("auth_message_type"@,
        json::quoted("info"@)), json::member("auth_message"@, json::string_text(auth_message)));
    assert("{\"type\":\"auth_message\",\"auth_message_type\":\"info\",\"auth_message\":"@ =~= "{"@
        + "\""@ + "type"@ + "\""@ + ":"@ + "\""@ + "auth_message"@ + "\""@ + ","@ + "\""@
        + "auth_message_type"@ + "\""@ + ":"@ + "\""@ + "info"@ + "\""@ + ","@ + "\""@
        + "auth_message"@ + "\""@ + ":"@);
    assert((ResponseView::AuthMessage { auth_message_type: AuthMessageType::Info,
        auth_message }).json()
        =~= "{\"type\":\"auth_message\",\"auth_message_type\":\"info\",\"auth_message\":"@
        + json::string_text(auth_message) + "}"@);
}

proof fn lemma_error_message(auth_message: Seq<char>)
    ensures
        (ResponseView::AuthMessage { auth_message_type: AuthMessageType::Error,
            auth_message }).json()
            == "{\"type\":\"auth_message\",\"auth_message_type\":\"error\",\"auth_message\":"@
            + json::string_text(auth_message) + "}"@,
{
    reveal_strlit("{\"type\":\"auth_message\",\"auth_message_type\":\"error\",\"auth_message\":");
    reveal_strlit("{");
    reveal_strlit("\"");
    reveal_strlit("type");
    reveal_strlit(":");
    reveal_strlit("auth_message");
    reveal_strlit(",");
    reveal_strlit("auth_message_type");
    reveal_strlit("error");
    reveal_strlit("}");
    lemma_object_of_3(ipc::type_member("auth_message"@), json::member("auth_message_type"@,
        json::quoted("error"@)), json::member("auth_message"@, json::string_text(auth_message)));
    assert("{\"type\":\"auth_message\",\"auth_message_type\":\"error\",\"auth_message\":"@ =~= "{"@
        + "\""@ + "type"@ + "\""@ + ":"@ + "\""@ + "auth_message"@ + "\""@ + ","@ + "\""@
        + "auth_message_type"@ + "\""@ + ":"@ + "\""@ + "error"@ + "\""@ + ","@ + "\""@
        + "auth_message"@ + "\""@ + ":"@);
    assert((ResponseView::AuthMessage { auth_message_type: AuthMessageType::Error,
        auth_message }).json()
        =~= "{\"type\":\"auth_message\",\"auth_message_type\":\"error\",\"auth_message\":"@
        + json::string_text(auth_message) + "}"@);
}

proof fn lemma_leads()
    ensures
        ",\"class\":"@ == ","@ + json::quoted("class"@) + ":"@,
        ",\"user\":"@ == ","@ + json::quoted("user"@) + ":"@,
        ",\"authenticate\":"@ == ","@ + json::quoted("authenticate"@) + ":"@,
        ",\"tty\":"@ == ","@ + json::quoted("tty"@) + ":"@,
        ",\"source_profile\":"@ == ","@ + json::quoted("source_profile"@) + ":"@,
        ",\"greetd_sock\":"@ == ","@ + json::quoted("greetd_sock"@) + ":"@,
{
    reveal_strlit("\"");
    reveal_strlit(":");
    reveal_strlit(",");
    assert(",\"class\":"@ =~= ","@ + json::quoted("class"@) + ":"@) by {
        reveal_strlit(",\"class\":");
        reveal_strlit("class");
    }
    assert(",\"user\":"@ =~= ","@ + json::quoted("user"@) + ":"@) by {
        reveal_strlit(",\"user\":");
        reveal_strlit("user");
    }
    assert(",\"authenticate\":"@ =~= ","@ + json::quoted("authenticate"@) + ":"@) by {
        reveal_strlit(",\"authenticate\":");
        reveal_strlit("authenticate");
    }
    assert(",\"tty\":"@ =~= ","@ + json::quoted("tty"@) + ":"@) by {
        reveal_strlit(",\"tty\":");
        reveal_strlit("tty");
    }
    assert(",\"source_profile\":"@ =~= ","@ + json::quoted("source_profile"@) + ":"@) by {
        reveal_strlit(",\"source_profile\":");
        reveal_strlit("source_profile");
    }
    assert(",\"greetd_sock\":"@ =~= ","@ + json::quoted("greetd_sock"@) + ":"@) by {
        reveal_strlit(",\"greetd_sock\":");
        reveal_strlit("greetd_sock");
    }
}

proof fn lemma_wrap(key: Seq<char>, lead: Seq<char>, value: Seq<char>, members: Seq<Seq<char>>)
    requires
        lead == "{"@ + json::quoted(key) + ":{"@ + json::quoted("service"@) + ":"@,
        members.len() > 0,
    ensures
        json::object(
            seq![
                json::member(
                    key,
                    json::object(seq![json::member("service"@, value)] + members),
                ),
            ],
        ) == lead + (value + rest_of(members, "}}"@)),
{
    reveal_strlit("{");
    reveal_strlit(":");
    reveal_strlit(":{");
    reveal_strlit("}");
    reveal_strlit("}}");
    reveal(rest_of);
    let all = seq![json::member("service"@, value)] + members;
    assert(all.skip(1) =~= members);
    let listed = text::joined(members, ","@);
    assert(text::joined(all, ","@) == json::member("service"@, value) + ","@ + listed);
    lemma_object_of_1(json::member(key, json::object(all)));
    assert("}}"@ =~= "}"@ + "}"@);
    assert(":{"@ =~= ":"@ + "{"@);
    assert("{"@ + json::member(key, json::object(all)) + "}"@ =~= lead + (value + rest_of(
        members,
        "}}"@,
    )));
}

proof fn lemma_initiate(
    service: Seq<char>,
    class: SessionClass,
    user: Seq<char>,
    authenticate: bool,
    tty: TerminalModeView,
    source_profile: bool,
    greetd_sock: Seq<char>,
)
    ensures
        (WorkerRequestView::Initiate { service, class, user, authenticate, tty, source_profile,
            greetd_sock }).json() == "{\"Initiate\":{\"service\":"@ + (json::string_text(service)
            + (",\"class\":"@ + (("\""@ + class.wire_name() + "\""@) + (",\"user\":"@
            + (json::string_text(user) + (",\"authenticate\":"@ + (json::boolean(authenticate)
            + (",\"tty\":"@ + (tty.json() + (",\"source_profile\":"@
            + (json::boolean(source_profile) + (",\"greetd_sock\":"@
            + (json::string_text(greetd_sock) + "}}"@))))))))))))),
{
    lemma_leads();
    let end = "}}"@;
    let m5 = seq![json::member("greetd_sock"@, json::string_text(greetd_sock))];
    lemma_last(",\"greetd_sock\":"@, "greetd_sock"@, json::string_text(greetd_sock), end);
    let m4 = seq![json::member("source_profile"@, json::boolean(source_profile))] + m5;
    lemma_next(",\"source_profile\":"@, "source_profile"@, json::boolean(source_profile), m5, end);
    let m3 = seq![json::member("tty"@, tty.json())] + m4;
    lemma_next(",\"tty\":"@, "tty"@, tty.json(), m4, end);
    let m2 = seq![json::member("authenticate"@, json::boolean(authenticate))] + m3;
    lemma_next(",\"authenticate\":"@, "authenticate"@, json::boolean(authenticate), m3, end);
    let m1 = seq![json::member("user"@, json::string_text(user))] + m2;
    lemma_next(",\"user\":"@, "user"@, json::string_text(user), m2, end);
    let m0 = seq![json::member("class"@, json::quoted(class.wire_name()))] + m1;
    lemma_next(",\"class\":"@, "class"@, json::quoted(class.wire_name()), m1, end);
    let lead = "{\"Initiate\":{\"service\":"@;
    assert(lead =~= "{"@ + json::quoted("Initiate"@) + ":{"@ + json::quoted("service"@) + ":"@) by {
        reveal_strlit("{\"Initiate\":{\"service\":");
        reveal_strlit("{");
        reveal_strlit("\"");
        reveal_strlit(":");
        reveal_strlit(":{");
        reveal_strlit("Initiate");
        reveal_strlit("service");
    }
    lemma_wrap("Initiate"@, lead, json::string_text(service), m0);
    let members = seq![json::member("service"@, json::string_text(service)), json::member("class"@,
        json::quoted(class.wire_name())), json::member("user"@, json::string_text(user)),
        json::member("authenticate"@, json::boolean(authenticate)), json::member("tty"@,
        tty.json()), json::member("source_profile"@, json::boolean(source_profile)),
        json::member("greetd_sock"@, json::string_text(greetd_sock))];
    assert(members =~= seq![json::member("service"@, json::string_text(service))] + m0);
}

proof fn lemma_worker_answer(answer: Seq<char>)
    ensures
        WorkerRequestView::AuthResponse(Some(answer)).json() == "{\"AuthResponse\":"@
            + json::string_text(answer) + "}"@,
{
    reveal_strlit("{\"AuthResponse\":");
    reveal_strlit("{");
    reveal_strlit("\"");
    reveal_strlit("AuthResponse");
    reveal_strlit(":");
    reveal_strlit("}");
    lemma_object_of_1(json::member("AuthResponse"@, json::string_text(answer)));
    assert("{\"AuthResponse\":"@ =~= "{"@ + "\""@ + "AuthResponse"@ + "\""@ + ":"@);
    assert(WorkerRequestView::AuthResponse(Some(answer)).json() =~= "{\"AuthResponse\":"@
        + json::string_text(answer) + "}"@);
}

proof fn lemma_no_worker_answer()
    ensures
        WorkerRequestView::AuthResponse(None).json() == "{\"AuthResponse\":null}"@,
{
    reveal_strlit("{\"AuthResponse\":null}");
    reveal_strlit("{");
    reveal_strlit("\"");
    reveal_strlit("AuthResponse");
    reveal_strlit(":");
    reveal_strlit("null");
    reveal_strlit("}");
    lemma_object_of_1(json::member("AuthResponse"@, "null"@));
    assert("{\"AuthResponse\":null}"@ =~= "{"@ + "\""@ + "AuthResponse"@ + "\""@ + ":"@ + "null"@
        + "}"@);
    assert(WorkerRequestView::AuthResponse(None).json() =~= "{\"AuthResponse\":null}"@);
}

proof fn lemma_worker_start(cmd: Seq<Seq<char>>, env: Seq<Seq<char>>)
    ensures
        (WorkerRequestView::Start { cmd, env }).json() == "{\"Start\":{\"cmd\":"@
            + json::string_list(cmd) + ",\"env\":"@ + json::string_list(env) + "}}"@,
{
    reveal_strlit("{\"Start\":{\"cmd\":");
    reveal_strlit("{");
    reveal_strlit("\"");
    reveal_strlit("Start");
    reveal_strlit(":");
    reveal_strlit("cmd");
    reveal_strlit(",\"env\":");
    reveal_strlit(",");
    reveal_strlit("env");
    reveal_strlit("}}");
    reveal_strlit("}");
    lemma_object_of_2(json::member("cmd"@, json::string_list(cmd)), json::member("env"@,
        json::string_list(env)));
    lemma_object_of_1(json::member("Start"@, json::object(seq![json::member("cmd"@,
        json::string_list(cmd)), json::member("env"@, json::string_list(env))])));
    assert("{\"Start\":{\"cmd\":"@ =~= "{"@ + "\""@ + "Start"@ + "\""@ + ":"@ + "{"@ + "\""@
        + "cmd"@ + "\""@ + ":"@);
    assert(",\"env\":"@ =~= ","@ + "\""@ + "env"@ + "\""@ + ":"@);
    assert("}}"@ =~= "}"@ + "}"@);
    assert((WorkerRequestView::Start { cmd, env }).json() =~= "{\"Start\":{\"cmd\":"@
        + json::string_list(cmd) + ",\"env\":"@ + json::string_list(env) + "}}"@);
}

proof fn lemma_worker_cancel()
    ensures
        WorkerRequestView::Cancel.json() == "\"Cancel\""@,
{
    reveal_strlit("\"Cancel\"");
    reveal_strlit("\"");
    reveal_strlit("Cancel");
    assert("\"Cancel\""@ =~= "\""@ + "Cancel"@ + "\""@);
    assert(WorkerRequestView::Cancel.json() =~= "\"Cancel\""@);
}

proof fn lemma_prompt(prompt: Seq<char>, echo: bool)
    ensures
        (WorkerResponseView::AuthPrompt { prompt, echo }).json() == "{\"AuthPrompt\":{\"prompt\":"@
            + json::string_text(prompt) + ",\"echo\":"@ + json::boolean(echo) + "}}"@,
{
    reveal_strlit("{\"AuthPrompt\":{\"prompt\":");
    reveal_strlit("{");
    reveal_strlit("\"");
    reveal_strlit("AuthPrompt");
    reveal_strlit(":");
    reveal_strlit("prompt");
    reveal_strlit(",\"echo\":");
    reveal_strlit(",");
    reveal_strlit("echo");
    reveal_strlit("}}");
    reveal_strlit("}");
    lemma_object_of_2(json::member("prompt"@, json::string_text(prompt)), json::member("echo"@,
        json::boolean(echo)));
    lemma_object_of_1(json::member("AuthPrompt"@, json::object(seq![json::member("prompt"@,
        json::string_text(prompt)), json::member("echo"@, json::boolean(echo))])));
    assert("{\"AuthPrompt\":{\"prompt\":"@ =~= "{"@ + "\""@ + "AuthPrompt"@ + "\""@ + ":"@ + "{"@
        + "\""@ + "prompt"@ + "\""@ + ":"@);
    assert(",\"echo\":"@ =~= ","@ + "\""@ + "echo"@ + "\""@ + ":"@);
    assert("}}"@ =~= "}"@ + "}"@);
    assert((WorkerResponseView::AuthPrompt { prompt, echo }).json()
        =~= "{\"AuthPrompt\":{\"prompt\":"@ + json::string_text(prompt) + ",\"echo\":"@
        + json::boolean(echo) + "}}"@);
}

proof fn lemma_ready()
    ensures
        WorkerResponseView::Ready.json() == "\"Ready\""@,
{
    reveal_strlit("\"Ready\"");
    reveal_strlit("\"");
    reveal_strlit("Ready");
    assert("\"Ready\""@ =~= "\""@ + "Ready"@ + "\""@);
    assert(WorkerResponseView::Ready.json() =~= "\"Ready\""@);
}

proof fn lemma_started(pid: u32)
    ensures
        (WorkerResponseView::Started { pid }).json() == "{\"Started\":{\"pid\":"@
            + text::decimal(pid as nat) + "}}"@,
{
    reveal_strlit("{\"Started\":{\"pid\":");
    reveal_strlit("{");
    reveal_strlit("\"");
    reveal_strlit("Started");
    reveal_strlit(":");
    reveal_strlit("pid");
    reveal_strlit("}}");
    reveal_strlit("}");
    lemma_object_of_1(json::member("pid"@, text::decimal(pid as nat)));
    lemma_object_of_1(json::member("Started"@, json::object(seq![json::member("pid"@,
        text::decimal(pid as nat))])));
    assert("{\"Started\":{\"pid\":"@ =~= "{"@ + "\""@ + "Started"@ + "\""@ + ":"@ + "{"@ + "\""@
        + "pid"@ + "\""@ + ":"@);
    assert("}}"@ =~= "}"@ + "}"@);
    assert((WorkerResponseView::Started { pid }).json() =~= "{\"Started\":{\"pid\":"@
        + text::decimal(pid as nat) + "}}"@);
}

proof fn lemma_worker_failure(why: Seq<char>)
    ensures
        WorkerResponseView::Error(why).json() == "{\"Error\":"@ + json::string_text(why) + "}"@,
{
    reveal_strlit("{\"Error\":");
    reveal_strlit("{");
    reveal_strlit("\"");
    reveal_strlit("Error");
    reveal_strlit(":");
    reveal_strlit("}");
    lemma_object_of_1(json::member("Error"@, json::string_text(why)));
    assert("{\"Error\":"@ =~= "{"@ + "\""@ + "Error"@ + "\""@ + ":"@);
    assert(WorkerResponseView::Error(why).json() =~= "{\"Error\":"@ + json::string_text(why)
        + "}"@);
}

proof fn lemma_terminal(path: Seq<char>, vt: u32, switch: bool)
    ensures
        (TerminalModeView::Vt { path, vt, switch }).json() == "{\"Vt\":{\"path\":"@
            + json::string_text(path) + ",\"vt\":"@ + text::decimal(vt as nat) + ",\"switch\":"@
            + json::boolean(switch) + "}}"@,
{
    reveal_strlit("{\"Vt\":{\"path\":");
    reveal_strlit("{");
    reveal_strlit("\"");
    reveal_strlit("Vt");
    reveal_strlit(":");
    reveal_strlit("path");
    reveal_strlit(",\"vt\":");
    reveal_strlit(",");
    reveal_strlit("vt");
    reveal_strlit(",\"switch\":");
    reveal_strlit("switch");
    reveal_strlit("}}");
    reveal_strlit("}");
    lemma_object_of_3(json::member("path"@, json::string_text(path)), json::member("vt"@,
        text::decimal(vt as nat)), json::member("switch"@, json::boolean(switch)));
    lemma_object_of_1(json::member("Vt"@, json::object(seq![json::member("path"@,
        json::string_text(path)), json::member("vt"@, text::decimal(vt as nat)),
        json::member("switch"@, json::boolean(switch))])));
    assert("{\"Vt\":{\"path\":"@ =~= "{"@ + "\""@ + "Vt"@ + "\""@ + ":"@ + "{"@ + "\""@ + "path"@
        + "\""@ + ":"@);
    assert(",\"vt\":"@ =~= ","@ + "\""@ + "vt"@ + "\""@ + ":"@);
    assert(",\"switch\":"@ =~= ","@ + "\""@ + "switch"@ + "\""@ + ":"@);
    assert("}}"@ =~= "}"@ + "}"@);
    assert((TerminalModeView::Vt { path, vt, switch }).json() =~= "{\"Vt\":{\"path\":"@
        + json::string_text(path) + ",\"vt\":"@ + text::decimal(vt as nat) + ",\"switch\":"@
        + json::boolean(switch) + "}}"@);
}

proof fn lemma_no_terminal()
    ensures
        TerminalModeView::Stdin.json() == "\"Stdin\""@,
{
    reveal_strlit("\"Stdin\"");
    reveal_strlit("\"");
    reveal_strlit("Stdin");
    assert("\"Stdin\""@ =~= "\""@ + "Stdin"@ + "\""@);
    assert(TerminalModeView::Stdin.json() =~= "\"Stdin\""@);
}

/// A list of strings is written item by item between brackets, with commas
/// between the items.
pub proof fn lists_are_written_item_by_item(items: Seq<Seq<char>>, item: Seq<char>)
    ensures
        json::string_list(Seq::empty()) == "[]"@,
        json::string_list(seq![item]) == "["@ + json::string_text(item) + "]"@,
        items.len() > 0 ==> json::string_list(items.push(item))
            == json::string_list(items).drop_last() + ","@ + json::string_text(item) + "]"@,
{
    reveal_strlit("[]");
    reveal_strlit("[");
    reveal_strlit("]");
    let written = items.map_values(|item: Seq<char>| json::string_text(item));
    let last = seq![json::string_text(item)];
    assert(Seq::<Seq<char>>::empty().map_values(|item: Seq<char>| json::string_text(item))
        =~= Seq::<Seq<char>>::empty());
    assert(seq![item].map_values(|item: Seq<char>| json::string_text(item)) =~= last);
    text::joined_lists_are_joined(written, last, json::string_text(item), ","@);
    assert(json::string_list(Seq::empty()) =~= "[]"@);
    assert(items.push(item).map_values(|item: Seq<char>| json::string_text(item)) =~= written
        + last);
    let inner = text::joined(written, ","@);
    assert(("["@ + inner + "]"@).drop_last() =~= "["@ + inner);
    if items.len() > 0 {
        assert(json::string_list(items.push(item)) =~= "["@ + inner + ","@ + json::string_text(item)
            + "]"@);
    }
}

/// The small values are written as JSON has them, and the names as they are.
pub proof fn small_values_are_written_as_named(s: Seq<char>)
    ensures
        json::boolean(true) == "true"@,
        json::boolean(false) == "false"@,
        json::optional_string(Some(s)) == json::string_text(s),
        json::optional_string(None) == "null"@,
        SessionClass::Greeter.wire_name() == "Greeter"@,
        SessionClass::User.wire_name() == "User"@,
{
}

/// A greeter's requests are written with these names, and with what they hold in
/// these places.
pub proof fn requests_are_written_as_named(username: Seq<char>, response: Seq<char>,
    cmd: Seq<Seq<char>>, env: Seq<Seq<char>>)
    ensures
        (RequestView::CreateSession { username }).json()
            == "{\"type\":\"create_session\",\"username\":"@ + json::string_text(username) + "}"@,
        (RequestView::PostAuthMessageResponse { response: Some(response) }).json()
            == "{\"type\":\"post_auth_message_response\",\"response\":"@
            + json::string_text(response) + "}"@,
        (RequestView::PostAuthMessageResponse { response: None }).json()
            == "{\"type\":\"post_auth_message_response\",\"response\":null}"@,
        (RequestView::StartSession { cmd, env }).json() == "{\"type\":\"start_session\",\"cmd\":"@
            + json::string_list(cmd) + ",\"env\":"@ + json::string_list(env) + "}"@,
        RequestView::CancelSession.json() == "{\"type\":\"cancel_session\"}"@,
{
    lemma_create(username);
    lemma_answer(response);
    lemma_no_answer();
    lemma_start(cmd, env);
    lemma_cancel();
}

/// The daemon's responses are written with these names, and with what they hold in
/// these places; and they travel in a frame.
pub proof fn responses_are_written_as_named(text: Seq<char>, response: ResponseView)
    ensures
        ResponseView::Success.json() == "{\"type\":\"success\"}"@,
        (ResponseView::Error { error_type: ErrorType::Error, description: text }).json()
            == "{\"type\":\"error\",\"error_type\":\"error\",\"description\":"@
            + json::string_text(text) + "}"@,
        (ResponseView::Error { error_type: ErrorType::AuthError, description: text }).json()
            == "{\"type\":\"error\",\"error_type\":\"auth_error\",\"description\":"@
            + json::string_text(text) + "}"@,
        (ResponseView::AuthMessage { auth_message_type: AuthMessageType::Visible,
            auth_message: text }).json()
            == "{\"type\":\"auth_message\",\"auth_message_type\":\"visible\",\"auth_message\":"@
            + json::string_text(text) + "}"@,
        (ResponseView::AuthMessage { auth_message_type: AuthMessageType::Secret,
            auth_message: text }).json()
            == "{\"type\":\"auth_message\",\"auth_message_type\":\"secret\",\"auth_message\":"@
            + json::string_text(text) + "}"@,
        (ResponseView::AuthMessage { auth_message_type: AuthMessageType::Info,
            auth_message: text }).json()
            == "{\"type\":\"auth_message\",\"auth_message_type\":\"info\",\"auth_message\":"@
            + json::string_text(text) + "}"@,
        (ResponseView::AuthMessage { auth_message_type: AuthMessageType::Error,
            auth_message: text }).json()
            == "{\"type\":\"auth_message\",\"auth_message_type\":\"error\",\"auth_message\":"@
            + json::string_text(text) + "}"@,
        response.bytes() == frame::framed(utf8::encode_utf8(response.json())),
{
    lemma_success();
    lemma_general_failure(text);
    lemma_refusal(text);
    lemma_visible_message(text);
    lemma_secret_message(text);
    lemma_info_message(text);
    lemma_error_message(text);
}

/// The messages to a worker are written with these names, and with what they hold
/// in these places.
pub proof fn worker_requests_are_written_as_named(
    service: Seq<char>,
    class: SessionClass,
    user: Seq<char>,
    authenticate: bool,
    tty: TerminalModeView,
    source_profile: bool,
    greetd_sock: Seq<char>,
    answer: Seq<char>,
    cmd: Seq<Seq<char>>,
    env: Seq<Seq<char>>,
)
    ensures
        (WorkerRequestView::Initiate { service, class, user, authenticate, tty, source_profile,
            greetd_sock }).json() == "{\"Initiate\":{\"service\":"@ + (json::string_text(service)
            + (",\"class\":"@ + (("\""@ + class.wire_name() + "\""@) + (",\"user\":"@
            + (json::string_text(user) + (",\"authenticate\":"@ + (json::boolean(authenticate)
            + (",\"tty\":"@ + (tty.json() + (",\"source_profile\":"@
            + (json::boolean(source_profile) + (",\"greetd_sock\":"@
            + (json::string_text(greetd_sock) + "}}"@))))))))))))),
        WorkerRequestView::AuthResponse(Some(answer)).json() == "{\"AuthResponse\":"@
            + json::string_text(answer) + "}"@,
        WorkerRequestView::AuthResponse(None).json() == "{\"AuthResponse\":null}"@,
        (WorkerRequestView::Start { cmd, env }).json() == "{\"Start\":{\"cmd\":"@
            + json::string_list(cmd) + ",\"env\":"@ + json::string_list(env) + "}}"@,
        WorkerRequestView::Cancel.json() == "\"Cancel\""@,
{
    lemma_initiate(service, class, user, authenticate, tty, source_profile, greetd_sock);
    lemma_worker_answer(answer);
    lemma_no_worker_answer();
    lemma_worker_start(cmd, env);
    lemma_worker_cancel();
}

/// A worker's answers are written with these names, and with what they hold in
/// these places.
pub proof fn worker_responses_are_written_as_named(prompt: Seq<char>, echo: bool, pid: u32,
    why: Seq<char>)
    ensures
        (WorkerResponseView::AuthPrompt { prompt, echo }).json() == "{\"AuthPrompt\":{\"prompt\":"@
            + json::string_text(prompt) + ",\"echo\":"@ + json::boolean(echo) + "}}"@,
        WorkerResponseView::Ready.json() == "\"Ready\""@,
        (WorkerResponseView::Started { pid }).json() == "{\"Started\":{\"pid\":"@
            + text::decimal(pid as nat) + "}}"@,
        WorkerResponseView::Error(why).json() == "{\"Error\":"@ + json::string_text(why) + "}"@,
{
    lemma_prompt(prompt, echo);
    lemma_ready();
    lemma_started(pid);
    lemma_worker_failure(why);
}

/// Terminals are written with these names, and with what they hold in these
/// places.
pub proof fn terminals_are_written_as_named(path: Seq<char>, vt: u32, switch: bool)
    ensures
        (TerminalModeView::Vt { path, vt, switch }).json() == "{\"Vt\":{\"path\":"@
            + json::string_text(path) + ",\"vt\":"@ + text::decimal(vt as nat) + ",\"switch\":"@
            + json::boolean(switch) + "}}"@,
        TerminalModeView::Stdin.json() == "\"Stdin\""@,
{
    lemma_terminal(path, vt, switch);
    lemma_no_terminal();
}

} // verus!
