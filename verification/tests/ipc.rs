use greetd::error::{IoError, IoErrorKind};
use greetd::frame::{decode_length, encode};
use greetd::ipc::{AuthMessageType, ErrorType, Request, Response};

fn header_of(frame: &[u8]) -> [u8; 4] {
    [frame[0], frame[1], frame[2], frame[3]]
}

fn payload_of(frame: &[u8]) -> Vec<u8> {
    let len = decode_length(header_of(frame)) as usize;
    assert_eq!(frame.len(), 4 + len);
    frame[4..].to_vec()
}

#[test]
fn request_create_session_serialization() {
    let req = Request::CreateSession { username: "bob".into() };
    let json = req.to_json();
    assert_eq!(json, r#"{"type":"create_session","username":"bob"}"#);
}

#[test]
fn request_post_auth_response_serialization() {
    let req = Request::PostAuthMessageResponse { response: Some("password".into()) };
    let json = req.to_json();
    assert_eq!(json, r#"{"type":"post_auth_message_response","response":"password"}"#);
}

#[test]
fn request_post_auth_response_none() {
    let req = Request::PostAuthMessageResponse { response: None };
    let json = req.to_json();
    assert_eq!(json, r#"{"type":"post_auth_message_response","response":null}"#);
}

#[test]
fn request_start_session_serialization() {
    let req = Request::StartSession {
        cmd: vec!["sway".into()],
        env: vec!["WAYLAND_DISPLAY=wayland-1".into()],
    };
    let json = req.to_json();
    assert_eq!(
        json,
        r#"{"type":"start_session","cmd":["sway"],"env":["WAYLAND_DISPLAY=wayland-1"]}"#
    );
}

#[test]
fn request_start_session_empty_env() {
    let req = Request::StartSession { cmd: vec!["sway".into()], env: vec![] };
    let json = req.to_json();
    assert_eq!(json, r#"{"type":"start_session","cmd":["sway"],"env":[]}"#);
}

#[test]
fn request_cancel_session_serialization() {
    let req = Request::CancelSession;
    let json = req.to_json();
    assert_eq!(json, r#"{"type":"cancel_session"}"#);
}

#[test]
fn response_success_serialization() {
    let resp = Response::Success;
    let json = resp.to_json();
    assert_eq!(json, r#"{"type":"success"}"#);
}

#[test]
fn response_error_serialization() {
    let resp = Response::Error {
        error_type: ErrorType::Error,
        description: "something went wrong".into(),
    };
    let json = resp.to_json();
    assert_eq!(
        json,
        r#"{"type":"error","error_type":"error","description":"something went wrong"}"#
    );
}

#[test]
fn response_auth_error_serialization() {
    let resp = Response::Error {
        error_type: ErrorType::AuthError,
        description: "bad password".into(),
    };
    let json = resp.to_json();
    assert_eq!(
        json,
        r#"{"type":"error","error_type":"auth_error","description":"bad password"}"#
    );
}

#[test]
fn response_auth_message_secret() {
    let resp = Response::AuthMessage {
        auth_message_type: AuthMessageType::Secret,
        auth_message: "Password:".into(),
    };
    let json = resp.to_json();
    assert_eq!(
        json,
        r#"{"type":"auth_message","auth_message_type":"secret","auth_message":"Password:"}"#
    );
}

#[test]
fn response_auth_message_visible() {
    let resp = Response::AuthMessage {
        auth_message_type: AuthMessageType::Visible,
        auth_message: "Username:".into(),
    };
    let json = resp.to_json();
    assert_eq!(
        json,
        r#"{"type":"auth_message","auth_message_type":"visible","auth_message":"Username:"}"#
    );
}

#[test]
fn response_auth_message_info() {
    let resp = Response::AuthMessage {
        auth_message_type: AuthMessageType::Info,
        auth_message: "Welcome!".into(),
    };
    let json = resp.to_json();
    assert_eq!(
        json,
        r#"{"type":"auth_message","auth_message_type":"info","auth_message":"Welcome!"}"#
    );
}

#[test]
fn response_auth_message_error() {
    let resp = Response::AuthMessage {
        auth_message_type: AuthMessageType::Error,
        auth_message: "Account locked".into(),
    };
    let json = resp.to_json();
    assert_eq!(
        json,
        r#"{"type":"auth_message","auth_message_type":"error","auth_message":"Account locked"}"#
    );
}

#[test]
fn request_start_session_default_env() {
    // env should default to empty vec if not provided
    let json = r#"{"type":"start_session","cmd":["bash"]}"#;
    let json: serde_json::Value = serde_json::from_str(json).unwrap();
    assert_eq!(json["type"], "start_session");
    let texts = |key: &str| {
        json.get(key).map(|list| {
            let items = list.as_array().unwrap().iter();
            items.map(|item| item.as_str().unwrap().to_string()).collect::<Vec<String>>()
        })
    };
    let req = Request::start_session(texts("cmd").unwrap(), texts("env"));
    match req {
        Request::StartSession { cmd, env } => {
            assert_eq!(cmd, vec!["bash"]);
            assert!(env.is_empty());
        }
        _ => panic!("wrong variant"),
    }
}

#[test]
fn given_environment_is_kept() {
    let req = Request::start_session(vec!["bash".into()], Some(vec!["A=b".into()]));
    assert_eq!(req.to_json(), r#"{"type":"start_session","cmd":["bash"],"env":["A=b"]}"#);
}

#[test]
fn response_error_helper() {
    let resp = Response::error("test error");
    match resp {
        Response::Error { error_type, description } => {
            assert!(matches!(error_type, ErrorType::Error));
            assert_eq!(description, "test error");
        }
        _ => panic!("wrong variant"),
    }
}

#[test]
fn roundtrip_via_stream() {
    let resp = Response::AuthMessage {
        auth_message_type: AuthMessageType::Secret,
        auth_message: "Password:".into(),
    };
    let buf = payload_of(&resp.write_to());

    let received: serde_json::Value = serde_json::from_slice(&buf).unwrap();
    assert_eq!(received["type"], "auth_message");
    assert_eq!(received["auth_message_type"], "secret");
    assert_eq!(received["auth_message"], "Password:");
}

#[test]
fn request_read_from_stream() {
    let req = Request::CreateSession { username: "testuser".into() };
    let frame = encode(req.to_json().as_bytes());

    let len = Request::payload_length(Ok(header_of(&frame))).unwrap().unwrap();
    assert_eq!(len as usize, frame.len() - 4);
    let json: serde_json::Value = serde_json::from_slice(&frame[4..]).unwrap();
    assert_eq!(json["type"], "create_session");
    let parsed = Request::CreateSession {
        username: json["username"].as_str().unwrap().to_string(),
    };
    let received = Request::read_from(Ok(Ok(parsed))).unwrap();
    match received {
        Request::CreateSession { username } => assert_eq!(username, "testuser"),
        _ => panic!("wrong variant"),
    }
}

#[test]
fn request_read_from_eof() {
    let end = IoError { kind: IoErrorKind::UnexpectedEof, text: "failed to fill whole buffer".into() };
    let result = Request::payload_length(Err(end)).unwrap();
    assert!(result.is_none());
}

#[test]
fn header_errors_other_than_the_end_are_passed_on() {
    let reset = IoError { kind: IoErrorKind::Other, text: "connection reset".into() };
    let err = Request::payload_length(Err(reset)).unwrap_err();
    assert!(err.to_string().contains("connection reset"));
}

#[test]
fn end_inside_a_payload_is_an_error() {
    let end = IoError { kind: IoErrorKind::UnexpectedEof, text: "failed to fill whole buffer".into() };
    let err = Request::read_from(Err(end)).unwrap_err();
    assert!(err.to_string().contains("failed to fill whole buffer"));
}

#[test]
fn refused_payload_is_an_error() {
    let err = Request::read_from(Ok(Err("expected value at line 1 column 1".into()))).unwrap_err();
    assert!(err.to_string().contains("expected value at line 1 column 1"));
}

#[test]
fn strings_are_escaped() {
    let req = Request::CreateSession { username: "a\"b\\c\n\u{1}\u{1f}\u{8}\t\u{c}\r/\u{7f}\u{e9}".into() };
    assert_eq!(
        req.to_json(),
        "{\"type\":\"create_session\",\"username\":\"a\\\"b\\\\c\\n\\u0001\\u001f\\b\\t\\f\\r/\u{7f}\u{e9}\"}"
    );
}

#[test]
fn escaped_strings_read_back() {
    let all: String = (0u32..0x250).filter_map(char::from_u32).collect();
    let req = Request::StartSession { cmd: vec![all.clone(), "".into()], env: vec!["\"".into()] };
    let json: serde_json::Value = serde_json::from_str(&req.to_json()).unwrap();
    assert_eq!(json["cmd"][0], all.as_str());
    assert_eq!(json["cmd"][1], "");
    assert_eq!(json["env"][0], "\"");
}

#[test]
fn written_response_is_one_frame() {
    let bytes = Response::Success.write_to();
    let mut expected = 18u32.to_ne_bytes().to_vec();
    expected.extend_from_slice(br#"{"type":"success"}"#);
    assert_eq!(bytes, expected);
}

#[test]
fn responses_that_differ_are_written_differently() {
    let one = Response::Error { error_type: ErrorType::Error, description: "a".into() };
    let other = Response::Error { error_type: ErrorType::AuthError, description: "a".into() };
    assert_ne!(one.to_json(), other.to_json());
    let quote = Response::error("\",\"x\":\"");
    assert_ne!(quote.to_json(), Response::error("").to_json());
}
