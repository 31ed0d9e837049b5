use greetd::error::{c_string, c_strings, Error, IoError, IoErrorKind, NixError, NulError};

#[test]
fn from_str() {
    let err: Error = "test error".into();
    assert_eq!(err.to_string(), "test error");
}

#[test]
fn from_string() {
    let err: Error = String::from("test error").into();
    assert_eq!(err.to_string(), "test error");
}

#[test]
fn config_error_display() {
    let err = Error::Config("bad config".into());
    assert_eq!(err.to_string(), "config error: bad config");
}

#[test]
fn auth_error_display() {
    let err = Error::Auth("bad password".into());
    assert_eq!(err.to_string(), "auth error: bad password");
}

#[test]
fn from_io_error() {
    let io_err = std::io::Error::new(std::io::ErrorKind::NotFound, "file not found");
    let err: Error = IoError { kind: IoErrorKind::Other, text: io_err.to_string() }.into();
    assert!(err.to_string().contains("file not found"));
}

#[test]
fn from_nul_error() {
    let err = c_string("test\0string".into()).unwrap_err();
    assert!(err.to_string().contains("nul"));
    assert!(matches!(err, Error::Nul(NulError { position: 4 })));
}

#[test]
fn system_call_errors_are_worded_by_the_system() {
    let err: Error = NixError { interrupted: false, text: "EPERM: Operation not permitted".into() }
        .into();
    assert_eq!(err.to_string(), "nix error: EPERM: Operation not permitted");
}

#[test]
fn io_errors_are_worded_by_the_system() {
    let err: Error = IoError { kind: IoErrorKind::Interrupted, text: "interrupted".into() }.into();
    assert_eq!(err.to_string(), "io error: interrupted");
}

#[test]
fn nul_error_names_the_byte() {
    let err: Error = NulError { position: 4 }.into();
    assert_eq!(err.to_string(), "nul error: nul byte found in provided data at position: 4");
}

#[test]
fn position_counts_bytes() {
    let err = c_string("\u{e9}\0".into()).unwrap_err();
    assert!(matches!(err, Error::Nul(NulError { position: 2 })));
}

#[test]
fn text_without_nul_is_kept() {
    assert_eq!(c_string("HOME=/home/bob".into()).unwrap(), "HOME=/home/bob");
    assert_eq!(c_string("".into()).unwrap(), "");
}

#[test]
fn first_refused_text_decides() {
    let kept = c_strings(vec!["a".into(), "b".into()]).unwrap();
    assert_eq!(kept, vec!["a", "b"]);
    let err = c_strings(vec!["a".into(), "bc\0".into(), "\0".into()]).unwrap_err();
    assert!(matches!(err, Error::Nul(NulError { position: 2 })));
}
