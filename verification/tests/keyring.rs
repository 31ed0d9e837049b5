use greetd::keyring::{unlock_keyring, UnlockOutcome};

#[test]
fn keyring_outcomes_are_reported() {
    assert_eq!(unlock_keyring(UnlockOutcome::Success).unwrap(), "greetd: keyring unlocked");
    assert_eq!(
        unlock_keyring(UnlockOutcome::WrongPassword).unwrap(),
        "greetd: keyring password mismatch (login password differs from keyring)"
    );
    let error = UnlockOutcome::Error { message: "locked out".into() };
    assert_eq!(unlock_keyring(error).unwrap(), "greetd: keyring error: locked out");
}

#[test]
fn silent_keyring_outcomes() {
    assert!(unlock_keyring(UnlockOutcome::AlreadyUnlocked).is_none());
    assert!(unlock_keyring(UnlockOutcome::Unreachable).is_none());
}
