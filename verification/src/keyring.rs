//! What to say of an attempt to unlock a user's keyring with the password of
//! the login.

use vstd::prelude::*;

use crate::error::prefixed;

verus! {

/// How the keyring's daemon took the password.
#[derive(Debug)]
pub enum UnlockOutcome {
    Success,
    AlreadyUnlocked,
    WrongPassword,
    Error { message: String },
    /// The daemon does not run or could not be talked to.
    Unreachable,
}

/// The line for the log that an outcome stands for, if there is one.
pub open spec fn line(outcome: UnlockOutcome) -> Option<Seq<char>> {
    match outcome {
        UnlockOutcome::Success => Some("greetd: keyring unlocked"@),
        UnlockOutcome::AlreadyUnlocked => None,
        UnlockOutcome::WrongPassword => Some(
            "greetd: keyring password mismatch (login password differs from keyring)"@,
        ),
        UnlockOutcome::Error { message } => Some("greetd: keyring error: "@ + message@),
        UnlockOutcome::Unreachable => None,
    }
}

/// The line for the log, if there is anything to say. A keyring that was open
/// before and a daemon that is not there are passed over in silence; the login
/// goes on in any case.
pub fn unlock_keyring(outcome: UnlockOutcome) -> (r: Option<String>)
    ensures
        r.deep_view() == (match outcome {
            UnlockOutcome::Success => Some("greetd: keyring unlocked"@),
            UnlockOutcome::AlreadyUnlocked => None,
            UnlockOutcome::WrongPassword => Some(
                "greetd: keyring password mismatch (login password differs from keyring)"@,
            ),
            UnlockOutcome::Error { message } => Some("greetd: keyring error: "@ + message@),
            UnlockOutcome::Unreachable => None,
        }),
        r.deep_view() == line(outcome),
{
    match outcome {
        UnlockOutcome::Success => Some("greetd: keyring unlocked".to_string()),
        UnlockOutcome::AlreadyUnlocked => None,
        UnlockOutcome::WrongPassword => Some(
            "greetd: keyring password mismatch (login password differs from keyring)".to_string(),
        ),
        UnlockOutcome::Error { message } => Some(
            prefixed("greetd: keyring error: ", message.as_str()),
        ),
        UnlockOutcome::Unreachable => None,
    }
}

/// The log tells of a keyring that was unlocked, of a password that is not the
/// keyring's, and of an error in the daemon's own words, whatever they are; of
/// nothing else.
pub proof fn log_tells_what_became_of_the_keyring(outcome: UnlockOutcome, message: String)
    ensures
        line(UnlockOutcome::Error { message }) == Some("greetd: keyring error: "@ + message@),
        line(UnlockOutcome::Success) == Some("greetd: keyring unlocked"@),
        line(UnlockOutcome::WrongPassword) == Some(
            "greetd: keyring password mismatch (login password differs from keyring)"@,
        ),
        line(outcome) is None <==> outcome is AlreadyUnlocked || outcome is Unreachable,
{
}

} // verus!
