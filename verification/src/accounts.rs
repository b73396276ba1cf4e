//! The rules on accounts: what may register, and what a failed login shows.

use crate::errors::{DatabaseErrorKind, Failure, StoreError};
use crate::text::reads_as;
use vstd::prelude::*;
use vstd::utf8::encode_utf8;

verus! {

/// The most bytes a user name may have.
pub const USERNAME_MAX_BYTES: usize = 64;

/// The fewest bytes an e-mail address may have.
pub const EMAIL_MIN_BYTES: usize = 5;

/// The most bytes an e-mail address may have.
pub const EMAIL_MAX_BYTES: usize = 254;

/// Why a registration is refused, if it is: the user name is checked first.
pub open spec fn registration_refusal(username: Seq<char>, email: Seq<char>) -> Option<Failure> {
    if encode_utf8(username).len() > USERNAME_MAX_BYTES {
        Some(Failure::UsernameTooLong)
    } else if encode_utf8(email).len() < EMAIL_MIN_BYTES || encode_utf8(email).len()
        > EMAIL_MAX_BYTES {
        Some(Failure::EmailLength)
    } else {
        None
    }
}

/// What a failed login shows: that a user was not found looks the same as a
/// wrong password.
pub open spec fn login_failure_of(failure: Failure) -> Failure {
    if crate::errors::failure_status(failure) == 404 {
        Failure::InvalidCredentials
    } else {
        failure
    }
}

/// The failure for a unique constraint on users that was violated, by the
/// constraint's name.
pub open spec fn conflict_of(constraint: Seq<char>) -> Option<Failure> {
    if constraint == "users_email_key"@ {
        Some(Failure::EmailTaken)
    } else if constraint == "users_username_key"@ {
        Some(Failure::UsernameTaken)
    } else {
        None
    }
}

/// What is shown when the store refuses a new user. A violated unique
/// constraint is told by its name; nothing is shown for one that is none of
/// the users'. Any other refusal by the database is shown as unexpected.
pub open spec fn creation_failure_of(error: StoreError, constraint: Seq<char>) -> Option<Failure> {
    match error {
        StoreError::Database { kind: DatabaseErrorKind::UniqueViolation, .. } => conflict_of(
            constraint,
        ),
        StoreError::Database { kind, message } => Some(
            Failure::Store(StoreError::Database { kind: DatabaseErrorKind::Unknown, message }),
        ),
        other => Some(Failure::Store(other)),
    }
}

/// Checks the lengths of a user name and an e-mail address that ask to be
/// registered.
pub fn register(username: &str, email: &str) -> (refusal: Option<Failure>)
    ensures
        refusal == registration_refusal(username@, email@),
{
    let email_len = email.as_bytes().len();
    if username.as_bytes().len() > USERNAME_MAX_BYTES {
        Some(Failure::UsernameTooLong)
    } else if email_len < EMAIL_MIN_BYTES || email_len > EMAIL_MAX_BYTES {
        Some(Failure::EmailLength)
    } else {
        None
    }
}

/// What is shown for a failure to find the user who logs in.
pub fn login_failure(failure: Failure) -> (shown: Failure)
    ensures
        shown == login_failure_of(failure),
{
    if failure.status() == 404 {
        Failure::InvalidCredentials
    } else {
        failure
    }
}

/// What a login comes to once the password was checked.
pub fn login(password_matches: bool) -> (outcome: Result<(), Failure>)
    ensures
        outcome == (if password_matches {
            Ok::<(), Failure>(())
        } else {
            Err::<(), Failure>(Failure::InvalidCredentials)
        }),
{
    if password_matches {
        Ok(())
    } else {
        Err(Failure::InvalidCredentials)
    }
}

/// The failure for a violated unique constraint on users, or nothing for a
/// constraint that is none of theirs.
pub fn conflict(constraint: &String) -> (failure: Option<Failure>)
    ensures
        failure == conflict_of(constraint@),
{
    if reads_as(constraint, "users_email_key") {
        Some(Failure::EmailTaken)
    } else if reads_as(constraint, "users_username_key") {
        Some(Failure::UsernameTaken)
    } else {
        None
    }
}

/// What is shown when the store refuses a new user; `constraint` names the
/// constraint that was violated, if one was.
pub fn creation_failure(error: StoreError, constraint: &String) -> (failure: Option<Failure>)
    ensures
        failure == creation_failure_of(error, constraint@),
{
    match error {
        StoreError::Database { kind, message } => match kind {
            DatabaseErrorKind::UniqueViolation => conflict(constraint),
            _ => Some(
                Failure::Store(StoreError::Database { kind: DatabaseErrorKind::Unknown, message }),
            ),
        },
        other => Some(Failure::Store(other)),
    }
}

} // verus!
