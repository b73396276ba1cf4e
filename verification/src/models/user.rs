//! User records, and the hashing of their passwords.

use crate::errors::Failure;
use crate::ident::{fresh_id, now, Timestamp};
use vstd::prelude::*;
use vstd::utf8::encode_utf8;

verus! {

/// What a caller submits to register or change a user.
#[derive(Clone, Debug, PartialEq, Eq)]
pub struct UserMessage {
    pub email: String,
    pub password: String,
    pub username: String,
}

/// A stored user. The password is kept as its encoded hash.
#[derive(Clone, Debug, PartialEq, Eq)]
pub struct User {
    pub id: u128,
    pub email: String,
    pub username: String,
    pub password: String,
    pub created_at: Timestamp,
}

/// The number of bytes of the salt that a password is hashed with.
pub const SALT_BYTES: usize = 32;

/// The encoded Argon2id hash of a password under a salt, or why there is
/// none.
pub uninterp spec fn argon2id_encoding(password: Seq<u8>, salt: Seq<u8>) -> Result<
    Seq<char>,
    Seq<char>,
>;

/// Whether a password has the given encoded hash, or why that cannot be
/// told.
pub uninterp spec fn argon2_verification(encoded: Seq<char>, password: Seq<u8>) -> Result<
    bool,
    Seq<char>,
>;

/// Whether `hashed` and `out` are what hashing the password of `user` under
/// a salt comes to: the password is replaced by its encoded hash, or the
/// user is left as it is and the failure says why.
pub open spec fn hashed_under(user: User, salt: Seq<u8>, hashed: User, out: Result<(), Failure>)
    -> bool {
    match argon2id_encoding(encode_utf8(user.password@), salt) {
        Ok(encoded) => {
            &&& out is Ok
            &&& hashed.password@ == encoded
            &&& hashed.id == user.id
            &&& hashed.email == user.email
            &&& hashed.username == user.username
            &&& hashed.created_at == user.created_at
        },
        Err(reason) => {
            &&& out matches Err(Failure::Hashing(text))
            &&& text@ == reason
            &&& hashed == user
        },
    }
}

/// `rand::thread_rng` and `Rng::gen` for an array of 32 bytes: a random
/// salt. Nothing is claimed of its bytes.
#[verifier::external_body]
fn random_salt() -> (salt: Vec<u8>)
    ensures
        salt@.len() == SALT_BYTES,
{
    let salt: [u8; 32] = rand::Rng::gen(&mut rand::thread_rng());
    salt.to_vec()
}

/// `argon2::hash_encoded` with the default configuration in the variant
/// Argon2id: the encoded hash is a function of the password and the salt;
/// an error is given by its text.
#[verifier::external_body]
fn argon2_hash(password: &[u8], salt: &[u8]) -> (out: Result<String, String>)
    ensures
        match argon2id_encoding(password@, salt@) {
            Ok(encoded) => out matches Ok(text) && text@ == encoded,
            Err(reason) => out matches Err(text) && text@ == reason,
        },
{
    let config = argon2::Config { variant: argon2::Variant::Argon2id, ..argon2::Config::default() };
    match argon2::hash_encoded(password, salt, &config) {
        Ok(encoded) => Ok(encoded),
        Err(error) => Err(error.to_string()),
    }
}

/// `argon2::verify_encoded`: whether the password has the encoded hash; an
/// error is given by its text.
#[verifier::external_body]
fn argon2_verify(encoded: &str, password: &[u8]) -> (out: Result<bool, String>)
    ensures
        match argon2_verification(encoded@, password@) {
            Ok(matches) => out == Ok::<bool, String>(matches),
            Err(reason) => out matches Err(text) && text@ == reason,
        },
{
    match argon2::verify_encoded(encoded, password) {
        Ok(matches) => Ok(matches),
        Err(error) => Err(error.to_string()),
    }
}

impl User {
    /// The record of a user who registers, under the given identifier and
    /// made at the given time. The password is still as it was submitted.
    pub fn with_id(id: u128, user: UserMessage, created_at: Timestamp) -> (row: User)
        ensures
            row.id == id,
            row.email == user.email,
            row.username == user.username,
            row.password == user.password,
            row.created_at == created_at,
    {
        User { id, email: user.email, username: user.username, password: user.password, created_at }
    }

    /// The record of a user who registers, under a fresh identifier and made
    /// now.
    pub fn from(user: UserMessage) -> (row: User)
        ensures
            row.email == user.email,
            row.username == user.username,
            row.password == user.password,
    {
        User::with_id(fresh_id(), user, now())
    }

    /// What is stored when a user changes: the e-mail address and password
    /// as submitted; the user name is cleared.
    pub fn update(user: UserMessage) -> (changes: UserMessage)
        ensures
            changes.email == user.email,
            changes.password == user.password,
            changes.username@ == Seq::<char>::empty(),
    {
        UserMessage { email: user.email, password: user.password, username: String::new() }
    }

    /// Replaces the password by its encoded hash under the given salt.
    pub fn hash_password_with(&mut self, salt: &[u8]) -> (out: Result<(), Failure>)
        ensures
            hashed_under(*old(self), salt@, *final(self), out),
    {
        match argon2_hash(self.password.as_str().as_bytes(), salt) {
            Ok(encoded) => {
                self.password = encoded;
                Ok(())
            },
            Err(reason) => Err(Failure::Hashing(reason)),
        }
    }

    /// Replaces the password by its encoded hash under a random salt of 32
    /// bytes.
    pub fn hash_password(&mut self) -> (out: Result<(), Failure>)
        ensures
            exists|salt: Seq<u8>|
                salt.len() == SALT_BYTES && #[trigger] hashed_under(
                    *old(self),
                    salt,
                    *final(self),
                    out,
                ),
    {
        let salt = random_salt();
        let out = self.hash_password_with(salt.as_slice());
        assert(hashed_under(*old(self), salt@, *self, out));
        out
    }

    /// Whether a password is the one whose hash the user has.
    pub fn verify_password(&self, password: &[u8]) -> (out: Result<bool, Failure>)
        ensures
            match argon2_verification(self.password@, password@) {
                Ok(matches) => out == Ok::<bool, Failure>(matches),
                Err(reason) => out matches Err(Failure::Verifying(text)) && text@ == reason,
            },
    {
        match argon2_verify(self.password.as_str(), password) {
            Ok(matches) => Ok(matches),
            Err(reason) => Err(Failure::Verifying(reason)),
        }
    }
}

} // verus!
