//! Errors as values: what went wrong, and the status code and reason a caller
//! is shown for it.

use vstd::prelude::*;
use vstd::string::*;

verus! {

/// An error as a caller sees it: a status code and a short reason.
#[derive(Clone, Debug, PartialEq, Eq)]
pub struct ApiError {
    pub status_code: u16,
    pub message: String,
}

/// The mathematical content of an [`ApiError`].
pub struct ApiErrorView {
    pub status_code: u16,
    pub message: Seq<char>,
}

impl View for ApiError {
    type V = ApiErrorView;

    open spec fn view(&self) -> ApiErrorView {
        ApiErrorView { status_code: self.status_code, message: self.message@ }
    }
}

/// Why the relational store turned a statement down.
#[derive(Clone, Debug, PartialEq, Eq)]
pub enum DatabaseErrorKind {
    UniqueViolation,
    ForeignKeyViolation,
    UnableToSendCommand,
    SerializationFailure,
    Unknown,
}

/// A failure reported by the relational store.
#[derive(Clone, Debug, PartialEq, Eq)]
pub enum StoreError {
    /// The store answered with an error of the given kind and message.
    Database { kind: DatabaseErrorKind, message: String },
    /// A query that needs one row found none.
    NotFound,
    /// No connection to the store could be had.
    Unavailable { text: String },
    /// Any other failure, rendered as text.
    Other { text: String },
}

/// A failure while reading the parts of a request body.
#[derive(Clone, Debug, PartialEq, Eq)]
pub enum ParseFailure {
    Incomplete,
    TooLarge,
    Io { text: String },
}

/// A failure of work that was handed to the worker pool.
#[derive(Clone, Debug, PartialEq, Eq)]
pub enum BlockingFailure {
    Error { text: String },
    Canceled,
}

/// Every way in which an operation of this library fails.
#[derive(Clone, Debug, PartialEq, Eq)]
pub enum Failure {
    /// The request carries no authenticated user.
    Unauthorized,
    /// The caller does not own the project.
    Forbidden,
    /// The deployment does not belong to the project.
    DeploymentNotFound,
    /// Assets were already ingested for the deployment.
    AlreadyComplete,
    /// The deployment's assets were not ingested yet.
    NotComplete,
    /// The upload ended without the part named `static`.
    MissingField,
    /// The part named `static` is not declared to be a zip archive.
    UnsupportedMedia,
    /// The uploaded bytes are no readable zip archive.
    InvalidArchive,
    /// The definition could not be brought into its canonical encoding.
    Encoding(String),
    /// The relational store failed.
    Store(StoreError),
    /// The request body could not be read.
    Parse(ParseFailure),
    /// Writing a blob failed.
    Blocking(BlockingFailure),
    /// No connection to the broadcast channel could be had.
    Channel(String),
    /// The web framework failed; the text is its own.
    Framework(String),
    /// An answer arrived that the operation was not waiting for.
    Protocol,
    /// The caller does not own the project that is read or changed.
    NotOwner,
    /// A project's name has a character that is not allowed, or none.
    ProjectName,
    /// A user name is too long.
    UsernameTooLong,
    /// An e-mail address is too short or too long.
    EmailLength,
    /// No user has the e-mail address, or the password is wrong.
    InvalidCredentials,
    /// Another user has the e-mail address.
    EmailTaken,
    /// Another user has the user name.
    UsernameTaken,
    /// A password could not be hashed.
    Hashing(String),
    /// A password could not be checked against its hash.
    Verifying(String),
}

/// The status code shown for a store failure.
pub open spec fn store_status(error: StoreError) -> u16 {
    match error {
        StoreError::Database { kind: DatabaseErrorKind::UniqueViolation, .. } => 409,
        StoreError::Database { .. } => 500,
        StoreError::NotFound => 404,
        StoreError::Unavailable { .. } => 500,
        StoreError::Other { .. } => 500,
    }
}

/// The reason shown for a store failure.
pub open spec fn store_message(error: StoreError) -> Seq<char> {
    match error {
        StoreError::Database { kind, message } => match kind {
            DatabaseErrorKind::UniqueViolation => message@,
            DatabaseErrorKind::ForeignKeyViolation => "Foreign key constraint violated: "@
                + message@,
            DatabaseErrorKind::UnableToSendCommand => "Unable to send command: "@ + message@,
            DatabaseErrorKind::SerializationFailure => "Serializable transaction failed to commit: "@
                + message@,
            DatabaseErrorKind::Unknown => "Unexpected database error: "@ + message@,
        },
        StoreError::NotFound => "record not found"@,
        StoreError::Unavailable { text } => "Failed to retrieve database connection: "@ + text@,
        StoreError::Other { text } => "Diesel error: "@ + text@,
    }
}

/// The status code shown for a failure while reading a request body.
pub open spec fn parse_status(error: ParseFailure) -> u16 {
    match error {
        ParseFailure::Incomplete => 400,
        ParseFailure::TooLarge => 413,
        ParseFailure::Io { .. } => 500,
    }
}

/// The reason shown for a failure while reading a request body.
pub open spec fn parse_message(error: ParseFailure) -> Seq<char> {
    match error {
        ParseFailure::Incomplete => "incomplete request"@,
        ParseFailure::TooLarge => "payload is too large"@,
        ParseFailure::Io { text } => "an IO error occurred: "@ + text@,
    }
}

/// The reason shown for a failure of offloaded work.
pub open spec fn blocking_message(error: BlockingFailure) -> Seq<char> {
    match error {
        BlockingFailure::Error { text } => "failed to write to disk: "@ + text@,
        BlockingFailure::Canceled => "writing operation cancelled"@,
    }
}

/// The status code shown for a failure.
pub open spec fn failure_status(failure: Failure) -> u16 {
    match failure {
        Failure::Unauthorized => 401,
        Failure::Forbidden => 403,
        Failure::DeploymentNotFound => 404,
        Failure::AlreadyComplete => 403,
        Failure::NotComplete => 406,
        Failure::MissingField => 400,
        Failure::UnsupportedMedia => 400,
        Failure::InvalidArchive => 400,
        Failure::Encoding(_) => 500,
        Failure::Store(error) => store_status(error),
        Failure::Parse(error) => parse_status(error),
        Failure::Blocking(_) => 500,
        Failure::Channel(_) => 500,
        Failure::Framework(_) => 500,
        Failure::Protocol => 500,
        Failure::NotOwner => 403,
        Failure::ProjectName => 400,
        Failure::UsernameTooLong => 400,
        Failure::EmailLength => 400,
        Failure::InvalidCredentials => 401,
        Failure::EmailTaken => 409,
        Failure::UsernameTaken => 409,
        Failure::Hashing(_) => 500,
        Failure::Verifying(_) => 500,
    }
}

/// The reason shown for a failure.
pub open spec fn failure_message(failure: Failure) -> Seq<char> {
    match failure {
        Failure::Unauthorized => "unauthorized"@,
        Failure::Forbidden => "user lacks permission for resource"@,
        Failure::DeploymentNotFound => "specified deployment does not exist"@,
        Failure::AlreadyComplete => "static files already registered for deployment"@,
        Failure::NotComplete => "deployment is not yet complete"@,
        Failure::MissingField => "form field 'static' is required"@,
        Failure::UnsupportedMedia => "form field 'static' must be a zip file"@,
        Failure::InvalidArchive => "invalid zip archive format"@,
        Failure::Encoding(text) => "failed to re-encode project configuration for hashing: "@
            + text@,
        Failure::Store(error) => store_message(error),
        Failure::Parse(error) => parse_message(error),
        Failure::Blocking(error) => blocking_message(error),
        Failure::Channel(text) => "Failed to retrieve redis connection: "@ + text@,
        Failure::Framework(text) => text@,
        Failure::Protocol => "unexpected answer"@,
        Failure::NotOwner => "user lacks permission to access resource"@,
        Failure::ProjectName => "field 'name' must match '^[a-zA-Z0-9_-]+$'"@,
        Failure::UsernameTooLong => "field 'username' must be less than 64 characters"@,
        Failure::EmailLength => "field 'email' must be between 5 and 254 characters"@,
        Failure::InvalidCredentials => "invalid email or password"@,
        Failure::EmailTaken => "user with specified email already exists"@,
        Failure::UsernameTaken => "user with specified username already exists"@,
        Failure::Hashing(text) => "Failed to hash password: "@ + text@,
        Failure::Verifying(text) => "Failed to verify password: "@ + text@,
    }
}

/// The error a caller is shown for a failure.
pub open spec fn failure_error(failure: Failure) -> ApiErrorView {
    ApiErrorView { status_code: failure_status(failure), message: failure_message(failure) }
}

/// Whether a number is a status code that a response can carry.
pub open spec fn is_status_code(code: u16) -> bool {
    100 <= code < 1000
}

/// The status code of the response that reports an error: its own where that
/// is a status code, else 500.
pub open spec fn response_status_of(error: ApiErrorView) -> u16 {
    if is_status_code(error.status_code) {
        error.status_code
    } else {
        500
    }
}

/// The reason in the response that reports an error. Below 500 the caller is
/// told the error's message; from 500 on only that the server failed.
pub open spec fn response_reason_of(error: ApiErrorView) -> Seq<char> {
    if response_status_of(error) < 500 {
        error.message
    } else {
        "internal server error"@
    }
}

/// A fixed text followed by a detail.
fn prefixed(prefix: &str, detail: String) -> (text: String)
    ensures
        text@ == prefix@ + detail@,
{
    String::from_str(prefix).concat(detail.as_str())
}

impl Failure {
    /// The status code shown for this failure.
    pub fn status(&self) -> (status: u16)
        ensures
            status == failure_status(*self),
    {
        match self {
            Failure::Unauthorized => 401,
            Failure::Forbidden => 403,
            Failure::DeploymentNotFound => 404,
            Failure::AlreadyComplete => 403,
            Failure::NotComplete => 406,
            Failure::MissingField => 400,
            Failure::UnsupportedMedia => 400,
            Failure::InvalidArchive => 400,
            Failure::Encoding(_) => 500,
            Failure::Store(error) => match error {
                StoreError::Database { kind: DatabaseErrorKind::UniqueViolation, .. } => 409,
                StoreError::NotFound => 404,
                _ => 500,
            },
            Failure::Parse(error) => match error {
                ParseFailure::Incomplete => 400,
                ParseFailure::TooLarge => 413,
                ParseFailure::Io { .. } => 500,
            },
            Failure::Blocking(_) => 500,
            Failure::Channel(_) => 500,
            Failure::Framework(_) => 500,
            Failure::Protocol => 500,
            Failure::NotOwner => 403,
            Failure::ProjectName => 400,
            Failure::UsernameTooLong => 400,
            Failure::EmailLength => 400,
            Failure::InvalidCredentials => 401,
            Failure::EmailTaken => 409,
            Failure::UsernameTaken => 409,
            Failure::Hashing(_) => 500,
            Failure::Verifying(_) => 500,
        }
    }
}

impl ApiError {
    /// Builds an error from its status code and message.
    pub fn new(status_code: u16, message: String) -> (e: ApiError)
        ensures
            e.status_code == status_code,
            e.message == message,
    {
        ApiError { status_code, message }
    }

    /// The error shown for a failure of the relational store.
    pub fn from_store(error: StoreError) -> (e: ApiError)
        ensures
            e.status_code == store_status(error),
            e.message@ == store_message(error),
    {
        match error {
            StoreError::Database { kind, message } => match kind {
                DatabaseErrorKind::UniqueViolation => ApiError::new(409, message),
                DatabaseErrorKind::ForeignKeyViolation => ApiError::new(
                    500,
                    prefixed("Foreign key constraint violated: ", message),
                ),
                DatabaseErrorKind::UnableToSendCommand => ApiError::new(
                    500,
                    prefixed("Unable to send command: ", message),
                ),
                DatabaseErrorKind::SerializationFailure => ApiError::new(
                    500,
                    prefixed("Serializable transaction failed to commit: ", message),
                ),
                DatabaseErrorKind::Unknown => ApiError::new(
                    500,
                    prefixed("Unexpected database error: ", message),
                ),
            },
            StoreError::NotFound => ApiError::new(404, String::from_str("record not found")),
            StoreError::Unavailable { text } => ApiError::new(
                500,
                prefixed("Failed to retrieve database connection: ", text),
            ),
            StoreError::Other { text } => ApiError::new(500, prefixed("Diesel error: ", text)),
        }
    }

    /// The error shown for a failure while reading a request body.
    pub fn from_parse(error: ParseFailure) -> (e: ApiError)
        ensures
            e.status_code == parse_status(error),
            e.message@ == parse_message(error),
    {
        match error {
            ParseFailure::Incomplete => ApiError::new(400, String::from_str("incomplete request")),
            ParseFailure::TooLarge => ApiError::new(413, String::from_str("payload is too large")),
            ParseFailure::Io { text } => ApiError::new(
                500,
                prefixed("an IO error occurred: ", text),
            ),
        }
    }

    /// The error shown for a failure of offloaded work.
    pub fn from_blocking(error: BlockingFailure) -> (e: ApiError)
        ensures
            e.status_code == 500,
            e.message@ == blocking_message(error),
    {
        match error {
            BlockingFailure::Error { text } => ApiError::new(
                500,
                prefixed("failed to write to disk: ", text),
            ),
            BlockingFailure::Canceled => ApiError::new(
                500,
                String::from_str("writing operation cancelled"),
            ),
        }
    }

    /// The error shown for a failure, whatever its kind.
    pub fn from_failure(failure: Failure) -> (e: ApiError)
        ensures
            e@ == failure_error(failure),
    {
        match failure {
            Failure::Unauthorized => ApiError::new(401, String::from_str("unauthorized")),
            Failure::Forbidden => ApiError::new(
                403,
                String::from_str("user lacks permission for resource"),
            ),
            Failure::DeploymentNotFound => ApiError::new(
                404,
                String::from_str("specified deployment does not exist"),
            ),
            Failure::AlreadyComplete => ApiError::new(
                403,
                String::from_str("static files already registered for deployment"),
            ),
            Failure::NotComplete => ApiError::new(
                406,
                String::from_str("deployment is not yet complete"),
            ),
            Failure::MissingField => ApiError::new(
                400,
                String::from_str("form field 'static' is required"),
            ),
            Failure::UnsupportedMedia => ApiError::new(
                400,
                String::from_str("form field 'static' must be a zip file"),
            ),
            Failure::InvalidArchive => ApiError::new(
                400,
                String::from_str("invalid zip archive format"),
            ),
            Failure::Encoding(text) => ApiError::new(
                500,
                prefixed("failed to re-encode project configuration for hashing: ", text),
            ),
            Failure::Store(error) => ApiError::from_store(error),
            Failure::Parse(error) => ApiError::from_parse(error),
            Failure::Blocking(error) => ApiError::from_blocking(error),
            Failure::Channel(text) => ApiError::new(
                500,
                prefixed("Failed to retrieve redis connection: ", text),
            ),
            Failure::Framework(text) => ApiError::new(500, text),
            Failure::Protocol => ApiError::new(500, String::from_str("unexpected answer")),
            Failure::NotOwner => ApiError::new(
                403,
                String::from_str("user lacks permission to access resource"),
            ),
            Failure::ProjectName => ApiError::new(
                400,
                String::from_str("field 'name' must match '^[a-zA-Z0-9_-]+$'"),
            ),
            Failure::UsernameTooLong => ApiError::new(
                400,
                String::from_str("field 'username' must be less than 64 characters"),
            ),
            Failure::EmailLength => ApiError::new(
                400,
                String::from_str("field 'email' must be between 5 and 254 characters"),
            ),
            Failure::InvalidCredentials => ApiError::new(
                401,
                String::from_str("invalid email or password"),
            ),
            Failure::EmailTaken => ApiError::new(
                409,
                String::from_str("user with specified email already exists"),
            ),
            Failure::UsernameTaken => ApiError::new(
                409,
                String::from_str("user with specified username already exists"),
            ),
            Failure::Hashing(text) => ApiError::new(
                500,
                prefixed("Failed to hash password: ", text),
            ),
            Failure::Verifying(text) => ApiError::new(
                500,
                prefixed("Failed to verify password: ", text),
            ),
        }
    }

    /// The status code of the response that reports this error.
    pub fn response_status(&self) -> (status: u16)
        ensures
            status == response_status_of(self@),
            is_status_code(status),
    {
        if 100 <= self.status_code && self.status_code < 1000 {
            self.status_code
        } else {
            500
        }
    }

    /// The reason in the response that reports this error.
    pub fn response_reason(&self) -> (reason: String)
        ensures
            reason@ == response_reason_of(self@),
    {
        if self.response_status() < 500 {
            self.message.clone()
        } else {
            String::from_str("internal server error")
        }
    }
}

} // verus!
