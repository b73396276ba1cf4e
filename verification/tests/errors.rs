use api::errors::{
    ApiError, BlockingFailure, DatabaseErrorKind, Failure, ParseFailure, StoreError,
};

fn database(kind: DatabaseErrorKind, message: &str) -> StoreError {
    StoreError::Database { kind, message: message.to_string() }
}

#[test]
fn api_error_new_keeps_its_fields() {
    let e = ApiError::new(404, "record not found".to_string());
    assert_eq!(e.status_code, 404);
    assert_eq!(e.message, "record not found");
}

#[test]
fn unique_violation_is_a_conflict_with_the_stores_message() {
    let e = ApiError::from_store(database(DatabaseErrorKind::UniqueViolation, "duplicate key"));
    assert_eq!(e, ApiError::new(409, "duplicate key".to_string()));
}

#[test]
fn foreign_key_violation_is_internal() {
    let e = ApiError::from_store(database(DatabaseErrorKind::ForeignKeyViolation, "fk"));
    assert_eq!(e, ApiError::new(500, "Foreign key constraint violated: fk".to_string()));
}

#[test]
fn unable_to_send_command_is_internal() {
    let e = ApiError::from_store(database(DatabaseErrorKind::UnableToSendCommand, "too many"));
    assert_eq!(e, ApiError::new(500, "Unable to send command: too many".to_string()));
}

#[test]
fn serialization_failure_is_internal() {
    let e = ApiError::from_store(database(DatabaseErrorKind::SerializationFailure, "retry"));
    assert_eq!(
        e,
        ApiError::new(500, "Serializable transaction failed to commit: retry".to_string())
    );
}

#[test]
fn unknown_database_error_is_internal() {
    let e = ApiError::from_store(database(DatabaseErrorKind::Unknown, "odd"));
    assert_eq!(e, ApiError::new(500, "Unexpected database error: odd".to_string()));
}

#[test]
fn missing_record_is_not_found() {
    let e = ApiError::from_store(StoreError::NotFound);
    assert_eq!(e, ApiError::new(404, "record not found".to_string()));
}

#[test]
fn unavailable_store_is_internal() {
    let e = ApiError::from_store(StoreError::Unavailable { text: "timed out".to_string() });
    assert_eq!(
        e,
        ApiError::new(500, "Failed to retrieve database connection: timed out".to_string())
    );
}

#[test]
fn other_store_error_is_internal() {
    let e = ApiError::from_store(StoreError::Other { text: "nul byte".to_string() });
    assert_eq!(e, ApiError::new(500, "Diesel error: nul byte".to_string()));
}

#[test]
fn parse_failures_have_their_codes() {
    assert_eq!(
        ApiError::from_parse(ParseFailure::Incomplete),
        ApiError::new(400, "incomplete request".to_string())
    );
    assert_eq!(
        ApiError::from_parse(ParseFailure::TooLarge),
        ApiError::new(413, "payload is too large".to_string())
    );
    assert_eq!(
        ApiError::from_parse(ParseFailure::Io { text: "reset".to_string() }),
        ApiError::new(500, "an IO error occurred: reset".to_string())
    );
}

#[test]
fn blocking_failures_are_internal() {
    assert_eq!(
        ApiError::from_blocking(BlockingFailure::Error { text: "denied".to_string() }),
        ApiError::new(500, "failed to write to disk: denied".to_string())
    );
    assert_eq!(
        ApiError::from_blocking(BlockingFailure::Canceled),
        ApiError::new(500, "writing operation cancelled".to_string())
    );
}

#[test]
fn every_failure_has_its_code_and_reason() {
    let cases: Vec<(Failure, u16, &str)> = vec![
        (Failure::Unauthorized, 401, "unauthorized"),
        (Failure::Forbidden, 403, "user lacks permission for resource"),
        (Failure::DeploymentNotFound, 404, "specified deployment does not exist"),
        (Failure::AlreadyComplete, 403, "static files already registered for deployment"),
        (Failure::NotComplete, 406, "deployment is not yet complete"),
        (Failure::MissingField, 400, "form field 'static' is required"),
        (Failure::UnsupportedMedia, 400, "form field 'static' must be a zip file"),
        (Failure::InvalidArchive, 400, "invalid zip archive format"),
        (
            Failure::Encoding("key must be a string".to_string()),
            500,
            "failed to re-encode project configuration for hashing: key must be a string",
        ),
        (Failure::Store(StoreError::NotFound), 404, "record not found"),
        (Failure::Parse(ParseFailure::TooLarge), 413, "payload is too large"),
        (Failure::Blocking(BlockingFailure::Canceled), 500, "writing operation cancelled"),
        (
            Failure::Channel("pool timed out".to_string()),
            500,
            "Failed to retrieve redis connection: pool timed out",
        ),
        (Failure::Framework("session broke".to_string()), 500, "session broke"),
        (Failure::Protocol, 500, "unexpected answer"),
        (Failure::NotOwner, 403, "user lacks permission to access resource"),
        (Failure::ProjectName, 400, "field 'name' must match '^[a-zA-Z0-9_-]+$'"),
        (Failure::UsernameTooLong, 400, "field 'username' must be less than 64 characters"),
        (Failure::EmailLength, 400, "field 'email' must be between 5 and 254 characters"),
        (Failure::InvalidCredentials, 401, "invalid email or password"),
        (Failure::EmailTaken, 409, "user with specified email already exists"),
        (Failure::UsernameTaken, 409, "user with specified username already exists"),
        (Failure::Hashing("salt too short".to_string()), 500, "Failed to hash password: salt too short"),
        (Failure::Verifying("bad hash".to_string()), 500, "Failed to verify password: bad hash"),
    ];
    for (failure, status, reason) in cases {
        assert_eq!(failure.status(), status);
        let e = ApiError::from_failure(failure);
        assert_eq!(e.status_code, status);
        assert_eq!(e.message, reason);
    }
}

#[test]
fn client_errors_show_their_message() {
    let e = ApiError::new(403, "user lacks permission for resource".to_string());
    assert_eq!(e.response_status(), 403);
    assert_eq!(e.response_reason(), "user lacks permission for resource");
    let edge = ApiError::new(499, "almost".to_string());
    assert_eq!(edge.response_status(), 499);
    assert_eq!(edge.response_reason(), "almost");
}

#[test]
fn server_errors_hide_their_message() {
    let e = ApiError::new(500, "Diesel error: secret table".to_string());
    assert_eq!(e.response_status(), 500);
    assert_eq!(e.response_reason(), "internal server error");
    let high = ApiError::new(999, "detail".to_string());
    assert_eq!(high.response_status(), 999);
    assert_eq!(high.response_reason(), "internal server error");
}

#[test]
fn numbers_that_are_no_status_code_become_500() {
    for code in [0u16, 42, 99, 1000, 65535] {
        let e = ApiError::new(code, "detail".to_string());
        assert_eq!(e.response_status(), 500);
        assert_eq!(e.response_reason(), "internal server error");
    }
    assert_eq!(ApiError::new(100, "continue".to_string()).response_status(), 100);
}
