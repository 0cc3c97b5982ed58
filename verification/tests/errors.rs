use auth_core::errors::{
    map_error, AuthError, CredentialError, DatabaseErrorKind, StoreError, TokenError, UserError,
};

#[test]
fn status_codes_follow_the_error() {
    assert_eq!(UserError::UniqueViolation.status_code(), 400);
    assert_eq!(UserError::MismatchedPassword.status_code(), 401);
    assert_eq!(UserError::UserNotLoggedIn.status_code(), 401);
    assert_eq!(UserError::InternalServerError.status_code(), 500);
}

#[test]
fn messages_are_fixed_texts() {
    assert_eq!(UserError::InternalServerError.message(), "An internal error has occured!");
    assert_eq!(
        UserError::UniqueViolation.message(),
        "An item with the following data already exists in the database!"
    );
    assert_eq!(UserError::MismatchedPassword.message(), "The password is incorrect!");
    assert_eq!(UserError::UserNotLoggedIn.message(), "The user is not logged in.");
}

#[test]
fn unique_violation_is_the_only_named_database_error() {
    assert_eq!(UserError::from(DatabaseErrorKind::UniqueViolation), UserError::UniqueViolation);
    let others = [
        DatabaseErrorKind::ForeignKeyViolation,
        DatabaseErrorKind::UnableToSendCommand,
        DatabaseErrorKind::SerializationFailure,
        DatabaseErrorKind::ReadOnlyTransaction,
        DatabaseErrorKind::RestrictViolation,
        DatabaseErrorKind::NotNullViolation,
        DatabaseErrorKind::CheckViolation,
        DatabaseErrorKind::ExclusionViolation,
        DatabaseErrorKind::ClosedConnection,
        DatabaseErrorKind::Unknown,
    ];
    for kind in others {
        assert_eq!(UserError::from(kind), UserError::InternalServerError);
    }
}

#[test]
fn store_errors_map_to_what_the_client_is_told() {
    assert_eq!(
        map_error(StoreError::Database(DatabaseErrorKind::UniqueViolation)),
        UserError::UniqueViolation
    );
    assert_eq!(
        map_error(StoreError::Database(DatabaseErrorKind::ForeignKeyViolation)),
        UserError::InternalServerError
    );
    assert_eq!(map_error(StoreError::NotFound), UserError::InternalServerError);
    assert_eq!(map_error(StoreError::Query), UserError::InternalServerError);
    assert_eq!(map_error(StoreError::Canceled), UserError::InternalServerError);
}

#[test]
fn credential_errors_become_auth_errors() {
    assert_eq!(
        AuthError::from_credential_error(CredentialError::PasswordRejected),
        AuthError::InvalidCredentials
    );
    assert_eq!(
        AuthError::from_credential_error(CredentialError::MalformedStoredHash),
        AuthError::MalformedStoredHash
    );
    assert_eq!(
        AuthError::from_credential_error(CredentialError::HashingFailed),
        AuthError::ConfigurationError
    );
}

#[test]
fn token_errors_become_auth_errors() {
    assert_eq!(
        AuthError::from_token_error(TokenError::BadSignature),
        AuthError::TokenInvalidSignature
    );
    assert_eq!(AuthError::from_token_error(TokenError::Malformed), AuthError::TokenMalformed);
    assert_eq!(AuthError::from_token_error(TokenError::Expired), AuthError::TokenExpired);
    assert_eq!(
        AuthError::from_token_error(TokenError::AlgorithmMismatch),
        AuthError::AlgorithmMismatch
    );
    assert_eq!(
        AuthError::from_token_error(TokenError::Unissuable),
        AuthError::ConfigurationError
    );
}

#[test]
fn session_failures_are_told_alike() {
    let session = [
        AuthError::TokenExpired,
        AuthError::TokenInvalidSignature,
        AuthError::TokenMalformed,
        AuthError::AlgorithmMismatch,
    ];
    for e in session {
        assert_eq!(UserError::from_auth_error(e), UserError::UserNotLoggedIn);
    }
}

#[test]
fn other_auth_errors_are_told_as_little_as_possible() {
    assert_eq!(
        UserError::from_auth_error(AuthError::InvalidCredentials),
        UserError::MismatchedPassword
    );
    assert_eq!(
        UserError::from_auth_error(AuthError::DuplicateRegistration),
        UserError::UniqueViolation
    );
    assert_eq!(
        UserError::from_auth_error(AuthError::MalformedStoredHash),
        UserError::InternalServerError
    );
    assert_eq!(
        UserError::from_auth_error(AuthError::ConfigurationError),
        UserError::InternalServerError
    );
}

#[test]
fn unique_violation_on_insert_is_a_duplicate_registration() {
    let duplicate = StoreError::Database(DatabaseErrorKind::UniqueViolation);
    assert_eq!(AuthError::from_failed_insert(duplicate), Some(AuthError::DuplicateRegistration));
    assert_eq!(
        UserError::from_auth_error(AuthError::DuplicateRegistration),
        map_error(duplicate)
    );
    for other in [
        StoreError::Database(DatabaseErrorKind::CheckViolation),
        StoreError::NotFound,
        StoreError::Query,
        StoreError::Canceled,
    ] {
        assert_eq!(AuthError::from_failed_insert(other), None);
    }
}
