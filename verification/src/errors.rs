//! The error kinds of the library and the maps between them.
//!
//! Three layers exist. [`CredentialError`] and [`TokenError`] are what the
//! password hasher and the token codec report. [`AuthError`] is what the
//! authentication service reports to the code around it. [`UserError`] is the
//! little that is told to the client: a status code and a fixed message.

use vstd::prelude::*;
use vstd::std_specs::convert::FromSpecImpl;

verus! {

/// Why hashing or checking a password did not yield an answer.
#[derive(Debug, Clone, Copy, PartialEq, Eq, Structural)]
pub enum CredentialError {
    /// The password is empty or longer than the accepted maximum.
    PasswordRejected,
    /// The stored hash cannot be read as a hash of the scheme in use.
    MalformedStoredHash,
    /// The hashing scheme refused the password and salt it was given.
    HashingFailed,
}

/// Why a token was not issued or not accepted.
#[derive(Debug, Clone, Copy, PartialEq, Eq, Structural)]
pub enum TokenError {
    /// The signature does not belong to the header and payload.
    BadSignature,
    /// The token does not consist of three readable segments, or its payload
    /// does not hold well-formed claims.
    Malformed,
    /// The token was valid and its expiry has passed.
    Expired,
    /// The header names an algorithm other than the configured one.
    AlgorithmMismatch,
    /// No token can be issued: the session would be empty, or would end after
    /// the largest timestamp.
    Unissuable,
}

/// What the authentication service reports.
#[derive(Debug, Clone, Copy, PartialEq, Eq, Structural)]
pub enum AuthError {
    /// Unknown identifier or wrong password; the two are not told apart.
    InvalidCredentials,
    /// A persisted hash is corrupted.
    MalformedStoredHash,
    TokenExpired,
    TokenInvalidSignature,
    TokenMalformed,
    AlgorithmMismatch,
    /// The store refused a registration because the data already exists.
    DuplicateRegistration,
    /// The signing or hashing configuration is unusable.
    ConfigurationError,
}

/// The kinds of database error that the store can report.
#[derive(Debug, Clone, Copy, PartialEq, Eq, Structural)]
pub enum DatabaseErrorKind {
    UniqueViolation,
    ForeignKeyViolation,
    UnableToSendCommand,
    SerializationFailure,
    ReadOnlyTransaction,
    RestrictViolation,
    NotNullViolation,
    CheckViolation,
    ExclusionViolation,
    ClosedConnection,
    Unknown,
}

/// How a call to the store failed.
#[derive(Debug, Clone, Copy, PartialEq, Eq, Structural)]
pub enum StoreError {
    /// The database reported an error of the given kind.
    Database(DatabaseErrorKind),
    /// The query ran and found no row.
    NotFound,
    /// The query failed before or outside the database.
    Query,
    /// The worker that ran the query was cancelled.
    Canceled,
}

/// What a client is told when a request fails.
#[derive(Debug, Clone, Copy, PartialEq, Eq, Structural)]
pub enum UserError {
    InternalServerError,
    UniqueViolation,
    MismatchedPassword,
    UserNotLoggedIn,
}

impl AuthError {
    /// The service-level kind of a password hasher's error. A rejected password
    /// counts as invalid credentials; a hasher that cannot hash is misconfigured.
    pub open spec fn of_credential_error(e: CredentialError) -> AuthError {
        match e {
            CredentialError::PasswordRejected => AuthError::InvalidCredentials,
            CredentialError::MalformedStoredHash => AuthError::MalformedStoredHash,
            CredentialError::HashingFailed => AuthError::ConfigurationError,
        }
    }

    /// The service-level kind of a token codec's error.
    pub open spec fn of_token_error(e: TokenError) -> AuthError {
        match e {
            TokenError::BadSignature => AuthError::TokenInvalidSignature,
            TokenError::Malformed => AuthError::TokenMalformed,
            TokenError::Expired => AuthError::TokenExpired,
            TokenError::AlgorithmMismatch => AuthError::AlgorithmMismatch,
            TokenError::Unissuable => AuthError::ConfigurationError,
        }
    }

    /// The service-level kind of a failed insert, where it has one: a
    /// unique-constraint violation is a duplicate registration.
    pub open spec fn of_failed_insert(e: StoreError) -> Option<AuthError> {
        if e == StoreError::Database(DatabaseErrorKind::UniqueViolation) {
            Some(AuthError::DuplicateRegistration)
        } else {
            None
        }
    }

    /// The service-level kind of a failed insert, where it has one.
    pub fn from_failed_insert(e: StoreError) -> (r: Option<AuthError>)
        ensures
            r == AuthError::of_failed_insert(e),
    {
        match e {
            StoreError::Database(DatabaseErrorKind::UniqueViolation) => {
                Some(AuthError::DuplicateRegistration)
            },
            _ => None,
        }
    }

    /// The service-level kind of a password hasher's error.
    pub fn from_credential_error(e: CredentialError) -> (r: AuthError)
        ensures
            r == AuthError::of_credential_error(e),
    {
        match e {
            CredentialError::PasswordRejected => AuthError::InvalidCredentials,
            CredentialError::MalformedStoredHash => AuthError::MalformedStoredHash,
            CredentialError::HashingFailed => AuthError::ConfigurationError,
        }
    }

    /// The service-level kind of a token codec's error.
    pub fn from_token_error(e: TokenError) -> (r: AuthError)
        ensures
            r == AuthError::of_token_error(e),
    {
        match e {
            TokenError::BadSignature => AuthError::TokenInvalidSignature,
            TokenError::Malformed => AuthError::TokenMalformed,
            TokenError::Expired => AuthError::TokenExpired,
            TokenError::AlgorithmMismatch => AuthError::AlgorithmMismatch,
            TokenError::Unissuable => AuthError::ConfigurationError,
        }
    }

    /// Whether the error belongs to a token or session rather than to a login.
    pub open spec fn is_session_failure(self) -> bool {
        self == AuthError::TokenExpired || self == AuthError::TokenInvalidSignature || self
            == AuthError::TokenMalformed || self == AuthError::AlgorithmMismatch
    }
}

impl UserError {
    /// What a client is told for each service-level error: one answer for every
    /// login failure, one for every session failure, and nothing about the cause
    /// of an internal one.
    pub open spec fn exposing(e: AuthError) -> UserError {
        match e {
            AuthError::InvalidCredentials => UserError::MismatchedPassword,
            AuthError::DuplicateRegistration => UserError::UniqueViolation,
            AuthError::TokenExpired => UserError::UserNotLoggedIn,
            AuthError::TokenInvalidSignature => UserError::UserNotLoggedIn,
            AuthError::TokenMalformed => UserError::UserNotLoggedIn,
            AuthError::AlgorithmMismatch => UserError::UserNotLoggedIn,
            AuthError::MalformedStoredHash => UserError::InternalServerError,
            AuthError::ConfigurationError => UserError::InternalServerError,
        }
    }

    /// What a client is told for a service-level error.
    pub fn from_auth_error(e: AuthError) -> (r: UserError)
        ensures
            r == UserError::exposing(e),
    {
        match e {
            AuthError::InvalidCredentials => UserError::MismatchedPassword,
            AuthError::DuplicateRegistration => UserError::UniqueViolation,
            AuthError::TokenExpired | AuthError::TokenInvalidSignature | AuthError::TokenMalformed
            | AuthError::AlgorithmMismatch => UserError::UserNotLoggedIn,
            AuthError::MalformedStoredHash | AuthError::ConfigurationError => {
                UserError::InternalServerError
            },
        }
    }

    /// What a client is told for a database error: a unique-constraint violation
    /// is named, every other kind is an internal error.
    pub open spec fn of_database_error(kind: DatabaseErrorKind) -> UserError {
        if kind == DatabaseErrorKind::UniqueViolation {
            UserError::UniqueViolation
        } else {
            UserError::InternalServerError
        }
    }

    /// The HTTP status that goes with the error.
    pub open spec fn status(self) -> u16 {
        match self {
            UserError::UniqueViolation => 400,
            UserError::MismatchedPassword => 401,
            UserError::UserNotLoggedIn => 401,
            UserError::InternalServerError => 500,
        }
    }

    /// The HTTP status that goes with the error.
    pub fn status_code(&self) -> (code: u16)
        ensures
            code == self.status(),
    {
        match self {
            UserError::UniqueViolation => 400,
            UserError::MismatchedPassword => 401,
            UserError::UserNotLoggedIn => 401,
            UserError::InternalServerError => 500,
        }
    }

    /// The text that goes with the error.
    pub open spec fn text(self) -> Seq<char> {
        match self {
            UserError::InternalServerError => "An internal error has occured!"@,
            UserError::UniqueViolation => {
                "An item with the following data already exists in the database!"@
            },
            UserError::MismatchedPassword => "The password is incorrect!"@,
            UserError::UserNotLoggedIn => "The user is not logged in."@,
        }
    }

    /// The text that goes with the error.
    pub fn message(&self) -> (m: String)
        ensures
            m@ == self.text(),
    {
        match self {
            UserError::InternalServerError => "An internal error has occured!".to_owned(),
            UserError::UniqueViolation => {
                "An item with the following data already exists in the database!".to_owned()
            },
            UserError::MismatchedPassword => "The password is incorrect!".to_owned(),
            UserError::UserNotLoggedIn => "The user is not logged in.".to_owned(),
        }
    }
}

impl From<DatabaseErrorKind> for UserError {
    fn from(db_error_kind: DatabaseErrorKind) -> (r: UserError) {
        match db_error_kind {
            DatabaseErrorKind::UniqueViolation => UserError::UniqueViolation,
            _ => UserError::InternalServerError,
        }
    }
}

impl FromSpecImpl<DatabaseErrorKind> for UserError {
    open spec fn obeys_from_spec() -> bool {
        true
    }

    open spec fn from_spec(db_error_kind: DatabaseErrorKind) -> UserError {
        UserError::of_database_error(db_error_kind)
    }
}

/// What a client is told when a call to the store fails: a unique-constraint
/// violation is named, everything else is an internal error.
pub open spec fn store_failure(err: StoreError) -> UserError {
    match err {
        StoreError::Database(kind) => UserError::of_database_error(kind),
        _ => UserError::InternalServerError,
    }
}

/// Failures are told alike whichever way they are named: every failure of
/// a session is told as "not logged in", and a failed insert that is a duplicate
/// registration is told as the store's unique violation is.
pub proof fn failures_are_told_alike(e: AuthError, failure: StoreError)
    ensures
        e.is_session_failure() ==> UserError::exposing(e) == UserError::UserNotLoggedIn,
        AuthError::of_failed_insert(failure) matches Some(kind) ==> UserError::exposing(kind)
            == store_failure(failure),
{
}

/// What a client is told when a call to the store fails.
pub fn map_error(err: StoreError) -> (r: UserError)
    ensures
        r == store_failure(err),
{
    match err {
        StoreError::Database(db_error_kind) => UserError::from(db_error_kind),
        _ => UserError::InternalServerError,
    }
}

} // verus!
