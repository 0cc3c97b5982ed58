//! The records that the authentication service reads and produces: a stored
//! user, a user about to be stored, and the two request payloads.

use vstd::prelude::*;
use crate::errors::{CredentialError, TokenError};
use crate::jwt::{issue_token, Algorithm, IntoJwt, JwtConfig};
use crate::password::{argon2_report, check_password, verdict_of, verify_outcome};

verus! {

/// What a client sends to register.
#[derive(Clone, PartialEq, Eq)]
pub struct NewUserPayload {
    pub username: String,
    pub password: String,
    pub email: String,
}

/// What a client sends to log in.
#[derive(Clone, PartialEq, Eq)]
pub struct UserLoginPayload {
    pub email: String,
    pub password: String,
}

/// A user as the store holds it. The service receives a copy and never
/// changes it.
#[derive(Debug, Clone, PartialEq, Eq)]
pub struct User {
    pub id: String,
    pub username: String,
    pub password_hash: String,
    pub password_salt: String,
    pub email: String,
}

/// A user that is ready to be stored: the credential of a registration,
/// without the identifier that the store will give it.
#[derive(Debug, Clone, PartialEq, Eq)]
pub struct UserChangeset {
    pub username: String,
    pub password_hash: String,
    pub password_salt: String,
    pub email: String,
}

/// The model of [`NewUserPayload`].
pub struct Registration {
    pub username: Seq<char>,
    pub password: Seq<char>,
    pub email: Seq<char>,
}

/// The model of [`UserLoginPayload`].
pub struct LoginAttempt {
    pub email: Seq<char>,
    pub password: Seq<char>,
}

/// The model of [`User`].
pub struct Account {
    pub id: Seq<char>,
    pub username: Seq<char>,
    pub password_hash: Seq<char>,
    pub password_salt: Seq<char>,
    pub email: Seq<char>,
}

/// The model of [`UserChangeset`].
pub struct Credential {
    pub username: Seq<char>,
    pub password_hash: Seq<char>,
    pub password_salt: Seq<char>,
    pub email: Seq<char>,
}

impl View for NewUserPayload {
    type V = Registration;

    open spec fn view(&self) -> Registration {
        Registration { username: self.username@, password: self.password@, email: self.email@ }
    }
}

impl View for UserLoginPayload {
    type V = LoginAttempt;

    open spec fn view(&self) -> LoginAttempt {
        LoginAttempt { email: self.email@, password: self.password@ }
    }
}

impl View for User {
    type V = Account;

    open spec fn view(&self) -> Account {
        Account {
            id: self.id@,
            username: self.username@,
            password_hash: self.password_hash@,
            password_salt: self.password_salt@,
            email: self.email@,
        }
    }
}

impl View for UserChangeset {
    type V = Credential;

    open spec fn view(&self) -> Credential {
        Credential {
            username: self.username@,
            password_hash: self.password_hash@,
            password_salt: self.password_salt@,
            email: self.email@,
        }
    }
}

impl User {
    /// Checks `password` against the user's stored hash, by Argon2. A stored
    /// hash that cannot be checked against is an error, not a mismatch.
    pub fn check_login(self, password: String) -> (r: Result<bool, CredentialError>)
        ensures
            r == verify_outcome(verdict_of(argon2_report(password@, self.password_hash@))),
    {
        check_password(self.password_hash, password)
    }
}

impl IntoJwt for User {
    open spec fn subject(&self) -> Seq<char> {
        self.id@
    }

    fn into_jwt(
        self,
        current_timestamp: usize,
        duration: usize,
        algorithm: Algorithm,
        key: &str,
    ) -> (r: Result<String, TokenError>) {
        let config = JwtConfig { algorithm, secret: key.to_owned() };
        issue_token(self.id, current_timestamp, duration, &config)
    }
}

} // verus!
