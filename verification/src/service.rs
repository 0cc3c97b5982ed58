//! The authentication service: registration, login and the resolution of a
//! session token to its subject.
//!
//! The service stores nothing and looks nothing up. Registration returns the
//! record to store; login is handed the record that a lookup found, or none.

use vstd::prelude::*;
use crate::clock::now;
use crate::errors::{AuthError, CredentialError, UserError};
use crate::jwt::{
    decode_at,
    decode_inverts_encode,
    decoded,
    issue_token,
    session_token,
    Claims,
    JwtConfig,
    Signing,
};
use crate::password::{
    generate_salt,
    hash_outcome,
    is_salt,
    lemma_hash_differs_from_password,
    lemma_hash_differs_from_salt,
    verify_outcome,
    Argon2Hasher,
    CredentialHasher,
    Verdict,
    SALT_CHARS,
};
use crate::user::{Account, Credential, NewUserPayload, Registration, User, UserChangeset};

verus! {

/// How long a session lasts, in seconds: ten minutes.
pub const SESSION_SECONDS: usize = 600;

/// The record that registering yields for a payload under a salt, or the
/// error: the password's hash and the salt beside the name and the address.
pub open spec fn registered<H: CredentialHasher>(
    hasher: &H,
    registration: Registration,
    salt: Seq<char>,
) -> Result<Credential, AuthError> {
    match hash_outcome(registration.password, hasher.digest(registration.password, salt)) {
        Ok(hash) => Ok(
            Credential {
                username: registration.username,
                password_hash: hash,
                password_salt: salt,
                email: registration.email,
            },
        ),
        Err(e) => Err(AuthError::of_credential_error(e)),
    }
}

/// The token that a login yields, or the error.
///
/// No candidate and a wrong password give the same error. A token is issued
/// for the candidate's identifier only where the password verifies.
pub open spec fn logged_in<H: CredentialHasher>(
    hasher: &H,
    candidate: Option<Account>,
    password: Seq<char>,
    signing: Signing,
    now: int,
    ttl: int,
) -> Result<Seq<char>, AuthError> {
    match candidate {
        None => Err(AuthError::InvalidCredentials),
        Some(account) => match verify_outcome(hasher.verdict(password, account.password_hash)) {
            Err(e) => Err(AuthError::of_credential_error(e)),
            Ok(matches) => if !matches {
                Err(AuthError::InvalidCredentials)
            } else {
                match session_token(account.id, now, ttl, signing) {
                    Some(token) => Ok(token),
                    None => Err(AuthError::ConfigurationError),
                }
            },
        },
    }
}

/// The subject that a token resolves to at the time `now`, or the error.
pub open spec fn resolved(token: Seq<char>, signing: Signing, now: int) -> Result<
    Seq<char>,
    AuthError,
> {
    match decoded(token, signing, now) {
        Ok(claims) => Ok(claims.sub),
        Err(e) => Err(AuthError::of_token_error(e)),
    }
}

/// The model of what a lookup found.
pub open spec fn found(candidate: Option<&User>) -> Option<Account> {
    match candidate {
        Some(user) => Some(user@),
        None => None,
    }
}

/// The model of a registration result.
pub open spec fn stored(r: Result<UserChangeset, AuthError>) -> Result<Credential, AuthError> {
    match r {
        Ok(changeset) => Ok(changeset@),
        Err(e) => Err(e),
    }
}

/// The model of a result that holds a string.
pub open spec fn text(r: Result<String, AuthError>) -> Result<Seq<char>, AuthError> {
    match r {
        Ok(s) => Ok(s@),
        Err(e) => Err(e),
    }
}

/// Registers a user under the given salt: hashes the password and returns the
/// record to store. Whether the name or the address is taken is for the store
/// to say.
pub fn register_with_salt<H: CredentialHasher>(
    hasher: &H,
    payload: NewUserPayload,
    salt: String,
) -> (r: Result<UserChangeset, AuthError>)
    ensures
        stored(r) == registered(hasher, payload@, salt@),
{
    let NewUserPayload { username, email, password } = payload;
    match hasher.hash(password.as_str(), salt.as_str()) {
        Ok(password_hash) => Ok(
            UserChangeset { username, password_hash, password_salt: salt, email },
        ),
        Err(e) => Err(AuthError::from_credential_error(e)),
    }
}

/// Registers a user under a fresh salt.
pub fn register<H: CredentialHasher>(hasher: &H, payload: NewUserPayload) -> (r: Result<
    UserChangeset,
    AuthError,
>)
    ensures
        exists|salt: Seq<char>| is_salt(salt) && stored(r) == #[trigger] registered(
            hasher,
            payload@,
            salt,
        ),
{
    let salt = generate_salt();
    register_with_salt(hasher, payload, salt)
}

/// Whether a login succeeds: a candidate was found, the password is accepted
/// for its stored hash, and the session is not empty and ends at a machine
/// integer. Neither the signing configuration nor anything else in the request
/// has a say.
pub open spec fn login_succeeds<H: CredentialHasher>(
    hasher: &H,
    candidate: Option<Account>,
    password: Seq<char>,
    now: int,
    ttl: int,
) -> bool {
    candidate matches Some(account) && hasher.verdict(password, account.password_hash)
        == Verdict::Accepted && Claims::starting(account.id, now, ttl) is Some
}

/// Logs a user in at the time `now`, for a session of `ttl` seconds.
///
/// `candidate` is the record that a lookup by the identifier found, if it found
/// one. The outcome is fixed by the candidate, the password, the configuration
/// and the time, and a token is owed wherever the login succeeds.
pub fn login_at<H: CredentialHasher>(
    hasher: &H,
    candidate: Option<&User>,
    password: &str,
    config: &JwtConfig,
    now: usize,
    ttl: usize,
) -> (r: Result<String, AuthError>)
    ensures
        text(r) == logged_in(
            hasher,
            found(candidate),
            password@,
            config@,
            now as int,
            ttl as int,
        ),
        r is Ok <==> login_succeeds(hasher, found(candidate), password@, now as int, ttl as int),
{
    let user = match candidate {
        Some(user) => user,
        None => { return Err(AuthError::InvalidCredentials); },
    };
    match hasher.verify(password, user.password_hash.as_str()) {
        Err(e) => Err(AuthError::from_credential_error(e)),
        Ok(false) => Err(AuthError::InvalidCredentials),
        Ok(true) => match issue_token(user.id.clone(), now, ttl, config) {
            Ok(token) => Ok(token),
            Err(_) => Err(AuthError::ConfigurationError),
        },
    }
}

/// Logs a user in at the present time, for a session of [`SESSION_SECONDS`].
pub fn login<H: CredentialHasher>(
    hasher: &H,
    candidate: Option<&User>,
    password: &str,
    config: &JwtConfig,
) -> (r: Result<String, AuthError>)
    ensures
        exists|at: int|
            0 <= at <= usize::MAX && text(r) == #[trigger] logged_in(
                hasher,
                found(candidate),
                password@,
                config@,
                at,
                SESSION_SECONDS as int,
            ),
{
    let at = now();
    login_at(hasher, candidate, password, config, at, SESSION_SECONDS)
}

/// Resolves a session token to its subject at the time `now`.
///
/// The caller decides whether to fetch the subject's record again: that the
/// token is valid does not show that the subject still exists.
pub fn resolve_session_at(token: &str, config: &JwtConfig, now: usize) -> (r: Result<
    String,
    AuthError,
>)
    ensures
        text(r) == resolved(token@, config@, now as int),
        r matches Err(e) ==> e.is_session_failure(),
{
    match decode_at(token, config, now) {
        Ok(claims) => Ok(claims.sub),
        Err(e) => Err(AuthError::from_token_error(e)),
    }
}

/// Resolves a session token to its subject at the present time.
pub fn resolve_session(token: &str, config: &JwtConfig) -> (r: Result<String, AuthError>)
    ensures
        exists|at: int|
            0 <= at <= usize::MAX && text(r) == #[trigger] resolved(token@, config@, at),
        r matches Err(e) ==> e.is_session_failure(),
{
    let at = now();
    resolve_session_at(token, config, at)
}

/// Enumeration resistance: a login for an identifier that no record has and a
/// login with a wrong password fail with the same error, and the client is told
/// the same in both cases.
pub proof fn login_failures_are_alike<H: CredentialHasher>(
    hasher: &H,
    account: Account,
    wrong_password: Seq<char>,
    any_password: Seq<char>,
    signing: Signing,
    now: int,
    ttl: int,
)
    requires
        hasher.verdict(wrong_password, account.password_hash) == Verdict::Rejected,
    ensures
        logged_in(hasher, None, any_password, signing, now, ttl) == logged_in(
            hasher,
            Some(account),
            wrong_password,
            signing,
            now,
            ttl,
        ),
        logged_in(hasher, None, any_password, signing, now, ttl) == Err::<Seq<char>, AuthError>(
            AuthError::InvalidCredentials,
        ),
        UserError::exposing(AuthError::InvalidCredentials).text() == "The password is incorrect!"@,
{
}

/// A login fails in one of three ways, and none of them tells an unknown
/// identifier from a wrong password: the credentials are invalid, the stored
/// hash is corrupted, or no token can be issued.
pub proof fn login_fails_in_three_ways<H: CredentialHasher>(
    hasher: &H,
    candidate: Option<Account>,
    password: Seq<char>,
    signing: Signing,
    now: int,
    ttl: int,
)
    ensures
        logged_in(hasher, candidate, password, signing, now, ttl) matches Err(e) ==> e
            == AuthError::InvalidCredentials || e == AuthError::MalformedStoredHash || e
            == AuthError::ConfigurationError,
{
    if let Some(account) = candidate {
        let outcome = verify_outcome(hasher.verdict(password, account.password_hash));
        if let Err(e) = outcome {
            assert(e == CredentialError::MalformedStoredHash);
        }
    }
}

/// The life of a registered user's session: who registered with a password
/// logs in with it, unless no token can be issued; the session resolves to the
/// user's identifier up to and at its expiry, and to `TokenExpired` after it.
pub proof fn registered_user_has_a_session<H: CredentialHasher>(
    hasher: &H,
    registration: Registration,
    salt: Seq<char>,
    id: Seq<char>,
    signing: Signing,
    now: int,
    ttl: int,
    at: int,
)
    requires
        registered(hasher, registration, salt) is Ok,
    ensures
        ({
            let credential = registered(hasher, registration, salt)->Ok_0;
            let account = Account {
                id,
                username: credential.username,
                password_hash: credential.password_hash,
                password_salt: credential.password_salt,
                email: credential.email,
            };
            let login = logged_in(hasher, Some(account), registration.password, signing, now, ttl);
            &&& login is Ok || login == Err::<Seq<char>, AuthError>(AuthError::ConfigurationError)
            &&& login matches Ok(token) ==> resolved(token, signing, at) == if at <= now + ttl {
                Ok::<Seq<char>, AuthError>(id)
            } else {
                Err::<Seq<char>, AuthError>(AuthError::TokenExpired)
            }
        }),
{
    hasher.own_hash_accepted(registration.password, salt);
    if let Some(claims) = Claims::starting(id, now, ttl) {
        if 0 <= now && at <= claims.exp {
            decode_inverts_encode(claims, signing, at);
        }
    }
}

/// What a registration under a generated salt yields, whatever the scheme:
/// the salt, which is not empty, and a hash that is not empty and is not the
/// salt.
pub proof fn registration_yields_hash_and_salt<H: CredentialHasher>(
    hasher: &H,
    registration: Registration,
    salt: Seq<char>,
)
    requires
        is_salt(salt),
        registered(hasher, registration, salt) is Ok,
    ensures
        ({
            let credential = registered(hasher, registration, salt)->Ok_0;
            &&& credential.password_salt == salt
            &&& credential.password_salt.len() == SALT_CHARS
            &&& credential.password_hash.len() > 0
            &&& credential.password_hash != credential.password_salt
        }),
{
    hasher.hash_is_no_salt(registration.password, salt);
}

/// What a registration with Argon2 yields beyond that: a hash that is longer
/// than the salt, and that is not the password, for every password that does
/// not begin with `$`.
pub proof fn argon2_registration_hides_the_password(registration: Registration, salt: Seq<char>)
    requires
        registered(&Argon2Hasher, registration, salt) is Ok,
    ensures
        ({
            let credential = registered(&Argon2Hasher, registration, salt)->Ok_0;
            &&& credential.password_hash.len() > salt.len()
            &&& registration.password.len() > 0
            &&& registration.password[0] != '$' ==> credential.password_hash
                != registration.password
        }),
{
    let credential = registered(&Argon2Hasher, registration, salt)->Ok_0;
    lemma_hash_differs_from_salt(credential.password_hash, salt);
    assert(registration.password.len() > 0) by {
        if registration.password.len() == 0 {
            assert(registration.password =~= Seq::<char>::empty());
            reveal_with_fuel(vstd::utf8::encode_utf8, 1);
        }
    }
    if registration.password[0] != '$' {
        lemma_hash_differs_from_password(credential.password_hash, salt, registration.password);
    }
}

} // verus!
