use auth_core::errors::{DatabaseErrorKind, StoreError, UserError};
use auth_core::flow::{
    begin, begin_with_salt, resume, session_cookie, Pending, Reply, Request, SameSite,
    SessionPolicy, Step, StoreCall,
};
use auth_core::jwt::{Algorithm, JwtConfig};
use auth_core::password::{Argon2Hasher, CredentialHasher};
use auth_core::service::{login_at, resolve_session_at};
use auth_core::user::{NewUserPayload, User, UserLoginPayload};

const SALT: &str = "c29tZXNhbHRzb21lc2FsdA";
const NOW: usize = 1_700_000_000;

fn config() -> JwtConfig {
    JwtConfig { algorithm: Algorithm::HS512, secret: "a signing secret".to_string() }
}

fn policy() -> SessionPolicy {
    SessionPolicy::default()
}

fn rider() -> User {
    User {
        id: "user-7".to_string(),
        username: "rider".to_string(),
        password_hash: Argon2Hasher.hash("correct horse", SALT).unwrap(),
        password_salt: SALT.to_string(),
        email: "rider@example.com".to_string(),
    }
}

fn registration(password: &str) -> NewUserPayload {
    NewUserPayload {
        username: "rider".to_string(),
        password: password.to_string(),
        email: "rider@example.com".to_string(),
    }
}

fn attempt(password: &str) -> UserLoginPayload {
    UserLoginPayload { email: "rider@example.com".to_string(), password: password.to_string() }
}

fn candidate(password: &str) -> Pending {
    Pending::Candidate { password: password.to_string() }
}

fn session() -> String {
    login_at(&Argon2Hasher, Some(&rider()), "correct horse", &config(), NOW, 600).unwrap()
}

fn failed(error: UserError) -> Reply {
    Reply::Failed(error)
}

#[test]
fn registration_asks_the_store_to_create_the_user() {
    let request = Request::Register(registration("correct horse"));
    let step = begin_with_salt(&Argon2Hasher, request, &config(), NOW, SALT.to_string());
    match step {
        Step::Ask(StoreCall::Create(changeset), Pending::Creation) => {
            assert_eq!(changeset.username, "rider");
            assert_eq!(changeset.email, "rider@example.com");
            assert_eq!(changeset.password_salt, SALT);
            assert_eq!(changeset.password_hash, rider().password_hash);
        }
        _ => panic!("the registration did not ask for the user to be created"),
    }
}

#[test]
fn registration_with_a_fresh_salt() {
    let request = Request::Register(registration("correct horse"));
    match begin(&Argon2Hasher, request, &config(), NOW) {
        Step::Ask(StoreCall::Create(changeset), Pending::Creation) => {
            assert_eq!(changeset.password_salt.len(), 22);
            assert_ne!(changeset.password_salt, SALT);
            assert_eq!(Argon2Hasher.verify("correct horse", &changeset.password_hash), Ok(true));
        }
        _ => panic!("the registration did not ask for the user to be created"),
    }
}

#[test]
fn registration_with_an_empty_password_is_answered_at_once() {
    let step = begin(&Argon2Hasher, Request::Register(registration("")), &config(), NOW);
    assert!(step == Step::Answer(failed(UserError::MismatchedPassword)));
}

#[test]
fn created_user_is_the_answer_to_a_registration() {
    let reply = resume(&Argon2Hasher, Pending::Creation, Ok(rider()), &config(), NOW, &policy());
    assert!(reply == Reply::Found(rider()));
}

#[test]
fn duplicate_registration_is_a_unique_violation() {
    let taken = Err(StoreError::Database(DatabaseErrorKind::UniqueViolation));
    let reply = resume(&Argon2Hasher, Pending::Creation, taken, &config(), NOW, &policy());
    assert!(reply == failed(UserError::UniqueViolation));
    assert_eq!(UserError::UniqueViolation.status_code(), 400);
}

#[test]
fn login_asks_for_the_user_by_address() {
    let request = Request::Login(attempt("correct horse"));
    let step = begin(&Argon2Hasher, request, &config(), NOW);
    let expected = Step::Ask(
        StoreCall::GetByEmail("rider@example.com".to_string()),
        candidate("correct horse"),
    );
    assert!(step == expected);
}

#[test]
fn login_with_the_right_password_starts_a_session() {
    let pending = candidate("correct horse");
    match resume(&Argon2Hasher, pending, Ok(rider()), &config(), NOW, &policy()) {
        Reply::SessionStarted(cookie) => {
            assert_eq!(cookie.name, "user_jwt");
            assert!(cookie.http_only);
            assert!(cookie.secure);
            assert_eq!(cookie.same_site, SameSite::CrossSite);
            assert_eq!(cookie.max_age, 600);
            assert_eq!(cookie.value, session());
            assert_eq!(
                resolve_session_at(&cookie.value, &config(), NOW + 600),
                Ok("user-7".to_string())
            );
        }
        _ => panic!("the login did not start a session"),
    }
}

#[test]
fn login_with_a_wrong_password_and_for_an_unknown_address_are_answered_alike() {
    let wrong =
        resume(&Argon2Hasher, candidate("wrongpassword"), Ok(rider()), &config(), NOW, &policy());
    let unknown = resume(
        &Argon2Hasher,
        candidate("anything"),
        Err(StoreError::NotFound),
        &config(),
        NOW,
        &policy(),
    );
    assert!(wrong == failed(UserError::MismatchedPassword));
    assert!(unknown == wrong);
}

#[test]
fn login_while_the_store_fails_is_an_internal_error() {
    for failure in [
        StoreError::Query,
        StoreError::Canceled,
        StoreError::Database(DatabaseErrorKind::ClosedConnection),
    ] {
        let pending = candidate("correct horse");
        let reply = resume(&Argon2Hasher, pending, Err(failure), &config(), NOW, &policy());
        assert!(reply == failed(UserError::InternalServerError));
    }
}

#[test]
fn login_with_a_corrupted_stored_hash_is_an_internal_error() {
    let mut user = rider();
    user.password_hash = "corrupted".to_string();
    let pending = candidate("correct horse");
    let reply = resume(&Argon2Hasher, pending, Ok(user), &config(), NOW, &policy());
    assert!(reply == failed(UserError::InternalServerError));
}

#[test]
fn login_is_the_same_at_any_time_and_under_any_configuration() {
    let other = JwtConfig { algorithm: Algorithm::HS256, secret: "another".to_string() };
    for password in ["correct horse", "wrongpassword", ""] {
        let expected = Step::Ask(
            StoreCall::GetByEmail("rider@example.com".to_string()),
            candidate(password),
        );
        let now = begin(&Argon2Hasher, Request::Login(attempt(password)), &config(), NOW);
        let later = begin(&Argon2Hasher, Request::Login(attempt(password)), &other, NOW + 601);
        assert!(now == expected);
        assert!(later == expected);
    }
}

#[test]
fn login_of_a_logged_in_user_checks_the_password_again() {
    // The session that the client holds has no say: the password decides.
    let _held = session();
    let wrong =
        resume(&Argon2Hasher, candidate("wrongpassword"), Ok(rider()), &config(), NOW, &policy());
    assert!(wrong == failed(UserError::MismatchedPassword));
    match resume(&Argon2Hasher, candidate("correct horse"), Ok(rider()), &config(), NOW, &policy())
    {
        Reply::SessionStarted(cookie) => assert_eq!(cookie.value, session()),
        _ => panic!("the login did not start a session"),
    }
}

#[test]
fn user_data_without_a_session_is_not_logged_in() {
    let step = begin(&Argon2Hasher, Request::UserData { cookie: None }, &config(), NOW);
    assert!(step == Step::Answer(failed(UserError::UserNotLoggedIn)));
}

#[test]
fn user_data_with_a_valid_session_gives_the_user() {
    let request = Request::UserData { cookie: Some(session()) };
    let step = begin(&Argon2Hasher, request, &config(), NOW + 10);
    assert!(step == Step::Ask(StoreCall::GetById("user-7".to_string()), Pending::Profile));
    let reply =
        resume(&Argon2Hasher, Pending::Profile, Ok(rider()), &config(), NOW + 10, &policy());
    assert!(reply == Reply::Found(rider()));
}

#[test]
fn user_data_with_an_expired_session_is_not_logged_in() {
    let last = begin(&Argon2Hasher, Request::UserData { cookie: Some(session()) }, &config(), NOW + 600);
    assert!(last == Step::Ask(StoreCall::GetById("user-7".to_string()), Pending::Profile));
    let late = begin(&Argon2Hasher, Request::UserData { cookie: Some(session()) }, &config(), NOW + 601);
    assert!(late == Step::Answer(failed(UserError::UserNotLoggedIn)));
    let garbage = Request::UserData { cookie: Some("garbage".to_string()) };
    let step = begin(&Argon2Hasher, garbage, &config(), NOW);
    assert!(step == Step::Answer(failed(UserError::UserNotLoggedIn)));
}

#[test]
fn user_data_with_a_forged_session_is_not_logged_in() {
    let mut forged = session();
    forged.pop();
    forged.push('!');
    let step = begin(&Argon2Hasher, Request::UserData { cookie: Some(forged) }, &config(), NOW);
    assert!(step == Step::Answer(failed(UserError::UserNotLoggedIn)));
}

#[test]
fn user_of_a_session_that_the_store_does_not_find_is_an_internal_error() {
    let reply =
        resume(&Argon2Hasher, Pending::Profile, Err(StoreError::NotFound), &config(), NOW, &policy());
    assert!(reply == failed(UserError::InternalServerError));
}

#[test]
fn session_cookie_lives_as_long_as_the_token() {
    let lax = SessionPolicy { ttl: 90, same_site: SameSite::Lax, secure: false };
    let cookie = session_cookie("token".to_string(), &lax);
    assert_eq!(cookie.name, "user_jwt");
    assert_eq!(cookie.value, "token");
    assert!(cookie.http_only);
    assert!(!cookie.secure);
    assert_eq!(cookie.same_site, SameSite::Lax);
    assert_eq!(cookie.max_age, 90);
}

#[test]
fn cross_site_cookie_is_always_secure() {
    for secure in [false, true] {
        let policy = SessionPolicy { ttl: 90, same_site: SameSite::CrossSite, secure };
        assert!(session_cookie("token".to_string(), &policy).secure);
    }
}

#[test]
fn same_site_cookie_is_secure_where_the_policy_says_so() {
    for same_site in [SameSite::Strict, SameSite::Lax] {
        for secure in [false, true] {
            let policy = SessionPolicy { ttl: 90, same_site, secure };
            assert_eq!(session_cookie("token".to_string(), &policy).secure, secure);
        }
    }
}

#[test]
fn default_policy_is_ten_minutes_across_sites_and_secure() {
    assert_eq!(
        policy(),
        SessionPolicy { ttl: 600, same_site: SameSite::CrossSite, secure: true }
    );
}

#[test]
fn session_lasts_as_long_as_the_policy_says() {
    let short = SessionPolicy { ttl: 90, same_site: SameSite::Strict, secure: true };
    match resume(&Argon2Hasher, candidate("correct horse"), Ok(rider()), &config(), NOW, &short) {
        Reply::SessionStarted(cookie) => {
            assert_eq!(cookie.max_age, 90);
            assert_eq!(cookie.same_site, SameSite::Strict);
            assert_eq!(
                resolve_session_at(&cookie.value, &config(), NOW + 90),
                Ok("user-7".to_string())
            );
            assert!(resolve_session_at(&cookie.value, &config(), NOW + 91).is_err());
        }
        _ => panic!("the login did not start a session"),
    }
}

#[test]
fn login_under_a_policy_without_a_session_length_is_an_internal_error() {
    let none = SessionPolicy { ttl: 0, same_site: SameSite::Strict, secure: true };
    let reply =
        resume(&Argon2Hasher, candidate("correct horse"), Ok(rider()), &config(), NOW, &none);
    assert!(reply == failed(UserError::InternalServerError));
}
