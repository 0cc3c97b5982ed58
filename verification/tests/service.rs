use auth_core::errors::{AuthError, CredentialError, UserError};
use auth_core::jwt::{decode_at, Algorithm, JwtConfig};
use auth_core::password::{Argon2Hasher, CredentialHasher};
use auth_core::service::{
    login, login_at, register, register_with_salt, resolve_session, resolve_session_at,
    SESSION_SECONDS,
};
use auth_core::user::{NewUserPayload, User, UserChangeset};

const SALT: &str = "c29tZXNhbHRzb21lc2FsdA";
const NOW: usize = 1_700_000_000;

fn config() -> JwtConfig {
    JwtConfig { algorithm: Algorithm::HS512, secret: "a signing secret".to_string() }
}

fn payload(password: &str) -> NewUserPayload {
    NewUserPayload {
        username: "rider".to_string(),
        password: password.to_string(),
        email: "rider@example.com".to_string(),
    }
}

fn stored(id: &str, changeset: UserChangeset) -> User {
    User {
        id: id.to_string(),
        username: changeset.username,
        password_hash: changeset.password_hash,
        password_salt: changeset.password_salt,
        email: changeset.email,
    }
}

#[test]
fn register_login_resolve_expire() {
    let credential = register(&Argon2Hasher, payload("correct horse")).unwrap();
    assert!(!credential.password_hash.is_empty());
    assert!(!credential.password_salt.is_empty());
    assert_ne!(credential.password_hash, credential.password_salt);
    assert_ne!(credential.password_hash, "correct horse");
    assert_eq!(credential.username, "rider");
    assert_eq!(credential.email, "rider@example.com");

    let user = stored("user-7", credential);
    let token = login_at(&Argon2Hasher, Some(&user), "correct horse", &config(), NOW, 600).unwrap();
    assert_eq!(resolve_session_at(&token, &config(), NOW), Ok("user-7".to_string()));
    assert_eq!(resolve_session_at(&token, &config(), NOW + 600), Ok("user-7".to_string()));
    assert_eq!(resolve_session_at(&token, &config(), NOW + 601), Err(AuthError::TokenExpired));
}

#[test]
fn registration_keeps_the_salt_it_was_given() {
    let credential = register_with_salt(&Argon2Hasher, payload("correct horse"), SALT.to_string())
        .unwrap();
    assert_eq!(credential.password_salt, SALT);
    assert_eq!(credential.password_hash.split('$').nth(4), Some(SALT));
    assert_eq!(
        Some(credential.password_hash),
        Argon2Hasher.hash("correct horse", SALT).ok()
    );
}

#[test]
fn two_registrations_of_one_password_differ() {
    let first = register(&Argon2Hasher, payload("correct horse")).unwrap();
    let second = register(&Argon2Hasher, payload("correct horse")).unwrap();
    assert_ne!(first.password_salt, second.password_salt);
    assert_ne!(first.password_hash, second.password_hash);
}

#[test]
fn registration_rejects_an_unacceptable_password() {
    assert_eq!(register(&Argon2Hasher, payload("")), Err(AuthError::InvalidCredentials));
    let long = "x".repeat(1025);
    assert_eq!(register(&Argon2Hasher, payload(&long)), Err(AuthError::InvalidCredentials));
}

#[test]
fn registration_with_an_unusable_salt_is_a_configuration_error() {
    assert_eq!(
        register_with_salt(&Argon2Hasher, payload("correct horse"), "ab".to_string()),
        Err(AuthError::ConfigurationError)
    );
}

#[test]
fn unknown_user_and_wrong_password_fail_alike() {
    let credential = register(&Argon2Hasher, payload("correct horse")).unwrap();
    let user = stored("user-7", credential);
    let unknown = login_at(&Argon2Hasher, None, "anything", &config(), NOW, 600);
    let wrong = login_at(&Argon2Hasher, Some(&user), "wrongpassword", &config(), NOW, 600);
    assert_eq!(unknown, Err(AuthError::InvalidCredentials));
    assert_eq!(unknown, wrong);
    let told_unknown = UserError::from_auth_error(unknown.unwrap_err());
    let told_wrong = UserError::from_auth_error(wrong.unwrap_err());
    assert_eq!(told_unknown, told_wrong);
    assert_eq!(told_unknown.message(), told_wrong.message());
    assert_eq!(told_unknown.status_code(), told_wrong.status_code());
}

#[test]
fn corrupted_stored_hash_is_told_apart_from_a_wrong_password() {
    let user = User {
        id: "user-7".to_string(),
        username: "rider".to_string(),
        password_hash: "corrupted".to_string(),
        password_salt: SALT.to_string(),
        email: "rider@example.com".to_string(),
    };
    assert_eq!(
        login_at(&Argon2Hasher, Some(&user), "correct horse", &config(), NOW, 600),
        Err(AuthError::MalformedStoredHash)
    );
}

#[test]
fn login_issues_a_session_from_now_for_the_ttl() {
    let credential = register(&Argon2Hasher, payload("correct horse")).unwrap();
    let user = stored("user-7", credential);
    let token = login_at(&Argon2Hasher, Some(&user), "correct horse", &config(), NOW, 90).unwrap();
    let claims = decode_at(&token, &config(), NOW).unwrap();
    assert_eq!(claims.iat, NOW);
    assert_eq!(claims.exp, NOW + 90);
    assert_eq!(claims.sub, "user-7");
}

#[test]
fn login_without_a_session_length_is_a_configuration_error() {
    let credential = register(&Argon2Hasher, payload("correct horse")).unwrap();
    let user = stored("user-7", credential);
    assert_eq!(
        login_at(&Argon2Hasher, Some(&user), "correct horse", &config(), NOW, 0),
        Err(AuthError::ConfigurationError)
    );
    assert_eq!(
        login_at(&Argon2Hasher, Some(&user), "correct horse", &config(), usize::MAX, 600),
        Err(AuthError::ConfigurationError)
    );
    // The password is checked first.
    assert_eq!(
        login_at(&Argon2Hasher, Some(&user), "wrong", &config(), NOW, 0),
        Err(AuthError::InvalidCredentials)
    );
}

#[test]
fn login_at_the_present_time_lasts_ten_minutes() {
    assert_eq!(SESSION_SECONDS, 600);
    let credential = register(&Argon2Hasher, payload("correct horse")).unwrap();
    let user = stored("user-7", credential);
    let token = login(&Argon2Hasher, Some(&user), "correct horse", &config()).unwrap();
    let claims = decode_at(&token, &config(), 0).unwrap();
    assert_eq!(claims.exp - claims.iat, 600);
    assert!(claims.iat > 1_577_836_800);
    assert_eq!(resolve_session(&token, &config()), Ok("user-7".to_string()));
    assert_eq!(login(&Argon2Hasher, None, "correct horse", &config()), Err(AuthError::InvalidCredentials));
}

#[test]
fn session_errors_name_the_failed_check() {
    let credential = register(&Argon2Hasher, payload("correct horse")).unwrap();
    let user = stored("user-7", credential);
    let token = login_at(&Argon2Hasher, Some(&user), "correct horse", &config(), NOW, 600).unwrap();

    let other_secret = JwtConfig { algorithm: Algorithm::HS512, secret: "another".to_string() };
    assert_eq!(
        resolve_session_at(&token, &other_secret, NOW),
        Err(AuthError::TokenInvalidSignature)
    );
    let other_algorithm =
        JwtConfig { algorithm: Algorithm::HS256, secret: "a signing secret".to_string() };
    assert_eq!(
        resolve_session_at(&token, &other_algorithm, NOW),
        Err(AuthError::AlgorithmMismatch)
    );
    assert_eq!(resolve_session_at("no token", &config(), NOW), Err(AuthError::TokenMalformed));
    assert_eq!(resolve_session_at(&token, &config(), NOW + 601), Err(AuthError::TokenExpired));
}

#[test]
fn expired_session_at_the_present_time() {
    let credential = register(&Argon2Hasher, payload("correct horse")).unwrap();
    let user = stored("user-7", credential);
    let token = login_at(&Argon2Hasher, Some(&user), "correct horse", &config(), 1_000, 600).unwrap();
    assert_eq!(resolve_session(&token, &config()), Err(AuthError::TokenExpired));
}

#[test]
fn user_checks_its_own_login() {
    let credential = register(&Argon2Hasher, payload("correct horse")).unwrap();
    let user = stored("user-7", credential);
    assert_eq!(user.clone().check_login("correct horse".to_string()), Ok(true));
    assert_eq!(user.clone().check_login("battery staple".to_string()), Ok(false));
    let mut corrupted = user;
    corrupted.password_hash = "not-a-hash".to_string();
    assert_eq!(
        corrupted.check_login("correct horse".to_string()),
        Err(CredentialError::MalformedStoredHash)
    );
}

#[test]
fn login_owes_a_token_for_any_secret_and_algorithm() {
    let credential = register(&Argon2Hasher, payload("correct horse")).unwrap();
    let user = stored("user-7", credential);
    for algorithm in [Algorithm::HS256, Algorithm::HS384, Algorithm::HS512] {
        for secret in ["", "s", "a signing secret"] {
            let config = JwtConfig { algorithm, secret: secret.to_string() };
            let token =
                login_at(&Argon2Hasher, Some(&user), "correct horse", &config, NOW, 1).unwrap();
            assert_eq!(token.split('.').count(), 3);
            assert_eq!(resolve_session_at(&token, &config, NOW + 1), Ok("user-7".to_string()));
        }
    }
}

#[test]
fn registered_hash_is_neither_empty_nor_the_salt_nor_the_password() {
    let credential =
        register_with_salt(&Argon2Hasher, payload("correct horse"), SALT.to_string()).unwrap();
    assert!(!credential.password_hash.is_empty());
    assert!(credential.password_hash.len() > credential.password_salt.len());
    assert_ne!(credential.password_hash, credential.password_salt);
    assert_ne!(credential.password_hash, "correct horse");
    assert!(credential.password_hash.starts_with('$'));
}
