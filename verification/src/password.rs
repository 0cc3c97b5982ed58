//! Salted one-way hashing of passwords, and the check of a password against
//! a stored hash.
//!
//! The hashing scheme is a capability, [`CredentialHasher`]: the service is
//! written against the trait and its three laws, and [`Argon2Hasher`] is the one
//! scheme that the library ships. The hash function itself is that of the
//! `argon2` crate.

use vstd::prelude::*;
use crate::errors::CredentialError;

verus! {

/// The longest password that is hashed, in bytes.
pub const MAX_PASSWORD_BYTES: usize = 1024;

/// The length of a generated salt, in characters: 16 random bytes in Base64
/// without padding.
pub const SALT_CHARS: usize = 22;

/// What a hashing scheme makes of a password and a stored hash.
#[derive(Debug, Clone, Copy, PartialEq, Eq, Structural)]
pub enum Verdict {
    /// The password is the one that was hashed.
    Accepted,
    /// The stored hash is complete, and the password is another one.
    Rejected,
    /// The stored hash cannot be read as an encoded hash.
    Unreadable,
    /// The stored hash can be read and cannot be checked against: it lacks
    /// its salt or its digest, or it is none that the scheme can recompute.
    Unusable,
}

/// How the comparison of a password with a parsed hash ended.
#[derive(Debug, Clone, Copy, PartialEq, Eq, Structural)]
pub enum Comparison {
    /// The recomputed digest is the stored one.
    Equal,
    /// The comparison ended with the error that stands for a mismatch.
    Mismatch,
    /// The comparison ended with another error.
    Failed,
}

/// What Argon2 reports of a stored hash that it parsed, and of a password:
/// which parts the hash holds, and how the comparison ended.
#[derive(Debug, Clone, Copy, PartialEq, Eq, Structural)]
pub struct Report {
    pub has_salt: bool,
    pub has_digest: bool,
    pub comparison: Comparison,
}

/// The UTF-8 bytes of a password: what is hashed, and what its length counts.
pub open spec fn bytes_of(password: Seq<char>) -> Seq<u8> {
    vstd::utf8::encode_utf8(password)
}

/// Whether a password is taken for hashing: it is not empty and has at most
/// [`MAX_PASSWORD_BYTES`] bytes.
pub open spec fn acceptable(password: Seq<char>) -> bool {
    0 < bytes_of(password).len() <= MAX_PASSWORD_BYTES
}

/// Whether `c` is one of the 64 characters of Base64.
pub open spec fn is_base64_char(c: char) -> bool {
    ('a' <= c <= 'z') || ('A' <= c <= 'Z') || ('0' <= c <= '9') || c == '+' || c == '/'
}

/// Whether `salt` has the shape of a generated salt: [`SALT_CHARS`] characters
/// of Base64, which stand for 16 bytes.
pub open spec fn is_salt(salt: Seq<char>) -> bool {
    &&& salt.len() == SALT_CHARS
    &&& forall|i: int| 0 <= i < salt.len() ==> is_base64_char(#[trigger] salt[i])
}

/// Whether `s` holds no `$`.
pub open spec fn plain(s: Seq<char>) -> bool {
    forall|i: int| 0 <= i < s.len() ==> s[i] != '$'
}

/// Whether `hash` is a PHC string of Argon2id, version 19, with the given
/// salt: `$argon2id$v=19$<parameters>$<salt>$<digest>`, where neither the
/// parameters nor the salt nor the digest holds a `$`.
pub open spec fn phc_form(hash: Seq<char>, salt: Seq<char>) -> bool {
    exists|parameters: Seq<char>, digest: Seq<char>| #[trigger]
        phc_string(parameters, salt, digest) == hash && plain(parameters) && plain(salt) && plain(
            digest,
        )
}

/// The PHC string of Argon2id, version 19, with the given parts.
pub open spec fn phc_string(parameters: Seq<char>, salt: Seq<char>, digest: Seq<char>) -> Seq<
    char,
> {
    seq!['$'] + "argon2id"@ + seq!['$'] + "v=19"@ + seq!['$'] + parameters + seq!['$'] + salt
        + seq!['$'] + digest
}

/// The `n`-th of the fields that `$` separates in `s`, counted from 0; empty
/// where `s` has fewer fields.
pub open spec fn field(s: Seq<char>, n: nat) -> Seq<char>
    decreases s.len(),
{
    if s.len() == 0 {
        Seq::empty()
    } else if s[0] == '$' {
        if n == 0 {
            Seq::empty()
        } else {
            field(s.skip(1), (n - 1) as nat)
        }
    } else if n == 0 {
        seq![s[0]] + field(s.skip(1), 0)
    } else {
        field(s.skip(1), n)
    }
}

/// Past a first field and its `$`, the fields are those of the rest.
proof fn lemma_later_field(a: Seq<char>, rest: Seq<char>, n: nat)
    requires
        plain(a),
    ensures
        field(a + seq!['$'] + rest, n + 1) == field(rest, n),
    decreases a.len(),
{
    let whole = a + seq!['$'] + rest;
    if a.len() == 0 {
        assert(whole.skip(1) == rest);
    } else {
        assert(whole.skip(1) == a.skip(1) + seq!['$'] + rest);
        lemma_later_field(a.skip(1), rest, n);
    }
}

/// Up to its first `$`, a string is its field 0.
proof fn lemma_first_field(a: Seq<char>, rest: Seq<char>)
    requires
        plain(a),
    ensures
        field(a + seq!['$'] + rest, 0) == a,
    decreases a.len(),
{
    let whole = a + seq!['$'] + rest;
    if a.len() > 0 {
        assert(whole.skip(1) == a.skip(1) + seq!['$'] + rest);
        lemma_first_field(a.skip(1), rest);
        assert(a == seq![a[0]] + a.skip(1));
    }
}

/// The salt of a PHC string is the field 4 of the fields that `$` separates
/// in it, counted from the empty field before the first `$`.
pub proof fn lemma_salt_is_field_four(hash: Seq<char>, salt: Seq<char>)
    requires
        phc_form(hash, salt),
    ensures
        field(hash, 4) == salt,
{
    let (parameters, digest): (Seq<char>, Seq<char>) = choose|
        parameters: Seq<char>,
        digest: Seq<char>,
    | #[trigger]
        phc_string(parameters, salt, digest) == hash && plain(parameters) && plain(salt) && plain(
            digest,
        );
    reveal_strlit("argon2id");
    reveal_strlit("v=19");
    let dollar = seq!['$'];
    let from_salt = salt + dollar + digest;
    let from_parameters = parameters + dollar + from_salt;
    let from_version = "v=19"@ + dollar + from_parameters;
    let from_name = "argon2id"@ + dollar + from_version;
    assert(hash == Seq::<char>::empty() + dollar + from_name);
    lemma_later_field(Seq::empty(), from_name, 3);
    lemma_later_field("argon2id"@, from_version, 2);
    lemma_later_field("v=19"@, from_parameters, 1);
    lemma_later_field(parameters, from_salt, 0);
    lemma_first_field(salt, digest);
}

/// A PHC string is longer than its salt, so the two are never taken for one
/// another.
pub proof fn lemma_hash_differs_from_salt(hash: Seq<char>, salt: Seq<char>)
    requires
        phc_form(hash, salt),
    ensures
        hash.len() > salt.len(),
        hash != salt,
{
    let (parameters, digest): (Seq<char>, Seq<char>) = choose|
        parameters: Seq<char>,
        digest: Seq<char>,
    | #[trigger]
        phc_string(parameters, salt, digest) == hash && plain(parameters) && plain(salt) && plain(
            digest,
        );
    assert(hash.len() >= salt.len() + 5);
}

/// A PHC string begins with `$`, so it is no password that begins otherwise.
pub proof fn lemma_hash_differs_from_password(
    hash: Seq<char>,
    salt: Seq<char>,
    password: Seq<char>,
)
    requires
        phc_form(hash, salt),
        password.len() == 0 || password[0] != '$',
    ensures
        hash != password,
{
    let (parameters, digest): (Seq<char>, Seq<char>) = choose|
        parameters: Seq<char>,
        digest: Seq<char>,
    | #[trigger]
        phc_string(parameters, salt, digest) == hash && plain(parameters) && plain(salt) && plain(
            digest,
        );
    assert(hash.len() > 0 && hash[0] == '$');
}

/// What hashing returns for a password, given what the scheme makes of it.
pub open spec fn hash_outcome(password: Seq<char>, digest: Option<Seq<char>>) -> Result<
    Seq<char>,
    CredentialError,
> {
    if !acceptable(password) {
        Err(CredentialError::PasswordRejected)
    } else {
        match digest {
            Some(hash) => Ok(hash),
            None => Err(CredentialError::HashingFailed),
        }
    }
}

/// The verdict that a report amounts to; no report stands for a stored hash
/// that was not parsed.
///
/// A mismatch counts as a rejected password only where the stored hash holds
/// both a salt and a digest: without them nothing was compared, and the stored
/// hash is at fault, not the password.
pub open spec fn verdict_of(report: Option<Report>) -> Verdict {
    match report {
        None => Verdict::Unreadable,
        Some(report) => if !report.has_salt || !report.has_digest {
            Verdict::Unusable
        } else {
            match report.comparison {
                Comparison::Equal => Verdict::Accepted,
                Comparison::Mismatch => Verdict::Rejected,
                Comparison::Failed => Verdict::Unusable,
            }
        },
    }
}

/// What checking a password returns for each verdict of the scheme. A wrong
/// password is an answer, `Ok(false)`; a stored hash that cannot be checked is
/// an error.
pub open spec fn verify_outcome(verdict: Verdict) -> Result<bool, CredentialError> {
    match verdict {
        Verdict::Accepted => Ok(true),
        Verdict::Rejected => Ok(false),
        Verdict::Unreadable => Err(CredentialError::MalformedStoredHash),
        Verdict::Unusable => Err(CredentialError::MalformedStoredHash),
    }
}

/// The model of a hashing result.
pub open spec fn hashed(r: Result<String, CredentialError>) -> Result<Seq<char>, CredentialError> {
    match r {
        Ok(hash) => Ok(hash@),
        Err(e) => Err(e),
    }
}

/// A password hashing scheme: a salted one-way hash and its check.
pub trait CredentialHasher {
    /// The hash of a password under a salt; `None` where the scheme refuses the
    /// two. It is a function: equal passwords and salts give equal hashes.
    spec fn digest(&self, password: Seq<char>, salt: Seq<char>) -> Option<Seq<char>>;

    /// What the scheme makes of a password and a stored hash.
    spec fn verdict(&self, password: Seq<char>, stored: Seq<char>) -> Verdict;

    /// Hashes a password under a salt.
    ///
    /// A password that is not [`acceptable`] is rejected before anything is
    /// computed.
    fn hash(&self, password: &str, salt: &str) -> (r: Result<String, CredentialError>)
        ensures
            hashed(r) == hash_outcome(password@, self.digest(password@, salt@)),
    ;

    /// Checks a password against a stored hash.
    ///
    /// A wrong password gives `Ok(false)`, never an error; a stored hash that
    /// cannot be checked gives [`CredentialError::MalformedStoredHash`].
    fn verify(&self, password: &str, stored: &str) -> (r: Result<bool, CredentialError>)
        ensures
            r == verify_outcome(self.verdict(password@, stored@)),
    ;

    /// A hash is accepted for the password that it was made from.
    proof fn own_hash_accepted(&self, password: Seq<char>, salt: Seq<char>)
        ensures
            self.digest(password, salt) matches Some(hash) ==> self.verdict(password, hash)
                == Verdict::Accepted,
    ;

    /// Under two different salts no password has the same hash.
    proof fn salts_separate(&self, password: Seq<char>, salt: Seq<char>, other: Seq<char>)
        requires
            salt != other,
        ensures
            self.digest(password, salt) is Some ==> self.digest(password, salt) != self.digest(
                password,
                other,
            ),
    ;

    /// A hash is not empty, and it is not the salt that it was made under.
    proof fn hash_is_no_salt(&self, password: Seq<char>, salt: Seq<char>)
        ensures
            self.digest(password, salt) matches Some(hash) ==> hash.len() > 0 && hash != salt,
    ;
}

/// The PHC string that `Argon2::default().hash_password` returns for the
/// password's bytes and the salt; `None` where it returns an error.
pub uninterp spec fn argon2_encoding(password: Seq<char>, salt: Seq<char>) -> Option<Seq<char>>;

/// What `PasswordHash::new` and `Argon2::default().verify_password` report of
/// a stored hash and the password's bytes; `None` where the stored hash is not
/// parsed.
pub uninterp spec fn argon2_report(password: Seq<char>, stored: Seq<char>) -> Option<Report>;

/// The report of a hash that is complete and belongs to the password.
pub open spec fn accepting() -> Option<Report> {
    Some(Report { has_salt: true, has_digest: true, comparison: Comparison::Equal })
}

/// Whether `hash` is the Argon2 hash of the password under the salt: it is
/// what hashing returns, it is a PHC string with that salt, and the password
/// is accepted for it.
pub open spec fn encodes(hash: Seq<char>, password: Seq<char>, salt: Seq<char>) -> bool {
    &&& argon2_encoding(password, salt) == Some(hash)
    &&& phc_form(hash, salt)
    &&& argon2_report(password, hash) == accepting()
}

/// Calls `Salt::from_b64` on the salt and `Argon2::default().hash_password` on
/// the password's bytes and that salt, and writes the result out as a string.
///
/// Assumed: the string is a function of the arguments. It has the form
/// `$argon2id$v=19$<parameters>$<salt>$<digest>`, with the salt as it was
/// given and no `$` inside the three parts. And it is a complete hash, which
/// `PasswordHash::new` parses and for which `verify_password` accepts the
/// password.
#[verifier::external_body]
fn argon2_hash(password: &str, salt: &str) -> (r: Option<String>)
    ensures
        r matches Some(hash) ==> encodes(hash@, password@, salt@),
        r is None ==> argon2_encoding(password@, salt@) is None,
{
    let salt = argon2::password_hash::Salt::from_b64(salt).ok()?;
    let argon2 = argon2::Argon2::default();
    let hash = argon2::PasswordHasher::hash_password(&argon2, password.as_bytes(), salt).ok()?;
    Some(hash.to_string())
}

/// Calls `PasswordHash::new` on the stored hash and
/// `Argon2::default().verify_password` on the password's bytes and what was
/// parsed.
///
/// Assumed: the report is a function of the arguments. There is none where
/// parsing fails. Otherwise it says whether what was parsed holds a salt and a
/// digest, and how verifying ended: `Equal` where it succeeds, `Mismatch` where
/// it fails with `Error::Password`, `Failed` for its other errors.
#[verifier::external_body]
fn argon2_check(password: &str, stored: &str) -> (report: Option<Report>)
    ensures
        report == argon2_report(password@, stored@),
{
    let argon2 = argon2::Argon2::default();
    let parsed = argon2::PasswordHash::new(stored).ok()?;
    let password = password.as_bytes();
    let comparison = match argon2::PasswordVerifier::verify_password(&argon2, password, &parsed) {
        Ok(()) => Comparison::Equal,
        Err(argon2::password_hash::Error::Password) => Comparison::Mismatch,
        Err(_) => Comparison::Failed,
    };
    Some(Report { has_salt: parsed.salt.is_some(), has_digest: parsed.hash.is_some(), comparison })
}

/// Calls `SaltString::generate` with the operating system's random number
/// generator and copies the salt out as a string.
///
/// Assumed: the salt is the Base64 form, without padding, of 16 bytes, which
/// has 22 characters. The value differs from call to call, so nothing else is
/// stated. The call does not return where the generator fails.
#[verifier::external_body]
fn random_salt() -> (salt: String)
    ensures
        is_salt(salt@),
{
    argon2::password_hash::SaltString::generate(&mut rand_core::OsRng).as_str().to_string()
}

/// Whether a password is taken for hashing.
pub fn is_acceptable(password: &str) -> (b: bool)
    ensures
        b == acceptable(password@),
{
    let n = password.as_bytes().len();
    0 < n && n <= MAX_PASSWORD_BYTES
}

/// What hashing returns for a password that was taken, given what the scheme
/// made of it.
pub fn digest_result(digest: Option<String>) -> (r: Result<String, CredentialError>)
    ensures
        match digest {
            Some(hash) => r == Ok::<String, CredentialError>(hash),
            None => r == Err::<String, CredentialError>(CredentialError::HashingFailed),
        },
{
    match digest {
        Some(hash) => Ok(hash),
        None => Err(CredentialError::HashingFailed),
    }
}

/// The verdict that a report amounts to.
pub fn verdict(report: Option<Report>) -> (v: Verdict)
    ensures
        v == verdict_of(report),
{
    match report {
        None => Verdict::Unreadable,
        Some(report) => if !report.has_salt || !report.has_digest {
            Verdict::Unusable
        } else {
            match report.comparison {
                Comparison::Equal => Verdict::Accepted,
                Comparison::Mismatch => Verdict::Rejected,
                Comparison::Failed => Verdict::Unusable,
            }
        },
    }
}

/// What checking a password returns for a verdict of the scheme.
pub fn verify_result(verdict: Verdict) -> (r: Result<bool, CredentialError>)
    ensures
        r == verify_outcome(verdict),
{
    match verdict {
        Verdict::Accepted => Ok(true),
        Verdict::Rejected => Ok(false),
        Verdict::Unreadable => Err(CredentialError::MalformedStoredHash),
        Verdict::Unusable => Err(CredentialError::MalformedStoredHash),
    }
}

/// A fresh random salt for one credential. Two calls may differ, and are
/// meant to.
pub fn generate_salt() -> (salt: String)
    ensures
        is_salt(salt@),
{
    random_salt()
}

/// Argon2id with the default parameters of the `argon2` crate. A hash is a PHC
/// string, which holds the parameters and the salt beside the digest.
#[derive(Debug, Clone, Copy, PartialEq, Eq, Structural)]
pub struct Argon2Hasher;

impl CredentialHasher for Argon2Hasher {
    /// The hash that hashing returns. Every hash that was returned [`encodes`]
    /// its password and salt, which is what the three laws rest on.
    open spec fn digest(&self, password: Seq<char>, salt: Seq<char>) -> Option<Seq<char>> {
        match argon2_encoding(password, salt) {
            Some(hash) => if encodes(hash, password, salt) {
                Some(hash)
            } else {
                None
            },
            None => None,
        }
    }

    open spec fn verdict(&self, password: Seq<char>, stored: Seq<char>) -> Verdict {
        verdict_of(argon2_report(password, stored))
    }

    fn hash(&self, password: &str, salt: &str) -> (r: Result<String, CredentialError>) {
        if is_acceptable(password) {
            digest_result(argon2_hash(password, salt))
        } else {
            Err(CredentialError::PasswordRejected)
        }
    }

    fn verify(&self, password: &str, stored: &str) -> (r: Result<bool, CredentialError>) {
        verify_result(verdict(argon2_check(password, stored)))
    }

    proof fn own_hash_accepted(&self, password: Seq<char>, salt: Seq<char>) {
    }

    proof fn salts_separate(&self, password: Seq<char>, salt: Seq<char>, other: Seq<char>) {
        if let Some(hash) = self.digest(password, salt) {
            if self.digest(password, other) == Some(hash) {
                lemma_salt_is_field_four(hash, salt);
                lemma_salt_is_field_four(hash, other);
            }
        }
    }

    proof fn hash_is_no_salt(&self, password: Seq<char>, salt: Seq<char>) {
        if let Some(hash) = self.digest(password, salt) {
            lemma_hash_differs_from_salt(hash, salt);
        }
    }
}

/// Checks a password against a stored hash, by Argon2: `Ok(true)` for the
/// password that was hashed, `Ok(false)` for another one, and
/// [`CredentialError::MalformedStoredHash`] for a stored hash that cannot be
/// checked against, which is told apart from a wrong password.
pub fn check_password(password_hash: String, password_to_check: String) -> (r: Result<
    bool,
    CredentialError,
>)
    ensures
        r == verify_outcome(verdict_of(argon2_report(password_to_check@, password_hash@))),
{
    Argon2Hasher.verify(password_to_check.as_str(), password_hash.as_str())
}

/// Salts defeat precomputation: under two different salts, the hashes of one
/// password differ.
pub proof fn distinct_salts_give_distinct_hashes<H: CredentialHasher>(
    hasher: &H,
    password: Seq<char>,
    salt: Seq<char>,
    other: Seq<char>,
)
    requires
        salt != other,
    ensures
        hash_outcome(password, hasher.digest(password, salt)) is Ok ==> hash_outcome(
            password,
            hasher.digest(password, salt),
        ) != hash_outcome(password, hasher.digest(password, other)),
{
    hasher.salts_separate(password, salt, other);
}

/// A password verifies against each of its own hashes.
pub proof fn own_hash_verifies<H: CredentialHasher>(
    hasher: &H,
    password: Seq<char>,
    salt: Seq<char>,
)
    ensures
        hash_outcome(password, hasher.digest(password, salt)) matches Ok(hash) ==> verify_outcome(
            hasher.verdict(password, hash),
        ) == Ok::<bool, CredentialError>(true),
{
    hasher.own_hash_accepted(password, salt);
}

} // verus!
