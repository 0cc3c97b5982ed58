//! The token codec: claims, the signing configuration, and the signed compact
//! form `header.payload.signature` that carries claims between requests.
//!
//! Signing and signature checking are done by the `jsonwebtoken` crate. What
//! the library adds is verified here: which payloads count as claims, when a
//! token has expired, and which error each refusal becomes.

use vstd::prelude::*;
use jsonwebtoken::errors::ErrorKind;
use crate::clock::now;
use crate::errors::{AuthError, TokenError};

verus! {

/// The MAC algorithms that a token can be signed with.
#[derive(Debug, Clone, Copy, PartialEq, Eq, Structural)]
pub enum Algorithm {
    HS256,
    HS384,
    HS512,
}

/// The signing configuration: built once at startup and only read afterwards.
#[derive(Clone, PartialEq, Eq)]
pub struct JwtConfig {
    pub algorithm: Algorithm,
    pub secret: String,
}

/// The claims of a session: whose it is, when it was issued, when it ends.
/// Times are whole seconds since the Unix epoch.
#[derive(Debug, Clone, PartialEq, Eq)]
pub struct JwtClaims {
    /// Expiration timestamp.
    pub exp: usize,
    /// Issued-at timestamp.
    pub iat: usize,
    /// Subject: the user's identifier.
    pub sub: String,
}

/// What a payload holds under the three claim names, as far as each is
/// present with the right type: a number that fits 64 bits for `exp` and `iat`,
/// a string for `sub`.
#[derive(Debug, Clone, PartialEq, Eq)]
pub struct RawClaims {
    pub exp: Option<u64>,
    pub iat: Option<u64>,
    pub sub: Option<String>,
}

/// Why the signature check refused a token, as far as the library tells the
/// reasons apart.
#[derive(Debug, Clone, Copy, PartialEq, Eq, Structural)]
pub enum DecodeFault {
    /// The signature is not that of the header and payload under the secret.
    InvalidSignature,
    /// The header's algorithm is not the configured one.
    InvalidAlgorithm,
    /// Any other refusal: the shape, the encoding or the payload.
    Other,
}

/// The model of [`JwtClaims`].
pub struct Claims {
    pub exp: int,
    pub iat: int,
    pub sub: Seq<char>,
}

/// The model of [`RawClaims`].
pub struct Payload {
    pub exp: Option<u64>,
    pub iat: Option<u64>,
    pub sub: Option<Seq<char>>,
}

/// The model of [`JwtConfig`].
pub struct Signing {
    pub algorithm: Algorithm,
    pub secret: Seq<char>,
}

impl View for JwtClaims {
    type V = Claims;

    open spec fn view(&self) -> Claims {
        Claims { exp: self.exp as int, iat: self.iat as int, sub: self.sub@ }
    }
}

impl View for RawClaims {
    type V = Payload;

    open spec fn view(&self) -> Payload {
        Payload {
            exp: self.exp,
            iat: self.iat,
            sub: match self.sub {
                Some(s) => Some(s@),
                None => None,
            },
        }
    }
}

impl View for JwtConfig {
    type V = Signing;

    open spec fn view(&self) -> Signing {
        Signing { algorithm: self.algorithm, secret: self.secret@ }
    }
}

impl Claims {
    /// The invariant of claims: a session ends after it was issued, and both
    /// times are machine integers.
    pub open spec fn wf(self) -> bool {
        0 <= self.iat < self.exp <= usize::MAX
    }

    /// The payload that carries these claims.
    pub open spec fn payload(self) -> Payload {
        Payload { exp: Some(self.exp as u64), iat: Some(self.iat as u64), sub: Some(self.sub) }
    }

    /// The claims of a session of `ttl` seconds that starts at `now`: none if
    /// the session would be empty or end after the largest timestamp.
    pub open spec fn starting(sub: Seq<char>, now: int, ttl: int) -> Option<Claims> {
        if 0 < ttl && now + ttl <= usize::MAX {
            Some(Claims { exp: now + ttl, iat: now, sub })
        } else {
            None
        }
    }
}

impl Algorithm {
    /// The name of the algorithm, as the header of a token gives it.
    pub open spec fn label(self) -> Seq<char> {
        match self {
            Algorithm::HS256 => "HS256"@,
            Algorithm::HS384 => "HS384"@,
            Algorithm::HS512 => "HS512"@,
        }
    }

    /// The algorithm that a name selects, if it selects one.
    pub open spec fn named(name: Seq<char>) -> Option<Algorithm> {
        if name == "HS256"@ {
            Some(Algorithm::HS256)
        } else if name == "HS384"@ {
            Some(Algorithm::HS384)
        } else if name == "HS512"@ {
            Some(Algorithm::HS512)
        } else {
            None
        }
    }

    /// The name of the algorithm.
    pub fn name(&self) -> (s: String)
        ensures
            s@ == self.label(),
    {
        match self {
            Algorithm::HS256 => "HS256".to_owned(),
            Algorithm::HS384 => "HS384".to_owned(),
            Algorithm::HS512 => "HS512".to_owned(),
        }
    }

    /// Selects an algorithm by its name. Names are told apart by case.
    pub fn from_name(name: &str) -> (r: Option<Algorithm>)
        ensures
            r == Algorithm::named(name@),
    {
        let name = name.to_owned();
        if name == "HS256".to_owned() {
            Some(Algorithm::HS256)
        } else if name == "HS384".to_owned() {
            Some(Algorithm::HS384)
        } else if name == "HS512".to_owned() {
            Some(Algorithm::HS512)
        } else {
            None
        }
    }

    /// Each algorithm is the one that its name selects.
    pub proof fn name_selects_it(self)
        ensures
            Algorithm::named(self.label()) == Some(self),
    {
        reveal_strlit("HS256");
        reveal_strlit("HS384");
        reveal_strlit("HS512");
        assert("HS256"@[2] != "HS384"@[2]);
        assert("HS256"@[2] != "HS512"@[2]);
        assert("HS384"@[2] != "HS512"@[2]);
    }
}

impl JwtConfig {
    /// Builds the signing configuration. An empty secret is refused.
    pub fn new(secret: String, algorithm: Algorithm) -> (r: Result<JwtConfig, AuthError>)
        ensures
            match r {
                Ok(config) => secret@.len() > 0 && config@ == (Signing {
                    algorithm,
                    secret: secret@,
                }),
                Err(e) => secret@.len() == 0 && e == AuthError::ConfigurationError,
            },
    {
        if secret.as_str().is_empty() {
            Err(AuthError::ConfigurationError)
        } else {
            Ok(JwtConfig { algorithm, secret })
        }
    }
}

/// The compact token that `jsonwebtoken::encode` returns for a header of the
/// given algorithm, the payload `{"exp": exp, "iat": iat, "sub": sub}` and the
/// secret as an HMAC key.
pub uninterp spec fn signed_token(
    exp: usize,
    iat: usize,
    sub: Seq<char>,
    secret: Seq<char>,
    algorithm: Algorithm,
) -> Seq<char>;

/// What `jsonwebtoken::decode` makes of a token under the secret and the one
/// algorithm, with its own expiry check switched off: what the payload holds
/// under `exp`, `iat` and `sub` where it accepts the token, and why it refuses
/// where it does not.
pub uninterp spec fn token_reading(
    token: Seq<char>,
    secret: Seq<char>,
    algorithm: Algorithm,
) -> Result<Payload, DecodeFault>;

/// Whether `c` is one of the 64 characters of URL-safe Base64.
pub open spec fn is_base64url_char(c: char) -> bool {
    ('a' <= c <= 'z') || ('A' <= c <= 'Z') || ('0' <= c <= '9') || c == '-' || c == '_'
}

/// Whether `s` can be a segment of a token: it is not empty and consists of
/// characters of URL-safe Base64.
pub open spec fn is_segment(s: Seq<char>) -> bool {
    &&& s.len() > 0
    &&& forall|i: int| 0 <= i < s.len() ==> is_base64url_char(#[trigger] s[i])
}

/// The three segments joined by dots.
pub open spec fn joined(header: Seq<char>, payload: Seq<char>, signature: Seq<char>) -> Seq<char> {
    header + seq!['.'] + payload + seq!['.'] + signature
}

/// Whether `token` has the compact form: a header, a payload and a signature
/// segment, joined by dots.
pub open spec fn is_compact(token: Seq<char>) -> bool {
    exists|header: Seq<char>, payload: Seq<char>, signature: Seq<char>| #[trigger]
        joined(header, payload, signature) == token && is_segment(header) && is_segment(payload)
            && is_segment(signature)
}

/// Whether `s` holds no dot.
pub open spec fn dotless(s: Seq<char>) -> bool {
    forall|i: int| 0 <= i < s.len() ==> s[i] != '.'
}

/// A header and payload with a signature segment behind them.
pub open spec fn signed_as(message: Seq<char>, signature: Seq<char>) -> Seq<char> {
    message + seq!['.'] + signature
}

/// Whether the signature segment of `token` is bound to what stands before
/// it: the same header and payload with any other signature segment are refused
/// as a token with an invalid signature.
pub open spec fn signature_is_bound(
    token: Seq<char>,
    secret: Seq<char>,
    algorithm: Algorithm,
) -> bool {
    forall|message: Seq<char>, signature: Seq<char>, other: Seq<char>|
        #![trigger signed_as(message, signature), signed_as(message, other)]
        signed_as(message, signature) == token && dotless(signature) && dotless(other) && other
            != signature ==> token_reading(signed_as(message, other), secret, algorithm) == Err::<
            Payload,
            DecodeFault,
        >(DecodeFault::InvalidSignature)
}

/// Whether `token` is valid under the configuration, whatever the time: the
/// signature check accepts it. The signature of every such token is bound.
pub open spec fn is_valid_token(token: Seq<char>, signing: Signing) -> bool {
    &&& token_reading(token, signing.secret, signing.algorithm) is Ok
    &&& signature_is_bound(token, signing.secret, signing.algorithm)
}

/// Whether `token` is the signed form of the claims under the configuration:
/// it is what signing returns, it has the compact form, and checking it gives
/// the claims back.
pub open spec fn carries(token: Seq<char>, claims: Claims, signing: Signing) -> bool {
    &&& is_compact(token)
    &&& signature_is_bound(token, signing.secret, signing.algorithm)
    &&& 0 <= claims.exp <= usize::MAX
    &&& 0 <= claims.iat <= usize::MAX
    &&& signed_token(
        claims.exp as usize,
        claims.iat as usize,
        claims.sub,
        signing.secret,
        signing.algorithm,
    ) == token
    &&& token_reading(token, signing.secret, signing.algorithm) == Ok::<Payload, DecodeFault>(
        claims.payload(),
    )
}

/// The token that [`encode`] returns for the claims: what signing returns for
/// them, as far as it [`carries`] them. Every token that was returned does.
pub open spec fn token_of(claims: Claims, signing: Signing) -> Option<Seq<char>> {
    if 0 <= claims.exp <= usize::MAX && 0 <= claims.iat <= usize::MAX {
        let token = signed_token(
            claims.exp as usize,
            claims.iat as usize,
            claims.sub,
            signing.secret,
            signing.algorithm,
        );
        if carries(token, claims, signing) {
            Some(token)
        } else {
            None
        }
    } else {
        None
    }
}

/// The claims that a verified payload stands for at the time `now`.
///
/// A payload that lacks one of the three claims, holds a time that is no
/// machine integer, or ends no later than it was issued is malformed. A
/// well-formed one has expired once `now` is past its expiry.
pub open spec fn claims_of(payload: Payload, now: int) -> Result<Claims, TokenError> {
    match (payload.exp, payload.iat, payload.sub) {
        (Some(exp), Some(iat), Some(sub)) => {
            if exp > usize::MAX || exp <= iat {
                Err(TokenError::Malformed)
            } else if now > exp {
                Err(TokenError::Expired)
            } else {
                Ok(Claims { exp: exp as int, iat: iat as int, sub })
            }
        },
        _ => Err(TokenError::Malformed),
    }
}

/// The error that a refusal of the signature check becomes.
pub open spec fn refusal(fault: DecodeFault) -> TokenError {
    match fault {
        DecodeFault::InvalidSignature => TokenError::BadSignature,
        DecodeFault::InvalidAlgorithm => TokenError::AlgorithmMismatch,
        DecodeFault::Other => TokenError::Malformed,
    }
}

/// What [`decode_at`] returns for a token at the time `now`.
///
/// Where the signature check accepts the token, the result is that of
/// [`claims_of`] on its payload. Where it refuses, the result is the error that
/// [`refusal`] gives for its reason, at any time.
pub open spec fn decoded(token: Seq<char>, signing: Signing, now: int) -> Result<
    Claims,
    TokenError,
> {
    match token_reading(token, signing.secret, signing.algorithm) {
        Ok(payload) => claims_of(payload, now),
        Err(fault) => Err(refusal(fault)),
    }
}

/// The model of what signing returned.
pub open spec fn issued(r: Option<String>) -> Option<Seq<char>> {
    match r {
        Some(token) => Some(token@),
        None => None,
    }
}

/// The model of a reading.
pub open spec fn read_as(r: Result<RawClaims, DecodeFault>) -> Result<Payload, DecodeFault> {
    match r {
        Ok(raw) => Ok(raw@),
        Err(fault) => Err(fault),
    }
}

/// The model of a decoding result.
pub open spec fn seen(r: Result<JwtClaims, TokenError>) -> Result<Claims, TokenError> {
    match r {
        Ok(claims) => Ok(claims@),
        Err(e) => Err(e),
    }
}

/// Calls `jsonwebtoken::encode` with a header made by `Header::new`, the three
/// claims as a JSON object and the secret as an HMAC key.
///
/// Assumed: a token is returned, since `encode` fails only for a key of
/// another family than the algorithm's or for a value that has no JSON form,
/// and an HMAC key, an HMAC algorithm, two numbers and a string are neither. The
/// token is a function of the arguments. It consists of the header, the payload
/// and the signature in URL-safe Base64 without padding, joined by dots. And it
/// is accepted again by `jsonwebtoken::decode` under the same secret and
/// algorithm, with the same three claims in its payload, and with its signature
/// bound as that of every accepted token is.
#[verifier::external_body]
fn sign(exp: usize, iat: usize, sub: &str, secret: &str, algorithm: Algorithm) -> (r: Option<
    String,
>)
    ensures
        issued(r) == Some(signed_token(exp, iat, sub@, secret@, algorithm)),
        r matches Some(token) ==> carries(
            token@,
            Claims { exp: exp as int, iat: iat as int, sub: sub@ },
            Signing { algorithm, secret: secret@ },
        ),
{
    let mut claims = serde_json::Map::new();
    claims.insert(String::from("exp"), serde_json::Value::from(exp));
    claims.insert(String::from("iat"), serde_json::Value::from(iat));
    claims.insert(String::from("sub"), serde_json::Value::from(sub));
    let header = jsonwebtoken::Header::new(
        match algorithm {
            Algorithm::HS256 => jsonwebtoken::Algorithm::HS256,
            Algorithm::HS384 => jsonwebtoken::Algorithm::HS384,
            Algorithm::HS512 => jsonwebtoken::Algorithm::HS512,
        },
    );
    let key = jsonwebtoken::EncodingKey::from_secret(secret.as_bytes());
    jsonwebtoken::encode(&header, &claims, &key).ok()
}

/// Calls `jsonwebtoken::decode` with the secret as an HMAC key and a
/// `Validation` that allows the one algorithm and leaves the expiry unchecked.
///
/// Assumed: the result is a function of the arguments. Where the token is
/// accepted, it is what the payload holds under `exp`, `iat` and `sub`. Where it
/// is refused, it is the kind of the error, as far as the library tells the
/// kinds apart. And an accepted token's signature is bound: for an HMAC
/// algorithm `decode` signs what stands before the last dot again and compares
/// the result with what stands behind it, so the same text with anything else
/// behind its last dot is refused as `InvalidSignature`.
#[verifier::external_body]
fn read(token: &str, secret: &str, algorithm: Algorithm) -> (r: Result<RawClaims, DecodeFault>)
    ensures
        read_as(r) == token_reading(token@, secret@, algorithm),
        r is Ok ==> signature_is_bound(token@, secret@, algorithm),
{
    let mut validation = jsonwebtoken::Validation::new(match algorithm {
        Algorithm::HS256 => jsonwebtoken::Algorithm::HS256,
        Algorithm::HS384 => jsonwebtoken::Algorithm::HS384,
        Algorithm::HS512 => jsonwebtoken::Algorithm::HS512,
    });
    validation.validate_exp = false;
    let key = jsonwebtoken::DecodingKey::from_secret(secret.as_bytes());
    let read = jsonwebtoken::decode::<serde_json::Value>(token, &key, &validation);
    let claims = read.map_err(|e| match e.kind() {
        ErrorKind::InvalidSignature => DecodeFault::InvalidSignature,
        ErrorKind::InvalidAlgorithm => DecodeFault::InvalidAlgorithm,
        _ => DecodeFault::Other,
    })?.claims;
    let sub = claims["sub"].as_str().map(String::from);
    Ok(RawClaims { exp: claims["exp"].as_u64(), iat: claims["iat"].as_u64(), sub })
}

impl JwtClaims {
    /// Whether the claims obey their invariant.
    pub fn is_valid(&self) -> (b: bool)
        ensures
            b == self@.wf(),
    {
        self.iat < self.exp
    }

    /// The claims of a session for `sub` that starts at `now` and lasts `ttl`
    /// seconds.
    pub fn issue(sub: String, now: usize, ttl: usize) -> (r: Option<JwtClaims>)
        ensures
            match r {
                Some(claims) => Claims::starting(sub@, now as int, ttl as int) == Some(claims@),
                None => Claims::starting(sub@, now as int, ttl as int) is None,
            },
            r matches Some(claims) ==> claims@.wf(),
    {
        if ttl == 0 {
            return None;
        }
        match now.checked_add(ttl) {
            Some(exp) => Some(JwtClaims { exp, iat: now, sub }),
            None => None,
        }
    }
}

/// The error that a refusal of the signature check becomes.
pub fn rejection(fault: DecodeFault) -> (e: TokenError)
    ensures
        e == refusal(fault),
{
    match fault {
        DecodeFault::InvalidSignature => TokenError::BadSignature,
        DecodeFault::InvalidAlgorithm => TokenError::AlgorithmMismatch,
        DecodeFault::Other => TokenError::Malformed,
    }
}

/// Turns a verified payload into claims, or says why it holds none.
pub fn claims_from_payload(raw: RawClaims, now: usize) -> (r: Result<JwtClaims, TokenError>)
    ensures
        seen(r) == claims_of(raw@, now as int),
        r matches Ok(claims) ==> claims@.wf(),
{
    match (raw.exp, raw.iat, raw.sub) {
        (Some(exp), Some(iat), Some(sub)) => {
            if exp > usize::MAX as u64 || exp <= iat {
                Err(TokenError::Malformed)
            } else if now as u64 > exp {
                Err(TokenError::Expired)
            } else {
                Ok(JwtClaims { exp: exp as usize, iat: iat as usize, sub })
            }
        },
        _ => Err(TokenError::Malformed),
    }
}

/// Signs the claims under the configuration and returns the token in its
/// compact form.
///
/// Every algorithm of [`Algorithm`] is a MAC and fits a secret, so no
/// configuration is refused and a token is always returned.
pub fn encode(claims: &JwtClaims, config: &JwtConfig) -> (r: Result<String, TokenError>)
    ensures
        r is Ok,
        r matches Ok(token) ==> token_of(claims@, config@) == Some(token@) && is_compact(token@),
{
    match sign(
        claims.exp,
        claims.iat,
        claims.sub.as_str(),
        config.secret.as_str(),
        config.algorithm,
    ) {
        Some(token) => Ok(token),
        None => Err(TokenError::Unissuable),
    }
}

/// Checks a token against the configuration at the time `now` and returns its
/// claims.
///
/// Claims are returned only for a token that the signature check accepts and
/// whose payload holds well-formed claims that have not expired. Every other
/// token gets an error and nothing else: `BadSignature`, `AlgorithmMismatch` or
/// `Malformed` as the check refuses it, `Malformed` or `Expired` as its payload
/// fails.
pub fn decode_at(token: &str, config: &JwtConfig, now: usize) -> (r: Result<JwtClaims, TokenError>)
    ensures
        seen(r) == decoded(token@, config@, now as int),
        r matches Ok(claims) ==> claims@.wf(),
        r is Ok ==> is_valid_token(token@, config@),
{
    match read(token, config.secret.as_str(), config.algorithm) {
        Ok(raw) => claims_from_payload(raw, now),
        Err(fault) => Err(rejection(fault)),
    }
}

/// Checks a token against the configuration at the present time, which is
/// read once.
pub fn decode(token: &str, config: &JwtConfig) -> (r: Result<JwtClaims, TokenError>)
    ensures
        exists|at: int| 0 <= at <= usize::MAX && seen(r) == #[trigger] decoded(token@, config@, at),
        r matches Ok(claims) ==> claims@.wf(),
{
    let at = now();
    decode_at(token, config, at)
}

/// A type whose values can be turned into a signed session token.
pub trait IntoJwt: Sized {
    /// The subject that the token is issued for.
    spec fn subject(&self) -> Seq<char>;

    /// Issues a token for the value: a session that starts at
    /// `current_timestamp`, lasts `duration` seconds, and is signed with the
    /// algorithm under the key.
    ///
    /// A token is issued for every session that is not empty and ends at a
    /// machine integer; no other is, and the error is then
    /// [`TokenError::Unissuable`].
    fn into_jwt(
        self,
        current_timestamp: usize,
        duration: usize,
        algorithm: Algorithm,
        key: &str,
    ) -> (r: Result<String, TokenError>)
        ensures
            r is Ok <==> Claims::starting(
                self.subject(),
                current_timestamp as int,
                duration as int,
            ) is Some,
            match r {
                Ok(token) => session_token(
                    self.subject(),
                    current_timestamp as int,
                    duration as int,
                    Signing { algorithm, secret: key@ },
                ) == Some(token@),
                Err(e) => e == TokenError::Unissuable,
            },
    ;
}

/// The token of a session for `sub` that starts at `now` and lasts `ttl`
/// seconds, if one can be issued.
pub open spec fn session_token(sub: Seq<char>, now: int, ttl: int, signing: Signing) -> Option<
    Seq<char>,
> {
    match Claims::starting(sub, now, ttl) {
        Some(claims) => token_of(claims, signing),
        None => None,
    }
}

/// Issues the token of a session for `sub` that starts at `now` and lasts
/// `ttl` seconds.
///
/// A token is issued for every session that is not empty and ends at a
/// machine integer; no other is, and the error is then
/// [`TokenError::Unissuable`].
pub fn issue_token(sub: String, now: usize, ttl: usize, config: &JwtConfig) -> (r: Result<
    String,
    TokenError,
>)
    ensures
        r is Ok <==> Claims::starting(sub@, now as int, ttl as int) is Some,
        match r {
            Ok(token) => session_token(sub@, now as int, ttl as int, config@) == Some(token@),
            Err(e) => e == TokenError::Unissuable,
        },
{
    match JwtClaims::issue(sub, now, ttl) {
        Some(claims) => encode(&claims, config),
        None => Err(TokenError::Unissuable),
    }
}

/// Round trip: a token that was issued for well-formed claims decodes, up to
/// and at its expiry, to those claims.
pub proof fn decode_inverts_encode(claims: Claims, signing: Signing, now: int)
    requires
        claims.wf(),
        now <= claims.exp,
    ensures
        token_of(claims, signing) matches Some(token) ==> decoded(token, signing, now) == Ok::<
            Claims,
            TokenError,
        >(claims),
{
}

/// Expiry: a token with a valid signature and well-formed claims, which is
/// one that decodes to claims at some time, decodes to `Expired` at every time
/// after the expiry that it holds.
pub proof fn expired_token_is_refused(token: Seq<char>, signing: Signing, once: int, now: int)
    requires
        decoded(token, signing, once) is Ok,
        now > decoded(token, signing, once)->Ok_0.exp,
    ensures
        decoded(token, signing, now) == Err::<Claims, TokenError>(TokenError::Expired),
{
}

/// The life of a token: one that is valid at some time was valid at every
/// earlier time, one that has expired stays expired, and one that the
/// signature check refuses is refused at every time with the same error.
pub proof fn token_state_moves_forward(token: Seq<char>, signing: Signing, earlier: int, later: int)
    requires
        earlier <= later,
    ensures
        decoded(token, signing, later) is Ok ==> decoded(token, signing, earlier) == decoded(
            token,
            signing,
            later,
        ),
        decoded(token, signing, earlier) == Err::<Claims, TokenError>(TokenError::Expired)
            ==> decoded(token, signing, later) == Err::<Claims, TokenError>(TokenError::Expired),
        token_reading(token, signing.secret, signing.algorithm) is Err ==> decoded(
            token,
            signing,
            earlier,
        ) == decoded(token, signing, later),
{
}

/// All or nothing: claims come out of a token only where the signature check
/// accepts it, and they are then the well-formed claims of its payload.
pub proof fn claims_only_from_accepted_tokens(token: Seq<char>, signing: Signing, now: int)
    ensures
        decoded(token, signing, now) matches Ok(claims) ==> claims.wf() && now <= claims.exp
            && token_reading(token, signing.secret, signing.algorithm) == Ok::<
            Payload,
            DecodeFault,
        >(claims.payload()),
{
    if let Ok(payload) = token_reading(token, signing.secret, signing.algorithm) {
        if let Ok(claims) = claims_of(payload, now) {
            assert(claims.payload() == payload);
        }
    }
}

/// Tamper sensitivity of the signature: a valid token with any other
/// signature segment in place of its own decodes to `BadSignature`, at every
/// time. A changed segment that holds a dot is no signature segment, and is left
/// out.
pub proof fn changed_signature_is_a_bad_signature(
    header: Seq<char>,
    payload: Seq<char>,
    signature: Seq<char>,
    other: Seq<char>,
    signing: Signing,
    now: int,
)
    requires
        is_valid_token(joined(header, payload, signature), signing),
        dotless(signature),
        dotless(other),
        other != signature,
    ensures
        decoded(joined(header, payload, other), signing, now) == Err::<Claims, TokenError>(
            TokenError::BadSignature,
        ),
{
    let message = header + seq!['.'] + payload;
    assert(joined(header, payload, signature) == signed_as(message, signature));
    assert(joined(header, payload, other) == signed_as(message, other));
}

/// Every token that was issued is valid, so its signature is bound too.
pub proof fn issued_token_is_valid(claims: Claims, signing: Signing)
    ensures
        token_of(claims, signing) matches Some(token) ==> is_valid_token(token, signing)
            && is_compact(token),
{
}

/// A token in the compact form holds exactly two dots, and they part its
/// three segments: no segment can be taken for two.
pub proof fn compact_token_has_two_dots(
    header: Seq<char>,
    payload: Seq<char>,
    signature: Seq<char>,
    i: int,
)
    requires
        is_segment(header),
        is_segment(payload),
        is_segment(signature),
        0 <= i < joined(header, payload, signature).len(),
    ensures
        joined(header, payload, signature)[i] == '.' <==> (i == header.len() || i == header.len()
            + 1 + payload.len()),
{
    let token = joined(header, payload, signature);
    if i < header.len() {
        assert(token[i] == header[i]);
    } else if i == header.len() {
    } else if i < header.len() + 1 + payload.len() {
        assert(token[i] == payload[i - header.len() - 1]);
    } else if i == header.len() + 1 + payload.len() {
    } else {
        assert(token[i] == signature[i - header.len() - payload.len() - 2]);
    }
}

} // verus!
