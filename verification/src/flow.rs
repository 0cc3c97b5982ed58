//! The three request flows of the user routes, without their I/O.
//!
//! Each flow makes at most one call to the store. [`begin`] takes a request
//! and says either what to answer at once or what to ask of the store, and what
//! the flow then waits for; [`resume`] takes what the store returned and says
//! what to answer. The code that owns the connection performs the call between
//! the two.

use vstd::prelude::*;
use crate::errors::{map_error, store_failure, StoreError, UserError};
use crate::jwt::{JwtConfig, Signing};
use crate::password::{generate_salt, is_salt, CredentialHasher, Verdict};
use crate::service::{
    logged_in,
    login_at,
    login_succeeds,
    register_with_salt,
    registered,
    resolve_session_at,
    resolved,
    SESSION_SECONDS,
};
use crate::user::{
    Account,
    Credential,
    LoginAttempt,
    NewUserPayload,
    Registration,
    User,
    UserChangeset,
    UserLoginPayload,
};

verus! {

/// The `SameSite` attribute of a cookie.
#[derive(Debug, Clone, Copy, PartialEq, Eq, Structural)]
pub enum SameSite {
    Strict,
    Lax,
    /// The attribute's value `None`: the cookie goes with requests from other
    /// sites too, which browsers allow over secure transport only.
    CrossSite,
}

/// How sessions are started: how long one lasts, and where its cookie goes.
#[derive(Debug, Clone, Copy, PartialEq, Eq, Structural)]
pub struct SessionPolicy {
    /// The length of a session in seconds.
    pub ttl: usize,
    pub same_site: SameSite,
    /// Whether the cookie is to go over secure transport only. A cookie that
    /// goes with requests from other sites does so whatever this says.
    pub secure: bool,
}

/// The cookie that carries a session token to the client.
#[derive(Clone, PartialEq, Eq)]
pub struct SessionCookie {
    pub name: String,
    pub value: String,
    pub http_only: bool,
    /// Whether the cookie goes over secure transport only.
    pub secure: bool,
    pub same_site: SameSite,
    /// The lifetime of the cookie in seconds.
    pub max_age: usize,
}

/// A request to one of the user routes. A request for the user's data comes
/// with the session cookie, if the client sent one; a login is decided without
/// it.
#[derive(Clone, PartialEq, Eq)]
pub enum Request {
    Register(NewUserPayload),
    Login(UserLoginPayload),
    UserData { cookie: Option<String> },
}

/// A call to the store.
#[derive(Debug, Clone, PartialEq, Eq)]
pub enum StoreCall {
    Create(UserChangeset),
    GetById(String),
    GetByEmail(String),
}

/// What a flow waits for while the store is asked.
#[derive(Clone, PartialEq, Eq)]
pub enum Pending {
    /// A registration waits for the stored user.
    Creation,
    /// A request for the user's data waits for the user of the session.
    Profile,
    /// A login waits for the user with the given address, to check the
    /// password against.
    Candidate { password: String },
}

/// The answer to a request.
#[derive(Clone, PartialEq, Eq)]
pub enum Reply {
    /// Success with the user as the body.
    Found(User),
    /// Success with a new session.
    SessionStarted(SessionCookie),
    Failed(UserError),
}

/// What a flow does next.
#[derive(Clone, PartialEq, Eq)]
pub enum Step {
    Ask(StoreCall, Pending),
    Answer(Reply),
}

/// The model of [`SessionCookie`].
pub struct CookieModel {
    pub name: Seq<char>,
    pub value: Seq<char>,
    pub http_only: bool,
    pub secure: bool,
    pub same_site: SameSite,
    pub max_age: int,
}

/// The model of [`Request`].
pub enum RequestModel {
    Register(Registration),
    Login(LoginAttempt),
    UserData { cookie: Option<Seq<char>> },
}

/// The model of [`StoreCall`].
pub enum StoreCallModel {
    Create(Credential),
    GetById(Seq<char>),
    GetByEmail(Seq<char>),
}

/// The model of [`Pending`].
pub enum PendingModel {
    Creation,
    Profile,
    Candidate { password: Seq<char> },
}

/// The model of [`Reply`].
pub enum ReplyModel {
    Found(Account),
    SessionStarted(CookieModel),
    Failed(UserError),
}

/// The model of [`Step`].
pub enum StepModel {
    Ask(StoreCallModel, PendingModel),
    Answer(ReplyModel),
}

impl View for SessionCookie {
    type V = CookieModel;

    open spec fn view(&self) -> CookieModel {
        CookieModel {
            name: self.name@,
            value: self.value@,
            http_only: self.http_only,
            secure: self.secure,
            same_site: self.same_site,
            max_age: self.max_age as int,
        }
    }
}

impl Default for SessionPolicy {
    /// Sessions of [`SESSION_SECONDS`] whose cookie goes with requests from
    /// other sites too, over secure transport.
    fn default() -> (policy: SessionPolicy)
        ensures
            policy == (SessionPolicy {
                ttl: SESSION_SECONDS,
                same_site: SameSite::CrossSite,
                secure: true,
            }),
    {
        SessionPolicy { ttl: SESSION_SECONDS, same_site: SameSite::CrossSite, secure: true }
    }
}

/// The model of a cookie that may be absent.
pub open spec fn cookie_model(cookie: Option<String>) -> Option<Seq<char>> {
    match cookie {
        Some(token) => Some(token@),
        None => None,
    }
}

impl View for Request {
    type V = RequestModel;

    open spec fn view(&self) -> RequestModel {
        match self {
            Request::Register(payload) => RequestModel::Register(payload@),
            Request::Login(payload) => RequestModel::Login(payload@),
            Request::UserData { cookie } => RequestModel::UserData {
                cookie: cookie_model(*cookie),
            },
        }
    }
}

impl View for StoreCall {
    type V = StoreCallModel;

    open spec fn view(&self) -> StoreCallModel {
        match self {
            StoreCall::Create(changeset) => StoreCallModel::Create(changeset@),
            StoreCall::GetById(id) => StoreCallModel::GetById(id@),
            StoreCall::GetByEmail(email) => StoreCallModel::GetByEmail(email@),
        }
    }
}

impl View for Pending {
    type V = PendingModel;

    open spec fn view(&self) -> PendingModel {
        match self {
            Pending::Creation => PendingModel::Creation,
            Pending::Profile => PendingModel::Profile,
            Pending::Candidate { password } => PendingModel::Candidate { password: password@ },
        }
    }
}

impl View for Reply {
    type V = ReplyModel;

    open spec fn view(&self) -> ReplyModel {
        match self {
            Reply::Found(user) => ReplyModel::Found(user@),
            Reply::SessionStarted(cookie) => ReplyModel::SessionStarted(cookie@),
            Reply::Failed(e) => ReplyModel::Failed(*e),
        }
    }
}

impl View for Step {
    type V = StepModel;

    open spec fn view(&self) -> StepModel {
        match self {
            Step::Ask(call, pending) => StepModel::Ask(call@, pending@),
            Step::Answer(reply) => StepModel::Answer(reply@),
        }
    }
}

/// The model of what the store returned.
pub open spec fn outcome_model(outcome: Result<User, StoreError>) -> Result<Account, StoreError> {
    match outcome {
        Ok(user) => Ok(user@),
        Err(e) => Err(e),
    }
}

/// The cookie of a session: it is named `user_jwt`, holds the token, is kept
/// from scripts, and lives as long as the token is valid. It goes over secure
/// transport only where the policy says so, and wherever it goes with requests
/// from other sites.
pub open spec fn cookie_for(token: Seq<char>, policy: SessionPolicy) -> CookieModel {
    CookieModel {
        name: "user_jwt"@,
        value: token,
        http_only: true,
        secure: policy.secure || policy.same_site == SameSite::CrossSite,
        same_site: policy.same_site,
        max_age: policy.ttl as int,
    }
}

/// The step that a session cookie leads to: the user of the session is
/// fetched where the token resolves to a subject, and the client is told that
/// it is not logged in where it does not, whatever the reason.
pub open spec fn session_step(
    token: Seq<char>,
    signing: Signing,
    now: int,
    pending: PendingModel,
) -> StepModel {
    match resolved(token, signing, now) {
        Ok(subject) => StepModel::Ask(StoreCallModel::GetById(subject), pending),
        Err(_) => StepModel::Answer(ReplyModel::Failed(UserError::UserNotLoggedIn)),
    }
}

/// The first step of each flow. `salt` is the salt that a registration uses;
/// no other request has a use for it.
///
/// A login always asks for the user with the address, whatever else came with
/// the request: it is decided by what the lookup finds and by the password.
pub open spec fn begun<H: CredentialHasher>(
    hasher: &H,
    request: RequestModel,
    signing: Signing,
    now: int,
    salt: Seq<char>,
) -> StepModel {
    match request {
        RequestModel::Register(registration) => match registered(hasher, registration, salt) {
            Ok(credential) => StepModel::Ask(
                StoreCallModel::Create(credential),
                PendingModel::Creation,
            ),
            Err(e) => StepModel::Answer(ReplyModel::Failed(UserError::exposing(e))),
        },
        RequestModel::Login(attempt) => StepModel::Ask(
            StoreCallModel::GetByEmail(attempt.email),
            PendingModel::Candidate { password: attempt.password },
        ),
        RequestModel::UserData { cookie: Some(token) } => session_step(
            token,
            signing,
            now,
            PendingModel::Profile,
        ),
        RequestModel::UserData { cookie: None } => StepModel::Answer(
            ReplyModel::Failed(UserError::UserNotLoggedIn),
        ),
    }
}

/// The candidate of a login, given what the lookup by address returned: the
/// user that was found, none where nobody was found, and no login at all where
/// the lookup failed.
pub open spec fn candidate_of(outcome: Result<Account, StoreError>) -> Result<
    Option<Account>,
    StoreError,
> {
    match outcome {
        Ok(account) => Ok(Some(account)),
        Err(e) => if e == StoreError::NotFound {
            Ok(None)
        } else {
            Err(e)
        },
    }
}

/// The answer to a login, given what the lookup by address returned. A
/// lookup that found nobody leads to a login without a candidate, which fails
/// as a wrong password does.
pub open spec fn login_reply<H: CredentialHasher>(
    hasher: &H,
    password: Seq<char>,
    outcome: Result<Account, StoreError>,
    signing: Signing,
    now: int,
    policy: SessionPolicy,
) -> ReplyModel {
    match candidate_of(outcome) {
        Err(e) => ReplyModel::Failed(store_failure(e)),
        Ok(candidate) => match logged_in(
            hasher,
            candidate,
            password,
            signing,
            now,
            policy.ttl as int,
        ) {
            Ok(token) => ReplyModel::SessionStarted(cookie_for(token, policy)),
            Err(e) => ReplyModel::Failed(UserError::exposing(e)),
        },
    }
}

/// The answer of each flow, given what it waited for and what the store
/// returned.
pub open spec fn resumed<H: CredentialHasher>(
    hasher: &H,
    pending: PendingModel,
    outcome: Result<Account, StoreError>,
    signing: Signing,
    now: int,
    policy: SessionPolicy,
) -> ReplyModel {
    match pending {
        PendingModel::Candidate { password } => login_reply(
            hasher,
            password,
            outcome,
            signing,
            now,
            policy,
        ),
        _ => match outcome {
            Err(e) => ReplyModel::Failed(store_failure(e)),
            Ok(account) => ReplyModel::Found(account),
        },
    }
}

/// Whether a flow that is resumed starts a session: it is a login, the lookup
/// did not fail, and the login succeeds for what was found.
pub open spec fn starts_session<H: CredentialHasher>(
    hasher: &H,
    pending: PendingModel,
    outcome: Result<Account, StoreError>,
    now: int,
    policy: SessionPolicy,
) -> bool {
    pending matches PendingModel::Candidate { password } && candidate_of(outcome) matches Ok(
        candidate,
    ) && login_succeeds(hasher, candidate, password, now, policy.ttl as int)
}

/// The cookie of a session under the policy.
pub fn session_cookie(token: String, policy: &SessionPolicy) -> (cookie: SessionCookie)
    ensures
        cookie@ == cookie_for(token@, *policy),
        cookie.same_site == SameSite::CrossSite ==> cookie.secure,
{
    let secure = match policy.same_site {
        SameSite::CrossSite => true,
        _ => policy.secure,
    };
    SessionCookie {
        name: "user_jwt".to_owned(),
        value: token,
        http_only: true,
        secure,
        same_site: policy.same_site,
        max_age: policy.ttl,
    }
}

/// The step that a session cookie leads to.
fn step_of_session(token: &str, config: &JwtConfig, now: usize, pending: Pending) -> (step: Step)
    ensures
        step@ == session_step(token@, config@, now as int, pending@),
{
    match resolve_session_at(token, config, now) {
        Ok(subject) => Step::Ask(StoreCall::GetById(subject), pending),
        Err(e) => Step::Answer(Reply::Failed(UserError::from_auth_error(e))),
    }
}

/// Takes the first step of a flow at the time `now`, under the given salt.
pub fn begin_with_salt<H: CredentialHasher>(
    hasher: &H,
    request: Request,
    config: &JwtConfig,
    now: usize,
    salt: String,
) -> (step: Step)
    ensures
        step@ == begun(hasher, request@, config@, now as int, salt@),
{
    match request {
        Request::Register(payload) => match register_with_salt(hasher, payload, salt) {
            Ok(changeset) => Step::Ask(StoreCall::Create(changeset), Pending::Creation),
            Err(e) => Step::Answer(Reply::Failed(UserError::from_auth_error(e))),
        },
        Request::Login(payload) => {
            let UserLoginPayload { email, password } = payload;
            Step::Ask(StoreCall::GetByEmail(email), Pending::Candidate { password })
        },
        Request::UserData { cookie: Some(token) } => step_of_session(
            token.as_str(),
            config,
            now,
            Pending::Profile,
        ),
        Request::UserData { cookie: None } => Step::Answer(
            Reply::Failed(UserError::UserNotLoggedIn),
        ),
    }
}

/// Takes the first step of a flow at the time `now`. A registration gets a
/// fresh salt; for no other request is one drawn.
pub fn begin<H: CredentialHasher>(
    hasher: &H,
    request: Request,
    config: &JwtConfig,
    now: usize,
) -> (step: Step)
    ensures
        match request@ {
            RequestModel::Register(_) => exists|salt: Seq<char>|
                is_salt(salt) && step@ == #[trigger] begun(
                    hasher,
                    request@,
                    config@,
                    now as int,
                    salt,
                ),
            _ => step@ == begun(hasher, request@, config@, now as int, Seq::empty()),
        },
{
    match request {
        Request::Register(payload) => {
            let salt = generate_salt();
            begin_with_salt(hasher, Request::Register(payload), config, now, salt)
        },
        other => begin_with_salt(hasher, other, config, now, String::new()),
    }
}

/// Finishes a flow at the time `now`, given what the store returned. A login
/// starts a session under the policy, and does so wherever it succeeds.
pub fn resume<H: CredentialHasher>(
    hasher: &H,
    pending: Pending,
    outcome: Result<User, StoreError>,
    config: &JwtConfig,
    now: usize,
    policy: &SessionPolicy,
) -> (reply: Reply)
    ensures
        reply@ == resumed(hasher, pending@, outcome_model(outcome), config@, now as int, *policy),
        reply is SessionStarted <==> starts_session(
            hasher,
            pending@,
            outcome_model(outcome),
            now as int,
            *policy,
        ),
{
    match pending {
        Pending::Candidate { password } => {
            let candidate = match outcome {
                Ok(user) => Some(user),
                Err(StoreError::NotFound) => None,
                Err(e) => { return Reply::Failed(map_error(e)); },
            };
            let found = candidate.as_ref();
            match login_at(hasher, found, password.as_str(), config, now, policy.ttl) {
                Ok(token) => Reply::SessionStarted(session_cookie(token, policy)),
                Err(e) => Reply::Failed(UserError::from_auth_error(e)),
            }
        },
        _ => match outcome {
            Ok(user) => Reply::Found(user),
            Err(e) => Reply::Failed(map_error(e)),
        },
    }
}

/// The salt is for registrations: the first step of every other request is
/// the same under any salt, and under none.
pub proof fn salt_is_for_registrations<H: CredentialHasher>(
    hasher: &H,
    request: RequestModel,
    signing: Signing,
    now: int,
    salt: Seq<char>,
    other: Seq<char>,
)
    requires
        !(request is Register),
    ensures
        begun(hasher, request, signing, now, salt) == begun(hasher, request, signing, now, other),
{
}

/// A cookie that goes with requests from other sites goes over secure
/// transport only, whatever the policy says.
pub proof fn cross_site_cookie_is_secure(token: Seq<char>, policy: SessionPolicy)
    ensures
        cookie_for(token, policy).same_site == SameSite::CrossSite ==> cookie_for(
            token,
            policy,
        ).secure,
        cookie_for(token, policy).http_only,
        cookie_for(token, policy).max_age == policy.ttl,
{
}

/// A login is decided by what the lookup finds and by the password: it asks
/// for the user with the address at any time and under any configuration, and
/// a password that is rejected for the user that was found is answered with the
/// one answer of a failed login.
pub proof fn login_is_decided_by_lookup_and_password<H: CredentialHasher>(
    hasher: &H,
    attempt: LoginAttempt,
    account: Account,
    signing: Signing,
    now: int,
    salt: Seq<char>,
    policy: SessionPolicy,
)
    ensures
        begun(hasher, RequestModel::Login(attempt), signing, now, salt) == StepModel::Ask(
            StoreCallModel::GetByEmail(attempt.email),
            PendingModel::Candidate { password: attempt.password },
        ),
        hasher.verdict(attempt.password, account.password_hash) == Verdict::Rejected ==> resumed(
            hasher,
            PendingModel::Candidate { password: attempt.password },
            Ok(account),
            signing,
            now,
            policy,
        ) == ReplyModel::Failed(UserError::MismatchedPassword),
{
}

/// Enumeration resistance at the route: a login for an address that the store
/// does not know is answered exactly as a login with a wrong password is.
pub proof fn unknown_address_answers_as_wrong_password<H: CredentialHasher>(
    hasher: &H,
    account: Account,
    wrong_password: Seq<char>,
    any_password: Seq<char>,
    signing: Signing,
    now: int,
    policy: SessionPolicy,
)
    requires
        hasher.verdict(wrong_password, account.password_hash) == Verdict::Rejected,
    ensures
        login_reply(hasher, any_password, Err(StoreError::NotFound), signing, now, policy)
            == login_reply(hasher, wrong_password, Ok(account), signing, now, policy),
{
}

} // verus!
