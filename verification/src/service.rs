//! The credential operations: register, login, refresh and logout.
//!
//! Each operation is a short exchange with two collaborators, the record
//! store that keeps identities with their secret hashes and the session
//! store that keeps refresh tokens. This module decides; it reaches neither
//! store itself. An operation starts with one of [`register`], [`login`],
//! [`refresh`] and [`logout`], which hand back the state of the exchange
//! and the first request to a collaborator. The caller carries the request
//! out and hands its answer to [`advance`], together with the state, until
//! the request that comes back is [`Action::Reply`]. [`advance_at`] is the
//! same step for a caller that brings the time along.
//!
//! A session is kept for as long as its refresh token lives: the
//! time-to-live that the session store is given is the configured lifetime
//! of refresh tokens, in whole seconds.
//!
//! A refresh token is honoured only where both hold: the session store has
//! an entry for it, and the token itself validates under the refresh key
//! at the present second, for the identity of that entry.
//!
//! Only four kinds of error leave an operation: a refused credential, a
//! second registration, a malformed request and an internal failure. Every
//! refusal carries the same message, whatever caused it.

use crate::auth::jwt::current_time;
use crate::auth::jwt::duration_parsed;
use crate::auth::jwt::expiry_second;
use crate::auth::jwt::issued_claims;
use crate::auth::jwt::jwt_decoded;
use crate::auth::jwt::lifetime_seconds;
use crate::auth::jwt::token_issued_at;
use crate::auth::jwt::token_text;
use crate::auth::jwt::validate_token_at;
use crate::auth::jwt::validation_outcome;
use crate::auth::jwt::whole_seconds;
use crate::auth::jwt::Claims;
use crate::auth::jwt::Timestamp;
use crate::auth::jwt::TokenError;
use crate::auth::password::argon2_verifies;
use crate::auth::password::hash_password;
use crate::auth::password::PasswordError;
use crate::auth::password::verify_password;
use crate::config::AuthConfig;
use crate::errors::AppError;
use crate::identity::uuid_parsed;
use crate::identity::Identity;
use crate::secret::Secret;
use crate::session::lookup;
use crate::session::Session;
use crate::utils::token::create_jwt_token_at;
use vstd::prelude::*;

verus! {

/// What a caller presents to register or to log in.
#[derive(Debug)]
pub struct AuthPayload {
    /// The e-mail address that names the identity.
    pub email: String,
    /// The secret, in plain text.
    pub password: Secret,
}

/// A credential record as the record store keeps it.
#[derive(Debug)]
pub struct User {
    /// The identity.
    pub id: Identity,
    /// The e-mail address that names it.
    pub email: String,
    /// The hash of its secret. It is read to check a secret and goes nowhere
    /// else.
    pub password_hash: String,
    /// The second at which the record was made.
    pub created_at: i64,
}

/// The two tokens of a session, and for how long the session is kept.
#[derive(Debug)]
pub struct TokenPair {
    /// The short-lived token that proves the identity.
    pub access_token: String,
    /// The long-lived token that a new access token is had for.
    pub refresh_token: String,
    /// The seconds for which the session of the refresh token is kept: the
    /// lifetime of the refresh token.
    pub session_ttl: u64,
}

/// How an operation ends where it succeeds.
#[derive(Debug)]
pub enum Reply {
    /// A new identity was registered and a session opened for it, to be
    /// kept for `session_ttl` seconds.
    Registered { identity: Identity, access_token: String, refresh_token: String, session_ttl: u64 },
    /// A session was opened, to be kept for `session_ttl` seconds.
    LoggedIn { access_token: String, refresh_token: String, session_ttl: u64 },
    /// A new access token was issued; the session is as it was.
    Refreshed { access_token: String },
    /// The session was revoked.
    LoggedOut,
}

/// A cookie that a reply sets.
#[derive(Debug)]
pub struct SessionCookie {
    /// The name of the cookie.
    pub name: String,
    /// Its value; empty to clear the cookie.
    pub value: String,
    /// The seconds after which the cookie is dropped, or nothing for a
    /// cookie that lasts as long as the browser session.
    pub max_age: Option<u64>,
    /// The path that the cookie is sent for.
    pub path: String,
    /// Whether the cookie is hidden from scripts.
    pub http_only: bool,
    /// Whether the cookie is sent on same-site requests only.
    pub same_site_strict: bool,
    /// Whether the cookie is sent over a secure transport only.
    pub secure: bool,
}

/// A cookie with its texts as sequences of characters.
pub ghost struct CookieView {
    pub name: Seq<char>,
    pub value: Seq<char>,
    pub max_age: Option<u64>,
    pub path: Seq<char>,
    pub http_only: bool,
    pub same_site_strict: bool,
    pub secure: bool,
}

impl View for SessionCookie {
    type V = CookieView;

    open spec fn view(&self) -> CookieView {
        CookieView {
            name: self.name@,
            value: self.value@,
            max_age: self.max_age,
            path: self.path@,
            http_only: self.http_only,
            same_site_strict: self.same_site_strict,
            secure: self.secure,
        }
    }
}

/// The name of the cookie that carries the access token.
pub open spec fn access_cookie() -> Seq<char> {
    "access_token"@
}

/// The name of the cookie that carries the refresh token.
pub open spec fn refresh_cookie() -> Seq<char> {
    "refresh_token"@
}

/// A cookie as every reply sets it: for the whole site, hidden from
/// scripts, sent on same-site requests only and only over a secure
/// transport.
pub open spec fn guarded_cookie(name: Seq<char>, value: Seq<char>, max_age: Option<u64>) -> CookieView {
    CookieView {
        name,
        value,
        max_age,
        path: "/"@,
        http_only: true,
        same_site_strict: true,
        secure: true,
    }
}

impl Reply {
    /// The status that a transport shows for the reply: 201 for a new
    /// identity, 200 for everything else.
    pub open spec fn status(self) -> u16 {
        if self is Registered {
            201
        } else {
            200
        }
    }

    /// The cookies that the reply sets: each token it carries under the
    /// name of its class, the refresh token for as long as its session is
    /// kept, and after a logout both names with an empty value.
    pub open spec fn cookie_views(self) -> Seq<CookieView> {
        match self {
            Reply::Registered { identity, access_token, refresh_token, session_ttl } => seq![
                guarded_cookie(access_cookie(), access_token@, None),
                guarded_cookie(refresh_cookie(), refresh_token@, Some(session_ttl)),
            ],
            Reply::LoggedIn { access_token, refresh_token, session_ttl } => seq![
                guarded_cookie(access_cookie(), access_token@, None),
                guarded_cookie(refresh_cookie(), refresh_token@, Some(session_ttl)),
            ],
            Reply::Refreshed { access_token } => seq![
                guarded_cookie(access_cookie(), access_token@, None),
            ],
            Reply::LoggedOut => seq![
                guarded_cookie(access_cookie(), Seq::<char>::empty(), None),
                guarded_cookie(refresh_cookie(), Seq::<char>::empty(), None),
            ],
        }
    }

    /// The status that a transport shows for the reply.
    pub fn status_code(&self) -> (status: u16)
        ensures
            status == self.status(),
    {
        match self {
            Reply::Registered { .. } => 201,
            _ => 200,
        }
    }

    /// The cookies that the reply sets.
    pub fn cookies(&self) -> (cookies: Vec<SessionCookie>)
        ensures
            cookies@.len() == self.cookie_views().len(),
            forall|i: int|
                0 <= i < cookies@.len() ==> (#[trigger] cookies@[i])@ == self.cookie_views()[i],
    {
        let mut cookies: Vec<SessionCookie> = Vec::new();
        match self {
            Reply::Registered { identity, access_token, refresh_token, session_ttl } => {
                cookies.push(cookie("access_token", access_token.as_str(), None));
                cookies.push(cookie("refresh_token", refresh_token.as_str(), Some(*session_ttl)));
            },
            Reply::LoggedIn { access_token, refresh_token, session_ttl } => {
                cookies.push(cookie("access_token", access_token.as_str(), None));
                cookies.push(cookie("refresh_token", refresh_token.as_str(), Some(*session_ttl)));
            },
            Reply::Refreshed { access_token } => {
                cookies.push(cookie("access_token", access_token.as_str(), None));
            },
            Reply::LoggedOut => {
                let empty = String::new();
                cookies.push(cookie("access_token", empty.as_str(), None));
                cookies.push(cookie("refresh_token", empty.as_str(), None));
            },
        }
        cookies
    }
}

/// A cookie with the given name, value and lifetime, guarded as every
/// cookie of a reply is.
fn cookie(name: &str, value: &str, max_age: Option<u64>) -> (cookie: SessionCookie)
    ensures
        cookie@ == guarded_cookie(name@, value@, max_age),
{
    SessionCookie {
        name: name.to_owned(),
        value: value.to_owned(),
        max_age,
        path: "/".to_owned(),
        http_only: true,
        same_site_strict: true,
        secure: true,
    }
}

/// What an operation asks of its caller next.
#[derive(Debug)]
pub enum Action {
    /// Insert a record into the record store.
    InsertUser { email: String, password_hash: String },
    /// Find the record of an e-mail address.
    FindUserByEmail { email: String },
    /// Find the record of an identity.
    FindUserById { id: Identity },
    /// Store a session with a time-to-live in seconds.
    PutSession { token: String, identity: Identity, ttl: u64 },
    /// Look a session up.
    GetSession { token: String },
    /// Delete a session.
    DeleteSession { token: String },
    /// Nothing more: the operation has ended with this result.
    Reply(Result<Reply, AppError>),
}

/// What a collaborator answered.
#[derive(Debug)]
pub enum Event {
    /// The record store inserted the record.
    UserInserted(User),
    /// The record store holds a record of that e-mail address already.
    UserConflict,
    /// The record store found the record.
    UserFound(User),
    /// The record store holds no such record.
    UserMissing,
    /// The session store stored the session.
    SessionStored,
    /// The session store holds the session, for this identity.
    SessionFound(Identity),
    /// The session store holds no such session: it never did, the session
    /// was revoked, or its time-to-live has passed.
    SessionMissing,
    /// The session store deleted the session, or held none to delete.
    SessionDeleted,
    /// The collaborator could not answer.
    Failed,
}

/// Where an operation stands between two requests.
#[derive(Debug)]
pub enum Flow {
    /// Register waits for the record store to insert.
    RegisterInserting,
    /// Register waits for the session store to store.
    RegisterStoring { identity: Identity, tokens: TokenPair },
    /// Login waits for the record store to find the record.
    LoginFinding { password: Secret },
    /// Login waits for the session store to store.
    LoginStoring { tokens: TokenPair },
    /// Refresh waits for the session store to look the token up, and keeps
    /// the token to validate it once the store has answered.
    RefreshLooking { token: String },
    /// Refresh waits for the record store to confirm the identity.
    RefreshLoading { identity: Identity },
    /// Logout waits for the session store to delete.
    LogoutDeleting,
    /// The operation has ended.
    Finished,
}

/// The operation has ended with the refusal of a credential.
pub open spec fn refused(next: Flow, action: Action) -> bool {
    next is Finished && (action matches Action::Reply(Err(reason)) && reason.is_unauthorized())
}

/// The operation has ended with an internal failure.
pub open spec fn failed(next: Flow, action: Action) -> bool {
    next is Finished && action matches Action::Reply(Err(AppError::InternalServerError))
}

/// The operation has ended because the identity is registered already.
pub open spec fn conflicted(next: Flow, action: Action) -> bool {
    next is Finished && (action matches Action::Reply(Err(reason)) && reason.is_conflict())
}

/// The texts of the two tokens that are issued for `identity` at `now`
/// under the keys and lifetimes of `config`, the access token first, or
/// nothing where either cannot be issued.
pub open spec fn pair_text(config: AuthConfig, identity: Identity, now: Timestamp) -> Option<
    (Seq<char>, Seq<char>),
> {
    match (
        token_text(identity, config.jwt_access_secret@, config.jwt_access_expires_in@, now),
        token_text(identity, config.jwt_refresh_secret@, config.jwt_refresh_expires_in@, now),
    ) {
        (Some(access), Some(refresh)) => Some((access, refresh)),
        _ => None,
    }
}

/// Whether `token` is the access token issued for `identity` at `now`
/// under the access key and lifetime of `config`.
pub open spec fn carries_access(
    config: AuthConfig,
    identity: Identity,
    now: Timestamp,
    token: Seq<char>,
) -> bool {
    token_issued_at(
        token,
        identity,
        config.jwt_access_secret@,
        config.jwt_access_expires_in@,
        now,
    )
}

/// Whether `token` is the refresh token issued for `identity` at `now`
/// under the refresh key and lifetime of `config`.
pub open spec fn carries_refresh(
    config: AuthConfig,
    identity: Identity,
    now: Timestamp,
    token: Seq<char>,
) -> bool {
    token_issued_at(
        token,
        identity,
        config.jwt_refresh_secret@,
        config.jwt_refresh_expires_in@,
        now,
    )
}

/// Whether a refresh token holds for `identity` at `now`: it validates
/// under the refresh key of `config` at that second, and its subject is
/// that identity.
pub open spec fn refresh_token_holds(
    config: AuthConfig,
    token: Seq<char>,
    identity: Identity,
    now: Timestamp,
) -> bool {
    validation_outcome(jwt_decoded(token, config.jwt_refresh_secret@), now.secs) matches Ok(claims)
        && claims.sub == identity
}

/// The refresh goes on to confirm `identity` with the record store.
pub open spec fn confirming(identity: Identity, next: Flow, action: Action) -> bool {
    &&& next matches Flow::RefreshLoading { identity: kept }
    &&& kept == identity
    &&& action matches Action::FindUserById { id }
    &&& id == identity
}

/// For how many seconds a session is kept: the whole seconds of the
/// configured lifetime of refresh tokens, or nothing where that lifetime
/// cannot be read.
pub open spec fn session_ttl(config: AuthConfig) -> Option<u64> {
    whole_seconds(config.jwt_refresh_expires_in@)
}

/// The state in which an operation waits for the session store to store a
/// pair of tokens, and the request to store them: the refresh token is
/// stored for `identity` with the time-to-live `ttl`, and both tokens are
/// kept for the reply, together with that time-to-live.
pub open spec fn storing(
    registering: bool,
    identity: Identity,
    access: Seq<char>,
    refresh: Seq<char>,
    ttl: u64,
    next: Flow,
    action: Action,
) -> bool {
    &&& action matches Action::PutSession { token, identity: owner, ttl: asked }
    &&& token@ == refresh
    &&& owner == identity
    &&& asked == ttl
    &&& if registering {
        &&& next matches Flow::RegisterStoring { identity: kept, tokens }
        &&& kept == identity
        &&& tokens.access_token@ == access
        &&& tokens.refresh_token@ == refresh
        &&& tokens.session_ttl == ttl
    } else {
        &&& next matches Flow::LoginStoring { tokens }
        &&& tokens.access_token@ == access
        &&& tokens.refresh_token@ == refresh
        &&& tokens.session_ttl == ttl
    }
}

/// What opening a session for `identity` at `now` comes to: where both
/// tokens can be issued, the operation waits for the session store to store
/// them for the lifetime of the refresh token, and each token carries the
/// claims of its class; where either cannot, the operation ends with an
/// internal failure.
pub open spec fn session_opened(
    config: AuthConfig,
    registering: bool,
    identity: Identity,
    now: Timestamp,
    next: Flow,
    action: Action,
) -> bool {
    match pair_text(config, identity, now) {
        Some(texts) => {
            &&& session_ttl(config) matches Some(ttl)
            &&& storing(registering, identity, texts.0, texts.1, ttl, next, action)
            &&& carries_access(config, identity, now, texts.0)
            &&& carries_refresh(config, identity, now, texts.1)
        },
        None => failed(next, action),
    }
}

/// What [`advance_at`] answers to `event` in the state `flow` at the
/// instant `now`: the state `next` and the request `action`.
///
/// An answer that the state was waiting for moves the operation on. A
/// refresh whose session is there goes on only where the presented token
/// holds for the session's identity; otherwise it is refused. Every other
/// pair of state and answer, a collaborator's failure among them, ends the
/// operation with an internal failure.
pub open spec fn transition(
    config: AuthConfig,
    flow: Flow,
    event: Event,
    now: Timestamp,
    next: Flow,
    action: Action,
) -> bool {
    match (flow, event) {
        (Flow::RegisterInserting, Event::UserInserted(user)) => session_opened(
            config,
            true,
            user.id,
            now,
            next,
            action,
        ),
        (Flow::RegisterInserting, Event::UserConflict) => conflicted(next, action),
        (Flow::RegisterStoring { identity, tokens }, Event::SessionStored) => {
            &&& next is Finished
            &&& action matches Action::Reply(
                Ok(
                    Reply::Registered {
                        identity: registered,
                        access_token,
                        refresh_token,
                        session_ttl: kept,
                    },
                ),
            )
            &&& registered == identity
            &&& access_token@ == tokens.access_token@
            &&& refresh_token@ == tokens.refresh_token@
            &&& kept == tokens.session_ttl
        },
        (Flow::LoginFinding { password }, Event::UserFound(user)) => {
            if argon2_verifies(password@, user.password_hash@) {
                session_opened(config, false, user.id, now, next, action)
            } else {
                refused(next, action)
            }
        },
        (Flow::LoginFinding { password }, Event::UserMissing) => refused(next, action),
        (Flow::LoginStoring { tokens }, Event::SessionStored) => {
            &&& next is Finished
            &&& action matches Action::Reply(
                Ok(Reply::LoggedIn { access_token, refresh_token, session_ttl: kept }),
            )
            &&& access_token@ == tokens.access_token@
            &&& refresh_token@ == tokens.refresh_token@
            &&& kept == tokens.session_ttl
        },
        (Flow::RefreshLooking { token }, Event::SessionFound(identity)) => {
            if refresh_token_holds(config, token@, identity, now) {
                confirming(identity, next, action)
            } else {
                refused(next, action)
            }
        },
        (Flow::RefreshLooking { token }, Event::SessionMissing) => refused(next, action),
        (Flow::RefreshLoading { identity }, Event::UserFound(user)) => {
            if user.id == identity {
                match token_text(
                    identity,
                    config.jwt_access_secret@,
                    config.jwt_access_expires_in@,
                    now,
                ) {
                    Some(text) => {
                        &&& next is Finished
                        &&& action matches Action::Reply(Ok(Reply::Refreshed { access_token }))
                        &&& access_token@ == text
                        &&& carries_access(config, identity, now, text)
                    },
                    None => failed(next, action),
                }
            } else {
                failed(next, action)
            }
        },
        (Flow::RefreshLoading { identity }, Event::UserMissing) => refused(next, action),
        (Flow::LogoutDeleting, Event::SessionDeleted) => {
            next is Finished && action matches Action::Reply(Ok(Reply::LoggedOut))
        },
        _ => failed(next, action),
    }
}

/// A hash that no secret is known for. A login for an identity that does
/// not exist checks the presented secret against it, so that it takes about
/// as long as one for an identity that does.
pub const DECOY_HASH: &'static str =
    "$argon2id$v=19$m=19456,t=2,p=1$c29tZXNhbHRzb21lc2FsdA$AAAAAAAAAAAAAAAAAAAAAAAAAAAAAAAAAAAAAAAAAAA";

/// The end of an operation with the refusal of a credential.
pub fn refuse() -> (step: (Flow, Action))
    ensures
        refused(step.0, step.1),
{
    (Flow::Finished, Action::Reply(Err(AppError::unauthorized())))
}

/// The end of an operation with an internal failure.
pub fn fail() -> (step: (Flow, Action))
    ensures
        failed(step.0, step.1),
{
    (Flow::Finished, Action::Reply(Err(AppError::InternalServerError)))
}

/// What registration does once the secret has been hashed: with a hash, it
/// asks the record store to insert the record; without one, it ends with an
/// internal failure.
pub fn register_hashed(email: String, hashed: Result<String, PasswordError>) -> (step: (
    Flow,
    Action,
))
    ensures
        match hashed {
            Ok(hash) => {
                &&& step.0 is RegisterInserting
                &&& step.1 matches Action::InsertUser { email: named, password_hash }
                &&& named@ == email@
                &&& password_hash@ == hash@
            },
            Err(_) => failed(step.0, step.1),
        },
{
    match hashed {
        Ok(hash) => (Flow::RegisterInserting, Action::InsertUser { email, password_hash: hash }),
        Err(_) => fail(),
    }
}

/// What an operation does once tokens have been asked for: with a pair, it
/// asks the session store to store the refresh token for the identity, for
/// the time-to-live that came with the pair; without one, it ends with an
/// internal failure.
pub fn open_session(registering: bool, identity: Identity, issued: Result<TokenPair, AppError>) -> (step:
    (Flow, Action))
    ensures
        match issued {
            Ok(tokens) => storing(
                registering,
                identity,
                tokens.access_token@,
                tokens.refresh_token@,
                tokens.session_ttl,
                step.0,
                step.1,
            ),
            Err(_) => failed(step.0, step.1),
        },
{
    match issued {
        Ok(tokens) => {
            let action = Action::PutSession {
                token: tokens.refresh_token.clone(),
                identity,
                ttl: tokens.session_ttl,
            };
            if registering {
                (Flow::RegisterStoring { identity, tokens }, action)
            } else {
                (Flow::LoginStoring { tokens }, action)
            }
        },
        Err(_) => fail(),
    }
}

/// What a refresh does once a new access token has been asked for: with a
/// token, it ends with it; without one, it ends with an internal failure.
pub fn refreshed(issued: Result<String, AppError>) -> (step: (Flow, Action))
    ensures
        match issued {
            Ok(token) => {
                &&& step.0 is Finished
                &&& step.1 matches Action::Reply(Ok(Reply::Refreshed { access_token }))
                &&& access_token@ == token@
            },
            Err(_) => failed(step.0, step.1),
        },
{
    match issued {
        Ok(token) => (Flow::Finished, Action::Reply(Ok(Reply::Refreshed { access_token: token }))),
        Err(_) => fail(),
    }
}

/// Issues the two tokens of a session for `identity` at the instant `now`,
/// the access token first, each under the key and with the lifetime of its
/// class, and gives the seconds for which the session is to be kept: the
/// whole seconds of the refresh lifetime. A failure to issue either token
/// is an internal error.
pub fn issue_tokens_at(config: &AuthConfig, identity: Identity, now: Timestamp) -> (issued: Result<
    TokenPair,
    AppError,
>)
    ensures
        match pair_text(*config, identity, now) {
            Some(texts) => {
                &&& issued matches Ok(tokens)
                &&& tokens.access_token@ == texts.0
                &&& tokens.refresh_token@ == texts.1
                &&& session_ttl(*config) == Some(tokens.session_ttl)
                &&& carries_access(*config, identity, now, texts.0)
                &&& carries_refresh(*config, identity, now, texts.1)
            },
            None => issued matches Err(AppError::InternalServerError),
        },
{
    let access_token = match create_jwt_token_at(
        identity,
        config.jwt_access_secret.expose(),
        config.jwt_access_expires_in.as_str(),
        now,
    ) {
        Ok(token) => token,
        Err(reason) => {
            return Err(reason);
        },
    };
    let refresh_token = match create_jwt_token_at(
        identity,
        config.jwt_refresh_secret.expose(),
        config.jwt_refresh_expires_in.as_str(),
        now,
    ) {
        Ok(token) => token,
        Err(reason) => {
            return Err(reason);
        },
    };
    match lifetime_seconds(config.jwt_refresh_expires_in.as_str()) {
        Some(session_ttl) => Ok(TokenPair { access_token, refresh_token, session_ttl }),
        None => Err(AppError::InternalServerError),
    }
}

/// Starts a registration: hashes the secret and asks the record store to
/// insert the record. The record that is asked for holds the e-mail address
/// as it was given and a hash that accepts the secret. Where the secret
/// cannot be hashed, and always where it is longer than 4 GiB, the
/// registration ends with an internal failure.
pub fn register(payload: AuthPayload) -> (step: (Flow, Action))
    ensures
        failed(step.0, step.1) || {
            &&& step.0 is RegisterInserting
            &&& step.1 matches Action::InsertUser { email, password_hash }
            &&& email@ == payload.email@
            &&& password_hash@.len() > 0
            &&& argon2_verifies(payload.password@, password_hash@)
        },
        crate::auth::password::exceeds_argon2(payload.password@) ==> failed(step.0, step.1),
{
    let hashed = hash_password(payload.password);
    register_hashed(payload.email, hashed)
}

/// Starts a login: asks the record store for the record of the e-mail
/// address, and keeps the secret until the record is there.
pub fn login(payload: AuthPayload) -> (step: (Flow, Action))
    ensures
        step.0 matches Flow::LoginFinding { password } && password@ == payload.password@,
        step.1 matches Action::FindUserByEmail { email } && email@ == payload.email@,
{
    (Flow::LoginFinding { password: payload.password }, Action::FindUserByEmail { email: payload.email })
}

/// Starts a refresh: asks the session store whom the presented refresh
/// token authenticates, and keeps the token for its validation. Without a
/// token, the refresh is refused.
pub fn refresh(refresh_token: Option<String>) -> (step: (Flow, Action))
    ensures
        match refresh_token {
            Some(presented) => {
                &&& step.0 matches Flow::RefreshLooking { token: kept }
                &&& kept@ == presented@
                &&& step.1 matches Action::GetSession { token }
                &&& token@ == presented@
            },
            None => refused(step.0, step.1),
        },
{
    match refresh_token {
        Some(token) => {
            let kept = token.clone();
            (Flow::RefreshLooking { token: kept }, Action::GetSession { token })
        },
        None => refuse(),
    }
}

/// What a refresh does once its token has been validated and the session
/// store has named the identity of its session: where the token holds and
/// speaks for that identity, it goes on to confirm the identity with the
/// record store; where the token does not validate, or speaks for another
/// identity, the refresh is refused.
pub fn refresh_checked(identity: Identity, validated: Result<Claims, TokenError>) -> (step: (
    Flow,
    Action,
))
    ensures
        match validated {
            Ok(claims) => if claims.sub == identity {
                confirming(identity, step.0, step.1)
            } else {
                refused(step.0, step.1)
            },
            Err(_) => refused(step.0, step.1),
        },
{
    match validated {
        Ok(claims) => {
            if claims.sub == identity {
                (Flow::RefreshLoading { identity }, Action::FindUserById { id: identity })
            } else {
                refuse()
            }
        },
        Err(_) => refuse(),
    }
}

/// Reads what the session store holds for a token. No entry means that the
/// session is missing; a text that is an identity means that the session is
/// found for it; a text that is none means that the store has failed.
pub fn session_read(stored: Option<String>) -> (event: Event)
    ensures
        match stored {
            None => event is SessionMissing,
            Some(text) => match uuid_parsed(text@) {
                Some(value) => event matches Event::SessionFound(identity) && identity.value
                    == value,
                None => event is Failed,
            },
        },
{
    match stored {
        None => Event::SessionMissing,
        Some(text) => match Identity::parse(text.as_str()) {
            Some(identity) => Event::SessionFound(identity),
            None => Event::Failed,
        },
    }
}

/// Starts a logout: asks the session store to delete the session of the
/// presented refresh token. Without a token, the logout is refused: what
/// was never named cannot be revoked.
pub fn logout(refresh_token: Option<String>) -> (step: (Flow, Action))
    ensures
        match refresh_token {
            Some(presented) => {
                &&& step.0 is LogoutDeleting
                &&& step.1 matches Action::DeleteSession { token }
                &&& token@ == presented@
            },
            None => refused(step.0, step.1),
        },
{
    match refresh_token {
        Some(token) => (Flow::LogoutDeleting, Action::DeleteSession { token }),
        None => refuse(),
    }
}

/// Moves an operation on by one answer of a collaborator, at the instant
/// `now`.
///
/// See [`transition`] for what comes back in each state.
pub fn advance_at(config: &AuthConfig, flow: Flow, event: Event, now: Timestamp) -> (step: (
    Flow,
    Action,
))
    ensures
        transition(*config, flow, event, now, step.0, step.1),
{
    match (flow, event) {
        (Flow::RegisterInserting, Event::UserInserted(user)) => {
            open_session(true, user.id, issue_tokens_at(config, user.id, now))
        },
        (Flow::RegisterInserting, Event::UserConflict) => {
            (Flow::Finished, Action::Reply(Err(AppError::conflict())))
        },
        (Flow::RegisterStoring { identity, tokens }, Event::SessionStored) => {
            let reply = Reply::Registered {
                identity,
                access_token: tokens.access_token,
                refresh_token: tokens.refresh_token,
                session_ttl: tokens.session_ttl,
            };
            (Flow::Finished, Action::Reply(Ok(reply)))
        },
        (Flow::LoginFinding { password }, Event::UserFound(user)) => {
            if verify_password(password, user.password_hash.as_str()) {
                open_session(false, user.id, issue_tokens_at(config, user.id, now))
            } else {
                refuse()
            }
        },
        (Flow::LoginFinding { password }, Event::UserMissing) => {
            let _ = verify_password(password, DECOY_HASH);
            refuse()
        },
        (Flow::LoginStoring { tokens }, Event::SessionStored) => {
            let reply = Reply::LoggedIn {
                access_token: tokens.access_token,
                refresh_token: tokens.refresh_token,
                session_ttl: tokens.session_ttl,
            };
            (Flow::Finished, Action::Reply(Ok(reply)))
        },
        (Flow::RefreshLooking { token }, Event::SessionFound(identity)) => {
            refresh_checked(
                identity,
                validate_token_at(token.as_str(), config.jwt_refresh_secret.expose(), now.secs),
            )
        },
        (Flow::RefreshLooking { token }, Event::SessionMissing) => refuse(),
        (Flow::RefreshLoading { identity }, Event::UserFound(user)) => {
            if user.id == identity {
                refreshed(
                    create_jwt_token_at(
                        identity,
                        config.jwt_access_secret.expose(),
                        config.jwt_access_expires_in.as_str(),
                        now,
                    ),
                )
            } else {
                fail()
            }
        },
        (Flow::RefreshLoading { identity }, Event::UserMissing) => refuse(),
        (Flow::LogoutDeleting, Event::SessionDeleted) => {
            (Flow::Finished, Action::Reply(Ok(Reply::LoggedOut)))
        },
        _ => fail(),
    }
}

/// Moves an operation on by one answer of a collaborator, at the present
/// instant. What comes back is what [`advance_at`] gives for some reading
/// of the clock.
pub fn advance(config: &AuthConfig, flow: Flow, event: Event) -> (step: (Flow, Action))
    ensures
        exists|now: Timestamp|
            now.nanos < 1_000_000_000 && #[trigger] transition(
                *config,
                flow,
                event,
                now,
                step.0,
                step.1,
            ),
{
    let now = current_time();
    advance_at(config, flow, event, now)
}

/// Whatever the state, the answer and the instant, an error that ends an
/// operation is of one of the four kinds that may leave it, a refusal
/// carries the one message of every refusal, and a reply ends the
/// operation.
pub proof fn lemma_errors_are_service_errors(
    config: AuthConfig,
    flow: Flow,
    event: Event,
    now: Timestamp,
    next: Flow,
    action: Action,
)
    requires
        transition(config, flow, event, now, next, action),
    ensures
        action matches Action::Reply(Err(reason)) ==> reason.is_service_error(),
        action matches Action::Reply(Err(AppError::Unauthorized(message))) ==> message@
            == crate::errors::invalid_credentials(),
        action is Reply ==> next is Finished,
{
}

/// A refresh never touches the session store after the lookup: in no state
/// of a refresh does an answer lead to a request to store or to delete a
/// session, so the refresh token and its session stay as they were.
pub proof fn lemma_refresh_leaves_session(
    config: AuthConfig,
    flow: Flow,
    event: Event,
    now: Timestamp,
    next: Flow,
    action: Action,
)
    requires
        flow is RefreshLooking || flow is RefreshLoading,
        transition(config, flow, event, now, next, action),
    ensures
        !(action is PutSession),
        !(action is DeleteSession),
        !(action is InsertUser),
        next is RefreshLoading || next is Finished,
{
}

/// A session that the store no longer holds opens nothing: whether the
/// token was revoked, has expired or never existed, the refresh is refused.
pub proof fn lemma_missing_session_refused(
    config: AuthConfig,
    token: String,
    now: Timestamp,
    next: Flow,
    action: Action,
)
    requires
        transition(
            config,
            Flow::RefreshLooking { token },
            Event::SessionMissing,
            now,
            next,
            action,
        ),
    ensures
        refused(next, action),
{
}

/// What a session store that holds `sessions` answers when it is asked at
/// the second `at` whom `token` authenticates.
pub open spec fn session_answer(sessions: Map<Seq<char>, Session>, token: Seq<char>, at: int) -> Event {
    match lookup(sessions, token, at) {
        Some(identity) => Event::SessionFound(identity),
        None => Event::SessionMissing,
    }
}

/// After a logout, a refresh with the same token is refused: once the
/// session store has deleted the token, whatever it answers to the lookup
/// ends the refresh with a refusal, whether or not the token still
/// validates.
pub proof fn lemma_refresh_after_logout_refused(
    config: AuthConfig,
    sessions: Map<Seq<char>, Session>,
    token: String,
    at: int,
    now: Timestamp,
    next: Flow,
    action: Action,
)
    requires
        transition(
            config,
            Flow::RefreshLooking { token },
            session_answer(sessions.remove(token@), token@, at),
            now,
            next,
            action,
        ),
    ensures
        refused(next, action),
{
}

/// Once the time-to-live of a session has passed, a refresh with its token
/// is refused, whether or not the token still validates.
pub proof fn lemma_refresh_after_expiry_refused(
    config: AuthConfig,
    sessions: Map<Seq<char>, Session>,
    token: String,
    at: int,
    now: Timestamp,
    next: Flow,
    action: Action,
)
    requires
        sessions.contains_key(token@) ==> at >= sessions[token@].expires_at,
        transition(
            config,
            Flow::RefreshLooking { token },
            session_answer(sessions, token@, at),
            now,
            next,
            action,
        ),
    ensures
        refused(next, action),
{
}

/// Presence in the session store is not enough: a refresh whose token does
/// not validate under the refresh key at the present second, or whose
/// subject is not the identity of its session, is refused.
pub proof fn lemma_refresh_needs_valid_token(
    config: AuthConfig,
    token: String,
    identity: Identity,
    now: Timestamp,
    next: Flow,
    action: Action,
)
    requires
        !refresh_token_holds(config, token@, identity, now),
        transition(
            config,
            Flow::RefreshLooking { token },
            Event::SessionFound(identity),
            now,
            next,
            action,
        ),
    ensures
        refused(next, action),
{
}

/// While a session holds and its token validates for the identity of the
/// session, a refresh with that token goes on to confirm that identity,
/// and no other.
pub proof fn lemma_refresh_of_live_session_goes_on(
    config: AuthConfig,
    sessions: Map<Seq<char>, Session>,
    token: String,
    at: int,
    now: Timestamp,
    next: Flow,
    action: Action,
)
    requires
        sessions.contains_key(token@),
        at < sessions[token@].expires_at,
        refresh_token_holds(config, token@, sessions[token@].identity, now),
        transition(
            config,
            Flow::RefreshLooking { token },
            session_answer(sessions, token@, at),
            now,
            next,
            action,
        ),
    ensures
        confirming(sessions[token@].identity, next, action),
{
}

/// A refresh token that was issued for an identity holds for it from the
/// second of its issue to the end of the configured refresh lifetime, on a
/// clock whose nanoseconds stay below a second. So a refresh right after a
/// registration or a login is not refused for its token.
pub proof fn lemma_issued_refresh_token_holds(
    config: AuthConfig,
    identity: Identity,
    token: Seq<char>,
    now: Timestamp,
    at: Timestamp,
)
    requires
        now.nanos < 1_000_000_000,
        carries_refresh(config, identity, now, token),
        now.secs <= at.secs <= crate::auth::jwt::expiry_second(
            now,
            crate::auth::jwt::duration_parsed(config.jwt_refresh_expires_in@).unwrap(),
        ),
    ensures
        refresh_token_holds(config, token, identity, at),
{
}

/// The tokens of a session that is being opened hold at the second of the
/// step, each under the key of its class and for the identity of the
/// session, on a clock whose nanoseconds stay below a second.
pub proof fn lemma_opened_session_tokens_hold(
    config: AuthConfig,
    registering: bool,
    identity: Identity,
    now: Timestamp,
    next: Flow,
    action: Action,
)
    requires
        now.nanos < 1_000_000_000,
        session_opened(config, registering, identity, now, next, action),
        action is PutSession,
    ensures
        refresh_token_holds(config, action->PutSession_token@, identity, now),
        pair_text(config, identity, now) matches Some(texts) && (validation_outcome(
            jwt_decoded(texts.0, config.jwt_access_secret@),
            now.secs,
        ) matches Ok(claims) && claims.sub == identity),
{
}

/// A login with a secret that the stored hash does not accept is refused,
/// and asks for no session to be stored.
pub proof fn lemma_wrong_secret_refused(
    config: AuthConfig,
    password: Secret,
    user: User,
    now: Timestamp,
    next: Flow,
    action: Action,
)
    requires
        !argon2_verifies(password@, user.password_hash@),
        transition(
            config,
            Flow::LoginFinding { password },
            Event::UserFound(user),
            now,
            next,
            action,
        ),
    ensures
        refused(next, action),
        !(action is PutSession),
{
}

/// A session is only ever asked to be stored for the identity of the record
/// that the record store handed in, and for the configured lifetime of
/// refresh tokens.
pub proof fn lemma_session_stored_for_record(
    config: AuthConfig,
    flow: Flow,
    event: Event,
    now: Timestamp,
    next: Flow,
    action: Action,
)
    requires
        transition(config, flow, event, now, next, action),
        action is PutSession,
    ensures
        event matches Event::UserInserted(user) ==> action->PutSession_identity == user.id,
        event matches Event::UserFound(user) ==> action->PutSession_identity == user.id,
        event is UserInserted || event is UserFound,
        session_ttl(config) == Some(action->ttl),
        carries_refresh(config, action->PutSession_identity, now, action->PutSession_token@),
{
}

/// Store expiry and token expiry coincide: the time-to-live that a session
/// is stored with is the lifetime of its refresh token, `exp - iat`, where
/// the configured lifetime is a whole number of seconds, and falls short of
/// it by at most a second otherwise.
pub proof fn lemma_session_lives_as_long_as_token(
    config: AuthConfig,
    registering: bool,
    identity: Identity,
    now: Timestamp,
    next: Flow,
    action: Action,
)
    requires
        now.nanos < 1_000_000_000,
        session_opened(config, registering, identity, now, next, action),
        action is PutSession,
    ensures
        issued_claims(identity, config.jwt_refresh_expires_in@, now) matches Ok(claims) && ({
            &&& claims.iat == now.secs
            &&& action->ttl <= claims.exp - claims.iat <= action->ttl + 1
            &&& duration_parsed(config.jwt_refresh_expires_in@).unwrap().1 == 0 ==> action->ttl
                == claims.exp - claims.iat
        }),
{
    let life = duration_parsed(config.jwt_refresh_expires_in@).unwrap();
    assert(expiry_second(now, life) == now.secs + life.0 + (now.nanos + life.1) / 1_000_000_000);
}

/// While the session of a refresh token is there, the token has not
/// expired: at every second from the issue to the end of the session's
/// time-to-live, the token holds for the identity of the session.
pub proof fn lemma_live_session_has_live_token(
    config: AuthConfig,
    registering: bool,
    identity: Identity,
    now: Timestamp,
    next: Flow,
    action: Action,
    at: Timestamp,
)
    requires
        now.nanos < 1_000_000_000,
        session_opened(config, registering, identity, now, next, action),
        action is PutSession,
        now.secs <= at.secs < now.secs + action->ttl,
    ensures
        refresh_token_holds(config, action->PutSession_token@, identity, at),
{
    lemma_session_lives_as_long_as_token(config, registering, identity, now, next, action);
}

} // verus!
