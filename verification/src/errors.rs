//! The error type shared by every component, and the table that turns an
//! error into what a transport shows of it.

use crate::auth::password::PasswordError;
use vstd::prelude::*;

verus! {

/// Everything that can go wrong in the backend.
///
/// The credential operations only ever hand out the four kinds named by
/// [`AppError::is_service_error`]; the remaining variants belong to single
/// components and to the layers around them.
#[derive(Debug)]
pub enum AppError {
    /// A failure that the caller did not cause and cannot repair.
    InternalServerError,
    /// The thing asked for does not exist.
    NotFound(String),
    /// The request was malformed.
    BadRequest(String),
    /// Bad credentials, or a token that is missing, invalid, expired or
    /// revoked.
    Unauthorized(String),
    /// The caller is known but may not do this.
    Forbidden(String),
    /// The identity is already registered.
    Conflict(String),
    /// The record store failed.
    Sqlx,
    /// A token could not be signed or read.
    Jwt,
    /// The session store failed.
    Redis,
    /// The configuration could not be loaded.
    Config,
    /// A secret could not be hashed. The caller did not cause this.
    Password(PasswordError),
    /// An identity could not be read from its text.
    Uuid,
    /// A configured lifetime could not be read from its text.
    ParseDuration,
}

/// What a transport shows of an error: a status and a message.
#[derive(Debug)]
pub struct ErrorResponse {
    /// The HTTP status.
    pub status: u16,
    /// The text of the `error` field of the body.
    pub message: String,
}

/// The one message shown for every refused credential, whatever the cause.
pub open spec fn invalid_credentials() -> Seq<char> {
    "Invalid credentials"@
}

/// The message shown when an identity is registered twice.
pub open spec fn already_registered() -> Seq<char> {
    "Identity already registered"@
}

impl AppError {
    /// The status shown for this error. A failure that the caller did not
    /// cause, be it of hashing, of signing, of a store or of the
    /// configuration, is shown as 500.
    pub open spec fn status(self) -> u16 {
        match self {
            AppError::InternalServerError => 500,
            AppError::NotFound(_) => 404,
            AppError::BadRequest(_) => 400,
            AppError::Unauthorized(_) => 401,
            AppError::Forbidden(_) => 403,
            AppError::Conflict(_) => 409,
            AppError::Sqlx => 500,
            AppError::Jwt => 500,
            AppError::Redis => 500,
            AppError::Config => 500,
            AppError::Password(_) => 500,
            AppError::Uuid => 400,
            AppError::ParseDuration => 500,
        }
    }

    /// The message shown for this error. A variant that carries a message
    /// shows it; every other variant shows a fixed text that gives away
    /// nothing of the failure inside.
    pub open spec fn message(self) -> Seq<char> {
        match self {
            AppError::InternalServerError => "Internal Server Error"@,
            AppError::NotFound(msg) => msg@,
            AppError::BadRequest(msg) => msg@,
            AppError::Unauthorized(msg) => msg@,
            AppError::Forbidden(msg) => msg@,
            AppError::Conflict(msg) => msg@,
            AppError::Sqlx => "Database error"@,
            AppError::Jwt => "JWT processing error"@,
            AppError::Redis => "Cache error"@,
            AppError::Config => "Configuration error"@,
            AppError::Password(_) => "Password error"@,
            AppError::Uuid => "UUID parsing error"@,
            AppError::ParseDuration => "Duration parsing error"@,
        }
    }

    /// Whether this is the error of a refused credential, with the one
    /// message that every such refusal carries.
    pub open spec fn is_unauthorized(self) -> bool {
        self matches AppError::Unauthorized(msg) && msg@ == invalid_credentials()
    }

    /// Whether this is the error of a second registration.
    pub open spec fn is_conflict(self) -> bool {
        self matches AppError::Conflict(msg) && msg@ == already_registered()
    }

    /// Whether this is one of the four kinds that a credential operation
    /// may hand out: refused, conflicting, malformed or internal.
    pub open spec fn is_service_error(self) -> bool {
        self is Unauthorized || self is Conflict || self is BadRequest
            || self is InternalServerError
    }

    /// The error of a refused credential.
    pub fn unauthorized() -> (err: AppError)
        ensures
            err.is_unauthorized(),
    {
        AppError::Unauthorized("Invalid credentials".to_owned())
    }

    /// The error of a second registration.
    pub fn conflict() -> (err: AppError)
        ensures
            err.is_conflict(),
    {
        AppError::Conflict("Identity already registered".to_owned())
    }

    /// Turns the error into the status and message that a transport shows.
    pub fn into_response(self) -> (response: ErrorResponse)
        ensures
            response.status == self.status(),
            response.message@ == self.message(),
    {
        let (status, message): (u16, String) = match self {
            AppError::InternalServerError => (500, "Internal Server Error".to_owned()),
            AppError::NotFound(msg) => (404, msg),
            AppError::BadRequest(msg) => (400, msg),
            AppError::Unauthorized(msg) => (401, msg),
            AppError::Forbidden(msg) => (403, msg),
            AppError::Conflict(msg) => (409, msg),
            AppError::Sqlx => (500, "Database error".to_owned()),
            AppError::Jwt => (500, "JWT processing error".to_owned()),
            AppError::Redis => (500, "Cache error".to_owned()),
            AppError::Config => (500, "Configuration error".to_owned()),
            AppError::Password(_) => (500, "Password error".to_owned()),
            AppError::Uuid => (400, "UUID parsing error".to_owned()),
            AppError::ParseDuration => (500, "Duration parsing error".to_owned()),
        };
        ErrorResponse { status, message }
    }
}

/// A refused credential is shown as status 401 with the one fixed message,
/// and a second registration as status 409.
pub proof fn lemma_service_error_statuses(err: AppError)
    ensures
        err.is_unauthorized() ==> err.status() == 401 && err.message() == invalid_credentials(),
        err.is_conflict() ==> err.status() == 409,
        err is BadRequest ==> err.status() == 400,
        err is InternalServerError ==> err.status() == 500,
{
}

/// A failure inside a component is shown as status 500, with a fixed text
/// that gives away nothing of the failure.
pub proof fn lemma_component_failures_are_internal(err: AppError)
    requires
        err is Sqlx || err is Jwt || err is Redis || err is Config || err is Password
            || err is ParseDuration,
    ensures
        err.status() == 500,
        err is Password ==> err.message() == "Password error"@,
{
}

} // verus!
