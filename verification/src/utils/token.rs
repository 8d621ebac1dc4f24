//! Token issuance as the credential operations see it.

use crate::auth::jwt::create_token_at;
use crate::auth::jwt::current_time;
use crate::auth::jwt::issued_for;
use crate::auth::jwt::token_issued_at;
use crate::auth::jwt::token_text;
use crate::auth::jwt::Timestamp;
use crate::errors::AppError;
use crate::identity::Identity;
use vstd::prelude::*;

verus! {

/// Hides why a token could not be issued: whatever the issuer reports, the
/// caller did not cause it, and it is handed on as an internal error.
pub fn token_or_internal_error(issued: Result<String, AppError>) -> (mapped: Result<
    String,
    AppError,
>)
    ensures
        issued matches Ok(token) ==> mapped == Ok::<String, AppError>(token),
        issued is Err ==> mapped == Err::<String, AppError>(AppError::InternalServerError),
{
    match issued {
        Ok(token) => Ok(token),
        Err(_) => Err(AppError::InternalServerError),
    }
}

/// Whether `issued` is what issuing a token for the credential operations
/// at `now` comes to: the token that [`token_text`] names, which is a token
/// issued at `now` in the sense of [`token_issued_at`], or, where there is
/// no such token, `InternalServerError`, whatever kind of failure it was.
pub open spec fn jwt_token_at(
    user_id: Identity,
    secret: Seq<char>,
    expires_in: Seq<char>,
    now: Timestamp,
    issued: Result<String, AppError>,
) -> bool {
    match token_text(user_id, secret, expires_in, now) {
        Some(text) => issued matches Ok(token) && token@ == text && token_issued_at(
            token@,
            user_id,
            secret,
            expires_in,
            now,
        ),
        None => issued == Err::<String, AppError>(AppError::InternalServerError),
    }
}

/// Issues a token for `user_id` at the instant `now`, signed under `secret`
/// and valid for `expires_in`. See [`jwt_token_at`] for what comes back.
pub fn create_jwt_token_at(user_id: Identity, secret: &str, expires_in: &str, now: Timestamp) -> (issued:
    Result<String, AppError>)
    ensures
        jwt_token_at(user_id, secret@, expires_in@, now, issued),
        issued is Ok <==> crate::auth::jwt::issued_claims(user_id, expires_in@, now) is Ok,
{
    token_or_internal_error(create_token_at(user_id, secret, expires_in, now))
}

/// Issues a token for `user_id` at the present instant, signed under
/// `secret` and valid for `expires_in`. What comes back is what
/// [`create_jwt_token_at`] gives for some reading of the clock.
pub fn create_jwt_token(user_id: Identity, secret: &str, expires_in: &str) -> (issued: Result<
    String,
    AppError,
>)
    ensures
        exists|now: Timestamp|
            now.nanos < 1_000_000_000 && #[trigger] jwt_token_at(
                user_id,
                secret@,
                expires_in@,
                now,
                issued,
            ),
        issued matches Ok(token) ==> issued_for(token@, secret@, user_id),
        issued matches Err(reason) ==> reason is InternalServerError,
{
    let now = current_time();
    create_jwt_token_at(user_id, secret, expires_in, now)
}

} // verus!
