//! The handle through which the session store is reached.

use crate::config::RedisConfig;
use crate::errors::AppError;
use vstd::prelude::*;

verus! {

/// `redis::Client`, which holds where a server is and opens connections to
/// it on demand.
#[verifier::external_type_specification]
#[verifier::external_body]
pub struct ExRedisClient(::redis::Client);

/// The error type of the `redis` crate.
#[verifier::external_type_specification]
#[verifier::external_body]
pub struct ExRedisError(::redis::RedisError);

/// Whether `redis::Client::open` accepts a text as the URL of a server.
pub uninterp spec fn redis_url_accepted(uri: Seq<char>) -> bool;

/// Makes a client for a URL. Calls `redis::Client::open`, which parses the
/// URL and connects to nothing yet.
#[verifier::external_body]
fn open_client(uri: &str) -> (opened: Result<::redis::Client, ::redis::RedisError>)
    ensures
        opened is Ok <==> redis_url_accepted(uri@),
{
    ::redis::Client::open(uri)
}

/// Makes the client for the configured session store. No connection is
/// opened; a URL that is not one of a Redis server is reported as `Redis`.
pub fn create_client(config: &RedisConfig) -> (created: Result<::redis::Client, AppError>)
    ensures
        created is Ok <==> redis_url_accepted(config.uri@),
        created matches Err(reason) ==> reason is Redis,
{
    match open_client(config.uri.as_str()) {
        Ok(client) => Ok(client),
        Err(_) => Err(AppError::Redis),
    }
}

} // verus!
