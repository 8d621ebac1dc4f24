//! The settings that the backend is started with.

use crate::secret::Secret;
use vstd::prelude::*;

verus! {

/// All settings of the backend.
#[derive(Clone, Debug)]
pub struct AppConfig {
    /// Where the server listens.
    pub server: ServerConfig,
    /// How the record store is reached.
    pub database: DatabaseConfig,
    /// How the session store is reached.
    pub redis: RedisConfig,
    /// Keys and lifetimes of the tokens.
    pub auth: AuthConfig,
}

/// Where the server listens.
#[derive(Clone, Debug)]
pub struct ServerConfig {
    /// The address to bind to.
    pub host: String,
    /// The port to bind to.
    pub port: u16,
}

/// How the record store is reached.
#[derive(Clone, Debug)]
pub struct DatabaseConfig {
    /// The host of the database server.
    pub host: String,
    /// The port of the database server.
    pub port: u16,
    /// The user to connect as.
    pub username: String,
    /// That user's password.
    pub password: Secret,
    /// The name of the database.
    pub dbname: String,
}

/// How the session store is reached.
#[derive(Clone, Debug)]
pub struct RedisConfig {
    /// The URL of the store, such as `redis://127.0.0.1/`.
    pub uri: String,
}

/// Keys and lifetimes of the two classes of token. Each class has a key of
/// its own, so that a leaked access key forges no refresh token.
#[derive(Clone, Debug)]
pub struct AuthConfig {
    /// The key that access tokens are signed with.
    pub jwt_access_secret: Secret,
    /// How long an access token holds, as text such as `15m`.
    pub jwt_access_expires_in: String,
    /// The key that refresh tokens are signed with.
    pub jwt_refresh_secret: Secret,
    /// How long a refresh token holds, as text such as `7d`.
    pub jwt_refresh_expires_in: String,
}

} // verus!
