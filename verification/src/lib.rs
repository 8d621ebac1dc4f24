//! Credential lifecycle for a web backend: secret hashing, signed
//! time-bounded tokens, refresh-token sessions and the operations that
//! tie them together.

pub mod auth;
pub mod config;
pub mod errors;
pub mod identity;
pub mod redis;
pub mod secret;
pub mod service;
pub mod session;
pub mod utils;
