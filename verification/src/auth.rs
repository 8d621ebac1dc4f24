//! Proof of identity: hashed secrets and signed tokens.

pub mod jwt;
pub mod password;
