//! Helpers shared by the credential operations.

pub mod token;
