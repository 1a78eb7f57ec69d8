//! Credentials and session tokens.

pub mod jwt;
pub mod password;
