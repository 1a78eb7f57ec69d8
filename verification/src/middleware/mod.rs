//! What stands between a request and the handlers that need an identity.

pub mod auth;
