//! Administrative backend of a marketplace: staff authentication with signed
//! bearer tokens, the request-scoped identity check, the vendor approval
//! workflow with its audit trail, and the intake of identity documents.
//!
//! Every function carries a contract that Verus proves. Calls into other
//! crates are confined to small wrappers whose contracts are stated, not
//! proved; each of them says so in its documentation.

pub mod auth;
pub mod config;
pub mod db;
pub mod error;
pub mod handlers;
pub mod ids;
pub mod middleware;
pub mod models;
pub mod reply;
pub mod server;
pub mod text;
