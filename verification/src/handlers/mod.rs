//! What each route decides, on plain values: reading the request and
//! talking to the persistence layer are the caller's part.

pub mod auth;
pub mod document;
pub mod vendor;
pub mod workflow;
