//! The records the backend works on.

pub mod admin;
pub mod vendor;

