//! What a handler answers with when it succeeds.

use vstd::prelude::*;

verus! {

pub const OK: u16 = 200;

pub const CREATED: u16 = 201;

/// A successful answer: the status code and the body.
#[derive(Debug, Clone, PartialEq, Eq)]
pub struct Reply<T> {
    pub status: u16,
    pub body: T,
}

} // verus!
