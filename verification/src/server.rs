//! Where the HTTP server binds.

use crate::reply::OK;
use crate::text::{decimal_text, to_decimal};
use vstd::prelude::*;
use vstd::string::*;

verus! {

/// The address a server is started on.
#[derive(Debug, Clone, Copy, PartialEq, Eq)]
pub struct ServerConfig<'a> {
    pub host: &'a str,
    pub port: u16,
}

impl<'a> ServerConfig<'a> {
    /// The address in the form `host:port`.
    pub open spec fn address(self) -> Seq<char> {
        self.host@ + ":"@ + decimal_text(self.port as nat)
    }

    /// The address to bind, in the form `host:port`.
    pub fn bind_address(&self) -> (address: String)
        ensures
            address@ == self.address(),
    {
        String::from_str(self.host).concat(":").concat(to_decimal(self.port as u64).as_str())
    }
}

/// Answers a health probe: the server is up.
pub fn health_check() -> (status: u16)
    ensures
        status == OK,
{
    OK
}

} // verus!
