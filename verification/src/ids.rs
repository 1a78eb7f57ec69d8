//! Identifiers of admins, vendors and audit entries.
//!
//! An identifier is a UUID held as its 128-bit value. The `uuid` crate turns
//! it into text and text into it.

use vstd::prelude::*;

verus! {

/// What `uuid::Uuid::parse_str` makes of a text: the 128-bit value of the
/// UUID it denotes, or nothing where the crate rejects the text.
pub uninterp spec fn uuid_from_text(text: Seq<char>) -> Option<u128>;

/// The text `uuid::Uuid` displays for a 128-bit value.
pub uninterp spec fn uuid_text(id: u128) -> Seq<char>;

/// Parses an identifier with `uuid::Uuid::parse_str` and hands back its
/// value as `uuid::Uuid::as_u128` gives it.
///
/// Not proved: the contract only names the crate's result, so that equal
/// texts are known to give equal answers.
#[verifier::external_body]
pub(crate) fn parse_uuid(text: &str) -> (id: Option<u128>)
    ensures
        id == uuid_from_text(text@),
{
    uuid::Uuid::parse_str(text).ok().map(|u| u.as_u128())
}

/// Writes an identifier as `uuid::Uuid::from_u128` displays it.
///
/// Not proved: the contract names the crate's result and states that the
/// crate's parser reads the displayed text back as the same value, which
/// `parse_str` documents for every format the crate writes.
#[verifier::external_body]
pub(crate) fn uuid_to_string(id: u128) -> (text: String)
    ensures
        text@ == uuid_text(id),
        uuid_from_text(text@) == Some(id),
{
    uuid::Uuid::from_u128(id).to_string()
}

} // verus!
