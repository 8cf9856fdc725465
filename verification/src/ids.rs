//! Identifiers of projects, tasks and events: 128-bit UUIDs held as integers.

use vstd::prelude::*;

verus! {

/// The identifier that a text denotes, in any of the textual forms of a
/// UUID; `None` for a text that denotes none.
pub uninterp spec fn uuid_parse(text: Seq<char>) -> Option<u128>;

/// The hyphenated lower-case text of an identifier.
pub uninterp spec fn uuid_text(id: u128) -> Seq<char>;

/// Reads an identifier from text.
///
/// Calls `uuid::Uuid::parse_str` and hands back the 128-bit value of the
/// UUID it yields. The contract names that result `uuid_parse`: the parser
/// reads nothing but its argument.
#[verifier::external_body]
pub(crate) fn parse_uuid(text: &str) -> (id: Option<u128>)
    ensures
        id == uuid_parse(text@),
{
    match uuid::Uuid::parse_str(text) {
        Ok(u) => Some(u.as_u128()),
        Err(_) => None,
    }
}

/// Writes an identifier as hyphenated lower-case text.
///
/// Calls `to_string` on the `uuid::Uuid` made of `id` by `Uuid::from_u128`.
/// The contract names the text `uuid_text` and states that it parses back
/// to `id`, as the crate documents for every form it prints.
#[verifier::external_body]
pub(crate) fn format_uuid(id: u128) -> (text: String)
    ensures
        text@ == uuid_text(id),
        uuid_parse(text@) == Some(id),
{
    uuid::Uuid::from_u128(id).to_string()
}

/// Draws a fresh random identifier.
///
/// Calls `uuid::Uuid::new_v4`. Nothing is claimed of the value: it comes
/// from the system's random source.
#[verifier::external_body]
pub(crate) fn random_uuid() -> (id: u128)
{
    uuid::Uuid::new_v4().as_u128()
}

/// Reads an identifier from text, in any of the textual forms of a UUID.
pub fn parse_id(text: &str) -> (id: Option<u128>)
    ensures
        id == uuid_parse(text@),
{
    parse_uuid(text)
}

/// Writes an identifier as hyphenated lower-case text, which reads back as
/// the same identifier.
pub fn format_id(id: u128) -> (text: String)
    ensures
        text@ == uuid_text(id),
        uuid_parse(text@) == Some(id),
{
    format_uuid(id)
}

} // verus!
