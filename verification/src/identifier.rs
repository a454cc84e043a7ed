//! File identifiers. An identifier is a 128-bit number; its text form and the
//! parsing of text are those of the `uuid` crate.

use vstd::prelude::*;

verus! {

/// The identifier that `uuid` reads from a text, or `None` where it reads
/// none.
pub uninterp spec fn uuid_parse(text: Seq<char>) -> Option<u128>;

/// The text that `uuid` writes for an identifier: the hyphenated lower-case
/// form.
pub uninterp spec fn uuid_text(id: u128) -> Seq<char>;

/// An identifier of version 4: the version field holds 4 and the variant
/// field holds binary 10.
pub open spec fn is_random_identifier(id: u128) -> bool {
    &&& (id / 0x1000_0000_0000_0000_0000) % 16 == 4
    &&& (id / 0x4000_0000_0000_0000) % 4 == 2
}

/// `uuid::Uuid::parse_str`, with the identifier taken out as a number by
/// `Uuid::as_u128`. The result is named, not described: [`uuid_parse`] is
/// whatever the crate's parser accepts.
#[verifier::external_body]
pub(crate) fn parse_uuid(input: &str) -> (id: Option<u128>)
    ensures
        id == uuid_parse(input@),
{
    match uuid::Uuid::parse_str(input) {
        Ok(parsed) => Some(parsed.as_u128()),
        Err(_) => None,
    }
}

/// `uuid::Uuid::to_string` on `Uuid::from_u128(id)`. The text is named by
/// [`uuid_text`]; the one fact claimed of it is that the crate's parser reads
/// the same identifier back from it.
#[verifier::external_body]
pub(crate) fn format_uuid(id: u128) -> (text: String)
    ensures
        text@ == uuid_text(id),
        uuid_parse(text@) == Some(id),
{
    uuid::Uuid::from_u128(id).to_string()
}

/// `uuid::Uuid::new_v4`, taken as a number. The value is random; what holds of
/// every outcome is that the crate sets the version and variant fields.
#[verifier::external_body]
pub(crate) fn random_uuid() -> (id: u128)
    ensures
        is_random_identifier(id),
{
    uuid::Uuid::new_v4().as_u128()
}

/// Reads `input` as an identifier.
pub fn parse_identifier(input: &str) -> (id: Option<u128>)
    ensures
        id == uuid_parse(input@),
{
    parse_uuid(input)
}

/// Writes an identifier as text. Parsing the text gives the identifier back.
pub fn identifier_text(id: u128) -> (text: String)
    ensures
        text@ == uuid_text(id),
        uuid_parse(text@) == Some(id),
{
    format_uuid(id)
}

} // verus!
