//! User identifiers: 128-bit values, written in tokens as 32 hexadecimal
//! digits.

use vstd::prelude::*;

verus! {

/// What `uuid::Uuid::parse_str` reads from `text`: the identifier, where the
/// text is one of the notations the `uuid` crate writes (32 hexadecimal
/// digits, the hyphenated form, the same in braces or behind `urn:uuid:`), and
/// nothing for any other text.
pub uninterp spec fn uuid_parsed(text: Seq<char>) -> Option<u128>;

#[verifier::external_type_specification]
#[verifier::external_body]
pub struct ExUuidError(uuid::Error);

/// The lower-case digit for a value below sixteen.
pub open spec fn hex_digit(value: int) -> char {
    "0123456789abcdef"@[value]
}

/// The simple notation of an identifier: its 32 hexadecimal digits in lower
/// case, the most significant first, with no hyphens.
pub open spec fn simple_text(id: u128) -> Seq<char> {
    Seq::new(32, |i: int| hex_digit(((id >> ((4 * (31 - i)) as u128)) & 0xf) as int))
}

/// Calls `uuid::Uuid::new_v4`, which draws a random identifier. Nothing is
/// claimed of the value.
#[verifier::external_body]
pub(crate) fn fresh_user_id() -> u128 {
    uuid::Uuid::new_v4().as_u128()
}

/// Calls `uuid::Uuid::simple` and formats the result. The contract claims the
/// text is the simple notation, and that `uuid::Uuid::parse_str` reads the
/// identifier back from it, as the crate documents of every notation it
/// writes.
#[verifier::external_body]
pub(crate) fn simple_id_text(id: u128) -> (text: String)
    ensures
        text@ == simple_text(id),
        uuid_parsed(text@) == Some(id),
{
    uuid::Uuid::from_u128(id).simple().to_string()
}

/// Calls `uuid::Uuid::parse_str`.
#[verifier::external_body]
pub(crate) fn parse_uuid(text: &str) -> (r: Result<u128, uuid::Error>)
    ensures
        match r {
            Ok(id) => uuid_parsed(text@) == Some(id),
            Err(_) => uuid_parsed(text@) is None,
        },
{
    uuid::Uuid::parse_str(text).map(|id| id.as_u128())
}

/// Reads a user identifier from `text`, in any notation of the `uuid` crate.
pub fn parse_user_id(text: &str) -> (id: Option<u128>)
    ensures
        id == uuid_parsed(text@),
{
    match parse_uuid(text) {
        Ok(id) => Some(id),
        Err(_) => None,
    }
}

} // verus!
