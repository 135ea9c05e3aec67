//! Game identifiers: UUIDs, held as their 128-bit values.
//!
//! Reading and writing the textual form is the `uuid` crate's work.

use vstd::arithmetic::power::pow;
use vstd::prelude::*;

verus! {

/// What `uuid::Uuid::try_parse` makes of a text: the 128-bit value of the
/// UUID that the text denotes, or nothing where it denotes none.
pub uninterp spec fn parsed_uuid(text: Seq<char>) -> Option<u128>;

/// The lower-case hexadecimal digit for a value below 16.
pub open spec fn hex_digit(value: int) -> char {
    seq!['0', '1', '2', '3', '4', '5', '6', '7', '8', '9', 'a', 'b', 'c', 'd', 'e', 'f'][value]
}

/// Hexadecimal digit number `k` of `id`, counted from the most significant of
/// its 32 digits.
pub open spec fn nibble(id: u128, k: int) -> int {
    (id as int / pow(16, (31 - k) as nat)) % 16
}

/// Number of hyphens that stand before column `col` of the hyphenated form.
pub open spec fn hyphens_before(col: int) -> int {
    if col < 8 {
        0
    } else if col < 13 {
        1
    } else if col < 18 {
        2
    } else if col < 23 {
        3
    } else {
        4
    }
}

/// The hyphenated form of a UUID: its 32 lower-case hexadecimal digits, most
/// significant first, in groups of 8, 4, 4, 4 and 12 with a hyphen between
/// groups.
pub open spec fn hyphenated(id: u128) -> Seq<char> {
    Seq::new(
        36,
        |col: int|
            if col == 8 || col == 13 || col == 18 || col == 23 {
                '-'
            } else {
                hex_digit(nibble(id, col - hyphens_before(col)))
            },
    )
}

/// Calls `uuid::Uuid::try_parse` and takes the value of the UUID with
/// `Uuid::as_u128`. Trusted: the result is the one that the parser gives for
/// this text, named by `parsed_uuid`.
#[verifier::external_body]
pub(crate) fn parse_uuid(text: &str) -> (id: Option<u128>)
    ensures
        id == parsed_uuid(text@),
{
    match uuid::Uuid::try_parse(text) {
        Ok(parsed) => Some(parsed.as_u128()),
        Err(_) => None,
    }
}

/// Formats the UUID of value `id` as `uuid::Uuid` displays it. Trusted: the
/// display form is the hyphenated lower-case form.
#[verifier::external_body]
pub(crate) fn uuid_text(id: u128) -> (text: String)
    ensures
        text@ == hyphenated(id),
{
    uuid::Uuid::from_u128(id).to_string()
}

} // verus!
