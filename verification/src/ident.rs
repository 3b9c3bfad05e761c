//! Session and approval identifiers: 128-bit values, written down in the
//! hyphenated lower-case form `xxxxxxxx-xxxx-xxxx-xxxx-xxxxxxxxxxxx`.

use vstd::prelude::*;
use vstd::arithmetic::power::pow;

verus! {

/// The character of a hexadecimal digit, lower case.
pub open spec fn hex_char(d: int) -> char {
    seq![
        '0', '1', '2', '3', '4', '5', '6', '7', '8', '9', 'a', 'b', 'c', 'd', 'e', 'f',
    ][d]
}

/// The `k`-th hexadecimal digit of `id`, counted from the most significant
/// one (`k` from 0 to 31).
pub open spec fn hex_digit_of(id: u128, k: int) -> int {
    (id as int / pow(16, (31 - k) as nat)) % 16
}

/// How many hyphens stand before position `i` of the hyphenated form.
pub open spec fn hyphens_before(i: int) -> int {
    if i < 8 {
        0
    } else if i < 13 {
        1
    } else if i < 18 {
        2
    } else if i < 23 {
        3
    } else {
        4
    }
}

/// The hyphenated form of an identifier: 32 lower-case hexadecimal digits,
/// most significant first, in groups of 8, 4, 4, 4 and 12.
pub open spec fn hyphenated(id: u128) -> Seq<char> {
    Seq::new(
        36,
        |i: int|
            if i == 8 || i == 13 || i == 18 || i == 23 {
                '-'
            } else {
                hex_char(hex_digit_of(id, i - hyphens_before(i)))
            },
    )
}

/// What `uuid::Uuid::parse_str` makes of a text: the identifier it denotes,
/// or nothing where the text is not one of the accepted spellings.
pub uninterp spec fn parsed_id(text: Seq<char>) -> Option<u128>;

/// Draws a random identifier with `uuid::Uuid::new_v4`. Nothing is claimed
/// of the value drawn, not even that it differs from earlier ones. The
/// function fails only where the operating system gives no random bytes.
#[verifier::external_body]
pub(crate) fn random_id() -> (id: u128) {
    uuid::Uuid::new_v4().as_u128()
}

/// Reads an identifier with `uuid::Uuid::parse_str`; the result is the one
/// named by [`parsed_id`], a parse failure being reported as `None`.
#[verifier::external_body]
pub(crate) fn parse_uuid(text: &str) -> (id: Option<u128>)
    ensures
        id == parsed_id(text@),
{
    match uuid::Uuid::parse_str(text) {
        Ok(value) => Some(value.as_u128()),
        Err(_) => None,
    }
}

/// Writes an identifier with the `Display` impl of `uuid::Uuid`, which gives
/// the hyphenated lower-case form; `parse_str` reads that form back to the
/// same value.
#[verifier::external_body]
pub(crate) fn format_uuid(id: u128) -> (text: String)
    ensures
        text@ == hyphenated(id),
        parsed_id(text@) == Some(id),
{
    uuid::Uuid::from_u128(id).to_string()
}

} // verus!
