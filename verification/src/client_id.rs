//! Client identifiers. An application is known by a UUID, which this
//! library holds as its 128-bit value; the nil UUID, zero, stands for an
//! identifier that is not set. Reading and writing the text of a UUID is
//! done by the `uuid` crate.

use vstd::arithmetic::power::pow;
use vstd::prelude::*;

verus! {

/// The value of the nil UUID.
pub const NIL: u128 = 0;

/// The lower-case hexadecimal digit for a value below 16.
pub open spec fn lower_hex_digit(n: int) -> char {
    if n < 10 {
        ((0x30 + n) as u8) as char
    } else {
        ((0x57 + n) as u8) as char
    }
}

/// The hexadecimal digit of `value` at place `k`, counted from the most
/// significant of its 32 digits.
pub open spec fn hex_digit_at(value: u128, k: int) -> int {
    (value as int / pow(16, (31 - k) as nat)) % 16
}

/// The number of hexadecimal digits that stand before place `i` of the
/// hyphenated form.
pub open spec fn digits_before(i: int) -> int {
    if i < 8 {
        i
    } else if i < 13 {
        i - 1
    } else if i < 18 {
        i - 2
    } else if i < 23 {
        i - 3
    } else {
        i - 4
    }
}

/// The hyphenated form of a UUID: its 32 lower-case hexadecimal digits in
/// groups of 8, 4, 4, 4 and 12, with `-` between the groups.
pub open spec fn hyphenated(value: u128) -> Seq<char> {
    Seq::new(
        36,
        |i: int|
            if i == 8 || i == 13 || i == 18 || i == 23 {
                '-'
            } else {
                lower_hex_digit(hex_digit_at(value, digits_before(i)))
            },
    )
}

/// The value of the UUID that `uuid::Uuid::try_parse` reads from a text:
/// nothing where the text is in none of the forms that it accepts.
pub uninterp spec fn uuid_parsed(input: Seq<char>) -> Option<u128>;

/// `uuid::Uuid::try_parse`, with the value that `as_u128` gives of the UUID.
#[verifier::external_body]
pub(crate) fn parse_uuid(input: &str) -> (r: Option<u128>)
    ensures
        r == uuid_parsed(input@),
{
    match uuid::Uuid::try_parse(input) {
        Ok(id) => Some(id.as_u128()),
        Err(_) => None,
    }
}

/// `Display` of the `uuid::Uuid` with the given value: the hyphenated form
/// in lower case.
#[verifier::external_body]
pub(crate) fn uuid_text(value: u128) -> (r: String)
    ensures
        r@ == hyphenated(value),
{
    uuid::Uuid::from_u128(value).to_string()
}

/// The value of the UUID that the text holds, or that of the nil UUID
/// where it holds none.
pub fn client_id_or_nil(input: &str) -> (r: u128)
    ensures
        r == match uuid_parsed(input@) {
            Some(value) => value,
            None => NIL,
        },
{
    match parse_uuid(input) {
        Some(value) => value,
        None => NIL,
    }
}

} // verus!
