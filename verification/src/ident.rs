//! Server identifiers: 128-bit universally unique identifiers, held as
//! plain numbers, with their text form.

use vstd::prelude::*;

verus! {

/// The identifier of a server that has none yet: all bits zero.
pub const NIL_ID: u128 = 0;

/// The lower-case hexadecimal digit for a value below sixteen.
pub open spec fn hex_char(d: u128) -> char {
    if d == 0 {
        '0'
    } else if d == 1 {
        '1'
    } else if d == 2 {
        '2'
    } else if d == 3 {
        '3'
    } else if d == 4 {
        '4'
    } else if d == 5 {
        '5'
    } else if d == 6 {
        '6'
    } else if d == 7 {
        '7'
    } else if d == 8 {
        '8'
    } else if d == 9 {
        '9'
    } else if d == 10 {
        'a'
    } else if d == 11 {
        'b'
    } else if d == 12 {
        'c'
    } else if d == 13 {
        'd'
    } else if d == 14 {
        'e'
    } else {
        'f'
    }
}

/// The `k`-th of the thirty-two hexadecimal digits of `id`, counted from the
/// most significant one.
pub open spec fn hex_digit(id: u128, k: int) -> u128
    recommends
        0 <= k < 32,
{
    (id / pow16((31 - k) as nat)) % 16
}

/// Sixteen to the power `e`.
pub open spec fn pow16(e: nat) -> u128
    decreases e,
{
    if e == 0 {
        1
    } else {
        (16 * pow16((e - 1) as nat)) as u128
    }
}

/// How many hexadecimal digits stand before position `i` of the hyphenated
/// text: the hyphens at positions 8, 13, 18 and 23 are not counted.
pub open spec fn digits_before(i: int) -> int {
    if i < 8 {
        i
    } else if i < 13 {
        i - 1
    } else if i < 18 {
        i - 2
    } else if i < 23 {
        i - 3
    } else {
        i - 4
    }
}

/// The hyphenated text of an identifier: its thirty-two lower-case
/// hexadecimal digits in groups of 8, 4, 4, 4 and 12, with a hyphen between
/// two groups.
pub open spec fn uuid_text(id: u128) -> Seq<char> {
    Seq::new(
        36,
        |i: int|
            if i == 8 || i == 13 || i == 18 || i == 23 {
                '-'
            } else {
                hex_char(hex_digit(id, digits_before(i)))
            },
    )
}

/// The identifier that a text stands for, if it stands for one. The text may
/// be in any of the forms that identifiers are written in; the hyphenated
/// form of [`uuid_text`] is one of them.
pub uninterp spec fn uuid_parse(text: Seq<char>) -> Option<u128>;

/// Whether an identifier is marked as randomly drawn: its version digit is 4
/// and the two highest bits of its variant digit are `10`.
pub open spec fn is_random_id(id: u128) -> bool {
    &&& hex_digit(id, 12) == 4
    &&& hex_digit(id, 16) / 4 == 2
}

/// Wraps `Uuid::new_v4` of the uuid crate, read as a number by
/// `Uuid::as_u128`. The identifier is drawn at random; all that is claimed is
/// that it carries the version and variant marks of a random identifier.
#[verifier::external_body]
pub(crate) fn fresh_id() -> (r: u128)
    ensures
        is_random_id(r),
{
    uuid::Uuid::new_v4().as_u128()
}

/// Wraps the `Display` form of `uuid::Uuid`, on the identifier that
/// `Uuid::from_u128` builds. The crate prints the lower-case hyphenated form,
/// and its parser reads every form that it prints.
#[verifier::external_body]
pub(crate) fn uuid_to_string(id: u128) -> (r: String)
    ensures
        r@ == uuid_text(id),
        uuid_parse(r@) == Some(id),
{
    uuid::Uuid::from_u128(id).to_string()
}

/// Wraps `Uuid::parse_str` of the uuid crate; a text that it rejects gives
/// `None`, one that it accepts gives the identifier as a number.
#[verifier::external_body]
pub(crate) fn parse_uuid(text: &str) -> (r: Option<u128>)
    ensures
        r == uuid_parse(text@),
{
    match uuid::Uuid::parse_str(text) {
        Ok(id) => Some(id.as_u128()),
        Err(_) => None,
    }
}

} // verus!
