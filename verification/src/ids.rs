//! Identifiers of gestures and actions.
//!
//! An identifier is a UUID held as its 128-bit big-endian value, the form that
//! `uuid::Uuid::as_u128` gives; the nil identifier is 0.

use vstd::prelude::*;

verus! {

/// The nil identifier (`Uuid::nil()`).
pub const NIL_ID: u128 = 0;

/// The lowercase hexadecimal digit for a value below 16.
pub open spec fn hex_digit(n: u128) -> char {
    if n < 10 {
        (48 + n) as char
    } else {
        (87 + n) as char
    }
}

/// The `k`-th hexadecimal digit of `v`, counted from the most significant one.
pub open spec fn nibble(v: u128, k: int) -> u128 {
    (v >> ((31 - k) * 4) as u128) & 0xfu128
}

/// Where a hyphen stands in the hyphenated form.
pub open spec fn is_hyphen_position(i: int) -> bool {
    i == 8 || i == 13 || i == 18 || i == 23
}

/// The index of the hexadecimal digit shown at position `i` of the hyphenated form.
pub open spec fn digit_index(i: int) -> int {
    i - (if i > 8 { 1int } else { 0 }) - (if i > 13 { 1int } else { 0 }) - (if i > 18 {
        1int
    } else {
        0
    }) - (if i > 23 { 1int } else { 0 })
}

/// The hyphenated lowercase text of an identifier, such as
/// `550e8400-e29b-41d4-a716-446655440000`: 32 hexadecimal digits in groups of
/// 8, 4, 4, 4 and 12.
pub open spec fn hyphenated_text(v: u128) -> Seq<char> {
    Seq::new(
        36,
        |i: int|
            if is_hyphen_position(i) {
                '-'
            } else {
                hex_digit(nibble(v, digit_index(i)))
            },
    )
}

/// What `uuid::Uuid::parse_str` gives for a text, as an identifier.
pub uninterp spec fn parsed_uuid(text: Seq<char>) -> Option<u128>;

/// Whether `v` carries the version (4, random) and variant (RFC 4122) bits
/// that `uuid::Uuid::new_v4` sets.
pub open spec fn is_random_v4(v: u128) -> bool {
    &&& (v >> 76u128) & 0xfu128 == 4
    &&& (v >> 62u128) & 0x3u128 == 2
}

/// Draws a fresh random identifier with `uuid::Uuid::new_v4`.
///
/// Trusted: the result is random; the contract claims only the version and
/// variant bits that `new_v4` masks in.
#[verifier::external_body]
pub(crate) fn new_random_id() -> (r: u128)
    ensures
        is_random_v4(r),
{
    uuid::Uuid::new_v4().as_u128()
}

/// The text of an identifier, by `Display` of `uuid::Uuid::from_u128(v)`.
///
/// Trusted: `Display` of a `Uuid` writes its lowercase hyphenated form.
#[verifier::external_body]
fn uuid_text(v: u128) -> (r: String)
    ensures
        r@ == hyphenated_text(v),
{
    uuid::Uuid::from_u128(v).to_string()
}

/// Parses an identifier with `uuid::Uuid::parse_str`.
///
/// Trusted: the result is named `parsed_uuid`; besides, any hyphenated text
/// of the form `id_to_string` writes parses back to the identifier it shows,
/// as `parse_hyphenated` in the crate's source does.
#[verifier::external_body]
fn uuid_parse(text: &str) -> (r: Option<u128>)
    ensures
        r == parsed_uuid(text@),
        forall|v: u128| #[trigger] hyphenated_text(v) == text@ ==> r == Some(v),
{
    match uuid::Uuid::parse_str(text) {
        Ok(u) => Some(u.as_u128()),
        Err(_) => None,
    }
}

/// The text of an identifier: its lowercase hyphenated form.
pub fn id_to_string(v: u128) -> (r: String)
    ensures
        r@ == hyphenated_text(v),
{
    uuid_text(v)
}

/// Parses an identifier in any form `uuid` reads (simple, hyphenated, braced
/// or URN, in either letter case); hyphenated text as `id_to_string` writes
/// it gives back the identifier it shows.
pub fn parse_id(text: &str) -> (r: Option<u128>)
    ensures
        r == parsed_uuid(text@),
        forall|v: u128| #[trigger] hyphenated_text(v) == text@ ==> r == Some(v),
{
    uuid_parse(text)
}

/// Parses an identifier, reading text that is not one as the nil identifier
/// (`Uuid::parse_str(..).unwrap_or_default()`).
pub fn parse_id_or_nil(text: &str) -> (r: u128)
    ensures
        r == match parsed_uuid(text@) {
            Some(v) => v,
            None => NIL_ID,
        },
        forall|v: u128| #[trigger] hyphenated_text(v) == text@ ==> r == v,
{
    match uuid_parse(text) {
        Some(v) => v,
        None => NIL_ID,
    }
}

} // verus!
