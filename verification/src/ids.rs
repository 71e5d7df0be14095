//! Identifiers of pastes, sessions and keys: 128-bit UUIDs, created at random
//! and written in their hyphenated lowercase form.
use vstd::prelude::*;

verus! {

/// Lowercase hexadecimal digit for `d < 16`.
pub open spec fn hex_digit(d: int) -> char {
    if d < 10 {
        ((48 + d) as u8) as char
    } else {
        ((87 + d) as u8) as char
    }
}

/// The `k`-th hexadecimal digit of `x`, counting from the most significant one.
pub open spec fn nibble(x: u128, k: int) -> int {
    (x as int / vstd::arithmetic::power::pow(16, (31 - k) as nat)) % 16
}

/// Digits `from..to` of the 32-digit hexadecimal form of `x`.
pub open spec fn hex_group(x: u128, from: int, to: int) -> Seq<char> {
    Seq::new((to - from) as nat, |i: int| hex_digit(nibble(x, from + i)))
}

/// The hyphenated lowercase form of a UUID, such as
/// `67e55044-10b1-426f-9247-bb680e5fe0c8`.
pub open spec fn uuid_text(x: u128) -> Seq<char> {
    hex_group(x, 0, 8) + seq!['-'] + hex_group(x, 8, 12) + seq!['-'] + hex_group(x, 12, 16)
        + seq!['-'] + hex_group(x, 16, 20) + seq!['-'] + hex_group(x, 20, 32)
}

/// Whether `id` carries the version (4, random) and variant (RFC 4122) bits
/// of a randomly generated UUID.
pub open spec fn is_random_uuid(id: u128) -> bool {
    (id >> 76u128) & 0xfu128 == 4 && (id >> 62u128) & 0x3u128 == 2
}

/// What `Uuid::parse_str` gives for a text, as the UUID's 128-bit value.
pub uninterp spec fn uuid_parse(text: Seq<char>) -> Option<u128>;

/// A fresh random (version 4) UUID.
///
/// Calls `uuid::Uuid::new_v4`; the contract states only the version and
/// variant bits that it fixes, the other bits are random.
#[verifier::external_body]
pub fn new_uuid() -> (id: u128)
    ensures
        is_random_uuid(id),
{
    uuid::Uuid::new_v4().as_u128()
}

/// The hyphenated lowercase text of a UUID.
///
/// Calls `Uuid::from_u128(id).to_string()`; the contract states the format
/// that `Display` for `Uuid` writes.
#[verifier::external_body]
pub fn uuid_to_text(id: u128) -> (text: String)
    ensures
        text@ == uuid_text(id),
{
    uuid::Uuid::from_u128(id).to_string()
}

/// Reads a UUID from text.
///
/// Calls `Uuid::parse_str`. The contract names its result `uuid_parse`, and
/// states the documented fact that the hyphenated form of a UUID reads back
/// as that UUID.
#[verifier::external_body]
pub fn parse_uuid(text: &str) -> (id: Option<u128>)
    ensures
        id == uuid_parse(text@),
        forall|x: u128| text@ == uuid_text(x) ==> id == Some(x),
{
    uuid::Uuid::parse_str(text).ok().map(|u| u.as_u128())
}

} // verus!
