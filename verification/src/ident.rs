//! The identifier a request is given: a random 128-bit number, written the
//! way UUIDs are.

use vstd::prelude::*;
use uuid::Uuid;

verus! {

/// The character that writes the hexadecimal digit `d`, in lower case.
pub open spec fn hex_char(d: nat) -> char {
    if d < 10 {
        ((48 + d) as u8) as char
    } else {
        ((87 + d) as u8) as char
    }
}

/// The `count` lowest hexadecimal digits of `n`, most significant first.
pub open spec fn hex_digits(n: nat, count: nat) -> Seq<char>
    decreases count,
{
    if count == 0 {
        Seq::empty()
    } else {
        hex_digits(n / 16, (count - 1) as nat).push(hex_char(n % 16))
    }
}

/// An identifier as a reply shows it: its 32 hexadecimal digits in groups of
/// 8, 4, 4, 4 and 12, with a hyphen between groups.
pub open spec fn request_id_text(id: u128) -> Seq<char> {
    let digits = hex_digits(id as nat, 32);
    digits.subrange(0, 8) + seq!['-'] + digits.subrange(8, 12) + seq!['-'] + digits.subrange(12, 16)
        + seq!['-'] + digits.subrange(16, 20) + seq!['-'] + digits.subrange(20, 32)
}

/// Whether `id` is marked as a random UUID: version 4 in the four bits from
/// bit 76, and the variant of RFC 4122 in the two bits from bit 62.
pub open spec fn is_random_id(id: u128) -> bool {
    &&& (id as nat / 0x1000_0000_0000_0000_0000) % 16 == 4
    &&& (id as nat / 0x4000_0000_0000_0000) % 4 == 2
}

/// `Uuid::new_v4` of uuid, handed on as the number that `Uuid::as_u128`
/// reads from it. Trusted: the number is marked as a random UUID. Which
/// number it is depends on the operating system's random source, so nothing
/// else is said of it.
#[verifier::external_body]
pub(crate) fn fresh_request_id() -> (id: u128)
    ensures
        is_random_id(id),
{
    Uuid::new_v4().as_u128()
}

/// The `Display` formatting of uuid's `Uuid`, applied to the UUID that
/// `Uuid::from_u128` makes of `id`. Trusted: the text is the lower-case
/// hyphenated form of the number.
#[verifier::external_body]
pub(crate) fn id_text(id: u128) -> (r: String)
    ensures
        r@ == request_id_text(id),
{
    Uuid::from_u128(id).to_string()
}

} // verus!
