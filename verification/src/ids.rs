//! Identifiers: the library holds a UUID as its 128-bit value and uses the
//! `uuid` crate to print and read its textual form.

use vstd::prelude::*;
use vstd::arithmetic::power2::pow2;

verus! {

/// Lower-case hexadecimal digit for a value in `0..16`.
pub open spec fn hex_digit_lower(n: int) -> char {
    if n < 10 {
        (('0' as int) + n) as char
    } else {
        (('a' as int) + n - 10) as char
    }
}

/// The `i`-th hexadecimal digit of `id`, counted from the most significant one.
pub open spec fn uuid_nibble(id: u128, i: int) -> int {
    ((id as int) / (pow2((4 * (31 - i)) as nat) as int)) % 16
}

/// The 32 lower-case hexadecimal digits of `id`, most significant first.
pub open spec fn spec_uuid_hex(id: u128) -> Seq<char> {
    Seq::new(32, |i: int| hex_digit_lower(uuid_nibble(id, i)))
}

/// The hyphenated form of a UUID (`8-4-4-4-12` lower-case hexadecimal digits).
pub open spec fn spec_uuid_hyphenated(id: u128) -> Seq<char> {
    let h = spec_uuid_hex(id);
    h.subrange(0, 8) + seq!['-'] + h.subrange(8, 12) + seq!['-'] + h.subrange(12, 16)
        + seq!['-'] + h.subrange(16, 20) + seq!['-'] + h.subrange(20, 32)
}

/// What `uuid::Uuid::parse_str` makes of a string, as a 128-bit value.
pub uninterp spec fn spec_uuid_parse(s: Seq<char>) -> Option<u128>;

/// Prints a UUID through `uuid::Uuid`'s `Display` (`to_string`).
/// Claimed: the hyphenated lower-case form, as the crate's `fmt.rs` writes it.
#[verifier::external_body]
pub(crate) fn uuid_to_string(id: u128) -> (s: String)
    ensures
        s@ == spec_uuid_hyphenated(id),
{
    uuid::Uuid::from_u128(id).to_string()
}

/// Reads a UUID with `uuid::Uuid::parse_str`.
/// Claimed: the result is a function of the text alone, and the hyphenated
/// form of any UUID reads back as that UUID. Which other spellings the crate
/// accepts (simple, braced, URN, upper case) is left unsaid.
#[verifier::external_body]
pub(crate) fn uuid_parse(s: &str) -> (r: Option<u128>)
    ensures
        r == spec_uuid_parse(s@),
        forall|id: u128| #[trigger] spec_uuid_hyphenated(id) == s@ ==> r == Some(id),
{
    uuid::Uuid::parse_str(s).ok().map(|u| u.as_u128())
}

/// A fresh random (version 4) UUID from `uuid::Uuid::new_v4`.
/// Nothing is claimed of its value.
#[verifier::external_body]
pub(crate) fn new_uuid_v4() -> (id: u128) {
    uuid::Uuid::new_v4().as_u128()
}

} // verus!
