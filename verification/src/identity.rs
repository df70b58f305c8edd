//! Account identities: 128-bit values drawn at random and written as UUIDs.
use vstd::prelude::*;

use crate::token::hex_digit;

verus! {

/// Sixteen to the power of `exponent`.
pub open spec fn sixteen_to(exponent: nat) -> int
    decreases exponent,
{
    if exponent == 0 {
        1
    } else {
        16 * sixteen_to((exponent - 1) as nat)
    }
}

/// The hexadecimal digit of `id` at `place`, counted from the left among
/// its thirty-two digits.
pub open spec fn digit_at(id: u128, place: int) -> char {
    hex_digit((id as int / sixteen_to((31 - place) as nat)) % 16)
}

/// An identity in the hyphenated form of a UUID: thirty-two lower-case
/// hexadecimal digits in groups of eight, four, four, four and twelve.
pub open spec fn hyphenated(id: u128) -> Seq<char> {
    Seq::new(
        36,
        |i: int|
            if i == 8 || i == 13 || i == 18 || i == 23 {
                '-'
            } else if i < 8 {
                digit_at(id, i)
            } else if i < 13 {
                digit_at(id, i - 1)
            } else if i < 18 {
                digit_at(id, i - 2)
            } else if i < 23 {
                digit_at(id, i - 3)
            } else {
                digit_at(id, i - 4)
            },
    )
}

/// Draws a random identity with `uuid::Uuid::new_v4`. Nothing is claimed of
/// the value.
#[verifier::external_body]
pub(crate) fn fresh_identity() -> (id: u128) {
    uuid::Uuid::new_v4().as_u128()
}

/// Writes an identity as `uuid::Uuid` displays it.
///
/// Believed of the uuid crate: `Uuid::from_u128` keeps the value, and the
/// display form is the hyphenated one in lower case.
#[verifier::external_body]
pub(crate) fn identity_text(id: u128) -> (text: String)
    ensures
        text@ == hyphenated(id),
{
    uuid::Uuid::from_u128(id).to_string()
}

} // verus!
