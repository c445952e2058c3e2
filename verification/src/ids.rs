//! Build identifiers: 128-bit numbers whose leading bits are the time of
//! their making, so that later identifiers sort after earlier ones.
use vstd::prelude::*;
use crate::pktline::hex_digit;

verus! {

/// Sixteen to the power `n`.
pub open spec fn sixteen_to(n: nat) -> nat
    decreases n,
{
    if n == 0 {
        1
    } else {
        16 * sixteen_to((n - 1) as nat)
    }
}

/// The `k`-th of the 32 hexadecimal digits of `id`, the most significant
/// being the first.
pub open spec fn hex_place(id: u128, k: nat) -> nat
    recommends
        k < 32,
{
    (id as nat / sixteen_to((31 - k) as nat)) % 16
}

/// How many hyphens stand before the place `i` of a hyphenated identifier.
pub open spec fn hyphens_before(i: int) -> int {
    if i > 23 {
        4
    } else if i > 18 {
        3
    } else if i > 13 {
        2
    } else if i > 8 {
        1
    } else {
        0
    }
}

/// The text of the identifier `id`: its 32 hexadecimal digits in lower case,
/// in groups of 8, 4, 4, 4 and 12 with hyphens between them.
pub open spec fn uuid_text(id: u128) -> Seq<char> {
    Seq::new(
        36,
        |i: int|
            if i == 8 || i == 13 || i == 18 || i == 23 {
                '-'
            } else {
                hex_digit(hex_place(id, (i - hyphens_before(i)) as nat)) as char
            },
    )
}

/// Calls `ulid::Ulid::new` and converts the result through `uuid::Uuid` to
/// its 128 bits. The value depends on the clock and on a random source, so
/// nothing is promised of it.
#[verifier::external_body]
pub(crate) fn new_build_id() -> (id: u128) {
    uuid::Uuid::from(ulid::Ulid::new()).as_u128()
}

/// Formats `id` with `uuid::Uuid`'s `Display`, which writes the sixteen
/// bytes of the big-endian value as lower-case hexadecimal digits with
/// hyphens after the eighth, twelfth, sixteenth and twentieth digit.
#[verifier::external_body]
pub(crate) fn build_id_text(id: u128) -> (text: String)
    ensures
        text@ == uuid_text(id),
{
    uuid::Uuid::from_u128(id).to_string()
}

} // verus!
