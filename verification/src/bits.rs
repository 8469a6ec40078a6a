//! Single-bit and bit-range helpers for register words.

use vstd::prelude::*;

verus! {

/// Bit `i` of a byte.
pub open spec fn spec_bit8(x: u8, i: u8) -> bool {
    (x >> i) & 1 == 1
}

/// Bit `i` of a 16-bit word.
pub open spec fn spec_bit16(x: u16, i: u16) -> bool {
    (x >> i) & 1 == 1
}

/// The 16-bit word with bit `i` set to `b` and all other bits as in `x`.
pub open spec fn spec_with_bit16(x: u16, i: u16, b: bool) -> u16 {
    if b {
        x | (1u16 << i)
    } else {
        x & !(1u16 << i)
    }
}

/// Bit `i` of a byte.
pub fn get_bit8(x: u8, i: u8) -> (r: bool)
    requires
        i < 8,
    ensures
        r == spec_bit8(x, i),
{
    (x >> i) & 1 == 1
}

/// Bit `i` of a 16-bit word.
pub fn get_bit16(x: u16, i: u16) -> (r: bool)
    requires
        i < 16,
    ensures
        r == spec_bit16(x, i),
{
    (x >> i) & 1 == 1
}

/// The 16-bit word with bit `i` set to `b` and all other bits as in `x`.
pub fn with_bit16(x: u16, i: u16, b: bool) -> (r: u16)
    requires
        i < 16,
    ensures
        r == spec_with_bit16(x, i, b),
{
    if b {
        x | (1u16 << i)
    } else {
        x & !(1u16 << i)
    }
}

/// Setting bit `i` leaves every other bit alone and makes bit `i` read
/// back as `b`.
pub proof fn lemma_with_bit16(x: u16, i: u16, b: bool, j: u16)
    requires
        i < 16,
        j < 16,
    ensures
        i == j ==> spec_bit16(spec_with_bit16(x, i, b), j) == b,
        i != j ==> spec_bit16(spec_with_bit16(x, i, b), j) == spec_bit16(x, j),
{
    if b {
        assert(i < 16 && j < 16 ==> {
            &&& i == j ==> ((x | (1u16 << i)) >> j) & 1 == 1
            &&& i != j ==> ((x | (1u16 << i)) >> j) & 1 == (x >> j) & 1
        }) by (bit_vector);
    } else {
        assert(i < 16 && j < 16 ==> {
            &&& i == j ==> ((x & !(1u16 << i)) >> j) & 1 != 1
            &&& i != j ==> ((x & !(1u16 << i)) >> j) & 1 == (x >> j) & 1
        }) by (bit_vector);
    }
}

} // verus!
