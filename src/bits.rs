//! IEEE-754 single-precision values held as their raw bit patterns.

use vstd::prelude::*;

verus! {

/// Bit pattern of `0.0`.
pub const F32_ZERO: u32 = 0x0000_0000;

/// Bit pattern of `0.5`.
pub const F32_HALF: u32 = 0x3F00_0000;

/// Bit pattern of `-0.75`.
pub const F32_NEG_THREE_QUARTERS: u32 = 0xBF40_0000;

/// Bit pattern of `-0.25`.
pub const F32_NEG_QUARTER: u32 = 0xBE80_0000;

/// Bit pattern of `0.25`.
pub const F32_QUARTER: u32 = 0x3E80_0000;

/// Bit pattern of `0.75`.
pub const F32_THREE_QUARTERS: u32 = 0x3F40_0000;

/// The value is a NaN: all exponent bits set and a non-zero mantissa.
pub open spec fn is_nan(b: u32) -> bool {
    (b & 0x7F80_0000u32) == 0x7F80_0000u32 && (b & 0x007F_FFFFu32) != 0
}

/// The value is a zero of either sign.
pub open spec fn is_zero(b: u32) -> bool {
    (b & 0x7FFF_FFFFu32) == 0
}

/// IEEE-754 equality of two single-precision values: NaN equals nothing,
/// the two zeros are equal, and otherwise equal values have equal bits.
pub open spec fn f32_eq(a: u32, b: u32) -> bool {
    !is_nan(a) && !is_nan(b) && (a == b || (is_zero(a) && is_zero(b)))
}

/// Executable IEEE-754 equality on bit patterns.
pub fn f32_bits_eq(a: u32, b: u32) -> (r: bool)
    ensures
        r == f32_eq(a, b),
{
    let a_nan = (a & 0x7F80_0000u32) == 0x7F80_0000u32 && (a & 0x007F_FFFFu32) != 0;
    let b_nan = (b & 0x7F80_0000u32) == 0x7F80_0000u32 && (b & 0x007F_FFFFu32) != 0;
    !a_nan && !b_nan && (a == b || ((a & 0x7FFF_FFFFu32) == 0 && (b & 0x7FFF_FFFFu32) == 0))
}

/// Byte `j` (0 = least significant) of `x`.
pub open spec fn byte_of(x: u32, j: int) -> u8 {
    if j == 0 {
        (x & 0xFFu32) as u8
    } else if j == 1 {
        ((x >> 8u32) & 0xFFu32) as u8
    } else if j == 2 {
        ((x >> 16u32) & 0xFFu32) as u8
    } else {
        ((x >> 24u32) & 0xFFu32) as u8
    }
}

/// The 32-bit value whose little-endian bytes are `b0, b1, b2, b3`.
pub open spec fn from_le(b0: u8, b1: u8, b2: u8, b3: u8) -> u32 {
    (b0 as u32) | ((b1 as u32) << 8u32) | ((b2 as u32) << 16u32) | ((b3 as u32) << 24u32)
}

/// Reading back the four little-endian bytes of a value gives the value.
pub proof fn lemma_le_round_trip(x: u32)
    ensures
        from_le(byte_of(x, 0), byte_of(x, 1), byte_of(x, 2), byte_of(x, 3)) == x,
{
    let b0 = (x & 0xFFu32) as u8;
    let b1 = ((x >> 8u32) & 0xFFu32) as u8;
    let b2 = ((x >> 16u32) & 0xFFu32) as u8;
    let b3 = ((x >> 24u32) & 0xFFu32) as u8;
    assert((b0 as u32) == (x & 0xFFu32)) by (bit_vector)
        requires b0 == (x & 0xFFu32) as u8;
    assert((b1 as u32) == ((x >> 8u32) & 0xFFu32)) by (bit_vector)
        requires b1 == ((x >> 8u32) & 0xFFu32) as u8;
    assert((b2 as u32) == ((x >> 16u32) & 0xFFu32)) by (bit_vector)
        requires b2 == ((x >> 16u32) & 0xFFu32) as u8;
    assert((b3 as u32) == ((x >> 24u32) & 0xFFu32)) by (bit_vector)
        requires b3 == ((x >> 24u32) & 0xFFu32) as u8;
    assert(((x & 0xFFu32) | (((x >> 8u32) & 0xFFu32) << 8u32) | (((x >> 16u32) & 0xFFu32)
        << 16u32) | (((x >> 24u32) & 0xFFu32) << 24u32)) == x) by (bit_vector);
}

} // verus!
