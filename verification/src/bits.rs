//! Small facts about masking, truncation and 8/16-bit modular arithmetic
//! that the rest of the crate leans on.

use vstd::prelude::*;

verus! {

/// Sum of two 16-bit values, reduced modulo 2^16.
pub open spec fn wadd16(a: u16, b: u16) -> u16 {
    vstd::wrapping::u16_specs::wrapping_add(a, b)
}

/// Difference of two 16-bit values, reduced modulo 2^16.
pub open spec fn wsub16(a: u16, b: u16) -> u16 {
    vstd::wrapping::u16_specs::wrapping_sub(a, b)
}

/// Sum of two bytes, reduced modulo 2^8.
pub open spec fn wadd8(a: u8, b: u8) -> u8 {
    vstd::wrapping::u8_specs::wrapping_add(a, b)
}

/// Difference of two bytes, reduced modulo 2^8.
pub open spec fn wsub8(a: u8, b: u8) -> u8 {
    vstd::wrapping::u8_specs::wrapping_sub(a, b)
}

/// Masking a 16-bit address bounds it below the mask plus one.
pub proof fn lemma_mask_bounds()
    by (bit_vector)
    ensures
        forall|a: u16| #[trigger] (a & 0x0007) < 0x0008,
        forall|a: u16| #[trigger] (a & 0x001F) < 0x0020,
        forall|a: u16| #[trigger] (a & 0x00FF) < 0x0100,
        forall|a: u16| #[trigger] (a & 0x03FF) < 0x0400,
        forall|a: u16| #[trigger] (a & 0x07FF) < 0x0800,
        forall|a: u16| #[trigger] (a & 0x0FFF) < 0x1000,
        forall|a: u16| #[trigger] (a & 0x3FFF) < 0x4000,
        forall|a: u16| #[trigger] (a & 0x7FFF) < 0x8000,
        forall|a: u16| #[trigger] ((a & 0x1000) >> 12) < 2,
        forall|a: u16| #[trigger] ((a & 0x3E0) >> 5) < 32,
        forall|a: u16| #[trigger] ((a & 0x7000) >> 12) < 8,
{
}

/// The sign bit of a byte is set exactly when the byte is at least 128,
/// and the low bit tells whether the byte is odd.
pub proof fn lemma_byte_bits()
    by (bit_vector)
    ensures
        forall|b: u8| #[trigger] (b & 0x80) != 0 <==> b >= 128,
        forall|b: u8| #[trigger] (b & 0x3F) < 0x40,
        forall|b: u8| #[trigger] (b & 0x01) == b % 2,
        forall|b: u8| #[trigger] ((b as u16) << 2) < 0x400,
        forall|b: u8| #[trigger] (b & 0x07) < 8,
        forall|b: u8| #[trigger] ((b as u16) << 4) < 0x1000,
        forall|b: u8, s: u8| #[trigger] ((b >> s) & 1) < 2,
{
}

/// Reloading the low byte of a sixteen-bit shift register twice in one
/// dot lands where one reload does: the second sees the same high byte.
pub proof fn lemma_low_byte_reload()
    by (bit_vector)
    ensures
        forall|a: u16, b: u8| #[trigger] (((a & 0xFF00) | (b as u16)) & 0xFF00) == a & 0xFF00,
        forall|a: u16| #[trigger] (((a & 0xFF00) | 0xFFu16) & 0xFF00) == a & 0xFF00,
        forall|a: u16| #[trigger] (((a & 0xFF00) | 0u16) & 0xFF00) == a & 0xFF00,
{
}

} // verus!
