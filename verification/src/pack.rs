//! Packing two half-precision (binary16) encodings into one 32-bit word.
//!
//! The lossy single-precision-to-binary16 conversion is floating-point work
//! and stays with the caller (the `half` crate performs it); this module owns
//! the exact layout of the packed word: the first encoding in the low 16
//! bits, the second in the high 16 bits.

use vstd::prelude::*;

verus! {

/// The packed word: `lo` in the low 16 bits, `hi` in the high 16 bits.
pub open spec fn packed_word(lo: u16, hi: u16) -> u32 {
    (lo as u32) | ((hi as u32) << 16)
}

/// The low 16 bits of a packed word.
pub open spec fn low_half(w: u32) -> u16 {
    (w & 0xFFFF) as u16
}

/// The high 16 bits of a packed word.
pub open spec fn high_half(w: u32) -> u16 {
    (w >> 16) as u16
}

/// Packs two binary16 encodings into one word, the first in the low half,
/// the second in the high half.
pub fn pack_half_2x16(x: u16, y: u16) -> (r: u32)
    ensures
        r == packed_word(x, y),
        low_half(r) == x,
        high_half(r) == y,
{
    let r = (x as u32) | ((y as u32) << 16);
    proof {
        lemma_pack_round_trip(x, y);
    }
    r
}

/// Extracts the low half of a packed word.
pub fn unpack_low(w: u32) -> (r: u16)
    ensures
        r == low_half(w),
{
    (w & 0xFFFF) as u16
}

/// Extracts the high half of a packed word.
pub fn unpack_high(w: u32) -> (r: u16)
    ensures
        r == high_half(w),
{
    (w >> 16) as u16
}

/// Law (packing round trip): unpacking the low and high halves of a packed
/// word gives back exactly the two encodings that were packed. Packing is
/// lossless on the 16-bit patterns; only the caller's conversion down to
/// binary16 loses precision.
pub proof fn lemma_pack_round_trip(x: u16, y: u16)
    by (bit_vector)
    ensures
        low_half(packed_word(x, y)) == x,
        high_half(packed_word(x, y)) == y,
{
}

} // verus!
