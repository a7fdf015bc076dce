//! Absolute-tolerance comparison of single-precision values, carried as
//! their IEEE 754 bit patterns (`u32`).
//!
//! On bit patterns the test `|x| < threshold` is exact integer logic: for
//! patterns that do not encode a NaN, clearing the sign bit encodes the
//! absolute value, and non-negative single-precision values order exactly as
//! their bit patterns order as unsigned integers. A NaN on either side, or a
//! threshold that is not strictly positive, makes the test false, as it is on
//! the encoded values. The one floating-point step of a near-equality test,
//! the subtraction `x - y`, stays with the caller.

use vstd::prelude::*;

verus! {

/// The magnitude bits of a single-precision pattern: the pattern with the
/// sign bit cleared, which encodes the value's absolute value.
pub open spec fn magnitude_bits(x: u32) -> u32 {
    x & 0x7FFF_FFFF
}

/// Whether a pattern encodes a NaN: a magnitude above the infinity encoding.
pub open spec fn is_nan_bits(x: u32) -> bool {
    magnitude_bits(x) > 0x7F80_0000
}

/// Whether a pattern's sign bit is clear: it encodes +0.0 or a positive
/// value (or a NaN with clear sign bit, ruled out separately).
pub open spec fn is_non_negative_bits(x: u32) -> bool {
    x < 0x8000_0000
}

/// `|x| < threshold` on single-precision encodings: false whenever either
/// pattern is a NaN or the threshold is negative; otherwise the magnitude of
/// `x` compares against the threshold as the encoded values do.
pub open spec fn abs_below(x: u32, threshold: u32) -> bool {
    &&& !is_nan_bits(x)
    &&& !is_nan_bits(threshold)
    &&& is_non_negative_bits(threshold)
    &&& magnitude_bits(x) < threshold
}

/// Whether `|x| < threshold`, both given as single-precision bit patterns:
/// the value is nearly zero when its magnitude lies strictly below the
/// caller-supplied tolerance.
pub fn is_float_zero(x: u32, threshold: u32) -> (r: bool)
    ensures
        r == abs_below(x, threshold),
{
    let x_mag = x & 0x7FFF_FFFF;
    let t_mag = threshold & 0x7FFF_FFFF;
    x_mag <= 0x7F80_0000 && t_mag <= 0x7F80_0000 && threshold < 0x8000_0000 && x_mag < threshold
}

/// Law (tolerance comparison): a zero-magnitude pattern — the encoding of
/// +0.0 or -0.0, and in particular of the difference `x - x` for any finite
/// `x` — is nearly zero under every strictly positive non-NaN threshold, and
/// under no other threshold.
pub proof fn lemma_zero_magnitude_nearly_zero(x: u32, threshold: u32)
    requires
        magnitude_bits(x) == 0,
    ensures
        abs_below(x, threshold) <==> (!is_nan_bits(threshold) && is_non_negative_bits(threshold)
            && threshold > 0),
{
}

} // verus!
