//! Predicates on the bit patterns of IEEE 754 double-precision values.
//!
//! The engine's stack stores each number as its 64-bit IEEE 754 bit pattern,
//! so the domain checks the evaluator needs — is the value zero, is it
//! negative, is it a whole number — are stated and proved here as pure
//! integer functions on the pattern. The encoding is: bit 63 the sign,
//! bits 62..52 the biased exponent, bits 51..0 the fraction field.

use vstd::prelude::*;

verus! {

/// Mask selecting everything but the sign bit.
pub const MAGNITUDE_MASK: u64 = 0x7FFF_FFFF_FFFF_FFFF;

/// Mask selecting the 52-bit fraction field.
pub const FRACTION_MASK: u64 = 0x000F_FFFF_FFFF_FFFF;

/// The bit pattern of positive infinity.
pub const POS_INFINITY_BITS: u64 = 0x7FF0_0000_0000_0000;

/// The biased exponent field: bits 62..52.
pub open spec fn biased_exponent(b: u64) -> u64 {
    (b >> 52) & 0x7FF
}

/// The fraction field: bits 51..0.
pub open spec fn fraction_field(b: u64) -> u64 {
    b & FRACTION_MASK
}

/// The pattern with the sign bit cleared.
pub open spec fn magnitude(b: u64) -> u64 {
    b & MAGNITUDE_MASK
}

/// The pattern encodes a NaN: exponent field all ones, nonzero fraction.
pub open spec fn is_nan_bits(b: u64) -> bool {
    biased_exponent(b) == 0x7FF && fraction_field(b) != 0
}

/// The pattern encodes zero (either sign): zero magnitude.
pub open spec fn is_zero_bits(b: u64) -> bool {
    magnitude(b) == 0
}

/// The encoded value compares strictly below zero. Negative zero does not
/// (it equals zero), and a NaN does not (NaN comparisons are always false);
/// negative infinity does.
pub open spec fn is_negative_bits(b: u64) -> bool {
    (b >> 63) == 1 && !is_zero_bits(b) && !is_nan_bits(b)
}

/// The encoded value is finite with no fractional part. Zero qualifies; a
/// value with biased exponent of at least 1075 carries its fraction bits
/// entirely above the binary point; between 1023 and 1074 exactly the low
/// `1075 - exponent` fraction bits sit below the binary point and must all
/// be zero; below 1023 the value's magnitude is under one, so only zero
/// qualifies. Infinities and NaNs (exponent 2047) do not qualify.
pub open spec fn is_whole_bits(b: u64) -> bool {
    ||| is_zero_bits(b)
    ||| (1075 <= biased_exponent(b) && biased_exponent(b) < 2047)
    ||| (1023 <= biased_exponent(b) && biased_exponent(b) <= 1074 && fraction_field(b) << (
    (biased_exponent(b) - 1011) as u64) == 0)
}

/// Decides [`is_zero_bits`].
pub fn is_zero(b: u64) -> (r: bool)
    ensures
        r == is_zero_bits(b),
{
    b & MAGNITUDE_MASK == 0
}

/// Decides [`is_negative_bits`].
pub fn is_negative(b: u64) -> (r: bool)
    ensures
        r == is_negative_bits(b),
{
    let exponent: u64 = (b >> 52) & 0x7FF;
    let fraction: u64 = b & FRACTION_MASK;
    (b >> 63) == 1 && (b & MAGNITUDE_MASK) != 0 && !(exponent == 0x7FF && fraction != 0)
}

/// Decides [`is_whole_bits`].
pub fn is_whole(b: u64) -> (r: bool)
    ensures
        r == is_whole_bits(b),
{
    let exponent: u64 = (b >> 52) & 0x7FF;
    if b & MAGNITUDE_MASK == 0 {
        true
    } else if 1075 <= exponent && exponent < 2047 {
        true
    } else if 1023 <= exponent && exponent <= 1074 {
        let below_point: u64 = exponent - 1011;
        ((b & FRACTION_MASK) << below_point) == 0
    } else {
        false
    }
}

} // verus!
