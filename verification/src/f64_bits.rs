//! IEEE-754 binary64 values held as their bit patterns, and the clamp of a
//! normalized parameter value into the unit interval.
use vstd::prelude::*;
use vstd::arithmetic::power2::pow2;

verus! {

/// Bit pattern of `+0.0`.
pub const POS_ZERO_BITS: u64 = 0x0000_0000_0000_0000;

/// Bit pattern of `1.0`.
pub const ONE_BITS: u64 = 0x3ff0_0000_0000_0000;

/// Bit pattern of `+infinity`; every larger magnitude is a NaN.
pub const INFINITY_BITS: u64 = 0x7ff0_0000_0000_0000;

/// The sign bit.
pub const SIGN_BIT: u64 = 0x8000_0000_0000_0000;

/// The magnitude of a binary64 value: its bits without the sign bit.
pub open spec fn magnitude(b: u64) -> int {
    if b >= SIGN_BIT { b - SIGN_BIT } else { b as int }
}

/// Whether the sign bit is set.
pub open spec fn sign_set(b: u64) -> bool {
    b >= SIGN_BIT
}

/// The pattern encodes a NaN: all exponent bits set and a nonzero mantissa.
pub open spec fn is_nan(b: u64) -> bool {
    magnitude(b) > INFINITY_BITS
}

/// The encoded value is strictly below `0.0` (negative, nonzero, not NaN; `-0.0` is not).
pub open spec fn is_below_zero(b: u64) -> bool {
    sign_set(b) && 0 < magnitude(b) <= INFINITY_BITS
}

/// The encoded value is strictly above `1.0` (positive and not NaN). For non-negative
/// non-NaN values the IEEE order coincides with the order of the bit patterns.
pub open spec fn is_above_one(b: u64) -> bool {
    !sign_set(b) && ONE_BITS < b <= INFINITY_BITS
}

/// `x.clamp(0.0, 1.0)` on the encoded value: below zero gives `0.0`, above one gives
/// `1.0`, and everything else (values in the interval, `-0.0`, NaN) is returned as it is.
pub open spec fn spec_clamp_unit(b: u64) -> u64 {
    if is_below_zero(b) {
        POS_ZERO_BITS
    } else if is_above_one(b) {
        ONE_BITS
    } else {
        b
    }
}

/// The encoded value lies in the unit interval (either zero counts), or is a NaN.
pub open spec fn in_unit_or_nan(b: u64) -> bool {
    !is_below_zero(b) && !is_above_one(b)
}

/// Clamps a normalized value, given by its bit pattern, into `[0.0, 1.0]`.
pub fn clamp_unit(bits: u64) -> (r: u64)
    ensures
        r == spec_clamp_unit(bits),
        in_unit_or_nan(r),
{
    let magnitude: u64 = if bits >= SIGN_BIT { bits - SIGN_BIT } else { bits };
    if bits >= SIGN_BIT && magnitude != 0 && magnitude <= INFINITY_BITS {
        POS_ZERO_BITS
    } else if bits < SIGN_BIT && bits > ONE_BITS && bits <= INFINITY_BITS {
        ONE_BITS
    } else {
        bits
    }
}

/// Clamping twice is clamping once.
pub proof fn lemma_clamp_unit_idempotent(b: u64)
    ensures
        spec_clamp_unit(spec_clamp_unit(b)) == spec_clamp_unit(b),
{
}

/// Clamping leaves a value of the unit interval (or a NaN) unchanged, and only such
/// values are fixed points.
pub proof fn lemma_clamp_unit_fixed_points(b: u64)
    ensures
        (spec_clamp_unit(b) == b) <==> in_unit_or_nan(b),
{
}

/// `2^52`: one unit of the exponent field, and the implicit leading bit of a normal
/// number's significand.
pub open spec fn two_pow_52() -> int {
    0x10_0000_0000_0000
}

/// The biased exponent field.
pub open spec fn exponent_field(b: u64) -> int {
    magnitude(b) / two_pow_52()
}

/// A positive normal number no larger than `2^52`: its value is
/// `significand(b) / scale(b)`.
pub open spec fn is_positive_normal_below_2_52(b: u64) -> bool {
    !sign_set(b) && 0 < exponent_field(b) <= 1075
}

/// The significand of a normal number: the mantissa field with its leading bit.
pub open spec fn significand(b: u64) -> int {
    two_pow_52() + magnitude(b) % two_pow_52()
}

/// The divisor that turns the significand of a normal number with exponent field at most
/// `1075` into its value.
pub open spec fn scale(b: u64) -> int {
    pow2((1075 - exponent_field(b)) as nat) as int
}

} // verus!
