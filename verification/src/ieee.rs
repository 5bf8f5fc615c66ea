//! Bit-level model of the IEEE-754 scalars the flight model works with.
//!
//! The trajectory core stores every scalar as the raw bit pattern of a
//! binary64 (or binary32) value: a `u64` (or `u32`) whose bits are laid out
//! as one sign bit, an exponent field and a fraction field.  On these bit
//! patterns the operations the core's decisions need — ordering, absolute
//! value, negation and the zero test — are exact integer functions of the
//! bits, with no rounding involved, so they can be written and verified
//! here directly:
//!
//! - two non-NaN values compare exactly as their sign-magnitude keys;
//!   `NaN` compares false against everything, and `+0` equals `-0`;
//! - absolute value clears the sign bit; negation flips it.
//!
//! The host adapter moves between native floats and these bit patterns with
//! `f64::to_bits` / `f64::from_bits`, which are lossless.
use vstd::prelude::*;

verus! {

/// Sign bit of a binary64 bit pattern.
pub const F64_SIGN_MASK: u64 = 0x8000_0000_0000_0000;

/// Everything but the sign bit: the magnitude of a binary64 bit pattern.
pub const F64_MAG_MASK: u64 = 0x7FFF_FFFF_FFFF_FFFF;

/// Exponent field of a binary64 bit pattern.
pub const F64_EXP_MASK: u64 = 0x7FF0_0000_0000_0000;

/// Fraction field of a binary64 bit pattern.
pub const F64_FRAC_MASK: u64 = 0x000F_FFFF_FFFF_FFFF;

/// Sign bit of a binary32 bit pattern.
pub const F32_SIGN_MASK: u32 = 0x8000_0000;

/// Everything but the sign bit of a binary32 bit pattern.
pub const F32_MAG_MASK: u32 = 0x7FFF_FFFF;

/// A binary64 value is NaN when its exponent field is all ones and its
/// fraction field is not zero.
pub open spec fn f64_is_nan(a: u64) -> bool {
    a & F64_EXP_MASK == F64_EXP_MASK && a & F64_FRAC_MASK != 0
}

/// True when the sign bit is set, i.e. the value is negative (or `-0`, or a
/// NaN carrying a sign).
pub open spec fn f64_sign(a: u64) -> bool {
    a & F64_SIGN_MASK == F64_SIGN_MASK
}

/// The magnitude bits of a binary64 value.
pub open spec fn f64_mag(a: u64) -> u64 {
    a & F64_MAG_MASK
}

/// Sign-magnitude key of a binary64 bit pattern.  For non-NaN values this
/// key orders bit patterns exactly as IEEE-754 orders the values they
/// encode, with `+0` and `-0` sharing the key `0`.
pub open spec fn f64_key(a: u64) -> int {
    if f64_sign(a) {
        -(f64_mag(a) as int)
    } else {
        f64_mag(a) as int
    }
}

/// IEEE-754 `<` on binary64 bit patterns: false whenever either operand is
/// NaN, otherwise the sign-magnitude order of the two values.
pub open spec fn f64_lt(a: u64, b: u64) -> bool {
    !f64_is_nan(a) && !f64_is_nan(b) && f64_key(a) < f64_key(b)
}

/// IEEE-754 `>=` on binary64 bit patterns: false whenever either operand is
/// NaN, otherwise the sign-magnitude order of the two values.
pub open spec fn f64_ge(a: u64, b: u64) -> bool {
    !f64_is_nan(a) && !f64_is_nan(b) && f64_key(a) >= f64_key(b)
}

/// IEEE-754 absolute value on a binary64 bit pattern: the sign bit cleared.
pub open spec fn f64_abs(a: u64) -> u64 {
    a & F64_MAG_MASK
}

/// IEEE-754 negation on a binary64 bit pattern: the sign bit flipped.
pub open spec fn f64_neg(a: u64) -> u64 {
    a ^ F64_SIGN_MASK
}

/// IEEE-754 negation on a binary32 bit pattern: the sign bit flipped.
pub open spec fn f32_neg(a: u32) -> u32 {
    a ^ F32_SIGN_MASK
}

/// A binary32 value compares equal to `0.0` exactly when its magnitude bits
/// are all zero (`+0` or `-0`; a NaN never compares equal to anything).
pub open spec fn f32_is_zero(a: u32) -> bool {
    a & F32_MAG_MASK == 0
}

/// NaN test on binary64 bit patterns.
pub fn is_nan64(a: u64) -> (r: bool)
    ensures
        r == f64_is_nan(a),
{
    a & F64_EXP_MASK == F64_EXP_MASK && a & F64_FRAC_MASK != 0
}

/// IEEE-754 `<` on binary64 bit patterns.
pub fn lt64(a: u64, b: u64) -> (r: bool)
    ensures
        r == f64_lt(a, b),
{
    if is_nan64(a) || is_nan64(b) {
        return false;
    }
    let neg_a: bool = a & F64_SIGN_MASK != 0;
    let neg_b: bool = b & F64_SIGN_MASK != 0;
    let mag_a: u64 = a & F64_MAG_MASK;
    let mag_b: u64 = b & F64_MAG_MASK;
    proof {
        assert(a & 0x8000_0000_0000_0000 != 0 <==> a & 0x8000_0000_0000_0000
            == 0x8000_0000_0000_0000) by (bit_vector);
        assert(b & 0x8000_0000_0000_0000 != 0 <==> b & 0x8000_0000_0000_0000
            == 0x8000_0000_0000_0000) by (bit_vector);
    }
    if neg_a && neg_b {
        mag_b < mag_a
    } else if !neg_a && !neg_b {
        mag_a < mag_b
    } else if neg_a {
        // a is negative, b is non-negative: a < b unless both are zeros.
        !(mag_a == 0 && mag_b == 0)
    } else {
        // a is non-negative, b is negative: never below it.
        false
    }
}

/// IEEE-754 `>=` on binary64 bit patterns.
pub fn ge64(a: u64, b: u64) -> (r: bool)
    ensures
        r == f64_ge(a, b),
{
    if is_nan64(a) || is_nan64(b) {
        return false;
    }
    !lt64(a, b)
}

/// IEEE-754 absolute value on a binary64 bit pattern.
pub fn abs64(a: u64) -> (r: u64)
    ensures
        r == f64_abs(a),
{
    a & F64_MAG_MASK
}

/// IEEE-754 negation on a binary64 bit pattern.
pub fn neg64(a: u64) -> (r: u64)
    ensures
        r == f64_neg(a),
{
    a ^ F64_SIGN_MASK
}

/// IEEE-754 negation on a binary32 bit pattern.
pub fn neg32(a: u32) -> (r: u32)
    ensures
        r == f32_neg(a),
{
    a ^ F32_SIGN_MASK
}

/// Zero test on a binary32 bit pattern, matching `== 0.0` on the value.
pub fn is_zero32(a: u32) -> (r: bool)
    ensures
        r == f32_is_zero(a),
{
    a & F32_MAG_MASK == 0
}

} // verus!
