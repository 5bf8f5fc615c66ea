//! Coordinate-frame swaps and spin-rate conditioning.
//!
//! The host world frame and the baseball frame differ by an axis swap and a
//! sign: a host vector `(x, y, z)` reads `(-x, z, y)` in the other frame.
//! The swap is exact on IEEE-754 bit patterns (negation only flips the sign
//! bit), so it is verified here; the unit scaling that completes the
//! conversion (feet per host unit) is rounding arithmetic and stays with the
//! adapter.
use crate::ieee::{f32_is_zero, f32_neg, f64_neg, is_zero32, neg32, neg64};
use crate::vec3::{DVec3Bits, Vec3Bits};
use vstd::prelude::*;

verus! {

/// Bit pattern of `1.0f32`, the floor applied to a zero spin-rate input.
pub const F32_ONE_BITS: u32 = 0x3F80_0000;

/// Swaps a binary32 vector between the host frame and the baseball frame:
/// `(x, y, z)` becomes `(-x, z, y)`.
pub fn swap_coordinates_vec3(vec: &Vec3Bits) -> (r: Vec3Bits)
    ensures
        r.x == f32_neg(vec.x),
        r.y == vec.z,
        r.z == vec.y,
{
    Vec3Bits::new(neg32(vec.x), vec.z, vec.y)
}

/// Swaps a binary64 vector between the host frame and the baseball frame:
/// `(x, y, z)` becomes `(-x, z, y)`.
pub fn swap_coordinates_dvec3(vec: &DVec3Bits) -> (r: DVec3Bits)
    ensures
        r.x == f64_neg(vec.x),
        r.y == vec.z,
        r.z == vec.y,
{
    DVec3Bits::new(neg64(vec.x), vec.z, vec.y)
}

/// Floors a raw spin-rate input of `0.0` (either sign) to exactly `1.0`, so
/// that the force law's division by the spin rate stays away from zero; any
/// other input passes through untouched.
pub fn fixed_spin_rate(spin_rate: u32) -> (r: u32)
    ensures
        f32_is_zero(spin_rate) ==> r == F32_ONE_BITS,
        !f32_is_zero(spin_rate) ==> r == spin_rate,
{
    if is_zero32(spin_rate) {
        F32_ONE_BITS
    } else {
        spin_rate
    }
}

} // verus!
