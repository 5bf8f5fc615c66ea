//! Three-component vectors of IEEE-754 bit patterns.
//!
//! `DVec3Bits` carries a binary64 vector, `Vec3Bits` a binary32 one.  The
//! host adapter converts to and from its native float vectors with
//! `to_bits` / `from_bits` on each component, which is lossless.
use vstd::prelude::*;

verus! {

/// A vector of three binary64 bit patterns.
#[derive(Debug, Clone, Copy, PartialEq, Eq, Structural)]
pub struct DVec3Bits {
    pub x: u64,
    pub y: u64,
    pub z: u64,
}

/// A vector of three binary32 bit patterns.
#[derive(Debug, Clone, Copy, PartialEq, Eq, Structural)]
pub struct Vec3Bits {
    pub x: u32,
    pub y: u32,
    pub z: u32,
}

impl DVec3Bits {
    /// The all-zero vector (`+0.0` in every component).
    pub fn zero() -> (r: Self)
        ensures
            r == (DVec3Bits { x: 0, y: 0, z: 0 }),
    {
        DVec3Bits { x: 0, y: 0, z: 0 }
    }

    pub fn new(x: u64, y: u64, z: u64) -> (r: Self)
        ensures
            r == (DVec3Bits { x, y, z }),
    {
        DVec3Bits { x, y, z }
    }
}

impl Vec3Bits {
    pub fn new(x: u32, y: u32, z: u32) -> (r: Self)
        ensures
            r == (Vec3Bits { x, y, z }),
    {
        Vec3Bits { x, y, z }
    }
}

} // verus!
