//! Configuration of the force law and of the seam-shifted-wake detector.
use vstd::prelude::*;

verus! {

/// Bit pattern of `1.5f64`: the default seam shift factor.
pub const DEFAULT_SEAM_SHIFT_FACTOR_BITS: u64 = 0x3FF8_0000_0000_0000;

/// Bit pattern of `5.0 * pi / 180.0` as binary64 (0.087266462599716474...):
/// the default activation angle, five degrees in radians.
pub const DEFAULT_ANGLE_OF_ACTIVATION_BITS: u64 = 0x3FB6_5718_4AE7_4487;

/// Bit pattern of `0.21f64`: the default activation shift.
pub const DEFAULT_ACTIVATION_SHIFT_BITS: u64 = 0x3FCA_E147_AE14_7AE1;

/// Bit pattern of `35.0 * pi / 180.0` as binary64 (0.61086523819801535...):
/// the default separated-flow range, thirty-five degrees in radians.
pub const DEFAULT_SEPARATED_FLOW_RANGE_BITS: u64 = 0x3FE3_8C35_418A_5BF6;

/// Tuning of the seam-shifted-wake detector.  All four fields are binary64
/// bit patterns.
#[derive(Debug, Clone, Copy, PartialEq, Eq, Structural)]
pub struct SeamShiftedWake {
    /// How far the separation location shifts with spin, per sub-step.
    pub seam_shift_factor: u64,
    /// Half-opening of the activation region, in radians.
    pub angle_of_activation: u64,
    /// Offset of the activation region along the direction of travel.
    pub activation_shift: u64,
    /// How far from straight downstream a seam must point, relative to its
    /// neighbours, to still trip the wake; in radians.
    pub separated_flow_range: u64,
}

impl Default for SeamShiftedWake {
    fn default() -> (r: Self)
        ensures
            r == (SeamShiftedWake {
                seam_shift_factor: DEFAULT_SEAM_SHIFT_FACTOR_BITS,
                angle_of_activation: DEFAULT_ANGLE_OF_ACTIVATION_BITS,
                activation_shift: DEFAULT_ACTIVATION_SHIFT_BITS,
                separated_flow_range: DEFAULT_SEPARATED_FLOW_RANGE_BITS,
            }),
    {
        SeamShiftedWake {
            seam_shift_factor: DEFAULT_SEAM_SHIFT_FACTOR_BITS,
            angle_of_activation: DEFAULT_ANGLE_OF_ACTIVATION_BITS,
            activation_shift: DEFAULT_ACTIVATION_SHIFT_BITS,
            separated_flow_range: DEFAULT_SEPARATED_FLOW_RANGE_BITS,
        }
    }
}

/// Which forces the law applies, and the wake detector's tuning.  The host
/// supplies one per plugin instance and threads it through every call.
#[derive(Debug, Clone, Copy, PartialEq, Eq, Structural)]
pub struct BaseballPluginConfig {
    pub ssw_on: bool,
    pub magnus_on: bool,
    pub drag_on: bool,
    pub ssw: SeamShiftedWake,
}

impl Default for BaseballPluginConfig {
    fn default() -> (r: Self)
        ensures
            r.ssw_on && r.magnus_on && r.drag_on,
            r.ssw == (SeamShiftedWake {
                seam_shift_factor: DEFAULT_SEAM_SHIFT_FACTOR_BITS,
                angle_of_activation: DEFAULT_ANGLE_OF_ACTIVATION_BITS,
                activation_shift: DEFAULT_ACTIVATION_SHIFT_BITS,
                separated_flow_range: DEFAULT_SEPARATED_FLOW_RANGE_BITS,
            }),
    {
        BaseballPluginConfig {
            ssw_on: true,
            magnus_on: true,
            drag_on: true,
            ssw: SeamShiftedWake::default(),
        }
    }
}

} // verus!
