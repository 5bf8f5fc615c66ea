//! Lifecycle signals between the host and the flight core.
//!
//! A ball is identified by a plain numeric id chosen by the host.  Scalar
//! parameters travel as IEEE-754 bit patterns, like everywhere else in the
//! core.
use vstd::prelude::*;

verus! {

/// Asks the core to turn aerodynamics on for one ball, with the seam
/// orientation angles (radians, binary32 bits), the sample timestamps to
/// record (seconds, binary64 bits, strictly increasing) and the two
/// strike-zone plane coordinates (feet, binary32 bits).
#[derive(Debug, Clone, PartialEq)]
pub struct ActivateAerodynamicsEvent {
    pub entity: u64,
    pub seam_y_angle: u32,
    pub seam_z_angle: u32,
    pub record_times: Vec<u64>,
    pub strikezone_panel_front_z: u32,
    pub strikezone_panel_back_z: u32,
}

/// Reports that aerodynamics was just turned on for the ball.
#[derive(Debug, Clone, Copy, PartialEq, Eq, Structural)]
pub struct PostActivateAerodynamicsEvent(pub u64);

/// Asks the core to turn aerodynamics off for the ball.
#[derive(Debug, Clone, Copy, PartialEq, Eq, Structural)]
pub struct DisableAerodynamicsEvent(pub u64);

} // verus!
