//! Verified core of a baseball flight model.
//!
//! The model integrates the free flight of a spinning baseball under drag,
//! Magnus lift and seam-shifted-wake (SSW) forces, at a fixed sub-millisecond
//! time step, in an imperial "baseball coordinate" frame (feet and seconds,
//! origin at home plate, +y downrange).
//!
//! Floating-point arithmetic cannot be verified here, so this crate draws the
//! line at the bits: every scalar is carried as the raw bit pattern of an
//! IEEE-754 value (see `ieee`), on which the decisions of the model —
//! orderings, the activation-region test, the separated-flow filter, the
//! recording and strike-zone capture rules, the activation lifecycle — are
//! exact integer functions, stated and proved.  The rounding arithmetic in
//! between (the force law, the Runge-Kutta combination, the seam rotations)
//! is the host adapter's: it integrates one sub-step with native floats and
//! hands the resulting bit patterns back to the verified state.
use vstd::prelude::*;

pub mod ball_flight_state;
pub mod common;
pub mod errors;
pub mod events;
pub mod ieee;
pub mod resources;
pub mod ssw;
pub mod vec3;

use crate::errors::BaseballFlightError;
use vstd::string::StringExecFns;

verus! {

/// Seam tilt given as a clock position: an hour hand between 1 and 12 and a
/// minute hand between 0 and 59.  The adapter turns a tilt into the radian
/// angle `(hour - 3) * pi / 6 + minute * pi / 360` when the seam geometry is
/// built.
#[derive(Debug, Clone, Copy, PartialEq, Eq, Structural)]
pub struct Tilt {
    pub hour: i8,
    pub minute: i8,
}

impl Tilt {
    /// A well-formed tilt keeps both hands on the clock face.
    pub open spec fn wf(self) -> bool {
        1 <= self.hour <= 12 && 0 <= self.minute <= 59
    }

    /// Builds a tilt from a clock position, rejecting an hour outside 1..=12
    /// or a minute outside 0..=59 with `InvalidInput`.
    pub fn from_hour_mintes(h: i8, m: i8) -> (r: Result<Self, BaseballFlightError>)
        ensures
            match r {
                Ok(t) => t == (Tilt { hour: h, minute: m }) && t.wf(),
                Err(e) => (h > 12 || h <= 0 || m < 0 || m > 59) && e is InvalidInput,
            },
            (1 <= h <= 12 && 0 <= m <= 59) <==> r is Ok,
    {
        if h > 12 || h <= 0 {
            return Err(BaseballFlightError::InvalidInput(
                String::from_str("hr should be within the range of 1 and 12"),
            ));
        }
        if m < 0 || m > 59 {
            return Err(BaseballFlightError::InvalidInput(
                String::from_str("min should be within the range of 0 and 59"),
            ));
        }
        Ok(Tilt { hour: h, minute: m })
    }

    /// The clock position back out; with `from_hour_mintes` this is an exact
    /// round trip.
    pub fn to_hour_minutes(&self) -> (r: (i8, i8))
        ensures
            r == (self.hour, self.minute),
    {
        (self.hour, self.minute)
    }
}

/// Which pole of the gyroscopic spin axis faces the catcher.
#[derive(Debug, Clone, Copy, PartialEq, Eq, Structural)]
pub enum GyroPole {
    Right,
    Left,
}

impl Default for GyroPole {
    fn default() -> (r: Self)
        ensures
            r == GyroPole::Right,
    {
        GyroPole::Right
    }
}

} // verus!
