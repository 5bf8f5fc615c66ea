//! Error kinds of the flight core.
use vstd::prelude::*;
use vstd::string::StringExecFns;

verus! {

/// What can go wrong in the flight core.  Construction-time validation fails
/// fast with `InvalidInput`; `PhysicsCalculationError` is reserved for
/// numerically degenerate states (the caller must guarantee nonzero velocity
/// at activation); the remaining kinds are reserved for the hosting
/// integration.
#[derive(Debug, Clone, PartialEq)]
pub enum BaseballFlightError {
    InvalidInput(String),
    PhysicsCalculationError,
    ResourceNotFound,
    ConfigurationError,
    SimulationError,
    UnexpectedError,
}

impl BaseballFlightError {
    /// A human-readable description of the error.
    pub fn message(&self) -> (r: String)
        ensures
            match self {
                BaseballFlightError::InvalidInput(msg) => r@ == "Invalid input: "@ + msg@,
                BaseballFlightError::PhysicsCalculationError => r@ == "Physics calculation error"@,
                BaseballFlightError::ResourceNotFound => r@ == "Resource not found"@,
                BaseballFlightError::ConfigurationError => r@ == "Configuration error"@,
                BaseballFlightError::SimulationError => r@ == "Simulation error"@,
                BaseballFlightError::UnexpectedError => r@ == "Unexpected error occurred"@,
            },
    {
        match self {
            BaseballFlightError::InvalidInput(msg) => String::from_str("Invalid input: ").concat(
                msg.as_str(),
            ),
            BaseballFlightError::PhysicsCalculationError => String::from_str(
                "Physics calculation error",
            ),
            BaseballFlightError::ResourceNotFound => String::from_str("Resource not found"),
            BaseballFlightError::ConfigurationError => String::from_str("Configuration error"),
            BaseballFlightError::SimulationError => String::from_str("Simulation error"),
            BaseballFlightError::UnexpectedError => String::from_str("Unexpected error occurred"),
        }
    }
}

} // verus!
