//! The error type that gathers the failures of every part of the board.
use vstd::prelude::*;
use crate::power::{power_error_message, PowerControllerError};

verus! {

/// Any failure of the board's control plane.
#[derive(Clone, Copy, Debug, PartialEq, Eq, Structural)]
pub enum AnyError {
    PowerControllerError(PowerControllerError),
}

impl AnyError {
    /// Description of the failure.
    pub fn message(&self) -> (r: &'static str)
        ensures
            match self {
                AnyError::PowerControllerError(e) => r@ == power_error_message(*e),
            },
    {
        match self {
            AnyError::PowerControllerError(e) => e.message(),
        }
    }
}

impl From<PowerControllerError> for AnyError {
    fn from(value: PowerControllerError) -> (r: AnyError) {
        AnyError::PowerControllerError(value)
    }
}

impl vstd::std_specs::convert::FromSpecImpl<PowerControllerError> for AnyError {
    open spec fn obeys_from_spec() -> bool {
        true
    }

    open spec fn from_spec(v: PowerControllerError) -> AnyError {
        AnyError::PowerControllerError(v)
    }
}

} // verus!
