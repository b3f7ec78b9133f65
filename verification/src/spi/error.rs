//! Errors of the chip-select pin in the SPI variant of the driver.

use vstd::prelude::*;

verus! {

/// The chip-select pin could not be driven.
#[derive(Clone, Copy, PartialEq, Eq, Debug, Structural)]
pub enum CSPinError {
    PinError,
}

impl core::convert::From<core::convert::Infallible> for CSPinError {
    fn from(_e: core::convert::Infallible) -> (r: Self) {
        CSPinError::PinError
    }
}

impl vstd::std_specs::convert::FromSpecImpl<core::convert::Infallible> for CSPinError {
    open spec fn obeys_from_spec() -> bool {
        true
    }

    open spec fn from_spec(v: core::convert::Infallible) -> Self {
        CSPinError::PinError
    }
}

} // verus!
