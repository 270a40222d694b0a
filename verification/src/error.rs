//! The driver's error type.

use vstd::prelude::*;

verus! {

/// Errors of the driver.
#[derive(Debug, PartialEq, Eq)]
pub enum Error<E> {
    /// An error of the bus that connects the device.
    Comm(E),
    /// A value handed to the driver is out of range.
    InvalidInputData,
}

} // verus!
