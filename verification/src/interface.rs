//! The bus interface through which the driver reaches the device's registers.

use vstd::prelude::*;

verus! {

/// Reads a register of the device.
pub trait ReadData {
    /// The error of a failed transfer.
    type Error;

    /// Reads the register at address `register`.
    fn read_register(&mut self, register: u8) -> Result<u8, Self::Error>;
}

/// Writes registers of the device.
pub trait WriteData {
    /// The error of a failed transfer.
    type Error;

    /// Writes `payload[1..]` to the consecutive registers starting at address
    /// `payload[0]`.
    fn write_data(&mut self, payload: &mut [u8]) -> Result<(), Self::Error>;
}

} // verus!
