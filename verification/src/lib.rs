//! A verified driver core for the LIS2MDL 3-axis magnetometer.
//!
//! The driver owns the device register map, the initialization sequence,
//! the chip-identity check, and the conversion of raw register words into
//! physical units. Bus transactions go through the [`bus::BusTransport`]
//! trait; a scripted in-memory bus is provided for exercising the driver
//! without hardware.

use vstd::prelude::*;

pub mod bus;
pub mod convert;
pub mod driver;
pub mod monitor;
pub mod odr;
pub mod regs;
pub mod sim;

verus! {

/// The fixed content of the WHO_AM_I register on a genuine LIS2MDL part.
pub const CHIP_ID: u8 = 0x40;

/// True exactly when a chip-identity byte read from the device matches the
/// manufacturer-defined constant for the LIS2MDL.
pub fn identity_matches(id: u8) -> (r: bool)
    ensures
        r == (id == CHIP_ID),
{
    id == CHIP_ID
}

} // verus!
