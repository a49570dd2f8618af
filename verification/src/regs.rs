//! The LIS2MDL register map: the addresses, bit positions and constants that
//! form the whole protocol contract with the hardware. A register is a
//! fixed-address unit of device memory reached through read/write
//! transactions on the two-wire bus.

use vstd::prelude::*;

verus! {

/// Factory-default 7-bit bus address of the LIS2MDL.
pub const DEFAULT_I2C_ADDRESS: u8 = 0x1E;

/// WHO_AM_I: read-only identity register.
pub const WHO_AM_I: u8 = 0x4F;

/// CFG_REG_A: temperature compensation, output data rate and operating mode.
pub const CFG_REG_A: u8 = 0x60;

/// CFG_REG_B: digital filter and offset cancellation.
pub const CFG_REG_B: u8 = 0x61;

/// CFG_REG_C: block-data-update and interface options.
pub const CFG_REG_C: u8 = 0x62;

/// STATUS_REG: data-ready flags.
pub const STATUS_REG: u8 = 0x67;

/// OUTX_L_REG: first of the six output registers
/// (X low, X high, Y low, Y high, Z low, Z high).
pub const OUTX_L_REG: u8 = 0x68;

/// TEMP_OUT_L_REG: low byte of the raw temperature word; the high byte
/// follows at the next address.
pub const TEMP_OUT_L_REG: u8 = 0x6E;

/// CFG_REG_A bit 7: enable the magnetometer temperature compensation.
pub const COMP_TEMP_EN: u8 = 0x80;

/// CFG_REG_A bits 1:0 = 00: continuous-conversion mode, where the device
/// refreshes its measurement registers without a per-sample trigger.
pub const MODE_CONTINUOUS: u8 = 0x00;

/// CFG_REG_B bit 1: enable offset cancellation.
pub const OFF_CANC: u8 = 0x02;

/// CFG_REG_C bit 4: block data update; output registers are latched until
/// both bytes of an axis were read, so a multi-byte read cannot tear
/// between the low and high byte of an axis.
pub const BDU: u8 = 0x10;

/// STATUS_REG bit 3: a new X/Y/Z sample is available.
pub const ZYXDA: u8 = 0x08;

} // verus!
