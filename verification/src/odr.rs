//! The output data rate (ODR): the discrete frequencies at which the LIS2MDL
//! refreshes its measurement registers, and its encoding into the CFG_REG_A
//! control byte written during initialization.

use vstd::prelude::*;
use crate::regs::{COMP_TEMP_EN, MODE_CONTINUOUS};

verus! {

/// The output data rates the device supports, as encoded in CFG_REG_A
/// bits 3:2.
#[derive(Clone, Copy, Debug, PartialEq, Eq, Structural)]
pub enum OutputDataRate {
    Hz10,
    Hz20,
    Hz50,
    Hz100,
}

/// The two-bit CFG_REG_A field (bits 3:2, before shifting) that selects
/// the given rate.
pub open spec fn spec_odr_bits(odr: OutputDataRate) -> u8 {
    match odr {
        OutputDataRate::Hz10 => 0,
        OutputDataRate::Hz20 => 1,
        OutputDataRate::Hz50 => 2,
        OutputDataRate::Hz100 => 3,
    }
}

/// The rate selected by a two-bit field value; `None` for a value that is
/// not a two-bit field.
pub open spec fn spec_odr_of_bits(bits: u8) -> Option<OutputDataRate> {
    if bits == 0 {
        Some(OutputDataRate::Hz10)
    } else if bits == 1 {
        Some(OutputDataRate::Hz20)
    } else if bits == 2 {
        Some(OutputDataRate::Hz50)
    } else if bits == 3 {
        Some(OutputDataRate::Hz100)
    } else {
        None
    }
}

/// The full byte that initialization writes to CFG_REG_A: temperature
/// compensation on, the selected rate in bits 3:2, continuous-conversion
/// mode in bits 1:0.
pub open spec fn spec_cfg_reg_a_value(odr: OutputDataRate) -> u8 {
    (COMP_TEMP_EN | (spec_odr_bits(odr) << 2)) | MODE_CONTINUOUS
}

/// The rate field of a CFG_REG_A byte, as a two-bit value.
pub open spec fn spec_odr_field(v: u8) -> u8 {
    (v >> 2) & 3
}

pub fn odr_bits(odr: OutputDataRate) -> (r: u8)
    ensures
        r == spec_odr_bits(odr),
{
    match odr {
        OutputDataRate::Hz10 => 0,
        OutputDataRate::Hz20 => 1,
        OutputDataRate::Hz50 => 2,
        OutputDataRate::Hz100 => 3,
    }
}

pub fn odr_of_bits(bits: u8) -> (r: Option<OutputDataRate>)
    ensures
        r == spec_odr_of_bits(bits),
{
    if bits == 0 {
        Some(OutputDataRate::Hz10)
    } else if bits == 1 {
        Some(OutputDataRate::Hz20)
    } else if bits == 2 {
        Some(OutputDataRate::Hz50)
    } else if bits == 3 {
        Some(OutputDataRate::Hz100)
    } else {
        None
    }
}

pub fn cfg_reg_a_value(odr: OutputDataRate) -> (r: u8)
    ensures
        r == spec_cfg_reg_a_value(odr),
{
    (COMP_TEMP_EN | (odr_bits(odr) << 2)) | MODE_CONTINUOUS
}

pub fn odr_field(v: u8) -> (r: u8)
    ensures
        r == spec_odr_field(v),
{
    (v >> 2) & 3
}

/// Encoding a rate into the CFG_REG_A byte and reading the rate field back
/// out of that byte yields the same rate: the control byte written during
/// construction determines the configured rate exactly.
pub proof fn lemma_odr_roundtrip(odr: OutputDataRate)
    ensures
        spec_odr_of_bits(spec_odr_field(spec_cfg_reg_a_value(odr))) == Some(odr),
{
    match odr {
        OutputDataRate::Hz10 => {
            assert((((0x80u8 | (0u8 << 2)) | 0u8) >> 2) & 3 == 0) by (bit_vector);
        }
        OutputDataRate::Hz20 => {
            assert((((0x80u8 | (1u8 << 2)) | 0u8) >> 2) & 3 == 1) by (bit_vector);
        }
        OutputDataRate::Hz50 => {
            assert((((0x80u8 | (2u8 << 2)) | 0u8) >> 2) & 3 == 2) by (bit_vector);
        }
        OutputDataRate::Hz100 => {
            assert((((0x80u8 | (3u8 << 2)) | 0u8) >> 2) & 3 == 3) by (bit_vector);
        }
    }
}

} // verus!
