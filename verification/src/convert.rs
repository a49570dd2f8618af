//! Conversion of raw register words into signed counts and physical units.
//!
//! The data registers hold two's-complement 16-bit words, little-endian:
//! the low byte sits at the lower register address. A magnetometer count is
//! worth 1.5 milligauss, written here as 150 nanotesla so the scaling stays
//! in integers. A temperature count is worth 1/8 degree Celsius, written as
//! 125 millidegrees, measured from the device's 25 degree reference point.

use vstd::prelude::*;

verus! {

/// Nanotesla per magnetometer count (1.5 milligauss).
pub const MAG_LSB_NANOTESLA: i32 = 150;

/// Millidegrees Celsius per temperature count (1/8 degree).
pub const TEMP_LSB_MILLICELSIUS: i32 = 125;

/// The device's temperature reference point, in millidegrees Celsius:
/// a raw count of zero sits at 25 degrees.
pub const TEMP_REF_MILLICELSIUS: i32 = 25_000;

/// The two's-complement value of the 16-bit word with low byte `lo` and
/// high byte `hi`.
pub open spec fn spec_i16_from_le(lo: u8, hi: u8) -> int {
    if hi < 128 {
        hi * 256 + lo
    } else {
        hi * 256 + lo - 65536
    }
}

/// The three axis words of a six-byte data-register frame, in register
/// order X, Y, Z, each little-endian.
pub open spec fn spec_mag_frame(b: Seq<u8>) -> (int, int, int) {
    (
        spec_i16_from_le(b[0], b[1]),
        spec_i16_from_le(b[2], b[3]),
        spec_i16_from_le(b[4], b[5]),
    )
}

/// A magnetometer count scaled to nanotesla.
pub open spec fn spec_mag_nanotesla(raw: int) -> int {
    raw * MAG_LSB_NANOTESLA
}

/// A temperature count scaled to millidegrees Celsius from the 25 degree
/// reference point.
pub open spec fn spec_temp_millicelsius(raw: int) -> int {
    raw * TEMP_LSB_MILLICELSIUS
}

/// Decode one little-endian two's-complement register pair.
pub fn i16_from_le(lo: u8, hi: u8) -> (r: i16)
    ensures
        r == spec_i16_from_le(lo, hi),
{
    if hi >= 128 {
        let v: i32 = (hi as i32) * 256 + (lo as i32) - 65536;
        v as i16
    } else {
        let v: i32 = (hi as i32) * 256 + (lo as i32);
        v as i16
    }
}

/// Decode a six-byte data-register frame into the three raw axis counts.
pub fn decode_mag_frame(b: &Vec<u8>) -> (r: (i16, i16, i16))
    requires
        b@.len() == 6,
    ensures
        r.0 == spec_mag_frame(b@).0,
        r.1 == spec_mag_frame(b@).1,
        r.2 == spec_mag_frame(b@).2,
{
    let x = i16_from_le(b[0], b[1]);
    let y = i16_from_le(b[2], b[3]);
    let z = i16_from_le(b[4], b[5]);
    (x, y, z)
}

/// Scale a raw magnetometer count to nanotesla.
pub fn mag_raw_to_nanotesla(raw: i16) -> (r: i32)
    ensures
        r == spec_mag_nanotesla(raw as int),
{
    (raw as i32) * MAG_LSB_NANOTESLA
}

/// Scale a raw temperature count to millidegrees Celsius from the 25 degree
/// reference point. A count from below the reference comes out negative.
pub fn temp_raw_to_millicelsius(raw: i16) -> (r: i32)
    ensures
        r == spec_temp_millicelsius(raw as int),
{
    (raw as i32) * TEMP_LSB_MILLICELSIUS
}

/// Scale a raw temperature count to absolute millidegrees Celsius.
pub fn temp_raw_to_absolute_millicelsius(raw: i16) -> (r: i32)
    ensures
        r == TEMP_REF_MILLICELSIUS + spec_temp_millicelsius(raw as int),
{
    TEMP_REF_MILLICELSIUS + (raw as i32) * TEMP_LSB_MILLICELSIUS
}

/// Magnetometer scaling is linear: it distributes over sums of counts,
/// sends a zero count to zero, and at the extreme 16-bit counts the scaled
/// value still fits a 32-bit word.
pub proof fn lemma_mag_scaling_linear(a: int, b: int)
    ensures
        spec_mag_nanotesla(a + b) == spec_mag_nanotesla(a) + spec_mag_nanotesla(b),
        spec_mag_nanotesla(0) == 0,
        i16::MIN <= a <= i16::MAX ==> i32::MIN <= spec_mag_nanotesla(a) <= i32::MAX,
{
}

/// Temperature decoding sign-extends: a register pair whose high byte has
/// the sign bit set decodes to a negative count, and its scaled value lies
/// below the reference point, never at a large positive reading.
pub proof fn lemma_temp_sign_extension(lo: u8, hi: u8)
    ensures
        hi >= 128 ==> spec_i16_from_le(lo, hi) < 0,
        hi >= 128 ==> spec_temp_millicelsius(spec_i16_from_le(lo, hi)) < 0,
        spec_i16_from_le(0xFF, 0xFF) == -1,
{
}

} // verus!
