//! Read-modify-write of register fields, and reading settings back.

use vstd::prelude::*;

use crate::config::{AccelOdr, AccelRange, Bitfield, GyroOdr, GyroRange, PowerMode};
use crate::error::SensorError;
use vstd::std_specs::convert::TryFromSpec;

verus! {

/// The register value after a field update: the bits outside `mask` come
/// from `current`, the bits inside it from `bits`.
pub open spec fn merged(current: u8, mask: u8, bits: u8) -> u8 {
    (current & !mask) | (bits & mask)
}

/// Computes the new value of a register whose field `mask` is set to `bits`,
/// keeping every other bit of `current`.
pub fn merge(current: u8, mask: u8, bits: u8) -> (r: u8)
    ensures
        r == merged(current, mask, bits),
        r & mask == bits & mask,
        r & !mask == current & !mask,
{
    proof {
        lemma_merged_bits(current, mask, bits);
    }
    (current & !mask) | (bits & mask)
}

/// Inside the field a merged value holds the new bits; outside it, the old ones.
pub proof fn lemma_merged_bits(current: u8, mask: u8, bits: u8)
    ensures
        merged(current, mask, bits) & mask == bits & mask,
        merged(current, mask, bits) & !mask == current & !mask,
{
    assert(((current & !mask) | (bits & mask)) & mask == bits & mask) by (bit_vector);
    assert(((current & !mask) | (bits & mask)) & !mask == current & !mask) by (bit_vector);
}

/// Updating a field leaves every field whose bits do not overlap it unchanged.
pub proof fn lemma_update_frame(current: u8, mask: u8, bits: u8, other: u8)
    requires
        mask & other == 0,
    ensures
        merged(current, mask, bits) & other == current & other,
{
    assert(mask & other == 0 ==> ((current & !mask) | (bits & mask)) & other == current & other)
        by (bit_vector);
}

/// Writing the value a field already holds changes nothing.
pub proof fn lemma_update_idempotent(current: u8, mask: u8, bits: u8)
    ensures
        merged(merged(current, mask, bits), mask, bits) == merged(current, mask, bits),
{
    let once = (current & !mask) | (bits & mask);
    assert(((once & !mask) | (bits & mask)) == once) by (bit_vector)
        requires
            once == (current & !mask) | (bits & mask),
    ;
}

/// Of two updates of one field the later one wins.
pub proof fn lemma_update_overwrite(current: u8, mask: u8, first: u8, second: u8)
    ensures
        merged(merged(current, mask, first), mask, second) == merged(current, mask, second),
{
    let once = (current & !mask) | (first & mask);
    assert(((once & !mask) | (second & mask)) == (current & !mask) | (second & mask))
        by (bit_vector)
        requires
            once == (current & !mask) | (first & mask),
    ;
}

/// The bits 7:5 of a register value, as a number.
pub open spec fn upper_code(reg: u8) -> u8 {
    reg / 32
}

/// The bits 3:0 of a register value, as a number.
pub open spec fn lower_code(reg: u8) -> u8 {
    reg % 16
}

/// The bits 5:0 of a register value, as a number.
pub open spec fn mode_code(reg: u8) -> u8 {
    reg % 64
}

proof fn lemma_codes(reg: u8)
    ensures
        reg >> 5u8 == upper_code(reg),
        reg & 0xFu8 == lower_code(reg),
        reg & 0x3Fu8 == mode_code(reg),
{
    assert(reg & 0x3Fu8 == reg % 64) by (bit_vector);
    assert(reg >> 5u8 == reg / 32) by (bit_vector);
    assert(reg & 0xFu8 == reg % 16) by (bit_vector);
}

impl AccelRange {
    pub open spec fn spec_from_register(reg: u8) -> Result<AccelRange, SensorError> {
        AccelRange::try_from_spec(upper_code(reg))
    }

    /// Reads the range out of the value of `ACCEL_CONFIG0`, where
    /// `ACCEL_UI_FS_SEL` occupies bits 7:5.
    pub fn from_register(reg: u8) -> (r: Result<AccelRange, SensorError>)
        ensures
            r == AccelRange::spec_from_register(reg),
    {
        proof {
            lemma_codes(reg);
        }
        AccelRange::try_from(reg >> 5)
    }
}

impl GyroRange {
    pub open spec fn spec_from_register(reg: u8) -> Result<GyroRange, SensorError> {
        GyroRange::try_from_spec(upper_code(reg))
    }

    /// Reads the range out of the value of `GYRO_CONFIG0`, where
    /// `GYRO_UI_FS_SEL` occupies bits 7:5.
    pub fn from_register(reg: u8) -> (r: Result<GyroRange, SensorError>)
        ensures
            r == GyroRange::spec_from_register(reg),
    {
        proof {
            lemma_codes(reg);
        }
        GyroRange::try_from(reg >> 5)
    }
}

impl AccelOdr {
    pub open spec fn spec_from_register(reg: u8) -> Result<AccelOdr, SensorError> {
        AccelOdr::try_from_spec(lower_code(reg))
    }

    /// Reads the output data rate out of the value of `ACCEL_CONFIG0`, where
    /// `ACCEL_ODR` occupies bits 3:0.
    pub fn from_register(reg: u8) -> (r: Result<AccelOdr, SensorError>)
        ensures
            r == AccelOdr::spec_from_register(reg),
    {
        proof {
            lemma_codes(reg);
        }
        AccelOdr::try_from(reg & 0xF)
    }
}

impl GyroOdr {
    pub open spec fn spec_from_register(reg: u8) -> Result<GyroOdr, SensorError> {
        GyroOdr::try_from_spec(lower_code(reg))
    }

    /// Reads the output data rate out of the value of `GYRO_CONFIG0`, where
    /// `GYRO_ODR` occupies bits 3:0.
    pub fn from_register(reg: u8) -> (r: Result<GyroOdr, SensorError>)
        ensures
            r == GyroOdr::spec_from_register(reg),
    {
        proof {
            lemma_codes(reg);
        }
        GyroOdr::try_from(reg & 0xF)
    }
}

impl PowerMode {
    /// Bits 5:0 decode to the mode they encode; where they encode none, the
    /// mode is read from the sensor-mode bits 3:0 alone.
    pub open spec fn spec_from_register(reg: u8) -> Result<PowerMode, SensorError> {
        match PowerMode::try_from_spec(mode_code(reg)) {
            Ok(mode) => Ok(mode),
            Err(_) => PowerMode::try_from_spec(lower_code(reg)),
        }
    }

    /// Reads the power mode out of the value of `PWR_MGMT0`: `TEMP_DIS` is
    /// bit 5, `IDLE` bit 4, `GYRO_MODE` bits 3:2 and `ACCEL_MODE` bits 1:0.
    /// Where bits 5:0 encode no mode, the mode of bits 3:0 is given.
    pub fn from_register(reg: u8) -> (r: Result<PowerMode, SensorError>)
        ensures
            r == PowerMode::spec_from_register(reg),
    {
        proof {
            lemma_codes(reg);
        }
        match PowerMode::try_from(reg & 0x3F) {
            Ok(mode) => Ok(mode),
            Err(_) => PowerMode::try_from(reg & 0xF),
        }
    }
}

proof fn lemma_upper_field_read_back(current: u8, bits: u8)
    requires
        bits % 32 == 0,
    ensures
        upper_code(merged(current, 0b1110_0000, bits)) == bits / 32,
{
    assert(bits % 32 == 0 ==> ((current & !0b1110_0000u8) | (bits & 0b1110_0000u8)) / 32 == bits / 32)
        by (bit_vector);
}

proof fn lemma_lower_field_read_back(current: u8, bits: u8)
    requires
        bits < 16,
    ensures
        lower_code(merged(current, 0b0000_1111, bits)) == bits,
{
    assert(bits < 16 ==> ((current & !0b0000_1111u8) | (bits & 0b0000_1111u8)) % 16 == bits)
        by (bit_vector);
}

proof fn lemma_mode_field_read_back(current: u8, bits: u8)
    requires
        bits < 64,
    ensures
        mode_code(merged(current, 0b0011_1111, bits)) == bits,
{
    assert(bits < 64 ==> ((current & !0b0011_1111u8) | (bits & 0b0011_1111u8)) % 64 == bits)
        by (bit_vector);
}

/// Setting an accelerometer range and reading the range back gives the same range.
pub proof fn lemma_accel_range_read_back(current: u8, range: AccelRange)
    ensures
        AccelRange::spec_from_register(
            merged(current, AccelRange::spec_bitmask(), range.spec_bits()),
        ) == Ok::<AccelRange, SensorError>(range),
{
    lemma_upper_field_read_back(current, range.spec_bits());
}

/// Setting a gyroscope range and reading the range back gives the same range.
pub proof fn lemma_gyro_range_read_back(current: u8, range: GyroRange)
    ensures
        GyroRange::spec_from_register(merged(current, GyroRange::spec_bitmask(), range.spec_bits()))
            == Ok::<GyroRange, SensorError>(range),
{
    lemma_upper_field_read_back(current, range.spec_bits());
}

/// Setting an accelerometer data rate and reading it back gives the same rate.
pub proof fn lemma_accel_odr_read_back(current: u8, odr: AccelOdr)
    ensures
        AccelOdr::spec_from_register(merged(current, AccelOdr::spec_bitmask(), odr.spec_bits()))
            == Ok::<AccelOdr, SensorError>(odr),
{
    lemma_lower_field_read_back(current, odr.spec_bits());
}

/// Setting a gyroscope data rate and reading it back gives the same rate.
pub proof fn lemma_gyro_odr_read_back(current: u8, odr: GyroOdr)
    ensures
        GyroOdr::spec_from_register(merged(current, GyroOdr::spec_bitmask(), odr.spec_bits()))
            == Ok::<GyroOdr, SensorError>(odr),
{
    lemma_lower_field_read_back(current, odr.spec_bits());
}

/// Setting a power mode and reading the mode back gives the same mode.
pub proof fn lemma_power_mode_read_back(current: u8, mode: PowerMode)
    ensures
        PowerMode::spec_from_register(merged(current, PowerMode::spec_bitmask(), mode.spec_bits()))
            == Ok::<PowerMode, SensorError>(mode),
{
    lemma_mode_field_read_back(current, mode.spec_bits());
}

/// The range and the data rate share `ACCEL_CONFIG0` without disturbing each
/// other: setting one leaves what is read of the other unchanged.
pub proof fn lemma_accel_config_independent(current: u8, range: AccelRange, odr: AccelOdr)
    ensures
        AccelRange::spec_from_register(merged(current, AccelOdr::spec_bitmask(), odr.spec_bits()))
            == AccelRange::spec_from_register(current),
        AccelOdr::spec_from_register(
            merged(current, AccelRange::spec_bitmask(), range.spec_bits()),
        ) == AccelOdr::spec_from_register(current),
{
    lemma_config_fields_disjoint(current, odr.spec_bits(), range.spec_bits());
}

/// The range and the data rate share `GYRO_CONFIG0` without disturbing each
/// other: setting one leaves what is read of the other unchanged.
pub proof fn lemma_gyro_config_independent(current: u8, range: GyroRange, odr: GyroOdr)
    ensures
        GyroRange::spec_from_register(merged(current, GyroOdr::spec_bitmask(), odr.spec_bits()))
            == GyroRange::spec_from_register(current),
        GyroOdr::spec_from_register(merged(current, GyroRange::spec_bitmask(), range.spec_bits()))
            == GyroOdr::spec_from_register(current),
{
    lemma_config_fields_disjoint(current, odr.spec_bits(), range.spec_bits());
}

proof fn lemma_config_fields_disjoint(current: u8, low: u8, high: u8)
    ensures
        upper_code(merged(current, 0b0000_1111, low)) == upper_code(current),
        lower_code(merged(current, 0b1110_0000, high)) == lower_code(current),
{
    assert(((current & !0b0000_1111u8) | (low & 0b0000_1111u8)) / 32 == current / 32)
        by (bit_vector);
    assert(((current & !0b1110_0000u8) | (high & 0b1110_0000u8)) % 16 == current % 16)
        by (bit_vector);
}

} // verus!
