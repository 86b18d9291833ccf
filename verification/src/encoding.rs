//! What the register encodings mean, stated from the data sheet's tables and
//! held against the encodings the settings use.
//!
//! Each law ties a setting's field bits, and what a field value decodes to,
//! to a physical quantity named by the setting: a full-scale range, an output
//! data rate, a filter bandwidth, a sensor mode. A setting encoded with the
//! code of another one breaks the law.

use vstd::prelude::*;

use vstd::arithmetic::power2::{lemma2_to64, pow2};
use vstd::std_specs::convert::TryFromSpec;

use crate::config::{
    AccLpAvg, AccelDlpfBw, AccelOdr, AccelRange, Bitfield, GyroLpFiltBw, GyroOdr, GyroRange,
    I2CSlewRate, PowerMode, SoftReset, SpiMode, SpiSlewRate, SpiWireCount, TempDlpfBw,
};
use crate::register::{Bank0, Register};
use crate::error::SensorError;

verus! {

/// `ACCEL_UI_FS_SEL` code `k` selects ±16 g halved `k` times: the code read
/// from a set range's bits gives back its full scale, and every code 0 to 3
/// decodes to the range of that full scale.
pub proof fn lemma_accel_range_codes(range: AccelRange, k: u8)
    ensures
        range.spec_bits() % 32 == 0,
        range.full_scale_g() * pow2((range.spec_bits() / 32) as nat) == 16,
        k < 4 ==> (AccelRange::try_from_spec(k) matches Ok(r) && r.full_scale_g() * pow2(k as nat)
            == 16),
        k >= 4 ==> AccelRange::try_from_spec(k) == Err::<AccelRange, SensorError>(
            SensorError::InvalidDiscriminant,
        ),
{
    lemma2_to64();
    match range {
        AccelRange::G2 => {},
        AccelRange::G4 => {},
        AccelRange::G8 => {},
        AccelRange::G16 => {},
    }
}

/// `GYRO_FS_SEL` code `k` selects ±2000 deg/s halved `k` times: the code
/// read from a set range's bits gives back its full scale, and every code 0
/// to 7 decodes to the range of that full scale.
pub proof fn lemma_gyro_range_codes(range: GyroRange, k: u8)
    ensures
        range.spec_bits() % 32 == 0,
        range.full_scale_milli() * pow2((range.spec_bits() / 32) as nat) == 2_000_000,
        k < 8 ==> (GyroRange::try_from_spec(k) matches Ok(r) && r.full_scale_milli() * pow2(
            k as nat,
        ) == 2_000_000),
        k >= 8 ==> GyroRange::try_from_spec(k) == Err::<GyroRange, SensorError>(
            SensorError::InvalidDiscriminant,
        ),
{
    lemma2_to64();
    match range {
        GyroRange::Deg15_625 => {},
        GyroRange::Deg31_25 => {},
        GyroRange::Deg62_5 => {},
        GyroRange::Deg125 => {},
        GyroRange::Deg250 => {},
        GyroRange::Deg500 => {},
        GyroRange::Deg1000 => {},
        GyroRange::Deg2000 => {},
    }
}

/// The output data rate, in millionths of a hertz, that a 4-bit ODR code
/// selects: codes 3 to 6 give 8 kHz halved per step, codes 7 to 14 give
/// 200 Hz halved per step, code 15 gives 500 Hz; other codes select none.
pub open spec fn odr_micro_hz_of_code(code: u8) -> int {
    if 3 <= code <= 6 {
        8_000_000_000int / pow2((code - 3) as nat) as int
    } else if 7 <= code <= 14 {
        200_000_000int / pow2((code - 7) as nat) as int
    } else if code == 15 {
        500_000_000
    } else {
        0
    }
}

/// The rates the ODR codes select, one by one.
proof fn lemma_odr_table()
    ensures
        odr_micro_hz_of_code(3) == 8_000_000_000,
        odr_micro_hz_of_code(4) == 4_000_000_000,
        odr_micro_hz_of_code(5) == 2_000_000_000,
        odr_micro_hz_of_code(6) == 1_000_000_000,
        odr_micro_hz_of_code(7) == 200_000_000,
        odr_micro_hz_of_code(8) == 100_000_000,
        odr_micro_hz_of_code(9) == 50_000_000,
        odr_micro_hz_of_code(10) == 25_000_000,
        odr_micro_hz_of_code(11) == 12_500_000,
        odr_micro_hz_of_code(12) == 6_250_000,
        odr_micro_hz_of_code(13) == 3_125_000,
        odr_micro_hz_of_code(14) == 1_562_500,
        odr_micro_hz_of_code(15) == 500_000_000,
{
    lemma2_to64();
    assert((3u8 - 3) as nat == 0nat);
    assert((4u8 - 3) as nat == 1nat);
    assert((5u8 - 3) as nat == 2nat);
    assert((6u8 - 3) as nat == 3nat);
    assert((7u8 - 7) as nat == 0nat);
    assert((8u8 - 7) as nat == 1nat);
    assert((9u8 - 7) as nat == 2nat);
    assert((10u8 - 7) as nat == 3nat);
    assert((11u8 - 7) as nat == 4nat);
    assert((12u8 - 7) as nat == 5nat);
    assert((13u8 - 7) as nat == 6nat);
    assert((14u8 - 7) as nat == 7nat);
}

/// A set accelerometer rate's field code selects that rate, and every code
/// that decodes gives the rate the code selects.
pub proof fn lemma_accel_odr_codes(odr: AccelOdr, k: u8)
    ensures
        odr.spec_bits() < 16,
        odr.spec_as_micro_hz() == odr_micro_hz_of_code(odr.spec_bits()),
        AccelOdr::try_from_spec(k) matches Ok(o) ==> o.spec_as_micro_hz() == odr_micro_hz_of_code(
            k,
        ),
        (3 <= k < 16) <==> AccelOdr::try_from_spec(k) is Ok,
{
    lemma_odr_table();
    match odr {
        AccelOdr::Hz8000 => {},
        AccelOdr::Hz4000 => {},
        AccelOdr::Hz2000 => {},
        AccelOdr::Hz1000 => {},
        AccelOdr::Hz500 => {},
        AccelOdr::Hz200 => {},
        AccelOdr::Hz100 => {},
        AccelOdr::Hz50 => {},
        AccelOdr::Hz25 => {},
        AccelOdr::Hz12_5 => {},
        AccelOdr::Hz6_25 => {},
        AccelOdr::Hz3_125 => {},
        AccelOdr::Hz1_5625 => {},
    }
}

/// A set gyroscope rate's field code selects that rate, and every code that
/// decodes gives the rate the code selects.
pub proof fn lemma_gyro_odr_codes(odr: GyroOdr, k: u8)
    ensures
        odr.spec_bits() < 16,
        odr.spec_as_micro_hz() == odr_micro_hz_of_code(odr.spec_bits()),
        GyroOdr::try_from_spec(k) matches Ok(o) ==> o.spec_as_micro_hz() == odr_micro_hz_of_code(
            k,
        ),
        (3 <= k <= 11 || k == 15) <==> GyroOdr::try_from_spec(k) is Ok,
{
    lemma_odr_table();
    match odr {
        GyroOdr::Hz8000 => {},
        GyroOdr::Hz4000 => {},
        GyroOdr::Hz2000 => {},
        GyroOdr::Hz1000 => {},
        GyroOdr::Hz500 => {},
        GyroOdr::Hz200 => {},
        GyroOdr::Hz100 => {},
        GyroOdr::Hz50 => {},
        GyroOdr::Hz25 => {},
        GyroOdr::Hz12_5 => {},
    }
}

/// The state of the gyroscope in a power mode: 0 off, 1 standby (drive on),
/// 3 low noise.
pub open spec fn gyro_state(mode: PowerMode) -> u8 {
    match mode {
        PowerMode::Standby => 1,
        PowerMode::GyroLowNoise | PowerMode::SixAxisLowNoise
        | PowerMode::SixAxisLowNoiseWithoutTemperature => 3,
        _ => 0,
    }
}

/// The state of the accelerometer in a power mode: 0 off, 2 low power
/// (duty-cycled), 3 low noise.
pub open spec fn accel_state(mode: PowerMode) -> u8 {
    match mode {
        PowerMode::AccelLowPower => 2,
        PowerMode::AccelLowNoise | PowerMode::SixAxisLowNoise
        | PowerMode::SixAxisLowNoiseWithoutTemperature => 3,
        _ => 0,
    }
}

/// Whether a power mode keeps the RC oscillator on while the sensors sleep.
pub open spec fn keeps_oscillator(mode: PowerMode) -> bool {
    mode == PowerMode::Idle
}

/// Whether a power mode switches the temperature sensor off.
pub open spec fn temperature_off(mode: PowerMode) -> bool {
    mode == PowerMode::SixAxisLowNoiseWithoutTemperature
}

/// The value of `PWR_MGMT0` bits 5:0 that puts the device in a state:
/// `TEMP_DIS` is bit 5, `IDLE` bit 4, `GYRO_MODE` bits 3:2 and `ACCEL_MODE`
/// bits 1:0.
pub open spec fn pwr_mgmt_fields(temp_dis: bool, idle: bool, gyro: u8, accel: u8) -> int {
    (if temp_dis { 32int } else { 0 }) + (if idle { 16int } else { 0 }) + gyro * 4 + accel
}

/// A power mode is written as the fields of the sensor states it stands
/// for, and every value that decodes stands for the states of the mode it
/// decodes to.
pub proof fn lemma_power_mode_codes(mode: PowerMode, v: u8)
    ensures
        mode.spec_bits() == pwr_mgmt_fields(
            temperature_off(mode),
            keeps_oscillator(mode),
            gyro_state(mode),
            accel_state(mode),
        ),
        PowerMode::try_from_spec(v) matches Ok(m) ==> v == pwr_mgmt_fields(
            temperature_off(m),
            keeps_oscillator(m),
            gyro_state(m),
            accel_state(m),
        ),
        PowerMode::try_from_spec(
            mode.spec_bits(),
        ) == Ok::<PowerMode, SensorError>(mode),
{
}

/// The bandwidth in hertz of an accelerometer filter setting; 0 when the
/// filter is bypassed.
pub open spec fn accel_dlpf_hz(f: AccelDlpfBw) -> int {
    match f {
        AccelDlpfBw::Bypassed => 0,
        AccelDlpfBw::Hz180 => 180,
        AccelDlpfBw::Hz121 => 121,
        AccelDlpfBw::Hz73 => 73,
        AccelDlpfBw::Hz53 => 53,
        AccelDlpfBw::Hz34 => 34,
        AccelDlpfBw::Hz25 => 25,
        AccelDlpfBw::Hz16 => 16,
    }
}

/// The bandwidth in hertz of a gyroscope filter setting; 0 when the filter
/// is bypassed.
pub open spec fn gyro_lpf_hz(f: GyroLpFiltBw) -> int {
    match f {
        GyroLpFiltBw::Bypassed => 0,
        GyroLpFiltBw::Hz180 => 180,
        GyroLpFiltBw::Hz121 => 121,
        GyroLpFiltBw::Hz73 => 73,
        GyroLpFiltBw::Hz53 => 53,
        GyroLpFiltBw::Hz34 => 34,
        GyroLpFiltBw::Hz25 => 25,
        GyroLpFiltBw::Hz16 => 16,
    }
}

/// The bandwidth in hertz of a temperature filter setting; 0 when the filter
/// is bypassed.
pub open spec fn temp_dlpf_hz(f: TempDlpfBw) -> int {
    match f {
        TempDlpfBw::Bypassed => 0,
        TempDlpfBw::Hz180 => 180,
        TempDlpfBw::Hz72 => 72,
        TempDlpfBw::Hz34 => 34,
        TempDlpfBw::Hz16 => 16,
        TempDlpfBw::Hz8 => 8,
        TempDlpfBw::Hz4 => 4,
    }
}

/// Accelerometer filter codes: 0 bypasses the filter, and among the other
/// codes a larger code is a narrower bandwidth.
pub proof fn lemma_accel_dlpf_codes(f: AccelDlpfBw, g: AccelDlpfBw)
    ensures
        f.spec_bits() < 8,
        (f.spec_bits() == 0) == (f == AccelDlpfBw::Bypassed),
        f != AccelDlpfBw::Bypassed && g != AccelDlpfBw::Bypassed ==> (f.spec_bits() < g.spec_bits()
            <==> accel_dlpf_hz(f) > accel_dlpf_hz(g)),
{
}

/// Gyroscope filter codes: 0 bypasses the filter, and among the other codes
/// a larger code is a narrower bandwidth.
pub proof fn lemma_gyro_lpf_codes(f: GyroLpFiltBw, g: GyroLpFiltBw)
    ensures
        f.spec_bits() < 8,
        (f.spec_bits() == 0) == (f == GyroLpFiltBw::Bypassed),
        f != GyroLpFiltBw::Bypassed && g != GyroLpFiltBw::Bypassed ==> (f.spec_bits() < g.spec_bits()
            <==> gyro_lpf_hz(f) > gyro_lpf_hz(g)),
{
}

/// Temperature filter codes, in bits 7:5: 0 bypasses the filter, and among
/// the other codes a larger code is a narrower bandwidth.
pub proof fn lemma_temp_dlpf_codes(f: TempDlpfBw, g: TempDlpfBw)
    ensures
        f.spec_bits() % 32 == 0,
        f.spec_bits() / 32 < 7,
        (f.spec_bits() == 0) == (f == TempDlpfBw::Bypassed),
        f != TempDlpfBw::Bypassed && g != TempDlpfBw::Bypassed ==> (f.spec_bits() < g.spec_bits()
            <==> temp_dlpf_hz(f) > temp_dlpf_hz(g)),
{
}

/// The number of samples averaged in accelerometer low-power mode.
pub open spec fn averaged_samples(avg: AccLpAvg) -> int {
    match avg {
        AccLpAvg::X1 => 1,
        AccLpAvg::X16 => 16,
    }
}

/// Averaging codes, in bits 7:4: averaging more samples is a larger code.
pub proof fn lemma_acc_lp_avg_codes(a: AccLpAvg, b: AccLpAvg)
    ensures
        a.spec_bits() % 16 == 0,
        a.spec_bits() != 0,
        a.spec_bits() < b.spec_bits() <==> averaged_samples(a) < averaged_samples(b),
{
}

/// The longest slew time in nanoseconds of a slew-rate setting.
pub open spec fn slew_max_ns(code: u8) -> int {
    if code == 0 { 60 } else if code == 1 { 36 } else if code == 2 { 18 } else if code == 3 {
        12
    } else if code == 4 { 6 } else { 2 }
}

/// The longest slew time in nanoseconds of an I²C slew-rate setting.
pub open spec fn i2c_slew_max_ns(r: I2CSlewRate) -> int {
    match r {
        I2CSlewRate::M20M60 => 60,
        I2CSlewRate::M12M36 => 36,
        I2CSlewRate::M6M18 => 18,
        I2CSlewRate::M4M12 => 12,
        I2CSlewRate::M2M6 => 6,
        I2CSlewRate::M2 => 2,
    }
}

/// The longest slew time in nanoseconds of an SPI slew-rate setting.
pub open spec fn spi_slew_max_ns(r: SpiSlewRate) -> int {
    match r {
        SpiSlewRate::M20M60 => 60,
        SpiSlewRate::M12M36 => 36,
        SpiSlewRate::M6M18 => 18,
        SpiSlewRate::M4M12 => 12,
        SpiSlewRate::M2M6 => 6,
        SpiSlewRate::M2 => 2,
    }
}

/// Slew-rate codes 0 to 5 select ever faster edges; the I²C field sits in
/// bits 5:3 and the SPI field in bits 2:0 of the same register.
pub proof fn lemma_slew_rate_codes(i2c: I2CSlewRate, spi: SpiSlewRate)
    ensures
        i2c.spec_bits() % 8 == 0,
        i2c.spec_bits() / 8 < 6,
        i2c_slew_max_ns(i2c) == slew_max_ns((i2c.spec_bits() / 8) as u8),
        spi.spec_bits() < 6,
        spi_slew_max_ns(spi) == slew_max_ns(spi.spec_bits()),
        I2CSlewRate::spec_register() == SpiSlewRate::spec_register(),
        I2CSlewRate::spec_bitmask() & SpiSlewRate::spec_bitmask() == 0,
{
    assert(0b0011_1000u8 & 0b0000_0111u8 == 0) by (bit_vector);
}

/// The number of wires of an SPI wire-count setting.
pub open spec fn spi_wires(w: SpiWireCount) -> int {
    match w {
        SpiWireCount::ThreeWire => 3,
        SpiWireCount::FourWire => 4,
    }
}

/// `SPI_AP_4WIRE` (bit 1) is set exactly for 4-wire SPI; `SPI_MODE` (bit 0)
/// is set exactly for SPI modes 1 and 2; the reset bit is the whole field of
/// its register.
pub proof fn lemma_interface_codes(w: SpiWireCount, m: SpiMode)
    ensures
        w.spec_bits() == (if spi_wires(w) == 4 { 2u8 } else { 0u8 }),
        m.spec_bits() == (if m == SpiMode::Mode1And2 { 1u8 } else { 0u8 }),
        SoftReset.spec_bits() == SoftReset::spec_bitmask(),
{
}

/// Where the settings and readings live: the range and rate of each sensor
/// share one register, the filters and averaging fields that share a
/// register do not overlap, `ACCEL_CONFIG0` follows `GYRO_CONFIG0`, the data
/// registers run temperature, accelerometer, gyroscope in consecutive
/// addresses, the data and identity registers are read-only, and every
/// register a setting is written to is writable.
pub proof fn lemma_register_layout()
    ensures
        AccelRange::spec_register() == AccelOdr::spec_register(),
        GyroRange::spec_register() == GyroOdr::spec_register(),
        AccelRange::spec_register() != GyroRange::spec_register(),
        AccLpAvg::spec_register() == GyroLpFiltBw::spec_register(),
        AccLpAvg::spec_bitmask() & GyroLpFiltBw::spec_bitmask() == 0,
        Bank0::ACCEL_CONFIG0.spec_addr() == Bank0::GYRO_CONFIG0.spec_addr() + 1,
        Bank0::TEMP_DATA0.spec_addr() == Bank0::TEMP_DATA1.spec_addr() + 1,
        Bank0::ACCEL_DATA_X1.spec_addr() == Bank0::TEMP_DATA1.spec_addr() + 2,
        Bank0::ACCEL_DATA_Y1.spec_addr() == Bank0::TEMP_DATA1.spec_addr() + 4,
        Bank0::ACCEL_DATA_Z1.spec_addr() == Bank0::TEMP_DATA1.spec_addr() + 6,
        Bank0::GYRO_DATA_X1.spec_addr() == Bank0::TEMP_DATA1.spec_addr() + 8,
        Bank0::GYRO_DATA_Y1.spec_addr() == Bank0::TEMP_DATA1.spec_addr() + 10,
        Bank0::GYRO_DATA_Z1.spec_addr() == Bank0::TEMP_DATA1.spec_addr() + 12,
        Bank0::GYRO_DATA_Z0.spec_addr() == Bank0::TEMP_DATA1.spec_addr() + 13,
        Bank0::TEMP_DATA1.spec_read_only() && Bank0::GYRO_DATA_Z0.spec_read_only()
            && Bank0::WHO_AM_I.spec_read_only(),
        !AccelRange::spec_register().spec_read_only() && !GyroRange::spec_register().spec_read_only()
            && !PowerMode::spec_register().spec_read_only() && !AccLpAvg::spec_register().spec_read_only()
            && !AccelDlpfBw::spec_register().spec_read_only()
            && !TempDlpfBw::spec_register().spec_read_only() && !SoftReset::spec_register().spec_read_only()
            && !Bank0::SELF_TEST_CONFIG.spec_read_only(),
{
    assert(0b1111_0000u8 & 0b0000_0111u8 == 0) by (bit_vector);
}

} // verus!
