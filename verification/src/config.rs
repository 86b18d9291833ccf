//! Configuration settings of the device and their encoding in register fields.

use vstd::prelude::*;

use crate::error::SensorError;
use crate::register::{Bank0, Bank1, Register};

verus! {

/// A setting that occupies a field of one register.
///
/// The field is the set bits of `bitmask()`; `bits()` is the setting's value
/// already shifted into the field's position.
pub trait Bitfield: Sized {
    /// The kind of register that holds the field.
    type Reg: Register;

    spec fn spec_bitmask() -> u8;

    spec fn spec_register() -> Self::Reg;

    spec fn spec_bits(self) -> u8;

    /// The bits of the register that the field occupies.
    fn bitmask() -> (m: u8)
        ensures
            m == Self::spec_bitmask(),
    ;

    /// The register that holds the field.
    fn register() -> (r: Self::Reg)
        ensures
            r == Self::spec_register(),
    ;

    /// The setting's value, shifted to the field's position.
    fn bits(self) -> (b: u8)
        ensures
            b == self.spec_bits(),
    ;
}

/// I²C slave addresses, determined by the logic level of pin `AP_AD0`.
#[derive(Clone, Copy, Debug, PartialEq, Eq, Structural)]
pub enum Address {
    /// `AP_AD0` pin == 0
    Primary,
    /// `AP_AD0` pin == 1
    Secondary,
}

impl Address {
    pub open spec fn spec_addr(self) -> u8 {
        match self {
            Address::Primary => 0b1101000,
            Address::Secondary => 0b1101001,
        }
    }

    /// The 7-bit bus address.
    pub fn addr(self) -> (a: u8)
        ensures
            a == self.spec_addr(),
    {
        match self {
            Address::Primary => 0b1101000,
            Address::Secondary => 0b1101001,
        }
    }
}

/// Configurable ranges of the accelerometer.
#[derive(Clone, Copy, Debug, PartialEq, Eq, Structural)]
pub enum AccelRange {
    /// ±2G
    G2,
    /// ±4G
    G4,
    /// ±8G
    G8,
    /// ±16G
    G16,
}

impl Default for AccelRange {
    fn default() -> (r: Self)
        ensures
            r == AccelRange::G16,
    {
        AccelRange::G16
    }
}

impl AccelRange {
    /// The `ACCEL_UI_FS_SEL` code of the range.
    pub open spec fn code(self) -> u8 {
        match self {
            AccelRange::G2 => 3,
            AccelRange::G4 => 2,
            AccelRange::G8 => 1,
            AccelRange::G16 => 0,
        }
    }

    /// The full-scale range in g.
    pub open spec fn full_scale_g(self) -> int {
        match self {
            AccelRange::G2 => 2,
            AccelRange::G4 => 4,
            AccelRange::G8 => 8,
            AccelRange::G16 => 16,
        }
    }

    pub open spec fn spec_scale_factor_milli(self) -> u32 {
        match self {
            AccelRange::G2 => 16_384_000,
            AccelRange::G4 => 8_192_000,
            AccelRange::G8 => 4_096_000,
            AccelRange::G16 => 2_048_000,
        }
    }

    /// Sensitivity scale factor in thousandths of LSB per g, used to convert
    /// acceleration register values to g based on the configured range.
    pub fn scale_factor_milli(&self) -> (f: u32)
        ensures
            f == self.spec_scale_factor_milli(),
    {
        // Values taken from `Table 2. Accelerometer Specifications` of the data sheet
        match self {
            AccelRange::G2 => 16_384_000,
            AccelRange::G4 => 8_192_000,
            AccelRange::G8 => 4_096_000,
            AccelRange::G16 => 2_048_000,
        }
    }
}

impl Bitfield for AccelRange {
    type Reg = Bank0;

    open spec fn spec_bitmask() -> u8 {
        0b1110_0000
    }

    open spec fn spec_register() -> Bank0 {
        Bank0::ACCEL_CONFIG0
    }

    /// `ACCEL_FS_SEL` occupies bits 7:5 of the register.
    open spec fn spec_bits(self) -> u8 {
        (self.code() * 32) as u8
    }

    fn bitmask() -> (m: u8) {
        0b1110_0000
    }

    fn register() -> (r: Bank0) {
        Bank0::ACCEL_CONFIG0
    }

    fn bits(self) -> (b: u8) {
        match self {
            AccelRange::G2 => 0b0110_0000,
            AccelRange::G4 => 0b0100_0000,
            AccelRange::G8 => 0b0010_0000,
            AccelRange::G16 => 0b0000_0000,
        }
    }
}

impl TryFrom<u8> for AccelRange {
    type Error = SensorError;

    fn try_from(value: u8) -> (r: Result<Self, SensorError>) {
        match value {
            0 => Ok(AccelRange::G16),
            1 => Ok(AccelRange::G8),
            2 => Ok(AccelRange::G4),
            3 => Ok(AccelRange::G2),
            _ => Err(SensorError::InvalidDiscriminant),
        }
    }
}

impl vstd::std_specs::convert::TryFromSpecImpl<u8> for AccelRange {
    open spec fn obeys_try_from_spec() -> bool {
        true
    }

    /// The codes 0 to 3 decode to a range; any other value is refused.
    open spec fn try_from_spec(value: u8) -> Result<Self, SensorError> {
        if value == 0 {
            Ok(AccelRange::G16)
        } else if value == 1 {
            Ok(AccelRange::G8)
        } else if value == 2 {
            Ok(AccelRange::G4)
        } else if value == 3 {
            Ok(AccelRange::G2)
        } else {
            Err(SensorError::InvalidDiscriminant)
        }
    }
}

/// Configurable ranges of the gyroscope.
#[derive(Clone, Copy, Debug, PartialEq, Eq, Structural)]
pub enum GyroRange {
    /// ±15.625 deg/sec
    Deg15_625,
    /// ±31.25 deg/sec
    Deg31_25,
    /// ±62.5 deg/sec
    Deg62_5,
    /// ±125 deg/sec
    Deg125,
    /// ±250 deg/sec
    Deg250,
    /// ±500 deg/sec
    Deg500,
    /// ±1000 deg/sec
    Deg1000,
    /// ±2000 deg/sec
    Deg2000,
}

impl Default for GyroRange {
    fn default() -> (r: Self)
        ensures
            r == GyroRange::Deg2000,
    {
        GyroRange::Deg2000
    }
}

impl GyroRange {
    /// The field code of the setting, before it is shifted into place.
    pub open spec fn code(self) -> u8 {
        match self {
            GyroRange::Deg15_625 => 7,
            GyroRange::Deg31_25 => 6,
            GyroRange::Deg62_5 => 5,
            GyroRange::Deg125 => 4,
            GyroRange::Deg250 => 3,
            GyroRange::Deg500 => 2,
            GyroRange::Deg1000 => 1,
            GyroRange::Deg2000 => 0,
        }
    }

    /// The full-scale range in thousandths of deg/sec.
    pub open spec fn full_scale_milli(self) -> int {
        match self {
            GyroRange::Deg15_625 => 15_625,
            GyroRange::Deg31_25 => 31_250,
            GyroRange::Deg62_5 => 62_500,
            GyroRange::Deg125 => 125_000,
            GyroRange::Deg250 => 250_000,
            GyroRange::Deg500 => 500_000,
            GyroRange::Deg1000 => 1_000_000,
            GyroRange::Deg2000 => 2_000_000,
        }
    }

    pub open spec fn spec_scale_factor_milli(self) -> u32 {
        match self {
            GyroRange::Deg15_625 => 2_097_152,
            GyroRange::Deg31_25 => 1_048_576,
            GyroRange::Deg62_5 => 524_288,
            GyroRange::Deg125 => 262_144,
            GyroRange::Deg250 => 131_072,
            GyroRange::Deg500 => 65_536,
            GyroRange::Deg1000 => 32_768,
            GyroRange::Deg2000 => 16_384,
        }
    }

    /// Sensitivity scale factor in thousandths of LSB per deg/sec: the
    /// full 16-bit scale, 32768, divided by the range.
    pub fn scale_factor_milli(&self) -> (f: u32)
        ensures
            f == self.spec_scale_factor_milli(),
    {
        // Values taken from `Table 1. Gyroscope Specifications` of the data sheet
        match self {
            GyroRange::Deg15_625 => 2_097_152,
            GyroRange::Deg31_25 => 1_048_576,
            GyroRange::Deg62_5 => 524_288,
            GyroRange::Deg125 => 262_144,
            GyroRange::Deg250 => 131_072,
            GyroRange::Deg500 => 65_536,
            GyroRange::Deg1000 => 32_768,
            GyroRange::Deg2000 => 16_384,
        }
    }
}

impl Bitfield for GyroRange {
    type Reg = Bank0;

    open spec fn spec_bitmask() -> u8 {
        0b1110_0000
    }

    open spec fn spec_register() -> Bank0 {
        Bank0::GYRO_CONFIG0
    }

    /// `GYRO_FS_SEL` occupies bits 7:5 of the register.
    open spec fn spec_bits(self) -> u8 {
        (self.code() * 32) as u8
    }

    fn bitmask() -> (m: u8) {
        0b1110_0000
    }

    fn register() -> (r: Bank0) {
        Bank0::GYRO_CONFIG0
    }

    fn bits(self) -> (b: u8) {
        match self {
            GyroRange::Deg15_625 => 0b1110_0000,
            GyroRange::Deg31_25 => 0b1100_0000,
            GyroRange::Deg62_5 => 0b1010_0000,
            GyroRange::Deg125 => 0b1000_0000,
            GyroRange::Deg250 => 0b0110_0000,
            GyroRange::Deg500 => 0b0100_0000,
            GyroRange::Deg1000 => 0b0010_0000,
            GyroRange::Deg2000 => 0b0000_0000,
        }
    }
}

impl TryFrom<u8> for GyroRange {
    type Error = SensorError;

    fn try_from(value: u8) -> (r: Result<Self, SensorError>) {
        match value {
            0 => Ok(GyroRange::Deg2000),
            1 => Ok(GyroRange::Deg1000),
            2 => Ok(GyroRange::Deg500),
            3 => Ok(GyroRange::Deg250),
            4 => Ok(GyroRange::Deg125),
            5 => Ok(GyroRange::Deg62_5),
            6 => Ok(GyroRange::Deg31_25),
            7 => Ok(GyroRange::Deg15_625),
            _ => Err(SensorError::InvalidDiscriminant),
        }
    }
}

impl vstd::std_specs::convert::TryFromSpecImpl<u8> for GyroRange {
    open spec fn obeys_try_from_spec() -> bool {
        true
    }

    /// The codes 0 to 7 decode to a range; any other value is refused.
    open spec fn try_from_spec(value: u8) -> Result<Self, SensorError> {
        if value == 0 {
            Ok(GyroRange::Deg2000)
        } else if value == 1 {
            Ok(GyroRange::Deg1000)
        } else if value == 2 {
            Ok(GyroRange::Deg500)
        } else if value == 3 {
            Ok(GyroRange::Deg250)
        } else if value == 4 {
            Ok(GyroRange::Deg125)
        } else if value == 5 {
            Ok(GyroRange::Deg62_5)
        } else if value == 6 {
            Ok(GyroRange::Deg31_25)
        } else if value == 7 {
            Ok(GyroRange::Deg15_625)
        } else {
            Err(SensorError::InvalidDiscriminant)
        }
    }
}

/// Configurable power modes of the IMU.
#[derive(Clone, Copy, Debug, PartialEq, Eq, Structural)]
pub enum PowerMode {
    /// Gyroscope: OFF, Accelerometer: OFF
    Sleep,
    /// Sleep but with the RC oscillator powered on
    Idle,
    /// Gyroscope: DRIVE ON, Accelerometer: OFF
    Standby,
    /// Gyroscope: OFF, Accelerometer: DUTY-CYCLED
    AccelLowPower,
    /// Gyroscope: OFF, Accelerometer: ON
    AccelLowNoise,
    /// Gyroscope: ON, Accelerometer: OFF
    GyroLowNoise,
    /// Gyroscope: ON, Accelerometer: ON
    SixAxisLowNoise,
    /// Temperature: OFF, Gyroscope: ON, Accelerometer: ON
    SixAxisLowNoiseWithoutTemperature,
}

impl Default for PowerMode {
    fn default() -> (r: Self)
        ensures
            r == PowerMode::Sleep,
    {
        PowerMode::Sleep
    }
}

impl PowerMode {
    /// The field code of the setting, before it is shifted into place.
    pub open spec fn code(self) -> u8 {
        match self {
            PowerMode::Sleep => 0,
            PowerMode::Idle => 16,
            PowerMode::Standby => 4,
            PowerMode::AccelLowPower => 2,
            PowerMode::AccelLowNoise => 3,
            PowerMode::GyroLowNoise => 12,
            PowerMode::SixAxisLowNoise => 15,
            PowerMode::SixAxisLowNoiseWithoutTemperature => 47,
        }
    }
}

impl Bitfield for PowerMode {
    type Reg = Bank0;

    open spec fn spec_bitmask() -> u8 {
        0b0011_1111
    }

    open spec fn spec_register() -> Bank0 {
        Bank0::PWR_MGMT0
    }

    /// `TEMP_DIS` is bit 5, `IDLE` bit 4, `GYRO_MODE` bits 3:2 and `ACCEL_MODE` bits 1:0 of the register.
    open spec fn spec_bits(self) -> u8 {
        self.code()
    }

    fn bitmask() -> (m: u8) {
        0b0011_1111
    }

    fn register() -> (r: Bank0) {
        Bank0::PWR_MGMT0
    }

    fn bits(self) -> (b: u8) {
        match self {
            PowerMode::Sleep => 0b0000_0000,
            PowerMode::Idle => 0b0001_0000,
            PowerMode::Standby => 0b0000_0100,
            PowerMode::AccelLowPower => 0b0000_0010,
            PowerMode::AccelLowNoise => 0b0000_0011,
            PowerMode::GyroLowNoise => 0b0000_1100,
            PowerMode::SixAxisLowNoise => 0b0000_1111,
            PowerMode::SixAxisLowNoiseWithoutTemperature => 0b0010_1111,
        }
    }
}

impl TryFrom<u8> for PowerMode {
    type Error = SensorError;

    fn try_from(value: u8) -> (r: Result<Self, SensorError>) {
        match value {
            0b0000_0000 => Ok(PowerMode::Sleep),
            0b0001_0000 => Ok(PowerMode::Idle),
            0b0000_0100 => Ok(PowerMode::Standby),
            0b0000_0010 => Ok(PowerMode::AccelLowPower),
            0b0000_0011 => Ok(PowerMode::AccelLowNoise),
            0b0000_1100 => Ok(PowerMode::GyroLowNoise),
            0b0000_1111 => Ok(PowerMode::SixAxisLowNoise),
            0b0010_1111 => Ok(PowerMode::SixAxisLowNoiseWithoutTemperature),
            _ => Err(SensorError::InvalidDiscriminant),
        }
    }
}

impl vstd::std_specs::convert::TryFromSpecImpl<u8> for PowerMode {
    open spec fn obeys_try_from_spec() -> bool {
        true
    }

    /// Exactly the codes of the eight modes decode; any other value is refused.
    open spec fn try_from_spec(value: u8) -> Result<Self, SensorError> {
        if value == 0b0000_0000 {
            Ok(PowerMode::Sleep)
        } else if value == 0b0001_0000 {
            Ok(PowerMode::Idle)
        } else if value == 0b0000_0100 {
            Ok(PowerMode::Standby)
        } else if value == 0b0000_0010 {
            Ok(PowerMode::AccelLowPower)
        } else if value == 0b0000_0011 {
            Ok(PowerMode::AccelLowNoise)
        } else if value == 0b0000_1100 {
            Ok(PowerMode::GyroLowNoise)
        } else if value == 0b0000_1111 {
            Ok(PowerMode::SixAxisLowNoise)
        } else if value == 0b0010_1111 {
            Ok(PowerMode::SixAxisLowNoiseWithoutTemperature)
        } else {
            Err(SensorError::InvalidDiscriminant)
        }
    }
}

/// Accelerometer ODR selection values.
#[derive(Clone, Copy, Debug, PartialEq, Eq, Structural)]
pub enum AccelOdr {
    /// 8 kHz (LN mode)
    Hz8000,
    /// 4 kHz (LN mode)
    Hz4000,
    /// 2 kHz (LN mode)
    Hz2000,
    /// 1 kHz (LN mode)
    Hz1000,
    /// 500 Hz (LP or LN mode)
    Hz500,
    /// 200 Hz (LP or LN mode)
    Hz200,
    /// 100 Hz (LP or LN mode)
    Hz100,
    /// 50 Hz (LP or LN mode)
    Hz50,
    /// 25 Hz (LP or LN mode)
    Hz25,
    /// 12.5 Hz (LP or LN mode)
    Hz12_5,
    /// 6.25 Hz (LP mode)
    Hz6_25,
    /// 3.125 Hz (LP mode)
    Hz3_125,
    /// 1.5625 Hz (LP mode)
    Hz1_5625,
}

impl Default for AccelOdr {
    fn default() -> (r: Self)
        ensures
            r == AccelOdr::Hz1000,
    {
        AccelOdr::Hz1000
    }
}

impl AccelOdr {
    /// The field code of the setting, before it is shifted into place.
    pub open spec fn code(self) -> u8 {
        match self {
            AccelOdr::Hz8000 => 3,
            AccelOdr::Hz4000 => 4,
            AccelOdr::Hz2000 => 5,
            AccelOdr::Hz1000 => 6,
            AccelOdr::Hz500 => 15,
            AccelOdr::Hz200 => 7,
            AccelOdr::Hz100 => 8,
            AccelOdr::Hz50 => 9,
            AccelOdr::Hz25 => 10,
            AccelOdr::Hz12_5 => 11,
            AccelOdr::Hz6_25 => 12,
            AccelOdr::Hz3_125 => 13,
            AccelOdr::Hz1_5625 => 14,
        }
    }

    pub open spec fn spec_as_micro_hz(self) -> u64 {
        match self {
            AccelOdr::Hz8000 => 8_000_000_000,
            AccelOdr::Hz4000 => 4_000_000_000,
            AccelOdr::Hz2000 => 2_000_000_000,
            AccelOdr::Hz1000 => 1_000_000_000,
            AccelOdr::Hz500 => 500_000_000,
            AccelOdr::Hz200 => 200_000_000,
            AccelOdr::Hz100 => 100_000_000,
            AccelOdr::Hz50 => 50_000_000,
            AccelOdr::Hz25 => 25_000_000,
            AccelOdr::Hz12_5 => 12_500_000,
            AccelOdr::Hz6_25 => 6_250_000,
            AccelOdr::Hz3_125 => 3_125_000,
            AccelOdr::Hz1_5625 => 1_562_500,
        }
    }

    /// The output data rate in millionths of a hertz.
    pub fn as_micro_hz(self) -> (r: u64)
        ensures
            r == self.spec_as_micro_hz(),
    {
        match self {
            AccelOdr::Hz8000 => 8_000_000_000,
            AccelOdr::Hz4000 => 4_000_000_000,
            AccelOdr::Hz2000 => 2_000_000_000,
            AccelOdr::Hz1000 => 1_000_000_000,
            AccelOdr::Hz500 => 500_000_000,
            AccelOdr::Hz200 => 200_000_000,
            AccelOdr::Hz100 => 100_000_000,
            AccelOdr::Hz50 => 50_000_000,
            AccelOdr::Hz25 => 25_000_000,
            AccelOdr::Hz12_5 => 12_500_000,
            AccelOdr::Hz6_25 => 6_250_000,
            AccelOdr::Hz3_125 => 3_125_000,
            AccelOdr::Hz1_5625 => 1_562_500,
        }
    }
}

impl Bitfield for AccelOdr {
    type Reg = Bank0;

    open spec fn spec_bitmask() -> u8 {
        0b0000_1111
    }

    open spec fn spec_register() -> Bank0 {
        Bank0::ACCEL_CONFIG0
    }

    /// `ACCEL_ODR` occupies bits 3:0 of the register.
    open spec fn spec_bits(self) -> u8 {
        self.code()
    }

    fn bitmask() -> (m: u8) {
        0b0000_1111
    }

    fn register() -> (r: Bank0) {
        Bank0::ACCEL_CONFIG0
    }

    fn bits(self) -> (b: u8) {
        match self {
            AccelOdr::Hz8000 => 0b0000_0011,
            AccelOdr::Hz4000 => 0b0000_0100,
            AccelOdr::Hz2000 => 0b0000_0101,
            AccelOdr::Hz1000 => 0b0000_0110,
            AccelOdr::Hz500 => 0b0000_1111,
            AccelOdr::Hz200 => 0b0000_0111,
            AccelOdr::Hz100 => 0b0000_1000,
            AccelOdr::Hz50 => 0b0000_1001,
            AccelOdr::Hz25 => 0b0000_1010,
            AccelOdr::Hz12_5 => 0b0000_1011,
            AccelOdr::Hz6_25 => 0b0000_1100,
            AccelOdr::Hz3_125 => 0b0000_1101,
            AccelOdr::Hz1_5625 => 0b0000_1110,
        }
    }
}

impl TryFrom<u8> for AccelOdr {
    type Error = SensorError;

    fn try_from(value: u8) -> (r: Result<Self, SensorError>) {
        match value {
            0b0000_0011 => Ok(AccelOdr::Hz8000),
            0b0000_0100 => Ok(AccelOdr::Hz4000),
            0b0000_0101 => Ok(AccelOdr::Hz2000),
            0b0000_0110 => Ok(AccelOdr::Hz1000),
            0b0000_1111 => Ok(AccelOdr::Hz500),
            0b0000_0111 => Ok(AccelOdr::Hz200),
            0b0000_1000 => Ok(AccelOdr::Hz100),
            0b0000_1001 => Ok(AccelOdr::Hz50),
            0b0000_1010 => Ok(AccelOdr::Hz25),
            0b0000_1011 => Ok(AccelOdr::Hz12_5),
            0b0000_1100 => Ok(AccelOdr::Hz6_25),
            0b0000_1101 => Ok(AccelOdr::Hz3_125),
            0b0000_1110 => Ok(AccelOdr::Hz1_5625),
            _ => Err(SensorError::InvalidDiscriminant),
        }
    }
}

impl vstd::std_specs::convert::TryFromSpecImpl<u8> for AccelOdr {
    open spec fn obeys_try_from_spec() -> bool {
        true
    }

    /// Exactly the codes of the thirteen rates decode; any other value is refused.
    open spec fn try_from_spec(value: u8) -> Result<Self, SensorError> {
        if value == 0b0000_0011 {
            Ok(AccelOdr::Hz8000)
        } else if value == 0b0000_0100 {
            Ok(AccelOdr::Hz4000)
        } else if value == 0b0000_0101 {
            Ok(AccelOdr::Hz2000)
        } else if value == 0b0000_0110 {
            Ok(AccelOdr::Hz1000)
        } else if value == 0b0000_1111 {
            Ok(AccelOdr::Hz500)
        } else if value == 0b0000_0111 {
            Ok(AccelOdr::Hz200)
        } else if value == 0b0000_1000 {
            Ok(AccelOdr::Hz100)
        } else if value == 0b0000_1001 {
            Ok(AccelOdr::Hz50)
        } else if value == 0b0000_1010 {
            Ok(AccelOdr::Hz25)
        } else if value == 0b0000_1011 {
            Ok(AccelOdr::Hz12_5)
        } else if value == 0b0000_1100 {
            Ok(AccelOdr::Hz6_25)
        } else if value == 0b0000_1101 {
            Ok(AccelOdr::Hz3_125)
        } else if value == 0b0000_1110 {
            Ok(AccelOdr::Hz1_5625)
        } else {
            Err(SensorError::InvalidDiscriminant)
        }
    }
}

/// Acceleration low-power averaging.
#[derive(Clone, Copy, Debug, PartialEq, Eq, Structural)]
pub enum AccLpAvg {
    /// Average of 1 sample
    X1,
    /// Average of 16 samples
    X16,
}

impl Default for AccLpAvg {
    fn default() -> (r: Self)
        ensures
            r == AccLpAvg::X1,
    {
        AccLpAvg::X1
    }
}

impl AccLpAvg {
    /// The field code of the setting, before it is shifted into place.
    pub open spec fn code(self) -> u8 {
        match self {
            AccLpAvg::X1 => 1,
            AccLpAvg::X16 => 6,
        }
    }
}

impl Bitfield for AccLpAvg {
    type Reg = Bank0;

    open spec fn spec_bitmask() -> u8 {
        0b1111_0000
    }

    open spec fn spec_register() -> Bank0 {
        Bank0::GYRO_ACCEL_CONFIG0
    }

    /// `ACCEL_UI_AVG` occupies bits 7:4 of the register.
    open spec fn spec_bits(self) -> u8 {
        (self.code() * 16) as u8
    }

    fn bitmask() -> (m: u8) {
        0b1111_0000
    }

    fn register() -> (r: Bank0) {
        Bank0::GYRO_ACCEL_CONFIG0
    }

    fn bits(self) -> (b: u8) {
        match self {
            AccLpAvg::X1 => 0b0001_0000,
            AccLpAvg::X16 => 0b0110_0000,
        }
    }
}

/// Acceleration digital low pass filter options.
#[derive(Clone, Copy, Debug, PartialEq, Eq, Structural)]
pub enum AccelDlpfBw {
    /// Filter bypassed
    Bypassed,
    /// 180 Hz
    Hz180,
    /// 121 Hz
    Hz121,
    /// 73 Hz
    Hz73,
    /// 53 Hz
    Hz53,
    /// 34 Hz
    Hz34,
    /// 25 Hz
    Hz25,
    /// 16 Hz
    Hz16,
}

impl AccelDlpfBw {
    /// The field code of the setting, before it is shifted into place.
    pub open spec fn code(self) -> u8 {
        match self {
            AccelDlpfBw::Bypassed => 0,
            AccelDlpfBw::Hz180 => 1,
            AccelDlpfBw::Hz121 => 2,
            AccelDlpfBw::Hz73 => 3,
            AccelDlpfBw::Hz53 => 4,
            AccelDlpfBw::Hz34 => 5,
            AccelDlpfBw::Hz25 => 6,
            AccelDlpfBw::Hz16 => 7,
        }
    }
}

impl Bitfield for AccelDlpfBw {
    type Reg = Bank0;

    open spec fn spec_bitmask() -> u8 {
        0b0000_0111
    }

    open spec fn spec_register() -> Bank0 {
        Bank0::ACCEL_CONFIG1
    }

    /// `ACCEL_UI_FILT_BW` occupies bits 2:0 of the register.
    open spec fn spec_bits(self) -> u8 {
        self.code()
    }

    fn bitmask() -> (m: u8) {
        0b0000_0111
    }

    fn register() -> (r: Bank0) {
        Bank0::ACCEL_CONFIG1
    }

    fn bits(self) -> (b: u8) {
        match self {
            AccelDlpfBw::Bypassed => 0b0000_0000,
            AccelDlpfBw::Hz180 => 0b0000_0001,
            AccelDlpfBw::Hz121 => 0b0000_0010,
            AccelDlpfBw::Hz73 => 0b0000_0011,
            AccelDlpfBw::Hz53 => 0b0000_0100,
            AccelDlpfBw::Hz34 => 0b0000_0101,
            AccelDlpfBw::Hz25 => 0b0000_0110,
            AccelDlpfBw::Hz16 => 0b0000_0111,
        }
    }
}

/// Temperature DLPF (digital low pass filter) bandwidth.
#[derive(Clone, Copy, Debug, PartialEq, Eq, Structural)]
pub enum TempDlpfBw {
    /// Filter bypassed
    Bypassed,
    /// 180 Hz
    Hz180,
    /// 72 Hz
    Hz72,
    /// 34 Hz
    Hz34,
    /// 16 Hz
    Hz16,
    /// 8 Hz
    Hz8,
    /// 4 Hz
    Hz4,
}

impl TempDlpfBw {
    /// The field code of the setting, before it is shifted into place.
    pub open spec fn code(self) -> u8 {
        match self {
            TempDlpfBw::Bypassed => 0,
            TempDlpfBw::Hz180 => 1,
            TempDlpfBw::Hz72 => 2,
            TempDlpfBw::Hz34 => 3,
            TempDlpfBw::Hz16 => 4,
            TempDlpfBw::Hz8 => 5,
            TempDlpfBw::Hz4 => 6,
        }
    }
}

impl Bitfield for TempDlpfBw {
    type Reg = Bank0;

    open spec fn spec_bitmask() -> u8 {
        0b1110_0000
    }

    open spec fn spec_register() -> Bank0 {
        Bank0::GYRO_CONFIG1
    }

    /// `TEMP_FILT_BW` occupies bits 7:5 of the register.
    open spec fn spec_bits(self) -> u8 {
        (self.code() * 32) as u8
    }

    fn bitmask() -> (m: u8) {
        0b1110_0000
    }

    fn register() -> (r: Bank0) {
        Bank0::GYRO_CONFIG1
    }

    fn bits(self) -> (b: u8) {
        match self {
            TempDlpfBw::Bypassed => 0b0000_0000,
            TempDlpfBw::Hz180 => 0b0010_0000,
            TempDlpfBw::Hz72 => 0b0100_0000,
            TempDlpfBw::Hz34 => 0b0110_0000,
            TempDlpfBw::Hz16 => 0b1000_0000,
            TempDlpfBw::Hz8 => 0b1010_0000,
            TempDlpfBw::Hz4 => 0b1100_0000,
        }
    }
}

/// Gyroscope UI low pass filter bandwidth.
#[derive(Clone, Copy, Debug, PartialEq, Eq, Structural)]
pub enum GyroLpFiltBw {
    /// Filter bypassed
    Bypassed,
    /// 180 Hz
    Hz180,
    /// 121 Hz
    Hz121,
    /// 73 Hz
    Hz73,
    /// 53 Hz
    Hz53,
    /// 34 Hz
    Hz34,
    /// 25 Hz
    Hz25,
    /// 16 Hz
    Hz16,
}

impl GyroLpFiltBw {
    /// The field code of the setting, before it is shifted into place.
    pub open spec fn code(self) -> u8 {
        match self {
            GyroLpFiltBw::Bypassed => 0,
            GyroLpFiltBw::Hz180 => 1,
            GyroLpFiltBw::Hz121 => 2,
            GyroLpFiltBw::Hz73 => 3,
            GyroLpFiltBw::Hz53 => 4,
            GyroLpFiltBw::Hz34 => 5,
            GyroLpFiltBw::Hz25 => 6,
            GyroLpFiltBw::Hz16 => 7,
        }
    }
}

impl Bitfield for GyroLpFiltBw {
    type Reg = Bank0;

    open spec fn spec_bitmask() -> u8 {
        0b0000_0111
    }

    open spec fn spec_register() -> Bank0 {
        Bank0::GYRO_ACCEL_CONFIG0
    }

    /// `GYRO_UI_FILT_BW` occupies bits 2:0 of the register.
    open spec fn spec_bits(self) -> u8 {
        self.code()
    }

    fn bitmask() -> (m: u8) {
        0b0000_0111
    }

    fn register() -> (r: Bank0) {
        Bank0::GYRO_ACCEL_CONFIG0
    }

    fn bits(self) -> (b: u8) {
        match self {
            GyroLpFiltBw::Bypassed => 0b0000_0000,
            GyroLpFiltBw::Hz180 => 0b0000_0001,
            GyroLpFiltBw::Hz121 => 0b0000_0010,
            GyroLpFiltBw::Hz73 => 0b0000_0011,
            GyroLpFiltBw::Hz53 => 0b0000_0100,
            GyroLpFiltBw::Hz34 => 0b0000_0101,
            GyroLpFiltBw::Hz25 => 0b0000_0110,
            GyroLpFiltBw::Hz16 => 0b0000_0111,
        }
    }
}

/// Gyroscope ODR selection values.
///
/// Note that this enum is sorted from greatest to least Hz, which is
/// different to how these values are listed in the datasheet.
#[derive(Clone, Copy, Debug, PartialEq, Eq, Structural)]
pub enum GyroOdr {
    /// 8 kHz
    Hz8000,
    /// 4 kHz
    Hz4000,
    /// 2 kHz
    Hz2000,
    /// 1 kHz
    Hz1000,
    /// 500 Hz
    Hz500,
    /// 200 Hz
    Hz200,
    /// 100 Hz
    Hz100,
    /// 50 Hz
    Hz50,
    /// 25 Hz
    Hz25,
    /// 12.5 Hz
    Hz12_5,
}

impl Default for GyroOdr {
    fn default() -> (r: Self)
        ensures
            r == GyroOdr::Hz1000,
    {
        GyroOdr::Hz1000
    }
}

impl GyroOdr {
    /// The field code of the setting, before it is shifted into place.
    pub open spec fn code(self) -> u8 {
        match self {
            GyroOdr::Hz8000 => 3,
            GyroOdr::Hz4000 => 4,
            GyroOdr::Hz2000 => 5,
            GyroOdr::Hz1000 => 6,
            GyroOdr::Hz500 => 15,
            GyroOdr::Hz200 => 7,
            GyroOdr::Hz100 => 8,
            GyroOdr::Hz50 => 9,
            GyroOdr::Hz25 => 10,
            GyroOdr::Hz12_5 => 11,
        }
    }

    pub open spec fn spec_as_micro_hz(self) -> u64 {
        match self {
            GyroOdr::Hz8000 => 8_000_000_000,
            GyroOdr::Hz4000 => 4_000_000_000,
            GyroOdr::Hz2000 => 2_000_000_000,
            GyroOdr::Hz1000 => 1_000_000_000,
            GyroOdr::Hz500 => 500_000_000,
            GyroOdr::Hz200 => 200_000_000,
            GyroOdr::Hz100 => 100_000_000,
            GyroOdr::Hz50 => 50_000_000,
            GyroOdr::Hz25 => 25_000_000,
            GyroOdr::Hz12_5 => 12_500_000,
        }
    }

    /// The output data rate in millionths of a hertz.
    pub fn as_micro_hz(self) -> (r: u64)
        ensures
            r == self.spec_as_micro_hz(),
    {
        match self {
            GyroOdr::Hz8000 => 8_000_000_000,
            GyroOdr::Hz4000 => 4_000_000_000,
            GyroOdr::Hz2000 => 2_000_000_000,
            GyroOdr::Hz1000 => 1_000_000_000,
            GyroOdr::Hz500 => 500_000_000,
            GyroOdr::Hz200 => 200_000_000,
            GyroOdr::Hz100 => 100_000_000,
            GyroOdr::Hz50 => 50_000_000,
            GyroOdr::Hz25 => 25_000_000,
            GyroOdr::Hz12_5 => 12_500_000,
        }
    }
}

impl Bitfield for GyroOdr {
    type Reg = Bank0;

    open spec fn spec_bitmask() -> u8 {
        0b0000_1111
    }

    open spec fn spec_register() -> Bank0 {
        Bank0::GYRO_CONFIG0
    }

    /// `GYRO_ODR` occupies bits 3:0 of the register.
    open spec fn spec_bits(self) -> u8 {
        self.code()
    }

    fn bitmask() -> (m: u8) {
        0b0000_1111
    }

    fn register() -> (r: Bank0) {
        Bank0::GYRO_CONFIG0
    }

    fn bits(self) -> (b: u8) {
        match self {
            GyroOdr::Hz8000 => 0b0000_0011,
            GyroOdr::Hz4000 => 0b0000_0100,
            GyroOdr::Hz2000 => 0b0000_0101,
            GyroOdr::Hz1000 => 0b0000_0110,
            GyroOdr::Hz500 => 0b0000_1111,
            GyroOdr::Hz200 => 0b0000_0111,
            GyroOdr::Hz100 => 0b0000_1000,
            GyroOdr::Hz50 => 0b0000_1001,
            GyroOdr::Hz25 => 0b0000_1010,
            GyroOdr::Hz12_5 => 0b0000_1011,
        }
    }
}

impl TryFrom<u8> for GyroOdr {
    type Error = SensorError;

    fn try_from(value: u8) -> (r: Result<Self, SensorError>) {
        match value {
            0b0000_0011 => Ok(GyroOdr::Hz8000),
            0b0000_0100 => Ok(GyroOdr::Hz4000),
            0b0000_0101 => Ok(GyroOdr::Hz2000),
            0b0000_0110 => Ok(GyroOdr::Hz1000),
            0b0000_1111 => Ok(GyroOdr::Hz500),
            0b0000_0111 => Ok(GyroOdr::Hz200),
            0b0000_1000 => Ok(GyroOdr::Hz100),
            0b0000_1001 => Ok(GyroOdr::Hz50),
            0b0000_1010 => Ok(GyroOdr::Hz25),
            0b0000_1011 => Ok(GyroOdr::Hz12_5),
            _ => Err(SensorError::InvalidDiscriminant),
        }
    }
}

impl vstd::std_specs::convert::TryFromSpecImpl<u8> for GyroOdr {
    open spec fn obeys_try_from_spec() -> bool {
        true
    }

    /// Exactly the codes of the ten rates decode; any other value is refused.
    open spec fn try_from_spec(value: u8) -> Result<Self, SensorError> {
        if value == 0b0000_0011 {
            Ok(GyroOdr::Hz8000)
        } else if value == 0b0000_0100 {
            Ok(GyroOdr::Hz4000)
        } else if value == 0b0000_0101 {
            Ok(GyroOdr::Hz2000)
        } else if value == 0b0000_0110 {
            Ok(GyroOdr::Hz1000)
        } else if value == 0b0000_1111 {
            Ok(GyroOdr::Hz500)
        } else if value == 0b0000_0111 {
            Ok(GyroOdr::Hz200)
        } else if value == 0b0000_1000 {
            Ok(GyroOdr::Hz100)
        } else if value == 0b0000_1001 {
            Ok(GyroOdr::Hz50)
        } else if value == 0b0000_1010 {
            Ok(GyroOdr::Hz25)
        } else if value == 0b0000_1011 {
            Ok(GyroOdr::Hz12_5)
        } else {
            Err(SensorError::InvalidDiscriminant)
        }
    }
}

/// Number of wires of the SPI interface.
#[derive(Clone, Copy, Debug, PartialEq, Eq, Structural)]
pub enum SpiWireCount {
    /// 3-wire SPI
    ThreeWire,
    /// 4-wire SPI
    FourWire,
}

impl SpiWireCount {
    /// The field code of the setting, before it is shifted into place.
    pub open spec fn code(self) -> u8 {
        match self {
            SpiWireCount::ThreeWire => 0,
            SpiWireCount::FourWire => 1,
        }
    }
}

impl Bitfield for SpiWireCount {
    type Reg = Bank1;

    open spec fn spec_bitmask() -> u8 {
        0b0000_0010
    }

    open spec fn spec_register() -> Bank1 {
        Bank1::INTF_CONFIG4
    }

    /// `SPI_AP_4WIRE` is bit 1 of the register.
    open spec fn spec_bits(self) -> u8 {
        (self.code() * 2) as u8
    }

    fn bitmask() -> (m: u8) {
        0b0000_0010
    }

    fn register() -> (r: Bank1) {
        Bank1::INTF_CONFIG4
    }

    fn bits(self) -> (b: u8) {
        match self {
            SpiWireCount::ThreeWire => 0b0000_0000,
            SpiWireCount::FourWire => 0b0000_0010,
        }
    }
}

/// SPI mode of the interface.
#[derive(Clone, Copy, Debug, PartialEq, Eq, Structural)]
pub enum SpiMode {
    /// SPI modes 0 and 3
    Mode0And3,
    /// SPI modes 1 and 2
    Mode1And2,
}

impl SpiMode {
    /// The field code of the setting, before it is shifted into place.
    pub open spec fn code(self) -> u8 {
        match self {
            SpiMode::Mode0And3 => 0,
            SpiMode::Mode1And2 => 1,
        }
    }
}

impl Bitfield for SpiMode {
    type Reg = Bank0;

    open spec fn spec_bitmask() -> u8 {
        0b0000_0001
    }

    open spec fn spec_register() -> Bank0 {
        Bank0::DEVICE_CONFIG
    }

    /// `SPI_MODE` is bit 0 of the register.
    open spec fn spec_bits(self) -> u8 {
        self.code()
    }

    fn bitmask() -> (m: u8) {
        0b0000_0001
    }

    fn register() -> (r: Bank0) {
        Bank0::DEVICE_CONFIG
    }

    fn bits(self) -> (b: u8) {
        match self {
            SpiMode::Mode0And3 => 0b0000_0000,
            SpiMode::Mode1And2 => 0b0000_0001,
        }
    }
}

/// Controls slew rate for output pin 14 in I2C mode.
/// After device reset, the I2C_SLEW_RATE is used by default. If the 1st write
/// operation from host is an SPI transaction, the device automatically switches
/// to SPI_SLEW_RATE.
#[derive(Clone, Copy, Debug, PartialEq, Eq, Structural)]
pub enum I2CSlewRate {
    /// Min 20ns; Max 60ns
    M20M60,
    /// Min 12ns; Max 36ns
    M12M36,
    /// Min 6ns; Max 18ns
    M6M18,
    /// Min 4ns; Max 12ns
    M4M12,
    /// Min 2ns; Max 6ns
    M2M6,
    /// Max 2ns
    M2,
}

impl I2CSlewRate {
    /// The field code of the setting, before it is shifted into place.
    pub open spec fn code(self) -> u8 {
        match self {
            I2CSlewRate::M20M60 => 0,
            I2CSlewRate::M12M36 => 1,
            I2CSlewRate::M6M18 => 2,
            I2CSlewRate::M4M12 => 3,
            I2CSlewRate::M2M6 => 4,
            I2CSlewRate::M2 => 5,
        }
    }
}

impl Bitfield for I2CSlewRate {
    type Reg = Bank0;

    open spec fn spec_bitmask() -> u8 {
        0b0011_1000
    }

    open spec fn spec_register() -> Bank0 {
        Bank0::DRIVE_CONFIG
    }

    /// `I2C_SLEW_RATE` occupies bits 5:3 of the register.
    open spec fn spec_bits(self) -> u8 {
        (self.code() * 8) as u8
    }

    fn bitmask() -> (m: u8) {
        0b0011_1000
    }

    fn register() -> (r: Bank0) {
        Bank0::DRIVE_CONFIG
    }

    fn bits(self) -> (b: u8) {
        match self {
            I2CSlewRate::M20M60 => 0b0000_0000,
            I2CSlewRate::M12M36 => 0b0000_1000,
            I2CSlewRate::M6M18 => 0b0001_0000,
            I2CSlewRate::M4M12 => 0b0001_1000,
            I2CSlewRate::M2M6 => 0b0010_0000,
            I2CSlewRate::M2 => 0b0010_1000,
        }
    }
}

/// Controls slew rate for output pin 14 in SPI 3-wire mode. In SPI 4-wire mode
/// this register controls the slew rate of pin 1 as it is used as an output in
/// SPI 4-wire mode only. After chip reset, the I2C_SLEW_RATE is used by
/// default for pin 14. If the 1st write operation from the host is an
/// SPI3/4 transaction, the device automatically switches to SPI_SLEW_RATE.
///
/// This register field should not be programmed in I3C/DDR mode.
#[derive(Clone, Copy, Debug, PartialEq, Eq, Structural)]
pub enum SpiSlewRate {
    /// Min 20ns; Max 60ns
    M20M60,
    /// Min 12ns; Max 36ns
    M12M36,
    /// Min 6ns; Max 18ns
    M6M18,
    /// Min 4ns; Max 12ns
    M4M12,
    /// Min 2ns; Max 6ns
    M2M6,
    /// Max 2ns
    M2,
}

impl SpiSlewRate {
    /// The field code of the setting, before it is shifted into place.
    pub open spec fn code(self) -> u8 {
        match self {
            SpiSlewRate::M20M60 => 0,
            SpiSlewRate::M12M36 => 1,
            SpiSlewRate::M6M18 => 2,
            SpiSlewRate::M4M12 => 3,
            SpiSlewRate::M2M6 => 4,
            SpiSlewRate::M2 => 5,
        }
    }
}

impl Bitfield for SpiSlewRate {
    type Reg = Bank0;

    open spec fn spec_bitmask() -> u8 {
        0b0000_0111
    }

    open spec fn spec_register() -> Bank0 {
        Bank0::DRIVE_CONFIG
    }

    /// `SPI_SLEW_RATE` occupies bits 2:0 of the register.
    open spec fn spec_bits(self) -> u8 {
        self.code()
    }

    fn bitmask() -> (m: u8) {
        0b0000_0111
    }

    fn register() -> (r: Bank0) {
        Bank0::DRIVE_CONFIG
    }

    fn bits(self) -> (b: u8) {
        match self {
            SpiSlewRate::M20M60 => 0b0000_0000,
            SpiSlewRate::M12M36 => 0b0000_0001,
            SpiSlewRate::M6M18 => 0b0000_0010,
            SpiSlewRate::M4M12 => 0b0000_0011,
            SpiSlewRate::M2M6 => 0b0000_0100,
            SpiSlewRate::M2 => 0b0000_0101,
        }
    }
}


/// A software reset of the device's signal paths.
#[derive(Clone, Copy, Debug, PartialEq, Eq, Structural)]
pub struct SoftReset;

impl Bitfield for SoftReset {
    type Reg = Bank0;

    open spec fn spec_bitmask() -> u8 {
        0b0000_1000
    }

    open spec fn spec_register() -> Bank0 {
        Bank0::SIGNAL_PATH_RESET
    }

    /// The reset bit is bit 3 of the register.
    open spec fn spec_bits(self) -> u8 {
        0b0000_1000
    }

    fn bitmask() -> (m: u8) {
        0b0000_1000
    }

    fn register() -> (r: Bank0) {
        Bank0::SIGNAL_PATH_RESET
    }

    fn bits(self) -> (b: u8) {
        0b0000_1000
    }
}

/// The accelerometer's sensitivity is the full 16-bit scale divided by the
/// range: scale factor times range is 32768 LSB.
pub proof fn lemma_accel_sensitivity(range: AccelRange)
    ensures
        range.spec_scale_factor_milli() * range.full_scale_g() == 32_768 * 1000,
{
}

/// The gyroscope's sensitivity is the full 16-bit scale divided by the range:
/// scale factor times range is 32768 LSB.
pub proof fn lemma_gyro_sensitivity(range: GyroRange)
    ensures
        range.spec_scale_factor_milli() * range.full_scale_milli() == 32_768 * 1000 * 1000,
{
}

} // verus!
