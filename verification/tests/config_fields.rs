use icm40627::config::{I2CSlewRate, SpiMode, SpiSlewRate, SpiWireCount};
use icm40627::field::merge;
use icm40627::register::{Bank0, Bank1, Register};
use icm40627::{
    AccLpAvg, AccelDlpfBw, AccelOdr, AccelRange, Address, Bitfield, Error, GyroLpFiltBw, GyroOdr,
    GyroRange, PowerMode, SensorError, SoftReset, TempDlpfBw,
};

#[test]
fn register_addresses() {
    assert_eq!(Bank0::WHO_AM_I.addr(), 0x75);
    assert_eq!(Bank0::TEMP_DATA1.addr(), 0x1D);
    assert_eq!(Bank0::GYRO_DATA_X1.addr(), 0x25);
    assert_eq!(Bank0::PWR_MGMT0.addr(), 0x4E);
    assert_eq!(Bank0::GYRO_CONFIG0.addr(), 0x4F);
    assert_eq!(Bank0::ACCEL_CONFIG0.addr(), 0x50);
    assert_eq!(Bank0::SELF_TEST_CONFIG.addr(), 0x70);
    assert_eq!(Bank1::INTF_CONFIG4.addr(), 0x7A);
}

#[test]
fn read_only_registers() {
    assert!(Bank0::WHO_AM_I.read_only());
    assert!(Bank0::TEMP_DATA1.read_only());
    assert!(Bank0::GYRO_DATA_Z0.read_only());
    assert!(!Bank0::PWR_MGMT0.read_only());
    assert!(!Bank0::SELF_TEST_CONFIG.read_only());
    assert!(!Bank1::INTF_CONFIG4.read_only());
}

#[test]
fn addresses() {
    assert_eq!(Address::Primary.addr(), 0b1101000);
    assert_eq!(Address::Secondary.addr(), 0b1101001);
}

#[test]
fn defaults() {
    assert_eq!(AccelRange::default(), AccelRange::G16);
    assert_eq!(GyroRange::default(), GyroRange::Deg2000);
    assert_eq!(PowerMode::default(), PowerMode::Sleep);
    assert_eq!(AccelOdr::default(), AccelOdr::Hz1000);
    assert_eq!(GyroOdr::default(), GyroOdr::Hz1000);
    assert_eq!(AccLpAvg::default(), AccLpAvg::X1);
}

#[test]
fn accel_range_encoding() {
    assert_eq!(AccelRange::G2.bits(), 0b0110_0000);
    assert_eq!(AccelRange::G4.bits(), 0b0100_0000);
    assert_eq!(AccelRange::G8.bits(), 0b0010_0000);
    assert_eq!(AccelRange::G16.bits(), 0);
    assert_eq!(AccelRange::bitmask(), 0b1110_0000);
    assert_eq!(AccelRange::register(), Bank0::ACCEL_CONFIG0);
    assert_eq!(AccelRange::try_from(3u8), Ok(AccelRange::G2));
    assert_eq!(AccelRange::try_from(0u8), Ok(AccelRange::G16));
    assert_eq!(AccelRange::try_from(4u8), Err(SensorError::InvalidDiscriminant));
}

#[test]
fn gyro_range_encoding() {
    assert_eq!(GyroRange::Deg15_625.bits(), 0b1110_0000);
    assert_eq!(GyroRange::Deg250.bits(), 0b0110_0000);
    assert_eq!(GyroRange::Deg2000.bits(), 0);
    assert_eq!(GyroRange::register(), Bank0::GYRO_CONFIG0);
    assert_eq!(GyroRange::try_from(0u8), Ok(GyroRange::Deg2000));
    assert_eq!(GyroRange::try_from(3u8), Ok(GyroRange::Deg250));
    assert_eq!(GyroRange::try_from(4u8), Ok(GyroRange::Deg125));
    assert_eq!(GyroRange::try_from(7u8), Ok(GyroRange::Deg15_625));
    assert_eq!(GyroRange::try_from(8u8), Err(SensorError::InvalidDiscriminant));
}

#[test]
fn power_mode_encoding() {
    assert_eq!(PowerMode::Idle.bits(), 0b0001_0000);
    assert_eq!(PowerMode::SixAxisLowNoise.bits(), 0b0000_1111);
    assert_eq!(PowerMode::SixAxisLowNoiseWithoutTemperature.bits(), 0b0010_1111);
    assert_eq!(PowerMode::bitmask(), 0b0011_1111);
    assert_eq!(PowerMode::try_from(0b0000_1100u8), Ok(PowerMode::GyroLowNoise));
    assert_eq!(PowerMode::try_from(0b0010_1111u8), Ok(PowerMode::SixAxisLowNoiseWithoutTemperature));
    assert_eq!(PowerMode::try_from(0b0000_0001u8), Err(SensorError::InvalidDiscriminant));
}

#[test]
fn odr_encoding() {
    assert_eq!(AccelOdr::Hz500.bits(), 0b1111);
    assert_eq!(AccelOdr::Hz1_5625.bits(), 0b1110);
    assert_eq!(AccelOdr::try_from(0b1110u8), Ok(AccelOdr::Hz1_5625));
    assert_eq!(AccelOdr::try_from(0u8), Err(SensorError::InvalidDiscriminant));
    assert_eq!(GyroOdr::Hz12_5.bits(), 0b1011);
    assert_eq!(GyroOdr::try_from(0b1100u8), Err(SensorError::InvalidDiscriminant));
    assert_eq!(GyroOdr::try_from(0b0011u8), Ok(GyroOdr::Hz8000));
}

#[test]
fn other_fields() {
    assert_eq!(AccLpAvg::X16.bits(), 0b0110_0000);
    assert_eq!(AccLpAvg::register(), Bank0::GYRO_ACCEL_CONFIG0);
    assert_eq!(AccelDlpfBw::Hz16.bits(), 0b0000_0111);
    assert_eq!(AccelDlpfBw::register(), Bank0::ACCEL_CONFIG1);
    assert_eq!(TempDlpfBw::Hz4.bits(), 0b1100_0000);
    assert_eq!(TempDlpfBw::register(), Bank0::GYRO_CONFIG1);
    assert_eq!(GyroLpFiltBw::Hz73.bits(), 0b0000_0011);
    assert_eq!(GyroLpFiltBw::bitmask(), 0b0000_0111);
    assert_eq!(SoftReset.bits(), 0b0000_1000);
    assert_eq!(SoftReset::register(), Bank0::SIGNAL_PATH_RESET);
    assert_eq!(SpiWireCount::FourWire.bits(), 0b0000_0010);
    assert_eq!(SpiWireCount::register(), Bank1::INTF_CONFIG4);
    assert_eq!(SpiMode::Mode1And2.bits(), 1);
    assert_eq!(I2CSlewRate::M2.bits(), 0b0010_1000);
    assert_eq!(I2CSlewRate::bitmask(), 0b0011_1000);
    assert_eq!(SpiSlewRate::M2.bits(), 0b0000_0101);
}

#[test]
fn scale_factors_and_rates() {
    assert_eq!(AccelRange::G2.scale_factor_milli(), 16_384_000);
    assert_eq!(AccelRange::G16.scale_factor_milli(), 2_048_000);
    assert_eq!(GyroRange::Deg15_625.scale_factor_milli(), 2_097_152);
    assert_eq!(GyroRange::Deg250.scale_factor_milli(), 131_072);
    assert_eq!(GyroRange::Deg2000.scale_factor_milli(), 16_384);
    assert_eq!(AccelOdr::Hz8000.as_micro_hz(), 8_000_000_000);
    assert_eq!(AccelOdr::Hz500.as_micro_hz(), 500_000_000);
    assert_eq!(AccelOdr::Hz1_5625.as_micro_hz(), 1_562_500);
    assert_eq!(GyroOdr::Hz12_5.as_micro_hz(), 12_500_000);
}

#[test]
fn merge_keeps_other_bits() {
    assert_eq!(merge(0xFF, 0b1110_0000, 0b0010_0000), 0b0011_1111);
    assert_eq!(merge(0x00, 0b0000_1111, 0xFF), 0x0F);
    assert_eq!(merge(0b1010_1010, 0b0011_1111, 0b0000_1111), 0b1000_1111);
}

#[test]
fn settings_read_back() {
    for current in [0x00u8, 0x5A, 0xA5, 0xFF] {
        for range in [AccelRange::G2, AccelRange::G4, AccelRange::G8, AccelRange::G16] {
            let reg = merge(current, AccelRange::bitmask(), range.bits());
            assert_eq!(AccelRange::from_register(reg), Ok(range));
        }
        for odr in [AccelOdr::Hz8000, AccelOdr::Hz500, AccelOdr::Hz1_5625] {
            let reg = merge(current, AccelOdr::bitmask(), odr.bits());
            assert_eq!(AccelOdr::from_register(reg), Ok(odr));
            // Setting the rate leaves the range as it was.
            assert_eq!(AccelRange::from_register(reg), AccelRange::from_register(current));
        }
        for range in [
            GyroRange::Deg15_625, GyroRange::Deg31_25, GyroRange::Deg62_5, GyroRange::Deg125,
            GyroRange::Deg250, GyroRange::Deg500, GyroRange::Deg1000, GyroRange::Deg2000,
        ] {
            let reg = merge(current, GyroRange::bitmask(), range.bits());
            assert_eq!(GyroRange::from_register(reg), Ok(range));
        }
        let reg = merge(current, GyroOdr::bitmask(), GyroOdr::Hz25.bits());
        assert_eq!(GyroOdr::from_register(reg), Ok(GyroOdr::Hz25));
        for mode in [
            PowerMode::Sleep, PowerMode::Idle, PowerMode::Standby, PowerMode::AccelLowPower,
            PowerMode::AccelLowNoise, PowerMode::GyroLowNoise, PowerMode::SixAxisLowNoise,
            PowerMode::SixAxisLowNoiseWithoutTemperature,
        ] {
            let reg = merge(current, PowerMode::bitmask(), mode.bits());
            assert_eq!(PowerMode::from_register(reg), Ok(mode));
        }
    }
}

#[test]
fn register_fields_decode() {
    assert_eq!(AccelRange::from_register(0b0100_0110), Ok(AccelRange::G4));
    assert_eq!(AccelRange::from_register(0b1000_0000), Err(SensorError::InvalidDiscriminant));
    assert_eq!(AccelOdr::from_register(0b0110_0110), Ok(AccelOdr::Hz1000));
    assert_eq!(GyroOdr::from_register(0b0000_0000), Err(SensorError::InvalidDiscriminant));
    assert_eq!(PowerMode::from_register(0b1100_0011), Ok(PowerMode::AccelLowNoise));
    assert_eq!(PowerMode::from_register(0b1101_0000), Ok(PowerMode::Idle));
    assert_eq!(PowerMode::from_register(0b0010_0011), Ok(PowerMode::AccelLowNoise));
    assert_eq!(PowerMode::from_register(0x1F), Ok(PowerMode::SixAxisLowNoise));
    assert_eq!(PowerMode::from_register(0x13), Ok(PowerMode::AccelLowNoise));
    assert_eq!(PowerMode::from_register(0b0011_0001), Err(SensorError::InvalidDiscriminant));
    assert_eq!(GyroRange::from_register(0b1010_0110), Ok(GyroRange::Deg62_5));
    assert_eq!(PowerMode::from_register(0b0000_0001), Err(SensorError::InvalidDiscriminant));
}

#[test]
fn sensor_error_converts() {
    let e: Error<()> = Error::from(SensorError::BadChip);
    assert_eq!(e, Error::SensorError(SensorError::BadChip));
}

#[test]
fn repeated_and_overwritten_updates() {
    for current in [0x00u8, 0x3C, 0xFF] {
        let once = merge(current, GyroOdr::bitmask(), GyroOdr::Hz200.bits());
        assert_eq!(merge(once, GyroOdr::bitmask(), GyroOdr::Hz200.bits()), once);
        let twice = merge(once, GyroOdr::bitmask(), GyroOdr::Hz50.bits());
        assert_eq!(twice, merge(current, GyroOdr::bitmask(), GyroOdr::Hz50.bits()));
    }
}

#[test]
fn gyro_config_fields_independent() {
    let current = 0b0110_1001u8;
    let reg = merge(current, GyroOdr::bitmask(), GyroOdr::Hz8000.bits());
    assert_eq!(GyroRange::from_register(reg), Ok(GyroRange::Deg250));
    assert_eq!(GyroOdr::from_register(reg), Ok(GyroOdr::Hz8000));
    let reg = merge(current, GyroRange::bitmask(), GyroRange::Deg1000.bits());
    assert_eq!(GyroOdr::from_register(reg), Ok(GyroOdr::Hz50));
    assert_eq!(GyroRange::from_register(reg), Ok(GyroRange::Deg1000));
}
