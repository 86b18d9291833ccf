use icm40627::measure::{decode_measurement, decode_ranges};
use icm40627::register::Bank0;
use icm40627::startup::is_device_id;
use icm40627::words::{decode_triplet, decode_word, word_from_be_bytes};
use icm40627::{
    AccelRange, Address, Axis, Icm42627, DEVICE_IDS, GyroRange, Next, PowerMode, SensorError, SoftReset, Stage, Startup,
    Transfer, Update, Vector,
};

#[test]
fn words_are_big_endian_twos_complement() {
    assert_eq!(word_from_be_bytes(0x12, 0x34), 0x1234);
    assert_eq!(word_from_be_bytes(0xFF, 0xFE), -2);
    assert_eq!(word_from_be_bytes(0x80, 0x00), i16::MIN);
    assert_eq!(word_from_be_bytes(0x7F, 0xFF), i16::MAX);
    assert_eq!(decode_word(&[0x01, 0x00]), 256);
    assert_eq!(decode_triplet(&[0x00, 0x01, 0xFF, 0xFF, 0x80, 0x01]), (1, -1, -32767));
}

#[test]
fn measurement_layout() {
    let bytes = [0x00, 0x10, 0x01, 0x00, 0x02, 0x00, 0xFF, 0x00, 0x00, 0x05, 0x00, 0x06, 0xFF, 0xF9];
    let (accel, gyro, temp) = decode_measurement(&bytes);
    assert_eq!(temp, 16);
    assert_eq!(accel, [256, 512, -256]);
    assert_eq!(gyro, [5, 6, -7]);
}

#[test]
fn ranges_decode_gyro_first() {
    assert_eq!(decode_ranges(&[0x00, 0x60]), Ok((GyroRange::Deg2000, AccelRange::G2)));
    assert_eq!(decode_ranges(&[0x66, 0x26]), Ok((GyroRange::Deg250, AccelRange::G8)));
    assert_eq!(decode_ranges(&[0x80, 0x00]), Ok((GyroRange::Deg125, AccelRange::G16)));
    assert_eq!(decode_ranges(&[0xE0, 0x80]), Err(SensorError::InvalidDiscriminant));
    assert_eq!(decode_ranges(&[0x00, 0x80]), Err(SensorError::InvalidDiscriminant));
}

#[test]
fn vector_components() {
    let v: [i16; 3] = [1, -2, 3];
    assert_eq!(*v.x(), 1);
    assert_eq!(*v.y(), -2);
    assert_eq!(*v.z(), 3);
    assert_eq!(*v.component(Axis::Y), -2);
    assert_eq!(Axis::Z.position(), 2);
    let mut w: [i16; 3] = [1, -2, 3];
    *w.component_mut(Axis::Z) = 7;
    assert_eq!(w, [1, -2, 7]);
}

#[test]
fn device_ids() {
    assert!(is_device_id(0x20));
    assert!(is_device_id(0x4E));
    assert!(!is_device_id(0x67));
    assert!(!is_device_id(0x00));
    assert_eq!(Icm42627::<()>::DEVICE_IDS, [0x20, 0x4E]);
    assert_eq!(DEVICE_IDS, [0x20, 0x4E]);
}

#[test]
fn startup_sequence() {
    let (mut s, first) = Startup::begin(7u32, Address::Primary);
    assert_eq!(first, Transfer::Read { address: 0x68, register: 0x75, len: 1 });
    assert_eq!(s.stage(), Stage::CheckId);
    assert_eq!(
        s.on_read(0x4E),
        Next::Transfer(Transfer::Read { address: 0x68, register: 0x50, len: 1 })
    );
    assert_eq!(
        s.on_read(0xFF),
        Next::Transfer(Transfer::Write { address: 0x68, register: 0x50, value: 0x1F })
    );
    assert_eq!(
        s.on_written(),
        Next::Transfer(Transfer::Read { address: 0x68, register: 0x4F, len: 1 })
    );
    assert_eq!(
        s.on_read(0xE3),
        Next::Transfer(Transfer::Write { address: 0x68, register: 0x4F, value: 0x03 })
    );
    assert_eq!(
        s.on_written(),
        Next::Transfer(Transfer::Read { address: 0x68, register: 0x4E, len: 1 })
    );
    assert_eq!(
        s.on_read(0xC0),
        Next::Transfer(Transfer::Write { address: 0x68, register: 0x4E, value: 0xCF })
    );
    assert_eq!(
        s.on_written(),
        Next::Transfer(Transfer::Write { address: 0x68, register: 0x70, value: 0x07 })
    );
    assert_eq!(s.on_written(), Next::Ready);
    assert_eq!(s.stage(), Stage::Ready);
    *s.bus_mut() = 9;
    let driver = s.finish();
    assert_eq!(driver.address(), Address::Primary);
    assert_eq!(driver.destroy(), 9);
}

#[test]
fn startup_refuses_unknown_chip() {
    let (mut s, first) = Startup::begin((), Address::Secondary);
    assert_eq!(first, Transfer::Read { address: 0x69, register: 0x75, len: 1 });
    assert_eq!(s.on_read(0x67), Next::Failed(SensorError::BadChip));
    assert_eq!(s.stage(), Stage::Failed);
}

#[test]
fn register_transfers() {
    let (mut s, _) = Startup::begin((), Address::Primary);
    let _ = s.on_read(0x20);
    let _ = s.on_read(0);
    let _ = s.on_written();
    let _ = s.on_read(0);
    let _ = s.on_written();
    let _ = s.on_read(0);
    let _ = s.on_written();
    let _ = s.on_written();
    let driver = s.finish();
    assert_eq!(
        driver.read_transfer(&Bank0::TEMP_DATA1, 14),
        Transfer::Read { address: 0x68, register: 0x1D, len: 14 }
    );
    assert_eq!(
        driver.write_transfer(&Bank0::SELF_TEST_CONFIG, 0x03),
        Ok(Transfer::Write { address: 0x68, register: 0x70, value: 0x03 })
    );
    assert_eq!(
        driver.write_transfer(&Bank0::WHO_AM_I, 0x03),
        Err(SensorError::WriteToReadOnly)
    );
    let update = driver.update(SoftReset).unwrap();
    assert_eq!(update, Update { address: 0x68, register: 0x4B, mask: 0b1000, bits: 0b1000 });
    assert_eq!(update.read(), Transfer::Read { address: 0x68, register: 0x4B, len: 1 });
    assert_eq!(
        update.write(0b0000_0110),
        Transfer::Write { address: 0x68, register: 0x4B, value: 0b0000_1110 }
    );
    let update = driver.update(PowerMode::AccelLowPower).unwrap();
    assert_eq!(
        update.write(0b1111_1111),
        Transfer::Write { address: 0x68, register: 0x4E, value: 0b1100_0010 }
    );
}

#[test]
fn read_plans() {
    let (mut s, _) = Startup::begin((), Address::Secondary);
    let _ = s.on_read(0x4E);
    let _ = s.on_read(0);
    let _ = s.on_written();
    let _ = s.on_read(0);
    let _ = s.on_written();
    let _ = s.on_read(0);
    let _ = s.on_written();
    let _ = s.on_written();
    let d = s.finish();
    let read = |register: u8, len: usize| Transfer::Read { address: 0x69, register, len };
    assert_eq!(d.field_read::<AccelRange>(), read(0x50, 1));
    assert_eq!(d.field_read::<GyroRange>(), read(0x4F, 1));
    assert_eq!(d.field_read::<PowerMode>(), read(0x4E, 1));
    assert_eq!(d.field_read::<icm40627::AccelOdr>(), read(0x50, 1));
    assert_eq!(d.field_read::<icm40627::GyroOdr>(), read(0x4F, 1));
    assert_eq!(d.device_id_read(), read(0x75, 1));
    assert_eq!(d.gyro_raw_read(), read(0x25, 6));
    assert_eq!(d.temperature_raw_read(), read(0x1D, 2));
    assert_eq!(d.measure_raw_read(), read(0x1D, 14));
    assert_eq!(d.ranges_read(), read(0x4F, 2));
    assert_eq!(
        d.self_test_write(0x07),
        Ok(Transfer::Write { address: 0x69, register: 0x70, value: 0x07 })
    );
    // The field read targets the register that the update writes.
    let update = d.update(GyroRange::Deg31_25).unwrap();
    assert_eq!(update.read(), d.field_read::<GyroRange>());
}
