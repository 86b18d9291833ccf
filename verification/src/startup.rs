//! Bringing the device up: the start-up sequence as a state machine.
//!
//! The driver is first checked to talk to a supported chip; then the
//! accelerometer and gyroscope ranges are restored to their defaults, both
//! sensors are switched on in low-noise mode (the device sleeps by default),
//! and the self-test configuration is written. Each step asks for one bus
//! transfer; the caller carries it out and reports back.

use vstd::prelude::*;

use crate::config::{AccelRange, Address, Bitfield, GyroRange, PowerMode};
use crate::driver::{Icm42627, Transfer};
use crate::error::SensorError;
use crate::field::{
    lemma_accel_range_read_back, lemma_gyro_range_read_back, lemma_power_mode_read_back,
    lemma_update_frame, merged,
};
use crate::register::{Bank0, Register};

verus! {

/// `WHO_AM_I` values for 42627 and 40627
pub const DEVICE_IDS: [u8; 2] = [0x20, 0x4E];

/// The self-test configuration written at start-up.
pub const SELF_TEST_BITS: u8 = 0x07;

pub open spec fn spec_is_device_id(id: u8) -> bool {
    id == 0x20 || id == 0x4E
}

/// Whether `id` is the identity of a supported chip.
pub fn is_device_id(id: u8) -> (b: bool)
    ensures
        b == spec_is_device_id(id),
{
    let ids = DEVICE_IDS;
    assert(ids@ =~= seq![0x20u8, 0x4Eu8]);
    let mut i: usize = 0;
    while i < 2
        invariant
            0 <= i <= 2,
            ids@ == seq![0x20u8, 0x4Eu8],
            forall|j: int| 0 <= j < i ==> ids@[j] != id,
        decreases 2 - i,
    {
        if ids[i] == id {
            return true;
        }
        i = i + 1;
    }
    false
}

/// Where the start-up sequence stands.
#[derive(Clone, Copy, Debug, PartialEq, Eq, Structural)]
pub enum Stage {
    /// Waiting for the value of `WHO_AM_I`.
    CheckId,
    /// Waiting for the value of `ACCEL_CONFIG0`.
    ReadAccelConfig,
    /// Waiting for the write of `ACCEL_CONFIG0`.
    WriteAccelConfig,
    /// Waiting for the value of `GYRO_CONFIG0`.
    ReadGyroConfig,
    /// Waiting for the write of `GYRO_CONFIG0`.
    WriteGyroConfig,
    /// Waiting for the value of `PWR_MGMT0`.
    ReadPowerConfig,
    /// Waiting for the write of `PWR_MGMT0`.
    WritePowerConfig,
    /// Waiting for the write of `SELF_TEST_CONFIG`.
    WriteSelfTest,
    /// The device is up.
    Ready,
    /// The sequence stopped on an error.
    Failed,
}

impl Stage {
    /// Whether the stage waits for a value read from the bus.
    pub open spec fn spec_awaits_read(self) -> bool {
        ||| self == Stage::CheckId
        ||| self == Stage::ReadAccelConfig
        ||| self == Stage::ReadGyroConfig
        ||| self == Stage::ReadPowerConfig
    }

    /// Whether the stage waits for a write to complete.
    pub open spec fn spec_awaits_write(self) -> bool {
        ||| self == Stage::WriteAccelConfig
        ||| self == Stage::WriteGyroConfig
        ||| self == Stage::WritePowerConfig
        ||| self == Stage::WriteSelfTest
    }

    pub fn awaits_read(&self) -> (b: bool)
        ensures
            b == self.spec_awaits_read(),
    {
        match self {
            Stage::CheckId | Stage::ReadAccelConfig | Stage::ReadGyroConfig
            | Stage::ReadPowerConfig => true,
            _ => false,
        }
    }

    pub fn awaits_write(&self) -> (b: bool)
        ensures
            b == self.spec_awaits_write(),
    {
        match self {
            Stage::WriteAccelConfig | Stage::WriteGyroConfig | Stage::WritePowerConfig
            | Stage::WriteSelfTest => true,
            _ => false,
        }
    }
}

/// What the start-up sequence asks for next.
#[derive(Clone, Copy, Debug, PartialEq, Eq, Structural)]
pub enum Next {
    /// Carry out this transfer and report back.
    Transfer(Transfer),
    /// The device is up.
    Ready,
    /// The device cannot be brought up.
    Failed(SensorError),
}

pub open spec fn read_of(address: u8, reg: Bank0) -> Next {
    Next::Transfer(Transfer::Read { address, register: reg.spec_addr(), len: 1 })
}

pub open spec fn update_of<BF: Bitfield<Reg = Bank0>>(address: u8, current: u8, value: BF) -> Next {
    Next::Transfer(
        Transfer::Write {
            address,
            register: BF::spec_register().spec_addr(),
            value: merged(current, BF::spec_bitmask(), value.spec_bits()),
        },
    )
}

/// The step taken when the value of a register has been read.
pub open spec fn read_step(stage: Stage, address: u8, value: u8) -> (Stage, Next) {
    match stage {
        Stage::CheckId => if spec_is_device_id(value) {
            (Stage::ReadAccelConfig, read_of(address, Bank0::ACCEL_CONFIG0))
        } else {
            (Stage::Failed, Next::Failed(SensorError::BadChip))
        },
        Stage::ReadAccelConfig => (
            Stage::WriteAccelConfig,
            update_of(address, value, AccelRange::G16),
        ),
        Stage::ReadGyroConfig => (
            Stage::WriteGyroConfig,
            update_of(address, value, GyroRange::Deg2000),
        ),
        _ => (
            Stage::WritePowerConfig,
            update_of(address, value, PowerMode::SixAxisLowNoise),
        ),
    }
}

/// The step taken when a write has completed.
pub open spec fn written_step(stage: Stage, address: u8) -> (Stage, Next) {
    match stage {
        Stage::WriteAccelConfig => (Stage::ReadGyroConfig, read_of(address, Bank0::GYRO_CONFIG0)),
        Stage::WriteGyroConfig => (Stage::ReadPowerConfig, read_of(address, Bank0::PWR_MGMT0)),
        Stage::WritePowerConfig => (
            Stage::WriteSelfTest,
            Next::Transfer(
                Transfer::Write {
                    address,
                    register: Bank0::SELF_TEST_CONFIG.spec_addr(),
                    value: SELF_TEST_BITS,
                },
            ),
        ),
        _ => (Stage::Ready, Next::Ready),
    }
}

/// Whether a step's outcome agrees with the stage it leaves: a transfer is
/// asked for only from a stage that waits for it, `Ready` only from the ready
/// stage, a failure only from the failed stage.
pub open spec fn consistent(step: (Stage, Next)) -> bool {
    match step.1 {
        Next::Transfer(_) => step.0.spec_awaits_read() || step.0.spec_awaits_write(),
        Next::Ready => step.0 == Stage::Ready,
        Next::Failed(_) => step.0 == Stage::Failed,
    }
}

/// Every step of the sequence leaves a stage that agrees with what it asks
/// for: after a transfer is asked for, the next report is always accepted;
/// after `Ready` the driver can be taken out.
pub proof fn lemma_startup_steps(stage: Stage, address: u8, value: u8)
    ensures
        stage.spec_awaits_read() ==> consistent(read_step(stage, address, value)),
        stage.spec_awaits_write() ==> consistent(written_step(stage, address)),
{
}

/// A driver on its way up.
pub struct Startup<I2C> {
    driver: Icm42627<I2C>,
    stage: Stage,
}

impl<I2C> Startup<I2C> {
    pub closed spec fn spec_stage(&self) -> Stage {
        self.stage
    }

    pub closed spec fn spec_driver(&self) -> Icm42627<I2C> {
        self.driver
    }

    /// The state after a report: `Some(value)` for a value read, `None` for a
    /// completed write.
    pub closed spec fn after_report(self, report: Option<u8>) -> Self {
        match report {
            Some(value) => Startup {
                driver: self.driver,
                stage: read_step(self.stage, self.spec_address(), value).0,
            },
            None => Startup {
                driver: self.driver,
                stage: written_step(self.stage, self.spec_address()).0,
            },
        }
    }

    /// The state after the reports, taken in order.
    pub open spec fn after_reports(self, reports: Seq<Option<u8>>) -> Self
        decreases reports.len(),
    {
        if reports.len() == 0 {
            self
        } else {
            self.after_report(reports[0]).after_reports(reports.drop_first())
        }
    }

    /// A report moves the stage by one step and leaves the driver as it was.
    pub proof fn lemma_after_report(self, report: Option<u8>)
        ensures
            self.after_report(report).spec_driver() == self.spec_driver(),
            self.after_report(report).spec_stage() == match report {
                Some(value) => read_step(self.spec_stage(), self.spec_address(), value).0,
                None => written_step(self.spec_stage(), self.spec_address()).0,
            },
    {
    }

    /// However many steps the sequence takes, the driver, its bus and its
    /// address included, stays the one it was started with: the bus changes
    /// only through what the caller does with `bus_mut`.
    pub proof fn lemma_startup_keeps_driver(self, reports: Seq<Option<u8>>)
        ensures
            self.after_reports(reports).spec_driver() == self.spec_driver(),
        decreases reports.len(),
    {
        if reports.len() > 0 {
            self.lemma_after_report(reports[0]);
            self.after_report(reports[0]).lemma_startup_keeps_driver(reports.drop_first());
        }
    }

    /// The device address that the sequence talks to.
    pub open spec fn spec_address(&self) -> u8 {
        self.spec_driver().spec_address().spec_addr()
    }

    /// Starts bringing up the device at `address` on `i2c`: the first step
    /// reads the identity register.
    pub fn begin(i2c: I2C, address: Address) -> (r: (Self, Transfer))
        ensures
            r.0.spec_stage() == Stage::CheckId,
            r.0.spec_driver().bus() == i2c,
            r.0.spec_driver().spec_address() == address,
            Next::Transfer(r.1) == read_of(address.spec_addr(), Bank0::WHO_AM_I),
    {
        let driver = Icm42627::assemble(i2c, address);
        // Verify that the device has the correct ID before continuing. If the ID does
        // not match either of the expected values then it is likely the wrong chip is
        // connected.
        let first = driver.read_transfer(&Bank0::WHO_AM_I, 1);
        (Startup { driver, stage: Stage::CheckId }, first)
    }

    pub fn stage(&self) -> (s: Stage)
        ensures
            s == self.spec_stage(),
    {
        self.stage
    }

    /// The bus, to carry out the transfers that the sequence asks for.
    pub fn bus_mut(&mut self) -> (b: &mut I2C)
        ensures
            *b == old(self).spec_driver().bus(),
            final(self).spec_driver().bus() == *final(b),
            final(self).spec_driver().spec_address() == old(self).spec_driver().spec_address(),
            final(self).spec_stage() == old(self).spec_stage(),
    {
        self.driver.bus_mut()
    }

    /// Takes in the value read by the transfer that was asked for last.
    pub fn on_read(&mut self, value: u8) -> (next: Next)
        requires
            old(self).spec_stage().spec_awaits_read(),
        ensures
            (final(self).spec_stage(), next) == read_step(
                old(self).spec_stage(),
                old(self).spec_address(),
                value,
            ),
            final(self).spec_driver() == old(self).spec_driver(),
            *final(self) == old(self).after_report(Some(value)),
    {
        let (stage, next) = match self.stage {
            Stage::CheckId => {
                if !is_device_id(value) {
                    (Stage::Failed, Next::Failed(SensorError::BadChip))
                } else {
                    // Make sure that any configuration has been restored to the default
                    // values when initializing the driver.
                    match self.driver.update(AccelRange::default()) {
                        Ok(update) => (Stage::ReadAccelConfig, Next::Transfer(update.read())),
                        Err(e) => (Stage::Failed, Next::Failed(e)),
                    }
                }
            },
            Stage::ReadAccelConfig => match self.driver.update(AccelRange::default()) {
                Ok(update) => (Stage::WriteAccelConfig, Next::Transfer(update.write(value))),
                Err(e) => (Stage::Failed, Next::Failed(e)),
            },
            Stage::ReadGyroConfig => match self.driver.update(GyroRange::default()) {
                Ok(update) => (Stage::WriteGyroConfig, Next::Transfer(update.write(value))),
                Err(e) => (Stage::Failed, Next::Failed(e)),
            },
            _ => match self.driver.update(PowerMode::SixAxisLowNoise) {
                Ok(update) => (Stage::WritePowerConfig, Next::Transfer(update.write(value))),
                Err(e) => (Stage::Failed, Next::Failed(e)),
            },
        };
        self.stage = stage;
        next
    }

    /// Takes note that the write that was asked for last has completed.
    pub fn on_written(&mut self) -> (next: Next)
        requires
            old(self).spec_stage().spec_awaits_write(),
        ensures
            (final(self).spec_stage(), next) == written_step(
                old(self).spec_stage(),
                old(self).spec_address(),
            ),
            final(self).spec_driver() == old(self).spec_driver(),
            *final(self) == old(self).after_report(None),
    {
        let (stage, next) = match self.stage {
            Stage::WriteAccelConfig => match self.driver.update(GyroRange::default()) {
                Ok(update) => (Stage::ReadGyroConfig, Next::Transfer(update.read())),
                Err(e) => (Stage::Failed, Next::Failed(e)),
            },
            Stage::WriteGyroConfig => {
                // The IMU uses `PowerMode::Sleep` by default, which disables both the
                // accel and gyro, so we enable them both during driver initialization.
                match self.driver.update(PowerMode::SixAxisLowNoise) {
                    Ok(update) => (Stage::ReadPowerConfig, Next::Transfer(update.read())),
                    Err(e) => (Stage::Failed, Next::Failed(e)),
                }
            },
            Stage::WritePowerConfig => match self.driver.write_transfer(
                &Bank0::SELF_TEST_CONFIG,
                SELF_TEST_BITS,
            ) {
                Ok(t) => (Stage::WriteSelfTest, Next::Transfer(t)),
                Err(e) => (Stage::Failed, Next::Failed(e)),
            },
            _ => (Stage::Ready, Next::Ready),
        };
        self.stage = stage;
        next
    }

    /// The driver, once the device is up.
    pub fn finish(self) -> (driver: Icm42627<I2C>)
        requires
            self.spec_stage() == Stage::Ready,
        ensures
            driver == self.spec_driver(),
    {
        self.driver
    }
}

/// An identity of no supported chip stops the sequence with `BadChip`
/// before anything is written.
pub proof fn lemma_startup_refuses_unknown_chip(address: u8, id: u8)
    requires
        !spec_is_device_id(id),
    ensures
        read_step(Stage::CheckId, address, id) == (Stage::Failed, Next::Failed(SensorError::BadChip)),
{
}

/// On a supported chip, whatever the configuration registers held, the
/// sequence reads and rewrites `ACCEL_CONFIG0`, `GYRO_CONFIG0` and
/// `PWR_MGMT0` in that order, writes `SELF_TEST_CONFIG`, and ends ready; the
/// values written restore the default ranges, keep every bit outside the
/// fields, and read back as the low-noise six-axis power mode.
pub proof fn lemma_startup_sequence(address: u8, id: u8, accel: u8, gyro: u8, power: u8)
    requires
        spec_is_device_id(id),
    ensures
        ({
            let s1 = read_step(Stage::CheckId, address, id);
            let s2 = read_step(s1.0, address, accel);
            let s3 = written_step(s2.0, address);
            let s4 = read_step(s3.0, address, gyro);
            let s5 = written_step(s4.0, address);
            let s6 = read_step(s5.0, address, power);
            let s7 = written_step(s6.0, address);
            let s8 = written_step(s7.0, address);
            let accel_new = merged(accel, 0b1110_0000, 0);
            let gyro_new = merged(gyro, 0b1110_0000, 0);
            let power_new = merged(power, 0b0011_1111, 0b0000_1111);
            &&& s1 == (Stage::ReadAccelConfig, read_of(address, Bank0::ACCEL_CONFIG0))
            &&& s2 == (Stage::WriteAccelConfig, Next::Transfer(
                Transfer::Write { address, register: 0x50, value: accel_new },
            ))
            &&& s3 == (Stage::ReadGyroConfig, read_of(address, Bank0::GYRO_CONFIG0))
            &&& s4 == (Stage::WriteGyroConfig, Next::Transfer(
                Transfer::Write { address, register: 0x4F, value: gyro_new },
            ))
            &&& s5 == (Stage::ReadPowerConfig, read_of(address, Bank0::PWR_MGMT0))
            &&& s6 == (Stage::WritePowerConfig, Next::Transfer(
                Transfer::Write { address, register: 0x4E, value: power_new },
            ))
            &&& s7 == (Stage::WriteSelfTest, Next::Transfer(
                Transfer::Write { address, register: 0x70, value: 0x07 },
            ))
            &&& s8 == (Stage::Ready, Next::Ready)
            &&& AccelRange::spec_from_register(accel_new) == Ok::<AccelRange, SensorError>(
                AccelRange::G16,
            )
            &&& GyroRange::spec_from_register(gyro_new) == Ok::<GyroRange, SensorError>(
                GyroRange::Deg2000,
            )
            &&& PowerMode::spec_from_register(power_new) == Ok::<PowerMode, SensorError>(
                PowerMode::SixAxisLowNoise,
            )
            &&& accel_new & 0b0001_1111 == accel & 0b0001_1111
            &&& gyro_new & 0b0001_1111 == gyro & 0b0001_1111
            &&& power_new & 0b1100_0000 == power & 0b1100_0000
        }),
{
    lemma_accel_range_read_back(accel, AccelRange::G16);
    lemma_gyro_range_read_back(gyro, GyroRange::Deg2000);
    lemma_power_mode_read_back(power, PowerMode::SixAxisLowNoise);
    assert(0b1110_0000u8 & 0b0001_1111u8 == 0) by (bit_vector);
    assert(0b0011_1111u8 & 0b1100_0000u8 == 0) by (bit_vector);
    lemma_update_frame(accel, 0b1110_0000, 0, 0b0001_1111);
    lemma_update_frame(gyro, 0b1110_0000, 0, 0b0001_1111);
    lemma_update_frame(power, 0b0011_1111, 0b0000_1111, 0b1100_0000);
}

} // verus!
