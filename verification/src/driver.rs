//! The driver: its state, and the bus transfers that each operation asks for.

use vstd::prelude::*;

use crate::config::{AccelOdr, AccelRange, Address, Bitfield, GyroOdr, GyroRange, PowerMode};
use crate::error::SensorError;
use crate::field::{
    lemma_accel_odr_read_back, lemma_accel_range_read_back, lemma_gyro_odr_read_back,
    lemma_gyro_range_read_back, lemma_power_mode_read_back, merge, merged,
};
use crate::register::{Bank0, Register};
use crate::startup::DEVICE_IDS;

verus! {

/// One transfer on the I²C bus.
#[derive(Clone, Copy, Debug, PartialEq, Eq, Structural)]
pub enum Transfer {
    /// Send the register address, then read `len` bytes from consecutive
    /// registers starting at it.
    Read { address: u8, register: u8, len: usize },
    /// Send the register address, then the value to store in it.
    Write { address: u8, register: u8, value: u8 },
}

/// A planned update of one register field: read the register, then write it
/// back with the field replaced.
#[derive(Clone, Copy, Debug, PartialEq, Eq, Structural)]
pub struct Update {
    pub address: u8,
    pub register: u8,
    pub mask: u8,
    pub bits: u8,
}

impl Update {
    /// The write that stores the field into a register that held `current`.
    pub open spec fn spec_write(self, current: u8) -> Transfer {
        Transfer::Write {
            address: self.address,
            register: self.register,
            value: merged(current, self.mask, self.bits),
        }
    }

    /// The read of the register's current value.
    pub open spec fn spec_read(self) -> Transfer {
        Transfer::Read { address: self.address, register: self.register, len: 1 }
    }

    /// The transfer that reads the register's current value.
    pub fn read(&self) -> (t: Transfer)
        ensures
            t == self.spec_read(),
    {
        Transfer::Read { address: self.address, register: self.register, len: 1 }
    }

    /// The transfer that writes the register back, given the value it held.
    pub fn write(&self, current: u8) -> (t: Transfer)
        ensures
            t == self.spec_write(current),
    {
        Transfer::Write {
            address: self.address,
            register: self.register,
            value: merge(current, self.mask, self.bits),
        }
    }
}

/// Device driver supporting ICM 42627 and 40627, which seem to have the same
/// spec.
#[derive(Debug, Clone, Copy)]
pub struct Icm42627<I2C> {
    /// Underlying I²C peripheral
    i2c: I2C,
    /// I²C slave address to use
    address: Address,
}

impl<I2C> Icm42627<I2C> {
    /// `WHO_AM_I` values for 42627 and 40627
    pub const DEVICE_IDS: [u8; 2] = DEVICE_IDS;

    pub closed spec fn bus(&self) -> I2C {
        self.i2c
    }

    pub closed spec fn spec_address(&self) -> Address {
        self.address
    }

    /// A driver for the device at `address` on `i2c`, not yet brought up.
    pub(crate) fn assemble(i2c: I2C, address: Address) -> (d: Self)
        ensures
            d.bus() == i2c,
            d.spec_address() == address,
    {
        Icm42627 { i2c, address }
    }

    /// Return the raw interface to the underlying `I2C` instance
    pub fn destroy(self) -> (i2c: I2C)
        ensures
            i2c == self.bus(),
    {
        self.i2c
    }

    /// The I²C slave address the driver talks to.
    pub fn address(&self) -> (a: Address)
        ensures
            a == self.spec_address(),
    {
        self.address
    }

    /// The bus, to carry out the transfers that the driver asks for.
    pub fn bus_mut(&mut self) -> (b: &mut I2C)
        ensures
            *b == old(self).bus(),
            final(self).bus() == *final(b),
            final(self).spec_address() == old(self).spec_address(),
    {
        &mut self.i2c
    }

    /// The transfer that reads `len` consecutive registers from `reg` on.
    pub fn read_transfer<R: Register>(&self, reg: &R, len: usize) -> (t: Transfer)
        ensures
            t == (Transfer::Read {
                address: self.spec_address().spec_addr(),
                register: reg.spec_addr(),
                len,
            }),
    {
        Transfer::Read { address: self.address.addr(), register: reg.addr(), len }
    }

    /// The transfer that sets a register to a given value; a read-only
    /// register is refused.
    pub fn write_transfer<R: Register>(&self, reg: &R, value: u8) -> (r: Result<
        Transfer,
        SensorError,
    >)
        ensures
            reg.spec_read_only() ==> r == Err::<Transfer, SensorError>(
                SensorError::WriteToReadOnly,
            ),
            !reg.spec_read_only() ==> r == Ok::<Transfer, SensorError>(
                Transfer::Write {
                    address: self.spec_address().spec_addr(),
                    register: reg.spec_addr(),
                    value,
                },
            ),
    {
        if reg.read_only() {
            Err(SensorError::WriteToReadOnly)
        } else {
            Ok(Transfer::Write { address: self.address.addr(), register: reg.addr(), value })
        }
    }

    /// The update that stores a setting in its register field, keeping the
    /// register's other bits; a field of a read-only register is refused.
    pub fn update<BF: Bitfield>(&self, value: BF) -> (r: Result<Update, SensorError>)
        ensures
            BF::spec_register().spec_read_only() ==> r == Err::<Update, SensorError>(
                SensorError::WriteToReadOnly,
            ),
            !BF::spec_register().spec_read_only() ==> r == Ok::<Update, SensorError>(
                self.spec_update_plan(value),
            ),
    {
        let reg = BF::register();
        if reg.read_only() {
            Err(SensorError::WriteToReadOnly)
        } else {
            Ok(
                Update {
                    address: self.address.addr(),
                    register: reg.addr(),
                    mask: BF::bitmask(),
                    bits: value.bits(),
                },
            )
        }
    }

    /// The update of the field that holds `value`, at the driver's address.
    pub open spec fn spec_update_plan<BF: Bitfield>(&self, value: BF) -> Update {
        Update {
            address: self.spec_address().spec_addr(),
            register: BF::spec_register().spec_addr(),
            mask: BF::spec_bitmask(),
            bits: value.spec_bits(),
        }
    }

    /// A read of `len` registers from `reg` on, at the driver's address.
    pub open spec fn spec_read_of<R: Register>(&self, reg: R, len: usize) -> Transfer {
        Transfer::Read { address: self.spec_address().spec_addr(), register: reg.spec_addr(), len }
    }

    /// The read of the register that holds the field of the setting `BF`.
    pub open spec fn spec_field_read<BF: Bitfield>(&self) -> Transfer {
        self.spec_read_of(BF::spec_register(), 1)
    }

    /// The transfer that reads the register holding the field of the
    /// setting `BF`: the register that an update of that setting writes.
    pub fn field_read<BF: Bitfield>(&self) -> (t: Transfer)
        ensures
            t == self.spec_field_read::<BF>(),
    {
        self.read_transfer(&BF::register(), 1)
    }

    /// The transfer that reads the device's identity, `WHO_AM_I`.
    pub fn device_id_read(&self) -> (t: Transfer)
        ensures
            t == self.spec_read_of(Bank0::WHO_AM_I, 1),
    {
        self.read_transfer(&Bank0::WHO_AM_I, 1)
    }

    /// The transfer that reads the gyroscope's three words, from
    /// `GYRO_DATA_X1` on.
    pub fn gyro_raw_read(&self) -> (t: Transfer)
        ensures
            t == self.spec_read_of(Bank0::GYRO_DATA_X1, 6),
    {
        self.read_transfer(&Bank0::GYRO_DATA_X1, 6)
    }

    /// The transfer that reads the temperature word, from `TEMP_DATA1` on.
    pub fn temperature_raw_read(&self) -> (t: Transfer)
        ensures
            t == self.spec_read_of(Bank0::TEMP_DATA1, 2),
    {
        self.read_transfer(&Bank0::TEMP_DATA1, 2)
    }

    /// The transfer that reads all fourteen data registers at once, from
    /// `TEMP_DATA1` on: temperature, accelerometer and gyroscope words.
    pub fn measure_raw_read(&self) -> (t: Transfer)
        ensures
            t == self.spec_read_of(Bank0::TEMP_DATA1, 14),
    {
        self.read_transfer(&Bank0::TEMP_DATA1, 14)
    }

    /// The transfer that reads `GYRO_CONFIG0` and `ACCEL_CONFIG0` at once,
    /// for their range fields.
    pub fn ranges_read(&self) -> (t: Transfer)
        ensures
            t == self.spec_read_of(Bank0::GYRO_CONFIG0, 2),
    {
        self.read_transfer(&Bank0::GYRO_CONFIG0, 2)
    }

    /// The transfer that writes the self-test configuration bits.
    pub fn self_test_write(&self, bits: u8) -> (r: Result<Transfer, SensorError>)
        ensures
            r == Ok::<Transfer, SensorError>(
                Transfer::Write {
                    address: self.spec_address().spec_addr(),
                    register: Bank0::SELF_TEST_CONFIG.spec_addr(),
                    value: bits,
                },
            ),
    {
        self.write_transfer(&Bank0::SELF_TEST_CONFIG, bits)
    }
}

/// The registers after a transfer: a write stores its value in its register,
/// a read changes nothing.
pub open spec fn after_transfer(regs: spec_fn(u8) -> u8, t: Transfer) -> spec_fn(u8) -> u8 {
    match t {
        Transfer::Write { register, value, .. } => |a: u8|
            if a == register {
                value
            } else {
                regs(a)
            },
        Transfer::Read { .. } => regs,
    }
}

/// The bytes a read returns: the consecutive registers from its start on.
pub open spec fn read_result(regs: spec_fn(u8) -> u8, t: Transfer) -> Seq<u8> {
    match t {
        Transfer::Read { register, len, .. } => Seq::new(
            len as nat,
            |i: int| regs((register + i) as u8),
        ),
        Transfer::Write { .. } => Seq::empty(),
    }
}

/// The registers after the update of the setting `value` was carried out:
/// its register read, then written back.
pub open spec fn after_update<I2C, BF: Bitfield>(
    driver: Icm42627<I2C>,
    regs: spec_fn(u8) -> u8,
    value: BF,
) -> spec_fn(u8) -> u8 {
    let plan = driver.spec_update_plan(value);
    after_transfer(regs, plan.spec_write(read_result(regs, plan.spec_read())[0]))
}

/// Carrying out a field update and then reading the field's register gives
/// the register's old value with the field replaced by the setting.
pub proof fn lemma_update_then_read<I2C, BF: Bitfield>(
    driver: Icm42627<I2C>,
    regs: spec_fn(u8) -> u8,
    value: BF,
)
    ensures
        read_result(after_update(driver, regs, value), driver.spec_field_read::<BF>()) == seq![
            merged(
                regs(BF::spec_register().spec_addr()),
                BF::spec_bitmask(),
                value.spec_bits(),
            ),
        ],
{
    let reg = BF::spec_register().spec_addr();
    assert((reg + 0int) as u8 == reg);
    assert(read_result(after_update(driver, regs, value), driver.spec_field_read::<BF>()) =~= seq![
        merged(regs(reg), BF::spec_bitmask(), value.spec_bits()),
    ]);
}

/// A range set through the driver reads back through the driver.
pub proof fn lemma_set_then_get_accel_range<I2C>(
    driver: Icm42627<I2C>,
    regs: spec_fn(u8) -> u8,
    range: AccelRange,
)
    ensures
        AccelRange::spec_from_register(
            read_result(
                after_update(driver, regs, range),
                driver.spec_field_read::<AccelRange>(),
            )[0],
        ) == Ok::<AccelRange, SensorError>(range),
{
    lemma_update_then_read(driver, regs, range);
    lemma_accel_range_read_back(regs(Bank0::ACCEL_CONFIG0.spec_addr()), range);
}

/// A range set through the driver reads back through the driver.
pub proof fn lemma_set_then_get_gyro_range<I2C>(
    driver: Icm42627<I2C>,
    regs: spec_fn(u8) -> u8,
    range: GyroRange,
)
    ensures
        GyroRange::spec_from_register(
            read_result(after_update(driver, regs, range), driver.spec_field_read::<GyroRange>())[0],
        ) == Ok::<GyroRange, SensorError>(range),
{
    lemma_update_then_read(driver, regs, range);
    lemma_gyro_range_read_back(regs(Bank0::GYRO_CONFIG0.spec_addr()), range);
}

/// A data rate set through the driver reads back through the driver.
pub proof fn lemma_set_then_get_accel_odr<I2C>(
    driver: Icm42627<I2C>,
    regs: spec_fn(u8) -> u8,
    odr: AccelOdr,
)
    ensures
        AccelOdr::spec_from_register(
            read_result(after_update(driver, regs, odr), driver.spec_field_read::<AccelOdr>())[0],
        ) == Ok::<AccelOdr, SensorError>(odr),
{
    lemma_update_then_read(driver, regs, odr);
    lemma_accel_odr_read_back(regs(Bank0::ACCEL_CONFIG0.spec_addr()), odr);
}

/// A data rate set through the driver reads back through the driver.
pub proof fn lemma_set_then_get_gyro_odr<I2C>(
    driver: Icm42627<I2C>,
    regs: spec_fn(u8) -> u8,
    odr: GyroOdr,
)
    ensures
        GyroOdr::spec_from_register(
            read_result(after_update(driver, regs, odr), driver.spec_field_read::<GyroOdr>())[0],
        ) == Ok::<GyroOdr, SensorError>(odr),
{
    lemma_update_then_read(driver, regs, odr);
    lemma_gyro_odr_read_back(regs(Bank0::GYRO_CONFIG0.spec_addr()), odr);
}

/// A power mode set through the driver reads back through the driver.
pub proof fn lemma_set_then_get_power_mode<I2C>(
    driver: Icm42627<I2C>,
    regs: spec_fn(u8) -> u8,
    mode: PowerMode,
)
    ensures
        PowerMode::spec_from_register(
            read_result(after_update(driver, regs, mode), driver.spec_field_read::<PowerMode>())[0],
        ) == Ok::<PowerMode, SensorError>(mode),
{
    lemma_update_then_read(driver, regs, mode);
    lemma_power_mode_read_back(regs(Bank0::PWR_MGMT0.spec_addr()), mode);
}

} // verus!
