//! The register map of the device, as far as the driver uses it.

use vstd::prelude::*;

verus! {

/// A device register: its 8-bit address and whether the host may write it.
pub trait Register: Sized {
    /// The register's address within its bank.
    spec fn spec_addr(&self) -> u8;

    /// Whether the register is read-only.
    spec fn spec_read_only(&self) -> bool;

    fn addr(&self) -> (a: u8)
        ensures
            a == self.spec_addr(),
    ;

    fn read_only(&self) -> (r: bool)
        ensures
            r == self.spec_read_only(),
    ;
}

/// Registers of user bank 0.
#[allow(non_camel_case_types)]
#[derive(Clone, Copy, Debug, PartialEq, Eq, Structural)]
pub enum Bank0 {
    DEVICE_CONFIG,
    DRIVE_CONFIG,
    TEMP_DATA1,
    TEMP_DATA0,
    ACCEL_DATA_X1,
    ACCEL_DATA_X0,
    ACCEL_DATA_Y1,
    ACCEL_DATA_Y0,
    ACCEL_DATA_Z1,
    ACCEL_DATA_Z0,
    GYRO_DATA_X1,
    GYRO_DATA_X0,
    GYRO_DATA_Y1,
    GYRO_DATA_Y0,
    GYRO_DATA_Z1,
    GYRO_DATA_Z0,
    SIGNAL_PATH_RESET,
    PWR_MGMT0,
    GYRO_CONFIG0,
    ACCEL_CONFIG0,
    GYRO_CONFIG1,
    GYRO_ACCEL_CONFIG0,
    ACCEL_CONFIG1,
    SELF_TEST_CONFIG,
    WHO_AM_I,
    REG_BANK_SEL,
}

impl Register for Bank0 {
    open spec fn spec_addr(&self) -> u8 {
        match *self {
            Bank0::DEVICE_CONFIG => 0x11,
            Bank0::DRIVE_CONFIG => 0x13,
            Bank0::TEMP_DATA1 => 0x1D,
            Bank0::TEMP_DATA0 => 0x1E,
            Bank0::ACCEL_DATA_X1 => 0x1F,
            Bank0::ACCEL_DATA_X0 => 0x20,
            Bank0::ACCEL_DATA_Y1 => 0x21,
            Bank0::ACCEL_DATA_Y0 => 0x22,
            Bank0::ACCEL_DATA_Z1 => 0x23,
            Bank0::ACCEL_DATA_Z0 => 0x24,
            Bank0::GYRO_DATA_X1 => 0x25,
            Bank0::GYRO_DATA_X0 => 0x26,
            Bank0::GYRO_DATA_Y1 => 0x27,
            Bank0::GYRO_DATA_Y0 => 0x28,
            Bank0::GYRO_DATA_Z1 => 0x29,
            Bank0::GYRO_DATA_Z0 => 0x2A,
            Bank0::SIGNAL_PATH_RESET => 0x4B,
            Bank0::PWR_MGMT0 => 0x4E,
            Bank0::GYRO_CONFIG0 => 0x4F,
            Bank0::ACCEL_CONFIG0 => 0x50,
            Bank0::GYRO_CONFIG1 => 0x51,
            Bank0::GYRO_ACCEL_CONFIG0 => 0x52,
            Bank0::ACCEL_CONFIG1 => 0x53,
            Bank0::SELF_TEST_CONFIG => 0x70,
            Bank0::WHO_AM_I => 0x75,
            Bank0::REG_BANK_SEL => 0x76,
        }
    }

    /// The sensor data registers and the identity register are read-only.
    open spec fn spec_read_only(&self) -> bool {
        match *self {
            Bank0::TEMP_DATA1 | Bank0::TEMP_DATA0 | Bank0::ACCEL_DATA_X1 | Bank0::ACCEL_DATA_X0
            | Bank0::ACCEL_DATA_Y1 | Bank0::ACCEL_DATA_Y0 | Bank0::ACCEL_DATA_Z1
            | Bank0::ACCEL_DATA_Z0 | Bank0::GYRO_DATA_X1 | Bank0::GYRO_DATA_X0
            | Bank0::GYRO_DATA_Y1 | Bank0::GYRO_DATA_Y0 | Bank0::GYRO_DATA_Z1
            | Bank0::GYRO_DATA_Z0 | Bank0::WHO_AM_I => true,
            _ => false,
        }
    }

    fn addr(&self) -> (a: u8) {
        match *self {
            Bank0::DEVICE_CONFIG => 0x11,
            Bank0::DRIVE_CONFIG => 0x13,
            Bank0::TEMP_DATA1 => 0x1D,
            Bank0::TEMP_DATA0 => 0x1E,
            Bank0::ACCEL_DATA_X1 => 0x1F,
            Bank0::ACCEL_DATA_X0 => 0x20,
            Bank0::ACCEL_DATA_Y1 => 0x21,
            Bank0::ACCEL_DATA_Y0 => 0x22,
            Bank0::ACCEL_DATA_Z1 => 0x23,
            Bank0::ACCEL_DATA_Z0 => 0x24,
            Bank0::GYRO_DATA_X1 => 0x25,
            Bank0::GYRO_DATA_X0 => 0x26,
            Bank0::GYRO_DATA_Y1 => 0x27,
            Bank0::GYRO_DATA_Y0 => 0x28,
            Bank0::GYRO_DATA_Z1 => 0x29,
            Bank0::GYRO_DATA_Z0 => 0x2A,
            Bank0::SIGNAL_PATH_RESET => 0x4B,
            Bank0::PWR_MGMT0 => 0x4E,
            Bank0::GYRO_CONFIG0 => 0x4F,
            Bank0::ACCEL_CONFIG0 => 0x50,
            Bank0::GYRO_CONFIG1 => 0x51,
            Bank0::GYRO_ACCEL_CONFIG0 => 0x52,
            Bank0::ACCEL_CONFIG1 => 0x53,
            Bank0::SELF_TEST_CONFIG => 0x70,
            Bank0::WHO_AM_I => 0x75,
            Bank0::REG_BANK_SEL => 0x76,
        }
    }

    fn read_only(&self) -> (r: bool) {
        match *self {
            Bank0::TEMP_DATA1 | Bank0::TEMP_DATA0 | Bank0::ACCEL_DATA_X1 | Bank0::ACCEL_DATA_X0
            | Bank0::ACCEL_DATA_Y1 | Bank0::ACCEL_DATA_Y0 | Bank0::ACCEL_DATA_Z1
            | Bank0::ACCEL_DATA_Z0 | Bank0::GYRO_DATA_X1 | Bank0::GYRO_DATA_X0
            | Bank0::GYRO_DATA_Y1 | Bank0::GYRO_DATA_Y0 | Bank0::GYRO_DATA_Z1
            | Bank0::GYRO_DATA_Z0 | Bank0::WHO_AM_I => true,
            _ => false,
        }
    }
}

/// Registers of user bank 1.
#[allow(non_camel_case_types)]
#[derive(Clone, Copy, Debug, PartialEq, Eq, Structural)]
pub enum Bank1 {
    INTF_CONFIG4,
    INTF_CONFIG5,
}

impl Register for Bank1 {
    open spec fn spec_addr(&self) -> u8 {
        match *self {
            Bank1::INTF_CONFIG4 => 0x7A,
            Bank1::INTF_CONFIG5 => 0x7B,
        }
    }

    open spec fn spec_read_only(&self) -> bool {
        false
    }

    fn addr(&self) -> (a: u8) {
        match *self {
            Bank1::INTF_CONFIG4 => 0x7A,
            Bank1::INTF_CONFIG5 => 0x7B,
        }
    }

    fn read_only(&self) -> (r: bool) {
        false
    }
}

} // verus!
