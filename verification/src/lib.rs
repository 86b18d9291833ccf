//! A driver core for the ICM-40627 (and ICM-42627) 6-axis IMU.
//!
//! The device is configured through 8-bit registers on an I²C bus. This crate
//! holds everything the driver decides: the register map, the encoding of
//! each configuration field, the read-modify-write of a field, the decoding of
//! sensor words, and the start-up sequence as a state machine that asks for one
//! bus transfer at a time.

pub mod config;
pub mod driver;
pub mod encoding;
pub mod error;
pub mod field;
pub mod measure;
pub mod register;
pub mod startup;
pub mod words;

pub use crate::config::{
    AccLpAvg, AccelDlpfBw, AccelOdr, AccelRange, Address, Bitfield, GyroLpFiltBw, GyroOdr,
    GyroRange, PowerMode, SoftReset, TempDlpfBw,
};
pub use crate::driver::{Icm42627, Transfer, Update};
pub use crate::error::{Error, SensorError};
pub use crate::measure::{Axis, Vector, I16x3};
pub use crate::startup::{Next, Stage, Startup, DEVICE_IDS};
