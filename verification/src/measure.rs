//! Sensor readings: three-axis vectors, and the decoding of the data
//! registers.

use vstd::prelude::*;

use crate::config::{AccelRange, GyroRange};
use crate::error::SensorError;
use crate::words::{word_at, word_from_be_bytes};

verus! {

/// One axis of a three-axis sensor.
#[derive(Clone, Copy, Debug, PartialEq, Eq, Structural)]
pub enum Axis {
    X,
    Y,
    Z,
}

impl Axis {
    pub open spec fn spec_position(self) -> usize {
        match self {
            Axis::X => 0,
            Axis::Y => 1,
            Axis::Z => 2,
        }
    }

    /// The position of the axis' component in a vector.
    pub fn position(self) -> (p: usize)
        ensures
            p == self.spec_position(),
    {
        match self {
            Axis::X => 0,
            Axis::Y => 1,
            Axis::Z => 2,
        }
    }
}

/// A vector with one component per axis.
pub trait Vector: Sized {
    type Component;

    spec fn spec_component(&self, axis: Axis) -> Self::Component;

    /// The component along `axis`.
    fn component(&self, axis: Axis) -> (c: &Self::Component)
        ensures
            *c == self.spec_component(axis),
    ;

    /// The component along `axis`, to change it in place.
    fn component_mut(&mut self, axis: Axis) -> (c: &mut Self::Component)
        ensures
            *c == old(self).spec_component(axis),
            final(self).spec_component(axis) == *final(c),
            forall|other: Axis|
                other != axis ==> #[trigger] final(self).spec_component(other)
                    == old(self).spec_component(other),
    ;

    fn x(&self) -> (c: &Self::Component)
        ensures
            *c == self.spec_component(Axis::X),
    {
        self.component(Axis::X)
    }

    fn y(&self) -> (c: &Self::Component)
        ensures
            *c == self.spec_component(Axis::Y),
    {
        self.component(Axis::Y)
    }

    fn z(&self) -> (c: &Self::Component)
        ensures
            *c == self.spec_component(Axis::Z),
    {
        self.component(Axis::Z)
    }
}

impl<T> Vector for [T; 3] {
    type Component = T;

    open spec fn spec_component(&self, axis: Axis) -> T {
        self@[axis.spec_position() as int]
    }

    fn component(&self, axis: Axis) -> (c: &T) {
        &self[axis.position()]
    }

    fn component_mut(&mut self, axis: Axis) -> (c: &mut T) {
        &mut self[axis.position()]
    }
}

/// Raw readings of the three axes of one sensor.
pub type I16x3 = [i16; 3];

/// The three words that start at word `first` of `bytes`, as a vector.
pub open spec fn vector_at(v: I16x3, bytes: Seq<u8>, first: int) -> bool {
    &&& v@[0] as int == word_at(bytes, first)
    &&& v@[1] as int == word_at(bytes, first + 1)
    &&& v@[2] as int == word_at(bytes, first + 2)
}

/// Decodes the fourteen data registers from `TEMP_DATA1` on, read at once:
/// the temperature word, then the accelerometer's X, Y and Z words, then the
/// gyroscope's. Returns the accelerometer and gyroscope vectors and the
/// temperature.
pub fn decode_measurement(bytes: &[u8; 14]) -> (m: (I16x3, I16x3, i16))
    ensures
        vector_at(m.0, bytes@, 1),
        vector_at(m.1, bytes@, 4),
        m.2 as int == word_at(bytes@, 0),
{
    let temp_raw = word_from_be_bytes(bytes[0], bytes[1]);
    let accel_raw_x = word_from_be_bytes(bytes[2], bytes[3]);
    let accel_raw_y = word_from_be_bytes(bytes[4], bytes[5]);
    let accel_raw_z = word_from_be_bytes(bytes[6], bytes[7]);
    let gyro_raw_x = word_from_be_bytes(bytes[8], bytes[9]);
    let gyro_raw_y = word_from_be_bytes(bytes[10], bytes[11]);
    let gyro_raw_z = word_from_be_bytes(bytes[12], bytes[13]);
    (
        [accel_raw_x, accel_raw_y, accel_raw_z],
        [gyro_raw_x, gyro_raw_y, gyro_raw_z],
        temp_raw,
    )
}

pub open spec fn spec_decode_ranges(gyro_config: u8, accel_config: u8) -> Result<
    (GyroRange, AccelRange),
    SensorError,
> {
    match GyroRange::spec_from_register(gyro_config) {
        Err(e) => Err(e),
        Ok(g) => match AccelRange::spec_from_register(accel_config) {
            Err(e) => Err(e),
            Ok(a) => Ok((g, a)),
        },
    }
}

/// Decodes the ranges out of `GYRO_CONFIG0` and `ACCEL_CONFIG0`, read at
/// once in that order; the gyroscope's field is decoded first.
pub fn decode_ranges(bytes: &[u8; 2]) -> (r: Result<(GyroRange, AccelRange), SensorError>)
    ensures
        r == spec_decode_ranges(bytes@[0], bytes@[1]),
{
    let gyro = GyroRange::from_register(bytes[0])?;
    let accel = AccelRange::from_register(bytes[1])?;
    Ok((gyro, accel))
}

} // verus!
