//! Raw accelerometer readings.

use vstd::prelude::*;
use crate::bus::{i16_from_le, le_i16};

verus! {

/// A raw acceleration sample (counts on each axis, as the sensor reports
/// them).
#[derive(Clone, Copy, Debug, PartialEq, Eq, Structural)]
pub struct Acceleration {
    x: i16,
    y: i16,
    z: i16,
}

impl View for Acceleration {
    type V = (i16, i16, i16);

    closed spec fn view(&self) -> (i16, i16, i16) {
        (self.x, self.y, self.z)
    }
}

impl Acceleration {
    pub fn new(x: i16, y: i16, z: i16) -> (r: Self)
        ensures
            r@ == (x, y, z),
    {
        Self { x, y, z }
    }

    /// Decodes the six data bytes read from ACC_X_LSB onwards: the x, y and z
    /// axes, each as a little-endian two's complement word.
    pub fn from_le_bytes(data: [u8; 6]) -> (r: Self)
        ensures
            r@.0 == le_i16(data@[0], data@[1]),
            r@.1 == le_i16(data@[2], data@[3]),
            r@.2 == le_i16(data@[4], data@[5]),
    {
        Self::new(
            i16_from_le(data[0], data[1]),
            i16_from_le(data[2], data[3]),
            i16_from_le(data[4], data[5]),
        )
    }

    pub fn x_raw(&self) -> (r: i16)
        ensures
            r == self@.0,
    {
        self.x
    }

    pub fn y_raw(&self) -> (r: i16)
        ensures
            r == self@.1,
    {
        self.y
    }

    pub fn z_raw(&self) -> (r: i16)
        ensures
            r == self@.2,
    {
        self.z
    }
}

/// The outcome of the accelerometer self-test: the difference between the
/// positive-polarity and the negative-polarity reading on each axis.
#[derive(Clone, Copy, Debug, PartialEq, Eq, Structural)]
pub struct AccSelfTestResult {
    x: i16,
    y: i16,
    z: i16,
}

impl View for AccSelfTestResult {
    type V = (i16, i16, i16);

    closed spec fn view(&self) -> (i16, i16, i16) {
        (self.x, self.y, self.z)
    }
}

impl AccSelfTestResult {
    pub fn new(positive: Acceleration, negative: Acceleration) -> (r: Self)
        requires
            i16::MIN <= positive@.0 - negative@.0 <= i16::MAX,
            i16::MIN <= positive@.1 - negative@.1 <= i16::MAX,
            i16::MIN <= positive@.2 - negative@.2 <= i16::MAX,
        ensures
            r@.0 == positive@.0 - negative@.0,
            r@.1 == positive@.1 - negative@.1,
            r@.2 == positive@.2 - negative@.2,
    {
        Self {
            x: positive.x_raw() - negative.x_raw(),
            y: positive.y_raw() - negative.y_raw(),
            z: positive.z_raw() - negative.z_raw(),
        }
    }

    pub fn x_raw(&self) -> (r: i16)
        ensures
            r == self@.0,
    {
        self.x
    }

    pub fn y_raw(&self) -> (r: i16)
        ensures
            r == self@.1,
    {
        self.y
    }

    pub fn z_raw(&self) -> (r: i16)
        ensures
            r == self@.2,
    {
        self.z
    }
}

} // verus!
