//! Sampling of the accelerometer: raw samples, the measurements handed to
//! the filter, and the pacing of the sensor.

use vstd::prelude::*;

verus! {

/// A raw BMI088 acceleration sample.
#[derive(Clone, Copy, Debug, PartialEq, Eq, Structural)]
pub struct Bmi088Acceleration {
    x: i16,
    y: i16,
    z: i16,
}

impl View for Bmi088Acceleration {
    type V = (i16, i16, i16);

    closed spec fn view(&self) -> (i16, i16, i16) {
        (self.x, self.y, self.z)
    }
}

impl Bmi088Acceleration {
    pub fn new(x: i16, y: i16, z: i16) -> (r: Self)
        ensures
            r@ == (x, y, z),
    {
        Bmi088Acceleration { x, y, z }
    }

    pub fn x_raw(&self) -> (r: i16)
        ensures
            r == self@.0,
    {
        self.x
    }

    pub fn y_raw(&self) -> (r: i16)
        ensures
            r == self@.1,
    {
        self.y
    }

    pub fn z_raw(&self) -> (r: i16)
        ensures
            r == self@.2,
    {
        self.z
    }
}

/// A measurement handed to the filter.
#[derive(Clone, Copy, Debug, PartialEq, Eq, Structural)]
pub enum Measurement {
    ACC(Bmi088Acceleration),
}

/// Whether a sensor should take a sample now.
#[derive(Clone, Copy, Debug, PartialEq, Eq, Structural)]
pub enum SensorKick {
    Idle,
    Kick,
}

impl SensorKick {
    /// Decides on a sample, `elapsed_us` microseconds after the previous
    /// check, for a sensor that should sample once every `target_period_us`
    /// microseconds (`None` when the target frequency has no period in
    /// microseconds): sample when more than a period has passed.
    pub fn decide(elapsed_us: u64, target_period_us: Option<u64>) -> (r: SensorKick)
        ensures
            r == (match target_period_us {
                Some(p) => if elapsed_us > p {
                    SensorKick::Kick
                } else {
                    SensorKick::Idle
                },
                None => SensorKick::Idle,
            }),
    {
        match target_period_us {
            Some(p) => if elapsed_us > p {
                SensorKick::Kick
            } else {
                SensorKick::Idle
            },
            None => SensorKick::Idle,
        }
    }
}

} // verus!
