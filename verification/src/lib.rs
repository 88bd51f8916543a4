//! Verified core of the Airbrakes flight computer: sensor and flash drivers,
//! the flight-stage state machine and the flight log bookkeeping.

pub mod bmi088;
pub mod bus;
pub mod bmp390;
pub mod w25qxxxjv;
pub mod controller;
pub mod flight_log;
pub mod cli;
pub mod flight_data;
pub mod sampling;
pub mod flight_time;
