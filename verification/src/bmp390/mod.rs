//! Driver logic for the BMP390 barometer.

pub mod config;
pub mod driver;
pub mod measurements;
pub mod regs;
