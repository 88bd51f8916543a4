//! Driver logic for the BMI088 inertial measurement unit.

pub mod config;
pub mod measurements;
pub mod regs;
pub mod driver;
