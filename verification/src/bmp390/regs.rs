//! Register map of the BMP390.

use vstd::prelude::*;

verus! {

pub const BMP390_ADDRESS_LOW: u8 = 0x76;
pub const BMP390_ADDRESS_HIGH: u8 = 0x77;

pub const BMP390_STATUS: u8 = 0x03;
pub const BMP390_DATA_0: u8 = 0x04;
pub const BMP390_DATA_3: u8 = 0x07;
pub const BMP390_PWR_CTRL: u8 = 0x1b;
pub const BMP390_NVM_PAR_T1: u8 = 0x31;

/// Number of calibration bytes, from NVM_PAR_T1 onwards.
pub const BMP390_CALIBRATION_LEN: usize = 21;

} // verus!
