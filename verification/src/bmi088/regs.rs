//! Register map of the BMI088 (accelerometer and gyroscope I2C addresses and
//! accelerometer registers).

use vstd::prelude::*;

verus! {

pub const BMI088_ACC_ADDRESS_LOW: u8 = 0x18;
pub const BMI088_ACC_ADDRESS_HIGH: u8 = 0x19;
pub const BMI088_GYRO_ADDRESS_LOW: u8 = 0x68;
pub const BMI088_GYRO_ADDRESS_HIGH: u8 = 0x69;

pub const BMI088_ACC_CHIP_ID: u8 = 0x00;
pub const BMI088_ACC_X_LSB: u8 = 0x12;
pub const BMI088_ACC_CONF: u8 = 0x40;
pub const BMI088_ACC_RANGE: u8 = 0x41;
pub const BMI088_INT1_IO_CONF: u8 = 0x53;
pub const BMI088_INT2_IO_CONF: u8 = 0x54;
pub const BMI088_INT1_INT2_MAP_DATA: u8 = 0x58;
pub const BMI088_ACC_SELF_TEST: u8 = 0x6d;
pub const BMI088_ACC_PWR_CTRL: u8 = 0x7d;
pub const BMI088_ACC_SOFTRESET: u8 = 0x7e;

/// The chip id that the accelerometer reports.
pub const ACC_CHIP_ID: u8 = 0x1e;

} // verus!
