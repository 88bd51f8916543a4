//! The BMP390 driver state and the register transactions of each operation.

use vstd::prelude::*;
use crate::bmp390::regs::{
    BMP390_ADDRESS_HIGH, BMP390_ADDRESS_LOW, BMP390_CALIBRATION_LEN, BMP390_DATA_0, BMP390_DATA_3,
    BMP390_NVM_PAR_T1, BMP390_PWR_CTRL, BMP390_STATUS,
};
use crate::bus::{RegisterRead, RegisterWrite};

verus! {

/// Errors of the BMP390 driver.
#[derive(Debug)]
pub enum Error<E> {
    I2c(E),
}

/// A BMP390 on an I2C bus `I`.
pub struct Bmp390<I> {
    i2c: I,
    /// Level of the SDO pin, which selects the address.
    sdo_high: bool,
}

impl<I> Bmp390<I> {
    /// The bus the driver owns.
    pub closed spec fn bus(&self) -> I {
        self.i2c
    }

    /// Whether SDO is pulled high.
    pub closed spec fn sdo_is_high(&self) -> bool {
        self.sdo_high
    }

    /// The sensor's I2C address.
    pub open spec fn address(&self) -> u8 {
        if self.sdo_is_high() {
            BMP390_ADDRESS_HIGH
        } else {
            BMP390_ADDRESS_LOW
        }
    }

    pub fn new(i2c: I) -> (r: Self)
        ensures
            r.bus() == i2c,
            !r.sdo_is_high(),
    {
        Self { i2c, sdo_high: false }
    }

    /// Gives the bus back.
    pub fn destroy(self) -> (r: I)
        ensures
            r == self.bus(),
    {
        self.i2c
    }

    /// Selects the address used when SDO is pulled high.
    pub fn with_sdo_high(self) -> (r: Self)
        ensures
            r.bus() == self.bus(),
            r.sdo_is_high(),
    {
        let mut s = self;
        s.sdo_high = true;
        s
    }

    /// Lends the bus out to carry out a transaction.
    pub fn bus_mut(&mut self) -> (r: &mut I)
        ensures
            *r == old(self).bus(),
            final(self).bus() == *final(r),
            final(self).sdo_is_high() == old(self).sdo_is_high(),
    {
        &mut self.i2c
    }

    /// The sensor's I2C address.
    pub fn i2c_addr(&self) -> (r: u8)
        ensures
            r == self.address(),
    {
        if self.sdo_high {
            BMP390_ADDRESS_HIGH
        } else {
            BMP390_ADDRESS_LOW
        }
    }

    /// Reading the calibration data: 21 bytes from NVM_PAR_T1.
    pub fn read_coefficients_request(&self) -> (r: RegisterRead)
        ensures
            r == (RegisterRead { addr: self.address(), reg: BMP390_NVM_PAR_T1, len: 21 }),
    {
        RegisterRead { addr: self.i2c_addr(), reg: BMP390_NVM_PAR_T1, len: BMP390_CALIBRATION_LEN }
    }

    /// Reading the pressure: three bytes from DATA_0.
    pub fn read_pressure_request(&self) -> (r: RegisterRead)
        ensures
            r == (RegisterRead { addr: self.address(), reg: BMP390_DATA_0, len: 3 }),
    {
        RegisterRead { addr: self.i2c_addr(), reg: BMP390_DATA_0, len: 3 }
    }

    /// Reading the temperature: three bytes from DATA_3.
    pub fn read_temperature_request(&self) -> (r: RegisterRead)
        ensures
            r == (RegisterRead { addr: self.address(), reg: BMP390_DATA_3, len: 3 }),
    {
        RegisterRead { addr: self.i2c_addr(), reg: BMP390_DATA_3, len: 3 }
    }

    /// Reading pressure and temperature in one transaction: six bytes from
    /// DATA_0 (see `split_reading`).
    pub fn read_request(&self) -> (r: RegisterRead)
        ensures
            r == (RegisterRead { addr: self.address(), reg: BMP390_DATA_0, len: 6 }),
    {
        RegisterRead { addr: self.i2c_addr(), reg: BMP390_DATA_0, len: 6 }
    }

    /// Writing the PWR_CTRL register (see `PowerCtrl`).
    pub fn set_pwr_ctrl_request(&self, ctrl: u8) -> (r: RegisterWrite)
        ensures
            r == (RegisterWrite { addr: self.address(), reg: BMP390_PWR_CTRL, value: ctrl }),
    {
        RegisterWrite { addr: self.i2c_addr(), reg: BMP390_PWR_CTRL, value: ctrl }
    }

    /// Reading the STATUS register.
    pub fn status_request(&self) -> (r: RegisterRead)
        ensures
            r == (RegisterRead { addr: self.address(), reg: BMP390_STATUS, len: 1 }),
    {
        RegisterRead { addr: self.i2c_addr(), reg: BMP390_STATUS, len: 1 }
    }
}

/// Whether a STATUS value reports a pressure sample ready (bit 4).
pub fn is_drdy_press(status: u8) -> (r: bool)
    ensures
        r == ((status / 16) % 2 == 1),
{
    assert(((status & 0x10) != 0) == ((status / 16) % 2 == 1)) by (bit_vector);
    (status & 0x10) != 0
}

/// Whether a STATUS value reports a temperature sample ready (bit 5).
pub fn is_drdy_temp(status: u8) -> (r: bool)
    ensures
        r == ((status / 32) % 2 == 1),
{
    assert(((status & 0x20) != 0) == ((status / 32) % 2 == 1)) by (bit_vector);
    (status & 0x20) != 0
}

} // verus!
