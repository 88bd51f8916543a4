//! The BMI088 driver state and the register transactions of each operation.
//!
//! The driver owns its I2C bus `I`; the transactions themselves are carried
//! out by whoever drives the bus, with the requests this module computes, and
//! the driver state is updated once a transaction has succeeded.

use vstd::prelude::*;
use crate::bmi088::config::{AccRange, AccSelfTest, AccConf, AccOdr, AccOsr};
use crate::bmi088::regs::{
    BMI088_ACC_ADDRESS_HIGH, BMI088_ACC_ADDRESS_LOW, BMI088_ACC_CHIP_ID, BMI088_ACC_CONF,
    BMI088_ACC_PWR_CTRL, BMI088_ACC_RANGE, BMI088_ACC_SELF_TEST, BMI088_ACC_SOFTRESET,
    BMI088_ACC_X_LSB, BMI088_GYRO_ADDRESS_HIGH, BMI088_GYRO_ADDRESS_LOW, BMI088_INT1_INT2_MAP_DATA,
    BMI088_INT1_IO_CONF, BMI088_INT2_IO_CONF,
};
use crate::bus::{RegisterRead, RegisterWrite};

verus! {

/// The two devices inside the BMI088 package.
#[derive(Clone, Copy, Debug, PartialEq, Eq, Structural)]
pub enum Device {
    Acc,
    Gyro,
}

/// Errors of the BMI088 driver.
#[derive(Debug)]
pub enum Error<E> {
    I2c(E),
    Wait,
}

/// A BMI088 on an I2C bus `I`.
pub struct Bmi088<I> {
    i2c: I,
    /// Level of the SDO1 pin, which selects the accelerometer address.
    sdo1_high: bool,
    /// Level of the SDO2 pin, which selects the gyroscope address.
    sdo2_high: bool,
    range: AccRange,
}

/// The I2C address of a device given the levels of the SDO1/SDO2 pins.
pub open spec fn device_address(device: Device, sdo1_high: bool, sdo2_high: bool) -> u8 {
    match device {
        Device::Acc => if sdo1_high {
            BMI088_ACC_ADDRESS_HIGH
        } else {
            BMI088_ACC_ADDRESS_LOW
        },
        Device::Gyro => if sdo2_high {
            BMI088_GYRO_ADDRESS_HIGH
        } else {
            BMI088_GYRO_ADDRESS_LOW
        },
    }
}

/// One step of the accelerometer self-test procedure.
#[derive(Clone, Copy, Debug, PartialEq, Eq, Structural)]
pub enum SelfTestStep {
    /// Set the measurement range.
    SetRange(AccRange),
    /// Write the ACC_CONF register with this value (see `set_acc_conf_request`).
    SetConf(u8),
    /// Wait this many milliseconds.
    DelayMs(u32),
    /// Switch the self-test excitation.
    SelfTest(AccSelfTest),
    /// Read an acceleration sample under positive excitation.
    ReadPositive,
    /// Read an acceleration sample under negative excitation.
    ReadNegative,
    /// Soft-reset the accelerometer.
    Reset,
}

/// One step of powering the accelerometer on or soft-resetting it.
#[derive(Clone, Copy, Debug, PartialEq, Eq, Structural)]
pub enum AccPowerStep {
    /// Wait this many milliseconds.
    DelayMs(u32),
    /// Carry out this register write.
    Write(RegisterWrite),
}

/// Powering on the accelerometer at `addr` (datasheet section 4.1.1): wait
/// 1 ms, switch the power control on, then wait 50 ms for the sensor to
/// settle (section 3).
pub open spec fn spec_enable_acc_steps(addr: u8) -> Seq<AccPowerStep> {
    seq![
        AccPowerStep::DelayMs(1),
        AccPowerStep::Write(RegisterWrite { addr, reg: BMI088_ACC_PWR_CTRL, value: 0x04 }),
        AccPowerStep::DelayMs(50),
    ]
}

/// Soft-resetting the accelerometer at `addr`: the reset command, then 1 ms
/// of wait before the sensor answers again.
pub open spec fn spec_reset_acc_steps(addr: u8) -> Seq<AccPowerStep> {
    seq![
        AccPowerStep::Write(RegisterWrite { addr, reg: BMI088_ACC_SOFTRESET, value: 0xb6 }),
        AccPowerStep::DelayMs(1),
    ]
}

impl<I> Bmi088<I> {
    /// The bus the driver owns.
    pub closed spec fn bus(&self) -> I {
        self.i2c
    }

    /// Whether SDO1 is pulled high.
    pub closed spec fn acc_sdo_high(&self) -> bool {
        self.sdo1_high
    }

    /// Whether SDO2 is pulled high.
    pub closed spec fn gyro_sdo_high(&self) -> bool {
        self.sdo2_high
    }

    /// The measurement range that the accelerometer is configured with.
    pub closed spec fn current_range(&self) -> AccRange {
        self.range
    }

    /// The accelerometer's I2C address.
    pub open spec fn acc_address(&self) -> u8 {
        device_address(Device::Acc, self.acc_sdo_high(), self.gyro_sdo_high())
    }

    pub fn new(i2c: I) -> (r: Self)
        ensures
            r.bus() == i2c,
            !r.acc_sdo_high(),
            !r.gyro_sdo_high(),
            r.current_range() == AccRange::Range6G,
    {
        Bmi088 { i2c, sdo1_high: false, sdo2_high: false, range: AccRange::default() }
    }

    /// Selects the accelerometer address used when SDO1 is pulled high.
    pub fn with_sdo1_high(self) -> (r: Self)
        ensures
            r.bus() == self.bus(),
            r.acc_sdo_high(),
            r.gyro_sdo_high() == self.gyro_sdo_high(),
            r.current_range() == self.current_range(),
    {
        let mut s = self;
        s.sdo1_high = true;
        s
    }

    /// Selects the gyroscope address used when SDO2 is pulled high.
    pub fn with_sdo2_high(self) -> (r: Self)
        ensures
            r.bus() == self.bus(),
            r.acc_sdo_high() == self.acc_sdo_high(),
            r.gyro_sdo_high(),
            r.current_range() == self.current_range(),
    {
        let mut s = self;
        s.sdo2_high = true;
        s
    }

    /// Gives the bus back.
    pub fn destroy(self) -> (r: I)
        ensures
            r == self.bus(),
    {
        self.i2c
    }

    /// Lends the bus out to carry out a transaction; the driver state is left
    /// as it was.
    pub fn bus_mut(&mut self) -> (r: &mut I)
        ensures
            *r == old(self).bus(),
            final(self).bus() == *final(r),
            final(self).acc_sdo_high() == old(self).acc_sdo_high(),
            final(self).gyro_sdo_high() == old(self).gyro_sdo_high(),
            final(self).current_range() == old(self).current_range(),
    {
        &mut self.i2c
    }

    /// The range the accelerometer was last configured with.
    pub fn acc_range(&self) -> (r: AccRange)
        ensures
            r == self.current_range(),
    {
        self.range
    }

    /// The I2C address of one of the two devices.
    pub fn i2c_addr(&self, device: Device) -> (r: u8)
        ensures
            r == device_address(device, self.acc_sdo_high(), self.gyro_sdo_high()),
    {
        match device {
            Device::Acc => if self.sdo1_high {
                BMI088_ACC_ADDRESS_HIGH
            } else {
                BMI088_ACC_ADDRESS_LOW
            },
            Device::Gyro => if self.sdo2_high {
                BMI088_GYRO_ADDRESS_HIGH
            } else {
                BMI088_GYRO_ADDRESS_LOW
            },
        }
    }

    fn acc_write(&self, reg: u8, value: u8) -> (r: RegisterWrite)
        ensures
            r == (RegisterWrite { addr: self.acc_address(), reg, value }),
    {
        RegisterWrite { addr: self.i2c_addr(Device::Acc), reg, value }
    }

    /// Reading an acceleration sample: six bytes from ACC_X_LSB.
    pub fn read_acc_request(&self) -> (r: RegisterRead)
        ensures
            r == (RegisterRead { addr: self.acc_address(), reg: BMI088_ACC_X_LSB, len: 6 }),
    {
        RegisterRead { addr: self.i2c_addr(Device::Acc), reg: BMI088_ACC_X_LSB, len: 6 }
    }

    /// Reading the accelerometer chip id (expected: `ACC_CHIP_ID`).
    pub fn read_acc_chip_id_request(&self) -> (r: RegisterRead)
        ensures
            r == (RegisterRead { addr: self.acc_address(), reg: BMI088_ACC_CHIP_ID, len: 1 }),
    {
        RegisterRead { addr: self.i2c_addr(Device::Acc), reg: BMI088_ACC_CHIP_ID, len: 1 }
    }

    /// The write that powers the accelerometer on (see `enable_acc_steps` for
    /// the waits around it).
    pub fn enable_acc_request(&self) -> (r: RegisterWrite)
        ensures
            r == (RegisterWrite { addr: self.acc_address(), reg: BMI088_ACC_PWR_CTRL, value: 0x04 }),
    {
        self.acc_write(BMI088_ACC_PWR_CTRL, 0x04)
    }

    /// The steps that power the accelerometer on, in order.
    pub fn enable_acc_steps(&self) -> (r: Vec<AccPowerStep>)
        ensures
            r@ == spec_enable_acc_steps(self.acc_address()),
    {
        let r = vec![
            AccPowerStep::DelayMs(1),
            AccPowerStep::Write(self.enable_acc_request()),
            AccPowerStep::DelayMs(50),
        ];
        assert(r@ =~= spec_enable_acc_steps(self.acc_address()));
        r
    }

    /// Powering the accelerometer off.
    pub fn disable_acc_request(&self) -> (r: RegisterWrite)
        ensures
            r == (RegisterWrite { addr: self.acc_address(), reg: BMI088_ACC_PWR_CTRL, value: 0x00 }),
    {
        self.acc_write(BMI088_ACC_PWR_CTRL, 0x00)
    }

    /// The write that soft-resets the accelerometer (see `reset_acc_steps`).
    pub fn reset_acc_request(&self) -> (r: RegisterWrite)
        ensures
            r == (RegisterWrite { addr: self.acc_address(), reg: BMI088_ACC_SOFTRESET, value: 0xb6 }),
    {
        self.acc_write(BMI088_ACC_SOFTRESET, 0xb6)
    }

    /// The steps of a soft reset, in order; once they are done the reset is
    /// completed by `finish_reset_acc`.
    pub fn reset_acc_steps(&self) -> (r: Vec<AccPowerStep>)
        ensures
            r@ == spec_reset_acc_steps(self.acc_address()),
    {
        let r = vec![AccPowerStep::Write(self.reset_acc_request()), AccPowerStep::DelayMs(1)];
        assert(r@ =~= spec_reset_acc_steps(self.acc_address()));
        r
    }

    /// Completes a soft reset once its write has returned: if the write went
    /// through, the range is back to its power-on default; if it failed, the
    /// driver is left as it was and the bus error is passed on.
    pub fn finish_reset_acc<E>(&mut self, written: Result<(), E>) -> (r: Result<(), Error<E>>)
        ensures
            r is Ok <==> written is Ok,
            written matches Err(e) ==> (r matches Err(Error::I2c(f)) && f == e),
            final(self).current_range() == if written is Ok {
                AccRange::Range6G
            } else {
                old(self).current_range()
            },
            final(self).bus() == old(self).bus(),
            final(self).acc_sdo_high() == old(self).acc_sdo_high(),
            final(self).gyro_sdo_high() == old(self).gyro_sdo_high(),
    {
        match written {
            Ok(()) => {
                self.range = AccRange::default();
                Ok(())
            },
            Err(e) => Err(Error::I2c(e)),
        }
    }

    /// Setting the measurement range.
    pub fn set_acc_range_request(&self, range: AccRange) -> (r: RegisterWrite)
        ensures
            r == (RegisterWrite { addr: self.acc_address(), reg: BMI088_ACC_RANGE, value: range.code() }),
    {
        self.acc_write(BMI088_ACC_RANGE, u8::from(range))
    }

    /// Completes a range change once its write has returned: if the write
    /// went through, the driver records the new range; if it failed, the
    /// driver is left as it was and the bus error is passed on.
    pub fn finish_set_acc_range<E>(&mut self, range: AccRange, written: Result<(), E>) -> (r: Result<(), Error<E>>)
        ensures
            r is Ok <==> written is Ok,
            written matches Err(e) ==> (r matches Err(Error::I2c(f)) && f == e),
            final(self).current_range() == if written is Ok {
                range
            } else {
                old(self).current_range()
            },
            final(self).bus() == old(self).bus(),
            final(self).acc_sdo_high() == old(self).acc_sdo_high(),
            final(self).gyro_sdo_high() == old(self).gyro_sdo_high(),
    {
        match written {
            Ok(()) => {
                self.range = range;
                Ok(())
            },
            Err(e) => Err(Error::I2c(e)),
        }
    }

    /// Switching the self-test excitation.
    pub fn set_self_test_request(&self, conf: AccSelfTest) -> (r: RegisterWrite)
        ensures
            r == (RegisterWrite { addr: self.acc_address(), reg: BMI088_ACC_SELF_TEST, value: conf.code() }),
    {
        self.acc_write(BMI088_ACC_SELF_TEST, u8::from(conf))
    }

    /// Writing the ACC_CONF register (see `AccConf`); bit 7 of the register
    /// must always be one, so it is set whatever `conf` holds.
    pub fn set_acc_conf_request(&self, conf: u8) -> (r: RegisterWrite)
        ensures
            r == (RegisterWrite { addr: self.acc_address(), reg: BMI088_ACC_CONF, value: conf | 0x80 }),
            r.value & 0x80 == 0x80,
            r.value & 0x7f == conf & 0x7f,
    {
        assert((conf | 0x80) & 0x80 == 0x80 && (conf | 0x80) & 0x7f == conf & 0x7f) by (bit_vector);
        self.acc_write(BMI088_ACC_CONF, conf | 0x80)
    }

    /// Configuring the INT1 pin (see `AccIntConf`).
    pub fn set_int1_conf_request(&self, conf: u8) -> (r: RegisterWrite)
        ensures
            r == (RegisterWrite { addr: self.acc_address(), reg: BMI088_INT1_IO_CONF, value: conf }),
    {
        self.acc_write(BMI088_INT1_IO_CONF, conf)
    }

    /// Configuring the INT2 pin (see `AccIntConf`).
    pub fn set_int2_conf_request(&self, conf: u8) -> (r: RegisterWrite)
        ensures
            r == (RegisterWrite { addr: self.acc_address(), reg: BMI088_INT2_IO_CONF, value: conf }),
    {
        self.acc_write(BMI088_INT2_IO_CONF, conf)
    }

    /// Mapping the accelerometer interrupts (see `AccIntMap`).
    pub fn set_int1_int2_map_request(&self, conf: u8) -> (r: RegisterWrite)
        ensures
            r == (RegisterWrite { addr: self.acc_address(), reg: BMI088_INT1_INT2_MAP_DATA, value: conf }),
    {
        self.acc_write(BMI088_INT1_INT2_MAP_DATA, conf)
    }
}

/// The recommended self-test procedure of the accelerometer (datasheet
/// section 4.6.1), in order. It ends with a soft reset, so the sensor must be
/// configured again afterwards.
pub open spec fn spec_self_test_steps() -> Seq<SelfTestStep> {
    seq![
        SelfTestStep::SetRange(AccRange::Range24G),
        SelfTestStep::SetConf(
            AccConf::Osr(AccOsr::Normal).code() | AccConf::Odr(AccOdr::Hz1600).code(),
        ),
        SelfTestStep::DelayMs(2),
        SelfTestStep::SelfTest(AccSelfTest::Positive),
        SelfTestStep::DelayMs(50),
        SelfTestStep::ReadPositive,
        SelfTestStep::SelfTest(AccSelfTest::Negative),
        SelfTestStep::DelayMs(50),
        SelfTestStep::ReadNegative,
        SelfTestStep::SelfTest(AccSelfTest::Disabled),
        SelfTestStep::DelayMs(50),
        SelfTestStep::Reset,
    ]
}

/// The self-test excitation in effect before step `i` of `steps`: the one
/// the most recent `SelfTest` step switched to, or disabled (the power-on
/// setting) if none has switched it yet.
pub open spec fn excitation_before(steps: Seq<SelfTestStep>, i: int) -> AccSelfTest
    decreases i,
{
    if i <= 0 {
        AccSelfTest::Disabled
    } else {
        match steps[i - 1] {
            SelfTestStep::SelfTest(conf) => conf,
            _ => excitation_before(steps, i - 1),
        }
    }
}

/// The measurement range set by the most recent `SetRange` step before step
/// `i` of `steps`, if any.
pub open spec fn range_before(steps: Seq<SelfTestStep>, i: int) -> Option<AccRange>
    decreases i,
{
    if i <= 0 {
        None
    } else {
        match steps[i - 1] {
            SelfTestStep::SetRange(range) => Some(range),
            _ => range_before(steps, i - 1),
        }
    }
}

/// The self-test reads its positive sample under positive excitation and its
/// negative sample under negative excitation, both in the 24 g range, each
/// at least 50 ms after the excitation was switched; both samples are taken,
/// and the excitation is switched off again before the closing reset.
pub proof fn lemma_self_test_reads_under_matching_excitation()
    ensures
        forall|i: int|
            0 <= i < spec_self_test_steps().len() && spec_self_test_steps()[i]
                == SelfTestStep::ReadPositive ==> excitation_before(spec_self_test_steps(), i)
                == AccSelfTest::Positive && range_before(spec_self_test_steps(), i) == Some(
                AccRange::Range24G,
            ) && spec_self_test_steps()[i - 1] == SelfTestStep::DelayMs(50),
        forall|i: int|
            0 <= i < spec_self_test_steps().len() && spec_self_test_steps()[i]
                == SelfTestStep::ReadNegative ==> excitation_before(spec_self_test_steps(), i)
                == AccSelfTest::Negative && range_before(spec_self_test_steps(), i) == Some(
                AccRange::Range24G,
            ) && spec_self_test_steps()[i - 1] == SelfTestStep::DelayMs(50),
        spec_self_test_steps().contains(SelfTestStep::ReadPositive),
        spec_self_test_steps().contains(SelfTestStep::ReadNegative),
        spec_self_test_steps().last() == SelfTestStep::Reset,
        excitation_before(spec_self_test_steps(), spec_self_test_steps().len() - 1)
            == AccSelfTest::Disabled,
{
    reveal_with_fuel(excitation_before, 12);
    reveal_with_fuel(range_before, 12);
    let steps = spec_self_test_steps();
    assert(steps[5] == SelfTestStep::ReadPositive);
    assert(steps[8] == SelfTestStep::ReadNegative);
}

/// Lists the steps of the accelerometer self-test.
pub fn self_test_steps() -> (r: Vec<SelfTestStep>)
    ensures
        r@ == spec_self_test_steps(),
{
    let conf = AccConf::Osr(AccOsr::Normal) | AccConf::Odr(AccOdr::Hz1600);
    let r = vec![
        SelfTestStep::SetRange(AccRange::Range24G),
        SelfTestStep::SetConf(conf),
        SelfTestStep::DelayMs(2),
        SelfTestStep::SelfTest(AccSelfTest::Positive),
        SelfTestStep::DelayMs(50),
        SelfTestStep::ReadPositive,
        SelfTestStep::SelfTest(AccSelfTest::Negative),
        SelfTestStep::DelayMs(50),
        SelfTestStep::ReadNegative,
        SelfTestStep::SelfTest(AccSelfTest::Disabled),
        SelfTestStep::DelayMs(50),
        SelfTestStep::Reset,
    ];
    assert(r@ =~= spec_self_test_steps());
    r
}

} // verus!
