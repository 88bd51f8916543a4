use airbrakes::bmi088::config::{
    AccConf, AccIntConf, AccIntMap, AccOdr, AccOsr, AccRange, AccSelfTest,
};
use airbrakes::bmi088::driver::{self_test_steps, AccPowerStep, Bmi088, Device, Error, SelfTestStep};
use airbrakes::bmi088::measurements::{AccSelfTestResult, Acceleration};
use airbrakes::bus::{RegisterRead, RegisterWrite};

#[test]
fn range_codes_and_scale() {
    assert_eq!(u8::from(AccRange::Range3G), 0x00);
    assert_eq!(u8::from(AccRange::Range6G), 0x01);
    assert_eq!(u8::from(AccRange::Range12G), 0x02);
    assert_eq!(u8::from(AccRange::Range24G), 0x03);
    assert_eq!(AccRange::Range12G.full_scale_g(), 12);
    assert_eq!(AccRange::default(), AccRange::Range6G);
}

#[test]
fn conf_combines_rate_and_oversampling() {
    let v = AccConf::Odr(AccOdr::Hz100) | AccConf::Osr(AccOsr::Normal);
    assert_eq!(v, 0x28);
    assert_eq!(AccConf::Osr(AccOsr::Normal) | AccConf::Odr(AccOdr::Hz1600), 0x2c);
    assert_eq!(v & 0x0f, u8::from(AccOdr::Hz100));
    assert_eq!(v >> 4, u8::from(AccOsr::Normal));
    assert_eq!(AccConf::Odr(AccOdr::Hz12_5) | 0x80u8, 0x85);
    assert_eq!(0x80u8 | AccConf::Osr(AccOsr::Osr2), 0x90);
    assert_eq!(AccOdr::default(), AccOdr::Hz100);
    assert_eq!(AccOsr::default(), AccOsr::Normal);
}

#[test]
fn int_conf_and_map_operators() {
    assert_eq!(AccIntConf::EnableOutput | AccIntConf::ActiveHigh, 0x0a);
    assert_eq!(AccIntConf::EnableInput | AccIntConf::OpenDrain, 0x14);
    assert_eq!(u8::from(AccIntConf::PushPull), 0x00);
    assert_eq!(!AccIntConf::EnableOutput, 0xf7);
    assert_eq!(AccIntConf::OpenDrain & 0xffu8, 0x04);
    assert_eq!(0x0cu8 & AccIntConf::OpenDrain, 0x04);
    assert_eq!(AccIntConf::OpenDrain & AccIntConf::EnableOutput, 0x00);
    assert_eq!(AccIntMap::Int1Drdy | AccIntMap::Int2Drdy, 0x44);
    assert_eq!(!AccIntMap::Int2Drdy, 0xbf);
    assert_eq!(u8::from(AccSelfTest::Positive), 0x0d);
    assert_eq!(u8::from(AccSelfTest::Negative), 0x09);
}

#[test]
fn driver_addresses() {
    let bmi = Bmi088::new(7u32);
    assert_eq!(bmi.i2c_addr(Device::Acc), 0x18);
    assert_eq!(bmi.i2c_addr(Device::Gyro), 0x68);
    assert_eq!(bmi.acc_range(), AccRange::Range6G);
    let bmi = bmi.with_sdo1_high();
    assert_eq!(bmi.i2c_addr(Device::Acc), 0x19);
    assert_eq!(bmi.i2c_addr(Device::Gyro), 0x68);
    let bmi = bmi.with_sdo2_high();
    assert_eq!(bmi.i2c_addr(Device::Gyro), 0x69);
    assert_eq!(bmi.destroy(), 7u32);
}

#[test]
fn driver_requests() {
    let mut bmi = Bmi088::new(());
    assert_eq!(bmi.read_acc_request(), RegisterRead { addr: 0x18, reg: 0x12, len: 6 });
    assert_eq!(bmi.read_acc_chip_id_request().reg, 0x00);
    assert_eq!(bmi.enable_acc_request().value, 0x04);
    assert_eq!(bmi.disable_acc_request().value, 0x00);
    assert_eq!(bmi.reset_acc_request().value, 0xb6);
    let w = bmi.set_acc_range_request(AccRange::Range24G);
    assert_eq!((w.addr, w.reg, w.value), (0x18, 0x41, 0x03));
    assert_eq!(w.bytes(), [0x41, 0x03]);
    assert!(bmi.finish_set_acc_range::<()>(AccRange::Range24G, Ok(())).is_ok());
    assert_eq!(bmi.acc_range(), AccRange::Range24G);
    assert!(bmi.finish_reset_acc::<()>(Ok(())).is_ok());
    assert_eq!(bmi.acc_range(), AccRange::Range6G);
    assert_eq!(bmi.set_acc_conf_request(0x28).value, 0xa8);
    assert_eq!(bmi.set_acc_conf_request(0x8c).value, 0x8c);
    assert_eq!(bmi.set_int1_conf_request(0x0a).reg, 0x53);
    assert_eq!(bmi.set_int2_conf_request(0x0a).reg, 0x54);
    assert_eq!(bmi.set_int1_int2_map_request(0x04).reg, 0x58);
    assert_eq!(bmi.set_self_test_request(AccSelfTest::Negative).value, 0x09);
    *bmi.bus_mut() = ();
}

#[test]
fn acceleration_decoding() {
    let a = Acceleration::from_le_bytes([0x01, 0x00, 0xff, 0xff, 0x00, 0x80]);
    assert_eq!((a.x_raw(), a.y_raw(), a.z_raw()), (1, -1, i16::MIN));
    let b = Acceleration::from_le_bytes([0x34, 0x12, 0xff, 0x7f, 0x00, 0x00]);
    assert_eq!((b.x_raw(), b.y_raw(), b.z_raw()), (0x1234, i16::MAX, 0));
    for v in [i16::MIN, -2, -1, 0, 1, 300, i16::MAX] {
        let bytes = v.to_le_bytes();
        let a = Acceleration::from_le_bytes([bytes[0], bytes[1], 0, 0, 0, 0]);
        assert_eq!(a.x_raw(), v);
    }
}

#[test]
fn self_test_difference() {
    let pos = Acceleration::new(1000, 900, -50);
    let neg = Acceleration::new(-200, 100, 50);
    let r = AccSelfTestResult::new(pos, neg);
    assert_eq!((r.x_raw(), r.y_raw(), r.z_raw()), (1200, 800, -100));
}

#[test]
fn self_test_sequence() {
    let steps = self_test_steps();
    assert_eq!(steps.len(), 12);
    assert_eq!(steps[0], SelfTestStep::SetRange(AccRange::Range24G));
    assert_eq!(steps[1], SelfTestStep::SetConf(0x2c));
    assert_eq!(steps[5], SelfTestStep::ReadPositive);
    assert_eq!(steps[8], SelfTestStep::ReadNegative);
    assert_eq!(steps[11], SelfTestStep::Reset);
}

#[test]
fn failed_writes_leave_the_range() {
    let mut bmi = Bmi088::new(());
    assert!(matches!(bmi.finish_set_acc_range(AccRange::Range3G, Err(7u8)), Err(Error::I2c(7))));
    assert_eq!(bmi.acc_range(), AccRange::Range6G);
    assert!(bmi.finish_set_acc_range::<u8>(AccRange::Range12G, Ok(())).is_ok());
    assert!(matches!(bmi.finish_reset_acc(Err(3u8)), Err(Error::I2c(3))));
    assert_eq!(bmi.acc_range(), AccRange::Range12G);
}

#[test]
fn power_step_sequences() {
    let bmi = Bmi088::new(()).with_sdo1_high();
    assert_eq!(
        bmi.enable_acc_steps(),
        vec![
            AccPowerStep::DelayMs(1),
            AccPowerStep::Write(RegisterWrite { addr: 0x19, reg: 0x7d, value: 0x04 }),
            AccPowerStep::DelayMs(50),
        ]
    );
    assert_eq!(
        bmi.reset_acc_steps(),
        vec![
            AccPowerStep::Write(RegisterWrite { addr: 0x19, reg: 0x7e, value: 0xb6 }),
            AccPowerStep::DelayMs(1),
        ]
    );
}
