use airbrakes::bmp390::config::{PowerCtrl, PowerCtrlMode};
use airbrakes::bmp390::driver::{is_drdy_press, is_drdy_temp, Bmp390};
use airbrakes::bmp390::measurements::{split_reading, Pressure, RawCoefficients, Temperature};

#[test]
fn power_ctrl_encoding() {
    let v = PowerCtrl::PressureEnable
        | PowerCtrl::TemperatureEnable
        | PowerCtrl::Mode(PowerCtrlMode::Normal);
    assert_eq!(v, 0x33);
    let f = PowerCtrl::PressureEnable | PowerCtrl::Mode(PowerCtrlMode::Forced);
    assert_eq!(f, 0x11);
    assert_eq!(u8::from(PowerCtrl::Mode(PowerCtrlMode::Sleep)), 0x00);
    assert_eq!(PowerCtrl::PressureEnable & PowerCtrl::TemperatureEnable, 0x00);
    assert_eq!(0x33u8 & PowerCtrl::Mode(PowerCtrlMode::Forced), 0x10);
    assert_eq!(!PowerCtrl::TemperatureEnable, 0xfd);
}

#[test]
fn raw_values() {
    assert_eq!(u32::from(Pressure::new([0x01, 0x02, 0x03])), 0x030201);
    assert_eq!(u32::from(Temperature::new([0xff, 0xff, 0xff])), 0xff_ffff);
    let (p, t) = split_reading([0x10, 0x20, 0x30, 0x40, 0x50, 0x60]);
    assert_eq!(u32::from(p), 0x302010);
    assert_eq!(u32::from(t), 0x605040);
}

#[test]
fn coefficient_decoding() {
    let mut c = [0u8; 21];
    c[0] = 0x34; c[1] = 0x12; // t1
    c[4] = 0xff; // t3 = -1
    c[5] = 0x00; c[6] = 0x80; // p1 = i16::MIN
    c[9] = 0x80; // p3 = -128
    c[11] = 0xff; c[12] = 0xff; // p5 = 65535
    c[17] = 0xfe; c[18] = 0xff; // p9 = -2
    c[20] = 0x7f; // p11 = 127
    let r = RawCoefficients::from_bytes(c);
    assert_eq!(r.t1, 0x1234);
    assert_eq!(r.t3, -1);
    assert_eq!(r.p1, i16::MIN);
    assert_eq!(r.p3, -128);
    assert_eq!(r.p5, 65535);
    assert_eq!(r.p9, -2);
    assert_eq!(r.p11, 127);
    assert_eq!(r.p10, 0);
}

#[test]
fn driver_requests_and_status() {
    let bmp = Bmp390::new(3u8);
    assert_eq!(bmp.i2c_addr(), 0x76);
    let r = bmp.read_coefficients_request();
    assert_eq!((r.addr, r.reg, r.len), (0x76, 0x31, 21));
    assert_eq!(bmp.read_pressure_request().reg, 0x04);
    assert_eq!(bmp.read_temperature_request().reg, 0x07);
    assert_eq!(bmp.read_request().len, 6);
    assert_eq!(bmp.status_request().reg, 0x03);
    assert_eq!(bmp.set_pwr_ctrl_request(0x33).reg, 0x1b);
    let bmp = bmp.with_sdo_high();
    assert_eq!(bmp.i2c_addr(), 0x77);
    assert_eq!(bmp.destroy(), 3u8);
    assert!(is_drdy_press(0x10));
    assert!(!is_drdy_press(0x20));
    assert!(is_drdy_temp(0x30));
    assert!(!is_drdy_temp(0x10));
}
