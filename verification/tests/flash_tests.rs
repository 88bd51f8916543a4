use airbrakes::w25qxxxjv::driver::{
    addressed_frame, init_steps, is_busy, InitStep, manufacturer_device_id_command, sector_erase_command,
    status_register_command, Error, PageWrite, W25qxxxjv,
};
use airbrakes::w25qxxxjv::regs::{Model, StatusRegister};

type E = Error<(), ()>;

#[test]
fn model_table() {
    assert_eq!(Model::W25q16jv.capacity(), 1 << 21);
    assert_eq!(Model::W25q128jv.capacity(), 1 << 24);
    assert_eq!(Model::W25q64jv.device_id(), 0x16);
    assert_eq!(Model::W25q128jv.device_id(), 0x17);
    assert_eq!(StatusRegister::SR2.byte_read(), 0x35);
    assert_eq!(status_register_command(StatusRegister::SR1), 0x05);
}

#[test]
fn bounds() {
    let mut d = ();
    let w = W25qxxxjv::new((), (), Model::W25q16jv, &mut d);
    assert!(w.in_bounds(0x1f_ffff));
    assert!(!w.in_bounds(0x20_0000));
    assert!(w.slice_in_bounds(0x1f_ff00, 0x100));
    assert!(!w.slice_in_bounds(0x1f_ff00, 0x101));
    assert!(w.slice_in_bounds(5, 0));
    assert!(matches!(w.read_data_command::<(), ()>(0x1f_ffff, 2), Err(Error::OutOfBounds)));
    assert!(matches!(w.page_program_command::<(), ()>(0x20_0000, 1), Err(Error::OutOfBounds)));
}

#[test]
fn frames() {
    let mut d = ();
    let w = W25qxxxjv::new((), (), Model::W25q128jv, &mut d);
    assert_eq!(w.read_data_command::<(), ()>(0x12_3456, 4).unwrap(), [0x03, 0x12, 0x34, 0x56]);
    assert_eq!(w.page_program_command::<(), ()>(0xff, 1).unwrap(), [0x02, 0x00, 0x00, 0xff]);
    assert_eq!(sector_erase_command(0x12_3456), [0x20, 0x12, 0x30, 0x00]);
    assert_eq!(sector_erase_command(0xfff), [0x20, 0x00, 0x00, 0x00]);
    assert_eq!(manufacturer_device_id_command(), [0x90, 0, 0, 0]);
    assert_eq!(addressed_frame(0x06, 0x0001_0203), [0x06, 0x01, 0x02, 0x03]);
}

#[test]
fn id_check() {
    let mut d = ();
    let w = W25qxxxjv::new((), (), Model::W25q128jv, &mut d);
    assert!(w.check_ids::<(), ()>(0xef, 0x17).is_ok());
    assert!(matches!(w.check_ids::<(), ()>(0xef, 0x16), Err(Error::ModelMismatch)));
    assert!(matches!(w.check_ids::<(), ()>(0x00, 0x17), Err(Error::ModelMismatch)));
    assert_eq!(w.destroy(), ());
}

#[test]
fn busy_bit() {
    assert!(is_busy(0x01));
    assert!(is_busy(0x03));
    assert!(!is_busy(0x02));
    assert!(!is_busy(0x00));
}

#[test]
fn page_plan_splits_on_page_boundaries() {
    let mut d = ();
    let w = W25qxxxjv::new((), (), Model::W25q128jv, &mut d);
    // "Lorem ipsum dolor sit amet" written at 0xf0 crosses one page boundary.
    let plan = w.write_data_plan::<(), ()>(0xf0, 26).unwrap();
    assert_eq!(
        plan,
        vec![
            PageWrite { addr: 0xf0, start: 0, end: 16 },
            PageWrite { addr: 0x100, start: 16, end: 26 },
        ]
    );
    let plan = w.write_data_plan::<(), ()>(0xf0, 600).unwrap();
    assert_eq!(
        plan,
        vec![
            PageWrite { addr: 0xf0, start: 0, end: 16 },
            PageWrite { addr: 0x100, start: 16, end: 272 },
            PageWrite { addr: 0x200, start: 272, end: 528 },
            PageWrite { addr: 0x300, start: 528, end: 600 },
        ]
    );
    let plan = w.write_data_plan::<(), ()>(0x0, 36).unwrap();
    assert_eq!(plan, vec![PageWrite { addr: 0, start: 0, end: 36 }]);
    assert!(w.write_data_plan::<(), ()>(0x10, 0).unwrap().is_empty());
    let r: Result<Vec<PageWrite>, E> = w.write_data_plan(0xff_ff00, 0x101);
    assert!(matches!(r, Err(Error::OutOfBounds)));
}

#[test]
fn lent_parts() {
    let mut delay = 10u32;
    let mut w = W25qxxxjv::new(1u8, 2u16, Model::W25q32jv, &mut delay);
    *w.spi_mut() = 5;
    *w.cs_mut() = 6;
    *w.delay_mut() = 7;
    assert_eq!(w.model(), Model::W25q32jv);
    assert_eq!(w.destroy(), 5);
    assert_eq!(delay, 7);
}

#[test]
fn init_sequence() {
    assert_eq!(init_steps(), vec![InitStep::CsHigh, InitStep::DelayMs(5), InitStep::ReadIds]);
}
