use airbrakes::flight_log::{
    Error, FeedOutcome, FlightLog, FlightName, FlightTime, LogHeader, FIRST_PACKET_ADDRESS,
    LOG_MAGIC_CONSTANT,
};
use airbrakes::w25qxxxjv::driver::W25qxxxjv;
use airbrakes::w25qxxxjv::regs::Model;

#[test]
fn magic_is_the_version_string() {
    assert_eq!(&LOG_MAGIC_CONSTANT, b"FLIGHTLOG V1");
}

#[test]
fn flight_time() {
    let t = FlightTime::from_millis(12_345);
    assert_eq!(t.as_millis(), 12_345);
    assert_eq!(u64::from(t), 12_345);
    assert_eq!(t.seconds_and_millis(), (12, 345));
    assert_eq!(FlightTime::from_millis(999).seconds_and_millis(), (0, 999));
    let _ = FlightTime::now();
}

#[test]
fn flight_name_capacity() {
    assert_eq!(FlightName::new("IREC 2026").unwrap().as_str(), "IREC 2026");
    assert!(FlightName::new("0123456789abcdef0123456789abcdef").is_some());
    assert!(FlightName::new("0123456789abcdef0123456789abcdef!").is_none());
    // multi-byte characters count by their bytes
    assert!(FlightName::new("ééééééééééééééééé").is_none());
}

#[test]
fn fresh_log_reads_where_it_writes() {
    let mut d = ();
    let log = FlightLog::new(W25qxxxjv::new((), (), Model::W25q128jv, &mut d));
    assert_eq!(log.read_cursor(), FIRST_PACKET_ADDRESS);
    assert_eq!(log.packet_address(), FIRST_PACKET_ADDRESS);
    assert_eq!(log.header.packet_count, 0);
    assert!(log.header.flight_name.is_none());
    assert!(log.header.magic_matches());
}

#[test]
fn packets_are_stored_back_to_back() {
    let mut d = ();
    let mut log = FlightLog::new(W25qxxxjv::new((), (), Model::W25q128jv, &mut d));
    log.record_packet(19);
    assert_eq!(log.packet_address(), 0x1000 + 19);
    log.record_packet(40);
    assert_eq!(log.packet_address(), 0x1000 + 59);
    assert_eq!(log.header.packet_count, 2);
    log.reset();
    assert_eq!(log.packet_address(), 0x1000);
    assert_eq!(log.header.packet_count, 0);
}

#[test]
fn feeding_moves_the_read_cursor() {
    let mut d = ();
    let mut log = FlightLog::new(W25qxxxjv::new((), (), Model::W25q128jv, &mut d));
    // a 40-byte frame: one full chunk, then 8 bytes of the next
    assert!(matches!(log.on_feed::<()>(FeedOutcome::Consumed), Ok(false)));
    assert_eq!(log.read_cursor(), 0x1020);
    assert!(matches!(log.on_feed::<()>(FeedOutcome::Success { remaining: 24 }), Ok(true)));
    assert_eq!(log.read_cursor(), 0x1000 + 40);
    assert!(matches!(log.on_feed::<()>(FeedOutcome::DeserError { remaining: 30 }), Err(Error::Cobs)));
    assert_eq!(log.read_cursor(), 0x1000 + 42);
    assert!(matches!(log.on_feed::<()>(FeedOutcome::OverFull { remaining: 0 }), Err(Error::Cobs)));
    assert_eq!(log.read_cursor(), 0x1000 + 74);
    log.reset_cursor();
    assert_eq!(log.read_cursor(), 0x1000);
}

#[test]
fn header_install_checks_magic() {
    let mut d = ();
    let mut log = FlightLog::new(W25qxxxjv::new((), (), Model::W25q128jv, &mut d));
    let good = LogHeader::from_parts(
        LOG_MAGIC_CONSTANT,
        0x2000,
        FlightTime::from_millis(5),
        7,
        FlightName::new("test"),
    );
    assert!(log.install_header::<()>(good).is_ok());
    assert_eq!(log.packet_address(), 0x2000);
    assert_eq!(log.header.packet_count, 7);
    assert_eq!(log.header.flight_name.as_ref().unwrap().as_str(), "test");
    let mut bad_magic = LOG_MAGIC_CONSTANT;
    bad_magic[11] = b'2';
    let bad = LogHeader::from_parts(bad_magic, 0x3000, FlightTime::from_millis(1), 1, None);
    assert!(matches!(log.install_header::<()>(bad), Err(Error::MagicMismatch)));
    assert_eq!(log.packet_address(), 0x2000);
    let stamped = log.touch_header();
    assert_eq!(log.header.last_write, stamped);
    assert_eq!(log.header.packet_count, 7);
    log.stamp_header(FlightTime::from_millis(61_250));
    assert_eq!(log.header.last_write.as_millis(), 61_250);
    assert_eq!(log.header.last_write.seconds_and_millis(), (61, 250));
    assert_eq!(log.packet_address(), 0x2000);
    assert_eq!(log.header.packet_count, 7);
    assert_eq!(log.header.flight_name.as_ref().unwrap().as_str(), "test");
    let fresh = LogHeader::fresh(FlightTime::from_millis(9));
    assert_eq!(fresh.write_cursor(), 0x1000);
    assert_eq!(fresh.magic(), LOG_MAGIC_CONSTANT);
    assert_eq!(fresh.last_write.as_millis(), 9);
}

#[test]
fn times_order_as_their_millis() {
    let a = FlightTime::from_millis(999);
    let b = FlightTime::from_millis(1_000);
    assert!(a < b);
    assert!(a <= b);
    assert!(b > a);
    assert!(!(b <= a));
    assert_eq!(a.partial_cmp(&b), Some(std::cmp::Ordering::Less));
    assert_eq!(a.cmp(&b), std::cmp::Ordering::Less);
    assert!(FlightTime::from_millis(7) <= FlightTime::from_millis(7));
    assert_eq!(FlightTime::from_millis(7), FlightTime::from_millis(7));
}

#[test]
fn failed_packet_write_leaves_the_log_unchanged() {
    let mut d = ();
    let mut log = FlightLog::new(W25qxxxjv::new((), (), Model::W25q128jv, &mut d));
    assert!(log.finish_packet_write::<u8>(20, Ok(())).is_ok());
    assert_eq!(log.packet_address(), 0x1000 + 20);
    assert_eq!(log.header.packet_count, 1);
    assert!(matches!(log.finish_packet_write::<u8>(30, Err(5)), Err(Error::W25(5))));
    assert_eq!(log.packet_address(), 0x1000 + 20);
    assert_eq!(log.header.packet_count, 1);
}
