use airbrakes::cli::{plan_erase, usb_fs, EraseTarget};
use airbrakes::controller::stage::{FlightStage, StageSignals};
use airbrakes::flight_data::DataFormat;
use airbrakes::sampling::{Bmi088Acceleration, Measurement, SensorKick};

fn signals() -> StageSignals {
    StageSignals {
        launch_acceleration: false,
        launch_velocity: false,
        burnout: false,
        below_active_velocity: false,
        descending: false,
    }
}

#[test]
fn launch_needs_both_signals() {
    let s = StageSignals { launch_acceleration: true, ..signals() };
    assert_eq!(FlightStage::Idle.transition(100, s), None);
    let s = StageSignals { launch_acceleration: true, launch_velocity: true, ..signals() };
    assert_eq!(
        FlightStage::Idle.transition(100, s),
        Some(FlightStage::Boost { start_time_ms: 100 })
    );
}

#[test]
fn full_flight_sequence() {
    let all = StageSignals {
        launch_acceleration: true,
        launch_velocity: true,
        burnout: true,
        below_active_velocity: true,
        descending: true,
    };
    let mut stage = FlightStage::Idle;
    let mut seen = vec![stage];
    while let Some(next) = stage.transition(7, all) {
        assert!(next > stage);
        stage = next;
        seen.push(stage);
    }
    assert_eq!(
        seen,
        vec![
            FlightStage::Idle,
            FlightStage::Boost { start_time_ms: 7 },
            FlightStage::InactiveCoast,
            FlightStage::ActiveCoast,
            FlightStage::Recovery,
        ]
    );
    assert_eq!(FlightStage::Recovery.transition(8, all), None);
    assert_eq!(FlightStage::InactiveCoast.transition(8, signals()), None);
}

#[test]
fn erase_plans() {
    let p = plan_erase(Some(0x1000), true, false);
    assert_eq!(p.target, EraseTarget::Chip);
    assert!(!p.nothing_selected);
    let p = plan_erase(Some(0x1000), false, false);
    assert_eq!(p.target, EraseTarget::Sector(0x1000));
    let p = plan_erase(None, false, false);
    assert_eq!(p.target, EraseTarget::Nothing);
    assert!(p.nothing_selected);
    let p = plan_erase(None, false, true);
    assert_eq!(p.target, EraseTarget::Nothing);
    assert!(!p.nothing_selected);
}

#[test]
fn data_formats() {
    assert_eq!(DataFormat::Pre.pressure_column(), Some(15));
    assert_eq!(DataFormat::Post.pressure_column(), Some(16));
    assert_eq!(DataFormat::Detect.pressure_column(), None);
    assert_eq!(DataFormat::detect(Some("acc_altitude_m")), Some(DataFormat::Pre));
    assert_eq!(DataFormat::detect(Some("altitude_m")), Some(DataFormat::Post));
    assert_eq!(DataFormat::detect(None), None);
}

#[test]
fn sampling() {
    let a = Bmi088Acceleration::new(1, -2, 3);
    assert_eq!((a.x_raw(), a.y_raw(), a.z_raw()), (1, -2, 3));
    assert_eq!(Measurement::ACC(a), Measurement::ACC(Bmi088Acceleration::new(1, -2, 3)));
    assert_eq!(SensorKick::decide(50_001, Some(50_000)), SensorKick::Kick);
    assert_eq!(SensorKick::decide(50_000, Some(50_000)), SensorKick::Idle);
    assert_eq!(SensorKick::decide(1_000_000, None), SensorKick::Idle);
}

#[test]
fn usb_bytes_handed_on() {
    assert_eq!(usb_fs(true, Some(12)), Some(12));
    assert_eq!(usb_fs(true, Some(0)), None);
    assert_eq!(usb_fs(true, None), None);
    assert_eq!(usb_fs(false, Some(12)), None);
}
