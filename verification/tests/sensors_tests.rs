use bno08x::register::{ReportId, Status};
use bno08x::sensors::{parse_status, Sensors};

#[test]
fn status_bytes_give_accuracy_and_delay() {
    assert_eq!(parse_status(&[0, 0, 0b1111_1110, 0x34]), (Status::MediumAccuracy, 0x3F34));
    assert_eq!(parse_status(&[0, 0, 0b0000_0011, 0x01]), (Status::HighAccuracy, 1));
    assert_eq!(parse_status(&[0, 0, 0b0000_0100, 0x00]), (Status::Unreliable, 0x100));
    assert_eq!(parse_status(&[0, 0, 0b0000_0001, 0x00, 9]), (Status::LowAccuracy, 0));
    assert_eq!(parse_status(&[0, 0, 3]), (Status::Unknown, 0));
}

#[test]
fn fresh_readings_are_unknown() {
    let s = Sensors::new();
    assert_eq!(s.acceleration, (Status::Unknown, 0, 0, 0));
    assert_eq!(s.gyro_raw, (Status::Unknown, 0, 0, 0, 0, 0));
    assert_eq!(s.quaternions, (Status::Unknown, 0, 0, 0, 0));
}

#[test]
fn calibrated_acceleration_is_stored() {
    let mut s = Sensors::new();
    s.update_data(ReportId::AccelerometerCalibrated, &[0x00, 0x01, 0xFF, 0xFF, 0x10, 0x00], &[1, 0, 3, 0]);
    assert_eq!(s.acceleration, (Status::HighAccuracy, 256, -1, 16));
    assert_eq!(s.gravity, (Status::Unknown, 0, 0, 0));
}

#[test]
fn raw_gyroscope_is_stored() {
    let mut s = Sensors::new();
    s.update_data(
        ReportId::GyroscopeRaw,
        &[1, 0, 2, 0, 3, 0, 4, 0, 0x78, 0x56, 0x34, 0x12],
        &[0x15, 0, 2, 0],
    );
    assert_eq!(s.gyro_raw, (Status::MediumAccuracy, 1, 2, 3, 4, 0x12345678));
}

#[test]
fn raw_accelerometer_and_magnetometer_are_stored() {
    let mut s = Sensors::new();
    let d = [1, 0, 2, 0, 3, 0, 4, 0, 0, 0, 0xAA, 0xBB];
    s.update_data(ReportId::AccelerometerRaw, &d, &[0x14, 0, 0, 0]);
    assert_eq!(s.accel_raw, (Status::Unreliable, 1, 2, 3, 4));
    s.update_data(ReportId::MagnetometerRaw, &d, &[0x16, 0, 1, 0]);
    assert_eq!(s.mag_raw, (Status::LowAccuracy, 1, 2, 3, 4));
}

#[test]
fn rotation_vectors_are_stored() {
    let mut s = Sensors::new();
    let d = [1, 0, 2, 0, 3, 0, 0x00, 0x40, 0x7F, 0x00];
    s.update_data(ReportId::RotationVector, &d, &[5, 0, 3, 0]);
    assert_eq!(s.quaternions, (Status::HighAccuracy, 1, 2, 3, 0x4000));
    s.update_data(ReportId::GameRotationVector, &d[..8], &[8, 0, 2, 0]);
    assert_eq!(s.game_quaternions, (Status::MediumAccuracy, 1, 2, 3, 0x4000));
    s.update_data(ReportId::GeomagneticRotVector, &d, &[9, 0, 1, 0]);
    assert_eq!(s.geomag_quaternions, (Status::LowAccuracy, 1, 2, 3, 0x4000));
}

#[test]
fn other_calibrated_readings_are_stored() {
    let mut s = Sensors::new();
    let d = [0xFE, 0xFF, 2, 0, 3, 0];
    s.update_data(ReportId::AccelerationLinear, &d, &[4, 0, 3, 0]);
    s.update_data(ReportId::Gravity, &d, &[6, 0, 3, 0]);
    s.update_data(ReportId::GyroscopeCalibrated, &d, &[2, 0, 3, 0]);
    s.update_data(ReportId::MagFieldCalibrated, &d, &[3, 0, 3, 0]);
    assert_eq!(s.linear_accel, (Status::HighAccuracy, -2, 2, 3));
    assert_eq!(s.gravity, (Status::HighAccuracy, -2, 2, 3));
    assert_eq!(s.gyroscope, (Status::HighAccuracy, -2, 2, 3));
    assert_eq!(s.magnetometer, (Status::HighAccuracy, -2, 2, 3));
}

#[test]
fn untracked_reports_change_nothing() {
    let mut s = Sensors::new();
    s.update_data(ReportId::TapDetector, &[1], &[0x10, 0, 3, 0]);
    s.update_data(ReportId::Pressure, &[], &[]);
    assert_eq!(s.acceleration, (Status::Unknown, 0, 0, 0));
    assert_eq!(s.quaternions, (Status::Unknown, 0, 0, 0, 0));
}
