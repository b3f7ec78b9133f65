use bno08x::data::Packet;
use bno08x::driver::{
    product_id_reported, product_id_request, sensor_report_fits, set_feature_command, Bno08xState,
    EnableStep, PacketWait, WaitStep, DEFAULT_REPORT_INTERVAL, READ, WRITE,
};
use bno08x::register::{ReportId, SH2Read, Status};

#[test]
fn bus_address_choice() {
    assert_eq!(Bno08xState::new(true).address(), 0x4A);
    assert_eq!(Bno08xState::new(false).address(), 0x4B);
}

#[test]
fn write_counters_step_per_channel() {
    let mut s = Bno08xState::new(true);
    assert_eq!(s.increment_seq_num(WRITE, 2, None), 1);
    assert_eq!(s.increment_seq_num(WRITE, 2, None), 2);
    assert_eq!(s.increment_seq_num(WRITE, 3, None), 1);
    assert_eq!(s.write_sequence(), [0, 0, 2, 1, 0, 0]);
    assert_eq!(s.read_sequence(), [0; 6]);
}

#[test]
fn counters_wrap_at_256() {
    let mut s = Bno08xState::new(true);
    let mut last = 0;
    for _ in 0..256 {
        last = s.increment_seq_num(WRITE, 0, None);
    }
    assert_eq!(last, 0);
    assert_eq!(s.write_sequence()[0], 0);
}

#[test]
fn read_counters_take_given_numbers() {
    let mut s = Bno08xState::new(true);
    assert_eq!(s.increment_seq_num(READ, 4, Some(9)), 9);
    assert_eq!(s.increment_seq_num(READ, 4, None), 10);
    assert_eq!(s.read_sequence()[4], 10);
}

#[test]
fn channels_above_five_have_no_counter() {
    let mut s = Bno08xState::new(true);
    assert_eq!(s.increment_seq_num(WRITE, 6, None), 0);
    assert_eq!(s.increment_seq_num(READ, 200, Some(3)), 0);
    assert_eq!(s.write_sequence(), [0; 6]);
    assert_eq!(s.read_sequence(), [0; 6]);
}

#[test]
fn outgoing_packets() {
    let mut s = Bno08xState::new(true);
    let mut p = s.prepare_packet(2, &product_id_request());
    assert_eq!(p.full_packet().as_slice(), &[6u8, 0, 2, 0, 0xF9, 0]);
    assert_eq!(s.write_sequence()[2], 1);
    let mut r = s.soft_reset_packet();
    assert_eq!(r.full_packet().as_slice(), &[5u8, 0, 1, 0, 1]);
    assert_eq!(s.write_sequence()[1], 1);
}

#[test]
fn received_header_sizes_the_packet() {
    let mut s = Bno08xState::new(true);
    let mut p = s.take_header([0x14, 0x00, 3, 7]);
    assert_eq!(p.channel(), 3);
    assert_eq!(p.seq_num(), 7);
    assert_eq!(p.data_length(), 16);
    assert_eq!(p.as_mut_data(), &[0u8; 16]);
    assert_eq!(s.read_sequence()[0], 7);
}

#[test]
fn unlimited_wait_ends_on_the_channel() {
    let mut w = PacketWait::new(2, Some(SH2Read::ProductIDResponse), None);
    assert_eq!(w.step(&Packet::new()), WaitStep::ReadNext);
    let other = Packet::from_data_buf(&[1], 3, 0).ok().unwrap();
    assert_eq!(w.step(&other), WaitStep::ReadNext);
    let hit = Packet::from_data_buf(&[1], 2, 0).ok().unwrap();
    assert_eq!(w.step(&hit), WaitStep::Done);
}

#[test]
fn limited_wait_fails_after_its_reads() {
    let mut w = PacketWait::new(2, Some(SH2Read::GetFeatureResponse), Some(2));
    let miss = Packet::new();
    assert_eq!(w.step(&miss), WaitStep::ReadNext);
    assert_eq!(w.step(&miss), WaitStep::ReadNext);
    assert_eq!(w.step(&miss), WaitStep::Failed);
    let mut v = PacketWait::new(3, None, Some(1));
    assert_eq!(v.step(&miss), WaitStep::ReadNext);
    let hit = Packet::from_data_buf(&[1], 3, 0).ok().unwrap();
    assert_eq!(v.step(&hit), WaitStep::Done);
}

#[test]
fn set_feature_command_layout() {
    let c = set_feature_command(ReportId::RotationVector, Some(0x01020304), None);
    assert_eq!(c, [0xFD, 0x05, 0, 0, 0, 4, 3, 2, 1, 0, 0, 0, 0, 0, 0, 0, 0]);
    let d = set_feature_command(ReportId::Gravity, None, Some(0xAABBCCDD));
    let iv = DEFAULT_REPORT_INTERVAL.to_le_bytes();
    assert_eq!(d, [0xFD, 0x06, 0, 0, 0, iv[0], iv[1], iv[2], iv[3], 0, 0, 0, 0, 0xDD, 0xCC, 0xBB, 0xAA]);
}

fn sent(step: EnableStep) -> ReportId {
    match step {
        EnableStep::Send { feature, command } => {
            assert_eq!(command[1], feature.as_u8());
            feature
        }
        EnableStep::Finished => panic!("nothing sent"),
    }
}

#[test]
fn dependencies_are_enabled_first() {
    let mut s = Bno08xState::new(true);
    s.begin_enable(ReportId::RotationVector, Some(5000), None);
    assert_eq!(sent(s.next_enable_action()), ReportId::AccelerometerCalibrated);
    s.finish_enable(true);
    assert_eq!(sent(s.next_enable_action()), ReportId::GyroscopeCalibrated);
    s.finish_enable(true);
    assert_eq!(sent(s.next_enable_action()), ReportId::MagFieldCalibrated);
    s.finish_enable(true);
    match s.next_enable_action() {
        EnableStep::Send { feature, command } => {
            assert_eq!(feature, ReportId::RotationVector);
            assert_eq!(&command[5..9], &5000u32.to_le_bytes());
        }
        EnableStep::Finished => panic!("rotation vector not sent"),
    }
    s.finish_enable(true);
    assert!(matches!(s.next_enable_action(), EnableStep::Finished));
    for id in [ReportId::AccelerometerCalibrated, ReportId::GyroscopeCalibrated, ReportId::MagFieldCalibrated, ReportId::RotationVector] {
        assert!(s.is_enabled(id));
    }
}

#[test]
fn failed_dependency_is_tried_again() {
    let mut s = Bno08xState::new(true);
    s.begin_enable(ReportId::GyroscopeUncalibrated, None, None);
    assert_eq!(sent(s.next_enable_action()), ReportId::AccelerometerCalibrated);
    s.finish_enable(false);
    assert_eq!(sent(s.next_enable_action()), ReportId::GyroscopeCalibrated);
    s.finish_enable(true);
    assert_eq!(sent(s.next_enable_action()), ReportId::AccelerometerCalibrated);
    s.finish_enable(true);
    assert_eq!(sent(s.next_enable_action()), ReportId::GyroscopeUncalibrated);
    s.finish_enable(false);
    assert!(matches!(s.next_enable_action(), EnableStep::Finished));
    assert!(!s.is_enabled(ReportId::GyroscopeUncalibrated));
    assert!(s.is_enabled(ReportId::GyroscopeCalibrated));
}

#[test]
fn enabled_or_unsupported_features_send_nothing() {
    let mut s = Bno08xState::new(true);
    s.begin_enable(ReportId::PersonalActClassifier, None, None);
    assert!(matches!(s.next_enable_action(), EnableStep::Finished));
    s.begin_enable(ReportId::AccelerometerCalibrated, None, None);
    assert_eq!(sent(s.next_enable_action()), ReportId::AccelerometerCalibrated);
    s.finish_enable(true);
    s.begin_enable(ReportId::AccelerometerCalibrated, None, None);
    assert!(matches!(s.next_enable_action(), EnableStep::Finished));
}

fn sensor_packet(payload: &[u8]) -> Packet {
    let mut s = Bno08xState::new(true);
    let len = (payload.len() + 4) as u16;
    let b = len.to_le_bytes();
    let mut p = s.take_header([b[0], b[1], 3, 0]);
    p.as_mut_data().copy_from_slice(payload);
    p
}

#[test]
fn sensor_packet_updates_readings() {
    let mut payload = vec![0xFB, 0, 0, 0, 0];
    payload.extend_from_slice(&[0x01, 0x00, 0x03, 0x00, 0x00, 0x01, 0x02, 0x00, 0xFF, 0xFF]);
    payload.extend_from_slice(&[0x03, 0x00, 0x02, 0x00, 0x05, 0x00, 0x06, 0x00, 0x07, 0x00]);
    assert!(sensor_report_fits(&payload));
    let mut s = Bno08xState::new(true);
    assert!(s.apply_sensor_packet(sensor_packet(&payload)));
    assert_eq!(s.sensors().acceleration, (Status::HighAccuracy, 256, 2, -1));
    assert_eq!(s.sensors().magnetometer, (Status::MediumAccuracy, 5, 6, 7));
}

#[test]
fn short_sensor_packet_is_ignored() {
    let mut s = Bno08xState::new(true);
    assert!(!s.apply_sensor_packet(sensor_packet(&[0xFB, 0, 0, 0, 0])));
    assert_eq!(s.sensors().acceleration, (Status::Unknown, 0, 0, 0));
}

#[test]
fn truncated_report_does_not_fit() {
    let payload = [0xFB, 0, 0, 0, 0, 0x01, 0x00, 0x03, 0x00, 0x00];
    assert!(!sensor_report_fits(&payload));
    assert!(!sensor_report_fits(&[1, 2, 3]));
    assert!(sensor_report_fits(&[0xFB, 0, 0, 0, 0, 0x77, 0x77]));
}

#[test]
fn product_id_version_check() {
    assert!(product_id_reported(&[0xF8, 0, 3, 2]));
    assert!(!product_id_reported(&[0xF8, 0, 0, 0, 9]));
    assert!(!product_id_reported(&[0xF8]));
}
