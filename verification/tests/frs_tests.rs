use bno08x::frs::{FRSData, FRSStatus};
use bno08x::register::FRSConfiguration;
use bno08x::SensorError;

fn response(code: u16, len_status: u8) -> [u8; 16] {
    let c = code.to_le_bytes();
    [0xF3, len_status, 0x10, 0x00, 1, 2, 3, 4, 5, 6, 7, 8, c[0], c[1], 0, 0]
}

#[test]
fn read_request_names_the_record() {
    let f = FRSData::new_read(FRSConfiguration::AgmStaticCalibration);
    assert_eq!(f.generate_read_request(), Ok([0xF4, 0, 0, 0, 0x79, 0x79, 0, 0]));
    let g = FRSData::new_read(FRSConfiguration::MotionEnginePWRMGMT);
    assert_eq!(g.generate_read_request(), Ok([0xF4, 0, 0, 0, 0xE2, 0xD3, 0, 0]));
}

#[test]
fn write_transaction_has_no_read_request() {
    let f = FRSData::new_write(FRSConfiguration::UserRecord, Some(1), None);
    assert_eq!(f.generate_read_request(), Err(SensorError::ReadWriteFlipped));
}

#[test]
fn write_lengths_count_the_words() {
    let a = format!("{:?}", FRSData::new_write(FRSConfiguration::UserRecord, None, None));
    assert!(a.contains("length: Some(0)"));
    let b = format!("{:?}", FRSData::new_write(FRSConfiguration::UserRecord, Some(5), None));
    assert!(b.contains("length: Some(1)"));
    let c = format!("{:?}", FRSData::new_write(FRSConfiguration::UserRecord, None, Some(5)));
    assert!(c.contains("length: Some(2)"));
    let d = format!("{:?}", FRSData::new_write(FRSConfiguration::UserRecord, Some(4), Some(5)));
    assert!(d.contains("length: Some(2)"));
}

#[test]
fn matching_response_is_accepted() {
    let mut f = FRSData::new_read(FRSConfiguration::AgmStaticCalibration);
    assert_eq!(f.process_read_response(&response(0x7979, 0x23)), Ok(()));
    let s = format!("{:?}", f);
    assert!(s.contains("length: Some(2)"));
    assert!(s.contains("status: Some(ReadRecordCompleted)"));
    assert!(s.contains("offset: Some(16)"));
    assert!(s.contains("data_0: Some(67305985)"));
    assert!(s.contains("data_1: Some(134678021)"));
}

#[test]
fn response_for_another_record_is_unimplemented() {
    let mut f = FRSData::new_read(FRSConfiguration::AgmStaticCalibration);
    assert_eq!(f.process_read_response(&response(0x4D4D, 0x10)), Err(SensorError::Unimplemented));
    let s = format!("{:?}", f);
    assert!(s.contains("length: Some(1)"));
    assert!(s.contains("data_1: None"));
}

#[test]
fn non_response_is_invalid_length() {
    let mut f = FRSData::new_read(FRSConfiguration::AgmStaticCalibration);
    assert_eq!(f.process_read_response(&[0xF3, 0, 0]), Err(SensorError::InvalidLength));
    let mut bad = response(0x7979, 0x00);
    bad[0] = 0xF1;
    assert_eq!(f.process_read_response(&bad), Err(SensorError::InvalidLength));
    assert!(format!("{:?}", f).contains("length: None"));
}

#[test]
fn status_nibble() {
    assert_eq!(FRSData::process_status(0x00), FRSStatus::NoError);
    assert_eq!(FRSData::process_status(0xF1), FRSStatus::UnrecognizedFRSType);
    assert_eq!(FRSData::process_status(0x02), FRSStatus::Busy);
    assert_eq!(FRSData::process_status(0x13), FRSStatus::ReadRecordCompleted);
    assert_eq!(FRSData::process_status(0x04), FRSStatus::Deprecated);
    assert_eq!(FRSData::process_status(0x05), FRSStatus::InvalidResponse);
    assert_eq!(FRSData::process_status(0x0F), FRSStatus::InvalidResponse);
}
