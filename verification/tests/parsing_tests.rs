use bno08x::parsing::{
    get_control_report_length, get_feature_dependencies, get_report_format, get_report_length,
    process_buf, DataTypes, DataVals,
};
use bno08x::register::{ReportId, SH2Read};

#[test]
fn report_lengths() {
    assert_eq!(get_report_length(0x05), Some((ReportId::RotationVector, 14)));
    assert_eq!(get_report_length(0x01), Some((ReportId::AccelerometerCalibrated, 10)));
    assert_eq!(get_report_length(0x10), Some((ReportId::TapDetector, 5)));
    assert_eq!(get_report_length(0x15), Some((ReportId::GyroscopeRaw, 16)));
    assert_eq!(get_report_length(0x0A), None);
    assert_eq!(get_report_length(0xFF), None);
    assert_eq!(get_report_length(0x00), None);
}

#[test]
fn report_formats() {
    let (id, fmt) = get_report_format(ReportId::Gravity).unwrap();
    assert_eq!(id, ReportId::Gravity);
    assert_eq!(fmt, vec![DataTypes::I16, DataTypes::I16, DataTypes::I16]);
    let (_, raw) = get_report_format(ReportId::AccelerometerRaw).unwrap();
    assert_eq!(
        raw,
        vec![DataTypes::U16, DataTypes::U16, DataTypes::U16, DataTypes::Reserved, DataTypes::Reserved, DataTypes::U32]
    );
    let (_, pac) = get_report_format(ReportId::PersonalActClassifier).unwrap();
    assert_eq!(pac.len(), 12);
    assert!(get_report_format(ReportId::Pressure).is_none());
    assert!(get_report_format(ReportId::FlipDetector).is_none());
}

#[test]
fn feature_dependencies() {
    assert_eq!(
        get_feature_dependencies(ReportId::RotationVector),
        vec![ReportId::AccelerometerCalibrated, ReportId::GyroscopeCalibrated, ReportId::MagFieldCalibrated]
    );
    assert_eq!(get_feature_dependencies(ReportId::GyroscopeRaw), vec![ReportId::GyroscopeCalibrated]);
    assert!(get_feature_dependencies(ReportId::AccelerometerCalibrated).is_empty());
    assert!(get_feature_dependencies(ReportId::Pressure).is_empty());
}

#[test]
fn control_report_lengths() {
    assert_eq!(get_control_report_length(0xFC), Some((SH2Read::GetFeatureResponse, 17)));
    assert_eq!(get_control_report_length(0xF8), Some((SH2Read::ProductIDResponse, 16)));
    assert_eq!(get_control_report_length(0xF3), Some((SH2Read::FrsReadResponse, 16)));
    assert_eq!(get_control_report_length(0xF1), Some((SH2Read::CommandResponse, 16)));
    assert_eq!(get_control_report_length(0x00), None);
}

#[test]
fn field_values_are_little_endian() {
    assert_eq!(DataVals::get_value(&[0xFF, 0x7F], DataTypes::I16), DataVals::I16(32767));
    assert_eq!(DataVals::get_value(&[0x00, 0x80], DataTypes::I16), DataVals::I16(-32768));
    assert_eq!(DataVals::get_value(&[0x34, 0x12], DataTypes::U16), DataVals::U16(0x1234));
    assert_eq!(DataVals::get_value(&[1, 2, 3, 4], DataTypes::U32), DataVals::U32(0x04030201));
    assert_eq!(DataVals::get_value(&[0xFF, 0xFF, 0xFF, 0xFF], DataTypes::I32), DataVals::I32(-1));
    assert_eq!(DataVals::get_value(&[5, 6], DataTypes::U8), DataVals::U8(6));
    assert_eq!(DataVals::get_value(&[], DataTypes::U8), DataVals::U8(0));
    assert_eq!(DataVals::get_value(&[1, 2, 3], DataTypes::Reserved), DataVals::Reserved);
}

#[test]
fn field_of_wrong_size_reads_as_zero() {
    assert_eq!(DataVals::get_value(&[1, 2, 3], DataTypes::I16), DataVals::I16(0));
    assert_eq!(DataVals::get_value(&[1, 2], DataTypes::U32), DataVals::U32(0));
    assert_eq!(DataVals::get_value(&[1, 2], DataTypes::I32), DataVals::I32(0));
}

#[test]
fn i16_bytes_round_trip() {
    for x in [-32768i16, -1, 0, 1, 255, 256, 12345, 32767] {
        assert_eq!(DataVals::get_value(&x.to_le_bytes(), DataTypes::I16), DataVals::I16(x));
    }
}

#[test]
fn raw_layout_decodes_samples_and_timestamp() {
    let fmt = [DataTypes::U16, DataTypes::U16, DataTypes::U16, DataTypes::Reserved, DataTypes::Reserved, DataTypes::U32];
    let buf = [1, 0, 2, 0, 3, 0, 0x78, 0x56, 0x34, 0x12];
    let out = process_buf(&fmt, &buf);
    assert_eq!(
        out.as_slice(),
        &[DataVals::U16(1), DataVals::U16(2), DataVals::U16(3), DataVals::U32(0x12345678)]
    );
}

#[test]
fn wide_fields_advance_two_bytes() {
    let out = process_buf(&[DataTypes::I32, DataTypes::I16], &[1, 0, 0, 0, 5, 0]);
    assert_eq!(out.as_slice(), &[DataVals::I32(1), DataVals::I16(0)]);
}

#[test]
fn at_most_twenty_values_are_kept() {
    let fmt = [DataTypes::I16; 21];
    let buf: Vec<u8> = (0..42u8).collect();
    let out = process_buf(&fmt, &buf);
    assert_eq!(out.len(), 20);
    assert_eq!(out[19], DataVals::I16(i16::from_le_bytes([38, 39])));
}
