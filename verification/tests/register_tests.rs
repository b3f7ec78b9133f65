use bno08x::register::{FRSConfiguration, I2CAddress, Register, ReportId, SH2Read, SH2Write, Status};
use bno08x::spi::error::CSPinError;
use bno08x::spi::register as spi;
use std::convert::TryFrom;

#[test]
fn report_codes_match_the_reference_table() {
    assert_eq!(ReportId::AccelerometerRaw.as_u8(), 0x14);
    assert_eq!(ReportId::AccelerometerCalibrated.as_u8(), 0x01);
    assert_eq!(ReportId::RotationVector.as_u8(), 0x05);
    assert_eq!(ReportId::PersonalActClassifier.as_u8(), 0x1E);
    assert_eq!(ReportId::GyroIntegratedRotVec.as_u8(), 0x2A);
    assert_eq!(ReportId::BaseTimestamp.as_u8(), 0xFB);
    assert_eq!(ReportId::TimestampRebase.as_u8(), 0xFA);
}

#[test]
fn control_register_codes() {
    assert_eq!(Register::Read(SH2Read::ProductIDResponse).addr(), 0xF8);
    assert_eq!(Register::Read(SH2Read::FrsReadResponse).addr(), 0xF3);
    assert_eq!(Register::Read(SH2Read::CommandResponse).addr(), 0xF1);
    assert_eq!(Register::Read(SH2Read::GetFeatureResponse).addr(), 0xFC);
    assert_eq!(Register::Write(SH2Write::GetFeatureRequest).addr(), 0xFE);
    assert_eq!(Register::Write(SH2Write::SetFeatureCommand).addr(), 0xFD);
    assert_eq!(Register::Write(SH2Write::ProductIDRequest).addr(), 0xF9);
    assert_eq!(Register::Write(SH2Write::FrsReadRequest).addr(), 0xF4);
    assert_eq!(Register::Write(SH2Write::CommandRequest).addr(), 0xF2);
}

#[test]
fn bus_addresses() {
    assert_eq!(I2CAddress::Default.as_u8(), 0x4A);
    assert_eq!(I2CAddress::Alternate.as_u8(), 0x4B);
}

#[test]
fn status_labels() {
    assert_eq!(Status::Unreliable.label(), "Unreliable");
    assert_eq!(Status::LowAccuracy.label(), "Low Accuracy");
    assert_eq!(Status::MediumAccuracy.label(), "Medium Accuracy");
    assert_eq!(Status::HighAccuracy.label(), "High Accuracy");
    assert_eq!(Status::Unknown.label(), "Unknown");
}

#[test]
fn frs_codes_round_trip() {
    let all = [
        FRSConfiguration::AgmStaticCalibration,
        FRSConfiguration::AgmNominalCalibration,
        FRSConfiguration::SraStaticCalibration,
        FRSConfiguration::SraNominalCalibration,
        FRSConfiguration::DynamicCalibration,
        FRSConfiguration::MotionEnginePWRMGMT,
        FRSConfiguration::SystemOrientation,
        FRSConfiguration::PrimaryAccelerometerOrient,
        FRSConfiguration::GyroscopeOrientation,
        FRSConfiguration::MagnetometerOrientation,
        FRSConfiguration::ARVRStabilizationRotVec,
        FRSConfiguration::ARVRStabilizationGameRotVec,
        FRSConfiguration::SignificantMotionDetectConf,
        FRSConfiguration::ShakeDetectorConfig,
        FRSConfiguration::MaximumFusionPeriod,
        FRSConfiguration::SerialNumber,
        FRSConfiguration::EnvSensorPressureCalibration,
        FRSConfiguration::EnvSensorTempCalibration,
        FRSConfiguration::EnvSensorHumidityCalibration,
        FRSConfiguration::EnvSensorAmbLightCalibration,
        FRSConfiguration::EnvSensorProximityCalibration,
        FRSConfiguration::ALSCalibration,
        FRSConfiguration::ProximitySensorCalibration,
        FRSConfiguration::StabilityDetectorConfig,
        FRSConfiguration::UserRecord,
        FRSConfiguration::MotionEngineTimeSourceSel,
        FRSConfiguration::GyroIntegratedRotVecConfig,
    ];
    for c in all {
        let code = c.as_u16();
        assert_eq!(FRSConfiguration::try_from(code), Ok(c));
        assert_eq!(u16::from_le_bytes(c.addr()), code);
    }
}

#[test]
fn frs_addr_is_little_endian() {
    assert_eq!(FRSConfiguration::MotionEnginePWRMGMT.addr(), [0xE2, 0xD3]);
    assert_eq!(FRSConfiguration::GyroIntegratedRotVecConfig.as_u16(), 0xA1A2);
}

#[test]
fn frs_unknown_code_is_refused() {
    assert_eq!(FRSConfiguration::try_from(0x1234u16), Err(()));
    assert_eq!(FRSConfiguration::try_from(0u16), Err(()));
}

#[test]
fn spi_register_codes() {
    assert_eq!(spi::Register::Read(spi::SH2Read::GetFeatureResponse).addr(), 0xFC);
    assert_eq!(spi::Register::Read(spi::SH2Read::FrsWriteResponse).addr(), 0xF5);
    assert_eq!(spi::Register::Write(spi::SH2Write::FrsWriteData).addr(), 0xF6);
    assert_eq!(spi::Register::Report(spi::ReportID::RotationVector).addr(), 0x05);
}

#[test]
fn infallible_pin_errors_convert() {
    let r: Result<(), std::convert::Infallible> = Ok(());
    let mapped: Result<(), CSPinError> = r.map_err(CSPinError::from);
    assert_eq!(mapped, Ok(()));
}
