//! Report identifiers, SH-2 control report codes and FRS record types of the
//! BNO08x, with the byte codes they travel as on the wire.

use vstd::prelude::*;

verus! {

/// Sensor report identifiers (SH-2 reference manual, report ID table).
#[derive(Clone, Copy, PartialEq, Eq, Debug, Structural)]
pub enum ReportId {
    AccelerometerRaw,
    AccelerometerCalibrated,
    AccelerationLinear,
    Gravity,
    GyroscopeRaw,
    GyroscopeCalibrated,
    GyroscopeUncalibrated,
    MagnetometerRaw,
    MagFieldCalibrated,
    MagFieldUncalibrated,
    RotationVector,
    GameRotationVector,
    GeomagneticRotVector,
    Pressure,
    AmbientLight,
    Humidity,
    Proximity,
    Tempterature,
    Reserved,
    TapDetector,
    StepDetector,
    StepCounter,
    SignificantMotion,
    StabilityClassifier,
    ShakeDetector,
    FlipDetector,
    PickupDetector,
    StabilityDetector,
    PersonalActClassifier,
    SleepDetector,
    TiltDetector,
    PocketDetector,
    CircleDetector,
    HeartRateMonitor,
    ARVRStabilizedRotVec,
    ARVRStabilizedGameVec,
    GyroIntegratedRotVec,
    MotionRequest,
    OpticalFlow,
    DeadReckoning,
    BaseTimestamp,
    TimestampRebase,
}

impl ReportId {
    /// The byte that identifies this report on the wire.
    pub open spec fn code(self) -> u8 {
        match self {
            ReportId::AccelerometerRaw => 0x14,
            ReportId::AccelerometerCalibrated => 0x01,
            ReportId::AccelerationLinear => 0x04,
            ReportId::Gravity => 0x06,
            ReportId::GyroscopeRaw => 0x15,
            ReportId::GyroscopeCalibrated => 0x02,
            ReportId::GyroscopeUncalibrated => 0x07,
            ReportId::MagnetometerRaw => 0x16,
            ReportId::MagFieldCalibrated => 0x03,
            ReportId::MagFieldUncalibrated => 0x0F,
            ReportId::RotationVector => 0x05,
            ReportId::GameRotationVector => 0x08,
            ReportId::GeomagneticRotVector => 0x09,
            ReportId::Pressure => 0x0A,
            ReportId::AmbientLight => 0x0B,
            ReportId::Humidity => 0x0C,
            ReportId::Proximity => 0x0D,
            ReportId::Tempterature => 0x0E,
            ReportId::Reserved => 0x17,
            ReportId::TapDetector => 0x10,
            ReportId::StepDetector => 0x18,
            ReportId::StepCounter => 0x11,
            ReportId::SignificantMotion => 0x12,
            ReportId::StabilityClassifier => 0x13,
            ReportId::ShakeDetector => 0x19,
            ReportId::FlipDetector => 0x1A,
            ReportId::PickupDetector => 0x1B,
            ReportId::StabilityDetector => 0x1C,
            ReportId::PersonalActClassifier => 0x1E,
            ReportId::SleepDetector => 0x1F,
            ReportId::TiltDetector => 0x20,
            ReportId::PocketDetector => 0x21,
            ReportId::CircleDetector => 0x22,
            ReportId::HeartRateMonitor => 0x23,
            ReportId::ARVRStabilizedRotVec => 0x28,
            ReportId::ARVRStabilizedGameVec => 0x29,
            ReportId::GyroIntegratedRotVec => 0x2A,
            ReportId::MotionRequest => 0x2B,
            ReportId::OpticalFlow => 0x2C,
            ReportId::DeadReckoning => 0x2D,
            ReportId::BaseTimestamp => 0xFB,
            ReportId::TimestampRebase => 0xFA,
        }
    }

    /// The report whose wire code is `b`, if any.
    pub open spec fn from_code(b: u8) -> Option<ReportId> {
        if b == 0x14 { Some(ReportId::AccelerometerRaw) }
        else if b == 0x01 { Some(ReportId::AccelerometerCalibrated) }
        else if b == 0x04 { Some(ReportId::AccelerationLinear) }
        else if b == 0x06 { Some(ReportId::Gravity) }
        else if b == 0x15 { Some(ReportId::GyroscopeRaw) }
        else if b == 0x02 { Some(ReportId::GyroscopeCalibrated) }
        else if b == 0x07 { Some(ReportId::GyroscopeUncalibrated) }
        else if b == 0x16 { Some(ReportId::MagnetometerRaw) }
        else if b == 0x03 { Some(ReportId::MagFieldCalibrated) }
        else if b == 0x0F { Some(ReportId::MagFieldUncalibrated) }
        else if b == 0x05 { Some(ReportId::RotationVector) }
        else if b == 0x08 { Some(ReportId::GameRotationVector) }
        else if b == 0x09 { Some(ReportId::GeomagneticRotVector) }
        else if b == 0x0A { Some(ReportId::Pressure) }
        else if b == 0x0B { Some(ReportId::AmbientLight) }
        else if b == 0x0C { Some(ReportId::Humidity) }
        else if b == 0x0D { Some(ReportId::Proximity) }
        else if b == 0x0E { Some(ReportId::Tempterature) }
        else if b == 0x17 { Some(ReportId::Reserved) }
        else if b == 0x10 { Some(ReportId::TapDetector) }
        else if b == 0x18 { Some(ReportId::StepDetector) }
        else if b == 0x11 { Some(ReportId::StepCounter) }
        else if b == 0x12 { Some(ReportId::SignificantMotion) }
        else if b == 0x13 { Some(ReportId::StabilityClassifier) }
        else if b == 0x19 { Some(ReportId::ShakeDetector) }
        else if b == 0x1A { Some(ReportId::FlipDetector) }
        else if b == 0x1B { Some(ReportId::PickupDetector) }
        else if b == 0x1C { Some(ReportId::StabilityDetector) }
        else if b == 0x1E { Some(ReportId::PersonalActClassifier) }
        else if b == 0x1F { Some(ReportId::SleepDetector) }
        else if b == 0x20 { Some(ReportId::TiltDetector) }
        else if b == 0x21 { Some(ReportId::PocketDetector) }
        else if b == 0x22 { Some(ReportId::CircleDetector) }
        else if b == 0x23 { Some(ReportId::HeartRateMonitor) }
        else if b == 0x28 { Some(ReportId::ARVRStabilizedRotVec) }
        else if b == 0x29 { Some(ReportId::ARVRStabilizedGameVec) }
        else if b == 0x2A { Some(ReportId::GyroIntegratedRotVec) }
        else if b == 0x2B { Some(ReportId::MotionRequest) }
        else if b == 0x2C { Some(ReportId::OpticalFlow) }
        else if b == 0x2D { Some(ReportId::DeadReckoning) }
        else if b == 0xFB { Some(ReportId::BaseTimestamp) }
        else if b == 0xFA { Some(ReportId::TimestampRebase) }
        else { None }
    }

    /// The wire code of this report.
    pub fn as_u8(self) -> (r: u8)
        ensures
            r == self.code(),
    {
        match self {
            ReportId::AccelerometerRaw => 0x14,
            ReportId::AccelerometerCalibrated => 0x01,
            ReportId::AccelerationLinear => 0x04,
            ReportId::Gravity => 0x06,
            ReportId::GyroscopeRaw => 0x15,
            ReportId::GyroscopeCalibrated => 0x02,
            ReportId::GyroscopeUncalibrated => 0x07,
            ReportId::MagnetometerRaw => 0x16,
            ReportId::MagFieldCalibrated => 0x03,
            ReportId::MagFieldUncalibrated => 0x0F,
            ReportId::RotationVector => 0x05,
            ReportId::GameRotationVector => 0x08,
            ReportId::GeomagneticRotVector => 0x09,
            ReportId::Pressure => 0x0A,
            ReportId::AmbientLight => 0x0B,
            ReportId::Humidity => 0x0C,
            ReportId::Proximity => 0x0D,
            ReportId::Tempterature => 0x0E,
            ReportId::Reserved => 0x17,
            ReportId::TapDetector => 0x10,
            ReportId::StepDetector => 0x18,
            ReportId::StepCounter => 0x11,
            ReportId::SignificantMotion => 0x12,
            ReportId::StabilityClassifier => 0x13,
            ReportId::ShakeDetector => 0x19,
            ReportId::FlipDetector => 0x1A,
            ReportId::PickupDetector => 0x1B,
            ReportId::StabilityDetector => 0x1C,
            ReportId::PersonalActClassifier => 0x1E,
            ReportId::SleepDetector => 0x1F,
            ReportId::TiltDetector => 0x20,
            ReportId::PocketDetector => 0x21,
            ReportId::CircleDetector => 0x22,
            ReportId::HeartRateMonitor => 0x23,
            ReportId::ARVRStabilizedRotVec => 0x28,
            ReportId::ARVRStabilizedGameVec => 0x29,
            ReportId::GyroIntegratedRotVec => 0x2A,
            ReportId::MotionRequest => 0x2B,
            ReportId::OpticalFlow => 0x2C,
            ReportId::DeadReckoning => 0x2D,
            ReportId::BaseTimestamp => 0xFB,
            ReportId::TimestampRebase => 0xFA,
        }
    }
}

/// Every report is found again from its wire code, and a code names at most
/// one report: the wire codes of distinct reports are distinct.
pub proof fn lemma_report_code_roundtrip(id: ReportId, b: u8)
    ensures
        ReportId::from_code(id.code()) == Some(id),
        ReportId::from_code(b) matches Some(found) ==> found.code() == b,
{
}

/// Accuracy status carried in the low two bits of a report's status byte.
#[derive(Clone, Copy, PartialEq, Eq, Debug, Structural)]
pub enum Status {
    Unreliable,
    LowAccuracy,
    MediumAccuracy,
    HighAccuracy,
    Unknown,
}

impl Status {
    /// A human-readable name of the status, as it is shown in logs.
    pub fn label(self) -> (r: &'static str)
        ensures
            self == Status::Unreliable ==> r@ == "Unreliable"@,
            self == Status::LowAccuracy ==> r@ == "Low Accuracy"@,
            self == Status::MediumAccuracy ==> r@ == "Medium Accuracy"@,
            self == Status::HighAccuracy ==> r@ == "High Accuracy"@,
            self == Status::Unknown ==> r@ == "Unknown"@,
    {
        match self {
            Status::Unreliable => "Unreliable",
            Status::LowAccuracy => "Low Accuracy",
            Status::MediumAccuracy => "Medium Accuracy",
            Status::HighAccuracy => "High Accuracy",
            Status::Unknown => "Unknown",
        }
    }
}

/// A control report code, read from or written to the sensor hub.
pub enum Register {
    Read(SH2Read),
    Write(SH2Write),
}

/// Report codes that the hub sends on the control channel.
#[derive(Clone, Copy, PartialEq, Eq, Debug, Structural)]
pub enum SH2Read {
    ProductIDResponse,
    FrsReadResponse,
    CommandResponse,
    GetFeatureResponse,
}

impl SH2Read {
    pub open spec fn code(self) -> u8 {
        match self {
            SH2Read::ProductIDResponse => 0xF8,
            SH2Read::FrsReadResponse => 0xF3,
            SH2Read::CommandResponse => 0xF1,
            SH2Read::GetFeatureResponse => 0xFC,
        }
    }
}

/// Report codes that the host sends on the control channel.
#[derive(Clone, Copy, PartialEq, Eq, Debug, Structural)]
pub enum SH2Write {
    GetFeatureRequest,
    SetFeatureCommand,
    ProductIDRequest,
    FrsWriteRequest,
    FrsWriteData,
    FrsWriteResponse,
    FrsReadRequest,
    CommandRequest,
}

impl SH2Write {
    pub open spec fn code(self) -> u8 {
        match self {
            SH2Write::GetFeatureRequest => 0xFE,
            SH2Write::SetFeatureCommand => 0xFD,
            SH2Write::ProductIDRequest => 0xF9,
            SH2Write::FrsWriteRequest => 0xF7,
            SH2Write::FrsWriteData => 0xF6,
            SH2Write::FrsWriteResponse => 0xF5,
            SH2Write::FrsReadRequest => 0xF4,
            SH2Write::CommandRequest => 0xF2,
        }
    }
}

impl Register {
    pub open spec fn code(self) -> u8 {
        match self {
            Register::Read(r) => r.code(),
            Register::Write(w) => w.code(),
        }
    }

    /// The byte code of the control report.
    pub fn addr(self) -> (r: u8)
        ensures
            r == self.code(),
    {
        match self {
            Register::Read(sh2_read) => match sh2_read {
                SH2Read::ProductIDResponse => 0xF8,
                SH2Read::FrsReadResponse => 0xF3,
                SH2Read::CommandResponse => 0xF1,
                SH2Read::GetFeatureResponse => 0xFC,
            },
            Register::Write(sh2_write) => match sh2_write {
                SH2Write::GetFeatureRequest => 0xFE,
                SH2Write::SetFeatureCommand => 0xFD,
                SH2Write::ProductIDRequest => 0xF9,
                SH2Write::FrsWriteRequest => 0xF7,
                SH2Write::FrsWriteData => 0xF6,
                SH2Write::FrsWriteResponse => 0xF5,
                SH2Write::FrsReadRequest => 0xF4,
                SH2Write::CommandRequest => 0xF2,
            },
        }
    }
}

/// The two I2C addresses the sensor answers on.
#[derive(Clone, Copy, PartialEq, Eq, Debug, Structural)]
pub enum I2CAddress {
    Default,
    Alternate,
}

impl I2CAddress {
    pub open spec fn code(self) -> u8 {
        match self {
            I2CAddress::Default => 0x4A,
            I2CAddress::Alternate => 0x4B,
        }
    }

    /// The 7-bit bus address.
    pub fn as_u8(self) -> (r: u8)
        ensures
            r == self.code(),
    {
        match self {
            I2CAddress::Default => 0x4A,
            I2CAddress::Alternate => 0x4B,
        }
    }
}

} // verus!

verus! {

/// Flash record (FRS) types, identified by a 16-bit code.
#[derive(Clone, Copy, PartialEq, Eq, Debug, Structural)]
pub enum FRSConfiguration {
    AgmStaticCalibration,
    AgmNominalCalibration,
    SraStaticCalibration,
    SraNominalCalibration,
    DynamicCalibration,
    MotionEnginePWRMGMT,
    SystemOrientation,
    PrimaryAccelerometerOrient,
    GyroscopeOrientation,
    MagnetometerOrientation,
    ARVRStabilizationRotVec,
    ARVRStabilizationGameRotVec,
    SignificantMotionDetectConf,
    ShakeDetectorConfig,
    MaximumFusionPeriod,
    SerialNumber,
    EnvSensorPressureCalibration,
    EnvSensorTempCalibration,
    EnvSensorHumidityCalibration,
    EnvSensorAmbLightCalibration,
    EnvSensorProximityCalibration,
    ALSCalibration,
    ProximitySensorCalibration,
    StabilityDetectorConfig,
    UserRecord,
    MotionEngineTimeSourceSel,
    GyroIntegratedRotVecConfig,
}

impl FRSConfiguration {
    /// The 16-bit code of the record type.
    pub open spec fn code(self) -> u16 {
        match self {
            FRSConfiguration::AgmStaticCalibration => 0x7979,
            FRSConfiguration::AgmNominalCalibration => 0x4D4D,
            FRSConfiguration::SraStaticCalibration => 0x8A8A,
            FRSConfiguration::SraNominalCalibration => 0x4E4E,
            FRSConfiguration::DynamicCalibration => 0x1F1F,
            FRSConfiguration::MotionEnginePWRMGMT => 0xD3E2,
            FRSConfiguration::SystemOrientation => 0x2D3E,
            FRSConfiguration::PrimaryAccelerometerOrient => 0x2D41,
            FRSConfiguration::GyroscopeOrientation => 0x2D46,
            FRSConfiguration::MagnetometerOrientation => 0x2D4C,
            FRSConfiguration::ARVRStabilizationRotVec => 0x3E2D,
            FRSConfiguration::ARVRStabilizationGameRotVec => 0x3E2E,
            FRSConfiguration::SignificantMotionDetectConf => 0xC274,
            FRSConfiguration::ShakeDetectorConfig => 0x7D7D,
            FRSConfiguration::MaximumFusionPeriod => 0xD7D7,
            FRSConfiguration::SerialNumber => 0x4B4B,
            FRSConfiguration::EnvSensorPressureCalibration => 0x39AF,
            FRSConfiguration::EnvSensorTempCalibration => 0x4D20,
            FRSConfiguration::EnvSensorHumidityCalibration => 0x1AC9,
            FRSConfiguration::EnvSensorAmbLightCalibration => 0x39B1,
            FRSConfiguration::EnvSensorProximityCalibration => 0x4DA2,
            FRSConfiguration::ALSCalibration => 0xD401,
            FRSConfiguration::ProximitySensorCalibration => 0xD402,
            FRSConfiguration::StabilityDetectorConfig => 0xED85,
            FRSConfiguration::UserRecord => 0x74B4,
            FRSConfiguration::MotionEngineTimeSourceSel => 0xD403,
            FRSConfiguration::GyroIntegratedRotVecConfig => 0xA1A2,
        }
    }

    /// The record type whose code is `v`, if any.
    pub open spec fn from_code(v: u16) -> Option<FRSConfiguration> {
        if v == 0x7979 { Some(FRSConfiguration::AgmStaticCalibration) }
        else if v == 0x4D4D { Some(FRSConfiguration::AgmNominalCalibration) }
        else if v == 0x8A8A { Some(FRSConfiguration::SraStaticCalibration) }
        else if v == 0x4E4E { Some(FRSConfiguration::SraNominalCalibration) }
        else if v == 0x1F1F { Some(FRSConfiguration::DynamicCalibration) }
        else if v == 0xD3E2 { Some(FRSConfiguration::MotionEnginePWRMGMT) }
        else if v == 0x2D3E { Some(FRSConfiguration::SystemOrientation) }
        else if v == 0x2D41 { Some(FRSConfiguration::PrimaryAccelerometerOrient) }
        else if v == 0x2D46 { Some(FRSConfiguration::GyroscopeOrientation) }
        else if v == 0x2D4C { Some(FRSConfiguration::MagnetometerOrientation) }
        else if v == 0x3E2D { Some(FRSConfiguration::ARVRStabilizationRotVec) }
        else if v == 0x3E2E { Some(FRSConfiguration::ARVRStabilizationGameRotVec) }
        else if v == 0xC274 { Some(FRSConfiguration::SignificantMotionDetectConf) }
        else if v == 0x7D7D { Some(FRSConfiguration::ShakeDetectorConfig) }
        else if v == 0xD7D7 { Some(FRSConfiguration::MaximumFusionPeriod) }
        else if v == 0x4B4B { Some(FRSConfiguration::SerialNumber) }
        else if v == 0x39AF { Some(FRSConfiguration::EnvSensorPressureCalibration) }
        else if v == 0x4D20 { Some(FRSConfiguration::EnvSensorTempCalibration) }
        else if v == 0x1AC9 { Some(FRSConfiguration::EnvSensorHumidityCalibration) }
        else if v == 0x39B1 { Some(FRSConfiguration::EnvSensorAmbLightCalibration) }
        else if v == 0x4DA2 { Some(FRSConfiguration::EnvSensorProximityCalibration) }
        else if v == 0xD401 { Some(FRSConfiguration::ALSCalibration) }
        else if v == 0xD402 { Some(FRSConfiguration::ProximitySensorCalibration) }
        else if v == 0xED85 { Some(FRSConfiguration::StabilityDetectorConfig) }
        else if v == 0x74B4 { Some(FRSConfiguration::UserRecord) }
        else if v == 0xD403 { Some(FRSConfiguration::MotionEngineTimeSourceSel) }
        else if v == 0xA1A2 { Some(FRSConfiguration::GyroIntegratedRotVecConfig) }
        else { None }
    }

    /// The 16-bit code of the record type, as an exec value.
    pub fn as_u16(self) -> (r: u16)
        ensures
            r == self.code(),
    {
        match self {
            FRSConfiguration::AgmStaticCalibration => 0x7979,
            FRSConfiguration::AgmNominalCalibration => 0x4D4D,
            FRSConfiguration::SraStaticCalibration => 0x8A8A,
            FRSConfiguration::SraNominalCalibration => 0x4E4E,
            FRSConfiguration::DynamicCalibration => 0x1F1F,
            FRSConfiguration::MotionEnginePWRMGMT => 0xD3E2,
            FRSConfiguration::SystemOrientation => 0x2D3E,
            FRSConfiguration::PrimaryAccelerometerOrient => 0x2D41,
            FRSConfiguration::GyroscopeOrientation => 0x2D46,
            FRSConfiguration::MagnetometerOrientation => 0x2D4C,
            FRSConfiguration::ARVRStabilizationRotVec => 0x3E2D,
            FRSConfiguration::ARVRStabilizationGameRotVec => 0x3E2E,
            FRSConfiguration::SignificantMotionDetectConf => 0xC274,
            FRSConfiguration::ShakeDetectorConfig => 0x7D7D,
            FRSConfiguration::MaximumFusionPeriod => 0xD7D7,
            FRSConfiguration::SerialNumber => 0x4B4B,
            FRSConfiguration::EnvSensorPressureCalibration => 0x39AF,
            FRSConfiguration::EnvSensorTempCalibration => 0x4D20,
            FRSConfiguration::EnvSensorHumidityCalibration => 0x1AC9,
            FRSConfiguration::EnvSensorAmbLightCalibration => 0x39B1,
            FRSConfiguration::EnvSensorProximityCalibration => 0x4DA2,
            FRSConfiguration::ALSCalibration => 0xD401,
            FRSConfiguration::ProximitySensorCalibration => 0xD402,
            FRSConfiguration::StabilityDetectorConfig => 0xED85,
            FRSConfiguration::UserRecord => 0x74B4,
            FRSConfiguration::MotionEngineTimeSourceSel => 0xD403,
            FRSConfiguration::GyroIntegratedRotVecConfig => 0xA1A2,
        }
    }

    /// The code of the record type in little-endian byte order.
    pub fn addr(self) -> (r: [u8; 2])
        ensures
            r@ == seq![(self.code() % 256) as u8, (self.code() / 256) as u8],
    {
        let address = self.as_u16();
        [(address % 256) as u8, (address / 256) as u8]
    }
}

impl core::convert::TryFrom<u16> for FRSConfiguration {
    type Error = ();

    fn try_from(value: u16) -> (r: Result<Self, Self::Error>) {
        match value {
            0x7979 => Ok(Self::AgmStaticCalibration),
            0x4D4D => Ok(Self::AgmNominalCalibration),
            0x8A8A => Ok(Self::SraStaticCalibration),
            0x4E4E => Ok(Self::SraNominalCalibration),
            0x1F1F => Ok(Self::DynamicCalibration),
            0xD3E2 => Ok(Self::MotionEnginePWRMGMT),
            0x2D3E => Ok(Self::SystemOrientation),
            0x2D41 => Ok(Self::PrimaryAccelerometerOrient),
            0x2D46 => Ok(Self::GyroscopeOrientation),
            0x2D4C => Ok(Self::MagnetometerOrientation),
            0x3E2D => Ok(Self::ARVRStabilizationRotVec),
            0x3E2E => Ok(Self::ARVRStabilizationGameRotVec),
            0xC274 => Ok(Self::SignificantMotionDetectConf),
            0x7D7D => Ok(Self::ShakeDetectorConfig),
            0xD7D7 => Ok(Self::MaximumFusionPeriod),
            0x4B4B => Ok(Self::SerialNumber),
            0x39AF => Ok(Self::EnvSensorPressureCalibration),
            0x4D20 => Ok(Self::EnvSensorTempCalibration),
            0x1AC9 => Ok(Self::EnvSensorHumidityCalibration),
            0x39B1 => Ok(Self::EnvSensorAmbLightCalibration),
            0x4DA2 => Ok(Self::EnvSensorProximityCalibration),
            0xD401 => Ok(Self::ALSCalibration),
            0xD402 => Ok(Self::ProximitySensorCalibration),
            0xED85 => Ok(Self::StabilityDetectorConfig),
            0x74B4 => Ok(Self::UserRecord),
            0xD403 => Ok(Self::MotionEngineTimeSourceSel),
            0xA1A2 => Ok(Self::GyroIntegratedRotVecConfig),
            _ => Err(()),
        }
    }
}

impl vstd::std_specs::convert::TryFromSpecImpl<u16> for FRSConfiguration {
    open spec fn obeys_try_from_spec() -> bool {
        true
    }

    open spec fn try_from_spec(v: u16) -> Result<Self, ()> {
        match FRSConfiguration::from_code(v) {
            Some(c) => Ok(c),
            None => Err(()),
        }
    }
}

/// The record type is found again from its code, and a code accepted by
/// `try_from` is the code of the record type it names.
pub proof fn lemma_frs_code_roundtrip(c: FRSConfiguration, v: u16)
    ensures
        FRSConfiguration::from_code(c.code()) == Some(c),
        FRSConfiguration::from_code(v) matches Some(found) ==> found.code() == v,
{
}

/// The two bytes of `addr` are the code in little-endian order.
pub proof fn lemma_frs_addr_le(c: FRSConfiguration)
    ensures
        ({
            let b = seq![(c.code() % 256) as u8, (c.code() / 256) as u8];
            b[0] + 256 * b[1] == c.code()
        }),
{
}

} // verus!

verus! {

/// The SH-2 FRS record table: each record type with its 16-bit code.
pub open spec fn sh2_frs_table() -> Seq<(FRSConfiguration, u16)> {
    seq![
        (FRSConfiguration::AgmStaticCalibration, 0x7979u16),
        (FRSConfiguration::AgmNominalCalibration, 0x4D4Du16),
        (FRSConfiguration::SraStaticCalibration, 0x8A8Au16),
        (FRSConfiguration::SraNominalCalibration, 0x4E4Eu16),
        (FRSConfiguration::DynamicCalibration, 0x1F1Fu16),
        (FRSConfiguration::MotionEnginePWRMGMT, 0xD3E2u16),
        (FRSConfiguration::SystemOrientation, 0x2D3Eu16),
        (FRSConfiguration::PrimaryAccelerometerOrient, 0x2D41u16),
        (FRSConfiguration::GyroscopeOrientation, 0x2D46u16),
        (FRSConfiguration::MagnetometerOrientation, 0x2D4Cu16),
        (FRSConfiguration::ARVRStabilizationRotVec, 0x3E2Du16),
        (FRSConfiguration::ARVRStabilizationGameRotVec, 0x3E2Eu16),
        (FRSConfiguration::SignificantMotionDetectConf, 0xC274u16),
        (FRSConfiguration::ShakeDetectorConfig, 0x7D7Du16),
        (FRSConfiguration::MaximumFusionPeriod, 0xD7D7u16),
        (FRSConfiguration::SerialNumber, 0x4B4Bu16),
        (FRSConfiguration::EnvSensorPressureCalibration, 0x39AFu16),
        (FRSConfiguration::EnvSensorTempCalibration, 0x4D20u16),
        (FRSConfiguration::EnvSensorHumidityCalibration, 0x1AC9u16),
        (FRSConfiguration::EnvSensorAmbLightCalibration, 0x39B1u16),
        (FRSConfiguration::EnvSensorProximityCalibration, 0x4DA2u16),
        (FRSConfiguration::ALSCalibration, 0xD401u16),
        (FRSConfiguration::ProximitySensorCalibration, 0xD402u16),
        (FRSConfiguration::StabilityDetectorConfig, 0xED85u16),
        (FRSConfiguration::UserRecord, 0x74B4u16),
        (FRSConfiguration::MotionEngineTimeSourceSel, 0xD403u16),
        (FRSConfiguration::GyroIntegratedRotVecConfig, 0xA1A2u16),
    ]
}

/// Whether the SH-2 FRS record table has an entry for `c`.
pub open spec fn listed_in_frs_table(c: FRSConfiguration) -> bool {
    exists|i: int| 0 <= i < sh2_frs_table().len() && (#[trigger] sh2_frs_table()[i]).0 == c
}

/// Record types travel as the codes of the SH-2 FRS record table, little-endian
/// in `addr`, and `try_from` recognises each code as the record the table
/// gives it; every record type is in the table.
pub proof fn lemma_frs_codes_follow_sh2_table()
    ensures
        forall|i: int| 0 <= i < sh2_frs_table().len() ==> {
            let (c, code) = #[trigger] sh2_frs_table()[i];
            &&& c.code() == code
            &&& FRSConfiguration::from_code(code) == Some(c)
        },
        forall|c: FRSConfiguration| #[trigger] listed_in_frs_table(c),
{
    let t = sh2_frs_table();
    assert forall|i: int| 0 <= i < t.len() implies {
        let (c, code) = #[trigger] t[i];
        &&& c.code() == code
        &&& FRSConfiguration::from_code(code) == Some(c)
    } by {
        if i == 0 { assert(t[0] == t[0]); }
        if i == 1 { assert(t[1] == t[1]); }
        if i == 2 { assert(t[2] == t[2]); }
        if i == 3 { assert(t[3] == t[3]); }
        if i == 4 { assert(t[4] == t[4]); }
        if i == 5 { assert(t[5] == t[5]); }
        if i == 6 { assert(t[6] == t[6]); }
        if i == 7 { assert(t[7] == t[7]); }
        if i == 8 { assert(t[8] == t[8]); }
        if i == 9 { assert(t[9] == t[9]); }
        if i == 10 { assert(t[10] == t[10]); }
        if i == 11 { assert(t[11] == t[11]); }
        if i == 12 { assert(t[12] == t[12]); }
        if i == 13 { assert(t[13] == t[13]); }
        if i == 14 { assert(t[14] == t[14]); }
        if i == 15 { assert(t[15] == t[15]); }
        if i == 16 { assert(t[16] == t[16]); }
        if i == 17 { assert(t[17] == t[17]); }
        if i == 18 { assert(t[18] == t[18]); }
        if i == 19 { assert(t[19] == t[19]); }
        if i == 20 { assert(t[20] == t[20]); }
        if i == 21 { assert(t[21] == t[21]); }
        if i == 22 { assert(t[22] == t[22]); }
        if i == 23 { assert(t[23] == t[23]); }
        if i == 24 { assert(t[24] == t[24]); }
        if i == 25 { assert(t[25] == t[25]); }
        if i == 26 { assert(t[26] == t[26]); }
    }
    assert forall|c: FRSConfiguration| #[trigger] listed_in_frs_table(c) by {
        match c {
            FRSConfiguration::AgmStaticCalibration => { assert(t[0].0 == c); },
            FRSConfiguration::AgmNominalCalibration => { assert(t[1].0 == c); },
            FRSConfiguration::SraStaticCalibration => { assert(t[2].0 == c); },
            FRSConfiguration::SraNominalCalibration => { assert(t[3].0 == c); },
            FRSConfiguration::DynamicCalibration => { assert(t[4].0 == c); },
            FRSConfiguration::MotionEnginePWRMGMT => { assert(t[5].0 == c); },
            FRSConfiguration::SystemOrientation => { assert(t[6].0 == c); },
            FRSConfiguration::PrimaryAccelerometerOrient => { assert(t[7].0 == c); },
            FRSConfiguration::GyroscopeOrientation => { assert(t[8].0 == c); },
            FRSConfiguration::MagnetometerOrientation => { assert(t[9].0 == c); },
            FRSConfiguration::ARVRStabilizationRotVec => { assert(t[10].0 == c); },
            FRSConfiguration::ARVRStabilizationGameRotVec => { assert(t[11].0 == c); },
            FRSConfiguration::SignificantMotionDetectConf => { assert(t[12].0 == c); },
            FRSConfiguration::ShakeDetectorConfig => { assert(t[13].0 == c); },
            FRSConfiguration::MaximumFusionPeriod => { assert(t[14].0 == c); },
            FRSConfiguration::SerialNumber => { assert(t[15].0 == c); },
            FRSConfiguration::EnvSensorPressureCalibration => { assert(t[16].0 == c); },
            FRSConfiguration::EnvSensorTempCalibration => { assert(t[17].0 == c); },
            FRSConfiguration::EnvSensorHumidityCalibration => { assert(t[18].0 == c); },
            FRSConfiguration::EnvSensorAmbLightCalibration => { assert(t[19].0 == c); },
            FRSConfiguration::EnvSensorProximityCalibration => { assert(t[20].0 == c); },
            FRSConfiguration::ALSCalibration => { assert(t[21].0 == c); },
            FRSConfiguration::ProximitySensorCalibration => { assert(t[22].0 == c); },
            FRSConfiguration::StabilityDetectorConfig => { assert(t[23].0 == c); },
            FRSConfiguration::UserRecord => { assert(t[24].0 == c); },
            FRSConfiguration::MotionEngineTimeSourceSel => { assert(t[25].0 == c); },
            FRSConfiguration::GyroIntegratedRotVecConfig => { assert(t[26].0 == c); },
        }
    }
}

/// The calibration record of the SPI variant that names the same record.
pub open spec fn frs_record_of(c: crate::spi::register::Configuration) -> FRSConfiguration {
    match c {
        crate::spi::register::Configuration::AgmStaticCalibration => FRSConfiguration::AgmStaticCalibration,
        crate::spi::register::Configuration::AgmNominalCalibration => FRSConfiguration::AgmNominalCalibration,
        crate::spi::register::Configuration::SraStaticCalibration => FRSConfiguration::SraStaticCalibration,
        crate::spi::register::Configuration::SraNominalCalibration => FRSConfiguration::SraNominalCalibration,
    }
}

/// The two register maps agree: each calibration record that the SPI variant
/// knows has there the code its namesake record type has here, and likewise
/// the rotation vector report.
pub proof fn lemma_register_maps_agree(c: crate::spi::register::Configuration, r: crate::spi::register::ReportID)
    ensures
        frs_record_of(c).code() == c.code(),
        match r {
            crate::spi::register::ReportID::RotationVector => ReportId::RotationVector.code() == r.code(),
        },
{
}

} // verus!
