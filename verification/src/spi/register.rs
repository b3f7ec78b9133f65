//! Control report codes of the SPI variant of the driver.

use vstd::prelude::*;

verus! {

/// A report code: a control read, a control write or a sensor report.
pub enum Register {
    Read(SH2Read),
    Write(SH2Write),
    Report(ReportID),
}

/// Report codes that the hub sends on the control channel.
#[derive(Clone, Copy, PartialEq, Eq, Debug, Structural)]
pub enum SH2Read {
    GetFeatureResponse,
    ProductIDResponse,
    FrsWriteResponse,
    FrsReadResponse,
    CommandResponse,
}

impl SH2Read {
    pub open spec fn code(self) -> u8 {
        match self {
            SH2Read::GetFeatureResponse => 0xFC,
            SH2Read::ProductIDResponse => 0xF8,
            SH2Read::FrsWriteResponse => 0xF5,
            SH2Read::FrsReadResponse => 0xF3,
            SH2Read::CommandResponse => 0xF1,
        }
    }
}

/// Report codes that the host sends on the control channel.
#[derive(Clone, Copy, PartialEq, Eq, Debug, Structural)]
pub enum SH2Write {
    GetFeatureRequest,
    SetFeatureCommand,
    ProductIDRequest,
    FrsWriteRequest,
    FrsWriteData,
    FrsReadRequest,
    CommandRequest,
}

impl SH2Write {
    pub open spec fn code(self) -> u8 {
        match self {
            SH2Write::GetFeatureRequest => 0xFE,
            SH2Write::SetFeatureCommand => 0xFD,
            SH2Write::ProductIDRequest => 0xF9,
            SH2Write::FrsWriteRequest => 0xF7,
            SH2Write::FrsWriteData => 0xF6,
            SH2Write::FrsReadRequest => 0xF4,
            SH2Write::CommandRequest => 0xF2,
        }
    }
}

/// Sensor reports known to the SPI variant.
#[derive(Clone, Copy, PartialEq, Eq, Debug, Structural)]
pub enum ReportID {
    RotationVector,
}

impl ReportID {
    pub open spec fn code(self) -> u8 {
        match self {
            ReportID::RotationVector => 0x05,
        }
    }
}

/// Calibration records known to the SPI variant, with their 16-bit codes.
#[derive(Clone, Copy, PartialEq, Eq, Debug, Structural)]
pub enum Configuration {
    AgmStaticCalibration,
    AgmNominalCalibration,
    SraStaticCalibration,
    SraNominalCalibration,
}

impl Configuration {
    pub open spec fn code(self) -> u16 {
        match self {
            Configuration::AgmStaticCalibration => 0x7979,
            Configuration::AgmNominalCalibration => 0x4D4D,
            Configuration::SraStaticCalibration => 0x8A8A,
            Configuration::SraNominalCalibration => 0x4E4E,
        }
    }
}

impl Register {
    pub open spec fn code(self) -> u8 {
        match self {
            Register::Read(r) => r.code(),
            Register::Write(w) => w.code(),
            Register::Report(id) => id.code(),
        }
    }

    /// The byte code of the report.
    pub fn addr(self) -> (r: u8)
        ensures
            r == self.code(),
    {
        match self {
            Register::Read(sh2_read) => match sh2_read {
                SH2Read::GetFeatureResponse => 0xFC,
                SH2Read::ProductIDResponse => 0xF8,
                SH2Read::FrsWriteResponse => 0xF5,
                SH2Read::FrsReadResponse => 0xF3,
                SH2Read::CommandResponse => 0xF1,
            },
            Register::Write(sh2_write) => match sh2_write {
                SH2Write::GetFeatureRequest => 0xFE,
                SH2Write::SetFeatureCommand => 0xFD,
                SH2Write::ProductIDRequest => 0xF9,
                SH2Write::FrsWriteRequest => 0xF7,
                SH2Write::FrsWriteData => 0xF6,
                SH2Write::FrsReadRequest => 0xF4,
                SH2Write::CommandRequest => 0xF2,
            },
            Register::Report(report_id) => match report_id {
                ReportID::RotationVector => 0x05,
            },
        }
    }
}

} // verus!
