//! Verified core of a BNO08x IMU driver: the SHTP packet format, SH-2 report
//! tables and parsers, FRS record requests, and the decisions of the driver.

use vstd::prelude::*;

pub mod bounded;
pub mod data;
pub mod driver;
pub mod frs;
pub mod parsing;
pub mod register;
pub mod sensors;
pub mod spi;

verus! {

/// What a driver operation can fail with.
#[derive(Clone, Copy, PartialEq, Eq, Debug, Structural)]
pub enum SensorError {
    Placeholder,
    Unimplemented,
    PacketRetrievalFailed,
    ReadWriteFlipped,
    InvalidLength,
}

} // verus!
