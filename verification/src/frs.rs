//! Flash record (FRS) read requests and the decoding of FRS read responses.

use vstd::prelude::*;
use crate::SensorError;
use crate::register::{FRSConfiguration, Register, SH2Read, SH2Write};

verus! {

/// The status nibble of an FRS read response.
#[derive(Clone, Copy, PartialEq, Eq, Debug, Structural)]
pub enum FRSStatus {
    NoError,
    UnrecognizedFRSType,
    Busy,
    ReadRecordCompleted,
    Deprecated,
    InvalidResponse,
}

/// The status named by the low four bits of `b`.
pub open spec fn frs_status_of(b: u8) -> FRSStatus {
    let n = b % 16;
    if n == 0 {
        FRSStatus::NoError
    } else if n == 1 {
        FRSStatus::UnrecognizedFRSType
    } else if n == 2 {
        FRSStatus::Busy
    } else if n == 3 {
        FRSStatus::ReadRecordCompleted
    } else if n == 4 {
        FRSStatus::Deprecated
    } else {
        FRSStatus::InvalidResponse
    }
}

/// Little-endian value of `b[i]` and `b[i + 1]`.
pub open spec fn le16_at(b: Seq<u8>, i: int) -> u16 {
    (b[i] as int + 256 * (b[i + 1] as int)) as u16
}

/// Little-endian value of the four bytes of `b` from `i` on.
pub open spec fn le32_at(b: Seq<u8>, i: int) -> u32 {
    (b[i] as int + 256 * (b[i + 1] as int) + 65536 * (b[i + 2] as int) + 16777216 * (b[i + 3] as int)) as u32
}

/// The abstract content of an FRS transaction.
pub struct FRSDataView {
    pub request_type: FRSConfiguration,
    pub read_write: bool,
    pub data_ready: bool,
    pub length: Option<u8>,
    pub offset: Option<u16>,
    pub status: Option<FRSStatus>,
    pub data_0: Option<u32>,
    pub data_1: Option<u32>,
}

/// An FRS read or write transaction for one record type.
#[derive(Debug)]
pub struct FRSData {
    request_type: FRSConfiguration,
    read_write: bool,
    data_ready: bool,
    length: Option<u8>,
    offset: Option<u16>,
    status: Option<FRSStatus>,
    data_0: Option<u32>,
    data_1: Option<u32>,
}

impl View for FRSData {
    type V = FRSDataView;

    closed spec fn view(&self) -> FRSDataView {
        FRSDataView {
            request_type: self.request_type,
            read_write: self.read_write,
            data_ready: self.data_ready,
            length: self.length,
            offset: self.offset,
            status: self.status,
            data_0: self.data_0,
            data_1: self.data_1,
        }
    }
}

/// Whether `data` is an FRS read response: long enough and carrying the
/// FRS read response code.
pub open spec fn is_frs_read_response(data: Seq<u8>) -> bool {
    data.len() >= 16 && data[0] == SH2Read::FrsReadResponse.code()
}

fn read_u16_at(data: &[u8], i: usize) -> (r: u16)
    requires
        i + 2 <= data@.len(),
    ensures
        r == le16_at(data@, i as int),
{
    let b0 = data[i];
    let b1 = data[i + 1];
    let v: u16 = (b0 as u16) | ((b1 as u16) << 8);
    assert(v == b0 + 256 * b1) by (bit_vector)
        requires v == (b0 as u16) | ((b1 as u16) << 8);
    v
}

fn read_u32_at(data: &[u8], i: usize) -> (r: u32)
    requires
        i + 4 <= data@.len(),
    ensures
        r == le32_at(data@, i as int),
{
    let b0 = data[i];
    let b1 = data[i + 1];
    let b2 = data[i + 2];
    let b3 = data[i + 3];
    let v: u32 = (b0 as u32) | ((b1 as u32) << 8) | ((b2 as u32) << 16) | ((b3 as u32) << 24);
    assert(v == b0 + 256 * b1 + 65536 * b2 + 16777216 * b3) by (bit_vector)
        requires v == (b0 as u32) | ((b1 as u32) << 8) | ((b2 as u32) << 16) | ((b3 as u32) << 24);
    v
}

impl FRSData {
    /// A read transaction for `request`, with nothing received yet.
    pub fn new_read(request: FRSConfiguration) -> (r: Self)
        ensures
            r@ == (FRSDataView {
                request_type: request,
                read_write: false,
                data_ready: false,
                length: None,
                offset: None,
                status: None,
                data_0: None,
                data_1: None,
            }),
    {
        FRSData {
            request_type: request,
            read_write: false,
            data_ready: false,
            length: None,
            offset: None,
            status: None,
            data_0: None,
            data_1: None,
        }
    }

    /// A write transaction for `request` carrying the given words; its length
    /// is 2 when there is a second word, else 1 when there is a first, else 0.
    pub fn new_write(request: FRSConfiguration, data_0: Option<u32>, data_1: Option<u32>) -> (r: Self)
        ensures
            r@ == (FRSDataView {
                request_type: request,
                read_write: true,
                data_ready: true,
                length: Some(if data_1 is Some { 2u8 } else if data_0 is Some { 1u8 } else { 0u8 }),
                offset: None,
                status: None,
                data_0,
                data_1,
            }),
    {
        let mut data_length: u8 = 0;
        if data_0.is_some() {
            data_length += 1;
        }
        if data_1.is_some() {
            data_length = 2;
        }
        FRSData {
            request_type: request,
            read_write: true,
            data_ready: true,
            status: None,
            length: Some(data_length),
            offset: None,
            data_0,
            data_1,
        }
    }

    /// The FRS read request for the record type: the request code, three
    /// zero bytes, the record code little-endian, two zero bytes. Refused
    /// for a write transaction.
    pub fn generate_read_request(&self) -> (r: Result<[u8; 8], SensorError>)
        ensures
            r is Ok <==> !self@.read_write,
            r is Err ==> r == Err::<[u8; 8], SensorError>(SensorError::ReadWriteFlipped),
            r matches Ok(req) ==> req@ == seq![
                SH2Write::FrsReadRequest.code(), 0u8, 0u8, 0u8,
                (self@.request_type.code() % 256) as u8, (self@.request_type.code() / 256) as u8,
                0u8, 0u8,
            ],
    {
        if self.read_write == false {
            let addr_bytes: [u8; 2] = self.request_type.addr();
            Ok([
                Register::Write(SH2Write::FrsReadRequest).addr(),
                0,
                0,
                0,
                addr_bytes[0],
                addr_bytes[1],
                0,
                0,
            ])
        } else {
            Err(SensorError::ReadWriteFlipped)
        }
    }

    /// Takes in an FRS read response: records its length, status and offset,
    /// the first data word when the length is at least 1 and the second when
    /// it is at least 2; accepts the response when it is for this record type.
    /// Anything that is not an FRS read response is refused and changes
    /// nothing.
    pub fn process_read_response(&mut self, data: &[u8]) -> (r: Result<(), SensorError>)
        requires
            is_frs_read_response(data@) ==> FRSConfiguration::from_code(le16_at(data@, 12)) is Some,
        ensures
            !is_frs_read_response(data@) ==> final(self)@ == old(self)@
                && r == Err::<(), SensorError>(SensorError::InvalidLength),
            is_frs_read_response(data@) ==> {
                let len = data@[1] / 16;
                &&& final(self)@ == (FRSDataView {
                    length: Some(len),
                    status: Some(frs_status_of(data@[1])),
                    offset: Some(le16_at(data@, 2)),
                    data_0: if len > 0 { Some(le32_at(data@, 4)) } else { old(self)@.data_0 },
                    data_1: if len > 1 { Some(le32_at(data@, 8)) } else { old(self)@.data_1 },
                    ..old(self)@
                })
                &&& r == if FRSConfiguration::from_code(le16_at(data@, 12)) == Some(old(self)@.request_type) {
                    Ok::<(), SensorError>(())
                } else {
                    Err(SensorError::Unimplemented)
                }
            },
    {
        if data.len() >= 16 && data[0] == Register::Read(SH2Read::FrsReadResponse).addr() {
            let b1 = data[1];
            let len: u8 = b1 >> 4;
            assert(b1 >> 4 == b1 / 16) by (bit_vector);
            self.length = Some(len);
            self.status = Some(FRSData::process_status(b1));
            self.offset = Some(read_u16_at(data, 2));
            if len > 0 {
                self.data_0 = Some(read_u32_at(data, 4));
            }
            if len > 1 {
                self.data_1 = Some(read_u32_at(data, 8));
            }
            let code = read_u16_at(data, 12);
            let request = FRSConfiguration::try_from(code).unwrap();
            if request == self.request_type {
                Ok(())
            } else {
                Err(SensorError::Unimplemented)
            }
        } else {
            Err(SensorError::InvalidLength)
        }
    }

    /// The status named by the low four bits of `status`.
    pub fn process_status(status: u8) -> (r: FRSStatus)
        ensures
            r == frs_status_of(status),
    {
        let status_num = status & 0b00001111;
        assert(status & 0b00001111 == status % 16) by (bit_vector);
        match status_num {
            0 => FRSStatus::NoError,
            1 => FRSStatus::UnrecognizedFRSType,
            2 => FRSStatus::Busy,
            3 => FRSStatus::ReadRecordCompleted,
            4 => FRSStatus::Deprecated,
            _ => FRSStatus::InvalidResponse,
        }
    }
}

} // verus!
