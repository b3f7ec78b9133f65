//! SH-2 report tables (lengths, payload layouts, feature dependencies,
//! control report lengths) and the decoding of report payload fields.

use vstd::prelude::*;
use crate::bounded::{value_list, values_new, values_push};
use crate::register::{ReportId, SH2Read};

verus! {

/// A decoded report field.
#[derive(Clone, Copy, PartialEq, Eq, Debug, Structural)]
pub enum DataVals {
    I16(i16),
    I32(i32),
    Reserved,
    U8(u8),
    U16(u16),
    U32(u32),
}

/// The type of a report field.
#[derive(Clone, Copy, PartialEq, Eq, Debug, Structural)]
pub enum DataTypes {
    I16,
    I32,
    Reserved,
    U8,
    U16,
    U32,
}

/// Little-endian value of the first two bytes of `b`.
pub open spec fn le_u16(b: Seq<u8>) -> int {
    b[0] as int + 256 * (b[1] as int)
}

/// Little-endian value of the first four bytes of `b`.
pub open spec fn le_u32(b: Seq<u8>) -> int {
    b[0] as int + 256 * (b[1] as int) + 65536 * (b[2] as int) + 16777216 * (b[3] as int)
}

/// The field of type `kind` read from `bytes`: a multi-byte field is read
/// little-endian when `bytes` has exactly its size and is 0 otherwise; a
/// byte field is the second byte, or 0 when there is none.
pub open spec fn field_value(bytes: Seq<u8>, kind: DataTypes) -> DataVals {
    match kind {
        DataTypes::I16 => DataVals::I16(if bytes.len() == 2 { le_u16(bytes) as i16 } else { 0 }),
        DataTypes::I32 => DataVals::I32(if bytes.len() == 4 { le_u32(bytes) as i32 } else { 0 }),
        DataTypes::Reserved => DataVals::Reserved,
        DataTypes::U8 => DataVals::U8(if bytes.len() > 0 { bytes[1] } else { 0 }),
        DataTypes::U16 => DataVals::U16(if bytes.len() == 2 { le_u16(bytes) as u16 } else { 0 }),
        DataTypes::U32 => DataVals::U32(if bytes.len() == 4 { le_u32(bytes) as u32 } else { 0 }),
    }
}

fn read_le_u16(bytes: &[u8]) -> (r: u16)
    requires
        bytes@.len() == 2,
    ensures
        r == le_u16(bytes@),
{
    let b0 = bytes[0];
    let b1 = bytes[1];
    let v: u16 = (b0 as u16) | ((b1 as u16) << 8);
    assert(v == b0 + 256 * b1) by (bit_vector)
        requires v == (b0 as u16) | ((b1 as u16) << 8);
    v
}

fn read_le_u32(bytes: &[u8]) -> (r: u32)
    requires
        bytes@.len() == 4,
    ensures
        r == le_u32(bytes@),
{
    let b0 = bytes[0];
    let b1 = bytes[1];
    let b2 = bytes[2];
    let b3 = bytes[3];
    let v: u32 = (b0 as u32) | ((b1 as u32) << 8) | ((b2 as u32) << 16) | ((b3 as u32) << 24);
    assert(v == b0 + 256 * b1 + 65536 * b2 + 16777216 * b3) by (bit_vector)
        requires v == (b0 as u32) | ((b1 as u32) << 8) | ((b2 as u32) << 16) | ((b3 as u32) << 24);
    v
}

impl DataVals {
    /// Decodes one field of type `kind` from `bytes` (see `field_value`).
    pub fn get_value(bytes: &[u8], kind: DataTypes) -> (r: Self)
        requires
            kind == DataTypes::U8 ==> bytes@.len() != 1,
        ensures
            r == field_value(bytes@, kind),
    {
        match kind {
            DataTypes::I16 => {
                if bytes.len() == 2 {
                    DataVals::I16(read_le_u16(bytes) as i16)
                } else {
                    DataVals::I16(0)
                }
            },
            DataTypes::I32 => {
                if bytes.len() == 4 {
                    DataVals::I32(read_le_u32(bytes) as i32)
                } else {
                    DataVals::I32(0)
                }
            },
            DataTypes::Reserved => DataVals::Reserved,
            DataTypes::U8 => DataVals::U8(if bytes.len() > 0 { bytes[1] } else { 0 }),
            DataTypes::U16 => {
                if bytes.len() == 2 {
                    DataVals::U16(read_le_u16(bytes))
                } else {
                    DataVals::U16(0)
                }
            },
            DataTypes::U32 => {
                if bytes.len() == 4 {
                    DataVals::U32(read_le_u32(bytes))
                } else {
                    DataVals::U32(0)
                }
            },
        }
    }
}

/// How many bytes a field of type `kind` is read from.
pub open spec fn field_width(kind: DataTypes) -> nat {
    match kind {
        DataTypes::I16 => 2,
        DataTypes::I32 => 4,
        DataTypes::Reserved => 0,
        DataTypes::U8 => 1,
        DataTypes::U16 => 2,
        DataTypes::U32 => 4,
    }
}

/// How far the read position moves past a field of type `kind`: every field
/// but a reserved one moves it by two bytes, whatever its width.
pub open spec fn field_advance(kind: DataTypes) -> nat {
    if kind == DataTypes::Reserved { 0 } else { 2 }
}

/// The read position after the fields of `fmt`.
pub open spec fn format_offset(fmt: Seq<DataTypes>) -> nat
    decreases fmt.len(),
{
    if fmt.len() == 0 {
        0
    } else {
        format_offset(fmt.drop_last()) + field_advance(fmt.last())
    }
}

/// Whether every field of `fmt` can be read from a buffer of `len` bytes: it
/// is reserved, or it is not a byte field and its bytes lie in the buffer.
pub open spec fn format_fits(fmt: Seq<DataTypes>, len: nat) -> bool
    decreases fmt.len(),
{
    if fmt.len() == 0 {
        true
    } else {
        let k = fmt.last();
        let off = format_offset(fmt.drop_last());
        &&& format_fits(fmt.drop_last(), len)
        &&& (k == DataTypes::Reserved || (k != DataTypes::U8 && off + field_width(k) <= len))
    }
}

/// The values decoded from `buf` for the fields of `fmt`, reserved fields
/// skipped.
pub open spec fn format_values(fmt: Seq<DataTypes>, buf: Seq<u8>) -> Seq<DataVals>
    decreases fmt.len(),
{
    if fmt.len() == 0 {
        Seq::empty()
    } else {
        let k = fmt.last();
        let off = format_offset(fmt.drop_last());
        let prev = format_values(fmt.drop_last(), buf);
        if k == DataTypes::Reserved {
            prev
        } else {
            prev.push(field_value(buf.subrange(off as int, (off + field_width(k)) as int), k))
        }
    }
}

/// The first twenty items of `s`, all of them when there are fewer.
pub open spec fn first_twenty(s: Seq<DataVals>) -> Seq<DataVals> {
    if s.len() <= 20 { s } else { s.take(20) }
}

proof fn lemma_format_offset_bound(fmt: Seq<DataTypes>)
    ensures
        format_offset(fmt) <= 2 * fmt.len(),
    decreases fmt.len(),
{
    if fmt.len() > 0 {
        lemma_format_offset_bound(fmt.drop_last());
    }
}

/// Decodes the fields of `data_format` from `buf` in order: each field but a
/// reserved one is read at the current position, which then moves two bytes
/// on. At most twenty values are kept.
pub fn process_buf(data_format: &[DataTypes], buf: &[u8]) -> (r: heapless::Vec<DataVals, 20>)
    requires
        format_fits(data_format@, buf@.len()),
    ensures
        value_list(r) == first_twenty(format_values(data_format@, buf@)),
{
    let mut buf_index: usize = 0;
    let mut output = values_new();
    let n = data_format.len();
    let blen = buf.len();
    let mut i: usize = 0;
    while i < n
        invariant
            n == data_format@.len(),
            blen == buf@.len(),
            0 <= i <= n,
            format_fits(data_format@, buf@.len()),
            buf_index == format_offset(data_format@.take(i as int)),
            value_list(output) == first_twenty(format_values(data_format@.take(i as int), buf@)),
        decreases n - i,
    {
        let format = data_format[i];
        proof {
            let pre = data_format@.take(i as int + 1);
            assert(pre.drop_last() =~= data_format@.take(i as int));
            assert(pre.last() == format);
            lemma_fits_prefix(data_format@, i as int + 1, buf@.len());
            assert(format_fits(pre, buf@.len()));
            assert(format == DataTypes::Reserved
                || (format != DataTypes::U8 && buf_index + field_width(format) <= buf@.len()));
        }
        match format {
            DataTypes::Reserved => {},
            _ => {
                let width: usize = match format {
                    DataTypes::I16 => 2,
                    DataTypes::I32 => 4,
                    DataTypes::U8 => 1,
                    DataTypes::U16 => 2,
                    _ => 4,
                };
                assert(width == field_width(format));
                assert(buf_index + width <= buf@.len());
                let v = DataVals::get_value(&buf[buf_index..buf_index + width], format);
                let _ = values_push(&mut output, v);
                buf_index += 2;
            },
        }
        i += 1;
    }
    assert(data_format@.take(n as int) =~= data_format@);
    output
}

/// A prefix of a layout that fits a buffer fits it too.
proof fn lemma_fits_prefix(fmt: Seq<DataTypes>, k: int, len: nat)
    requires
        0 <= k <= fmt.len(),
        format_fits(fmt, len),
    ensures
        format_fits(fmt.take(k), len),
    decreases fmt.len() - k,
{
    if k < fmt.len() {
        lemma_fits_prefix(fmt, k + 1, len);
        assert(fmt.take(k + 1).drop_last() =~= fmt.take(k));
    } else {
        assert(fmt.take(k) =~= fmt);
    }
}

} // verus!

verus! {

/// The full length (four status bytes included) of each sensor report that
/// the parser knows.
pub open spec fn report_length(id: ReportId) -> Option<u8> {
    match id {
        ReportId::AccelerometerRaw => Some(16u8),
        ReportId::AccelerometerCalibrated => Some(10u8),
        ReportId::AccelerationLinear => Some(10u8),
        ReportId::Gravity => Some(10u8),
        ReportId::GyroscopeRaw => Some(16u8),
        ReportId::GyroscopeCalibrated => Some(10u8),
        ReportId::GyroscopeUncalibrated => Some(16u8),
        ReportId::MagnetometerRaw => Some(16u8),
        ReportId::MagFieldCalibrated => Some(10u8),
        ReportId::MagFieldUncalibrated => Some(16u8),
        ReportId::RotationVector => Some(14u8),
        ReportId::GameRotationVector => Some(12u8),
        ReportId::GeomagneticRotVector => Some(14u8),
        ReportId::TapDetector => Some(5u8),
        ReportId::StepDetector => Some(8u8),
        ReportId::StepCounter => Some(12u8),
        ReportId::SignificantMotion => Some(6u8),
        ReportId::StabilityClassifier => Some(6u8),
        ReportId::ShakeDetector => Some(6u8),
        ReportId::FlipDetector => Some(6u8),
        ReportId::PickupDetector => Some(6u8),
        ReportId::StabilityDetector => Some(6u8),
        ReportId::PersonalActClassifier => Some(16u8),
        ReportId::SleepDetector => Some(6u8),
        ReportId::TiltDetector => Some(6u8),
        ReportId::CircleDetector => Some(6u8),
        ReportId::ARVRStabilizedRotVec => Some(14u8),
        ReportId::ARVRStabilizedGameVec => Some(12u8),
        ReportId::GyroIntegratedRotVec => Some(14u8),
        _ => None,
    }
}

/// The report announced by the code `b`, with its full length, when the
/// parser knows its length.
pub open spec fn report_length_of_code(b: u8) -> Option<(ReportId, u8)> {
    match ReportId::from_code(b) {
        Some(id) => match report_length(id) {
            Some(len) => Some((id, len)),
            None => None,
        },
        None => None,
    }
}

/// The report announced by the code `report_id`, with its full length, when
/// the parser knows its length.
pub fn get_report_length(report_id: u8) -> (r: Option<(ReportId, u8)>)
    ensures
        r == report_length_of_code(report_id),
{
    match report_id {
        0x14 => Some((ReportId::AccelerometerRaw, 16)),
        0x01 => Some((ReportId::AccelerometerCalibrated, 10)),
        0x04 => Some((ReportId::AccelerationLinear, 10)),
        0x06 => Some((ReportId::Gravity, 10)),
        0x15 => Some((ReportId::GyroscopeRaw, 16)),
        0x02 => Some((ReportId::GyroscopeCalibrated, 10)),
        0x07 => Some((ReportId::GyroscopeUncalibrated, 16)),
        0x16 => Some((ReportId::MagnetometerRaw, 16)),
        0x03 => Some((ReportId::MagFieldCalibrated, 10)),
        0x0F => Some((ReportId::MagFieldUncalibrated, 16)),
        0x05 => Some((ReportId::RotationVector, 14)),
        0x08 => Some((ReportId::GameRotationVector, 12)),
        0x09 => Some((ReportId::GeomagneticRotVector, 14)),
        0x10 => Some((ReportId::TapDetector, 5)),
        0x18 => Some((ReportId::StepDetector, 8)),
        0x11 => Some((ReportId::StepCounter, 12)),
        0x12 => Some((ReportId::SignificantMotion, 6)),
        0x13 => Some((ReportId::StabilityClassifier, 6)),
        0x19 => Some((ReportId::ShakeDetector, 6)),
        0x1A => Some((ReportId::FlipDetector, 6)),
        0x1B => Some((ReportId::PickupDetector, 6)),
        0x1C => Some((ReportId::StabilityDetector, 6)),
        0x1E => Some((ReportId::PersonalActClassifier, 16)),
        0x1F => Some((ReportId::SleepDetector, 6)),
        0x20 => Some((ReportId::TiltDetector, 6)),
        0x22 => Some((ReportId::CircleDetector, 6)),
        0x28 => Some((ReportId::ARVRStabilizedRotVec, 14)),
        0x29 => Some((ReportId::ARVRStabilizedGameVec, 12)),
        0x2A => Some((ReportId::GyroIntegratedRotVec, 14)),
        _ => None,
    }
}

/// The field layout after the four status bytes of each report that the
/// parser can decode.
pub open spec fn report_format(id: ReportId) -> Option<Seq<DataTypes>> {
    match id {
        ReportId::AccelerometerCalibrated => Some(seq![DataTypes::I16, DataTypes::I16, DataTypes::I16]),
        ReportId::AccelerationLinear => Some(seq![DataTypes::I16, DataTypes::I16, DataTypes::I16]),
        ReportId::Gravity => Some(seq![DataTypes::I16, DataTypes::I16, DataTypes::I16]),
        ReportId::AccelerometerRaw => Some(seq![DataTypes::U16, DataTypes::U16, DataTypes::U16, DataTypes::Reserved, DataTypes::Reserved, DataTypes::U32]),
        ReportId::GyroscopeCalibrated => Some(seq![DataTypes::I16, DataTypes::I16, DataTypes::I16]),
        ReportId::GyroscopeUncalibrated => Some(seq![DataTypes::I16, DataTypes::I16, DataTypes::I16, DataTypes::I16, DataTypes::I16, DataTypes::I16]),
        ReportId::GyroscopeRaw => Some(seq![DataTypes::U16, DataTypes::U16, DataTypes::U16, DataTypes::U16, DataTypes::U32]),
        ReportId::MagFieldCalibrated => Some(seq![DataTypes::I16, DataTypes::I16, DataTypes::I16]),
        ReportId::MagFieldUncalibrated => Some(seq![DataTypes::I16, DataTypes::I16, DataTypes::I16, DataTypes::I16, DataTypes::I16, DataTypes::I16]),
        ReportId::MagnetometerRaw => Some(seq![DataTypes::U16, DataTypes::U16, DataTypes::U16, DataTypes::Reserved, DataTypes::Reserved, DataTypes::U32]),
        ReportId::GeomagneticRotVector => Some(seq![DataTypes::I16, DataTypes::I16, DataTypes::I16, DataTypes::I16, DataTypes::I16]),
        ReportId::GameRotationVector => Some(seq![DataTypes::I16, DataTypes::I16, DataTypes::I16, DataTypes::I16]),
        ReportId::ARVRStabilizedGameVec => Some(seq![DataTypes::I16, DataTypes::I16, DataTypes::I16, DataTypes::I16]),
        ReportId::RotationVector => Some(seq![DataTypes::I16, DataTypes::I16, DataTypes::I16, DataTypes::I16, DataTypes::I16]),
        ReportId::ARVRStabilizedRotVec => Some(seq![DataTypes::I16, DataTypes::I16, DataTypes::I16, DataTypes::I16, DataTypes::I16]),
        ReportId::GyroIntegratedRotVec => Some(seq![DataTypes::I16, DataTypes::I16, DataTypes::I16, DataTypes::I16, DataTypes::I16, DataTypes::I16, DataTypes::I16]),
        ReportId::StabilityClassifier => Some(seq![DataTypes::U8, DataTypes::Reserved]),
        ReportId::StabilityDetector => Some(seq![DataTypes::U16]),
        ReportId::TapDetector => Some(seq![DataTypes::U8]),
        ReportId::StepDetector => Some(seq![DataTypes::U32]),
        ReportId::StepCounter => Some(seq![DataTypes::U32, DataTypes::U16, DataTypes::Reserved, DataTypes::Reserved]),
        ReportId::PersonalActClassifier => Some(seq![DataTypes::U8, DataTypes::U8, DataTypes::U8, DataTypes::U8, DataTypes::U8, DataTypes::U8, DataTypes::U8, DataTypes::U8, DataTypes::U8, DataTypes::U8, DataTypes::U8, DataTypes::U8]),
        ReportId::SignificantMotion => Some(seq![DataTypes::U16]),
        ReportId::ShakeDetector => Some(seq![DataTypes::U16]),
        _ => None,
    }
}

/// The report itself with its field layout, when the parser knows one.
pub fn get_report_format(report_id: ReportId) -> (r: Option<(ReportId, Vec<DataTypes>)>)
    ensures
        match report_format(report_id) {
            Some(fmt) => r matches Some((id, v)) && id == report_id && v@ == fmt,
            None => r is None,
        },
{
    match report_id {
        ReportId::AccelerometerCalibrated => Some((ReportId::AccelerometerCalibrated, vec![DataTypes::I16, DataTypes::I16, DataTypes::I16])),
        ReportId::AccelerationLinear => Some((ReportId::AccelerationLinear, vec![DataTypes::I16, DataTypes::I16, DataTypes::I16])),
        ReportId::Gravity => Some((ReportId::Gravity, vec![DataTypes::I16, DataTypes::I16, DataTypes::I16])),
        ReportId::AccelerometerRaw => Some((ReportId::AccelerometerRaw, vec![DataTypes::U16, DataTypes::U16, DataTypes::U16, DataTypes::Reserved, DataTypes::Reserved, DataTypes::U32])),
        ReportId::GyroscopeCalibrated => Some((ReportId::GyroscopeCalibrated, vec![DataTypes::I16, DataTypes::I16, DataTypes::I16])),
        ReportId::GyroscopeUncalibrated => Some((ReportId::GyroscopeUncalibrated, vec![DataTypes::I16, DataTypes::I16, DataTypes::I16, DataTypes::I16, DataTypes::I16, DataTypes::I16])),
        ReportId::GyroscopeRaw => Some((ReportId::GyroscopeRaw, vec![DataTypes::U16, DataTypes::U16, DataTypes::U16, DataTypes::U16, DataTypes::U32])),
        ReportId::MagFieldCalibrated => Some((ReportId::MagFieldCalibrated, vec![DataTypes::I16, DataTypes::I16, DataTypes::I16])),
        ReportId::MagFieldUncalibrated => Some((ReportId::MagFieldUncalibrated, vec![DataTypes::I16, DataTypes::I16, DataTypes::I16, DataTypes::I16, DataTypes::I16, DataTypes::I16])),
        ReportId::MagnetometerRaw => Some((ReportId::MagnetometerRaw, vec![DataTypes::U16, DataTypes::U16, DataTypes::U16, DataTypes::Reserved, DataTypes::Reserved, DataTypes::U32])),
        ReportId::GeomagneticRotVector => Some((ReportId::GeomagneticRotVector, vec![DataTypes::I16, DataTypes::I16, DataTypes::I16, DataTypes::I16, DataTypes::I16])),
        ReportId::GameRotationVector => Some((ReportId::GameRotationVector, vec![DataTypes::I16, DataTypes::I16, DataTypes::I16, DataTypes::I16])),
        ReportId::ARVRStabilizedGameVec => Some((ReportId::ARVRStabilizedGameVec, vec![DataTypes::I16, DataTypes::I16, DataTypes::I16, DataTypes::I16])),
        ReportId::RotationVector => Some((ReportId::RotationVector, vec![DataTypes::I16, DataTypes::I16, DataTypes::I16, DataTypes::I16, DataTypes::I16])),
        ReportId::ARVRStabilizedRotVec => Some((ReportId::ARVRStabilizedRotVec, vec![DataTypes::I16, DataTypes::I16, DataTypes::I16, DataTypes::I16, DataTypes::I16])),
        ReportId::GyroIntegratedRotVec => Some((ReportId::GyroIntegratedRotVec, vec![DataTypes::I16, DataTypes::I16, DataTypes::I16, DataTypes::I16, DataTypes::I16, DataTypes::I16, DataTypes::I16])),
        ReportId::StabilityClassifier => Some((ReportId::StabilityClassifier, vec![DataTypes::U8, DataTypes::Reserved])),
        ReportId::StabilityDetector => Some((ReportId::StabilityDetector, vec![DataTypes::U16])),
        ReportId::TapDetector => Some((ReportId::TapDetector, vec![DataTypes::U8])),
        ReportId::StepDetector => Some((ReportId::StepDetector, vec![DataTypes::U32])),
        ReportId::StepCounter => Some((ReportId::StepCounter, vec![DataTypes::U32, DataTypes::U16, DataTypes::Reserved, DataTypes::Reserved])),
        ReportId::PersonalActClassifier => Some((ReportId::PersonalActClassifier, vec![DataTypes::U8, DataTypes::U8, DataTypes::U8, DataTypes::U8, DataTypes::U8, DataTypes::U8, DataTypes::U8, DataTypes::U8, DataTypes::U8, DataTypes::U8, DataTypes::U8, DataTypes::U8])),
        ReportId::SignificantMotion => Some((ReportId::SignificantMotion, vec![DataTypes::U16])),
        ReportId::ShakeDetector => Some((ReportId::ShakeDetector, vec![DataTypes::U16])),
        _ => None,
    }
}

/// The reports that must be enabled before each report.
pub open spec fn feature_dependencies(id: ReportId) -> Seq<ReportId> {
    match id {
        ReportId::AccelerometerRaw => seq![ReportId::AccelerometerCalibrated],
        ReportId::AccelerationLinear => seq![ReportId::AccelerometerCalibrated],
        ReportId::Gravity => seq![ReportId::AccelerometerCalibrated],
        ReportId::GyroscopeCalibrated => seq![ReportId::AccelerometerCalibrated],
        ReportId::GyroscopeRaw => seq![ReportId::GyroscopeCalibrated],
        ReportId::GyroscopeUncalibrated => seq![ReportId::GyroscopeCalibrated, ReportId::AccelerometerCalibrated],
        ReportId::MagnetometerRaw => seq![ReportId::MagFieldCalibrated],
        ReportId::MagFieldCalibrated => seq![ReportId::AccelerometerCalibrated],
        ReportId::MagFieldUncalibrated => seq![ReportId::MagFieldCalibrated, ReportId::AccelerometerCalibrated],
        ReportId::RotationVector => seq![ReportId::AccelerometerCalibrated, ReportId::GyroscopeCalibrated, ReportId::MagFieldCalibrated],
        ReportId::GameRotationVector => seq![ReportId::AccelerometerCalibrated, ReportId::GyroscopeCalibrated],
        ReportId::GeomagneticRotVector => seq![ReportId::AccelerometerCalibrated, ReportId::MagFieldCalibrated],
        ReportId::TapDetector => seq![ReportId::AccelerometerCalibrated],
        ReportId::StepDetector => seq![ReportId::AccelerometerCalibrated],
        ReportId::StepCounter => seq![ReportId::AccelerometerCalibrated],
        ReportId::SignificantMotion => seq![ReportId::AccelerometerCalibrated],
        ReportId::StabilityClassifier => seq![ReportId::AccelerometerCalibrated, ReportId::GyroscopeCalibrated],
        ReportId::ShakeDetector => seq![ReportId::AccelerometerCalibrated],
        ReportId::FlipDetector => seq![ReportId::AccelerometerCalibrated],
        ReportId::PickupDetector => seq![ReportId::AccelerometerCalibrated],
        ReportId::StabilityDetector => seq![ReportId::AccelerometerCalibrated],
        ReportId::PersonalActClassifier => seq![ReportId::AccelerometerCalibrated],
        ReportId::SleepDetector => seq![ReportId::AccelerometerCalibrated],
        ReportId::TiltDetector => seq![ReportId::AccelerometerCalibrated],
        ReportId::CircleDetector => seq![ReportId::AccelerometerCalibrated],
        ReportId::ARVRStabilizedRotVec => seq![ReportId::AccelerometerCalibrated, ReportId::GyroscopeCalibrated, ReportId::MagFieldCalibrated],
        ReportId::ARVRStabilizedGameVec => seq![ReportId::AccelerometerCalibrated, ReportId::GyroscopeCalibrated],
        ReportId::GyroIntegratedRotVec => seq![ReportId::AccelerometerCalibrated, ReportId::GyroscopeCalibrated, ReportId::MagFieldCalibrated],
        _ => Seq::empty(),
    }
}

/// The reports that must be enabled before `report_id`, in the order they
/// are enabled.
pub fn get_feature_dependencies(report_id: ReportId) -> (r: Vec<ReportId>)
    ensures
        r@ == feature_dependencies(report_id),
{
    match report_id {
        ReportId::AccelerometerRaw => vec![ReportId::AccelerometerCalibrated],
        ReportId::AccelerationLinear => vec![ReportId::AccelerometerCalibrated],
        ReportId::Gravity => vec![ReportId::AccelerometerCalibrated],
        ReportId::GyroscopeCalibrated => vec![ReportId::AccelerometerCalibrated],
        ReportId::GyroscopeRaw => vec![ReportId::GyroscopeCalibrated],
        ReportId::GyroscopeUncalibrated => vec![ReportId::GyroscopeCalibrated, ReportId::AccelerometerCalibrated],
        ReportId::MagnetometerRaw => vec![ReportId::MagFieldCalibrated],
        ReportId::MagFieldCalibrated => vec![ReportId::AccelerometerCalibrated],
        ReportId::MagFieldUncalibrated => vec![ReportId::MagFieldCalibrated, ReportId::AccelerometerCalibrated],
        ReportId::RotationVector => vec![ReportId::AccelerometerCalibrated, ReportId::GyroscopeCalibrated, ReportId::MagFieldCalibrated],
        ReportId::GameRotationVector => vec![ReportId::AccelerometerCalibrated, ReportId::GyroscopeCalibrated],
        ReportId::GeomagneticRotVector => vec![ReportId::AccelerometerCalibrated, ReportId::MagFieldCalibrated],
        ReportId::TapDetector => vec![ReportId::AccelerometerCalibrated],
        ReportId::StepDetector => vec![ReportId::AccelerometerCalibrated],
        ReportId::StepCounter => vec![ReportId::AccelerometerCalibrated],
        ReportId::SignificantMotion => vec![ReportId::AccelerometerCalibrated],
        ReportId::StabilityClassifier => vec![ReportId::AccelerometerCalibrated, ReportId::GyroscopeCalibrated],
        ReportId::ShakeDetector => vec![ReportId::AccelerometerCalibrated],
        ReportId::FlipDetector => vec![ReportId::AccelerometerCalibrated],
        ReportId::PickupDetector => vec![ReportId::AccelerometerCalibrated],
        ReportId::StabilityDetector => vec![ReportId::AccelerometerCalibrated],
        ReportId::PersonalActClassifier => vec![ReportId::AccelerometerCalibrated],
        ReportId::SleepDetector => vec![ReportId::AccelerometerCalibrated],
        ReportId::TiltDetector => vec![ReportId::AccelerometerCalibrated],
        ReportId::CircleDetector => vec![ReportId::AccelerometerCalibrated],
        ReportId::ARVRStabilizedRotVec => vec![ReportId::AccelerometerCalibrated, ReportId::GyroscopeCalibrated, ReportId::MagFieldCalibrated],
        ReportId::ARVRStabilizedGameVec => vec![ReportId::AccelerometerCalibrated, ReportId::GyroscopeCalibrated],
        ReportId::GyroIntegratedRotVec => vec![ReportId::AccelerometerCalibrated, ReportId::GyroscopeCalibrated, ReportId::MagFieldCalibrated],
        _ => Vec::new(),
    }
}

/// How deep a report sits in the dependency order: the calibrated
/// accelerometer needs nothing, the calibrated gyroscope and magnetic field
/// need only it, and every other report sits above them.
pub open spec fn dependency_rank(id: ReportId) -> nat {
    match id {
        ReportId::AccelerometerCalibrated => 0,
        ReportId::GyroscopeCalibrated => 1,
        ReportId::MagFieldCalibrated => 1,
        _ => 2,
    }
}

/// The dependency table has no cycle: every dependency of a report sits
/// strictly lower in the dependency order, and is one of the three
/// calibrated base sensors.
pub proof fn lemma_dependencies_descend(id: ReportId, i: int)
    requires
        0 <= i < feature_dependencies(id).len(),
    ensures
        dependency_rank(feature_dependencies(id)[i]) < dependency_rank(id),
        feature_dependencies(id)[i] == ReportId::AccelerometerCalibrated
            || feature_dependencies(id)[i] == ReportId::GyroscopeCalibrated
            || feature_dependencies(id)[i] == ReportId::MagFieldCalibrated,
{
}

/// The length of the control reports received on the control channel.
pub open spec fn control_report_length(id: SH2Read) -> u8 {
    match id {
        SH2Read::CommandResponse => 16,
        SH2Read::FrsReadResponse => 16,
        SH2Read::GetFeatureResponse => 17,
        SH2Read::ProductIDResponse => 16,
    }
}

/// The control report announced by the code `report_id`, with its length.
pub fn get_control_report_length(report_id: u8) -> (r: Option<(SH2Read, u8)>)
    ensures
        match r {
            Some((id, len)) => id.code() == report_id && len == control_report_length(id),
            None => forall|id: SH2Read| id.code() != report_id,
        },
{
    match report_id {
        0xF1 => Some((SH2Read::CommandResponse, 16)),
        0xF3 => Some((SH2Read::FrsReadResponse, 16)),
        0xFC => Some((SH2Read::GetFeatureResponse, 17)),
        0xF8 => Some((SH2Read::ProductIDResponse, 16)),
        _ => None,
    }
}

} // verus!

verus! {

/// The SH-2 report table: each report id with its wire code and, for the
/// reports whose payload is parsed, its full length (status bytes included).
pub open spec fn sh2_report_table() -> Seq<(ReportId, u8, Option<u8>)> {
    seq![
        (ReportId::AccelerometerRaw, 0x14u8, Some(16u8)),
        (ReportId::AccelerometerCalibrated, 0x01u8, Some(10u8)),
        (ReportId::AccelerationLinear, 0x04u8, Some(10u8)),
        (ReportId::Gravity, 0x06u8, Some(10u8)),
        (ReportId::GyroscopeRaw, 0x15u8, Some(16u8)),
        (ReportId::GyroscopeCalibrated, 0x02u8, Some(10u8)),
        (ReportId::GyroscopeUncalibrated, 0x07u8, Some(16u8)),
        (ReportId::MagnetometerRaw, 0x16u8, Some(16u8)),
        (ReportId::MagFieldCalibrated, 0x03u8, Some(10u8)),
        (ReportId::MagFieldUncalibrated, 0x0Fu8, Some(16u8)),
        (ReportId::RotationVector, 0x05u8, Some(14u8)),
        (ReportId::GameRotationVector, 0x08u8, Some(12u8)),
        (ReportId::GeomagneticRotVector, 0x09u8, Some(14u8)),
        (ReportId::Pressure, 0x0Au8, None),
        (ReportId::AmbientLight, 0x0Bu8, None),
        (ReportId::Humidity, 0x0Cu8, None),
        (ReportId::Proximity, 0x0Du8, None),
        (ReportId::Tempterature, 0x0Eu8, None),
        (ReportId::Reserved, 0x17u8, None),
        (ReportId::TapDetector, 0x10u8, Some(5u8)),
        (ReportId::StepDetector, 0x18u8, Some(8u8)),
        (ReportId::StepCounter, 0x11u8, Some(12u8)),
        (ReportId::SignificantMotion, 0x12u8, Some(6u8)),
        (ReportId::StabilityClassifier, 0x13u8, Some(6u8)),
        (ReportId::ShakeDetector, 0x19u8, Some(6u8)),
        (ReportId::FlipDetector, 0x1Au8, Some(6u8)),
        (ReportId::PickupDetector, 0x1Bu8, Some(6u8)),
        (ReportId::StabilityDetector, 0x1Cu8, Some(6u8)),
        (ReportId::PersonalActClassifier, 0x1Eu8, Some(16u8)),
        (ReportId::SleepDetector, 0x1Fu8, Some(6u8)),
        (ReportId::TiltDetector, 0x20u8, Some(6u8)),
        (ReportId::PocketDetector, 0x21u8, None),
        (ReportId::CircleDetector, 0x22u8, Some(6u8)),
        (ReportId::HeartRateMonitor, 0x23u8, None),
        (ReportId::ARVRStabilizedRotVec, 0x28u8, Some(14u8)),
        (ReportId::ARVRStabilizedGameVec, 0x29u8, Some(12u8)),
        (ReportId::GyroIntegratedRotVec, 0x2Au8, Some(14u8)),
        (ReportId::MotionRequest, 0x2Bu8, None),
        (ReportId::OpticalFlow, 0x2Cu8, None),
        (ReportId::DeadReckoning, 0x2Du8, None),
        (ReportId::BaseTimestamp, 0xFBu8, None),
        (ReportId::TimestampRebase, 0xFAu8, None),
    ]
}

/// Whether the SH-2 report table has an entry for `id`.
pub open spec fn listed_in_sh2_table(id: ReportId) -> bool {
    exists|i: int| 0 <= i < sh2_report_table().len() && (#[trigger] sh2_report_table()[i]).0 == id
}

/// Report ids travel as the codes of the SH-2 report table, and a received
/// code is recognised as the report the table gives it, with the table's
/// length when the payload is parsed and with no length otherwise.
pub proof fn lemma_report_codes_follow_sh2_table()
    ensures
        forall|i: int| 0 <= i < sh2_report_table().len() ==> {
            let (id, code, len) = #[trigger] sh2_report_table()[i];
            &&& id.code() == code
            &&& ReportId::from_code(code) == Some(id)
            &&& report_length_of_code(code) == match len {
                Some(l) => Some((id, l)),
                None => None,
            }
        },
        forall|id: ReportId| #[trigger] listed_in_sh2_table(id),
{
    let t = sh2_report_table();
    assert forall|i: int| 0 <= i < t.len() implies {
        let (id, code, len) = #[trigger] t[i];
        &&& id.code() == code
        &&& ReportId::from_code(code) == Some(id)
        &&& report_length_of_code(code) == match len {
            Some(l) => Some((id, l)),
            None => None,
        }
    } by {
        if i == 0 { assert(t[0] == t[0]); }
        if i == 1 { assert(t[1] == t[1]); }
        if i == 2 { assert(t[2] == t[2]); }
        if i == 3 { assert(t[3] == t[3]); }
        if i == 4 { assert(t[4] == t[4]); }
        if i == 5 { assert(t[5] == t[5]); }
        if i == 6 { assert(t[6] == t[6]); }
        if i == 7 { assert(t[7] == t[7]); }
        if i == 8 { assert(t[8] == t[8]); }
        if i == 9 { assert(t[9] == t[9]); }
        if i == 10 { assert(t[10] == t[10]); }
        if i == 11 { assert(t[11] == t[11]); }
        if i == 12 { assert(t[12] == t[12]); }
        if i == 13 { assert(t[13] == t[13]); }
        if i == 14 { assert(t[14] == t[14]); }
        if i == 15 { assert(t[15] == t[15]); }
        if i == 16 { assert(t[16] == t[16]); }
        if i == 17 { assert(t[17] == t[17]); }
        if i == 18 { assert(t[18] == t[18]); }
        if i == 19 { assert(t[19] == t[19]); }
        if i == 20 { assert(t[20] == t[20]); }
        if i == 21 { assert(t[21] == t[21]); }
        if i == 22 { assert(t[22] == t[22]); }
        if i == 23 { assert(t[23] == t[23]); }
        if i == 24 { assert(t[24] == t[24]); }
        if i == 25 { assert(t[25] == t[25]); }
        if i == 26 { assert(t[26] == t[26]); }
        if i == 27 { assert(t[27] == t[27]); }
        if i == 28 { assert(t[28] == t[28]); }
        if i == 29 { assert(t[29] == t[29]); }
        if i == 30 { assert(t[30] == t[30]); }
        if i == 31 { assert(t[31] == t[31]); }
        if i == 32 { assert(t[32] == t[32]); }
        if i == 33 { assert(t[33] == t[33]); }
        if i == 34 { assert(t[34] == t[34]); }
        if i == 35 { assert(t[35] == t[35]); }
        if i == 36 { assert(t[36] == t[36]); }
        if i == 37 { assert(t[37] == t[37]); }
        if i == 38 { assert(t[38] == t[38]); }
        if i == 39 { assert(t[39] == t[39]); }
        if i == 40 { assert(t[40] == t[40]); }
        if i == 41 { assert(t[41] == t[41]); }
    }
    assert forall|id: ReportId| #[trigger] listed_in_sh2_table(id) by {
        match id {
            ReportId::AccelerometerRaw => { assert(t[0].0 == id); },
            ReportId::AccelerometerCalibrated => { assert(t[1].0 == id); },
            ReportId::AccelerationLinear => { assert(t[2].0 == id); },
            ReportId::Gravity => { assert(t[3].0 == id); },
            ReportId::GyroscopeRaw => { assert(t[4].0 == id); },
            ReportId::GyroscopeCalibrated => { assert(t[5].0 == id); },
            ReportId::GyroscopeUncalibrated => { assert(t[6].0 == id); },
            ReportId::MagnetometerRaw => { assert(t[7].0 == id); },
            ReportId::MagFieldCalibrated => { assert(t[8].0 == id); },
            ReportId::MagFieldUncalibrated => { assert(t[9].0 == id); },
            ReportId::RotationVector => { assert(t[10].0 == id); },
            ReportId::GameRotationVector => { assert(t[11].0 == id); },
            ReportId::GeomagneticRotVector => { assert(t[12].0 == id); },
            ReportId::Pressure => { assert(t[13].0 == id); },
            ReportId::AmbientLight => { assert(t[14].0 == id); },
            ReportId::Humidity => { assert(t[15].0 == id); },
            ReportId::Proximity => { assert(t[16].0 == id); },
            ReportId::Tempterature => { assert(t[17].0 == id); },
            ReportId::Reserved => { assert(t[18].0 == id); },
            ReportId::TapDetector => { assert(t[19].0 == id); },
            ReportId::StepDetector => { assert(t[20].0 == id); },
            ReportId::StepCounter => { assert(t[21].0 == id); },
            ReportId::SignificantMotion => { assert(t[22].0 == id); },
            ReportId::StabilityClassifier => { assert(t[23].0 == id); },
            ReportId::ShakeDetector => { assert(t[24].0 == id); },
            ReportId::FlipDetector => { assert(t[25].0 == id); },
            ReportId::PickupDetector => { assert(t[26].0 == id); },
            ReportId::StabilityDetector => { assert(t[27].0 == id); },
            ReportId::PersonalActClassifier => { assert(t[28].0 == id); },
            ReportId::SleepDetector => { assert(t[29].0 == id); },
            ReportId::TiltDetector => { assert(t[30].0 == id); },
            ReportId::PocketDetector => { assert(t[31].0 == id); },
            ReportId::CircleDetector => { assert(t[32].0 == id); },
            ReportId::HeartRateMonitor => { assert(t[33].0 == id); },
            ReportId::ARVRStabilizedRotVec => { assert(t[34].0 == id); },
            ReportId::ARVRStabilizedGameVec => { assert(t[35].0 == id); },
            ReportId::GyroIntegratedRotVec => { assert(t[36].0 == id); },
            ReportId::MotionRequest => { assert(t[37].0 == id); },
            ReportId::OpticalFlow => { assert(t[38].0 == id); },
            ReportId::DeadReckoning => { assert(t[39].0 == id); },
            ReportId::BaseTimestamp => { assert(t[40].0 == id); },
            ReportId::TimestampRebase => { assert(t[41].0 == id); },
        }
    }
}

} // verus!

verus! {

/// The dependency table follows what each report is computed from:
/// - the calibrated accelerometer needs nothing, and the calibrated gyroscope
///   and magnetic field need the calibrated accelerometer;
/// - a raw sensor report needs its calibrated sensor, and an uncalibrated one
///   needs its calibrated sensor and then what that sensor needs;
/// - the rotation vector fuses accelerometer, gyroscope and magnetic field in
///   that order; the game rotation vector the same without the magnetic
///   field, the geomagnetic one without the gyroscope; the AR/VR stabilized
///   and gyro-integrated vectors need what their base vector needs, and the
///   stability classifier what the game vector needs;
/// - every other report with a dependency needs the calibrated accelerometer
///   only.
pub proof fn lemma_dependencies_follow_sources(id: ReportId)
    ensures
        feature_dependencies(ReportId::AccelerometerCalibrated).len() == 0,
        feature_dependencies(ReportId::GyroscopeCalibrated) == seq![ReportId::AccelerometerCalibrated],
        feature_dependencies(ReportId::MagFieldCalibrated) == seq![ReportId::AccelerometerCalibrated],
        feature_dependencies(ReportId::AccelerometerRaw) == seq![ReportId::AccelerometerCalibrated],
        feature_dependencies(ReportId::GyroscopeRaw) == seq![ReportId::GyroscopeCalibrated],
        feature_dependencies(ReportId::MagnetometerRaw) == seq![ReportId::MagFieldCalibrated],
        feature_dependencies(ReportId::GyroscopeUncalibrated)
            == seq![ReportId::GyroscopeCalibrated] + feature_dependencies(ReportId::GyroscopeCalibrated),
        feature_dependencies(ReportId::MagFieldUncalibrated)
            == seq![ReportId::MagFieldCalibrated] + feature_dependencies(ReportId::MagFieldCalibrated),
        feature_dependencies(ReportId::RotationVector)
            == seq![ReportId::AccelerometerCalibrated, ReportId::GyroscopeCalibrated, ReportId::MagFieldCalibrated],
        feature_dependencies(ReportId::GameRotationVector)
            == feature_dependencies(ReportId::RotationVector).filter(|d: ReportId| d != ReportId::MagFieldCalibrated),
        feature_dependencies(ReportId::GeomagneticRotVector)
            == feature_dependencies(ReportId::RotationVector).filter(|d: ReportId| d != ReportId::GyroscopeCalibrated),
        feature_dependencies(ReportId::ARVRStabilizedRotVec) == feature_dependencies(ReportId::RotationVector),
        feature_dependencies(ReportId::GyroIntegratedRotVec) == feature_dependencies(ReportId::RotationVector),
        feature_dependencies(ReportId::ARVRStabilizedGameVec) == feature_dependencies(ReportId::GameRotationVector),
        feature_dependencies(ReportId::StabilityClassifier) == feature_dependencies(ReportId::GameRotationVector),
        feature_dependencies(id).len() > 0 && !is_vector_or_sensor_report(id)
            ==> feature_dependencies(id) == seq![ReportId::AccelerometerCalibrated],
{
    reveal_with_fuel(Seq::filter, 4);
    let rv = feature_dependencies(ReportId::RotationVector);
    assert(rv.filter(|d: ReportId| d != ReportId::MagFieldCalibrated)
        =~= seq![ReportId::AccelerometerCalibrated, ReportId::GyroscopeCalibrated]);
    assert(rv.filter(|d: ReportId| d != ReportId::GyroscopeCalibrated)
        =~= seq![ReportId::AccelerometerCalibrated, ReportId::MagFieldCalibrated]);
    assert(seq![ReportId::GyroscopeCalibrated] + seq![ReportId::AccelerometerCalibrated]
        =~= seq![ReportId::GyroscopeCalibrated, ReportId::AccelerometerCalibrated]);
    assert(seq![ReportId::MagFieldCalibrated] + seq![ReportId::AccelerometerCalibrated]
        =~= seq![ReportId::MagFieldCalibrated, ReportId::AccelerometerCalibrated]);
}

/// The reports singled out by `lemma_dependencies_follow_sources`: the
/// sensor reports (raw, calibrated, uncalibrated) of the three base sensors,
/// the rotation vectors and the stability classifier.
pub open spec fn is_vector_or_sensor_report(id: ReportId) -> bool {
    ||| id == ReportId::AccelerometerCalibrated
    ||| id == ReportId::GyroscopeCalibrated
    ||| id == ReportId::MagFieldCalibrated
    ||| id == ReportId::GyroscopeRaw
    ||| id == ReportId::MagnetometerRaw
    ||| id == ReportId::GyroscopeUncalibrated
    ||| id == ReportId::MagFieldUncalibrated
    ||| id == ReportId::RotationVector
    ||| id == ReportId::GameRotationVector
    ||| id == ReportId::GeomagneticRotVector
    ||| id == ReportId::ARVRStabilizedRotVec
    ||| id == ReportId::GyroIntegratedRotVec
    ||| id == ReportId::ARVRStabilizedGameVec
    ||| id == ReportId::StabilityClassifier
}

/// A report made only of signed 16-bit fields is its four status bytes
/// followed by two bytes per field; the gyro-integrated rotation vector,
/// which is sent without status bytes, is two bytes per field.
pub proof fn lemma_signed_report_lengths(id: ReportId)
    requires
        report_format(id) is Some,
        forall|i: int| 0 <= i < report_format(id).unwrap().len()
            ==> #[trigger] report_format(id).unwrap()[i] == DataTypes::I16,
    ensures
        report_length(id) == Some((if id == ReportId::GyroIntegratedRotVec { 0int } else { 4int }
            + 2 * report_format(id).unwrap().len()) as u8),
{
    let fmt = report_format(id).unwrap();
    match id {
        ReportId::AccelerometerRaw => { assert(fmt[0] == DataTypes::U16); },
        ReportId::MagnetometerRaw => { assert(fmt[0] == DataTypes::U16); },
        ReportId::GyroscopeRaw => { assert(fmt[0] == DataTypes::U16); },
        ReportId::StabilityClassifier => { assert(fmt[0] == DataTypes::U8); },
        ReportId::StabilityDetector => { assert(fmt[0] == DataTypes::U16); },
        ReportId::TapDetector => { assert(fmt[0] == DataTypes::U8); },
        ReportId::StepDetector => { assert(fmt[0] == DataTypes::U32); },
        ReportId::StepCounter => { assert(fmt[0] == DataTypes::U32); },
        ReportId::PersonalActClassifier => { assert(fmt[0] == DataTypes::U8); },
        ReportId::SignificantMotion => { assert(fmt[0] == DataTypes::U16); },
        ReportId::ShakeDetector => { assert(fmt[0] == DataTypes::U16); },
        _ => {},
    }
}

} // verus!
