//! The latest reading of each sensor, kept as the fixed-point integers that
//! the reports carry, and the decoding of sensor reports into it.

use vstd::prelude::*;
use crate::bounded::values_as_slice;
use crate::parsing::{
    DataTypes, DataVals, field_value, format_fits, format_offset, format_values,
    get_report_format, process_buf, report_format, field_advance, field_width,
};
use crate::register::{ReportId, Status};

verus! {

/// The latest reading of each sensor: its accuracy status and its fields.
/// Calibrated and fused readings are the signed fixed-point values of the
/// report (to be scaled by their Q point); raw readings are the unsigned
/// sample values and a timestamp.
#[derive(Clone, Copy, Debug)]
pub struct Sensors {
    pub acceleration: (Status, i16, i16, i16),
    pub accel_raw: (Status, u16, u16, u16, u32),
    pub linear_accel: (Status, i16, i16, i16),
    pub gravity: (Status, i16, i16, i16),
    pub gyroscope: (Status, i16, i16, i16),
    pub gyro_raw: (Status, u16, u16, u16, u16, u32),
    pub magnetometer: (Status, i16, i16, i16),
    pub mag_raw: (Status, u16, u16, u16, u32),
    pub quaternions: (Status, i16, i16, i16, i16),
    pub game_quaternions: (Status, i16, i16, i16, i16),
    pub geomag_quaternions: (Status, i16, i16, i16, i16),
}

/// The accuracy named by the low two bits of a status byte.
pub open spec fn accuracy_of(b: u8) -> Status {
    let n = b % 4;
    if n == 0 {
        Status::Unreliable
    } else if n == 1 {
        Status::LowAccuracy
    } else if n == 2 {
        Status::MediumAccuracy
    } else {
        Status::HighAccuracy
    }
}

/// The status and the delay carried by the four status bytes of a report:
/// the accuracy in the low two bits of the third byte, the delay in its upper
/// six bits (high part) and the fourth byte (low part). Fewer than four
/// bytes give an unknown status and no delay.
pub open spec fn report_status(r: Seq<u8>) -> (Status, u16) {
    if r.len() >= 4 {
        (accuracy_of(r[2]), ((r[2] / 4) as int * 256 + r[3] as int) as u16)
    } else {
        (Status::Unknown, 0u16)
    }
}

/// Decodes the status and delay of a report's four status bytes (see
/// `report_status`).
pub fn parse_status(report_bytes: &[u8]) -> (r: (Status, u16))
    ensures
        r == report_status(report_bytes@),
{
    if report_bytes.len() >= 4 {
        let status_byte = report_bytes[2];
        let delay_lower_byte = report_bytes[3];
        let delay_upper = status_byte >> 2;
        let delay: u16 = ((delay_upper as u16) << 8) | (delay_lower_byte as u16);
        assert(delay == (status_byte / 4) * 256 + delay_lower_byte) by (bit_vector)
            requires
                delay_upper == status_byte >> 2,
                delay == ((delay_upper as u16) << 8) | (delay_lower_byte as u16);
        let low = status_byte & 0b0000_0011;
        assert(low == status_byte % 4) by (bit_vector)
            requires low == status_byte & 0b0000_0011;
        let status = match low {
            0 => Status::Unreliable,
            1 => Status::LowAccuracy,
            2 => Status::MediumAccuracy,
            3 => Status::HighAccuracy,
            _ => Status::Unknown,
        };
        (status, delay)
    } else {
        (Status::Unknown, 0)
    }
}

/// The signed little-endian 16-bit field at byte `i` of `d`.
pub open spec fn i16_at(d: Seq<u8>, i: int) -> i16 {
    (d[i] as int + 256 * (d[i + 1] as int)) as i16
}

/// The unsigned little-endian 16-bit field at byte `i` of `d`.
pub open spec fn u16_at(d: Seq<u8>, i: int) -> u16 {
    (d[i] as int + 256 * (d[i + 1] as int)) as u16
}

/// The unsigned little-endian 32-bit field at byte `i` of `d`.
pub open spec fn u32_at(d: Seq<u8>, i: int) -> u32 {
    (d[i] as int + 256 * (d[i + 1] as int) + 65536 * (d[i + 2] as int) + 16777216 * (d[i + 3] as int)) as u32
}

/// The reports whose readings are kept.
pub open spec fn is_tracked(id: ReportId) -> bool {
    ||| id == ReportId::AccelerometerCalibrated
    ||| id == ReportId::AccelerometerRaw
    ||| id == ReportId::AccelerationLinear
    ||| id == ReportId::Gravity
    ||| id == ReportId::GyroscopeCalibrated
    ||| id == ReportId::GyroscopeRaw
    ||| id == ReportId::MagFieldCalibrated
    ||| id == ReportId::MagnetometerRaw
    ||| id == ReportId::RotationVector
    ||| id == ReportId::GameRotationVector
    ||| id == ReportId::GeomagneticRotVector
}

/// The smallest payload length that holds every decoded field of report `id`.
pub open spec fn tracked_payload_len(id: ReportId) -> nat {
    match id {
        ReportId::AccelerometerRaw => 10,
        ReportId::MagnetometerRaw => 10,
        ReportId::GyroscopeRaw => 12,
        ReportId::RotationVector => 10,
        ReportId::GeomagneticRotVector => 10,
        ReportId::GameRotationVector => 8,
        _ => 6,
    }
}

impl Sensors {
    /// Every reading unknown and zero.
    pub open spec fn initial() -> Sensors {
        Sensors {
            acceleration: (Status::Unknown, 0, 0, 0),
            accel_raw: (Status::Unknown, 0, 0, 0, 0),
            linear_accel: (Status::Unknown, 0, 0, 0),
            gravity: (Status::Unknown, 0, 0, 0),
            gyroscope: (Status::Unknown, 0, 0, 0),
            gyro_raw: (Status::Unknown, 0, 0, 0, 0, 0),
            magnetometer: (Status::Unknown, 0, 0, 0),
            mag_raw: (Status::Unknown, 0, 0, 0, 0),
            quaternions: (Status::Unknown, 0, 0, 0, 0),
            game_quaternions: (Status::Unknown, 0, 0, 0, 0),
            geomag_quaternions: (Status::Unknown, 0, 0, 0, 0),
        }
    }

    /// The readings after a report `id` with payload `d` and status bytes `r`:
    /// the reading that the report carries is replaced by the report's status
    /// and fields, the others kept; a report that is not tracked changes
    /// nothing.
    pub open spec fn updated(self, id: ReportId, d: Seq<u8>, r: Seq<u8>) -> Sensors {
        let s = report_status(r).0;
        match id {
            ReportId::AccelerometerCalibrated =>
                Sensors { acceleration: (s, i16_at(d, 0), i16_at(d, 2), i16_at(d, 4)), ..self },
            ReportId::AccelerometerRaw =>
                Sensors { accel_raw: (s, u16_at(d, 0), u16_at(d, 2), u16_at(d, 4), u32_at(d, 6)), ..self },
            ReportId::AccelerationLinear =>
                Sensors { linear_accel: (s, i16_at(d, 0), i16_at(d, 2), i16_at(d, 4)), ..self },
            ReportId::Gravity =>
                Sensors { gravity: (s, i16_at(d, 0), i16_at(d, 2), i16_at(d, 4)), ..self },
            ReportId::GyroscopeCalibrated =>
                Sensors { gyroscope: (s, i16_at(d, 0), i16_at(d, 2), i16_at(d, 4)), ..self },
            ReportId::GyroscopeRaw =>
                Sensors {
                    gyro_raw: (s, u16_at(d, 0), u16_at(d, 2), u16_at(d, 4), u16_at(d, 6), u32_at(d, 8)),
                    ..self
                },
            ReportId::MagFieldCalibrated =>
                Sensors { magnetometer: (s, i16_at(d, 0), i16_at(d, 2), i16_at(d, 4)), ..self },
            ReportId::MagnetometerRaw =>
                Sensors { mag_raw: (s, u16_at(d, 0), u16_at(d, 2), u16_at(d, 4), u32_at(d, 6)), ..self },
            ReportId::RotationVector =>
                Sensors { quaternions: (s, i16_at(d, 0), i16_at(d, 2), i16_at(d, 4), i16_at(d, 6)), ..self },
            ReportId::GameRotationVector =>
                Sensors {
                    game_quaternions: (s, i16_at(d, 0), i16_at(d, 2), i16_at(d, 4), i16_at(d, 6)),
                    ..self
                },
            ReportId::GeomagneticRotVector =>
                Sensors {
                    geomag_quaternions: (s, i16_at(d, 0), i16_at(d, 2), i16_at(d, 4), i16_at(d, 6)),
                    ..self
                },
            _ => self,
        }
    }
}


/// One more field at the end of a layout: the read position moves by its
/// advance, its value (if it is not reserved) is read at the old position,
/// and it fits when it is reserved or its bytes lie in the buffer.
proof fn lemma_format_push(fmt: Seq<DataTypes>, k: DataTypes, d: Seq<u8>, len: nat)
    ensures
        format_offset(fmt.push(k)) == format_offset(fmt) + field_advance(k),
        format_values(fmt.push(k), d) == (if k == DataTypes::Reserved {
            format_values(fmt, d)
        } else {
            format_values(fmt, d).push(field_value(
                d.subrange(format_offset(fmt) as int, (format_offset(fmt) + field_width(k)) as int), k))
        }),
        format_fits(fmt.push(k), len) == (format_fits(fmt, len) && (k == DataTypes::Reserved
            || (k != DataTypes::U8 && format_offset(fmt) + field_width(k) <= len))),
{
    assert(fmt.push(k).drop_last() =~= fmt);
}

/// A layout of `n` signed 16-bit fields reads them from consecutive byte
/// pairs, and fits exactly the buffers of at least `2 * n` bytes.
proof fn lemma_i16_layout(n: nat, d: Seq<u8>)
    ensures
        ({
            let fmt = Seq::new(n, |i: int| DataTypes::I16);
            &&& format_offset(fmt) == 2 * n
            &&& format_fits(fmt, d.len()) == (2 * n <= d.len())
            &&& (2 * n <= d.len() ==> {
                &&& format_values(fmt, d).len() == n
                &&& forall|j: int| 0 <= j < n ==> #[trigger] format_values(fmt, d)[j] == DataVals::I16(i16_at(d, 2 * j))
            })
        }),
    decreases n,
{
    let fmt = Seq::new(n, |i: int| DataTypes::I16);
    if n > 0 {
        let prev = Seq::new((n - 1) as nat, |i: int| DataTypes::I16);
        assert(prev.push(DataTypes::I16) =~= fmt);
        lemma_i16_layout((n - 1) as nat, d);
        lemma_format_push(prev, DataTypes::I16, d, d.len());
        if 2 * n <= d.len() {
            let off = 2 * (n - 1);
            let sub = d.subrange(off as int, off + 2);
            assert(sub[0] == d[off as int] && sub[1] == d[off + 1]);
            assert forall|j: int| 0 <= j < n implies #[trigger] format_values(fmt, d)[j] == DataVals::I16(i16_at(d, 2 * j)) by {
                if j < n - 1 {
                } else {
                    assert(j == n - 1);
                }
            }
        }
    } else {
        assert(fmt =~= Seq::<DataTypes>::empty());
    }
}

/// The layout of the raw accelerometer and magnetometer reports: three
/// unsigned 16-bit samples, then (two reserved fields) a 32-bit timestamp
/// read at byte 6.
proof fn lemma_raw3_layout(d: Seq<u8>)
    requires
        d.len() >= 10,
    ensures
        ({
            let fmt = seq![DataTypes::U16, DataTypes::U16, DataTypes::U16, DataTypes::Reserved,
                DataTypes::Reserved, DataTypes::U32];
            &&& format_fits(fmt, d.len())
            &&& format_values(fmt, d) == seq![DataVals::U16(u16_at(d, 0)), DataVals::U16(u16_at(d, 2)),
                DataVals::U16(u16_at(d, 4)), DataVals::U32(u32_at(d, 6))]
        }),
{
    let u = DataTypes::U16;
    let r = DataTypes::Reserved;
    let f0 = Seq::<DataTypes>::empty();
    let f1 = f0.push(u);
    let f2 = f1.push(u);
    let f3 = f2.push(u);
    let f4 = f3.push(r);
    let f5 = f4.push(r);
    let f6 = f5.push(DataTypes::U32);
    lemma_format_push(f0, u, d, d.len());
    lemma_format_push(f1, u, d, d.len());
    lemma_format_push(f2, u, d, d.len());
    lemma_format_push(f3, r, d, d.len());
    lemma_format_push(f4, r, d, d.len());
    lemma_format_push(f5, DataTypes::U32, d, d.len());
    assert(f6 =~= seq![DataTypes::U16, DataTypes::U16, DataTypes::U16, DataTypes::Reserved,
        DataTypes::Reserved, DataTypes::U32]);
    let s0 = d.subrange(0, 2);
    let s1 = d.subrange(2, 4);
    let s2 = d.subrange(4, 6);
    let s3 = d.subrange(6, 10);
    assert(s0[0] == d[0] && s0[1] == d[1]);
    assert(s1[0] == d[2] && s1[1] == d[3]);
    assert(s2[0] == d[4] && s2[1] == d[5]);
    assert(s3[0] == d[6] && s3[1] == d[7] && s3[2] == d[8] && s3[3] == d[9]);
    assert(format_values(f6, d) =~= seq![DataVals::U16(u16_at(d, 0)), DataVals::U16(u16_at(d, 2)),
        DataVals::U16(u16_at(d, 4)), DataVals::U32(u32_at(d, 6))]);
}

/// The layout of the raw gyroscope report: four unsigned 16-bit fields
/// (three samples and the temperature), then a 32-bit timestamp at byte 8.
proof fn lemma_raw4_layout(d: Seq<u8>)
    requires
        d.len() >= 12,
    ensures
        ({
            let fmt = seq![DataTypes::U16, DataTypes::U16, DataTypes::U16, DataTypes::U16, DataTypes::U32];
            &&& format_fits(fmt, d.len())
            &&& format_values(fmt, d) == seq![DataVals::U16(u16_at(d, 0)), DataVals::U16(u16_at(d, 2)),
                DataVals::U16(u16_at(d, 4)), DataVals::U16(u16_at(d, 6)), DataVals::U32(u32_at(d, 8))]
        }),
{
    let u = DataTypes::U16;
    let f0 = Seq::<DataTypes>::empty();
    let f1 = f0.push(u);
    let f2 = f1.push(u);
    let f3 = f2.push(u);
    let f4 = f3.push(u);
    let f5 = f4.push(DataTypes::U32);
    lemma_format_push(f0, u, d, d.len());
    lemma_format_push(f1, u, d, d.len());
    lemma_format_push(f2, u, d, d.len());
    lemma_format_push(f3, u, d, d.len());
    lemma_format_push(f4, DataTypes::U32, d, d.len());
    assert(f5 =~= seq![DataTypes::U16, DataTypes::U16, DataTypes::U16, DataTypes::U16, DataTypes::U32]);
    let s0 = d.subrange(0, 2);
    let s1 = d.subrange(2, 4);
    let s2 = d.subrange(4, 6);
    let s3 = d.subrange(6, 8);
    let s4 = d.subrange(8, 12);
    assert(s0[0] == d[0] && s0[1] == d[1]);
    assert(s1[0] == d[2] && s1[1] == d[3]);
    assert(s2[0] == d[4] && s2[1] == d[5]);
    assert(s3[0] == d[6] && s3[1] == d[7]);
    assert(s4[0] == d[8] && s4[1] == d[9] && s4[2] == d[10] && s4[3] == d[11]);
    assert(format_values(f5, d) =~= seq![DataVals::U16(u16_at(d, 0)), DataVals::U16(u16_at(d, 2)),
        DataVals::U16(u16_at(d, 4)), DataVals::U16(u16_at(d, 6)), DataVals::U32(u32_at(d, 8))]);
}

/// The signed field at position `j` of `v`, when `j` is below `limit` and the
/// value there is a signed 16-bit field; 0 otherwise.
pub open spec fn i16_slot(v: Seq<DataVals>, j: int, limit: int) -> i16 {
    if 0 <= j < limit && j < v.len() {
        match v[j] {
            DataVals::I16(x) => x,
            _ => 0,
        }
    } else {
        0
    }
}

/// The unsigned sample at position `j` of `v`, when `j` is below `n` and the
/// value there is an unsigned 16-bit field; 0 otherwise.
pub open spec fn u16_slot(v: Seq<DataVals>, j: int, n: int) -> u32 {
    if 0 <= j < n && j < v.len() {
        match v[j] {
            DataVals::U16(x) => x as u32,
            _ => 0,
        }
    } else {
        0
    }
}

/// The timestamp at position `j` of `v`, when the value there is an unsigned
/// 32-bit field; 0 otherwise.
pub open spec fn u32_slot(v: Seq<DataVals>, j: int) -> u32 {
    if 0 <= j < v.len() {
        match v[j] {
            DataVals::U32(t) => t,
            _ => 0,
        }
    } else {
        0
    }
}

/// The signed fields among the first `limit` values.
fn i16_fields(values: &[DataVals], limit: usize) -> (r: [i16; 4])
    requires
        limit <= 4,
    ensures
        forall|j: int| 0 <= j < 4 ==> r@[j] == i16_slot(values@, j, limit as int),
{
    let mut vals = [0i16; 4];
    let n = values.len();
    let mut index: usize = 0;
    while index < n
        invariant
            n == values@.len(),
            limit <= 4,
            index <= n,
            forall|j: int| 0 <= j < 4 ==> vals@[j] == i16_slot(values@.take(index as int), j, limit as int),
        decreases n - index,
    {
        match values[index] {
            DataVals::I16(num) => {
                if index < limit {
                    vals[index] = num;
                }
            },
            _ => {},
        }
        index += 1;
        assert forall|j: int| 0 <= j < 4 implies vals@[j] == i16_slot(values@.take(index as int), j, limit as int) by {
            if j < index - 1 {
                assert(values@.take(index as int)[j] == values@.take(index - 1)[j]);
            }
        }
    }
    assert(values@.take(n as int) =~= values@);
    vals
}

/// The unsigned samples among the first `n` values, and the timestamp at
/// position `n`.
fn raw_fields(values: &[DataVals], n: usize) -> (r: [u32; 5])
    requires
        n <= 4,
    ensures
        forall|j: int| 0 <= j < n ==> r@[j] == u16_slot(values@, j, n as int),
        r@[n as int] == u32_slot(values@, n as int),
{
    let mut vals = [0u32; 5];
    let len = values.len();
    let mut index: usize = 0;
    while index < len
        invariant
            len == values@.len(),
            n <= 4,
            index <= len,
            forall|j: int| 0 <= j < n ==> vals@[j] == u16_slot(values@.take(index as int), j, n as int),
            vals@[n as int] == u32_slot(values@.take(index as int), n as int),
        decreases len - index,
    {
        match values[index] {
            DataVals::U16(num) => {
                if index < n {
                    vals[index] = num as u32;
                }
            },
            DataVals::U32(timestamp) => {
                if index == n {
                    vals[n] = timestamp;
                }
            },
            _ => {},
        }
        index += 1;
        assert forall|j: int| 0 <= j < n implies vals@[j] == u16_slot(values@.take(index as int), j, n as int) by {
            if j < index - 1 {
                assert(values@.take(index as int)[j] == values@.take(index - 1)[j]);
            }
        }
        proof {
            if (n as int) < index - 1 {
                assert(values@.take(index as int)[n as int] == values@.take(index - 1)[n as int]);
            }
        }
    }
    assert(values@.take(len as int) =~= values@);
    vals
}


impl Sensors {
    /// Every reading unknown and zero.
    pub fn new() -> (r: Sensors)
        ensures
            r == Sensors::initial(),
    {
        Sensors {
            acceleration: (Status::Unknown, 0, 0, 0),
            accel_raw: (Status::Unknown, 0, 0, 0, 0),
            linear_accel: (Status::Unknown, 0, 0, 0),
            gravity: (Status::Unknown, 0, 0, 0),
            gyroscope: (Status::Unknown, 0, 0, 0),
            gyro_raw: (Status::Unknown, 0, 0, 0, 0, 0),
            magnetometer: (Status::Unknown, 0, 0, 0),
            mag_raw: (Status::Unknown, 0, 0, 0, 0),
            quaternions: (Status::Unknown, 0, 0, 0, 0),
            game_quaternions: (Status::Unknown, 0, 0, 0, 0),
            geomag_quaternions: (Status::Unknown, 0, 0, 0, 0),
        }
    }

    /// Takes in a sensor report `report_id` with payload `data_slice` and
    /// status bytes `report_slice`: the reading it carries is replaced by the
    /// report's status and fields (see `updated`).
    pub fn update_data(&mut self, report_id: ReportId, data_slice: &[u8], report_slice: &[u8])
        requires
            is_tracked(report_id) ==> tracked_payload_len(report_id) <= data_slice@.len(),
        ensures
            *final(self) == old(self).updated(report_id, data_slice@, report_slice@),
    {
        let data_types = get_report_format(report_id);
        let (status, _delay) = parse_status(report_slice);
        if let Some((report_id, fmt)) = data_types {
            match report_id {
                ReportId::AccelerometerCalibrated => {
                    proof {
                        assert(fmt@ =~= Seq::new(3nat, |i: int| DataTypes::I16));
                        lemma_i16_layout(3nat, data_slice@);
                    }
                    let out = process_buf(fmt.as_slice(), data_slice);
                    let vals = i16_fields(values_as_slice(&out), 3);
                    self.acceleration = (status, vals[0], vals[1], vals[2]);
                },
                ReportId::AccelerometerRaw => {
                    proof {
                        lemma_raw3_layout(data_slice@);
                    }
                    let out = process_buf(fmt.as_slice(), data_slice);
                    let vals = raw_fields(values_as_slice(&out), 3);
                    self.accel_raw = (status, vals[0] as u16, vals[1] as u16, vals[2] as u16, vals[3]);
                },
                ReportId::AccelerationLinear => {
                    proof {
                        assert(fmt@ =~= Seq::new(3nat, |i: int| DataTypes::I16));
                        lemma_i16_layout(3nat, data_slice@);
                    }
                    let out = process_buf(fmt.as_slice(), data_slice);
                    let vals = i16_fields(values_as_slice(&out), 3);
                    self.linear_accel = (status, vals[0], vals[1], vals[2]);
                },
                ReportId::Gravity => {
                    proof {
                        assert(fmt@ =~= Seq::new(3nat, |i: int| DataTypes::I16));
                        lemma_i16_layout(3nat, data_slice@);
                    }
                    let out = process_buf(fmt.as_slice(), data_slice);
                    let vals = i16_fields(values_as_slice(&out), 3);
                    self.gravity = (status, vals[0], vals[1], vals[2]);
                },
                ReportId::GyroscopeCalibrated => {
                    proof {
                        assert(fmt@ =~= Seq::new(3nat, |i: int| DataTypes::I16));
                        lemma_i16_layout(3nat, data_slice@);
                    }
                    let out = process_buf(fmt.as_slice(), data_slice);
                    let vals = i16_fields(values_as_slice(&out), 3);
                    self.gyroscope = (status, vals[0], vals[1], vals[2]);
                },
                ReportId::GyroscopeRaw => {
                    proof {
                        lemma_raw4_layout(data_slice@);
                    }
                    let out = process_buf(fmt.as_slice(), data_slice);
                    let vals = raw_fields(values_as_slice(&out), 4);
                    self.gyro_raw = (status, vals[0] as u16, vals[1] as u16, vals[2] as u16, vals[3] as u16, vals[4]);
                },
                ReportId::MagFieldCalibrated => {
                    proof {
                        assert(fmt@ =~= Seq::new(3nat, |i: int| DataTypes::I16));
                        lemma_i16_layout(3nat, data_slice@);
                    }
                    let out = process_buf(fmt.as_slice(), data_slice);
                    let vals = i16_fields(values_as_slice(&out), 3);
                    self.magnetometer = (status, vals[0], vals[1], vals[2]);
                },
                ReportId::MagnetometerRaw => {
                    proof {
                        lemma_raw3_layout(data_slice@);
                    }
                    let out = process_buf(fmt.as_slice(), data_slice);
                    let vals = raw_fields(values_as_slice(&out), 3);
                    self.mag_raw = (status, vals[0] as u16, vals[1] as u16, vals[2] as u16, vals[3]);
                },
                ReportId::RotationVector => {
                    proof {
                        assert(fmt@ =~= Seq::new(5nat, |i: int| DataTypes::I16));
                        lemma_i16_layout(5nat, data_slice@);
                    }
                    let out = process_buf(fmt.as_slice(), data_slice);
                    let vals = i16_fields(values_as_slice(&out), 4);
                    self.quaternions = (status, vals[0], vals[1], vals[2], vals[3]);
                },
                ReportId::GameRotationVector => {
                    proof {
                        assert(fmt@ =~= Seq::new(4nat, |i: int| DataTypes::I16));
                        lemma_i16_layout(4nat, data_slice@);
                    }
                    let out = process_buf(fmt.as_slice(), data_slice);
                    let vals = i16_fields(values_as_slice(&out), 4);
                    self.game_quaternions = (status, vals[0], vals[1], vals[2], vals[3]);
                },
                ReportId::GeomagneticRotVector => {
                    proof {
                        assert(fmt@ =~= Seq::new(5nat, |i: int| DataTypes::I16));
                        lemma_i16_layout(5nat, data_slice@);
                    }
                    let out = process_buf(fmt.as_slice(), data_slice);
                    let vals = i16_fields(values_as_slice(&out), 4);
                    self.geomag_quaternions = (status, vals[0], vals[1], vals[2], vals[3]);
                },
                _ => {},
            }
        }
    }
}


/// The report tables agree: every report whose reading is kept has a known
/// full length, and the payload that this length leaves after the four
/// status bytes holds every field of its layout.
pub proof fn lemma_report_tables_agree(id: ReportId)
    requires
        is_tracked(id),
    ensures
        crate::parsing::report_length(id) is Some,
        report_format(id) is Some,
        tracked_payload_len(id) + 4 <= crate::parsing::report_length(id).unwrap(),
        format_fits(report_format(id).unwrap(), tracked_payload_len(id)),
{
    let d = Seq::new(tracked_payload_len(id), |i: int| 0u8);
    match id {
        ReportId::AccelerometerRaw => lemma_raw3_layout(d),
        ReportId::MagnetometerRaw => lemma_raw3_layout(d),
        ReportId::GyroscopeRaw => lemma_raw4_layout(d),
        ReportId::RotationVector => {
            assert(report_format(id).unwrap() =~= Seq::new(5nat, |i: int| DataTypes::I16));
            lemma_i16_layout(5, d);
        },
        ReportId::GeomagneticRotVector => {
            assert(report_format(id).unwrap() =~= Seq::new(5nat, |i: int| DataTypes::I16));
            lemma_i16_layout(5, d);
        },
        ReportId::GameRotationVector => {
            assert(report_format(id).unwrap() =~= Seq::new(4nat, |i: int| DataTypes::I16));
            lemma_i16_layout(4, d);
        },
        _ => {
            assert(report_format(id).unwrap() =~= Seq::new(3nat, |i: int| DataTypes::I16));
            lemma_i16_layout(3, d);
        },
    }
}

} // verus!
