//! SHTP packets: a 4-byte header (15-bit length, continuation bit, channel,
//! sequence number) followed by the payload; and a fixed byte buffer.

use vstd::prelude::*;
use crate::bounded::{header_bytes, payload_bytes, frame_bytes, header_from_slice, header_as_slice, header_as_mut_slice, payload_new, payload_from_slice, payload_resize, payload_as_slice, payload_as_mut_slice, frame_from_slice, frame_extend_from_slice};

verus! {

/// The largest payload a packet can carry: the 15-bit length field counts the
/// 4 header bytes too.
pub const MAX_PAYLOAD: usize = 32763;

/// Little-endian value of two bytes.
pub open spec fn le16(b0: u8, b1: u8) -> int {
    b0 as int + 256 * (b1 as int)
}

/// The packet length carried by a header: the low 15 bits of its first two
/// bytes, little-endian.
pub open spec fn header_length(h: Seq<u8>) -> u16 {
    (le16(h[0], h[1]) % 32768) as u16
}

/// Whether a header marks its packet as the continuation of an earlier one
/// (bit 15 of the length field).
pub open spec fn header_is_continuation(h: Seq<u8>) -> bool {
    le16(h[0], h[1]) >= 32768
}

/// The payload length that a packet length announces.
pub open spec fn payload_len_of(length: u16) -> u16 {
    if length > 4 { (length - 4) as u16 } else { 0 }
}

/// `d` brought to length `n`: truncated, or padded with zero bytes.
pub open spec fn resized(d: Seq<u8>, n: nat) -> Seq<u8> {
    if n <= d.len() { d.take(n as int) } else { d + Seq::new((n - d.len()) as nat, |i: int| 0u8) }
}

/// The header that announces a payload of `n` bytes on `channel`, with
/// sequence number 0.
pub open spec fn header_for(n: nat, channel: u8) -> Seq<u8> {
    seq![((n + 4) % 256) as u8, ((n + 4) / 256) as u8, channel, 0u8]
}

/// The abstract content of a packet.
pub struct PacketView {
    pub length: u16,
    pub channel: u8,
    pub seq_num: u8,
    pub header: Seq<u8>,
    pub data: Seq<u8>,
}

/// The view of the packet read from the bytes `buf`: header and payload split
/// after the fourth byte, header fields decoded, payload kept as it is.
pub open spec fn decoded(buf: Seq<u8>) -> PacketView {
    PacketView {
        length: header_length(buf.take(4)),
        channel: buf[2],
        seq_num: buf[3],
        header: buf.take(4),
        data: buf.skip(4),
    }
}

/// An SHTP packet.
pub struct Packet {
    length: u16,
    channel: u8,
    seq_num: u8,
    header: heapless::Vec<u8, 4>,
    data: heapless::Vec<u8, 32763>,
}

impl View for Packet {
    type V = PacketView;

    closed spec fn view(&self) -> PacketView {
        PacketView {
            length: self.length,
            channel: self.channel,
            seq_num: self.seq_num,
            header: header_bytes(self.header),
            data: payload_bytes(self.data),
        }
    }
}

impl Packet {
    /// A packet has a four-byte header and a payload within the capacity.
    pub open spec fn well_formed(&self) -> bool {
        self@.header.len() == 4 && self@.data.len() <= MAX_PAYLOAD
    }

    /// An empty packet on the invalid channel 6, with a zeroed header.
    pub fn new() -> (r: Self)
        ensures
            r.well_formed(),
            r@ == (PacketView {
                length: 0,
                channel: 6,
                seq_num: 0,
                header: seq![0u8, 0u8, 0u8, 0u8],
                data: Seq::<u8>::empty(),
            }),
    {
        let zeros = [0u8; 4];
        let header = header_from_slice(zeros.as_slice()).unwrap();
        let data = payload_new();
        let r = Packet { length: 0, channel: 6, seq_num: 0, header, data };
        assert(header_bytes(r.header) =~= seq![0u8, 0u8, 0u8, 0u8]);
        r
    }

    /// The packet held in `buf`: its first four bytes are the header, the rest
    /// the payload; the header is decoded without resizing the payload.
    pub fn from_buf(buf: &[u8]) -> (r: Self)
        requires
            4 <= buf@.len() <= 4 + MAX_PAYLOAD,
        ensures
            r.well_formed(),
            r@ == decoded(buf@),
    {
        let n = buf.len();
        let header = header_from_slice(&buf[0..4]).unwrap();
        let data = payload_from_slice(&buf[4..n]).unwrap();
        let mut temp = Packet { length: 0, channel: 6, seq_num: 0, header, data };
        temp.process_header(false);
        assert(buf@.subrange(0, 4) =~= buf@.take(4));
        assert(buf@.subrange(4, n as int) =~= buf@.skip(4));
        temp
    }

    /// A packet that carries `buf` on `channel`; refused when the channel is
    /// not one of the six SHTP channels. The header announces the payload's
    /// length and sequence number 0; the `seq_num` argument is not used and
    /// the decoded length field is left at 0.
    pub fn from_data_buf(buf: &[u8], channel: u8, seq_num: u8) -> (r: Result<Self, PacketError>)
        requires
            buf@.len() <= MAX_PAYLOAD,
        ensures
            r is Ok <==> channel < 6,
            r is Err ==> r == Err::<Self, PacketError>(PacketError::InvalidChannel),
            r matches Ok(p) ==> p.well_formed() && p@ == (PacketView {
                length: 0,
                channel,
                seq_num: 0,
                header: header_for(buf@.len(), channel),
                data: buf@,
            }),
    {
        let zeros = [0u8; 4];
        let header = header_from_slice(zeros.as_slice()).unwrap();
        let data = payload_from_slice(buf).unwrap();
        let mut temp = Packet { length: 0, channel: channel, seq_num: 0, header, data };
        temp.generate_header(buf);
        if channel < 6 {
            Ok(temp)
        } else {
            Err(PacketError::InvalidChannel)
        }
    }

    fn generate_header(&mut self, data_buf: &[u8])
        requires
            old(self).well_formed(),
            data_buf@.len() <= MAX_PAYLOAD,
        ensures
            final(self).well_formed(),
            final(self)@ == (PacketView {
                seq_num: 0,
                header: header_for(data_buf@.len(), old(self)@.channel),
                ..old(self)@
            }),
    {
        let length: u16 = data_buf.len() as u16 + 4;
        let lo: u8 = (length % 256) as u8;
        let hi: u8 = (length / 256) as u8;
        let channel = self.channel;
        self.seq_num = 0;
        let h = header_as_mut_slice(&mut self.header);
        h[0] = lo;
        h[1] = hi;
        h[2] = channel;
        h[3] = 0;
        assert(h@ =~= header_for(data_buf@.len(), channel));
    }

    /// A mutable view of the four header bytes.
    pub fn as_mut_header(&mut self) -> (r: &mut [u8])
        ensures
            r@ == old(self)@.header,
            final(r)@.len() == r@.len(),
            final(self)@ == (PacketView { header: final(r)@, ..old(self)@ }),
    {
        header_as_mut_slice(&mut self.header)
    }

    /// Decodes the header into length, channel and sequence number; with
    /// `resize`, the payload is then brought to the announced length (cut, or
    /// padded with zeros). A continuation bit is dropped from the length.
    pub fn process_header(&mut self, resize: bool)
        requires
            old(self).well_formed(),
        ensures
            final(self).well_formed(),
            final(self)@ == (PacketView {
                length: header_length(old(self)@.header),
                channel: old(self)@.header[2],
                seq_num: old(self)@.header[3],
                header: old(self)@.header,
                data: if resize {
                    resized(old(self)@.data, payload_len_of(header_length(old(self)@.header)) as nat)
                } else {
                    old(self)@.data
                },
            }),
    {
        let _ = self.calculate_length();
        if resize {
            let n = self.data_length();
            let _ = payload_resize(&mut self.data, n as usize, 0);
        }
        let h = header_as_slice(&self.header);
        self.channel = h[2];
        self.seq_num = h[3];
    }

    fn calculate_length(&mut self) -> (r: Result<(), PacketError>)
        requires
            old(self).well_formed(),
        ensures
            final(self).well_formed(),
            final(self)@ == (PacketView { length: header_length(old(self)@.header), ..old(self)@ }),
            r is Err <==> header_is_continuation(old(self)@.header),
            r is Err ==> r == Err::<(), PacketError>(PacketError::HalfPacket),
    {
        let h = header_as_slice(&self.header);
        let value: u16 = (h[0] as u16) | ((h[1] as u16) << 8);
        let b0 = h[0];
        let b1 = h[1];
        assert(value == b0 + 256 * b1) by (bit_vector)
            requires value == (b0 as u16) | ((b1 as u16) << 8);
        self.length = value & 0x7FFF;
        assert(value & 0x7FFF == value % 32768) by (bit_vector);
        assert(((value >> 15) & 1 == 1) == (value >= 32768)) by (bit_vector);
        if (value >> 15) & 1 == 1 {
            Err(PacketError::HalfPacket)
        } else {
            Ok(())
        }
    }

    /// The packet length decoded from the header (header included).
    pub fn packet_length(&self) -> (r: u16)
        ensures
            r == self@.length,
    {
        self.length
    }

    /// The payload length announced by the header: the packet length less the
    /// four header bytes, or 0.
    pub fn data_length(&self) -> (r: u16)
        ensures
            r == payload_len_of(self@.length),
    {
        if self.length > 4 { self.length - 4 } else { 0 }
    }

    /// The announced payload length, and a mutable view of the payload.
    pub fn get_data_report(&mut self) -> (r: (u16, &mut [u8]))
        ensures
            r.0 == payload_len_of(old(self)@.length),
            r.1@ == old(self)@.data,
            final(r.1)@.len() == r.1@.len(),
            final(self)@ == (PacketView { data: final(r.1)@, ..old(self)@ }),
    {
        let n = self.data_length();
        (n, payload_as_mut_slice(&mut self.data))
    }

    /// A mutable view of the payload.
    pub fn as_mut_data(&mut self) -> (r: &mut [u8])
        ensures
            r@ == old(self)@.data,
            final(r)@.len() == r@.len(),
            final(self)@ == (PacketView { data: final(r)@, ..old(self)@ }),
    {
        payload_as_mut_slice(&mut self.data)
    }

    /// The payload, read-only.
    pub fn data(&self) -> (r: &[u8])
        ensures
            r@ == self@.data,
    {
        payload_as_slice(&self.data)
    }

    /// The whole packet as it goes on the wire: header, then payload.
    pub fn full_packet(&mut self) -> (r: heapless::Vec<u8, 32767>)
        requires
            old(self).well_formed(),
        ensures
            *final(self) == *old(self),
            frame_bytes(r) == old(self)@.header + old(self)@.data,
    {
        let mut temp = frame_from_slice(header_as_slice(&self.header)).unwrap();
        let ok = frame_extend_from_slice(&mut temp, payload_as_slice(&self.data));
        ok.unwrap();
        temp
    }

    /// The channel decoded from the header (6 for a packet not yet read).
    pub fn channel(&self) -> (r: u8)
        ensures
            r == self@.channel,
    {
        self.channel
    }

    /// The sequence number decoded from the header.
    pub fn seq_num(&self) -> (r: u8)
        ensures
            r == self@.seq_num,
    {
        self.seq_num
    }

    /// The report id of the packet; the packet layer does not look into the
    /// payload, so this is always 0.
    pub fn report_id(&self) -> (r: u8)
        ensures
            r == 0,
    {
        if self.data_length() > 0 {
            0
        } else {
            0
        }
    }
}

/// A packet written by `from_data_buf` and sent with `full_packet` is read
/// back by `from_buf` with the same channel and payload, the length of the
/// payload plus the header, and sequence number 0.
pub proof fn lemma_packet_roundtrip(buf: Seq<u8>, channel: u8)
    requires
        buf.len() <= MAX_PAYLOAD,
    ensures
        ({
            let wire = header_for(buf.len(), channel) + buf;
            let back = decoded(wire);
            &&& 4 <= wire.len() <= 4 + MAX_PAYLOAD
            &&& back.channel == channel
            &&& back.data == buf
            &&& back.seq_num == 0
            &&& back.length == buf.len() + 4
            &&& payload_len_of(back.length) == buf.len()
            &&& !header_is_continuation(back.header)
        }),
{
    let wire = header_for(buf.len(), channel) + buf;
    assert(wire.take(4) =~= header_for(buf.len(), channel));
    assert(wire.skip(4) =~= buf);
}

/// What building a packet can refuse.
#[derive(Clone, Copy, PartialEq, Eq, Debug, Structural)]
pub enum PacketError {
    HalfPacket,
    InvalidChannel,
}

/// A 256-byte buffer of which the first `valid_data` bytes are in use.
pub struct VarBuf {
    buf: [u8; 256],
    valid_data: usize,
}

impl VarBuf {
    /// The bytes of the buffer.
    pub closed spec fn bytes(&self) -> Seq<u8> {
        self.buf@
    }

    /// How many leading bytes are in use.
    pub closed spec fn valid(&self) -> nat {
        self.valid_data as nat
    }

    pub open spec fn well_formed(&self) -> bool {
        self.bytes().len() == 256 && self.valid() <= 256
    }

    /// A zeroed buffer whose first 255 bytes are in use.
    pub fn new() -> (r: Self)
        ensures
            r.well_formed(),
            r.bytes() == Seq::new(256, |i: int| 0u8),
            r.valid() == 255,
    {
        let r = VarBuf { buf: [0; 256], valid_data: 255 };
        assert(r.buf@ =~= Seq::new(256, |i: int| 0u8));
        r
    }

    /// Writes `byte` at the current end of the used part, when it lies within
    /// the buffer; the used length does not change.
    pub fn push(&mut self, byte: u8)
        requires
            old(self).well_formed(),
        ensures
            final(self).well_formed(),
            final(self).valid() == old(self).valid(),
            final(self).bytes() == if old(self).valid() < 256 {
                old(self).bytes().update(old(self).valid() as int, byte)
            } else {
                old(self).bytes()
            },
    {
        if self.valid_data < 256 {
            self.buf[self.valid_data] = byte;
        }
    }

    /// The used part of the buffer.
    pub fn as_slice(&mut self) -> (r: &[u8])
        requires
            old(self).well_formed(),
        ensures
            *final(self) == *old(self),
            r@ == old(self).bytes().take(old(self).valid() as int),
    {
        let s: &[u8] = &self.buf;
        let (a, _b) = s.split_at(self.valid_data);
        a
    }

    /// The used part of the buffer, mutable; what is written through it is
    /// what the buffer then holds, the rest of the buffer unchanged.
    pub fn as_mut(&mut self) -> (r: &mut [u8])
        requires
            old(self).well_formed(),
        ensures
            r@ == old(self).bytes().take(old(self).valid() as int),
            final(self).valid() == old(self).valid(),
            final(self).bytes() == final(r)@ + old(self).bytes().skip(old(self).valid() as int),
    {
        let n = self.valid_data;
        let s: &mut [u8] = &mut self.buf;
        let (a, _b) = s.split_at_mut(n);
        a
    }

    /// The whole buffer.
    pub fn into_inner(self) -> (r: [u8; 256])
        ensures
            r@ == self.bytes(),
    {
        self.buf
    }

    /// A copy of the whole buffer.
    pub fn clone_buf(self) -> (r: [u8; 256])
        ensures
            r@ == self.bytes(),
    {
        self.buf
    }
}

} // verus!
