use bno08x::data::{Packet, PacketError, VarBuf};

#[test]
fn new_packet_is_empty_on_no_channel() {
    let mut p = Packet::new();
    assert_eq!(p.channel(), 6);
    assert_eq!(p.seq_num(), 0);
    assert_eq!(p.packet_length(), 0);
    assert_eq!(p.data_length(), 0);
    assert_eq!(p.report_id(), 0);
    assert_eq!(p.full_packet().as_slice(), &[0u8, 0, 0, 0]);
}

#[test]
fn data_packet_header_announces_length_and_channel() {
    let mut p = Packet::from_data_buf(&[1, 2, 3], 2, 7).ok().unwrap();
    assert_eq!(p.full_packet().as_slice(), &[7u8, 0, 2, 0, 1, 2, 3]);
    assert_eq!(p.channel(), 2);
    assert_eq!(p.seq_num(), 0);
    assert_eq!(p.packet_length(), 0);
    assert_eq!(p.as_mut_data(), &[1u8, 2, 3]);
}

#[test]
fn data_packet_on_invalid_channel_is_refused() {
    assert!(matches!(Packet::from_data_buf(&[1], 6, 0), Err(PacketError::InvalidChannel)));
    assert!(matches!(Packet::from_data_buf(&[1], 200, 0), Err(PacketError::InvalidChannel)));
}

#[test]
fn long_payload_header_uses_both_length_bytes() {
    let buf = vec![0xAAu8; 300];
    let mut p = Packet::from_data_buf(&buf, 5, 0).ok().unwrap();
    let wire = p.full_packet();
    assert_eq!(&wire.as_slice()[..4], &[0x30u8, 0x01, 5, 0]);
    assert_eq!(wire.len(), 304);
}

#[test]
fn written_packet_reads_back() {
    let mut p = Packet::from_data_buf(&[9, 8, 7, 6], 3, 0).ok().unwrap();
    let wire = p.full_packet();
    let mut back = Packet::from_buf(wire.as_slice());
    assert_eq!(back.channel(), 3);
    assert_eq!(back.seq_num(), 0);
    assert_eq!(back.packet_length(), 8);
    assert_eq!(back.data_length(), 4);
    assert_eq!(back.as_mut_data(), &[9u8, 8, 7, 6]);
}

#[test]
fn continuation_bit_is_dropped_from_length() {
    let mut p = Packet::from_buf(&[0x0A, 0x80, 3, 9, 1, 2]);
    assert_eq!(p.packet_length(), 10);
    assert_eq!(p.data_length(), 6);
    assert_eq!(p.channel(), 3);
    assert_eq!(p.seq_num(), 9);
    assert_eq!(p.as_mut_data(), &[1u8, 2]);
    p.process_header(true);
    assert_eq!(p.as_mut_data(), &[1u8, 2, 0, 0, 0, 0]);
}

#[test]
fn resize_truncates_to_announced_length() {
    let mut p = Packet::from_buf(&[6, 0, 1, 4, 1, 2, 3, 4, 5]);
    assert_eq!(p.data_length(), 2);
    p.process_header(true);
    assert_eq!(p.as_mut_data(), &[1u8, 2]);
}

#[test]
fn short_length_announces_no_payload() {
    let p = Packet::from_buf(&[3, 0, 1, 0]);
    assert_eq!(p.packet_length(), 3);
    assert_eq!(p.data_length(), 0);
}

#[test]
fn header_written_through_mutable_view() {
    let mut p = Packet::new();
    p.as_mut_header().copy_from_slice(&[0x09, 0x00, 0x02, 0x05]);
    p.process_header(true);
    assert_eq!(p.channel(), 2);
    assert_eq!(p.seq_num(), 5);
    assert_eq!(p.data_length(), 5);
    let (n, data) = p.get_data_report();
    assert_eq!(n, 5);
    assert_eq!(data, &[0u8; 5]);
    data[0] = 0xF8;
    assert_eq!(p.data(), &[0xF8u8, 0, 0, 0, 0]);
}

#[test]
fn varbuf_uses_first_255_bytes() {
    let mut b = VarBuf::new();
    assert_eq!(b.as_slice().len(), 255);
    assert!(b.as_slice().iter().all(|&x| x == 0));
    b.push(7);
    assert_eq!(b.as_slice().len(), 255);
    let inner = b.into_inner();
    assert_eq!(inner[255], 7);
    assert_eq!(inner[254], 0);
}

#[test]
fn varbuf_mutable_view_writes_through() {
    let mut b = VarBuf::new();
    b.as_mut()[3] = 42;
    assert_eq!(b.as_slice()[3], 42);
    let copy = b.clone_buf();
    assert_eq!(copy[3], 42);
    assert_eq!(copy.len(), 256);
}
