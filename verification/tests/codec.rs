use jpeg_assembler::codec::decode;
use jpeg_assembler::codec::PacketType;

fn datagram(code: u16, chunk: u16, frame: u32, stream: u32, payload: &[u8]) -> Vec<u8> {
    let mut d = vec![
        (code >> 8) as u8,
        (code & 0xff) as u8,
        (chunk >> 8) as u8,
        (chunk & 0xff) as u8,
        (frame >> 24) as u8,
        ((frame >> 16) & 0xff) as u8,
        ((frame >> 8) & 0xff) as u8,
        (frame & 0xff) as u8,
        (stream >> 24) as u8,
        ((stream >> 16) & 0xff) as u8,
        ((stream >> 8) & 0xff) as u8,
        (stream & 0xff) as u8,
    ];
    d.extend_from_slice(payload);
    d
}

#[test]
fn decode_recovers_first_header_fields() {
    let d = datagram(0x9060, 7, 42, 9, &[1, 2, 3]);
    let f = decode(&d).unwrap();
    assert!(matches!(f.packet_type, PacketType::First));
    assert_eq!(f.chunk_number, 7);
    assert_eq!(f.frame_number, 42);
    assert_eq!(f.stream_number, 9);
    assert_eq!(f.buffer, d);
}

#[test]
fn decode_recovers_middle_header_fields() {
    let d = datagram(0x8060, 0x0102, 0x0a0b0c0d, 0xfffefdfc, &[]);
    let f = decode(&d).unwrap();
    assert!(matches!(f.packet_type, PacketType::Middle));
    assert_eq!(f.chunk_number, 0x0102);
    assert_eq!(f.frame_number, 0x0a0b0c0d);
    assert_eq!(f.stream_number, 0xfffefdfc);
    assert_eq!(f.buffer, d);
}

#[test]
fn decode_recovers_end_header_fields() {
    let d = datagram(0x80e0, 0xffff, 0xffffffff, 0, &[0xff]);
    let f = decode(&d).unwrap();
    assert!(matches!(f.packet_type, PacketType::End));
    assert_eq!(f.chunk_number, 0xffff);
    assert_eq!(f.frame_number, 0xffffffff);
    assert_eq!(f.stream_number, 0);
    assert_eq!(f.buffer, d);
}

#[test]
fn decode_accepts_exactly_twelve_bytes() {
    let d = datagram(0x9060, 0, 1, 1, &[]);
    assert_eq!(d.len(), 12);
    let f = decode(&d).unwrap();
    assert!(matches!(f.packet_type, PacketType::First));
    assert_eq!(f.buffer.len(), 12);
}

#[test]
fn packet_type_labels() {
    assert_eq!(PacketType::First.label(), "FirstPacket");
    assert_eq!(PacketType::Middle.label(), "MiddlePacket");
    assert_eq!(PacketType::End.label(), "EndPacket");
}

#[test]
fn decode_rejects_short_datagrams() {
    let full = datagram(0x9060, 7, 42, 9, &[]);
    for len in 0..12 {
        assert!(decode(&full[..len]).is_none());
    }
}

#[test]
fn decode_rejects_unknown_type_code() {
    let d = datagram(0x1234, 7, 42, 9, &[1, 2, 3]);
    assert!(decode(&d).is_none());
}

#[test]
fn decode_rejects_near_miss_type_codes() {
    for code in [0x9061u16, 0x8061, 0x80e1, 0x0000, 0xffff, 0x6090] {
        let d = datagram(code, 7, 42, 9, &[1, 2, 3]);
        assert!(decode(&d).is_none());
    }
}
