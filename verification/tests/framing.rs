use arrow_wire::ArrowMessage;
use arrow_wire::ArrowMessageHeader;
use arrow_wire::DecodeError;
use arrow_wire::Encode;
use arrow_wire::MessageBody;
use arrow_wire::msg::ARROW_PROTOCOL_VERSION;
use arrow_wire::msg::HEADER_SIZE;
use bytes::Bytes;
use bytes::BytesMut;

fn encode_message(service: u16, session: u32, payload: Vec<u8>) -> BytesMut {
    let msg = ArrowMessage::new(service, session, payload);
    let mut buf = BytesMut::new();
    msg.encode(&mut buf);
    buf
}

#[test]
fn round_trip() {
    let payload = vec![10u8, 20, 30, 40, 50];
    let mut buf = encode_message(0x1234, 0x00AB_CDEF, payload.clone());
    assert_eq!(buf.len(), HEADER_SIZE + payload.len());

    let msg = ArrowMessage::decode(&mut buf)
        .expect("valid frame must decode")
        .expect("complete frame must be extracted");
    let header = msg.header();
    assert_eq!(header.version, ARROW_PROTOCOL_VERSION);
    assert_eq!(header.service, 0x1234);
    assert_eq!(header.session, 0x00AB_CDEF);
    assert_eq!(header.size, payload.len() as u32);
    assert_eq!(msg.payload(), &payload[..]);
    assert_eq!(buf.len(), 0);
}

#[test]
fn round_trip_empty_payload() {
    let mut buf = encode_message(7, 3, Vec::new());
    assert_eq!(buf.len(), HEADER_SIZE);

    let msg = ArrowMessage::decode(&mut buf).unwrap().unwrap();
    assert_eq!(msg.header().service, 7);
    assert_eq!(msg.header().session, 3);
    assert_eq!(msg.header().size, 0);
    assert_eq!(msg.payload(), &[] as &[u8]);
    assert_eq!(buf.len(), 0);
}

#[test]
fn round_trip_extreme_ids() {
    let payload = vec![0u8, 255];
    let mut buf = encode_message(65535, 0x00FF_FFFF, payload.clone());
    let msg = ArrowMessage::decode(&mut buf).unwrap().unwrap();
    assert_eq!(msg.header().service, 65535);
    assert_eq!(msg.header().session, 0x00FF_FFFF);
    assert_eq!(msg.payload(), &payload[..]);
}

#[test]
fn bytes_body_round_trip() {
    let body = Bytes::from(vec![1u8, 2, 3]);
    assert_eq!(MessageBody::len(&body), 3);
    let msg = ArrowMessage::new(9, 1, body);
    let mut buf = BytesMut::new();
    msg.encode(&mut buf);
    let decoded = ArrowMessage::decode(&mut buf).unwrap().unwrap();
    assert_eq!(decoded.payload(), &[1u8, 2, 3][..]);
}

#[test]
fn partial_header_insufficient() {
    let mut buf = BytesMut::new();
    buf.extend_from_slice(&[ARROW_PROTOCOL_VERSION, 0, 1, 0, 0, 0, 2, 0, 0, 0]);
    let before = buf.as_ref().to_vec();
    assert_eq!(before.len(), HEADER_SIZE - 1);

    let r = ArrowMessage::decode(&mut buf).expect("short buffer is not an error");
    assert!(r.is_none());
    assert_eq!(buf.as_ref(), &before[..]);
}

#[test]
fn empty_buffer_insufficient() {
    let mut buf = BytesMut::new();
    let r = ArrowMessage::decode(&mut buf).unwrap();
    assert!(r.is_none());
    assert_eq!(buf.len(), 0);
}

#[test]
fn partial_payload_insufficient_then_complete() {
    let full = encode_message(0x0102, 5, vec![11u8, 22, 33, 44, 55]);
    let wire = full.as_ref().to_vec();

    // Hand over the header and only three of the five payload bytes.
    let mut buf = BytesMut::new();
    buf.extend_from_slice(&wire[..HEADER_SIZE + 3]);
    let before = buf.as_ref().to_vec();
    let r = ArrowMessage::decode(&mut buf).expect("partial payload is not an error");
    assert!(r.is_none());
    assert_eq!(buf.as_ref(), &before[..]);

    // The missing bytes arrive; the same header fields come out.
    buf.extend_from_slice(&wire[HEADER_SIZE + 3..]);
    let msg = ArrowMessage::decode(&mut buf).unwrap().unwrap();
    assert_eq!(msg.header().version, ARROW_PROTOCOL_VERSION);
    assert_eq!(msg.header().service, 0x0102);
    assert_eq!(msg.header().session, 5);
    assert_eq!(msg.header().size, 5);
    assert_eq!(msg.payload(), &[11u8, 22, 33, 44, 55][..]);
    assert_eq!(buf.len(), 0);
}

#[test]
fn version_rejected() {
    let mut buf = BytesMut::new();
    buf.extend_from_slice(&[ARROW_PROTOCOL_VERSION + 1, 0, 1, 0, 0, 0, 2, 0, 0, 0, 0]);
    let before = buf.as_ref().to_vec();

    let r = ArrowMessage::decode(&mut buf);
    assert!(matches!(r, Err(DecodeError::UnsupportedVersion)));
    assert_eq!(buf.as_ref(), &before[..]);
}

#[test]
fn version_rejected_whatever_the_other_fields() {
    let mut buf = BytesMut::new();
    buf.extend_from_slice(&[0, 255, 255, 255, 255, 255, 255, 255, 255, 255, 255]);
    let r = ArrowMessage::decode(&mut buf);
    assert!(matches!(r, Err(DecodeError::UnsupportedVersion)));
}

#[test]
fn from_bytes_parses_exact_slice() {
    let slice = [ARROW_PROTOCOL_VERSION, 0x12, 0x34, 0, 0x56, 0x78, 0x9A, 0, 0, 0x01, 0x02];
    let header = ArrowMessageHeader::from_bytes(&slice)
        .expect("supported version")
        .expect("a parsed header");
    assert_eq!(header.version, ARROW_PROTOCOL_VERSION);
    assert_eq!(header.service, 0x1234);
    assert_eq!(header.session, 0x0056_789A);
    assert_eq!(header.size, 0x0102);
}

#[test]
fn from_bytes_masks_reserved_session_byte() {
    let slice = [ARROW_PROTOCOL_VERSION, 0, 0, 0xFF, 0x01, 0x02, 0x03, 0, 0, 0, 0];
    let header = ArrowMessageHeader::from_bytes(&slice).unwrap().unwrap();
    assert_eq!(header.session, 0x0001_0203);
}

#[test]
fn from_bytes_rejects_version() {
    let slice = [ARROW_PROTOCOL_VERSION + 9, 0, 0, 0, 0, 0, 0, 0, 0, 0, 0];
    let r = ArrowMessageHeader::from_bytes(&slice);
    assert_eq!(r, Err(DecodeError::UnsupportedVersion));
}

#[test]
fn session_high_bits_never_reach_the_wire() {
    let with_high_bits = encode_message(1, 0xAB01_0203, vec![9u8]);
    let without = encode_message(1, 0x0001_0203, vec![9u8]);
    // Both encode byte-identically, and the reserved byte is zero.
    assert_eq!(with_high_bits.as_ref(), without.as_ref());
    assert_eq!(with_high_bits.as_ref()[3], 0);

    let mut buf = with_high_bits;
    let msg = ArrowMessage::decode(&mut buf).unwrap().unwrap();
    assert_eq!(msg.header().session, 0x0001_0203);
}

#[test]
fn multi_frame_extraction() {
    let mut buf = BytesMut::new();
    let frames: [(u16, u32, Vec<u8>); 3] = [
        (1, 100, vec![1u8, 2, 3]),
        (2, 200, Vec::new()),
        (3, 300, vec![4u8, 5, 6, 7, 8, 9]),
    ];
    for (service, session, payload) in frames.iter() {
        let one = encode_message(*service, *session, payload.clone());
        buf.extend_from_slice(one.as_ref());
    }
    // A few bytes of a fourth, incomplete envelope.
    let trailing = [ARROW_PROTOCOL_VERSION, 0, 4, 0];
    buf.extend_from_slice(&trailing);

    for (service, session, payload) in frames.iter() {
        let msg = ArrowMessage::decode(&mut buf).unwrap().expect("complete frame");
        assert_eq!(msg.header().service, *service);
        assert_eq!(msg.header().session, *session);
        assert_eq!(msg.payload(), &payload[..]);
    }
    let r = ArrowMessage::decode(&mut buf).unwrap();
    assert!(r.is_none());
    assert_eq!(buf.as_ref(), &trailing[..]);
}

#[test]
fn size_field_is_payload_length_big_endian() {
    let payload = vec![0xA5u8; 70000];
    let buf = encode_message(4, 8, payload);
    // 70000 = 0x00011170, big-endian at the size field's offset.
    assert_eq!(&buf.as_ref()[7..11], &[0x00, 0x01, 0x11, 0x70]);
}

#[test]
fn size_field_ignores_placeholder_header() {
    // An envelope fresh from the constructor stores a placeholder size of 0;
    // the wire still carries the actual payload length.
    let msg = ArrowMessage::new(4, 8, vec![1u8, 2, 3]);
    assert_eq!(msg.header().size, 0);
    let mut buf = BytesMut::new();
    msg.encode(&mut buf);
    assert_eq!(&buf.as_ref()[7..11], &[0, 0, 0, 3]);
}

#[test]
fn header_encodes_to_exact_bytes() {
    let header = ArrowMessageHeader::new(0x0102, 0xFF03_0405, 0x0607_0809);
    let mut buf = BytesMut::new();
    header.encode(&mut buf);
    assert_eq!(
        buf.as_ref(),
        &[ARROW_PROTOCOL_VERSION, 0x01, 0x02, 0x00, 0x03, 0x04, 0x05, 0x06, 0x07, 0x08, 0x09][..]
    );
}

#[test]
fn encode_appends_after_existing_bytes() {
    let mut buf = BytesMut::new();
    buf.extend_from_slice(&[0xEE, 0xFF]);
    let msg = ArrowMessage::new(1, 2, vec![3u8]);
    msg.encode(&mut buf);
    assert_eq!(&buf.as_ref()[..2], &[0xEE, 0xFF]);
    assert_eq!(buf.len(), 2 + HEADER_SIZE + 1);
}

#[test]
fn body_len_matches_encoding() {
    let body = vec![1u8, 2, 3, 4];
    assert_eq!(MessageBody::len(&body), 4);
    let mut out = BytesMut::new();
    body.encode(&mut out);
    assert_eq!(out.as_ref(), &[1u8, 2, 3, 4][..]);
}
