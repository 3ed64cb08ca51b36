use bytes::{Bytes, BytesMut};
use memcached_proxy::{
    HeaderFault, Magic, MemcachedBinaryCodec, MemcachedBinaryCodecError, Opcode, PacketHeader,
};

fn get_foo(magic: u8) -> Vec<u8> {
    let mut v = vec![magic, 0x00, 0x00, 0x03, 0x00, 0x00, 0x00, 0x00, 0x00, 0x00, 0x00, 0x03];
    v.extend_from_slice(&[0u8; 12]);
    v.extend_from_slice(b"foo");
    v
}

fn decode_all(bytes: &[u8]) -> (Result<Option<PacketHeader>, MemcachedBinaryCodecError>, BytesMut) {
    let mut buf = BytesMut::from(bytes);
    let r = MemcachedBinaryCodec::new().decode(&mut buf);
    (r, buf)
}

fn encode_one(h: PacketHeader) -> Vec<u8> {
    let mut dst = BytesMut::new();
    MemcachedBinaryCodec::new().encode(h, &mut dst).unwrap();
    dst.to_vec()
}

/// A set request with every field and segment filled.
fn full_packet() -> Vec<u8> {
    let mut v = vec![
        0x80, 0x01, 0x00, 0x02, 0x08, 0x07, 0x12, 0x34, 0x00, 0x00, 0x00, 0x0d, 0xde, 0xad, 0xbe,
        0xef, 0x01, 0x02, 0x03, 0x04, 0x05, 0x06, 0x07, 0x08,
    ];
    v.extend_from_slice(&[0xa1, 0xa2, 0xa3, 0xa4, 0, 0, 0x0e, 0x10]);
    v.extend_from_slice(b"ky");
    v.extend_from_slice(b"val");
    v
}

#[test]
fn request_get_foo_round_trips() {
    let bytes = get_foo(0x80);
    let (r, rest) = decode_all(&bytes);
    let h = r.unwrap().unwrap();
    assert_eq!(h.magic, 0x80);
    assert_eq!(h.opcode, 0x00);
    assert_eq!(h.key_length, 3);
    assert_eq!(h.extras_length, 0);
    assert_eq!(h.total_body_length, 3);
    assert_eq!(&h.key[..], b"foo");
    assert!(h.payload.is_empty());
    assert!(h.extras.is_empty());
    assert!(rest.is_empty());
    assert_eq!(encode_one(h), bytes);
}

#[test]
fn response_get_foo_round_trips() {
    let bytes = get_foo(0x81);
    let (r, _) = decode_all(&bytes);
    let h = r.unwrap().unwrap();
    assert_eq!(h.magic, 0x81);
    assert_eq!(encode_one(h), bytes);
}

#[test]
fn ten_header_bytes_need_more() {
    let bytes = get_foo(0x80);
    let (r, rest) = decode_all(&bytes[..10]);
    assert!(matches!(r, Ok(None)));
    assert_eq!(&rest[..], &bytes[..10]);
}

#[test]
fn lengths_beyond_body_rejected() {
    let mut v = vec![0x80, 0x00, 0x00, 0x04, 0x04, 0x00, 0x00, 0x00, 0x00, 0x00, 0x00, 0x05];
    v.extend_from_slice(&[0u8; 12]);
    v.extend_from_slice(&[1, 2, 3, 4, 5]);
    let (r, rest) = decode_all(&v);
    match r {
        Err(MemcachedBinaryCodecError::InvalidHeader(HeaderFault::BodyTooShort {
            extras_length,
            key_length,
            total_body_length,
        })) => {
            assert_eq!(extras_length, 4);
            assert_eq!(key_length, 4);
            assert_eq!(total_body_length, 5);
        }
        other => panic!("unexpected {:?}", other),
    }
    assert_eq!(rest.len(), v.len());
}

#[test]
fn full_packet_fields_and_round_trip() {
    let bytes = full_packet();
    let (r, rest) = decode_all(&bytes);
    let h = r.unwrap().unwrap();
    assert_eq!(h.opcode, 0x01);
    assert_eq!(h.key_length, 2);
    assert_eq!(h.extras_length, 8);
    assert_eq!(h.data_type, 7);
    assert_eq!(h.vbucket_id_or_status, 0x1234);
    assert_eq!(h.total_body_length, 13);
    assert_eq!(h.opaque, 0xdeadbeef);
    assert_eq!(h.cas, 0x0102030405060708);
    assert_eq!(&h.extras[..], &[0xa1, 0xa2, 0xa3, 0xa4, 0, 0, 0x0e, 0x10]);
    assert_eq!(&h.key[..], b"ky");
    assert_eq!(&h.payload[..], b"val");
    assert!(rest.is_empty());
    assert!(h.has_consistent_lengths());
    assert_eq!(encode_one(h), bytes);
}

#[test]
fn byte_at_a_time_matches_whole_buffer() {
    let bytes = full_packet();
    let (whole, _) = decode_all(&bytes);
    let whole = whole.unwrap().unwrap();
    let mut codec = MemcachedBinaryCodec::new();
    let mut buf = BytesMut::new();
    for (i, b) in bytes.iter().enumerate() {
        buf.extend_from_slice(&[*b]);
        let r = codec.decode(&mut buf);
        if i + 1 < bytes.len() {
            assert!(matches!(r, Ok(None)));
            assert_eq!(buf.len(), i + 1);
        } else {
            let h = r.unwrap().unwrap();
            assert_eq!(encode_one(h.clone()), encode_one(whole.clone()));
            assert_eq!(&h.payload[..], &whole.payload[..]);
            assert!(buf.is_empty());
        }
    }
}

#[test]
fn need_more_data_is_repeatable() {
    let bytes = full_packet();
    let mut codec = MemcachedBinaryCodec::new();
    let mut buf = BytesMut::from(&bytes[..30]);
    assert!(matches!(codec.decode(&mut buf), Ok(None)));
    assert!(matches!(codec.decode(&mut buf), Ok(None)));
    assert_eq!(&buf[..], &bytes[..30]);
}

#[test]
fn empty_buffer_needs_more() {
    let (r, rest) = decode_all(&[]);
    assert!(matches!(r, Ok(None)));
    assert!(rest.is_empty());
}

#[test]
fn two_packets_in_one_read() {
    let mut bytes = get_foo(0x80);
    bytes.extend_from_slice(&full_packet());
    let mut codec = MemcachedBinaryCodec::new();
    let mut buf = BytesMut::from(&bytes[..]);
    let first = codec.decode(&mut buf).unwrap().unwrap();
    assert_eq!(&first.key[..], b"foo");
    assert_eq!(&buf[..], &full_packet()[..]);
    let second = codec.decode(&mut buf).unwrap().unwrap();
    assert_eq!(&second.payload[..], b"val");
    assert!(buf.is_empty());
    assert!(matches!(codec.decode(&mut buf), Ok(None)));
}

#[test]
fn header_complete_body_missing_needs_more() {
    let bytes = full_packet();
    let (r, rest) = decode_all(&bytes[..24]);
    assert!(matches!(r, Ok(None)));
    assert_eq!(rest.len(), 24);
}

#[test]
fn bad_magic_is_rejected() {
    let mut bytes = get_foo(0x80);
    bytes[0] = 0x42;
    let (r, rest) = decode_all(&bytes);
    assert!(matches!(
        r,
        Err(MemcachedBinaryCodecError::InvalidHeader(HeaderFault::InvalidMagic(0x42)))
    ));
    assert_eq!(rest.len(), bytes.len());
}

#[test]
fn bad_opcode_is_rejected() {
    for op in [0x1fu8, 0x23, 0x2f, 0x48, 0xff] {
        let mut bytes = get_foo(0x81);
        bytes[1] = op;
        let (r, _) = decode_all(&bytes);
        match r {
            Err(MemcachedBinaryCodecError::InvalidHeader(HeaderFault::InvalidOpcode(b))) => {
                assert_eq!(b, op)
            }
            other => panic!("unexpected {:?}", other),
        }
    }
}

#[test]
fn short_garbage_never_panics() {
    for n in 0..24usize {
        let bytes = vec![0xffu8; n];
        let (r, _) = decode_all(&bytes);
        assert!(matches!(r, Ok(None)));
    }
    let (r, _) = decode_all(&[0xffu8; 24]);
    assert!(matches!(r, Ok(None)));
}

#[test]
fn encode_appends_after_existing_bytes() {
    let (r, _) = decode_all(&get_foo(0x80));
    let h = r.unwrap().unwrap();
    let mut dst = BytesMut::from(&b"xy"[..]);
    MemcachedBinaryCodec::new().encode(h, &mut dst).unwrap();
    let mut expected = b"xy".to_vec();
    expected.extend_from_slice(&get_foo(0x80));
    assert_eq!(dst.to_vec(), expected);
}

#[test]
fn encode_built_packet_then_decode() {
    let h = PacketHeader {
        magic: 0x80,
        opcode: 0x04,
        key_length: 1,
        extras_length: 0,
        data_type: 0,
        vbucket_id_or_status: 9,
        total_body_length: 3,
        opaque: 77,
        cas: 1 << 40,
        extras: Bytes::new(),
        key: Bytes::from_static(b"k"),
        payload: Bytes::from_static(b"vv"),
    };
    let bytes = encode_one(h);
    assert_eq!(&bytes[..12], &[0x80, 0x04, 0, 1, 0, 0, 0, 9, 0, 0, 0, 3]);
    assert_eq!(&bytes[12..24], &[0, 0, 0, 77, 0, 0, 1, 0, 0, 0, 0, 0]);
    let (r, _) = decode_all(&bytes);
    let back = r.unwrap().unwrap();
    assert_eq!(back.opaque, 77);
    assert_eq!(back.cas, 1 << 40);
    assert_eq!(&back.key[..], b"k");
    assert_eq!(&back.payload[..], b"vv");
}

#[test]
fn inconsistent_lengths_are_detected() {
    let h = PacketHeader {
        magic: 0x80,
        opcode: 0,
        key_length: 2,
        total_body_length: 1,
        key: Bytes::from_static(b"k"),
        ..PacketHeader::default()
    };
    assert!(!h.has_consistent_lengths());
}

#[test]
fn enum_codes() {
    assert_eq!(Magic::from_u8(0x80), Some(Magic::Request));
    assert_eq!(Magic::from_u8(0x81), Some(Magic::Response));
    assert_eq!(Magic::from_u8(0x82), None);
    assert_eq!(Magic::Response.code(), 0x81);
    assert_eq!(Opcode::from_u8(0x01), Some(Opcode::SetValue));
    assert_eq!(Opcode::from_u8(0x47), Some(Opcode::TapCheckpointEnd));
    assert_eq!(Opcode::from_u8(0x20), Some(Opcode::SaslListMechs));
    assert_eq!(Opcode::from_u8(0x1f), None);
    assert_eq!(Opcode::GATQ.code(), 0x1e);
    for b in 0..=255u8 {
        if let Some(op) = Opcode::from_u8(b) {
            assert_eq!(op.code(), b);
        }
    }
}
