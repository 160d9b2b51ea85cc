use bytes::BytesMut;
use kafka_codec::codec::{DecodeError, Decoder, Encoder, WireLen};
use kafka_codec::primitives::uvarint::{UVarint, UVarintDecodeError};

#[test]
fn test_decode_uvarint_simple() {
    let mut buf = BytesMut::from(&[0x00][..]);
    let result = UVarint::decode(&mut buf);
    assert_eq!(0, result.unwrap().unwrap().0);

    let mut buf = BytesMut::from(&[0x01][..]);
    let result = UVarint::decode(&mut buf);
    assert_eq!(1, result.unwrap().unwrap().0);

    let mut buf = BytesMut::from(&[0x7F][..]);
    let result = UVarint::decode(&mut buf);
    assert_eq!(127, result.unwrap().unwrap().0);

    let mut buf = BytesMut::from(&[0x80, 0x01][..]);
    let result = UVarint::decode(&mut buf);
    assert_eq!(128, result.unwrap().unwrap().0);

    let mut buf = BytesMut::from(&[0xFF, 0x01][..]);
    let result = UVarint::decode(&mut buf);
    assert_eq!(255, result.unwrap().unwrap().0);
}

#[test]
fn test_decode_uvarint_multibyte() {
    let mut buf = BytesMut::from(&[0xAC, 0x02][..]);
    let result = UVarint::decode(&mut buf);
    assert_eq!(300, result.unwrap().unwrap().0);

    let mut buf = BytesMut::from(&[0xE5, 0x8E, 0x26][..]);
    let result = UVarint::decode(&mut buf);
    assert_eq!(624485, result.unwrap().unwrap().0);
}

#[test]
fn test_decode_leb128_incomplete() {
    // Incomplete: no terminating byte (MSB never 0)
    let mut buf = BytesMut::from(&[0x80][..]);
    let result = UVarint::decode(&mut buf);
    match result {
        Err(DecodeError::Uvarint(UVarintDecodeError::UnexpectedEndOfInput)) => {}
        _ => panic!("Expected UnexpectedEndOfInput"),
    }
}

#[test]
fn test_decode_leb128_overflow() {
    // Would overflow a u32 if interpreted literally
    let mut buf = BytesMut::from(&[0xFF, 0xFF, 0xFF, 0xFF, 0x0F][..]); // 0xFFFFFFFF
    assert_eq!(u32::MAX, UVarint::decode(&mut buf).unwrap().unwrap().0);

    // Actually overflowing (more than 5 bytes)
    let mut buf = BytesMut::from(&[0xFF, 0xFF, 0xFF, 0xFF, 0xFF][..]);
    let result = UVarint::decode(&mut buf);
    match result {
        Err(e) => match e {
            DecodeError::Uvarint(UVarintDecodeError::Overflow) => {}
            _ => panic!("Expected Overflow, got {:?}", e),
        },
        _ => panic!("Expected Overflow, got Ok(_)"),
    }
}

#[test]
fn uvarint_test_encode_simple() {
    let u = UVarint(4);
    let mut buf = BytesMut::new();
    u.encode(&mut buf).unwrap();

    assert_eq!(4, buf[0]);
}

#[test]
fn uvarint_encode_matches_wire_len() {
    for v in [0u32, 1, 127, 128, 300, 16383, 16384, 624485, 0x0FFF_FFFF, 0x1000_0000, u32::MAX] {
        let u = UVarint(v);
        let mut buf = BytesMut::new();
        u.encode(&mut buf).unwrap();
        assert_eq!(buf.len(), u.wire_len());
        assert_eq!(buf.len(), UVarint::wire_len_of(v));
    }
}

#[test]
fn uvarint_round_trip_vectors() {
    let vectors: [(u32, &[u8]); 7] = [
        (0, &[0x00]),
        (1, &[0x01]),
        (127, &[0x7F]),
        (128, &[0x80, 0x01]),
        (300, &[0xAC, 0x02]),
        (624485, &[0xE5, 0x8E, 0x26]),
        (u32::MAX, &[0xFF, 0xFF, 0xFF, 0xFF, 0x0F]),
    ];
    for (v, expected) in vectors {
        let mut buf = BytesMut::new();
        UVarint(v).encode(&mut buf).unwrap();
        assert_eq!(&buf[..], expected);
        let decoded = UVarint::decode(&mut buf).unwrap().unwrap();
        assert_eq!(decoded.0, v);
        assert_eq!(buf.len(), 0);
    }
}

#[test]
fn uvarint_decode_consumes_exactly_the_encoding() {
    let mut buf = BytesMut::from(&[0xAC, 0x02, 0xDE, 0xAD][..]);
    let decoded = UVarint::decode(&mut buf).unwrap().unwrap();
    assert_eq!(decoded.0, 300);
    assert_eq!(&buf[..], &[0xDE, 0xAD]);
}
