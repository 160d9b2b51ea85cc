use bytes::{Buf, BytesMut};
use kafka_codec::codec::{DecodeError, Decoder, Encoder, WireLen};
use kafka_codec::primitives::compact_array::CompactArray;
use kafka_codec::primitives::compact_string::CompactString;
use kafka_codec::primitives::nullable_string::NullableString;
use kafka_codec::primitives::uvarint::UVarintDecodeError;
use kafka_codec::types::api_version::ApiVersion;
use kafka_codec::types::tag::Tag;

#[test]
fn compact_array_test_encode_simple() {
    let mut api_versions = CompactArray::new();
    api_versions.push(ApiVersion::new(1, 0, 17));

    let mut buf = BytesMut::new();
    api_versions.encode(&mut buf).unwrap();

    assert_eq!(api_versions.wire_len(), buf.len());

    let c = buf.freeze();
    let mut buf = c.clone();

    // the length prefix is the element count plus one
    assert_eq!(api_versions.len() as u8 + 1, buf.get_u8());
    assert_eq!(1, buf.get_u16());
    assert_eq!(0, buf.get_u16());
    assert_eq!(17, buf.get_u16());
    assert_eq!(0, buf.get_u8());
    assert!(!buf.has_remaining());
}

#[test]
fn compact_array_empty_encodes_to_one_zero_byte() {
    let arr: CompactArray<Tag> = CompactArray::new();
    let mut buf = BytesMut::new();
    arr.encode(&mut buf).unwrap();
    assert_eq!(&buf[..], &[0x00]);
    assert_eq!(arr.wire_len(), 1);
}

#[test]
fn compact_array_empty_decodes_from_one_zero_byte() {
    let mut buf = BytesMut::from(&[0x00, 0xAA, 0xBB][..]);
    let arr = CompactArray::<Tag>::decode(&mut buf).unwrap().unwrap();
    assert_eq!(arr.len(), 0);
    // exactly one byte consumed
    assert_eq!(&buf[..], &[0xAA, 0xBB]);
}

#[test]
fn tag_buffer_with_entries_is_rejected() {
    let mut buf = BytesMut::from(&[0x02, 0x01][..]);
    let result = CompactArray::<Tag>::decode(&mut buf);
    assert_eq!(result.unwrap_err(), DecodeError::UnsupportedTaggedFields);
}

#[test]
fn compact_string_round_trip() {
    let s = CompactString::from_string("foo".to_string()).unwrap();
    let mut buf = BytesMut::new();
    s.encode(&mut buf).unwrap();
    assert_eq!(&buf[..], &[0x04, b'f', b'o', b'o']);
    assert_eq!(s.wire_len(), buf.len());

    let decoded = CompactString::decode(&mut buf).unwrap().unwrap();
    assert_eq!(decoded.0, "foo".to_string());
    assert_eq!(buf.len(), 0);
}

#[test]
fn compact_string_empty_encodings() {
    // the canonical encoding of the empty string
    let s = CompactString::new();
    let mut buf = BytesMut::new();
    s.encode(&mut buf).unwrap();
    assert_eq!(&buf[..], &[0x01]);
    let decoded = CompactString::decode(&mut buf).unwrap().unwrap();
    assert_eq!(decoded.0, String::new());

    // a zero prefix also decodes as the empty string
    let mut buf = BytesMut::from(&[0x00][..]);
    let decoded = CompactString::decode(&mut buf).unwrap().unwrap();
    assert_eq!(decoded.0, String::new());
}

#[test]
fn compact_string_invalid_utf8_is_rejected() {
    let mut buf = BytesMut::from(&[0x02, 0xFF][..]);
    let result = CompactString::decode(&mut buf);
    assert_eq!(result.unwrap_err(), DecodeError::InvalidUtf8);
}

#[test]
fn compact_string_overlong_prefix_is_rejected() {
    // length-plus-one of 0x80 exceeds the supported maximum of 128
    let mut buf = BytesMut::from(&[0x80, 0x01][..]);
    let result = CompactString::decode(&mut buf);
    assert_eq!(result.unwrap_err(), DecodeError::StringTooLong);
}

#[test]
fn compact_string_truncated_varint_is_an_error() {
    let mut buf = BytesMut::from(&[0x80][..]);
    let result = CompactString::decode(&mut buf);
    assert_eq!(
        result.unwrap_err(),
        DecodeError::Uvarint(UVarintDecodeError::UnexpectedEndOfInput)
    );
}

#[test]
fn nullable_string_null_consumes_exactly_two_bytes() {
    let mut buf = BytesMut::from(&[0xFF, 0xFF, 0xAB][..]);
    let ns = NullableString::decode(&mut buf).unwrap().unwrap();
    assert_eq!(ns.inner, None);
    assert_eq!(&buf[..], &[0xAB]);
    assert_eq!(ns.wire_len(), 2);
}

#[test]
fn nullable_string_zero_length_is_an_error() {
    let mut buf = BytesMut::from(&[0x00, 0x00][..]);
    let result = NullableString::decode(&mut buf);
    assert_eq!(result.unwrap_err(), DecodeError::ZeroLengthNullableString);
}

#[test]
fn nullable_string_negative_length_is_an_error() {
    let mut buf = BytesMut::from(&[0x80, 0x05][..]);
    let result = NullableString::decode(&mut buf);
    assert_eq!(result.unwrap_err(), DecodeError::NegativeStringLength);
}

#[test]
fn nullable_string_oversize_length_is_an_error() {
    let mut buf = BytesMut::from(&[0x00, 0xC8][..]);
    let result = NullableString::decode(&mut buf);
    assert_eq!(result.unwrap_err(), DecodeError::StringTooLong);
}

#[test]
fn nullable_string_decode_and_wire_len() {
    let mut buf = BytesMut::from(&[0x00, 0x03, b'f', b'o', b'o'][..]);
    let ns = NullableString::decode(&mut buf).unwrap().unwrap();
    assert_eq!(ns.inner, Some("foo".to_string()));
    assert_eq!(ns.wire_len(), 5);
    assert_eq!(buf.len(), 0);
}

#[test]
fn nullable_string_from_non_empty_str() {
    let ns = NullableString::from_non_empty_str("kafka-cli");
    assert_eq!(ns.inner, Some("kafka-cli".to_string()));
    let empty = NullableString::from_non_empty_str("");
    assert_eq!(empty.inner, None);
    let null = NullableString::null();
    assert_eq!(null.inner, None);
}

#[test]
fn nullable_string_needs_more_on_short_buffer() {
    let mut buf = BytesMut::from(&[0x00][..]);
    assert!(NullableString::decode(&mut buf).unwrap().is_none());
    assert_eq!(&buf[..], &[0x00]);

    let mut buf = BytesMut::from(&[0x00, 0x03, b'f'][..]);
    assert!(NullableString::decode(&mut buf).unwrap().is_none());
    assert_eq!(&buf[..], &[0x00, 0x03, b'f']);
}

#[test]
fn compact_string_length_limit() {
    let ok = "a".repeat(126);
    assert!(CompactString::from_string(ok).is_some());
    let too_long = "a".repeat(127);
    assert!(CompactString::from_string(too_long).is_none());
}
