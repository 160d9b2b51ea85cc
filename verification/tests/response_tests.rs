use bytes::{Buf, BytesMut};
use kafka_codec::codec::{EncodeError, Encoder, WireLen};
use kafka_codec::primitives::compact_array::CompactArray;
use kafka_codec::primitives::compact_string::CompactString;
use kafka_codec::response::api_versions::ApiVersionsResponseBody;
use kafka_codec::response::body::ResponseBody;
use kafka_codec::response::describe_topic_partitions::DescribeTopicPartitionsResponseBody;
use kafka_codec::response::headers::{ResponseHeaderV0, ResponseHeaderV1};
use kafka_codec::response::response::KafkaResponse;
use kafka_codec::types::api_version::ApiVersion;
use kafka_codec::types::topic::TopicInResponse;

#[test]
fn test_response_simple_encode() {
    let corr_id = 20;
    let header = ResponseHeaderV0::new(corr_id);
    let mut api_versions = CompactArray::new();
    api_versions.push(ApiVersion::new(18, 0, 4));

    let body = ResponseBody::ApiVersions(ApiVersionsResponseBody::new(0, api_versions, 0));
    let message_size = (header.wire_len() + body.wire_len()) as i32;
    let res = KafkaResponse::new(message_size, header, body);

    let mut buf = BytesMut::new();
    res.encode(&mut buf).unwrap();

    assert_eq!(res.wire_len(), buf.len());

    let c = buf.freeze();
    let mut buf = c.clone();

    assert_eq!(message_size, buf.get_i32()); // message_size 4 byte

    assert_eq!(corr_id, buf.get_i32()); // corr_id 4 byte

    assert_eq!(0, buf.get_u16()); // error code
    assert_eq!(2, buf.get_u8()); // len: one entry, prefixed as N + 1

    assert_eq!(18, buf.get_u16()); // api key
    assert_eq!(0, buf.get_u16()); // min version
    assert_eq!(4, buf.get_u16()); // max version
    assert_eq!(0, buf.get_u8()); // tag buf len

    assert_eq!(0u32, buf.get_u32()); // throttle time 4 byte

    assert_eq!(0, buf.get_u8()); // tag buf len
    assert!(!buf.has_remaining());
}

#[test]
fn response_with_wrong_declared_size_fails_before_writing() {
    let header = ResponseHeaderV0::new(1);
    let body = ResponseBody::ApiVersions(ApiVersionsResponseBody::new(0, CompactArray::new(), 0));
    let real = (header.wire_len() + body.wire_len()) as i32;
    let res = KafkaResponse::new(real + 1, header, body);

    let mut buf = BytesMut::new();
    assert_eq!(res.encode(&mut buf).unwrap_err(), EncodeError::MessageSizeMismatch);
    assert_eq!(buf.len(), 0);
}

#[test]
fn response_headers_echo_and_sizes() {
    let h0 = ResponseHeaderV0::new(77);
    assert_eq!(h0.correlation_id, 77);
    assert_eq!(h0.size(), 4);
    assert_eq!(h0.wire_len(), 4);

    let h1 = ResponseHeaderV1::new(77);
    assert_eq!(h1.correlation_id, 77);
    assert_eq!(h1.wire_len(), 5);
    let mut buf = BytesMut::new();
    h1.encode(&mut buf).unwrap();
    assert_eq!(&buf[..], &[0, 0, 0, 77, 0]);
}

#[test]
fn describe_topic_partitions_response_encode() {
    let name = CompactString::from_string("foo".to_string()).unwrap();
    let mut topics = CompactArray::new();
    topics.push(TopicInResponse::new(3, name));
    let body = DescribeTopicPartitionsResponseBody::new(0, topics, 0, 0);

    let mut buf = BytesMut::new();
    body.encode(&mut buf).unwrap();
    assert_eq!(buf.len(), body.wire_len());

    let mut buf = buf.freeze();
    assert_eq!(0, buf.get_i32()); // throttle time
    assert_eq!(2, buf.get_u8()); // one topic, prefixed as N + 1
    assert_eq!(3, buf.get_u16()); // error code: unknown topic
    assert_eq!(4, buf.get_u8()); // name length + 1
    assert_eq!(b'f', buf.get_u8());
    assert_eq!(b'o', buf.get_u8());
    assert_eq!(b'o', buf.get_u8());
    for _ in 0..16 {
        assert_eq!(0, buf.get_u8()); // all-zero topic id
    }
    assert_eq!(0, buf.get_u8()); // is_internal
    assert_eq!(0, buf.get_u8()); // empty partitions
    assert_eq!(0, buf.get_u32()); // authorized operations
    assert_eq!(0, buf.get_u8()); // topic tag buffer
    assert_eq!(0, buf.get_i32()); // partition limit
    assert_eq!(0, buf.get_u8()); // cursor
    assert_eq!(0, buf.get_u8()); // body tag buffer
    assert!(!buf.has_remaining());
}
