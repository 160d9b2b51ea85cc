use bytes::BytesMut;
use kafka_codec::codec::{DecodeError, Decoder, KafkaCodec};
use kafka_codec::handlers::{handle_request, HandleError};
use kafka_codec::request::body::RequestBody;
use kafka_codec::request::request::KafkaRequest;
use kafka_codec::response::body::ResponseBody;
use kafka_codec::types::api_keys::ApiKeys;

/// A well-formed `ApiVersions` request frame with the given version and
/// `client_id = "kafka-cli"`.
fn api_versions_request(correlation_id: u8, version: u8) -> Vec<u8> {
    let mut bytes: Vec<u8> = Vec::new();
    // header: api_key 18, api_version, correlation_id
    bytes.extend_from_slice(&[0x00, 0x12, 0x00, version, 0x00, 0x00, 0x00, correlation_id]);
    // client_id: length 9, "kafka-cli"
    bytes.extend_from_slice(&[0x00, 0x09]);
    bytes.extend_from_slice(b"kafka-cli");
    // header tag buffer
    bytes.push(0x00);
    // body: two empty compact strings and an empty tag buffer
    bytes.extend_from_slice(&[0x01, 0x01, 0x00]);
    let mut frame: Vec<u8> = Vec::new();
    frame.extend_from_slice(&[0x00, 0x00, 0x00, bytes.len() as u8]);
    frame.extend_from_slice(&bytes);
    frame
}

/// A well-formed `DescribeTopicPartitions` v0 request naming one topic
/// `"foo"`, with a null client id and the null cursor.
fn describe_topic_partitions_request(correlation_id: u8) -> Vec<u8> {
    let mut bytes: Vec<u8> = Vec::new();
    // header: api_key 75, api_version 0, correlation_id
    bytes.extend_from_slice(&[0x00, 0x4B, 0x00, 0x00, 0x00, 0x00, 0x00, correlation_id]);
    // client_id: null
    bytes.extend_from_slice(&[0xFF, 0xFF]);
    // header tag buffer
    bytes.push(0x00);
    // body: one topic ("foo" + tag buffer), partition limit 1, null cursor,
    // tag buffer
    bytes.extend_from_slice(&[0x02, 0x04, b'f', b'o', b'o', 0x00]);
    bytes.extend_from_slice(&[0x00, 0x00, 0x00, 0x01, 0xFF, 0x00]);
    let mut frame: Vec<u8> = Vec::new();
    frame.extend_from_slice(&[0x00, 0x00, 0x00, bytes.len() as u8]);
    frame.extend_from_slice(&bytes);
    frame
}

#[test]
fn frame_decoder_needs_more_without_consuming() {
    let full = api_versions_request(7, 4);
    // strictly shorter than the declared frame length
    let partial = &full[..full.len() - 3];

    let mut buf = BytesMut::from(partial);
    assert!(KafkaRequest::decode(&mut buf).unwrap().is_none());
    assert_eq!(&buf[..], partial);

    // feeding the same still-incomplete buffer again gives the same outcome
    // with identical residual content
    assert!(KafkaRequest::decode(&mut buf).unwrap().is_none());
    assert_eq!(&buf[..], partial);

    // completing the buffer makes the same decode succeed
    buf.extend_from_slice(&full[full.len() - 3..]);
    let req = KafkaRequest::decode(&mut buf).unwrap().unwrap();
    assert_eq!(req.header.correlation_id, 7);
    assert_eq!(buf.len(), 0);
}

#[test]
fn frame_decoder_needs_more_on_short_prefix() {
    let mut buf = BytesMut::from(&[0x00, 0x00][..]);
    assert!(KafkaRequest::decode(&mut buf).unwrap().is_none());
    assert_eq!(&buf[..], &[0x00, 0x00]);
}

#[test]
fn negative_message_size_is_fatal() {
    let mut buf = BytesMut::from(&[0x80, 0x00, 0x00, 0x01][..]);
    let result = KafkaRequest::decode(&mut buf);
    assert_eq!(result.unwrap_err(), DecodeError::NegativeMessageSize);
}

#[test]
fn oversized_message_is_fatal() {
    // declared length 0x100 exceeds the maximum of 128
    let mut buf = BytesMut::from(&[0x00, 0x00, 0x01, 0x00][..]);
    let result = KafkaRequest::decode(&mut buf);
    assert_eq!(result.unwrap_err(), DecodeError::MessageTooLarge);
}

#[test]
fn unsupported_api_key_is_fatal() {
    // api_key 99 maps to no supported API
    let bytes = [0x00, 0x63, 0x00, 0x00, 0x00, 0x00, 0x00, 0x01, 0xFF, 0xFF, 0x00];
    let mut frame: Vec<u8> = vec![0x00, 0x00, 0x00, bytes.len() as u8];
    frame.extend_from_slice(&bytes);
    let mut buf = BytesMut::from(&frame[..]);
    let result = KafkaRequest::decode(&mut buf);
    assert_eq!(result.unwrap_err(), DecodeError::UnsupportedApiKey);
}

#[test]
fn truncated_frame_content_is_fatal() {
    // the declared size covers only part of the header's client id
    let bytes = [0x00, 0x12, 0x00, 0x04, 0x00, 0x00, 0x00, 0x01, 0x00, 0x09, b'k'];
    let mut frame: Vec<u8> = vec![0x00, 0x00, 0x00, bytes.len() as u8];
    frame.extend_from_slice(&bytes);
    let mut buf = BytesMut::from(&frame[..]);
    let result = KafkaRequest::decode(&mut buf);
    assert_eq!(result.unwrap_err(), DecodeError::TruncatedMessage);
}

#[test]
fn body_not_filling_declared_size_is_fatal() {
    // two stray bytes after a complete ApiVersions body, inside the frame
    let mut bytes: Vec<u8> = Vec::new();
    bytes.extend_from_slice(&[0x00, 0x12, 0x00, 0x04, 0x00, 0x00, 0x00, 0x01]);
    bytes.extend_from_slice(&[0xFF, 0xFF, 0x00]);
    bytes.extend_from_slice(&[0x01, 0x01, 0x00, 0xAA, 0xBB]);
    let mut frame: Vec<u8> = vec![0x00, 0x00, 0x00, bytes.len() as u8];
    frame.extend_from_slice(&bytes);
    let mut buf = BytesMut::from(&frame[..]);
    let result = KafkaRequest::decode(&mut buf);
    assert_eq!(result.unwrap_err(), DecodeError::BodySizeMismatch);
}

#[test]
fn decode_parses_header_and_body() {
    let full = api_versions_request(7, 4);
    let mut buf = BytesMut::from(&full[..]);
    let req = KafkaRequest::decode(&mut buf).unwrap().unwrap();
    assert_eq!(req.message_size as usize, full.len() - 4);
    assert_eq!(req.header.request_api_key, ApiKeys::ApiVersions);
    assert_eq!(req.header.request_api_version, 4);
    assert_eq!(req.header.correlation_id, 7);
    assert_eq!(req.header.client_id.inner, Some("kafka-cli".to_string()));
    assert!(matches!(req.body, RequestBody::ApiVersions(_)));
}

#[test]
fn two_frames_in_one_buffer_decode_in_order() {
    let mut both = api_versions_request(1, 4);
    both.extend_from_slice(&api_versions_request(2, 4));
    let mut buf = BytesMut::from(&both[..]);
    let mut codec = KafkaCodec {};
    let first = codec.decode(&mut buf).unwrap().unwrap();
    assert_eq!(first.header.correlation_id, 1);
    let second = codec.decode(&mut buf).unwrap().unwrap();
    assert_eq!(second.header.correlation_id, 2);
    assert_eq!(buf.len(), 0);
}

#[test]
fn end_to_end_api_versions_v4() {
    let full = api_versions_request(7, 4);
    let mut buf = BytesMut::from(&full[..]);
    let mut codec = KafkaCodec {};
    let req = codec.decode(&mut buf).unwrap().unwrap();
    let res = handle_request(&req).unwrap();

    assert_eq!(res.header.correlation_id, 7);
    let body = match &res.body {
        ResponseBody::ApiVersions(b) => b,
        _ => panic!("expected an ApiVersions response body"),
    };
    assert_eq!(body.error_code, 0);
    assert!(body.api_versions.len() > 0);
    assert_eq!(body.throttle_time, 0);

    let mut out = BytesMut::new();
    codec.encode(res, &mut out).unwrap();
    // size prefix, correlation id, error code 0, table of two entries
    assert_eq!(&out[..11], &[0, 0, 0, 26, 0, 0, 0, 7, 0, 0, 3]);
    // (18, 0, 4) and (75, 0, 0), each with an empty tag buffer
    assert_eq!(&out[11..18], &[0, 18, 0, 0, 0, 4, 0]);
    assert_eq!(&out[18..25], &[0, 75, 0, 0, 0, 0, 0]);
    // throttle time and body tag buffer
    assert_eq!(&out[25..], &[0, 0, 0, 0, 0]);
}

#[test]
fn end_to_end_api_versions_unsupported_version() {
    let full = api_versions_request(9, 100);
    let mut buf = BytesMut::from(&full[..]);
    let mut codec = KafkaCodec {};
    let req = codec.decode(&mut buf).unwrap().unwrap();
    let res = handle_request(&req).unwrap();

    assert_eq!(res.header.correlation_id, 9);
    let body = match &res.body {
        ResponseBody::ApiVersions(b) => b,
        _ => panic!("expected an ApiVersions response body"),
    };
    assert_eq!(body.error_code, 35);
    assert_eq!(body.api_versions.len(), 0);

    let mut out = BytesMut::new();
    codec.encode(res, &mut out).unwrap();
    // size prefix, correlation id, error code 35, an empty table encoded as
    // the single zero byte, throttle time, tag buffer
    assert_eq!(
        &out[..],
        &[0, 0, 0, 12, 0, 0, 0, 9, 0, 35, 0, 0, 0, 0, 0, 0][..]
    );
}

#[test]
fn end_to_end_describe_topic_partitions_unknown_topic() {
    let full = describe_topic_partitions_request(11);
    let mut buf = BytesMut::from(&full[..]);
    let mut codec = KafkaCodec {};
    let req = codec.decode(&mut buf).unwrap().unwrap();
    let res = handle_request(&req).unwrap();

    assert_eq!(res.header.correlation_id, 11);
    let body = match &res.body {
        ResponseBody::DescribeTopicPartitions(b) => b,
        _ => panic!("expected a DescribeTopicPartitions response body"),
    };
    assert_eq!(body.throttle_time, 0);
    assert_eq!(body.topics.len(), 1);
    let topic = &body.topics.iter()[0];
    assert_eq!(topic.error_code, 3);
    assert_eq!(topic.topic_name.0, "foo".to_string());
    assert_eq!(&topic.topic_id[..], &[0u8; 16]);
    assert_eq!(topic.partitions.len(), 0);
}

#[test]
fn handler_rejects_mismatched_requests() {
    let full = api_versions_request(3, 4);
    let mut buf = BytesMut::from(&full[..]);
    let req = KafkaRequest::decode(&mut buf).unwrap().unwrap();
    let r = kafka_codec::handlers::handle_describe_topic_partition(&req);
    assert_eq!(r.unwrap_err(), HandleError::MismatchedApiKey);
}

#[test]
fn describe_topic_partitions_with_two_topics_is_rejected() {
    let mut bytes: Vec<u8> = Vec::new();
    bytes.extend_from_slice(&[0x00, 0x4B, 0x00, 0x00, 0x00, 0x00, 0x00, 0x05]);
    bytes.extend_from_slice(&[0xFF, 0xFF, 0x00]);
    // two topics: "a" and "b"
    bytes.extend_from_slice(&[0x03, 0x02, b'a', 0x00, 0x02, b'b', 0x00]);
    bytes.extend_from_slice(&[0x00, 0x00, 0x00, 0x01, 0xFF, 0x00]);
    let mut frame: Vec<u8> = vec![0x00, 0x00, 0x00, bytes.len() as u8];
    frame.extend_from_slice(&bytes);

    let mut buf = BytesMut::from(&frame[..]);
    let req = KafkaRequest::decode(&mut buf).unwrap().unwrap();
    let r = handle_request(&req);
    assert_eq!(r.unwrap_err(), HandleError::MultipleTopics);
}

#[test]
fn request_handler_dispatches() {
    let full = api_versions_request(8, 0);
    let mut buf = BytesMut::from(&full[..]);
    let req = KafkaRequest::decode(&mut buf).unwrap().unwrap();
    let handler = kafka_codec::handlers::RequestHandler::default();
    let res = handler.handle(req).unwrap();
    assert_eq!(res.header.correlation_id, 8);
}
