//! Per-API request handling: a closed dispatch over the supported API keys,
//! building the typed response for each.

use crate::codec::WireLen;
use crate::primitives::compact_array::{seq_enc, CompactArray};
use crate::primitives::uvarint::uvarint_enc;
use crate::request::body::RequestBody;
use crate::request::request::KafkaRequest;
use crate::response::api_versions::ApiVersionsResponseBody;
use crate::response::body::ResponseBody;
use crate::response::describe_topic_partitions::DescribeTopicPartitionsResponseBody;
use crate::response::headers::ResponseHeaderV0;
use crate::response::response::KafkaResponse;
use crate::types::api_keys::ApiKeys;
use crate::types::api_version::ApiVersion;
use crate::types::topic::TopicInResponse;
use vstd::prelude::*;

verus! {

/// The versions of `ApiVersions` itself this broker answers.
pub const MIN_SUPPORTED_API_VERSION: i16 = 0;

/// The versions of `ApiVersions` itself this broker answers.
pub const MAX_SUPPORTED_API_VERSION: i16 = 4;

/// The error code a response carries for a request of an unsupported version.
pub const UNSUPPORTED_VERSION: u16 = 35;

/// The error code a topic entry carries when the topic is unknown.
pub const UNKNOWN_TOPIC_OR_PARTITION: u16 = 3;

/// Why a request could not be handled. All of these are fatal for the
/// connection: this subset models no generic error-response path.
#[derive(Clone, Copy, Debug, PartialEq, Eq, Structural)]
pub enum HandleError {
    /// The request's api key names no implemented API.
    UnsupportedApiKey,
    /// The handler was given a request for a different API.
    MismatchedApiKey,
    /// The request's body does not belong to its api key.
    MismatchedBody,
    /// A `DescribeTopicPartitions` request named more than one topic (or
    /// none); this subset answers exactly one.
    MultipleTopics,
}

/// A correct `ApiVersions` answer to `req`: the correlation id is echoed, the
/// declared size is exact, the throttle time is zero, and the body carries
/// either the supported version table or the unsupported-version error code
/// with an empty table, depending on the requested version.
pub open spec fn api_versions_response_ok(req: &KafkaRequest, res: KafkaResponse) -> bool {
    &&& res.wf()
    &&& res.header.correlation_id == req.header.correlation_id
    &&& res.message_size as int == res.header.enc().len() + res.body.enc().len()
    &&& res.body matches ResponseBody::ApiVersions(b) && {
        &&& b.throttle_time == 0
        &&& if MIN_SUPPORTED_API_VERSION <= req.header.request_api_version
            <= MAX_SUPPORTED_API_VERSION {
            &&& b.error_code == 0
            &&& b.api_versions.elems().len() == 2
            &&& b.api_versions.elems()[0].api_key == 18
            &&& b.api_versions.elems()[0].min_version == 0
            &&& b.api_versions.elems()[0].max_version == 4
            &&& b.api_versions.elems()[1].api_key == 75
            &&& b.api_versions.elems()[1].min_version == 0
            &&& b.api_versions.elems()[1].max_version == 0
        } else {
            &&& b.error_code == UNSUPPORTED_VERSION
            &&& b.api_versions.elems().len() == 0
        }
    }
}

/// A correct `DescribeTopicPartitions` answer to `req`: the correlation id is
/// echoed, the declared size is exact, and the single topic entry echoes the
/// requested name with the unknown-topic error code, the all-zero topic id
/// and no partitions.
pub open spec fn describe_topic_partitions_response_ok(
    req: &KafkaRequest,
    res: KafkaResponse,
) -> bool {
    &&& res.wf()
    &&& res.header.correlation_id == req.header.correlation_id
    &&& res.message_size as int == res.header.enc().len() + res.body.enc().len()
    &&& req.body matches RequestBody::DescribeTopicPartitions(rb) && {
        &&& res.body matches ResponseBody::DescribeTopicPartitions(b) && {
            &&& b.throttle_time == 0
            &&& b.partition_limit == 0
            &&& b.cursor == 0
            &&& b.topics.elems().len() == 1
            &&& b.topics.elems()[0].error_code == UNKNOWN_TOPIC_OR_PARTITION
            &&& b.topics.elems()[0].topic_name@ == rb.topics.elems()[0].name@
            &&& b.topics.elems()[0].topic_id@ == Seq::new(16, |i: int| 0u8)
            &&& b.topics.elems()[0].is_internal is False
            &&& b.topics.elems()[0].partitions.elems().len() == 0
            &&& b.topics.elems()[0].topic_authorized_ops == 0
        }
    }
}

/// Answers an `ApiVersions` request. A requested version outside the
/// supported range is answered with the unsupported-version error code and an
/// empty table, never with a failure.
pub fn handle_api_version(req: &KafkaRequest) -> (r: Result<KafkaResponse, HandleError>)
    requires
        req.wf(),
    ensures
        r is Ok <==> req.header.request_api_key is ApiVersions && req.body is ApiVersions,
        r matches Ok(res) ==> api_versions_response_ok(req, res),
        r == Err::<KafkaResponse, HandleError>(HandleError::MismatchedApiKey) <==> !(
        req.header.request_api_key is ApiVersions),
        r == Err::<KafkaResponse, HandleError>(HandleError::MismatchedBody) <==> (
        req.header.request_api_key is ApiVersions && !(req.body is ApiVersions)),
{
    if !(req.header.request_api_key == ApiKeys::ApiVersions) {
        return Err(HandleError::MismatchedApiKey);
    }
    match req.body {
        RequestBody::ApiVersions(_) => {},
        _ => {
            return Err(HandleError::MismatchedBody);
        },
    }
    let header = ResponseHeaderV0::new(req.header.correlation_id);
    let body = if req.header.request_api_version > MAX_SUPPORTED_API_VERSION
        || req.header.request_api_version < MIN_SUPPORTED_API_VERSION {
        let inner = ApiVersionsResponseBody::new(UNSUPPORTED_VERSION, CompactArray::new(), 0);
        proof {
            assert(inner.enc().len() == 8);
        }
        ResponseBody::ApiVersions(inner)
    } else {
        let mut api_versions = CompactArray::with_capacity(2);
        api_versions.push(ApiVersion::new(18, 0, 4));
        api_versions.push(ApiVersion::new(75, 0, 0));
        let inner = ApiVersionsResponseBody::new(0, api_versions, 0);
        proof {
            let es = inner.api_versions.elems();
            assert(es.len() == 2);
            assert(uvarint_enc(3u32).len() == 1);
            assert(es[0].enc().len() == 7);
            assert(es.drop_first()[0] == es[1]);
            assert(seq_enc(es) == es[0].enc() + seq_enc(es.drop_first()));
            assert(seq_enc(es.drop_first()) == es.drop_first()[0].enc() + seq_enc(
                es.drop_first().drop_first(),
            ));
            assert(es.drop_first().drop_first().len() == 0);
            assert(seq_enc(es.drop_first().drop_first()).len() == 0);
            assert(inner.api_versions.enc().len() == 15);
            assert(inner.enc().len() == 22);
        }
        ResponseBody::ApiVersions(inner)
    };
    proof {
        assert(body.enc().len() <= 22);
        assert(header.enc().len() == 4);
    }
    let message_size = (header.wire_len() + body.wire_len()) as i32;
    let res = KafkaResponse::new(message_size, header, body);
    Ok(res)
}

/// Answers a `DescribeTopicPartitions` request naming exactly one topic: the
/// topic is echoed back as unknown, with no partitions.
pub fn handle_describe_topic_partition(req: &KafkaRequest) -> (r: Result<
    KafkaResponse,
    HandleError,
>)
    requires
        req.wf(),
    ensures
        r is Ok <==> (req.header.request_api_key is DescribeTopicPartitions && (
        req.body matches RequestBody::DescribeTopicPartitions(rb) && rb.topics.elems().len()
            == 1)),
        r matches Ok(res) ==> describe_topic_partitions_response_ok(req, res),
{
    if !(req.header.request_api_key == ApiKeys::DescribeTopicPartitions) {
        return Err(HandleError::MismatchedApiKey);
    }
    let reqbody = match &req.body {
        RequestBody::DescribeTopicPartitions(b) => b,
        _ => {
            return Err(HandleError::MismatchedBody);
        },
    };
    if reqbody.topics.len() != 1 {
        return Err(HandleError::MultipleTopics);
    }
    let header = ResponseHeaderV0::respond(req);
    let mut topics = CompactArray::new();
    let requested = reqbody.topics.iter();
    let name = requested[0].name.clone();
    proof {
        assert(reqbody.topics.elems()[0].wf());
        assert(name.wf());
    }
    topics.push(TopicInResponse::new(UNKNOWN_TOPIC_OR_PARTITION, name));
    let body_inner = DescribeTopicPartitionsResponseBody::new(0, topics, 0, 0);
    let body = ResponseBody::DescribeTopicPartitions(body_inner);
    proof {
        let es = body_inner.topics.elems();
        assert(es.len() == 1);
        assert(es[0].wf());
        assert(es[0].topic_name.enc().len() <= 127) by {
            assert(uvarint_enc(
                (vstd::utf8::encode_utf8(es[0].topic_name@).len() + 1) as u32,
            ).len() == 1);
        }
        assert(es[0].enc().len() <= 152);
        assert(uvarint_enc(2u32).len() == 1);
        assert(seq_enc(es) == es[0].enc() + seq_enc(es.drop_first()));
        assert(es.drop_first().len() == 0);
        assert(seq_enc(es.drop_first()).len() == 0);
        assert(body_inner.topics.enc().len() <= 153);
        assert(body.enc().len() <= 163);
        assert(header.enc().len() == 4);
    }
    let message_size = (header.wire_len() + body.wire_len()) as i32;
    let res = KafkaResponse::new(message_size, header, body);
    Ok(res)
}

/// Dispatches a decoded request to the handler its api key selects.
pub fn handle_request(req: &KafkaRequest) -> (r: Result<KafkaResponse, HandleError>)
    requires
        req.wf(),
    ensures
        req.header.request_api_key is Unimplemented ==> r == Err::<KafkaResponse, HandleError>(
            HandleError::UnsupportedApiKey,
        ),
        req.header.request_api_key is ApiVersions ==> (r is Ok <==> req.body is ApiVersions),
        req.header.request_api_key is DescribeTopicPartitions ==> (r is Ok <==> (
        req.body matches RequestBody::DescribeTopicPartitions(rb) && rb.topics.elems().len() == 1)),
        r matches Ok(res) ==> (req.header.request_api_key is ApiVersions
            ==> api_versions_response_ok(req, res)),
        r matches Ok(res) ==> (req.header.request_api_key is DescribeTopicPartitions
            ==> describe_topic_partitions_response_ok(req, res)),
{
    match req.header.request_api_key {
        ApiKeys::ApiVersions => handle_api_version(req),
        ApiKeys::DescribeTopicPartitions => handle_describe_topic_partition(req),
        ApiKeys::Unimplemented => Err(HandleError::UnsupportedApiKey),
    }
}

/// A stateless handler object around [`handle_request`].
#[derive(Debug)]
pub struct RequestHandler {}

impl RequestHandler {
    /// Dispatches `req` exactly as [`handle_request`] does.
    pub fn handle(&self, req: KafkaRequest) -> (r: Result<KafkaResponse, HandleError>)
        requires
            req.wf(),
        ensures
            r is Ok <==> ((req.header.request_api_key is ApiVersions
                && req.body is ApiVersions) || (
            req.header.request_api_key is DescribeTopicPartitions && (
            req.body matches RequestBody::DescribeTopicPartitions(rb)
                && rb.topics.elems().len() == 1))),
            req.header.request_api_key is Unimplemented ==> r == Err::<
                KafkaResponse,
                HandleError,
            >(HandleError::UnsupportedApiKey),
            r matches Ok(res) ==> (req.header.request_api_key is ApiVersions
                ==> api_versions_response_ok(&req, res)),
            r matches Ok(res) ==> (req.header.request_api_key is DescribeTopicPartitions
                ==> describe_topic_partitions_response_ok(&req, res)),
    {
        handle_request(&req)
    }
}

impl Default for RequestHandler {
    fn default() -> Self {
        Self {  }
    }
}

} // verus!
