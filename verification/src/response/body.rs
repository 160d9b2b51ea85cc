//! The closed set of response bodies, one variant per supported API.

use crate::codec::{EncodeError, Encoder, WireLen};
use crate::response::api_versions::ApiVersionsResponseBody;
use crate::response::describe_topic_partitions::DescribeTopicPartitionsResponseBody;
use vstd::prelude::*;

verus! {

/// A response body, one variant per supported API.
#[derive(Debug)]
pub enum ResponseBody {
    ApiVersions(ApiVersionsResponseBody),
    DescribeTopicPartitions(DescribeTopicPartitionsResponseBody),
}

impl WireLen for ResponseBody {
    open spec fn wf(&self) -> bool {
        match self {
            ResponseBody::ApiVersions(body) => body.wf(),
            ResponseBody::DescribeTopicPartitions(body) => body.wf(),
        }
    }

    open spec fn enc(&self) -> Seq<u8> {
        match self {
            ResponseBody::ApiVersions(body) => body.enc(),
            ResponseBody::DescribeTopicPartitions(body) => body.enc(),
        }
    }

    fn wire_len(&self) -> (r: usize) {
        match self {
            ResponseBody::ApiVersions(body) => body.wire_len(),
            ResponseBody::DescribeTopicPartitions(body) => body.wire_len(),
        }
    }
}

impl Encoder for ResponseBody {
    fn encode(&self, dest: &mut bytes::BytesMut) -> (r: Result<(), EncodeError>) {
        match self {
            ResponseBody::ApiVersions(body) => body.encode(dest),
            ResponseBody::DescribeTopicPartitions(body) => body.encode(dest),
        }
    }
}

} // verus!
