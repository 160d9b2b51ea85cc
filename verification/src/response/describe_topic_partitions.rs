//! The `DescribeTopicPartitions` response body: a throttle time, the per-
//! topic entries, the partition limit, a cursor byte and an (empty) tag
//! buffer.

use crate::buf::{be32, buf_put_i32, buf_put_u8, bytes_of, u32_of_i32};
use crate::codec::{EncodeError, Encoder, WireLen};
use crate::primitives::compact_array::CompactArray;
use crate::types::tag::TagBuf;
use crate::types::topic::TopicInResponse;
use vstd::prelude::*;

verus! {

/// A `DescribeTopicPartitions` response body.
#[derive(Debug)]
pub struct DescribeTopicPartitionsResponseBody {
    pub throttle_time: i32,
    pub topics: CompactArray<TopicInResponse>,
    pub partition_limit: i32,
    pub cursor: u8,
    pub tag_buffer: TagBuf,
}

impl DescribeTopicPartitionsResponseBody {
    pub fn new(
        throttle_time: i32,
        topics: CompactArray<TopicInResponse>,
        partition_limit: i32,
        cursor: u8,
    ) -> (r: Self)
        ensures
            r.throttle_time == throttle_time,
            r.topics == topics,
            r.partition_limit == partition_limit,
            r.cursor == cursor,
            topics.wf() ==> r.wf(),
    {
        Self { throttle_time, topics, partition_limit, cursor, tag_buffer: TagBuf::new() }
    }
}

impl WireLen for DescribeTopicPartitionsResponseBody {
    open spec fn wf(&self) -> bool {
        &&& self.topics.wf()
        &&& self.tag_buffer.wf()
        &&& self.tag_buffer.elems().len() == 0
    }

    open spec fn enc(&self) -> Seq<u8> {
        be32(u32_of_i32(self.throttle_time)) + self.topics.enc() + be32(
            u32_of_i32(self.partition_limit),
        ) + seq![self.cursor] + self.tag_buffer.enc()
    }

    fn wire_len(&self) -> (r: usize) {
        4 + self.topics.wire_len() + 4 + 1 + self.tag_buffer.wire_len()
    }
}

impl Encoder for DescribeTopicPartitionsResponseBody {
    fn encode(&self, dest: &mut bytes::BytesMut) -> (r: Result<(), EncodeError>) {
        buf_put_i32(dest, self.throttle_time);
        let _ = self.topics.encode(dest);
        buf_put_i32(dest, self.partition_limit);
        buf_put_u8(dest, self.cursor);
        let _ = self.tag_buffer.encode(dest);
        proof {
            assert(bytes_of(*dest) =~= bytes_of(*old(dest)) + self.enc());
        }
        Ok(())
    }
}

} // verus!
