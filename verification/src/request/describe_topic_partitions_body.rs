//! The `DescribeTopicPartitions` request body: the requested topics, a
//! partition limit, a cursor byte (only the null cursor `0xFF` is meaningful
//! here), and an (empty) tag buffer.

use crate::buf::{
    be32, buf_advance, buf_byte_at, buf_len, bytes_of, i32_of_u32, read_i32_at, u32_of_i32,
};
use crate::codec::{DecodeError, Decoder, SpecDecode, WireLen};
use crate::primitives::compact_array::{compact_array_dec, CompactArray};
use crate::types::tag::{lemma_tagbuf_dec_empty, Tag, TagBuf};
use crate::types::topic::TopicInRequest;
use vstd::prelude::*;

verus! {

/// The mathematical content of a `DescribeTopicPartitions` request body: the
/// requested topic names, the partition limit and the cursor byte.
pub ghost struct DescribeTopicPartitionsRequestBodyView {
    pub topics: Seq<Seq<char>>,
    pub partition_limit: i32,
    pub cursor: u8,
}

/// A `DescribeTopicPartitions` request body.
#[derive(Debug)]
pub struct DescribeTopicPartitionsRequestBody {
    pub topics: CompactArray<TopicInRequest>,
    pub partition_limit: i32,
    pub cursor: u8,
    pub tag_buffer: TagBuf,
}

impl DescribeTopicPartitionsRequestBody {
    /// Builds a request body for the given topics with the null cursor.
    pub fn new(topics: CompactArray<TopicInRequest>, partition_limit: i32) -> (r: Self)
        ensures
            r.topics == topics,
            r.partition_limit == partition_limit,
            r.cursor == 0xFF,
            topics.wf() ==> r.wf(),
    {
        Self { topics, partition_limit, cursor: 0xFF, tag_buffer: TagBuf::new() }
    }
}

impl View for DescribeTopicPartitionsRequestBody {
    type V = DescribeTopicPartitionsRequestBodyView;

    open spec fn view(&self) -> DescribeTopicPartitionsRequestBodyView {
        DescribeTopicPartitionsRequestBodyView {
            topics: self.topics@,
            partition_limit: self.partition_limit,
            cursor: self.cursor,
        }
    }
}

impl WireLen for DescribeTopicPartitionsRequestBody {
    open spec fn wf(&self) -> bool {
        &&& self.topics.wf()
        &&& self.tag_buffer.wf()
        &&& self.tag_buffer.elems().len() == 0
    }

    open spec fn enc(&self) -> Seq<u8> {
        self.topics.enc() + be32(u32_of_i32(self.partition_limit)) + seq![self.cursor]
            + self.tag_buffer.enc()
    }

    fn wire_len(&self) -> (r: usize) {
        self.topics.wire_len() + 4 + 1 + self.tag_buffer.wire_len()
    }
}

/// What decoding a `DescribeTopicPartitions` request body from the front of
/// `s` finds.
pub open spec fn describe_topic_partitions_body_dec(s: Seq<u8>) -> SpecDecode<
    DescribeTopicPartitionsRequestBodyView,
> {
    match compact_array_dec::<TopicInRequest>(s) {
        SpecDecode::Found(tv, n1) => {
            if s.len() < n1 + 5 {
                SpecDecode::NeedMore
            } else {
                let limit = i32_of_u32(
                    be32_val_at(s, n1),
                );
                let cursor = s[n1 + 4];
                match compact_array_dec::<Tag>(s.skip(n1 + 5)) {
                    SpecDecode::Found(gv, n3) => SpecDecode::Found(
                        DescribeTopicPartitionsRequestBodyView {
                            topics: tv,
                            partition_limit: limit,
                            cursor,
                        },
                        n1 + 5 + n3,
                    ),
                    SpecDecode::NeedMore => SpecDecode::NeedMore,
                    SpecDecode::Fail(e) => SpecDecode::Fail(e),
                }
            }
        },
        SpecDecode::NeedMore => SpecDecode::NeedMore,
        SpecDecode::Fail(e) => SpecDecode::Fail(e),
    }
}

/// The big-endian `u32` at positions `i..i + 4` of `s`.
pub open spec fn be32_val_at(s: Seq<u8>, i: int) -> u32 {
    crate::buf::be32_val(s[i], s[i + 1], s[i + 2], s[i + 3])
}

impl Decoder for DescribeTopicPartitionsRequestBody {
    open spec fn dec(s: Seq<u8>) -> SpecDecode<DescribeTopicPartitionsRequestBodyView> {
        describe_topic_partitions_body_dec(s)
    }

    proof fn lemma_dec_len(s: Seq<u8>) {
        <CompactArray<TopicInRequest> as Decoder>::lemma_dec_len(s);
        match compact_array_dec::<TopicInRequest>(s) {
            SpecDecode::Found(tv, n1) => {
                if s.len() >= n1 + 5 {
                    <CompactArray<Tag> as Decoder>::lemma_dec_len(s.skip(n1 + 5));
                }
            },
            SpecDecode::NeedMore => {},
            SpecDecode::Fail(_) => {},
        }
    }

    fn decode(src: &mut bytes::BytesMut) -> (r: Result<Option<Self>, DecodeError>) {
        let ghost s = bytes_of(*src);
        let topics = match CompactArray::<TopicInRequest>::decode(src) {
            Err(e) => {
                return Err(e);
            },
            Ok(None) => {
                return Ok(None);
            },
            Ok(Some(v)) => v,
        };
        proof {
            <CompactArray<TopicInRequest> as Decoder>::lemma_dec_len(s);
        }
        if buf_len(src) < 5 {
            return Ok(None);
        }
        let partition_limit = read_i32_at(src, 0);
        let cursor = buf_byte_at(src, 4);
        buf_advance(src, 5);
        proof {
            let n1 = compact_array_dec::<TopicInRequest>(s)->Found_1;
            assert(s.skip(n1)[0] == s[n1]);
            assert(s.skip(n1)[1] == s[n1 + 1]);
            assert(s.skip(n1)[2] == s[n1 + 2]);
            assert(s.skip(n1)[3] == s[n1 + 3]);
            assert(s.skip(n1)[4] == s[n1 + 4]);
            assert(s.skip(n1).skip(5) =~= s.skip(n1 + 5));
        }
        let tag_buffer = match CompactArray::<Tag>::decode(src) {
            Err(e) => {
                return Err(e);
            },
            Ok(None) => {
                return Ok(None);
            },
            Ok(Some(v)) => v,
        };
        proof {
            let n1 = compact_array_dec::<TopicInRequest>(s)->Found_1;
            let n3 = compact_array_dec::<Tag>(s.skip(n1 + 5))->Found_1;
            <CompactArray<Tag> as Decoder>::lemma_dec_len(s.skip(n1 + 5));
            assert(s.skip(n1 + 5).skip(n3) =~= s.skip(n1 + 5 + n3));
            lemma_tagbuf_dec_empty(s.skip(n1 + 5));
            assert(tag_buffer.elems().len() == 0);
        }
        let body = DescribeTopicPartitionsRequestBody { topics, partition_limit, cursor, tag_buffer };
        Ok(Some(body))
    }
}

} // verus!
