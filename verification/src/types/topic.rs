//! The topic entries exchanged by `DescribeTopicPartitions`: the requested
//! topic name, and the per-topic response entry with its partitions.

use crate::buf::{be16, be32, buf_put_u8, buf_put_u16, buf_put_u32, bytes_of};
use crate::codec::{DecodeError, Decoder, EncodeError, Encoder, SpecDecode, WireLen};
use crate::primitives::bool::Bool;
use crate::primitives::compact_array::{compact_array_dec, CompactArray};
use crate::primitives::compact_string::{compact_string_dec, CompactString};
use crate::types::tag::{lemma_tagbuf_dec_empty, Tag, TagBuf};
use vstd::prelude::*;

verus! {

/// One topic named in a `DescribeTopicPartitions` request.
#[derive(Debug)]
pub struct TopicInRequest {
    pub name: CompactString,
    pub tag_buffer: TagBuf,
}

impl TopicInRequest {
    pub fn new(name: CompactString) -> (r: Self)
        ensures
            r.name@ == name@,
            name.wf() ==> r.wf(),
    {
        Self { name, tag_buffer: TagBuf::new() }
    }
}

impl View for TopicInRequest {
    type V = Seq<char>;

    open spec fn view(&self) -> Seq<char> {
        self.name@
    }
}

impl WireLen for TopicInRequest {
    open spec fn wf(&self) -> bool {
        self.name.wf() && self.tag_buffer.wf() && self.tag_buffer.elems().len() == 0
    }

    open spec fn enc(&self) -> Seq<u8> {
        self.name.enc() + self.tag_buffer.enc()
    }

    fn wire_len(&self) -> (r: usize) {
        self.name.wire_len() + self.tag_buffer.wire_len()
    }
}

/// What decoding one requested topic from the front of `s` finds: a compact
/// string name and an empty tag buffer.
pub open spec fn topic_in_request_dec(s: Seq<u8>) -> SpecDecode<Seq<char>> {
    match compact_string_dec(s) {
        SpecDecode::Found(nv, n1) => match compact_array_dec::<Tag>(s.skip(n1)) {
            SpecDecode::Found(tv, n2) => SpecDecode::Found(nv, n1 + n2),
            SpecDecode::NeedMore => SpecDecode::NeedMore,
            SpecDecode::Fail(e) => SpecDecode::Fail(e),
        },
        SpecDecode::NeedMore => SpecDecode::NeedMore,
        SpecDecode::Fail(e) => SpecDecode::Fail(e),
    }
}

impl Decoder for TopicInRequest {
    open spec fn dec(s: Seq<u8>) -> SpecDecode<Seq<char>> {
        topic_in_request_dec(s)
    }

    proof fn lemma_dec_len(s: Seq<u8>) {
        <CompactString as Decoder>::lemma_dec_len(s);
        match compact_string_dec(s) {
            SpecDecode::Found(nv, n1) => {
                <CompactArray<Tag> as Decoder>::lemma_dec_len(s.skip(n1));
            },
            SpecDecode::NeedMore => {},
            SpecDecode::Fail(_) => {},
        }
    }

    fn decode(src: &mut bytes::BytesMut) -> (r: Result<Option<Self>, DecodeError>) {
        let ghost s = bytes_of(*src);
        let name = match CompactString::decode(src) {
            Err(e) => {
                return Err(e);
            },
            Ok(None) => {
                return Ok(None);
            },
            Ok(Some(v)) => v,
        };
        proof {
            <CompactString as Decoder>::lemma_dec_len(s);
        }
        let tag_buffer = match CompactArray::<Tag>::decode(src) {
            Err(e) => {
                return Err(e);
            },
            Ok(None) => {
                return Ok(None);
            },
            Ok(Some(v)) => v,
        };
        proof {
            let n1 = compact_string_dec(s)->Found_1;
            let n2 = compact_array_dec::<Tag>(s.skip(n1))->Found_1;
            <CompactArray<Tag> as Decoder>::lemma_dec_len(s.skip(n1));
            assert(s.skip(n1).skip(n2) =~= s.skip(n1 + n2));
            lemma_tagbuf_dec_empty(s.skip(n1));
            assert(tag_buffer@.len() == 0);
            assert(tag_buffer.elems().len() == 0);
        }
        Ok(Some(TopicInRequest { name, tag_buffer }))
    }
}

/// One topic entry of a `DescribeTopicPartitions` response.
#[derive(Debug)]
pub struct TopicInResponse {
    pub error_code: u16,
    pub topic_name: CompactString,
    pub topic_id: Vec<u8>,
    pub is_internal: Bool,
    pub partitions: CompactArray<Partition>,
    pub topic_authorized_ops: u32,
    pub tag_buffer: TagBuf,
}

impl TopicInResponse {
    /// A response entry for `topic_name` carrying the given error code, the
    /// all-zero topic id, no partitions and no authorized operations.
    pub fn new(error_code: u16, topic_name: CompactString) -> (r: Self)
        ensures
            r.error_code == error_code,
            r.topic_name@ == topic_name@,
            r.topic_id@ == Seq::new(16, |i: int| 0u8),
            r.is_internal is False,
            r.partitions.elems().len() == 0,
            r.topic_authorized_ops == 0,
            topic_name.wf() ==> r.wf(),
            topic_name.wf() ==> r.enc().len() == topic_name.enc().len() + 25,
    {
        let topic_id = vec![0u8; 16];
        let r = Self {
            error_code,
            topic_name,
            topic_id,
            is_internal: Bool::False,
            partitions: CompactArray::new(),
            topic_authorized_ops: 0,
            tag_buffer: TagBuf::new(),
        };
        proof {
            assert(r.topic_id@ =~= Seq::new(16, |i: int| 0u8));
        }
        r
    }
}

impl WireLen for TopicInResponse {
    open spec fn wf(&self) -> bool {
        &&& self.topic_name.wf()
        &&& self.topic_id@.len() == 16
        &&& self.partitions.wf()
        &&& self.tag_buffer.wf()
        &&& self.tag_buffer.elems().len() == 0
    }

    open spec fn enc(&self) -> Seq<u8> {
        be16(self.error_code) + self.topic_name.enc() + self.topic_id@ + self.is_internal.enc()
            + self.partitions.enc() + be32(self.topic_authorized_ops) + self.tag_buffer.enc()
    }

    fn wire_len(&self) -> (r: usize) {
        2 + self.topic_name.wire_len() + 16 + 1 + self.partitions.wire_len() + 4
            + self.tag_buffer.wire_len()
    }
}

impl Encoder for TopicInResponse {
    fn encode(&self, dest: &mut bytes::BytesMut) -> (r: Result<(), EncodeError>) {
        buf_put_u16(dest, self.error_code);
        let _ = self.topic_name.encode(dest);
        let mut i: usize = 0;
        while i < 16
            invariant
                i <= 16,
                self.wf(),
                bytes_of(*old(dest)).len() + self.enc().len() <= isize::MAX,
                bytes_of(*dest) == bytes_of(*old(dest)) + be16(self.error_code)
                    + self.topic_name.enc() + self.topic_id@.take(i as int),
            decreases 16 - i,
        {
            proof {
                assert(self.topic_id@.take(i as int + 1) =~= self.topic_id@.take(i as int).push(
                    self.topic_id@[i as int],
                ));
            }
            buf_put_u8(dest, self.topic_id[i]);
            i = i + 1;
        }
        proof {
            assert(self.topic_id@.take(16) =~= self.topic_id@);
        }
        let _ = self.is_internal.encode(dest);
        let _ = self.partitions.encode(dest);
        buf_put_u32(dest, self.topic_authorized_ops);
        let _ = self.tag_buffer.encode(dest);
        proof {
            assert(bytes_of(*dest) =~= bytes_of(*old(dest)) + self.enc());
        }
        Ok(())
    }
}

/// One partition entry of a topic in a `DescribeTopicPartitions` response.
/// This subset only ever answers with empty partition lists, so values of
/// this type are never built; the codec is defined for the wire format's
/// sake.
#[derive(Debug)]
pub struct Partition {
    pub error_code: u16,
    pub partition_index: u32,
    pub leader_id: u32,
    pub leader_epoch: u32,
    pub replicas: CompactArray<ReplicaNode>,
    pub in_sync_replicas: CompactArray<ReplicaNode>,
    pub eligble_leader_replicas: CompactArray<ReplicaNode>,
    pub offline_replicas: CompactArray<ReplicaNode>,
    pub tag_buffer: TagBuf,
}

impl WireLen for Partition {
    open spec fn wf(&self) -> bool {
        &&& self.replicas.wf()
        &&& self.in_sync_replicas.wf()
        &&& self.eligble_leader_replicas.wf()
        &&& self.offline_replicas.wf()
        &&& self.tag_buffer.wf()
        &&& self.tag_buffer.elems().len() == 0
    }

    open spec fn enc(&self) -> Seq<u8> {
        be16(self.error_code) + be32(self.partition_index) + be32(self.leader_id) + be32(
            self.leader_epoch,
        ) + self.replicas.enc() + self.in_sync_replicas.enc() + self.eligble_leader_replicas.enc()
            + self.offline_replicas.enc() + self.tag_buffer.enc()
    }

    fn wire_len(&self) -> (r: usize) {
        2 + 4 + 4 + 4 + self.replicas.wire_len() + self.in_sync_replicas.wire_len()
            + self.eligble_leader_replicas.wire_len() + self.offline_replicas.wire_len()
            + self.tag_buffer.wire_len()
    }
}

impl Encoder for Partition {
    fn encode(&self, dest: &mut bytes::BytesMut) -> (r: Result<(), EncodeError>) {
        buf_put_u16(dest, self.error_code);
        buf_put_u32(dest, self.partition_index);
        buf_put_u32(dest, self.leader_id);
        buf_put_u32(dest, self.leader_epoch);
        let _ = self.replicas.encode(dest);
        let _ = self.in_sync_replicas.encode(dest);
        let _ = self.eligble_leader_replicas.encode(dest);
        let _ = self.offline_replicas.encode(dest);
        let _ = self.tag_buffer.encode(dest);
        proof {
            assert(bytes_of(*dest) =~= bytes_of(*old(dest)) + self.enc());
        }
        Ok(())
    }
}

/// One replica's node id inside a partition entry.
#[derive(Debug)]
pub struct ReplicaNode(pub u32);

impl WireLen for ReplicaNode {
    open spec fn wf(&self) -> bool {
        true
    }

    open spec fn enc(&self) -> Seq<u8> {
        be32(self.0)
    }

    fn wire_len(&self) -> (r: usize) {
        4
    }
}

impl Encoder for ReplicaNode {
    fn encode(&self, dest: &mut bytes::BytesMut) -> (r: Result<(), EncodeError>) {
        buf_put_u32(dest, self.0);
        Ok(())
    }
}

} // verus!
