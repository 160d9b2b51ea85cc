//! Response headers: version 0 is the bare correlation id; version 1 adds a
//! trailing empty tag buffer.

use crate::buf::{be32, buf_put_i32, bytes_of, u32_of_i32};
use crate::codec::{EncodeError, Encoder, WireLen};
use crate::request::request::KafkaRequest;
use crate::types::tag::TagBuf;
use vstd::prelude::*;

verus! {

/// A version-0 response header: the request's correlation id, echoed back.
#[derive(Debug)]
pub struct ResponseHeaderV0 {
    pub correlation_id: i32,
}

impl ResponseHeaderV0 {
    pub fn new(correlation_id: i32) -> (r: Self)
        ensures
            r.correlation_id == correlation_id,
            r.wf(),
    {
        Self { correlation_id }
    }

    /// A header answering `request`: it carries the same correlation id as
    /// the request's header.
    pub fn respond(request: &KafkaRequest) -> (r: Self)
        ensures
            r.correlation_id == request.header.correlation_id,
            r.wf(),
    {
        Self { correlation_id: request.header.correlation_id }
    }

    /// The number of bytes this header occupies on the wire.
    pub fn size(&self) -> (r: usize)
        ensures
            r == self.enc().len(),
    {
        4
    }
}

impl WireLen for ResponseHeaderV0 {
    open spec fn wf(&self) -> bool {
        true
    }

    open spec fn enc(&self) -> Seq<u8> {
        be32(u32_of_i32(self.correlation_id))
    }

    fn wire_len(&self) -> (r: usize) {
        4
    }
}

impl Encoder for ResponseHeaderV0 {
    fn encode(&self, dest: &mut bytes::BytesMut) -> (r: Result<(), EncodeError>) {
        buf_put_i32(dest, self.correlation_id);
        Ok(())
    }
}

/// A version-1 response header: the correlation id followed by an empty tag
/// buffer.
#[derive(Debug)]
pub struct ResponseHeaderV1 {
    pub correlation_id: i32,
    pub tag_buffer: TagBuf,
}

impl ResponseHeaderV1 {
    pub fn new(correlation_id: i32) -> (r: Self)
        ensures
            r.correlation_id == correlation_id,
            r.wf(),
    {
        Self { correlation_id, tag_buffer: TagBuf::new() }
    }

    /// A header answering `request`: it carries the same correlation id as
    /// the request's header.
    pub fn respond(request: &KafkaRequest) -> (r: Self)
        ensures
            r.correlation_id == request.header.correlation_id,
            r.wf(),
    {
        Self::new(request.header.correlation_id)
    }
}

impl WireLen for ResponseHeaderV1 {
    open spec fn wf(&self) -> bool {
        self.tag_buffer.wf() && self.tag_buffer.elems().len() == 0
    }

    open spec fn enc(&self) -> Seq<u8> {
        be32(u32_of_i32(self.correlation_id)) + self.tag_buffer.enc()
    }

    fn wire_len(&self) -> (r: usize) {
        4 + self.tag_buffer.wire_len()
    }
}

impl Encoder for ResponseHeaderV1 {
    fn encode(&self, dest: &mut bytes::BytesMut) -> (r: Result<(), EncodeError>) {
        buf_put_i32(dest, self.correlation_id);
        let _ = self.tag_buffer.encode(dest);
        proof {
            assert(bytes_of(*dest) =~= bytes_of(*old(dest)) + self.enc());
        }
        Ok(())
    }
}

} // verus!
