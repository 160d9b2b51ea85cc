//! One entry of an `ApiVersions` response: an API key with the range of
//! versions this broker supports for it.

use crate::buf::{be16, buf_put_u16, bytes_of};
use crate::codec::{EncodeError, Encoder, WireLen};
use crate::primitives::compact_array::CompactArray;
use crate::types::tag::Tag;
use vstd::prelude::*;

verus! {

/// A supported (api_key, min_version, max_version) triple.
#[derive(Debug)]
pub struct ApiVersion {
    pub api_key: u16,
    pub min_version: u16,
    pub max_version: u16,
    pub tag_buffer: CompactArray<Tag>,
}

impl ApiVersion {
    pub fn new(api_key: u16, min_sup_version: u16, max_sup_version: u16) -> (r: Self)
        ensures
            r.api_key == api_key,
            r.min_version == min_sup_version,
            r.max_version == max_sup_version,
            r.wf(),
            r.enc().len() == 7,
    {
        let r = Self {
            api_key,
            min_version: min_sup_version,
            max_version: max_sup_version,
            tag_buffer: CompactArray::new(),
        };
        r
    }
}

impl WireLen for ApiVersion {
    open spec fn wf(&self) -> bool {
        self.tag_buffer.wf() && self.tag_buffer.elems().len() == 0
    }

    open spec fn enc(&self) -> Seq<u8> {
        be16(self.api_key) + be16(self.min_version) + be16(self.max_version)
            + self.tag_buffer.enc()
    }

    fn wire_len(&self) -> (r: usize) {
        7
    }
}

impl Encoder for ApiVersion {
    fn encode(&self, dest: &mut bytes::BytesMut) -> (r: Result<(), EncodeError>) {
        buf_put_u16(dest, self.api_key);
        buf_put_u16(dest, self.min_version);
        buf_put_u16(dest, self.max_version);
        let _ = self.tag_buffer.encode(dest);
        proof {
            assert(bytes_of(*dest) =~= bytes_of(*old(dest)) + self.enc());
        }
        Ok(())
    }
}

} // verus!
