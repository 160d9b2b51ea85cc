//! The `ApiVersions` response body: an error code, the supported version
//! ranges, a throttle time and an (empty) tag buffer.

use crate::buf::{be16, be32, buf_put_u16, buf_put_u32, bytes_of};
use crate::codec::{EncodeError, Encoder, WireLen};
use crate::primitives::compact_array::CompactArray;
use crate::types::api_version::ApiVersion;
use crate::types::tag::Tag;
use vstd::prelude::*;

verus! {

/// An `ApiVersions` response body.
#[derive(Debug)]
pub struct ApiVersionsResponseBody {
    pub error_code: u16,
    pub api_versions: CompactArray<ApiVersion>,
    pub throttle_time: u32,
    pub tag_buffer: CompactArray<Tag>,
}

impl ApiVersionsResponseBody {
    pub fn new(error_code: u16, api_versions: CompactArray<ApiVersion>, throttle_time: u32) -> (r:
        Self)
        ensures
            r.error_code == error_code,
            r.api_versions == api_versions,
            r.throttle_time == throttle_time,
            api_versions.wf() ==> r.wf(),
    {
        Self { error_code, api_versions, throttle_time, tag_buffer: CompactArray::new() }
    }
}

impl WireLen for ApiVersionsResponseBody {
    open spec fn wf(&self) -> bool {
        &&& self.api_versions.wf()
        &&& self.tag_buffer.wf()
        &&& self.tag_buffer.elems().len() == 0
    }

    open spec fn enc(&self) -> Seq<u8> {
        be16(self.error_code) + self.api_versions.enc() + be32(self.throttle_time)
            + self.tag_buffer.enc()
    }

    fn wire_len(&self) -> (r: usize) {
        2 + self.api_versions.wire_len() + 4 + self.tag_buffer.wire_len()
    }
}

impl Encoder for ApiVersionsResponseBody {
    fn encode(&self, dest: &mut bytes::BytesMut) -> (r: Result<(), EncodeError>) {
        buf_put_u16(dest, self.error_code);
        let _ = self.api_versions.encode(dest);
        buf_put_u32(dest, self.throttle_time);
        let _ = self.tag_buffer.encode(dest);
        proof {
            assert(bytes_of(*dest) =~= bytes_of(*old(dest)) + self.enc());
        }
        Ok(())
    }
}

} // verus!
