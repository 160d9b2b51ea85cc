//! The supported API keys. This is not the full Kafka enum: the APIs this
//! broker does not implement all map to one `Unimplemented` variant, which the
//! dispatcher rejects.

use crate::buf::be16;
use crate::codec::WireLen;
use vstd::prelude::*;

verus! {

/// The API a request addresses, as carried in its header.
#[derive(Debug, PartialEq, Eq, Clone, Copy, Structural)]
pub enum ApiKeys {
    ApiVersions,
    DescribeTopicPartitions,
    Unimplemented,
}

/// The wire code of each supported API key.
pub open spec fn api_key_code(k: ApiKeys) -> i16 {
    match k {
        ApiKeys::ApiVersions => 18,
        ApiKeys::DescribeTopicPartitions => 75,
        ApiKeys::Unimplemented => 0,
    }
}

/// Which API key a wire code names; unknown codes map to `Unimplemented`.
pub open spec fn api_key_of_code(value: i16) -> ApiKeys {
    if value == 18 {
        ApiKeys::ApiVersions
    } else if value == 75 {
        ApiKeys::DescribeTopicPartitions
    } else {
        ApiKeys::Unimplemented
    }
}

impl ApiKeys {
    /// Maps a wire code to its API key.
    pub fn from_code(value: i16) -> (r: ApiKeys)
        ensures
            r == api_key_of_code(value),
    {
        if value == 18 {
            ApiKeys::ApiVersions
        } else if value == 75 {
            ApiKeys::DescribeTopicPartitions
        } else {
            ApiKeys::Unimplemented
        }
    }
}

impl WireLen for ApiKeys {
    open spec fn wf(&self) -> bool {
        true
    }

    open spec fn enc(&self) -> Seq<u8> {
        be16(api_key_code(*self) as u16)
    }

    fn wire_len(&self) -> (r: usize) {
        2
    }
}

} // verus!
