//! The `ApiVersions` request body: the client's software name and version as
//! compact strings, and an (empty) tag buffer.

use crate::buf::bytes_of;
use crate::codec::{DecodeError, Decoder, SpecDecode, WireLen};
use crate::primitives::compact_array::{compact_array_dec, CompactArray};
use crate::primitives::compact_string::{compact_string_dec, CompactString};
use crate::types::tag::{lemma_tagbuf_dec_empty, Tag};
use vstd::prelude::*;

verus! {

/// The mathematical content of an `ApiVersions` request body.
pub ghost struct ApiVersionsRequestBodyView {
    pub client_software_name: Seq<char>,
    pub client_software_version: Seq<char>,
}

/// An `ApiVersions` request body.
#[derive(Debug)]
pub struct ApiVersionsRequestBody {
    pub client_software_name: CompactString,
    pub client_software_version: CompactString,
    pub tag_buffer: CompactArray<Tag>,
}

impl View for ApiVersionsRequestBody {
    type V = ApiVersionsRequestBodyView;

    open spec fn view(&self) -> ApiVersionsRequestBodyView {
        ApiVersionsRequestBodyView {
            client_software_name: self.client_software_name@,
            client_software_version: self.client_software_version@,
        }
    }
}

impl WireLen for ApiVersionsRequestBody {
    open spec fn wf(&self) -> bool {
        &&& self.client_software_name.wf()
        &&& self.client_software_version.wf()
        &&& self.tag_buffer.wf()
        &&& self.tag_buffer.elems().len() == 0
    }

    open spec fn enc(&self) -> Seq<u8> {
        self.client_software_name.enc() + self.client_software_version.enc()
            + self.tag_buffer.enc()
    }

    fn wire_len(&self) -> (r: usize) {
        self.client_software_name.wire_len() + self.client_software_version.wire_len()
            + self.tag_buffer.wire_len()
    }
}

/// What decoding an `ApiVersions` request body from the front of `s` finds.
pub open spec fn api_versions_request_body_dec(s: Seq<u8>) -> SpecDecode<
    ApiVersionsRequestBodyView,
> {
    match compact_string_dec(s) {
        SpecDecode::Found(nv, n1) => match compact_string_dec(s.skip(n1)) {
            SpecDecode::Found(vv, n2) => match compact_array_dec::<Tag>(s.skip(n1 + n2)) {
                SpecDecode::Found(tv, n3) => SpecDecode::Found(
                    ApiVersionsRequestBodyView {
                        client_software_name: nv,
                        client_software_version: vv,
                    },
                    n1 + n2 + n3,
                ),
                SpecDecode::NeedMore => SpecDecode::NeedMore,
                SpecDecode::Fail(e) => SpecDecode::Fail(e),
            },
            SpecDecode::NeedMore => SpecDecode::NeedMore,
            SpecDecode::Fail(e) => SpecDecode::Fail(e),
        },
        SpecDecode::NeedMore => SpecDecode::NeedMore,
        SpecDecode::Fail(e) => SpecDecode::Fail(e),
    }
}

impl Decoder for ApiVersionsRequestBody {
    open spec fn dec(s: Seq<u8>) -> SpecDecode<ApiVersionsRequestBodyView> {
        api_versions_request_body_dec(s)
    }

    proof fn lemma_dec_len(s: Seq<u8>) {
        <CompactString as Decoder>::lemma_dec_len(s);
        match compact_string_dec(s) {
            SpecDecode::Found(nv, n1) => {
                <CompactString as Decoder>::lemma_dec_len(s.skip(n1));
                match compact_string_dec(s.skip(n1)) {
                    SpecDecode::Found(vv, n2) => {
                        <CompactArray<Tag> as Decoder>::lemma_dec_len(s.skip(n1 + n2));
                    },
                    SpecDecode::NeedMore => {},
                    SpecDecode::Fail(_) => {},
                }
            },
            SpecDecode::NeedMore => {},
            SpecDecode::Fail(_) => {},
        }
    }

    fn decode(src: &mut bytes::BytesMut) -> (r: Result<Option<Self>, DecodeError>) {
        let ghost s = bytes_of(*src);
        let client_software_name = match CompactString::decode(src) {
            Err(e) => {
                return Err(e);
            },
            Ok(None) => {
                return Ok(None);
            },
            Ok(Some(v)) => v,
        };
        proof {
            <CompactString as Decoder>::lemma_dec_len(s);
        }
        let client_software_version = match CompactString::decode(src) {
            Err(e) => {
                return Err(e);
            },
            Ok(None) => {
                return Ok(None);
            },
            Ok(Some(v)) => v,
        };
        proof {
            let n1 = compact_string_dec(s)->Found_1;
            <CompactString as Decoder>::lemma_dec_len(s.skip(n1));
            let n2 = compact_string_dec(s.skip(n1))->Found_1;
            assert(s.skip(n1).skip(n2) =~= s.skip(n1 + n2));
        }
        let tag_buffer = match CompactArray::<Tag>::decode(src) {
            Err(e) => {
                return Err(e);
            },
            Ok(None) => {
                return Ok(None);
            },
            Ok(Some(v)) => v,
        };
        proof {
            let n1 = compact_string_dec(s)->Found_1;
            let n2 = compact_string_dec(s.skip(n1))->Found_1;
            let n3 = compact_array_dec::<Tag>(s.skip(n1 + n2))->Found_1;
            <CompactArray<Tag> as Decoder>::lemma_dec_len(s.skip(n1 + n2));
            assert(s.skip(n1 + n2).skip(n3) =~= s.skip(n1 + n2 + n3));
            lemma_tagbuf_dec_empty(s.skip(n1 + n2));
            assert(tag_buffer.elems().len() == 0);
        }
        let body = ApiVersionsRequestBody {
            client_software_name,
            client_software_version,
            tag_buffer,
        };
        Ok(Some(body))
    }
}

} // verus!
