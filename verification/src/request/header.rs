//! The request header (version 2): api key, api version, correlation id, a
//! nullable client id, and an (empty) tag buffer.

use crate::buf::{
    be16_val, be32, be32_val, buf_advance, buf_len, bytes_of, i16_of_u16, i32_of_u32, read_i16_at,
    read_i32_at, u16_of_i16, u32_of_i32,
};
use crate::buf::be16;
use crate::codec::{DecodeError, Decoder, SpecDecode, WireLen};
use crate::primitives::compact_array::{compact_array_dec, CompactArray};
use crate::primitives::nullable_string::{nullable_string_dec, NullableString};
use crate::types::api_keys::{api_key_of_code, ApiKeys};
use crate::types::tag::{lemma_tagbuf_dec_empty, Tag};
use vstd::prelude::*;

verus! {

/// The mathematical content of a request header: its fixed fields and the
/// client id, with the (always empty) tag buffer abstracted away.
pub ghost struct RequestHeaderV2View {
    pub request_api_key: ApiKeys,
    pub request_api_version: i16,
    pub correlation_id: i32,
    pub client_id: Option<Seq<char>>,
}

/// A version-2 request header.
#[derive(Debug)]
pub struct RequestHeaderV2 {
    pub request_api_key: ApiKeys,
    pub request_api_version: i16,
    pub correlation_id: i32,
    pub client_id: NullableString,
    pub tag_buffer: CompactArray<Tag>,
}

impl RequestHeaderV2 {
    /// Builds a header from raw field values; the api key code is mapped to
    /// its variant (unknown codes to `Unimplemented`), and nothing here
    /// checks that the api version is meaningful.
    pub fn new(
        request_api_key: i16,
        request_api_version: i16,
        correlation_id: i32,
        client_id: NullableString,
        tag_buffer: CompactArray<Tag>,
    ) -> (r: Self)
        ensures
            r.request_api_key == api_key_of_code(request_api_key),
            r.request_api_version == request_api_version,
            r.correlation_id == correlation_id,
            r.client_id == client_id,
            r.tag_buffer == tag_buffer,
    {
        Self {
            request_api_key: ApiKeys::from_code(request_api_key),
            request_api_version,
            correlation_id,
            client_id,
            tag_buffer,
        }
    }
}

impl View for RequestHeaderV2 {
    type V = RequestHeaderV2View;

    open spec fn view(&self) -> RequestHeaderV2View {
        RequestHeaderV2View {
            request_api_key: self.request_api_key,
            request_api_version: self.request_api_version,
            correlation_id: self.correlation_id,
            client_id: self.client_id@,
        }
    }
}

impl WireLen for RequestHeaderV2 {
    open spec fn wf(&self) -> bool {
        &&& self.client_id.wf()
        &&& self.tag_buffer.wf()
        &&& self.tag_buffer.elems().len() == 0
    }

    open spec fn enc(&self) -> Seq<u8> {
        self.request_api_key.enc() + be16(u16_of_i16(self.request_api_version)) + be32(
            u32_of_i32(self.correlation_id),
        ) + self.client_id.enc() + self.tag_buffer.enc()
    }

    fn wire_len(&self) -> (r: usize) {
        2 + 2 + 4 + self.client_id.wire_len() + self.tag_buffer.wire_len()
    }
}

/// What decoding a version-2 request header from the front of `s` finds.
pub open spec fn request_header_dec(s: Seq<u8>) -> SpecDecode<RequestHeaderV2View> {
    if s.len() < 8 {
        SpecDecode::NeedMore
    } else {
        let api_code = i16_of_u16(be16_val(s[0], s[1]));
        let api_version = i16_of_u16(be16_val(s[2], s[3]));
        let corr = i32_of_u32(be32_val(s[4], s[5], s[6], s[7]));
        match nullable_string_dec(s.skip(8)) {
            SpecDecode::Found(cv, cn) => match compact_array_dec::<Tag>(s.skip(8 + cn)) {
                SpecDecode::Found(tv, tn) => SpecDecode::Found(
                    RequestHeaderV2View {
                        request_api_key: api_key_of_code(api_code),
                        request_api_version: api_version,
                        correlation_id: corr,
                        client_id: cv,
                    },
                    8 + cn + tn,
                ),
                SpecDecode::NeedMore => SpecDecode::NeedMore,
                SpecDecode::Fail(e) => SpecDecode::Fail(e),
            },
            SpecDecode::NeedMore => SpecDecode::NeedMore,
            SpecDecode::Fail(e) => SpecDecode::Fail(e),
        }
    }
}

impl Decoder for RequestHeaderV2 {
    open spec fn dec(s: Seq<u8>) -> SpecDecode<RequestHeaderV2View> {
        request_header_dec(s)
    }

    proof fn lemma_dec_len(s: Seq<u8>) {
        if s.len() >= 8 {
            <NullableString as Decoder>::lemma_dec_len(s.skip(8));
            match nullable_string_dec(s.skip(8)) {
                SpecDecode::Found(cv, cn) => {
                    <CompactArray<Tag> as Decoder>::lemma_dec_len(s.skip(8 + cn));
                },
                SpecDecode::NeedMore => {},
                SpecDecode::Fail(_) => {},
            }
        }
    }

    /// Consumes as it reads, so on "need more data" or failure part of the
    /// header's bytes may already be gone. The frame decoder only ever runs
    /// this on a copy of one complete frame, which it discards on any
    /// outcome but success, so nothing is lost.
    fn decode(src: &mut bytes::BytesMut) -> (r: Result<Option<Self>, DecodeError>) {
        let ghost s = bytes_of(*src);
        let n = buf_len(src);
        if n < 8 {
            return Ok(None);
        }
        let request_api_key = read_i16_at(src, 0);
        let request_api_version = read_i16_at(src, 2);
        let correlation_id = read_i32_at(src, 4);
        buf_advance(src, 8);
        let client_id = match NullableString::decode(src) {
            Err(e) => {
                return Err(e);
            },
            Ok(None) => {
                return Ok(None);
            },
            Ok(Some(v)) => v,
        };
        proof {
            <NullableString as Decoder>::lemma_dec_len(s.skip(8));
            let cn = nullable_string_dec(s.skip(8))->Found_1;
            assert(s.skip(8).skip(cn) =~= s.skip(8 + cn));
        }
        let tag_buffer = match CompactArray::<Tag>::decode(src) {
            Err(e) => {
                return Err(e);
            },
            Ok(None) => {
                return Ok(None);
            },
            Ok(Some(v)) => v,
        };
        proof {
            let cn = nullable_string_dec(s.skip(8))->Found_1;
            assert(s.skip(8).skip(cn) =~= s.skip(8 + cn));
            let tn = compact_array_dec::<Tag>(s.skip(8 + cn))->Found_1;
            <CompactArray<Tag> as Decoder>::lemma_dec_len(s.skip(8 + cn));
            assert(s.skip(8 + cn).skip(tn) =~= s.skip(8 + cn + tn));
            lemma_tagbuf_dec_empty(s.skip(8 + cn));
            assert(tag_buffer.elems().len() == 0);
        }
        let h = RequestHeaderV2::new(
            request_api_key,
            request_api_version,
            correlation_id,
            client_id,
            tag_buffer,
        );
        Ok(Some(h))
    }
}

} // verus!
