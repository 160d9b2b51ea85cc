//! The closed set of request bodies, and the router that selects a body
//! decoder by api key and holds it to the size the frame declared.

use crate::buf::{buf_len, bytes_of};
use crate::codec::{DecodeError, Decoder, SpecDecode, WireLen};
use crate::request::api_versions_body::{
    api_versions_request_body_dec, ApiVersionsRequestBody, ApiVersionsRequestBodyView,
};
use crate::request::describe_topic_partitions_body::{
    describe_topic_partitions_body_dec, DescribeTopicPartitionsRequestBody,
    DescribeTopicPartitionsRequestBodyView,
};
use crate::types::api_keys::ApiKeys;
use vstd::prelude::*;

verus! {

/// The mathematical content of a request body, one variant per supported API.
pub ghost enum RequestBodyView {
    ApiVersions(ApiVersionsRequestBodyView),
    DescribeTopicPartitions(DescribeTopicPartitionsRequestBodyView),
}

/// A decoded request body, one variant per supported API.
#[derive(Debug)]
pub enum RequestBody {
    ApiVersions(ApiVersionsRequestBody),
    DescribeTopicPartitions(DescribeTopicPartitionsRequestBody),
}

impl View for RequestBody {
    type V = RequestBodyView;

    open spec fn view(&self) -> RequestBodyView {
        match self {
            RequestBody::ApiVersions(b) => RequestBodyView::ApiVersions(b@),
            RequestBody::DescribeTopicPartitions(b) => RequestBodyView::DescribeTopicPartitions(
                b@,
            ),
        }
    }
}

impl WireLen for RequestBody {
    open spec fn wf(&self) -> bool {
        match self {
            RequestBody::ApiVersions(b) => b.wf(),
            RequestBody::DescribeTopicPartitions(b) => b.wf(),
        }
    }

    open spec fn enc(&self) -> Seq<u8> {
        match self {
            RequestBody::ApiVersions(b) => b.enc(),
            RequestBody::DescribeTopicPartitions(b) => b.enc(),
        }
    }

    fn wire_len(&self) -> (r: usize) {
        match self {
            RequestBody::ApiVersions(b) => b.wire_len(),
            RequestBody::DescribeTopicPartitions(b) => b.wire_len(),
        }
    }
}

/// What decoding the body selected by `key` finds at the front of `s`, when
/// the frame declares `size` bytes for it: an unknown key is rejected, a
/// buffer shorter than the declared size needs more data, and a body that
/// does not occupy exactly the declared size is malformed.
pub open spec fn request_body_dec_by_key(key: ApiKeys, s: Seq<u8>, size: Option<int>) -> SpecDecode<
    RequestBodyView,
> {
    match key {
        ApiKeys::Unimplemented => SpecDecode::Fail(DecodeError::UnsupportedApiKey),
        ApiKeys::ApiVersions => {
            if size matches Some(sz) && s.len() < sz {
                SpecDecode::NeedMore
            } else {
                match api_versions_request_body_dec(s) {
                    SpecDecode::Found(v, n) => {
                        if size matches Some(sz) && n != sz {
                            SpecDecode::Fail(DecodeError::BodySizeMismatch)
                        } else {
                            SpecDecode::Found(RequestBodyView::ApiVersions(v), n)
                        }
                    },
                    SpecDecode::NeedMore => SpecDecode::NeedMore,
                    SpecDecode::Fail(e) => SpecDecode::Fail(e),
                }
            }
        },
        ApiKeys::DescribeTopicPartitions => {
            if size matches Some(sz) && s.len() < sz {
                SpecDecode::NeedMore
            } else {
                match describe_topic_partitions_body_dec(s) {
                    SpecDecode::Found(v, n) => {
                        if size matches Some(sz) && n != sz {
                            SpecDecode::Fail(DecodeError::BodySizeMismatch)
                        } else {
                            SpecDecode::Found(RequestBodyView::DescribeTopicPartitions(v), n)
                        }
                    },
                    SpecDecode::NeedMore => SpecDecode::NeedMore,
                    SpecDecode::Fail(e) => SpecDecode::Fail(e),
                }
            }
        },
    }
}

/// The declared body size as a mathematical value.
pub open spec fn size_as_int(size: Option<usize>) -> Option<int> {
    match size {
        Some(sz) => Some(sz as int),
        None => None,
    }
}

impl RequestBody {
    /// Decodes the body the api key selects. When `size` is given, the buffer
    /// must already hold that many bytes, and the decoded body must occupy
    /// exactly that many.
    pub fn decode_by_key(key: &ApiKeys, src: &mut bytes::BytesMut, size: Option<usize>) -> (r:
        Result<Option<RequestBody>, DecodeError>)
        ensures
            match request_body_dec_by_key(*key, bytes_of(*old(src)), size_as_int(size)) {
                SpecDecode::Found(v, n) => {
                    &&& r matches Ok(Some(x)) && x@ == v && x.wf()
                    &&& bytes_of(*final(src)) == bytes_of(*old(src)).skip(n)
                },
                SpecDecode::NeedMore => r == Ok::<Option<RequestBody>, DecodeError>(None),
                SpecDecode::Fail(e) => r == Err::<Option<RequestBody>, DecodeError>(e),
            },
    {
        let ghost s = bytes_of(*src);
        match key {
            ApiKeys::Unimplemented => Err(DecodeError::UnsupportedApiKey),
            ApiKeys::ApiVersions => {
                if let Some(sz) = size {
                    if buf_len(src) < sz {
                        return Ok(None);
                    }
                }
                let len0 = buf_len(src);
                match ApiVersionsRequestBody::decode(src) {
                    Err(e) => Err(e),
                    Ok(None) => Ok(None),
                    Ok(Some(b)) => {
                        proof {
                            <ApiVersionsRequestBody as Decoder>::lemma_dec_len(s);
                        }
                        let consumed = len0 - buf_len(src);
                        if let Some(sz) = size {
                            if consumed != sz {
                                return Err(DecodeError::BodySizeMismatch);
                            }
                        }
                        Ok(Some(RequestBody::ApiVersions(b)))
                    },
                }
            },
            ApiKeys::DescribeTopicPartitions => {
                if let Some(sz) = size {
                    if buf_len(src) < sz {
                        return Ok(None);
                    }
                }
                let len0 = buf_len(src);
                match DescribeTopicPartitionsRequestBody::decode(src) {
                    Err(e) => Err(e),
                    Ok(None) => Ok(None),
                    Ok(Some(b)) => {
                        proof {
                            <DescribeTopicPartitionsRequestBody as Decoder>::lemma_dec_len(s);
                        }
                        let consumed = len0 - buf_len(src);
                        if let Some(sz) = size {
                            if consumed != sz {
                                return Err(DecodeError::BodySizeMismatch);
                            }
                        }
                        Ok(Some(RequestBody::DescribeTopicPartitions(b)))
                    },
                }
            },
        }
    }
}

} // verus!
