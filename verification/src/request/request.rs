//! The frame decoder: reassembles one typed request from a growing byte
//! buffer. A buffer that does not yet hold the whole declared frame is left
//! untouched, so the decode is re-entrant; only a successfully decoded frame
//! is consumed, and exactly its `4 + message_size` bytes.

use crate::buf::{
    be16, be32, be32_val, buf_advance, buf_byte_at, buf_len, buf_sub, bytes_of, read_u32_at,
    u32_of_i32,
};
use crate::codec::{DecodeError, Decoder, SpecDecode, WireLen, MAX_MESSAGE_SIZE};
use crate::request::body::{request_body_dec_by_key, RequestBody, RequestBodyView};
use crate::request::header::{request_header_dec, RequestHeaderV2, RequestHeaderV2View};
use vstd::prelude::*;

verus! {

/// The mathematical content of a decoded request frame.
pub ghost struct KafkaRequestView {
    pub message_size: i32,
    pub header: RequestHeaderV2View,
    pub body: RequestBodyView,
}

/// One fully decoded request: the frame size, the header and the body.
#[derive(Debug)]
pub struct KafkaRequest {
    pub message_size: i32,
    pub header: RequestHeaderV2,
    pub body: RequestBody,
}

impl KafkaRequest {
    pub fn new(message_size: i32, header: RequestHeaderV2, body: RequestBody) -> (r: Self)
        ensures
            r.message_size == message_size,
            r.header == header,
            r.body == body,
    {
        Self { message_size, header, body }
    }
}

impl View for KafkaRequest {
    type V = KafkaRequestView;

    open spec fn view(&self) -> KafkaRequestView {
        KafkaRequestView {
            message_size: self.message_size,
            header: self.header@,
            body: self.body@,
        }
    }
}

impl WireLen for KafkaRequest {
    open spec fn wf(&self) -> bool {
        self.header.wf() && self.body.wf()
    }

    open spec fn enc(&self) -> Seq<u8> {
        be32(u32_of_i32(self.message_size)) + self.header.enc() + self.body.enc()
    }

    fn wire_len(&self) -> (r: usize) {
        4 + self.header.wire_len() + self.body.wire_len()
    }
}

/// What decoding one frame from the front of `s` finds. Fewer than four
/// buffered bytes, or fewer than the frame declares, need more data; a
/// negative or oversized declared length is a fatal framing error; otherwise
/// header and body are decoded from the complete frame, which they must fill
/// exactly.
pub open spec fn kafka_request_dec(s: Seq<u8>) -> SpecDecode<KafkaRequestView> {
    if s.len() < 4 {
        SpecDecode::NeedMore
    } else if s[0] >= 0x80 {
        SpecDecode::Fail(DecodeError::NegativeMessageSize)
    } else {
        let ms = be32_val(s[0], s[1], s[2], s[3]) as int;
        if ms > MAX_MESSAGE_SIZE {
            SpecDecode::Fail(DecodeError::MessageTooLarge)
        } else if s.len() < 4 + ms {
            SpecDecode::NeedMore
        } else {
            let frame = s.subrange(4, 4 + ms);
            match request_header_dec(frame) {
                SpecDecode::NeedMore => SpecDecode::Fail(DecodeError::TruncatedMessage),
                SpecDecode::Fail(e) => SpecDecode::Fail(e),
                SpecDecode::Found(hv, hn) => {
                    match request_body_dec_by_key(
                        hv.request_api_key,
                        frame.skip(hn),
                        Some(ms - hn),
                    ) {
                        SpecDecode::NeedMore => SpecDecode::Fail(DecodeError::TruncatedMessage),
                        SpecDecode::Fail(e) => SpecDecode::Fail(e),
                        SpecDecode::Found(bv, bn) => SpecDecode::Found(
                            KafkaRequestView { message_size: ms as i32, header: hv, body: bv },
                            4 + ms,
                        ),
                    }
                },
            }
        }
    }
}

impl Decoder for KafkaRequest {
    open spec fn dec(s: Seq<u8>) -> SpecDecode<KafkaRequestView> {
        kafka_request_dec(s)
    }

    proof fn lemma_dec_len(s: Seq<u8>) {
    }

    fn decode(src: &mut bytes::BytesMut) -> (r: Result<Option<Self>, DecodeError>)
        ensures
            r is Err ==> bytes_of(*final(src)) == bytes_of(*old(src)),
            r == Ok::<Option<KafkaRequest>, DecodeError>(None) ==> bytes_of(*final(src))
                == bytes_of(*old(src)),
    {
        let ghost s = bytes_of(*src);
        let n = buf_len(src);
        if n < 4 {
            return Ok(None);
        }
        let b0 = buf_byte_at(src, 0);
        if b0 >= 0x80 {
            return Err(DecodeError::NegativeMessageSize);
        }
        let ms_u = read_u32_at(src, 0);
        let ms = ms_u as usize;
        if ms > MAX_MESSAGE_SIZE {
            return Err(DecodeError::MessageTooLarge);
        }
        if n < 4 + ms {
            return Ok(None);
        }
        let mut frame = buf_sub(src, 4, 4 + ms);
        let ghost fs = bytes_of(frame);
        let header = match RequestHeaderV2::decode(&mut frame) {
            Err(e) => {
                return Err(e);
            },
            Ok(None) => {
                return Err(DecodeError::TruncatedMessage);
            },
            Ok(Some(h)) => h,
        };
        proof {
            <RequestHeaderV2 as Decoder>::lemma_dec_len(fs);
        }
        let body_size = buf_len(&frame);
        let body = match RequestBody::decode_by_key(
            &header.request_api_key,
            &mut frame,
            Some(body_size),
        ) {
            Err(e) => {
                return Err(e);
            },
            Ok(None) => {
                return Err(DecodeError::TruncatedMessage);
            },
            Ok(Some(b)) => b,
        };
        buf_advance(src, 4 + ms);
        Ok(Some(KafkaRequest::new(ms as i32, header, body)))
    }
}

/// A buffer holding less than one whole frame — fewer than the four prefix
/// bytes, or a well-formed prefix declaring more bytes than are buffered —
/// decodes to "need more data", never to a value or an error.
pub proof fn lemma_frame_decode_needs_more(s: Seq<u8>)
    requires
        s.len() < 4 || (s[0] < 0x80 && be32_val(s[0], s[1], s[2], s[3]) <= MAX_MESSAGE_SIZE
            && s.len() < 4 + be32_val(s[0], s[1], s[2], s[3])),
    ensures
        kafka_request_dec(s) is NeedMore,
{
}

} // verus!
