//! The full response frame: its declared size, the version-0 header and the
//! body. Encoding checks the declared size against the real encoded length
//! before any byte is written.

use crate::buf::{be32, buf_put_i32, bytes_of, u32_of_i32};
use crate::codec::{EncodeError, Encoder, WireLen};
use crate::response::body::ResponseBody;
use crate::response::headers::ResponseHeaderV0;
use vstd::prelude::*;

verus! {

/// One response: the frame size (excluding its own four bytes), the header
/// and the body.
#[derive(Debug)]
pub struct KafkaResponse {
    pub message_size: i32,
    pub header: ResponseHeaderV0,
    pub body: ResponseBody,
}

impl KafkaResponse {
    pub fn new(message_size: i32, header: ResponseHeaderV0, body: ResponseBody) -> (r: Self)
        ensures
            r.message_size == message_size,
            r.header == header,
            r.body == body,
    {
        Self { message_size, header, body }
    }

    /// Writes the frame: the 4-byte size, the header, the body. A declared
    /// `message_size` that does not equal the encoded length of header plus
    /// body is a programming-invariant violation: nothing is written and the
    /// encode fails.
    pub fn encode(&self, dest: &mut bytes::BytesMut) -> (r: Result<(), EncodeError>)
        requires
            self.wf(),
            bytes_of(*old(dest)).len() + self.enc().len() <= isize::MAX,
        ensures
            r is Ok <==> self.message_size as int == self.header.enc().len()
                + self.body.enc().len(),
            r is Ok ==> bytes_of(*final(dest)) == bytes_of(*old(dest)) + self.enc(),
            r is Err ==> bytes_of(*final(dest)) == bytes_of(*old(dest)),
    {
        let header_len = self.header.wire_len();
        let body_len = self.body.wire_len();
        if self.message_size < 0 {
            return Err(EncodeError::MessageSizeMismatch);
        }
        if self.message_size as usize != header_len + body_len {
            return Err(EncodeError::MessageSizeMismatch);
        }
        buf_put_i32(dest, self.message_size);
        buf_put_i32(dest, self.header.correlation_id);
        let _ = self.body.encode(dest);
        proof {
            assert(bytes_of(*dest) =~= bytes_of(*old(dest)) + self.enc());
        }
        Ok(())
    }
}

impl WireLen for KafkaResponse {
    open spec fn wf(&self) -> bool {
        self.header.wf() && self.body.wf()
    }

    open spec fn enc(&self) -> Seq<u8> {
        be32(u32_of_i32(self.message_size)) + self.header.enc() + self.body.enc()
    }

    fn wire_len(&self) -> (r: usize) {
        4 + self.header.wire_len() + self.body.wire_len()
    }
}

} // verus!
