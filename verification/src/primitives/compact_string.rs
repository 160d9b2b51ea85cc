//! The compact string codec: length encoded as `UVarint(byte_len + 1)`, a
//! prefix of `0` denoting the empty string, followed by that many UTF-8 bytes.

use crate::buf::{buf_advance, buf_copy_range, buf_len, buf_put_u8, bytes_of, string_from_utf8};
use crate::codec::{DecodeError, Decoder, EncodeError, Encoder, SpecDecode, WireLen};
use crate::primitives::uvarint::{peek_uvarint, uvarint_dec, uvarint_enc, UVarint};
use crate::primitives::MAX_STRING_SIZE;
use vstd::prelude::*;
use vstd::string::StrSliceExecFns;
use vstd::utf8::{decode_utf8, encode_utf8, valid_utf8};

verus! {

/// A length-prefixed UTF-8 string in the protocol's compact encoding.
#[derive(Debug)]
pub struct CompactString(pub String);

impl CompactString {
    /// The empty compact string, which encodes as the single byte `0`.
    pub fn new() -> (r: Self)
        ensures
            r@ == Seq::<char>::empty(),
            r.wf(),
    {
        CompactString(String::new())
    }

    /// Wraps a string whose UTF-8 form fits under the supported maximum;
    /// rejects anything longer.
    pub fn from_string(s: String) -> (r: Option<Self>)
        ensures
            r is Some <==> encode_utf8(s@).len() + 1 < MAX_STRING_SIZE,
            r matches Some(c) ==> c@ == s@ && c.wf(),
    {
        let bv = s.as_str().as_bytes_vec();
        if bv.len() < MAX_STRING_SIZE - 1 {
            Some(CompactString(s))
        } else {
            None
        }
    }
}

impl Default for CompactString {
    fn default() -> (r: Self)
        ensures
            r@ == Seq::<char>::empty(),
            r.wf(),
    {
        Self::new()
    }
}

impl Clone for CompactString {
    fn clone(&self) -> (res: Self)
        ensures
            res@ == self@,
    {
        CompactString(self.0.clone())
    }
}

impl View for CompactString {
    type V = Seq<char>;

    open spec fn view(&self) -> Seq<char> {
        self.0@
    }
}

impl WireLen for CompactString {
    open spec fn wf(&self) -> bool {
        encode_utf8(self.0@).len() + 1 < MAX_STRING_SIZE
    }

    open spec fn enc(&self) -> Seq<u8> {
        uvarint_enc((encode_utf8(self.0@).len() + 1) as u32) + encode_utf8(self.0@)
    }

    fn wire_len(&self) -> (r: usize) {
        let n = self.0.as_str().len();
        UVarint::wire_len_of((n + 1) as u32) + n
    }
}

impl Encoder for CompactString {
    fn encode(&self, dest: &mut bytes::BytesMut) -> (r: Result<(), EncodeError>) {
        let bv = self.0.as_str().as_bytes_vec();
        let prefix = UVarint((bv.len() + 1) as u32);
        let _ = prefix.encode(dest);
        let mut i: usize = 0;
        while i < bv.len()
            invariant
                i <= bv.len(),
                bv@ == encode_utf8(self.0@),
                bytes_of(*dest) == bytes_of(*old(dest)) + uvarint_enc(
                    (encode_utf8(self.0@).len() + 1) as u32,
                ) + bv@.take(i as int),
                bytes_of(*dest).len() + (bv.len() - i) <= isize::MAX,
            decreases bv.len() - i,
        {
            proof {
                assert(bv@.take(i as int + 1) =~= bv@.take(i as int).push(bv@[i as int]));
            }
            buf_put_u8(dest, bv[i]);
            i = i + 1;
        }
        proof {
            assert(bv@.take(bv@.len() as int) =~= bv@);
            assert(bytes_of(*dest) =~= bytes_of(*old(dest)) + self.enc());
        }
        Ok(())
    }
}

/// What decoding a compact string from the front of `s` finds: a `UVarint`
/// length-plus-one followed by that many bytes of UTF-8.
pub open spec fn compact_string_dec(s: Seq<u8>) -> SpecDecode<Seq<char>> {
    match uvarint_dec(s) {
        SpecDecode::Found(np1, k) => {
            if np1 == 0 {
                SpecDecode::Found(Seq::<char>::empty(), k)
            } else if np1 >= MAX_STRING_SIZE {
                SpecDecode::Fail(DecodeError::StringTooLong)
            } else {
                let len = np1 - 1;
                if s.len() < k + len {
                    SpecDecode::NeedMore
                } else {
                    let payload = s.subrange(k, k + len);
                    if valid_utf8(payload) {
                        SpecDecode::Found(decode_utf8(payload), k + len)
                    } else {
                        SpecDecode::Fail(DecodeError::InvalidUtf8)
                    }
                }
            }
        },
        SpecDecode::NeedMore => SpecDecode::NeedMore,
        SpecDecode::Fail(e) => SpecDecode::Fail(e),
    }
}

impl Decoder for CompactString {
    open spec fn dec(s: Seq<u8>) -> SpecDecode<Seq<char>> {
        compact_string_dec(s)
    }

    proof fn lemma_dec_len(s: Seq<u8>) {
        <UVarint as Decoder>::lemma_dec_len(s);
    }

    /// Reads by peeking only, so that on "need more data" and on every
    /// failure the buffer is left byte-for-byte as it was.
    fn decode(src: &mut bytes::BytesMut) -> (r: Result<Option<Self>, DecodeError>)
        ensures
            r is Err ==> bytes_of(*final(src)) == bytes_of(*old(src)),
            r == Ok::<Option<CompactString>, DecodeError>(None) ==> bytes_of(*final(src))
                == bytes_of(*old(src)),
    {
        let ghost s = bytes_of(*src);
        match peek_uvarint(src) {
            Err(e) => Err(e),
            Ok(None) => Ok(None),
            Ok(Some((np1, k))) => {
                proof {
                    crate::primitives::uvarint::lemma_uvarint_dec_at_len(s, 0);
                }
                if np1 == 0 {
                    buf_advance(src, k);
                    return Ok(Some(CompactString::new()));
                }
                if np1 >= MAX_STRING_SIZE as u32 {
                    return Err(DecodeError::StringTooLong);
                }
                let len = (np1 - 1) as usize;
                if buf_len(src) < k + len {
                    return Ok(None);
                }
                let payload = buf_copy_range(src, k, k + len);
                match string_from_utf8(payload) {
                    None => Err(DecodeError::InvalidUtf8),
                    Some(st) => {
                        proof {
                            vstd::utf8::decode_utf8_encode_utf8(
                                s.subrange(k as int, k as int + len as int),
                            );
                        }
                        buf_advance(src, k + len);
                        Ok(Some(CompactString(st)))
                    },
                }
            },
        }
    }
}

} // verus!
