//! The nullable string codec: a 2-byte signed big-endian length prefix, `-1`
//! denoting null, positive lengths followed by that many UTF-8 bytes. A
//! length of `0` is disallowed and rejected as malformed.

use crate::buf::{
    be16, buf_advance, buf_copy_range, buf_len, buf_byte_at, bytes_of, string_from_utf8,
};
use crate::codec::{DecodeError, Decoder, SpecDecode, WireLen};
use crate::primitives::MAX_STRING_SIZE;
use vstd::prelude::*;
use vstd::string::StrSliceExecFns;
use vstd::utf8::{decode_utf8, encode_utf8, valid_utf8};

verus! {

/// A possibly-null length-prefixed UTF-8 string.
#[derive(Debug)]
pub struct NullableString {
    pub inner: Option<String>,
}

impl View for NullableString {
    type V = Option<Seq<char>>;

    open spec fn view(&self) -> Option<Seq<char>> {
        if self.inner is Some {
            Some((self.inner->Some_0)@)
        } else {
            None
        }
    }
}

impl NullableString {
    /// The largest byte length the 2-byte signed prefix can carry.
    pub const MAX: usize = 0x7FFF;

    /// Creates a `NullableString` from a string slice: the null variant if the
    /// argument is empty or does not fit the 2-byte signed length prefix.
    pub fn from_non_empty_str(value: &str) -> (r: Self)
        ensures
            r@ == (if value@.len() > 0 && encode_utf8(value@).len() < 0x7FFF {
                Some(value@)
            } else {
                None::<Seq<char>>
            }),
            r.wf(),
    {
        let bv = value.as_bytes_vec();
        let inner = if !value.is_empty() && bv.len() < Self::MAX {
            Some(value.to_owned())
        } else {
            None
        };
        Self { inner }
    }

    /// The null string, encoded as the length prefix `-1` and nothing more.
    pub fn null() -> (r: Self)
        ensures
            r@ is None,
            r.wf(),
    {
        Self { inner: None }
    }
}

impl WireLen for NullableString {
    open spec fn wf(&self) -> bool {
        if self.inner is Some {
            let s = (self.inner->Some_0)@;
            s.len() > 0 && 0 < encode_utf8(s).len() < 0x7FFF
        } else {
            true
        }
    }

    open spec fn enc(&self) -> Seq<u8> {
        if self.inner is Some {
            let s = (self.inner->Some_0)@;
            be16(encode_utf8(s).len() as u16) + encode_utf8(s)
        } else {
            seq![0xFFu8, 0xFFu8]
        }
    }

    fn wire_len(&self) -> (r: usize) {
        match &self.inner {
            Some(s) => 2 + s.as_str().len(),
            None => 2,
        }
    }
}

/// What decoding a nullable string from the front of `s` finds.
pub open spec fn nullable_string_dec(s: Seq<u8>) -> SpecDecode<Option<Seq<char>>> {
    if s.len() < 2 {
        SpecDecode::NeedMore
    } else {
        let b0 = s[0];
        let b1 = s[1];
        if b0 == 0xFF && b1 == 0xFF {
            SpecDecode::Found(None, 2)
        } else if b0 >= 0x80 {
            SpecDecode::Fail(DecodeError::NegativeStringLength)
        } else {
            let len = b0 * 0x100 + b1;
            if len == 0 {
                SpecDecode::Fail(DecodeError::ZeroLengthNullableString)
            } else if len >= MAX_STRING_SIZE {
                SpecDecode::Fail(DecodeError::StringTooLong)
            } else if s.len() < 2 + len {
                SpecDecode::NeedMore
            } else {
                let payload = s.subrange(2, 2 + len);
                if valid_utf8(payload) {
                    SpecDecode::Found(Some(decode_utf8(payload)), 2 + len)
                } else {
                    SpecDecode::Fail(DecodeError::InvalidUtf8)
                }
            }
        }
    }
}

impl Decoder for NullableString {
    open spec fn dec(s: Seq<u8>) -> SpecDecode<Option<Seq<char>>> {
        nullable_string_dec(s)
    }

    proof fn lemma_dec_len(s: Seq<u8>) {
    }

    /// Reads by peeking only, so that on "need more data" and on every
    /// failure the buffer is left byte-for-byte as it was.
    fn decode(src: &mut bytes::BytesMut) -> (r: Result<Option<Self>, DecodeError>)
        ensures
            r is Err ==> bytes_of(*final(src)) == bytes_of(*old(src)),
            r == Ok::<Option<NullableString>, DecodeError>(None) ==> bytes_of(*final(src))
                == bytes_of(*old(src)),
    {
        let ghost s = bytes_of(*src);
        let n = buf_len(src);
        if n < 2 {
            return Ok(None);
        }
        let b0 = buf_byte_at(src, 0);
        let b1 = buf_byte_at(src, 1);
        if b0 == 0xFF && b1 == 0xFF {
            buf_advance(src, 2);
            return Ok(Some(NullableString::null()));
        }
        if b0 >= 0x80 {
            return Err(DecodeError::NegativeStringLength);
        }
        let len: usize = (b0 as usize) * 0x100 + (b1 as usize);
        if len == 0 {
            return Err(DecodeError::ZeroLengthNullableString);
        }
        if len >= MAX_STRING_SIZE {
            return Err(DecodeError::StringTooLong);
        }
        if n < 2 + len {
            return Ok(None);
        }
        let payload = buf_copy_range(src, 2, 2 + len);
        match string_from_utf8(payload) {
            None => Err(DecodeError::InvalidUtf8),
            Some(st) => {
                proof {
                    vstd::utf8::decode_utf8_encode_utf8(s.subrange(2, 2 + len as int));
                }
                buf_advance(src, 2 + len);
                Ok(Some(NullableString { inner: Some(st) }))
            },
        }
    }
}

/// A length prefix of `-1` decodes to the null string and consumes exactly
/// the two prefix bytes, whatever follows them.
pub proof fn lemma_nullable_string_null_dec(s: Seq<u8>)
    requires
        s.len() >= 2,
        s[0] == 0xFF,
        s[1] == 0xFF,
    ensures
        nullable_string_dec(s) == SpecDecode::<Option<Seq<char>>>::Found(None, 2),
{
}

/// A length prefix of `0` is rejected as malformed, never read as an empty
/// string.
pub proof fn lemma_nullable_string_zero_rejected(s: Seq<u8>)
    requires
        s.len() >= 2,
        s[0] == 0,
        s[1] == 0,
    ensures
        nullable_string_dec(s) == SpecDecode::<Option<Seq<char>>>::Fail(
            DecodeError::ZeroLengthNullableString,
        ),
{
}

} // verus!
