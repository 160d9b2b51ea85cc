//! The tagged-field placeholder. Only the empty tag buffer (a single `0`
//! byte) is supported: decoding any tagged field is rejected rather than
//! silently misparsed.

use crate::buf::{buf_put_u8, bytes_of};
use crate::codec::{DecodeError, Decoder, EncodeError, Encoder, SpecDecode, WireLen};
use crate::primitives::compact_array::{compact_array_dec, dec_elems, CompactArray};
use crate::primitives::uvarint::uvarint_dec;
use vstd::prelude::*;

verus! {

/// A compact array of tagged fields; only the empty one is ever built or
/// accepted.
pub type TagBuf = CompactArray<Tag>;

/// The empty tag buffer, which encodes as the single byte `0`.
pub fn empty_tagbuf() -> (r: TagBuf)
    ensures
        r.elems() == Seq::<Tag>::empty(),
        r@ == Seq::<u8>::empty(),
        r.wf(),
{
    let r = TagBuf::new();
    proof {
        assert(r@ =~= Seq::<u8>::empty());
    }
    r
}

/// One tagged field. This implementation never inspects its content, and
/// rejects any message that carries one.
#[derive(Debug)]
pub struct Tag {
    pub inner: u8,
}

impl Tag {
    pub fn new(b: u8) -> (r: Self)
        ensures
            r.inner == b,
    {
        Self { inner: b }
    }
}

impl View for Tag {
    type V = u8;

    open spec fn view(&self) -> u8 {
        self.inner
    }
}

impl WireLen for Tag {
    open spec fn wf(&self) -> bool {
        true
    }

    open spec fn enc(&self) -> Seq<u8> {
        seq![self.inner]
    }

    fn wire_len(&self) -> (r: usize) {
        1
    }
}

impl Encoder for Tag {
    fn encode(&self, dest: &mut bytes::BytesMut) -> (r: Result<(), EncodeError>) {
        buf_put_u8(dest, self.inner);
        proof {
            assert(bytes_of(*dest) =~= bytes_of(*old(dest)) + self.enc());
        }
        Ok(())
    }
}

impl Decoder for Tag {
    /// Tagged fields are out of scope: any attempt to decode one fails.
    open spec fn dec(s: Seq<u8>) -> SpecDecode<u8> {
        SpecDecode::Fail(DecodeError::UnsupportedTaggedFields)
    }

    proof fn lemma_dec_len(s: Seq<u8>) {
    }

    fn decode(src: &mut bytes::BytesMut) -> (r: Result<Option<Self>, DecodeError>) {
        Err(DecodeError::UnsupportedTaggedFields)
    }
}

/// A tag buffer only ever decodes as empty: the array length may be zero or
/// one-past-zero, but any actual tagged field fails to decode.
pub proof fn lemma_tagbuf_dec_empty(s: Seq<u8>)
    ensures
        compact_array_dec::<Tag>(s) matches SpecDecode::Found(tv, n) ==> tv.len() == 0,
{
    match uvarint_dec(s) {
        SpecDecode::Found(np1, k) => {
            if np1 != 0 {
                let c = (np1 - 1) as nat;
                if c > 0 {
                    assert(Tag::dec(s.skip(k)) == SpecDecode::<u8>::Fail(
                        DecodeError::UnsupportedTaggedFields,
                    ));
                    assert(dec_elems::<Tag>(s.skip(k), c) is Fail);
                } else {
                    assert(dec_elems::<Tag>(s.skip(k), c) == SpecDecode::<Seq<u8>>::Found(
                        Seq::<u8>::empty(),
                        0,
                    ));
                }
            }
        },
        SpecDecode::NeedMore => {},
        SpecDecode::Fail(_) => {},
    }
}

} // verus!
