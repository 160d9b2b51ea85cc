//! The compact array codec: a sequence of `N` encodable values prefixed by
//! `UVarint(N + 1)`. The empty array is encoded as the single byte `0` (a
//! null array), and decoding accepts that same convention.

use crate::buf::{buf_advance, buf_put_u8, bytes_of};
use crate::codec::{DecodeError, Decoder, EncodeError, Encoder, SpecDecode, WireLen};
use crate::primitives::uvarint::{
    lemma_uvarint_dec_at_len, peek_uvarint, uvarint_dec, uvarint_enc, uvarint_val, UVarint,
};
use vstd::prelude::*;

verus! {

/// A sequence of wire values of one type `T`, length-prefixed on the wire in
/// the protocol's compact (length-plus-one) convention.
#[derive(Debug)]
pub struct CompactArray<T: WireLen> {
    pub inner: Vec<T>,
}

/// The concatenation of the encodings of a sequence of wire values.
pub open spec fn seq_enc<T: WireLen>(s: Seq<T>) -> Seq<u8>
    decreases s.len(),
{
    if s.len() == 0 {
        Seq::<u8>::empty()
    } else {
        s[0].enc() + seq_enc(s.drop_first())
    }
}

proof fn lemma_seq_enc_push<T: WireLen>(s: Seq<T>, x: T)
    ensures
        seq_enc(s.push(x)) == seq_enc(s) + x.enc(),
    decreases s.len(),
{
    if s.len() == 0 {
        assert(s.push(x)[0] == x);
        assert(s.push(x).drop_first() =~= Seq::<T>::empty());
        assert(seq_enc(s.push(x).drop_first()) =~= Seq::<u8>::empty());
        assert(seq_enc(s.push(x)) =~= x.enc() + Seq::<u8>::empty());
        assert(x.enc() + Seq::<u8>::empty() =~= x.enc());
        assert(seq_enc(s) =~= Seq::<u8>::empty());
        assert(seq_enc(s) + x.enc() =~= x.enc());
    } else {
        assert(s.push(x).drop_first() =~= s.drop_first().push(x));
        lemma_seq_enc_push(s.drop_first(), x);
        assert(seq_enc(s.push(x)) == s[0].enc() + (seq_enc(s.drop_first()) + x.enc()));
        assert(s[0].enc() + (seq_enc(s.drop_first()) + x.enc()) =~= (s[0].enc() + seq_enc(
            s.drop_first(),
        )) + x.enc());
    }
}

impl<T: WireLen> CompactArray<T> {
    /// The values this array holds, in order.
    pub open spec fn elems(&self) -> Seq<T> {
        self.inner@
    }

    /// An empty compact array.
    pub fn new() -> (r: Self)
        ensures
            r.elems() == Seq::<T>::empty(),
            r.wf(),
    {
        Self { inner: Vec::new() }
    }

    /// An empty compact array with room reserved for `cap` values.
    pub fn with_capacity(cap: usize) -> (r: Self)
        ensures
            r.elems() == Seq::<T>::empty(),
            r.wf(),
    {
        Self { inner: Vec::with_capacity(cap) }
    }

    /// How many values the array holds.
    pub fn len(&self) -> (r: usize)
        ensures
            r == self.elems().len(),
    {
        self.inner.len()
    }

    /// Appends one value.
    pub fn push(&mut self, val: T)
        ensures
            final(self).elems() == old(self).elems().push(val),
    {
        self.inner.push(val);
    }

    /// Borrows the values for iteration.
    pub fn iter(&self) -> (r: &Vec<T>)
        ensures
            r@ == self.elems(),
    {
        &self.inner
    }
}

impl<T: WireLen> Default for CompactArray<T> {
    fn default() -> (r: Self)
        ensures
            r.elems() == Seq::<T>::empty(),
            r.wf(),
    {
        Self::new()
    }
}

impl<T: WireLen> WireLen for CompactArray<T> {
    open spec fn wf(&self) -> bool {
        &&& self.inner@.len() + 1 <= u32::MAX
        &&& forall|i: int| 0 <= i < self.inner@.len() ==> #[trigger] self.inner@[i].wf()
    }

    open spec fn enc(&self) -> Seq<u8> {
        if self.inner@.len() == 0 {
            seq![0u8]
        } else {
            uvarint_enc((self.inner@.len() + 1) as u32) + seq_enc(self.inner@)
        }
    }

    fn wire_len(&self) -> (r: usize) {
        if self.inner.len() == 0 {
            UVarint::wire_len_of(0)
        } else {
            let mut total = UVarint::wire_len_of((self.inner.len() + 1) as u32);
            let prefix = total;
            let mut i: usize = 0;
            proof {
                assert(self.inner@.take(0) =~= Seq::<T>::empty());
                lemma_seq_enc_take_split(self.inner@, 0);
            }
            while i < self.inner.len()
                invariant
                    i <= self.inner@.len(),
                    self.wf(),
                    self.enc().len() <= usize::MAX,
                    prefix == uvarint_enc((self.inner@.len() + 1) as u32).len(),
                    total == prefix + seq_enc(self.inner@.take(i as int)).len(),
                    self.enc().len() == total + seq_enc(self.inner@.skip(i as int)).len(),
                decreases self.inner@.len() - i,
            {
                proof {
                    lemma_seq_enc_step(self.inner@, i as int);
                }
                let el_len = self.inner[i].wire_len();
                total = total + el_len;
                i = i + 1;
            }
            proof {
                assert(self.inner@.take(self.inner@.len() as int) =~= self.inner@);
                assert(self.inner@.skip(self.inner@.len() as int) =~= Seq::<T>::empty());
            }
            total
        }
    }
}

/// Stepping one element forward moves its encoding from the pending to the
/// accumulated side.
proof fn lemma_seq_enc_step<T: WireLen>(s: Seq<T>, i: int)
    requires
        0 <= i < s.len(),
    ensures
        seq_enc(s.take(i + 1)) == seq_enc(s.take(i)) + s[i].enc(),
        seq_enc(s.skip(i)) == s[i].enc() + seq_enc(s.skip(i + 1)),
{
    assert(s.take(i + 1) =~= s.take(i).push(s[i]));
    lemma_seq_enc_push(s.take(i), s[i]);
    assert(s.skip(i)[0] == s[i]);
    assert(s.skip(i).drop_first() =~= s.skip(i + 1));
    assert(seq_enc(s.skip(i)) == s.skip(i)[0].enc() + seq_enc(s.skip(i).drop_first()));
}

/// The encoding of a sequence splits at any index.
proof fn lemma_seq_enc_take_split<T: WireLen>(s: Seq<T>, i: int)
    requires
        0 <= i <= s.len(),
    ensures
        seq_enc(s).len() == seq_enc(s.take(i)).len() + seq_enc(s.skip(i)).len(),
    decreases s.len() - i,
{
    if i == s.len() {
        assert(s.take(i) =~= s);
        assert(s.skip(i) =~= Seq::<T>::empty());
    } else {
        lemma_seq_enc_step(s, i);
        lemma_seq_enc_take_split(s, i + 1);
    }
}

impl<T: Encoder> Encoder for CompactArray<T> {
    fn encode(&self, dest: &mut bytes::BytesMut) -> (r: Result<(), EncodeError>) {
        if self.inner.len() == 0 {
            buf_put_u8(dest, 0);
            proof {
                assert(bytes_of(*dest) =~= bytes_of(*old(dest)) + self.enc());
            }
            return Ok(());
        }
        let prefix = UVarint((self.inner.len() + 1) as u32);
        let _ = prefix.encode(dest);
        proof {
            assert(self.inner@.take(0) =~= Seq::<T>::empty());
            lemma_seq_enc_take_split(self.inner@, 0);
        }
        let mut i: usize = 0;
        while i < self.inner.len()
            invariant
                i <= self.inner@.len(),
                0 < self.inner@.len(),
                self.wf(),
                bytes_of(*old(dest)).len() + self.enc().len() <= isize::MAX,
                self.enc() == uvarint_enc((self.inner@.len() + 1) as u32) + seq_enc(self.inner@),
                bytes_of(*dest) == bytes_of(*old(dest)) + uvarint_enc(
                    (self.inner@.len() + 1) as u32,
                ) + seq_enc(self.inner@.take(i as int)),
                self.enc().len() == uvarint_enc((self.inner@.len() + 1) as u32).len() + seq_enc(
                    self.inner@.take(i as int),
                ).len() + seq_enc(self.inner@.skip(i as int)).len(),
            decreases self.inner@.len() - i,
        {
            proof {
                lemma_seq_enc_step(self.inner@, i as int);
            }
            let _ = self.inner[i].encode(dest);
            proof {
                assert(bytes_of(*dest) =~= bytes_of(*old(dest)) + uvarint_enc(
                    (self.inner@.len() + 1) as u32,
                ) + seq_enc(self.inner@.take(i as int + 1)));
            }
            i = i + 1;
        }
        proof {
            assert(self.inner@.take(self.inner@.len() as int) =~= self.inner@);
            assert(bytes_of(*dest) =~= bytes_of(*old(dest)) + self.enc());
        }
        Ok(())
    }
}

/// What decoding `count` consecutive values of type `T` from the front of
/// `s` finds.
pub open spec fn dec_elems<T: Decoder>(s: Seq<u8>, count: nat) -> SpecDecode<Seq<T::V>>
    decreases count,
{
    if count == 0 {
        SpecDecode::Found(Seq::<T::V>::empty(), 0)
    } else {
        match T::dec(s) {
            SpecDecode::Found(v, k) => match dec_elems::<T>(s.skip(k), (count - 1) as nat) {
                SpecDecode::Found(vs, m) => SpecDecode::Found(seq![v] + vs, k + m),
                SpecDecode::NeedMore => SpecDecode::NeedMore,
                SpecDecode::Fail(e) => SpecDecode::Fail(e),
            },
            SpecDecode::NeedMore => SpecDecode::NeedMore,
            SpecDecode::Fail(e) => SpecDecode::Fail(e),
        }
    }
}

proof fn lemma_dec_elems_len<T: Decoder>(s: Seq<u8>, count: nat)
    ensures
        dec_elems::<T>(s, count) matches SpecDecode::Found(vs, m) ==> 0 <= m <= s.len()
            && vs.len() == count,
    decreases count,
{
    if count > 0 {
        T::lemma_dec_len(s);
        match T::dec(s) {
            SpecDecode::Found(v, k) => {
                lemma_dec_elems_len::<T>(s.skip(k), (count - 1) as nat);
            },
            SpecDecode::NeedMore => {},
            SpecDecode::Fail(_) => {},
        }
    }
}

/// What decoding a compact array of `T` from the front of `s` finds.
pub open spec fn compact_array_dec<T: Decoder>(s: Seq<u8>) -> SpecDecode<Seq<T::V>> {
    match uvarint_dec(s) {
        SpecDecode::Found(np1, k) => {
            if np1 == 0 {
                SpecDecode::Found(Seq::<T::V>::empty(), k)
            } else {
                match dec_elems::<T>(s.skip(k), (np1 - 1) as nat) {
                    SpecDecode::Found(vs, m) => SpecDecode::Found(vs, k + m),
                    SpecDecode::NeedMore => SpecDecode::NeedMore,
                    SpecDecode::Fail(e) => SpecDecode::Fail(e),
                }
            }
        },
        SpecDecode::NeedMore => SpecDecode::NeedMore,
        SpecDecode::Fail(e) => SpecDecode::Fail(e),
    }
}

impl<T: Decoder> View for CompactArray<T> {
    type V = Seq<T::V>;

    open spec fn view(&self) -> Seq<T::V> {
        Seq::new(self.inner@.len(), |i: int| self.inner@[i]@)
    }
}

impl<T: Decoder> Decoder for CompactArray<T> {
    open spec fn dec(s: Seq<u8>) -> SpecDecode<Seq<T::V>> {
        compact_array_dec::<T>(s)
    }

    proof fn lemma_dec_len(s: Seq<u8>) {
        lemma_uvarint_dec_at_len(s, 0);
        match uvarint_dec(s) {
            SpecDecode::Found(np1, k) => {
                if np1 != 0 {
                    lemma_dec_elems_len::<T>(s.skip(k), (np1 - 1) as nat);
                }
            },
            SpecDecode::NeedMore => {},
            SpecDecode::Fail(_) => {},
        }
    }

    /// Consumes as it reads, so on "need more data" or failure part of the
    /// array's bytes may already be gone. The frame decoder only ever runs
    /// this on a copy of one complete frame, which it discards on any
    /// outcome but success, so nothing is lost.
    #[verifier::loop_isolation(false)]
    fn decode(src: &mut bytes::BytesMut) -> (r: Result<Option<Self>, DecodeError>) {
        let ghost s = bytes_of(*src);
        match peek_uvarint(src) {
            Err(e) => Err(e),
            Ok(None) => Ok(None),
            Ok(Some((np1, k))) => {
                proof {
                    lemma_uvarint_dec_at_len(s, 0);
                }
                buf_advance(src, k);
                if np1 == 0 {
                    let me = CompactArray::<T>::new();
                    proof {
                        assert(me@ =~= Seq::<T::V>::empty());
                    }
                    return Ok(Some(me));
                }
                let count = np1 - 1;
                let ghost s0 = s.skip(k as int);
                let ghost mut c: int = 0;
                let mut me = CompactArray::<T>::with_capacity(count as usize);
                let mut j: u32 = 0;
                proof {
                    assert(me@ =~= Seq::<T::V>::empty());
                    assert(s0.skip(0) =~= s0);
                    if dec_elems::<T>(s0, count as nat) is Found {
                        let vs0 = dec_elems::<T>(s0, count as nat)->Found_0;
                        assert(me@ + vs0 =~= vs0);
                    }
                }
                while j < count
                    invariant
                        j <= count,
                        me.elems().len() == j,
                        me@.len() == j,
                        forall|i: int| 0 <= i < me.elems().len()
                            ==> #[trigger] me.elems()[i].wf(),
                        0 <= c <= s0.len(),
                        bytes_of(*src) == s0.skip(c),
                        match dec_elems::<T>(s0.skip(c), (count - j) as nat) {
                            SpecDecode::Found(vs, m) => dec_elems::<T>(s0, count as nat)
                                == SpecDecode::<Seq<T::V>>::Found(me@ + vs, c + m),
                            SpecDecode::NeedMore => dec_elems::<T>(s0, count as nat)
                                is NeedMore,
                            SpecDecode::Fail(e) => dec_elems::<T>(s0, count as nat)
                                == SpecDecode::<Seq<T::V>>::Fail(e),
                        },
                    decreases count - j,
                {
                    let ghost cur = bytes_of(*src);
                    proof {
                        T::lemma_dec_len(cur);
                    }
                    match T::decode(src) {
                        Err(e) => {
                            proof {
                                assert(T::dec(cur) == SpecDecode::<T::V>::Fail(e));
                                assert(dec_elems::<T>(s0.skip(c), (count - j) as nat)
                                    == SpecDecode::<Seq<T::V>>::Fail(e));
                                assert(dec_elems::<T>(s0, count as nat)
                                    == SpecDecode::<Seq<T::V>>::Fail(e));
                            }
                            return Err(e);
                        },
                        Ok(None) => {
                            proof {
                                assert(T::dec(cur) is NeedMore);
                                assert(dec_elems::<T>(s0.skip(c), (count - j) as nat)
                                    is NeedMore);
                                assert(dec_elems::<T>(s0, count as nat) is NeedMore);
                            }
                            return Ok(None);
                        },
                        Ok(Some(x)) => {
                            proof {
                                let k2 = T::dec(cur)->Found_1;
                                assert(cur.skip(k2) =~= s0.skip(c + k2));
                                match dec_elems::<T>(cur.skip(k2), (count - j - 1) as nat) {
                                    SpecDecode::Found(vs2, m2) => {
                                        assert(dec_elems::<T>(cur, (count - j) as nat)
                                            == SpecDecode::<Seq<T::V>>::Found(
                                            seq![x@] + vs2,
                                            k2 + m2,
                                        ));
                                        assert(me@ + (seq![x@] + vs2) =~= me@.push(x@) + vs2);
                                    },
                                    SpecDecode::NeedMore => {},
                                    SpecDecode::Fail(_) => {},
                                }
                                c = c + k2;
                            }
                            let ghost mv = me@;
                            me.push(x);
                            proof {
                                assert(me@ =~= mv.push(x@));
                            }
                            j = j + 1;
                        },
                    }
                }
                proof {
                    assert(dec_elems::<T>(s0.skip(c), 0)
                        == SpecDecode::<Seq<T::V>>::Found(Seq::<T::V>::empty(), 0));
                    assert(me@ + Seq::<T::V>::empty() =~= me@);
                    assert(s0.skip(c) =~= s.skip(k + c));
                }
                Ok(Some(me))
            },
        }
    }
}

/// An empty compact array encodes to exactly one zero byte.
pub proof fn lemma_compact_array_empty_enc<T: WireLen>(a: &CompactArray<T>)
    requires
        a.elems().len() == 0,
    ensures
        a.enc() == seq![0u8],
{
}

/// A buffer starting with the byte `0` decodes to the empty array,
/// consuming exactly that one byte.
pub proof fn lemma_compact_array_empty_dec<T: Decoder>(s: Seq<u8>)
    requires
        s.len() >= 1,
        s[0] == 0,
    ensures
        compact_array_dec::<T>(s) == SpecDecode::<Seq<T::V>>::Found(Seq::<T::V>::empty(), 1),
{
    assert(s.take(1)[0] == 0);
    assert(uvarint_val(s.take(1), 1) == ((s.take(1)[0] % 0x80) + 0x80 * uvarint_val(
        s.take(1).drop_first(),
        0,
    )) as nat);
}

} // verus!
