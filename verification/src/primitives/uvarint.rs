//! The unsigned base-128 variable-length integer (LEB128) codec: values up to
//! `u32::MAX`, encoded least-significant 7-bit group first, one continuation
//! bit per byte, one to five bytes in all.

use crate::buf::{buf_advance, buf_byte_at, buf_len, buf_put_u8, bytes_of};
use crate::codec::{DecodeError, Decoder, EncodeError, Encoder, SpecDecode, WireLen};
use vstd::prelude::*;

verus! {

/// An unsigned integer in its variable-length wire representation.
#[derive(Clone, Copy, Debug)]
pub struct UVarint(pub u32);

/// How decoding a `UVarint` can fail.
#[derive(Clone, Copy, Debug, PartialEq, Eq, Structural)]
pub enum UVarintDecodeError {
    /// The encoding holds more than 32 significant bits.
    Overflow,
    /// The bytes ran out before a byte with a clear continuation bit.
    UnexpectedEndOfInput,
}

/// The canonical encoding of `v`: 7 bits per byte, least significant group
/// first, continuation bit set on every byte but the last.
pub open spec fn uvarint_enc(v: u32) -> Seq<u8>
    decreases v,
{
    if v < 0x80 {
        seq![v as u8]
    } else {
        seq![((v % 0x80) + 0x80) as u8] + uvarint_enc(v / 0x80)
    }
}

/// The encoded length of `v`, bucketed by magnitude.
pub open spec fn uvarint_len(v: u32) -> int {
    if v <= 0x7F {
        1
    } else if v <= 0x3FFF {
        2
    } else if v <= 0x1F_FFFF {
        3
    } else if v <= 0x0FFF_FFFF {
        4
    } else {
        5
    }
}

/// 128 to the power `n`.
pub open spec fn pow128(n: nat) -> nat
    decreases n,
{
    if n == 0 {
        1
    } else {
        128 * pow128((n - 1) as nat)
    }
}

/// The value carried by the low 7 bits of the first `n` bytes of `s`,
/// least-significant group first.
pub open spec fn uvarint_val(s: Seq<u8>, n: nat) -> nat
    decreases n,
{
    if n == 0 {
        0
    } else {
        ((s[0] % 0x80) + 0x80 * uvarint_val(s.drop_first(), (n - 1) as nat)) as nat
    }
}

/// What a decoder that has already consumed `i` continuation bytes of `s`
/// finds: byte `i` either terminates the value, continues it, overflows a
/// `u32`, or is missing.
pub open spec fn uvarint_dec_at(s: Seq<u8>, i: nat) -> SpecDecode<u32>
    decreases 5 - i as int,
{
    if i >= s.len() {
        SpecDecode::Fail(DecodeError::Uvarint(UVarintDecodeError::UnexpectedEndOfInput))
    } else {
        let b = s[i as int];
        if i >= 4 && b >= 0x10 {
            SpecDecode::Fail(DecodeError::Uvarint(UVarintDecodeError::Overflow))
        } else if b < 0x80 {
            SpecDecode::Found(uvarint_val(s.take(i as int + 1), (i + 1) as nat) as u32, i as int + 1)
        } else {
            uvarint_dec_at(s, i + 1)
        }
    }
}

/// What decoding a `UVarint` from the front of `s` finds.
pub open spec fn uvarint_dec(s: Seq<u8>) -> SpecDecode<u32> {
    uvarint_dec_at(s, 0)
}

proof fn lemma_pow128_values()
    ensures
        pow128(0) == 1,
        pow128(1) == 0x80,
        pow128(2) == 0x4000,
        pow128(3) == 0x20_0000,
        pow128(4) == 0x1000_0000,
        pow128(5) == 0x8_0000_0000,
{
    assert(pow128(0) == 1);
    assert(pow128(1) == 0x80);
    assert(pow128(2) == 0x4000);
    assert(pow128(3) == 0x20_0000);
    assert(pow128(4) == 0x1000_0000);
    assert(pow128(5) == 0x8_0000_0000);
}

proof fn lemma_uvarint_enc_len(v: u32)
    ensures
        uvarint_enc(v).len() == uvarint_len(v),
        1 <= uvarint_enc(v).len() <= 5,
    decreases v,
{
    if v >= 0x80 {
        lemma_uvarint_enc_len(v / 0x80);
    }
}

/// The accumulated value is bounded by 128 to the number of bytes read.
proof fn lemma_uvarint_val_bound(s: Seq<u8>, n: nat)
    requires
        n <= s.len(),
    ensures
        uvarint_val(s, n) < pow128(n),
    decreases n,
{
    if n > 0 {
        lemma_uvarint_val_bound(s.drop_first(), (n - 1) as nat);
        assert(uvarint_val(s, n) == (s[0] % 0x80) + 0x80 * uvarint_val(
            s.drop_first(),
            (n - 1) as nat,
        ));
        assert((s[0] % 0x80) + 0x80 * uvarint_val(s.drop_first(), (n - 1) as nat) < 128 * pow128(
            (n - 1) as nat,
        )) by (nonlinear_arith)
            requires
                uvarint_val(s.drop_first(), (n - 1) as nat) < pow128((n - 1) as nat),
                s[0] % 0x80 < 128,
        {}
    }
}

/// Appending one more byte adds its 7-bit group at the next power of 128.
proof fn lemma_uvarint_val_push(t: Seq<u8>, b: u8, n: nat)
    requires
        n == t.len(),
    ensures
        uvarint_val(t.push(b), n + 1) == uvarint_val(t, n) + (b % 0x80) * pow128(n),
    decreases n,
{
    if n == 0 {
        assert(pow128(0) == 1);
        assert(t.push(b)[0] == b);
        assert(uvarint_val(t.push(b), 1) == ((b % 0x80) + 0x80 * uvarint_val(
            t.push(b).drop_first(),
            0,
        )) as nat);
        assert((b % 0x80) * 1 == b % 0x80) by (nonlinear_arith);
    } else {
        assert(t.push(b).drop_first() =~= t.drop_first().push(b));
        lemma_uvarint_val_push(t.drop_first(), b, (n - 1) as nat);
        assert(uvarint_val(t.push(b), n + 1) == (t[0] % 0x80) + 0x80 * uvarint_val(
            t.drop_first().push(b),
            n,
        ));
        assert(0x80 * (uvarint_val(t.drop_first(), (n - 1) as nat) + (b % 0x80) * pow128(
            (n - 1) as nat,
        )) == 0x80 * uvarint_val(t.drop_first(), (n - 1) as nat) + (b % 0x80) * (0x80 * pow128(
            (n - 1) as nat,
        ))) by (nonlinear_arith);
        assert(pow128(n) == 0x80 * pow128((n - 1) as nat));
        assert((b % 0x80) * (0x80 * pow128((n - 1) as nat)) == (b % 0x80) * pow128(n))
            by (nonlinear_arith)
            requires
                pow128(n) == 0x80 * pow128((n - 1) as nat),
        {}
    }
}

/// A successful decode consumes between one and five bytes, never more than
/// the buffer holds.
pub(crate) proof fn lemma_uvarint_dec_at_len(s: Seq<u8>, i: nat)
    requires
        i <= 4,
    ensures
        uvarint_dec_at(s, i) matches SpecDecode::Found(v, n) ==> i < n <= s.len() && n <= 5,
    decreases 5 - i,
{
    if i < s.len() {
        let b = s[i as int];
        if !(i >= 4 && b >= 0x10) && b >= 0x80 {
            lemma_uvarint_dec_at_len(s, i + 1);
        }
    }
}

/// Decoding what `uvarint_enc` produced, at position `i` of a value whose
/// earlier groups are already accumulated, finds the combined value.
proof fn lemma_uvarint_dec_enc_at(v: u32, s: Seq<u8>, i: nat)
    requires
        i <= 4,
        i + uvarint_enc(v).len() <= 5,
        i + uvarint_enc(v).len() <= s.len(),
        s.subrange(i as int, i as int + uvarint_enc(v).len() as int) == uvarint_enc(v),
        uvarint_val(s.take(i as int), i) + pow128(i) * v < 0x1_0000_0000,
    ensures
        uvarint_dec_at(s, i) == SpecDecode::<u32>::Found(
            (uvarint_val(s.take(i as int), i) + pow128(i) * v) as u32,
            i as int + uvarint_enc(v).len() as int,
        ),
    decreases v,
{
    lemma_pow128_values();
    lemma_uvarint_val_bound(s.take(i as int), i);
    let acc = uvarint_val(s.take(i as int), i);
    if v < 0x80 {
        let b = s[i as int];
        assert(b == uvarint_enc(v)[0]);
        assert(b == v as u8);
        if i == 4 {
            assert(pow128(4) * v < 0x1_0000_0000);
            assert(v < 0x10) by (nonlinear_arith)
                requires
                    pow128(4) * v < 0x1_0000_0000,
                    pow128(4) == 0x1000_0000,
            {}
        }
        assert(s.take(i as int + 1) =~= s.take(i as int).push(b));
        lemma_uvarint_val_push(s.take(i as int), b, i);
        assert(uvarint_val(s.take(i as int + 1), i + 1) == acc + (b % 0x80) * pow128(i));
        assert((b % 0x80) == v);
        assert(uvarint_enc(v).len() == 1);
        assert((b % 0x80) * pow128(i) == pow128(i) * v) by (nonlinear_arith)
            requires
                b % 0x80 == v,
        {}
        assert(uvarint_val(s.take(i as int + 1), i + 1) == acc + pow128(i) * v);
        assert(uvarint_dec_at(s, i) == SpecDecode::<u32>::Found(
            uvarint_val(s.take(i as int + 1), i + 1) as u32,
            i as int + 1,
        ));
    } else {
        let b = s[i as int];
        assert(b == uvarint_enc(v)[0]);
        assert(uvarint_enc(v) == seq![((v % 0x80) + 0x80) as u8] + uvarint_enc(v / 0x80));
        assert(b == ((v % 0x80) + 0x80) as u8);
        assert(b >= 0x80);
        lemma_uvarint_enc_len(v);
        lemma_uvarint_enc_len(v / 0x80);
        assert(uvarint_enc(v).len() >= 2);
        assert(i <= 3);
        // byte i continues the value, so the decoder steps to byte i + 1
        assert(uvarint_dec_at(s, i) == uvarint_dec_at(s, i + 1));
        assert(s.take(i as int + 1) =~= s.take(i as int).push(b));
        lemma_uvarint_val_push(s.take(i as int), b, i);
        let acc2 = uvarint_val(s.take(i as int + 1), i + 1);
        assert(acc2 == acc + (b % 0x80) * pow128(i));
        assert(b % 0x80 == v % 0x80);
        let l2 = uvarint_enc(v / 0x80).len() as int;
        assert forall|j: int| 0 <= j < l2 implies #[trigger] s.subrange(
            i as int + 1,
            i as int + 1 + l2,
        )[j] == uvarint_enc(v / 0x80)[j] by {
            assert(s.subrange(i as int, i as int + uvarint_enc(v).len() as int)[j + 1]
                == uvarint_enc(v)[j + 1]);
            assert(uvarint_enc(v)[j + 1] == uvarint_enc(v / 0x80)[j]);
        }
        assert(s.subrange(i as int + 1, i as int + 1 + l2) =~= uvarint_enc(v / 0x80));
        assert(acc2 + pow128(i + 1) * (v / 0x80) == acc + pow128(i) * v) by (nonlinear_arith)
            requires
                acc2 == acc + (v % 0x80) * pow128(i),
                pow128(i + 1) == 128 * pow128(i),
                v >= 0x80,
        {}
        lemma_uvarint_dec_enc_at(v / 0x80, s, i + 1);
    }
}

/// Round trip: decoding the encoding of any `u32`, whatever follows it,
/// yields that value back and consumes exactly the encoding.
pub proof fn lemma_uvarint_round_trip(v: u32, rest: Seq<u8>)
    ensures
        uvarint_dec(uvarint_enc(v) + rest) == SpecDecode::<u32>::Found(v, uvarint_enc(v).len() as int),
        uvarint_enc(v).len() == uvarint_len(v),
{
    lemma_uvarint_enc_len(v);
    let s = uvarint_enc(v) + rest;
    assert(s.subrange(0, uvarint_enc(v).len() as int) =~= uvarint_enc(v));
    assert(s.take(0) =~= Seq::<u8>::empty());
    lemma_pow128_values();
    lemma_uvarint_dec_enc_at(v, s, 0);
}

impl View for UVarint {
    type V = u32;

    open spec fn view(&self) -> u32 {
        self.0
    }
}

impl WireLen for UVarint {
    open spec fn wf(&self) -> bool {
        true
    }

    open spec fn enc(&self) -> Seq<u8> {
        uvarint_enc(self.0)
    }

    fn wire_len(&self) -> (r: usize) {
        UVarint::wire_len_of(self.0)
    }
}

impl UVarint {
    /// The encoded length of `num`, computable without encoding.
    pub fn wire_len_of(num: u32) -> (r: usize)
        ensures
            r == uvarint_len(num),
            r == uvarint_enc(num).len(),
    {
        proof {
            lemma_uvarint_enc_len(num);
        }
        if num <= 0x7F {
            1
        } else if num <= 0x3FFF {
            2
        } else if num <= 0x1F_FFFF {
            3
        } else if num <= 0x0FFF_FFFF {
            4
        } else {
            5
        }
    }
}

impl Encoder for UVarint {
    fn encode(&self, dest: &mut bytes::BytesMut) -> (r: Result<(), EncodeError>) {
        let mut value = self.0;
        proof {
            lemma_uvarint_enc_len(self.0);
        }
        while value >= 0x80
            invariant
                bytes_of(*dest) + uvarint_enc(value) == bytes_of(*old(dest)) + uvarint_enc(self.0),
                bytes_of(*dest).len() + uvarint_enc(value).len() <= isize::MAX,
            decreases value,
        {
            proof {
                lemma_uvarint_enc_len(value);
                lemma_uvarint_enc_len(value / 0x80);
            }
            buf_put_u8(dest, ((value % 0x80) + 0x80) as u8);
            assert(bytes_of(*dest) + uvarint_enc(value / 0x80) == bytes_of(*old(dest))
                + uvarint_enc(self.0));
            value = value / 0x80;
        }
        buf_put_u8(dest, value as u8);
        assert(uvarint_enc(value) =~= seq![value as u8]);
        assert(bytes_of(*dest) =~= bytes_of(*old(dest)) + uvarint_enc(self.0));
        Ok(())
    }
}

/// Reads one `UVarint` from the front of `src` without consuming anything,
/// reporting the value and how many bytes its encoding occupies.
pub(crate) fn peek_uvarint(src: &bytes::BytesMut) -> (r: Result<Option<(u32, usize)>, DecodeError>)
    ensures
        match uvarint_dec(bytes_of(*src)) {
            SpecDecode::Found(v, n) => r == Ok::<Option<(u32, usize)>, DecodeError>(
                Some((v, n as usize)),
            ),
            SpecDecode::NeedMore => r == Ok::<Option<(u32, usize)>, DecodeError>(None),
            SpecDecode::Fail(e) => r == Err::<Option<(u32, usize)>, DecodeError>(e),
        },
{
    let ghost s = bytes_of(*src);
    let n = buf_len(src);
    let mut i: usize = 0;
    let mut result: u32 = 0;
    let mut mult: u32 = 1;
    proof {
        lemma_pow128_values();
        assert(s.take(0) =~= Seq::<u8>::empty());
    }
    loop
        invariant
            i <= 4,
            i <= n == s.len(),
            s == bytes_of(*src),
            uvarint_dec(s) == uvarint_dec_at(s, i as nat),
            result == uvarint_val(s.take(i as int), i as nat),
            mult == pow128(i as nat),
            result < mult,
        decreases 5 - i,
    {
        proof {
            lemma_pow128_values();
        }
        if i >= n {
            return Err(DecodeError::Uvarint(UVarintDecodeError::UnexpectedEndOfInput));
        }
        let b = buf_byte_at(src, i);
        if i == 4 && b >= 0x10 {
            return Err(DecodeError::Uvarint(UVarintDecodeError::Overflow));
        }
        proof {
            assert(s.take(i + 1) =~= s.take(i as int).push(b));
            lemma_uvarint_val_push(s.take(i as int), b, i as nat);
            if i == 4 {
                assert((b % 0x80) * pow128(4) == b * 0x1000_0000) by (nonlinear_arith)
                    requires
                        b < 0x10,
                        pow128(4) == 0x1000_0000,
                {}
            } else {
                assert((b % 0x80) * mult < 0x80 * pow128(i as nat)) by (nonlinear_arith)
                    requires
                        b % 0x80 < 0x80,
                        mult == pow128(i as nat),
                        pow128(i as nat) >= 1,
                {}
            }
        }
        let add = ((b % 0x80) as u32) * mult;
        result = result + add;
        if b < 0x80 {
            return Ok(Some((result, i + 1)));
        }
        proof {
            lemma_uvarint_val_bound(s.take(i + 1), (i + 1) as nat);
            assert((0x80 as u32 as nat) * pow128(i as nat) == pow128(i as nat + 1));
            assert(result < 0x80 * pow128(i as nat)) by (nonlinear_arith)
                requires
                    result as nat == uvarint_val(s.take(i + 1), (i + 1) as nat),
                    uvarint_val(s.take(i + 1), (i + 1) as nat) < pow128((i + 1) as nat),
                    pow128((i + 1) as nat) == 0x80 * pow128(i as nat),
            {
                assert(uvarint_val(s.take(i + 1), (i + 1) as nat) < 0x80 * pow128(i as nat));
            }
        }
        i = i + 1;
        mult = mult * 0x80;
    }
}

impl Decoder for UVarint {
    open spec fn dec(s: Seq<u8>) -> SpecDecode<u32> {
        uvarint_dec(s)
    }

    proof fn lemma_dec_len(s: Seq<u8>) {
        lemma_uvarint_dec_at_len(s, 0);
    }

    fn decode(src: &mut bytes::BytesMut) -> (r: Result<Option<Self>, DecodeError>) {
        proof {
            lemma_uvarint_dec_at_len(bytes_of(*src), 0);
        }
        match peek_uvarint(src) {
            Ok(Some((v, n))) => {
                buf_advance(src, n);
                Ok(Some(UVarint(v)))
            },
            Ok(None) => Ok(None),
            Err(e) => Err(e),
        }
    }
}

} // verus!
