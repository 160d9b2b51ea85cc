//! The byte buffer every codec works on, together with its mathematical view.
//!
//! The buffer type itself comes from the `bytes` crate; each operation the
//! codecs rely on is wrapped in a small trusted function whose contract states,
//! over [`bytes_of`], what the crate documents for that operation.

use bytes::Buf;
use bytes::BufMut;
use vstd::prelude::*;

verus! {

#[verifier::external_type_specification]
#[verifier::external_body]
pub struct ExBytesMut(bytes::BytesMut);

/// The sequence of readable bytes a `BytesMut` currently holds.
pub uninterp spec fn bytes_of(b: bytes::BytesMut) -> Seq<u8>;

/// Relies on `BytesMut::new`: a freshly created buffer holds no bytes.
#[verifier::external_body]
pub fn buf_new() -> (r: bytes::BytesMut)
    ensures
        bytes_of(r) == Seq::<u8>::empty(),
{
    bytes::BytesMut::new()
}

/// Relies on `BytesMut::len`: the number of bytes the buffer holds.
#[verifier::external_body]
pub fn buf_len(b: &bytes::BytesMut) -> (r: usize)
    ensures
        r == bytes_of(*b).len(),
{
    b.len()
}

/// Relies on `BytesMut`'s `Deref<Target = [u8]>`: reads one byte without
/// consuming anything.
#[verifier::external_body]
pub fn buf_byte_at(b: &bytes::BytesMut, i: usize) -> (r: u8)
    requires
        i < bytes_of(*b).len(),
    ensures
        r == bytes_of(*b)[i as int],
{
    b[i]
}

/// Relies on `Buf::advance`: discards the first `n` bytes of the buffer.
#[verifier::external_body]
pub fn buf_advance(b: &mut bytes::BytesMut, n: usize)
    requires
        n <= bytes_of(*old(b)).len(),
    ensures
        bytes_of(*final(b)) == bytes_of(*old(b)).skip(n as int),
{
    b.advance(n);
}

/// Relies on `BytesMut::split_to`: afterwards the returned buffer holds the
/// first `n` bytes and `b` holds the rest.
#[verifier::external_body]
pub fn buf_split_to(b: &mut bytes::BytesMut, n: usize) -> (r: bytes::BytesMut)
    requires
        n <= bytes_of(*old(b)).len(),
    ensures
        bytes_of(r) == bytes_of(*old(b)).take(n as int),
        bytes_of(*final(b)) == bytes_of(*old(b)).skip(n as int),
{
    b.split_to(n)
}

/// Relies on `BufMut::put_u8` for `BytesMut`: appends one byte, growing the
/// buffer as needed.
#[verifier::external_body]
pub fn buf_put_u8(b: &mut bytes::BytesMut, v: u8)
    requires
        bytes_of(*old(b)).len() + 1 <= isize::MAX,
    ensures
        bytes_of(*final(b)) == bytes_of(*old(b)).push(v),
{
    b.put_u8(v);
}

/// Relies on `BufMut::put_u16` for `BytesMut`: appends the two big-endian
/// bytes of `v`.
#[verifier::external_body]
pub fn buf_put_u16(b: &mut bytes::BytesMut, v: u16)
    requires
        bytes_of(*old(b)).len() + 2 <= isize::MAX,
    ensures
        bytes_of(*final(b)) == bytes_of(*old(b)) + be16(v),
{
    b.put_u16(v);
}

/// Relies on `BufMut::put_u32` for `BytesMut`: appends the four big-endian
/// bytes of `v`.
#[verifier::external_body]
pub fn buf_put_u32(b: &mut bytes::BytesMut, v: u32)
    requires
        bytes_of(*old(b)).len() + 4 <= isize::MAX,
    ensures
        bytes_of(*final(b)) == bytes_of(*old(b)) + be32(v),
{
    b.put_u32(v);
}

/// Relies on `BufMut::put_i32` for `BytesMut`: appends the four big-endian
/// bytes of the two's-complement representation of `v`.
#[verifier::external_body]
pub fn buf_put_i32(b: &mut bytes::BytesMut, v: i32)
    requires
        bytes_of(*old(b)).len() + 4 <= isize::MAX,
    ensures
        bytes_of(*final(b)) == bytes_of(*old(b)) + be32(u32_of_i32(v)),
{
    b.put_i32(v);
}

/// Relies on `String::from_utf8`: succeeds exactly on valid UTF-8, and the
/// resulting string holds the characters those bytes encode.
#[verifier::external_body]
pub fn string_from_utf8(v: Vec<u8>) -> (r: Option<String>)
    ensures
        r is Some <==> vstd::utf8::valid_utf8(v@),
        r matches Some(s) ==> s@ == vstd::utf8::decode_utf8(v@),
{
    match String::from_utf8(v) {
        Ok(s) => Some(s),
        Err(_) => None,
    }
}

/// Copies the bytes at positions `from..to` out of the buffer without
/// consuming anything.
pub fn buf_copy_range(b: &bytes::BytesMut, from: usize, to: usize) -> (r: Vec<u8>)
    requires
        from <= to,
        to <= bytes_of(*b).len(),
    ensures
        r@ == bytes_of(*b).subrange(from as int, to as int),
{
    let mut r: Vec<u8> = Vec::new();
    let mut i: usize = from;
    while i < to
        invariant
            from <= i <= to,
            to <= bytes_of(*b).len(),
            r@ == bytes_of(*b).subrange(from as int, i as int),
        decreases to - i,
    {
        let x = buf_byte_at(b, i);
        r.push(x);
        proof {
            assert(bytes_of(*b).subrange(from as int, i as int + 1) =~= bytes_of(*b).subrange(
                from as int,
                i as int,
            ).push(bytes_of(*b)[i as int]));
        }
        i = i + 1;
    }
    r
}

/// Copies the bytes at positions `from..to` into a fresh buffer, leaving the
/// source untouched.
pub fn buf_sub(b: &bytes::BytesMut, from: usize, to: usize) -> (r: bytes::BytesMut)
    requires
        from <= to,
        to <= bytes_of(*b).len(),
        to - from <= isize::MAX,
    ensures
        bytes_of(r) == bytes_of(*b).subrange(from as int, to as int),
{
    let mut r = buf_new();
    let mut i: usize = from;
    while i < to
        invariant
            from <= i <= to,
            to <= bytes_of(*b).len(),
            to - from <= isize::MAX,
            bytes_of(r) == bytes_of(*b).subrange(from as int, i as int),
        decreases to - i,
    {
        let x = buf_byte_at(b, i);
        proof {
            assert(bytes_of(r).len() <= i - from);
            assert(bytes_of(*b).subrange(from as int, i as int + 1) =~= bytes_of(*b).subrange(
                from as int,
                i as int,
            ).push(bytes_of(*b)[i as int]));
        }
        buf_put_u8(&mut r, x);
        i = i + 1;
    }
    r
}

/// Reads the big-endian `u16` at positions `i..i + 2` without consuming
/// anything.
pub fn read_u16_at(b: &bytes::BytesMut, i: usize) -> (r: u16)
    requires
        i + 2 <= bytes_of(*b).len(),
        bytes_of(*b).len() <= usize::MAX,
    ensures
        r == be16_val(bytes_of(*b)[i as int], bytes_of(*b)[i as int + 1]),
{
    let b0 = buf_byte_at(b, i);
    let b1 = buf_byte_at(b, i + 1);
    (b0 as u16) * 0x100 + (b1 as u16)
}

/// Reads the big-endian `i16` at positions `i..i + 2` without consuming
/// anything.
pub fn read_i16_at(b: &bytes::BytesMut, i: usize) -> (r: i16)
    requires
        i + 2 <= bytes_of(*b).len(),
        bytes_of(*b).len() <= usize::MAX,
    ensures
        r == i16_of_u16(be16_val(bytes_of(*b)[i as int], bytes_of(*b)[i as int + 1])),
{
    let v = read_u16_at(b, i);
    if v < 0x8000 {
        v as i16
    } else {
        ((v as i32) - 0x1_0000) as i16
    }
}

/// Reads the big-endian `u32` at positions `i..i + 4` without consuming
/// anything.
pub fn read_u32_at(b: &bytes::BytesMut, i: usize) -> (r: u32)
    requires
        i + 4 <= bytes_of(*b).len(),
        bytes_of(*b).len() <= usize::MAX,
    ensures
        r == be32_val(
            bytes_of(*b)[i as int],
            bytes_of(*b)[i as int + 1],
            bytes_of(*b)[i as int + 2],
            bytes_of(*b)[i as int + 3],
        ),
{
    let b0 = buf_byte_at(b, i);
    let b1 = buf_byte_at(b, i + 1);
    let b2 = buf_byte_at(b, i + 2);
    let b3 = buf_byte_at(b, i + 3);
    (b0 as u32) * 0x100_0000 + (b1 as u32) * 0x1_0000 + (b2 as u32) * 0x100 + (b3 as u32)
}

/// Reads the big-endian `i32` at positions `i..i + 4` without consuming
/// anything.
pub fn read_i32_at(b: &bytes::BytesMut, i: usize) -> (r: i32)
    requires
        i + 4 <= bytes_of(*b).len(),
        bytes_of(*b).len() <= usize::MAX,
    ensures
        r == i32_of_u32(
            be32_val(
                bytes_of(*b)[i as int],
                bytes_of(*b)[i as int + 1],
                bytes_of(*b)[i as int + 2],
                bytes_of(*b)[i as int + 3],
            ),
        ),
{
    let v = read_u32_at(b, i);
    if v < 0x8000_0000 {
        v as i32
    } else {
        ((v as i64) - 0x1_0000_0000i64) as i32
    }
}

/// The big-endian byte pair of a `u16`.
pub open spec fn be16(v: u16) -> Seq<u8> {
    seq![(v / 0x100) as u8, (v % 0x100) as u8]
}

/// The big-endian bytes of a `u32`.
pub open spec fn be32(v: u32) -> Seq<u8> {
    seq![
        (v / 0x100_0000) as u8,
        ((v / 0x1_0000) % 0x100) as u8,
        ((v / 0x100) % 0x100) as u8,
        (v % 0x100) as u8,
    ]
}

/// The `u16` read from two big-endian bytes.
pub open spec fn be16_val(b0: u8, b1: u8) -> u16 {
    (b0 * 0x100 + b1) as u16
}

/// The `u32` read from four big-endian bytes.
pub open spec fn be32_val(b0: u8, b1: u8, b2: u8, b3: u8) -> u32 {
    (b0 * 0x100_0000 + b1 * 0x1_0000 + b2 * 0x100 + b3) as u32
}

/// The two's-complement reinterpretation of an `i32` as a `u32`.
pub open spec fn u32_of_i32(v: i32) -> u32 {
    if v >= 0 {
        v as u32
    } else {
        (v + 0x1_0000_0000) as u32
    }
}

/// The two's-complement reinterpretation of a `u32` as an `i32`.
pub open spec fn i32_of_u32(v: u32) -> i32 {
    if v < 0x8000_0000 {
        v as i32
    } else {
        (v - 0x1_0000_0000) as i32
    }
}

/// The two's-complement reinterpretation of an `i16` as a `u16`.
pub open spec fn u16_of_i16(v: i16) -> u16 {
    if v >= 0 {
        v as u16
    } else {
        (v + 0x1_0000) as u16
    }
}

/// The two's-complement reinterpretation of a `u16` as an `i16`.
pub open spec fn i16_of_u16(v: u16) -> i16 {
    if v < 0x8000 {
        v as i16
    } else {
        (v - 0x1_0000) as i16
    }
}

} // verus!
