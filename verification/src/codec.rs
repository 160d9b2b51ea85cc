//! The shared codec contract: every wire type states its exact encoded byte
//! sequence as a spec function, and the three capabilities — exact encoded
//! length, encode-into-buffer, decode-from-buffer — are proved against it.

use crate::buf::bytes_of;
use crate::primitives::uvarint::UVarintDecodeError;
use crate::request::request::{kafka_request_dec, KafkaRequest};
use crate::response::response::KafkaResponse;
use vstd::prelude::*;

verus! {

/// Upper bound on the declared size of a single wire message. A frame whose
/// length prefix exceeds this is a fatal framing error.
pub const MAX_MESSAGE_SIZE: usize = 128;

/// A typed decode failure. Any of these is fatal for the message (and, at the
/// connection level, for the connection); "need more data" is not an error and
/// is signalled separately.
#[derive(Clone, Copy, Debug, PartialEq, Eq, Structural)]
pub enum DecodeError {
    /// A variable-length integer overflowed or was truncated.
    Uvarint(UVarintDecodeError),
    /// A length-prefixed string held bytes that are not valid UTF-8.
    InvalidUtf8,
    /// A string length prefix exceeded the supported maximum.
    StringTooLong,
    /// A nullable string with length prefix `0`, which this protocol forbids.
    ZeroLengthNullableString,
    /// A nullable string with a negative length prefix other than `-1`.
    NegativeStringLength,
    /// A tag buffer with entries; only the empty tag buffer is supported.
    UnsupportedTaggedFields,
    /// A frame whose 4-byte length prefix is negative.
    NegativeMessageSize,
    /// A frame whose declared length exceeds `MAX_MESSAGE_SIZE`.
    MessageTooLarge,
    /// A request whose api_key maps to no supported API.
    UnsupportedApiKey,
    /// A complete frame ended in the middle of a field.
    TruncatedMessage,
    /// A body that did not occupy exactly the size the frame declared for it.
    BodySizeMismatch,
}

/// An encode failure: a programming-invariant violation detected before any
/// byte is written.
#[derive(Clone, Copy, Debug, PartialEq, Eq, Structural)]
pub enum EncodeError {
    /// The declared `message_size` does not match the encoded length of
    /// header plus body.
    MessageSizeMismatch,
}

/// The outcome of decoding a value of view type `V` from the front of a byte
/// sequence: a value together with how many bytes its encoding occupied, a
/// signal that the bytes end before the value does, or a typed failure.
pub ghost enum SpecDecode<V> {
    Found(V, int),
    NeedMore,
    Fail(DecodeError),
}

/// The number of bytes a value occupies on the wire, tied to the value's
/// exact encoding `enc`.
pub trait WireLen: Sized {
    /// The type's internal invariant: every constructor establishes it and
    /// every decoded value satisfies it.
    spec fn wf(&self) -> bool;

    /// The exact byte sequence this value encodes to.
    spec fn enc(&self) -> Seq<u8>;

    /// The number of bytes `self` takes up during encoding and decoding.
    fn wire_len(&self) -> (r: usize)
        requires
            self.wf(),
            self.enc().len() <= usize::MAX,
        ensures
            r == self.enc().len(),
    ;
}

/// Encoding into a growable byte buffer: encoding a well-formed value never
/// fails and appends exactly `enc`.
pub trait Encoder: WireLen {
    fn encode(&self, dest: &mut bytes::BytesMut) -> (r: Result<(), EncodeError>)
        requires
            self.wf(),
            bytes_of(*old(dest)).len() + self.enc().len() <= isize::MAX,
        ensures
            r is Ok,
            bytes_of(*final(dest)) == bytes_of(*old(dest)) + self.enc(),
    ;
}

/// Decoding from the front of a byte buffer, specified by a pure function
/// `dec` over the byte sequence. On success exactly the bytes `dec` accounts
/// for are consumed and the returned value carries the view `dec` names.
pub trait Decoder: WireLen + View {
    /// What decoding finds at the front of `s`.
    spec fn dec(s: Seq<u8>) -> SpecDecode<Self::V>;

    /// A successful spec-level decode never claims more bytes than exist.
    proof fn lemma_dec_len(s: Seq<u8>)
        ensures
            Self::dec(s) matches SpecDecode::Found(v, n) ==> 0 <= n <= s.len(),
    ;

    fn decode(src: &mut bytes::BytesMut) -> (r: Result<Option<Self>, DecodeError>)
        ensures
            match Self::dec(bytes_of(*old(src))) {
                SpecDecode::Found(v, n) => {
                    &&& r matches Ok(Some(x)) && x@ == v && x.wf()
                    &&& bytes_of(*final(src)) == bytes_of(*old(src)).skip(n)
                },
                SpecDecode::NeedMore => r == Ok::<Option<Self>, DecodeError>(None),
                SpecDecode::Fail(e) => r == Err::<Option<Self>, DecodeError>(e),
            },
    ;
}

/// The connection-level codec: one decode call yields at most one typed
/// request from the connection buffer, and one encode call writes one typed
/// response to it.
#[derive(Debug)]
pub struct KafkaCodec {}

impl KafkaCodec {
    /// Decodes at most one request frame, as [`KafkaRequest::decode`] does:
    /// an incomplete frame leaves the buffer untouched and yields nothing, a
    /// complete one is consumed exactly.
    pub fn decode(&mut self, src: &mut bytes::BytesMut) -> (r: Result<
        Option<KafkaRequest>,
        DecodeError,
    >)
        ensures
            match kafka_request_dec(bytes_of(*old(src))) {
                SpecDecode::Found(v, n) => {
                    &&& r matches Ok(Some(x)) && x@ == v && x.wf()
                    &&& bytes_of(*final(src)) == bytes_of(*old(src)).skip(n)
                },
                SpecDecode::NeedMore => r == Ok::<Option<KafkaRequest>, DecodeError>(None)
                    && bytes_of(*final(src)) == bytes_of(*old(src)),
                SpecDecode::Fail(e) => r == Err::<Option<KafkaRequest>, DecodeError>(e)
                    && bytes_of(*final(src)) == bytes_of(*old(src)),
            },
    {
        KafkaRequest::decode(src)
    }

    /// Encodes one response frame, as [`KafkaResponse::encode`] does: a
    /// declared size that does not match the encoded length of header plus
    /// body fails before writing anything.
    pub fn encode(&mut self, item: KafkaResponse, dst: &mut bytes::BytesMut) -> (r: Result<
        (),
        EncodeError,
    >)
        requires
            item.wf(),
            bytes_of(*old(dst)).len() + item.enc().len() <= isize::MAX,
        ensures
            r is Ok <==> item.message_size as int == item.header.enc().len()
                + item.body.enc().len(),
            r is Ok ==> bytes_of(*final(dst)) == bytes_of(*old(dst)) + item.enc(),
            r is Err ==> bytes_of(*final(dst)) == bytes_of(*old(dst)),
    {
        item.encode(dst)
    }
}

impl Default for KafkaCodec {
    fn default() -> Self {
        Self {  }
    }
}

} // verus!
