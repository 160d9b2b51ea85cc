//! The one-byte boolean wire type: `0` for false, `1` for true.

use crate::buf::{buf_put_u8, bytes_of};
use crate::codec::{EncodeError, Encoder, WireLen};
use vstd::prelude::*;

verus! {

/// A boolean as it appears on the wire.
#[derive(Debug, PartialEq, Eq, Clone, Copy, Structural)]
pub enum Bool {
    False,
    True,
}

/// The single byte a `Bool` encodes to.
pub open spec fn bool_byte(b: Bool) -> u8 {
    match b {
        Bool::False => 0,
        Bool::True => 1,
    }
}

impl Bool {
    pub fn is_true(&self) -> (r: bool)
        ensures
            r == (*self is True),
    {
        *self == Bool::True
    }

    pub fn is_false(&self) -> (r: bool)
        ensures
            r == (*self is False),
    {
        *self == Bool::False
    }
}

impl WireLen for Bool {
    open spec fn wf(&self) -> bool {
        true
    }

    open spec fn enc(&self) -> Seq<u8> {
        seq![bool_byte(*self)]
    }

    fn wire_len(&self) -> (r: usize) {
        1
    }
}

impl Encoder for Bool {
    fn encode(&self, dest: &mut bytes::BytesMut) -> (r: Result<(), EncodeError>) {
        match self {
            Bool::False => buf_put_u8(dest, 0),
            Bool::True => buf_put_u8(dest, 1),
        }
        proof {
            assert(bytes_of(*dest) =~= bytes_of(*old(dest)) + self.enc());
        }
        Ok(())
    }
}

} // verus!
