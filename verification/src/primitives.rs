//! Types the protocol documentation deems primitive and composable: the
//! building blocks of the custom wire types.

pub mod bool;
pub mod compact_array;
pub mod compact_string;
pub mod nullable_string;
pub mod uvarint;

use vstd::prelude::*;

verus! {

/// Upper limit on the custom length-prefixed strings (nullable and compact).
pub const MAX_STRING_SIZE: usize = 128;

} // verus!
