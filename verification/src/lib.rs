//! A verified implementation of a subset of the Kafka broker wire protocol:
//! primitive value codecs, incremental frame reassembly, a typed
//! request/response data model, and per-API dispatch.

pub mod buf;
pub mod codec;
pub mod handlers;
pub mod primitives;
pub mod request;
pub mod response;
pub mod types;

pub use codec::Encoder;
pub use codec::WireLen;
