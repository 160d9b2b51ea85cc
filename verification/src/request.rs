//! The typed request side: header, bodies, and the frame decoder.

pub mod api_versions_body;
pub mod body;
pub mod describe_topic_partitions_body;
pub mod header;
pub mod request;
