//! The typed response side: headers, bodies, and the full response frame.

pub mod api_versions;
pub mod body;
pub mod describe_topic_partitions;
pub mod headers;
pub mod response;
