//! Types that are not primitives but are shared by requests and responses.

pub mod api_keys;
pub mod api_version;
pub mod tag;
pub mod topic;
