//! A caching proxy for a user's weekly listening statistics: the requests
//! it sends upstream, how it reads the replies and enriches their artwork,
//! and the per-user cache in front of it.

pub mod aggregate;
pub mod cache;
pub mod enrich;
pub mod error;
pub mod pipeline;
pub mod text;
pub mod types;
pub mod upstream;
