//! Caching layer for marketplace data and action metadata.
//!
//! Entries carry the time they were stored and a time to live; the store keeps
//! serialized entries in memory and names the file that holds each on disk.

pub mod entries;
pub mod store;

pub use entries::{CacheKeys, CacheTTL};
pub use store::{CacheEntry, CacheError, CacheStats, CacheStore};
