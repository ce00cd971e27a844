//! A persistent memoization cache with the storage and the computation left
//! to the caller.
//!
//! A cache answers `get(key, strategy)`: the stored bytes when the key is
//! known, otherwise the bytes that the strategy computes, once they have been
//! written under the key. This crate holds every decision of that operation
//! and none of its effects. The caller performs each effect (open the store,
//! ensure its schema, look a key up, run the strategy, insert a row) and
//! reports how it went; the types here say what comes next.

pub mod cache;
pub mod error;
pub mod laws;
pub mod protocol;
pub mod sql;
pub mod store;

pub use crate::cache::{Fetch, Insert, Looked, Lookup, Opened, ResponseCache};
pub use crate::error::{CacheError, ErrorKind};
