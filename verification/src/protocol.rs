//! The decisions of one `get`, over plain mathematical values.
//!
//! A `get` has up to three effects, in this order: a lookup of the key, a run
//! of the strategy, an insert of the computed value. After each one a function
//! here says, from what the effect reported, whether the operation is over and
//! with what, or which effect comes next.

use vstd::prelude::*;
use crate::error::{CacheError, ErrorKind};

verus! {

/// The one persisted entity: a key and the bytes stored under it.
pub struct CacheEntry {
    pub key: Seq<char>,
    pub value: Seq<u8>,
}

/// Where a `get` stands once its lookup has reported.
pub enum LookedView<E> {
    /// The key is known: the operation is over and returns these bytes.
    Hit(Seq<u8>),
    /// The key is unknown: the strategy runs next, for this key.
    Miss(Seq<char>),
    /// The lookup itself failed: the operation is over.
    Failed(CacheError<E>),
}

/// The decision after the lookup of `key` reported `answer`.
///
/// A stored value is returned as it is. Only an absent key leads on to the
/// strategy. A failed lookup ends the operation with the store's report.
pub open spec fn after_lookup<E>(key: Seq<char>, answer: Result<Option<Seq<u8>>, E>) -> LookedView<
    E,
> {
    match answer {
        Ok(Some(value)) => LookedView::Hit(value),
        Ok(None) => LookedView::Miss(key),
        Err(cause) => LookedView::Failed(CacheError { kind: ErrorKind::Lookup, cause }),
    }
}

/// The decision after the strategy for `key` reported `fetched`.
///
/// Computed bytes become the entry to insert, under the key that was looked
/// up. A failed strategy ends the operation, and nothing is left to write.
pub open spec fn after_fetch<E>(key: Seq<char>, fetched: Result<Seq<u8>, E>) -> Result<
    CacheEntry,
    CacheError<E>,
> {
    match fetched {
        Ok(value) => Ok(CacheEntry { key, value }),
        Err(cause) => Err(CacheError { kind: ErrorKind::Fetch, cause }),
    }
}

/// The result of the operation after the insert of `entry` reported
/// `inserted`.
///
/// The computed bytes are returned only when they were written. A failed
/// insert is the result even though the strategy succeeded.
pub open spec fn after_insert<E>(entry: CacheEntry, inserted: Result<(), E>) -> Result<
    Seq<u8>,
    CacheError<E>,
> {
    match inserted {
        Ok(_) => Ok(entry.value),
        Err(cause) => Err(CacheError { kind: ErrorKind::Insert, cause }),
    }
}

} // verus!
