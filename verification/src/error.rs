//! Failures, tagged with the operation that was attempted.

use vstd::prelude::*;

verus! {

/// The operation that failed.
#[derive(Clone, Copy, Debug, PartialEq, Eq, Structural)]
pub enum ErrorKind {
    /// The backing file could not be opened or created.
    StorageOpen,
    /// The store is open, but its schema could not be put in place.
    Schema,
    /// The point read failed for a reason other than an absent key.
    Lookup,
    /// The strategy that computes a missing value failed.
    Fetch,
    /// The write of a new row failed, for instance because the key was taken
    /// in the meantime.
    Insert,
}

/// A failure: the operation that was attempted, and what it reported.
#[derive(Debug)]
pub struct CacheError<E> {
    pub kind: ErrorKind,
    pub cause: E,
}

} // verus!
