//! The durable store as a mathematical value, and what a `get` does to it.
//!
//! The store itself is not part of this crate. What is assumed of it here is
//! its interface: a point lookup by exact key, and a point insert that is
//! refused when the key is taken. Nothing but an insert that succeeds changes
//! what it holds, and what it holds does not depend on which handle reads it.

use vstd::prelude::*;
use crate::error::CacheError;
use crate::protocol::{after_fetch, after_insert, after_lookup, CacheEntry, LookedView};

verus! {

/// What a store holds: at most one value for each key.
pub type Contents = Map<Seq<char>, Seq<u8>>;

/// The answer of the store to a lookup of `key`.
pub open spec fn find(contents: Contents, key: Seq<char>) -> Option<Seq<u8>> {
    if contents.contains_key(key) {
        Some(contents[key])
    } else {
        None
    }
}

/// What the store holds once `entry` is inserted, or `None` where it refuses
/// the insert because the key is taken.
pub open spec fn put(contents: Contents, entry: CacheEntry) -> Option<Contents> {
    if contents.contains_key(entry.key) {
        None
    } else {
        Some(contents.insert(entry.key, entry.value))
    }
}

/// The ways in which the store lets one `get` down: the failure that its
/// lookup reports, if it fails, and the failure that its insert reports, if it
/// fails. A store that works has neither.
pub struct Faults<E> {
    pub lookup: Option<E>,
    pub insert: Option<E>,
}

/// One `get`, driven to its end.
pub struct Run<E> {
    /// What the `get` returned.
    pub result: Result<Seq<u8>, CacheError<E>>,
    /// What the store holds afterwards.
    pub contents: Contents,
    /// How many times the strategy ran.
    pub fetches: nat,
    /// How many rows were written.
    pub writes: nat,
}

/// The `get` of `key` against a store that holds `contents` and fails as
/// `faults` says, with a strategy that would report `strategy` if it ran, and
/// with no other writer between the lookup and the insert.
///
/// Each effect happens when the stage before it asks for it, and not
/// otherwise. An insert that the store reports as failed has written nothing.
/// An insert that follows a miss is one that a working store accepts, since
/// the lookup just reported the key absent.
pub open spec fn attempt<E>(
    contents: Contents,
    key: Seq<char>,
    strategy: Result<Seq<u8>, E>,
    faults: Faults<E>,
) -> Run<E> {
    let answer = match faults.lookup {
        Some(cause) => Err(cause),
        None => Ok(find(contents, key)),
    };
    match after_lookup(key, answer) {
        LookedView::Hit(value) => Run { result: Ok(value), contents, fetches: 0, writes: 0 },
        LookedView::Failed(error) => Run { result: Err(error), contents, fetches: 0, writes: 0 },
        LookedView::Miss(key) => match after_fetch(key, strategy) {
            Err(error) => Run { result: Err(error), contents, fetches: 1, writes: 0 },
            Ok(entry) => match faults.insert {
                Some(cause) => Run {
                    result: after_insert(entry, Err(cause)),
                    contents,
                    fetches: 1,
                    writes: 0,
                },
                None => Run {
                    result: after_insert(entry, Ok::<(), E>(())),
                    contents: contents.insert(entry.key, entry.value),
                    fetches: 1,
                    writes: 1,
                },
            },
        },
    }
}

/// The `get` of `key` against a store that holds `contents` and works.
pub open spec fn run<E>(contents: Contents, key: Seq<char>, strategy: Result<Seq<u8>, E>) -> Run<
    E,
> {
    attempt(contents, key, strategy, Faults { lookup: None, insert: None })
}

/// Successive `get`s of one key against a store that works, each against what
/// the one before it left in the store. The strategy of the `i`-th would
/// report `strategies[i]`.
pub open spec fn history<E>(
    contents: Contents,
    key: Seq<char>,
    strategies: Seq<Result<Seq<u8>, E>>,
) -> Seq<Run<E>>
    decreases strategies.len(),
{
    if strategies.len() == 0 {
        Seq::empty()
    } else {
        let first = run(contents, key, strategies[0]);
        seq![first] + history(first.contents, key, strategies.skip(1))
    }
}

} // verus!
