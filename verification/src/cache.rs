//! The cache and the stages of its `get`, as values that the caller drives.
//!
//! Each stage names one effect. The caller performs it and hands the report to
//! the stage, which is used up and gives the next stage or the result. A stage
//! can only come from the one before it: a strategy can only be run for a key
//! whose lookup reported it absent, and a row can only be inserted with bytes
//! that a strategy computed.
//!
//! No stage retries, and nothing serializes two `get`s of one key. When both
//! find the key absent, both run their strategy; the store accepts one insert
//! and refuses the other, and the `get` that was refused fails with that
//! report. A later `get` of the key then finds what the other one wrote.

use vstd::prelude::*;
use crate::error::{CacheError, ErrorKind};
use crate::protocol::{after_fetch, after_insert, after_lookup, CacheEntry, LookedView};

verus! {

/// A store that was opened, before its schema is known to be in place.
///
/// The effect it names: ensure the schema, through `handle`.
#[derive(Debug)]
pub struct Opened<H> {
    handle: H,
}

/// A cache over an open store whose schema is in place.
///
/// It owns the handle to the store for as long as it lives, and hands out
/// shared access only.
#[derive(Debug)]
pub struct ResponseCache<H> {
    handle: H,
}

/// A `get` that waits for the lookup of its key.
#[derive(Debug)]
pub struct Lookup {
    key: String,
}

/// A `get` whose key was absent, and that waits for its strategy to run.
#[derive(Debug)]
pub struct Fetch {
    key: String,
}

/// A `get` whose strategy computed a value, and that waits for the insert of
/// that value under its key.
#[derive(Debug)]
pub struct Insert {
    key: String,
    value: Vec<u8>,
}

/// Where a `get` stands once its lookup has reported.
#[derive(Debug)]
pub enum Looked<E> {
    /// The key is known: the operation is over and returns these bytes.
    Hit(Vec<u8>),
    /// The key is unknown: the strategy runs next.
    Miss(Fetch),
    /// The lookup itself failed: the operation is over.
    Failed(CacheError<E>),
}

impl<H> View for Opened<H> {
    type V = H;

    closed spec fn view(&self) -> H {
        self.handle
    }
}

impl<H> View for ResponseCache<H> {
    type V = H;

    closed spec fn view(&self) -> H {
        self.handle
    }
}

impl View for Lookup {
    type V = Seq<char>;

    closed spec fn view(&self) -> Seq<char> {
        self.key@
    }
}

impl View for Fetch {
    type V = Seq<char>;

    closed spec fn view(&self) -> Seq<char> {
        self.key@
    }
}

impl View for Insert {
    type V = CacheEntry;

    closed spec fn view(&self) -> CacheEntry {
        CacheEntry { key: self.key@, value: self.value@ }
    }
}

impl<E> View for Looked<E> {
    type V = LookedView<E>;

    open spec fn view(&self) -> LookedView<E> {
        match *self {
            Looked::Hit(value) => LookedView::Hit(value@),
            Looked::Miss(fetch) => LookedView::Miss(fetch@),
            Looked::Failed(error) => LookedView::Failed(error),
        }
    }
}

/// What a lookup reported, with the bytes as a sequence.
pub open spec fn answer_of<E>(answer: Result<Option<Vec<u8>>, E>) -> Result<Option<Seq<u8>>, E> {
    match answer {
        Ok(Some(value)) => Ok(Some(value@)),
        Ok(None) => Ok(None),
        Err(cause) => Err(cause),
    }
}

/// A result that holds bytes, with the bytes as a sequence.
pub open spec fn bytes_of<E>(outcome: Result<Vec<u8>, E>) -> Result<Seq<u8>, E> {
    match outcome {
        Ok(value) => Ok(value@),
        Err(cause) => Err(cause),
    }
}

/// A result that holds a pending insert, with the entry that it would write.
pub open spec fn entry_of<E>(outcome: Result<Insert, E>) -> Result<CacheEntry, E> {
    match outcome {
        Ok(insert) => Ok(insert@),
        Err(cause) => Err(cause),
    }
}

impl<H> ResponseCache<H> {
    /// Begins a cache from the report of opening its store.
    ///
    /// An open store goes on to have its schema ensured. A store that could
    /// not be opened ends the construction with that report.
    pub fn new<E>(opened: Result<H, E>) -> (next: Result<Opened<H>, CacheError<E>>)
        ensures
            match opened {
                Ok(handle) => next matches Ok(store) && store@ == handle,
                Err(cause) => next == Err::<Opened<H>, CacheError<E>>(
                    CacheError { kind: ErrorKind::StorageOpen, cause },
                ),
            },
    {
        match opened {
            Ok(handle) => Ok(Opened { handle }),
            Err(cause) => Err(CacheError { kind: ErrorKind::StorageOpen, cause }),
        }
    }

    /// The store that this cache owns.
    pub fn handle(&self) -> (handle: &H)
        ensures
            *handle == self@,
    {
        &self.handle
    }

    /// Begins a `get` of `key`. Its first effect is the lookup of that key.
    pub fn get(&self, key: &str) -> (lookup: Lookup)
        ensures
            lookup@ == key@,
    {
        Lookup { key: key.to_owned() }
    }
}

impl<H> Opened<H> {
    /// The open store, to ensure its schema through.
    pub fn handle(&self) -> (handle: &H)
        ensures
            *handle == self@,
    {
        &self.handle
    }

    /// Takes the report of ensuring the schema.
    ///
    /// With the schema in place the cache is ready, over the same store.
    /// Otherwise the construction ends with that report.
    pub fn ensured<E>(self, schema: Result<(), E>) -> (cache: Result<
        ResponseCache<H>,
        CacheError<E>,
    >)
        ensures
            match schema {
                Ok(_) => cache matches Ok(ready) && ready@ == self@,
                Err(cause) => cache == Err::<ResponseCache<H>, CacheError<E>>(
                    CacheError { kind: ErrorKind::Schema, cause },
                ),
            },
    {
        match schema {
            Ok(_) => Ok(ResponseCache { handle: self.handle }),
            Err(cause) => Err(CacheError { kind: ErrorKind::Schema, cause }),
        }
    }
}

impl Lookup {
    /// The key to look up.
    pub fn key(&self) -> (key: &str)
        ensures
            key@ == self@,
    {
        self.key.as_str()
    }

    /// Takes the report of the lookup: the stored bytes, the absence of the
    /// key, or a failure.
    pub fn answered<E>(self, answer: Result<Option<Vec<u8>>, E>) -> (next: Looked<E>)
        ensures
            next@ == after_lookup(self@, answer_of(answer)),
    {
        match answer {
            Ok(Some(value)) => Looked::Hit(value),
            Ok(None) => Looked::Miss(Fetch { key: self.key }),
            Err(cause) => Looked::Failed(CacheError { kind: ErrorKind::Lookup, cause }),
        }
    }
}

impl Fetch {
    /// Takes the report of the strategy: the computed bytes, or a failure.
    pub fn fetched<E>(self, outcome: Result<Vec<u8>, E>) -> (next: Result<Insert, CacheError<E>>)
        ensures
            entry_of(next) == after_fetch(self@, bytes_of(outcome)),
    {
        match outcome {
            Ok(value) => Ok(Insert { key: self.key, value }),
            Err(cause) => Err(CacheError { kind: ErrorKind::Fetch, cause }),
        }
    }
}

impl Insert {
    /// The key to insert under: the one that was looked up.
    pub fn key(&self) -> (key: &str)
        ensures
            key@ == self@.key,
    {
        self.key.as_str()
    }

    /// The bytes to insert: the ones that the strategy computed.
    pub fn value(&self) -> (value: &[u8])
        ensures
            value@ == self@.value,
    {
        self.value.as_slice()
    }

    /// Takes the report of the insert, and gives the result of the `get`.
    pub fn inserted<E>(self, outcome: Result<(), E>) -> (result: Result<Vec<u8>, CacheError<E>>)
        ensures
            bytes_of(result) == after_insert(self@, outcome),
    {
        match outcome {
            Ok(_) => Ok(self.value),
            Err(cause) => Err(CacheError { kind: ErrorKind::Insert, cause }),
        }
    }
}

} // verus!
