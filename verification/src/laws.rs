//! What holds of every `get`, proved from the decisions in `protocol` and the
//! store in `store`.

use vstd::prelude::*;
use crate::error::{CacheError, ErrorKind};
use crate::protocol::{after_fetch, after_insert, CacheEntry};
use crate::store::{attempt, find, history, put, run, Contents, Faults};

verus! {

/// The failed result of a `get`: the operation that failed, and its cause.
pub open spec fn failure<E>(kind: ErrorKind, cause: E) -> Result<Seq<u8>, CacheError<E>> {
    Err(CacheError { kind, cause })
}

/// A hit computes nothing. For a key that the store holds, `get` returns the
/// stored bytes, whatever the strategy would have reported: the strategy does
/// not run, nothing is written, and the store is as it was.
pub proof fn hit_runs_no_strategy<E>(
    contents: Contents,
    key: Seq<char>,
    strategy: Result<Seq<u8>, E>,
)
    requires
        contents.contains_key(key),
    ensures
        ({
            let done = run(contents, key, strategy);
            &&& done.result matches Ok(bytes) && bytes == contents[key]
            &&& done.fetches == 0
            &&& done.writes == 0
            &&& done.contents == contents
        }),
{
}

/// A miss computes once and writes once. For a key that the store does not
/// hold and a strategy that computes `value`, `get` runs the strategy exactly
/// once, writes exactly one row, which the store accepts, and returns
/// `value`. A lookup of the key in what the store then holds finds `value`.
pub proof fn miss_runs_strategy_once_and_persists<E>(
    contents: Contents,
    key: Seq<char>,
    value: Seq<u8>,
)
    requires
        !contents.contains_key(key),
    ensures
        ({
            let done = run::<E>(contents, key, Ok(value));
            &&& done.result matches Ok(bytes) && bytes == value
            &&& done.fetches == 1
            &&& done.writes == 1
            &&& put(contents, CacheEntry { key, value }) == Some(done.contents)
            &&& find(done.contents, key) == Some(value)
        }),
{
}

/// Every `get` of a key that the store holds, however many follow one
/// another, returns the stored bytes without running a strategy or writing.
proof fn lemma_history_of_a_known_key<E>(
    contents: Contents,
    key: Seq<char>,
    strategies: Seq<Result<Seq<u8>, E>>,
)
    requires
        contents.contains_key(key),
    ensures
        history(contents, key, strategies).len() == strategies.len(),
        forall|i: int|
            0 <= i < strategies.len() ==> {
                let one = #[trigger] history(contents, key, strategies)[i];
                &&& one.result matches Ok(bytes) && bytes == contents[key]
                &&& one.fetches == 0
                &&& one.writes == 0
                &&& one.contents == contents
            },
    decreases strategies.len(),
{
    if strategies.len() > 0 {
        lemma_history_of_a_known_key(contents, key, strategies.skip(1));
    }
}

/// A history has one `get` for each strategy. Its first is the `get` against
/// the store as it was, and each later one is the `get` against what the one
/// before it left.
pub proof fn history_unfolds<E>(
    contents: Contents,
    key: Seq<char>,
    strategies: Seq<Result<Seq<u8>, E>>,
)
    ensures
        history(contents, key, strategies).len() == strategies.len(),
        strategies.len() > 0 ==> history(contents, key, strategies)[0] == run(
            contents,
            key,
            strategies[0],
        ),
        forall|i: int|
            0 < i < strategies.len() ==> history(contents, key, strategies)[i] == run(
                history(contents, key, strategies)[i - 1].contents,
                key,
                #[trigger] strategies[i],
            ),
    decreases strategies.len(),
{
    if strategies.len() > 0 {
        let all = history(contents, key, strategies);
        let first = run(contents, key, strategies[0]);
        let rest = strategies.skip(1);
        history_unfolds(first.contents, key, rest);
        assert forall|i: int| 0 < i < strategies.len() implies all[i] == run(
            all[i - 1].contents,
            key,
            #[trigger] strategies[i],
        ) by {
            assert(strategies[i] == rest[i - 1]);
        }
    }
}

/// Repeated `get`s are idempotent. Once a `get` of a key has succeeded, every
/// later `get` of that key returns what that one returned, runs no strategy
/// and writes nothing, whatever the later strategies would have reported. In
/// particular, when the first `get` succeeds, the strategy has run at most
/// once however many `get`s follow.
pub proof fn repeated_gets_are_idempotent<E>(
    contents: Contents,
    key: Seq<char>,
    strategies: Seq<Result<Seq<u8>, E>>,
)
    ensures
        history(contents, key, strategies).len() == strategies.len(),
        forall|i: int, j: int|
            0 <= i < j < strategies.len() && (#[trigger] history(
                contents,
                key,
                strategies,
            )[i]).result is Ok ==> {
                let earlier = history(contents, key, strategies)[i];
                let later = #[trigger] history(contents, key, strategies)[j];
                &&& later.result == earlier.result
                &&& later.fetches == 0
                &&& later.writes == 0
                &&& later.contents == earlier.contents
            },
    decreases strategies.len(),
{
    if strategies.len() > 0 {
        let all = history(contents, key, strategies);
        let first = run(contents, key, strategies[0]);
        let rest = strategies.skip(1);
        repeated_gets_are_idempotent(first.contents, key, rest);
        assert forall|i: int, j: int|
            0 <= i < j < strategies.len() && (#[trigger] all[i]).result is Ok implies {
            let earlier = all[i];
            let later = #[trigger] all[j];
            &&& later.result == earlier.result
            &&& later.fetches == 0
            &&& later.writes == 0
            &&& later.contents == earlier.contents
        } by {
            assert(all[j] == history(first.contents, key, rest)[j - 1]);
            if i == 0 {
                lemma_history_of_a_known_key(first.contents, key, rest);
            }
        }
    }
}

/// What a miss wrote outlives the cache that wrote it. After a `get` that
/// computed and stored `value`, a `get` of the same key against what the
/// store then holds returns `value`, runs no strategy and writes nothing,
/// whatever that strategy would have done. No cache is named here: a cache
/// that is opened later over the same store reads the same contents.
pub proof fn stored_value_outlives_the_cache<E>(
    contents: Contents,
    key: Seq<char>,
    value: Seq<u8>,
    later: Result<Seq<u8>, E>,
)
    requires
        !contents.contains_key(key),
    ensures
        ({
            let written = run::<E>(contents, key, Ok(value));
            let read = run(written.contents, key, later);
            &&& read.result matches Ok(bytes) && bytes == value
            &&& read.fetches == 0
            &&& read.writes == 0
            &&& read.contents == written.contents
        }),
{
}

/// Two sequences of bytes that agree in length and at every place.
pub open spec fn same_bytes(left: Seq<u8>, right: Seq<u8>) -> bool {
    &&& left.len() == right.len()
    &&& forall|i: int| 0 <= i < left.len() ==> left[i] == right[i]
}

/// The bytes that come back are the bytes that went in. For every payload,
/// of any length and any content, the `get` that stores it returns a sequence
/// of the same length with the same byte at every place, and so does a `get`
/// that reads it back.
pub proof fn round_trip_is_byte_exact<E>(
    contents: Contents,
    key: Seq<char>,
    payload: Seq<u8>,
    later: Result<Seq<u8>, E>,
)
    requires
        !contents.contains_key(key),
    ensures
        ({
            let written = run::<E>(contents, key, Ok(payload));
            let read = run(written.contents, key, later);
            &&& written.result matches Ok(bytes) && same_bytes(bytes, payload)
            &&& read.result matches Ok(bytes) && same_bytes(bytes, payload)
        }),
{
}

/// The result of a `get`, in full. A lookup that fails is the result. A key
/// that the store holds gives the stored bytes. For a key that it does not
/// hold, a strategy that fails is the result; bytes that it computed are the
/// result once they are written, and a failed insert is the result otherwise.
/// Every failure is surfaced with its cause and the operation that failed,
/// and nothing else fails.
pub proof fn result_in_full<E>(
    contents: Contents,
    key: Seq<char>,
    strategy: Result<Seq<u8>, E>,
    faults: Faults<E>,
)
    ensures
        attempt(contents, key, strategy, faults).result == (match faults.lookup {
            Some(cause) => failure(ErrorKind::Lookup, cause),
            None => if contents.contains_key(key) {
                Ok(contents[key])
            } else {
                match (strategy, faults.insert) {
                    (Err(cause), _) => failure(ErrorKind::Fetch, cause),
                    (Ok(_), Some(cause)) => failure(ErrorKind::Insert, cause),
                    (Ok(value), None) => Ok(value),
                }
            },
        }),
{
}

/// The effects of a `get`, in full. The strategy runs exactly when the lookup
/// worked and reported the key absent, and then once. A row is written
/// exactly when, after that, the strategy computed a value and the insert
/// worked, and then one row.
pub proof fn effects_in_full<E>(
    contents: Contents,
    key: Seq<char>,
    strategy: Result<Seq<u8>, E>,
    faults: Faults<E>,
)
    ensures
        ({
            let done = attempt(contents, key, strategy, faults);
            let missed = faults.lookup is None && !contents.contains_key(key);
            &&& done.fetches == if missed { 1nat } else { 0nat }
            &&& done.writes == if missed && strategy is Ok && faults.insert is None {
                1nat
            } else {
                0nat
            }
        }),
{
}

/// A `get` that fails writes nothing: the store is as it was.
pub proof fn failed_get_leaves_the_store_as_it_was<E>(
    contents: Contents,
    key: Seq<char>,
    strategy: Result<Seq<u8>, E>,
    faults: Faults<E>,
)
    ensures
        ({
            let done = attempt(contents, key, strategy, faults);
            done.result is Err ==> done.contents == contents && done.writes == 0
        }),
{
}

/// The bytes that a `get` returns are the bytes that the store holds under
/// the key when it returns: bytes that were computed are returned only once
/// they are written.
pub proof fn returned_bytes_are_stored<E>(
    contents: Contents,
    key: Seq<char>,
    strategy: Result<Seq<u8>, E>,
    faults: Faults<E>,
)
    ensures
        ({
            let done = attempt(contents, key, strategy, faults);
            done.result matches Ok(bytes) ==> find(done.contents, key) == Some(bytes)
        }),
{
}

/// Entries are never changed and never removed, and a `get` adds at most its
/// own. Every key that the store held before is still there with the same
/// bytes. A `get` that writes nothing leaves the store as it was. A `get`
/// that writes adds one row, which the store accepts: the key, with the bytes
/// that the strategy computed.
pub proof fn entries_are_only_added<E>(
    contents: Contents,
    key: Seq<char>,
    strategy: Result<Seq<u8>, E>,
    faults: Faults<E>,
)
    ensures
        ({
            let done = attempt(contents, key, strategy, faults);
            &&& forall|k: Seq<char>| #[trigger]
                contents.contains_key(k) ==> done.contents.contains_key(k) && done.contents[k]
                    == contents[k]
            &&& done.writes == 0 ==> done.contents == contents
            &&& done.writes != 0 ==> (strategy matches Ok(value) && put(
                contents,
                CacheEntry { key, value },
            ) == Some(done.contents))
        }),
{
}

/// Two misses of one key race, and one of them loses. When two `get`s both
/// found the key absent and both computed a value, the store accepts the
/// insert that comes first and refuses the other. The loser fails with the
/// store's refusal, tagged as a failed insert, although its strategy
/// succeeded, and the store holds the winner's bytes.
pub proof fn losing_a_race_fails_the_insert<E>(
    contents: Contents,
    key: Seq<char>,
    winner: Seq<u8>,
    loser: Seq<u8>,
    refusal: E,
)
    requires
        !contents.contains_key(key),
    ensures
        ({
            let first = CacheEntry { key, value: winner };
            let second = CacheEntry { key, value: loser };
            &&& after_fetch::<E>(key, Ok(winner)) == Ok::<CacheEntry, CacheError<E>>(first)
            &&& after_fetch::<E>(key, Ok(loser)) == Ok::<CacheEntry, CacheError<E>>(second)
            &&& put(contents, first) matches Some(grown) && put(grown, second) is None && find(
                grown,
                key,
            ) == Some(winner)
            &&& after_insert(second, Err(refusal)) == failure(ErrorKind::Insert, refusal)
        }),
{
}

} // verus!
