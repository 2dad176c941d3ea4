//! The bounded store behind the handle cache: `lru::LruCache`, with the
//! contracts the rest of the library reasons from.
//!
//! Nothing in this file is proved. Each function below makes one call into
//! the `lru` crate and states what that call does to the entries of the
//! cache, read from most recently used to least recently used.

use lru::LruCache;
use std::num::NonZeroUsize;
use vstd::prelude::*;

verus! {

/// A lookup key as contracts see it: window class name and window title.
pub type Key = (Seq<char>, Seq<char>);

/// One cache entry as contracts see it: a key and the handle last resolved
/// for it.
pub type Entry = (Key, usize);

/// `lru::LruCache`, taken as it is: nothing of its inside is visible here.
#[verifier::external_type_specification]
#[verifier::external_body]
#[verifier::reject_recursive_types(K)]
#[verifier::reject_recursive_types(V)]
#[verifier::reject_recursive_types(S)]
pub struct ExLruCache<K, V, S>(LruCache<K, V, S>);

/// `lru::DefaultHasher`, the hasher that an `LruCache` has unless it is
/// given another. It only occurs as a type argument.
#[verifier::external_type_specification]
#[verifier::external_body]
pub struct ExDefaultHasher(lru::DefaultHasher);

/// The entries of an `lru::LruCache`, in the order in which its `iter`
/// visits them: most recently used first.
pub uninterp spec fn lru_entries(cache: LruCache<(String, String), usize>) -> Seq<Entry>;

/// The number of entries an `lru::LruCache` may hold, as its `cap` reports
/// it.
pub uninterp spec fn lru_capacity(cache: LruCache<(String, String), usize>) -> nat;

/// Whether some entry has the key.
pub open spec fn has_key(entries: Seq<Entry>, key: Key) -> bool {
    exists|i: int| 0 <= i < entries.len() && (#[trigger] entries[i]).0 == key
}

/// The place of an entry with the key, where there is one.
pub open spec fn key_index(entries: Seq<Entry>, key: Key) -> int {
    choose|i: int| 0 <= i < entries.len() && (#[trigger] entries[i]).0 == key
}

/// The handle stored for the key, if any.
pub open spec fn handle_of(entries: Seq<Entry>, key: Key) -> Option<usize> {
    if has_key(entries, key) {
        Some(entries[key_index(entries, key)].1)
    } else {
        None
    }
}

/// The entries after the key was used: its entry moves to the front, the
/// others keep their order.
pub open spec fn promoted(entries: Seq<Entry>, key: Key) -> Seq<Entry> {
    if has_key(entries, key) {
        let at = key_index(entries, key);
        seq![entries[at]] + entries.remove(at)
    } else {
        entries
    }
}

/// The entries without the one for the key; the others keep their order.
pub open spec fn removed(entries: Seq<Entry>, key: Key) -> Seq<Entry> {
    if has_key(entries, key) {
        entries.remove(key_index(entries, key))
    } else {
        entries
    }
}

/// The entries after a handle was stored for the key. The new entry stands
/// in front. It takes the place of the old entry for the key where there
/// was one; otherwise, in a full cache, the least recently used entry
/// leaves.
pub open spec fn stored(entries: Seq<Entry>, capacity: nat, key: Key, hwnd: usize) -> Seq<Entry> {
    let rest = if has_key(entries, key) {
        entries.remove(key_index(entries, key))
    } else if entries.len() == capacity {
        entries.drop_last()
    } else {
        entries
    };
    seq![(key, hwnd)] + rest
}

/// `LruCache::unbounded`: an empty cache whose capacity is the largest
/// `usize`, so that nothing is allocated for entries yet to come.
#[verifier::external_body]
pub(crate) fn lru_unbounded() -> (cache: LruCache<(String, String), usize>)
    ensures
        lru_entries(cache) == Seq::<Entry>::empty(),
        lru_capacity(cache) == usize::MAX,
{
    LruCache::unbounded()
}

/// `LruCache::resize`: the capacity becomes `capacity`, and of the entries
/// only the `capacity` most recently used stay.
#[verifier::external_body]
pub(crate) fn lru_resize(cache: &mut LruCache<(String, String), usize>, capacity: usize)
    requires
        capacity > 0,
    ensures
        lru_capacity(*final(cache)) == capacity,
        lru_entries(*final(cache)) == if lru_entries(*old(cache)).len() > capacity {
            lru_entries(*old(cache)).take(capacity as int)
        } else {
            lru_entries(*old(cache))
        },
{
    cache.resize(NonZeroUsize::new(capacity).unwrap())
}

/// `LruCache::len`: the number of entries.
#[verifier::external_body]
pub(crate) fn lru_len(cache: &LruCache<(String, String), usize>) -> (len: usize)
    ensures
        len == lru_entries(*cache).len(),
{
    cache.len()
}

/// `LruCache::cap`: the capacity the cache was given.
#[verifier::external_body]
pub(crate) fn lru_cap(cache: &LruCache<(String, String), usize>) -> (capacity: usize)
    ensures
        capacity == lru_capacity(*cache),
{
    cache.cap().get()
}

/// `LruCache::peek`: the handle stored for the key, if any; the cache is
/// left as it is.
#[verifier::external_body]
pub(crate) fn lru_peek(
    cache: &LruCache<(String, String), usize>,
    key: &(String, String),
) -> (hwnd: Option<usize>)
    ensures
        hwnd == handle_of(lru_entries(*cache), key@),
{
    cache.peek(key).copied()
}

/// `LruCache::get`: the handle stored for the key, if any; the entry that
/// was found becomes the most recently used. The capacity stays, and the
/// call does not panic.
#[verifier::external_body]
pub(crate) fn lru_get(
    cache: &mut LruCache<(String, String), usize>,
    key: &(String, String),
) -> (hwnd: Option<usize>)
    ensures
        hwnd == handle_of(lru_entries(*old(cache)), key@),
        lru_entries(*final(cache)) == promoted(lru_entries(*old(cache)), key@),
        lru_capacity(*final(cache)) == lru_capacity(*old(cache)),
    no_unwind
{
    cache.get(key).copied()
}

/// `LruCache::pop`: takes the entry for the key out, if there is one, and
/// returns its handle. The capacity stays, and the call does not panic.
#[verifier::external_body]
pub(crate) fn lru_pop(
    cache: &mut LruCache<(String, String), usize>,
    key: &(String, String),
) -> (hwnd: Option<usize>)
    ensures
        hwnd == handle_of(lru_entries(*old(cache)), key@),
        lru_entries(*final(cache)) == removed(lru_entries(*old(cache)), key@),
        lru_capacity(*final(cache)) == lru_capacity(*old(cache)),
    no_unwind
{
    cache.pop(key)
}

/// `LruCache::put`: stores the handle for the key as the most recently
/// used entry and returns the handle that the key had before, if any. In
/// a full cache that did not hold the key, the least recently used entry
/// is dropped to make room. The capacity stays, and the call does not
/// panic.
#[verifier::external_body]
pub(crate) fn lru_put(
    cache: &mut LruCache<(String, String), usize>,
    key: (String, String),
    hwnd: usize,
) -> (before: Option<usize>)
    ensures
        before == handle_of(lru_entries(*old(cache)), key@),
        lru_entries(*final(cache)) == stored(
            lru_entries(*old(cache)),
            lru_capacity(*old(cache)),
            key@,
            hwnd,
        ),
        lru_capacity(*final(cache)) == lru_capacity(*old(cache)),
    no_unwind
{
    cache.put(key, hwnd)
}

} // verus!
