//! Facts about the entries of the handle cache, read from most recently
//! used to least recently used.

use crate::store::{handle_of, has_key, key_index, promoted, removed, stored, Entry, Key};
use vstd::prelude::*;

verus! {

/// No two entries have the same key.
pub open spec fn distinct_keys(entries: Seq<Entry>) -> bool {
    forall|i: int, j: int|
        0 <= i < j < entries.len() ==> (#[trigger] entries[i]).0 != (#[trigger] entries[j]).0
}

/// What holds of the entries of every cache: at most `capacity` of them,
/// one per key, and room for at least one.
pub open spec fn well_formed(entries: Seq<Entry>, capacity: nat) -> bool {
    &&& 0 < capacity
    &&& entries.len() <= capacity
    &&& distinct_keys(entries)
}

/// Where a key is held, `key_index` names a place that holds it.
pub proof fn lemma_key_index(entries: Seq<Entry>, key: Key)
    requires
        has_key(entries, key),
    ensures
        0 <= key_index(entries, key) < entries.len(),
        entries[key_index(entries, key)].0 == key,
{
}

/// With one entry per key, the place of a key is the only place that
/// holds it.
pub proof fn lemma_key_index_unique(entries: Seq<Entry>, key: Key, at: int)
    requires
        distinct_keys(entries),
        0 <= at < entries.len(),
        entries[at].0 == key,
    ensures
        has_key(entries, key),
        key_index(entries, key) == at,
        handle_of(entries, key) == Some(entries[at].1),
{
    let found = key_index(entries, key);
    assert(entries[found].0 == key);
    if found < at {
        assert(entries[found].0 != entries[at].0);
    } else if at < found {
        assert(entries[at].0 != entries[found].0);
    }
}

/// Taking one entry out keeps the others distinct and says which keys are
/// left: all but the key that was taken out.
pub proof fn lemma_remove_at(entries: Seq<Entry>, at: int)
    requires
        distinct_keys(entries),
        0 <= at < entries.len(),
    ensures
        distinct_keys(entries.remove(at)),
        entries.remove(at).len() == entries.len() - 1,
        !has_key(entries.remove(at), entries[at].0),
        forall|key: Key|
            key != entries[at].0 ==> handle_of(entries.remove(at), key) == handle_of(entries, key),
{
    let rest = entries.remove(at);
    assert forall|i: int, j: int| 0 <= i < j < rest.len() implies (#[trigger] rest[i]).0
        != (#[trigger] rest[j]).0 by {
        let si = if i < at { i } else { i + 1 };
        let sj = if j < at { j } else { j + 1 };
        assert(rest[i] == entries[si]);
        assert(rest[j] == entries[sj]);
    }
    if has_key(rest, entries[at].0) {
        let i = key_index(rest, entries[at].0);
        let si = if i < at { i } else { i + 1 };
        assert(rest[i] == entries[si]);
        if si < at {
            assert(entries[si].0 != entries[at].0);
        } else {
            assert(entries[at].0 != entries[si].0);
        }
    }
    assert forall|key: Key| key != entries[at].0 implies handle_of(rest, key) == handle_of(
        entries,
        key,
    ) by {
        if has_key(entries, key) {
            let i = key_index(entries, key);
            let ri = if i < at { i } else { i - 1 };
            assert(rest[ri] == entries[i]);
            lemma_key_index_unique(rest, key, ri);
        } else if has_key(rest, key) {
            let i = key_index(rest, key);
            let si = if i < at { i } else { i + 1 };
            assert(rest[i] == entries[si]);
            assert(entries[si].0 == key);
        }
    }
}

/// Putting an entry with a new key in front keeps the entries distinct,
/// finds the new handle under the new key and every other handle where it
/// was.
pub proof fn lemma_push_front(entries: Seq<Entry>, key: Key, hwnd: usize)
    requires
        distinct_keys(entries),
        !has_key(entries, key),
    ensures
        distinct_keys(seq![(key, hwnd)] + entries),
        handle_of(seq![(key, hwnd)] + entries, key) == Some(hwnd),
        forall|other: Key|
            other != key ==> handle_of(seq![(key, hwnd)] + entries, other) == handle_of(
                entries,
                other,
            ),
{
    let all = seq![(key, hwnd)] + entries;
    assert forall|i: int, j: int| 0 <= i < j < all.len() implies (#[trigger] all[i]).0 != (
    #[trigger] all[j]).0 by {
        assert(all[j] == entries[j - 1]);
        if i > 0 {
            assert(all[i] == entries[i - 1]);
        }
    }
    lemma_key_index_unique(all, key, 0);
    assert forall|other: Key| other != key implies handle_of(all, other) == handle_of(
        entries,
        other,
    ) by {
        if has_key(entries, other) {
            let i = key_index(entries, other);
            assert(all[i + 1] == entries[i]);
            lemma_key_index_unique(all, other, i + 1);
        } else if has_key(all, other) {
            let i = key_index(all, other);
            assert(all[i] == entries[i - 1]);
            assert(entries[i - 1].0 == other);
        }
    }
}

/// Dropping the least recently used entry keeps the others distinct and
/// says which keys are left: all but the key that was dropped.
pub proof fn lemma_drop_last(entries: Seq<Entry>)
    requires
        distinct_keys(entries),
        entries.len() > 0,
    ensures
        distinct_keys(entries.drop_last()),
        !has_key(entries.drop_last(), entries.last().0),
        forall|key: Key|
            key != entries.last().0 ==> handle_of(entries.drop_last(), key) == handle_of(
                entries,
                key,
            ),
{
    assert(entries.drop_last() =~= entries.remove(entries.len() - 1));
    lemma_remove_at(entries, entries.len() - 1);
}

/// A well-formed cache stays well formed when a key is used, and the key
/// is then found in front with the handle it had.
pub proof fn lemma_promoted(entries: Seq<Entry>, capacity: nat, key: Key)
    requires
        well_formed(entries, capacity),
    ensures
        well_formed(promoted(entries, key), capacity),
        promoted(entries, key).len() == entries.len(),
        forall|other: Key| handle_of(promoted(entries, key), other) == handle_of(entries, other),
        has_key(entries, key) ==> promoted(entries, key)[0] == (
            key,
            handle_of(entries, key).unwrap(),
        ),
{
    if has_key(entries, key) {
        let at = key_index(entries, key);
        let hwnd = entries[at].1;
        lemma_remove_at(entries, at);
        lemma_push_front(entries.remove(at), key, hwnd);
        assert(entries[at] == (key, hwnd));
        assert(promoted(entries, key) =~= seq![(key, hwnd)] + entries.remove(at));
    }
}

/// A well-formed cache stays well formed when a key is taken out; the key
/// is then absent and every other key keeps its handle.
pub proof fn lemma_removed(entries: Seq<Entry>, capacity: nat, key: Key)
    requires
        well_formed(entries, capacity),
    ensures
        well_formed(removed(entries, key), capacity),
        !has_key(removed(entries, key), key),
        handle_of(removed(entries, key), key) == None::<usize>,
        forall|other: Key|
            other != key ==> handle_of(removed(entries, key), other) == handle_of(entries, other),
        !has_key(entries, key) ==> removed(entries, key) == entries,
{
    if has_key(entries, key) {
        lemma_remove_at(entries, key_index(entries, key));
    }
}

/// A well-formed cache stays well formed when a handle is stored; the key
/// is then found in front with the new handle.
pub proof fn lemma_stored(entries: Seq<Entry>, capacity: nat, key: Key, hwnd: usize)
    requires
        well_formed(entries, capacity),
    ensures
        well_formed(stored(entries, capacity, key, hwnd), capacity),
        stored(entries, capacity, key, hwnd)[0] == (key, hwnd),
        handle_of(stored(entries, capacity, key, hwnd), key) == Some(hwnd),
{
    if has_key(entries, key) {
        let at = key_index(entries, key);
        lemma_remove_at(entries, at);
        lemma_push_front(entries.remove(at), key, hwnd);
    } else if entries.len() == capacity {
        lemma_drop_last(entries);
        assert(!has_key(entries.drop_last(), key)) by {
            if has_key(entries.drop_last(), key) {
                let i = key_index(entries.drop_last(), key);
                assert(entries.drop_last()[i] == entries[i]);
            }
        }
        lemma_push_front(entries.drop_last(), key, hwnd);
    } else {
        lemma_push_front(entries, key, hwnd);
    }
}

} // verus!
