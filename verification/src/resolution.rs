//! Whole lookups: what the steps of a cached lookup amount to when they
//! are run against a desktop, and the laws that follow.

use crate::entries::{
    lemma_drop_last, lemma_key_index, lemma_key_index_unique, lemma_promoted, lemma_push_front,
    lemma_removed, lemma_stored, well_formed,
};
use crate::error::ErrorView;
use crate::find::{is_empty_query, resolve_step, search_outcome, ResolveEventView, ResolveStepView};
use crate::store::{handle_of, has_key, key_index, promoted, removed, stored, Entry, Key};
use vstd::prelude::*;

verus! {

/// A desktop as a lookup meets it: the handles that name a window, and
/// what the window finder answers for each class name and title.
pub struct Desktop {
    pub windows: Set<usize>,
    pub finder: spec_fn(Key) -> Result<usize, Seq<char>>,
}

impl Desktop {
    /// The window finder finds windows only.
    pub open spec fn consistent(self) -> bool {
        forall|key: Key|
            (#[trigger] (self.finder)(key)) matches Ok(hwnd) ==> self.windows.contains(hwnd)
    }
}

/// How a lookup ended.
pub struct Resolution {
    /// The entries of the cache after the lookup.
    pub entries: Seq<Entry>,
    /// What the caller gets.
    pub result: Result<usize, ErrorView>,
    /// How often the platform was asked whether a handle is alive.
    pub liveness_checks: nat,
    /// How often the window finder was asked.
    pub finder_calls: nat,
}

/// The end of a lookup that asks the window finder, after `liveness_checks`
/// questions about handles.
pub open spec fn search(
    entries: Seq<Entry>,
    capacity: nat,
    key: Key,
    desktop: Desktop,
    liveness_checks: nat,
) -> Resolution {
    let (after, step) = resolve_step(
        entries,
        capacity,
        key,
        ResolveEventView::Found((desktop.finder)(key)),
    );
    Resolution { entries: after, result: step->Done_0, liveness_checks, finder_calls: 1 }
}

/// A lookup from beginning to end: every step is taken, and every
/// question is answered by the desktop.
pub open spec fn resolve(
    entries: Seq<Entry>,
    capacity: nat,
    key: Key,
    desktop: Desktop,
) -> Resolution {
    let (first_entries, first) = resolve_step(entries, capacity, key, ResolveEventView::Begin);
    match first {
        ResolveStepView::Done(result) => Resolution {
            entries: first_entries,
            result,
            liveness_checks: 0,
            finder_calls: 0,
        },
        ResolveStepView::FindWindow { .. } => search(first_entries, capacity, key, desktop, 0),
        ResolveStepView::CheckWindow { hwnd } => {
            let (second_entries, second) = resolve_step(
                first_entries,
                capacity,
                key,
                ResolveEventView::Liveness { hwnd, alive: desktop.windows.contains(hwnd) },
            );
            match second {
                ResolveStepView::Done(result) => Resolution {
                    entries: second_entries,
                    result,
                    liveness_checks: 1,
                    finder_calls: 0,
                },
                _ => search(second_entries, capacity, key, desktop, 1),
            }
        },
    }
}

/// The entries after one lookup for each of `keys`, in order.
pub open spec fn resolve_all(
    entries: Seq<Entry>,
    capacity: nat,
    keys: Seq<Key>,
    desktop: Desktop,
) -> Seq<Entry>
    decreases keys.len(),
{
    if keys.len() == 0 {
        entries
    } else {
        resolve(
            resolve_all(entries, capacity, keys.drop_last(), desktop),
            capacity,
            keys.last(),
            desktop,
        ).entries
    }
}

/// The entries of a cache in which `keys` were found one after the other,
/// none of them making room for another: the last key in front.
pub open spec fn found_in_order(keys: Seq<Key>, desktop: Desktop) -> Seq<Entry> {
    Seq::new(
        keys.len(),
        |i: int| (keys[keys.len() - 1 - i], (desktop.finder)(keys[keys.len() - 1 - i])->Ok_0),
    )
}

/// The steps of a lookup make progress: an answer about a handle never
/// leads to another question about a handle, and an answer of the finder
/// ends the lookup. So `resolve` takes every step there is.
pub proof fn lemma_steps_progress(
    entries: Seq<Entry>,
    capacity: nat,
    key: Key,
    event: ResolveEventView,
)
    ensures
        event is Liveness ==> !(resolve_step(entries, capacity, key, event).1 is CheckWindow),
        event is Found ==> resolve_step(entries, capacity, key, event).1 is Done,
        event is Found ==> resolve_step(entries, capacity, key, event).1->Done_0 == search_outcome(
            key,
            event->Found_0,
        ),
{
}

/// A step yields a handle only from what the platform has just said of
/// it: that the handle is alive, or that the finder found it. This holds
/// whatever the cache holds at that step, and so for lookups whose steps
/// are interleaved with those of others on a shared cache.
pub proof fn lemma_handle_was_just_seen(
    entries: Seq<Entry>,
    capacity: nat,
    key: Key,
    event: ResolveEventView,
    hwnd: usize,
)
    requires
        resolve_step(entries, capacity, key, event).1 == ResolveStepView::Done(Ok(hwnd)),
    ensures
        event == (ResolveEventView::Liveness { hwnd, alive: true }) || event
            == ResolveEventView::Found(Ok(hwnd)),
        !is_empty_query(key),
{
}

/// Every step leaves a well-formed cache well formed, whatever the event.
pub proof fn lemma_step_well_formed(
    entries: Seq<Entry>,
    capacity: nat,
    key: Key,
    event: ResolveEventView,
)
    requires
        well_formed(entries, capacity),
    ensures
        well_formed(resolve_step(entries, capacity, key, event).0, capacity),
{
    lemma_promoted(entries, capacity, key);
    lemma_removed(entries, capacity, key);
    match event {
        ResolveEventView::Found(Ok(hwnd)) => {
            lemma_stored(entries, capacity, key, hwnd);
        },
        _ => {},
    }
}

/// A lookup leaves a well-formed cache well formed.
pub proof fn lemma_resolve_well_formed(
    entries: Seq<Entry>,
    capacity: nat,
    key: Key,
    desktop: Desktop,
)
    requires
        well_formed(entries, capacity),
    ensures
        well_formed(resolve(entries, capacity, key, desktop).entries, capacity),
{
    lemma_promoted(entries, capacity, key);
    lemma_removed(promoted(entries, key), capacity, key);
    lemma_removed(entries, capacity, key);
    let found = (desktop.finder)(key);
    if found is Ok {
        lemma_stored(entries, capacity, key, found->Ok_0);
        lemma_stored(removed(promoted(entries, key), key), capacity, key, found->Ok_0);
    }
}

/// A lookup with neither class name nor title fails as such, whatever the
/// cache holds, and asks the platform nothing.
pub proof fn lemma_empty_query_fails(entries: Seq<Entry>, capacity: nat, key: Key, desktop: Desktop)
    requires
        is_empty_query(key),
    ensures
        resolve(entries, capacity, key, desktop) == (Resolution {
            entries,
            result: Err(ErrorView::WindowClassTitleBothEmpty),
            liveness_checks: 0,
            finder_calls: 0,
        }),
{
}

/// While the handle in the cache is alive, it is the result, and the
/// window finder is not asked: whatever it would answer now, be it
/// another window or none.
pub proof fn lemma_live_entry_is_returned(
    entries: Seq<Entry>,
    capacity: nat,
    key: Key,
    desktop: Desktop,
    hwnd: usize,
)
    requires
        !is_empty_query(key),
        handle_of(entries, key) == Some(hwnd),
        desktop.windows.contains(hwnd),
    ensures
        resolve(entries, capacity, key, desktop) == (Resolution {
            entries: promoted(entries, key),
            result: Ok(hwnd),
            liveness_checks: 1,
            finder_calls: 0,
        }),
{
}

/// A key that the cache does not hold is looked up by the window finder,
/// once, and the handle it finds is stored.
pub proof fn lemma_absent_key_is_searched(
    entries: Seq<Entry>,
    capacity: nat,
    key: Key,
    desktop: Desktop,
)
    requires
        !is_empty_query(key),
        !has_key(entries, key),
    ensures
        resolve(entries, capacity, key, desktop).finder_calls == 1,
        resolve(entries, capacity, key, desktop).liveness_checks == 0,
        resolve(entries, capacity, key, desktop).result == search_outcome(
            key,
            (desktop.finder)(key),
        ),
        (desktop.finder)(key) matches Ok(hwnd) ==> resolve(entries, capacity, key, desktop).entries
            == stored(entries, capacity, key, hwnd),
        (desktop.finder)(key) is Err ==> resolve(entries, capacity, key, desktop).entries
            == entries,
{
}

/// Where the window of the handle in the cache is gone, the handle is not
/// returned as it stands: its entry is taken out and the window finder is
/// asked again.
pub proof fn lemma_dead_entry_is_searched_again(
    entries: Seq<Entry>,
    capacity: nat,
    key: Key,
    desktop: Desktop,
    hwnd: usize,
)
    requires
        well_formed(entries, capacity),
        !is_empty_query(key),
        handle_of(entries, key) == Some(hwnd),
        !desktop.windows.contains(hwnd),
    ensures
        resolve(entries, capacity, key, desktop).finder_calls == 1,
        resolve(entries, capacity, key, desktop).liveness_checks == 1,
        resolve(entries, capacity, key, desktop).result == search_outcome(
            key,
            (desktop.finder)(key),
        ),
        (desktop.finder)(key) is Err ==> resolve(entries, capacity, key, desktop).entries
            == removed(entries, key),
        (desktop.finder)(key) is Err ==> !has_key(
            resolve(entries, capacity, key, desktop).entries,
            key,
        ),
        (desktop.finder)(key) matches Ok(found) ==> handle_of(
            resolve(entries, capacity, key, desktop).entries,
            key,
        ) == Some(found),
        desktop.consistent() ==> resolve(entries, capacity, key, desktop).result != Ok::<
            usize,
            ErrorView,
        >(hwnd),
{
    lemma_promoted(entries, capacity, key);
    let used = promoted(entries, key);
    lemma_removed(used, capacity, key);
    lemma_removed(entries, capacity, key);
    assert(removed(used, key) =~= removed(entries, key)) by {
        let at = key_index(entries, key);
        lemma_key_index_unique(used, key, 0);
        assert(used.remove(0) =~= entries.remove(at));
    }
    let found = (desktop.finder)(key);
    if found is Ok {
        lemma_stored(removed(used, key), capacity, key, found->Ok_0);
    }
}

/// Two lookups for the same key in immediate succession, with the desktop
/// as it was: where the first yields a handle, the second yields the same
/// handle and does not ask the window finder.
pub proof fn lemma_repeated_lookup_hits(
    entries: Seq<Entry>,
    capacity: nat,
    key: Key,
    desktop: Desktop,
)
    requires
        well_formed(entries, capacity),
        desktop.consistent(),
        resolve(entries, capacity, key, desktop).result is Ok,
    ensures
        resolve(
            resolve(entries, capacity, key, desktop).entries,
            capacity,
            key,
            desktop,
        ).result == resolve(entries, capacity, key, desktop).result,
        resolve(
            resolve(entries, capacity, key, desktop).entries,
            capacity,
            key,
            desktop,
        ).finder_calls == 0,
{
    let first = resolve(entries, capacity, key, desktop);
    let hwnd = first.result->Ok_0;
    lemma_resolve_returns_cached_window(entries, capacity, key, desktop);
    lemma_live_entry_is_returned(first.entries, capacity, key, desktop, hwnd);
}

/// Every handle that a lookup yields names a window at that time, and is
/// then the handle that the cache holds for the key.
pub proof fn lemma_resolve_returns_cached_window(
    entries: Seq<Entry>,
    capacity: nat,
    key: Key,
    desktop: Desktop,
)
    requires
        well_formed(entries, capacity),
        desktop.consistent(),
    ensures
        resolve(entries, capacity, key, desktop).result matches Ok(hwnd) ==> {
            &&& !is_empty_query(key)
            &&& desktop.windows.contains(hwnd)
            &&& handle_of(resolve(entries, capacity, key, desktop).entries, key) == Some(hwnd)
        },
{
    lemma_promoted(entries, capacity, key);
    let used = promoted(entries, key);
    lemma_removed(used, capacity, key);
    let found = (desktop.finder)(key);
    if found is Ok {
        lemma_stored(entries, capacity, key, found->Ok_0);
        lemma_stored(removed(used, key), capacity, key, found->Ok_0);
    }
}

/// The entry of the key after a lookup: the handle that the lookup
/// yielded, as the most recently used entry, or none where it failed.
pub proof fn lemma_entry_follows_result(
    entries: Seq<Entry>,
    capacity: nat,
    key: Key,
    desktop: Desktop,
)
    requires
        well_formed(entries, capacity),
        !is_empty_query(key),
    ensures
        match resolve(entries, capacity, key, desktop).result {
            Ok(hwnd) => {
                &&& resolve(entries, capacity, key, desktop).entries[0] == (key, hwnd)
                &&& handle_of(resolve(entries, capacity, key, desktop).entries, key) == Some(hwnd)
            },
            Err(_) => !has_key(resolve(entries, capacity, key, desktop).entries, key),
        },
{
    lemma_promoted(entries, capacity, key);
    let used = promoted(entries, key);
    lemma_removed(used, capacity, key);
    let found = (desktop.finder)(key);
    if found is Ok {
        lemma_stored(entries, capacity, key, found->Ok_0);
        lemma_stored(removed(used, key), capacity, key, found->Ok_0);
    }
}

/// A lookup leaves the entries of all other keys as they were, with one
/// exception: where the key was not held, was found, and the cache was
/// full, the least recently used entry is given up.
pub proof fn lemma_other_entries_stay(
    entries: Seq<Entry>,
    capacity: nat,
    key: Key,
    desktop: Desktop,
    other: Key,
)
    requires
        well_formed(entries, capacity),
        other != key,
    ensures
        handle_of(resolve(entries, capacity, key, desktop).entries, other) == handle_of(
            entries,
            other,
        ) || {
            &&& !has_key(resolve(entries, capacity, key, desktop).entries, other)
            &&& !has_key(entries, key)
            &&& resolve(entries, capacity, key, desktop).result is Ok
            &&& entries.len() == capacity
            &&& other == entries.last().0
        },
{
    lemma_promoted(entries, capacity, key);
    let used = promoted(entries, key);
    lemma_removed(used, capacity, key);
    let found = (desktop.finder)(key);
    if !is_empty_query(key) && found is Ok {
        let hwnd = found->Ok_0;
        if has_key(entries, key) {
            let rest = removed(used, key);
            assert(!has_key(rest, key));
            assert(rest.len() < capacity) by {
                lemma_key_index(used, key);
            }
            lemma_push_front(rest, key, hwnd);
            assert(stored(rest, capacity, key, hwnd) == seq![(key, hwnd)] + rest);
        } else if entries.len() == capacity {
            lemma_full_cache_evicts_least_recent(entries, capacity, key, desktop);
        } else {
            lemma_push_front(entries, key, hwnd);
        }
    }
}

/// A lookup that fails leaves no entry for its key: nothing is stored for
/// a window that was not found, so the next lookup for the key goes to
/// the window finder again. The entries of all other keys stay.
pub proof fn lemma_failed_lookup_stores_nothing(
    entries: Seq<Entry>,
    capacity: nat,
    key: Key,
    desktop: Desktop,
)
    requires
        well_formed(entries, capacity),
        !is_empty_query(key),
        resolve(entries, capacity, key, desktop).result is Err,
    ensures
        resolve(entries, capacity, key, desktop).entries == removed(entries, key),
        !has_key(resolve(entries, capacity, key, desktop).entries, key),
        forall|other: Key|
            other != key ==> handle_of(resolve(entries, capacity, key, desktop).entries, other)
                == handle_of(entries, other),
        resolve(
            resolve(entries, capacity, key, desktop).entries,
            capacity,
            key,
            desktop,
        ).finder_calls == 1,
{
    lemma_promoted(entries, capacity, key);
    lemma_removed(promoted(entries, key), capacity, key);
}

/// A full cache makes room for a key that it does not hold by giving up
/// exactly one entry, the least recently used: the new entry stands in
/// front, the others follow in their order, and a later lookup for the
/// key that left goes to the window finder again.
pub proof fn lemma_full_cache_evicts_least_recent(
    entries: Seq<Entry>,
    capacity: nat,
    key: Key,
    desktop: Desktop,
)
    requires
        well_formed(entries, capacity),
        entries.len() == capacity,
        !is_empty_query(key),
        !has_key(entries, key),
        (desktop.finder)(key) is Ok,
    ensures
        resolve(entries, capacity, key, desktop).entries == seq![
            (key, (desktop.finder)(key)->Ok_0),
        ] + entries.drop_last(),
        resolve(entries, capacity, key, desktop).entries.len() == capacity,
        !has_key(resolve(entries, capacity, key, desktop).entries, entries.last().0),
        forall|other: Key|
            other != key && other != entries.last().0 ==> handle_of(
                resolve(entries, capacity, key, desktop).entries,
                other,
            ) == handle_of(entries, other),
        !is_empty_query(entries.last().0) ==> resolve(
            resolve(entries, capacity, key, desktop).entries,
            capacity,
            entries.last().0,
            desktop,
        ).finder_calls == 1,
{
    let hwnd = (desktop.finder)(key)->Ok_0;
    let after = resolve(entries, capacity, key, desktop).entries;
    let rest = entries.drop_last();
    assert(after == seq![(key, hwnd)] + rest);
    lemma_drop_last(entries);
    assert(!has_key(rest, key)) by {
        if has_key(rest, key) {
            let at = key_index(rest, key);
            assert(rest[at] == entries[at]);
        }
    }
    lemma_push_front(rest, key, hwnd);
    assert(entries.last().0 != key) by {
        assert(entries[entries.len() - 1].0 == entries.last().0);
    }
    assert(!has_key(after, entries.last().0)) by {
        assert(handle_of(after, entries.last().0) == handle_of(rest, entries.last().0));
    }
    if !is_empty_query(entries.last().0) {
        lemma_absent_key_is_searched(after, capacity, entries.last().0, desktop);
    }
}

/// Lookups for no more distinct keys than the cache has room for, each of
/// them found, fill an empty cache in order and lose nothing.
pub proof fn lemma_fill_keeps_all(capacity: nat, keys: Seq<Key>, desktop: Desktop)
    requires
        0 < capacity,
        keys.len() <= capacity,
        keys.no_duplicates(),
        forall|i: int| 0 <= i < keys.len() ==> !is_empty_query(#[trigger] keys[i]),
        forall|i: int| 0 <= i < keys.len() ==> (desktop.finder)(#[trigger] keys[i]) is Ok,
    ensures
        resolve_all(Seq::empty(), capacity, keys, desktop) == found_in_order(keys, desktop),
        well_formed(found_in_order(keys, desktop), capacity),
    decreases keys.len(),
{
    if keys.len() == 0 {
        assert(found_in_order(keys, desktop) =~= Seq::<Entry>::empty());
    } else {
        let earlier = keys.drop_last();
        let key = keys.last();
        lemma_fill_keeps_all(capacity, earlier, desktop);
        let before = found_in_order(earlier, desktop);
        assert(!has_key(before, key)) by {
            if has_key(before, key) {
                let at = key_index(before, key);
                assert(before[at].0 == earlier[earlier.len() - 1 - at]);
                assert(keys[earlier.len() - 1 - at] == keys[keys.len() - 1]);
            }
        }
        lemma_absent_key_is_searched(before, capacity, key, desktop);
        let hwnd = (desktop.finder)(key)->Ok_0;
        lemma_stored(before, capacity, key, hwnd);
        assert(stored(before, capacity, key, hwnd) =~= found_in_order(keys, desktop));
    }
}

/// One lookup more than a cache has room for, all for distinct keys and
/// all found, starting from an empty cache: exactly one entry is given up,
/// that of the first key. The others are all there, in order of use, and
/// a later lookup for the first key goes to the window finder again.
pub proof fn lemma_overfill_evicts_first(capacity: nat, keys: Seq<Key>, desktop: Desktop)
    requires
        0 < capacity,
        keys.len() == capacity + 1,
        keys.no_duplicates(),
        forall|i: int| 0 <= i < keys.len() ==> !is_empty_query(#[trigger] keys[i]),
        forall|i: int| 0 <= i < keys.len() ==> (desktop.finder)(#[trigger] keys[i]) is Ok,
    ensures
        resolve_all(Seq::empty(), capacity, keys, desktop) == found_in_order(
            keys.subrange(1, keys.len() as int),
            desktop,
        ),
        resolve_all(Seq::empty(), capacity, keys, desktop).len() == capacity,
        !has_key(resolve_all(Seq::empty(), capacity, keys, desktop), keys[0]),
        resolve(
            resolve_all(Seq::empty(), capacity, keys, desktop),
            capacity,
            keys[0],
            desktop,
        ).finder_calls == 1,
{
    let earlier = keys.drop_last();
    let key = keys.last();
    lemma_fill_keeps_all(capacity, earlier, desktop);
    let before = found_in_order(earlier, desktop);
    assert(!has_key(before, key)) by {
        if has_key(before, key) {
            let at = key_index(before, key);
            assert(before[at].0 == earlier[earlier.len() - 1 - at]);
            assert(keys[earlier.len() - 1 - at] == keys[keys.len() - 1]);
        }
    }
    assert(before.last().0 == keys[0]);
    lemma_full_cache_evicts_least_recent(before, capacity, key, desktop);
    let after = resolve(before, capacity, key, desktop).entries;
    assert(after =~= found_in_order(keys.subrange(1, keys.len() as int), desktop));
    assert(resolve_all(Seq::empty(), capacity, keys, desktop) == after);
}

} // verus!
