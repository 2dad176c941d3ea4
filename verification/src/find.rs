//! Finding a window by class name and title, directly and through a
//! bounded cache of the handles found before.
//!
//! The platform does two things for this module: it searches for a window
//! and it tells whether a handle still names one. Neither is called from
//! here. A lookup proceeds in steps; each step takes what the platform
//! answered last and says what to ask next, or what the lookup yields.

use crate::entries::{lemma_promoted, lemma_removed, lemma_stored, well_formed};
use crate::error::{outcome, ErrorView, WindowInspectorError};
use crate::store::{
    handle_of, lru_cap, lru_capacity, lru_entries, lru_get, lru_len, lru_peek, lru_pop, lru_put,
    lru_resize, lru_unbounded, promoted, removed, stored, Entry, Key,
};
use crate::wide::{to_wide_string, wide_string};
use lru::LruCache;
use vstd::prelude::*;

verus! {

/// The number of entries a cache holds when no other capacity is asked
/// for.
pub const DEFAULT_CAPACITY: usize = 1024;

/// Whether a class name and a title name no window at all: both are empty.
pub open spec fn is_empty_query(key: Key) -> bool {
    key.0.len() == 0 && key.1.len() == 0
}

/// What the window finder of the platform is asked: a class name and a
/// title as wide strings, each absent where any value will do.
#[derive(Debug, PartialEq, Eq)]
pub struct WindowQuery {
    pub class: Option<Vec<u16>>,
    pub title: Option<Vec<u16>>,
}

impl WindowQuery {
    /// The class name argument, as code units.
    pub open spec fn class_units(&self) -> Option<Seq<u16>> {
        match self.class {
            Some(units) => Some(units@),
            None => None,
        }
    }

    /// The title argument, as code units.
    pub open spec fn title_units(&self) -> Option<Seq<u16>> {
        match self.title {
            Some(units) => Some(units@),
            None => None,
        }
    }
}

/// Prepares the search for a window by class name and title.
///
/// A search with neither is refused; otherwise each text is encoded for
/// the platform, an empty one as "any".
pub fn find_window_query(
    window_class: &str,
    window_title: &str,
) -> (query: Result<WindowQuery, WindowInspectorError>)
    ensures
        match query {
            Ok(query) => {
                &&& !is_empty_query((window_class@, window_title@))
                &&& query.class_units() == wide_string(window_class@)
                &&& query.title_units() == wide_string(window_title@)
            },
            Err(error) => {
                &&& is_empty_query((window_class@, window_title@))
                &&& error@ == ErrorView::WindowClassTitleBothEmpty
            },
        },
{
    if window_class.is_empty() && window_title.is_empty() {
        return Err(WindowInspectorError::WindowClassTitleBothEmpty);
    }
    Ok(window_query(window_class, window_title))
}

fn window_query(window_class: &str, window_title: &str) -> (query: WindowQuery)
    ensures
        query.class_units() == wide_string(window_class@),
        query.title_units() == wide_string(window_title@),
{
    WindowQuery { class: to_wide_string(window_class), title: to_wide_string(window_title) }
}

/// What a search for `key` yields, given what the window finder answered:
/// the handle it found, or the failure with the message it gave. A search
/// with neither class name nor title fails whatever the answer.
pub open spec fn search_outcome(
    key: Key,
    found: Result<usize, Seq<char>>,
) -> Result<usize, ErrorView> {
    if is_empty_query(key) {
        Err(ErrorView::WindowClassTitleBothEmpty)
    } else {
        match found {
            Ok(hwnd) => Ok(hwnd),
            Err(message) => Err(
                ErrorView::FindWindowExWFailed {
                    window_class: key.0,
                    window_title: key.1,
                    error_message: message,
                },
            ),
        }
    }
}

/// The value of an answer of the window finder.
pub open spec fn found_view(found: Result<usize, String>) -> Result<usize, Seq<char>> {
    match found {
        Ok(hwnd) => Ok(hwnd),
        Err(message) => Err(message@),
    }
}

/// The handle of the window with the given class name and title, from the
/// answer of the window finder.
pub fn get_hwnd(
    window_class: &str,
    window_title: &str,
    found: Result<usize, String>,
) -> (hwnd: Result<usize, WindowInspectorError>)
    ensures
        outcome(hwnd) == search_outcome((window_class@, window_title@), found_view(found)),
{
    if window_class.is_empty() && window_title.is_empty() {
        return Err(WindowInspectorError::WindowClassTitleBothEmpty);
    }
    match found {
        Ok(hwnd) => Ok(hwnd),
        Err(error_message) => Err(
            WindowInspectorError::FindWindowExWFailed {
                window_class: window_class.to_owned(),
                window_title: window_title.to_owned(),
                error_message,
            },
        ),
    }
}

/// A cache of window handles by class name and title, bounded in size.
///
/// The entries are ordered by use. When a handle is stored in a full
/// cache, the entry that was used least recently makes room.
pub struct HwndGetterWithCache {
    store: LruCache<(String, String), usize>,
}

impl View for HwndGetterWithCache {
    type V = Seq<Entry>;

    /// The entries, most recently used first.
    closed spec fn view(&self) -> Seq<Entry> {
        lru_entries(self.store)
    }
}

impl HwndGetterWithCache {
    /// The number of entries the cache may hold.
    pub closed spec fn capacity(&self) -> nat {
        lru_capacity(self.store)
    }

    #[verifier::type_invariant]
    spec fn valid(self) -> bool {
        well_formed(self@, self.capacity())
    }

    /// An empty cache for up to `capacity` handles; none for a capacity of
    /// zero.
    pub fn with_capacity(capacity: usize) -> (cache: Option<HwndGetterWithCache>)
        ensures
            cache.is_some() == (capacity > 0),
            cache.is_some() ==> cache.unwrap()@ == Seq::<Entry>::empty()
                && cache.unwrap().capacity() == capacity,
    {
        if capacity == 0 {
            return None;
        }
        let mut store = lru_unbounded();
        lru_resize(&mut store, capacity);
        Some(HwndGetterWithCache { store })
    }

    /// An empty cache of the default capacity.
    pub fn new() -> (cache: HwndGetterWithCache)
        ensures
            cache@ == Seq::<Entry>::empty(),
            cache.capacity() == DEFAULT_CAPACITY,
    {
        let mut store = lru_unbounded();
        lru_resize(&mut store, DEFAULT_CAPACITY);
        HwndGetterWithCache { store }
    }

    /// An empty cache that never gives up an entry to make room: its
    /// capacity is the largest there is.
    pub fn unbounded() -> (cache: HwndGetterWithCache)
        ensures
            cache@ == Seq::<Entry>::empty(),
            cache.capacity() == usize::MAX,
    {
        HwndGetterWithCache { store: lru_unbounded() }
    }

    /// The number of entries.
    pub fn len(&self) -> (len: usize)
        ensures
            len == self@.len(),
    {
        lru_len(&self.store)
    }

    /// The number of entries the cache may hold. A cache is well formed
    /// at all times: it holds no more than that, and one entry per key.
    pub fn cap(&self) -> (capacity: usize)
        ensures
            capacity == self.capacity(),
            well_formed(self@, self.capacity()),
    {
        proof {
            use_type_invariant(self);
        }
        lru_cap(&self.store)
    }

    /// The handle the cache holds for a class name and title, if any. The
    /// order of use is left as it is.
    pub fn peek(&self, window_class: &str, window_title: &str) -> (hwnd: Option<usize>)
        ensures
            hwnd == handle_of(self@, (window_class@, window_title@)),
    {
        let key = (window_class.to_owned(), window_title.to_owned());
        lru_peek(&self.store, &key)
    }
}

impl Default for HwndGetterWithCache {
    fn default() -> (cache: HwndGetterWithCache)
        ensures
            cache@ == Seq::<Entry>::empty(),
            cache.capacity() == DEFAULT_CAPACITY,
    {
        HwndGetterWithCache::new()
    }
}

/// What the platform answered to the last step of a cached lookup.
#[derive(Debug)]
pub enum ResolveEvent {
    /// Nothing yet: the lookup begins.
    Begin,
    /// Whether `hwnd` still names a window.
    Liveness { hwnd: usize, alive: bool },
    /// What the window finder answered: a handle, or the message of its
    /// failure.
    Found(Result<usize, String>),
}

/// The value of a [`ResolveEvent`].
pub enum ResolveEventView {
    Begin,
    Liveness { hwnd: usize, alive: bool },
    Found(Result<usize, Seq<char>>),
}

impl View for ResolveEvent {
    type V = ResolveEventView;

    open spec fn view(&self) -> ResolveEventView {
        match *self {
            ResolveEvent::Begin => ResolveEventView::Begin,
            ResolveEvent::Liveness { hwnd, alive } => ResolveEventView::Liveness { hwnd, alive },
            ResolveEvent::Found(found) => ResolveEventView::Found(found_view(found)),
        }
    }
}

/// What a cached lookup does next.
#[derive(Debug, PartialEq, Eq)]
pub enum ResolveStep {
    /// Ask the platform whether `hwnd` still names a window.
    CheckWindow { hwnd: usize },
    /// Ask the window finder for the class name and title, with these
    /// arguments.
    FindWindow(WindowQuery),
    /// The lookup is over, with this result.
    Done(Result<usize, WindowInspectorError>),
}

/// The value of a [`ResolveStep`].
pub enum ResolveStepView {
    CheckWindow { hwnd: usize },
    FindWindow { class: Option<Seq<u16>>, title: Option<Seq<u16>> },
    Done(Result<usize, ErrorView>),
}

/// The question to the window finder for a key: each text as a wide
/// string, an empty one as "any".
pub open spec fn find_window_step(key: Key) -> ResolveStepView {
    ResolveStepView::FindWindow { class: wide_string(key.0), title: wide_string(key.1) }
}

impl View for ResolveStep {
    type V = ResolveStepView;

    open spec fn view(&self) -> ResolveStepView {
        match *self {
            ResolveStep::CheckWindow { hwnd } => ResolveStepView::CheckWindow { hwnd },
            ResolveStep::FindWindow(query) => ResolveStepView::FindWindow {
                class: query.class_units(),
                title: query.title_units(),
            },
            ResolveStep::Done(result) => ResolveStepView::Done(outcome(result)),
        }
    }
}

/// One step of a cached lookup: the entries after it and what to do next.
///
/// * A lookup with neither class name nor title is over at once, in
///   failure, and leaves the cache alone.
/// * At the beginning, a key that the cache holds is marked as used and
///   its handle is to be checked; for any other key the finder is asked,
///   with the class name and the title as wide strings.
/// * A handle that is alive is the result. Nothing else is asked of it:
///   the window may have changed its title since. The entry of a handle
///   that is not alive is taken out, and the finder is asked.
/// * A handle that the finder found is stored and is the result. Where it
///   found none, the lookup fails and nothing is stored.
pub open spec fn resolve_step(
    entries: Seq<Entry>,
    capacity: nat,
    key: Key,
    event: ResolveEventView,
) -> (Seq<Entry>, ResolveStepView) {
    if is_empty_query(key) {
        (entries, ResolveStepView::Done(Err(ErrorView::WindowClassTitleBothEmpty)))
    } else {
        match event {
            ResolveEventView::Begin => match handle_of(entries, key) {
                Some(hwnd) => (promoted(entries, key), ResolveStepView::CheckWindow { hwnd }),
                None => (entries, find_window_step(key)),
            },
            ResolveEventView::Liveness { hwnd, alive } => if alive {
                (entries, ResolveStepView::Done(Ok(hwnd)))
            } else {
                (removed(entries, key), find_window_step(key))
            },
            ResolveEventView::Found(found) => match found {
                Ok(hwnd) => (
                    stored(entries, capacity, key, hwnd),
                    ResolveStepView::Done(Ok(hwnd)),
                ),
                Err(_) => (entries, ResolveStepView::Done(search_outcome(key, found))),
            },
        }
    }
}

/// The handle of the window with the given class name and title, with
/// reference to the cache: one step of the lookup.
///
/// The caller begins with [`ResolveEvent::Begin`], does what each step
/// asks, and hands the answer to the next call, until a step is
/// [`ResolveStep::Done`].
pub fn get_hwnd_ref_cache(
    cache: &mut HwndGetterWithCache,
    window_class: &str,
    window_title: &str,
    event: ResolveEvent,
) -> (step: ResolveStep)
    ensures
        final(cache)@ == resolve_step(
            old(cache)@,
            old(cache).capacity(),
            (window_class@, window_title@),
            event@,
        ).0,
        step@ == resolve_step(
            old(cache)@,
            old(cache).capacity(),
            (window_class@, window_title@),
            event@,
        ).1,
        final(cache).capacity() == old(cache).capacity(),
        well_formed(old(cache)@, old(cache).capacity()),
        well_formed(final(cache)@, final(cache).capacity()),
{
    proof {
        use_type_invariant(&*cache);
    }
    if window_class.is_empty() && window_title.is_empty() {
        return ResolveStep::Done(Err(WindowInspectorError::WindowClassTitleBothEmpty));
    }
    let key = (window_class.to_owned(), window_title.to_owned());
    let ghost before = cache@;
    let ghost capacity = cache.capacity();
    match event {
        ResolveEvent::Begin => {
            proof {
                lemma_promoted(before, capacity, key@);
            }
            match lru_get(&mut cache.store, &key) {
                Some(hwnd) => ResolveStep::CheckWindow { hwnd },
                None => ResolveStep::FindWindow(window_query(window_class, window_title)),
            }
        },
        ResolveEvent::Liveness { hwnd, alive } => {
            if alive {
                ResolveStep::Done(Ok(hwnd))
            } else {
                proof {
                    lemma_removed(before, capacity, key@);
                }
                lru_pop(&mut cache.store, &key);
                ResolveStep::FindWindow(window_query(window_class, window_title))
            }
        },
        ResolveEvent::Found(found) => {
            match found {
                Ok(hwnd) => {
                    proof {
                        lemma_stored(before, capacity, key@, hwnd);
                    }
                    lru_put(&mut cache.store, key, hwnd);
                    ResolveStep::Done(Ok(hwnd))
                },
                Err(_) => ResolveStep::Done(get_hwnd(window_class, window_title, found)),
            }
        },
    }
}

} // verus!
