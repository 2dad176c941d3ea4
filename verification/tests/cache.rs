use window_inspector::error::WindowInspectorError;
use window_inspector::find::{
    find_window_query, get_hwnd, get_hwnd_ref_cache, HwndGetterWithCache, ResolveEvent,
    ResolveStep, WindowQuery, DEFAULT_CAPACITY,
};

/// A window of the desktop that the tests run against.
struct Window {
    hwnd: usize,
    class: String,
    title: String,
}

/// A desktop that counts what it is asked.
struct Desktop {
    windows: Vec<Window>,
    finder_calls: usize,
    liveness_checks: usize,
}

fn text_of(units: &Option<Vec<u16>>) -> Option<String> {
    units.as_ref().map(|units| {
        assert_eq!(units.last(), Some(&0u16));
        String::from_utf16(&units[..units.len() - 1]).unwrap()
    })
}

impl Desktop {
    fn new() -> Desktop {
        Desktop { windows: Vec::new(), finder_calls: 0, liveness_checks: 0 }
    }

    fn open(&mut self, hwnd: usize, class: &str, title: &str) {
        self.windows.push(Window { hwnd, class: class.to_string(), title: title.to_string() });
    }

    fn close(&mut self, hwnd: usize) {
        self.windows.retain(|window| window.hwnd != hwnd);
    }

    fn retitle(&mut self, hwnd: usize, title: &str) {
        for window in self.windows.iter_mut() {
            if window.hwnd == hwnd {
                window.title = title.to_string();
            }
        }
    }

    fn is_window(&mut self, hwnd: usize) -> bool {
        self.liveness_checks += 1;
        self.windows.iter().any(|window| window.hwnd == hwnd)
    }

    fn find_window(&mut self, query: &WindowQuery) -> Result<usize, String> {
        self.finder_calls += 1;
        let class = text_of(&query.class);
        let title = text_of(&query.title);
        self.windows
            .iter()
            .find(|window| {
                class.as_ref().map_or(true, |class| *class == window.class)
                    && title.as_ref().map_or(true, |title| *title == window.title)
            })
            .map(|window| window.hwnd)
            .ok_or_else(|| "no such window".to_string())
    }
}

/// Runs a cached lookup to its end against the desktop.
fn resolve(
    cache: &mut HwndGetterWithCache,
    desktop: &mut Desktop,
    class: &str,
    title: &str,
) -> Result<usize, WindowInspectorError> {
    let mut event = ResolveEvent::Begin;
    loop {
        match get_hwnd_ref_cache(cache, class, title, event) {
            ResolveStep::Done(result) => return result,
            ResolveStep::CheckWindow { hwnd } => {
                event = ResolveEvent::Liveness { hwnd, alive: desktop.is_window(hwnd) };
            }
            ResolveStep::FindWindow(query) => {
                event = ResolveEvent::Found(desktop.find_window(&query));
            }
        }
    }
}

fn not_found(class: &str, title: &str) -> WindowInspectorError {
    WindowInspectorError::FindWindowExWFailed {
        window_class: class.to_string(),
        window_title: title.to_string(),
        error_message: "no such window".to_string(),
    }
}

#[test]
fn test_get_hwnd() {
    let mut desktop = Desktop::new();
    desktop.open(0x0001_0A2C, "Notepad", "无标题");
    for _ in 0..1000 {
        let query = find_window_query("", "无标题").unwrap();
        let hwnd = get_hwnd("", "无标题", desktop.find_window(&query)).unwrap();
        assert!(desktop.is_window(hwnd));
    }
}

#[test]
fn get_hwnd_refuses_empty_query_whatever_was_found() {
    assert_eq!(get_hwnd("", "", Ok(5)), Err(WindowInspectorError::WindowClassTitleBothEmpty));
    assert_eq!(
        get_hwnd("", "", Err("gone".to_string())),
        Err(WindowInspectorError::WindowClassTitleBothEmpty)
    );
}

#[test]
fn get_hwnd_reports_what_was_looked_for() {
    assert_eq!(get_hwnd("Notepad", "", Ok(0x42)), Ok(0x42));
    assert_eq!(
        get_hwnd("Notepad", "a.txt", Err("code 0".to_string())),
        Err(WindowInspectorError::FindWindowExWFailed {
            window_class: "Notepad".to_string(),
            window_title: "a.txt".to_string(),
            error_message: "code 0".to_string(),
        })
    );
}

#[test]
fn query_is_refused_without_class_and_title() {
    assert!(matches!(
        find_window_query("", ""),
        Err(WindowInspectorError::WindowClassTitleBothEmpty)
    ));
}

#[test]
fn query_holds_wide_strings() {
    let query = find_window_query("Notepad", "").unwrap();
    assert_eq!(
        query.class,
        Some(vec![0x4E, 0x6F, 0x74, 0x65, 0x70, 0x61, 0x64, 0])
    );
    assert_eq!(query.title, None);
    let query = find_window_query("", "无标题").unwrap();
    assert_eq!(query.class, None);
    assert_eq!(query.title, Some(vec![0x65E0, 0x6807, 0x9898, 0]));
}

#[test]
fn new_cache_is_empty_with_default_capacity() {
    let cache = HwndGetterWithCache::new();
    assert_eq!(cache.len(), 0);
    assert_eq!(cache.cap(), DEFAULT_CAPACITY);
    assert_eq!(DEFAULT_CAPACITY, 1024);
    assert_eq!(cache.peek("Notepad", ""), None);
}

#[test]
fn capacity_zero_gives_no_cache() {
    assert!(HwndGetterWithCache::with_capacity(0).is_none());
    let cache = HwndGetterWithCache::with_capacity(3).unwrap();
    assert_eq!(cache.cap(), 3);
    assert_eq!(cache.len(), 0);
    let cache = HwndGetterWithCache::with_capacity(usize::MAX).unwrap();
    assert_eq!(cache.cap(), usize::MAX);
}

#[test]
fn empty_query_is_refused() {
    let mut cache = HwndGetterWithCache::new();
    let step = get_hwnd_ref_cache(&mut cache, "", "", ResolveEvent::Begin);
    assert_eq!(step, ResolveStep::Done(Err(WindowInspectorError::WindowClassTitleBothEmpty)));
    assert_eq!(cache.len(), 0);
}

#[test]
fn empty_query_is_refused_whatever_the_cache_holds() {
    let mut cache = HwndGetterWithCache::new();
    let mut desktop = Desktop::new();
    desktop.open(7, "Notepad", "a.txt - Notepad");
    assert_eq!(resolve(&mut cache, &mut desktop, "Notepad", ""), Ok(7));
    let calls = desktop.finder_calls;
    assert_eq!(
        resolve(&mut cache, &mut desktop, "", ""),
        Err(WindowInspectorError::WindowClassTitleBothEmpty)
    );
    assert_eq!(desktop.finder_calls, calls);
    assert_eq!(cache.len(), 1);
    for event in [
        ResolveEvent::Liveness { hwnd: 7, alive: true },
        ResolveEvent::Liveness { hwnd: 7, alive: false },
        ResolveEvent::Found(Ok(7)),
        ResolveEvent::Found(Err("gone".to_string())),
    ] {
        assert_eq!(
            get_hwnd_ref_cache(&mut cache, "", "", event),
            ResolveStep::Done(Err(WindowInspectorError::WindowClassTitleBothEmpty))
        );
    }
    assert_eq!(cache.len(), 1);
    assert_eq!(cache.peek("Notepad", ""), Some(7));
}

#[test]
fn second_lookup_does_not_ask_the_finder() {
    let mut cache = HwndGetterWithCache::new();
    let mut desktop = Desktop::new();
    desktop.open(0x50, "Shell_TrayWnd", "");
    desktop.open(0x51, "Notepad", "a.txt - Notepad");
    let first = resolve(&mut cache, &mut desktop, "Notepad", "a.txt - Notepad");
    assert_eq!(first, Ok(0x51));
    assert_eq!(desktop.finder_calls, 1);
    assert_eq!(desktop.liveness_checks, 0);
    let second = resolve(&mut cache, &mut desktop, "Notepad", "a.txt - Notepad");
    assert_eq!(second, first);
    assert_eq!(desktop.finder_calls, 1);
    assert_eq!(desktop.liveness_checks, 1);
}

#[test]
fn class_alone_and_title_alone_are_keys_of_their_own() {
    let mut cache = HwndGetterWithCache::new();
    let mut desktop = Desktop::new();
    desktop.open(1, "Notepad", "a.txt");
    desktop.open(2, "Edit", "b.txt");
    assert_eq!(resolve(&mut cache, &mut desktop, "Notepad", ""), Ok(1));
    assert_eq!(resolve(&mut cache, &mut desktop, "", "b.txt"), Ok(2));
    assert_eq!(resolve(&mut cache, &mut desktop, "", "Notepad"), Err(not_found("", "Notepad")));
    assert_eq!(cache.len(), 2);
    assert_eq!(cache.peek("Notepad", ""), Some(1));
    assert_eq!(cache.peek("", "b.txt"), Some(2));
    assert_eq!(cache.peek("", "Notepad"), None);
}

#[test]
fn steps_of_a_first_lookup() {
    let mut cache = HwndGetterWithCache::with_capacity(4).unwrap();
    assert_eq!(
        get_hwnd_ref_cache(&mut cache, "Notepad", "", ResolveEvent::Begin),
        ResolveStep::FindWindow(WindowQuery {
            class: Some(vec![0x4E, 0x6F, 0x74, 0x65, 0x70, 0x61, 0x64, 0]),
            title: None,
        })
    );
    assert_eq!(cache.len(), 0);
    assert_eq!(
        get_hwnd_ref_cache(&mut cache, "Notepad", "", ResolveEvent::Found(Ok(0x1234))),
        ResolveStep::Done(Ok(0x1234))
    );
    assert_eq!(cache.len(), 1);
    assert_eq!(cache.peek("Notepad", ""), Some(0x1234));
    assert_eq!(
        get_hwnd_ref_cache(&mut cache, "Notepad", "", ResolveEvent::Begin),
        ResolveStep::CheckWindow { hwnd: 0x1234 }
    );
    assert_eq!(
        get_hwnd_ref_cache(
            &mut cache,
            "Notepad",
            "",
            ResolveEvent::Liveness { hwnd: 0x1234, alive: true }
        ),
        ResolveStep::Done(Ok(0x1234))
    );
    assert_eq!(cache.len(), 1);
}

#[test]
fn dead_handle_is_looked_up_again() {
    let mut cache = HwndGetterWithCache::new();
    let mut desktop = Desktop::new();
    desktop.open(10, "Notepad", "a.txt - Notepad");
    assert_eq!(resolve(&mut cache, &mut desktop, "Notepad", ""), Ok(10));
    desktop.close(10);
    desktop.open(11, "Notepad", "b.txt - Notepad");
    assert_eq!(resolve(&mut cache, &mut desktop, "Notepad", ""), Ok(11));
    assert_eq!(desktop.finder_calls, 2);
    assert_eq!(desktop.liveness_checks, 1);
    assert_eq!(cache.peek("Notepad", ""), Some(11));
    assert_eq!(cache.len(), 1);
}

#[test]
fn dead_handle_without_successor_is_not_found_and_forgotten() {
    let mut cache = HwndGetterWithCache::new();
    let mut desktop = Desktop::new();
    desktop.open(10, "Notepad", "a.txt - Notepad");
    assert_eq!(resolve(&mut cache, &mut desktop, "Notepad", ""), Ok(10));
    desktop.close(10);
    assert_eq!(resolve(&mut cache, &mut desktop, "Notepad", ""), Err(not_found("Notepad", "")));
    assert_eq!(desktop.finder_calls, 2);
    assert_eq!(cache.len(), 0);
    assert_eq!(cache.peek("Notepad", ""), None);
    assert_eq!(resolve(&mut cache, &mut desktop, "Notepad", ""), Err(not_found("Notepad", "")));
    assert_eq!(desktop.finder_calls, 3);
    assert_eq!(desktop.liveness_checks, 1);
}

#[test]
fn dead_handle_step_takes_the_entry_out() {
    let mut cache = HwndGetterWithCache::new();
    get_hwnd_ref_cache(&mut cache, "A", "", ResolveEvent::Found(Ok(1)));
    get_hwnd_ref_cache(&mut cache, "B", "", ResolveEvent::Found(Ok(2)));
    assert_eq!(
        get_hwnd_ref_cache(&mut cache, "A", "", ResolveEvent::Liveness { hwnd: 1, alive: false }),
        ResolveStep::FindWindow(WindowQuery { class: Some(vec![0x41, 0]), title: None })
    );
    assert_eq!(cache.len(), 1);
    assert_eq!(cache.peek("A", ""), None);
    assert_eq!(cache.peek("B", ""), Some(2));
}

#[test]
fn window_that_is_not_found_is_not_cached() {
    let mut cache = HwndGetterWithCache::new();
    let mut desktop = Desktop::new();
    assert_eq!(
        resolve(&mut cache, &mut desktop, "Notepad", "a.txt"),
        Err(not_found("Notepad", "a.txt"))
    );
    assert_eq!(cache.len(), 0);
    desktop.open(3, "Notepad", "a.txt");
    assert_eq!(resolve(&mut cache, &mut desktop, "Notepad", "a.txt"), Ok(3));
    assert_eq!(desktop.finder_calls, 2);
}

#[test]
fn full_cache_evicts_the_least_recently_used_key() {
    let capacity = 3;
    let mut cache = HwndGetterWithCache::with_capacity(capacity).unwrap();
    let mut desktop = Desktop::new();
    let classes = ["A", "B", "C", "D"];
    for (i, class) in classes.iter().enumerate() {
        desktop.open(100 + i, class, "");
    }
    for (i, class) in classes.iter().enumerate() {
        assert_eq!(resolve(&mut cache, &mut desktop, class, ""), Ok(100 + i));
    }
    assert_eq!(desktop.finder_calls, 4);
    assert_eq!(cache.len(), capacity);
    assert_eq!(cache.peek("A", ""), None);
    assert_eq!(cache.peek("B", ""), Some(101));
    assert_eq!(cache.peek("C", ""), Some(102));
    assert_eq!(cache.peek("D", ""), Some(103));
    assert_eq!(resolve(&mut cache, &mut desktop, "A", ""), Ok(100));
    assert_eq!(desktop.finder_calls, 5);
    assert_eq!(cache.len(), capacity);
    assert_eq!(cache.peek("B", ""), None);
}

#[test]
fn a_hit_protects_the_key_from_eviction() {
    let mut cache = HwndGetterWithCache::with_capacity(2).unwrap();
    let mut desktop = Desktop::new();
    desktop.open(1, "A", "");
    desktop.open(2, "B", "");
    desktop.open(3, "C", "");
    assert_eq!(resolve(&mut cache, &mut desktop, "A", ""), Ok(1));
    assert_eq!(resolve(&mut cache, &mut desktop, "B", ""), Ok(2));
    assert_eq!(resolve(&mut cache, &mut desktop, "A", ""), Ok(1));
    assert_eq!(resolve(&mut cache, &mut desktop, "C", ""), Ok(3));
    assert_eq!(cache.peek("A", ""), Some(1));
    assert_eq!(cache.peek("B", ""), None);
    assert_eq!(cache.peek("C", ""), Some(3));
    assert_eq!(desktop.finder_calls, 3);
}

#[test]
fn peek_does_not_protect_the_key_from_eviction() {
    let mut cache = HwndGetterWithCache::with_capacity(2).unwrap();
    get_hwnd_ref_cache(&mut cache, "A", "", ResolveEvent::Found(Ok(1)));
    get_hwnd_ref_cache(&mut cache, "B", "", ResolveEvent::Found(Ok(2)));
    assert_eq!(cache.peek("A", ""), Some(1));
    get_hwnd_ref_cache(&mut cache, "C", "", ResolveEvent::Found(Ok(3)));
    assert_eq!(cache.peek("A", ""), None);
    assert_eq!(cache.peek("B", ""), Some(2));
}

#[test]
fn storing_again_replaces_the_handle() {
    let mut cache = HwndGetterWithCache::with_capacity(2).unwrap();
    get_hwnd_ref_cache(&mut cache, "A", "", ResolveEvent::Found(Ok(1)));
    get_hwnd_ref_cache(&mut cache, "B", "", ResolveEvent::Found(Ok(2)));
    assert_eq!(
        get_hwnd_ref_cache(&mut cache, "A", "", ResolveEvent::Found(Ok(9))),
        ResolveStep::Done(Ok(9))
    );
    assert_eq!(cache.len(), 2);
    assert_eq!(cache.peek("A", ""), Some(9));
    assert_eq!(cache.peek("B", ""), Some(2));
}

#[test]
fn retitled_window_is_still_found_under_its_old_title() {
    let mut cache = HwndGetterWithCache::new();
    let mut desktop = Desktop::new();
    let h = 0x000A_0B0C;
    desktop.open(h, "Notepad", "a.txt - Notepad");
    assert_eq!(resolve(&mut cache, &mut desktop, "Notepad", "a.txt - Notepad"), Ok(h));
    desktop.retitle(h, "a.txt - Notepad (modified)");
    let calls = desktop.finder_calls;
    assert_eq!(resolve(&mut cache, &mut desktop, "Notepad", "a.txt - Notepad"), Ok(h));
    assert_eq!(desktop.finder_calls, calls);
    let query = find_window_query("Notepad", "a.txt - Notepad").unwrap();
    assert!(desktop.find_window(&query).is_err());
}

#[test]
fn live_handle_is_the_result_whatever_the_cache_holds() {
    let mut cache = HwndGetterWithCache::new();
    assert_eq!(
        get_hwnd_ref_cache(&mut cache, "A", "", ResolveEvent::Liveness { hwnd: 77, alive: true }),
        ResolveStep::Done(Ok(77))
    );
    assert_eq!(cache.len(), 0);
}

#[test]
fn finder_failure_step_leaves_the_cache_alone() {
    let mut cache = HwndGetterWithCache::new();
    get_hwnd_ref_cache(&mut cache, "A", "", ResolveEvent::Found(Ok(1)));
    assert_eq!(
        get_hwnd_ref_cache(&mut cache, "A", "t", ResolveEvent::Found(Err("none".to_string()))),
        ResolveStep::Done(Err(WindowInspectorError::FindWindowExWFailed {
            window_class: "A".to_string(),
            window_title: "t".to_string(),
            error_message: "none".to_string(),
        }))
    );
    assert_eq!(cache.len(), 1);
    assert_eq!(cache.peek("A", ""), Some(1));
}

#[test]
fn interleaved_lookups_both_store_and_the_last_one_stays() {
    let mut cache = HwndGetterWithCache::with_capacity(2).unwrap();
    let begin = |cache: &mut HwndGetterWithCache| {
        get_hwnd_ref_cache(cache, "Notepad", "", ResolveEvent::Begin)
    };
    let find = || ResolveStep::FindWindow(find_window_query("Notepad", "").unwrap());
    assert_eq!(begin(&mut cache), find());
    assert_eq!(begin(&mut cache), find());
    assert_eq!(
        get_hwnd_ref_cache(&mut cache, "Notepad", "", ResolveEvent::Found(Ok(41))),
        ResolveStep::Done(Ok(41))
    );
    assert_eq!(
        get_hwnd_ref_cache(&mut cache, "Notepad", "", ResolveEvent::Found(Ok(42))),
        ResolveStep::Done(Ok(42))
    );
    assert_eq!(cache.len(), 1);
    assert_eq!(cache.peek("Notepad", ""), Some(42));
}

#[test]
fn interleaved_lookups_after_the_window_died() {
    let mut cache = HwndGetterWithCache::with_capacity(2).unwrap();
    get_hwnd_ref_cache(&mut cache, "Notepad", "", ResolveEvent::Found(Ok(41)));
    let check = ResolveStep::CheckWindow { hwnd: 41 };
    assert_eq!(get_hwnd_ref_cache(&mut cache, "Notepad", "", ResolveEvent::Begin), check);
    assert_eq!(get_hwnd_ref_cache(&mut cache, "Notepad", "", ResolveEvent::Begin), check);
    let dead = || ResolveEvent::Liveness { hwnd: 41, alive: false };
    let find = || ResolveStep::FindWindow(find_window_query("Notepad", "").unwrap());
    assert_eq!(get_hwnd_ref_cache(&mut cache, "Notepad", "", dead()), find());
    assert_eq!(
        get_hwnd_ref_cache(&mut cache, "Notepad", "", ResolveEvent::Found(Ok(42))),
        ResolveStep::Done(Ok(42))
    );
    assert_eq!(get_hwnd_ref_cache(&mut cache, "Notepad", "", dead()), find());
    assert_eq!(cache.peek("Notepad", ""), None);
    assert_eq!(
        get_hwnd_ref_cache(&mut cache, "Notepad", "", ResolveEvent::Found(Ok(42))),
        ResolveStep::Done(Ok(42))
    );
    assert_eq!(cache.peek("Notepad", ""), Some(42));
    assert_eq!(cache.len(), 1);
}

#[test]
fn unbounded_cache_keeps_every_key() {
    let mut cache = HwndGetterWithCache::unbounded();
    assert_eq!(cache.cap(), usize::MAX);
    for hwnd in 0..3000usize {
        let class = format!("Class{}", hwnd);
        assert_eq!(
            get_hwnd_ref_cache(&mut cache, &class, "", ResolveEvent::Found(Ok(hwnd))),
            ResolveStep::Done(Ok(hwnd))
        );
    }
    assert_eq!(cache.len(), 3000);
    assert_eq!(cache.peek("Class0", ""), Some(0));
    assert_eq!(cache.peek("Class2999", ""), Some(2999));
}

#[test]
fn default_cache_holds_the_default_capacity_and_no_more() {
    let mut cache = HwndGetterWithCache::default();
    assert_eq!(cache.cap(), DEFAULT_CAPACITY);
    for hwnd in 0..=DEFAULT_CAPACITY {
        let class = format!("Class{}", hwnd);
        get_hwnd_ref_cache(&mut cache, &class, "", ResolveEvent::Found(Ok(hwnd)));
    }
    assert_eq!(cache.len(), DEFAULT_CAPACITY);
    assert_eq!(cache.peek("Class0", ""), None);
    assert_eq!(cache.peek("Class1", ""), Some(1));
    assert_eq!(cache.peek("Class1024", ""), Some(1024));
}
