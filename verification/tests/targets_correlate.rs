use captest::correlate::{correlate, CorrelatedWindowRow, NativeWindowRecord};
use captest::targets::{
    count_of_kind, enumerate, resolve, screen_listing_lines, window_listing_lines, CaptureTarget,
    ResolveError, TargetKind,
};

fn display(id: u32, title: &str) -> CaptureTarget {
    CaptureTarget::Display { id, title: title.to_string() }
}

fn window(id: u32, title: &str) -> CaptureTarget {
    CaptureTarget::Window { id, title: title.to_string() }
}

fn record(id: u32, title: &str, owner: &str, w: i32, h: i32) -> NativeWindowRecord {
    NativeWindowRecord {
        id,
        owner_pid: 100,
        layer: 0,
        x: 10,
        y: 20,
        width: w,
        height: h,
        alpha: 1,
        on_screen: true,
        owner_name: owner.to_string(),
        title: title.to_string(),
    }
}

fn indices_of(rows: &[CorrelatedWindowRow]) -> Vec<Option<usize>> {
    rows.iter().map(|r| r.capture_index).collect()
}

#[test]
fn enumerator_density_under_interleaving() {
    // Three displays and four windows, interleaved: the index sets must be
    // exactly {0,1,2} and {0,1,2,3}, in engine order.
    let targets = vec![
        window(10, "w0"),
        display(1, "d0"),
        window(11, "w1"),
        window(12, "w2"),
        display(2, "d1"),
        display(3, "d2"),
        window(13, "w3"),
    ];
    let indexed = enumerate(&targets);
    assert_eq!(indexed.len(), 7);
    let mut display_indices = Vec::new();
    let mut window_indices = Vec::new();
    for it in &indexed {
        match it.target {
            CaptureTarget::Display { .. } => display_indices.push(it.index),
            CaptureTarget::Window { .. } => window_indices.push(it.index),
        }
    }
    assert_eq!(display_indices, vec![0, 1, 2]);
    assert_eq!(window_indices, vec![0, 1, 2, 3]);
    assert_eq!(count_of_kind(&targets, TargetKind::Display), 3);
    assert_eq!(count_of_kind(&targets, TargetKind::Window), 4);
}

#[test]
fn resolve_returns_the_indexed_target() {
    let targets = vec![window(10, "a"), display(1, "d"), window(11, "b"), window(12, "c")];
    match resolve(&targets, TargetKind::Window, 1).unwrap() {
        CaptureTarget::Window { id, title } => {
            assert_eq!(id, 11);
            assert_eq!(title, "b");
        }
        _ => panic!("resolved a display for a window index"),
    }
    match resolve(&targets, TargetKind::Display, 0).unwrap() {
        CaptureTarget::Display { id, .. } => assert_eq!(id, 1),
        _ => panic!("resolved a window for a display index"),
    }
}

#[test]
fn resolve_out_of_range_reports_count_and_range() {
    // Requesting window index 5 when only 3 windows exist: the error
    // carries available_count = 3 and suggests the range 0-2.
    let targets = vec![window(10, "a"), display(1, "d"), window(11, "b"), window(12, "c")];
    let err = resolve(&targets, TargetKind::Window, 5).unwrap_err();
    assert_eq!(err, ResolveError::IndexOutOfRange { requested: 5, available: 3 });
    assert_eq!(err.range_hint(), "0-2");
}

#[test]
fn resolve_on_empty_kind() {
    let targets = vec![display(1, "d")];
    let err = resolve(&targets, TargetKind::Window, 0).unwrap_err();
    assert_eq!(err, ResolveError::IndexOutOfRange { requested: 0, available: 0 });
    assert_eq!(err.range_hint(), "0-0");
}

#[test]
fn correlator_attaches_shared_indices_exactly() {
    // Native records and engine windows share exactly two ids (7 and 9):
    // exactly two rows carry an index, the rest the marker, and no id
    // appears twice.
    let native = vec![
        record(7, "Editor", "editor", 800, 600),
        record(8, "Helper", "helper", 400, 300),
        record(9, "Terminal", "term", 640, 480),
        record(12, "Panel", "shell", 300, 40),
    ];
    let targets = vec![
        display(1, "screen"),
        window(9, "Terminal"),
        window(7, "Editor"),
        window(30, "Hidden"),
    ];
    let rows = correlate(&native, &targets);
    assert_eq!(rows.len(), 4);
    // Window indices in engine order: 9 -> 0, 7 -> 1, 30 -> 2.
    assert_eq!(indices_of(&rows), vec![Some(1), None, Some(0), None]);
    assert_eq!(rows.iter().filter(|r| r.capture_index.is_some()).count(), 2);
    let mut ids: Vec<u32> = rows.iter().map(|r| r.record.id).collect();
    ids.sort();
    ids.dedup();
    assert_eq!(ids.len(), rows.len());
    // Rows come out in native order, not index order.
    assert_eq!(rows[0].record.title, "Editor");
    assert_eq!(rows[2].record.title, "Terminal");
}

#[test]
fn correlator_relevance_filter() {
    let native = vec![
        // Kept: has a title.
        record(1, "Titled", "", 0, 0),
        // Dropped: no title, unknown owner.
        record(2, "", "Unknown", 500, 500),
        // Dropped: no title, named owner, tiny bounds.
        record(3, "", "helper", 50, 50),
        // Kept: no title, named owner, tall enough.
        record(4, "", "panel", 10, 51),
        // Dropped: nothing at all.
        record(5, "", "", 500, 500),
    ];
    let targets: Vec<CaptureTarget> = Vec::new();
    let rows = correlate(&native, &targets);
    let kept: Vec<u32> = rows.iter().map(|r| r.record.id).collect();
    assert_eq!(kept, vec![1, 4]);
    assert!(rows.iter().all(|r| r.capture_index.is_none()));
}

#[test]
fn correlator_duplicate_engine_id_takes_last() {
    // Two engine windows with the same id: the mapping keeps the later
    // insertion, as a map insert overwrites.
    let native = vec![record(7, "App", "app", 100, 100)];
    let targets = vec![window(7, "first"), window(7, "second")];
    let rows = correlate(&native, &targets);
    assert_eq!(indices_of(&rows), vec![Some(1)]);
}

#[test]
fn screen_listing_lines_exact() {
    let targets = vec![window(10, "w"), display(4, "Built-in"), display(5, "External")];
    let lines = screen_listing_lines(&targets);
    assert_eq!(
        lines,
        vec![
            "Screen 0: Display ID 4".to_string(),
            "          Title: Built-in".to_string(),
            String::new(),
            "Screen 1: Display ID 5".to_string(),
            "          Title: External".to_string(),
            String::new(),
        ]
    );
}

#[test]
fn window_listing_lines_exact() {
    let targets = vec![display(1, "d"), window(21, "Shell"), window(22, "Browser")];
    let lines = window_listing_lines(&targets);
    assert_eq!(
        lines,
        vec!["Window 0: ID 21, Title: Shell".to_string(), "Window 1: ID 22, Title: Browser".to_string()]
    );
}
