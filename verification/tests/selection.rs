use backup_wrapper::scan::find_paths;
use backup_wrapper::scan::scan_events;
use backup_wrapper::scan::ScanNote;
use backup_wrapper::scan::WalkEvent;

fn dir(path: &str, depth: usize, attr: Option<&[u8]>) -> WalkEvent {
    WalkEvent::Entry {
        path: path.to_string(),
        depth,
        is_dir: true,
        attr: attr.map(|a| a.to_vec()),
    }
}

fn file(path: &str, depth: usize) -> WalkEvent {
    WalkEvent::Entry {
        path: path.to_string(),
        depth,
        is_dir: false,
        attr: None,
    }
}

fn tag(s: &str) -> Vec<u8> {
    s.as_bytes().to_vec()
}

#[test]
fn selects_tagged_dirs_within_depth() {
    let events = vec![
        dir("/r", 0, Some(b"1")),
        dir("/r/a", 1, Some(b"1")),
        dir("/r/b", 1, Some(b"2")),
        dir("/r/c", 1, None),
        dir("/r/a/x", 2, Some(b"1")),
    ];
    let out = scan_events(&events, &tag("1"));
    assert_eq!(out.selected, vec!["/r", "/r/a", "/r/a/x"]);
    assert!(out.notes.is_empty());
}

#[test]
fn boundary_depth_two_in_depth_three_out() {
    let events = vec![
        dir("/r/a/x", 2, Some(b"1")),
        dir("/r/a/x/deep", 3, Some(b"1")),
    ];
    let out = scan_events(&events, &tag("1"));
    assert_eq!(out.selected, vec!["/r/a/x"]);
}

#[test]
fn ignores_files_and_untagged_dirs() {
    let events = vec![
        file("/r/notes.txt", 1),
        dir("/r/plain", 1, None),
        dir("/r/tagged", 1, Some(b"1")),
    ];
    let out = scan_events(&events, &tag("1"));
    assert_eq!(out.selected, vec!["/r/tagged"]);
}

#[test]
fn tag_match_is_exact_not_prefix() {
    let events = vec![
        dir("/r/ten", 1, Some(b"10")),
        dir("/r/one", 1, Some(b"1")),
        dir("/r/empty", 1, Some(b"")),
    ];
    let out = scan_events(&events, &tag("1"));
    assert_eq!(out.selected, vec!["/r/one"]);
}

#[test]
fn arbitrary_tag_string_matches_exactly() {
    let events = vec![
        dir("/r/a", 1, Some(b"nightly")),
        dir("/r/b", 1, Some(b"weekly")),
    ];
    let out = scan_events(&events, &tag("nightly"));
    assert_eq!(out.selected, vec!["/r/a"]);
}

#[test]
fn scan_twice_same_outcome() {
    let events = vec![
        dir("/r", 0, None),
        dir("/r/a", 1, Some(b"1")),
        WalkEvent::MetaFailed {
            path: "/r/bad".to_string(),
            detail: "permission denied".to_string(),
        },
        dir("/r/a/x", 2, Some(b"1")),
    ];
    let first = scan_events(&events, &tag("1"));
    let second = scan_events(&events, &tag("1"));
    assert_eq!(first, second);
}

#[test]
fn scenario_tree_selection() {
    let events = vec![
        dir("/data", 0, None),
        dir("/data/a", 1, Some(b"1")),
        dir("/data/b", 1, None),
        dir("/data/a/x", 2, Some(b"1")),
    ];
    let out = scan_events(&events, &tag("1"));
    assert_eq!(out.selected, vec!["/data/a", "/data/a/x"]);
    assert!(out.notes.is_empty());
}

#[test]
fn listing_keeps_selection_order() {
    let events = vec![
        dir("/data", 0, None),
        dir("/data/a", 1, Some(b"1")),
        dir("/data/b", 1, None),
        dir("/data/a/x", 2, Some(b"1")),
    ];
    let out = scan_events(&events, &tag("1"));
    let lines: Vec<String> = out.selected;
    assert_eq!(lines, vec!["/data/a".to_string(), "/data/a/x".to_string()]);
}

#[test]
fn metadata_failure_is_one_note_and_walk_continues() {
    let events = vec![
        dir("/r/a", 1, Some(b"1")),
        WalkEvent::MetaFailed {
            path: "/r/broken".to_string(),
            detail: "dangling symlink".to_string(),
        },
        dir("/r/c", 1, Some(b"1")),
    ];
    let out = scan_events(&events, &tag("1"));
    assert_eq!(out.selected, vec!["/r/a", "/r/c"]);
    assert_eq!(out.notes.len(), 1);
    assert_eq!(
        out.notes[0],
        ScanNote::MetaFailed {
            path: "/r/broken".to_string(),
            detail: "dangling symlink".to_string(),
        }
    );
}

#[test]
fn walk_failure_is_a_note_not_a_selection() {
    let events = vec![
        WalkEvent::WalkFailed {
            detail: "root unreadable".to_string(),
        },
        dir("/r/a", 1, Some(b"1")),
    ];
    let out = scan_events(&events, &tag("1"));
    assert_eq!(out.selected, vec!["/r/a"]);
    assert_eq!(
        out.notes,
        vec![ScanNote::WalkFailed {
            detail: "root unreadable".to_string(),
        }]
    );
}

#[test]
fn empty_events_empty_outcome() {
    let events: Vec<WalkEvent> = Vec::new();
    let out = scan_events(&events, &tag("1"));
    assert!(out.selected.is_empty());
    assert!(out.notes.is_empty());
}

#[test]
fn find_paths_missing_root_reports_diagnostic() {
    let out = find_paths("/backup-wrapper-test/no/such/root", &tag("1"));
    assert!(out.selected.is_empty());
    assert_eq!(out.notes.len(), 1);
    assert!(matches!(out.notes[0], ScanNote::WalkFailed { .. }));
}
