use dictation::history::{default_history, add_to_history, remove_from_history, sort_entries, FileHistory, HistoryEntry};

fn entry(path: &str, last_opened: i64, open_count: u32) -> HistoryEntry {
    HistoryEntry { path: path.to_string(), last_opened, open_count }
}

#[test]
fn default_history_is_empty_with_capacity_twenty() {
    let h = default_history();
    assert_eq!(h.version, "1.0");
    assert_eq!(h.max_entries, 20);
    assert!(h.entries.is_empty());
}

#[test]
fn first_open_appends_a_fresh_entry() {
    let h = add_to_history(default_history(), "/notes/a.md", 1000);
    assert_eq!(h.entries.len(), 1);
    assert_eq!(h.entries[0].path, "/notes/a.md");
    assert_eq!(h.entries[0].last_opened, 1000);
    assert_eq!(h.entries[0].open_count, 1);
}

#[test]
fn reopening_refreshes_instead_of_duplicating() {
    let h = add_to_history(default_history(), "/notes/a.md", 1000);
    let h = add_to_history(h, "/notes/b.md", 2000);
    let h = add_to_history(h, "/notes/a.md", 3000);
    assert_eq!(h.entries.len(), 2);
    // The refreshed entry moves to the front.
    assert_eq!(h.entries[0].path, "/notes/a.md");
    assert_eq!(h.entries[0].last_opened, 3000);
    assert_eq!(h.entries[0].open_count, 2);
    assert_eq!(h.entries[1].path, "/notes/b.md");
    assert_eq!(h.entries[1].open_count, 1);
}

#[test]
fn entries_stay_sorted_most_recent_first() {
    let mut h = default_history();
    h = add_to_history(h, "/a", 50);
    h = add_to_history(h, "/b", 10);
    h = add_to_history(h, "/c", 90);
    let times: Vec<i64> = h.entries.iter().map(|e| e.last_opened).collect();
    assert_eq!(times, vec![90, 50, 10]);
}

#[test]
fn capacity_drops_the_oldest() {
    let mut h = FileHistory {
        version: "1.0".to_string(),
        max_entries: 3,
        entries: Vec::new(),
    };
    for (i, p) in ["/a", "/b", "/c", "/d"].iter().enumerate() {
        h = add_to_history(h, p, (i as i64 + 1) * 10);
    }
    assert_eq!(h.entries.len(), 3);
    let paths: Vec<&str> = h.entries.iter().map(|e| e.path.as_str()).collect();
    assert_eq!(paths, vec!["/d", "/c", "/b"]);
}

#[test]
fn sorting_is_stable_for_equal_timestamps() {
    let v = vec![entry("/x", 5, 1), entry("/y", 5, 1), entry("/z", 9, 1)];
    let sorted = sort_entries(v);
    let paths: Vec<&str> = sorted.iter().map(|e| e.path.as_str()).collect();
    assert_eq!(paths, vec!["/z", "/x", "/y"]);
}

#[test]
fn remove_from_history_filters_exactly() {
    let mut h = default_history();
    h = add_to_history(h, "/a", 10);
    h = add_to_history(h, "/b", 20);
    h = add_to_history(h, "/a", 30);
    let h = remove_from_history(h, "/a");
    assert_eq!(h.entries.len(), 1);
    assert_eq!(h.entries[0].path, "/b");
    let h = remove_from_history(h, "/missing");
    assert_eq!(h.entries.len(), 1);
}
