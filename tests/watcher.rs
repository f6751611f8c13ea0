use cliphistory::history::History;
use cliphistory::watcher::{ClipboardUnavailable, Watcher};

fn read(s: &str) -> Result<String, ClipboardUnavailable> {
    Ok(s.to_string())
}

#[test]
fn new_watcher_has_seen_nothing() {
    let w = Watcher::new();
    assert_eq!(w.last_seen(), None);
}

#[test]
fn same_value_twice_records_once() {
    let mut w = Watcher::new();
    assert!(w.poll(read("abc")).is_some());
    assert!(w.poll(read("abc")).is_none());
}

#[test]
fn padded_value_compared_raw_stored_trimmed() {
    let mut w = Watcher::new();
    let first = w.poll(read("  hello  ")).expect("first read is a change");
    assert_eq!(first.content, "hello");
    assert_eq!(w.last_seen(), Some("  hello  ".to_string()));
    assert!(w.poll(read("  hello  ")).is_none());
}

#[test]
fn trimmed_equal_but_raw_different_is_a_change() {
    let mut w = Watcher::new();
    assert!(w.poll(read("hello")).is_some());
    let e = w.poll(read(" hello\n")).expect("raw value differs");
    assert_eq!(e.content, "hello");
}

#[test]
fn clipboard_sequence_a_a_b_b_a() {
    let mut w = Watcher::new();
    let mut h = History::new();
    for s in ["a", "a", "b", "b", "a"] {
        if let Some(e) = w.poll(read(s)) {
            h.append(e);
        }
    }
    let contents: Vec<String> = h.into_entries().into_iter().map(|e| e.content).collect();
    assert_eq!(contents, vec!["a".to_string(), "b".to_string(), "a".to_string()]);
}

#[test]
fn unavailable_read_changes_nothing() {
    let mut w = Watcher::new();
    assert!(w.poll(read("x")).is_some());
    assert!(w.poll(Err(ClipboardUnavailable)).is_none());
    assert_eq!(w.last_seen(), Some("x".to_string()));
    assert!(w.poll(read("x")).is_none());
}

#[test]
fn unavailable_first_read_records_nothing() {
    let mut w = Watcher::new();
    assert!(w.poll(Err(ClipboardUnavailable)).is_none());
    assert_eq!(w.last_seen(), None);
}

#[test]
fn empty_text_is_recorded() {
    let mut w = Watcher::new();
    let e = w.poll(read("   ")).expect("a first read is a change");
    assert_eq!(e.content, "");
}

#[test]
fn poll_stamps_rfc3339_time() {
    let mut w = Watcher::new();
    let e = w.poll(read("x")).expect("a first read is a change");
    assert!(chrono::DateTime::parse_from_rfc3339(&e.timestamp).is_ok());
}

#[test]
fn observe_trimmed_uses_given_values() {
    let mut w = Watcher::new();
    let e = w
        .observe_trimmed(" q ".to_string(), "q".to_string(), "2024-05-01T10:00:00+00:00".to_string())
        .expect("a first read is a change");
    assert_eq!(e.timestamp, "2024-05-01T10:00:00+00:00");
    assert_eq!(e.content, "q");
    assert!(w
        .observe_trimmed(" q ".to_string(), "q".to_string(), "later".to_string())
        .is_none());
}

#[test]
fn is_change_compares_raw_text() {
    let mut w = Watcher::new();
    assert!(w.is_change(&"a".to_string()));
    w.poll(read("a"));
    assert!(!w.is_change(&"a".to_string()));
    assert!(w.is_change(&"a ".to_string()));
}

#[test]
fn trims_unicode_white_space_only() {
    let mut w = Watcher::new();
    let e = w.poll(read("\u{3000}\t x y \u{85}\u{2029}\u{a0}")).expect("a first read is a change");
    assert_eq!(e.content, "x y");
    let e = w.poll(read("\u{200b}z\u{200b}")).expect("raw value differs");
    assert_eq!(e.content, "\u{200b}z\u{200b}");
}

#[test]
fn poll_timestamp_ends_in_utc_offset() {
    let mut w = Watcher::new();
    let e = w.poll(read("t")).expect("a first read is a change");
    assert!(e.timestamp.ends_with("+00:00"));
}
