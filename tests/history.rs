use cliphistory::entry::ClipEntry;
use cliphistory::history::{clear_oldest_value, loaded_or_empty, History, PersistCorrupt, HISTORY_SIZE};

fn entry(i: usize) -> ClipEntry {
    ClipEntry::new(format!("2024-01-01T00:00:{:03}+00:00", i), format!("e{}", i))
}

#[test]
fn new_history_is_empty() {
    let h = History::new();
    assert_eq!(h.len(), 0);
    assert!(h.snapshot().is_empty());
}

#[test]
fn append_keeps_insertion_order() {
    let mut h = History::new();
    h.append(entry(1));
    h.append(entry(2));
    h.append(entry(3));
    let s = h.snapshot();
    assert_eq!(s.len(), 3);
    assert_eq!(s[0].content, "e1");
    assert_eq!(s[1].content, "e2");
    assert_eq!(s[2].content, "e3");
}

#[test]
fn length_never_exceeds_bound() {
    let mut h = History::new();
    for i in 1..=400 {
        h.append(entry(i));
        assert!(h.len() <= HISTORY_SIZE);
    }
    assert_eq!(h.len(), 150);
}

#[test]
fn hundred_fifty_first_append_evicts_first() {
    let mut h = History::new();
    for i in 1..=151 {
        h.append(entry(i));
    }
    let s = h.snapshot();
    assert_eq!(s.len(), 150);
    for (k, e) in s.iter().enumerate() {
        assert_eq!(*e, entry(k + 2));
    }
}

#[test]
fn full_history_at_exactly_bound_keeps_all() {
    let mut h = History::new();
    for i in 1..=150 {
        h.append(entry(i));
    }
    let s = h.snapshot();
    assert_eq!(s.len(), 150);
    assert_eq!(s[0], entry(1));
    assert_eq!(s[149], entry(150));
}

#[test]
fn same_text_twice_gives_two_entries() {
    let mut h = History::new();
    h.append(ClipEntry::new("t1".to_string(), "x".to_string()));
    h.append(ClipEntry::new("t2".to_string(), "x".to_string()));
    assert_eq!(h.len(), 2);
}

#[test]
fn clear_empties_history() {
    let mut h = History::new();
    h.append(entry(1));
    h.append(entry(2));
    h.clear();
    assert_eq!(h.len(), 0);
    assert!(h.snapshot().is_empty());
}

#[test]
fn clear_oldest_value_removes_first() {
    let mut v = vec![entry(1), entry(2), entry(3)];
    clear_oldest_value(&mut v);
    assert_eq!(v, vec![entry(2), entry(3)]);
}

#[test]
fn clear_oldest_value_on_empty_does_nothing() {
    let mut v: Vec<ClipEntry> = Vec::new();
    clear_oldest_value(&mut v);
    assert!(v.is_empty());
}

#[test]
fn loaded_entries_kept_verbatim() {
    let v = vec![entry(5), entry(3), entry(9)];
    let h = History::from_entries(v);
    assert_eq!(h.into_entries(), vec![entry(5), entry(3), entry(9)]);
}

#[test]
fn loaded_overlong_list_keeps_newest() {
    let v: Vec<ClipEntry> = (1..=160).map(entry).collect();
    let h = History::from_entries(v);
    let s = h.into_entries();
    assert_eq!(s.len(), 150);
    assert_eq!(s[0], entry(11));
    assert_eq!(s[149], entry(160));
}

#[test]
fn corrupt_file_gives_empty_history() {
    let h = History::from_loaded(Err(PersistCorrupt));
    assert_eq!(h.len(), 0);
}

#[test]
fn loaded_file_gives_its_entries() {
    let h = History::from_loaded(Ok(vec![entry(1), entry(2)]));
    assert_eq!(h.snapshot(), vec![entry(1), entry(2)]);
}

#[test]
fn entries_with_quotes_and_newlines_kept() {
    let mut h = History::new();
    let e = ClipEntry::new("t".to_string(), "say \"hi\"\nbye".to_string());
    h.append(e.duplicate());
    assert_eq!(h.snapshot(), vec![e]);
}

#[test]
fn loaded_or_empty_keeps_every_loaded_entry() {
    let v: Vec<ClipEntry> = (1..=160).map(entry).collect();
    let out = loaded_or_empty(Ok(v));
    assert_eq!(out.len(), 160);
    assert_eq!(out[0], entry(1));
    assert_eq!(out[159], entry(160));
}

#[test]
fn loaded_or_empty_on_corrupt_file_is_empty() {
    assert!(loaded_or_empty(Err(PersistCorrupt)).is_empty());
}
