use rswatch::detector::changed;
use rswatch::detector::snapshots_equal;
use rswatch::snapshot::FileEntry;
use rswatch::snapshot::Snapshot;
use rswatch::snapshot::Timestamp;

fn entry(path: &str, secs: u64) -> FileEntry {
    FileEntry { path: path.as_bytes().to_vec(), mtime: Timestamp { secs, nanos: 0 } }
}

#[test]
fn identical_snapshots_not_changed() {
    let s1 = Snapshot::from_entries(vec![entry("a.txt", 10), entry("b.txt", 20)]);
    let s2 = Snapshot::from_entries(vec![entry("a.txt", 10), entry("b.txt", 20)]);
    assert!(!changed(&s1, &s2));
}

#[test]
fn identical_mappings_in_other_order_not_changed() {
    let s1 = Snapshot::from_entries(vec![entry("a.txt", 10), entry("b.txt", 20)]);
    let s2 = Snapshot::from_entries(vec![entry("b.txt", 20), entry("a.txt", 10)]);
    assert!(!changed(&s1, &s2));
}

#[test]
fn empty_snapshots_not_changed() {
    let s1 = Snapshot::new();
    let s2 = Snapshot::new();
    assert!(!changed(&s1, &s2));
}

#[test]
fn new_path_reports_changed() {
    let s1 = Snapshot::from_entries(vec![entry("a.txt", 10)]);
    let s2 = Snapshot::from_entries(vec![entry("a.txt", 10), entry("b.txt", 5)]);
    assert!(changed(&s1, &s2));
}

#[test]
fn later_timestamp_reports_changed() {
    let s1 = Snapshot::from_entries(vec![entry("a.txt", 10)]);
    let s2 = Snapshot::from_entries(vec![entry("a.txt", 11)]);
    assert!(changed(&s1, &s2));
}

#[test]
fn earlier_timestamp_reports_changed() {
    let s1 = Snapshot::from_entries(vec![entry("a.txt", 10)]);
    let s2 = Snapshot::from_entries(vec![entry("a.txt", 9)]);
    assert!(changed(&s1, &s2));
}

#[test]
fn nanosecond_difference_reports_changed() {
    let s1 = Snapshot::from_entries(vec![FileEntry {
        path: b"a.txt".to_vec(),
        mtime: Timestamp { secs: 10, nanos: 1 },
    }]);
    let s2 = Snapshot::from_entries(vec![FileEntry {
        path: b"a.txt".to_vec(),
        mtime: Timestamp { secs: 10, nanos: 2 },
    }]);
    assert!(changed(&s1, &s2));
}

#[test]
fn deletion_alone_not_reported() {
    // Detection reads only the new snapshot's paths: a vanished file does
    // not, by itself, count as a change.
    let s1 = Snapshot::from_entries(vec![entry("a.txt", 10), entry("b.txt", 20)]);
    let s2 = Snapshot::from_entries(vec![entry("a.txt", 10)]);
    assert!(!changed(&s1, &s2));
}

#[test]
fn deletion_with_other_change_reported() {
    let s1 = Snapshot::from_entries(vec![entry("a.txt", 10), entry("b.txt", 20)]);
    let s2 = Snapshot::from_entries(vec![entry("a.txt", 12)]);
    assert!(changed(&s1, &s2));
}

#[test]
fn snapshots_equal_same_contents() {
    let s1 = Snapshot::from_entries(vec![entry("a.txt", 10), entry("b.txt", 20)]);
    let s2 = Snapshot::from_entries(vec![entry("b.txt", 20), entry("a.txt", 10)]);
    assert!(snapshots_equal(&s1, &s2));
}

#[test]
fn snapshots_equal_detects_missing_file() {
    let s1 = Snapshot::from_entries(vec![entry("a.txt", 10), entry("b.txt", 20)]);
    let s2 = Snapshot::from_entries(vec![entry("a.txt", 10)]);
    assert!(!snapshots_equal(&s1, &s2));
}

#[test]
fn snapshots_equal_detects_different_time() {
    let s1 = Snapshot::from_entries(vec![entry("a.txt", 10)]);
    let s2 = Snapshot::from_entries(vec![entry("a.txt", 11)]);
    assert!(!snapshots_equal(&s1, &s2));
}
