use dirlist::date::{date_or_blank, modified_string, Timestamp};
use dirlist::entry::{EntryKind, EntryMeta, FileEntry};
use dirlist::listing::{list_entries, push_read};

fn meta(name: &str, is_dir: bool, len: u64) -> EntryMeta {
    EntryMeta {
        name: Some(name.to_string()),
        is_dir,
        len,
        modified: Some(Timestamp { secs: 1704412800, nanos: 0 }),
        path: format!("./{}", name),
    }
}

#[test]
fn kind_labels() {
    assert_eq!(EntryKind::File.label(), "File");
    assert_eq!(EntryKind::Directory.label(), "Dir");
}

#[test]
fn date_of_a_known_instant() {
    let stamp = Timestamp { secs: 1704412800, nanos: 0 };
    assert_eq!(modified_string(Some(stamp)), "Fri Jan 5 2024");
}

#[test]
fn date_of_the_epoch_and_before_it() {
    assert_eq!(modified_string(Some(Timestamp { secs: 0, nanos: 0 })), "Thu Jan 1 1970");
    assert_eq!(modified_string(Some(Timestamp { secs: -1, nanos: 999_999_999 })), "Wed Dec 31 1969");
}

#[test]
fn date_with_a_two_digit_day() {
    assert_eq!(modified_string(Some(Timestamp { secs: 1431648000, nanos: 0 })), "Fri May 15 2015");
    assert_eq!(modified_string(Some(Timestamp { secs: 1431648000 + 86399, nanos: 5 })), "Fri May 15 2015");
    assert_eq!(modified_string(Some(Timestamp { secs: 1431648000 + 86400, nanos: 0 })), "Sat May 16 2015");
}

#[test]
fn date_is_blank_without_a_timestamp() {
    assert_eq!(modified_string(None), "");
}

#[test]
fn date_is_blank_beyond_the_calendar() {
    assert_eq!(modified_string(Some(Timestamp { secs: i64::MAX, nanos: 0 })), "");
    assert_eq!(modified_string(Some(Timestamp { secs: i64::MIN, nanos: 0 })), "");
    assert_eq!(modified_string(Some(Timestamp { secs: 0, nanos: 2_000_000_000 })), "");
}

#[test]
fn date_or_blank_keeps_a_date() {
    assert_eq!(date_or_blank(Some("Fri Jan 5 2024".to_string())), "Fri Jan 5 2024");
    assert_eq!(date_or_blank(None), "");
}

#[test]
fn entry_from_parts() {
    let e = FileEntry::new(
        Some("a.txt".to_string()),
        EntryKind::File,
        10,
        "Fri Jan 5 2024".to_string(),
        "./a.txt".to_string(),
    );
    assert_eq!(e.name(), "a.txt");
    assert_eq!(e.kind(), EntryKind::File);
    assert_eq!(e.size(), "10");
    assert_eq!(e.modified(), "Fri Jan 5 2024");
    assert_eq!(e.path(), "./a.txt");
}

#[test]
fn entry_without_a_name_gets_the_placeholder() {
    let e = FileEntry::new(None, EntryKind::File, 0, String::new(), "./x".to_string());
    assert_eq!(e.name(), "unknown name");
    assert_eq!(e.size(), "0");
}

#[test]
fn entry_from_metadata_of_a_file() {
    let e = FileEntry::from_meta(&meta("a.txt", false, 1024));
    assert_eq!(e.name(), "a.txt");
    assert_eq!(e.kind(), EntryKind::File);
    assert_eq!(e.size(), "1024");
    assert_eq!(e.modified(), "Fri Jan 5 2024");
    assert_eq!(e.path(), "./a.txt");
}

#[test]
fn entry_from_metadata_of_a_directory() {
    let e = FileEntry::from_meta(&meta("sub", true, 4096));
    assert_eq!(e.kind(), EntryKind::Directory);
    assert_eq!(e.size(), "4096");
}

#[test]
fn entry_from_metadata_without_name_or_time() {
    let m = EntryMeta { name: None, is_dir: false, len: u64::MAX, modified: None, path: "p".to_string() };
    let e = FileEntry::from_meta(&m);
    assert_eq!(e.name(), "unknown name");
    assert_eq!(e.size(), "18446744073709551615");
    assert_eq!(e.modified(), "");
    assert_eq!(e.path(), "p");
}

#[test]
fn entry_clone_keeps_every_field() {
    let e = FileEntry::from_meta(&meta("a.txt", false, 77));
    let c = e.clone();
    assert_eq!(c.name(), e.name());
    assert_eq!(c.kind(), e.kind());
    assert_eq!(c.size(), e.size());
    assert_eq!(c.modified(), e.modified());
    assert_eq!(c.path(), e.path());
}

#[test]
fn listing_has_a_record_for_each_read_that_succeeded() {
    let reads = vec![Some(meta("a", false, 1)), Some(meta("b", true, 2)), Some(meta("c", false, 3))];
    let entries = list_entries(&reads);
    assert_eq!(entries.len(), 3);
}

#[test]
fn listing_drops_failed_reads() {
    let reads = vec![Some(meta("a", false, 1)), None, Some(meta("c", false, 3)), None];
    let entries = list_entries(&reads);
    assert_eq!(entries.len(), 2);
    assert_eq!(entries[0].name(), "a");
    assert_eq!(entries[1].name(), "c");
}

#[test]
fn listing_keeps_the_order_of_the_reads() {
    let reads = vec![Some(meta("z", false, 1)), Some(meta("a", false, 2)), Some(meta("m", true, 3))];
    let entries = list_entries(&reads);
    let names: Vec<&str> = entries.iter().map(|e| e.name()).collect();
    assert_eq!(names, vec!["z", "a", "m"]);
}

#[test]
fn listing_of_nothing_is_empty() {
    assert_eq!(list_entries(&Vec::new()).len(), 0);
    assert_eq!(list_entries(&vec![None, None]).len(), 0);
}

#[test]
fn push_read_adds_one_record_or_none() {
    let mut data = Vec::new();
    push_read(&mut data, &Some(meta("a", false, 5)));
    assert_eq!(data.len(), 1);
    push_read(&mut data, &None);
    assert_eq!(data.len(), 1);
    push_read(&mut data, &Some(meta("b", true, 6)));
    assert_eq!(data.len(), 2);
    assert_eq!(data[0].name(), "a");
    assert_eq!(data[1].name(), "b");
    assert_eq!(data[1].size(), "6");
}
