use dirlist::date::Timestamp;
use dirlist::entry::EntryMeta;
use dirlist::listing::list_entries;
use dirlist::table::render_table;
use dirlist::json::render_json;
use dirlist::walk::{headed, render_listing, Options, Outcome, Walker};
use dirlist::warn::{missing_warning, unreadable_warning};

fn options(json: bool, clarity: bool, recursive: bool) -> Options {
    Options { json, clarity, recursive }
}

fn child(dir: &str, name: &str, is_dir: bool, len: u64) -> Option<EntryMeta> {
    Some(EntryMeta {
        name: Some(name.to_string()),
        is_dir,
        len,
        modified: Some(Timestamp { secs: 1704412800, nanos: 0 }),
        path: format!("{}/{}", dir, name),
    })
}

#[test]
fn warnings_are_red() {
    assert_eq!(missing_warning(), "\u{1b}[31mPath does't exist\u{1b}[39m");
    assert_eq!(unreadable_warning(), "\u{1b}[31merror reading directory\u{1b}[39m");
}

#[test]
fn walk_starts_with_its_one_path() {
    let mut walker = Walker::new("root".to_string(), options(false, false, true));
    assert_eq!(walker.pending_len(), 1);
    assert_eq!(walker.options(), options(false, false, true));
    assert_eq!(walker.next_path(), Some("root".to_string()));
    assert_eq!(walker.pending_len(), 0);
    assert_eq!(walker.next_path(), None);
    assert_eq!(walker.next_path(), None);
}

#[test]
fn missing_start_gives_one_warning_and_ends_the_walk() {
    let mut walker = Walker::new("nowhere".to_string(), options(false, false, true));
    let path = walker.next_path().unwrap();
    let shown = walker.visit(&path, Outcome::Missing);
    assert_eq!(shown, "\u{1b}[31mPath does't exist\u{1b}[39m\n");
    assert_eq!(walker.pending_len(), 0);
    assert_eq!(walker.next_path(), None);
}

#[test]
fn unreadable_start_gives_the_other_warning() {
    let mut walker = Walker::new("locked".to_string(), options(true, false, true));
    let path = walker.next_path().unwrap();
    let shown = walker.visit(&path, Outcome::Unreadable);
    assert_eq!(shown, "\u{1b}[31merror reading directory\u{1b}[39m\n");
    assert_eq!(walker.next_path(), None);
}

#[test]
fn recursive_walk_is_breadth_first() {
    let mut walker = Walker::new("root".to_string(), options(true, false, true));

    let first = walker.next_path().unwrap();
    assert_eq!(first, "root");
    let shown = walker.visit(
        &first,
        Outcome::Listed(vec![child("root", "a", true, 4096), child("root", "c.txt", false, 3)]),
    );
    assert!(shown.starts_with("root\n["));
    assert!(shown.contains("\"name\":\"a\""));
    assert!(shown.contains("\"name\":\"c.txt\""));
    assert!(!shown.contains("b.txt"));
    assert_eq!(walker.pending_len(), 1);

    let second = walker.next_path().unwrap();
    assert_eq!(second, "root/a");
    let shown = walker.visit(&second, Outcome::Listed(vec![child("root/a", "b.txt", false, 1)]));
    assert_eq!(
        shown,
        "root/a\n[{\"name\":\"b.txt\",\"e_type\":\"File\",\"size\":\"1\",\"modifiled\":\"Fri Jan 5 2024\",\"path\":\"root/a/b.txt\"}]\n\n"
    );
    assert_eq!(walker.next_path(), None);
}

#[test]
fn directories_wait_behind_what_is_pending() {
    let mut walker = Walker::new("r".to_string(), options(true, false, true));
    let r = walker.next_path().unwrap();
    walker.visit(
        &r,
        Outcome::Listed(vec![
            child("r", "x", true, 0),
            child("r", "f", false, 0),
            None,
            child("r", "y", true, 0),
        ]),
    );
    assert_eq!(walker.pending_len(), 2);
    let x = walker.next_path().unwrap();
    assert_eq!(x, "r/x");
    walker.visit(&x, Outcome::Listed(vec![child("r/x", "deep", true, 0)]));
    assert_eq!(walker.next_path(), Some("r/y".to_string()));
    assert_eq!(walker.next_path(), Some("r/x/deep".to_string()));
    assert_eq!(walker.next_path(), None);
}

#[test]
fn plain_walk_does_not_go_down() {
    let mut walker = Walker::new("root".to_string(), options(true, false, false));
    let root = walker.next_path().unwrap();
    walker.visit(&root, Outcome::Listed(vec![child("root", "a", true, 4096)]));
    assert_eq!(walker.pending_len(), 0);
    assert_eq!(walker.next_path(), None);
}

#[test]
fn warnings_queue_nothing() {
    let mut walker = Walker::new("a".to_string(), options(false, false, true));
    let a = walker.next_path().unwrap();
    walker.visit(&a, Outcome::Missing);
    assert_eq!(walker.pending_len(), 0);
    walker.visit(&a, Outcome::Unreadable);
    assert_eq!(walker.pending_len(), 0);
}

#[test]
fn listing_follows_the_options() {
    let entries = list_entries(&vec![child(".", "a.txt", false, 1024)]);
    assert_eq!(render_listing(&entries, options(true, false, false)), render_json(&entries));
    assert_eq!(render_listing(&entries, options(true, true, false)), render_json(&entries));
    let raw = render_listing(&entries, options(false, false, false));
    assert_eq!(raw, render_table(&entries, false));
    assert!(raw.contains("1024 B"));
    let clear = render_listing(&entries, options(false, true, false));
    assert_eq!(clear, render_table(&entries, true));
    assert!(clear.contains("1 KiB"));
}

#[test]
fn heading_and_line_ends_around_a_listing() {
    assert_eq!(headed("root", "TABLE", false), "root\nTABLE\n");
    assert_eq!(headed("root", "[]", true), "root\n[]\n\n");
    assert_eq!(headed("", "", false), "\n\n");
}

#[test]
fn visit_shows_the_path_and_then_the_table() {
    let mut walker = Walker::new(".".to_string(), options(false, false, false));
    let path = walker.next_path().unwrap();
    let reads = vec![child(".", "a.txt", false, 1024), None];
    let entries = list_entries(&reads);
    let shown = walker.visit(&path, Outcome::Listed(reads));
    assert_eq!(shown, format!(".\n{}\n", render_table(&entries, false)));
}

#[test]
fn visit_of_an_empty_directory() {
    let mut walker = Walker::new("empty".to_string(), options(true, false, true));
    let path = walker.next_path().unwrap();
    assert_eq!(walker.visit(&path, Outcome::Listed(Vec::new())), "empty\n[]\n\n");
    assert_eq!(walker.next_path(), None);
}

#[test]
fn same_directory_is_shown_the_same_way_twice() {
    let reads = vec![child(".", "a.txt", false, 1024), child(".", "sub", true, 4096), None];
    let mut first = Walker::new(".".to_string(), options(false, false, false));
    let mut second = Walker::new(".".to_string(), options(false, false, false));
    let p = first.next_path().unwrap();
    let q = second.next_path().unwrap();
    let shown_first = first.visit(&p, Outcome::Listed(reads.clone()));
    let shown_second = second.visit(&q, Outcome::Listed(reads));
    assert_eq!(shown_first, shown_second);
}
