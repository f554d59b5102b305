use shell_commander::{
    commit_message, commit_message_at, status_lines, time_now, CommitMessage,
    DiffPaths, PathStatus, SideFlags, StatusFlags, Timestamp,
};

fn strings(v: &[&str]) -> Vec<String> {
    v.iter().map(|s| s.to_string()).collect()
}

#[test]
fn composing_twice_gives_same_bytes() {
    let changes = strings(&["Fix bug", "Tidy"]);
    let lines = strings(&["M  a.rs"]);
    let a = commit_message(&changes, "2024-01-02 03:04:05", &lines);
    let b = commit_message(&changes, "2024-01-02 03:04:05", &lines);
    assert_eq!(a.as_bytes(), b.as_bytes());
}

#[test]
fn no_changes_gives_timestamp_headline() {
    let m = CommitMessage::compose(&vec![], "2024-01-02 03:04:05", &strings(&["A  x"]));
    assert_eq!(m.headline, "Updated: 2024-01-02 03:04:05");
    assert!(m.body_changes.is_empty());
    assert!(!m.has_notes);
    assert_eq!(m.text(), "Updated: 2024-01-02 03:04:05\n\n\nFiles Changed:\nA  x\n");
}

#[test]
fn empty_note_is_skipped() {
    let changes = strings(&["Fix bug", "", "Add test"]);
    let m = CommitMessage::compose(&changes, "2024-01-02 03:04:05", &vec![]);
    assert_eq!(m.headline, "Fix bug");
    assert_eq!(m.body_changes, vec!["Add test".to_string()]);
    let text = m.text();
    assert_eq!(
        text,
        "Fix bug\n\nUpdated: 2024-01-02 03:04:05\n\nChanges:\n- Add test\n\nFiles Changed:\n"
    );
    let updated = text.find("Updated:").unwrap();
    let bullet = text.find("- Add test").unwrap();
    assert!(updated < bullet);
    assert_eq!(text.matches("- ").count(), 1);
}

#[test]
fn single_note_has_no_changes_section() {
    let text = commit_message(&strings(&["Only"]), "T", &strings(&["M  f"]));
    assert_eq!(text, "Only\n\nUpdated: T\n\nFiles Changed:\nM  f\n");
}

#[test]
fn timestamp_is_zero_padded() {
    let t = Timestamp { year: 2024, month: 3, day: 5, hour: 7, minute: 8, second: 9 };
    assert!(commit_message_at(&vec![], &t, &vec![]).starts_with("Updated: 2024-03-05 07:08:09\n"));
    let early = Timestamp { year: 987, month: 12, day: 31, hour: 23, minute: 59, second: 59 };
    let with_note = commit_message_at(&vec!["Note".to_string()], &early, &vec![]);
    assert_eq!(with_note, "Note\n\nUpdated: 0987-12-31 23:59:59\n\nFiles Changed:\n");
}

#[test]
fn timestamp_validity() {
    assert!(Timestamp { year: 2024, month: 2, day: 29, hour: 0, minute: 0, second: 0 }.is_valid());
    assert!(!Timestamp { year: 2023, month: 2, day: 29, hour: 0, minute: 0, second: 0 }.is_valid());
    assert!(!Timestamp { year: 1900, month: 2, day: 29, hour: 0, minute: 0, second: 0 }.is_valid());
    assert!(Timestamp { year: 2000, month: 2, day: 29, hour: 0, minute: 0, second: 0 }.is_valid());
    assert!(!Timestamp { year: 2024, month: 4, day: 31, hour: 0, minute: 0, second: 0 }.is_valid());
    assert!(!Timestamp { year: 10000, month: 1, day: 1, hour: 0, minute: 0, second: 0 }.is_valid());
    assert!(!Timestamp { year: 2024, month: 1, day: 1, hour: 24, minute: 0, second: 0 }.is_valid());
}

#[test]
fn now_is_a_calendar_time() {
    let t = time_now().expect("the test machine's clock reads after 1970");
    assert!(t.year >= 2020);
    assert!((1..=12).contains(&t.month));
    assert!((1..=31).contains(&t.day));
    assert!(t.hour < 24 && t.minute < 60 && t.second < 60);
}

fn staged(path: &str, new: bool) -> PathStatus {
    let none = SideFlags { new: false, modified: false, deleted: false, renamed: false, type_changed: false };
    let index = if new { SideFlags { new: true, ..none } } else { SideFlags { modified: true, ..none } };
    PathStatus {
        flags: StatusFlags { index, worktree: none, ignored: false },
        head_to_index: Some(DiffPaths { old: Some(path.to_string()), new: Some(path.to_string()) }),
        index_to_workdir: None,
        submodule: None,
    }
}

#[test]
fn new_and_modified_files_end_to_end() {
    let entries = vec![staged("a.txt", true), staged("b.txt", false)];
    let lines = status_lines(&entries);
    assert_eq!(lines, vec!["A  a.txt".to_string(), "M  b.txt".to_string()]);
    let now = Timestamp { year: 2025, month: 6, day: 7, hour: 8, minute: 9, second: 10 };
    let text = commit_message_at(&vec![], &now, &lines);
    assert_eq!(
        text,
        "Updated: 2025-06-07 08:09:10\n\n\nFiles Changed:\nA  a.txt\nM  b.txt\n"
    );
    assert!(text.starts_with("Updated: 2025-06-07 08:09:10\n"));
}
