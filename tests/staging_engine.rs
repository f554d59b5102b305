use shell_commander::{SideFlags, Stager, StagingMode, StatusFlags};

fn wt(new: bool, modified: bool, deleted: bool, renamed: bool, type_changed: bool) -> Option<StatusFlags> {
    let none = SideFlags { new: false, modified: false, deleted: false, renamed: false, type_changed: false };
    Some(StatusFlags {
        index: none,
        worktree: SideFlags { new, modified, deleted, renamed, type_changed },
        ignored: false,
    })
}

fn matched() -> Vec<(&'static str, Option<StatusFlags>)> {
    vec![
        ("new.txt", wt(true, false, false, false, false)),
        ("mod.txt", wt(false, true, false, false, false)),
        ("del.txt", wt(false, false, true, false, false)),
        ("ren.txt", wt(false, false, false, true, false)),
        ("tc.txt", wt(false, false, false, false, true)),
        ("clean.txt", wt(false, false, false, false, false)),
        ("unknown.txt", None),
    ]
}

#[test]
fn update_only_stages_new_and_modified() {
    let mut s = Stager::new(StagingMode::UpdateOnly);
    let mut staged = vec![];
    for (p, st) in matched() {
        if s.on_matched(p, st) {
            staged.push(p);
        }
    }
    assert_eq!(staged, vec!["new.txt", "mod.txt"]);
    assert_eq!(s.staged, vec!["new.txt".to_string(), "mod.txt".to_string()]);
}

#[test]
fn add_all_stages_every_path() {
    let mut s = Stager::new(StagingMode::AddAll);
    for (p, st) in matched() {
        assert!(s.on_matched(p, st));
    }
    assert_eq!(s.staged.len(), 7);
}

#[test]
fn affected_count_counts_worktree_changes() {
    for mode in [StagingMode::UpdateOnly, StagingMode::AddAll] {
        let mut s = Stager::new(mode);
        for (p, st) in matched() {
            s.on_matched(p, st);
        }
        let r = s.finish();
        assert_eq!(r.affected_count, 5);
        assert_eq!(r.attempted_paths.len(), 7);
        assert_eq!(r.attempted_paths[6], "unknown.txt");
    }
}

#[test]
fn nothing_matched_counts_nothing() {
    let r = Stager::new(StagingMode::UpdateOnly).finish();
    assert_eq!(r.affected_count, 0);
    assert!(r.attempted_paths.is_empty());
}
