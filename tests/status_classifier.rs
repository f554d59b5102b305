use shell_commander::status::untracked_line;
use shell_commander::{
    classify, message_short, status_lines, DiffPaths, PathStatus, SideFlags, StatusFlags,
    SubmoduleFlags,
};

fn side() -> SideFlags {
    SideFlags { new: false, modified: false, deleted: false, renamed: false, type_changed: false }
}

fn same_path(p: &str) -> Option<DiffPaths> {
    Some(DiffPaths { old: Some(p.to_string()), new: Some(p.to_string()) })
}

fn entry(index: SideFlags, worktree: SideFlags, ignored: bool, path: &str) -> PathStatus {
    let h2i = if index == side() { None } else { same_path(path) };
    let i2w = if worktree == side() && !ignored { None } else { same_path(path) };
    PathStatus {
        flags: StatusFlags { index, worktree, ignored },
        head_to_index: h2i,
        index_to_workdir: i2w,
        submodule: None,
    }
}

#[test]
fn current_path_is_suppressed() {
    let p = entry(side(), side(), false, "a.txt");
    assert!(classify(&p).is_none());
    assert!(untracked_line(&p).is_none());
    assert_eq!(message_short(&vec![p]), "");
}

#[test]
fn untracked_path_is_suppressed_and_listed_apart() {
    let p = entry(side(), SideFlags { new: true, ..side() }, false, "new.txt");
    assert!(classify(&p).is_none());
    assert_eq!(untracked_line(&p).unwrap(), "?? new.txt");
    assert_eq!(message_short(&vec![p]), "?? new.txt\n");
}

#[test]
fn ignored_forces_both_codes_to_bang() {
    let p = entry(SideFlags { modified: true, ..side() }, SideFlags { new: true, ..side() }, true, "x.log");
    let e = classify(&p).unwrap();
    assert_eq!((e.index_code, e.worktree_code), ('!', '!'));
    assert_eq!(e.render(), "!! x.log");
    let q = entry(side(), side(), true, "y.log");
    assert_eq!(classify(&q).unwrap().render(), "!! y.log");
}

#[test]
fn index_codes_follow_priority() {
    let cases = [
        (SideFlags { new: true, modified: true, ..side() }, 'A'),
        (SideFlags { modified: true, deleted: true, ..side() }, 'M'),
        (SideFlags { deleted: true, type_changed: true, ..side() }, 'D'),
        (SideFlags { type_changed: true, ..side() }, 'T'),
    ];
    for (flags, code) in cases {
        let e = classify(&entry(flags, side(), false, "f")).unwrap();
        assert_eq!(e.index_code, code);
        assert_eq!(e.worktree_code, ' ');
    }
}

#[test]
fn staged_then_modified_gives_two_letters() {
    let p = entry(SideFlags { new: true, ..side() }, SideFlags { modified: true, ..side() }, false, "f.rs");
    assert_eq!(classify(&p).unwrap().render(), "AM f.rs");
    let q = entry(side(), SideFlags { deleted: true, ..side() }, false, "gone.rs");
    assert_eq!(classify(&q).unwrap().render(), " D gone.rs");
}

#[test]
fn index_new_with_worktree_new_keeps_a() {
    let p = entry(SideFlags { new: true, ..side() }, SideFlags { new: true, ..side() }, false, "n");
    let e = classify(&p).unwrap();
    assert_eq!((e.index_code, e.worktree_code), ('A', '?'));
}

#[test]
fn both_sides_renamed_use_three_paths() {
    let p = PathStatus {
        flags: StatusFlags {
            index: SideFlags { renamed: true, ..side() },
            worktree: SideFlags { renamed: true, ..side() },
            ignored: false,
        },
        head_to_index: Some(DiffPaths { old: Some("a".into()), new: Some("b".into()) }),
        index_to_workdir: Some(DiffPaths { old: Some("b".into()), new: Some("c".into()) }),
        submodule: None,
    };
    assert_eq!(classify(&p).unwrap().render(), "RR a b c");
}

#[test]
fn index_renamed_uses_two_paths() {
    let p = PathStatus {
        flags: StatusFlags {
            index: SideFlags { renamed: true, ..side() },
            worktree: SideFlags { modified: true, ..side() },
            ignored: false,
        },
        head_to_index: Some(DiffPaths { old: Some("old.rs".into()), new: Some("new.rs".into()) }),
        index_to_workdir: Some(DiffPaths { old: Some("new.rs".into()), new: Some("new.rs".into()) }),
        submodule: None,
    };
    assert_eq!(classify(&p).unwrap().render(), "RM old.rs new.rs");
}

#[test]
fn worktree_renamed_uses_two_paths() {
    let p = PathStatus {
        flags: StatusFlags {
            index: side(),
            worktree: SideFlags { renamed: true, ..side() },
            ignored: false,
        },
        head_to_index: None,
        index_to_workdir: Some(DiffPaths { old: Some("x".into()), new: Some("y".into()) }),
        submodule: None,
    };
    assert_eq!(classify(&p).unwrap().render(), " R x y");
}

#[test]
fn missing_paths_skip_the_entry() {
    let p = PathStatus {
        flags: StatusFlags {
            index: SideFlags { modified: true, ..side() },
            worktree: side(),
            ignored: false,
        },
        head_to_index: None,
        index_to_workdir: None,
        submodule: None,
    };
    assert!(classify(&p).is_none());
    let q = PathStatus {
        flags: StatusFlags {
            index: SideFlags { renamed: true, ..side() },
            worktree: SideFlags { renamed: true, ..side() },
            ignored: false,
        },
        head_to_index: Some(DiffPaths { old: Some("a".into()), new: Some("b".into()) }),
        index_to_workdir: None,
        submodule: None,
    };
    assert!(classify(&q).is_none());
}

#[test]
fn single_path_falls_back_to_new_path() {
    let p = PathStatus {
        flags: StatusFlags {
            index: SideFlags { new: true, ..side() },
            worktree: side(),
            ignored: false,
        },
        head_to_index: Some(DiffPaths { old: None, new: Some("added.txt".into()) }),
        index_to_workdir: None,
        submodule: None,
    };
    assert_eq!(classify(&p).unwrap().render(), "A  added.txt");
}

fn submodule_entry(m: SubmoduleFlags) -> PathStatus {
    let mut p = entry(side(), SideFlags { modified: true, ..side() }, false, "libs/dep");
    p.submodule = Some(m);
    p
}

#[test]
fn submodule_annotations_by_priority() {
    let none = SubmoduleFlags { new_commits: false, index_modified: false, worktree_modified: false, untracked: false };
    let all = SubmoduleFlags { new_commits: true, index_modified: true, worktree_modified: true, untracked: true };
    assert_eq!(classify(&submodule_entry(all)).unwrap().render(), " M libs/dep (new commits)");
    let modified = SubmoduleFlags { worktree_modified: true, untracked: true, ..none };
    assert_eq!(classify(&submodule_entry(modified)).unwrap().render(), " M libs/dep (modified content)");
    let index_mod = SubmoduleFlags { index_modified: true, ..none };
    assert_eq!(classify(&submodule_entry(index_mod)).unwrap().render(), " M libs/dep (modified content)");
    let untracked = SubmoduleFlags { untracked: true, ..none };
    assert_eq!(classify(&submodule_entry(untracked)).unwrap().render(), " M libs/dep (untracked content)");
    assert_eq!(classify(&submodule_entry(none)).unwrap().render(), " M libs/dep");
}

#[test]
fn listing_keeps_query_order_then_untracked() {
    let entries = vec![
        entry(side(), SideFlags { new: true, ..side() }, false, "u1"),
        entry(SideFlags { modified: true, ..side() }, side(), false, "m"),
        entry(side(), side(), false, "clean"),
        entry(SideFlags { deleted: true, ..side() }, side(), false, "d"),
        entry(side(), SideFlags { new: true, ..side() }, false, "u2"),
    ];
    assert_eq!(status_lines(&entries), vec!["M  m", "D  d", "?? u1", "?? u2"]);
    assert_eq!(message_short(&entries), "M  m\nD  d\n?? u1\n?? u2\n");
}
