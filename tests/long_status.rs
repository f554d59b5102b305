use shell_commander::{long_lines, message_long, DiffPaths, PathStatus, SideFlags, StatusFlags};

fn none() -> SideFlags {
    SideFlags { new: false, modified: false, deleted: false, renamed: false, type_changed: false }
}

fn paths(old: &str, new: &str) -> Option<DiffPaths> {
    Some(DiffPaths { old: Some(old.to_string()), new: Some(new.to_string()) })
}

fn status(index: SideFlags, worktree: SideFlags, ignored: bool, h2i: Option<DiffPaths>, i2w: Option<DiffPaths>) -> PathStatus {
    PathStatus { flags: StatusFlags { index, worktree, ignored }, head_to_index: h2i, index_to_workdir: i2w, submodule: None }
}

#[test]
fn long_listing_all_sections() {
    let entries = vec![
        status(SideFlags { new: true, ..none() }, none(), false, paths("a.txt", "a.txt"), None),
        status(SideFlags { renamed: true, ..none() }, none(), false, paths("old.rs", "new.rs"), None),
        status(none(), SideFlags { deleted: true, ..none() }, false, None, paths("gone", "gone")),
        status(none(), SideFlags { new: true, ..none() }, false, None, paths("u.txt", "u.txt")),
        status(none(), none(), true, None, paths("t.log", "t.log")),
    ];
    let expected = vec![
        "# Changes to be committed:",
        "#   (use \"git reset HEAD <file>...\" to unstage)",
        "#",
        "#\tnew file:   a.txt",
        "#\trenamed:   old.rs -> new.rs",
        "#",
        "# Changes not staged for commit:",
        "#   (use \"git add/rm <file>...\" to update what will be committed)",
        "#   (use \"git checkout -- <file>...\" to discard changes in working directory)",
        "#",
        "#\tdeleted:   gone",
        "#",
        "# Untracked files",
        "#   (use \"git add <file>...\" to include in what will be committed)",
        "#",
        "#\tu.txt",
        "# Ignored files",
        "#   (use \"git add -f <file>...\" to include in what will be committed)",
        "#",
        "#\tt.log",
    ];
    assert_eq!(long_lines(&entries), expected);
}

#[test]
fn long_listing_only_unstaged_adds_hint() {
    let entries = vec![status(none(), SideFlags { modified: true, ..none() }, false, None, paths("m.rs", "m.rs"))];
    assert_eq!(
        message_long(&entries),
        "# Changes not staged for commit:\n\
         #   (use \"git add <file>...\" to update what will be committed)\n\
         #   (use \"git checkout -- <file>...\" to discard changes in working directory)\n\
         #\n\
         #\tmodified:   m.rs\n\
         #\n\
         no changes added to commit (use \"git add\" and/or \"git commit -a\")\n"
    );
}

#[test]
fn long_listing_empty_and_typechange() {
    assert!(long_lines(&vec![]).is_empty());
    let entries = vec![status(SideFlags { type_changed: true, ..none() }, none(), false, paths("l", "l"), None)];
    let lines = long_lines(&entries);
    assert_eq!(lines[3], "#\ttypechange:  l");
    assert_eq!(lines.len(), 5);
}
