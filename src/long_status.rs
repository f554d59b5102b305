use vstd::prelude::*;

use crate::status::{
    join_lines, joined_lines, new_of, old_of, opt_view, push_opt, views, DiffPaths, PathStatus,
    SideFlags,
};
use crate::text::str_eq;

verus! {

/// The sections of the long status listing.
#[derive(Clone, Copy, Debug, PartialEq, Eq, Structural)]
pub enum LongSection {
    /// Changes between the head and the index.
    Staged,
    /// Changes between the index and the worktree.
    Unstaged,
    /// Paths only new in the worktree.
    Untracked,
    /// Paths only ignored.
    Ignored,
}

/// The label of an index-side change, by priority.
pub open spec fn index_label(f: SideFlags) -> Option<Seq<char>> {
    if f.new {
        Some("new file: "@)
    } else if f.modified {
        Some("modified: "@)
    } else if f.deleted {
        Some("deleted: "@)
    } else if f.renamed {
        Some("renamed: "@)
    } else if f.type_changed {
        Some("typechange:"@)
    } else {
        None
    }
}

/// The label of a worktree-side change of a tracked path, by priority.
pub open spec fn worktree_label(f: SideFlags) -> Option<Seq<char>> {
    if f.modified {
        Some("modified: "@)
    } else if f.deleted {
        Some("deleted: "@)
    } else if f.renamed {
        Some("renamed: "@)
    } else if f.type_changed {
        Some("typechange:"@)
    } else {
        None
    }
}

/// `#\t<label>  <old> -> <new>` where the diff moved the path, else
/// `#\t<label>  <path>` with the old path preferred; none without paths.
pub open spec fn change_line(label: Seq<char>, d: Option<DiffPaths>) -> Option<Seq<char>> {
    let o = old_of(d);
    let n = new_of(d);
    if o is Some && n is Some && o != n {
        Some("#\t"@ + label + "  "@ + o.unwrap() + " -> "@ + n.unwrap())
    } else if o is Some {
        Some("#\t"@ + label + "  "@ + o.unwrap())
    } else if n is Some {
        Some("#\t"@ + label + "  "@ + n.unwrap())
    } else {
        None
    }
}

impl PathStatus {
    /// Only the ignored flag is reported.
    pub open spec fn is_ignored_only(self) -> bool {
        self.flags.ignored && self.flags.index.is_current() && self.flags.worktree.is_current()
    }
}

/// The line of `p` in a section of the long listing, if it has one.
pub open spec fn long_line(p: PathStatus, sec: LongSection) -> Option<Seq<char>> {
    match sec {
        LongSection::Staged => match index_label(p.flags.index) {
            Some(l) => change_line(l, p.head_to_index),
            None => None,
        },
        LongSection::Unstaged => match worktree_label(p.flags.worktree) {
            Some(l) => if p.index_to_workdir is Some {
                change_line(l, p.index_to_workdir)
            } else {
                None
            },
            None => None,
        },
        LongSection::Untracked => if p.flags.is_untracked_only() && old_of(p.index_to_workdir) is Some {
            Some("#\t"@ + old_of(p.index_to_workdir).unwrap())
        } else {
            None
        },
        LongSection::Ignored => if p.is_ignored_only() && old_of(p.index_to_workdir) is Some {
            Some("#\t"@ + old_of(p.index_to_workdir).unwrap())
        } else {
            None
        },
    }
}

/// The lines of a section for `s`, in order.
pub open spec fn section_lines(s: Seq<PathStatus>, sec: LongSection) -> Seq<Seq<char>>
    decreases s.len(),
{
    if s.len() == 0 {
        Seq::empty()
    } else {
        push_opt(section_lines(s.drop_last(), sec), long_line(s.last(), sec))
    }
}

/// Whether some path is deleted in the worktree.
pub open spec fn any_deleted(s: Seq<PathStatus>) -> bool
    decreases s.len(),
{
    s.len() > 0 && (any_deleted(s.drop_last()) || s.last().flags.worktree.deleted)
}

pub open spec fn staged_header() -> Seq<Seq<char>> {
    seq!["# Changes to be committed:"@, "#   (use \"git reset HEAD <file>...\" to unstage)"@, "#"@]
}

pub open spec fn unstaged_header(rm: bool) -> Seq<Seq<char>> {
    seq![
        "# Changes not staged for commit:"@,
        "#   (use \"git add"@ + (if rm { "/rm"@ } else { Seq::empty() })
            + " <file>...\" to update what will be committed)"@,
        "#   (use \"git checkout -- <file>...\" to discard changes in working directory)"@,
        "#"@,
    ]
}

pub open spec fn untracked_header() -> Seq<Seq<char>> {
    seq![
        "# Untracked files"@,
        "#   (use \"git add <file>...\" to include in what will be committed)"@,
        "#"@,
    ]
}

pub open spec fn ignored_header() -> Seq<Seq<char>> {
    seq![
        "# Ignored files"@,
        "#   (use \"git add -f <file>...\" to include in what will be committed)"@,
        "#"@,
    ]
}

pub open spec fn no_changes_hint() -> Seq<char> {
    "no changes added to commit (use \"git add\" and/or \"git commit -a\")"@
}

/// A section with lines: the header, the lines and, where asked, a closing `#`.
pub open spec fn block(header: Seq<Seq<char>>, lines: Seq<Seq<char>>, close: bool) -> Seq<
    Seq<char>,
> {
    if lines.len() > 0 {
        header + lines + if close {
            seq!["#"@]
        } else {
            Seq::empty()
        }
    } else {
        Seq::empty()
    }
}

/// The long status listing: staged changes, unstaged changes (each with a
/// header and a closing `#` where non-empty), untracked paths, ignored paths,
/// and a hint where only unstaged changes exist.
pub open spec fn long_lines_spec(s: Seq<PathStatus>) -> Seq<Seq<char>> {
    let st = section_lines(s, LongSection::Staged);
    let un = section_lines(s, LongSection::Unstaged);
    block(staged_header(), st, true) + block(unstaged_header(any_deleted(s)), un, true) + block(
        untracked_header(),
        section_lines(s, LongSection::Untracked),
        false,
    ) + block(ignored_header(), section_lines(s, LongSection::Ignored), false) + (if st.len() == 0
        && un.len() > 0 {
        seq![no_changes_hint()]
    } else {
        Seq::empty()
    })
}

fn index_label_exec(f: &SideFlags) -> (r: Option<&'static str>)
    ensures
        r matches Some(l) ==> index_label(*f) == Some(l@),
        r is None ==> index_label(*f) is None,
{
    if f.new {
        Some("new file: ")
    } else if f.modified {
        Some("modified: ")
    } else if f.deleted {
        Some("deleted: ")
    } else if f.renamed {
        Some("renamed: ")
    } else if f.type_changed {
        Some("typechange:")
    } else {
        None
    }
}

fn worktree_label_exec(f: &SideFlags) -> (r: Option<&'static str>)
    ensures
        r matches Some(l) ==> worktree_label(*f) == Some(l@),
        r is None ==> worktree_label(*f) is None,
{
    if f.modified {
        Some("modified: ")
    } else if f.deleted {
        Some("deleted: ")
    } else if f.renamed {
        Some("renamed: ")
    } else if f.type_changed {
        Some("typechange:")
    } else {
        None
    }
}

fn labelled(label: &str, path: &str) -> (r: String)
    ensures
        r@ == "#\t"@ + label@ + "  "@ + path@,
{
    let mut s = String::new();
    s.append("#\t");
    s.append(label);
    s.append("  ");
    s.append(path);
    s
}

fn change_line_exec(label: &str, d: &Option<DiffPaths>) -> (r: Option<String>)
    ensures
        opt_view(r) == change_line(label@, *d),
{
    match d {
        Some(p) => match (&p.old, &p.new) {
            (Some(o), Some(n)) => {
                if str_eq(o.as_str(), n.as_str()) {
                    Some(labelled(label, o.as_str()))
                } else {
                    let mut s = labelled(label, o.as_str());
                    s.append(" -> ");
                    s.append(n.as_str());
                    Some(s)
                }
            },
            (Some(o), None) => Some(labelled(label, o.as_str())),
            (None, Some(n)) => Some(labelled(label, n.as_str())),
            (None, None) => None,
        },
        None => None,
    }
}

fn path_line(d: &Option<DiffPaths>) -> (r: Option<String>)
    ensures
        r matches Some(x) ==> old_of(*d) matches Some(o) && x@ == "#\t"@ + o,
        r is None ==> old_of(*d) is None,
{
    match d {
        Some(p) => match &p.old {
            Some(o) => {
                let mut s = String::new();
                s.append("#\t");
                s.append(o.as_str());
                Some(s)
            },
            None => None,
        },
        None => None,
    }
}

/// The line of a path in a section of the long listing, if it has one.
pub fn long_line_exec(p: &PathStatus, sec: LongSection) -> (r: Option<String>)
    ensures
        opt_view(r) == long_line(*p, sec),
{
    let f = &p.flags;
    match sec {
        LongSection::Staged => match index_label_exec(&f.index) {
            Some(l) => change_line_exec(l, &p.head_to_index),
            None => None,
        },
        LongSection::Unstaged => match worktree_label_exec(&f.worktree) {
            Some(l) => if p.index_to_workdir.is_some() {
                change_line_exec(l, &p.index_to_workdir)
            } else {
                None
            },
            None => None,
        },
        LongSection::Untracked => {
            let only_new = !f.index.new && !f.index.modified && !f.index.deleted
                && !f.index.renamed && !f.index.type_changed && !f.ignored && f.worktree.new
                && !f.worktree.modified && !f.worktree.deleted && !f.worktree.renamed
                && !f.worktree.type_changed;
            if only_new {
                path_line(&p.index_to_workdir)
            } else {
                None
            }
        },
        LongSection::Ignored => {
            let only_ignored = f.ignored && !f.index.new && !f.index.modified && !f.index.deleted
                && !f.index.renamed && !f.index.type_changed && !f.worktree.new
                && !f.worktree.modified && !f.worktree.deleted && !f.worktree.renamed
                && !f.worktree.type_changed;
            if only_ignored {
                path_line(&p.index_to_workdir)
            } else {
                None
            }
        },
    }
}

/// The lines of one section, in the order of the status query.
pub fn section(entries: &Vec<PathStatus>, sec: LongSection) -> (r: Vec<String>)
    ensures
        views(r@) == section_lines(entries@, sec),
{
    let mut lines: Vec<String> = Vec::new();
    let mut i: usize = 0;
    while i < entries.len()
        invariant
            i <= entries.len(),
            views(lines@) == section_lines(entries@.subrange(0, i as int), sec),
        decreases entries.len() - i,
    {
        proof {
            assert(entries@.subrange(0, i + 1).drop_last() =~= entries@.subrange(0, i as int));
        }
        match long_line_exec(&entries[i], sec) {
            Some(l) => {
                let ghost before = lines@;
                lines.push(l);
                proof {
                    assert(lines@.drop_last() =~= before);
                    assert(views(lines@) =~= views(before).push(l@));
                }
            },
            None => {},
        }
        i = i + 1;
    }
    proof {
        assert(entries@.subrange(0, entries.len() as int) =~= entries@);
    }
    lines
}

fn has_deleted(entries: &Vec<PathStatus>) -> (r: bool)
    ensures
        r == any_deleted(entries@),
{
    let mut found = false;
    let mut i: usize = 0;
    while i < entries.len()
        invariant
            i <= entries.len(),
            found == any_deleted(entries@.subrange(0, i as int)),
        decreases entries.len() - i,
    {
        proof {
            assert(entries@.subrange(0, i + 1).drop_last() =~= entries@.subrange(0, i as int));
        }
        found = found || entries[i].flags.worktree.deleted;
        i = i + 1;
    }
    proof {
        assert(entries@.subrange(0, entries.len() as int) =~= entries@);
    }
    found
}

fn push_line(v: &mut Vec<String>, s: &str)
    ensures
        views(final(v)@) == views(old(v)@).push(s@),
{
    let ghost before = v@;
    v.push(s.to_owned());
    proof {
        assert(v@.drop_last() =~= before);
        assert(views(v@) =~= views(before).push(s@));
    }
}

fn append_lines(v: &mut Vec<String>, w: Vec<String>)
    ensures
        views(final(v)@) == views(old(v)@) + views(w@),
{
    let ghost start = views(v@);
    let mut i: usize = 0;
    while i < w.len()
        invariant
            i <= w.len(),
            views(v@) == start + views(w@.subrange(0, i as int)),
        decreases w.len() - i,
    {
        let ghost before = v@;
        v.push(w[i].clone());
        proof {
            assert(v@.drop_last() =~= before);
            assert(views(v@) =~= views(before).push(v@.last()@));
            assert(views(w@.subrange(0, i + 1)) =~= views(w@.subrange(0, i as int)).push(w@[i as int]@));
        }
        i = i + 1;
    }
    proof {
        assert(w@.subrange(0, w.len() as int) =~= w@);
    }
}

fn staged_block(lines: Vec<String>) -> (r: Vec<String>)
    ensures
        views(r@) == block(staged_header(), views(lines@), true),
{
    let mut out: Vec<String> = Vec::new();
    if lines.len() > 0 {
        push_line(&mut out, "# Changes to be committed:");
        push_line(&mut out, "#   (use \"git reset HEAD <file>...\" to unstage)");
        push_line(&mut out, "#");
        append_lines(&mut out, lines);
        push_line(&mut out, "#");
    }
    proof {
        assert(views(out@) =~= block(staged_header(), views(lines@), true));
    }
    out
}

fn unstaged_block(lines: Vec<String>, rm: bool) -> (r: Vec<String>)
    ensures
        views(r@) == block(unstaged_header(rm), views(lines@), true),
{
    let mut out: Vec<String> = Vec::new();
    if lines.len() > 0 {
        push_line(&mut out, "# Changes not staged for commit:");
        let mut hint = String::new();
        hint.append("#   (use \"git add");
        if rm {
            hint.append("/rm");
        }
        hint.append(" <file>...\" to update what will be committed)");
        push_line(&mut out, hint.as_str());
        push_line(
            &mut out,
            "#   (use \"git checkout -- <file>...\" to discard changes in working directory)",
        );
        push_line(&mut out, "#");
        append_lines(&mut out, lines);
        push_line(&mut out, "#");
    }
    proof {
        assert(views(out@) =~= block(unstaged_header(rm), views(lines@), true));
    }
    out
}

fn untracked_block(lines: Vec<String>) -> (r: Vec<String>)
    ensures
        views(r@) == block(untracked_header(), views(lines@), false),
{
    let mut out: Vec<String> = Vec::new();
    if lines.len() > 0 {
        push_line(&mut out, "# Untracked files");
        push_line(&mut out, "#   (use \"git add <file>...\" to include in what will be committed)");
        push_line(&mut out, "#");
        append_lines(&mut out, lines);
    }
    proof {
        assert(views(out@) =~= block(untracked_header(), views(lines@), false));
    }
    out
}

fn ignored_block(lines: Vec<String>) -> (r: Vec<String>)
    ensures
        views(r@) == block(ignored_header(), views(lines@), false),
{
    let mut out: Vec<String> = Vec::new();
    if lines.len() > 0 {
        push_line(&mut out, "# Ignored files");
        push_line(
            &mut out,
            "#   (use \"git add -f <file>...\" to include in what will be committed)",
        );
        push_line(&mut out, "#");
        append_lines(&mut out, lines);
    }
    proof {
        assert(views(out@) =~= block(ignored_header(), views(lines@), false));
    }
    out
}

/// The long status listing of `entries`, one string per printed line.
pub fn long_lines(entries: &Vec<PathStatus>) -> (r: Vec<String>)
    ensures
        views(r@) == long_lines_spec(entries@),
{
    let st = section(entries, LongSection::Staged);
    let un = section(entries, LongSection::Unstaged);
    let ut = section(entries, LongSection::Untracked);
    let ig = section(entries, LongSection::Ignored);
    let no_staged = st.len() == 0;
    let some_unstaged = un.len() > 0;
    let rm = has_deleted(entries);
    let mut out = staged_block(st);
    append_lines(&mut out, unstaged_block(un, rm));
    append_lines(&mut out, untracked_block(ut));
    append_lines(&mut out, ignored_block(ig));
    if no_staged && some_unstaged {
        push_line(&mut out, "no changes added to commit (use \"git add\" and/or \"git commit -a\")");
    }
    proof {
        assert(views(out@) =~= long_lines_spec(entries@));
    }
    out
}

/// The long status listing of `entries` as text.
pub fn message_long(entries: &Vec<PathStatus>) -> (r: String)
    ensures
        r@ == joined_lines(long_lines_spec(entries@)),
{
    let lines = long_lines(entries);
    join_lines(&lines)
}

} // verus!
