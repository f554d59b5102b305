use vstd::prelude::*;

use crate::text::push_char;

verus! {

/// The change flags that one side (the index or the working tree) reports
/// for a path. A side with no flag set is unchanged ("current").
#[derive(Clone, Copy, Debug, PartialEq, Eq, Structural)]
pub struct SideFlags {
    pub new: bool,
    pub modified: bool,
    pub deleted: bool,
    pub renamed: bool,
    pub type_changed: bool,
}

/// The raw status of one path: what the index and the working tree report,
/// and whether the path is ignored.
#[derive(Clone, Copy, Debug, PartialEq, Eq, Structural)]
pub struct StatusFlags {
    pub index: SideFlags,
    pub worktree: SideFlags,
    pub ignored: bool,
}

/// What a submodule reports about itself.
#[derive(Clone, Copy, Debug, PartialEq, Eq, Structural)]
pub struct SubmoduleFlags {
    /// The checked-out commit differs from the recorded one.
    pub new_commits: bool,
    /// The submodule's own index has changes.
    pub index_modified: bool,
    /// The submodule's working tree has changes to tracked files.
    pub worktree_modified: bool,
    /// The submodule's working tree has untracked files.
    pub untracked: bool,
}

/// The old and new file paths of one side of a diff; either may be missing.
#[derive(Clone, Debug)]
pub struct DiffPaths {
    pub old: Option<String>,
    pub new: Option<String>,
}

/// Everything the status query reports for one changed path.
#[derive(Clone, Debug)]
pub struct PathStatus {
    pub flags: StatusFlags,
    /// The head-to-index diff of the path, if any.
    pub head_to_index: Option<DiffPaths>,
    /// The index-to-worktree diff of the path, if any.
    pub index_to_workdir: Option<DiffPaths>,
    /// The submodule status of the path, where the path is a submodule.
    pub submodule: Option<SubmoduleFlags>,
}

/// One classified path: its two status letters, the path slots used to
/// print it, and the optional submodule annotation.
#[derive(Clone, Debug)]
pub struct StatusEntry {
    pub index_code: char,
    pub worktree_code: char,
    /// Old path: from the head-to-index diff, else the index-to-worktree one.
    pub old_path: Option<String>,
    /// New path of the head-to-index diff, else the old path of the
    /// index-to-worktree diff.
    pub new_path: Option<String>,
    /// New path of the index-to-worktree diff.
    pub workdir_path: Option<String>,
    pub extra_annotation: Option<String>,
}

impl SideFlags {
    pub open spec fn is_current(self) -> bool {
        !self.new && !self.modified && !self.deleted && !self.renamed && !self.type_changed
    }

    /// The first flag set in the order new, modified, deleted, renamed,
    /// type change, with `new_code` standing for "new"; a space when none is.
    pub open spec fn code_spec(self, new_code: char) -> char {
        if self.new {
            new_code
        } else if self.modified {
            'M'
        } else if self.deleted {
            'D'
        } else if self.renamed {
            'R'
        } else if self.type_changed {
            'T'
        } else {
            ' '
        }
    }

    /// Whether the working tree records this side as changed in any way.
    pub open spec fn is_changed(self) -> bool {
        !self.is_current()
    }

    pub fn code(&self, new_code: char) -> (r: char)
        ensures
            r == self.code_spec(new_code),
    {
        if self.new {
            new_code
        } else if self.modified {
            'M'
        } else if self.deleted {
            'D'
        } else if self.renamed {
            'R'
        } else if self.type_changed {
            'T'
        } else {
            ' '
        }
    }
}

impl StatusFlags {
    /// Nothing is reported for the path on either side.
    pub open spec fn is_current(self) -> bool {
        self.index.is_current() && self.worktree.is_current() && !self.ignored
    }

    /// Only "new in the working tree" is reported: a plain untracked path.
    pub open spec fn is_untracked_only(self) -> bool {
        self.index.is_current() && !self.ignored && self.worktree.new && !self.worktree.modified
            && !self.worktree.deleted && !self.worktree.renamed && !self.worktree.type_changed
    }

    /// The index letter before the untracked refinement.
    pub open spec fn raw_index_code(self) -> char {
        self.index.code_spec('A')
    }

    /// The two status letters (index, worktree) of the path.
    pub open spec fn codes_spec(self) -> (char, char) {
        if self.ignored {
            ('!', '!')
        } else if self.worktree.new && self.raw_index_code() == ' ' {
            ('?', '?')
        } else {
            (self.raw_index_code(), self.worktree.code_spec('?'))
        }
    }

    /// Whether the classifier leaves the path out of its listing.
    pub open spec fn suppressed(self) -> bool {
        self.is_current() || (self.codes_spec().0 == '?' && self.codes_spec().1 == '?')
    }

    pub fn codes(&self) -> (r: (char, char))
        ensures
            r == self.codes_spec(),
    {
        let mut istatus = self.index.code('A');
        let mut wstatus = self.worktree.code('?');
        if self.worktree.new && istatus == ' ' {
            istatus = '?';
        }
        if self.ignored {
            istatus = '!';
            wstatus = '!';
        }
        (istatus, wstatus)
    }

    pub fn is_current_exec(&self) -> (r: bool)
        ensures
            r == self.is_current(),
    {
        !self.index.new && !self.index.modified && !self.index.deleted && !self.index.renamed
            && !self.index.type_changed && !self.worktree.new && !self.worktree.modified
            && !self.worktree.deleted && !self.worktree.renamed && !self.worktree.type_changed
            && !self.ignored
    }
}

impl SubmoduleFlags {
    /// The annotation of a submodule line, by priority.
    pub open spec fn annotation_spec(self) -> Option<Seq<char>> {
        if self.new_commits {
            Some(" (new commits)"@)
        } else if self.index_modified || self.worktree_modified {
            Some(" (modified content)"@)
        } else if self.untracked {
            Some(" (untracked content)"@)
        } else {
            None
        }
    }

    pub fn annotation(&self) -> (r: Option<String>)
        ensures
            r matches Some(s) ==> self.annotation_spec() == Some(s@),
            r is None ==> self.annotation_spec() is None,
    {
        if self.new_commits {
            Some(" (new commits)".to_owned())
        } else if self.index_modified || self.worktree_modified {
            Some(" (modified content)".to_owned())
        } else if self.untracked {
            Some(" (untracked content)".to_owned())
        } else {
            None
        }
    }
}

/// The view of an optional string.
pub open spec fn opt_view(o: Option<String>) -> Option<Seq<char>> {
    match o {
        Some(s) => Some(s@),
        None => None,
    }
}

/// `a`, or `b` where `a` is missing.
pub open spec fn or_else(a: Option<Seq<char>>, b: Option<Seq<char>>) -> Option<Seq<char>> {
    if a is Some {
        a
    } else {
        b
    }
}

pub open spec fn old_of(d: Option<DiffPaths>) -> Option<Seq<char>> {
    match d {
        Some(p) => opt_view(p.old),
        None => None,
    }
}

pub open spec fn new_of(d: Option<DiffPaths>) -> Option<Seq<char>> {
    match d {
        Some(p) => opt_view(p.new),
        None => None,
    }
}

impl PathStatus {
    /// The old path slot: head-to-index old path, else index-to-worktree old path.
    pub open spec fn old_slot(self) -> Option<Seq<char>> {
        or_else(old_of(self.head_to_index), old_of(self.index_to_workdir))
    }

    /// The new path slot: head-to-index new path, else index-to-worktree old path.
    pub open spec fn new_slot(self) -> Option<Seq<char>> {
        or_else(new_of(self.head_to_index), old_of(self.index_to_workdir))
    }

    /// The worktree path slot: index-to-worktree new path.
    pub open spec fn workdir_slot(self) -> Option<Seq<char>> {
        new_of(self.index_to_workdir)
    }

    pub open spec fn annotation_spec(self) -> Option<Seq<char>> {
        match self.submodule {
            Some(m) => m.annotation_spec(),
            None => None,
        }
    }
}

impl StatusEntry {
    /// The path slots that the entry's line form needs are all present.
    pub open spec fn has_paths(self) -> bool {
        line_paths_present(
            self.index_code,
            self.worktree_code,
            opt_view(self.old_path),
            opt_view(self.new_path),
            opt_view(self.workdir_path),
        )
    }

    pub open spec fn line(self) -> Seq<char> {
        status_line(
            self.index_code,
            self.worktree_code,
            opt_view(self.old_path),
            opt_view(self.new_path),
            opt_view(self.workdir_path),
            opt_view(self.extra_annotation),
        )
    }

    /// Renders the entry as one short-format status line (no line break).
    pub fn render(&self) -> (r: String)
        requires
            self.has_paths(),
        ensures
            r@ == self.line(),
    {
        let mut s = String::new();
        let i = self.index_code;
        let w = self.worktree_code;
        if i == 'R' && w == 'R' {
            s.append("RR ");
            s.append(self.old_path.as_ref().unwrap().as_str());
            s.append(" ");
            s.append(self.new_path.as_ref().unwrap().as_str());
            s.append(" ");
            s.append(self.workdir_path.as_ref().unwrap().as_str());
        } else if i == 'R' {
            push_char(&mut s, 'R');
            push_char(&mut s, w);
            s.append(" ");
            s.append(self.old_path.as_ref().unwrap().as_str());
            s.append(" ");
            s.append(self.new_path.as_ref().unwrap().as_str());
        } else if w == 'R' {
            push_char(&mut s, i);
            s.append("R ");
            s.append(self.old_path.as_ref().unwrap().as_str());
            s.append(" ");
            s.append(self.workdir_path.as_ref().unwrap().as_str());
        } else {
            push_char(&mut s, i);
            push_char(&mut s, w);
            s.append(" ");
            match &self.old_path {
                Some(p) => s.append(p.as_str()),
                None => s.append(self.new_path.as_ref().unwrap().as_str()),
            }
        }
        match &self.extra_annotation {
            Some(x) => s.append(x.as_str()),
            None => {},
        }
        proof {
            reveal_strlit("RR ");
            reveal_strlit("R ");
            reveal_strlit(" ");
            assert(s@ =~= self.line());
        }
        s
    }
}

/// Whether the path slots that the line form of `(i, w)` prints are present:
/// three for `RR`, two where one side is renamed, one (old or new) otherwise.
pub open spec fn line_paths_present(
    i: char,
    w: char,
    a: Option<Seq<char>>,
    b: Option<Seq<char>>,
    c: Option<Seq<char>>,
) -> bool {
    if i == 'R' && w == 'R' {
        a is Some && b is Some && c is Some
    } else if i == 'R' {
        a is Some && b is Some
    } else if w == 'R' {
        a is Some && c is Some
    } else {
        a is Some || b is Some
    }
}

/// The short-format line of a path: `RR <a> <b> <c>` when both sides are
/// renamed, `R<w> <a> <b>` when the index side is, `<i>R <a> <c>` when the
/// worktree side is, else `<i><w> <path>` with the old path preferred; each
/// followed by the annotation, if any.
pub open spec fn status_line(
    i: char,
    w: char,
    a: Option<Seq<char>>,
    b: Option<Seq<char>>,
    c: Option<Seq<char>>,
    extra: Option<Seq<char>>,
) -> Seq<char> {
    let x = match extra {
        Some(e) => e,
        None => Seq::empty(),
    };
    if i == 'R' && w == 'R' {
        seq!['R', 'R', ' '] + a.unwrap() + seq![' '] + b.unwrap() + seq![' '] + c.unwrap() + x
    } else if i == 'R' {
        seq!['R', w, ' '] + a.unwrap() + seq![' '] + b.unwrap() + x
    } else if w == 'R' {
        seq![i, 'R', ' '] + a.unwrap() + seq![' '] + c.unwrap() + x
    } else {
        seq![i, w, ' '] + or_else(a, b).unwrap() + x
    }
}

/// The line that the classifier prints for `p`, or `None` where it prints none.
pub open spec fn classified_line(p: PathStatus) -> Option<Seq<char>> {
    if p.flags.suppressed() || !line_paths_present(
        p.flags.codes_spec().0,
        p.flags.codes_spec().1,
        p.old_slot(),
        p.new_slot(),
        p.workdir_slot(),
    ) {
        None
    } else {
        Some(
            status_line(
                p.flags.codes_spec().0,
                p.flags.codes_spec().1,
                p.old_slot(),
                p.new_slot(),
                p.workdir_slot(),
                p.annotation_spec(),
            ),
        )
    }
}

fn clone_opt(o: &Option<String>) -> (r: Option<String>)
    ensures
        opt_view(r) == opt_view(*o),
{
    match o {
        Some(s) => Some(s.clone()),
        None => None,
    }
}

fn old_path_of(d: &Option<DiffPaths>) -> (r: Option<String>)
    ensures
        opt_view(r) == old_of(*d),
{
    match d {
        Some(p) => clone_opt(&p.old),
        None => None,
    }
}

fn new_path_of(d: &Option<DiffPaths>) -> (r: Option<String>)
    ensures
        opt_view(r) == new_of(*d),
{
    match d {
        Some(p) => clone_opt(&p.new),
        None => None,
    }
}

fn first_of(a: Option<String>, b: Option<String>) -> (r: Option<String>)
    ensures
        opt_view(r) == or_else(opt_view(a), opt_view(b)),
{
    match a {
        Some(s) => Some(s),
        None => b,
    }
}

/// Classifies one changed path. Returns `None` where the path is
/// suppressed: nothing reported on either side, or both letters `?`
/// (plain untracked paths are listed apart, see `untracked_line`). A path
/// whose line lacks a needed path slot is skipped as well.
pub fn classify(p: &PathStatus) -> (r: Option<StatusEntry>)
    ensures
        r is None <==> classified_line(*p) is None,
        r matches Some(e) ==> {
            &&& e.index_code == p.flags.codes_spec().0
            &&& e.worktree_code == p.flags.codes_spec().1
            &&& opt_view(e.old_path) == p.old_slot()
            &&& opt_view(e.new_path) == p.new_slot()
            &&& opt_view(e.workdir_path) == p.workdir_slot()
            &&& opt_view(e.extra_annotation) == p.annotation_spec()
            &&& e.has_paths()
            &&& classified_line(*p) == Some(e.line())
        },
{
    if p.flags.is_current_exec() {
        return None;
    }
    let (i, w) = p.flags.codes();
    if i == '?' && w == '?' {
        return None;
    }
    let a = first_of(old_path_of(&p.head_to_index), old_path_of(&p.index_to_workdir));
    let b = first_of(new_path_of(&p.head_to_index), old_path_of(&p.index_to_workdir));
    let c = new_path_of(&p.index_to_workdir);
    let present = if i == 'R' && w == 'R' {
        a.is_some() && b.is_some() && c.is_some()
    } else if i == 'R' {
        a.is_some() && b.is_some()
    } else if w == 'R' {
        a.is_some() && c.is_some()
    } else {
        a.is_some() || b.is_some()
    };
    if !present {
        return None;
    }
    let extra = match &p.submodule {
        Some(m) => m.annotation(),
        None => None,
    };
    Some(
        StatusEntry {
            index_code: i,
            worktree_code: w,
            old_path: a,
            new_path: b,
            workdir_path: c,
            extra_annotation: extra,
        },
    )
}


/// The untracked-listing line of `p`: `?? <path>` for a path that is only
/// new in the working tree, with the old path of its index-to-worktree diff.
pub open spec fn untracked_line_spec(p: PathStatus) -> Option<Seq<char>> {
    if p.flags.is_untracked_only() && old_of(p.index_to_workdir) is Some {
        Some(seq!['?', '?', ' '] + old_of(p.index_to_workdir).unwrap())
    } else {
        None
    }
}

/// Appends the present line, if any, to `lines`.
pub open spec fn push_opt(lines: Seq<Seq<char>>, l: Option<Seq<char>>) -> Seq<Seq<char>> {
    match l {
        Some(x) => lines.push(x),
        None => lines,
    }
}

/// The classifier's lines for `s`, in order.
pub open spec fn classified_lines(s: Seq<PathStatus>) -> Seq<Seq<char>>
    decreases s.len(),
{
    if s.len() == 0 {
        Seq::empty()
    } else {
        push_opt(classified_lines(s.drop_last()), classified_line(s.last()))
    }
}

/// The untracked listing for `s`, in order.
pub open spec fn untracked_lines(s: Seq<PathStatus>) -> Seq<Seq<char>>
    decreases s.len(),
{
    if s.len() == 0 {
        Seq::empty()
    } else {
        push_opt(untracked_lines(s.drop_last()), untracked_line_spec(s.last()))
    }
}

/// The short status listing: classified lines, then untracked ones.
pub open spec fn short_lines(s: Seq<PathStatus>) -> Seq<Seq<char>> {
    classified_lines(s) + untracked_lines(s)
}

/// Each line followed by a line break, all joined.
pub open spec fn joined_lines(lines: Seq<Seq<char>>) -> Seq<char>
    decreases lines.len(),
{
    if lines.len() == 0 {
        Seq::empty()
    } else {
        joined_lines(lines.drop_last()) + lines.last().push('\n')
    }
}

pub open spec fn views(v: Seq<String>) -> Seq<Seq<char>> {
    v.map_values(|l: String| l@)
}

/// The untracked-listing line of a path that is only new in the working tree.
pub fn untracked_line(p: &PathStatus) -> (r: Option<String>)
    ensures
        opt_view(r) == untracked_line_spec(*p),
{
    let f = &p.flags;
    let only_new = !f.index.new && !f.index.modified && !f.index.deleted && !f.index.renamed
        && !f.index.type_changed && !f.ignored && f.worktree.new && !f.worktree.modified
        && !f.worktree.deleted && !f.worktree.renamed && !f.worktree.type_changed;
    if !only_new {
        return None;
    }
    match old_path_of(&p.index_to_workdir) {
        Some(path) => {
            let mut s = String::new();
            s.append("?? ");
            s.append(path.as_str());
            proof {
                reveal_strlit("?? ");
                assert(s@ =~= seq!['?', '?', ' '] + old_of(p.index_to_workdir).unwrap());
            }
            Some(s)
        },
        None => None,
    }
}

/// The short status listing of `entries` as lines: each classified path in
/// order, then each plain untracked path as `?? <path>`.
pub fn status_lines(entries: &Vec<PathStatus>) -> (r: Vec<String>)
    ensures
        views(r@) == short_lines(entries@),
{
    let mut lines: Vec<String> = Vec::new();
    let mut i: usize = 0;
    while i < entries.len()
        invariant
            i <= entries.len(),
            views(lines@) == classified_lines(entries@.subrange(0, i as int)),
        decreases entries.len() - i,
    {
        proof {
            assert(entries@.subrange(0, i + 1).drop_last() =~= entries@.subrange(0, i as int));
        }
        match classify(&entries[i]) {
            Some(e) => {
                let l = e.render();
                lines.push(l);
                proof {
                    assert(views(lines@) =~= views(lines@.drop_last()).push(l@));
                }
            },
            None => {},
        }
        i = i + 1;
    }
    proof {
        assert(entries@.subrange(0, entries.len() as int) =~= entries@);
    }
    let ghost n_classified = lines.len();
    let mut j: usize = 0;
    while j < entries.len()
        invariant
            j <= entries.len(),
            n_classified <= lines.len(),
            views(lines@.subrange(0, n_classified as int)) == classified_lines(entries@),
            views(lines@.subrange(n_classified as int, lines.len() as int)) == untracked_lines(
                entries@.subrange(0, j as int),
            ),
        decreases entries.len() - j,
    {
        proof {
            assert(entries@.subrange(0, j + 1).drop_last() =~= entries@.subrange(0, j as int));
        }
        let ghost before = lines@;
        match untracked_line(&entries[j]) {
            Some(l) => {
                lines.push(l);
                proof {
                    assert(lines@.subrange(0, n_classified as int) =~= before.subrange(0, n_classified as int));
                    assert(views(lines@.subrange(n_classified as int, lines.len() as int)) =~= views(before.subrange(n_classified as int, before.len() as int)).push(l@));
                }
            },
            None => {},
        }
        j = j + 1;
    }
    proof {
        assert(entries@.subrange(0, entries.len() as int) =~= entries@);
        assert(views(lines@) =~= views(lines@.subrange(0, n_classified as int)) + views(lines@.subrange(n_classified as int, lines.len() as int)));
    }
    lines
}

/// Joins lines, each followed by a line break.
pub fn join_lines(lines: &Vec<String>) -> (r: String)
    ensures
        r@ == joined_lines(views(lines@)),
{
    let mut s = String::new();
    let mut i: usize = 0;
    while i < lines.len()
        invariant
            i <= lines.len(),
            s@ == joined_lines(views(lines@.subrange(0, i as int))),
        decreases lines.len() - i,
    {
        proof {
            assert(views(lines@.subrange(0, i + 1)).drop_last() =~= views(lines@.subrange(0, i as int)));
        }
        s.append(lines[i].as_str());
        push_char(&mut s, '\n');
        i = i + 1;
    }
    proof {
        assert(lines@.subrange(0, lines.len() as int) =~= lines@);
    }
    s
}

/// The short status listing of `entries` as text, one line per path.
pub fn message_short(entries: &Vec<PathStatus>) -> (r: String)
    ensures
        r@ == joined_lines(short_lines(entries@)),
{
    let lines = status_lines(entries);
    join_lines(&lines)
}

/// A path with nothing reported on either side is never listed.
pub proof fn lemma_current_is_suppressed(p: PathStatus)
    requires
        p.flags.is_current(),
    ensures
        classified_line(p) is None,
        untracked_line_spec(p) is None,
{
}

/// A path whose two letters are both `?` is left out of the classified lines.
pub proof fn lemma_untracked_codes_suppressed(p: PathStatus)
    requires
        p.flags.codes_spec() == ('?', '?'),
    ensures
        classified_line(p) is None,
{
}

/// The ignored flag forces both letters to `!`, whatever else is reported.
pub proof fn lemma_ignored_forces_bang(f: StatusFlags)
    requires
        f.ignored,
    ensures
        f.codes_spec() == ('!', '!'),
{
}

/// Renamed on both sides gives the three-path `RR` line; renamed on one side
/// only gives the two-path line that carries that side's letter.
pub proof fn lemma_rename_line_forms(p: PathStatus)
    requires
        !p.flags.ignored,
        classified_line(p) is Some,
    ensures
        p.flags.codes_spec() == ('R', 'R') ==> classified_line(p) == Some(
            seq!['R', 'R', ' '] + p.old_slot().unwrap() + seq![' '] + p.new_slot().unwrap()
                + seq![' '] + p.workdir_slot().unwrap() + opt_seq(p.annotation_spec()),
        ),
        (p.flags.codes_spec().0 == 'R' && p.flags.codes_spec().1 != 'R') ==> classified_line(p)
            == Some(
            seq!['R', p.flags.codes_spec().1, ' '] + p.old_slot().unwrap() + seq![' ']
                + p.new_slot().unwrap() + opt_seq(p.annotation_spec()),
        ),
        (p.flags.codes_spec().0 != 'R' && p.flags.codes_spec().1 == 'R') ==> classified_line(p)
            == Some(
            seq![p.flags.codes_spec().0, 'R', ' '] + p.old_slot().unwrap() + seq![' ']
                + p.workdir_slot().unwrap() + opt_seq(p.annotation_spec()),
        ),
{
}

/// Renamed in the index and in the worktree, with no higher-priority flag on
/// either side, gives the letters `RR`.
pub proof fn lemma_renamed_flags_give_rr(f: StatusFlags)
    requires
        !f.ignored,
        f.index.renamed && !f.index.new && !f.index.modified && !f.index.deleted,
        f.worktree.renamed && !f.worktree.new && !f.worktree.modified && !f.worktree.deleted,
    ensures
        f.codes_spec() == ('R', 'R'),
{
}

/// An optional text, empty where missing.
pub open spec fn opt_seq(o: Option<Seq<char>>) -> Seq<char> {
    match o {
        Some(x) => x,
        None => Seq::empty(),
    }
}

} // verus!
