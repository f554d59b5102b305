use vstd::prelude::*;

use crate::status::StatusFlags;

verus! {

/// How matched paths are staged.
#[derive(Clone, Copy, Debug, PartialEq, Eq, Structural)]
pub enum StagingMode {
    /// Only already-tracked changes: a path is staged where its worktree
    /// status is new or modified.
    UpdateOnly,
    /// Every matched path is staged.
    AddAll,
}

/// The outcome of one staging call.
#[derive(Clone, Debug)]
pub struct StagingResult {
    /// Every path the path specs matched, in order.
    pub attempted_paths: Vec<String>,
    /// How many matched paths are changed in the worktree.
    pub affected_count: usize,
}

/// Whether a path counts as affected: its status could be read and the
/// worktree reports it new, modified, deleted, renamed or type-changed.
pub open spec fn is_affected(status: Option<StatusFlags>) -> bool {
    match status {
        Some(f) => f.worktree.is_changed(),
        None => false,
    }
}

/// Whether the status could be read and the worktree reports the path new
/// or modified.
pub open spec fn is_new_or_modified(status: Option<StatusFlags>) -> bool {
    match status {
        Some(f) => f.worktree.new || f.worktree.modified,
        None => false,
    }
}

/// Whether a matched path is staged in `mode`.
pub open spec fn should_stage(mode: StagingMode, status: Option<StatusFlags>) -> bool {
    match mode {
        StagingMode::AddAll => true,
        StagingMode::UpdateOnly => is_new_or_modified(status),
    }
}

/// The number of affected statuses in `s`.
pub open spec fn count_affected(s: Seq<Option<StatusFlags>>) -> nat
    decreases s.len(),
{
    if s.len() == 0 {
        0
    } else {
        count_affected(s.drop_last()) + if is_affected(s.last()) {
            1nat
        } else {
            0nat
        }
    }
}

/// The paths of `paths` whose status says to stage them in `mode`.
pub open spec fn staged_paths(
    mode: StagingMode,
    paths: Seq<Seq<char>>,
    statuses: Seq<Option<StatusFlags>>,
) -> Seq<Seq<char>>
    recommends
        paths.len() == statuses.len(),
    decreases paths.len(),
{
    if paths.len() == 0 || statuses.len() == 0 {
        Seq::empty()
    } else {
        let rest = staged_paths(mode, paths.drop_last(), statuses.drop_last());
        if should_stage(mode, statuses.last()) {
            rest.push(paths.last())
        } else {
            rest
        }
    }
}

/// Decides, path by path, what a staging call adds to the index, and keeps
/// its account.
pub struct Stager {
    pub mode: StagingMode,
    pub result: StagingResult,
    /// The paths decided to be staged, in order.
    pub staged: Vec<String>,
    /// The statuses of the matched paths, in order.
    pub statuses: Ghost<Seq<Option<StatusFlags>>>,
}

impl Stager {
    pub open spec fn attempted(self) -> Seq<Seq<char>> {
        self.result.attempted_paths@.map_values(|p: String| p@)
    }

    pub open spec fn wf(self) -> bool {
        &&& self.statuses@.len() == self.result.attempted_paths.len()
        &&& self.result.affected_count == count_affected(self.statuses@)
        &&& self.staged@.map_values(|p: String| p@) == staged_paths(
            self.mode,
            self.attempted(),
            self.statuses@,
        )
    }

    /// A stager that has seen no path yet.
    pub fn new(mode: StagingMode) -> (r: Stager)
        ensures
            r.wf(),
            r.mode == mode,
            r.result.attempted_paths.len() == 0,
            r.result.affected_count == 0,
            r.staged.len() == 0,
    {
        let r = Stager {
            mode,
            result: StagingResult { attempted_paths: Vec::new(), affected_count: 0 },
            staged: Vec::new(),
            statuses: Ghost(Seq::empty()),
        };
        proof {
            assert(r.attempted() =~= Seq::empty());
            assert(r.staged@.map_values(|p: String| p@) =~= Seq::empty());
        }
        r
    }

    /// Records one matched path with its status (`None` where it could not
    /// be read) and says whether it is to be staged.
    pub fn on_matched(&mut self, path: &str, status: Option<StatusFlags>) -> (stage: bool)
        requires
            old(self).wf(),
            old(self).result.attempted_paths.len() < usize::MAX,
        ensures
            final(self).wf(),
            final(self).mode == old(self).mode,
            stage == should_stage(old(self).mode, status),
            final(self).statuses@ == old(self).statuses@.push(status),
            final(self).attempted() == old(self).attempted().push(path@),
            final(self).result.affected_count == old(self).result.affected_count + if is_affected(
                status,
            ) {
                1int
            } else {
                0int
            },
    {
        let ghost prev = *self;
        let affected = match status {
            Some(f) => f.worktree.new || f.worktree.modified || f.worktree.deleted
                || f.worktree.renamed || f.worktree.type_changed,
            None => false,
        };
        let stage = match self.mode {
            StagingMode::AddAll => true,
            StagingMode::UpdateOnly => match status {
                Some(f) => f.worktree.new || f.worktree.modified,
                None => false,
            },
        };
        proof {
            lemma_count_bounded(prev.statuses@);
        }
        if affected {
            self.result.affected_count = self.result.affected_count + 1;
        }
        self.result.attempted_paths.push(path.to_owned());
        if stage {
            self.staged.push(path.to_owned());
        }
        self.statuses = Ghost(self.statuses@.push(status));
        proof {
            assert(self.statuses@.drop_last() =~= prev.statuses@);
            assert(self.attempted() =~= prev.attempted().push(path@));
            assert(self.attempted().drop_last() =~= prev.attempted());
            if stage {
                assert(self.staged@.map_values(|p: String| p@) =~= prev.staged@.map_values(
                    |p: String| p@,
                ).push(path@));
            } else {
                assert(self.staged@ =~= prev.staged@);
            }
        }
        stage
    }

    /// The account of the staging call.
    pub fn finish(self) -> (r: StagingResult)
        requires
            self.wf(),
        ensures
            r.affected_count == count_affected(self.statuses@),
            r.attempted_paths@.map_values(|p: String| p@) == self.attempted(),
    {
        self.result
    }
}

/// There are never more affected paths than matched ones.
pub proof fn lemma_count_bounded(s: Seq<Option<StatusFlags>>)
    ensures
        count_affected(s) <= s.len(),
    decreases s.len(),
{
    if s.len() > 0 {
        lemma_count_bounded(s.drop_last());
    }
}

/// The affected count of a staging call is exactly the number of matched
/// paths whose worktree status is changed, and never more than the matched
/// paths.
pub proof fn lemma_affected_count_exact(s: Stager)
    requires
        s.wf(),
    ensures
        s.result.affected_count == count_affected(s.statuses@),
        s.result.affected_count <= s.result.attempted_paths.len(),
{
    lemma_count_bounded(s.statuses@);
}

/// In update-only mode a path is staged only where its worktree status is
/// new or modified.
pub proof fn lemma_update_only_stages_new_or_modified(status: Option<StatusFlags>)
    ensures
        should_stage(StagingMode::UpdateOnly, status) ==> is_new_or_modified(status),
{
}

/// In add-all mode every matched path is staged, whatever its status.
pub proof fn lemma_add_all_stages_every_path(
    paths: Seq<Seq<char>>,
    statuses: Seq<Option<StatusFlags>>,
)
    requires
        paths.len() == statuses.len(),
    ensures
        staged_paths(StagingMode::AddAll, paths, statuses) == paths,
    decreases paths.len(),
{
    if paths.len() > 0 {
        lemma_add_all_stages_every_path(paths.drop_last(), statuses.drop_last());
        assert(paths.drop_last().push(paths.last()) =~= paths);
    }
}

/// Each path staged in update-only mode is a matched path whose worktree
/// status is new or modified.
pub proof fn lemma_update_only_staged_paths(
    paths: Seq<Seq<char>>,
    statuses: Seq<Option<StatusFlags>>,
    k: int,
)
    requires
        paths.len() == statuses.len(),
        0 <= k < staged_paths(StagingMode::UpdateOnly, paths, statuses).len(),
    ensures
        exists|j: int|
            0 <= j < paths.len() && paths[j] == staged_paths(StagingMode::UpdateOnly, paths, statuses)[k]
                && is_new_or_modified(statuses[j]),
    decreases paths.len(),
{
    let rest = staged_paths(StagingMode::UpdateOnly, paths.drop_last(), statuses.drop_last());
    if k < rest.len() {
        lemma_update_only_staged_paths(paths.drop_last(), statuses.drop_last(), k);
        let j = choose|j: int|
            0 <= j < paths.drop_last().len() && paths.drop_last()[j] == rest[k]
                && is_new_or_modified(statuses.drop_last()[j]);
        assert(paths[j] == paths.drop_last()[j]);
        assert(statuses[j] == statuses.drop_last()[j]);
    } else {
        let j = paths.len() - 1;
        assert(paths[j] == paths.last());
    }
}

} // verus!
