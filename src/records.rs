use vstd::prelude::*;

verus! {

/// One stored setting: its row id, its name and its value, if set.
#[derive(Clone, Debug)]
pub struct Item {
    pub id: i32,
    pub var: String,
    pub val: Option<String>,
}

/// A repository found in the clone directory.
#[derive(Clone, Debug)]
pub struct GitRepo {
    pub name: String,
    pub path: String,
    pub owned: bool,
}

/// License kinds a new repository can carry.
#[derive(Clone, Copy, Debug, PartialEq, Eq, Structural)]
pub enum LicenseType {
    MIT,
    Apache,
    GPL,
    LGPL,
    BSD,
    MPL,
    AGPL,
    EPL,
    ISC,
    WTFPL,
    Unlicense,
    Custom,
}

/// The shells that completions can be generated for.
#[derive(Clone, Copy, Debug, PartialEq, Eq, Structural)]
pub enum Shells {
    Nushell,
    Bash,
    Elvish,
    Fish,
    PowerShell,
    Zsh,
}

/// The completion subcommands.
#[derive(Clone, Debug)]
pub enum CompletionCommands {
    /// Generate completions for a shell, to a file or to standard output.
    Generate { shell: Shells, out_path: Option<String> },
}

/// The largest id of the task rows, or 0 where there is none.
pub open spec fn max_id(ids: Seq<i32>) -> i32
    decreases ids.len(),
{
    if ids.len() == 0 {
        0
    } else if ids.len() == 1 || ids.last() > max_id(ids.drop_last()) {
        ids.last()
    } else {
        max_id(ids.drop_last())
    }
}

/// The largest id among the task rows, or 0 for an empty table.
pub fn get_task_max_id(ids: &Vec<i32>) -> (r: i32)
    ensures
        r == max_id(ids@),
        ids.len() == 0 ==> r == 0,
        ids.len() > 0 ==> ids@.contains(r) && forall|j: int| 0 <= j < ids.len() ==> ids@[j] <= r,
{
    let mut best: i32 = 0;
    let mut i: usize = 0;
    while i < ids.len()
        invariant
            i <= ids.len(),
            best == max_id(ids@.subrange(0, i as int)),
            i > 0 ==> ids@.subrange(0, i as int).contains(best),
            forall|j: int| 0 <= j < i ==> ids@[j] <= best,
        decreases ids.len() - i,
    {
        proof {
            assert(ids@.subrange(0, i + 1).drop_last() =~= ids@.subrange(0, i as int));
        }
        if i == 0 || ids[i] > best {
            best = ids[i];
            proof {
                assert(ids@.subrange(0, i + 1)[i as int] == best);
            }
        } else {
            proof {
                let k = choose|k: int| 0 <= k < i && ids@.subrange(0, i as int)[k] == best;
                assert(ids@.subrange(0, i + 1)[k] == best);
            }
        }
        i = i + 1;
    }
    proof {
        assert(ids@.subrange(0, ids.len() as int) =~= ids@);
    }
    best
}

/// Whether a task with the id is among the task rows.
pub fn contains_task_id(ids: &Vec<i32>, task_id: i32) -> (r: bool)
    ensures
        r == ids@.contains(task_id),
{
    let mut i: usize = 0;
    while i < ids.len()
        invariant
            i <= ids.len(),
            forall|j: int| 0 <= j < i ==> ids@[j] != task_id,
        decreases ids.len() - i,
    {
        if ids[i] == task_id {
            return true;
        }
        i = i + 1;
    }
    false
}

} // verus!
