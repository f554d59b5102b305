use vstd::prelude::*;

use crate::paths::{
    expand_sanitized_home, home_expanded, join_path, join_paths, piece_views, sanitized,
    slash_pieces, split_slashes, starts_with_home,
};
use crate::text::{chars_of, push_char};

verus! {

/// `s` with every `.git`, scanned from the start, removed.
pub open spec fn without_git_suffix(s: Seq<char>) -> Seq<char>
    decreases s.len(),
{
    if s.len() == 0 {
        s
    } else if s.len() >= 4 && s.subrange(0, 4) == ".git"@ {
        without_git_suffix(s.subrange(4, s.len() as int))
    } else {
        seq![s[0]] + without_git_suffix(s.subrange(1, s.len() as int))
    }
}

/// Where a clone of `url` goes: `<dir>/<repo>` where a directory is given,
/// else `<git_dir>/<owner>/<repo>` with a leading `~` expanded; the repo is
/// the last piece of the address without `.git` and the owner the one
/// before it. None for an address without an owner piece.
pub open spec fn clone_target_spec(
    url: Seq<char>,
    dir: Option<Seq<char>>,
    git_dir: Seq<char>,
    home: Seq<char>,
) -> Option<Seq<char>> {
    let parts = slash_pieces(url);
    if parts.len() < 2 {
        None
    } else {
        let repo = without_git_suffix(parts.last());
        let owner = parts[parts.len() - 2];
        match dir {
            Some(d) => Some(join_path(d, repo)),
            None => {
                let p = join_path(join_path(git_dir, owner), repo);
                if starts_with_home(p) {
                    Some(sanitized(home_expanded(p, home)))
                } else {
                    Some(p)
                }
            },
        }
    }
}

fn is_git_at(s: &Vec<char>, i: usize) -> (r: bool)
    requires
        i <= s.len(),
    ensures
        r == (s.len() - i >= 4 && s@.subrange(i as int, i + 4) == ".git"@),
{
    proof {
        reveal_strlit(".git");
    }
    if s.len() - i < 4 {
        return false;
    }
    let r = s[i] == '.' && s[i + 1] == 'g' && s[i + 2] == 'i' && s[i + 3] == 't';
    proof {
        if r {
            assert(s@.subrange(i as int, i + 4) =~= ".git"@);
        } else {
            if s@.subrange(i as int, i + 4) == ".git"@ {
                assert(s@.subrange(i as int, i + 4)[0] == '.');
                assert(s@.subrange(i as int, i + 4)[1] == 'g');
                assert(s@.subrange(i as int, i + 4)[2] == 'i');
                assert(s@.subrange(i as int, i + 4)[3] == 't');
            }
        }
    }
    r
}

/// The text with every `.git` removed.
pub fn remove_git(s: &Vec<char>) -> (r: String)
    ensures
        r@ == without_git_suffix(s@),
{
    let n = s.len();
    let mut out = String::new();
    let mut i: usize = 0;
    proof {
        assert(s@.subrange(0, n as int) =~= s@);
        assert(out@ + without_git_suffix(s@) =~= without_git_suffix(s@));
    }
    while i < n
        invariant
            n == s.len(),
            i <= n,
            without_git_suffix(s@) == out@ + without_git_suffix(s@.subrange(i as int, n as int)),
        decreases n - i,
    {
        let ghost t = s@.subrange(i as int, n as int);
        if is_git_at(s, i) {
            proof {
                assert(t.subrange(0, 4) =~= s@.subrange(i as int, i + 4));
                assert(t.subrange(4, t.len() as int) =~= s@.subrange(i + 4, n as int));
            }
            i = i + 4;
        } else {
            let ghost before = out@;
            push_char(&mut out, s[i]);
            proof {
                if t.len() >= 4 {
                    assert(t.subrange(0, 4) =~= s@.subrange(i as int, i + 4));
                }
                assert(t.subrange(1, t.len() as int) =~= s@.subrange(i + 1, n as int));
                assert(out@ + without_git_suffix(s@.subrange(i + 1, n as int)) =~= before + (seq![
                    s@[i as int],
                ] + without_git_suffix(t.subrange(1, t.len() as int))));
            }
            i = i + 1;
        }
    }
    proof {
        assert(out@ + without_git_suffix(s@.subrange(n as int, n as int)) =~= out@);
    }
    out
}

fn string_of(v: &Vec<char>) -> (r: String)
    ensures
        r@ == v@,
{
    let mut s = String::new();
    let mut i: usize = 0;
    while i < v.len()
        invariant
            i <= v.len(),
            s@ == v@.subrange(0, i as int),
        decreases v.len() - i,
    {
        push_char(&mut s, v[i]);
        proof {
            assert(s@ =~= v@.subrange(0, i + 1));
        }
        i = i + 1;
    }
    proof {
        assert(v@.subrange(0, v.len() as int) =~= v@);
    }
    s
}

fn starts_with_home_exec(p: &str) -> (r: bool)
    ensures
        r == starts_with_home(p@),
{
    let n = p.unicode_len();
    n >= 1 && p.get_char(0) == '~' && (n == 1 || p.get_char(1) == '/')
}

/// The directory a clone of `url` is written to.
pub fn clone_target(url: &str, dir: &Option<String>, git_dir: &str, home: &str) -> (r: Option<
    String,
>)
    ensures
        r matches Some(p) ==> clone_target_spec(
            url@,
            match dir {
                Some(d) => Some(d@),
                None => None,
            },
            git_dir@,
            home@,
        ) == Some(p@),
        r is None ==> clone_target_spec(
            url@,
            match dir {
                Some(d) => Some(d@),
                None => None,
            },
            git_dir@,
            home@,
        ) is None,
{
    let cs = chars_of(url);
    let parts = split_slashes(&cs, 0);
    proof {
        assert(cs@.subrange(0, cs.len() as int) =~= url@);
    }
    let ghost segs = piece_views(parts@);
    if parts.len() < 2 {
        return None;
    }
    let repo = remove_git(&parts[parts.len() - 1]);
    let owner = string_of(&parts[parts.len() - 2]);
    proof {
        assert(segs.last() == parts@[parts.len() - 1]@);
        assert(segs[parts.len() - 2] == parts@[parts.len() - 2]@);
    }
    match dir {
        Some(d) => Some(join_paths(d.as_str(), repo.as_str())),
        None => {
            let under_owner = join_paths(git_dir, owner.as_str());
            let p = join_paths(under_owner.as_str(), repo.as_str());
            if starts_with_home_exec(p.as_str()) {
                Some(expand_sanitized_home(p.as_str(), home))
            } else {
                Some(p)
            }
        },
    }
}

} // verus!
