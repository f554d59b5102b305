use vstd::prelude::*;

use crate::text::{chars_of, push_char};

verus! {

/// Every backslash turned into a forward slash.
pub open spec fn sanitized(p: Seq<char>) -> Seq<char> {
    p.map_values(|c: char| if c == '\\' { '/' } else { c })
}

/// Whether the path's first component is `~`.
pub open spec fn starts_with_home(p: Seq<char>) -> bool {
    p.len() >= 1 && p[0] == '~' && (p.len() == 1 || p[1] == '/')
}

/// The finished pieces and the current piece of `s` split at `/`.
pub open spec fn slash_state(s: Seq<char>) -> (Seq<Seq<char>>, Seq<char>)
    decreases s.len(),
{
    if s.len() == 0 {
        (Seq::empty(), Seq::empty())
    } else {
        let (done, cur) = slash_state(s.drop_last());
        if s.last() == '/' {
            (done.push(cur), Seq::empty())
        } else {
            (done, cur.push(s.last()))
        }
    }
}

/// The pieces of `s` between slashes, empty ones included.
pub open spec fn slash_pieces(s: Seq<char>) -> Seq<Seq<char>> {
    slash_state(s).0.push(slash_state(s).1)
}

/// A piece that names a path component: neither empty nor `.`.
pub open spec fn is_component(p: Seq<char>) -> bool {
    p.len() > 0 && p != seq!['.']
}

/// The pieces that name path components, in order.
pub open spec fn components(pieces: Seq<Seq<char>>) -> Seq<Seq<char>>
    decreases pieces.len(),
{
    if pieces.len() == 0 {
        Seq::empty()
    } else if is_component(pieces.last()) {
        components(pieces.drop_last()).push(pieces.last())
    } else {
        components(pieces.drop_last())
    }
}

/// Components joined with single slashes.
pub open spec fn slash_joined(c: Seq<Seq<char>>) -> Seq<char>
    decreases c.len(),
{
    if c.len() == 0 {
        Seq::empty()
    } else if c.len() == 1 {
        c[0]
    } else {
        slash_joined(c.drop_last()) + seq!['/'] + c.last()
    }
}

/// `b` appended to the path `a` with one separating slash, as a path push
/// does: no slash is added to an empty path or after a trailing slash.
pub open spec fn join_path(a: Seq<char>, b: Seq<char>) -> Seq<char> {
    if a.len() == 0 || a.last() == '/' {
        a + b
    } else {
        a + seq!['/'] + b
    }
}

/// The path with its leading `~` component replaced by the home directory:
/// the home, then the components after `~` (empty and `.` ones dropped)
/// joined by slashes. Empty for a path that does not start with `~`.
pub open spec fn home_expanded(p: Seq<char>, home: Seq<char>) -> Seq<char> {
    if starts_with_home(p) {
        join_path(home, slash_joined(components(slash_pieces(p.drop_first()))))
    } else {
        Seq::empty()
    }
}

pub open spec fn piece_views(v: Seq<Vec<char>>) -> Seq<Seq<char>> {
    v.map_values(|p: Vec<char>| p@)
}

/// The pieces between slashes of the characters from `start` on.
pub fn split_slashes(cs: &Vec<char>, start: usize) -> (r: Vec<Vec<char>>)
    requires
        start <= cs.len(),
    ensures
        piece_views(r@) == slash_pieces(cs@.subrange(start as int, cs.len() as int)),
{
    let ghost s = cs@.subrange(start as int, cs.len() as int);
    let mut done: Vec<Vec<char>> = Vec::new();
    let mut cur: Vec<char> = Vec::new();
    let mut i: usize = start;
    while i < cs.len()
        invariant
            start <= i <= cs.len(),
            s == cs@.subrange(start as int, cs.len() as int),
            (piece_views(done@), cur@) == slash_state(cs@.subrange(start as int, i as int)),
        decreases cs.len() - i,
    {
        proof {
            assert(cs@.subrange(start as int, i + 1).drop_last() =~= cs@.subrange(
                start as int,
                i as int,
            ));
        }
        if cs[i] == '/' {
            let ghost before = done@;
            done.push(cur);
            proof {
                assert(done@.drop_last() =~= before);
                assert(piece_views(done@) =~= piece_views(before).push(cur@));
            }
            cur = Vec::new();
            proof {
                assert(cur@ =~= Seq::<char>::empty());
            }
        } else {
            cur.push(cs[i]);
        }
        i = i + 1;
    }
    let ghost before = done@;
    done.push(cur);
    proof {
        assert(done@.drop_last() =~= before);
        assert(piece_views(done@) =~= piece_views(before).push(cur@));
    }
    done
}

/// Appends a path piece with one separating slash.
pub fn join_paths(a: &str, b: &str) -> (r: String)
    ensures
        r@ == join_path(a@, b@),
{
    let n = a.unicode_len();
    let mut out = a.to_owned();
    if n > 0 && a.get_char(n - 1) != '/' {
        push_char(&mut out, '/');
    }
    out.append(b);
    out
}

fn append_chars(out: &mut String, v: &Vec<char>)
    ensures
        final(out)@ == old(out)@ + v@,
{
    let ghost start = out@;
    let mut i: usize = 0;
    while i < v.len()
        invariant
            i <= v.len(),
            out@ == start + v@.subrange(0, i as int),
        decreases v.len() - i,
    {
        push_char(out, v[i]);
        proof {
            assert(out@ =~= start + v@.subrange(0, i + 1));
        }
        i = i + 1;
    }
    proof {
        assert(v@.subrange(0, v.len() as int) =~= v@);
    }
}

/// The components of the pieces joined with single slashes.
fn join_components(pieces: &Vec<Vec<char>>) -> (r: String)
    ensures
        r@ == slash_joined(components(piece_views(pieces@))),
{
    let mut out = String::new();
    let mut any = false;
    let mut i: usize = 0;
    while i < pieces.len()
        invariant
            i <= pieces.len(),
            out@ == slash_joined(components(piece_views(pieces@.subrange(0, i as int)))),
            any == (components(piece_views(pieces@.subrange(0, i as int))).len() > 0),
        decreases pieces.len() - i,
    {
        let ghost prev = components(piece_views(pieces@.subrange(0, i as int)));
        proof {
            assert(piece_views(pieces@.subrange(0, i + 1)).drop_last() =~= piece_views(
                pieces@.subrange(0, i as int),
            ));
            assert(piece_views(pieces@.subrange(0, i + 1)).last() == pieces@[i as int]@);
        }
        let p = &pieces[i];
        let keep = p.len() > 0 && !(p.len() == 1 && p[0] == '.');
        proof {
            if p.len() == 1 && p@ == seq!['.'] {
                assert(p@[0] == '.');
            }
            if p.len() == 1 && p[0] == '.' {
                assert(p@ =~= seq!['.']);
            }
        }
        if keep {
            if any {
                push_char(&mut out, '/');
            }
            append_chars(&mut out, p);
            proof {
                let next = prev.push(p@);
                assert(next.drop_last() =~= prev);
                if prev.len() == 0 {
                    assert(out@ =~= next[0]);
                } else {
                    assert(out@ =~= slash_joined(next));
                }
            }
            any = true;
        }
        i = i + 1;
    }
    proof {
        assert(pieces@.subrange(0, pieces.len() as int) =~= pieces@);
    }
    out
}

/// Replaces backslashes with forward slashes in a path.
pub fn sanitize_path(path: &str) -> (r: String)
    ensures
        r@ == sanitized(path@),
{
    let n = path.unicode_len();
    let mut out = String::new();
    let mut i: usize = 0;
    while i < n
        invariant
            n == path@.len(),
            i <= n,
            out@ == sanitized(path@.subrange(0, i as int)),
        decreases n - i,
    {
        let c = path.get_char(i);
        push_char(&mut out, if c == '\\' { '/' } else { c });
        proof {
            assert(sanitized(path@.subrange(0, i + 1)) =~= sanitized(path@.subrange(0, i as int)).push(
                if c == '\\' { '/' } else { c },
            ));
        }
        i = i + 1;
    }
    proof {
        assert(path@.subrange(0, n as int) =~= path@);
    }
    out
}

/// Replaces backslashes with forward slashes in an owned path.
pub fn sanitize_pathbuf(path: String) -> (r: String)
    ensures
        r@ == sanitized(path@),
{
    sanitize_path(path.as_str())
}

/// Replaces the leading `~` component of a path with the home directory.
/// A path that does not start with `~` gives an empty path.
pub fn expand_home(path: &str, home: &str) -> (r: String)
    ensures
        r@ == home_expanded(path@, home@),
{
    let cs = chars_of(path);
    let n = cs.len();
    if n == 0 || cs[0] != '~' || (n > 1 && cs[1] != '/') {
        return String::new();
    }
    let pieces = split_slashes(&cs, 1);
    proof {
        assert(cs@.subrange(1, n as int) =~= path@.drop_first());
    }
    let rest = join_components(&pieces);
    join_paths(home, rest.as_str())
}

/// Replaces the leading `~` with the home directory, then backslashes with
/// forward slashes.
pub fn expand_sanitized_home(path: &str, home: &str) -> (r: String)
    ensures
        r@ == sanitized(home_expanded(path@, home@)),
{
    let e = expand_home(path, home);
    sanitize_path(e.as_str())
}

} // verus!
