use vstd::prelude::*;

use crate::status::views;
use crate::text::{chars_of, push_char};

verus! {

/// The templates joined with commas.
pub open spec fn comma_joined(s: Seq<Seq<char>>) -> Seq<char>
    decreases s.len(),
{
    if s.len() == 0 {
        Seq::empty()
    } else if s.len() == 1 {
        s[0]
    } else {
        comma_joined(s.drop_last()) + seq![','] + s.last()
    }
}

/// The address of the ignore file made of the templates: the service's base
/// address followed by the comma-joined names; none without templates.
pub open spec fn ignore_url_spec(base: Seq<char>, templates: Seq<Seq<char>>) -> Option<Seq<char>> {
    if templates.len() == 0 {
        None
    } else {
        Some(base + comma_joined(templates))
    }
}

/// The address that serves the ignore file for the templates, or `None`
/// where no template is given.
pub fn ignore_url(base: &str, templates: &Vec<String>) -> (r: Option<String>)
    ensures
        r matches Some(u) ==> ignore_url_spec(base@, views(templates@)) == Some(u@),
        r is None ==> ignore_url_spec(base@, views(templates@)) is None,
{
    if templates.len() == 0 {
        return None;
    }
    let mut u = base.to_owned();
    u.append(templates[0].as_str());
    let mut i: usize = 1;
    proof {
        assert(views(templates@).subrange(0, 1) =~= seq![templates@[0]@]);
    }
    while i < templates.len()
        invariant
            1 <= i <= templates.len(),
            u@ == base@ + comma_joined(views(templates@).subrange(0, i as int)),
        decreases templates.len() - i,
    {
        proof {
            assert(views(templates@).subrange(0, i + 1).drop_last() =~= views(templates@).subrange(
                0,
                i as int,
            ));
        }
        push_char(&mut u, ',');
        u.append(templates[i].as_str());
        proof {
            assert(u@ =~= base@ + comma_joined(views(templates@).subrange(0, i + 1)));
        }
        i = i + 1;
    }
    proof {
        assert(views(templates@).subrange(0, templates.len() as int) =~= views(templates@));
    }
    Some(u)
}

/// The text with a trailing carriage return removed, if it has one.
pub open spec fn strip_cr(s: Seq<char>) -> Seq<char> {
    if s.len() > 0 && s.last() == '\r' {
        s.drop_last()
    } else {
        s
    }
}

/// The finished lines and the unfinished last piece of `s`, reading it from
/// the start: each line break ends a line, without the break and without a
/// carriage return just before it.
pub open spec fn split_state(s: Seq<char>) -> (Seq<Seq<char>>, Seq<char>)
    decreases s.len(),
{
    if s.len() == 0 {
        (Seq::empty(), Seq::empty())
    } else {
        let (done, cur) = split_state(s.drop_last());
        if s.last() == '\n' {
            (done.push(strip_cr(cur)), Seq::empty())
        } else {
            (done, cur.push(s.last()))
        }
    }
}

/// The lines of a text: split at each `\n` or `\r\n`, the last line ending
/// optional.
pub open spec fn lines_of(s: Seq<char>) -> Seq<Seq<char>> {
    let (done, cur) = split_state(s);
    if cur.len() == 0 {
        done
    } else {
        done.push(cur)
    }
}

/// Splits a text into its lines.
pub fn split_lines(text: &str) -> (r: Vec<String>)
    ensures
        views(r@) == lines_of(text@),
{
    let n = text.unicode_len();
    let mut done: Vec<String> = Vec::new();
    let mut cur = String::new();
    let mut i: usize = 0;
    while i < n
        invariant
            n == text@.len(),
            i <= n,
            (views(done@), cur@) == split_state(text@.subrange(0, i as int)),
        decreases n - i,
    {
        proof {
            assert(text@.subrange(0, i + 1).drop_last() =~= text@.subrange(0, i as int));
        }
        let c = text.get_char(i);
        if c == '\n' {
            let cl = cur.as_str().unicode_len();
            let line = if cl > 0 && cur.as_str().get_char(cl - 1) == '\r' {
                let mut l = String::new();
                let mut k: usize = 0;
                while k < cl - 1
                    invariant
                        cl == cur@.len(),
                        cl > 0,
                        k <= cl - 1,
                        l@ == cur@.subrange(0, k as int),
                    decreases cl - 1 - k,
                {
                    push_char(&mut l, cur.as_str().get_char(k));
                    proof {
                        assert(l@ =~= cur@.subrange(0, k + 1));
                    }
                    k = k + 1;
                }
                proof {
                    assert(l@ =~= cur@.drop_last());
                }
                l
            } else {
                cur.clone()
            };
            let ghost before = done@;
            done.push(line);
            proof {
                assert(done@.drop_last() =~= before);
                assert(views(done@) =~= views(before).push(line@));
            }
            cur = String::new();
        } else {
            push_char(&mut cur, c);
        }
        i = i + 1;
    }
    proof {
        assert(text@.subrange(0, n as int) =~= text@);
    }
    if cur.as_str().unicode_len() > 0 {
        let ghost before = done@;
        done.push(cur);
        proof {
            assert(done@.drop_last() =~= before);
            assert(views(done@) =~= views(before).push(cur@));
        }
    }
    done
}

/// Whether `pat` occurs in `s` at some position.
pub open spec fn contains_text(s: Seq<char>, pat: Seq<char>) -> bool {
    exists|i: int| 0 <= i <= s.len() - pat.len() && #[trigger] s.subrange(i, i + pat.len()) == pat
}

fn matches_at(s: &Vec<char>, pat: &Vec<char>, at: usize) -> (r: bool)
    requires
        at + pat.len() <= s.len(),
    ensures
        r == (s@.subrange(at as int, at + pat.len()) == pat@),
{
    let mut k: usize = 0;
    while k < pat.len()
        invariant
            at + pat.len() <= s.len(),
            k <= pat.len(),
            forall|j: int| 0 <= j < k ==> s@[at + j] == pat@[j],
        decreases pat.len() - k,
    {
        if s[at + k] != pat[k] {
            proof {
                assert(s@.subrange(at as int, at + pat.len())[k as int] != pat@[k as int]);
            }
            return false;
        }
        k = k + 1;
    }
    proof {
        assert(s@.subrange(at as int, at + pat.len()) =~= pat@);
    }
    true
}

/// Whether `pat` occurs in `s`.
pub fn contains_str(s: &str, pat: &str) -> (r: bool)
    ensures
        r == contains_text(s@, pat@),
{
    let sv = chars_of(s);
    let pv = chars_of(pat);
    if pv.len() > sv.len() {
        return false;
    }
    let last = sv.len() - pv.len();
    let mut i: usize = 0;
    loop
        invariant
            sv@ == s@,
            pv@ == pat@,
            last == sv.len() - pv.len(),
            i <= last,
            forall|j: int| 0 <= j < i ==> #[trigger] s@.subrange(j, j + pat@.len()) != pat@,
        decreases last - i,
    {
        if matches_at(&sv, &pv, i) {
            return true;
        }
        if i == last {
            return false;
        }
        i = i + 1;
    }
}

/// The lines that contain `name`, in order.
pub open spec fn lines_containing(lines: Seq<Seq<char>>, name: Seq<char>) -> Seq<Seq<char>>
    decreases lines.len(),
{
    if lines.len() == 0 {
        Seq::empty()
    } else if contains_text(lines.last(), name) {
        lines_containing(lines.drop_last(), name).push(lines.last())
    } else {
        lines_containing(lines.drop_last(), name)
    }
}

/// The template names of a listing that contain `name`; all of them where no
/// name is given.
pub fn filter_templates(lines: &Vec<String>, name: &Option<String>) -> (r: Vec<String>)
    ensures
        views(r@) == match name {
            Some(n) => lines_containing(views(lines@), n@),
            None => views(lines@),
        },
{
    let mut out: Vec<String> = Vec::new();
    let mut i: usize = 0;
    while i < lines.len()
        invariant
            i <= lines.len(),
            views(out@) == match name {
                Some(n) => lines_containing(views(lines@.subrange(0, i as int)), n@),
                None => views(lines@.subrange(0, i as int)),
            },
        decreases lines.len() - i,
    {
        proof {
            assert(views(lines@.subrange(0, i + 1)).drop_last() =~= views(lines@.subrange(0, i as int)));
            assert(views(lines@.subrange(0, i + 1)).last() == lines@[i as int]@);
        }
        let keep = match name {
            Some(n) => contains_str(lines[i].as_str(), n.as_str()),
            None => true,
        };
        if keep {
            let ghost before = out@;
            let l = lines[i].clone();
            out.push(l);
            proof {
                assert(out@.drop_last() =~= before);
                assert(views(out@) =~= views(before).push(l@));
            }
        }
        proof {
            if name is None {
                assert(views(lines@.subrange(0, i + 1)) =~= views(lines@.subrange(0, i as int)).push(lines@[i as int]@));
            }
        }
        i = i + 1;
    }
    proof {
        assert(lines@.subrange(0, lines.len() as int) =~= lines@);
    }
    out
}

} // verus!
