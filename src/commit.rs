use vstd::prelude::*;

use crate::status::{joined_lines, views};
use crate::text::push_char;
use crate::time::{format_timestamp, timestamp_text, Timestamp};

verus! {

/// A commit message in sections: the headline, the time of the update, the
/// bulleted change notes and the status lines of the changed files.
#[derive(Clone, Debug)]
pub struct CommitMessage {
    pub headline: String,
    pub timestamp: String,
    /// Whether the caller supplied change notes (then the headline is the
    /// first note and an "Updated:" line follows it).
    pub has_notes: bool,
    /// The non-empty notes after the first one.
    pub body_changes: Vec<String>,
    /// The short status lines, in the order of the status query.
    pub files_changed: Vec<String>,
}

/// The non-empty notes of `s`, in order.
pub open spec fn nonempty_notes(s: Seq<Seq<char>>) -> Seq<Seq<char>>
    decreases s.len(),
{
    if s.len() == 0 {
        Seq::empty()
    } else if s.last().len() == 0 {
        nonempty_notes(s.drop_last())
    } else {
        nonempty_notes(s.drop_last()).push(s.last())
    }
}

/// `Updated: <timestamp>`.
pub open spec fn updated_line(ts: Seq<char>) -> Seq<char> {
    "Updated: "@ + ts
}

/// The headline: the first note, or `Updated: <timestamp>` without notes.
pub open spec fn headline_of(changes: Seq<Seq<char>>, ts: Seq<char>) -> Seq<char> {
    if changes.len() == 0 {
        updated_line(ts)
    } else {
        changes[0]
    }
}

/// The bullets of the body: the non-empty notes after the first.
pub open spec fn body_of(changes: Seq<Seq<char>>) -> Seq<Seq<char>> {
    if changes.len() == 0 {
        Seq::empty()
    } else {
        nonempty_notes(changes.drop_first())
    }
}

/// Each note as `- <note>` followed by a line break.
pub open spec fn bullet_text(notes: Seq<Seq<char>>) -> Seq<char>
    decreases notes.len(),
{
    if notes.len() == 0 {
        Seq::empty()
    } else {
        bullet_text(notes.drop_last()) + "- "@ + notes.last() + seq!['\n']
    }
}

/// The full text: headline, blank line, then with notes the `Updated:` line
/// and (where a bullet exists) a `Changes:` section, then the
/// `Files Changed:` section with one status line per line.
pub open spec fn message_text(
    headline: Seq<char>,
    ts: Seq<char>,
    has_notes: bool,
    body: Seq<Seq<char>>,
    files: Seq<Seq<char>>,
) -> Seq<char> {
    let notes = if has_notes {
        updated_line(ts) + seq!['\n'] + if body.len() > 0 {
            "\nChanges:\n"@ + bullet_text(body)
        } else {
            Seq::empty()
        }
    } else {
        Seq::empty()
    };
    headline + "\n\n"@ + notes + "\nFiles Changed:\n"@ + joined_lines(files)
}

/// The commit message composed from notes, timestamp text and status lines.
pub open spec fn commit_text(changes: Seq<Seq<char>>, ts: Seq<char>, files: Seq<Seq<char>>) -> Seq<
    char,
> {
    message_text(headline_of(changes, ts), ts, changes.len() > 0, body_of(changes), files)
}

impl CommitMessage {
    pub open spec fn text_spec(self) -> Seq<char> {
        message_text(
            self.headline@,
            self.timestamp@,
            self.has_notes,
            views(self.body_changes@),
            views(self.files_changed@),
        )
    }

    /// Builds the sections from the caller's notes, the formatted time and
    /// the rendered status lines.
    pub fn compose(changes: &Vec<String>, timestamp: &str, status_lines: &Vec<String>) -> (r:
        CommitMessage)
        ensures
            r.headline@ == headline_of(views(changes@), timestamp@),
            r.timestamp@ == timestamp@,
            r.has_notes == (changes.len() > 0),
            views(r.body_changes@) == body_of(views(changes@)),
            views(r.files_changed@) == views(status_lines@),
            r.text_spec() == commit_text(views(changes@), timestamp@, views(status_lines@)),
    {
        let mut headline = String::new();
        let mut body: Vec<String> = Vec::new();
        if changes.len() == 0 {
            headline.append("Updated: ");
            headline.append(timestamp);
        } else {
            headline.append(changes[0].as_str());
            let mut i: usize = 1;
            while i < changes.len()
                invariant
                    1 <= i <= changes.len(),
                    views(body@) == nonempty_notes(
                        views(changes@).drop_first().subrange(0, i - 1),
                    ),
                decreases changes.len() - i,
            {
                proof {
                    let d = views(changes@).drop_first();
                    assert(d.subrange(0, i as int).drop_last() =~= d.subrange(0, i - 1));
                    assert(d.subrange(0, i as int).last() == changes@[i as int]@);
                }
                if changes[i].as_str().unicode_len() > 0 {
                    body.push(changes[i].clone());
                    proof {
                        assert(views(body@) =~= views(body@.drop_last()).push(body@.last()@));
                    }
                }
                i = i + 1;
            }
            proof {
                assert(views(changes@).drop_first().subrange(0, changes.len() - 1) =~= views(
                    changes@,
                ).drop_first());
            }
        }
        proof {
            reveal_strlit("Updated: ");
            assert(changes.len() > 0 ==> headline@ =~= views(changes@)[0]);
            assert(changes.len() == 0 ==> headline@ =~= updated_line(timestamp@));
        }
        let mut files: Vec<String> = Vec::new();
        let mut k: usize = 0;
        while k < status_lines.len()
            invariant
                k <= status_lines.len(),
                views(files@) == views(status_lines@.subrange(0, k as int)),
            decreases status_lines.len() - k,
        {
            let ghost prev = files@;
            let line = status_lines[k].clone();
            files.push(line);
            proof {
                assert(files@.drop_last() =~= prev);
                assert(views(files@) =~= views(prev).push(line@));
                assert(views(status_lines@.subrange(0, k + 1)) =~= views(
                    status_lines@.subrange(0, k as int),
                ).push(status_lines@[k as int]@));
            }
            k = k + 1;
        }
        proof {
            assert(status_lines@.subrange(0, status_lines.len() as int) =~= status_lines@);
        }
        CommitMessage {
            headline,
            timestamp: timestamp.to_owned(),
            has_notes: changes.len() > 0,
            body_changes: body,
            files_changed: files,
        }
    }

    /// The message as the text handed to the commit.
    pub fn text(&self) -> (r: String)
        ensures
            r@ == self.text_spec(),
    {
        let mut s = String::new();
        s.append(self.headline.as_str());
        s.append("\n\n");
        if self.has_notes {
            s.append("Updated: ");
            s.append(self.timestamp.as_str());
            push_char(&mut s, '\n');
            if self.body_changes.len() > 0 {
                s.append("\nChanges:\n");
                let ghost before = s@;
                let mut i: usize = 0;
                while i < self.body_changes.len()
                    invariant
                        i <= self.body_changes.len(),
                        s@ == before + bullet_text(views(self.body_changes@.subrange(0, i as int))),
                    decreases self.body_changes.len() - i,
                {
                    proof {
                        assert(views(self.body_changes@.subrange(0, i + 1)).drop_last() =~= views(
                            self.body_changes@.subrange(0, i as int),
                        ));
                    }
                    s.append("- ");
                    s.append(self.body_changes[i].as_str());
                    push_char(&mut s, '\n');
                    proof {
                        assert(s@ =~= before + bullet_text(
                            views(self.body_changes@.subrange(0, i + 1)),
                        ));
                    }
                    i = i + 1;
                }
                proof {
                    assert(self.body_changes@.subrange(0, self.body_changes.len() as int)
                        =~= self.body_changes@);
                }
            }
        }
        s.append("\nFiles Changed:\n");
        let ghost before = s@;
        let mut k: usize = 0;
        while k < self.files_changed.len()
            invariant
                k <= self.files_changed.len(),
                s@ == before + joined_lines(views(self.files_changed@.subrange(0, k as int))),
            decreases self.files_changed.len() - k,
        {
            proof {
                assert(views(self.files_changed@.subrange(0, k + 1)).drop_last() =~= views(
                    self.files_changed@.subrange(0, k as int),
                ));
            }
            s.append(self.files_changed[k].as_str());
            push_char(&mut s, '\n');
            proof {
                assert(s@ =~= before + joined_lines(views(self.files_changed@.subrange(0, k + 1))));
            }
            k = k + 1;
        }
        proof {
            assert(self.files_changed@.subrange(0, self.files_changed.len() as int)
                =~= self.files_changed@);
            reveal_strlit("Updated: ");
            assert(s@ =~= self.text_spec());
        }
        s
    }
}

/// Composes the commit message text from notes, the formatted time and the
/// status lines.
pub fn commit_message(changes: &Vec<String>, timestamp: &str, status_lines: &Vec<String>) -> (r:
    String)
    ensures
        r@ == commit_text(views(changes@), timestamp@, views(status_lines@)),
{
    CommitMessage::compose(changes, timestamp, status_lines).text()
}

/// Composes the commit message text, with the time written
/// `YYYY-MM-DD HH:MM:SS`.
pub fn commit_message_at(changes: &Vec<String>, now: &Timestamp, status_lines: &Vec<String>) -> (r:
    String)
    requires
        now.wf(),
    ensures
        r@ == commit_text(views(changes@), timestamp_text(*now), views(status_lines@)),
{
    let ts = format_timestamp(now);
    commit_message(changes, ts.as_str(), status_lines)
}

/// Composing twice from the same notes, time and status lines gives the same
/// text.
pub proof fn lemma_compose_deterministic(
    c1: Seq<Seq<char>>,
    c2: Seq<Seq<char>>,
    t1: Seq<char>,
    t2: Seq<char>,
    f1: Seq<Seq<char>>,
    f2: Seq<Seq<char>>,
)
    requires
        c1 == c2,
        t1 == t2,
        f1 == f2,
    ensures
        commit_text(c1, t1, f1) == commit_text(c2, t2, f2),
{
}

/// Without notes the headline is `Updated: <timestamp>` and there is no body.
pub proof fn lemma_no_notes_headline(ts: Seq<char>, files: Seq<Seq<char>>)
    ensures
        headline_of(Seq::empty(), ts) == "Updated: "@ + ts,
        body_of(Seq::empty()).len() == 0,
        commit_text(Seq::empty(), ts, files) == "Updated: "@ + ts + "\n\n"@ + "\nFiles Changed:\n"@
            + joined_lines(files),
{
    assert(commit_text(Seq::empty(), ts, files) =~= "Updated: "@ + ts + "\n\n"@
        + "\nFiles Changed:\n"@ + joined_lines(files));
}

} // verus!
