use vstd::prelude::*;

use crate::records::contains_task_id;
use crate::text::{chars_of, str_eq};

verus! {

/// The state of a task.
#[derive(Clone, Copy, Debug, PartialEq, Eq, Structural)]
pub enum TaskStatus {
    InProgress,
    Complete,
    Incomplete,
}

impl TaskStatus {
    /// The stored code: 0 in progress, 1 complete, 2 incomplete.
    pub open spec fn code_spec(self) -> i32 {
        match self {
            TaskStatus::InProgress => 0,
            TaskStatus::Complete => 1,
            TaskStatus::Incomplete => 2,
        }
    }

    pub open spec fn of_code(code: i32) -> TaskStatus {
        if code == 0 {
            TaskStatus::InProgress
        } else if code == 1 {
            TaskStatus::Complete
        } else {
            TaskStatus::Incomplete
        }
    }

    pub fn code(&self) -> (r: i32)
        ensures
            r == self.code_spec(),
    {
        match self {
            TaskStatus::InProgress => 0,
            TaskStatus::Complete => 1,
            TaskStatus::Incomplete => 2,
        }
    }

    pub open spec fn name_spec(self) -> Seq<char> {
        match self {
            TaskStatus::InProgress => "In Progress"@,
            TaskStatus::Complete => "Complete"@,
            TaskStatus::Incomplete => "Incomplete"@,
        }
    }

    /// The status as shown to the user.
    pub fn name(&self) -> (r: &'static str)
        ensures
            r@ == self.name_spec(),
    {
        match self {
            TaskStatus::InProgress => "In Progress",
            TaskStatus::Complete => "Complete",
            TaskStatus::Incomplete => "Incomplete",
        }
    }
}

impl From<i32> for TaskStatus {
    /// The status of a stored code; an unknown code reads as incomplete.
    fn from(code: i32) -> (r: TaskStatus) {
        if code == 0 {
            TaskStatus::InProgress
        } else if code == 1 {
            TaskStatus::Complete
        } else {
            TaskStatus::Incomplete
        }
    }
}

impl vstd::std_specs::convert::FromSpecImpl<i32> for TaskStatus {
    open spec fn obeys_from_spec() -> bool {
        true
    }

    open spec fn from_spec(code: i32) -> TaskStatus {
        TaskStatus::of_code(code)
    }
}

pub open spec fn status_symbol(s: TaskStatus) -> Seq<char> {
    match s {
        TaskStatus::InProgress => "⏳"@,
        TaskStatus::Complete => "✅"@,
        TaskStatus::Incomplete => "❎"@,
    }
}

/// The symbol shown for a status in task listings.
pub fn task_status_utf8(status: &TaskStatus) -> (r: &'static str)
    ensures
        r@ == status_symbol(*status),
{
    match status {
        TaskStatus::InProgress => "⏳",
        TaskStatus::Complete => "✅",
        TaskStatus::Incomplete => "❎",
    }
}

/// A task name or description must take 3 to 80 bytes.
pub fn task_string_validator(val: &str) -> (r: Result<String, String>)
    ensures
        r matches Ok(s) ==> s@ == val@,
        r is Ok <==> 3 <= val.len() <= 80,
{
    if val.len() > 80 || val.len() < 3 {
        Err("Task name must be at least 3 characters and less than 80.".to_owned())
    } else {
        Ok(val.to_owned())
    }
}

pub open spec fn is_digit(c: char) -> bool {
    '0' <= c <= '9'
}

pub open spec fn all_digits(s: Seq<char>) -> bool {
    forall|i: int| 0 <= i < s.len() ==> is_digit(#[trigger] s[i])
}

/// The number that a run of decimal digits stands for.
pub open spec fn digits_value(s: Seq<char>) -> int
    decreases s.len(),
{
    if s.len() == 0 {
        0
    } else {
        digits_value(s.drop_last()) * 10 + (s.last() as int - '0' as int)
    }
}

/// A decimal integer as `str::parse` reads it: an optional sign, then one
/// or more digits.
pub open spec fn integer_value(s: Seq<char>) -> Option<int> {
    if s.len() > 0 && (s[0] == '-' || s[0] == '+') {
        let d = s.drop_first();
        if d.len() > 0 && all_digits(d) {
            Some(
                if s[0] == '-' {
                    -digits_value(d)
                } else {
                    digits_value(d)
                },
            )
        } else {
            None
        }
    } else if s.len() > 0 && all_digits(s) {
        Some(digits_value(s))
    } else {
        None
    }
}

/// The `i32` a text stands for, where it is one and in range.
pub open spec fn i32_value(s: Seq<char>) -> Option<i32> {
    match integer_value(s) {
        Some(v) => if i32::MIN <= v <= i32::MAX {
            Some(v as i32)
        } else {
            None
        },
        None => None,
    }
}

const CAP: i64 = 2147483649;

proof fn lemma_digits_nonneg(s: Seq<char>)
    requires
        all_digits(s),
    ensures
        digits_value(s) >= 0,
    decreases s.len(),
{
    if s.len() > 0 {
        assert(is_digit(s[s.len() - 1]));
        assert(all_digits(s.drop_last())) by {
            assert forall|i: int| 0 <= i < s.drop_last().len() implies is_digit(
                #[trigger] s.drop_last()[i],
            ) by {
                assert(s.drop_last()[i] == s[i]);
            }
        }
        lemma_digits_nonneg(s.drop_last());
    }
}

/// Parses a decimal `i32` the way `str::parse::<i32>` does.
pub fn parse_i32(text: &str) -> (r: Option<i32>)
    ensures
        r == i32_value(text@),
{
    let cs = chars_of(text);
    let n = cs.len();
    if n == 0 {
        return None;
    }
    let negative = cs[0] == '-';
    let start: usize = if cs[0] == '-' || cs[0] == '+' {
        1
    } else {
        0
    };
    if start == n {
        return None;
    }
    let ghost d = text@.subrange(start as int, n as int);
    let mut acc: i64 = 0;
    let mut i: usize = start;
    while i < n
        invariant
            cs@ == text@,
            n == cs.len(),
            start <= i <= n,
            n > 0,
            start == 1 <==> (text@[0] == '-' || text@[0] == '+'),
            start == 0 || start == 1,
            negative == (text@[0] == '-'),
            d == text@.subrange(start as int, n as int),
            all_digits(text@.subrange(start as int, i as int)),
            acc == if digits_value(text@.subrange(start as int, i as int)) < CAP {
                digits_value(text@.subrange(start as int, i as int))
            } else {
                CAP as int
            },
        decreases n - i,
    {
        let c = cs[i];
        let ghost pre = text@.subrange(start as int, i as int);
        let ghost next = text@.subrange(start as int, i + 1);
        proof {
            assert(next.drop_last() =~= pre);
            assert(next.last() == c);
        }
        if c < '0' || c > '9' {
            proof {
                assert(!is_digit(c));
                assert(text@[i as int] == c);
                if start == 1 {
                    assert(d[i - 1] == c);
                    assert(!all_digits(d));
                    assert(text@.drop_first() =~= d);
                } else {
                    assert(text@[0] != '-' && text@[0] != '+');
                    assert(!all_digits(text@));
                }
            }
            return None;
        }
        let v = (c as u32 - '0' as u32) as i64;
        proof {
            lemma_digits_nonneg(pre);
            let full = digits_value(pre);
            assert(digits_value(next) == full * 10 + v);
            if full >= CAP {
                assert(full * 10 + v >= CAP) by (nonlinear_arith)
                    requires
                        full >= CAP,
                        v >= 0,
                ;
            }
            assert(all_digits(next)) by {
                assert forall|j: int| 0 <= j < next.len() implies is_digit(#[trigger] next[j]) by {
                    if j < pre.len() {
                        assert(next[j] == pre[j]);
                    }
                }
            }
        }
        let grown = acc * 10 + v;
        acc = if grown < CAP {
            grown
        } else {
            CAP
        };
        i = i + 1;
    }
    proof {
        if start == 1 {
            assert(text@.subrange(1, n as int) =~= text@.drop_first());
        } else {
            assert(text@.subrange(0, n as int) =~= text@);
        }
        lemma_digits_nonneg(d);
    }
    if negative {
        if acc > 2147483648 {
            None
        } else {
            Some((-acc) as i32)
        }
    } else {
        if acc > 2147483647 {
            None
        } else {
            Some(acc as i32)
        }
    }
}

/// The outcome of checking a renewal duration in days.
pub open spec fn duration_check(v: Option<i32>) -> Result<i32, Seq<char>> {
    match v {
        Some(d) => if d < 0 {
            Err("Duration must be a positive integer"@)
        } else if d > 365 {
            Err("Duration must be less than 365 days"@)
        } else {
            Ok(d)
        },
        None => Err("Duration must be an integer"@),
    }
}

/// A renewal duration must be a whole number of days from 0 to 365.
pub fn task_duration_validator(val: &str) -> (r: Result<i32, String>)
    ensures
        r matches Ok(d) ==> duration_check(i32_value(val@)) == Ok::<i32, Seq<char>>(d),
        r matches Err(e) ==> duration_check(i32_value(val@)) == Err::<i32, Seq<char>>(e@),
{
    match parse_i32(val) {
        Some(d) => if d < 0 {
            Err("Duration must be a positive integer".to_owned())
        } else if d > 365 {
            Err("Duration must be less than 365 days".to_owned())
        } else {
            Ok(d)
        },
        None => Err("Duration must be an integer".to_owned()),
    }
}

/// A parent task id must be a non-negative integer naming an existing task.
pub fn parent_validator(val: &str, task_ids: &Vec<i32>) -> (r: Result<i32, String>)
    ensures
        r matches Ok(id) ==> i32_value(val@) == Some(id) && id >= 0 && task_ids@.contains(id),
        r is Err ==> !(i32_value(val@) matches Some(id) && id >= 0 && task_ids@.contains(id)),
{
    match parse_i32(val) {
        Some(id) => if id < 0 || !contains_task_id(task_ids, id) {
            Err("Parent ID must be a positive integer and must be valid".to_owned())
        } else {
            Ok(id)
        },
        None => Err("Parent ID must be a positive integer and must be valid".to_owned()),
    }
}

/// The text without leading and trailing whitespace.
pub uninterp spec fn trimmed(s: Seq<char>) -> Seq<char>;

/// The text in lower case.
pub uninterp spec fn lowercased(s: Seq<char>) -> Seq<char>;

/// Relies on std's `str::trim`: leading and trailing whitespace removed; the
/// result depends on the characters alone.
#[verifier::external_body]
fn trim_text(s: &str) -> (r: String)
    ensures
        r@ == trimmed(s@),
{
    s.trim().to_owned()
}

/// Relies on std's `str::to_lowercase`: every character mapped to its lower
/// case; the result depends on the characters alone.
#[verifier::external_body]
fn lowercase_text(s: &str) -> (r: String)
    ensures
        r@ == lowercased(s@),
{
    s.to_lowercase()
}

/// The answer that a trimmed, lower-cased reply gives: `y` yes, `n` no.
pub open spec fn answer_of(folded: Seq<char>) -> Option<bool> {
    if folded == "y"@ {
        Some(true)
    } else if folded == "n"@ {
        Some(false)
    } else {
        None
    }
}

/// Reads a trimmed, lower-cased yes/no reply.
pub fn yes_no_answer(folded: &str) -> (r: Option<bool>)
    ensures
        r == answer_of(folded@),
{
    if str_eq(folded, "y") {
        Some(true)
    } else if str_eq(folded, "n") {
        Some(false)
    } else {
        None
    }
}

/// Reads a yes/no reply, ignoring surrounding whitespace and case.
pub fn parse_yes_no(val: &str) -> (r: Option<bool>)
    ensures
        r == answer_of(lowercased(trimmed(val@))),
{
    let t = trim_text(val);
    let l = lowercase_text(t.as_str());
    yes_no_answer(l.as_str())
}

} // verus!
