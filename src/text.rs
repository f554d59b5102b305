use vstd::prelude::*;

verus! {

/// Relies on std's `String::push`: the character is appended at the end.
#[verifier::external_body]
pub(crate) fn push_char(s: &mut String, c: char)
    ensures
        final(s)@ == old(s)@.push(c),
{
    s.push(c);
}

/// The decimal digit character for `d < 10`.
pub open spec fn digit_char(d: nat) -> char {
    if d == 0 {
        '0'
    } else if d == 1 {
        '1'
    } else if d == 2 {
        '2'
    } else if d == 3 {
        '3'
    } else if d == 4 {
        '4'
    } else if d == 5 {
        '5'
    } else if d == 6 {
        '6'
    } else if d == 7 {
        '7'
    } else if d == 8 {
        '8'
    } else {
        '9'
    }
}

/// The decimal representation of `n`, without leading zeros.
pub open spec fn decimal(n: nat) -> Seq<char>
    decreases n,
{
    if n < 10 {
        seq![digit_char(n)]
    } else {
        decimal(n / 10).push(digit_char(n % 10))
    }
}

/// `s` right-aligned in a field of `width` characters, padded with spaces.
pub open spec fn pad_left(s: Seq<char>, width: nat) -> Seq<char> {
    if s.len() >= width {
        s
    } else {
        Seq::new((width - s.len()) as nat, |i: int| ' ') + s
    }
}

fn digit(d: u128) -> (c: char)
    requires
        d < 10,
    ensures
        c == digit_char(d as nat),
{
    if d == 0 {
        '0'
    } else if d == 1 {
        '1'
    } else if d == 2 {
        '2'
    } else if d == 3 {
        '3'
    } else if d == 4 {
        '4'
    } else if d == 5 {
        '5'
    } else if d == 6 {
        '6'
    } else if d == 7 {
        '7'
    } else if d == 8 {
        '8'
    } else {
        '9'
    }
}

/// The decimal representation of `n`.
pub fn decimal_string(n: u128) -> (r: String)
    ensures
        r@ == decimal(n as nat),
{
    let mut digits: Vec<char> = Vec::new();
    let mut m: u128 = n;
    // digits are collected from the least significant one
    while m >= 10
        invariant
            decimal(n as nat) == decimal(m as nat) + digits@.reverse(),
        decreases m,
    {
        let d = digit(m % 10);
        proof {
            assert(decimal(m as nat) == decimal((m / 10) as nat).push(digit_char((m % 10) as nat)));
            assert(digits@.push(d).reverse() =~= seq![d] + digits@.reverse());
            assert(decimal(m as nat) + digits@.reverse() =~= decimal((m / 10) as nat) + (seq![d] + digits@.reverse()));
        }
        digits.push(d);
        m = m / 10;
    }
    let mut r = String::new();
    push_char(&mut r, digit(m));
    let mut i: usize = digits.len();
    while i > 0
        invariant
            i <= digits.len(),
            decimal(n as nat) == decimal(m as nat) + digits@.reverse(),
            m < 10,
            r@ == decimal(m as nat) + digits@.subrange(i as int, digits.len() as int).reverse(),
        decreases i,
    {
        i = i - 1;
        proof {
            assert(digits@.subrange(i as int, digits.len() as int) =~= seq![digits@[i as int]] + digits@.subrange(i + 1, digits.len() as int));
            assert(digits@.subrange(i as int, digits.len() as int).reverse() =~= digits@.subrange(i + 1, digits.len() as int).reverse().push(digits@[i as int]));
        }
        push_char(&mut r, digits[i]);
    }
    proof {
        assert(digits@.subrange(0, digits.len() as int) =~= digits@);
    }
    r
}

/// Appends `s` right-aligned in a field of `width` characters.
pub fn push_padded_left(out: &mut String, s: &str, width: usize)
    ensures
        final(out)@ == old(out)@ + pad_left(s@, width as nat),
{
    let len = s.unicode_len();
    let mut k: usize = len;
    let ghost start = out@;
    while k < width
        invariant
            len == s@.len(),
            len <= k <= width || (k == len && len >= width),
            out@ == start + Seq::new((k - len) as nat, |i: int| ' '),
        decreases width - k,
    {
        push_char(out, ' ');
        proof {
            assert(Seq::new((k - len) as nat, |i: int| ' ').push(' ') =~= Seq::new((k + 1 - len) as nat, |i: int| ' '));
        }
        k = k + 1;
    }
    out.append(s);
    proof {
        if len >= width {
            assert(Seq::new(0, |i: int| ' ') =~= Seq::<char>::empty());
            assert(out@ =~= start + s@);
        } else {
            assert(out@ =~= start + pad_left(s@, width as nat));
        }
    }
}

/// Whether two strings hold the same characters.
pub fn str_eq(a: &str, b: &str) -> (r: bool)
    ensures
        r == (a@ == b@),
{
    let n = a.unicode_len();
    if n != b.unicode_len() {
        return false;
    }
    let mut i: usize = 0;
    while i < n
        invariant
            n == a@.len(),
            n == b@.len(),
            i <= n,
            forall|j: int| 0 <= j < i ==> a@[j] == b@[j],
        decreases n - i,
    {
        if a.get_char(i) != b.get_char(i) {
            return false;
        }
        i = i + 1;
    }
    proof {
        assert(a@ =~= b@);
    }
    true
}

/// The characters of a string.
pub(crate) fn chars_of(s: &str) -> (r: Vec<char>)
    ensures
        r@ == s@,
{
    let n = s.unicode_len();
    let mut v: Vec<char> = Vec::new();
    let mut i: usize = 0;
    while i < n
        invariant
            n == s@.len(),
            i <= n,
            v@ == s@.subrange(0, i as int),
        decreases n - i,
    {
        v.push(s.get_char(i));
        proof {
            assert(v@ =~= s@.subrange(0, i + 1));
        }
        i = i + 1;
    }
    proof {
        assert(s@.subrange(0, n as int) =~= s@);
    }
    v
}

} // verus!
