//! Small string utilities, specified over `Seq<char>`.

use crate::bindings::{char_is_whitespace, is_whitespace};
use vstd::prelude::*;
use vstd::string::*;

verus! {

/// `s` without its leading whitespace.
pub open spec fn trim_start(s: Seq<char>) -> Seq<char>
    decreases s.len(),
{
    if s.len() > 0 && is_whitespace(s[0]) {
        trim_start(s.drop_first())
    } else {
        s
    }
}

/// `s` without its trailing whitespace.
pub open spec fn trim_end(s: Seq<char>) -> Seq<char>
    decreases s.len(),
{
    if s.len() > 0 && is_whitespace(s.last()) {
        trim_end(s.drop_last())
    } else {
        s
    }
}

/// `s` without leading and trailing whitespace.
pub open spec fn trimmed(s: Seq<char>) -> Seq<char> {
    trim_end(trim_start(s))
}

/// Whether nothing but whitespace is in `s`.
pub open spec fn is_blank(s: Seq<char>) -> bool {
    trimmed(s).len() == 0
}

/// Trimming never yields more than it was given, and what it yields neither
/// starts nor ends with whitespace.
pub proof fn lemma_trimmed_is_tight(s: Seq<char>)
    ensures
        trimmed(s).len() <= s.len(),
        trimmed(s).len() > 0 ==> !is_whitespace(trimmed(s)[0]) && !is_whitespace(
            trimmed(s).last(),
        ),
        trimmed(trimmed(s)) == trimmed(s),
{
    lemma_trim_start_shape(s);
    let t = trim_start(s);
    lemma_trim_end_shape(t);
    let u = trim_end(t);
    if u.len() > 0 {
        assert(u[0] == t[0]);
        assert(trim_start(u) == u);
        assert(trim_end(u) == u);
    } else {
        assert(trim_start(u) == u);
        assert(trim_end(u) == u);
    }
}

/// `trim_start` returns a suffix that does not begin with whitespace.
pub proof fn lemma_trim_start_shape(s: Seq<char>)
    ensures
        trim_start(s).len() <= s.len(),
        trim_start(s) == s.subrange(s.len() - trim_start(s).len(), s.len() as int),
        trim_start(s).len() > 0 ==> !is_whitespace(trim_start(s)[0]),
    decreases s.len(),
{
    if s.len() > 0 && is_whitespace(s[0]) {
        let rest = s.drop_first();
        lemma_trim_start_shape(rest);
        let k = rest.len() - trim_start(rest).len();
        assert(rest.subrange(k, rest.len() as int) =~= s.subrange(k + 1, s.len() as int));
    } else {
        assert(s.subrange(0, s.len() as int) =~= s);
    }
}

/// `trim_end` returns a prefix that does not end with whitespace.
pub proof fn lemma_trim_end_shape(s: Seq<char>)
    ensures
        trim_end(s).len() <= s.len(),
        trim_end(s) == s.subrange(0, trim_end(s).len() as int),
        trim_end(s).len() > 0 ==> !is_whitespace(trim_end(s).last()),
    decreases s.len(),
{
    if s.len() > 0 && is_whitespace(s.last()) {
        let rest = s.drop_last();
        lemma_trim_end_shape(rest);
        let k = trim_end(rest).len() as int;
        assert(rest.subrange(0, k) =~= s.subrange(0, k));
    } else {
        assert(s.subrange(0, s.len() as int) =~= s);
    }
}

/// The characters of `s`, in order.
pub fn to_chars(s: &str) -> (v: Vec<char>)
    ensures
        v@ == s@,
{
    let mut v: Vec<char> = Vec::new();
    for c in it: s.chars()
        invariant
            v@ == s@.subrange(0, it.index() as int),
            it.seq() == s@,
    {
        v.push(c);
    }
    v
}

/// `s` without leading and trailing whitespace, as `str::trim` gives it.
pub fn trim(s: &str) -> (r: &str)
    ensures
        r@ == trimmed(s@),
{
    let chars = to_chars(s);
    let n: usize = chars.len();
    let mut start: usize = 0;
    assert(s@.subrange(0, n as int) =~= s@);
    while start < n && char_is_whitespace(chars[start])
        invariant
            start <= n,
            n == chars@.len(),
            chars@ == s@,
            trim_start(s@) == trim_start(s@.subrange(start as int, n as int)),
        decreases n - start,
    {
        proof {
            let cur = s@.subrange(start as int, n as int);
            assert(cur.drop_first() =~= s@.subrange(start + 1, n as int));
        }
        start += 1;
    }
    let ghost head = s@.subrange(start as int, n as int);
    assert(trim_start(s@) == head);
    let mut end: usize = n;
    while end > start && char_is_whitespace(chars[end - 1])
        invariant
            start <= end <= n,
            n == chars@.len(),
            chars@ == s@,
            trim_end(head) == trim_end(s@.subrange(start as int, end as int)),
            head == s@.subrange(start as int, n as int),
        decreases end - start,
    {
        proof {
            let cur = s@.subrange(start as int, end as int);
            assert(cur.drop_last() =~= s@.subrange(start as int, end - 1));
        }
        end -= 1;
    }
    assert(trim_end(head) == s@.subrange(start as int, end as int));
    s.substring_char(start, end)
}

/// The position of the first `'\n'` in `s`, or the length of `s` if it has none.
pub open spec fn line_break(s: Seq<char>) -> nat
    decreases s.len(),
{
    if s.len() == 0 || s[0] == '\n' {
        0
    } else {
        1 + line_break(s.drop_first())
    }
}

/// The first line of `s` as `str::lines` yields it: none for the empty string;
/// otherwise what stands before the first `'\n'`, less one `'\r'` directly
/// before that `'\n'`. Without a `'\n'` the line is all of `s`.
pub open spec fn first_line_of(s: Seq<char>) -> Option<Seq<char>> {
    let cut = line_break(s) as int;
    if s.len() == 0 {
        None
    } else if 0 < cut < s.len() && s[cut - 1] == '\r' {
        Some(s.subrange(0, cut - 1))
    } else {
        Some(s.subrange(0, cut))
    }
}

/// `line_break` is the least index of a `'\n'`.
pub proof fn lemma_line_break(s: Seq<char>)
    ensures
        line_break(s) <= s.len(),
        forall|i: int| 0 <= i < line_break(s) ==> s[i] != '\n',
        line_break(s) < s.len() ==> s[line_break(s) as int] == '\n',
    decreases s.len(),
{
    if s.len() == 0 || s[0] == '\n' {
    } else {
        let rest = s.drop_first();
        lemma_line_break(rest);
        assert forall|i: int| 0 <= i < line_break(s) implies s[i] != '\n' by {
            if i > 0 {
                assert(s[i] == rest[i - 1]);
            }
        }
    }
}

/// A sequence whose first `'\n'` stands at `k` breaks there.
pub proof fn lemma_line_break_at(s: Seq<char>, k: int)
    requires
        0 <= k <= s.len(),
        forall|i: int| 0 <= i < k ==> s[i] != '\n',
        k < s.len() ==> s[k] == '\n',
    ensures
        line_break(s) == k,
{
    lemma_line_break(s);
    let b = line_break(s) as int;
    if b < k {
        assert(s[b] == '\n');
    } else if k < b {
        assert(s[k] != '\n');
    }
}

/// The first line of `s`, as `s.lines().next()` gives it.
pub fn first_line(s: &str) -> (r: Option<&str>)
    ensures
        match r {
            Some(line) => first_line_of(s@) == Some(line@),
            None => first_line_of(s@) is None,
        },
{
    let chars = to_chars(s);
    let n: usize = chars.len();
    if n == 0 {
        return None;
    }
    let mut cut: usize = 0;
    while cut < n && chars[cut] != '\n'
        invariant
            cut <= n,
            n == chars@.len(),
            chars@ == s@,
            forall|i: int| 0 <= i < cut ==> s@[i] != '\n',
        decreases n - cut,
    {
        cut += 1;
    }
    proof {
        lemma_line_break_at(s@, cut as int);
    }
    if cut < n && cut > 0 && chars[cut - 1] == '\r' {
        Some(s.substring_char(0, cut - 1))
    } else {
        Some(s.substring_char(0, cut))
    }
}

/// The decimal digit for `d`.
pub open spec fn digit(d: int) -> char {
    if d == 0 {
        '0'
    } else if d == 1 {
        '1'
    } else if d == 2 {
        '2'
    } else if d == 3 {
        '3'
    } else if d == 4 {
        '4'
    } else if d == 5 {
        '5'
    } else if d == 6 {
        '6'
    } else if d == 7 {
        '7'
    } else if d == 8 {
        '8'
    } else {
        '9'
    }
}

/// The decimal digits of `n`, most significant first, without leading zeros.
pub open spec fn digits(n: nat) -> Seq<char>
    decreases n,
{
    if n < 10 {
        seq![digit(n as int)]
    } else {
        digits(n / 10).push(digit((n % 10) as int))
    }
}

/// `i` in decimal, with a leading `-` when it is negative.
pub open spec fn decimal(i: int) -> Seq<char> {
    if i < 0 {
        seq!['-'] + digits((-i) as nat)
    } else {
        digits(i as nat)
    }
}

/// The digits held least significant first in `low_first`, written most
/// significant first.
pub open spec fn rendered(low_first: Seq<u8>) -> Seq<char>
    decreases low_first.len(),
{
    if low_first.len() == 0 {
        Seq::empty()
    } else {
        seq![digit(low_first.last() as int)] + rendered(low_first.drop_last())
    }
}

proof fn lemma_rendered_push(low_first: Seq<u8>, d: u8)
    ensures
        rendered(low_first.push(d)) == seq![digit(d as int)] + rendered(low_first),
{
    assert(low_first.push(d).drop_last() =~= low_first);
}

fn digit_str(d: u8) -> (r: &'static str)
    requires
        d < 10,
    ensures
        r@ == seq![digit(d as int)],
{
    proof {
        reveal_strlit("0");
        reveal_strlit("1");
        reveal_strlit("2");
        reveal_strlit("3");
        reveal_strlit("4");
        reveal_strlit("5");
        reveal_strlit("6");
        reveal_strlit("7");
        reveal_strlit("8");
        reveal_strlit("9");
    }
    let r = if d == 0 {
        "0"
    } else if d == 1 {
        "1"
    } else if d == 2 {
        "2"
    } else if d == 3 {
        "3"
    } else if d == 4 {
        "4"
    } else if d == 5 {
        "5"
    } else if d == 6 {
        "6"
    } else if d == 7 {
        "7"
    } else if d == 8 {
        "8"
    } else {
        "9"
    };
    assert(r@ =~= seq![digit(d as int)]);
    r
}

/// `value` written in decimal.
pub fn decimal_string(value: i32) -> (r: String)
    ensures
        r@ == decimal(value as int),
{
    let negative = value < 0;
    let wide: i64 = value as i64;
    let magnitude: u32 = if negative {
        (-wide) as u32
    } else {
        wide as u32
    };
    // Least significant digit first.
    let mut low_first: Vec<u8> = Vec::new();
    let mut rest: u32 = magnitude;
    low_first.push((rest % 10) as u8);
    rest = rest / 10;
    proof {
        let d = (magnitude % 10) as u8;
        lemma_rendered_push(Seq::<u8>::empty(), d);
        assert(low_first@ =~= Seq::<u8>::empty().push(d));
        assert(rendered(low_first@) =~= seq![digit(d as int)]);
        if magnitude >= 10 {
            assert(digits(rest as nat) + rendered(low_first@) =~= digits(rest as nat).push(
                digit(d as int),
            ));
        }
    }
    while rest > 0
        invariant
            low_first@.len() > 0,
            forall|i: int| 0 <= i < low_first@.len() ==> low_first@[i] < 10,
            digits(magnitude as nat) == if rest == 0 {
                rendered(low_first@)
            } else {
                digits(rest as nat) + rendered(low_first@)
            },
        decreases rest,
    {
        proof {
            let d = (rest % 10) as u8;
            assert(rendered(low_first@.push(d)) =~= seq![digit(d as int)] + rendered(low_first@))
                by {
                lemma_rendered_push(low_first@, d);
            }
            if rest >= 10 {
                assert(digits(rest as nat) == digits((rest / 10) as nat).push(
                    digit((rest % 10) as int),
                ));
                assert(digits(rest as nat) + rendered(low_first@) =~= digits((rest / 10) as nat)
                    + (seq![digit(d as int)] + rendered(low_first@)));
            } else {
                assert(digits(rest as nat) == seq![digit(d as int)]);
            }
        }
        low_first.push((rest % 10) as u8);
        rest = rest / 10;
    }
    let mut r = String::new();
    if negative {
        proof {
            reveal_strlit("-");
        }
        r.append("-");
    }
    let ghost sign = r@;
    assert(sign =~= if negative {
        seq!['-']
    } else {
        Seq::<char>::empty()
    });
    let mut k: usize = low_first.len();
    assert(low_first@.subrange(0, k as int) =~= low_first@);
    while k > 0
        invariant
            k <= low_first@.len(),
            forall|i: int| 0 <= i < low_first@.len() ==> low_first@[i] < 10,
            r@ + rendered(low_first@.subrange(0, k as int)) == sign + rendered(low_first@),
        decreases k,
    {
        k -= 1;
        let d = low_first[k];
        proof {
            let before = low_first@.subrange(0, k + 1);
            assert(before.drop_last() =~= low_first@.subrange(0, k as int));
            assert(before.last() == d);
            assert(r@ + rendered(before) =~= (r@ + seq![digit(d as int)]) + rendered(
                low_first@.subrange(0, k as int),
            ));
        }
        r.append(digit_str(d));
    }
    proof {
        assert(low_first@.subrange(0, 0) =~= Seq::<u8>::empty());
        assert(r@ + Seq::<char>::empty() =~= r@);
        assert(low_first@.subrange(0, low_first@.len() as int) =~= low_first@);
        if !negative {
            assert(Seq::<char>::empty() + rendered(low_first@) =~= rendered(low_first@));
        }
    }
    r
}

} // verus!
