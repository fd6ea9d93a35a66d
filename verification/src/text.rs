//! Text helpers: decimal numerals and removal of a marker from a string.
//!
//! Strings are modelled by their sequence of characters (`Seq<char>`).

use vstd::prelude::*;

verus! {

/// `String::push` of std appends the one character to the end of the string.
pub assume_specification[ String::push ](s: &mut String, c: char)
    ensures
        final(s)@ == old(s)@.push(c),
;

/// The decimal digit for `d`, where `0 <= d <= 9`.
pub open spec fn digit_char(d: int) -> char {
    if d == 0 {
        '0'
    } else if d == 1 {
        '1'
    } else if d == 2 {
        '2'
    } else if d == 3 {
        '3'
    } else if d == 4 {
        '4'
    } else if d == 5 {
        '5'
    } else if d == 6 {
        '6'
    } else if d == 7 {
        '7'
    } else if d == 8 {
        '8'
    } else {
        '9'
    }
}

/// The decimal numeral of a natural number: most significant digit first,
/// no leading zero, `"0"` for zero.
pub open spec fn decimal_digits(n: nat) -> Seq<char>
    decreases n,
{
    if n < 10 {
        seq![digit_char(n as int)]
    } else {
        decimal_digits(n / 10).push(digit_char((n % 10) as int))
    }
}

/// The decimal numeral of an integer: a minus sign before the digits of a
/// negative number, nothing before the others.
pub open spec fn decimal_text(n: int) -> Seq<char> {
    if n < 0 {
        seq!['-'] + decimal_digits((-n) as nat)
    } else {
        decimal_digits(n as nat)
    }
}

/// Whether `pat` stands in `s` at position `at`.
pub open spec fn occurs_at(s: Seq<char>, pat: Seq<char>, at: int) -> bool {
    0 <= at && at + pat.len() <= s.len() && s.subrange(at, at + pat.len()) == pat
}

/// Whether `pat` stands anywhere in `s`.
pub open spec fn occurs(s: Seq<char>, pat: Seq<char>) -> bool {
    exists|at: int| occurs_at(s, pat, at)
}

/// `s` with every occurrence of `pat` taken out, scanning from the left:
/// where `pat` stands at the front it is dropped and the scan goes on behind
/// it, otherwise the first character is kept. An empty `pat` takes nothing out.
pub open spec fn without(s: Seq<char>, pat: Seq<char>) -> Seq<char>
    decreases s.len(),
{
    if pat.len() == 0 || s.len() == 0 {
        s
    } else if occurs_at(s, pat, 0) {
        without(s.skip(pat.len() as int), pat)
    } else {
        seq![s[0]] + without(s.skip(1), pat)
    }
}

/// A string in which `pat` does not occur is left as it is.
pub proof fn lemma_without_absent(s: Seq<char>, pat: Seq<char>)
    requires
        !occurs(s, pat),
    ensures
        without(s, pat) == s,
    decreases s.len(),
{
    if pat.len() == 0 || s.len() == 0 {
    } else {
        let rest = s.skip(1);
        assert forall|at: int| !occurs_at(rest, pat, at) by {
            if occurs_at(rest, pat, at) {
                assert(rest.subrange(at, at + pat.len()) == s.subrange(at + 1, at + 1 + pat.len()));
                assert(occurs_at(s, pat, at + 1));
            }
        }
        lemma_without_absent(rest, pat);
    }
}

/// The decimal digit for `d`.
fn digit(d: u8) -> (c: char)
    requires
        d <= 9,
    ensures
        c == digit_char(d as int),
{
    match d {
        0 => '0',
        1 => '1',
        2 => '2',
        3 => '3',
        4 => '4',
        5 => '5',
        6 => '6',
        7 => '7',
        8 => '8',
        _ => '9',
    }
}

/// Appends the decimal numeral of `n` to `out`.
pub fn push_decimal(out: &mut String, n: u128)
    ensures
        final(out)@ == old(out)@ + decimal_digits(n as nat),
    decreases n,
{
    if n >= 10 {
        push_decimal(out, n / 10);
    }
    out.push(digit((n % 10) as u8));
}

/// Appends the decimal numeral of `n` to `out`, with a minus sign where `n`
/// is negative.
pub fn push_integer(out: &mut String, n: i32)
    ensures
        final(out)@ == old(out)@ + decimal_text(n as int),
{
    if n < 0 {
        out.push('-');
        push_decimal(out, (-(n as i64)) as u128);
    } else {
        push_decimal(out, n as u128);
    }
}

/// The characters of `s`, in order.
pub fn chars_of(s: &str) -> (v: Vec<char>)
    ensures
        v@ == s@,
{
    let mut v: Vec<char> = Vec::new();
    for c in it: s.chars()
        invariant
            it.seq() == s@,
            v@ == s@.subrange(0, it.index()),
    {
        v.push(c);
    }
    v
}

/// Whether `pat` stands in `s` at position `at`.
fn stands_at(s: &Vec<char>, pat: &Vec<char>, at: usize) -> (b: bool)
    requires
        at <= s.len(),
    ensures
        b == occurs_at(s@, pat@, at as int),
{
    if pat.len() > s.len() - at {
        return false;
    }
    let mut k: usize = 0;
    while k < pat.len()
        invariant
            at + pat.len() <= s.len(),
            k <= pat.len(),
            s@.subrange(at as int, at + k) == pat@.subrange(0, k as int),
        decreases pat.len() - k,
    {
        if s[at + k] != pat[k] {
            return false;
        }
        k += 1;
    }
    assert(pat@.subrange(0, pat.len() as int) == pat@);
    true
}

/// To find `pat` at the front of what follows position `at` is to find it at `at`.
proof fn lemma_occurs_at_skip(s: Seq<char>, pat: Seq<char>, at: int)
    requires
        0 <= at <= s.len(),
    ensures
        occurs_at(s.skip(at), pat, 0) == occurs_at(s, pat, at),
{
    if at + pat.len() <= s.len() {
        assert(s.skip(at).subrange(0, pat.len() as int) == s.subrange(at, at + pat.len()));
    }
}

/// `s` with every occurrence of `pat` taken out, as `str::replace` of std
/// does it with an empty replacement.
pub fn remove_all(s: &str, pat: &str) -> (r: String)
    ensures
        r@ == without(s@, pat@),
{
    let text = chars_of(s);
    let mark = chars_of(pat);
    let mut out = String::new();
    let mut at: usize = 0;
    assert(text@.skip(0) == text@);
    while at < text.len()
        invariant
            at <= text.len(),
            out@ + without(text@.skip(at as int), mark@) == without(text@, mark@),
        decreases text.len() - at,
    {
        let ghost rest = text@.skip(at as int);
        proof {
            lemma_occurs_at_skip(text@, mark@, at as int);
        }
        if mark.len() > 0 && stands_at(&text, &mark, at) {
            assert(rest.skip(mark@.len() as int) == text@.skip(at + mark@.len()));
            at += mark.len();
        } else {
            assert(rest.skip(1) == text@.skip(at + 1));
            out.push(text[at]);
            at += 1;
        }
    }
    out
}

} // verus!
