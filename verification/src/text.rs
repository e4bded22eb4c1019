//! Character-level building blocks: conversion between strings and character
//! vectors, literal matching, substitution and decimal rendering.

use vstd::prelude::*;
use vstd::std_specs::iter::IteratorSpec;

verus! {

broadcast use vstd::string::group_string_axioms;

/// `pat` occurs in `s` starting at index `i`.
pub open spec fn occurs_at(s: Seq<char>, pat: Seq<char>, i: int) -> bool {
    &&& 0 <= i
    &&& i + pat.len() <= s.len()
    &&& s.subrange(i, i + pat.len()) == pat
}

/// `pat` occurs somewhere in `s`.
pub open spec fn occurs_in(s: Seq<char>, pat: Seq<char>) -> bool {
    exists|i: int| occurs_at(s, pat, i)
}

/// `s` with every non-overlapping occurrence of `from`, found left to right,
/// replaced by `to`. An empty `from` leaves `s` unchanged.
pub open spec fn replace_all(s: Seq<char>, from: Seq<char>, to: Seq<char>) -> Seq<char>
    decreases s.len(),
{
    if from.len() == 0 || s.len() < from.len() {
        s
    } else if s.subrange(0, from.len() as int) == from {
        to + replace_all(s.subrange(from.len() as int, s.len() as int), from, to)
    } else {
        seq![s[0]] + replace_all(s.subrange(1, s.len() as int), from, to)
    }
}

/// Appends one character to a string with `String::push`: afterwards the
/// string holds what it held before, followed by `c`.
#[verifier::external_body]
pub(crate) fn push_char(s: &mut String, c: char)
    ensures
        final(s)@ == old(s)@.push(c),
{
    s.push(c);
}

/// The characters of `s`, in order.
pub fn to_chars(s: &str) -> (v: Vec<char>)
    ensures
        v@ == s@,
{
    let mut it = s.chars();
    let mut v: Vec<char> = Vec::new();
    loop
        invariant
            v@ + it.remaining() == s@,
            it.decrease() is Some,
        ensures
            v@ == s@,
        decreases it.decrease()->0,
    {
        let ghost before = it.remaining();
        match it.next() {
            Some(c) => {
                v.push(c);
                assert(v@ + it.remaining() =~= s@) by {
                    assert(before =~= seq![c] + it.remaining());
                }
            },
            None => {
                assert(v@ =~= s@);
                break;
            },
        }
    }
    v
}

/// The string made of the characters `v[from..to]`.
pub fn from_chars(v: &Vec<char>, from: usize, to: usize) -> (s: String)
    requires
        from <= to <= v@.len(),
    ensures
        s@ == v@.subrange(from as int, to as int),
{
    let mut s = String::new();
    let mut i: usize = from;
    while i < to
        invariant
            from <= i <= to <= v@.len(),
            s@ == v@.subrange(from as int, i as int),
        decreases to - i,
    {
        push_char(&mut s, v[i]);
        i += 1;
        assert(s@ =~= v@.subrange(from as int, i as int));
    }
    s
}

/// Whether the literal `pat` stands in `s` at index `i`.
pub fn has_at(s: &Vec<char>, i: usize, pat: &str) -> (b: bool)
    ensures
        b == occurs_at(s@, pat@, i as int),
{
    let n: usize = pat.unicode_len();
    if i > s.len() || n > s.len() - i {
        return false;
    }
    let mut k: usize = 0;
    while k < n
        invariant
            n == pat@.len(),
            i + n <= s.len(),
            k <= n,
            forall|j: int| 0 <= j < k ==> s@[i + j] == pat@[j],
        decreases n - k,
    {
        if s[i + k] != pat.get_char(k) {
            assert(s@.subrange(i as int, i + n)[k as int] != pat@[k as int]);
            return false;
        }
        k += 1;
    }
    assert(s@.subrange(i as int, i + n) =~= pat@);
    true
}

/// Whether two texts hold the same characters.
pub fn same_text(a: &str, b: &str) -> (r: bool)
    ensures
        r == (a@ == b@),
{
    let chars = to_chars(a);
    let r = chars.len() == b.unicode_len() && has_at(&chars, 0, b);
    proof {
        if r {
            assert(a@.subrange(0, a@.len() as int) =~= a@);
        }
        if a@ == b@ {
            assert(chars@.subrange(0, b@.len() as int) =~= b@);
        }
    }
    r
}

/// Whether `s` starts with `prefix`.
pub fn starts_with(s: &str, prefix: &str) -> (r: bool)
    ensures
        r == occurs_at(s@, prefix@, 0),
{
    let chars = to_chars(s);
    has_at(&chars, 0, prefix)
}

/// ASCII decimal digit.
pub open spec fn is_digit(c: char) -> bool {
    '0' <= c <= '9'
}

/// The number that a decimal digit stands for.
pub open spec fn digit_value(c: char) -> nat {
    (c as int - '0' as int) as nat
}

/// The character for a number below ten.
pub open spec fn digit_char(d: nat) -> char {
    (d + '0' as nat) as char
}

/// The number that a run of decimal digits spells.
pub open spec fn decimal_value(s: Seq<char>) -> nat
    decreases s.len(),
{
    if s.len() == 0 {
        0
    } else {
        decimal_value(s.drop_last()) * 10 + digit_value(s.last())
    }
}

/// The decimal spelling of `n`, without leading zeros.
pub open spec fn decimal_text(n: nat) -> Seq<char>
    decreases n,
{
    if n < 10 {
        seq![digit_char(n)]
    } else {
        decimal_text(n / 10).push(digit_char(n % 10))
    }
}

/// Every character of `s` is a decimal digit.
pub open spec fn all_digits(s: Seq<char>) -> bool {
    forall|i: int| 0 <= i < s.len() ==> is_digit(#[trigger] s[i])
}

/// The number that `s` spells: decimal digits, at least one, after an
/// optional plus sign, with a value that fits 64 bits.
pub open spec fn parsed_u64(s: Seq<char>) -> Option<u64> {
    let digits = if s.len() > 0 && s[0] == '+' {
        s.subrange(1, s.len() as int)
    } else {
        s
    };
    if digits.len() > 0 && all_digits(digits) && decimal_value(digits) <= u64::MAX {
        Some(decimal_value(digits) as u64)
    } else {
        None
    }
}

/// A longer run of digits spells no smaller a number than its beginning.
pub proof fn lemma_decimal_value_grows(s: Seq<char>, k: int)
    requires
        0 <= k <= s.len(),
    ensures
        decimal_value(s.subrange(0, k)) <= decimal_value(s),
    decreases s.len() - k,
{
    if k == s.len() {
        assert(s.subrange(0, k) =~= s);
    } else {
        lemma_decimal_value_grows(s.drop_last(), k);
        assert(s.drop_last().subrange(0, k) =~= s.subrange(0, k));
    }
}

/// Appends the decimal spelling of `n` to `out`.
pub fn push_decimal(out: &mut String, n: u64)
    ensures
        final(out)@ == old(out)@ + decimal_text(n as nat),
    decreases n,
{
    if n >= 10 {
        push_decimal(out, n / 10);
    }
    let d: u64 = n % 10;
    let c: char = if d == 0 {
        '0'
    } else if d == 1 {
        '1'
    } else if d == 2 {
        '2'
    } else if d == 3 {
        '3'
    } else if d == 4 {
        '4'
    } else if d == 5 {
        '5'
    } else if d == 6 {
        '6'
    } else if d == 7 {
        '7'
    } else if d == 8 {
        '8'
    } else {
        '9'
    };
    assert(c == digit_char(d as nat));
    push_char(out, c);
    proof {
        assert(out@ =~= old(out)@ + decimal_text(n as nat));
    }
}

/// The decimal spelling of `n`.
pub fn decimal(n: u64) -> (s: String)
    ensures
        s@ == decimal_text(n as nat),
{
    let mut s = String::new();
    push_decimal(&mut s, n);
    assert(s@ =~= decimal_text(n as nat));
    s
}

/// Reads `s[from..to]` as an unsigned decimal number.
pub fn parse_u64(s: &Vec<char>, from: usize, to: usize) -> (r: Option<u64>)
    requires
        from <= to <= s@.len(),
    ensures
        r == parsed_u64(s@.subrange(from as int, to as int)),
{
    let ghost text = s@.subrange(from as int, to as int);
    let start: usize = if from < to && s[from] == '+' {
        from + 1
    } else {
        from
    };
    let ghost digits = s@.subrange(start as int, to as int);
    proof {
        if start == from {
            assert(digits =~= text);
        } else {
            assert(digits =~= text.subrange(1, text.len() as int));
        }
    }
    if start == to {
        return None;
    }
    assert(parsed_u64(text) == if all_digits(digits) && decimal_value(digits) <= u64::MAX {
        Some(decimal_value(digits) as u64)
    } else {
        None
    });
    let mut acc: u64 = 0;
    let mut i: usize = start;
    while i < to
        invariant
            start <= i <= to <= s@.len(),
            digits == s@.subrange(start as int, to as int),
            text == s@.subrange(from as int, to as int),
            parsed_u64(text) == if all_digits(digits) && decimal_value(digits) <= u64::MAX {
                Some(decimal_value(digits) as u64)
            } else {
                None
            },
            forall|j: int| 0 <= j < i - start ==> is_digit(#[trigger] digits[j]),
            acc == decimal_value(digits.subrange(0, i - start)),
        decreases to - i,
    {
        let c = s[i];
        if !('0' <= c && c <= '9') {
            assert(!is_digit(digits[i - start]));
            return None;
        }
        let d: u64 = (c as u32 - '0' as u32) as u64;
        proof {
            let next = digits.subrange(0, i - start + 1);
            assert(next.drop_last() =~= digits.subrange(0, i - start));
            assert(next.last() == c);
            assert(decimal_value(next) == acc * 10 + d);
            lemma_decimal_value_grows(digits, i - start + 1);
        }
        if acc > (u64::MAX - d) / 10 {
            return None;
        }
        acc = acc * 10 + d;
        i += 1;
    }
    proof {
        assert(digits.subrange(0, to - start) =~= digits);
    }
    Some(acc)
}

/// `r` is the first index in `s[start..end]` at which `c` stands, or `end`
/// where it stands nowhere in that range.
pub open spec fn is_first_at(s: Seq<char>, c: char, start: int, end: int, r: int) -> bool {
    &&& 0 <= start <= r <= end <= s.len()
    &&& forall|i: int| start <= i < r ==> #[trigger] s[i] != c
    &&& (r < end ==> s[r] == c)
}

/// The first index at which `c` stands in `s`, or the length of `s` where it
/// stands nowhere.
pub open spec fn first_index(s: Seq<char>, c: char) -> int {
    choose|r: int| is_first_at(s, c, 0, s.len() as int, r)
}

/// The first index found in a range of `s` is the first index of that range
/// taken by itself.
pub proof fn lemma_first_index(s: Seq<char>, c: char, start: int, end: int, r: int)
    requires
        is_first_at(s, c, start, end, r),
    ensures
        first_index(s.subrange(start, end), c) == r - start,
{
    let t = s.subrange(start, end);
    assert(is_first_at(t, c, 0, t.len() as int, r - start)) by {
        assert forall|i: int| 0 <= i < r - start implies #[trigger] t[i] != c by {
            assert(s[start + i] != c);
        }
    }
    let chosen = first_index(t, c);
    assert(is_first_at(t, c, 0, t.len() as int, chosen));
    if chosen < r - start {
        assert(t[chosen] == c);
    } else if chosen > r - start {
        assert(t[r - start] != c);
    }
}

/// The first index in `s[start..end]` at which `c` stands, or `end`.
pub fn find_char(s: &Vec<char>, c: char, start: usize, end: usize) -> (r: usize)
    requires
        start <= end <= s@.len(),
    ensures
        is_first_at(s@, c, start as int, end as int, r as int),
{
    let mut r: usize = start;
    while r < end && s[r] != c
        invariant
            start <= r <= end <= s@.len(),
            forall|i: int| start <= i < r ==> #[trigger] s@[i] != c,
        decreases end - r,
    {
        r += 1;
    }
    r
}

/// The first line of a text that is not empty: what stands before the first
/// line feed, without the carriage return that may precede it.
pub open spec fn first_line(s: Seq<char>) -> Seq<char> {
    let n = first_index(s, '\n');
    if 0 < n < s.len() && s[n - 1] == '\r' {
        s.subrange(0, n - 1)
    } else {
        s.subrange(0, n)
    }
}

/// What follows the first line of a text.
pub open spec fn after_first_line(s: Seq<char>) -> Seq<char> {
    let n = first_index(s, '\n');
    if 0 <= n < s.len() {
        s.subrange(n + 1, s.len() as int)
    } else {
        Seq::<char>::empty()
    }
}

/// The texts of a vector of strings.
pub open spec fn texts(v: Seq<String>) -> Seq<Seq<char>> {
    v.map_values(|s: String| s@)
}

/// The lines of a text.
pub open spec fn line_seq(s: Seq<char>) -> Seq<Seq<char>>
    decreases s.len(),
{
    if s.len() == 0 {
        Seq::empty()
    } else {
        seq![first_line(s)] + line_seq(after_first_line(s))
    }
}

/// The lines of `s[from..to]`.
pub fn split_lines(s: &Vec<char>, from: usize, to: usize) -> (lines: Vec<String>)
    requires
        from <= to <= s@.len(),
    ensures
        texts(lines@) == line_seq(s@.subrange(from as int, to as int)),
{
    let mut lines: Vec<String> = Vec::new();
    let mut i: usize = from;
    proof {
        assert(texts(lines@) + line_seq(s@.subrange(from as int, to as int)) =~= line_seq(
            s@.subrange(from as int, to as int),
        ));
    }
    while i < to
        invariant
            from <= i <= to <= s@.len(),
            texts(lines@) + line_seq(s@.subrange(i as int, to as int)) == line_seq(
                s@.subrange(from as int, to as int),
            ),
        decreases to - i,
    {
        let ghost tail = s@.subrange(i as int, to as int);
        let ghost before = lines@;
        let end = find_char(s, '\n', i, to);
        proof {
            lemma_first_index(s@, '\n', i as int, to as int, end as int);
        }
        let line_end: usize = if end < to && end > i && s[end - 1] == '\r' {
            end - 1
        } else {
            end
        };
        let next: usize = if end < to {
            end + 1
        } else {
            end
        };
        proof {
            assert(first_line(tail) =~= s@.subrange(i as int, line_end as int));
            assert(after_first_line(tail) =~= s@.subrange(next as int, to as int));
        }
        lines.push(from_chars(s, i, line_end));
        proof {
            assert(texts(lines@) =~= texts(before).push(first_line(tail)));
            assert(texts(lines@) + line_seq(after_first_line(tail)) =~= texts(before) + line_seq(
                tail,
            ));
        }
        i = next;
    }
    proof {
        assert(texts(lines@) + Seq::<Seq<char>>::empty() =~= texts(lines@));
    }
    lines
}

} // verus!
