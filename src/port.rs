use vstd::prelude::*;

use crate::text::{chars_of, trim, trim_bounds};

verus! {

/// The token that introduces the port number on a line of the worker's
/// standard output.
pub open spec fn marker() -> Seq<char> {
    seq!['S', 'E', 'R', 'V', 'E', 'R', '_', 'P', 'O', 'R', 'T', '=']
}

/// The marker occurs in `s` at position `i`.
pub open spec fn marker_at(s: Seq<char>, i: int) -> bool {
    &&& 0 <= i
    &&& i + marker().len() <= s.len()
    &&& s.subrange(i, i + marker().len()) == marker()
}

/// The first position at or after `i` where the marker occurs in `s`.
pub open spec fn first_marker_from(s: Seq<char>, i: int) -> Option<int>
    decreases s.len() - i,
{
    if i < 0 || i + marker().len() > s.len() {
        None
    } else if marker_at(s, i) {
        Some(i)
    } else {
        first_marker_from(s, i + 1)
    }
}

/// An ASCII decimal digit.
pub open spec fn is_digit(c: char) -> bool {
    '0' <= c && c <= '9'
}

/// The value of the decimal digit `c`.
pub open spec fn digit_value(c: char) -> nat {
    (c as u32 - 48) as nat
}

/// Every element of `s` is a decimal digit.
pub open spec fn all_digits(s: Seq<char>) -> bool {
    forall|i: int| 0 <= i < s.len() ==> is_digit(#[trigger] s[i])
}

/// The number that the decimal digits `s` write, most significant first.
pub open spec fn decimal_value(s: Seq<char>) -> nat
    decreases s.len(),
{
    if s.len() == 0 {
        0
    } else {
        decimal_value(s.drop_last()) * 10 + digit_value(s.last())
    }
}

/// What reading `t` as an unsigned 16-bit decimal gives: an optional `+`,
/// then one or more digits whose value is at most 65535.
pub open spec fn parse_u16(t: Seq<char>) -> Option<u16> {
    let d = if t.len() > 0 && t[0] == '+' {
        t.drop_first()
    } else {
        t
    };
    if d.len() > 0 && all_digits(d) && decimal_value(d) <= 65535 {
        Some(decimal_value(d) as u16)
    } else {
        None
    }
}

/// The port that a line of standard output announces: the text after the
/// first marker, with white space trimmed, read as a 16-bit number. `None`
/// where the line has no marker or the number is malformed.
pub open spec fn port_of_line(s: Seq<char>) -> Option<u16> {
    match first_marker_from(s, 0) {
        Some(i) => parse_u16(trim(s.subrange(i + marker().len(), s.len() as int))),
        None => None,
    }
}

/// The line holds the marker.
pub open spec fn has_marker(s: Seq<char>) -> bool {
    first_marker_from(s, 0) is Some
}

/// What `first_marker_from` finds is a marker, and none stands before it.
pub proof fn lemma_first_marker(s: Seq<char>, j: int)
    requires
        0 <= j,
    ensures
        first_marker_from(s, j) matches Some(i) ==> j <= i && marker_at(s, i) && forall|m: int|
            j <= m < i ==> !marker_at(s, m),
        first_marker_from(s, j) is None ==> forall|m: int| j <= m ==> !marker_at(s, m),
    decreases s.len() - j,
{
    if j + marker().len() <= s.len() && !marker_at(s, j) {
        lemma_first_marker(s, j + 1);
    }
}

proof fn lemma_decimal_step(d: Seq<char>, k: int)
    requires
        0 <= k < d.len(),
    ensures
        decimal_value(d.take(k + 1)) == decimal_value(d.take(k)) * 10 + digit_value(d[k]),
{
    assert(d.take(k + 1).drop_last() =~= d.take(k));
}

proof fn lemma_decimal_grows(d: Seq<char>, i: int, j: int)
    requires
        0 <= i <= j <= d.len(),
    ensures
        decimal_value(d.take(i)) <= decimal_value(d.take(j)),
    decreases j - i,
{
    if i < j {
        lemma_decimal_grows(d, i, j - 1);
        lemma_decimal_step(d, j - 1);
    }
}

fn marker_chars() -> (r: Vec<char>)
    ensures
        r@ == marker(),
{
    let r = vec!['S', 'E', 'R', 'V', 'E', 'R', '_', 'P', 'O', 'R', 'T', '='];
    assert(r@ =~= marker());
    r
}

fn marker_here(s: &Vec<char>, m: &Vec<char>, i: usize) -> (r: bool)
    requires
        m@ == marker(),
        i + marker().len() <= s@.len(),
    ensures
        r == marker_at(s@, i as int),
{
    let n: usize = s.len();
    let mut j: usize = 0;
    while j < m.len()
        invariant
            m@ == marker(),
            i + marker().len() <= s@.len(),
            n == s@.len(),
            j <= m@.len(),
            forall|t: int| 0 <= t < j ==> s@[i + t] == m@[t],
        decreases m@.len() - j,
    {
        if s[i + j] != m[j] {
            assert(s@.subrange(i as int, i + marker().len())[j as int] != marker()[j as int]);
            return false;
        }
        j = j + 1;
    }
    assert(s@.subrange(i as int, i + marker().len()) =~= marker());
    true
}

/// The first position where the marker occurs in `s`.
fn find_marker(s: &Vec<char>) -> (r: Option<usize>)
    ensures
        first_marker_from(s@, 0) == match r {
            Some(i) => Some(i as int),
            None => None::<int>,
        },
{
    let m = marker_chars();
    let n: usize = s.len();
    if n < m.len() {
        return None;
    }
    let mut i: usize = 0;
    while i <= n - m.len()
        invariant
            m@ == marker(),
            n == s@.len(),
            m@.len() <= n,
            i <= n - m@.len() + 1,
            first_marker_from(s@, 0) == first_marker_from(s@, i as int),
        decreases n - i,
    {
        if marker_here(s, &m, i) {
            return Some(i);
        }
        i = i + 1;
    }
    None
}

/// Reads the digits `s[a..b]` as a number of at most 65535.
fn decimal_u16(s: &Vec<char>, a: usize, b: usize) -> (r: Option<u16>)
    requires
        a <= b <= s@.len(),
    ensures
        ({
            let d = s@.subrange(a as int, b as int);
            r == if all_digits(d) && decimal_value(d) <= 65535 {
                Some(decimal_value(d) as u16)
            } else {
                None::<u16>
            }
        }),
{
    let ghost d = s@.subrange(a as int, b as int);
    let mut acc: u32 = 0;
    let mut k: usize = a;
    while k < b
        invariant
            a <= k <= b <= s@.len(),
            d == s@.subrange(a as int, b as int),
            acc <= 65535,
            acc == decimal_value(d.take(k - a)),
            all_digits(d.take(k - a)),
        decreases b - k,
    {
        let c = s[k];
        if !('0' <= c && c <= '9') {
            assert(d[k - a] == c);
            return None;
        }
        proof {
            lemma_decimal_step(d, k - a);
        }
        acc = acc * 10 + (c as u32 - 48);
        if acc > 65535 {
            proof {
                lemma_decimal_grows(d, k - a + 1, d.len() as int);
                assert(d.take(d.len() as int) =~= d);
            }
            return None;
        }
        k = k + 1;
        assert(all_digits(d.take(k - a))) by {
            assert forall|t: int| 0 <= t < k - a implies is_digit(#[trigger] d.take(k - a)[t]) by {
                if t < k - a - 1 {
                    assert(d.take(k - a)[t] == d.take(k - a - 1)[t]);
                }
            }
        }
    }
    assert(d.take(k - a) =~= d);
    Some(acc as u16)
}

/// Reads `s[a..b]` as std reads a `u16`: an optional `+`, then digits.
fn read_u16(s: &Vec<char>, a: usize, b: usize) -> (r: Option<u16>)
    requires
        a <= b <= s@.len(),
    ensures
        r == parse_u16(s@.subrange(a as int, b as int)),
{
    let ghost t = s@.subrange(a as int, b as int);
    let start: usize = if a < b && s[a] == '+' {
        a + 1
    } else {
        a
    };
    assert(start > a ==> t.drop_first() =~= s@.subrange(start as int, b as int));
    assert(start == a ==> t =~= s@.subrange(start as int, b as int));
    if start == b {
        return None;
    }
    decimal_u16(s, start, b)
}

/// The port that a line of the worker's standard output announces, if any.
pub fn parse_port_line(line: &str) -> (r: Option<u16>)
    ensures
        r == port_of_line(line@),
{
    let s = chars_of(line);
    let n: usize = s.len();
    proof {
        lemma_first_marker(s@, 0);
    }
    match find_marker(&s) {
        Some(i) => {
            assert(i + 12 <= n);
            let rest: Vec<char> = tail_from(&s, i + 12);
            let (a, b) = trim_bounds(&rest);
            read_u16(&rest, a, b)
        },
        None => None,
    }
}

/// Whether a line of the worker's standard output holds the port marker.
pub fn line_has_marker(line: &str) -> (r: bool)
    ensures
        r == has_marker(line@),
{
    let s = chars_of(line);
    find_marker(&s).is_some()
}

/// The elements of `s` from position `i` on.
fn tail_from(s: &Vec<char>, i: usize) -> (r: Vec<char>)
    requires
        i <= s@.len(),
    ensures
        r@ == s@.subrange(i as int, s@.len() as int),
{
    let mut r: Vec<char> = Vec::new();
    let mut k: usize = i;
    while k < s.len()
        invariant
            i <= k <= s@.len(),
            r@ == s@.subrange(i as int, k as int),
        decreases s@.len() - k,
    {
        r.push(s[k]);
        k = k + 1;
    }
    r
}

} // verus!
