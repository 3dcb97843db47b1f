use vstd::prelude::*;

verus! {

broadcast use vstd::string::group_string_axioms;

/// The characters of `s`, one element each.
pub fn chars_of(s: &str) -> (r: Vec<char>)
    ensures
        r@ == s@,
{
    let mut r: Vec<char> = Vec::new();
    for c in it: s.chars()
        invariant
            r@ == it.seq().take(it.index() as int),
    {
        r.push(c);
    }
    r
}

/// The code of `c` with ASCII upper case letters taken to lower case.
pub open spec fn fold_ascii(c: char) -> u32 {
    if 'A' <= c && c <= 'Z' {
        (c as u32 + 32) as u32
    } else {
        c as u32
    }
}

/// `k` occurs in `s` at position `i`, ASCII letters compared without case.
pub open spec fn occurs_ci_at(s: Seq<char>, k: Seq<char>, i: int) -> bool {
    &&& 0 <= i
    &&& i + k.len() <= s.len()
    &&& forall|j: int| 0 <= j < k.len() ==> fold_ascii(#[trigger] s[i + j]) == fold_ascii(k[j])
}

/// `k` occurs somewhere in `s`, ASCII letters compared without case.
pub open spec fn contains_ci(s: Seq<char>, k: Seq<char>) -> bool {
    exists|i: int| occurs_ci_at(s, k, i)
}

fn fold_char(c: char) -> (r: u32)
    ensures
        r == fold_ascii(c),
{
    if 'A' <= c && c <= 'Z' {
        c as u32 + 32
    } else {
        c as u32
    }
}

fn occurs_ci_here(s: &Vec<char>, k: &Vec<char>, i: usize) -> (r: bool)
    requires
        i + k@.len() <= s@.len(),
    ensures
        r == occurs_ci_at(s@, k@, i as int),
{
    let n: usize = s.len();
    let mut j: usize = 0;
    while j < k.len()
        invariant
            i + k@.len() <= s@.len(),
            n == s@.len(),
            j <= k@.len(),
            forall|m: int| 0 <= m < j ==> fold_ascii(#[trigger] s@[i + m]) == fold_ascii(k@[m]),
        decreases k@.len() - j,
    {
        if fold_char(s[i + j]) != fold_char(k[j]) {
            assert(!(fold_ascii(s@[i + j as int]) == fold_ascii(k@[j as int])));
            return false;
        }
        j = j + 1;
    }
    true
}

/// Whether `k` occurs in `s`, ASCII letters compared without case.
pub fn find_ci(s: &Vec<char>, k: &Vec<char>) -> (r: bool)
    ensures
        r == contains_ci(s@, k@),
{
    if k.len() > s.len() {
        return false;
    }
    let last: usize = s.len() - k.len();
    let mut i: usize = 0;
    while i <= last
        invariant
            last + k@.len() == s@.len(),
            forall|m: int| 0 <= m < i ==> !occurs_ci_at(s@, k@, m),
        decreases last + 1 - i,
    {
        if occurs_ci_here(s, k, i) {
            return true;
        }
        if i == last {
            return false;
        }
        i = i + 1;
    }
    false
}

/// The characters that Unicode counts as white space.
pub open spec fn is_white(c: char) -> bool {
    ||| '\u{9}' <= c && c <= '\u{d}'
    ||| c == ' '
    ||| c == '\u{85}'
    ||| c == '\u{a0}'
    ||| c == '\u{1680}'
    ||| '\u{2000}' <= c && c <= '\u{200a}'
    ||| c == '\u{2028}'
    ||| c == '\u{2029}'
    ||| c == '\u{202f}'
    ||| c == '\u{205f}'
    ||| c == '\u{3000}'
}

fn white(c: char) -> (r: bool)
    ensures
        r == is_white(c),
{
    ('\u{9}' <= c && c <= '\u{d}') || c == ' ' || c == '\u{85}' || c == '\u{a0}' || c
        == '\u{1680}' || ('\u{2000}' <= c && c <= '\u{200a}') || c == '\u{2028}' || c
        == '\u{2029}' || c == '\u{202f}' || c == '\u{205f}' || c == '\u{3000}'
}

/// `s` without its leading white space.
pub open spec fn trim_start(s: Seq<char>) -> Seq<char>
    decreases s.len(),
{
    if s.len() > 0 && is_white(s[0]) {
        trim_start(s.drop_first())
    } else {
        s
    }
}

/// `s` without its trailing white space.
pub open spec fn trim_end(s: Seq<char>) -> Seq<char>
    decreases s.len(),
{
    if s.len() > 0 && is_white(s.last()) {
        trim_end(s.drop_last())
    } else {
        s
    }
}

/// `s` without white space at either end.
pub open spec fn trim(s: Seq<char>) -> Seq<char> {
    trim_end(trim_start(s))
}

proof fn lemma_trim_start_from(s: Seq<char>, a: int)
    requires
        0 <= a <= s.len(),
        forall|m: int| 0 <= m < a ==> is_white(#[trigger] s[m]),
    ensures
        trim_start(s) == trim_start(s.subrange(a, s.len() as int)),
    decreases a,
{
    if a > 0 {
        assert(s.drop_first().subrange(a - 1, s.len() - 1) =~= s.subrange(a, s.len() as int));
        assert forall|m: int| 0 <= m < a - 1 implies is_white(#[trigger] s.drop_first()[m]) by {
            assert(is_white(s[m + 1]));
        }
        assert(is_white(s[0]));
        lemma_trim_start_from(s.drop_first(), a - 1);
    } else {
        assert(s.subrange(0, s.len() as int) =~= s);
    }
}

proof fn lemma_trim_end_to(s: Seq<char>, b: int)
    requires
        0 <= b <= s.len(),
        forall|m: int| b <= m < s.len() ==> is_white(#[trigger] s[m]),
    ensures
        trim_end(s) == trim_end(s.subrange(0, b)),
    decreases s.len() - b,
{
    if b < s.len() {
        assert(s.drop_last().subrange(0, b) =~= s.subrange(0, b));
        assert(is_white(s[s.len() - 1]));
        lemma_trim_end_to(s.drop_last(), b);
    } else {
        assert(s.subrange(0, b) =~= s);
    }
}

/// The bounds of `s` without white space at either end: `trim(s)` is
/// `s[a..b]`.
pub fn trim_bounds(s: &Vec<char>) -> (r: (usize, usize))
    ensures
        r.0 <= r.1 <= s@.len(),
        trim(s@) == s@.subrange(r.0 as int, r.1 as int),
{
    let mut a: usize = 0;
    while a < s.len() && white(s[a])
        invariant
            a <= s@.len(),
            forall|m: int| 0 <= m < a ==> is_white(#[trigger] s@[m]),
        decreases s@.len() - a,
    {
        a = a + 1;
    }
    proof {
        lemma_trim_start_from(s@, a as int);
    }
    let ghost rest = s@.subrange(a as int, s@.len() as int);
    assert(trim_start(rest) == rest);
    let mut b: usize = s.len();
    while b > a && white(s[b - 1])
        invariant
            a <= b <= s@.len(),
            forall|m: int| b <= m < s@.len() ==> is_white(#[trigger] s@[m]),
        decreases b,
    {
        b = b - 1;
    }
    proof {
        assert forall|m: int| b - a <= m < rest.len() implies is_white(#[trigger] rest[m]) by {
            assert(rest[m] == s@[a + m]);
        }
        lemma_trim_end_to(rest, b - a);
        assert(rest.subrange(0, b - a) =~= s@.subrange(a as int, b as int));
    }
    (a, b)
}

} // verus!
