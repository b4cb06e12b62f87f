//! Character sequences: white space, trimming, searching and comparing.
//!
//! Strings are modelled by their views, sequences of `char`. The executable
//! functions work on a `Vec<char>` and on index ranges into it.

use vstd::prelude::*;
use vstd::string::*;

verus! {

/// Whether `c` is white space: one of the code points that carry the Unicode
/// property `White_Space`.
pub open spec fn is_space(c: char) -> bool {
    let n: u32 = c as u32;
    ||| 0x09 <= n <= 0x0d
    ||| n == 0x20
    ||| n == 0x85
    ||| n == 0xa0
    ||| n == 0x1680
    ||| 0x2000 <= n <= 0x200a
    ||| n == 0x2028
    ||| n == 0x2029
    ||| n == 0x202f
    ||| n == 0x205f
    ||| n == 0x3000
}

/// `s` without the white space it begins with.
pub open spec fn trim_start(s: Seq<char>) -> Seq<char>
    decreases s.len(),
{
    if s.len() > 0 && is_space(s.first()) {
        trim_start(s.drop_first())
    } else {
        s
    }
}

/// `s` without the white space it ends with.
pub open spec fn trim_end(s: Seq<char>) -> Seq<char>
    decreases s.len(),
{
    if s.len() > 0 && is_space(s.last()) {
        trim_end(s.drop_last())
    } else {
        s
    }
}

/// `s` without the white space at either end.
pub open spec fn trim(s: Seq<char>) -> Seq<char> {
    trim_end(trim_start(s))
}

/// The index of the first `c` in `s`, or the length of `s` where `c` does not
/// occur.
pub open spec fn position(s: Seq<char>, c: char) -> int
    decreases s.len(),
{
    if s.len() == 0 || s.first() == c {
        0
    } else {
        1 + position(s.drop_first(), c)
    }
}

/// The pieces of `s` that lie between the occurrences of `sep`, in order.
/// There is one piece more than there are occurrences, and a piece may be
/// empty.
pub open spec fn split(s: Seq<char>, sep: char) -> Seq<Seq<char>>
    decreases s.len(),
{
    let end = position(s, sep);
    if 0 <= end < s.len() {
        seq![s.take(end)] + split(s.skip(end + 1), sep)
    } else {
        seq![s]
    }
}

/// The code of `c`, with the capital letters `A` to `Z` taken to their small
/// forms.
pub open spec fn ascii_fold(c: char) -> u32 {
    let n: u32 = c as u32;
    if 0x41 <= n <= 0x5a {
        (n + 0x20) as u32
    } else {
        n
    }
}

/// Whether `a` and `b` are equal once the difference between the capital and
/// small forms of the letters `A` to `Z` is set aside.
pub open spec fn eq_ignore_ascii_case(a: Seq<char>, b: Seq<char>) -> bool {
    &&& a.len() == b.len()
    &&& forall|i: int| 0 <= i < a.len() ==> ascii_fold(#[trigger] a[i]) == ascii_fold(b[i])
}

/// `trim_start` drops exactly the leading run of white space.
pub proof fn lemma_trim_start(s: Seq<char>, n: int)
    requires
        0 <= n <= s.len(),
        forall|k: int| 0 <= k < n ==> is_space(#[trigger] s[k]),
        n < s.len() ==> !is_space(s[n]),
    ensures
        trim_start(s) == s.skip(n),
    decreases n,
{
    if n == 0 {
        assert(s.skip(0) =~= s);
    } else {
        let rest = s.drop_first();
        assert forall|k: int| 0 <= k < n - 1 implies is_space(#[trigger] rest[k]) by {
            assert(rest[k] == s[k + 1]);
        }
        lemma_trim_start(rest, n - 1);
        assert(rest.skip(n - 1) =~= s.skip(n));
    }
}

/// `trim_end` drops exactly the trailing run of white space.
pub proof fn lemma_trim_end(s: Seq<char>, n: int)
    requires
        0 <= n <= s.len(),
        forall|k: int| n <= k < s.len() ==> is_space(#[trigger] s[k]),
        n > 0 ==> !is_space(s[n - 1]),
    ensures
        trim_end(s) == s.take(n),
    decreases s.len() - n,
{
    if n == s.len() {
        assert(s.take(n) =~= s);
    } else {
        let rest = s.drop_last();
        assert forall|k: int| n <= k < rest.len() implies is_space(#[trigger] rest[k]) by {
            assert(rest[k] == s[k]);
        }
        lemma_trim_end(rest, n);
        assert(rest.take(n) =~= s.take(n));
    }
}

/// `position` is the one index before which `c` does not occur and at which,
/// unless it is the length, `c` stands.
pub proof fn lemma_position(s: Seq<char>, c: char, i: int)
    requires
        0 <= i <= s.len(),
        forall|k: int| 0 <= k < i ==> #[trigger] s[k] != c,
        i < s.len() ==> s[i] == c,
    ensures
        position(s, c) == i,
    decreases i,
{
    if i > 0 {
        let rest = s.drop_first();
        assert forall|k: int| 0 <= k < i - 1 implies #[trigger] rest[k] != c by {
            assert(rest[k] == s[k + 1]);
        }
        lemma_position(rest, c, i - 1);
    }
}

/// The characters of `s`, in order.
pub fn chars_of(s: &str) -> (v: Vec<char>)
    ensures
        v@ == s@,
{
    let mut v: Vec<char> = Vec::new();
    for c in it: s.chars()
        invariant
            v@ == it.seq().take(it.index() as int),
    {
        v.push(c);
    }
    v
}

/// Whether `c` is white space.
pub fn char_is_space(c: char) -> (b: bool)
    ensures
        b == is_space(c),
{
    let n: u32 = c as u32;
    (0x09 <= n && n <= 0x0d) || n == 0x20 || n == 0x85 || n == 0xa0 || n == 0x1680 || (0x2000 <= n
        && n <= 0x200a) || n == 0x2028 || n == 0x2029 || n == 0x202f || n == 0x205f || n == 0x3000
}

/// The code of `c`, with the capital letters `A` to `Z` taken to their small
/// forms.
pub fn char_ascii_fold(c: char) -> (n: u32)
    ensures
        n == ascii_fold(c),
{
    let n: u32 = c as u32;
    if 0x41 <= n && n <= 0x5a {
        n + 0x20
    } else {
        n
    }
}

/// Whether `a` and `b` differ at most in the case of the letters `A` to `Z`.
pub fn same_ignoring_ascii_case(a: &str, b: &str) -> (same: bool)
    ensures
        same == eq_ignore_ascii_case(a@, b@),
{
    let a_chars = chars_of(a);
    let b_chars = chars_of(b);
    if a_chars.len() != b_chars.len() {
        return false;
    }
    let mut i: usize = 0;
    while i < a_chars.len()
        invariant
            a_chars@ == a@,
            b_chars@ == b@,
            a_chars.len() == b_chars.len(),
            i <= a_chars.len(),
            forall|k: int| 0 <= k < i ==> ascii_fold(#[trigger] a@[k]) == ascii_fold(b@[k]),
        decreases a_chars.len() - i,
    {
        if char_ascii_fold(a_chars[i]) != char_ascii_fold(b_chars[i]) {
            return false;
        }
        i = i + 1;
    }
    true
}

/// Whether `a` and `b` are the same text.
pub fn same(a: &str, b: &str) -> (yes: bool)
    ensures
        yes == (a@ == b@),
{
    let a_chars = chars_of(a);
    let b_chars = chars_of(b);
    let yes = range_equals(&a_chars, 0, a_chars.len(), &b_chars);
    assert(a_chars@.subrange(0, a_chars.len() as int) =~= a_chars@);
    yes
}

/// Where `trim` of the characters from `from` up to `to` begins and ends.
pub(crate) fn trim_range(s: &Vec<char>, from: usize, to: usize) -> (r: (usize, usize))
    requires
        from <= to <= s.len(),
    ensures
        from <= r.0 <= r.1 <= to,
        s@.subrange(r.0 as int, r.1 as int) == trim(s@.subrange(from as int, to as int)),
{
    let mut a: usize = from;
    while a < to && char_is_space(s[a])
        invariant
            from <= a <= to <= s.len(),
            forall|k: int| from <= k < a ==> is_space(#[trigger] s@[k]),
        decreases to - a,
    {
        a = a + 1;
    }
    let mut b: usize = to;
    while b > a && char_is_space(s[b - 1])
        invariant
            a <= b <= to <= s.len(),
            forall|k: int| b <= k < to ==> is_space(#[trigger] s@[k]),
        decreases b,
    {
        b = b - 1;
    }
    proof {
        let whole = s@.subrange(from as int, to as int);
        assert forall|k: int| 0 <= k < a - from implies is_space(#[trigger] whole[k]) by {
            assert(whole[k] == s@[from + k]);
        }
        lemma_trim_start(whole, a - from);
        let tail = whole.skip(a - from);
        assert(tail =~= s@.subrange(a as int, to as int));
        assert forall|k: int| b - a <= k < tail.len() implies is_space(#[trigger] tail[k]) by {
            assert(tail[k] == s@[a + k]);
        }
        lemma_trim_end(tail, b - a);
        assert(tail.take(b - a) =~= s@.subrange(a as int, b as int));
    }
    (a, b)
}

/// The index of the first `c` among the characters from `from` up to `to`,
/// or `to` where there is none.
pub(crate) fn find_char(s: &Vec<char>, from: usize, to: usize, c: char) -> (i: usize)
    requires
        from <= to <= s.len(),
    ensures
        from <= i <= to,
        i - from == position(s@.subrange(from as int, to as int), c),
{
    let mut i: usize = from;
    while i < to && s[i] != c
        invariant
            from <= i <= to <= s.len(),
            forall|k: int| from <= k < i ==> #[trigger] s@[k] != c,
        decreases to - i,
    {
        i = i + 1;
    }
    proof {
        let part = s@.subrange(from as int, to as int);
        assert forall|k: int| 0 <= k < i - from implies #[trigger] part[k] != c by {
            assert(part[k] == s@[from + k]);
        }
        lemma_position(part, c, i - from);
    }
    i
}

/// Whether the characters from `from` up to `to` are those of `t`.
pub(crate) fn range_equals(s: &Vec<char>, from: usize, to: usize, t: &Vec<char>) -> (same: bool)
    requires
        from <= to <= s.len(),
    ensures
        same == (s@.subrange(from as int, to as int) == t@),
{
    if to - from != t.len() {
        return false;
    }
    let mut i: usize = 0;
    while i < t.len()
        invariant
            from <= to <= s.len(),
            to - from == t.len(),
            i <= t.len(),
            forall|k: int| 0 <= k < i ==> s@[from + k] == #[trigger] t@[k],
        decreases t.len() - i,
    {
        if s[from + i] != t[i] {
            assert(s@.subrange(from as int, to as int)[i as int] != t@[i as int]);
            return false;
        }
        i = i + 1;
    }
    assert(s@.subrange(from as int, to as int) =~= t@);
    true
}

/// Whether the characters from `from` up to `to` begin with those of `p`.
pub(crate) fn range_starts_with(s: &Vec<char>, from: usize, to: usize, p: &Vec<char>) -> (yes:
    bool)
    requires
        from <= to <= s.len(),
    ensures
        yes == p@.is_prefix_of(s@.subrange(from as int, to as int)),
{
    if to - from < p.len() {
        return false;
    }
    let yes = range_equals(s, from, from + p.len(), p);
    assert(s@.subrange(from as int, to as int).subrange(0, p@.len() as int) =~= s@.subrange(
        from as int,
        from + p@.len(),
    ));
    yes
}

/// The characters of `s` from index `from` up to index `to`, as a string of
/// their own.
pub(crate) fn substring(s: &str, from: usize, to: usize) -> (part: String)
    requires
        from <= to <= s@.len(),
    ensures
        part@ == s@.subrange(from as int, to as int),
{
    String::from_str(s.substring_char(from, to))
}

} // verus!
