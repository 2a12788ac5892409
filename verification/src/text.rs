//! Small operations on texts, stated over sequences of characters.

use vstd::prelude::*;
use vstd::string::*;
use crate::engine::{whitespace, is_whitespace};

verus! {

/// The text without its leading whitespace.
pub open spec fn without_leading(s: Seq<char>) -> Seq<char>
    decreases s.len(),
{
    if s.len() > 0 && whitespace(s[0]) {
        without_leading(s.drop_first())
    } else {
        s
    }
}

/// The text without its trailing whitespace.
pub open spec fn without_trailing(s: Seq<char>) -> Seq<char>
    decreases s.len(),
{
    if s.len() > 0 && whitespace(s.last()) {
        without_trailing(s.drop_last())
    } else {
        s
    }
}

/// The text without leading and trailing whitespace.
pub open spec fn trimmed(s: Seq<char>) -> Seq<char> {
    without_trailing(without_leading(s))
}

/// Removes leading and trailing whitespace.
pub fn trim(s: &str) -> (r: String)
    ensures
        r@ == trimmed(s@),
{
    let n: usize = s.unicode_len();
    let mut start: usize = 0;
    proof {
        assert(s@.subrange(0, n as int) =~= s@);
    }
    while start < n && is_whitespace(s.get_char(start))
        invariant
            start <= n,
            n == s@.len(),
            without_leading(s@) == without_leading(s@.subrange(start as int, n as int)),
        decreases n - start,
    {
        proof {
            assert(s@.subrange(start as int, n as int).drop_first() =~= s@.subrange(
                start as int + 1,
                n as int,
            ));
        }
        start = start + 1;
    }
    let mut end: usize = n;
    while end > start && is_whitespace(s.get_char(end - 1))
        invariant
            start <= end <= n,
            n == s@.len(),
            without_leading(s@) == s@.subrange(start as int, n as int),
            trimmed(s@) == without_trailing(s@.subrange(start as int, end as int)),
        decreases end - start,
    {
        proof {
            assert(s@.subrange(start as int, end as int).drop_last() =~= s@.subrange(
                start as int,
                end as int - 1,
            ));
        }
        end = end - 1;
    }
    String::from_str(s.substring_char(start, end))
}

/// Whether `s` begins with `p`.
pub open spec fn begins_with(s: Seq<char>, p: Seq<char>) -> bool {
    s.len() >= p.len() && s.subrange(0, p.len() as int) == p
}

/// Tells whether `s` begins with `p`.
pub fn has_prefix(s: &str, p: &str) -> (r: bool)
    ensures
        r == begins_with(s@, p@),
{
    let n: usize = s.unicode_len();
    let m: usize = p.unicode_len();
    if n < m {
        return false;
    }
    let mut i: usize = 0;
    while i < m
        invariant
            i <= m <= n,
            n == s@.len(),
            m == p@.len(),
            s@.subrange(0, i as int) == p@.subrange(0, i as int),
        decreases m - i,
    {
        if s.get_char(i) != p.get_char(i) {
            proof {
                assert(s@.subrange(0, m as int)[i as int] != p@[i as int]);
            }
            return false;
        }
        proof {
            assert(s@.subrange(0, i as int + 1) =~= s@.subrange(0, i as int).push(s@[i as int]));
            assert(p@.subrange(0, i as int + 1) =~= p@.subrange(0, i as int).push(p@[i as int]));
        }
        i = i + 1;
    }
    proof {
        assert(p@.subrange(0, m as int) =~= p@);
    }
    true
}

/// The text from position `from` to its end.
pub fn tail_from(s: &str, from: usize) -> (r: String)
    requires
        from <= s@.len(),
    ensures
        r@ == s@.subrange(from as int, s@.len() as int),
{
    let n: usize = s.unicode_len();
    String::from_str(s.substring_char(from, n))
}

/// The position of the first `c`, or the length where there is none.
pub open spec fn position_of(p: Seq<char>, c: char) -> int
    decreases p.len(),
{
    if p.len() == 0 || p[0] == c {
        0
    } else {
        1 + position_of(p.drop_first(), c)
    }
}

/// The position is within the text or at its end, and at its end exactly
/// where the character does not occur.
pub proof fn lemma_position_of(p: Seq<char>, c: char)
    ensures
        0 <= position_of(p, c) <= p.len(),
        position_of(p, c) < p.len() ==> p[position_of(p, c)] == c,
        (position_of(p, c) == p.len()) == !p.contains(c),
    decreases p.len(),
{
    if p.len() == 0 {
    } else if p[0] == c {
    } else {
        let t = p.drop_first();
        lemma_position_of(t, c);
        if t.contains(c) {
            let k = choose|k: int| 0 <= k < t.len() && t[k] == c;
            assert(p[k + 1] == c);
        }
        if p.contains(c) {
            let k = choose|k: int| 0 <= k < p.len() && p[k] == c;
            assert(t[k - 1] == c);
        }
    }
}

/// Finds the first `c` in a text.
pub fn find_first(s: &str, c: char) -> (r: usize)
    ensures
        r == position_of(s@, c),
        r <= s@.len(),
        r < s@.len() ==> s@[r as int] == c,
        (r == s@.len()) == !s@.contains(c),
{
    let n: usize = s.unicode_len();
    let mut j: usize = 0;
    proof {
        assert(s@.subrange(0, n as int) =~= s@);
        lemma_position_of(s@, c);
    }
    while j < n && s.get_char(j) != c
        invariant
            j <= n,
            n == s@.len(),
            position_of(s@, c) == j + position_of(s@.subrange(j as int, n as int), c),
        decreases n - j,
    {
        proof {
            assert(s@.subrange(j as int, n as int).drop_first() =~= s@.subrange(j as int + 1, n as int));
        }
        j = j + 1;
    }
    j
}

} // verus!
