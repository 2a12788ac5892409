//! Slugs: the short names under which the chunks of a document are filed.

use vstd::prelude::*;
use vstd::string::*;
use crate::engine::{all_replaced, alphanumeric, is_alphanumeric, lowercase, lowercased, replace_all};

verus! {

/// The shape of a code span; its group is the text between the backticks.
pub const CODE_SPAN_PATTERN: &'static str = "`([^`]+)`";

/// The shape of a numeric entity, written with decimal digits or, after an
/// `x`, with hexadecimal digits.
pub const NUMERIC_ENTITY_PATTERN: &'static str = "&#(?:\\d+|[xX][0-9a-fA-F]+);";

/// The shape of a named entity.
pub const NAMED_ENTITY_PATTERN: &'static str = "&[a-z]+;";

/// Spaces and hyphens become hyphens, a run of them a single one;
/// alphanumeric characters stay; every other character is left out.
pub open spec fn hyphenated(s: Seq<char>) -> Seq<char>
    decreases s.len(),
{
    if s.len() == 0 {
        Seq::empty()
    } else {
        let p = hyphenated(s.drop_last());
        let c = s.last();
        if c == ' ' || c == '-' {
            if p.len() > 0 && p.last() == '-' {
                p
            } else {
                p.push('-')
            }
        } else if alphanumeric(c) {
            p.push(c)
        } else {
            p
        }
    }
}

/// The text without a hyphen at its start and without one at its end.
pub open spec fn without_edge_hyphens(p: Seq<char>) -> Seq<char> {
    let q = if p.len() > 0 && p[0] == '-' {
        p.drop_first()
    } else {
        p
    };
    if q.len() > 0 && q.last() == '-' {
        q.drop_last()
    } else {
        q
    }
}

/// The slug of a text that is already in lower case.
pub open spec fn slug_of_lowered(s: Seq<char>) -> Seq<char> {
    without_edge_hyphens(hyphenated(s))
}

/// Hyphens and alphanumeric characters only, no space, no two hyphens in a
/// row.
pub open spec fn hyphen_separated(s: Seq<char>) -> bool {
    &&& forall|i: int| 0 <= i < s.len() ==> s[i] == '-' || (#[trigger] alphanumeric(s[i]) && s[i] != ' ')
    &&& forall|i: int| 0 <= i < s.len() - 1 ==> !(#[trigger] s[i] == '-' && s[i + 1] == '-')
}

/// The shape of a slug: hyphens and alphanumeric characters only, no two
/// hyphens in a row, no hyphen at either end.
pub open spec fn slug_shaped(s: Seq<char>) -> bool {
    &&& hyphen_separated(s)
    &&& s.len() > 0 ==> s[0] != '-' && s.last() != '-'
}

/// Every character of `s` other than a hyphen occurs in `source`.
pub open spec fn drawn_from(s: Seq<char>, source: Seq<char>) -> bool {
    forall|i: int| 0 <= i < s.len() && s[i] != '-' ==> source.contains(#[trigger] s[i])
}

proof fn lemma_hyphenated(s: Seq<char>)
    ensures
        hyphen_separated(hyphenated(s)),
        drawn_from(hyphenated(s), s),
    decreases s.len(),
{
    if s.len() > 0 {
        let t = s.drop_last();
        lemma_hyphenated(t);
        let p = hyphenated(t);
        let r = hyphenated(s);
        assert forall|i: int| 0 <= i < r.len() && r[i] != '-' implies s.contains(#[trigger] r[i]) by {
            if i < p.len() {
                assert(t.contains(p[i]));
                let k = choose|k: int| 0 <= k < t.len() && t[k] == p[i];
                assert(s[k] == p[i]);
            } else {
                assert(s[s.len() - 1] == r[i]);
            }
        }
    }
}

/// A slug has the shape of one, and holds no character but hyphens and
/// characters of the text it was made from.
pub proof fn lemma_slug_shape(s: Seq<char>)
    ensures
        slug_shaped(slug_of_lowered(s)),
        drawn_from(slug_of_lowered(s), s),
{
    lemma_hyphenated(s);
    let p = hyphenated(s);
    let r = slug_of_lowered(s);
    let lo: int = if p.len() > 0 && p[0] == '-' { 1 } else { 0 };
    assert forall|i: int| 0 <= i < r.len() implies r[i] == p[i + lo] by {}
    assert forall|i: int| 0 <= i < r.len() && r[i] != '-' implies s.contains(#[trigger] r[i]) by {
        assert(r[i] == p[i + lo]);
    }
    assert forall|i: int| 0 <= i < r.len() - 1 implies !(#[trigger] r[i] == '-' && r[i + 1] == '-') by {
        assert(r[i] == p[i + lo]);
        assert(r[i + 1] == p[i + lo + 1]);
    }
    assert forall|i: int| 0 <= i < r.len() implies r[i] == '-' || (#[trigger] alphanumeric(r[i]) && r[i] != ' ') by {
        assert(r[i] == p[i + lo]);
    }
    if r.len() > 0 {
        if lo == 1 {
            assert(p[0] == '-' && !(p[0] == '-' && p[1] == '-'));
        }
        let q = if lo == 1 { p.drop_first() } else { p };
        if q.last() == '-' {
            let k = p.len() - 2;
            assert(!(p[k] == '-' && p[k + 1] == '-'));
        }
    }
}

/// Makes the slug of a text that is already in lower case.
pub fn slug_from_lowered(lowered: &str) -> (r: String)
    ensures
        r@ == slug_of_lowered(lowered@),
        slug_shaped(r@),
        drawn_from(r@, lowered@),
{
    let n: usize = lowered.unicode_len();
    let mut out = String::new();
    let mut count: usize = 0;
    let mut ends_hyphen = false;
    let mut i: usize = 0;
    while i < n
        invariant
            i <= n,
            n == lowered@.len(),
            out@ == hyphenated(lowered@.subrange(0, i as int)),
            count == out@.len(),
            count <= i,
            ends_hyphen == (out@.len() > 0 && out@.last() == '-'),
        decreases n - i,
    {
        let c = lowered.get_char(i);
        proof {
            assert(lowered@.subrange(0, i as int + 1).drop_last() =~= lowered@.subrange(0, i as int));
        }
        let ghost before = out@;
        if c == ' ' || c == '-' {
            if !ends_hyphen {
                proof {
                    reveal_strlit("-");
                    assert(before + "-"@ =~= before.push('-'));
                }
                out.append("-");
                ends_hyphen = true;
                count = count + 1;
            }
        } else if is_alphanumeric(c) {
            proof {
                assert(before + lowered@.subrange(i as int, i as int + 1) =~= before.push(c));
            }
            out.append(lowered.substring_char(i, i + 1));
            ends_hyphen = false;
            count = count + 1;
        }
        i = i + 1;
    }
    proof {
        assert(lowered@.subrange(0, n as int) =~= lowered@);
        lemma_slug_shape(lowered@);
    }
    let from: usize = if count > 0 && out.as_str().get_char(0) == '-' {
        1
    } else {
        0
    };
    let to: usize = if count > from && out.as_str().get_char(count - 1) == '-' {
        count - 1
    } else {
        count
    };
    let r = String::from_str(out.as_str().substring_char(from, to));
    proof {
        assert(r@ =~= slug_of_lowered(lowered@));
    }
    r
}

/// A heading made ready for its slug: code spans are unwrapped, numeric and
/// named entities removed, and the text is put in lower case. `None` where
/// the pattern engine refuses one of the three patterns.
pub open spec fn header_lowered(header: Seq<char>) -> Option<Seq<char>> {
    match all_replaced(CODE_SPAN_PATTERN@, header, "$1"@) {
        None => None,
        Some(unwrapped) => match all_replaced(NUMERIC_ENTITY_PATTERN@, unwrapped, ""@) {
            None => None,
            Some(plain) => match all_replaced(NAMED_ENTITY_PATTERN@, plain, ""@) {
                None => None,
                Some(bare) => Some(lowercased(bare)),
            },
        },
    }
}

/// The slug of a heading: the slug of the heading made ready for it.
pub open spec fn header_slug(header: Seq<char>) -> Option<Seq<char>> {
    match header_lowered(header) {
        None => None,
        Some(lowered) => Some(slug_of_lowered(lowered)),
    }
}

/// Derives the slug of a heading.
pub fn header_to_slug(header: &str) -> (r: Option<String>)
    ensures
        r.is_some() == header_slug(header@).is_some(),
        r.is_some() ==> r.unwrap()@ == header_slug(header@).unwrap(),
        r.is_some() ==> slug_shaped(r.unwrap()@),
{
    match replace_all(CODE_SPAN_PATTERN, header, "$1") {
        None => None,
        Some(unwrapped) => match replace_all(NUMERIC_ENTITY_PATTERN, unwrapped.as_str(), "") {
            None => None,
            Some(plain) => match replace_all(NAMED_ENTITY_PATTERN, plain.as_str(), "") {
                None => None,
                Some(bare) => {
                    let lowered = lowercase(bare.as_str());
                    Some(slug_from_lowered(lowered.as_str()))
                },
            },
        },
    }
}

/// The slug of a heading depends on the heading's text alone. Where there is
/// one, it has the shape of a slug: hyphens and alphanumeric characters
/// only, no two hyphens in a row, no hyphen at either end; and every
/// character of it but the hyphens occurs in the heading as it was put in
/// lower case.
pub proof fn lemma_header_slug(first: Seq<char>, second: Seq<char>)
    requires
        first == second,
    ensures
        header_slug(first) == header_slug(second),
        header_slug(first) is Some ==> slug_shaped(header_slug(first).unwrap()) && drawn_from(
            header_slug(first).unwrap(),
            header_lowered(first).unwrap(),
        ),
{
    if header_slug(first) is Some {
        lemma_slug_shape(header_lowered(first).unwrap());
    }
}

} // verus!
