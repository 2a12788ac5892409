//! The search keywords of a chunk: a taste of its document's keywords, then
//! the chunk's own vocabulary.

use vstd::prelude::*;
use vstd::string::*;
use crate::engine::{captures_of, group_views, lowercase, lowercased, match_groups, views};
use crate::nav::{group_at, group_text};
use crate::slug::CODE_SPAN_PATTERN;
use crate::text::{find_first, position_of, tail_from, trim, trimmed};

verus! {

/// The first two of the comma-separated keywords of a document, trimmed; the
/// only one where the text holds no comma.
pub open spec fn parent_keywords(s: Seq<char>) -> Seq<Seq<char>> {
    let k = position_of(s, ',');
    if k >= s.len() {
        seq![trimmed(s)]
    } else {
        let rest = s.subrange(k + 1, s.len() as int);
        seq![trimmed(s.subrange(0, k)), trimmed(rest.subrange(0, position_of(rest, ',')))]
    }
}

/// Whether a code term is taken as a keyword: 3 to 29 characters, no space.
pub open spec fn is_term(t: Seq<char>) -> bool {
    2 < t.len() < 30 && !t.contains(' ')
}

/// The keywords among the first `n` code spans, in lower case.
pub open spec fn terms_upto(matches: Seq<Seq<Seq<char>>>, n: nat) -> Seq<Seq<char>>
    decreases n,
{
    if n == 0 {
        Seq::empty()
    } else {
        let before = terms_upto(matches, (n - 1) as nat);
        let t = lowercased(group_at(matches[n - 1], 1));
        if is_term(t) {
            before.push(t)
        } else {
            before
        }
    }
}

/// The keywords among the first five code spans.
pub open spec fn code_terms(matches: Seq<Seq<Seq<char>>>) -> Seq<Seq<char>> {
    terms_upto(matches, if matches.len() < 5 { matches.len() } else { 5 })
}

/// The sequence with every run of equal texts cut down to its first.
pub open spec fn deduped(s: Seq<Seq<char>>) -> Seq<Seq<char>>
    decreases s.len(),
{
    if s.len() == 0 {
        Seq::empty()
    } else {
        let p = deduped(s.drop_last());
        if p.len() > 0 && p.last() == s.last() {
            p
        } else {
            p.push(s.last())
        }
    }
}

/// The first `n` of a sequence, all of it where it has no more.
pub open spec fn capped(s: Seq<Seq<char>>, n: nat) -> Seq<Seq<char>> {
    if s.len() <= n {
        s
    } else {
        s.subrange(0, n as int)
    }
}

/// The texts written one after the other, with `, ` between them.
pub open spec fn joined(s: Seq<Seq<char>>) -> Seq<char>
    decreases s.len(),
{
    if s.len() == 0 {
        Seq::empty()
    } else if s.len() == 1 {
        s[0]
    } else {
        joined(s.drop_last()) + ", "@ + s.last()
    }
}

/// The keywords of a chunk, from the code spans found in it and the keywords
/// of its document: at most six, with no keyword twice in a row.
pub open spec fn keywords_from(matches: Seq<Seq<Seq<char>>>, parent: Seq<char>) -> Seq<char> {
    joined(capped(deduped(parent_keywords(parent) + code_terms(matches)), 6))
}

/// The keywords of a chunk. `None` where the pattern engine refuses the
/// pattern of a code span.
pub open spec fn chunk_keywords(content: Seq<char>, parent: Seq<char>) -> Option<Seq<char>> {
    match match_groups(CODE_SPAN_PATTERN@, content) {
        None => None,
        Some(matches) => Some(keywords_from(matches, parent)),
    }
}

fn first_two_keywords(parent: &str) -> (r: Vec<String>)
    ensures
        views(r@) == parent_keywords(parent@),
{
    let n: usize = parent.unicode_len();
    let k: usize = find_first(parent, ',');
    let mut r: Vec<String> = Vec::new();
    if k >= n {
        r.push(trim(parent));
        proof {
            assert(views(r@) =~= parent_keywords(parent@));
        }
    } else {
        r.push(trim(parent.substring_char(0, k)));
        let rest = tail_from(parent, k + 1);
        let k2: usize = find_first(rest.as_str(), ',');
        r.push(trim(rest.as_str().substring_char(0, k2)));
        proof {
            assert(views(r@) =~= parent_keywords(parent@));
        }
    }
    r
}

fn dedup_adjacent(list: &Vec<String>) -> (r: Vec<String>)
    ensures
        views(r@) == deduped(views(list@)),
{
    let ghost all = views(list@);
    let mut kept: Vec<String> = Vec::new();
    let mut j: usize = 0;
    proof {
        assert(views(kept@) =~= deduped(all.subrange(0, 0)));
    }
    while j < list.len()
        invariant
            j <= list.len(),
            all == views(list@),
            views(kept@) == deduped(all.subrange(0, j as int)),
        decreases list.len() - j,
    {
        let ghost before = views(kept@);
        proof {
            assert(all.subrange(0, j as int + 1).drop_last() =~= all.subrange(0, j as int));
            assert(all.subrange(0, j as int + 1).last() == list@[j as int]@);
        }
        if kept.len() > 0 && kept[kept.len() - 1] == list[j] {
            proof {
                assert(before.last() == kept@[kept.len() - 1]@);
            }
        } else {
            proof {
                if kept.len() > 0 {
                    assert(before.last() == kept@[kept.len() - 1]@);
                }
            }
            kept.push(list[j].clone());
            proof {
                assert(views(kept@) =~= before.push(list@[j as int]@));
            }
        }
        j = j + 1;
    }
    proof {
        assert(all.subrange(0, all.len() as int) =~= all);
    }
    kept
}

fn join_capped(kept: &Vec<String>, cap: usize) -> (r: String)
    ensures
        r@ == joined(capped(views(kept@), cap as nat)),
{
    let ghost all = views(kept@);
    let m: usize = if kept.len() <= cap {
        kept.len()
    } else {
        cap
    };
    proof {
        assert(capped(all, cap as nat) =~= all.subrange(0, m as int));
    }
    let mut out = String::new();
    let mut j: usize = 0;
    while j < m
        invariant
            j <= m <= kept.len(),
            all == views(kept@),
            out@ == joined(all.subrange(0, j as int)),
        decreases m - j,
    {
        proof {
            assert(all.subrange(0, j as int + 1).drop_last() =~= all.subrange(0, j as int));
            assert(all.subrange(0, j as int + 1).last() == kept@[j as int]@);
        }
        if j > 0 {
            out = out.concat(", ");
        } else {
            proof {
                assert(out@ + kept@[j as int]@ =~= kept@[j as int]@);
            }
        }
        out = out.concat(kept[j].as_str());
        j = j + 1;
    }
    out
}

/// Makes the keywords of a chunk from the code spans found in it (each with
/// its groups) and the keywords of its document.
pub fn keywords_from_matches(matches: &Vec<Vec<String>>, parent_use_cases: &str) -> (r: String)
    ensures
        r@ == keywords_from(group_views(matches@), parent_use_cases@),
{
    let ghost mv = group_views(matches@);
    let ghost parents = parent_keywords(parent_use_cases@);
    let mut list = first_two_keywords(parent_use_cases);
    let m: usize = if matches.len() < 5 {
        matches.len()
    } else {
        5
    };
    let mut i: usize = 0;
    proof {
        assert(views(list@) =~= parents + terms_upto(mv, 0));
    }
    while i < m
        invariant
            i <= m <= matches.len(),
            mv == group_views(matches@),
            views(list@) == parents + terms_upto(mv, i as nat),
        decreases m - i,
    {
        let ghost before = views(list@);
        let raw = group_text(&matches[i], 1);
        let term = lowercase(raw.as_str());
        let len: usize = term.as_str().unicode_len();
        if len > 2 && len < 30 && find_first(term.as_str(), ' ') == len {
            list.push(term);
            proof {
                assert(views(list@) =~= before.push(term@));
                assert(before.push(term@) =~= parents + terms_upto(mv, (i + 1) as nat));
            }
        }
        i = i + 1;
    }
    let kept = dedup_adjacent(&list);
    join_capped(&kept, 6)
}

/// Makes the keywords of a chunk from its content and the keywords of its
/// document.
pub fn extract_chunk_use_cases(content: &str, parent_use_cases: &str) -> (r: Option<String>)
    ensures
        r.is_some() == chunk_keywords(content@, parent_use_cases@).is_some(),
        r.is_some() ==> r.unwrap()@ == chunk_keywords(content@, parent_use_cases@).unwrap(),
{
    match captures_of(CODE_SPAN_PATTERN, content) {
        None => None,
        Some(matches) => Some(keywords_from_matches(&matches, parent_use_cases)),
    }
}

} // verus!
