//! Reading the sections and the pages out of the navigation configuration.

use vstd::prelude::*;
use vstd::string::*;
use crate::engine::{captures_of, group_views, match_groups, views};

verus! {

/// The shape of a section block; its groups are the title and what stands
/// between the brackets.
pub const SECTION_PATTERN: &'static str = "\\{\\s*title:\\s*['\"]([^'\"]+)['\"]\\s*,\\s*items:\\s*\\[([\\s\\S]*?)\\]\\s*\\}";

/// The shape of an item block; its groups are the title and the path.
pub const ITEM_PATTERN: &'static str = "\\{\\s*title:\\s*['\"]([^'\"]+)['\"]\\s*,\\s*href:\\s*['\"]([^'\"]+)['\"]\\s*\\}";

/// One page of the documentation.
pub struct NavItem {
    pub title: String,
    pub href: String,
}

/// One group of pages.
pub struct NavSection {
    pub title: String,
    pub items: Vec<NavItem>,
}

/// What an item holds, as texts.
pub struct NavItemText {
    pub title: Seq<char>,
    pub href: Seq<char>,
}

/// What a section holds, as texts.
pub struct NavSectionText {
    pub title: Seq<char>,
    pub items: Seq<NavItemText>,
}

impl View for NavItem {
    type V = NavItemText;

    open spec fn view(&self) -> NavItemText {
        NavItemText { title: self.title@, href: self.href@ }
    }
}

/// The views of a sequence of items.
pub open spec fn item_texts(v: Seq<NavItem>) -> Seq<NavItemText> {
    Seq::new(v.len(), |i: int| v[i]@)
}

impl View for NavSection {
    type V = NavSectionText;

    open spec fn view(&self) -> NavSectionText {
        NavSectionText { title: self.title@, items: item_texts(self.items@) }
    }
}

/// The views of a sequence of sections.
pub open spec fn section_texts(v: Seq<NavSection>) -> Seq<NavSectionText> {
    Seq::new(v.len(), |i: int| v[i]@)
}

/// The text of group `k` of a match, empty where the match has no such group.
pub open spec fn group_at(groups: Seq<Seq<char>>, k: int) -> Seq<char> {
    if 0 <= k < groups.len() {
        groups[k]
    } else {
        Seq::empty()
    }
}

/// The items of a section, one for each match of the item shape, in order:
/// the first group is the title, the second the path.
pub open spec fn items_from(matches: Seq<Seq<Seq<char>>>) -> Seq<NavItemText> {
    Seq::new(matches.len(), |i: int| NavItemText { title: group_at(matches[i], 1), href: group_at(matches[i], 2) })
}

/// The sections of the first `n` matches of the section shape, in order,
/// without those in which no item was found. `None` where the pattern engine
/// refuses the item pattern.
pub open spec fn sections_upto(matches: Seq<Seq<Seq<char>>>, n: nat) -> Option<Seq<NavSectionText>>
    decreases n,
{
    if n == 0 {
        Some(Seq::empty())
    } else {
        match sections_upto(matches, (n - 1) as nat) {
            None => None,
            Some(before) => match match_groups(
                ITEM_PATTERN@,
                group_at(matches[n - 1], 2),
            ) {
                None => None,
                Some(found) => if found.len() == 0 {
                    Some(before)
                } else {
                    Some(before.push(NavSectionText { title: group_at(matches[n - 1], 1), items: items_from(found) }))
                },
            },
        }
    }
}

/// The navigation that a configuration text holds: every block of the shape
/// `{ title: "..", items: [ .. ] }` is a section, every block of the shape
/// `{ title: "..", href: ".." }` between its brackets an item. `None` where
/// the pattern engine refuses a pattern.
pub open spec fn navigation_of(content: Seq<char>) -> Option<Seq<NavSectionText>> {
    match match_groups(
        SECTION_PATTERN@,
        content,
    ) {
        None => None,
        Some(matches) => sections_upto(matches, matches.len()),
    }
}

proof fn lemma_sections_stay_missing(matches: Seq<Seq<Seq<char>>>, m: nat, n: nat)
    requires
        m <= n,
        sections_upto(matches, m) is None,
    ensures
        sections_upto(matches, n) is None,
    decreases n,
{
    if m < n {
        lemma_sections_stay_missing(matches, m, (n - 1) as nat);
    }
}

/// No section of a navigation is without items, and there are at most as
/// many sections as blocks of the section shape.
pub proof fn lemma_sections_hold_items(matches: Seq<Seq<Seq<char>>>, n: nat)
    requires
        sections_upto(matches, n) is Some,
    ensures
        sections_upto(matches, n).unwrap().len() <= n,
        forall|i: int|
            0 <= i < sections_upto(matches, n).unwrap().len() ==> (#[trigger] sections_upto(
                matches,
                n,
            ).unwrap()[i]).items.len() > 0,
    decreases n,
{
    if n > 0 {
        lemma_sections_hold_items(matches, (n - 1) as nat);
    }
}

pub(crate) fn group_text(groups: &Vec<String>, k: usize) -> (r: String)
    ensures
        r@ == group_at(views(groups@), k as int),
{
    if k < groups.len() {
        groups[k].clone()
    } else {
        String::new()
    }
}

/// Makes the items of a section from the matches of the item shape found in
/// it, each with its groups.
pub fn items_from_matches(found: &Vec<Vec<String>>) -> (r: Vec<NavItem>)
    ensures
        item_texts(r@) == items_from(group_views(found@)),
{
    let mut items: Vec<NavItem> = Vec::new();
    let mut i: usize = 0;
    while i < found.len()
        invariant
            i <= found.len(),
            items@.len() == i,
            forall|j: int|
                0 <= j < i ==> (#[trigger] items@[j])@ == items_from(group_views(found@))[j],
        decreases found.len() - i,
    {
        let item = NavItem { title: group_text(&found[i], 1), href: group_text(&found[i], 2) };
        items.push(item);
        i = i + 1;
    }
    proof {
        assert(item_texts(items@) =~= items_from(group_views(found@)));
    }
    items
}

/// Reads the navigation out of the text of the configuration.
pub fn parse_navigation(content: &str) -> (r: Option<Vec<NavSection>>)
    ensures
        r.is_some() == navigation_of(content@).is_some(),
        r.is_some() ==> section_texts(r.unwrap()@) == navigation_of(content@).unwrap(),
{
    let matches = match captures_of(
        SECTION_PATTERN,
        content,
    ) {
        None => return None,
        Some(m) => m,
    };
    let ghost mv = group_views(matches@);
    let mut sections: Vec<NavSection> = Vec::new();
    let mut i: usize = 0;
    proof {
        assert(section_texts(sections@) =~= Seq::empty());
    }
    while i < matches.len()
        invariant
            i <= matches.len(),
            mv == group_views(matches@),
            navigation_of(content@) == sections_upto(mv, mv.len()),
            sections_upto(mv, i as nat) == Some(section_texts(sections@)),
        decreases matches.len() - i,
    {
        let inner = group_text(&matches[i], 2);
        let found = match captures_of(
            ITEM_PATTERN,
            inner.as_str(),
        ) {
            None => {
                proof {
                    assert(sections_upto(mv, (i + 1) as nat) is None);
                    lemma_sections_stay_missing(mv, (i + 1) as nat, mv.len());
                }
                return None;
            },
            Some(f) => f,
        };
        if found.len() > 0 {
            let ghost before = section_texts(sections@);
            let section = NavSection { title: group_text(&matches[i], 1), items: items_from_matches(&found) };
            sections.push(section);
            proof {
                assert(section_texts(sections@) =~= before.push(section@));
            }
        }
        i = i + 1;
    }
    Some(sections)
}

/// Where an item is found in every block of the section shape, every block
/// is a section: the sections come in the order of the blocks, each with the
/// block's title and with the items found in the block, in the order in
/// which they were found.
pub proof fn lemma_sections_in_order(matches: Seq<Seq<Seq<char>>>, n: nat)
    requires
        n <= matches.len(),
        forall|i: int|
            0 <= i < n ==> {
                let found = #[trigger] match_groups(
                    ITEM_PATTERN@,
                    group_at(matches[i], 2),
                );
                found is Some && found.unwrap().len() > 0
            },
    ensures
        sections_upto(matches, n) is Some,
        sections_upto(matches, n).unwrap().len() == n,
        forall|i: int|
            0 <= i < n ==> (#[trigger] sections_upto(matches, n).unwrap()[i]).title == group_at(matches[i], 1)
                && sections_upto(matches, n).unwrap()[i].items == items_from(
                match_groups(ITEM_PATTERN@, group_at(matches[i], 2)).unwrap(),
            ) && sections_upto(matches, n).unwrap()[i].items.len() > 0,
    decreases n,
{
    if n > 0 {
        lemma_sections_in_order(matches, (n - 1) as nat);
        let found = match_groups(
            ITEM_PATTERN@,
            group_at(matches[n - 1], 2),
        );
        assert(found is Some && found.unwrap().len() > 0);
    }
}

} // verus!
