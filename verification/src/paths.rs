//! What a page's path says of it: its category, its identifier, and where
//! its authored source and its rendered page lie.

use vstd::prelude::*;
use vstd::string::*;
use std::path::PathBuf;
use crate::engine::{extended_bytes, join_path, joined_bytes, path_bytes, with_extension};
use crate::tables::{looked_up, lookup, pair_texts};
use crate::text::{begins_with, find_first, has_prefix, position_of, tail_from};

verus! {

/// The path without the prefix, where it begins with it.
pub open spec fn without_prefix(h: Seq<char>, prefix: Seq<char>) -> Seq<char> {
    if begins_with(h, prefix) {
        h.subrange(prefix.len() as int, h.len() as int)
    } else {
        h
    }
}

/// The position after the last `/`, or 0 where there is none.
pub open spec fn last_segment_start(p: Seq<char>) -> int
    decreases p.len(),
{
    if p.len() == 0 || p.last() == '/' {
        p.len() as int
    } else {
        last_segment_start(p.drop_last())
    }
}

/// The category of a page path: its first segment after `/docs/`.
pub open spec fn category_of(href: Seq<char>) -> Seq<char> {
    let p = without_prefix(href, "/docs/"@);
    p.subrange(0, position_of(p, '/'))
}

/// The identifier of a page path. A path of one segment after `/docs/` is a
/// category's landing page: its identifier is looked up in the table, and is
/// the segment itself where the table has none. Any other path has its last
/// segment as identifier.
pub open spec fn id_of(href: Seq<char>, table: Seq<(Seq<char>, Seq<char>)>) -> Seq<char> {
    let p = without_prefix(href, "/docs/"@);
    if !p.contains('/') {
        match looked_up(table, p) {
            Some(id) => id,
            None => p,
        }
    } else {
        p.subrange(last_segment_start(p), p.len() as int)
    }
}

proof fn lemma_last_segment_start(p: Seq<char>)
    ensures
        0 <= last_segment_start(p) <= p.len(),
        last_segment_start(p) == 0 <==> !p.contains('/'),
    decreases p.len(),
{
    if p.len() == 0 {
    } else if p.last() == '/' {
        assert(p[p.len() - 1] == '/');
    } else {
        let t = p.drop_last();
        lemma_last_segment_start(t);
        if t.contains('/') {
            let k = choose|k: int| 0 <= k < t.len() && t[k] == '/';
            assert(p[k] == '/');
        }
        if p.contains('/') {
            let k = choose|k: int| 0 <= k < p.len() && p[k] == '/';
            assert(t[k] == '/');
        }
    }
}

fn strip_prefix(href: &str, prefix: &str) -> (r: String)
    ensures
        r@ == without_prefix(href@, prefix@),
{
    if has_prefix(href, prefix) {
        tail_from(href, prefix.unicode_len())
    } else {
        String::from_str(href)
    }
}

/// The category that a page belongs to.
pub fn href_to_category(href: &str) -> (r: String)
    ensures
        r@ == category_of(href@),
{
    let path = strip_prefix(href, "/docs/");
    let p = path.as_str();
    let j: usize = find_first(p, '/');
    String::from_str(p.substring_char(0, j))
}

/// The identifier under which a page is filed.
pub fn href_to_id(href: &str, category_map: &Vec<(String, String)>) -> (r: String)
    ensures
        r@ == id_of(href@, pair_texts(category_map@)),
{
    let path = strip_prefix(href, "/docs/");
    let p = path.as_str();
    let n: usize = p.unicode_len();
    let mut k: usize = n;
    proof {
        assert(p@.subrange(0, n as int) =~= p@);
        lemma_last_segment_start(p@);
    }
    while k > 0 && p.get_char(k - 1) != '/'
        invariant
            k <= n,
            n == p@.len(),
            last_segment_start(p@) == last_segment_start(p@.subrange(0, k as int)),
        decreases k,
    {
        proof {
            assert(p@.subrange(0, k as int).drop_last() =~= p@.subrange(0, k as int - 1));
        }
        k = k - 1;
    }
    if k == 0 {
        match lookup(category_map, p) {
            Some(id) => id,
            None => String::from_str(p),
        }
    } else {
        tail_from(p, k)
    }
}

/// The path as it is joined below a directory: without one leading `/`.
pub fn relative_href(href: &str) -> (r: String)
    ensures
        r@ == without_prefix(href@, "/"@),
{
    strip_prefix(href, "/")
}

/// What the path of a page's rendered copy holds: the website's directory,
/// joined with `build/prerendered` and then with the page path without its
/// leading `/`, the extension set to `html`.
pub open spec fn prerendered_path_bytes(href: Seq<char>, website_dir: Seq<u8>) -> Seq<u8> {
    extended_bytes(
        joined_bytes(joined_bytes(website_dir, "build/prerendered"@), without_prefix(href, "/"@)),
        "html"@,
    )
}

/// What the path of a page's authored source holds: the website's directory,
/// joined with `src/routes`, then with the page path without its leading `/`,
/// then with the file name `+page.svx`.
pub open spec fn source_path_bytes(href: Seq<char>, website_dir: Seq<u8>) -> Seq<u8> {
    joined_bytes(
        joined_bytes(joined_bytes(website_dir, "src/routes"@), without_prefix(href, "/"@)),
        "+page.svx"@,
    )
}

/// Where the rendered page of a path lies below the website's directory:
/// under `build/prerendered`, with the extension `html`.
pub fn href_to_prerendered_path(href: &str, website_dir: &PathBuf) -> (r: PathBuf)
    ensures
        path_bytes(r) == prerendered_path_bytes(href@, path_bytes(*website_dir)),
{
    let path = relative_href(href);
    let root = join_path(website_dir, "build/prerendered");
    let page = join_path(&root, path.as_str());
    proof {
        reveal_strlit("html");
    }
    with_extension(&page, "html")
}

/// Where the authored source of a path lies below the website's directory:
/// the file `+page.svx` in the path's directory under `src/routes`.
pub fn href_to_source_path(href: &str, website_dir: &PathBuf) -> (r: PathBuf)
    ensures
        path_bytes(r) == source_path_bytes(href@, path_bytes(*website_dir)),
{
    let path = relative_href(href);
    let root = join_path(website_dir, "src/routes");
    let page = join_path(&root, path.as_str());
    join_path(&page, "+page.svx")
}

} // verus!
