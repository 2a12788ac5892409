//! From an authored source or a rendered page to clean markdown.

use vstd::prelude::*;
use vstd::string::*;
use crate::engine::{
    all_replaced, first_replaced, first_selected, markdown_of, replace_all, replace_first, replace_text,
    select_first, substituted, to_markdown, views,
};
use crate::text::{trim, trimmed};

verus! {

/// The shape of a comment at the very start, with the whitespace after it.
pub const LEADING_COMMENT_PATTERN: &'static str = "^<!--[\\s\\S]*?-->\\s*";

/// The shape of a head block, with the whitespace after it.
pub const HEAD_BLOCK_PATTERN: &'static str = "<svelte:head>[\\s\\S]*?</svelte:head>\\s*";

/// Three newlines or more in a row.
pub const BLANK_LINES_PATTERN: &'static str = "\\n{3,}";

/// An authored source without its boilerplate: a comment at its very start
/// and every head block are removed, the rest is trimmed and ends in one
/// newline. `None` where the pattern engine refuses a pattern.
pub open spec fn source_stripped(markdown: Seq<char>) -> Option<Seq<char>> {
    match first_replaced(LEADING_COMMENT_PATTERN@, markdown, ""@) {
        None => None,
        Some(uncommented) => match all_replaced(
            HEAD_BLOCK_PATTERN@,
            uncommented,
            ""@,
        ) {
            None => None,
            Some(headless) => Some(trimmed(headless) + "\n"@),
        },
    }
}

/// Strips the boilerplate from an authored source.
pub fn strip_mdsvex_boilerplate(markdown: &str) -> (r: Option<String>)
    ensures
        r.is_some() == source_stripped(markdown@).is_some(),
        r.is_some() ==> r.unwrap()@ == source_stripped(markdown@).unwrap(),
{
    match replace_first(LEADING_COMMENT_PATTERN, markdown, "") {
        None => None,
        Some(uncommented) => match replace_all(
            HEAD_BLOCK_PATTERN,
            uncommented.as_str(),
            "",
        ) {
            None => None,
            Some(headless) => Some(trim(headless.as_str()).concat("\n")),
        },
    }
}

/// The text with the common entities written out as the characters they
/// stand for, one entity after the other.
pub open spec fn entities_decoded(s: Seq<char>) -> Seq<char> {
    let a = substituted(s, "&nbsp;"@, " "@);
    let b = substituted(a, "&lt;"@, "<"@);
    let c = substituted(b, "&gt;"@, ">"@);
    let d = substituted(c, "&amp;"@, "&"@);
    let e = substituted(d, "&quot;"@, "\""@);
    let f = substituted(e, "&#39;"@, "'"@);
    let g = substituted(f, "&#x27;"@, "'"@);
    let h = substituted(g, "&#123;"@, "{"@);
    substituted(h, "&#125;"@, "}"@)
}

/// Markdown cleaned up: three or more newlines in a row become two, the
/// common entities are decoded, and the text is trimmed. `None` where the
/// pattern engine refuses the pattern.
pub open spec fn cleaned(md: Seq<char>) -> Option<Seq<char>> {
    match all_replaced(BLANK_LINES_PATTERN@, md, "\n\n"@) {
        None => None,
        Some(spaced) => Some(trimmed(entities_decoded(spaced))),
    }
}

/// Writes the common entities out.
pub fn decode_entities(s: &str) -> (r: String)
    ensures
        r@ == entities_decoded(s@),
{
    proof {
        reveal_strlit("&nbsp;");
        reveal_strlit("&lt;");
        reveal_strlit("&gt;");
        reveal_strlit("&amp;");
        reveal_strlit("&quot;");
        reveal_strlit("&#39;");
        reveal_strlit("&#x27;");
        reveal_strlit("&#123;");
        reveal_strlit("&#125;");
    }
    let a = replace_text(s, "&nbsp;", " ");
    let b = replace_text(a.as_str(), "&lt;", "<");
    let c = replace_text(b.as_str(), "&gt;", ">");
    let d = replace_text(c.as_str(), "&amp;", "&");
    let e = replace_text(d.as_str(), "&quot;", "\"");
    let f = replace_text(e.as_str(), "&#39;", "'");
    let g = replace_text(f.as_str(), "&#x27;", "'");
    let h = replace_text(g.as_str(), "&#123;", "{");
    replace_text(h.as_str(), "&#125;", "}")
}

/// Cleans converted markdown up.
pub fn cleanup_markdown(md: &str) -> (r: Option<String>)
    ensures
        r.is_some() == cleaned(md@).is_some(),
        r.is_some() ==> r.unwrap()@ == cleaned(md@).unwrap(),
{
    match replace_all(BLANK_LINES_PATTERN, md, "\n\n") {
        None => None,
        Some(spaced) => {
            let decoded = decode_entities(spaced.as_str());
            Some(trim(decoded.as_str()))
        },
    }
}

/// The main content of a rendered page: the first element of class `prose`
/// that is a `div`, else the first `article`. `None` where there is neither,
/// or where a selector is refused.
pub open spec fn prose_of(html: Seq<char>) -> Option<Seq<char>> {
    match first_selected(html, "div.prose"@) {
        None => None,
        Some(Some(prose)) => Some(prose),
        Some(None) => match first_selected(html, "article"@) {
            None => None,
            Some(article) => article,
        },
    }
}

/// Finds the main content of a rendered page.
pub fn extract_prose_html(html: &str) -> (r: Option<String>)
    ensures
        r.is_some() == prose_of(html@).is_some(),
        r.is_some() ==> r.unwrap()@ == prose_of(html@).unwrap(),
{
    match select_first(html, "div.prose") {
        None => None,
        Some(Some(prose)) => Some(prose),
        Some(None) => match select_first(html, "article") {
            None => None,
            Some(article) => article,
        },
    }
}

/// The tags whose elements are left out of the conversion.
pub open spec fn skipped_tags() -> Seq<Seq<char>> {
    seq!["script"@, "style"@, "svg"@, "button"@, "nav"@]
}

/// The markdown of a rendered page. A page without main content gives the
/// empty text; a conversion that reports an error counts as the empty text,
/// which is then cleaned up like any other. `None` where the pattern engine
/// refuses the clean-up's pattern.
pub open spec fn page_markdown(html: Seq<char>) -> Option<Seq<char>> {
    match prose_of(html) {
        None => Some(Seq::empty()),
        Some(prose) => match markdown_of(prose, skipped_tags()) {
            None => cleaned(Seq::empty()),
            Some(md) => cleaned(md),
        },
    }
}

/// Converts a rendered page to markdown.
pub fn html_to_markdown(html: &str) -> (r: Option<String>)
    ensures
        r.is_some() == page_markdown(html@).is_some(),
        r.is_some() ==> r.unwrap()@ == page_markdown(html@).unwrap(),
{
    let prose = match extract_prose_html(html) {
        None => return Some(String::new()),
        Some(h) => h,
    };
    let mut skipped: Vec<String> = Vec::new();
    skipped.push(String::from_str("script"));
    skipped.push(String::from_str("style"));
    skipped.push(String::from_str("svg"));
    skipped.push(String::from_str("button"));
    skipped.push(String::from_str("nav"));
    proof {
        assert(views(skipped@) =~= skipped_tags());
    }
    let md = match to_markdown(prose.as_str(), &skipped) {
        None => String::new(),
        Some(m) => m,
    };
    cleanup_markdown(md.as_str())
}

} // verus!
