//! The calls this library makes into the pattern engine, the HTML parser,
//! the HTML-to-markdown converter and a few parts of std. The contract of
//! every function here is believed, not proved.

use vstd::prelude::*;

verus! {

/// The views of a sequence of strings.
pub open spec fn views(v: Seq<String>) -> Seq<Seq<char>> {
    Seq::new(v.len(), |i: int| v[i]@)
}

/// The views of the groups of every match.
pub open spec fn group_views(v: Seq<Vec<String>>) -> Seq<Seq<Seq<char>>> {
    Seq::new(v.len(), |i: int| views(v[i]@))
}

/// What `regex::Regex::replace_all` gives for a pattern, a text and a
/// replacement; `None` where `regex::Regex::new` refuses the pattern.
pub uninterp spec fn all_replaced(pattern: Seq<char>, text: Seq<char>, replacement: Seq<char>) -> Option<Seq<char>>;

/// What `regex::Regex::replace` gives (only the leftmost match is replaced);
/// `None` where `regex::Regex::new` refuses the pattern.
pub uninterp spec fn first_replaced(pattern: Seq<char>, text: Seq<char>, replacement: Seq<char>) -> Option<Seq<char>>;

/// The pieces that `regex::Regex::split` yields, in order; `None` where
/// `regex::Regex::new` refuses the pattern.
pub uninterp spec fn split_pieces(pattern: Seq<char>, text: Seq<char>) -> Option<Seq<Seq<char>>>;

/// For every match that `regex::Regex::captures_iter` yields, in order, the
/// text of each group (group 0 is the whole match; a group that took no part
/// is the empty text); `None` where `regex::Regex::new` refuses the pattern.
pub uninterp spec fn match_groups(pattern: Seq<char>, text: Seq<char>) -> Option<Seq<Seq<Seq<char>>>>;

/// What `str::to_lowercase` gives.
pub uninterp spec fn lowercased(text: Seq<char>) -> Seq<char>;

/// What `char::is_alphanumeric` gives.
pub uninterp spec fn alphanumeric(c: char) -> bool;

/// What `char::is_whitespace` gives.
pub uninterp spec fn whitespace(c: char) -> bool;

/// The serialised first element that a CSS selector matches in a parsed
/// document: the outer `None` where `scraper::Selector::parse` refuses the
/// selector, the inner `None` where no element matches.
pub uninterp spec fn first_selected(html: Seq<char>, selector: Seq<char>) -> Option<Option<Seq<char>>>;

/// What `htmd` converts an HTML text to when the given tags are skipped;
/// `None` where the conversion reports an error.
pub uninterp spec fn markdown_of(html: Seq<char>, skipped: Seq<Seq<char>>) -> Option<Seq<char>>;

/// Every non-overlapping occurrence of `from`, leftmost first, replaced by `to`.
pub open spec fn substituted(text: Seq<char>, from: Seq<char>, to: Seq<char>) -> Seq<char>
    decreases text.len(),
{
    if from.len() == 0 || text.len() < from.len() {
        text
    } else if text.subrange(0, from.len() as int) == from {
        to + substituted(text.subrange(from.len() as int, text.len() as int), from, to)
    } else {
        seq![text[0]] + substituted(text.drop_first(), from, to)
    }
}

/// Calls `regex::Regex::new` and `regex::Regex::replace_all`. Claims only
/// that the outcome is a function of the three texts.
#[verifier::external_body]
pub(crate) fn replace_all(pattern: &str, text: &str, replacement: &str) -> (r: Option<String>)
    ensures
        r.is_some() == all_replaced(pattern@, text@, replacement@).is_some(),
        r.is_some() ==> r.unwrap()@ == all_replaced(pattern@, text@, replacement@).unwrap(),
{
    match regex::Regex::new(pattern) {
        Ok(re) => Some(re.replace_all(text, replacement).into_owned()),
        Err(_) => None,
    }
}

/// Calls `regex::Regex::new` and `regex::Regex::replace`. Claims only that
/// the outcome is a function of the three texts.
#[verifier::external_body]
pub(crate) fn replace_first(pattern: &str, text: &str, replacement: &str) -> (r: Option<String>)
    ensures
        r.is_some() == first_replaced(pattern@, text@, replacement@).is_some(),
        r.is_some() ==> r.unwrap()@ == first_replaced(pattern@, text@, replacement@).unwrap(),
{
    match regex::Regex::new(pattern) {
        Ok(re) => Some(re.replace(text, replacement).into_owned()),
        Err(_) => None,
    }
}

/// Calls `regex::Regex::new` and `regex::Regex::split`. Claims only that the
/// pieces are a function of the two texts.
#[verifier::external_body]
pub(crate) fn split_by(pattern: &str, text: &str) -> (r: Option<Vec<String>>)
    ensures
        r.is_some() == split_pieces(pattern@, text@).is_some(),
        r.is_some() ==> views(r.unwrap()@) == split_pieces(pattern@, text@).unwrap(),
{
    match regex::Regex::new(pattern) {
        Ok(re) => Some(re.split(text).map(|piece| piece.to_string()).collect()),
        Err(_) => None,
    }
}

/// Calls `regex::Regex::new` and `regex::Regex::captures_iter`. Claims only
/// that the groups of the matches are a function of the two texts.
#[verifier::external_body]
pub(crate) fn captures_of(pattern: &str, text: &str) -> (r: Option<Vec<Vec<String>>>)
    ensures
        r.is_some() == match_groups(pattern@, text@).is_some(),
        r.is_some() ==> group_views(r.unwrap()@) == match_groups(pattern@, text@).unwrap(),
{
    match regex::Regex::new(pattern) {
        Ok(re) => Some(
            re.captures_iter(text).map(
                |found| found.iter().map(|group| group.map_or(String::new(), |m| m.as_str().to_string())).collect(),
            ).collect(),
        ),
        Err(_) => None,
    }
}

/// Calls `str::to_lowercase`.
#[verifier::external_body]
pub(crate) fn lowercase(text: &str) -> (r: String)
    ensures
        r@ == lowercased(text@),
{
    text.to_lowercase()
}

/// Calls `char::is_alphanumeric`.
#[verifier::external_body]
pub(crate) fn is_alphanumeric(c: char) -> (r: bool)
    ensures
        r == alphanumeric(c),
{
    c.is_alphanumeric()
}

/// Calls `char::is_whitespace`.
#[verifier::external_body]
pub(crate) fn is_whitespace(c: char) -> (r: bool)
    ensures
        r == whitespace(c),
{
    c.is_whitespace()
}

/// Calls `str::replace` with a pattern that is a non-empty text: every
/// non-overlapping occurrence, leftmost first, is replaced.
#[verifier::external_body]
pub(crate) fn replace_text(text: &str, from: &str, to: &str) -> (r: String)
    requires
        from@.len() > 0,
    ensures
        r@ == substituted(text@, from@, to@),
{
    text.replace(from, to)
}

/// Calls `scraper::Selector::parse`, `scraper::Html::parse_document`,
/// `scraper::Html::select` and `scraper::ElementRef::html`. Claims only that
/// the outcome is a function of the two texts.
#[verifier::external_body]
pub(crate) fn select_first(html: &str, selector: &str) -> (r: Option<Option<String>>)
    ensures
        r.is_some() == first_selected(html@, selector@).is_some(),
        r.is_some() ==> r.unwrap().is_some() == first_selected(html@, selector@).unwrap().is_some(),
        r.is_some() && r.unwrap().is_some() ==> r.unwrap().unwrap()@ == first_selected(html@, selector@).unwrap().unwrap(),
{
    match scraper::Selector::parse(selector) {
        Ok(sel) => Some(scraper::Html::parse_document(html).select(&sel).next().map(|node| node.html())),
        Err(_) => None,
    }
}

/// Calls `htmd::HtmlToMarkdown::builder`, `skip_tags`, `build` and
/// `convert`. Claims only that the outcome is a function of the text and of
/// the tags.
#[verifier::external_body]
pub(crate) fn to_markdown(html: &str, skipped: &Vec<String>) -> (r: Option<String>)
    ensures
        r.is_some() == markdown_of(html@, views(skipped@)).is_some(),
        r.is_some() ==> r.unwrap()@ == markdown_of(html@, views(skipped@)).unwrap(),
{
    let tags: Vec<&str> = skipped.iter().map(|tag| tag.as_str()).collect();
    htmd::HtmlToMarkdown::builder().skip_tags(tags).build().convert(html).ok()
}

/// `std::path::PathBuf`, carried through as it is.
#[verifier::external_type_specification]
#[verifier::external_body]
pub struct ExPathBuf(std::path::PathBuf);

/// The bytes that a path holds, as `OsStr::as_encoded_bytes` gives
/// them.
pub uninterp spec fn path_bytes(path: std::path::PathBuf) -> Seq<u8>;

/// The bytes of the path that `std::path::Path::join` gives for a base that
/// holds the given bytes and a piece, on the platform that the library is
/// built for.
pub uninterp spec fn joined_bytes(base: Seq<u8>, piece: Seq<char>) -> Seq<u8>;

/// The bytes of the path that `std::path::Path::with_extension` gives for a
/// base that holds the given bytes and an extension, on the platform that the
/// library is built for.
pub uninterp spec fn extended_bytes(base: Seq<u8>, extension: Seq<char>) -> Seq<u8>;

/// Calls `std::path::Path::join`. Claims only that what the path it gives
/// holds is a function of what the base holds and of the piece; how paths are
/// joined is not stated.
#[verifier::external_body]
pub(crate) fn join_path(base: &std::path::PathBuf, piece: &str) -> (r: std::path::PathBuf)
    ensures
        path_bytes(r) == joined_bytes(path_bytes(*base), piece@),
{
    base.join(piece)
}

/// Calls `std::path::Path::with_extension`, which does not take an extension
/// that holds a path separator. Claims only that what the path it gives holds
/// is a function of what the base holds and of the extension.
#[verifier::external_body]
pub(crate) fn with_extension(base: &std::path::PathBuf, extension: &str) -> (r: std::path::PathBuf)
    requires
        forall|i: int| 0 <= i < extension@.len() ==> extension@[i] != '/' && extension@[i] != '\\',
    ensures
        path_bytes(r) == extended_bytes(path_bytes(*base), extension@),
{
    base.with_extension(extension)
}

} // verus!
