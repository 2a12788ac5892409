//! What is written for a page: its files and its manifest records.

use vstd::prelude::*;
use vstd::string::*;
use crate::chunk::{chunk_markdown, chunk_texts, chunks_of, should_chunk, Chunk, ChunkText, CHUNK_SIZE_THRESHOLD};
use crate::engine::{lowercase, lowercased, views};
use crate::keywords::{chunk_keywords, extract_chunk_use_cases};
use crate::nav::{NavItem, NavSection};
use crate::paths::{category_of, href_to_category, href_to_id, id_of};
use crate::tables::{looked_up, lookup, pair_texts};

verus! {

/// One record of the manifest.
pub struct DocSection {
    pub id: String,
    pub title: String,
    pub category: String,
    pub category_title: String,
    pub path: String,
    pub use_cases: String,
    pub is_chunked: Option<bool>,
    pub chunk_ids: Option<Vec<String>>,
    pub parent_id: Option<String>,
}

/// What a record holds, as texts.
pub struct DocSectionText {
    pub id: Seq<char>,
    pub title: Seq<char>,
    pub category: Seq<char>,
    pub category_title: Seq<char>,
    pub path: Seq<char>,
    pub use_cases: Seq<char>,
    pub is_chunked: Option<bool>,
    pub chunk_ids: Option<Seq<Seq<char>>>,
    pub parent_id: Option<Seq<char>>,
}

impl View for DocSection {
    type V = DocSectionText;

    open spec fn view(&self) -> DocSectionText {
        DocSectionText {
            id: self.id@,
            title: self.title@,
            category: self.category@,
            category_title: self.category_title@,
            path: self.path@,
            use_cases: self.use_cases@,
            is_chunked: self.is_chunked,
            chunk_ids: match self.chunk_ids {
                Some(ids) => Some(views(ids@)),
                None => None,
            },
            parent_id: match self.parent_id {
                Some(id) => Some(id@),
                None => None,
            },
        }
    }
}

/// What is known of a page before its content is looked at.
pub struct PageInfo {
    pub id: String,
    pub title: String,
    pub category: String,
    pub category_title: String,
    pub use_cases: String,
}

/// What a page's description holds, as texts.
pub struct PageInfoText {
    pub id: Seq<char>,
    pub title: Seq<char>,
    pub category: Seq<char>,
    pub category_title: Seq<char>,
    pub use_cases: Seq<char>,
}

impl View for PageInfo {
    type V = PageInfoText;

    open spec fn view(&self) -> PageInfoText {
        PageInfoText {
            id: self.id@,
            title: self.title@,
            category: self.category@,
            category_title: self.category_title@,
            use_cases: self.use_cases@,
        }
    }
}

/// A file to write: its path below the output directory, with `/` between
/// the segments, and its content.
pub struct OutputFile {
    pub path: String,
    pub content: String,
}

/// What a file to write holds, as texts.
pub struct OutputFileText {
    pub path: Seq<char>,
    pub content: Seq<char>,
}

impl View for OutputFile {
    type V = OutputFileText;

    open spec fn view(&self) -> OutputFileText {
        OutputFileText { path: self.path@, content: self.content@ }
    }
}

/// The files to write for a page, in the order in which they are written, and
/// its manifest records, in the order in which they enter the manifest.
pub struct PagePlan {
    pub files: Vec<OutputFile>,
    pub records: Vec<DocSection>,
}

/// What a plan holds, as texts.
pub struct PagePlanText {
    pub files: Seq<OutputFileText>,
    pub records: Seq<DocSectionText>,
}

impl View for PagePlan {
    type V = PagePlanText;

    open spec fn view(&self) -> PagePlanText {
        PagePlanText {
            files: Seq::new(self.files@.len(), |i: int| self.files@[i]@),
            records: Seq::new(self.records@.len(), |i: int| self.records@[i]@),
        }
    }
}

/// Where the content of a page is taken from, or why the page is passed over.
#[derive(Clone, Copy, Debug, PartialEq, Eq)]
pub enum ContentChoice {
    /// The authored source is used; the rendered page is not read.
    Authored,
    /// The rendered page is used.
    Rendered,
    /// Passed over: no authored source, and no rendered pages at all.
    SkipNoRendered,
    /// Passed over: neither an authored source nor a rendered page.
    SkipNotFound,
}

/// Decides where the content of a page comes from: from its authored source
/// where that could be read; else from its rendered page, where rendered
/// pages exist at all and this one among them.
pub fn choose_content(source_read: bool, has_prerendered: bool, rendered_exists: bool) -> (r: ContentChoice)
    ensures
        source_read ==> r is Authored,
        !source_read && !has_prerendered ==> r is SkipNoRendered,
        !source_read && has_prerendered && !rendered_exists ==> r is SkipNotFound,
        !source_read && has_prerendered && rendered_exists ==> r is Rendered,
{
    if source_read {
        ContentChoice::Authored
    } else if !has_prerendered {
        ContentChoice::SkipNoRendered
    } else if !rendered_exists {
        ContentChoice::SkipNotFound
    } else {
        ContentChoice::Rendered
    }
}

/// The keywords of a page: those of the table, else its title in lower case.
pub open spec fn page_keywords(href: Seq<char>, title: Seq<char>, table: Seq<(Seq<char>, Seq<char>)>) -> Seq<char> {
    match looked_up(table, href) {
        Some(keywords) => keywords,
        None => lowercased(title),
    }
}

/// The path of the first item of a section, empty where it has none.
pub open spec fn first_href(items: Seq<NavItem>) -> Seq<char> {
    if items.len() > 0 {
        items[0].href@
    } else {
        Seq::empty()
    }
}

/// The description of a page: the category is that of the first page of its
/// section.
pub open spec fn page_info(
    item: NavItem,
    section: NavSection,
    use_cases_map: Seq<(Seq<char>, Seq<char>)>,
    category_map: Seq<(Seq<char>, Seq<char>)>,
) -> PageInfoText {
    PageInfoText {
        id: id_of(item.href@, category_map),
        title: item.title@,
        category: category_of(first_href(section.items@)),
        category_title: section.title@,
        use_cases: page_keywords(item.href@, item.title@, use_cases_map),
    }
}

/// Describes a page of a section.
pub fn describe_page(
    item: &NavItem,
    section: &NavSection,
    use_cases_map: &Vec<(String, String)>,
    category_map: &Vec<(String, String)>,
) -> (r: PageInfo)
    ensures
        r@ == page_info(*item, *section, pair_texts(use_cases_map@), pair_texts(category_map@)),
{
    let category = if section.items.len() > 0 {
        href_to_category(section.items[0].href.as_str())
    } else {
        proof {
            reveal_strlit("");
            assert(""@ =~= Seq::<char>::empty());
        }
        href_to_category("")
    };
    let use_cases = match lookup(use_cases_map, item.href.as_str()) {
        Some(keywords) => keywords,
        None => lowercase(item.title.as_str()),
    };
    PageInfo {
        id: href_to_id(item.href.as_str(), category_map),
        title: item.title.clone(),
        category: category,
        category_title: section.title.clone(),
        use_cases: use_cases,
    }
}

/// The path of a page's whole document.
pub open spec fn document_path(info: PageInfoText) -> Seq<char> {
    info.category + "/"@ + info.id + ".md"@
}

/// The identifier of a chunk.
pub open spec fn chunk_id(info: PageInfoText, chunk: ChunkText) -> Seq<char> {
    info.id + "/"@ + chunk.slug
}

/// The path of a chunk's file.
pub open spec fn chunk_path(info: PageInfoText, chunk: ChunkText) -> Seq<char> {
    info.category + "/"@ + info.id + "/"@ + chunk.slug + ".md"@
}

/// The record of a page that is not split.
pub open spec fn single_record(info: PageInfoText) -> DocSectionText {
    DocSectionText {
        id: info.id,
        title: info.title,
        category: info.category,
        category_title: info.category_title,
        path: document_path(info),
        use_cases: info.use_cases,
        is_chunked: None,
        chunk_ids: None,
        parent_id: None,
    }
}

/// The record of one chunk of a page.
pub open spec fn chunk_record(info: PageInfoText, chunk: ChunkText, keywords: Seq<char>) -> DocSectionText {
    DocSectionText {
        id: chunk_id(info, chunk),
        title: chunk.title,
        category: info.category,
        category_title: info.category_title,
        path: chunk_path(info, chunk),
        use_cases: keywords,
        is_chunked: None,
        chunk_ids: None,
        parent_id: Some(info.id),
    }
}

/// The record of a page that is split, with the identifiers of its chunks.
pub open spec fn parent_record(info: PageInfoText, chunks: Seq<ChunkText>) -> DocSectionText {
    DocSectionText {
        id: info.id,
        title: info.title,
        category: info.category,
        category_title: info.category_title,
        path: document_path(info),
        use_cases: info.use_cases,
        is_chunked: Some(true),
        chunk_ids: Some(Seq::new(chunks.len(), |i: int| chunk_id(info, chunks[i]))),
        parent_id: None,
    }
}

/// The plan of a page that is not split: one file, one record.
pub open spec fn single_plan(info: PageInfoText, content: Seq<char>) -> PagePlanText {
    PagePlanText {
        files: seq![OutputFileText { path: document_path(info), content: content }],
        records: seq![single_record(info)],
    }
}

/// The plan of a page that is split: a file and a record for each chunk,
/// then the file of the whole document and the record of the page.
pub open spec fn chunked_plan(
    info: PageInfoText,
    content: Seq<char>,
    chunks: Seq<ChunkText>,
    keywords: Seq<Seq<char>>,
) -> PagePlanText {
    PagePlanText {
        files: Seq::new(
            chunks.len(),
            |i: int| OutputFileText { path: chunk_path(info, chunks[i]), content: chunks[i].content },
        ).push(OutputFileText { path: document_path(info), content: content }),
        records: Seq::new(chunks.len(), |i: int| chunk_record(info, chunks[i], keywords[i])).push(
            parent_record(info, chunks),
        ),
    }
}

fn path_of_document(info: &PageInfo) -> (r: String)
    ensures
        r@ == document_path(info@),
{
    info.category.clone().concat("/").concat(info.id.as_str()).concat(".md")
}

/// Plans a page that is not split.
pub fn plan_single(info: &PageInfo, content: &str) -> (r: PagePlan)
    ensures
        r@ == single_plan(info@, content@),
{
    let mut files: Vec<OutputFile> = Vec::new();
    files.push(OutputFile { path: path_of_document(info), content: String::from_str(content) });
    let mut records: Vec<DocSection> = Vec::new();
    records.push(
        DocSection {
            id: info.id.clone(),
            title: info.title.clone(),
            category: info.category.clone(),
            category_title: info.category_title.clone(),
            path: path_of_document(info),
            use_cases: info.use_cases.clone(),
            is_chunked: None,
            chunk_ids: None,
            parent_id: None,
        },
    );
    let r = PagePlan { files: files, records: records };
    proof {
        assert(r@.files =~= single_plan(info@, content@).files);
        assert(r@.records =~= single_plan(info@, content@).records);
    }
    r
}

/// Plans a page that is split into the given chunks, each with its keywords.
pub fn plan_chunked(info: &PageInfo, content: &str, chunks: &Vec<Chunk>, keywords: &Vec<String>) -> (r: PagePlan)
    requires
        keywords@.len() == chunks@.len(),
    ensures
        r@ == chunked_plan(info@, content@, chunk_texts(chunks@), views(keywords@)),
{
    let ghost ct = chunk_texts(chunks@);
    let ghost kv = views(keywords@);
    let ghost want = chunked_plan(info@, content@, ct, kv);
    let mut files: Vec<OutputFile> = Vec::new();
    let mut records: Vec<DocSection> = Vec::new();
    let mut ids: Vec<String> = Vec::new();
    let mut i: usize = 0;
    while i < chunks.len()
        invariant
            i <= chunks.len(),
            keywords@.len() == chunks@.len(),
            ct == chunk_texts(chunks@),
            kv == views(keywords@),
            want == chunked_plan(info@, content@, ct, kv),
            files@.len() == i,
            records@.len() == i,
            ids@.len() == i,
            forall|j: int| 0 <= j < i ==> (#[trigger] files@[j])@ == want.files[j],
            forall|j: int| 0 <= j < i ==> (#[trigger] records@[j])@ == want.records[j],
            forall|j: int| 0 <= j < i ==> (#[trigger] ids@[j])@ == chunk_id(info@, ct[j]),
        decreases chunks.len() - i,
    {
        let chunk = &chunks[i];
        assert(ct[i as int] == chunk@);
        assert(kv[i as int] == keywords@[i as int]@);
        let id = info.id.clone().concat("/").concat(chunk.slug.as_str());
        let path = info.category.clone().concat("/").concat(info.id.as_str()).concat("/").concat(
            chunk.slug.as_str(),
        ).concat(".md");
        files.push(OutputFile { path: path.clone(), content: chunk.content.clone() });
        ids.push(id.clone());
        records.push(
            DocSection {
                id: id,
                title: chunk.title.clone(),
                category: info.category.clone(),
                category_title: info.category_title.clone(),
                path: path,
                use_cases: keywords[i].clone(),
                is_chunked: None,
                chunk_ids: None,
                parent_id: Some(info.id.clone()),
            },
        );
        i = i + 1;
    }
    files.push(OutputFile { path: path_of_document(info), content: String::from_str(content) });
    proof {
        assert(views(ids@) =~= Seq::new(ct.len(), |i: int| chunk_id(info@, ct[i])));
    }
    records.push(
        DocSection {
            id: info.id.clone(),
            title: info.title.clone(),
            category: info.category.clone(),
            category_title: info.category_title.clone(),
            path: path_of_document(info),
            use_cases: info.use_cases.clone(),
            is_chunked: Some(true),
            chunk_ids: Some(ids),
            parent_id: None,
        },
    );
    let r = PagePlan { files: files, records: records };
    proof {
        assert(r@.files =~= want.files);
        assert(r@.records =~= want.records);
    }
    r
}

/// The keywords of the first `n` chunks; `None` where those of one of them
/// cannot be had.
pub open spec fn keywords_upto(chunks: Seq<ChunkText>, parent: Seq<char>, n: nat) -> Option<Seq<Seq<char>>>
    decreases n,
{
    if n == 0 {
        Some(Seq::empty())
    } else {
        match keywords_upto(chunks, parent, (n - 1) as nat) {
            None => None,
            Some(before) => match chunk_keywords(chunks[n - 1].content, parent) {
                None => None,
                Some(keywords) => Some(before.push(keywords)),
            },
        }
    }
}

/// The plan of a page. A page of at most `CHUNK_SIZE_THRESHOLD` characters is
/// not split; a longer one is split where that gives two chunks or more.
/// `None` where the pattern engine refuses a pattern.
pub open spec fn page_plan(info: PageInfoText, content: Seq<char>) -> Option<PagePlanText> {
    if content.len() <= CHUNK_SIZE_THRESHOLD {
        Some(single_plan(info, content))
    } else {
        match chunks_of(content, info.title) {
            None => None,
            Some(chunks) => if chunks.len() <= 1 {
                Some(single_plan(info, content))
            } else {
                match keywords_upto(chunks, info.use_cases, chunks.len()) {
                    None => None,
                    Some(keywords) => Some(chunked_plan(info, content, chunks, keywords)),
                }
            },
        }
    }
}

proof fn lemma_keywords_stay_missing(chunks: Seq<ChunkText>, parent: Seq<char>, m: nat, n: nat)
    requires
        m <= n,
        keywords_upto(chunks, parent, m) is None,
    ensures
        keywords_upto(chunks, parent, n) is None,
    decreases n,
{
    if m < n {
        lemma_keywords_stay_missing(chunks, parent, m, (n - 1) as nat);
    }
}

/// Plans what is written for a page.
pub fn plan_page(info: &PageInfo, content: &str) -> (r: Option<PagePlan>)
    ensures
        r.is_some() == page_plan(info@, content@).is_some(),
        r.is_some() ==> r.unwrap()@ == page_plan(info@, content@).unwrap(),
        content@.len() <= CHUNK_SIZE_THRESHOLD ==> r.is_some() && r.unwrap()@ == single_plan(info@, content@),
{
    if !should_chunk(content) {
        return Some(plan_single(info, content));
    }
    let chunks = match chunk_markdown(content, info.title.as_str()) {
        None => return None,
        Some(c) => c,
    };
    if chunks.len() <= 1 {
        return Some(plan_single(info, content));
    }
    let ghost ct = chunk_texts(chunks@);
    let mut keywords: Vec<String> = Vec::new();
    let mut i: usize = 0;
    proof {
        assert(views(keywords@) =~= Seq::empty());
    }
    while i < chunks.len()
        invariant
            i <= chunks.len(),
            ct == chunk_texts(chunks@),
            chunks@.len() > 1,
            content@.len() > CHUNK_SIZE_THRESHOLD,
            chunks_of(content@, info.title@) == Some(ct),
            keywords@.len() == i,
            keywords_upto(ct, info.use_cases@, i as nat) == Some(views(keywords@)),
        decreases chunks.len() - i,
    {
        assert(ct[i as int] == chunks@[i as int]@);
        let ghost before = views(keywords@);
        let k = match extract_chunk_use_cases(chunks[i].content.as_str(), info.use_cases.as_str()) {
            None => {
                proof {
                    assert(keywords_upto(ct, info.use_cases@, (i + 1) as nat) is None);
                    lemma_keywords_stay_missing(ct, info.use_cases@, (i + 1) as nat, ct.len());
                }
                return None;
            },
            Some(k) => k,
        };
        keywords.push(k);
        proof {
            assert(views(keywords@) =~= before.push(k@));
        }
        i = i + 1;
    }
    Some(plan_chunked(info, content, &chunks, &keywords))
}

/// A page of at most `CHUNK_SIZE_THRESHOLD` characters is never split: its
/// plan holds exactly one record, which names no chunk and no parent.
pub proof fn lemma_short_page_one_record(info: PageInfoText, content: Seq<char>)
    requires
        content.len() <= CHUNK_SIZE_THRESHOLD,
    ensures
        page_plan(info, content) is Some,
        page_plan(info, content).unwrap().records.len() == 1,
        page_plan(info, content).unwrap().records[0] == single_record(info),
        page_plan(info, content).unwrap().records[0].is_chunked is None,
        page_plan(info, content).unwrap().records[0].chunk_ids is None,
        page_plan(info, content).unwrap().records[0].parent_id is None,
{
}

/// A page that is split has one record for each of its chunks, each naming
/// the page as its parent, followed by exactly one record of the page, which
/// names the chunks in order.
pub proof fn lemma_split_page_records(
    info: PageInfoText,
    content: Seq<char>,
    chunks: Seq<ChunkText>,
    keywords: Seq<Seq<char>>,
)
    ensures
        chunked_plan(info, content, chunks, keywords).records.len() == chunks.len() + 1,
        chunked_plan(info, content, chunks, keywords).files.len() == chunks.len() + 1,
        forall|i: int|
            0 <= i < chunks.len() ==> (#[trigger] chunked_plan(info, content, chunks, keywords).records[i]).parent_id
                == Some(info.id) && chunked_plan(info, content, chunks, keywords).records[i].is_chunked is None,
        chunked_plan(info, content, chunks, keywords).records.last().is_chunked == Some(true),
        chunked_plan(info, content, chunks, keywords).records.last().parent_id is None,
        chunked_plan(info, content, chunks, keywords).records.last().chunk_ids.unwrap().len() == chunks.len(),
{
}

/// What is written for a page depends on the page's description and on its
/// content alone: the same page gives the same files and the same records.
pub proof fn lemma_same_page_same_plan(
    first: PageInfoText,
    first_content: Seq<char>,
    second: PageInfoText,
    second_content: Seq<char>,
)
    requires
        first == second,
        first_content == second_content,
    ensures
        page_plan(first, first_content) == page_plan(second, second_content),
{
}

} // verus!
