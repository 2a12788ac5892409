//! Splitting a large document at its second-level headings.

use vstd::prelude::*;
use vstd::string::*;
use crate::engine::{captures_of, group_views, match_groups, split_by, split_pieces, views};
use crate::slug::{header_slug, header_to_slug};
use crate::text::{trim, trimmed};

verus! {

/// A document longer than this many characters is split.
pub const CHUNK_SIZE_THRESHOLD: usize = 6000;

/// A piece shorter than this many characters does not stand alone.
pub const MIN_CHUNK_SIZE: usize = 500;

/// The shape of a line that is a second-level heading; its group is the
/// heading's text.
pub const HEADING_PATTERN: &'static str = "(?m)^## (.+)$";

/// A contiguous piece of a document.
pub struct Chunk {
    pub slug: String,
    pub title: String,
    pub content: String,
}

/// What a chunk holds, as texts.
pub struct ChunkText {
    pub slug: Seq<char>,
    pub title: Seq<char>,
    pub content: Seq<char>,
}

impl View for Chunk {
    type V = ChunkText;

    open spec fn view(&self) -> ChunkText {
        ChunkText { slug: self.slug@, title: self.title@, content: self.content@ }
    }
}

/// A second-level heading with the text that follows it, up to the next such
/// heading: the heading's text, its slug, and the trimmed text below it.
pub struct Segment {
    pub header: String,
    pub slug: String,
    pub body: String,
}

/// What a segment holds, as texts.
pub struct SegmentText {
    pub header: Seq<char>,
    pub slug: Seq<char>,
    pub body: Seq<char>,
}

impl View for Segment {
    type V = SegmentText;

    open spec fn view(&self) -> SegmentText {
        SegmentText { header: self.header@, slug: self.slug@, body: self.body@ }
    }
}

/// The views of a sequence of chunks.
pub open spec fn chunk_texts(v: Seq<Chunk>) -> Seq<ChunkText> {
    Seq::new(v.len(), |i: int| v[i]@)
}

/// The views of a sequence of segments.
pub open spec fn segment_texts(v: Seq<Segment>) -> Seq<SegmentText> {
    Seq::new(v.len(), |i: int| v[i]@)
}

/// Whether a document of this text is long enough to be split.
pub fn should_chunk(content: &str) -> (r: bool)
    ensures
        r == (content@.len() > CHUNK_SIZE_THRESHOLD),
{
    content.unicode_len() > CHUNK_SIZE_THRESHOLD
}

/// A segment written out again: the heading line, a blank line, the body.
pub open spec fn reconstructed(seg: SegmentText) -> Seq<char> {
    "## "@ + seg.header + "\n\n"@ + seg.body
}

/// The chunk that a segment makes when it stands alone.
pub open spec fn heading_chunk(seg: SegmentText, parent_title: Seq<char>) -> ChunkText {
    ChunkText { slug: seg.slug, title: parent_title + ": "@ + seg.header, content: reconstructed(seg) }
}

/// The chunk that opens a document.
pub open spec fn overview_chunk(content: Seq<char>, parent_title: Seq<char>) -> ChunkText {
    ChunkText { slug: "overview"@, title: parent_title + ": Overview"@, content: content }
}

/// The chunks before any segment is taken in: the lead, where it is long
/// enough to stand alone.
pub open spec fn lead_chunks(lead: Seq<char>, parent_title: Seq<char>) -> Seq<ChunkText> {
    if lead.len() >= MIN_CHUNK_SIZE {
        seq![overview_chunk(lead, parent_title)]
    } else {
        Seq::empty()
    }
}

/// Whether the lead is held back to be merged into the first chunk: it is
/// not empty and too short to stand alone.
pub open spec fn lead_is_intro(lead: Seq<char>) -> bool {
    0 < lead.len() < MIN_CHUNK_SIZE
}

/// The chunks after one more segment: a short segment is added to the chunk
/// before it, where there is one; any other segment stands alone.
pub open spec fn with_segment(chunks: Seq<ChunkText>, seg: SegmentText, parent_title: Seq<char>) -> Seq<ChunkText> {
    if reconstructed(seg).len() < MIN_CHUNK_SIZE && chunks.len() > 0 {
        let last = chunks.last();
        chunks.drop_last().push(
            ChunkText { slug: last.slug, title: last.title, content: last.content + "\n\n"@ + reconstructed(seg) },
        )
    } else {
        chunks.push(heading_chunk(seg, parent_title))
    }
}

/// The chunks after the first `n` segments.
pub open spec fn gathered(lead: Seq<char>, segments: Seq<SegmentText>, parent_title: Seq<char>, n: nat) -> Seq<ChunkText>
    decreases n,
{
    if n == 0 {
        lead_chunks(lead, parent_title)
    } else {
        with_segment(gathered(lead, segments, parent_title, (n - 1) as nat), segments[n - 1], parent_title)
    }
}

/// A held-back lead goes in front of the first chunk, which becomes the
/// overview; where there is no chunk, the lead alone is the overview.
pub open spec fn with_intro(chunks: Seq<ChunkText>, lead: Seq<char>, parent_title: Seq<char>) -> Seq<ChunkText> {
    if !lead_is_intro(lead) {
        chunks
    } else if chunks.len() == 0 {
        seq![overview_chunk(lead, parent_title)]
    } else {
        chunks.update(0, overview_chunk(lead + "\n\n"@ + chunks[0].content, parent_title))
    }
}

/// The chunks of a document, from its trimmed lead and its segments.
pub open spec fn assembled(lead: Seq<char>, segments: Seq<SegmentText>, parent_title: Seq<char>) -> Seq<ChunkText> {
    with_intro(gathered(lead, segments, parent_title, segments.len()), lead, parent_title)
}

fn reconstruct(seg: &Segment) -> (r: String)
    ensures
        r@ == reconstructed(seg@),
{
    String::from_str("## ").concat(seg.header.as_str()).concat("\n\n").concat(seg.body.as_str())
}

fn make_overview(content: String, parent_title: &str) -> (r: Chunk)
    ensures
        r@ == overview_chunk(content@, parent_title@),
{
    Chunk {
        slug: String::from_str("overview"),
        title: String::from_str(parent_title).concat(": Overview"),
        content: content,
    }
}

/// Builds the chunks of a document from its trimmed lead (the text before
/// the first second-level heading) and its segments.
pub fn assemble_chunks(lead: &str, segments: &Vec<Segment>, parent_title: &str) -> (r: Vec<Chunk>)
    ensures
        chunk_texts(r@) == assembled(lead@, segment_texts(segments@), parent_title@),
{
    let ghost segs = segment_texts(segments@);
    let lead_len: usize = lead.unicode_len();
    let mut chunks: Vec<Chunk> = Vec::new();
    if lead_len >= MIN_CHUNK_SIZE {
        chunks.push(make_overview(String::from_str(lead), parent_title));
    }
    proof {
        assert(chunk_texts(chunks@) =~= gathered(lead@, segs, parent_title@, 0));
    }
    let mut i: usize = 0;
    while i < segments.len()
        invariant
            i <= segments.len(),
            segs == segment_texts(segments@),
            chunk_texts(chunks@) == gathered(lead@, segs, parent_title@, i as nat),
        decreases segments.len() - i,
    {
        let seg = &segments[i];
        let ghost before = chunk_texts(chunks@);
        assert(segs[i as int] == seg@);
        let full = reconstruct(seg);
        if full.as_str().unicode_len() < MIN_CHUNK_SIZE && chunks.len() > 0 {
            let last = chunks.pop().unwrap();
            let merged = Chunk {
                slug: last.slug,
                title: last.title,
                content: last.content.concat("\n\n").concat(full.as_str()),
            };
            chunks.push(merged);
            proof {
                assert(chunk_texts(chunks@) =~= with_segment(before, seg@, parent_title@));
            }
        } else {
            chunks.push(
                Chunk {
                    slug: seg.slug.clone(),
                    title: String::from_str(parent_title).concat(": ").concat(seg.header.as_str()),
                    content: full,
                },
            );
            proof {
                assert(chunk_texts(chunks@) =~= with_segment(before, seg@, parent_title@));
            }
        }
        i = i + 1;
    }
    let ghost all = chunk_texts(chunks@);
    if lead_len > 0 && lead_len < MIN_CHUNK_SIZE {
        if chunks.len() == 0 {
            chunks.push(make_overview(String::from_str(lead), parent_title));
            proof {
                assert(chunk_texts(chunks@) =~= with_intro(all, lead@, parent_title@));
            }
        } else {
            let first = chunks.remove(0);
            let joined = String::from_str(lead).concat("\n\n").concat(first.content.as_str());
            chunks.insert(0, make_overview(joined, parent_title));
            proof {
                assert(chunk_texts(chunks@) =~= with_intro(all, lead@, parent_title@));
            }
        }
    }
    chunks
}

/// Where a document has a segment and every segment is long enough to stand
/// alone, each segment makes one
/// chunk, under its own slug and in document order, after one more chunk for
/// the lead where the lead is long enough to stand alone.
pub proof fn lemma_standalone_segments(lead: Seq<char>, segments: Seq<SegmentText>, parent_title: Seq<char>)
    requires
        segments.len() >= 1,
        forall|i: int| 0 <= i < segments.len() ==> reconstructed(#[trigger] segments[i]).len() >= MIN_CHUNK_SIZE,
    ensures
        assembled(lead, segments, parent_title).len() == segments.len() + (if lead.len() >= MIN_CHUNK_SIZE {
            1int
        } else {
            0int
        }),
        forall|i: int|
            0 <= i < segments.len() && !(i == 0 && lead_is_intro(lead)) ==> (#[trigger] assembled(
                lead,
                segments,
                parent_title,
            )[i + lead_chunks(lead, parent_title).len()]).slug == segments[i].slug,
        lead.len() > 0 && segments.len() > 0 ==> assembled(lead, segments, parent_title)[0].slug == "overview"@,
{
    lemma_gathered_standalone(lead, segments, parent_title, segments.len());
}

proof fn lemma_gathered_standalone(lead: Seq<char>, segments: Seq<SegmentText>, parent_title: Seq<char>, n: nat)
    requires
        n <= segments.len(),
        forall|i: int| 0 <= i < segments.len() ==> reconstructed(#[trigger] segments[i]).len() >= MIN_CHUNK_SIZE,
    ensures
        gathered(lead, segments, parent_title, n).len() == n + lead_chunks(lead, parent_title).len(),
        forall|i: int|
            0 <= i < n ==> (#[trigger] gathered(lead, segments, parent_title, n)[i + lead_chunks(
                lead,
                parent_title,
            ).len()]) == heading_chunk(segments[i], parent_title),
        lead.len() >= MIN_CHUNK_SIZE ==> gathered(lead, segments, parent_title, n)[0] == overview_chunk(
            lead,
            parent_title,
        ),
    decreases n,
{
    if n > 0 {
        lemma_gathered_standalone(lead, segments, parent_title, (n - 1) as nat);
        let before = gathered(lead, segments, parent_title, (n - 1) as nat);
        let after = gathered(lead, segments, parent_title, n);
        let seg = segments[n - 1];
        assert(reconstructed(seg).len() >= MIN_CHUNK_SIZE);
        assert(after == before.push(heading_chunk(seg, parent_title)));
        let k = lead_chunks(lead, parent_title).len();
        assert forall|i: int| 0 <= i < n implies (#[trigger] after[i + k]) == heading_chunk(
            segments[i],
            parent_title,
        ) by {
            if i < n - 1 {
                assert(after[i + k] == before[i + k]);
            }
        }
    }
}

/// The contents of a sequence of chunks.
pub open spec fn contents(chunks: Seq<ChunkText>) -> Seq<Seq<char>> {
    Seq::new(chunks.len(), |i: int| chunks[i].content)
}

/// The texts written one after the other, with a blank line between them.
pub open spec fn spread(texts: Seq<Seq<char>>) -> Seq<char>
    decreases texts.len(),
{
    if texts.len() == 0 {
        Seq::empty()
    } else if texts.len() == 1 {
        texts[0]
    } else {
        spread(texts.drop_last()) + "\n\n"@ + texts.last()
    }
}

/// The first `n` segments, each written out again.
pub open spec fn written_out(segments: Seq<SegmentText>, n: nat) -> Seq<Seq<char>> {
    Seq::new(n, |i: int| reconstructed(segments[i]))
}

/// The texts that a document is made of: its lead, where it has one, and its
/// segments, each written out again.
pub open spec fn pieces(lead: Seq<char>, segments: Seq<SegmentText>) -> Seq<Seq<char>> {
    if lead.len() > 0 {
        seq![lead] + written_out(segments, segments.len())
    } else {
        written_out(segments, segments.len())
    }
}

proof fn lemma_gathered_sizes(lead: Seq<char>, segments: Seq<SegmentText>, parent_title: Seq<char>, n: nat)
    requires
        n <= segments.len(),
    ensures
        gathered(lead, segments, parent_title, n).len() == 0 <==> n == 0 && lead.len() < MIN_CHUNK_SIZE,
        forall|i: int|
            1 <= i < gathered(lead, segments, parent_title, n).len() ==> (#[trigger] gathered(
                lead,
                segments,
                parent_title,
                n,
            )[i]).content.len() >= MIN_CHUNK_SIZE,
    decreases n,
{
    if n > 0 {
        lemma_gathered_sizes(lead, segments, parent_title, (n - 1) as nat);
        let before = gathered(lead, segments, parent_title, (n - 1) as nat);
        let after = gathered(lead, segments, parent_title, n);
        assert(after == with_segment(before, segments[n - 1], parent_title));
        assert forall|i: int| 1 <= i < after.len() implies (#[trigger] after[i]).content.len()
            >= MIN_CHUNK_SIZE by {
            if i < before.len() - 1 {
                assert(after[i] == before[i]);
            } else if after.len() == before.len() {
                assert(after[i].content.len() >= before[i].content.len());
            }
        }
    }
}

/// Only the first chunk of a document can be short: every chunk after it
/// has at least `MIN_CHUNK_SIZE` characters.
pub proof fn lemma_later_chunks_not_short(lead: Seq<char>, segments: Seq<SegmentText>, parent_title: Seq<char>)
    ensures
        forall|i: int|
            1 <= i < assembled(lead, segments, parent_title).len() ==> (#[trigger] assembled(
                lead,
                segments,
                parent_title,
            )[i]).content.len() >= MIN_CHUNK_SIZE,
{
    lemma_gathered_sizes(lead, segments, parent_title, segments.len());
}

proof fn lemma_spread_push(texts: Seq<Seq<char>>, x: Seq<char>)
    ensures
        spread(texts.push(x)) == if texts.len() == 0 {
            x
        } else {
            spread(texts) + "\n\n"@ + x
        },
{
    assert(texts.push(x).drop_last() =~= texts);
}

proof fn lemma_spread_first_grown(texts: Seq<Seq<char>>, x: Seq<char>)
    requires
        texts.len() > 0,
    ensures
        spread(texts.update(0, x + texts[0])) == x + spread(texts),
    decreases texts.len(),
{
    let grown = texts.update(0, x + texts[0]);
    if texts.len() > 1 {
        let shorter = texts.drop_last();
        lemma_spread_first_grown(shorter, x);
        assert(grown.drop_last() =~= shorter.update(0, x + shorter[0]));
        assert(spread(grown) =~= x + spread(texts));
    }
}

proof fn lemma_spread_front(x: Seq<char>, texts: Seq<Seq<char>>)
    requires
        texts.len() > 0,
    ensures
        spread(seq![x] + texts) == x + "\n\n"@ + spread(texts),
    decreases texts.len(),
{
    let all = seq![x] + texts;
    assert(all.drop_last() =~= seq![x] + texts.drop_last());
    assert(all.last() == texts.last());
    if texts.len() > 1 {
        lemma_spread_front(x, texts.drop_last());
        assert(spread(all) =~= x + "\n\n"@ + spread(texts));
    } else {
        assert(all.drop_last() =~= seq![x]);
        assert(spread(seq![x]) == x);
        assert(spread(texts) == texts[0]);
        assert(spread(all) =~= x + "\n\n"@ + spread(texts));
    }
}

proof fn lemma_gathered_keeps_text(lead: Seq<char>, segments: Seq<SegmentText>, parent_title: Seq<char>, n: nat)
    requires
        n <= segments.len(),
    ensures
        spread(contents(gathered(lead, segments, parent_title, n))) == if lead.len() >= MIN_CHUNK_SIZE {
            spread(seq![lead] + written_out(segments, n))
        } else {
            spread(written_out(segments, n))
        },
    decreases n,
{
    let sep = "\n\n"@;
    if n == 0 {
        assert(written_out(segments, 0) =~= Seq::empty());
        if lead.len() >= MIN_CHUNK_SIZE {
            assert(contents(gathered(lead, segments, parent_title, 0)) =~= seq![lead]);
            assert(seq![lead] + written_out(segments, 0) =~= seq![lead]);
        } else {
            assert(contents(gathered(lead, segments, parent_title, 0)) =~= Seq::empty());
        }
    } else {
        let m = (n - 1) as nat;
        lemma_gathered_keeps_text(lead, segments, parent_title, m);
        lemma_gathered_sizes(lead, segments, parent_title, m);
        let before = gathered(lead, segments, parent_title, m);
        let after = gathered(lead, segments, parent_title, n);
        let full = reconstructed(segments[n - 1]);
        assert(after == with_segment(before, segments[n - 1], parent_title));
        assert(written_out(segments, n) =~= written_out(segments, m).push(full));
        let old_texts = if lead.len() >= MIN_CHUNK_SIZE {
            seq![lead] + written_out(segments, m)
        } else {
            written_out(segments, m)
        };
        let new_texts = if lead.len() >= MIN_CHUNK_SIZE {
            seq![lead] + written_out(segments, n)
        } else {
            written_out(segments, n)
        };
        assert(new_texts =~= old_texts.push(full));
        lemma_spread_push(old_texts, full);
        assert((old_texts.len() == 0) == (before.len() == 0));
        if full.len() < MIN_CHUNK_SIZE && before.len() > 0 {
            let last = before.last().content;
            assert(contents(after) =~= contents(before).drop_last().push(last + sep + full));
            lemma_spread_push(contents(before).drop_last(), last + sep + full);
            assert(contents(before).last() == last);
            assert(spread(contents(after)) =~= spread(contents(before)) + sep + full);
        } else {
            assert(contents(after) =~= contents(before).push(full));
            lemma_spread_push(contents(before), full);
        }
    }
}

/// No text is lost: the contents of the chunks of a document, written one
/// after the other with a blank line between them, are the document's lead
/// and its segments written in the same way.
pub proof fn lemma_no_text_lost(lead: Seq<char>, segments: Seq<SegmentText>, parent_title: Seq<char>)
    ensures
        spread(contents(assembled(lead, segments, parent_title))) == spread(pieces(lead, segments)),
{
    let n = segments.len();
    let all = gathered(lead, segments, parent_title, n);
    let texts = written_out(segments, n);
    lemma_gathered_keeps_text(lead, segments, parent_title, n);
    lemma_gathered_sizes(lead, segments, parent_title, n);
    if lead_is_intro(lead) {
        if all.len() == 0 {
            assert(texts =~= Seq::empty());
            assert(seq![lead] + texts =~= seq![lead]);
            assert(contents(assembled(lead, segments, parent_title)) =~= seq![lead]);
        } else {
            assert(contents(assembled(lead, segments, parent_title)) =~= contents(all).update(
                0,
                (lead + "\n\n"@) + contents(all)[0],
            ));
            lemma_spread_first_grown(contents(all), lead + "\n\n"@);
            lemma_spread_front(lead, texts);
        }
    }
}

/// The segment of the match at position `i`: its heading is the match's
/// first group, its body the trimmed piece that follows the match. `None`
/// where the heading's slug cannot be had.
pub open spec fn segment_at(parts: Seq<Seq<char>>, groups: Seq<Seq<Seq<char>>>, i: int) -> Option<SegmentText> {
    let header = if groups[i].len() > 1 {
        groups[i][1]
    } else {
        Seq::empty()
    };
    match header_slug(header) {
        None => None,
        Some(slug) => Some(
            SegmentText {
                header: header,
                slug: slug,
                body: if i + 1 < parts.len() {
                    trimmed(parts[i + 1])
                } else {
                    Seq::empty()
                },
            },
        ),
    }
}

/// The segments of the first `n` matches; `None` where one of them cannot be
/// had.
pub open spec fn segments_upto(parts: Seq<Seq<char>>, groups: Seq<Seq<Seq<char>>>, n: nat) -> Option<Seq<SegmentText>>
    decreases n,
{
    if n == 0 {
        Some(Seq::empty())
    } else {
        match segments_upto(parts, groups, (n - 1) as nat) {
            None => None,
            Some(before) => match segment_at(parts, groups, n - 1) {
                None => None,
                Some(seg) => Some(before.push(seg)),
            },
        }
    }
}

/// The lead of a document: the trimmed first piece.
pub open spec fn lead_of(parts: Seq<Seq<char>>) -> Seq<char> {
    if parts.len() > 0 {
        trimmed(parts[0])
    } else {
        Seq::empty()
    }
}

/// The chunks of a markdown text: it is split at the lines that are a
/// second-level heading, and the lead and the segments are assembled.
/// `None` where the pattern engine refuses a pattern.
pub open spec fn chunks_of(markdown: Seq<char>, parent_title: Seq<char>) -> Option<Seq<ChunkText>> {
    match split_pieces(HEADING_PATTERN@, markdown) {
        None => None,
        Some(parts) => match match_groups(HEADING_PATTERN@, markdown) {
            None => None,
            Some(groups) => match segments_upto(parts, groups, groups.len()) {
                None => None,
                Some(segments) => Some(assembled(lead_of(parts), segments, parent_title)),
            },
        },
    }
}

proof fn lemma_segments_stay_missing(parts: Seq<Seq<char>>, groups: Seq<Seq<Seq<char>>>, m: nat, n: nat)
    requires
        m <= n,
        segments_upto(parts, groups, m) is None,
    ensures
        segments_upto(parts, groups, n) is None,
    decreases n,
{
    if m < n {
        lemma_segments_stay_missing(parts, groups, m, (n - 1) as nat);
    }
}

/// Splits a markdown document into chunks at its second-level headings.
pub fn chunk_markdown(markdown: &str, parent_title: &str) -> (r: Option<Vec<Chunk>>)
    ensures
        r.is_some() == chunks_of(markdown@, parent_title@).is_some(),
        r.is_some() ==> chunk_texts(r.unwrap()@) == chunks_of(markdown@, parent_title@).unwrap(),
{
    let parts = match split_by(HEADING_PATTERN, markdown) {
        None => return None,
        Some(p) => p,
    };
    let groups = match captures_of(HEADING_PATTERN, markdown) {
        None => return None,
        Some(g) => g,
    };
    let ghost pv = views(parts@);
    let ghost gv = group_views(groups@);
    let lead = if parts.len() > 0 {
        trim(parts[0].as_str())
    } else {
        String::new()
    };
    let mut segments: Vec<Segment> = Vec::new();
    let mut i: usize = 0;
    proof {
        assert(segment_texts(segments@) =~= Seq::empty());
    }
    while i < groups.len()
        invariant
            i <= groups.len(),
            pv == views(parts@),
            gv == group_views(groups@),
            split_pieces(HEADING_PATTERN@, markdown@) == Some(pv),
            match_groups(HEADING_PATTERN@, markdown@) == Some(gv),
            segments_upto(pv, gv, i as nat) == Some(segment_texts(segments@)),
        decreases groups.len() - i,
    {
        let header = if groups[i].len() > 1 {
            groups[i][1].clone()
        } else {
            String::new()
        };
        assert(header@ == if gv[i as int].len() > 1 {
            gv[i as int][1]
        } else {
            Seq::empty()
        });
        let slug = match header_to_slug(header.as_str()) {
            None => {
                proof {
                    assert(segments_upto(pv, gv, (i + 1) as nat) is None);
                    lemma_segments_stay_missing(pv, gv, (i + 1) as nat, gv.len());
                }
                return None;
            },
            Some(s) => s,
        };
        let body = if i + 1 < parts.len() {
            trim(parts[i + 1].as_str())
        } else {
            String::new()
        };
        let ghost before = segment_texts(segments@);
        let seg = Segment { header: header, slug: slug, body: body };
        proof {
            assert(segment_at(pv, gv, i as int) == Some(seg@));
        }
        segments.push(seg);
        proof {
            assert(segment_texts(segments@) =~= before.push(seg@));
        }
        i = i + 1;
    }
    Some(assemble_chunks(lead.as_str(), &segments, parent_title))
}

} // verus!
