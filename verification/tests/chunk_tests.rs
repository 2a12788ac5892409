use docs_extract::chunk::{assemble_chunks, chunk_markdown, should_chunk, Segment, CHUNK_SIZE_THRESHOLD, MIN_CHUNK_SIZE};

fn chunks(markdown: &str, title: &str) -> Vec<(String, String, String)> {
    chunk_markdown(markdown, title)
        .expect("the heading pattern is valid")
        .into_iter()
        .map(|c| (c.slug, c.title, c.content))
        .collect()
}

fn segment(header: &str, slug: &str, body: &str) -> Segment {
    Segment { header: header.to_string(), slug: slug.to_string(), body: body.to_string() }
}

#[test]
fn limits_are_as_documented() {
    assert_eq!(CHUNK_SIZE_THRESHOLD, 6000);
    assert_eq!(MIN_CHUNK_SIZE, 500);
}

#[test]
fn should_chunk_only_above_the_threshold() {
    assert!(!should_chunk(""));
    assert!(!should_chunk(&"a".repeat(6000)));
    assert!(should_chunk(&"a".repeat(6001)));
}

#[test]
fn should_chunk_counts_characters() {
    assert!(!should_chunk(&"é".repeat(6000)));
    assert!(should_chunk(&"é".repeat(6001)));
}

#[test]
fn two_headings_without_lead_make_two_chunks() {
    let setup = "a".repeat(400);
    let head = format!("## Setup\n\n{}\n\n## Advanced Usage\n\n", setup);
    let advanced = "b".repeat(7000 - head.len());
    let doc = format!("{}{}", head, advanced);
    assert_eq!(doc.len(), 7000);
    let got = chunks(&doc, "Guide");
    assert_eq!(got.len(), 2);
    assert_eq!(got[0].0, "setup");
    assert_eq!(got[0].1, "Guide: Setup");
    assert_eq!(got[0].2, format!("## Setup\n\n{}", setup));
    assert_eq!(got[1].0, "advanced-usage");
    assert_eq!(got[1].1, "Guide: Advanced Usage");
    assert_eq!(got[1].2, format!("## Advanced Usage\n\n{}", advanced));
}

#[test]
fn long_lead_becomes_the_overview() {
    let lead = "l".repeat(500);
    let body = "x".repeat(600);
    let doc = format!("{}\n\n## One\n\n{}\n\n## Two\n\n{}\n", lead, body, body);
    let got = chunks(&doc, "Page");
    assert_eq!(got.len(), 3);
    assert_eq!(got[0], ("overview".to_string(), "Page: Overview".to_string(), lead));
    assert_eq!(got[1].0, "one");
    assert_eq!(got[2].0, "two");
    assert_eq!(got[2].2, format!("## Two\n\n{}", body));
}

#[test]
fn short_lead_is_merged_into_the_first_chunk() {
    let body = "x".repeat(600);
    let doc = format!("Intro text.\n\n## One\n\n{}\n\n## Two\n\n{}", body, body);
    let got = chunks(&doc, "Page");
    assert_eq!(got.len(), 2);
    assert_eq!(got[0].0, "overview");
    assert_eq!(got[0].1, "Page: Overview");
    assert_eq!(got[0].2, format!("Intro text.\n\n## One\n\n{}", body));
    assert_eq!(got[1].0, "two");
    assert_eq!(got[1].1, "Page: Two");
}

#[test]
fn short_first_segment_after_a_short_lead_stands_alone_until_the_merge() {
    let body = "x".repeat(600);
    let doc = format!("Intro.\n\n## Tiny\n\nsmall\n\n## Big\n\n{}", body);
    let got = chunks(&doc, "P");
    assert_eq!(got.len(), 2);
    assert_eq!(got[0].0, "overview");
    assert_eq!(got[0].2, "Intro.\n\n## Tiny\n\nsmall");
    assert_eq!(got[1].0, "big");
}

#[test]
fn short_segment_is_added_to_the_chunk_before_it() {
    let body = "x".repeat(600);
    let doc = format!("## Big\n\n{}\n\n## Tiny\n\nsmall\n\n## Last\n\n{}", body, body);
    let got = chunks(&doc, "P");
    assert_eq!(got.len(), 2);
    assert_eq!(got[0].0, "big");
    assert_eq!(got[0].1, "P: Big");
    assert_eq!(got[0].2, format!("## Big\n\n{}\n\n## Tiny\n\nsmall", body));
    assert_eq!(got[1].0, "last");
}

#[test]
fn segment_of_exactly_the_minimum_stands_alone() {
    let big = "x".repeat(600);
    let exact = "y".repeat(500 - "## B\n\n".len());
    let doc = format!("## A\n\n{}\n\n## B\n\n{}", big, exact);
    let got = chunks(&doc, "P");
    assert_eq!(got.len(), 2);
    assert_eq!(got[1].2.chars().count(), 500);
    let short = "y".repeat(499 - "## B\n\n".len());
    let doc = format!("## A\n\n{}\n\n## B\n\n{}", big, short);
    assert_eq!(chunks(&doc, "P").len(), 1);
}

#[test]
fn document_without_headings_is_one_chunk() {
    let got = chunks(&"word ".repeat(2000), "P");
    assert_eq!(got.len(), 1);
    assert_eq!(got[0].0, "overview");
    let got = chunks("short", "P");
    assert_eq!(got, vec![("overview".to_string(), "P: Overview".to_string(), "short".to_string())]);
    assert_eq!(chunks("", "P").len(), 0);
}

#[test]
fn only_second_level_heading_lines_split() {
    let body = "x".repeat(600);
    let doc = format!("## A\n\n{}\n### Sub\n{}\n # not\n##\n## B\n\n{}", body, body, body);
    let got = chunks(&doc, "P");
    assert_eq!(got.len(), 2);
    assert_eq!(got[0].0, "a");
    assert_eq!(got[1].0, "b");
}

#[test]
fn every_long_segment_is_a_chunk_under_its_slug() {
    let body = "x".repeat(500);
    let headers = ["Alpha", "Beta Gamma", "Using `code`", "Last One"];
    let mut doc = "l".repeat(500);
    for h in headers {
        doc.push_str(&format!("\n\n## {}\n\n{}", h, body));
    }
    let got = chunks(&doc, "T");
    assert_eq!(got.len(), headers.len() + 1);
    let slugs: Vec<&str> = got.iter().map(|c| c.0.as_str()).collect();
    assert_eq!(slugs, vec!["overview", "alpha", "beta-gamma", "using-code", "last-one"]);
    let mut doc = String::new();
    for h in headers {
        doc.push_str(&format!("## {}\n\n{}\n\n", h, body));
    }
    assert_eq!(chunks(&doc, "T").len(), headers.len());
}

#[test]
fn assemble_chunks_from_segments() {
    let long = "x".repeat(600);
    let segments = vec![segment("One", "one", &long), segment("Two", "two", "tiny"), segment("Three", "three", &long)];
    let got = assemble_chunks("", &segments, "T");
    assert_eq!(got.len(), 2);
    assert_eq!(got[0].slug, "one");
    assert_eq!(got[0].title, "T: One");
    assert_eq!(got[0].content, format!("## One\n\n{}\n\n## Two\n\ntiny", long));
    assert_eq!(got[1].slug, "three");
    let got = assemble_chunks("lead", &Vec::new(), "T");
    assert_eq!(got.len(), 1);
    assert_eq!(got[0].slug, "overview");
    assert_eq!(got[0].title, "T: Overview");
    assert_eq!(got[0].content, "lead");
    assert_eq!(assemble_chunks("", &Vec::new(), "T").len(), 0);
}

#[test]
fn only_the_first_chunk_can_be_short() {
    let long = "x".repeat(700);
    let docs = [
        format!("## A\n\ntiny\n\n## B\n\n{}\n\n## C\n\nsmall\n\n## D\n\n{}", long, long),
        format!("Intro.\n\n## A\n\ntiny\n\n## B\n\nsmall\n\n## C\n\n{}", long),
        format!("{}\n\n## A\n\ntiny\n\n## B\n\n{}\n\n## C\n\nend", long, long),
    ];
    for doc in docs {
        let got = chunks(&doc, "P");
        assert!(got.len() >= 2);
        for chunk in &got[1..] {
            assert!(chunk.2.chars().count() >= 500);
        }
    }
}

#[test]
fn no_text_is_lost_by_merging() {
    let long = "x".repeat(700);
    let segments = vec![
        segment("A", "a", "tiny"),
        segment("B", "b", "small"),
        segment("C", "c", &long),
        segment("D", "d", "end"),
    ];
    let written: Vec<String> = segments.iter().map(|s| format!("## {}\n\n{}", s.header, s.body)).collect();
    for lead in ["", "Intro.", long.as_str()] {
        let got: Vec<String> = assemble_chunks(lead, &segments, "P").into_iter().map(|c| c.content).collect();
        let mut pieces: Vec<String> = Vec::new();
        if !lead.is_empty() {
            pieces.push(lead.to_string());
        }
        pieces.extend(written.iter().cloned());
        assert_eq!(got.join("\n\n"), pieces.join("\n\n"));
    }
    assert_eq!(assemble_chunks("", &segments, "P").len(), 2);
    assert_eq!(assemble_chunks("Intro.", &segments, "P").len(), 2);
    assert_eq!(assemble_chunks(&long, &segments, "P").len(), 2);
}
