use docs_extract::chunk::Chunk;
use docs_extract::keywords::{extract_chunk_use_cases, keywords_from_matches};
use docs_extract::manifest::{choose_content, describe_page, plan_chunked, plan_page, plan_single, ContentChoice, PageInfo};
use docs_extract::nav::{NavItem, NavSection};
use docs_extract::tables::{get_category_id_map, get_use_cases_map};

fn info() -> PageInfo {
    PageInfo {
        id: "expand-sync".to_string(),
        title: "Guide".to_string(),
        category: "api".to_string(),
        category_title: "API Reference".to_string(),
        use_cases: "expandSync, expand, transform".to_string(),
    }
}

#[test]
fn authored_source_wins_over_the_rendered_page() {
    assert_eq!(choose_content(true, true, true), ContentChoice::Authored);
    assert_eq!(choose_content(true, false, false), ContentChoice::Authored);
    assert_eq!(choose_content(true, true, false), ContentChoice::Authored);
}

#[test]
fn page_in_neither_tree_is_passed_over() {
    assert_eq!(choose_content(false, true, false), ContentChoice::SkipNotFound);
    assert_eq!(choose_content(false, false, false), ContentChoice::SkipNoRendered);
    assert_eq!(choose_content(false, false, true), ContentChoice::SkipNoRendered);
    assert_eq!(choose_content(false, true, true), ContentChoice::Rendered);
}

#[test]
fn short_page_has_one_file_and_one_record() {
    for content in [String::new(), "# T\n\ntext".to_string(), format!("## A\n\n{}\n\n## B\n\n{}", "x".repeat(2000), "y".repeat(3900))] {
        assert!(content.chars().count() <= 6000);
        let plan = plan_page(&info(), &content).expect("the patterns are valid");
        assert_eq!(plan.files.len(), 1);
        assert_eq!(plan.files[0].path, "api/expand-sync.md");
        assert_eq!(plan.files[0].content, content);
        assert_eq!(plan.records.len(), 1);
        let r = &plan.records[0];
        assert_eq!(r.id, "expand-sync");
        assert_eq!(r.title, "Guide");
        assert_eq!(r.category, "api");
        assert_eq!(r.category_title, "API Reference");
        assert_eq!(r.path, "api/expand-sync.md");
        assert_eq!(r.use_cases, "expandSync, expand, transform");
        assert_eq!(r.is_chunked, None);
        assert_eq!(r.chunk_ids, None);
        assert_eq!(r.parent_id, None);
    }
}

#[test]
fn long_page_with_two_headings_has_three_records() {
    let head = format!("## Setup\n\n{}\n\n## Advanced Usage\n\n", "a".repeat(400));
    let doc = format!("{}Call `expandSync` now. {}", head, "b".repeat(7000 - head.len() - 23));
    assert_eq!(doc.len(), 7000);
    let plan = plan_page(&info(), &doc).expect("the patterns are valid");
    assert_eq!(plan.records.len(), 3);
    assert_eq!(plan.files.len(), 3);
    assert_eq!(plan.files[0].path, "api/expand-sync/setup.md");
    assert_eq!(plan.files[0].content, format!("## Setup\n\n{}", "a".repeat(400)));
    assert_eq!(plan.files[1].path, "api/expand-sync/advanced-usage.md");
    assert_eq!(plan.files[2].path, "api/expand-sync.md");
    assert_eq!(plan.files[2].content, doc);
    let first = &plan.records[0];
    assert_eq!(first.id, "expand-sync/setup");
    assert_eq!(first.title, "Guide: Setup");
    assert_eq!(first.category, "api");
    assert_eq!(first.category_title, "API Reference");
    assert_eq!(first.path, "api/expand-sync/setup.md");
    assert_eq!(first.use_cases, "expandSync, expand");
    assert_eq!(first.is_chunked, None);
    assert_eq!(first.chunk_ids, None);
    assert_eq!(first.parent_id, Some("expand-sync".to_string()));
    let second = &plan.records[1];
    assert_eq!(second.id, "expand-sync/advanced-usage");
    assert_eq!(second.use_cases, "expandSync, expand, expandsync");
    assert_eq!(second.parent_id, Some("expand-sync".to_string()));
    let parent = &plan.records[2];
    assert_eq!(parent.id, "expand-sync");
    assert_eq!(parent.title, "Guide");
    assert_eq!(parent.path, "api/expand-sync.md");
    assert_eq!(parent.use_cases, "expandSync, expand, transform");
    assert_eq!(parent.is_chunked, Some(true));
    assert_eq!(parent.chunk_ids, Some(vec!["expand-sync/setup".to_string(), "expand-sync/advanced-usage".to_string()]));
    assert_eq!(parent.parent_id, None);
}

#[test]
fn long_page_that_gives_one_chunk_is_not_split() {
    let doc = "word ".repeat(1500);
    let plan = plan_page(&info(), &doc).expect("the patterns are valid");
    assert_eq!(plan.records.len(), 1);
    assert_eq!(plan.files.len(), 1);
    assert_eq!(plan.records[0].is_chunked, None);
    let doc = format!("## Only\n\n{}", "x".repeat(7000));
    let plan = plan_page(&info(), &doc).expect("the patterns are valid");
    assert_eq!(plan.records.len(), 1);
    assert_eq!(plan.records[0].id, "expand-sync");
}

#[test]
fn planning_twice_gives_the_same_plan() {
    let doc = format!("Lead.\n\n## A\n\n{}\n\n## B\n\n{}", "x".repeat(3000), "y".repeat(3500));
    let a = plan_page(&info(), &doc).expect("the patterns are valid");
    let b = plan_page(&info(), &doc).expect("the patterns are valid");
    assert_eq!(a.files.len(), b.files.len());
    for (x, y) in a.files.iter().zip(b.files.iter()) {
        assert_eq!(x.path, y.path);
        assert_eq!(x.content, y.content);
    }
    for (x, y) in a.records.iter().zip(b.records.iter()) {
        assert_eq!(x.id, y.id);
        assert_eq!(x.path, y.path);
        assert_eq!(x.use_cases, y.use_cases);
        assert_eq!(x.chunk_ids, y.chunk_ids);
    }
    let ids: Vec<&str> = a.records.iter().map(|r| r.id.as_str()).collect();
    assert_eq!(ids, vec!["expand-sync/overview", "expand-sync/b", "expand-sync"]);
}

#[test]
fn plans_from_given_parts() {
    let plan = plan_single(&info(), "text");
    assert_eq!(plan.files.len(), 1);
    assert_eq!(plan.records[0].path, "api/expand-sync.md");
    let chunks = vec![
        Chunk { slug: "a".to_string(), title: "Guide: A".to_string(), content: "ca".to_string() },
        Chunk { slug: "b".to_string(), title: "Guide: B".to_string(), content: "cb".to_string() },
    ];
    let keywords = vec!["ka".to_string(), "kb".to_string()];
    let plan = plan_chunked(&info(), "whole", &chunks, &keywords);
    assert_eq!(plan.files.len(), 3);
    assert_eq!(plan.files[1].path, "api/expand-sync/b.md");
    assert_eq!(plan.files[1].content, "cb");
    assert_eq!(plan.files[2].content, "whole");
    assert_eq!(plan.records[1].id, "expand-sync/b");
    assert_eq!(plan.records[1].title, "Guide: B");
    assert_eq!(plan.records[1].use_cases, "kb");
    assert_eq!(plan.records[2].chunk_ids, Some(vec!["expand-sync/a".to_string(), "expand-sync/b".to_string()]));
}

#[test]
fn page_is_described_from_its_section() {
    let item = |t: &str, h: &str| NavItem { title: t.to_string(), href: h.to_string() };
    let section = NavSection {
        title: "Core Concepts".to_string(),
        items: vec![item("How Macros Work", "/docs/concepts"), item("Derive System", "/docs/concepts/derive-system")],
    };
    let use_cases = get_use_cases_map();
    let ids = get_category_id_map();
    let got = describe_page(&section.items[0], &section, &use_cases, &ids);
    assert_eq!(got.id, "how-macros-work");
    assert_eq!(got.title, "How Macros Work");
    assert_eq!(got.category, "concepts");
    assert_eq!(got.category_title, "Core Concepts");
    assert_eq!(got.use_cases, "architecture, overview, understanding, basics, fundamentals");
    let got = describe_page(&section.items[1], &section, &use_cases, &ids);
    assert_eq!(got.id, "derive-system");
    assert_eq!(got.use_cases, "@derive, decorator, annotation, derive macro");
    let other = item("Brand New Page", "/docs/elsewhere/new-page");
    let got = describe_page(&other, &section, &use_cases, &ids);
    assert_eq!(got.id, "new-page");
    assert_eq!(got.category, "concepts");
    assert_eq!(got.use_cases, "brand new page");
}

#[test]
fn chunk_keywords_start_with_two_of_the_parent() {
    assert_eq!(
        extract_chunk_use_cases("Use `expandSync` or `x` or `foo bar` or `Tool`.", "api, functions, exports"),
        Some("api, functions, expandsync, tool".to_string())
    );
    assert_eq!(extract_chunk_use_cases("no code", "single"), Some("single".to_string()));
    assert_eq!(extract_chunk_use_cases("no code", ""), Some(String::new()));
    assert_eq!(extract_chunk_use_cases("no code", " a ,b"), Some("a, b".to_string()));
}

#[test]
fn chunk_keywords_are_capped_and_not_repeated_in_a_row() {
    assert_eq!(extract_chunk_use_cases("`same` `same` `other` `same`", "same, same"), Some("same, other, same".to_string()));
    assert_eq!(
        extract_chunk_use_cases("`one` `two` `three` `four` `five` `six`", "p1, p2, p3"),
        Some("p1, p2, one, two, three, four".to_string())
    );
    let long = "x".repeat(30);
    let fits = "y".repeat(29);
    assert_eq!(
        extract_chunk_use_cases(&format!("`{}` `{}` `ab` `abc`", long, fits), "p"),
        Some(format!("p, {}, abc", fits))
    );
}

#[test]
fn keywords_from_given_matches() {
    let m = |whole: &str, inner: &str| vec![whole.to_string(), inner.to_string()];
    let matches = vec![m("`Alpha`", "Alpha"), m("`b`", "b"), m("`Gamma`", "Gamma")];
    assert_eq!(keywords_from_matches(&matches, "k1,k2,k3"), "k1, k2, alpha, gamma");
    assert_eq!(keywords_from_matches(&Vec::new(), "k1"), "k1");
}
