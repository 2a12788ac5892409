use docs_extract::slug::{header_to_slug, slug_from_lowered};

fn slug(header: &str) -> String {
    header_to_slug(header).expect("the slug patterns are valid")
}

#[test]
fn slug_unwraps_code_spans() {
    assert_eq!(slug("Using `expandSync`"), "using-expandsync");
    assert_eq!(slug("## Using `expandSync`"), "using-expandsync");
}

#[test]
fn slug_removes_entities() {
    assert_eq!(slug("Fish &amp; Chips"), "fish-chips");
    assert_eq!(slug("It&#39;s here"), "its-here");
    assert_eq!(slug("a&nbsp;b"), "ab");
}

#[test]
fn slug_removes_hexadecimal_entities() {
    assert_eq!(slug("Don&#x27;t Panic"), "dont-panic");
    assert_eq!(slug("&#x27;quoted"), "quoted");
    assert_eq!(slug("a&#X3C;b&#x3e;c"), "abc");
    assert_eq!(slug("key&#123;value&#125;"), "keyvalue");
}

#[test]
fn slug_keeps_entity_like_text_that_is_no_entity() {
    assert_eq!(slug("R&D; now"), "rd-now");
    assert_eq!(slug("&#xZZ;quoted"), "xzzquoted");
    assert_eq!(slug("&#;x"), "x");
}

#[test]
fn slug_lowercases_and_filters() {
    assert_eq!(slug("Hello, World!"), "hello-world");
    assert_eq!(slug("ABC"), "abc");
    assert_eq!(slug("a!b"), "ab");
    assert_eq!(slug("snake_case name"), "snakecase-name");
}

#[test]
fn slug_collapses_runs_and_trims_hyphens() {
    assert_eq!(slug("  --Hello   World--  "), "hello-world");
    assert_eq!(slug("a - b"), "a-b");
    assert_eq!(slug("a--b"), "a-b");
    assert_eq!(slug("-"), "");
    assert_eq!(slug("---"), "");
}

#[test]
fn slug_of_nothing_is_empty() {
    assert_eq!(slug(""), "");
    assert_eq!(slug("!!!"), "");
}

#[test]
fn slug_keeps_letters_outside_ascii() {
    assert_eq!(slug("Über Café"), "über-café");
}

#[test]
fn slug_is_the_same_on_every_call() {
    let a = slug("Getting Started: `npm install`");
    let b = slug("Getting Started: `npm install`");
    assert_eq!(a, b);
    assert_eq!(a, "getting-started-npm-install");
}

#[test]
fn slug_has_the_shape_of_a_slug() {
    for header in ["A  B", " - x - ", "What's `new`?", "1. First &gt; second", "tab\there"] {
        let s = slug(header);
        assert!(!s.starts_with('-'));
        assert!(!s.ends_with('-'));
        assert!(!s.contains("--"));
        assert!(s.chars().all(|c| c == '-' || c.is_alphanumeric()));
        assert!(s.chars().all(|c| !c.is_uppercase()));
    }
}

#[test]
fn slug_from_lowered_works_on_the_text_as_given() {
    assert_eq!(slug_from_lowered("hello world"), "hello-world");
    assert_eq!(slug_from_lowered(" a  b "), "a-b");
    assert_eq!(slug_from_lowered("a`b"), "ab");
    assert_eq!(slug_from_lowered(""), "");
}
