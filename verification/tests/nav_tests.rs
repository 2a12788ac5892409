use docs_extract::nav::{items_from_matches, parse_navigation};

fn parse(text: &str) -> Vec<(String, Vec<(String, String)>)> {
    parse_navigation(text)
        .expect("the navigation patterns are valid")
        .into_iter()
        .map(|s| (s.title, s.items.into_iter().map(|i| (i.title, i.href)).collect()))
        .collect()
}

fn pair(a: &str, b: &str) -> (String, String) {
    (a.to_string(), b.to_string())
}

#[test]
fn sections_and_items_come_in_document_order() {
    let text = "export const navigation = [\n  {\n    title: 'Getting Started',\n    items: [\n      { title: 'Installation', href: '/docs/getting-started' },\n      { title: \"First Macro\", href: \"/docs/getting-started/first-macro\" }\n    ]\n  },\n  {\n    title: 'API',\n    items: [\n      { title: 'Overview', href: '/docs/api' }\n    ]\n  }\n];\n";
    let got = parse(text);
    assert_eq!(
        got,
        vec![
            (
                "Getting Started".to_string(),
                vec![pair("Installation", "/docs/getting-started"), pair("First Macro", "/docs/getting-started/first-macro")],
            ),
            ("API".to_string(), vec![pair("Overview", "/docs/api")]),
        ]
    );
}

#[test]
fn section_without_matching_items_is_dropped() {
    let text = "{ title: 'Empty', items: [ ] }, { title: 'Links', items: [ { label: 'x', url: 'y' } ] }, { title: 'Real', items: [ { title: 'A', href: '/a' } ] }";
    assert_eq!(parse(text), vec![("Real".to_string(), vec![pair("A", "/a")])]);
}

#[test]
fn items_that_do_not_match_are_skipped() {
    let text = "{ title: 'S', items: [ { title: 'A', href: '/a' }, { title: 'B' }, { title: 'C', href: '/c', extra: 1 }, {title:'D',href:'/d'} ] }";
    assert_eq!(parse(text), vec![("S".to_string(), vec![pair("A", "/a"), pair("D", "/d")])]);
}

#[test]
fn text_without_sections_gives_nothing() {
    assert_eq!(parse(""), Vec::new());
    assert_eq!(parse("const x = 1;"), Vec::new());
    assert_eq!(parse("{ title: 'A', href: '/a' }"), Vec::new());
}

#[test]
fn items_from_given_matches() {
    let m = |a: &str, b: &str, c: &str| vec![a.to_string(), b.to_string(), c.to_string()];
    let found = vec![m("{..}", "First", "/docs/a"), m("{..}", "Second", "/docs/b"), vec!["{..}".to_string()]];
    let got: Vec<(String, String)> = items_from_matches(&found).into_iter().map(|i| (i.title, i.href)).collect();
    assert_eq!(got, vec![pair("First", "/docs/a"), pair("Second", "/docs/b"), pair("", "")]);
    assert_eq!(items_from_matches(&Vec::new()).len(), 0);
}
