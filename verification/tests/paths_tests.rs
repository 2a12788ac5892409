use docs_extract::paths::{href_to_category, href_to_id, href_to_prerendered_path, href_to_source_path, relative_href};
use docs_extract::tables::{get_category_id_map, get_use_cases_map, lookup};
use std::path::PathBuf;

#[test]
fn category_is_the_first_segment_after_docs() {
    assert_eq!(href_to_category("/docs/builtin-macros/debug"), "builtin-macros");
    assert_eq!(href_to_category("/docs/api"), "api");
    assert_eq!(href_to_category("/docs/"), "");
    assert_eq!(href_to_category("/docs"), "");
    assert_eq!(href_to_category("guide/intro"), "guide");
    assert_eq!(href_to_category(""), "");
}

#[test]
fn landing_page_takes_its_identifier_from_the_table() {
    let map = get_category_id_map();
    assert_eq!(href_to_id("/docs/concepts", &map), "how-macros-work");
    assert_eq!(href_to_id("/docs/getting-started", &map), "installation");
    assert_eq!(href_to_id("/docs/roadmap", &map), "roadmap");
    assert_eq!(href_to_id("/docs/unknown", &map), "unknown");
    assert_eq!(href_to_id("api", &map), "api-overview");
}

#[test]
fn other_pages_take_their_last_segment() {
    let map = get_category_id_map();
    assert_eq!(href_to_id("/docs/api/expand-sync", &map), "expand-sync");
    assert_eq!(href_to_id("/docs/a/b/c", &map), "c");
    assert_eq!(href_to_id("/docs/api/", &map), "");
    assert_eq!(href_to_id("/docs/concepts/api", &map), "api");
    assert_eq!(href_to_id("/other/concepts", &map), "concepts");
}

#[test]
fn relative_href_drops_one_leading_slash() {
    assert_eq!(relative_href("/docs/api"), "docs/api");
    assert_eq!(relative_href("docs/api"), "docs/api");
    assert_eq!(relative_href("//x"), "/x");
    assert_eq!(relative_href(""), "");
}

#[test]
fn source_path_is_the_page_template_below_the_routes() {
    let site = PathBuf::from("/repo/website");
    assert_eq!(
        href_to_source_path("/docs/api/expand-sync", &site),
        PathBuf::from("/repo/website/src/routes/docs/api/expand-sync/+page.svx")
    );
}

#[test]
fn prerendered_path_has_the_html_extension() {
    let site = PathBuf::from("/repo/website");
    assert_eq!(
        href_to_prerendered_path("/docs/api/expand-sync", &site),
        PathBuf::from("/repo/website/build/prerendered/docs/api/expand-sync.html")
    );
    assert_eq!(
        href_to_prerendered_path("/docs/api", &site),
        PathBuf::from("/repo/website/build/prerendered/docs/api.html")
    );
}

#[test]
fn tables_hold_every_entry() {
    let use_cases = get_use_cases_map();
    assert_eq!(use_cases.len(), 35);
    assert_eq!(
        lookup(&use_cases, "/docs/getting-started"),
        Some("setup, install, npm, getting started, quick start, init".to_string())
    );
    assert_eq!(lookup(&use_cases, "/docs/roadmap"), Some("roadmap, future, planned features, upcoming".to_string()));
    assert_eq!(
        lookup(&use_cases, "/docs/api/expand-sync"),
        Some("expandSync, expand, transform, macro expansion".to_string())
    );
    assert_eq!(lookup(&use_cases, "/docs/none"), None);
    let ids = get_category_id_map();
    assert_eq!(ids.len(), 8);
    assert_eq!(lookup(&ids, "language-servers"), Some("ls-overview".to_string()));
    assert_eq!(lookup(&ids, "Language-servers"), None);
}

#[test]
fn lookup_gives_the_first_pair_with_the_key() {
    let table = vec![
        ("a".to_string(), "1".to_string()),
        ("b".to_string(), "2".to_string()),
        ("a".to_string(), "3".to_string()),
    ];
    assert_eq!(lookup(&table, "a"), Some("1".to_string()));
    assert_eq!(lookup(&table, "b"), Some("2".to_string()));
    assert_eq!(lookup(&table, ""), None);
    assert_eq!(lookup(&Vec::new(), "a"), None);
}

#[test]
fn prerendered_path_replaces_an_extension_of_the_last_segment() {
    let site = PathBuf::from("site");
    assert_eq!(href_to_prerendered_path("/docs/v1.2", &site), PathBuf::from("site/build/prerendered/docs/v1.html"));
    assert_eq!(href_to_source_path("docs/v1.2", &site), PathBuf::from("site/src/routes/docs/v1.2/+page.svx"));
}

#[test]
fn no_key_occurs_twice_in_a_table() {
    for table in [get_use_cases_map(), get_category_id_map()] {
        for (i, (key, value)) in table.iter().enumerate() {
            assert!(table[..i].iter().all(|(other, _)| other != key));
            assert_eq!(lookup(&table, key), Some(value.clone()));
        }
    }
}
