use docs_extract::normalize::{cleanup_markdown, decode_entities, extract_prose_html, html_to_markdown, strip_mdsvex_boilerplate};
use docs_extract::text::{find_first, has_prefix, tail_from, trim};

#[test]
fn boilerplate_is_stripped_from_a_source() {
    let source = "<!-- generated -->\n<svelte:head>\n<title>X</title>\n</svelte:head>\n\n# Title\n\nText.\n\n";
    assert_eq!(strip_mdsvex_boilerplate(source), Some("# Title\n\nText.\n".to_string()));
}

#[test]
fn only_a_comment_at_the_very_start_is_stripped() {
    let source = "# Title\n<!-- stays -->\nText";
    assert_eq!(strip_mdsvex_boilerplate(source), Some("# Title\n<!-- stays -->\nText\n".to_string()));
    let source = "<!-- a --><!-- b -->x";
    assert_eq!(strip_mdsvex_boilerplate(source), Some("<!-- b -->x\n".to_string()));
}

#[test]
fn every_head_block_is_stripped() {
    let source = "a\n<svelte:head>1</svelte:head>\nb\n<svelte:head>2</svelte:head>c";
    assert_eq!(strip_mdsvex_boilerplate(source), Some("a\nb\nc\n".to_string()));
    assert_eq!(strip_mdsvex_boilerplate(""), Some("\n".to_string()));
}

#[test]
fn cleanup_collapses_newlines_and_decodes_entities() {
    assert_eq!(cleanup_markdown("a\n\n\n\nb\n\n\nc\n\nd"), Some("a\n\nb\n\nc\n\nd".to_string()));
    assert_eq!(
        cleanup_markdown("  x&nbsp;&lt;T&gt; &amp; &quot;q&quot; &#39;a&#x27; &#123;b&#125;\n"),
        Some("x <T> & \"q\" 'a' {b}".to_string())
    );
}

#[test]
fn entities_are_decoded_one_after_the_other() {
    assert_eq!(decode_entities("&amp;lt;"), "&lt;");
    assert_eq!(decode_entities("&lt;&amp;gt;"), "<&gt;");
    assert_eq!(decode_entities("&amp;#39;"), "'");
    assert_eq!(decode_entities("plain"), "plain");
}

#[test]
fn prose_container_is_tried_before_article() {
    let html = "<html><body><article><p>art</p></article><div class=\"prose\"><p>pro</p></div></body></html>";
    assert_eq!(extract_prose_html(html), Some("<div class=\"prose\"><p>pro</p></div>".to_string()));
    let html = "<html><body><nav>n</nav><article><p>art</p></article></body></html>";
    assert_eq!(extract_prose_html(html), Some("<article><p>art</p></article>".to_string()));
    assert_eq!(extract_prose_html("<html><body><p>none</p></body></html>"), None);
}

#[test]
fn page_is_converted_to_markdown() {
    let html = "<html><body><div class=\"prose\"><h1>Title</h1><script>bad()</script><p>Text &amp; more</p><button>Copy</button></div></body></html>";
    assert_eq!(html_to_markdown(html), Some("# Title\n\nText & more".to_string()));
}

#[test]
fn page_without_main_content_is_empty() {
    assert_eq!(html_to_markdown("<html><body><p>none</p></body></html>"), Some(String::new()));
    assert_eq!(html_to_markdown(""), Some(String::new()));
}

#[test]
fn trim_removes_whitespace_at_both_ends() {
    assert_eq!(trim("  a b \n\t"), "a b");
    assert_eq!(trim("\u{a0}x\u{2003}"), "x");
    assert_eq!(trim("   "), "");
    assert_eq!(trim(""), "");
    assert_eq!(trim("x"), "x");
}

#[test]
fn prefixes_and_positions() {
    assert!(has_prefix("/docs/x", "/docs/"));
    assert!(has_prefix("abc", ""));
    assert!(!has_prefix("/doc", "/docs/"));
    assert!(!has_prefix("/docs-x", "/docs/"));
    assert_eq!(find_first("a,b,c", ','), 1);
    assert_eq!(find_first("abc", ','), 3);
    assert_eq!(find_first("é,b", ','), 1);
    assert_eq!(tail_from("héllo", 2), "llo");
    assert_eq!(tail_from("ab", 2), "");
}
