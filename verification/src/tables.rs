//! The two fixed tables: search keywords by page path, and the identifier
//! of each category's landing page.

use vstd::prelude::*;
use vstd::string::*;

verus! {

/// The texts of a sequence of pairs.
pub open spec fn pair_texts(v: Seq<(String, String)>) -> Seq<(Seq<char>, Seq<char>)> {
    Seq::new(v.len(), |i: int| (v[i].0@, v[i].1@))
}

/// The value of the first pair whose key is `key`.
pub open spec fn looked_up(table: Seq<(Seq<char>, Seq<char>)>, key: Seq<char>) -> Option<Seq<char>>
    decreases table.len(),
{
    if table.len() == 0 {
        None
    } else if table[0].0 == key {
        Some(table[0].1)
    } else {
        looked_up(table.drop_first(), key)
    }
}

/// Looks a key up in a table: the value of the first pair with that key.
pub fn lookup(table: &Vec<(String, String)>, key: &str) -> (r: Option<String>)
    ensures
        r.is_some() == looked_up(pair_texts(table@), key@).is_some(),
        r.is_some() ==> r.unwrap()@ == looked_up(pair_texts(table@), key@).unwrap(),
{
    let ghost all = pair_texts(table@);
    let wanted = String::from_str(key);
    let mut i: usize = 0;
    proof {
        assert(all.subrange(0, all.len() as int) =~= all);
    }
    while i < table.len()
        invariant
            i <= table.len(),
            all == pair_texts(table@),
            wanted@ == key@,
            looked_up(all, key@) == looked_up(all.subrange(i as int, all.len() as int), key@),
        decreases table.len() - i,
    {
        let ghost rest = all.subrange(i as int, all.len() as int);
        assert(rest[0] == all[i as int]);
        if table[i].0 == wanted {
            return Some(table[i].1.clone());
        }
        proof {
            assert(rest.drop_first() =~= all.subrange(i as int + 1, all.len() as int));
        }
        i = i + 1;
    }
    None
}

fn pair(key: &str, value: &str) -> (r: (String, String))
    ensures
        r.0@ == key@,
        r.1@ == value@,
{
    (String::from_str(key), String::from_str(value))
}

/// The identifier of each category's landing page, by category.
pub open spec fn category_ids() -> Seq<(Seq<char>, Seq<char>)> {
    seq![
        ("getting-started"@, "installation"@),
        ("concepts"@, "how-macros-work"@),
        ("builtin-macros"@, "macros-overview"@),
        ("custom-macros"@, "custom-overview"@),
        ("integration"@, "integration-overview"@),
        ("language-servers"@, "ls-overview"@),
        ("api"@, "api-overview"@),
        ("roadmap"@, "roadmap"@),
    ]
}

/// The table of landing-page identifiers.
pub fn get_category_id_map() -> (m: Vec<(String, String)>)
    ensures
        pair_texts(m@) == category_ids(),
{
    let mut m: Vec<(String, String)> = Vec::new();
    m.push(pair("getting-started", "installation"));
    m.push(pair("concepts", "how-macros-work"));
    m.push(pair("builtin-macros", "macros-overview"));
    m.push(pair("custom-macros", "custom-overview"));
    m.push(pair("integration", "integration-overview"));
    m.push(pair("language-servers", "ls-overview"));
    m.push(pair("api", "api-overview"));
    m.push(pair("roadmap", "roadmap"));
    proof {
        assert(pair_texts(m@) =~= category_ids());
    }
    m
}

/// The search keywords of each page that has its own, by page path.
pub open spec fn use_case_entries() -> Seq<(Seq<char>, Seq<char>)> {
    seq![
        ("/docs/getting-started"@, "setup, install, npm, getting started, quick start, init"@),
        ("/docs/getting-started/first-macro"@, "tutorial, example, hello world, beginner, learn"@),
        ("/docs/concepts"@, "architecture, overview, understanding, basics, fundamentals"@),
        ("/docs/concepts/derive-system"@, "@derive, decorator, annotation, derive macro"@),
        ("/docs/concepts/architecture"@, "internals, rust, swc, napi, how it works"@),
        ("/docs/builtin-macros"@, "all macros, list, available macros, macro list"@),
        ("/docs/builtin-macros/debug"@, "toString, debugging, logging, output, print"@),
        ("/docs/builtin-macros/clone"@, "copy, clone, duplicate, shallow copy, immutable"@),
        ("/docs/builtin-macros/default"@, "default values, factory, initialization, constructor"@),
        ("/docs/builtin-macros/hash"@, "hashCode, hashing, hash map, equality, hash function"@),
        ("/docs/builtin-macros/ord"@, "compareTo, ordering, sorting, comparison, total order"@),
        ("/docs/builtin-macros/partial-eq"@, "equals, equality, comparison, value equality"@),
        ("/docs/builtin-macros/partial-ord"@, "compareTo, partial ordering, sorting, nullable comparison"@),
        ("/docs/builtin-macros/serialize"@, "toJSON, serialization, json, api, data transfer"@),
        ("/docs/builtin-macros/deserialize"@, "fromJSON, deserialization, parsing, validation, json"@),
        ("/docs/custom-macros"@, "custom, extending, creating macros, own macro"@),
        ("/docs/custom-macros/rust-setup"@, "rust, cargo, napi, compilation, building"@),
        ("/docs/custom-macros/ts-macro-derive"@, "attribute, proc macro, derive attribute, rust macro"@),
        ("/docs/custom-macros/ts-quote"@, "ts_quote, template, code generation, interpolation"@),
        ("/docs/integration"@, "setup, integration, tools, ecosystem"@),
        ("/docs/integration/cli"@, "command line, macroforge command, expand, terminal"@),
        ("/docs/integration/typescript-plugin"@, "vscode, ide, language server, intellisense, autocomplete"@),
        ("/docs/integration/vite-plugin"@, "vite, build, bundler, react, svelte, sveltekit"@),
        ("/docs/integration/svelte-preprocessor"@, "svelte, preprocessor, svelte components, .svelte files, sveltekit"@),
        ("/docs/integration/mcp-server"@, "mcp, ai, llm, model context protocol, assistant"@),
        ("/docs/integration/configuration"@, "macroforge.json, config, settings, options"@),
        ("/docs/language-servers"@, "lsp, language server, editor support"@),
        ("/docs/language-servers/svelte"@, "svelte, svelte language server, .svelte files"@),
        ("/docs/language-servers/zed"@, "zed, zed editor, extension"@),
        ("/docs/api"@, "api, functions, exports, programmatic"@),
        ("/docs/api/expand-sync"@, "expandSync, expand, transform, macro expansion"@),
        ("/docs/api/transform-sync"@, "transformSync, transform, metadata, low-level"@),
        ("/docs/api/native-plugin"@, "NativePlugin, caching, language server, stateful"@),
        ("/docs/api/position-mapper"@, "PositionMapper, source map, diagnostics, position"@),
        ("/docs/roadmap"@, "roadmap, future, planned features, upcoming"@),
    ]
}

/// The table of search keywords.
pub fn get_use_cases_map() -> (m: Vec<(String, String)>)
    ensures
        pair_texts(m@) == use_case_entries(),
{
    let mut m: Vec<(String, String)> = Vec::new();
    m.push(pair("/docs/getting-started", "setup, install, npm, getting started, quick start, init"));
    m.push(pair("/docs/getting-started/first-macro", "tutorial, example, hello world, beginner, learn"));
    m.push(pair("/docs/concepts", "architecture, overview, understanding, basics, fundamentals"));
    m.push(pair("/docs/concepts/derive-system", "@derive, decorator, annotation, derive macro"));
    m.push(pair("/docs/concepts/architecture", "internals, rust, swc, napi, how it works"));
    m.push(pair("/docs/builtin-macros", "all macros, list, available macros, macro list"));
    m.push(pair("/docs/builtin-macros/debug", "toString, debugging, logging, output, print"));
    m.push(pair("/docs/builtin-macros/clone", "copy, clone, duplicate, shallow copy, immutable"));
    m.push(pair("/docs/builtin-macros/default", "default values, factory, initialization, constructor"));
    m.push(pair("/docs/builtin-macros/hash", "hashCode, hashing, hash map, equality, hash function"));
    m.push(pair("/docs/builtin-macros/ord", "compareTo, ordering, sorting, comparison, total order"));
    m.push(pair("/docs/builtin-macros/partial-eq", "equals, equality, comparison, value equality"));
    m.push(pair("/docs/builtin-macros/partial-ord", "compareTo, partial ordering, sorting, nullable comparison"));
    m.push(pair("/docs/builtin-macros/serialize", "toJSON, serialization, json, api, data transfer"));
    m.push(pair("/docs/builtin-macros/deserialize", "fromJSON, deserialization, parsing, validation, json"));
    m.push(pair("/docs/custom-macros", "custom, extending, creating macros, own macro"));
    m.push(pair("/docs/custom-macros/rust-setup", "rust, cargo, napi, compilation, building"));
    m.push(pair("/docs/custom-macros/ts-macro-derive", "attribute, proc macro, derive attribute, rust macro"));
    m.push(pair("/docs/custom-macros/ts-quote", "ts_quote, template, code generation, interpolation"));
    m.push(pair("/docs/integration", "setup, integration, tools, ecosystem"));
    m.push(pair("/docs/integration/cli", "command line, macroforge command, expand, terminal"));
    m.push(pair("/docs/integration/typescript-plugin", "vscode, ide, language server, intellisense, autocomplete"));
    m.push(pair("/docs/integration/vite-plugin", "vite, build, bundler, react, svelte, sveltekit"));
    m.push(pair("/docs/integration/svelte-preprocessor", "svelte, preprocessor, svelte components, .svelte files, sveltekit"));
    m.push(pair("/docs/integration/mcp-server", "mcp, ai, llm, model context protocol, assistant"));
    m.push(pair("/docs/integration/configuration", "macroforge.json, config, settings, options"));
    m.push(pair("/docs/language-servers", "lsp, language server, editor support"));
    m.push(pair("/docs/language-servers/svelte", "svelte, svelte language server, .svelte files"));
    m.push(pair("/docs/language-servers/zed", "zed, zed editor, extension"));
    m.push(pair("/docs/api", "api, functions, exports, programmatic"));
    m.push(pair("/docs/api/expand-sync", "expandSync, expand, transform, macro expansion"));
    m.push(pair("/docs/api/transform-sync", "transformSync, transform, metadata, low-level"));
    m.push(pair("/docs/api/native-plugin", "NativePlugin, caching, language server, stateful"));
    m.push(pair("/docs/api/position-mapper", "PositionMapper, source map, diagnostics, position"));
    m.push(pair("/docs/roadmap", "roadmap, future, planned features, upcoming"));
    proof {
        assert(pair_texts(m@) =~= use_case_entries());
    }
    m
}

/// No key occurs twice in the table.
pub open spec fn keys_differ(table: Seq<(Seq<char>, Seq<char>)>) -> bool {
    forall|i: int, j: int| 0 <= i < j < table.len() ==> (#[trigger] table[i]).0 != (#[trigger] table[j]).0
}

/// In a table in which no key occurs twice, looking up the key of any pair
/// gives the value of that pair.
pub proof fn lemma_lookup_finds_pair(table: Seq<(Seq<char>, Seq<char>)>, i: int)
    requires
        keys_differ(table),
        0 <= i < table.len(),
    ensures
        looked_up(table, table[i].0) == Some(table[i].1),
    decreases table.len(),
{
    if i > 0 {
        let rest = table.drop_first();
        assert forall|a: int, b: int| 0 <= a < b < rest.len() implies (#[trigger] rest[a]).0 != (
        #[trigger] rest[b]).0 by {
            assert(rest[a] == table[a + 1]);
            assert(rest[b] == table[b + 1]);
        }
        assert(rest[i - 1] == table[i]);
        assert(table[0].0 != table[i].0);
        lemma_lookup_finds_pair(rest, i - 1);
    }
}

/// No category occurs twice in the table of landing-page identifiers.
pub proof fn lemma_category_keys_differ()
    ensures
        keys_differ(category_ids()),
{
    reveal_strlit("getting-started");
    reveal_strlit("concepts");
    reveal_strlit("builtin-macros");
    reveal_strlit("custom-macros");
    reveal_strlit("integration");
    reveal_strlit("language-servers");
    reveal_strlit("api");
    reveal_strlit("roadmap");
    let t = category_ids();
    assert(t.len() == 8);
    assert(t[0].0 == "getting-started"@);
    assert(t[1].0 == "concepts"@);
    assert(t[2].0 == "builtin-macros"@);
    assert(t[3].0 == "custom-macros"@);
    assert(t[4].0 == "integration"@);
    assert(t[5].0 == "language-servers"@);
    assert(t[6].0 == "api"@);
    assert(t[7].0 == "roadmap"@);
}

/// No page path occurs twice in the table of search keywords.
pub proof fn lemma_use_case_keys_differ()
    ensures
        keys_differ(use_case_entries()),
{
    reveal_strlit("/docs/getting-started");
    reveal_strlit("/docs/getting-started/first-macro");
    reveal_strlit("/docs/concepts");
    reveal_strlit("/docs/concepts/derive-system");
    reveal_strlit("/docs/concepts/architecture");
    reveal_strlit("/docs/builtin-macros");
    reveal_strlit("/docs/builtin-macros/debug");
    reveal_strlit("/docs/builtin-macros/clone");
    reveal_strlit("/docs/builtin-macros/default");
    reveal_strlit("/docs/builtin-macros/hash");
    reveal_strlit("/docs/builtin-macros/ord");
    reveal_strlit("/docs/builtin-macros/partial-eq");
    reveal_strlit("/docs/builtin-macros/partial-ord");
    reveal_strlit("/docs/builtin-macros/serialize");
    reveal_strlit("/docs/builtin-macros/deserialize");
    reveal_strlit("/docs/custom-macros");
    reveal_strlit("/docs/custom-macros/rust-setup");
    reveal_strlit("/docs/custom-macros/ts-macro-derive");
    reveal_strlit("/docs/custom-macros/ts-quote");
    reveal_strlit("/docs/integration");
    reveal_strlit("/docs/integration/cli");
    reveal_strlit("/docs/integration/typescript-plugin");
    reveal_strlit("/docs/integration/vite-plugin");
    reveal_strlit("/docs/integration/svelte-preprocessor");
    reveal_strlit("/docs/integration/mcp-server");
    reveal_strlit("/docs/integration/configuration");
    reveal_strlit("/docs/language-servers");
    reveal_strlit("/docs/language-servers/svelte");
    reveal_strlit("/docs/language-servers/zed");
    reveal_strlit("/docs/api");
    reveal_strlit("/docs/api/expand-sync");
    reveal_strlit("/docs/api/transform-sync");
    reveal_strlit("/docs/api/native-plugin");
    reveal_strlit("/docs/api/position-mapper");
    reveal_strlit("/docs/roadmap");
    // Keys of different lengths differ; two of the same length differ at the
    // position named here.
    assert("/docs/getting-started"@[6] != "/docs/integration/cli"@[6]);
    assert("/docs/getting-started"@[6] != "/docs/api/expand-sync"@[6]);
    assert("/docs/concepts/derive-system"@[6] != "/docs/builtin-macros/default"@[6]);
    assert("/docs/concepts/derive-system"@[7] != "/docs/custom-macros/ts-quote"@[7]);
    assert("/docs/concepts/derive-system"@[6] != "/docs/integration/mcp-server"@[6]);
    assert("/docs/builtin-macros/debug"@[21] != "/docs/builtin-macros/clone"@[21]);
    assert("/docs/builtin-macros/debug"@[6] != "/docs/language-servers/zed"@[6]);
    assert("/docs/builtin-macros/clone"@[6] != "/docs/language-servers/zed"@[6]);
    assert("/docs/builtin-macros/default"@[6] != "/docs/custom-macros/ts-quote"@[6]);
    assert("/docs/builtin-macros/default"@[6] != "/docs/integration/mcp-server"@[6]);
    assert("/docs/builtin-macros/hash"@[6] != "/docs/api/position-mapper"@[6]);
    assert("/docs/builtin-macros/ord"@[6] != "/docs/api/transform-sync"@[6]);
    assert("/docs/builtin-macros/partial-eq"@[6] != "/docs/integration/configuration"@[6]);
    assert("/docs/builtin-macros/partial-ord"@[21] != "/docs/builtin-macros/deserialize"@[21]);
    assert("/docs/builtin-macros/serialize"@[6] != "/docs/custom-macros/rust-setup"@[6]);
    assert("/docs/custom-macros/ts-macro-derive"@[6] != "/docs/integration/typescript-plugin"@[6]);
    assert("/docs/custom-macros/ts-quote"@[6] != "/docs/integration/mcp-server"@[6]);
    assert("/docs/integration/cli"@[6] != "/docs/api/expand-sync"@[6]);
    assert("/docs/integration/vite-plugin"@[6] != "/docs/language-servers/svelte"@[6]);
    let t = use_case_entries();
    assert(t.len() == 35);
    assert(t[0].0 == "/docs/getting-started"@);
    assert(t[1].0 == "/docs/getting-started/first-macro"@);
    assert(t[2].0 == "/docs/concepts"@);
    assert(t[3].0 == "/docs/concepts/derive-system"@);
    assert(t[4].0 == "/docs/concepts/architecture"@);
    assert(t[5].0 == "/docs/builtin-macros"@);
    assert(t[6].0 == "/docs/builtin-macros/debug"@);
    assert(t[7].0 == "/docs/builtin-macros/clone"@);
    assert(t[8].0 == "/docs/builtin-macros/default"@);
    assert(t[9].0 == "/docs/builtin-macros/hash"@);
    assert(t[10].0 == "/docs/builtin-macros/ord"@);
    assert(t[11].0 == "/docs/builtin-macros/partial-eq"@);
    assert(t[12].0 == "/docs/builtin-macros/partial-ord"@);
    assert(t[13].0 == "/docs/builtin-macros/serialize"@);
    assert(t[14].0 == "/docs/builtin-macros/deserialize"@);
    assert(t[15].0 == "/docs/custom-macros"@);
    assert(t[16].0 == "/docs/custom-macros/rust-setup"@);
    assert(t[17].0 == "/docs/custom-macros/ts-macro-derive"@);
    assert(t[18].0 == "/docs/custom-macros/ts-quote"@);
    assert(t[19].0 == "/docs/integration"@);
    assert(t[20].0 == "/docs/integration/cli"@);
    assert(t[21].0 == "/docs/integration/typescript-plugin"@);
    assert(t[22].0 == "/docs/integration/vite-plugin"@);
    assert(t[23].0 == "/docs/integration/svelte-preprocessor"@);
    assert(t[24].0 == "/docs/integration/mcp-server"@);
    assert(t[25].0 == "/docs/integration/configuration"@);
    assert(t[26].0 == "/docs/language-servers"@);
    assert(t[27].0 == "/docs/language-servers/svelte"@);
    assert(t[28].0 == "/docs/language-servers/zed"@);
    assert(t[29].0 == "/docs/api"@);
    assert(t[30].0 == "/docs/api/expand-sync"@);
    assert(t[31].0 == "/docs/api/transform-sync"@);
    assert(t[32].0 == "/docs/api/native-plugin"@);
    assert(t[33].0 == "/docs/api/position-mapper"@);
    assert(t[34].0 == "/docs/roadmap"@);
}

} // verus!
