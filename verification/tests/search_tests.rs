use mcp_ast_grep::ast_grep_tools::{AstGrepTools, CallContext};
use mcp_ast_grep::binary_manager::{BinaryManager, BinaryProbe};
use mcp_ast_grep::error::ToolErrorKind;
use mcp_ast_grep::json::{JsonNumber, JsonValue};
use mcp_ast_grep::search_tools::{format_score, rule_preview};
use mcp_ast_grep::simple_search::{extract_key_terms, place, rank, SimpleSearchEngine};
use mcp_ast_grep::tool_call::ToolAction;

const CATALOG: &str = "{\"examples\": [{\"id\": \"no-console\", \"title\": \"No console log\", \"description\": \"Find console.log calls and replace them\", \"language\": \"javascript\", \"has_fix\": true, \"features\": [\"pattern\", \"fix\"], \"yaml_content\": \"id: no-console\\nrule:\\n  pattern: console.log($A)\\nfix: logger.log($A)\", \"playground_link\": \"https://play/1\"}, {\"id\": \"unwrap\", \"title\": \"Avoid unwrap\", \"description\": \"find unwrap calls in functions\", \"language\": \"rust\", \"has_fix\": false, \"features\": [\"kind\", \"pattern\"], \"yaml_content\": \"rule:\\n  pattern: $X.unwrap()\", \"playground_link\": \"\"}, {\"id\": \"print\", \"title\": \"Print function\", \"description\": \"rewrite print statements as function calls\", \"language\": \"python\", \"has_fix\": true, \"features\": [], \"yaml_content\": \"\", \"playground_link\": \"\"}, {\"id\": \"log\", \"title\": \"Console wrapper\", \"description\": \"console usage\", \"language\": \"JavaScript\", \"has_fix\": false, \"features\": [\"Console\"], \"yaml_content\": \"a\\r\\nb\", \"playground_link\": \"p\"}]}";

fn engine() -> SimpleSearchEngine {
    SimpleSearchEngine::new(CATALOG).unwrap()
}

fn found(query: &str, language: Option<&str>) -> Vec<(String, f64)> {
    engine()
        .search(query, language, 100)
        .unwrap()
        .into_iter()
        .map(|r| (r.id, r.score as f64 / 2.0))
        .collect()
}

fn expect(list: &[(&str, f64)]) -> Vec<(String, f64)> {
    list.iter().map(|(id, score)| (id.to_string(), *score)).collect()
}

fn tools() -> AstGrepTools {
    let manager = BinaryManager::new(Some("/opt/server"), "linux", "x86_64").unwrap();
    AstGrepTools::new(manager, Ok(CATALOG.to_string()))
}

fn call(tool: &str, members: Vec<(&str, JsonValue)>) -> Result<String, (ToolErrorKind, String)> {
    let args = JsonValue::Object(members.into_iter().map(|(k, v)| (k.to_string(), v)).collect());
    let context = CallContext { call_id: 1, temp_dir: "/tmp".to_string(), cwd: Ok("/".to_string()) };
    match tools().call_tool(tool, &args, &context).1 {
        ToolAction::Finish(Ok(text)) => Ok(text),
        ToolAction::Finish(Err(e)) => Err((e.kind, e.message)),
        _ => panic!("a search tool finishes at once"),
    }
}

fn text(s: &str) -> JsonValue {
    JsonValue::String(s.to_string())
}

fn number(n: u64) -> JsonValue {
    JsonValue::Number(JsonNumber::PosInt(n))
}

#[test]
fn engine_reads_the_examples_of_a_catalog() {
    assert_eq!(engine().len(), 4);
    let err = SimpleSearchEngine::new("{}").err().unwrap();
    assert_eq!(err.kind, ToolErrorKind::Catalog);
    assert_eq!(err.message, "No examples found in catalog");
    assert_eq!(SimpleSearchEngine::new("{").err().unwrap().kind, ToolErrorKind::Catalog);
    assert_eq!(SimpleSearchEngine::new(r#"{"examples": []}"#).unwrap().len(), 0);
}

#[test]
fn search_scores_follow_the_weights() {
    assert_eq!(found("console", None), expect(&[("log", 20.5), ("no-console", 20.0)]));
    assert_eq!(found("console log", None), expect(&[("no-console", 30.0), ("log", 10.5)]));
    assert_eq!(found("FIX pattern", None), expect(&[("no-console", 10.0), ("unwrap", 4.5), ("print", 1.0)]));
    assert_eq!(found("function", None), expect(&[("print", 18.0), ("unwrap", 13.0)]));
}

#[test]
fn search_filters_by_language_whatever_the_case() {
    assert_eq!(found("find calls", Some("rust")), expect(&[("unwrap", 6.0)]));
    assert_eq!(found("find calls", Some("RUST")), expect(&[("unwrap", 6.0)]));
    assert_eq!(found("replace", Some("javascript")), expect(&[("no-console", 14.0)]));
    assert_eq!(found("console", Some("javascript")), expect(&[("log", 20.5), ("no-console", 20.0)]));
    assert_eq!(found("console", Some("cobol")), expect(&[]));
}

#[test]
fn equal_scores_keep_the_order_of_the_catalog() {
    assert_eq!(found("pattern", Some("any")), expect(&[("no-console", 14.5), ("unwrap", 14.5)]));
}

#[test]
fn queries_without_usable_terms_find_nothing() {
    assert_eq!(found("zz", None), expect(&[]));
    assert_eq!(found("   ", None), expect(&[]));
    assert_eq!(found("", None), expect(&[]));
    assert_eq!(found("café", None), expect(&[]));
}

#[test]
fn query_is_normalised_before_it_is_searched() {
    // "console" written with a decomposed letter is found once composed
    let catalog = r#"{"examples": [{"id": "x", "title": "café latte", "language": "c"}]}"#;
    let engine = SimpleSearchEngine::new(catalog).unwrap();
    let decomposed = "cafe\u{301}";
    let results = engine.search(decomposed, None, 5).unwrap();
    assert_eq!(results.len(), 1);
    assert_eq!(results[0].score, 30);
    let results = engine.search("CAFÉ", None, 5).unwrap();
    assert_eq!(results.len(), 1);
}

#[test]
fn search_limits_and_pages_results() {
    let engine = engine();
    assert_eq!(engine.search("FIX pattern", None, 2).unwrap().len(), 2);
    assert_eq!(engine.search("FIX pattern", None, 0).unwrap().len(), 0);
    let page = engine.search_paginated("FIX pattern", None, 2, 0).unwrap();
    assert_eq!(page.results.iter().map(|r| r.id.as_str()).collect::<Vec<_>>(), vec!["no-console", "unwrap"]);
    assert_eq!(page.pagination.total_count, 3);
    assert!(page.pagination.has_more);
    let page = engine.search_paginated("FIX pattern", None, 2, 2).unwrap();
    assert_eq!(page.results.iter().map(|r| r.id.as_str()).collect::<Vec<_>>(), vec!["print"]);
    assert!(!page.pagination.has_more);
    let page = engine.search_paginated("FIX pattern", None, 2, 3).unwrap();
    assert!(page.results.is_empty());
    assert_eq!(page.pagination.total_count, 3);
    assert!(!page.pagination.has_more);
    let page = engine.search_paginated("FIX pattern", None, usize::MAX, usize::MAX).unwrap();
    assert!(page.results.is_empty());
    let page = engine.search_paginated("FIX pattern", None, usize::MAX, 1).unwrap();
    assert_eq!(page.results.len(), 2);
    assert!(!page.pagination.has_more);
}

#[test]
fn results_carry_the_example() {
    let results = engine().search("console log", None, 1).unwrap();
    let first = &results[0];
    assert_eq!(first.title, "No console log");
    assert_eq!(first.language, "javascript");
    assert!(first.has_fix);
    assert_eq!(first.features, vec!["pattern", "fix"]);
    assert_eq!(first.playground_link, "https://play/1");
    assert!(first.yaml_content.starts_with("id: no-console\n"));
    assert_eq!(first.score, 60);
}

#[test]
fn rank_is_stable_and_descending() {
    let ranked = rank(&vec![(0, 3), (1, 9), (2, 3), (3, 9), (4, 1), (5, 3)]);
    assert_eq!(ranked, vec![(1, 9), (3, 9), (0, 3), (2, 3), (5, 3), (4, 1)]);
    assert!(rank(&Vec::new()).is_empty());
    let mut ranking = vec![(0, 5), (1, 5), (2, 2)];
    place(&mut ranking, (9, 5));
    assert_eq!(ranking, vec![(0, 5), (1, 5), (9, 5), (2, 2)]);
    place(&mut ranking, (8, 7));
    assert_eq!(ranking[0], (8, 7));
    place(&mut ranking, (7, 0));
    assert_eq!(ranking.last(), Some(&(7, 0)));
}

#[test]
fn key_terms_are_frequent_words_that_tell_something() {
    assert_eq!(
        extract_key_terms("Find the console.log calls and the CONSOLE.LOG calls in a function 123 !!! is it"),
        vec!["console.log", "calls", "find", "function"]
    );
    assert_eq!(
        extract_key_terms("a b c d e f g h i j k l one two three four five six seven eight nine ten eleven twelve twelve"),
        vec!["twelve", "one", "two", "three", "four", "five", "six", "seven", "eight", "nine"]
    );
    assert!(extract_key_terms("the and or 12 ++ --").is_empty());
    assert!(extract_key_terms("").is_empty());
}

#[test]
fn similarity_search_searches_for_the_key_terms() {
    let results = engine().similarity_search("console.log($A) calls", 10).unwrap();
    let scores: Vec<(String, f64)> = results.into_iter().map(|r| (r.id, r.score as f64 / 2.0)).collect();
    assert_eq!(scores, expect(&[("no-console", 5.0), ("unwrap", 3.0), ("print", 3.0)]));
    assert!(engine().similarity_search("the and or", 10).unwrap().is_empty());
}

#[test]
fn scores_are_written_with_two_decimals() {
    assert_eq!(format_score(0), "0.00");
    assert_eq!(format_score(1), "0.50");
    assert_eq!(format_score(41), "20.50");
    assert_eq!(format_score(60), "30.00");
    for halves in [0u64, 1, 41, 60, 2001] {
        assert_eq!(format_score(halves), format!("{:.2}", halves as f32 / 2.0));
    }
}

#[test]
fn rule_preview_is_the_beginning_of_the_first_line() {
    assert_eq!(rule_preview("id: x\nrule: y"), "id: x");
    assert_eq!(rule_preview("a\r\nb"), "a");
    assert_eq!(rule_preview("no line feed"), "no line feed");
    assert_eq!(rule_preview("\nsecond"), "");
    let long = "x".repeat(80);
    assert_eq!(rule_preview(&long), "x".repeat(50));
    for text in ["id: x\nrule: y", "a\r\nb", "é\n", "\r\n", "one"] {
        let expected: String = text.lines().next().unwrap_or("").chars().take(50).collect();
        assert_eq!(rule_preview(text), expected);
    }
}

#[test]
fn search_examples_writes_pages() {
    let result = call("search_examples", vec![
        ("query", text("FIX pattern")),
        ("language", text("any")),
        ("limit", number(2)),
        ("offset", number(0)),
    ])
    .unwrap();
    assert!(result.contains("Found"));
    assert!(result.contains("total examples"));
    assert!(result.contains("page 1-"));
    assert_eq!(
        result,
        "Found 2 of 3 total examples for 'FIX pattern' in any (page 1-2):\n\n1. No console log (javascript)\n   Description: Find console.log calls and replace them\n   ✅ Has Fix\n   Features: pattern, fix\n\n2. Avoid unwrap (rust)\n   Description: find unwrap calls in functions\n   Features: kind, pattern\n\n📄 More results available. Use offset: 2 to get next page (1 more results).\n\n⚠️ Note: These are starting points - adapt them to your specific requirements."
    );
    let result = call("search_examples", vec![("query", text("FIX pattern")), ("limit", number(2)), ("offset", number(2))]).unwrap();
    assert!(result.contains("page 3-"));
    assert_eq!(
        result,
        "Found 1 of 3 total examples for 'FIX pattern' in any (page 3-3):\n\n3. Print function (python)\n   Description: rewrite print statements as function calls\n   ✅ Has Fix\n\n⚠️ Note: These are starting points - adapt them to your specific requirements."
    );
}

#[test]
fn search_examples_says_when_nothing_is_found() {
    let result = call("search_examples", vec![
        ("query", text("nonexistentquerythatshouldhavenooutputs")),
        ("language", text("any")),
        ("limit", number(5)),
        ("offset", number(100)),
    ])
    .unwrap();
    assert_eq!(
        result,
        "No more examples found at offset 100 for 'nonexistentquerythatshouldhavenooutputs' in any language."
    );
    let result = call("search_examples", vec![("query", text("zzz")), ("language", text("rust"))]).unwrap();
    assert_eq!(
        result,
        "No examples found matching 'zzz' in rust language. Try broader search terms or search in 'any' language."
    );
    assert_eq!(
        call("search_examples", vec![("language", text("rust"))]).unwrap_err(),
        (ToolErrorKind::MissingArgument, "Missing query".to_string())
    );
}

#[test]
fn similarity_search_writes_pages() {
    let result = call("similarity_search", vec![("pattern", text("console.log")), ("limit", number(3)), ("offset", number(0))]).unwrap();
    assert!(result.contains("similar patterns") || result.contains("No similar patterns"));
    assert_eq!(
        result,
        "Found 1 of 1 total similar patterns (page 1-1):\n\n1. No console log (javascript)\n   Similarity: 15.00\n   Description: Find console.log calls and replace them\n   YAML Rule: id: no-console...\n\n⚠️ Note: Similarity is based on text matching - review each example for relevance."
    );
    assert_eq!(
        call("similarity_search", vec![("pattern", text("the and"))]).unwrap(),
        "No similar patterns found. Try using simpler or more general terms."
    );
    assert_eq!(
        call("similarity_search", vec![("pattern", text("the and")), ("offset", number(4))]).unwrap(),
        "No more similar patterns found at offset 4 for the provided pattern."
    );
    assert_eq!(
        call("similarity_search", vec![]).unwrap_err(),
        (ToolErrorKind::MissingArgument, "Missing pattern".to_string())
    );
}

#[test]
fn suggest_examples_writes_pages() {
    let result = call("suggest_examples", vec![
        ("description", text("find all function declarations")),
        ("language", text("any")),
        ("limit", number(2)),
        ("offset", number(0)),
    ])
    .unwrap();
    assert!(result.contains("potentially relevant examples") || result.contains("No relevant examples"));
    let result = call("suggest_examples", vec![("description", text("console")), ("limit", number(1))]).unwrap();
    assert_eq!(
        result,
        "Based on your problem description, here are 1 of 2 potentially relevant examples (page 1-1):\n\n1. Console wrapper (JavaScript)\n   Relevance: 20.50\n   What it does: console usage\n   Try it: p\n\n📄 More results available. Use offset: 1 to get next page (1 more results).\n\n💡 These examples might help with your problem, but you'll likely need to adapt them to your specific use case. Don't assume they'll work exactly as-is for your requirements."
    );
    // where the search finds nothing on the first page, likeness decides
    let result = call("suggest_examples", vec![("description", text("the console.log($A) calls")), ("language", text("cobol"))]).unwrap();
    assert!(result.starts_with("Based on your problem description, here are 3 of 3 potentially relevant examples (page 1-3):\n\n1. No console log (javascript)\n   Relevance: 5.00\n   What it does: Find console.log calls and replace them\n   ✅ Includes code transformation\n   Try it: https://play/1\n\n2. Avoid unwrap (rust)\n"));
    assert_eq!(
        call("suggest_examples", vec![("description", text("zzz")), ("offset", number(1))]).unwrap(),
        "No more relevant examples found at offset 1 for your problem description."
    );
    assert_eq!(
        call("suggest_examples", vec![("description", text("zzz qqq"))]).unwrap(),
        "No relevant examples found for your problem description. Try describing your problem with different terms or be more specific about what you're trying to achieve."
    );
    assert_eq!(
        call("suggest_examples", vec![]).unwrap_err(),
        (ToolErrorKind::MissingArgument, "Missing description".to_string())
    );
}

#[test]
fn search_tools_report_a_missing_catalog() {
    let manager = BinaryManager::new(Some("/opt/server"), "linux", "x86_64").unwrap();
    let tools = AstGrepTools::new(manager, Err("Embedded catalog.json not found".to_string()));
    let context = CallContext { call_id: 1, temp_dir: "/tmp".to_string(), cwd: Ok("/".to_string()) };
    let args = JsonValue::Object(vec![("query".to_string(), text("x"))]);
    match tools.call_tool("search_examples", &args, &context).1 {
        ToolAction::Finish(Err(e)) => {
            assert_eq!(e.kind, ToolErrorKind::Catalog);
            assert_eq!(e.message, "Embedded catalog.json not found");
        }
        _ => panic!("expected a failure"),
    }
}

#[test]
fn query_resources_search_the_catalog() {
    let probe = BinaryProbe { bundled_exists: true, system_lookup: None, common_exists: vec![] };
    let read = |uri: &str| tools().read_resource(uri, &probe);
    let page = read("ast-grep://query/search?q=function&lang=rust&limit=5").unwrap();
    assert_eq!(
        page,
        "# Search Results for \"function\"\n\n**Language**: rust  \n**Results**: 1 matches (limited to 5)\n\n### 1. Avoid unwrap\n\n**Language**: rust\n**Score**: 13.00\n**Features**: kind, pattern\n\n**Description**: find unwrap calls in functions\n\n**YAML Rule**:\n```yaml\nrule:\n  pattern: $X.unwrap()\n```\n\n---\n\n## ⚠️ Important Note\n\nThese examples are provided to help you understand similar patterns and approaches. **Please don't assume these examples will be a perfect fit for your specific use case.** You may need to adapt the patterns, rules, or logic to match your exact requirements.\n\nConsider these examples as starting points and learning resources rather than drop-in solutions.\n\n"
    );
    let page = read("ast-grep://query/search?q=zzz&limit=many").unwrap();
    assert_eq!(
        page,
        "# Search Results for \"zzz\"\n\n**Language**: any  \n**Results**: 0 matches (limited to 10)\n\n## No Results Found\n\nNo examples found matching 'zzz' in any language.\n\n**Suggestion**: Try:\n- Using broader search terms\n- Searching in 'any' language\n- Using different keywords related to your problem\n\n"
    );
    let err = read("ast-grep://query/search?lang=rust").unwrap_err();
    assert_eq!((err.kind, err.message.as_str()), (ToolErrorKind::InvalidQuery, "Missing search query"));
    let page = read("ast-grep://query/similar?pattern=console.log&limit=1").unwrap();
    assert!(page.starts_with("# Similar Patterns to \"console.log\"\n\n**Found 1 similar examples:**\n\n### 1. No console log\n\n**Language**: javascript | **Similarity Score**: 15.00\n**Has Fix**: Yes ✅\n\n**Description**: Find console.log calls and replace them\n\n**YAML Rule**:\n```yaml\nid: no-console\n"));
    assert!(page.contains("```\n\n**[Try it in Playground](https://play/1)**\n\n---\n\n## ⚠️ Similarity Search Note\n\n"));
    assert!(page.ends_with("Consider these as inspiration and adapt them to your exact requirements."));
    assert_eq!(
        read("ast-grep://query/similar?pattern=the").unwrap(),
        "## No Similar Patterns Found\n\nNo examples found similar to the provided pattern.\n\n**Pattern**: the\n\n**Suggestion**: Try using simpler or more general terms in your pattern."
    );
    let err = read("ast-grep://query/similar").unwrap_err();
    assert_eq!((err.kind, err.message.as_str()), (ToolErrorKind::InvalidQuery, "Missing pattern"));
}
