use mcp_ast_grep::ast_grep_tools::AstGrepTools;
use mcp_ast_grep::binary_manager::{BinaryManager, BinaryProbe};
use mcp_ast_grep::catalog::{
    get_catalog_example, get_catalog_status, get_navigation_content, load_catalog_resources,
    load_navigation_resources,
};
use mcp_ast_grep::docs::{get_available_languages, get_cli_reference, get_discovery_guide};
use mcp_ast_grep::error::ToolErrorKind;
use mcp_ast_grep::resource::ResourceInfo;
use mcp_ast_grep::resources::ResourceProvider;

const CATALOG: &str = r#"{
  "examples": [
    {"id": "no-console", "title": "No console", "description": "Find console.log calls",
     "language": "javascript", "has_fix": true, "features": ["pattern", "fix"], "rules": ["pattern"],
     "content": "id: no-console\nrule: {pattern: console.log($A)}", "yaml_content": "id: no-console",
     "playground_link": "https://play/1"},
    {"title": "Unwrap", "language": "rust", "features": ["kind", 7, "pattern"], "rules": ["kind", "has"],
     "content": "héllo", "playground_link": ""},
    {"id": "broken", "language": "rust", "has_fix": "yes"},
    {"id": "py", "title": "Print", "description": "print statement", "language": "python",
     "has_fix": true, "content": "x"}
  ]
}"#;

fn create_test_tools() -> AstGrepTools {
    let binary_manager =
        BinaryManager::new(Some("/opt/server"), "linux", "x86_64").expect("Failed to create binary manager");
    AstGrepTools::new(binary_manager, Ok(CATALOG.to_string()))
}

fn tools_without_catalog() -> AstGrepTools {
    let binary_manager = BinaryManager::new(Some("/opt/server"), "linux", "x86_64").unwrap();
    AstGrepTools::new(binary_manager, Err("Embedded catalog.json not found".to_string()))
}

fn probe() -> BinaryProbe {
    BinaryProbe { bundled_exists: false, system_lookup: None, common_exists: vec![false, true] }
}

fn uris(list: &[ResourceInfo]) -> Vec<&str> {
    list.iter().map(|r| r.uri.as_str()).collect()
}

#[test]
fn test_discovery_resources_included() {
    let tools = create_test_tools();
    let resources = tools.list_resources();

    let discovery_guide = resources.iter().find(|r| r.uri == "ast-grep://discover");
    assert!(discovery_guide.is_some(), "Discovery guide should be included");

    let languages_list = resources.iter().find(|r| r.uri == "ast-grep://languages");
    assert!(languages_list.is_some(), "Languages list should be included");

    let catalog_status = resources.iter().find(|r| r.uri == "ast-grep://catalog-status");
    assert!(catalog_status.is_some(), "Catalog status should be included");
}

#[test]
fn test_popular_language_examples_included() {
    let tools = create_test_tools();
    let resources = tools.list_resources();

    let js_examples = resources.iter().find(|r| r.uri == "ast-grep://examples/javascript");
    assert!(js_examples.is_some(), "JavaScript examples should be directly accessible");

    let python_examples = resources.iter().find(|r| r.uri == "ast-grep://examples/python");
    assert!(python_examples.is_some(), "Python examples should be directly accessible");
}

#[test]
fn test_discovery_guide_content() {
    let content = get_discovery_guide();

    assert!(content.contains("🔍 AST-Grep MCP Resource Discovery Guide"));
    assert!(content.contains("Quick Start Resources"));
    assert!(content.contains("ast-grep://languages"));
    assert!(content.contains("Tips for Smaller Models"));
}

#[test]
fn test_languages_content() {
    let content = get_available_languages();

    assert!(content.contains("📚 Supported Programming Languages"));
    assert!(content.contains("JavaScript"));
    assert!(content.contains("Python"));
    assert!(content.contains("ast-grep://examples/"));
}

#[test]
fn test_error_handling_improvements() {
    for tools in [create_test_tools(), tools_without_catalog()] {
        let resources = tools.list_resources();

        let has_catalog = resources.iter().any(|r| r.uri.starts_with("ast-grep://catalog/"));
        let has_catalog_error = resources.iter().any(|r| r.uri == "ast-grep://catalog-error");
        let _has_nav_error = resources.iter().any(|r| r.uri == "ast-grep://navigation-error");

        assert!(has_catalog || has_catalog_error, "Should show catalog resources or catalog error");
    }
}

#[test]
fn test_resource_count_increased() {
    let tools = create_test_tools();
    let resources = tools.list_resources();

    assert!(resources.len() >= 15, "Should have at least 15 resources (was ~11 before improvements)");

    let emoji_resources = resources
        .iter()
        .filter(|r| {
            r.name.contains("🔍")
                || r.name.contains("📚")
                || r.name.contains("📊")
                || r.name.contains("🔧")
                || r.name.contains("📝")
        })
        .count();

    assert!(emoji_resources > 0, "Should have resources with emoji names for better UX");
}

#[test]
fn list_resources_is_static_then_status_then_navigation_then_catalog() {
    let resources = create_test_tools().list_resources();
    let uris = uris(&resources);
    assert_eq!(&uris[..3], &["ast-grep://discover", "ast-grep://languages", "ast-grep://binary-path"]);
    assert_eq!(uris[13], "ast-grep://examples/go");
    assert_eq!(uris[14], "ast-grep://catalog-status");
    assert_eq!(resources[14].name, "📊 Catalog Status");
    assert_eq!(resources[14].description.as_deref(), Some("Catalog loading status: ✅ Loaded 4 catalog examples"));
    assert_eq!(
        &uris[15..],
        &[
            "ast-grep://navigation/language/javascript",
            "ast-grep://navigation/language/rust",
            "ast-grep://navigation/language/python",
            "ast-grep://navigation/feature/pattern",
            "ast-grep://navigation/feature/fix",
            "ast-grep://navigation/feature/kind",
            "ast-grep://navigation/has-fix",
            "ast-grep://navigation/rule/pattern",
            "ast-grep://navigation/rule/kind",
            "ast-grep://navigation/rule/has",
            "ast-grep://catalog/no-console",
            "ast-grep://catalog/example-1",
            "ast-grep://catalog/py",
        ]
    );
}

#[test]
fn list_resources_shows_errors_in_place_of_what_is_missing() {
    let resources = tools_without_catalog().list_resources();
    assert_eq!(resources.len(), 17);
    assert_eq!(resources[14].description.as_deref(), Some("Catalog loading status: ❌ Embedded catalog not available"));
    assert_eq!(resources[15].uri, "ast-grep://navigation-error");
    assert_eq!(resources[15].name, "⚠️ Navigation Error");
    assert_eq!(
        resources[15].description.as_deref(),
        Some("Failed to load navigation resources: Embedded catalog.json not found")
    );
    assert_eq!(resources[15].mime_type.as_deref(), Some("text/plain"));
    assert_eq!(resources[16].uri, "ast-grep://catalog-error");
    assert_eq!(
        resources[16].description.as_deref(),
        Some("Failed to load catalog resources: Embedded catalog.json not found")
    );
}

#[test]
fn navigation_resources_count_examples() {
    let list = load_navigation_resources(&Ok(CATALOG.to_string())).unwrap();
    let rust = &list[1];
    assert_eq!(rust.name, "Catalog: RUST Examples");
    assert_eq!(rust.description.as_deref(), Some("All 2 catalog examples for rust programming language"));
    assert_eq!(rust.mime_type.as_deref(), Some("application/json"));
    assert_eq!(rust.size, None);
    let pattern = &list[3];
    assert_eq!(pattern.name, "Catalog: pattern Feature");
    assert_eq!(pattern.description.as_deref(), Some("All 2 examples using the 'pattern' feature"));
    let fixes = &list[6];
    assert_eq!(fixes.name, "Catalog: Examples with Fixes");
    assert_eq!(fixes.description.as_deref(), Some("All 2 examples that include code transformations/fixes"));
    let kind = &list[8];
    assert_eq!(kind.name, "Catalog: kind Rules");
    assert_eq!(kind.description.as_deref(), Some("All 1 examples using 'kind' rule type"));
    // a catalog without examples has no navigation resources and no fix entry
    assert!(load_navigation_resources(&Ok("{}".to_string())).unwrap().is_empty());
    assert!(load_navigation_resources(&Ok(r#"{"examples": [{"language": 1}]}"#.to_string())).unwrap().is_empty());
    let err = load_navigation_resources(&Ok("{".to_string())).unwrap_err();
    assert!(err.starts_with("Failed to parse catalog.json for navigation: "));
}

#[test]
fn catalog_resources_describe_examples() {
    let list = load_catalog_resources(&Ok(CATALOG.to_string())).unwrap();
    assert_eq!(list.len(), 3);
    assert_eq!(list[0].uri, "ast-grep://catalog/no-console");
    assert_eq!(list[0].name, "🔧 No console");
    assert_eq!(list[0].description.as_deref(), Some("Find console.log calls [JAVASCRIPT + Fix] • Has playground"));
    assert_eq!(list[0].mime_type.as_deref(), Some("text/yaml"));
    assert_eq!(list[0].size, Some(47));
    assert_eq!(list[1].uri, "ast-grep://catalog/example-1");
    assert_eq!(list[1].name, "📝 Unwrap");
    assert_eq!(list[1].description.as_deref(), Some("No description [RUST] "));
    assert_eq!(list[1].size, Some(6));
    assert_eq!(list[2].name, "🔧 Print");
    assert_eq!(list[2].description.as_deref(), Some("print statement [PYTHON + Fix] "));
    let err = load_catalog_resources(&Ok("[]".to_string())).unwrap_err();
    assert_eq!(err, "Catalog file is missing 'examples' array");
    let err = load_catalog_resources(&Ok("nonsense".to_string())).unwrap_err();
    assert!(err.starts_with("Failed to parse catalog.json: "));
    assert_eq!(load_catalog_resources(&Err("gone".to_string())).unwrap_err(), "gone");
}

#[test]
fn catalog_example_is_found_by_its_name() {
    let source = Ok(CATALOG.to_string());
    assert_eq!(get_catalog_example(&source, "ast-grep://catalog/py").unwrap(), "x");
    assert_eq!(get_catalog_example(&source, "ast-grep://catalog/example-1").unwrap(), "héllo");
    let err = get_catalog_example(&source, "ast-grep://catalog/broken").unwrap_err();
    assert_eq!(err.kind, ToolErrorKind::UnknownResource);
    assert_eq!(err.message, "Catalog example not found: broken");
    let err = get_catalog_example(&source, "ast-grep://catalog/").unwrap_err();
    assert_eq!(err.message, "Catalog example not found: ");
    assert_eq!(get_catalog_example(&Err("gone".to_string()), "ast-grep://catalog/py").unwrap_err().kind, ToolErrorKind::Catalog);
}

#[test]
fn navigation_content_selects_and_projects() {
    let source = Ok(CATALOG.to_string());
    let text = get_navigation_content(&source, "ast-grep://navigation/language/rust").unwrap();
    let parsed: serde_json::Value = serde_json::from_str(&text).unwrap();
    let null = serde_json::Value::Null;
    assert_eq!(parsed["language"], "rust");
    assert_eq!(parsed["total_examples"], 2);
    let examples = parsed["examples"].as_array().unwrap();
    assert_eq!(examples.len(), 2);
    assert_eq!(examples[0]["title"], "Unwrap");
    assert_eq!(examples[0]["id"], null);
    assert_eq!(examples[0]["features"].as_array().unwrap().len(), 3);
    assert_eq!(examples[0]["features"][1], 7);
    assert_eq!(examples[0].as_object().unwrap().len(), 7);
    assert_eq!(examples[1]["id"], "broken");
    assert_eq!(examples[1]["has_fix"], "yes");
    // it is printed as serde_json prints it
    let expected = serde_json::to_string_pretty(&parsed).unwrap();
    assert_eq!(text, expected);

    let text = get_navigation_content(&source, "ast-grep://navigation/feature/fix").unwrap();
    let parsed: serde_json::Value = serde_json::from_str(&text).unwrap();
    assert_eq!(parsed["feature"], "fix");
    assert_eq!(parsed["total_examples"], 1);
    assert_eq!(parsed["examples"][0]["language"], "javascript");
    assert_eq!(parsed["examples"][0].as_object().unwrap().len(), 5);

    let text = get_navigation_content(&source, "ast-grep://navigation/has-fix").unwrap();
    let parsed: serde_json::Value = serde_json::from_str(&text).unwrap();
    assert_eq!(parsed["filter"], "has_fix");
    assert_eq!(parsed["total_examples"], 2);

    let text = get_navigation_content(&source, "ast-grep://navigation/rule/has").unwrap();
    let parsed: serde_json::Value = serde_json::from_str(&text).unwrap();
    assert_eq!(parsed["rule_type"], "has");
    assert_eq!(parsed["total_examples"], 1);

    let text = get_navigation_content(&source, "ast-grep://navigation/language/cobol").unwrap();
    let parsed: serde_json::Value = serde_json::from_str(&text).unwrap();
    assert_eq!(parsed["total_examples"], 0);

    let err = get_navigation_content(&source, "ast-grep://navigation/nothing").unwrap_err();
    assert_eq!(err.kind, ToolErrorKind::UnknownResource);
    assert_eq!(err.message, "Navigation resource not found: ast-grep://navigation/nothing");
    let err = get_navigation_content(&Ok("{}".to_string()), "ast-grep://navigation/has-fix").unwrap_err();
    assert_eq!(err.message, "Navigation resource not found: ast-grep://navigation/has-fix");
}

#[test]
fn catalog_status_tells_how_the_catalog_stands() {
    let status = get_catalog_status(&Ok(CATALOG.to_string()));
    assert!(status.loaded);
    assert_eq!(status.path, "embedded://catalog.json");
    assert_eq!(status.example_count, 4);
    assert_eq!(status.summary, "✅ Loaded 4 catalog examples");
    assert_eq!(status.error, None);
    let status = get_catalog_status(&Ok("{}".to_string()));
    assert!(status.loaded);
    assert_eq!(status.summary, "✅ Loaded 0 catalog examples");
    let status = get_catalog_status(&Ok("{".to_string()));
    assert!(!status.loaded);
    assert_eq!(status.summary, "❌ Catalog file corrupt");
    assert!(status.error.unwrap().starts_with("JSON parse error: "));
    let status = get_catalog_status(&Err("Embedded catalog.json not found".to_string()));
    assert_eq!(status.summary, "❌ Embedded catalog not available");
    assert_eq!(status.error.as_deref(), Some("Embedded catalog error: Embedded catalog.json not found"));
}

#[test]
fn read_resource_serves_fixed_documents() {
    let tools = create_test_tools();
    let read = |uri: &str| tools.read_resource(uri, &probe());
    assert_eq!(read("ast-grep://discover").unwrap(), get_discovery_guide());
    assert_eq!(read("ast-grep://languages").unwrap(), get_available_languages());
    assert_eq!(read("ast-grep://binary-path").unwrap(), "/usr/bin/ast-grep");
    let reference = read("ast-grep://cli-reference").unwrap();
    assert_eq!(reference, get_cli_reference("/usr/bin/ast-grep"));
    assert!(reference.contains("- **Bundled Binary Path**: `/usr/bin/ast-grep`"));
    assert!(reference.contains("/usr/bin/ast-grep scan --rule rule.yml src/"));
    assert!(!reference.contains("{binary_path}"));
    assert!(read("ast-grep://rule-examples").unwrap().contains("rule"));
    assert!(read("ast-grep://cheatsheet/rules").unwrap().len() > 1000);
    assert_eq!(read("ast-grep://pattern-syntax").unwrap(), read("ast-grep://docs/pattern-syntax").unwrap());
    assert_eq!(read("ast-grep://rule-composition").unwrap(), read("ast-grep://docs/rule-composition?x=1").unwrap());
    assert!(read("ast-grep://navigation-error").unwrap().starts_with("⚠️ Navigation resources failed to load."));
    assert!(read("ast-grep://catalog-error").unwrap().starts_with("⚠️ Catalog resources failed to load."));
    let status = read("ast-grep://catalog-status").unwrap();
    assert!(status.starts_with("# 📊 Catalog Status\n\n## Current Status: ✅ LOADED\n\n**File Location**: `embedded://catalog.json`  \n**Examples Loaded**: 4  \n**Status**: ✅ Loaded 4 catalog examples\n\n## Details\n\nThe catalog loaded successfully"));
    assert!(status.contains("✅ **Good news!** 4 catalog examples are available.\nYou can browse them using:\n- `ast-grep://navigation/language/{lang}`"));
    assert!(status.ends_with("🎉 **No action needed!** Everything is working correctly.\n\n"));
    let failed = tools_without_catalog().read_resource("ast-grep://catalog-status", &probe()).unwrap();
    assert!(failed.contains("## Current Status: ❌ FAILED"));
    assert!(failed.contains("**Error Details**: Embedded catalog error: Embedded catalog.json not found"));
    assert!(AstGrepTools::needs_binary_probe("ast-grep://cli-reference"));
    assert!(AstGrepTools::needs_binary_probe("ast-grep://binary-path"));
    assert!(!AstGrepTools::needs_binary_probe("ast-grep://discover"));
}

#[test]
fn read_resource_serves_documents_made_for_the_address() {
    let tools = create_test_tools();
    let read = |uri: &str| tools.read_resource(uri, &probe());
    let guide = read("ast-grep://docs/language-guide/RUST?level=advanced&focus=macros").unwrap();
    assert!(guide.starts_with("# Rust AST-Grep Guide (advanced level)\n\n## Focus: macros\n\nThis guide provides advanced-level patterns and examples for Rust development.\n\n## Common Patterns for Rust\n\n\n### Function Items\n"));
    assert!(guide.contains("## Advanced Techniques\n\nAdvanced RUST patterns with complex relational rules and constraints.\n\n## Best Practices\n\nBest practices for writing maintainable RUST ast-grep rules.\n\n"));
    let guide = read("ast-grep://docs/language-guide/cobol").unwrap();
    assert!(guide.starts_with("# Cobol AST-Grep Guide (beginner level)\n\n## Focus: patterns\n"));
    assert!(guide.contains("Generic patterns available for all languages.\n\n## Advanced Techniques\n\nIntermediate patterns with basic relational rules."));
    assert_eq!(
        read("ast-grep://examples/python?complexity=hard").unwrap(),
        "# Python Examples\n\n**Category**: all  \n**Complexity**: hard\n\nFiltered examples for python, category: all, complexity: hard\n\n## Usage\n\nThese examples can be copied directly into your ast-grep rules or used as templates.\n\n"
    );
    assert_eq!(
        read("ast-grep://patterns/security?language=go&fixes=true&fixes=no&fixes=true").unwrap(),
        "# Security Patterns\n\n**Language Filter**: go  \n**Include Fixes**: true\n\nPatterns for category: security, language: go, fixes: true\n\n## Related Categories\n\nRelated categories for: security\n\n"
    );
    assert!(read("ast-grep://patterns/x?fixes=TRUE").unwrap().contains("**Include Fixes**: false"));
    assert_eq!(
        read("ast-grep://query/filter?has_fix=true&language=rust&features=a,b \"c\"").unwrap(),
        "# Filtered Catalog\n\n**Filters Applied**:\n- Has fix: true\n- Language: rust\n- Features: a, b \"c\"\n\n**Results**: 96 patterns\n\nFiltered catalog results (fix: Some(true), lang: Some(\"rust\"), features: Some([\"a\", \"b \\\"c\\\"\"]))\n\n"
    );
    assert_eq!(
        read("ast-grep://query/filter").unwrap(),
        "# Filtered Catalog\n\n**Filters Applied**:\n\n\n**Results**: 64 patterns\n\nFiltered catalog results (fix: None, lang: None, features: None)\n\n"
    );
    assert_eq!(read("ast-grep://catalog/py").unwrap(), "x");
    assert!(read("ast-grep://navigation/has-fix").unwrap().contains("\"total_examples\": 2"));
}

#[test]
fn read_resource_fails_for_unknown_addresses() {
    let tools = create_test_tools();
    for uri in ["ast-grep://nothing", "", "ast-grep://docs/unknown", "http://example.com", "ast-grep://docs/"] {
        let err = tools.read_resource(uri, &probe()).unwrap_err();
        assert_eq!(err.kind, ToolErrorKind::UnknownResource);
        assert_eq!(err.message, format!("Unknown resource: {uri}"));
    }
    let err = tools.read_resource("ast-grep://query/sort?x=1", &probe()).unwrap_err();
    assert_eq!(err.kind, ToolErrorKind::InvalidQuery);
    assert_eq!(err.message, "Unknown query type: sort");
    let err = tools_without_catalog().read_resource("ast-grep://query/search?q=x", &probe()).unwrap_err();
    assert_eq!(err.kind, ToolErrorKind::Catalog);
    assert_eq!(err.message, "Embedded catalog.json not found");
}

#[test]
fn resource_provider_lists_and_reads_documents() {
    let provider = ResourceProvider::new();
    let list = provider.list_resources();
    assert_eq!(list.len(), 9);
    assert_eq!(list[0].uri, "patterns://javascript/refactoring/extract-function");
    assert_eq!(list[0].name, "Pattern Library");
    assert_eq!(list[0].description, None);
    assert_eq!(list[4].uri, "lang://javascript/ast-nodes");
    assert_eq!(list[4].name, "Language Reference");
    assert_eq!(list[8].uri, "rules://performance/unused-variables");
    assert_eq!(list[8].name, "Rule Template");
    let document = provider.get_resource("rules://security/detect-hardcoded-secrets").unwrap();
    assert_eq!(document.get_str("title"), Some("Detect Hardcoded Secrets"));
    let rule = document.get("rule").unwrap();
    assert_eq!(rule.get_str("id"), Some("hardcoded-secrets"));
    assert_eq!(rule.get("rule").unwrap().get_str("pattern"), Some("const $VAR = \"$SECRET\""));
    let document = provider.get_resource("patterns://python/refactoring/extract-function").unwrap();
    let patterns = document.get_array("patterns").unwrap();
    assert_eq!(patterns.len(), 1);
    assert_eq!(patterns[0].get_str("pattern"), Some("def $NAME($PARAMS):\n    $$$"));
    for (uri, kind, message) in [
        ("patterns://none", ToolErrorKind::UnknownResource, "Pattern resource not found: patterns://none"),
        ("lang://cobol/ast-nodes", ToolErrorKind::UnknownResource, "Language reference not found: lang://cobol/ast-nodes"),
        ("rules://x", ToolErrorKind::UnknownResource, "Rule template not found: rules://x"),
        ("ftp://x", ToolErrorKind::UnknownResource, "Unknown resource URI: ftp://x"),
    ] {
        let err = provider.get_resource(uri).unwrap_err();
        assert_eq!(err.kind, kind);
        assert_eq!(err.message, message);
    }
}
