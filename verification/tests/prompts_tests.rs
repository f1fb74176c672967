use mcp_ast_grep::ast_grep_tools::AstGrepTools;
use mcp_ast_grep::binary_manager::BinaryManager;
use mcp_ast_grep::error::ToolErrorKind;
use mcp_ast_grep::json::{JsonNumber, JsonValue};
use mcp_ast_grep::prompts::{fill_template, PromptManager};
use mcp_ast_grep::scope_prompts::{get_scope_pattern, get_transform_patterns};
use mcp_ast_grep::tool_catalog::{list_tools, SERVER_NAME};

fn text(s: &str) -> JsonValue {
    JsonValue::String(s.to_string())
}

fn object(members: Vec<(&str, JsonValue)>) -> JsonValue {
    JsonValue::Object(members.into_iter().map(|(k, v)| (k.to_string(), v)).collect())
}

fn tools() -> AstGrepTools {
    let manager = BinaryManager::new(Some("/opt/server"), "linux", "x86_64").unwrap();
    AstGrepTools::new(manager, Err("none".to_string()))
}

#[test]
fn tools_list_two_prompts_with_three_required_arguments() {
    let prompts = tools().list_prompts();
    assert_eq!(prompts.len(), 2);
    assert_eq!(prompts[0].name, "scope_navigation_rule");
    assert_eq!(
        prompts[0].description.as_deref(),
        Some("Generate YAML rule to find specific scope types containing target patterns")
    );
    let arguments = prompts[0].arguments.as_ref().unwrap();
    assert_eq!(arguments.iter().map(|a| a.name.as_str()).collect::<Vec<_>>(), vec!["scope_type", "target_pattern", "language"]);
    assert!(arguments.iter().all(|a| a.required == Some(true)));
    assert_eq!(prompts[1].name, "transform_in_scope");
    let arguments = prompts[1].arguments.as_ref().unwrap();
    assert_eq!(arguments.iter().map(|a| a.name.as_str()).collect::<Vec<_>>(), vec!["what", "scope_type", "language"]);
    assert_eq!(arguments[0].description.as_deref(), Some("What to transform: 'var to const', 'function to arrow', 'callback to async'"));
}

#[test]
fn scope_navigation_prompt_is_filled_in() {
    let args = object(vec![
        ("scope_type", text("class")),
        ("target_pattern", text("await $X")),
        ("language", text("python")),
    ]);
    let prompt = tools().get_prompt("scope_navigation_rule", &args).unwrap();
    assert_eq!(
        prompt,
        "To find class containing await $X in python:\n\n```yaml\nid: find-class-with-await-$X\nlanguage: python\nmessage: \"Found class containing await $X\"\nseverity: info\nrule:\n  all:\n    - pattern: \"class $NAME: $$$\"\n    - has:\n        pattern: \"await $X\"\n```\n\nUse this rule with the execute_rule tool:\n- rule_config: (paste the YAML above)\n- target: (your file or directory path)\n- operation: \"search\"\n"
    );
}

#[test]
fn missing_prompt_arguments_keep_their_defaults() {
    let prompt = tools().get_prompt("scope_navigation_rule", &object(vec![("language", JsonValue::Bool(true))])).unwrap();
    assert!(prompt.starts_with("To find function containing console.log in javascript:\n\n```yaml\nid: find-function-with-console.log\n"));
    assert!(prompt.contains("    - pattern: \"function $NAME($$$) { $$$ }\"\n"));
    let prompt = tools().get_prompt("transform_in_scope", &JsonValue::Null).unwrap();
    assert_eq!(
        prompt,
        "To transform var to const within function in javascript:\n\n```yaml\nid: transform-var-to-const-in-function\nlanguage: javascript\nmessage: \"Transform var to const within function\"\nseverity: info\nrule:\n  all:\n    - pattern: \"var $VAR = $VALUE\"\n    - inside:\n        pattern: \"function $NAME($$$) { $$$ }\"\nfix: \"const $VAR = $VALUE\"\n```\n\nUse this rule with the execute_rule tool:\n- rule_config: (paste the YAML above)\n- target: (your file or directory path)\n- operation: \"replace\"\n- dry_run: true (to preview changes)\n"
    );
}

#[test]
fn prompts_fail_for_what_they_do_not_know() {
    let err = tools().get_prompt("nope", &JsonValue::Null).unwrap_err();
    assert_eq!(err.kind, ToolErrorKind::UnknownPrompt);
    assert_eq!(err.message, "Unknown prompt: nope");
    let err = tools().get_prompt("scope_navigation_rule", &object(vec![("scope_type", text("module"))])).unwrap_err();
    assert_eq!(err.kind, ToolErrorKind::UnsupportedScope);
    assert_eq!(err.message, "Unsupported scope type 'module' for language 'javascript'");
    let err = tools().get_prompt("transform_in_scope", &object(vec![("language", text("rust"))])).unwrap_err();
    assert_eq!(err.kind, ToolErrorKind::UnsupportedTransformation);
    assert_eq!(err.message, "Unsupported transformation 'var to const' for language 'rust'");
    let err = tools().get_prompt("transform_in_scope", &object(vec![("language", text("go"))])).unwrap_err();
    assert_eq!(err.kind, ToolErrorKind::UnsupportedScope);
}

#[test]
fn scope_patterns_follow_the_table() {
    assert_eq!(get_scope_pattern("function", "typescript").unwrap(), "pattern: \"function $NAME($$$) { $$$ }\"");
    assert_eq!(get_scope_pattern("function", "rust").unwrap(), "pattern: \"fn $NAME($$$) -> $RET { $$$ }\"");
    assert_eq!(get_scope_pattern("class", "rust").unwrap(), "pattern: \"impl $TYPE { $$$ }\"");
    assert_eq!(get_scope_pattern("loop", "python").unwrap(), "pattern: \"for $VAR in $ITER: $$$\"");
    assert_eq!(get_scope_pattern("loop", "javascript").unwrap(), "pattern: \"for ($$$) { $$$ }\"");
    assert_eq!(get_scope_pattern("block", "anything").unwrap(), "pattern: \"{ $$$ }\"");
    assert!(get_scope_pattern("function", "go").is_err());
    assert_eq!(
        get_transform_patterns("callback to async", "typescript").unwrap(),
        ("function($$$) { $$$ }".to_string(), "async function($$$) { $$$ }".to_string())
    );
    assert_eq!(
        get_transform_patterns("print to print function", "python").unwrap(),
        ("print $ARGS".to_string(), "print($ARGS)".to_string())
    );
    assert!(get_transform_patterns("print to print function", "javascript").is_err());
}

#[test]
fn prompt_manager_lists_six_prompts() {
    let manager = PromptManager::new();
    let prompts = manager.list_prompts();
    let names: Vec<&str> = prompts.iter().map(|p| p.name.as_str()).collect();
    assert_eq!(names, vec![
        "refactor_function",
        "refactor_variable",
        "security_scan",
        "performance_audit",
        "explain_pattern",
        "debug_pattern"
    ]);
    let arguments = prompts[1].arguments.as_ref().unwrap();
    assert_eq!(arguments[1].name, "new_name");
    assert_eq!(arguments[1].required, Some(false));
    assert_eq!(prompts[2].description.as_deref(), Some("Comprehensive security analysis workflow"));
}

#[test]
fn prompt_manager_fills_placeholders() {
    let manager = PromptManager::new();
    let args = object(vec![
        ("language", text("rust")),
        ("scope", text("src/")),
        ("depth", JsonValue::Number(JsonNumber::PosInt(3))),
    ]);
    let prompt = manager.get_prompt("performance_audit", &args).unwrap();
    assert!(prompt.starts_with("\n# Performance Audit Workflow\n\nYou are performing a performance analysis on a rust codebase.\n\n## Analysis Scope\n- Language: rust\n- Target: src/\n"));
    assert!(prompt.contains("- patterns://rust/performance/optimizations\n"));
    assert!(!prompt.contains("{language}"));
    // a placeholder without an argument stays as it is
    let prompt = manager.get_prompt("security_scan", &object(vec![("language", text("go"))])).unwrap();
    assert!(prompt.contains("- Language: go\n- Target: {scope}\n- Severity: {severity}\n"));
    // anything but a string is written as JSON
    let args = object(vec![("pattern", JsonValue::Array(vec![text("a"), JsonValue::Null])), ("language", JsonValue::Bool(false))]);
    let prompt = manager.get_prompt("explain_pattern", &args).unwrap();
    assert!(prompt.contains("## Pattern to Explain\n```\n[\"a\",null]\n```\n\n## Language Context\n- Language: false\n"));
}

#[test]
fn prompt_manager_fails_for_unknown_prompts() {
    let manager = PromptManager::new();
    for (name, message) in [
        ("refactor_class", "Refactoring prompt not found: refactor_class"),
        ("security_audit", "Analysis prompt not found: security_audit"),
        ("quality_check", "Analysis prompt not found: quality_check"),
        ("performance_", "Analysis prompt not found: performance_"),
        ("explain_rule", "Educational prompt not found: explain_rule"),
        ("debug_", "Educational prompt not found: debug_"),
        ("other", "Unknown prompt: other"),
        ("", "Unknown prompt: "),
    ] {
        let err = manager.get_prompt(name, &JsonValue::Null).unwrap_err();
        assert_eq!(err.kind, ToolErrorKind::UnknownPrompt);
        assert_eq!(err.message, message);
    }
}

#[test]
fn fill_template_replaces_in_the_order_of_the_arguments() {
    let args = object(vec![("a", text("{b}")), ("b", text("x"))]);
    assert_eq!(fill_template("{a}-{b}", &args), "x-x");
    let args = object(vec![("b", text("x")), ("a", text("{b}"))]);
    assert_eq!(fill_template("{a}-{b}", &args), "{b}-x");
    assert_eq!(fill_template("{a}", &JsonValue::Array(vec![])), "{a}");
}

#[test]
fn tool_catalog_lists_the_two_tools() {
    let tools = list_tools();
    assert_eq!(tools.len(), 2);
    assert_eq!(tools[0].name, "find_scope");
    assert_eq!(tools[0].description, "Find containing scope around a position using relational rules");
    assert_eq!(tools[1].name, "execute_rule");
    for tool in &tools {
        let schema: serde_json::Value = serde_json::from_str(&tool.input_schema).unwrap();
        assert_eq!(schema["type"], "object");
        assert!(schema["required"].as_array().unwrap().len() >= 2);
    }
    let schema: serde_json::Value = serde_json::from_str(&tools[1].input_schema).unwrap();
    assert_eq!(schema["properties"]["dry_run"]["default"], true);
    assert_eq!(schema["properties"]["operation"]["enum"][1], "replace");
    assert_eq!(SERVER_NAME, "mcp-ast-grep");
}
