use mcp_ast_grep::ast_grep_tools::{AstGrepTools, CallContext};
use mcp_ast_grep::binary_manager::BinaryManager;
use mcp_ast_grep::evaluation_client::{
    create_default_test_cases, EvaluationClient, EvaluationClientConfig, EvaluationResult,
    EvaluationSuite, McpTool,
};
use mcp_ast_grep::json::{parse_json, JsonNumber, JsonValue};
use mcp_ast_grep::tool_call::ToolAction;

const CATALOG: &str = r#"{"examples": [
  {"id": "a", "title": "Find function declarations", "description": "example one", "language": "javascript", "content": "x"},
  {"id": "b", "title": "Arrow function", "description": "example two", "language": "javascript", "content": "x"},
  {"id": "c", "title": "Async function", "description": "example three", "language": "typescript", "content": "x"},
  {"id": "d", "title": "Function items", "description": "example four", "language": "rust", "content": "x"},
  {"id": "e", "title": "Function definitions", "description": "example five", "language": "python", "content": "x"},
  {"id": "f", "title": "Console log", "description": "console.log example six", "language": "javascript", "content": "x"}
]}"#;

fn create_test_config() -> EvaluationClientConfig {
    EvaluationClientConfig {
        llm_endpoint: "http://httpbin.org/status/200".to_string(),
        llm_api_key: None,
        model_name: "test-model".to_string(),
        server_command: "echo".to_string(),
        server_args: vec!["test".to_string()],
        timeout_seconds: 5,
    }
}

fn json(text: &str) -> JsonValue {
    parse_json(text).unwrap()
}

fn call_tool(tool: &str, args: JsonValue) -> Result<String, String> {
    let binary_manager =
        BinaryManager::new(Some("/opt/server"), "linux", "x86_64").expect("Failed to create binary manager");
    let tools = AstGrepTools::new(binary_manager, Ok(CATALOG.to_string()));
    let context = CallContext { call_id: 1, temp_dir: "/tmp".to_string(), cwd: Ok("/".to_string()) };
    match tools.call_tool(tool, &args, &context).1 {
        ToolAction::Finish(Ok(text)) => Ok(text),
        ToolAction::Finish(Err(e)) => Err(e.message),
        _ => panic!("a search tool finishes at once"),
    }
}

#[test]
fn test_search_examples_pagination_basic() {
    let args = json(r#"{"query": "function", "language": "any", "limit": 3, "offset": 0}"#);
    let result = call_tool("search_examples", args).unwrap();

    assert!(result.contains("Found"));
    assert!(result.contains("total examples"));
    assert!(result.contains("page 1-"));

    let args = json(r#"{"query": "function", "language": "any", "limit": 3, "offset": 3}"#);
    let result = call_tool("search_examples", args).unwrap();

    assert!(result.contains("page 4-"));
}

#[test]
fn test_search_examples_pagination_with_more_indicator() {
    let args = json(r#"{"query": "example", "language": "any", "limit": 2, "offset": 0}"#);
    let result = call_tool("search_examples", args).unwrap();

    assert!(result.contains("total examples"));
    let total_line = result.lines().find(|line| line.contains("total examples")).unwrap_or("");
    assert!(total_line.contains("of "));
    let parts: Vec<&str> = total_line.split(" of ").collect();
    assert!(parts.len() > 1);
    let total_str = parts[1].split(" ").next().unwrap_or("0");
    let total = total_str.parse::<i32>().unwrap();
    assert!(total > 2);
    assert!(result.contains("More results available"));
    assert!(result.contains("offset: 2"));
}

#[test]
fn test_similarity_search_pagination_basic() {
    let args = json(r#"{"pattern": "console.log", "limit": 3, "offset": 0}"#);
    let result = call_tool("similarity_search", args).unwrap();

    assert!(result.contains("similar patterns") || result.contains("No similar patterns"));
}

#[test]
fn test_suggest_examples_pagination_basic() {
    let args = json(
        r#"{"description": "find all function declarations", "language": "any", "limit": 2, "offset": 0}"#,
    );
    let result = call_tool("suggest_examples", args).unwrap();

    assert!(result.contains("potentially relevant examples") || result.contains("No relevant examples"));
}

#[test]
fn test_pagination_edge_cases() {
    let args = json(
        r#"{"query": "nonexistentquerythatshouldhavenooutputs", "language": "any", "limit": 10, "offset": 1000}"#,
    );
    let result = call_tool("search_examples", args).unwrap();
    assert!(result.contains("No") && (result.contains("more examples") || result.contains("examples found")));

    let args = json(r#"{"query": "function", "language": "any", "limit": 0, "offset": 0}"#);
    let result = call_tool("search_examples", args).unwrap();
    assert!(!result.is_empty());
}

#[test]
fn test_pagination_consistency_across_pages() {
    let args1 = json(r#"{"query": "function", "language": "any", "limit": 2, "offset": 0}"#);
    let result1 = call_tool("search_examples", args1).unwrap();

    let args2 = json(r#"{"query": "function", "language": "any", "limit": 2, "offset": 2}"#);
    let result2 = call_tool("search_examples", args2).unwrap();

    assert!(result1.contains("total examples") && result2.contains("total examples"));
    let extract_total = |result: &str| -> Option<i32> {
        result.lines().find(|line| line.contains("total examples")).and_then(|line| {
            line.split(" of ")
                .nth(1)
                .and_then(|part| part.split(" ").next())
                .and_then(|total_str| total_str.parse().ok())
        })
    };
    let (total1, total2) = (extract_total(&result1).unwrap(), extract_total(&result2).unwrap());
    assert_eq!(total1, total2, "Total count should be consistent across pages");
    assert!(total1 > 2);
    assert_ne!(result1, result2, "Different pages should show different results");
}

#[test]
fn test_evaluation_client_creation() {
    let config = create_test_config();
    let client = EvaluationClient::new(config.clone());

    assert_eq!(client.config.llm_endpoint, config.llm_endpoint);
    assert_eq!(client.config.model_name, config.model_name);
    assert_eq!(client.config.server_command, config.server_command);
}

#[test]
fn test_evaluation_client_get_tools() {
    let config = create_test_config();
    let client = EvaluationClient::new(config);

    let tools = client.get_available_tools();

    assert!(!tools.is_empty(), "Should return at least some tools");
    assert!(tools.len() >= 2, "Should return at least 2 tools");

    let tool_names: Vec<&str> = tools.iter().map(|t| t.name.as_str()).collect();
    assert!(tool_names.contains(&"find_scope"));
    assert!(tool_names.contains(&"execute_rule"));

    for tool in &tools {
        assert!(!tool.name.is_empty(), "Tool name should not be empty");
        assert!(!tool.description.is_empty(), "Tool description should not be empty");
        let schema = json(&tool.input_schema);
        assert!(matches!(schema, JsonValue::Object(_)), "Tool schema should be an object");
    }
}

#[test]
fn test_evaluation_client_tool_call() {
    let config = create_test_config();
    let client = EvaluationClient::new(config);

    let test_args = json(r#"{"code": "function test() { return 42; }", "language": "javascript"}"#);

    let result = client.call_mcp_tool("find_scope", &test_args).unwrap();
    assert!(!result.is_empty(), "Tool call should return some result");
    assert!(result.contains("find_scope"), "Result should mention the tool name");

    let result = client.call_mcp_tool("execute_rule", &test_args).unwrap();
    assert!(!result.is_empty(), "Tool call should return some result");
    assert!(result.contains("execute_rule"), "Result should mention the tool name");

    let result = client.call_mcp_tool("unknown_tool", &json("{}"));
    assert!(result.is_err(), "Unknown tool should return error");
}

#[test]
fn test_evaluation_suite_creation() {
    let config = create_test_config();
    let mut suite = EvaluationSuite::new(config);

    let test_cases = create_default_test_cases();
    assert!(!test_cases.is_empty(), "Should have default test cases");

    for test_case in test_cases {
        suite.add_test_case(test_case);
    }
}

#[test]
fn test_default_test_cases() {
    let test_cases = create_default_test_cases();
    assert!(test_cases.len() >= 3, "Should have at least 3 default test cases");

    for test_case in &test_cases {
        assert!(!test_case.name.is_empty(), "Test case should have a name");
        assert!(!test_case.prompt.is_empty(), "Test case should have a prompt");
        assert!(!test_case.expected_tools.is_empty(), "Test case should expect some tools");

        let mock_result = EvaluationResult {
            prompt: test_case.prompt.clone(),
            response: "Mock response with function".to_string(),
            duration_ms: 100,
            tool_calls_made: 1,
            success: true,
            timestamp: 0,
            model_name: String::new(),
            tool_calls: Vec::new(),
            conversation_length: 0,
        };

        let _ = test_case.success_criteria.is_met(&mock_result);
    }
}

#[test]
fn test_conversation_history() {
    let config = create_test_config();
    let mut client = EvaluationClient::new(config);

    assert_eq!(client.conversation_history.len(), 0);

    client.reset_conversation();
    assert_eq!(client.conversation_history.len(), 0);
}

#[test]
fn test_mcp_tool_structure() {
    let tool = McpTool {
        name: "test_tool".to_string(),
        description: "A test tool".to_string(),
        input_schema: r#"{"type": "object", "properties": {"param1": {"type": "string"}}}"#.to_string(),
    };

    assert_eq!(tool.name, "test_tool");
    assert_eq!(tool.description, "A test tool");
    assert!(matches!(json(&tool.input_schema), JsonValue::Object(_)));
}

#[test]
fn test_config_defaults() {
    let default_config = EvaluationClientConfig::default();

    assert_eq!(default_config.llm_endpoint, "http://localhost:1234/v1");
    assert_eq!(default_config.model_name, "gpt-3.5-turbo");
    assert_eq!(default_config.server_command, "cargo");
    assert_eq!(default_config.server_args, vec!["run"]);
    assert_eq!(default_config.timeout_seconds, 30);
    assert!(default_config.llm_api_key.is_none());
}

#[test]
fn numbers_of_the_client_are_read_from_json() {
    let args = json(r#"{"limit": 3}"#);
    assert!(matches!(args.get("limit"), Some(JsonValue::Number(JsonNumber::PosInt(3)))));
}
