use mcp_ast_grep::benchmark_utils::ExportConfig;
use mcp_ast_grep::evaluation_client::{
    create_default_test_cases, ChatStep, EvaluationClient, EvaluationClientConfig,
    EvaluationResult, EvaluationSuite, OpenAIChatResponse, OpenAIChoice, OpenAIFunction,
    OpenAIMessage, OpenAIResponseMessage, OpenAIToolCall, ResponseAnalysis, ResponseSentiment,
    ResponseSnapshot, SnapshotMetadata, SuccessCriteria, ToolCallResult,
};
use mcp_ast_grep::error::ToolErrorKind;
use mcp_ast_grep::json::{parse_json, JsonValue};
use mcp_ast_grep::snapshot_utils::{cleanup_old_snapshots, DifferenceType, SnapshotManager};

fn client() -> EvaluationClient {
    EvaluationClient::new(EvaluationClientConfig::default())
}

fn result(response: &str, tool_calls_made: usize, success: bool) -> EvaluationResult {
    EvaluationResult {
        prompt: "test prompt".to_string(),
        response: response.to_string(),
        duration_ms: 100,
        tool_calls_made,
        success,
        timestamp: 1234567890,
        model_name: "test-model".to_string(),
        tool_calls: vec![],
        conversation_length: 2,
    }
}

fn create_test_snapshot(test_name: &str, response: &str) -> ResponseSnapshot {
    ResponseSnapshot {
        metadata: SnapshotMetadata {
            test_name: test_name.to_string(),
            model_name: "test-model".to_string(),
            timestamp: 1234567890,
            git_commit: Some("abc123".to_string()),
            prompt_hash: "hash123".to_string(),
        },
        evaluation_result: result(response, 1, true),
        response_analysis: ResponseAnalysis {
            contains_tool_calls: true,
            contains_code: false,
            contains_error: false,
            word_count: response.split_whitespace().count(),
            sentiment: ResponseSentiment::Neutral,
            success_indicators: vec![],
            failure_indicators: vec![],
        },
    }
}

fn tool_call(name: &str, arguments: &str) -> OpenAIToolCall {
    OpenAIToolCall {
        id: "call_1".to_string(),
        call_type: "function".to_string(),
        function: OpenAIFunction { name: name.to_string(), arguments: arguments.to_string() },
    }
}

fn response(content: Option<&str>, tool_calls: Option<Vec<OpenAIToolCall>>) -> OpenAIChatResponse {
    OpenAIChatResponse {
        choices: vec![OpenAIChoice {
            message: OpenAIResponseMessage { content: content.map(|c| c.to_string()), tool_calls },
        }],
    }
}

#[test]
fn default_config_points_at_a_local_endpoint() {
    let config = EvaluationClientConfig::default();
    assert_eq!(config.llm_endpoint, "http://localhost:1234/v1");
    assert_eq!(config.llm_api_key, None);
    assert_eq!(config.model_name, "gpt-3.5-turbo");
    assert_eq!(config.server_command, "cargo");
    assert_eq!(config.server_args, vec!["run"]);
    assert_eq!(config.timeout_seconds, 30);
}

#[test]
fn new_client_has_no_conversation() {
    let client = client();
    assert!(client.conversation_history.is_empty());
    assert_eq!(client.config.model_name, "gpt-3.5-turbo");
}

#[test]
fn client_knows_the_tools_of_the_server() {
    let tools = client().get_available_tools();
    assert_eq!(tools.len(), 2);
    assert_eq!(tools[0].name, "find_scope");
    assert_eq!(tools[1].name, "execute_rule");
    assert!(tools[0].description.contains("scope"));
    let schema: serde_json::Value = serde_json::from_str(&tools[0].input_schema).unwrap();
    assert_eq!(schema["required"], serde_json::from_str::<serde_json::Value>(r#"["code","language","position","scope_rule"]"#).unwrap());
}

#[test]
fn simulated_tools_answer_with_their_arguments() {
    let client = client();
    let args = parse_json(r#"{"code": "x", "n": 1}"#).unwrap();
    assert_eq!(
        client.call_mcp_tool("find_scope", &args).unwrap(),
        "Found scope for tool call: find_scope with args: {\"code\":\"x\",\"n\":1}"
    );
    assert_eq!(
        client.call_mcp_tool("execute_rule", &JsonValue::Null).unwrap(),
        "Executed ast-grep rule: execute_rule with args: null"
    );
    let err = client.call_mcp_tool("nope", &args).unwrap_err();
    assert_eq!(err.kind, ToolErrorKind::UnknownTool);
    assert_eq!(err.message, "Unknown tool: nope");
}

#[test]
fn reset_forgets_the_conversation() {
    let mut client = client();
    client.conversation_history.push(OpenAIMessage {
        role: "user".to_string(),
        content: "hi".to_string(),
        tool_calls: None,
    });
    assert_eq!(client.conversation_history.len(), 1);
    client.reset_conversation();
    assert!(client.conversation_history.is_empty());
}

#[test]
fn default_test_cases_judge_results() {
    let cases = create_default_test_cases();
    assert_eq!(cases.len(), 3);
    assert_eq!(cases[0].name, "Basic AST search");
    assert_eq!(cases[0].expected_tools, vec!["execute_rule"]);
    assert_eq!(cases[1].name, "Scope finding");
    assert_eq!(cases[1].expected_tools, vec!["find_scope"]);
    assert_eq!(cases[2].name, "Code refactoring");
    assert!(cases[2].prompt.contains("logger.info"));
    assert!(cases[0].success_criteria.is_met(&result("a function here", 1, true)));
    assert!(!cases[0].success_criteria.is_met(&result("a function here", 0, true)));
    assert!(!cases[0].success_criteria.is_met(&result("a function here", 1, false)));
    assert!(!cases[0].success_criteria.is_met(&result("nothing", 1, true)));
    assert!(cases[1].success_criteria.is_met(&result("nothing", 2, true)));
    assert!(cases[2].success_criteria.is_met(&result("use logger.info(x)", 1, true)));
    assert!(!SuccessCriteria::UsesTools.is_met(&result("x", 0, true)));
}

#[test]
fn suite_collects_test_cases() {
    let mut suite = EvaluationSuite::new(EvaluationClientConfig::default());
    assert!(suite.test_cases().is_empty());
    for case in create_default_test_cases() {
        suite.add_test_case(case);
    }
    assert_eq!(suite.test_cases().len(), 3);
    assert!(suite.fresh_client().conversation_history.is_empty());
}

#[test]
fn chat_without_tool_calls_ends_with_the_answer() {
    let mut client = client();
    let request = client.begin_chat("hello");
    assert_eq!(request.model, "gpt-3.5-turbo");
    assert_eq!(request.tool_choice, "auto");
    assert_eq!(request.tools.len(), 2);
    assert_eq!(request.tools[0].tool_type, "function");
    assert_eq!(request.tools[1].function.name, "execute_rule");
    assert_eq!(request.messages.len(), 1);
    assert_eq!(request.messages[0].role, "user");
    assert_eq!(request.messages[0].content, "hello");
    match client.handle_chat_response(&response(Some("hi there"), None)).unwrap() {
        ChatStep::Done(answer) => assert_eq!(answer, "hi there"),
        _ => panic!("expected the turn to be over"),
    }
    assert_eq!(client.conversation_history.len(), 2);
    assert_eq!(client.conversation_history[1].role, "assistant");
    assert_eq!(client.conversation_history[1].content, "hi there");
    assert_eq!(client.count_tool_calls_in_conversation(), 0);
    match client.handle_chat_response(&response(None, None)).unwrap() {
        ChatStep::Done(answer) => assert_eq!(answer, ""),
        _ => panic!("expected the turn to be over"),
    }
}

#[test]
fn chat_with_tool_calls_reports_to_the_model() {
    let mut client = client();
    client.begin_chat("find functions");
    let calls = vec![
        tool_call("execute_rule", r#"{"target": "src"}"#),
        tool_call("unknown_tool", "{}"),
    ];
    let step = client.handle_chat_response(&response(None, Some(calls))).unwrap();
    let request = match step {
        ChatStep::FollowUp(request) => request,
        _ => panic!("expected a follow-up"),
    };
    assert_eq!(request.tool_choice, "none");
    assert!(request.tools.is_empty());
    assert_eq!(request.messages.len(), 4);
    let history = &client.conversation_history;
    assert_eq!(history.len(), 4);
    assert_eq!(history[1].role, "assistant");
    assert_eq!(history[1].content, "");
    assert_eq!(history[1].tool_calls.as_ref().unwrap().len(), 2);
    assert_eq!(history[2].role, "tool");
    assert_eq!(
        history[2].content,
        "Tool execute_rule: Executed ast-grep rule: execute_rule with args: {\"target\":\"src\"}"
    );
    assert_eq!(history[3].content, "Tool unknown_tool failed: Unknown tool: unknown_tool");
    let answer = client.finish_chat(&response(Some("done"), None));
    assert_eq!(answer, "done");
    assert_eq!(client.conversation_history.len(), 5);
    assert_eq!(client.count_tool_calls_in_conversation(), 2);
    let recorded = client.extract_tool_calls_from_recent_conversation(0);
    assert_eq!(recorded.len(), 2);
    assert_eq!(recorded[0].tool_name, "execute_rule");
    assert_eq!(recorded[0].arguments.get_str("target"), Some("src"));
    assert_eq!(recorded[0].result, "Simulated result");
    assert!(recorded[0].success);
    assert_eq!(recorded[0].duration_ms, 0);
    assert!(client.extract_tool_calls_from_recent_conversation(2).is_empty());
    assert!(client.extract_tool_calls_from_recent_conversation(99).is_empty());
    assert_eq!(client.extract_tool_calls_from_recent_conversation(1).len(), 2);
    let outcome = client.evaluation_result("find functions", answer, 12, 1700000000, 0);
    assert_eq!(outcome.prompt, "find functions");
    assert_eq!(outcome.response, "done");
    assert_eq!(outcome.duration_ms, 12);
    assert_eq!(outcome.tool_calls_made, 2);
    assert!(outcome.success);
    assert_eq!(outcome.timestamp, 1700000000);
    assert_eq!(outcome.model_name, "gpt-3.5-turbo");
    assert_eq!(outcome.tool_calls.len(), 2);
    assert_eq!(outcome.conversation_length, 5);
}

#[test]
fn chat_fails_on_arguments_that_are_no_json() {
    let mut client = client();
    client.begin_chat("x");
    let calls = vec![tool_call("find_scope", "{}"), tool_call("execute_rule", "{not json")];
    let err = client.handle_chat_response(&response(Some("c"), Some(calls))).unwrap_err();
    assert_eq!(err.message, "Failed to parse tool arguments");
    assert_eq!(client.conversation_history.len(), 1);
    // arguments that are no JSON are recorded as null
    client.conversation_history.push(OpenAIMessage {
        role: "assistant".to_string(),
        content: String::new(),
        tool_calls: Some(vec![tool_call("execute_rule", "{not json")]),
    });
    let recorded = client.extract_tool_calls_from_recent_conversation(1);
    assert!(matches!(recorded[0].arguments, JsonValue::Null));
}

#[test]
fn analysis_looks_for_code_errors_and_sentiment() {
    let client = client();
    let analysis = client.analyze_response(
        "I found 2 matches and Successfully executed the rule:\n```js\nconst x = 1;\n```",
        &result("", 1, true),
    );
    assert!(analysis.contains_tool_calls);
    assert!(analysis.contains_code);
    assert!(!analysis.contains_error);
    assert_eq!(analysis.word_count, 15);
    assert_eq!(analysis.sentiment, ResponseSentiment::Positive);
    assert_eq!(analysis.success_indicators, vec!["successfully", "found", "executed"]);
    assert!(analysis.failure_indicators.is_empty());
    let analysis = client.analyze_response("Sorry, the scan FAILED: file not found (timeout)", &result("", 0, true));
    assert!(!analysis.contains_tool_calls);
    assert!(!analysis.contains_code);
    assert!(analysis.contains_error);
    assert_eq!(analysis.sentiment, ResponseSentiment::Confused);
    assert_eq!(analysis.success_indicators, vec!["found"]);
    assert_eq!(analysis.failure_indicators, vec!["failed", "not found", "timeout"]);
    assert_eq!(client.analyze_sentiment("I can help you"), ResponseSentiment::Helpful);
    assert_eq!(client.analyze_sentiment("task is DONE"), ResponseSentiment::Positive);
    assert_eq!(client.analyze_sentiment("there is a problem"), ResponseSentiment::Negative);
    assert_eq!(client.analyze_sentiment("it is what it is"), ResponseSentiment::Neutral);
    assert_eq!(client.analyze_sentiment("helpful but unclear"), ResponseSentiment::Confused);
    assert!(client.detect_code_blocks("use fn main"));
    assert!(client.detect_code_blocks("a class Foo"));
    assert!(!client.detect_code_blocks("FUNCTION definitions"));
    assert!(client.detect_error_patterns("Null Reference at line 3"));
    assert!(client.detect_error_patterns("it PANICked"));
    assert!(!client.detect_error_patterns("all good"));
    assert_eq!(client.analyze_response("", &result("", 0, true)).word_count, 0);
}

#[test]
fn differences_are_found_in_order() {
    let manager = SnapshotManager::new("test_snapshots");
    assert_eq!(manager.snapshots_dir(), "test_snapshots");
    let snapshot1 = create_test_snapshot("test1", "original response");
    let snapshot2 = create_test_snapshot("test1", "modified response");
    let differences = manager.find_differences(&snapshot1, &snapshot2);
    assert!(!differences.is_empty());
    assert_eq!(differences.len(), 1);
    assert_eq!(differences[0].field, "response_content");
    assert_eq!(differences[0].previous_value, "original response");
    assert_eq!(differences[0].current_value, "modified response");
    assert_eq!(differences[0].diff_type, DifferenceType::ResponseContent);

    let same = create_test_snapshot("test1", "same response");
    assert!(manager.find_differences(&same, &create_test_snapshot("test1", "same response")).is_empty());

    let mut changed = create_test_snapshot("test1", "same response now longer");
    changed.evaluation_result.tool_calls_made = 3;
    changed.evaluation_result.duration_ms = 1101;
    changed.response_analysis.contains_error = true;
    let differences = manager.find_differences(&same, &changed);
    let fields: Vec<&str> = differences.iter().map(|d| d.field.as_str()).collect();
    assert_eq!(fields, vec!["response_content", "tool_calls_count", "duration_ms", "contains_error", "word_count"]);
    assert_eq!((differences[1].previous_value.as_str(), differences[1].current_value.as_str()), ("1", "3"));
    assert_eq!(differences[1].diff_type, DifferenceType::ToolCalls);
    assert_eq!((differences[2].previous_value.as_str(), differences[2].current_value.as_str()), ("100", "1101"));
    assert_eq!(differences[2].diff_type, DifferenceType::Duration);
    assert_eq!((differences[3].previous_value.as_str(), differences[3].current_value.as_str()), ("false", "true"));
    assert_eq!((differences[4].previous_value.as_str(), differences[4].current_value.as_str()), ("2", "4"));
    assert_eq!(differences[4].diff_type, DifferenceType::Analysis);
    // a second is within tolerance, in either direction
    changed.evaluation_result.duration_ms = 1100;
    assert!(manager.find_differences(&same, &changed).iter().all(|d| d.field != "duration_ms"));
    assert!(manager.find_differences(&changed, &same).iter().all(|d| d.field != "duration_ms"));
}

#[test]
fn snapshots_are_written_as_comma_separated_values() {
    let manager = SnapshotManager::new("dir");
    let mut second = create_test_snapshot("test2", "b c");
    second.response_analysis.sentiment = ResponseSentiment::Helpful;
    second.evaluation_result.success = false;
    let table = manager.export_to_csv(&vec![create_test_snapshot("test1", "a"), second]);
    assert_eq!(
        table,
        "test_name,model_name,timestamp,prompt_hash,duration_ms,tool_calls_made,success,word_count,contains_error,sentiment\ntest1,test-model,1234567890,hash123,100,1,true,1,false,Neutral\ntest2,test-model,1234567890,hash123,100,1,false,2,false,Helpful\n"
    );
    assert!(manager.export_to_csv(&Vec::new()).ends_with("sentiment\n"));
}

#[test]
fn old_snapshots_are_counted() {
    let day = 24 * 60 * 60;
    let mut snapshots = Vec::new();
    for age_days in [0u64, 1, 5, 10, 30] {
        let mut snapshot = create_test_snapshot("t", "r");
        snapshot.metadata.timestamp = 1_000_000_000 - age_days * day;
        snapshots.push(snapshot);
    }
    assert_eq!(cleanup_old_snapshots(&snapshots, 1_000_000_000, 7), 2);
    assert_eq!(cleanup_old_snapshots(&snapshots, 1_000_000_000, 0), 4);
    assert_eq!(cleanup_old_snapshots(&snapshots, 1_000_000_000, 30), 0);
    assert_eq!(cleanup_old_snapshots(&snapshots, 1_000_000_000, 5), 2);
    assert_eq!(cleanup_old_snapshots(&Vec::new(), 1_000_000_000, 5), 0);
}

#[test]
fn baseline_and_most_recent_snapshot_of_a_test() {
    let manager = SnapshotManager::new("dir");
    let at = |name: &str, timestamp: u64| {
        let mut snapshot = create_test_snapshot(name, "r");
        snapshot.metadata.timestamp = timestamp;
        snapshot
    };
    let snapshots = vec![at("a", 50), at("b", 10), at("a", 20), at("a", 90), at("a", 20), at("b", 10), at("a", 90)];
    assert_eq!(manager.baseline_of(&snapshots, 15, 0), Some(2));
    assert_eq!(manager.baseline_of(&snapshots, 21, 0), Some(0));
    assert_eq!(manager.baseline_of(&snapshots, 90, 2), Some(3));
    assert_eq!(manager.baseline_of(&snapshots, 91, 0), None);
    assert_eq!(manager.baseline_of(&snapshots, 0, 1), Some(1));
    assert_eq!(manager.most_recent_of(&snapshots, 0), 6);
    assert_eq!(manager.most_recent_of(&snapshots, 6), 6);
    assert_eq!(manager.most_recent_of(&snapshots, 1), 5);
    assert_eq!(manager.most_recent_of(&vec![at("x", 5), at("x", 1)], 1), 0);
}

#[test]
fn snapshots_are_counted() {
    let manager = SnapshotManager::new("dir");
    let call = |name: &str| ToolCallResult {
        tool_name: name.to_string(),
        arguments: JsonValue::Null,
        result: String::new(),
        success: true,
        duration_ms: 0,
    };
    let mut first = create_test_snapshot("search", "r");
    first.evaluation_result.tool_calls = vec![call("find_scope"), call("execute_rule"), call("execute_rule")];
    let mut second = create_test_snapshot("scope", "r");
    second.metadata.model_name = "other".to_string();
    second.evaluation_result.success = false;
    second.evaluation_result.duration_ms = u64::MAX;
    second.evaluation_result.tool_calls = vec![call("execute_rule"), call("search_examples")];
    let third = create_test_snapshot("search", "r");
    let counts = manager.count_snapshots(&vec![first, second, third]);
    assert_eq!(counts.total_snapshots, 3);
    assert_eq!(counts.test_coverage, vec![("search".to_string(), 2), ("scope".to_string(), 1)]);
    assert_eq!(counts.model_coverage, vec![("test-model".to_string(), 2), ("other".to_string(), 1)]);
    assert_eq!(counts.total_duration_ms, u64::MAX);
    assert_eq!(counts.success_count, 2);
    assert_eq!(
        counts.most_common_tools,
        vec![("execute_rule".to_string(), 3), ("find_scope".to_string(), 1), ("search_examples".to_string(), 1)]
    );
    let counts = manager.count_snapshots(&Vec::new());
    assert_eq!(counts.total_snapshots, 0);
    assert!(counts.most_common_tools.is_empty());
}

#[test]
fn export_config_knows_its_formats() {
    let config = ExportConfig::standard();
    assert_eq!(config.formats, vec!["json", "csv", "html"]);
    assert_eq!(config.output_directory, "benchmark_results");
    assert!(config.include_raw_data && config.include_charts);
    assert!(config.includes("csv"));
    assert!(config.includes("html"));
    assert!(!config.includes("pdf"));
    assert!(!config.includes("CSV"));
}

#[test]
fn test_snapshot_comparison() {
    let manager = SnapshotManager::new("test_snapshots");

    let snapshot1 = create_test_snapshot("test1", "original response");
    let snapshot2 = create_test_snapshot("test1", "modified response");

    let comparison = manager.compare_snapshots(snapshot1, snapshot2);

    assert!(!comparison.differences.is_empty());
    assert!((comparison.similarity_tenths as f64) / 10.0 < 1.0);
}

#[test]
fn test_similarity_calculation() {
    let manager = SnapshotManager::new("test_snapshots");

    let snapshot1 = create_test_snapshot("test1", "same response");
    let snapshot2 = create_test_snapshot("test1", "same response");

    let comparison = manager.compare_snapshots(snapshot1, snapshot2);

    assert!(comparison.differences.is_empty());
    assert_eq!((comparison.similarity_tenths as f64) / 10.0, 1.0);
}

#[test]
fn similarity_loses_tenths_by_kind_of_difference() {
    let manager = SnapshotManager::new("test_snapshots");
    let base = create_test_snapshot("test1", "same response");

    // a changed response costs four tenths
    let changed = create_test_snapshot("test1", "other response");
    let comparison = manager.compare_snapshots(base.clone(), changed);
    assert_eq!(comparison.similarity_tenths, 6);
    assert_eq!(comparison.previous.evaluation_result.response, "same response");
    assert_eq!(comparison.current.evaluation_result.response, "other response");

    // changed tool calls cost three
    let mut tools = base.clone();
    tools.evaluation_result.tool_calls_made = 5;
    assert_eq!(manager.compare_snapshots(base.clone(), tools).similarity_tenths, 7);

    // a duration further off than a second costs one
    let mut slow = base.clone();
    slow.evaluation_result.duration_ms = 5000;
    assert_eq!(manager.compare_snapshots(base.clone(), slow).similarity_tenths, 9);

    // each change of the analysis costs two
    let mut analysed = base.clone();
    analysed.response_analysis.contains_error = true;
    analysed.response_analysis.word_count = 99;
    assert_eq!(manager.compare_snapshots(base.clone(), analysed).similarity_tenths, 6);

    // with everything changed nothing is left
    let mut all = create_test_snapshot("test1", "other response");
    all.evaluation_result.tool_calls_made = 5;
    all.evaluation_result.duration_ms = 5000;
    all.response_analysis.contains_error = true;
    all.response_analysis.word_count = 99;
    let comparison = manager.compare_snapshots(base, all);
    assert_eq!(comparison.differences.len(), 5);
    assert_eq!(comparison.similarity_tenths, 0);
}

#[test]
fn regressions_pair_baseline_and_most_recent() {
    let manager = SnapshotManager::new("test_snapshots");
    let at = |name: &str, response: &str, timestamp: u64| {
        let mut snapshot = create_test_snapshot(name, response);
        snapshot.metadata.timestamp = timestamp;
        snapshot
    };
    let snapshots = vec![
        at("search", "new answer", 300),
        at("scope", "steady", 100),
        at("search", "old answer", 100),
        at("scope", "steady", 200),
        at("search", "older answer", 50),
        at("alone", "only one", 150),
    ];
    // the search test changed its response between its baseline and its
    // most recent snapshot; the scope test did not; the last has one snapshot
    assert_eq!(manager.find_regressions(&snapshots, 60), vec![(2, 0)]);
    // with an earlier cutoff the baseline of the search test is older
    assert_eq!(manager.find_regressions(&snapshots, 0), vec![(4, 0)]);
    // no baseline at or after the cutoff: nothing to compare
    assert_eq!(manager.find_regressions(&snapshots, 301), Vec::<(usize, usize)>::new());
    assert_eq!(manager.find_regressions(&Vec::new(), 0), Vec::<(usize, usize)>::new());

    // changed tool calls alone leave seven tenths, which is no regression
    let mut later = at("tools", "same", 20);
    later.evaluation_result.tool_calls_made = 9;
    assert_eq!(
        manager.find_regressions(&vec![at("tools", "same", 10), later], 0),
        Vec::<(usize, usize)>::new()
    );
}
