use mcp_ast_grep::ast_grep_tools::{temp_file_path, AstGrepTools, CallContext};
use mcp_ast_grep::binary_manager::BinaryManager;
use mcp_ast_grep::error::ToolErrorKind;
use mcp_ast_grep::json::{JsonNumber, JsonValue};
use mcp_ast_grep::path_resolver::WorkspaceRoot;
use mcp_ast_grep::tool_call::{Stage, ToolAction, ToolCall, ToolEvent};

const RULE: &str = "\nid: test-replace-rule\nlanguage: rust\nrule:\n  pattern: '\"old_value\"'\nfix: '\"new_value\"'\n";

fn text(s: &str) -> JsonValue {
    JsonValue::String(s.to_string())
}

fn object(members: Vec<(&str, JsonValue)>) -> JsonValue {
    JsonValue::Object(members.into_iter().map(|(k, v)| (k.to_string(), v)).collect())
}

fn number(n: u64) -> JsonValue {
    JsonValue::Number(JsonNumber::PosInt(n))
}

fn tools_with_root(root: Option<&str>) -> AstGrepTools {
    let manager = BinaryManager::new(Some("/opt/server"), "linux", "x86_64").unwrap();
    let mut tools = AstGrepTools::new(manager, Err("Embedded catalog.json not found".to_string()));
    if let Some(root) = root {
        tools.set_roots(vec![WorkspaceRoot { uri: format!("file://{root}"), name: Some("test_workspace".to_string()) }]);
    }
    tools
}

fn context(call_id: u64) -> CallContext {
    CallContext { call_id, temp_dir: "/tmp".to_string(), cwd: Ok("/cwd".to_string()) }
}

fn execute_args(operation: Option<&str>, dry_run: Option<bool>) -> JsonValue {
    let mut members = vec![("rule_config", text(RULE)), ("target", text("test.rs"))];
    if let Some(operation) = operation {
        members.push(("operation", text(operation)));
    }
    if let Some(dry_run) = dry_run {
        members.push(("dry_run", JsonValue::Bool(dry_run)));
    }
    object(members)
}

/// Runs a call of `execute_rule` up to the command it runs and returns the
/// call with the arguments of the command.
fn run_to_command(args: &JsonValue) -> (ToolCall, String, Vec<String>) {
    let tools = tools_with_root(Some("/work"));
    let (call, action) = tools.call_tool("execute_rule", args, &context(7));
    assert!(matches!(&action, ToolAction::ProbePaths { paths } if paths == &vec!["/work/test.rs".to_string()]));
    let (call, action) = call.step(ToolEvent::Probed { exists: vec![true] });
    match &action {
        ToolAction::WriteFile { path, content } => {
            assert_eq!(path, "/tmp/execute_rule_7.yml");
            assert_eq!(content, RULE);
        }
        _ => panic!("expected a write"),
    }
    let (call, action) = call.step(ToolEvent::Written(Ok(())));
    assert!(matches!(action, ToolAction::EnsureBinary));
    let (call, action) = call.step(ToolEvent::Binary(Ok("/usr/bin/ast-grep".to_string())));
    match action {
        ToolAction::Run { program, args } => (call, program, args),
        _ => panic!("expected a run"),
    }
}

fn finish(call: ToolCall, event: ToolEvent, removed: &[&str]) -> Result<String, (ToolErrorKind, String)> {
    let (mut call, mut action) = call.step(event);
    for path in removed {
        assert!(matches!(&action, ToolAction::RemoveFile { path: p } if p == path), "expected removal of {path}");
        let next = call.step(ToolEvent::Removed);
        call = next.0;
        action = next.1;
    }
    assert_eq!(call.stage, Stage::Done);
    match action {
        ToolAction::Finish(Ok(text)) => Ok(text),
        ToolAction::Finish(Err(e)) => Err((e.kind, e.message)),
        _ => panic!("expected the call to finish"),
    }
}

#[test]
fn test_execute_rule_replace_dry_run_true() {
    let (call, program, args) = run_to_command(&execute_args(Some("replace"), Some(true)));
    assert_eq!(program, "/usr/bin/ast-grep");
    // a dry run only reports: no rewriting in place
    assert_eq!(args, vec!["scan", "--rule", "/tmp/execute_rule_7.yml", "/work/test.rs", "--json"]);
    let output = "[{\"text\":\"\\\"old_value\\\"\"}]".to_string();
    let result = finish(
        call,
        ToolEvent::Exited { success: true, stdout: output.clone(), stderr: String::new() },
        &["/tmp/execute_rule_7.yml"],
    );
    let output = result.unwrap();
    assert!(output.contains("old_value"), "Expected to find old_value in dry-run output");
}

#[test]
fn test_execute_rule_replace_dry_run_false() {
    let (call, _, args) = run_to_command(&execute_args(Some("replace"), Some(false)));
    // the executable rewrites in place and reports nothing structured
    assert_eq!(args, vec!["scan", "--rule", "/tmp/execute_rule_7.yml", "/work/test.rs", "-U"]);
    let result = finish(
        call,
        ToolEvent::Exited { success: true, stdout: "Applied 1 changes".to_string(), stderr: String::new() },
        &["/tmp/execute_rule_7.yml"],
    );
    assert_eq!(result.unwrap(), "Applied 1 changes");
}

#[test]
fn test_execute_rule_replace_no_dry_run_parameter() {
    // dry_run is true where it is not given
    let (_, _, args) = run_to_command(&execute_args(Some("replace"), None));
    assert_eq!(args.last().unwrap(), "--json");
}

#[test]
fn search_and_scan_report_json_whatever_dry_run_says() {
    for operation in [Some("search"), Some("scan"), None] {
        for dry_run in [Some(true), Some(false), None] {
            let (_, _, args) = run_to_command(&execute_args(operation, dry_run));
            assert_eq!(args, vec!["scan", "--rule", "/tmp/execute_rule_7.yml", "/work/test.rs", "--json"]);
        }
    }
}

#[test]
fn unknown_operation_fails_without_running_anything() {
    let tools = tools_with_root(Some("/work"));
    let (call, action) = tools.call_tool("execute_rule", &execute_args(Some("bogus"), None), &context(1));
    assert!(matches!(action, ToolAction::ProbePaths { .. }));
    let (call, action) = call.step(ToolEvent::Probed { exists: vec![true] });
    assert_eq!(call.stage, Stage::Done);
    assert_eq!(call.written, 0);
    match action {
        ToolAction::Finish(Err(e)) => {
            assert_eq!(e.kind, ToolErrorKind::UnknownOperation);
            assert_eq!(e.message, "Unknown operation: bogus");
        }
        _ => panic!("expected the call to fail"),
    }
    // with an absolute target the call fails at once
    let args = object(vec![("rule_config", text(RULE)), ("target", text("/abs/x.rs")), ("operation", text("bogus"))]);
    let (_, action) = tools.call_tool("execute_rule", &args, &context(1));
    assert!(matches!(&action, ToolAction::Finish(Err(e)) if e.message == "Unknown operation: bogus"));
}

#[test]
fn find_scope_with_unsupported_language_writes_nothing() {
    let tools = tools_with_root(None);
    let args = object(vec![
        ("code", text("IDENTIFICATION DIVISION.")),
        ("language", text("cobol")),
        ("position", object(vec![("line", number(1)), ("column", number(1))])),
        ("scope_rule", text("id: x")),
    ]);
    let (call, action) = tools.call_tool("find_scope", &args, &context(3));
    assert_eq!(call.stage, Stage::Done);
    assert_eq!(call.written, 0);
    assert!(call.files.is_empty());
    match action {
        ToolAction::Finish(Err(e)) => {
            assert_eq!(e.kind, ToolErrorKind::UnsupportedLanguage);
            assert_eq!(e.message, "Unsupported language: cobol");
        }
        _ => panic!("expected the call to fail"),
    }
}

#[test]
fn find_scope_writes_rule_and_code_and_removes_both() {
    let tools = tools_with_root(None);
    let args = object(vec![
        ("code", text("function f() {}")),
        ("language", text("javascript")),
        ("position", object(vec![("line", number(1)), ("column", number(10))])),
        ("scope_rule", text("id: scope\nlanguage: javascript\nrule: {kind: function_declaration}")),
    ]);
    let (call, action) = tools.call_tool("find_scope", &args, &context(42));
    assert!(matches!(&action, ToolAction::WriteFile { path, content }
        if path == "/tmp/find_scope_rule_42.yml" && content.starts_with("id: scope")));
    let (call, action) = call.step(ToolEvent::Written(Ok(())));
    assert!(matches!(&action, ToolAction::WriteFile { path, content }
        if path == "/tmp/code_42.js" && content == "function f() {}"));
    let (call, action) = call.step(ToolEvent::Written(Ok(())));
    assert!(matches!(action, ToolAction::EnsureBinary));
    let (call, action) = call.step(ToolEvent::Binary(Ok("ast-grep".to_string())));
    match &action {
        ToolAction::Run { program, args } => {
            assert_eq!(program, "ast-grep");
            assert_eq!(args, &vec!["scan", "--rule", "/tmp/find_scope_rule_42.yml", "/tmp/code_42.js", "--json"]);
        }
        _ => panic!("expected a run"),
    }
    let result = finish(
        call,
        ToolEvent::Exited { success: false, stdout: String::new(), stderr: "bad rule".to_string() },
        &["/tmp/find_scope_rule_42.yml", "/tmp/code_42.js"],
    );
    assert_eq!(result.unwrap_err(), (ToolErrorKind::ProcessFailed, "ast-grep failed: bad rule".to_string()));
}

#[test]
fn temp_files_are_removed_on_every_failure() {
    let tools = tools_with_root(None);
    let args = || object(vec![
        ("code", text("fn main() {}")),
        ("language", text("rust")),
        ("position", JsonValue::Array(vec![number(1), number(1)])),
        ("scope_rule", text("id: x")),
    ]);
    let rule = "/tmp/find_scope_rule_5.yml";
    let code = "/tmp/code_5.rs";
    // the first write fails: the file may be there, so it is removed
    let (call, _) = tools.call_tool("find_scope", &args(), &context(5));
    let result = finish(call, ToolEvent::Written(Err("read-only file system".to_string())), &[rule]);
    assert_eq!(result.unwrap_err(), (ToolErrorKind::TempFile, "read-only file system".to_string()));
    // the second write fails
    let (call, _) = tools.call_tool("find_scope", &args(), &context(5));
    let (call, _) = call.step(ToolEvent::Written(Ok(())));
    let result = finish(call, ToolEvent::Written(Err("disk full".to_string())), &[rule, code]);
    assert_eq!(result.unwrap_err().0, ToolErrorKind::TempFile);
    // the executable cannot be had
    let (call, _) = tools.call_tool("find_scope", &args(), &context(5));
    let (call, _) = call.step(ToolEvent::Written(Ok(())));
    let (call, _) = call.step(ToolEvent::Written(Ok(())));
    let result = finish(call, ToolEvent::Binary(Err("Unsupported platform: plan9 x86".to_string())), &[rule, code]);
    assert_eq!(result.unwrap_err(), (ToolErrorKind::Binary, "Unsupported platform: plan9 x86".to_string()));
    // the executable cannot be started, or does not finish
    for (event, kind) in [
        (ToolEvent::SpawnFailed("No such file or directory".to_string()), ToolErrorKind::Spawn),
        (ToolEvent::TimedOut, ToolErrorKind::TimedOut),
        (ToolEvent::Removed, ToolErrorKind::UnexpectedEvent),
    ] {
        let (call, _) = tools.call_tool("find_scope", &args(), &context(5));
        let (call, _) = call.step(ToolEvent::Written(Ok(())));
        let (call, _) = call.step(ToolEvent::Written(Ok(())));
        let (call, _) = call.step(ToolEvent::Binary(Ok("ast-grep".to_string())));
        let result = finish(call, event, &[rule, code]);
        assert_eq!(result.unwrap_err().0, kind);
    }
}

#[test]
fn arguments_are_checked_before_anything_else() {
    let tools = tools_with_root(Some("/work"));
    let fails = |tool: &str, args: JsonValue, kind: ToolErrorKind, message: &str| {
        let (call, action) = tools.call_tool(tool, &args, &context(1));
        assert_eq!(call.stage, Stage::Done);
        match action {
            ToolAction::Finish(Err(e)) => {
                assert_eq!(e.kind, kind);
                assert_eq!(e.message, message);
            }
            _ => panic!("expected {tool} to fail"),
        }
    };
    fails("execute_rule", object(vec![("target", text("x"))]), ToolErrorKind::MissingArgument, "Missing rule_config");
    fails("execute_rule", JsonValue::Null, ToolErrorKind::MissingArgument, "Missing rule_config");
    fails("execute_rule", object(vec![("rule_config", text(RULE))]), ToolErrorKind::MissingArgument, "Missing target");
    fails("execute_rule", object(vec![("rule_config", text(RULE)), ("target", number(1))]), ToolErrorKind::MissingArgument, "Missing target");
    fails("find_scope", object(vec![]), ToolErrorKind::MissingArgument, "Missing code");
    fails("find_scope", object(vec![("code", text("x"))]), ToolErrorKind::MissingArgument, "Missing language");
    let base = || vec![("code", text("x")), ("language", text("rust"))];
    fails("find_scope", object(base()), ToolErrorKind::InvalidPosition, "Missing or invalid position");
    for position in [
        object(vec![("line", number(1))]),
        object(vec![("line", number(1)), ("column", text("2"))]),
        object(vec![("line", number(1)), ("column", number(1 << 32))]),
        object(vec![("line", JsonValue::Number(JsonNumber::NegInt(-1))), ("column", number(1))]),
        JsonValue::Array(vec![number(1)]),
        JsonValue::Array(vec![number(1), number(2), number(3)]),
        text("1:2"),
    ] {
        let mut members = base();
        members.push(("position", position));
        fails("find_scope", object(members), ToolErrorKind::InvalidPosition, "Missing or invalid position");
    }
    let mut members = base();
    members.push(("position", object(vec![("line", number(1)), ("column", number(2)), ("extra", text("ok"))])));
    fails("find_scope", object(members), ToolErrorKind::MissingArgument, "Missing scope_rule");
    fails("no_such_tool", object(vec![]), ToolErrorKind::UnknownTool, "Unknown tool: no_such_tool");
}

#[test]
fn invalid_rule_fails_before_the_target_is_looked_at() {
    let tools = tools_with_root(Some("/work"));
    let args = object(vec![("rule_config", text("id: x\n")), ("target", text("missing.rs"))]);
    let (call, action) = tools.call_tool("execute_rule", &args, &context(1));
    assert_eq!(call.stage, Stage::Done);
    assert!(matches!(&action, ToolAction::Finish(Err(e))
        if e.kind == ToolErrorKind::MissingFields && e.message.starts_with("Missing required fields: language, rule")));
}

#[test]
fn target_that_exists_nowhere_fails_before_anything_is_written() {
    let tools = tools_with_root(Some("/work"));
    let (call, _) = tools.call_tool("execute_rule", &execute_args(None, None), &context(1));
    let (call, action) = call.step(ToolEvent::Probed { exists: vec![false] });
    assert_eq!(call.written, 0);
    assert!(matches!(&action, ToolAction::Finish(Err(e))
        if e.kind == ToolErrorKind::PathNotFound
            && e.message == "Path 'test.rs' not found in any root directory. Available roots: test_workspace"));
}

#[test]
fn execute_rule_without_roots_uses_working_directory() {
    let tools = tools_with_root(None);
    let (call, action) = tools.call_tool("execute_rule", &execute_args(None, None), &context(9));
    assert!(matches!(&action, ToolAction::WriteFile { path, .. } if path == "/tmp/execute_rule_9.yml"));
    assert_eq!(call.scan_target, "/cwd/test.rs");
    let context = CallContext { call_id: 9, temp_dir: "/tmp".to_string(), cwd: Err("deleted".to_string()) };
    let (_, action) = tools.call_tool("execute_rule", &execute_args(None, None), &context);
    assert!(matches!(&action, ToolAction::Finish(Err(e))
        if e.kind == ToolErrorKind::CurrentDirectory && e.message == "Failed to get current directory: deleted"));
}

#[test]
fn calls_have_their_own_temporary_files() {
    let a = temp_file_path(&context(1), "execute_rule", "yml");
    let b = temp_file_path(&context(2), "execute_rule", "yml");
    let c = temp_file_path(&context(12), "execute_rule", "yml");
    assert_eq!(a, "/tmp/execute_rule_1.yml");
    assert_eq!(b, "/tmp/execute_rule_2.yml");
    assert_eq!(c, "/tmp/execute_rule_12.yml");
    assert_ne!(a, b);
    assert_ne!(a, c);
}
