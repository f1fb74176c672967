//! The tools that the server lists, with the shape of their arguments.

use vstd::prelude::*;

verus! {

/// The name that the server gives of itself.
pub const SERVER_NAME: &'static str = "mcp-ast-grep";

/// The version that the server gives of itself.
pub const SERVER_VERSION: &'static str = "0.1.0";

/// What the server says it is for.
pub const SERVER_INSTRUCTIONS: &'static str =
    "Minimal ast-grep MCP server with scope navigation and rule execution tools";

/// The shape of the arguments of `find_scope`, as a JSON schema.
pub const FIND_SCOPE_SCHEMA: &'static str = r#"{"type": "object", "properties": {"code": {"type": "string", "description": "Code to search within"}, "language": {"type": "string", "description": "Programming language (e.g., 'javascript', 'python', 'rust')"}, "position": {"type": "object", "properties": {"line": {"type": "number", "description": "Line number (1-indexed)"}, "column": {"type": "number", "description": "Column number (1-indexed)"}}, "required": ["line", "column"], "description": "Cursor position to find scope around"}, "scope_rule": {"type": "string", "description": "YAML rule defining the scope to find (e.g., function, class, loop)"}}, "required": ["code", "language", "position", "scope_rule"]}"#;

/// The shape of the arguments of `execute_rule`, as a JSON schema.
pub const EXECUTE_RULE_SCHEMA: &'static str = r#"{"type": "object", "properties": {"rule_config": {"type": "string", "description": "Complete YAML rule configuration"}, "target": {"type": "string", "description": "File path or directory to apply rule to"}, "operation": {"type": "string", "enum": ["search", "replace", "scan"], "description": "Operation to perform", "default": "search"}, "dry_run": {"type": "boolean", "description": "If true, preview changes without applying", "default": true}}, "required": ["rule_config", "target"]}"#;

/// A tool as it is listed.
#[derive(Debug, Clone)]
pub struct ToolInfo {
    pub name: String,
    pub description: String,
    /// The shape of the arguments, as the text of a JSON schema.
    pub input_schema: String,
}

/// The mathematical value of a [`ToolInfo`].
pub ghost struct ToolView {
    pub name: Seq<char>,
    pub description: Seq<char>,
    pub input_schema: Seq<char>,
}

impl View for ToolInfo {
    type V = ToolView;

    open spec fn view(&self) -> ToolView {
        ToolView {
            name: self.name@,
            description: self.description@,
            input_schema: self.input_schema@,
        }
    }
}

/// The views of a vector of tools, item by item.
pub open spec fn tool_views(items: Seq<ToolInfo>) -> Seq<ToolView> {
    Seq::new(items.len(), |i: int| items[i]@)
}

/// The tools that the server lists.
pub open spec fn listed_tools() -> Seq<ToolView> {
    seq![
        ToolView {
            name: "find_scope"@,
            description: "Find containing scope around a position using relational rules"@,
            input_schema: FIND_SCOPE_SCHEMA@,
        },
        ToolView {
            name: "execute_rule"@,
            description: "Execute ast-grep rule for search, replace, or scan operations"@,
            input_schema: EXECUTE_RULE_SCHEMA@,
        },
    ]
}

/// The tools that the server lists.
pub fn list_tools() -> (tools: Vec<ToolInfo>)
    ensures
        tool_views(tools@) == listed_tools(),
{
    let mut tools: Vec<ToolInfo> = Vec::new();
    tools.push(
        ToolInfo {
            name: "find_scope".to_owned(),
            description: "Find containing scope around a position using relational rules".to_owned(),
            input_schema: FIND_SCOPE_SCHEMA.to_owned(),
        },
    );
    tools.push(
        ToolInfo {
            name: "execute_rule".to_owned(),
            description: "Execute ast-grep rule for search, replace, or scan operations".to_owned(),
            input_schema: EXECUTE_RULE_SCHEMA.to_owned(),
        },
    );
    assert(tool_views(tools@) =~= listed_tools());
    tools
}

} // verus!
