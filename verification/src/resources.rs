//! Reference material by address: pattern libraries, the node kinds of
//! languages, and rule templates.
//!
//! Each resource is a JSON document. It is kept as text and read when it is
//! asked for.

use crate::error::{ToolError, ToolErrorKind};
use crate::json::{json_document, parse_json, JsonTree, JsonValue};
use crate::resource::{resource_views, ResourceInfo, ResourceView};
use crate::text::{has_prefix, starts_with, str_eq};
use vstd::prelude::*;

verus! {

/// The document at `patterns://javascript/refactoring/extract-function`.
pub const PATTERNS_JAVASCRIPT_REFACTORING_EXTRACT_FUNCTION: &'static str = r#"{"title": "Extract Function Patterns", "description": "Common patterns for extracting functions in JavaScript", "patterns": [{"name": "Extract arrow function", "pattern": "($A) => { $$$ }", "description": "Extract arrow function expression", "example": "const handler = (event) => { console.log(event); };"}, {"name": "Extract function declaration", "pattern": "function $NAME($PARAMS) { $$$ }", "description": "Extract function declaration", "example": "function processData(data) { return data.map(item => item.value); }"}]}"#;

/// The document at `patterns://javascript/security/common-vulnerabilities`.
pub const PATTERNS_JAVASCRIPT_SECURITY_COMMON_VULNERABILITIES: &'static str = r#"{"title": "JavaScript Security Patterns", "description": "Patterns for detecting common security vulnerabilities", "patterns": [{"name": "Hardcoded secrets", "pattern": "const $VAR = \"$_\"", "description": "Detect potential hardcoded secrets", "example": "const API_KEY = \"sk-1234567890abcdef\";"}, {"name": "Eval usage", "pattern": "eval($ARG)", "description": "Detect dangerous eval() usage", "example": "eval(userInput);"}]}"#;

/// The document at `patterns://python/refactoring/extract-function`.
pub const PATTERNS_PYTHON_REFACTORING_EXTRACT_FUNCTION: &'static str = r#"{"title": "Python Function Extraction", "description": "Patterns for extracting functions in Python", "patterns": [{"name": "Extract function", "pattern": "def $NAME($PARAMS):\n    $$$", "description": "Extract function definition", "example": "def process_data(data):\n    return [item.value for item in data]"}]}"#;

/// The document at `patterns://rust/refactoring/extract-function`.
pub const PATTERNS_RUST_REFACTORING_EXTRACT_FUNCTION: &'static str = r#"{"title": "Rust Function Extraction", "description": "Patterns for extracting functions in Rust", "patterns": [{"name": "Extract function", "pattern": "fn $NAME($PARAMS) -> $RET { $$$ }", "description": "Extract function definition", "example": "fn process_data(data: Vec<Item>) -> Vec<Value> { data.into_iter().map(|item| item.value).collect() }"}]}"#;

/// The document at `lang://javascript/ast-nodes`.
pub const LANG_JAVASCRIPT_AST_NODES: &'static str = r#"{"title": "JavaScript AST Node Types", "description": "Common AST node types in JavaScript for ast-grep patterns", "nodes": [{"name": "function_declaration", "description": "Function declaration node", "example": "function name() {}"}, {"name": "arrow_function", "description": "Arrow function expression", "example": "() => {}"}, {"name": "call_expression", "description": "Function call expression", "example": "func(args)"}, {"name": "identifier", "description": "Variable or function name", "example": "variableName"}]}"#;

/// The document at `lang://python/ast-nodes`.
pub const LANG_PYTHON_AST_NODES: &'static str = r#"{"title": "Python AST Node Types", "description": "Common AST node types in Python for ast-grep patterns", "nodes": [{"name": "function_definition", "description": "Function definition node", "example": "def name(): pass"}, {"name": "call", "description": "Function call expression", "example": "func(args)"}, {"name": "name", "description": "Variable or function name", "example": "variable_name"}]}"#;

/// The document at `lang://rust/ast-nodes`.
pub const LANG_RUST_AST_NODES: &'static str = r#"{"title": "Rust AST Node Types", "description": "Common AST node types in Rust for ast-grep patterns", "nodes": [{"name": "function_item", "description": "Function definition node", "example": "fn name() {}"}, {"name": "call_expression", "description": "Function call expression", "example": "func(args)"}, {"name": "identifier", "description": "Variable or function name", "example": "variable_name"}]}"#;

/// The document at `rules://security/detect-hardcoded-secrets`.
pub const RULES_SECURITY_DETECT_HARDCODED_SECRETS: &'static str = r#"{"title": "Detect Hardcoded Secrets", "description": "Rule template for detecting hardcoded secrets", "rule": {"id": "hardcoded-secrets", "message": "Potential hardcoded secret detected", "severity": "error", "language": "javascript", "rule": {"pattern": "const $VAR = \"$SECRET\"", "constraints": {"SECRET": {"regex": "^(sk-|key-|token-|secret-|api-)"}}}}}"#;

/// The document at `rules://performance/unused-variables`.
pub const RULES_PERFORMANCE_UNUSED_VARIABLES: &'static str = r#"{"title": "Unused Variables", "description": "Rule template for detecting unused variables", "rule": {"id": "unused-variables", "message": "Unused variable detected", "severity": "warning", "language": "javascript", "rule": {"pattern": "let $VAR = $VALUE", "not": {"pattern": "$VAR"}}}}"#;

/// A document with its address.
#[derive(Debug)]
pub struct StoredResource {
    pub uri: String,
    /// The document as JSON text.
    pub text: String,
}

/// The stored documents by address and text.
pub open spec fn stored_views(items: Seq<StoredResource>) -> Seq<(Seq<char>, Seq<char>)> {
    Seq::new(items.len(), |i: int| (items[i].uri@, items[i].text@))
}

/// The documents of the pattern library, by address.
pub open spec fn pattern_table() -> Seq<(Seq<char>, Seq<char>)> {
    seq![
        ("patterns://javascript/refactoring/extract-function"@, PATTERNS_JAVASCRIPT_REFACTORING_EXTRACT_FUNCTION@),
        ("patterns://javascript/security/common-vulnerabilities"@, PATTERNS_JAVASCRIPT_SECURITY_COMMON_VULNERABILITIES@),
        ("patterns://python/refactoring/extract-function"@, PATTERNS_PYTHON_REFACTORING_EXTRACT_FUNCTION@),
        ("patterns://rust/refactoring/extract-function"@, PATTERNS_RUST_REFACTORING_EXTRACT_FUNCTION@),
    ]
}

/// The documents of this table.
pub fn pattern_documents() -> (documents: Vec<StoredResource>)
    ensures
        stored_views(documents@) == pattern_table(),
{
    let mut documents: Vec<StoredResource> = Vec::new();
    documents.push(StoredResource { uri: "patterns://javascript/refactoring/extract-function".to_owned(), text: PATTERNS_JAVASCRIPT_REFACTORING_EXTRACT_FUNCTION.to_owned() });
    documents.push(StoredResource { uri: "patterns://javascript/security/common-vulnerabilities".to_owned(), text: PATTERNS_JAVASCRIPT_SECURITY_COMMON_VULNERABILITIES.to_owned() });
    documents.push(StoredResource { uri: "patterns://python/refactoring/extract-function".to_owned(), text: PATTERNS_PYTHON_REFACTORING_EXTRACT_FUNCTION.to_owned() });
    documents.push(StoredResource { uri: "patterns://rust/refactoring/extract-function".to_owned(), text: PATTERNS_RUST_REFACTORING_EXTRACT_FUNCTION.to_owned() });
    assert(stored_views(documents@) =~= pattern_table());
    documents
}

/// The documents of the language references, by address.
pub open spec fn reference_table() -> Seq<(Seq<char>, Seq<char>)> {
    seq![
        ("lang://javascript/ast-nodes"@, LANG_JAVASCRIPT_AST_NODES@),
        ("lang://python/ast-nodes"@, LANG_PYTHON_AST_NODES@),
        ("lang://rust/ast-nodes"@, LANG_RUST_AST_NODES@),
    ]
}

/// The documents of this table.
pub fn reference_documents() -> (documents: Vec<StoredResource>)
    ensures
        stored_views(documents@) == reference_table(),
{
    let mut documents: Vec<StoredResource> = Vec::new();
    documents.push(StoredResource { uri: "lang://javascript/ast-nodes".to_owned(), text: LANG_JAVASCRIPT_AST_NODES.to_owned() });
    documents.push(StoredResource { uri: "lang://python/ast-nodes".to_owned(), text: LANG_PYTHON_AST_NODES.to_owned() });
    documents.push(StoredResource { uri: "lang://rust/ast-nodes".to_owned(), text: LANG_RUST_AST_NODES.to_owned() });
    assert(stored_views(documents@) =~= reference_table());
    documents
}

/// The documents of the rule templates, by address.
pub open spec fn template_table() -> Seq<(Seq<char>, Seq<char>)> {
    seq![
        ("rules://security/detect-hardcoded-secrets"@, RULES_SECURITY_DETECT_HARDCODED_SECRETS@),
        ("rules://performance/unused-variables"@, RULES_PERFORMANCE_UNUSED_VARIABLES@),
    ]
}

/// The documents of this table.
pub fn template_documents() -> (documents: Vec<StoredResource>)
    ensures
        stored_views(documents@) == template_table(),
{
    let mut documents: Vec<StoredResource> = Vec::new();
    documents.push(StoredResource { uri: "rules://security/detect-hardcoded-secrets".to_owned(), text: RULES_SECURITY_DETECT_HARDCODED_SECRETS.to_owned() });
    documents.push(StoredResource { uri: "rules://performance/unused-variables".to_owned(), text: RULES_PERFORMANCE_UNUSED_VARIABLES.to_owned() });
    assert(stored_views(documents@) =~= template_table());
    documents
}

/// The text of the first document of a table at `uri`.
pub open spec fn lookup_document(table: Seq<(Seq<char>, Seq<char>)>, uri: Seq<char>) -> Option<
    Seq<char>,
>
    decreases table.len(),
{
    if table.len() == 0 {
        None
    } else if table[0].0 == uri {
        Some(table[0].1)
    } else {
        lookup_document(table.skip(1), uri)
    }
}

/// An outcome of asking for a document, by its views.
pub type DocumentOutcome = Result<JsonTree, (ToolErrorKind, Seq<char>)>;

/// The document of a table at `uri`, read as JSON; `missing` begins the
/// message where the table has no such document.
pub open spec fn group_document(
    table: Seq<(Seq<char>, Seq<char>)>,
    missing: Seq<char>,
    uri: Seq<char>,
) -> DocumentOutcome {
    match lookup_document(table, uri) {
        Some(text) => match json_document(text) {
            Ok(tree) => Ok(tree),
            Err(message) => Err((ToolErrorKind::Catalog, message)),
        },
        None => Err((ToolErrorKind::UnknownResource, missing + uri)),
    }
}

/// The document at `uri`. The scheme of the address says which table holds
/// the document.
pub open spec fn provided(uri: Seq<char>) -> DocumentOutcome {
    if has_prefix(uri, "patterns://"@) {
        group_document(pattern_table(), "Pattern resource not found: "@, uri)
    } else if has_prefix(uri, "lang://"@) {
        group_document(reference_table(), "Language reference not found: "@, uri)
    } else if has_prefix(uri, "rules://"@) {
        group_document(template_table(), "Rule template not found: "@, uri)
    } else {
        Err((ToolErrorKind::UnknownResource, "Unknown resource URI: "@ + uri))
    }
}

/// A resource with nothing but an address and a name.
pub open spec fn named(uri: Seq<char>, name: Seq<char>) -> ResourceView {
    ResourceView { uri, name, description: None, mime_type: None, size: None }
}

/// The documents of a table as listed resources, all of one name.
pub open spec fn as_resources(table: Seq<(Seq<char>, Seq<char>)>, name: Seq<char>) -> Seq<
    ResourceView,
> {
    Seq::new(table.len(), |i: int| named(table[i].0, name))
}

/// The documents of a table as listed resources.
pub fn get_resources(table: &Vec<StoredResource>, name: &str) -> (list: Vec<ResourceInfo>)
    ensures
        resource_views(list@) == as_resources(stored_views(table@), name@),
{
    let mut list: Vec<ResourceInfo> = Vec::new();
    let mut i: usize = 0;
    while i < table.len()
        invariant
            i <= table.len(),
            list.len() == i,
            forall|k: int| 0 <= k < i ==> (#[trigger] list[k])@ == named(table[k].uri@, name@),
        decreases table.len() - i,
    {
        list.push(ResourceInfo::bare(table[i].uri.clone(), name));
        i = i + 1;
    }
    assert(resource_views(list@) =~= as_resources(stored_views(table@), name@));
    list
}

/// The document of a table at `uri`, read as JSON.
pub fn get_group_resource(table: &Vec<StoredResource>, missing: &str, uri: &str) -> (r: Result<
    JsonValue,
    ToolError,
>)
    ensures
        match r {
            Ok(document) => group_document(stored_views(table@), missing@, uri@) == Ok::<
                JsonTree,
                (ToolErrorKind, Seq<char>),
            >(document@),
            Err(e) => group_document(stored_views(table@), missing@, uri@) == Err::<
                JsonTree,
                (ToolErrorKind, Seq<char>),
            >((e.kind, e.message@)),
        },
{
    let ghost all = stored_views(table@);
    let mut i: usize = 0;
    assert(all.skip(0) =~= all);
    while i < table.len()
        invariant
            i <= table.len(),
            all == stored_views(table@),
            lookup_document(all, uri@) == lookup_document(all.skip(i as int), uri@),
        decreases table.len() - i,
    {
        proof {
            assert(all.skip(i as int)[0] == all[i as int]);
            assert(all.skip(i as int).skip(1) =~= all.skip(i + 1));
        }
        if str_eq(table[i].uri.as_str(), uri) {
            return match parse_json(table[i].text.as_str()) {
                Ok(document) => Ok(document),
                Err(message) => Err(ToolError::new(ToolErrorKind::Catalog, message)),
            };
        }
        i = i + 1;
    }
    let mut message = missing.to_owned();
    message.append(uri);
    Err(ToolError::new(ToolErrorKind::UnknownResource, message))
}

/// Hands out the reference material.
pub struct ResourceProvider {
    pattern_library: Vec<StoredResource>,
    language_references: Vec<StoredResource>,
    rule_templates: Vec<StoredResource>,
}

impl ResourceProvider {
    /// The provider holds the documents of the three tables.
    pub closed spec fn wf(&self) -> bool {
        &&& stored_views(self.pattern_library@) == pattern_table()
        &&& stored_views(self.language_references@) == reference_table()
        &&& stored_views(self.rule_templates@) == template_table()
    }

    /// A provider of the documents of the three tables.
    pub fn new() -> (provider: Self)
        ensures
            provider.wf(),
    {
        ResourceProvider {
            pattern_library: pattern_documents(),
            language_references: reference_documents(),
            rule_templates: template_documents(),
        }
    }

    /// All documents as resources: the pattern libraries, then the language
    /// references, then the rule templates.
    pub fn list_resources(&self) -> (list: Vec<ResourceInfo>)
        requires
            self.wf(),
        ensures
            resource_views(list@) == as_resources(pattern_table(), "Pattern Library"@)
                + as_resources(reference_table(), "Language Reference"@) + as_resources(
                template_table(),
                "Rule Template"@,
            ),
    {
        let mut list = get_resources(&self.pattern_library, "Pattern Library");
        let mut more = get_resources(&self.language_references, "Language Reference");
        let mut last = get_resources(&self.rule_templates, "Rule Template");
        let ghost a = resource_views(list@);
        let ghost b = resource_views(more@);
        let ghost c = resource_views(last@);
        list.append(&mut more);
        list.append(&mut last);
        assert(resource_views(list@) =~= a + b + c);
        list
    }

    /// The document at `uri`. Fails for an address of an unknown scheme and
    /// for an address at which its table holds nothing.
    pub fn get_resource(&self, uri: &str) -> (r: Result<JsonValue, ToolError>)
        requires
            self.wf(),
        ensures
            match r {
                Ok(document) => provided(uri@) == Ok::<JsonTree, (ToolErrorKind, Seq<char>)>(
                    document@,
                ),
                Err(e) => provided(uri@) == Err::<JsonTree, (ToolErrorKind, Seq<char>)>(
                    (e.kind, e.message@),
                ),
            },
    {
        if starts_with(uri, "patterns://") {
            get_group_resource(&self.pattern_library, "Pattern resource not found: ", uri)
        } else if starts_with(uri, "lang://") {
            get_group_resource(&self.language_references, "Language reference not found: ", uri)
        } else if starts_with(uri, "rules://") {
            get_group_resource(&self.rule_templates, "Rule template not found: ", uri)
        } else {
            let mut message = "Unknown resource URI: ".to_owned();
            message.append(uri);
            Err(ToolError::new(ToolErrorKind::UnknownResource, message))
        }
    }
}

} // verus!
