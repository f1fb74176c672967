//! Prompts that guide a client through a task, step by step.
//!
//! A prompt is a template with placeholders of the form `{name}`. Filling it
//! in puts the value of each argument in the place of the placeholder of its
//! name. A placeholder for which no argument is given stays as it is.

use crate::error::{ToolError, ToolErrorKind};
use crate::json::{json_compact_text, json_to_string, JsonTree, JsonValue};
use crate::resource::{
    argument_views, prompt_views, PromptArgumentInfo, PromptArgumentView, PromptInfo, PromptView,
};
use crate::text::{has_prefix, replace, replaced, starts_with, str_eq};
use vstd::prelude::*;

verus! {

/// The template of the prompt `refactor_function`.
pub const REFACTOR_FUNCTION_TEMPLATE: &'static str = r#"
# Function Refactoring Workflow

You are helping refactor a function in a {language} codebase.

## Task Details
- Function: {function_name}
- Operation: {operation}
- File: {file_path}

## Step-by-Step Process

1. **Analyze Current Function**
   - Use ast_grep_search to find the function definition
   - Pattern: Based on language-specific patterns from resources

2. **Validate Refactoring**
   - Check for dependencies and side effects
   - Verify the refactoring is safe

3. **Apply Refactoring**
   - Use ast_grep_replace with appropriate patterns
   - Apply changes incrementally

4. **Verify Results**
   - Check syntax and functionality
   - Ensure no breaking changes

## Available Resources
- patterns://{language}/refactoring/extract-function
- lang://{language}/ast-nodes

Let's start by finding the function definition.
"#;

/// The template of the prompt `refactor_variable`.
pub const REFACTOR_VARIABLE_TEMPLATE: &'static str = r#"
# Variable Refactoring Workflow

You are helping refactor a variable in a {language} codebase.

## Task Details
- Variable: {variable_name}
- New Name: {new_name}
- Language: {language}
- Scope: {scope}

## Step-by-Step Process

1. **Find All Occurrences**
   - Use ast_grep_search to find all usages of the variable
   - Pattern: Language-specific variable patterns

2. **Analyze Context**
   - Check scope and dependencies
   - Verify rename safety

3. **Apply Changes**
   - Use ast_grep_replace to rename all occurrences
   - Process files systematically

4. **Validate Results**
   - Check for syntax errors
   - Ensure all references are updated

## Available Resources
- lang://{language}/ast-nodes

Let's start by finding all occurrences of the variable.
"#;

/// The template of the prompt `security_scan`.
pub const SECURITY_SCAN_TEMPLATE: &'static str = r#"
# Security Analysis Workflow

You are performing a comprehensive security analysis on a {language} codebase.

## Analysis Scope
- Language: {language}
- Target: {scope}
- Severity: {severity}

## Step-by-Step Security Analysis

1. **Hardcoded Secrets Detection**
   - Use rule: rules://security/detect-hardcoded-secrets
   - Check for API keys, tokens, passwords

2. **Injection Vulnerabilities**
   - Scan for SQL injection patterns
   - Check for XSS vulnerabilities
   - Validate input sanitization

3. **Authentication & Authorization**
   - Review access control patterns
   - Check for privilege escalation risks

4. **Data Protection**
   - Verify encryption usage
   - Check for data leakage patterns

## Available Resources
- rules://security/detect-hardcoded-secrets
- patterns://{language}/security/common-vulnerabilities

Let's start with detecting hardcoded secrets.
"#;

/// The template of the prompt `performance_audit`.
pub const PERFORMANCE_AUDIT_TEMPLATE: &'static str = r#"
# Performance Audit Workflow

You are performing a performance analysis on a {language} codebase.

## Analysis Scope
- Language: {language}
- Target: {scope}

## Step-by-Step Performance Analysis

1. **Unused Code Detection**
   - Use rule: rules://performance/unused-variables
   - Find unused functions and variables

2. **Algorithm Complexity**
   - Identify nested loops and recursive patterns
   - Check for inefficient data structures

3. **Resource Usage**
   - Memory allocation patterns
   - I/O operation optimization

4. **Language-Specific Optimizations**
   - Check for language-specific anti-patterns
   - Identify optimization opportunities

## Available Resources
- rules://performance/unused-variables
- patterns://{language}/performance/optimizations

Let's start by detecting unused code.
"#;

/// The template of the prompt `explain_pattern`.
pub const EXPLAIN_PATTERN_TEMPLATE: &'static str = r#"
# Pattern Explanation

You are explaining an ast-grep pattern to help someone understand how it works.

## Pattern to Explain
```
{pattern}
```

## Language Context
- Language: {language}

## Explanation Structure

1. **Pattern Breakdown**
   - Break down each part of the pattern
   - Explain special symbols and syntax

2. **What It Matches**
   - Show examples of code that matches
   - Explain why it matches

3. **What It Doesn't Match**
   - Show examples of code that doesn't match
   - Explain the differences

4. **Common Use Cases**
   - When you would use this pattern
   - Similar patterns for related tasks

## Available Resources
- patterns://{language}/refactoring/extract-function
- lang://{language}/ast-nodes

Let's break down this pattern step by step.
"#;

/// The template of the prompt `debug_pattern`.
pub const DEBUG_PATTERN_TEMPLATE: &'static str = r#"
# Pattern Debugging

You are helping debug an ast-grep pattern that isn't working as expected.

## Problem Details
- Pattern: `{pattern}`
- Expected Match: `{expected_match}`
- Language: {language}

## Debugging Process

1. **Analyze the Pattern**
   - Check pattern syntax
   - Verify language compatibility

2. **Test with Simple Cases**
   - Start with minimal examples
   - Gradually increase complexity

3. **Check AST Structure**
   - Examine the AST for the expected match
   - Compare with pattern expectations

4. **Suggest Corrections**
   - Provide corrected pattern
   - Explain the changes

## Available Resources
- lang://{language}/ast-nodes
- patterns://{language}/refactoring/extract-function

Let's start by analyzing the pattern and the expected match.
"#;

/// A prompt with its template.
#[derive(Debug)]
pub struct PromptTemplate {
    pub name: String,
    pub description: String,
    pub arguments: Vec<PromptArgumentInfo>,
    pub template: String,
}

/// The mathematical value of a [`PromptTemplate`].
pub ghost struct TemplateView {
    pub name: Seq<char>,
    pub description: Seq<char>,
    pub arguments: Seq<PromptArgumentView>,
    pub template: Seq<char>,
}

impl View for PromptTemplate {
    type V = TemplateView;

    open spec fn view(&self) -> TemplateView {
        TemplateView {
            name: self.name@,
            description: self.description@,
            arguments: argument_views(self.arguments@),
            template: self.template@,
        }
    }
}

/// The views of a vector of templates, item by item.
pub open spec fn template_views(items: Seq<PromptTemplate>) -> Seq<TemplateView> {
    Seq::new(items.len(), |i: int| items[i]@)
}

/// An argument of a prompt.
pub open spec fn argument(name: Seq<char>, description: Seq<char>, required: bool) -> PromptArgumentView {
    PromptArgumentView { name, description: Some(description), required: Some(required) }
}

/// The refactoring prompts.
pub open spec fn refactoring_table() -> Seq<TemplateView> {
    seq![
        TemplateView {
            name: "refactor_function"@,
            description: "Extract or refactor functions with guided workflow"@,
            arguments: seq![
                argument("function_name"@, "Name of the function to refactor"@, true),
                argument("operation"@, "Type of refactoring: extract, inline, rename"@, true),
                argument("language"@, "Programming language"@, true),
                argument("file_path"@, "Path to the file containing the function"@, true),
            ],
            template: REFACTOR_FUNCTION_TEMPLATE@,
        },
        TemplateView {
            name: "refactor_variable"@,
            description: "Rename or extract variables with guided workflow"@,
            arguments: seq![
                argument("variable_name"@, "Name of the variable to refactor"@, true),
                argument("new_name"@, "New name for the variable (for rename operation)"@, false),
                argument("language"@, "Programming language"@, true),
                argument("scope"@, "Scope to refactor (file path or directory)"@, true),
            ],
            template: REFACTOR_VARIABLE_TEMPLATE@,
        },
    ]
}

/// The refactoring prompts.
pub fn refactoring_prompts() -> (prompts: Vec<PromptTemplate>)
    ensures
        template_views(prompts@) == refactoring_table(),
{
    let mut prompts: Vec<PromptTemplate> = Vec::new();
    let mut arguments: Vec<PromptArgumentInfo> = Vec::new();
    arguments.push(PromptArgumentInfo::new("function_name", "Name of the function to refactor", true));
    arguments.push(PromptArgumentInfo::new("operation", "Type of refactoring: extract, inline, rename", true));
    arguments.push(PromptArgumentInfo::new("language", "Programming language", true));
    arguments.push(PromptArgumentInfo::new("file_path", "Path to the file containing the function", true));
    assert(argument_views(arguments@) =~= refactoring_table()[0].arguments);
    prompts.push(
        PromptTemplate {
            name: "refactor_function".to_owned(),
            description: "Extract or refactor functions with guided workflow".to_owned(),
            arguments,
            template: REFACTOR_FUNCTION_TEMPLATE.to_owned(),
        },
    );
    let mut arguments: Vec<PromptArgumentInfo> = Vec::new();
    arguments.push(PromptArgumentInfo::new("variable_name", "Name of the variable to refactor", true));
    arguments.push(PromptArgumentInfo::new("new_name", "New name for the variable (for rename operation)", false));
    arguments.push(PromptArgumentInfo::new("language", "Programming language", true));
    arguments.push(PromptArgumentInfo::new("scope", "Scope to refactor (file path or directory)", true));
    assert(argument_views(arguments@) =~= refactoring_table()[1].arguments);
    prompts.push(
        PromptTemplate {
            name: "refactor_variable".to_owned(),
            description: "Rename or extract variables with guided workflow".to_owned(),
            arguments,
            template: REFACTOR_VARIABLE_TEMPLATE.to_owned(),
        },
    );
    assert(template_views(prompts@) =~= refactoring_table());
    prompts
}

/// The analysis prompts.
pub open spec fn analysis_table() -> Seq<TemplateView> {
    seq![
        TemplateView {
            name: "security_scan"@,
            description: "Comprehensive security analysis workflow"@,
            arguments: seq![
                argument("language"@, "Programming language to analyze"@, true),
                argument("scope"@, "Path to analyze (file or directory)"@, true),
                argument("severity"@, "Minimum severity level: low, medium, high"@, false),
            ],
            template: SECURITY_SCAN_TEMPLATE@,
        },
        TemplateView {
            name: "performance_audit"@,
            description: "Performance analysis and optimization workflow"@,
            arguments: seq![
                argument("language"@, "Programming language to analyze"@, true),
                argument("scope"@, "Path to analyze (file or directory)"@, true),
            ],
            template: PERFORMANCE_AUDIT_TEMPLATE@,
        },
    ]
}

/// The analysis prompts.
pub fn analysis_prompts() -> (prompts: Vec<PromptTemplate>)
    ensures
        template_views(prompts@) == analysis_table(),
{
    let mut prompts: Vec<PromptTemplate> = Vec::new();
    let mut arguments: Vec<PromptArgumentInfo> = Vec::new();
    arguments.push(PromptArgumentInfo::new("language", "Programming language to analyze", true));
    arguments.push(PromptArgumentInfo::new("scope", "Path to analyze (file or directory)", true));
    arguments.push(PromptArgumentInfo::new("severity", "Minimum severity level: low, medium, high", false));
    assert(argument_views(arguments@) =~= analysis_table()[0].arguments);
    prompts.push(
        PromptTemplate {
            name: "security_scan".to_owned(),
            description: "Comprehensive security analysis workflow".to_owned(),
            arguments,
            template: SECURITY_SCAN_TEMPLATE.to_owned(),
        },
    );
    let mut arguments: Vec<PromptArgumentInfo> = Vec::new();
    arguments.push(PromptArgumentInfo::new("language", "Programming language to analyze", true));
    arguments.push(PromptArgumentInfo::new("scope", "Path to analyze (file or directory)", true));
    assert(argument_views(arguments@) =~= analysis_table()[1].arguments);
    prompts.push(
        PromptTemplate {
            name: "performance_audit".to_owned(),
            description: "Performance analysis and optimization workflow".to_owned(),
            arguments,
            template: PERFORMANCE_AUDIT_TEMPLATE.to_owned(),
        },
    );
    assert(template_views(prompts@) =~= analysis_table());
    prompts
}

/// The educational prompts.
pub open spec fn educational_table() -> Seq<TemplateView> {
    seq![
        TemplateView {
            name: "explain_pattern"@,
            description: "Explain ast-grep patterns with examples"@,
            arguments: seq![
                argument("pattern"@, "The ast-grep pattern to explain"@, true),
                argument("language"@, "Programming language context"@, true),
            ],
            template: EXPLAIN_PATTERN_TEMPLATE@,
        },
        TemplateView {
            name: "debug_pattern"@,
            description: "Debug ast-grep patterns that aren't working"@,
            arguments: seq![
                argument("pattern"@, "The ast-grep pattern that isn't working"@, true),
                argument("expected_match"@, "Code that should match but doesn't"@, true),
                argument("language"@, "Programming language context"@, true),
            ],
            template: DEBUG_PATTERN_TEMPLATE@,
        },
    ]
}

/// The educational prompts.
pub fn educational_prompts() -> (prompts: Vec<PromptTemplate>)
    ensures
        template_views(prompts@) == educational_table(),
{
    let mut prompts: Vec<PromptTemplate> = Vec::new();
    let mut arguments: Vec<PromptArgumentInfo> = Vec::new();
    arguments.push(PromptArgumentInfo::new("pattern", "The ast-grep pattern to explain", true));
    arguments.push(PromptArgumentInfo::new("language", "Programming language context", true));
    assert(argument_views(arguments@) =~= educational_table()[0].arguments);
    prompts.push(
        PromptTemplate {
            name: "explain_pattern".to_owned(),
            description: "Explain ast-grep patterns with examples".to_owned(),
            arguments,
            template: EXPLAIN_PATTERN_TEMPLATE.to_owned(),
        },
    );
    let mut arguments: Vec<PromptArgumentInfo> = Vec::new();
    arguments.push(PromptArgumentInfo::new("pattern", "The ast-grep pattern that isn't working", true));
    arguments.push(PromptArgumentInfo::new("expected_match", "Code that should match but doesn't", true));
    arguments.push(PromptArgumentInfo::new("language", "Programming language context", true));
    assert(argument_views(arguments@) =~= educational_table()[1].arguments);
    prompts.push(
        PromptTemplate {
            name: "debug_pattern".to_owned(),
            description: "Debug ast-grep patterns that aren't working".to_owned(),
            arguments,
            template: DEBUG_PATTERN_TEMPLATE.to_owned(),
        },
    );
    assert(template_views(prompts@) =~= educational_table());
    prompts
}

/// The template of the first prompt of a table that goes by `name`.
pub open spec fn lookup_template(table: Seq<TemplateView>, name: Seq<char>) -> Option<Seq<char>>
    decreases table.len(),
{
    if table.len() == 0 {
        None
    } else if table[0].name == name {
        Some(table[0].template)
    } else {
        lookup_template(table.skip(1), name)
    }
}

/// The text that stands for a value in a prompt: a string as it is, anything
/// else as compact JSON.
pub open spec fn value_text(value: JsonTree) -> Seq<char> {
    match value {
        JsonTree::String(text) => text,
        _ => json_compact_text(value),
    }
}

/// The placeholder of an argument.
pub open spec fn placeholder(name: Seq<char>) -> Seq<char> {
    "{"@ + name + "}"@
}

/// A template filled in with arguments, one after the other in their order.
pub open spec fn filled(template: Seq<char>, arguments: Seq<(Seq<char>, JsonTree)>) -> Seq<char>
    decreases arguments.len(),
{
    if arguments.len() == 0 {
        template
    } else {
        filled(
            replaced(template, placeholder(arguments[0].0), value_text(arguments[0].1)),
            arguments.skip(1),
        )
    }
}

/// The members of an object; none for anything else.
pub open spec fn members_of(arguments: JsonTree) -> Seq<(Seq<char>, JsonTree)> {
    match arguments {
        JsonTree::Object(members) => members,
        _ => Seq::empty(),
    }
}

/// An outcome of a prompt by its views.
pub type PromptOutcome = Result<Seq<char>, (ToolErrorKind, Seq<char>)>;

/// The prompt `name` of a table, filled in; `label` is what the table is
/// called where the prompt is not found.
pub open spec fn group_prompt(
    table: Seq<TemplateView>,
    label: Seq<char>,
    name: Seq<char>,
    arguments: JsonTree,
) -> PromptOutcome {
    match lookup_template(table, name) {
        Some(template) => Ok(filled(template, members_of(arguments))),
        None => Err((ToolErrorKind::UnknownPrompt, label + " prompt not found: "@ + name)),
    }
}

/// The prompt `name`, filled in. The beginning of the name says which table
/// holds the prompt.
pub open spec fn managed_prompt(name: Seq<char>, arguments: JsonTree) -> PromptOutcome {
    if has_prefix(name, "refactor_"@) {
        group_prompt(refactoring_table(), "Refactoring"@, name, arguments)
    } else if has_prefix(name, "security_"@) || has_prefix(name, "performance_"@) || has_prefix(
        name,
        "quality_"@,
    ) {
        group_prompt(analysis_table(), "Analysis"@, name, arguments)
    } else if has_prefix(name, "explain_"@) || has_prefix(name, "debug_"@) {
        group_prompt(educational_table(), "Educational"@, name, arguments)
    } else {
        Err((ToolErrorKind::UnknownPrompt, "Unknown prompt: "@ + name))
    }
}

/// A template as a listed prompt.
pub open spec fn as_prompt(template: TemplateView) -> PromptView {
    PromptView {
        name: template.name,
        description: Some(template.description),
        arguments: Some(template.arguments),
    }
}

/// The templates of a table as listed prompts.
pub open spec fn as_prompts(table: Seq<TemplateView>) -> Seq<PromptView> {
    Seq::new(table.len(), |i: int| as_prompt(table[i]))
}

/// A copy of the arguments of a prompt.
pub fn copy_arguments(arguments: &Vec<PromptArgumentInfo>) -> (copy: Vec<PromptArgumentInfo>)
    ensures
        argument_views(copy@) == argument_views(arguments@),
{
    let mut copy: Vec<PromptArgumentInfo> = Vec::new();
    let mut i: usize = 0;
    while i < arguments.len()
        invariant
            i <= arguments.len(),
            copy.len() == i,
            forall|k: int| 0 <= k < i ==> (#[trigger] copy[k])@ == arguments[k]@,
        decreases arguments.len() - i,
    {
        let description = match &arguments[i].description {
            Some(text) => Some(text.clone()),
            None => None,
        };
        copy.push(
            PromptArgumentInfo {
                name: arguments[i].name.clone(),
                description,
                required: arguments[i].required,
            },
        );
        i = i + 1;
    }
    assert(argument_views(copy@) =~= argument_views(arguments@));
    copy
}

/// The templates of a table as listed prompts.
pub fn get_prompts(table: &Vec<PromptTemplate>) -> (prompts: Vec<PromptInfo>)
    ensures
        prompt_views(prompts@) == as_prompts(template_views(table@)),
{
    let mut prompts: Vec<PromptInfo> = Vec::new();
    let mut i: usize = 0;
    while i < table.len()
        invariant
            i <= table.len(),
            prompts.len() == i,
            forall|k: int| 0 <= k < i ==> (#[trigger] prompts[k])@ == as_prompt(table[k]@),
        decreases table.len() - i,
    {
        prompts.push(
            PromptInfo {
                name: table[i].name.clone(),
                description: Some(table[i].description.clone()),
                arguments: Some(copy_arguments(&table[i].arguments)),
            },
        );
        i = i + 1;
    }
    assert(prompt_views(prompts@) =~= as_prompts(template_views(table@)));
    prompts
}

/// The text that stands for a value in a prompt.
pub fn text_of_value(value: &JsonValue) -> (text: String)
    ensures
        text@ == value_text(value@),
{
    match value {
        JsonValue::String(text) => text.clone(),
        _ => json_to_string(value),
    }
}

/// Fills a template in with the members of `arguments`.
pub fn fill_template(template: &str, arguments: &JsonValue) -> (text: String)
    ensures
        text@ == filled(template@, members_of(arguments@)),
{
    let mut text = template.to_owned();
    match arguments {
        JsonValue::Object(members) => {
            let ghost all = arguments@->Object_0;
            let mut i: usize = 0;
            assert(all.skip(0) =~= all);
            while i < members.len()
                invariant
                    i <= members.len(),
                    all.len() == members.len(),
                    forall|k: int|
                        0 <= k < members.len() ==> all[k] == (
                            (#[trigger] members[k]).0@,
                            members[k].1@,
                        ),
                    filled(template@, all) == filled(text@, all.skip(i as int)),
                decreases members.len() - i,
            {
                proof {
                    assert(all.skip(i as int)[0] == all[i as int]);
                    assert(all.skip(i as int).skip(1) =~= all.skip(i + 1));
                }
                let mut hole = "{".to_owned();
                hole.append(members[i].0.as_str());
                hole.append("}");
                let value = text_of_value(&members[i].1);
                text = replace(text.as_str(), hole.as_str(), value.as_str());
                i = i + 1;
            }
        },
        _ => {},
    }
    text
}

/// The prompt `name` of a table, filled in.
pub fn get_group_prompt(table: &Vec<PromptTemplate>, label: &str, name: &str, arguments: &JsonValue) -> (r:
    Result<String, ToolError>)
    ensures
        match r {
            Ok(text) => group_prompt(template_views(table@), label@, name@, arguments@) == Ok::<
                Seq<char>,
                (ToolErrorKind, Seq<char>),
            >(text@),
            Err(e) => group_prompt(template_views(table@), label@, name@, arguments@) == Err::<
                Seq<char>,
                (ToolErrorKind, Seq<char>),
            >((e.kind, e.message@)),
        },
{
    let ghost all = template_views(table@);
    let mut i: usize = 0;
    assert(all.skip(0) =~= all);
    while i < table.len()
        invariant
            i <= table.len(),
            all == template_views(table@),
            lookup_template(all, name@) == lookup_template(all.skip(i as int), name@),
        decreases table.len() - i,
    {
        proof {
            assert(all.skip(i as int)[0] == table[i as int]@);
            assert(all.skip(i as int).skip(1) =~= all.skip(i + 1));
        }
        if str_eq(table[i].name.as_str(), name) {
            return Ok(fill_template(table[i].template.as_str(), arguments));
        }
        i = i + 1;
    }
    let mut message = label.to_owned();
    message.append(" prompt not found: ");
    message.append(name);
    Err(ToolError::new(ToolErrorKind::UnknownPrompt, message))
}

/// The prompts for refactoring, for analysis and for learning.
pub struct PromptManager {
    refactoring_prompts: Vec<PromptTemplate>,
    analysis_prompts: Vec<PromptTemplate>,
    educational_prompts: Vec<PromptTemplate>,
}

impl PromptManager {
    /// The manager holds the prompts of the three tables.
    pub closed spec fn wf(&self) -> bool {
        &&& template_views(self.refactoring_prompts@) == refactoring_table()
        &&& template_views(self.analysis_prompts@) == analysis_table()
        &&& template_views(self.educational_prompts@) == educational_table()
    }

    /// A manager of the prompts of the three tables.
    pub fn new() -> (manager: Self)
        ensures
            manager.wf(),
    {
        PromptManager {
            refactoring_prompts: refactoring_prompts(),
            analysis_prompts: analysis_prompts(),
            educational_prompts: educational_prompts(),
        }
    }

    /// All prompts: those for refactoring, then those for analysis, then
    /// those for learning.
    pub fn list_prompts(&self) -> (prompts: Vec<PromptInfo>)
        requires
            self.wf(),
        ensures
            prompt_views(prompts@) == as_prompts(refactoring_table()) + as_prompts(
                analysis_table(),
            ) + as_prompts(educational_table()),
    {
        let mut prompts = get_prompts(&self.refactoring_prompts);
        let mut more = get_prompts(&self.analysis_prompts);
        let mut last = get_prompts(&self.educational_prompts);
        let ghost a = prompt_views(prompts@);
        let ghost b = prompt_views(more@);
        let ghost c = prompt_views(last@);
        prompts.append(&mut more);
        prompts.append(&mut last);
        assert(prompt_views(prompts@) =~= a + b + c);
        prompts
    }

    /// The prompt `name`, filled in with the members of `arguments`. Fails
    /// for a name that no prompt has.
    pub fn get_prompt(&self, name: &str, arguments: &JsonValue) -> (r: Result<String, ToolError>)
        requires
            self.wf(),
        ensures
            match r {
                Ok(text) => managed_prompt(name@, arguments@) == Ok::<
                    Seq<char>,
                    (ToolErrorKind, Seq<char>),
                >(text@),
                Err(e) => managed_prompt(name@, arguments@) == Err::<
                    Seq<char>,
                    (ToolErrorKind, Seq<char>),
                >((e.kind, e.message@)),
            },
    {
        if starts_with(name, "refactor_") {
            get_group_prompt(&self.refactoring_prompts, "Refactoring", name, arguments)
        } else if starts_with(name, "security_") || starts_with(name, "performance_")
            || starts_with(name, "quality_") {
            get_group_prompt(&self.analysis_prompts, "Analysis", name, arguments)
        } else if starts_with(name, "explain_") || starts_with(name, "debug_") {
            get_group_prompt(&self.educational_prompts, "Educational", name, arguments)
        } else {
            let mut message = "Unknown prompt: ".to_owned();
            message.append(name);
            Err(ToolError::new(ToolErrorKind::UnknownPrompt, message))
        }
    }
}

/// A placeholder for which no argument is given stays as it is: a template
/// filled in with no arguments is the template.
pub proof fn lemma_no_arguments_fill_nothing(template: Seq<char>)
    ensures
        filled(template, Seq::empty()) == template,
{
}

} // verus!
