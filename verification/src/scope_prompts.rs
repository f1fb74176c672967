//! The prompts of the server: templates for rules, filled in with what the
//! client names.
//!
//! An argument that the client leaves out, or gives as something else than a
//! text, is replaced by a default.

use crate::catalog::text_or;
use crate::error::{ToolError, ToolErrorKind};
use crate::json::{JsonTree, JsonValue};
use crate::resource::{
    prompt_views, required_argument, PromptArgumentInfo, PromptInfo, PromptView,
};
use crate::text::{replace, replaced, str_eq};
use vstd::prelude::*;

verus! {

/// The rule that matches a function in JavaScript and TypeScript.
pub const FUNCTION_JS: &'static str = "pattern: \"function $NAME($$$) { $$$ }\"";

/// The rule that matches a function in Rust.
pub const FUNCTION_RUST: &'static str = "pattern: \"fn $NAME($$$) -> $RET { $$$ }\"";

/// The rule that matches a function in Python.
pub const FUNCTION_PYTHON: &'static str = "pattern: \"def $NAME($$$): $$$\"";

/// The rule that matches a class in JavaScript and TypeScript.
pub const CLASS_JS: &'static str = "pattern: \"class $NAME { $$$ }\"";

/// The rule that matches an implementation block in Rust.
pub const CLASS_RUST: &'static str = "pattern: \"impl $TYPE { $$$ }\"";

/// The rule that matches a class in Python.
pub const CLASS_PYTHON: &'static str = "pattern: \"class $NAME: $$$\"";

/// The rule that matches a loop in JavaScript and TypeScript.
pub const LOOP_JS: &'static str = "pattern: \"for ($$$) { $$$ }\"";

/// The rule that matches a loop in Rust.
pub const LOOP_RUST: &'static str = "pattern: \"for $VAR in $ITER { $$$ }\"";

/// The rule that matches a loop in Python.
pub const LOOP_PYTHON: &'static str = "pattern: \"for $VAR in $ITER: $$$\"";

/// The rule that matches a block in any language.
pub const BLOCK_ANY: &'static str = "pattern: \"{ $$$ }\"";

/// Whether `language` is JavaScript or TypeScript.
pub open spec fn is_script(language: Seq<char>) -> bool {
    language == "javascript"@ || language == "typescript"@
}

/// The rule that matches a scope of a type in a language, for the types and
/// languages that have one.
pub open spec fn scope_pattern(scope_type: Seq<char>, language: Seq<char>) -> Option<Seq<char>> {
    if scope_type == "function"@ && is_script(language) {
        Some(FUNCTION_JS@)
    } else if scope_type == "function"@ && language == "rust"@ {
        Some(FUNCTION_RUST@)
    } else if scope_type == "function"@ && language == "python"@ {
        Some(FUNCTION_PYTHON@)
    } else if scope_type == "class"@ && is_script(language) {
        Some(CLASS_JS@)
    } else if scope_type == "class"@ && language == "rust"@ {
        Some(CLASS_RUST@)
    } else if scope_type == "class"@ && language == "python"@ {
        Some(CLASS_PYTHON@)
    } else if scope_type == "loop"@ && is_script(language) {
        Some(LOOP_JS@)
    } else if scope_type == "loop"@ && language == "rust"@ {
        Some(LOOP_RUST@)
    } else if scope_type == "loop"@ && language == "python"@ {
        Some(LOOP_PYTHON@)
    } else if scope_type == "block"@ {
        Some(BLOCK_ANY@)
    } else {
        None
    }
}

/// The message for a scope type without a pattern in a language.
pub open spec fn unsupported_scope_message(scope_type: Seq<char>, language: Seq<char>) -> Seq<char> {
    "Unsupported scope type '"@ + scope_type + "' for language '"@ + language + "'"@
}

/// The pattern to look for and the pattern to put in its place, for the
/// transformations and languages that have them.
pub open spec fn transform_patterns(what: Seq<char>, language: Seq<char>) -> Option<
    (Seq<char>, Seq<char>),
> {
    if what == "var to const"@ && is_script(language) {
        Some(("var $VAR = $VALUE"@, "const $VAR = $VALUE"@))
    } else if what == "function to arrow"@ && is_script(language) {
        Some(("function($$$) { $$$ }"@, "($$$) => { $$$ }"@))
    } else if what == "callback to async"@ && is_script(language) {
        Some(("function($$$) { $$$ }"@, "async function($$$) { $$$ }"@))
    } else if what == "print to print function"@ && language == "python"@ {
        Some(("print $ARGS"@, "print($ARGS)"@))
    } else {
        None
    }
}

/// The message for a transformation that is not known for a language.
pub open spec fn unsupported_transformation_message(what: Seq<char>, language: Seq<char>) -> Seq<
    char,
> {
    "Unsupported transformation '"@ + what + "' for language '"@ + language + "'"@
}

/// `text` with a hyphen for every space.
pub open spec fn hyphenated(text: Seq<char>) -> Seq<char> {
    replaced(text, " "@, "-"@)
}

/// The end of a prompt whose rule is to be searched with.
pub const USE_WITH_SEARCH: &'static str =
    "\n```\n\nUse this rule with the execute_rule tool:\n- rule_config: (paste the YAML above)\n- target: (your file or directory path)\n- operation: \"search\"\n";

/// The end of a prompt whose rule is to be replaced with.
pub const USE_WITH_REPLACE: &'static str =
    "\n```\n\nUse this rule with the execute_rule tool:\n- rule_config: (paste the YAML above)\n- target: (your file or directory path)\n- operation: \"replace\"\n- dry_run: true (to preview changes)\n";

/// The prompt for a rule that finds the scopes of a type that hold a
/// pattern.
pub open spec fn scope_navigation_text(
    scope_type: Seq<char>,
    target_pattern: Seq<char>,
    language: Seq<char>,
    scope: Seq<char>,
) -> Seq<char> {
    "To find "@ + scope_type + " containing "@ + target_pattern + " in "@ + language
        + ":\n\n```yaml\nid: find-"@ + scope_type + "-with-"@ + hyphenated(target_pattern)
        + "\nlanguage: "@ + language + "\nmessage: \"Found "@ + scope_type + " containing "@
        + target_pattern + "\"\nseverity: info\nrule:\n  all:\n    - "@ + scope
        + "\n    - has:\n        pattern: \""@ + target_pattern + "\""@ + USE_WITH_SEARCH@
}

/// The prompt for a rule that transforms code within the scopes of a type.
pub open spec fn transform_text(
    what: Seq<char>,
    scope_type: Seq<char>,
    language: Seq<char>,
    scope: Seq<char>,
    target_pattern: Seq<char>,
    fix_pattern: Seq<char>,
) -> Seq<char> {
    "To transform "@ + what + " within "@ + scope_type + " in "@ + language
        + ":\n\n```yaml\nid: transform-"@ + hyphenated(what) + "-in-"@ + hyphenated(scope_type)
        + "\nlanguage: "@ + language + "\nmessage: \"Transform "@ + what + " within "@
        + scope_type + "\"\nseverity: info\nrule:\n  all:\n    - pattern: \""@ + target_pattern
        + "\"\n    - inside:\n        "@ + scope + "\nfix: \""@ + fix_pattern + "\""@
        + USE_WITH_REPLACE@
}

/// An outcome of a prompt by its views.
pub type PromptOutcome = Result<Seq<char>, (ToolErrorKind, Seq<char>)>;

/// The prompt `scope_navigation_rule` for the arguments `scope_type`,
/// `target_pattern` and `language`; `function`, `console.log` and
/// `javascript` where they are not given.
pub open spec fn scope_navigation_prompt(args: JsonTree) -> PromptOutcome {
    let scope_type = text_or(args, "scope_type"@, "function"@);
    let target_pattern = text_or(args, "target_pattern"@, "console.log"@);
    let language = text_or(args, "language"@, "javascript"@);
    match scope_pattern(scope_type, language) {
        Some(scope) => Ok(scope_navigation_text(scope_type, target_pattern, language, scope)),
        None => Err(
            (ToolErrorKind::UnsupportedScope, unsupported_scope_message(scope_type, language)),
        ),
    }
}

/// The prompt `transform_in_scope` for the arguments `what`, `scope_type`
/// and `language`; `var to const`, `function` and `javascript` where they are
/// not given.
pub open spec fn transform_prompt(args: JsonTree) -> PromptOutcome {
    let what = text_or(args, "what"@, "var to const"@);
    let scope_type = text_or(args, "scope_type"@, "function"@);
    let language = text_or(args, "language"@, "javascript"@);
    match scope_pattern(scope_type, language) {
        None => Err(
            (ToolErrorKind::UnsupportedScope, unsupported_scope_message(scope_type, language)),
        ),
        Some(scope) => match transform_patterns(what, language) {
            None => Err(
                (
                    ToolErrorKind::UnsupportedTransformation,
                    unsupported_transformation_message(what, language),
                ),
            ),
            Some((target_pattern, fix_pattern)) => Ok(
                transform_text(what, scope_type, language, scope, target_pattern, fix_pattern),
            ),
        },
    }
}

/// The prompt of a name, for the names that have one.
pub open spec fn prompt_text(name: Seq<char>, args: JsonTree) -> PromptOutcome {
    if name == "scope_navigation_rule"@ {
        scope_navigation_prompt(args)
    } else if name == "transform_in_scope"@ {
        transform_prompt(args)
    } else {
        Err((ToolErrorKind::UnknownPrompt, "Unknown prompt: "@ + name))
    }
}

/// Whether `language` is JavaScript or TypeScript.
fn script(language: &str) -> (r: bool)
    ensures
        r == is_script(language@),
{
    str_eq(language, "javascript") || str_eq(language, "typescript")
}

/// The rule that matches a scope of a type in a language.
pub fn get_scope_pattern(scope_type: &str, language: &str) -> (r: Result<String, ToolError>)
    ensures
        match r {
            Ok(pattern) => scope_pattern(scope_type@, language@) == Some(pattern@),
            Err(e) => scope_pattern(scope_type@, language@) is None && e.kind
                == ToolErrorKind::UnsupportedScope && e.message@ == unsupported_scope_message(
                scope_type@,
                language@,
            ),
        },
{
    let function = str_eq(scope_type, "function");
    let class = str_eq(scope_type, "class");
    let a_loop = str_eq(scope_type, "loop");
    let js = script(language);
    let rust = str_eq(language, "rust");
    let python = str_eq(language, "python");
    let pattern = if function && js {
        FUNCTION_JS
    } else if function && rust {
        FUNCTION_RUST
    } else if function && python {
        FUNCTION_PYTHON
    } else if class && js {
        CLASS_JS
    } else if class && rust {
        CLASS_RUST
    } else if class && python {
        CLASS_PYTHON
    } else if a_loop && js {
        LOOP_JS
    } else if a_loop && rust {
        LOOP_RUST
    } else if a_loop && python {
        LOOP_PYTHON
    } else if str_eq(scope_type, "block") {
        BLOCK_ANY
    } else {
        let mut message = "Unsupported scope type '".to_owned();
        message.append(scope_type);
        message.append("' for language '");
        message.append(language);
        message.append("'");
        return Err(ToolError::new(ToolErrorKind::UnsupportedScope, message));
    };
    Ok(pattern.to_owned())
}

/// The pattern to look for and the pattern to put in its place.
pub fn get_transform_patterns(what: &str, language: &str) -> (r: Result<
    (String, String),
    ToolError,
>)
    ensures
        match r {
            Ok((target, fix)) => transform_patterns(what@, language@) == Some((target@, fix@)),
            Err(e) => transform_patterns(what@, language@) is None && e.kind
                == ToolErrorKind::UnsupportedTransformation && e.message@
                == unsupported_transformation_message(what@, language@),
        },
{
    let js = script(language);
    if str_eq(what, "var to const") && js {
        Ok(("var $VAR = $VALUE".to_owned(), "const $VAR = $VALUE".to_owned()))
    } else if str_eq(what, "function to arrow") && js {
        Ok(("function($$$) { $$$ }".to_owned(), "($$$) => { $$$ }".to_owned()))
    } else if str_eq(what, "callback to async") && js {
        Ok(("function($$$) { $$$ }".to_owned(), "async function($$$) { $$$ }".to_owned()))
    } else if str_eq(what, "print to print function") && str_eq(language, "python") {
        Ok(("print $ARGS".to_owned(), "print($ARGS)".to_owned()))
    } else {
        let mut message = "Unsupported transformation '".to_owned();
        message.append(what);
        message.append("' for language '");
        message.append(language);
        message.append("'");
        Err(ToolError::new(ToolErrorKind::UnsupportedTransformation, message))
    }
}

/// The text argument `key`, or `default` where it is not given.
fn argument<'a>(args: &'a JsonValue, key: &str, default: &'a str) -> (text: &'a str)
    ensures
        text@ == text_or(args@, key@, default@),
{
    match args.get_str(key) {
        Some(text) => text,
        None => default,
    }
}

/// The prompt `scope_navigation_rule`.
pub fn scope_navigation_rule_prompt(args: &JsonValue) -> (r: Result<String, ToolError>)
    ensures
        match r {
            Ok(text) => scope_navigation_prompt(args@) == Ok::<
                Seq<char>,
                (ToolErrorKind, Seq<char>),
            >(text@),
            Err(e) => scope_navigation_prompt(args@) == Err::<
                Seq<char>,
                (ToolErrorKind, Seq<char>),
            >((e.kind, e.message@)),
        },
{
    let scope_type = argument(args, "scope_type", "function");
    let target_pattern = argument(args, "target_pattern", "console.log");
    let language = argument(args, "language", "javascript");
    let scope = match get_scope_pattern(scope_type, language) {
        Ok(scope) => scope,
        Err(e) => {
            return Err(e);
        },
    };
    let mut text = "To find ".to_owned();
    text.append(scope_type);
    text.append(" containing ");
    text.append(target_pattern);
    text.append(" in ");
    text.append(language);
    text.append(":\n\n```yaml\nid: find-");
    text.append(scope_type);
    text.append("-with-");
    text.append(replace(target_pattern, " ", "-").as_str());
    text.append("\nlanguage: ");
    text.append(language);
    text.append("\nmessage: \"Found ");
    text.append(scope_type);
    text.append(" containing ");
    text.append(target_pattern);
    text.append("\"\nseverity: info\nrule:\n  all:\n    - ");
    text.append(scope.as_str());
    text.append("\n    - has:\n        pattern: \"");
    text.append(target_pattern);
    text.append("\"");
    text.append(USE_WITH_SEARCH);
    proof {
        assert(text@ =~= scope_navigation_text(
            scope_type@,
            target_pattern@,
            language@,
            scope@,
        ));
    }
    Ok(text)
}

/// The prompt `transform_in_scope`.
pub fn transform_in_scope_prompt(args: &JsonValue) -> (r: Result<String, ToolError>)
    ensures
        match r {
            Ok(text) => transform_prompt(args@) == Ok::<Seq<char>, (ToolErrorKind, Seq<char>)>(
                text@,
            ),
            Err(e) => transform_prompt(args@) == Err::<Seq<char>, (ToolErrorKind, Seq<char>)>(
                (e.kind, e.message@),
            ),
        },
{
    let what = argument(args, "what", "var to const");
    let scope_type = argument(args, "scope_type", "function");
    let language = argument(args, "language", "javascript");
    let scope = match get_scope_pattern(scope_type, language) {
        Ok(scope) => scope,
        Err(e) => {
            return Err(e);
        },
    };
    let (target_pattern, fix_pattern) = match get_transform_patterns(what, language) {
        Ok(patterns) => patterns,
        Err(e) => {
            return Err(e);
        },
    };
    let mut text = "To transform ".to_owned();
    text.append(what);
    text.append(" within ");
    text.append(scope_type);
    text.append(" in ");
    text.append(language);
    text.append(":\n\n```yaml\nid: transform-");
    text.append(replace(what, " ", "-").as_str());
    text.append("-in-");
    text.append(replace(scope_type, " ", "-").as_str());
    text.append("\nlanguage: ");
    text.append(language);
    text.append("\nmessage: \"Transform ");
    text.append(what);
    text.append(" within ");
    text.append(scope_type);
    text.append("\"\nseverity: info\nrule:\n  all:\n    - pattern: \"");
    text.append(target_pattern.as_str());
    text.append("\"\n    - inside:\n        ");
    text.append(scope.as_str());
    text.append("\nfix: \"");
    text.append(fix_pattern.as_str());
    text.append("\"");
    text.append(USE_WITH_REPLACE);
    proof {
        assert(text@ =~= transform_text(
            what@,
            scope_type@,
            language@,
            scope@,
            target_pattern@,
            fix_pattern@,
        ));
    }
    Ok(text)
}

/// The prompt of a name, filled in with the arguments. Fails for a name
/// that no prompt has.
pub fn get_prompt(name: &str, arguments: &JsonValue) -> (r: Result<String, ToolError>)
    ensures
        match r {
            Ok(text) => prompt_text(name@, arguments@) == Ok::<
                Seq<char>,
                (ToolErrorKind, Seq<char>),
            >(text@),
            Err(e) => prompt_text(name@, arguments@) == Err::<
                Seq<char>,
                (ToolErrorKind, Seq<char>),
            >((e.kind, e.message@)),
        },
{
    if str_eq(name, "scope_navigation_rule") {
        scope_navigation_rule_prompt(arguments)
    } else if str_eq(name, "transform_in_scope") {
        transform_in_scope_prompt(arguments)
    } else {
        let mut message = "Unknown prompt: ".to_owned();
        message.append(name);
        Err(ToolError::new(ToolErrorKind::UnknownPrompt, message))
    }
}

/// The prompts that the server lists.
pub open spec fn listed_prompts() -> Seq<PromptView> {
    seq![
        PromptView {
            name: "scope_navigation_rule"@,
            description: Some(
                "Generate YAML rule to find specific scope types containing target patterns"@,
            ),
            arguments: Some(
                seq![
                    required_argument(
                        "scope_type"@,
                        "Type of scope: 'function', 'class', 'loop', 'block'"@,
                    ),
                    required_argument(
                        "target_pattern"@,
                        "Pattern to find within scope: 'console.log', 'await', '$VAR = $VALUE'"@,
                    ),
                    required_argument("language"@, "Programming language"@),
                ],
            ),
        },
        PromptView {
            name: "transform_in_scope"@,
            description: Some(
                "Generate YAML rule to transform code within specific scope types"@,
            ),
            arguments: Some(
                seq![
                    required_argument(
                        "what"@,
                        "What to transform: 'var to const', 'function to arrow', 'callback to async'"@,
                    ),
                    required_argument(
                        "scope_type"@,
                        "Scope type: 'function', 'class', 'module', 'loop'"@,
                    ),
                    required_argument("language"@, "Programming language"@),
                ],
            ),
        },
    ]
}

/// The prompts that the server lists.
pub fn list_prompts() -> (prompts: Vec<PromptInfo>)
    ensures
        prompt_views(prompts@) == listed_prompts(),
{
    let mut first: Vec<PromptArgumentInfo> = Vec::new();
    first.push(
        PromptArgumentInfo::new(
            "scope_type",
            "Type of scope: 'function', 'class', 'loop', 'block'",
            true,
        ),
    );
    first.push(
        PromptArgumentInfo::new(
            "target_pattern",
            "Pattern to find within scope: 'console.log', 'await', '$VAR = $VALUE'",
            true,
        ),
    );
    first.push(PromptArgumentInfo::new("language", "Programming language", true));
    let mut second: Vec<PromptArgumentInfo> = Vec::new();
    second.push(
        PromptArgumentInfo::new(
            "what",
            "What to transform: 'var to const', 'function to arrow', 'callback to async'",
            true,
        ),
    );
    second.push(
        PromptArgumentInfo::new(
            "scope_type",
            "Scope type: 'function', 'class', 'module', 'loop'",
            true,
        ),
    );
    second.push(PromptArgumentInfo::new("language", "Programming language", true));
    let mut prompts: Vec<PromptInfo> = Vec::new();
    proof {
        assert(crate::resource::argument_views(first@) =~= listed_prompts()[0].arguments->0);
        assert(crate::resource::argument_views(second@) =~= listed_prompts()[1].arguments->0);
    }
    prompts.push(
        PromptInfo::new(
            "scope_navigation_rule",
            "Generate YAML rule to find specific scope types containing target patterns",
            first,
        ),
    );
    prompts.push(
        PromptInfo::new(
            "transform_in_scope",
            "Generate YAML rule to transform code within specific scope types",
            second,
        ),
    );
    assert(prompt_views(prompts@) =~= listed_prompts());
    prompts
}

} // verus!
