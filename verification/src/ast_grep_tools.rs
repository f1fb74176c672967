//! The tools of the server: what a client can call by name.
//!
//! `find_scope` scans a piece of code with a rule, `execute_rule` runs a rule
//! over a file or directory of a workspace. Both check their arguments and
//! the rule before anything outside is touched, and then proceed as a
//! [`ToolCall`].

use crate::binary_manager::{
    first_common_location, BinaryManager, BinaryProbe, EnsureAction, EnsureEvent, EnsureState,
};
use crate::catalog::{
    catalog_example, get_catalog_example, get_catalog_status_content, get_navigation_content,
    navigation_content, source_view, status_page, CATALOG_PREFIX,
};
use crate::docs::{
    get_available_languages, get_cheatsheet_rules, get_cheatsheet_yaml, get_cli_reference,
    get_discovery_guide, get_examples_by_language, get_node_kinds, get_pattern_syntax,
    get_relational_patterns, get_rule_composition, get_rule_examples, AVAILABLE_LANGUAGES,
    BINARY_PATH_PLACEHOLDER, CHEATSHEET_RULES, CHEATSHEET_YAML, CLI_REFERENCE_TEMPLATE,
    DISCOVERY_GUIDE, EXAMPLES_BY_LANGUAGE, NODE_KINDS, PATTERN_SYNTAX, RELATIONAL_PATTERNS,
    RULE_COMPOSITION, RULE_EXAMPLES,
};
use crate::dynamic::{
    filter_page, get_language_examples, get_language_guide, get_pattern_category,
    handle_filter_query, language_examples, language_guide, parse_uri_params, parsed_params,
    pattern_category,
};
use crate::error::{ToolError, ToolErrorKind};
use crate::listing::{list_resources, listed_resources};
use crate::resource::{prompt_views, resource_views, PromptInfo, ResourceInfo};
use crate::scope_prompts::{get_prompt, list_prompts, listed_prompts, prompt_text};
use crate::search_tools::{
    handle_search_query, handle_similar_query, search_examples, search_examples_outcome,
    search_query_outcome, similar_query_outcome, similarity_outcome, similarity_search_tool,
    suggest_examples, suggestion_outcome,
};
use crate::simple_search::{catalog_examples, ExampleView, SimpleSearchEngine};
use crate::json::{JsonTree, JsonValue};
use crate::path_resolver::{
    candidate_paths, candidates, cwd_view, resolution, resolve_path, root_labels, root_names,
    WorkspaceRoot,
};
use crate::paths::{is_absolute, is_absolute_path, join, joined};
use crate::rule_validator::{file_extension, get_file_extension, rule_fault, validate_rule_yaml};
use crate::text::{
    decimal, decimal_text, has_prefix, lemma_decimal_injective, replaced, str_eq, strip_prefix,
    trimmed, views,
};
use crate::tool_call::{idle_call, ActionView, CallView, Stage, TempFile, ToolAction, ToolCall};
use crate::yaml::yaml_document;
use vstd::prelude::*;

verus! {

/// What a tool call is told of its surroundings when it begins.
#[derive(Debug)]
pub struct CallContext {
    /// A number that no other call under way has.
    pub call_id: u64,
    /// The directory for temporary files.
    pub temp_dir: String,
    /// The working directory, or the reason why it is not known.
    pub cwd: Result<String, String>,
}

/// The mathematical value of a [`CallContext`].
pub ghost struct ContextView {
    pub call_id: nat,
    pub temp_dir: Seq<char>,
    pub cwd: Result<Seq<char>, Seq<char>>,
}

impl View for CallContext {
    type V = ContextView;

    open spec fn view(&self) -> ContextView {
        ContextView {
            call_id: self.call_id as nat,
            temp_dir: self.temp_dir@,
            cwd: cwd_view(self.cwd),
        }
    }
}

/// The name of a temporary file of the call `call_id`: the stem, the number
/// of the call, and the extension.
pub open spec fn temp_name(stem: Seq<char>, call_id: nat, extension: Seq<char>) -> Seq<char> {
    stem + "_"@ + decimal_text(call_id) + "."@ + extension
}

/// The path of a temporary file of a call.
pub open spec fn temp_path(ctx: ContextView, stem: Seq<char>, extension: Seq<char>) -> Seq<char> {
    joined(ctx.temp_dir, temp_name(stem, ctx.call_id, extension))
}

/// A call that fails before it begins.
pub open spec fn refused(kind: ToolErrorKind, message: Seq<char>) -> (CallView, ActionView) {
    (idle_call(), ActionView::Finish(Err((kind, message))))
}

/// Whether `operation` is one that `execute_rule` knows.
pub open spec fn is_known_operation(operation: Seq<char>) -> bool {
    operation == "search"@ || operation == "replace"@ || operation == "scan"@
}

/// The fault of an operation that `execute_rule` does not know.
pub open spec fn operation_fault(operation: Seq<char>) -> Option<(ToolErrorKind, Seq<char>)> {
    if is_known_operation(operation) {
        None
    } else {
        Some((ToolErrorKind::UnknownOperation, "Unknown operation: "@ + operation))
    }
}

/// A line or column: a non-negative integer of 32 bits.
pub open spec fn is_coordinate(tree: JsonTree) -> bool {
    tree.unsigned() matches Some(n) && n <= u32::MAX
}

/// A position: an object with the coordinates `line` and `column`, or an
/// array of exactly the two.
pub open spec fn is_position(tree: JsonTree) -> bool {
    match tree {
        JsonTree::Object(_) => {
            &&& tree.field("line"@) matches Some(line) && is_coordinate(line)
            &&& tree.field("column"@) matches Some(column) && is_coordinate(column)
        },
        JsonTree::Array(items) => items.len() == 2 && is_coordinate(items[0]) && is_coordinate(
            items[1],
        ),
        _ => false,
    }
}

/// How `execute_rule` begins. The arguments `rule_config` and `target` must
/// be strings; `operation` is `search` and `dry_run` is true where they are
/// not given. The rule is checked first. Then the target is resolved: at
/// once where it is absolute or there are no roots, and else after asking
/// which of its candidates exist. An unknown operation is reported once the
/// target is resolved, before anything is written.
pub open spec fn execute_rule_start(roots: Seq<WorkspaceRoot>, args: JsonTree, ctx: ContextView) -> (
    CallView,
    ActionView,
) {
    match (args.text_field("rule_config"@), args.text_field("target"@)) {
        (None, _) => refused(ToolErrorKind::MissingArgument, "Missing rule_config"@),
        (Some(_), None) => refused(ToolErrorKind::MissingArgument, "Missing target"@),
        (Some(rule), Some(target)) => {
            let operation = match args.text_field("operation"@) {
                Some(operation) => operation,
                None => "search"@,
            };
            let dry_run = match args.truth_field("dry_run"@) {
                Some(dry_run) => dry_run,
                None => true,
            };
            match rule_fault(yaml_document(rule)) {
                Some((kind, message)) => refused(kind, message),
                None => {
                    let call = CallView {
                        stage: Stage::Resolving,
                        target: target,
                        candidates: candidates(roots, target),
                        labels: root_labels(roots),
                        deferred: operation_fault(operation),
                        files: seq![(temp_path(ctx, "execute_rule"@, "yml"@), rule)],
                        written: 0,
                        removed: 0,
                        scan_target: Seq::empty(),
                        apply: operation == "replace"@ && !dry_run,
                        outcome: None,
                    };
                    if is_absolute_path(target) || roots.len() == 0 {
                        match resolution(roots, target, ctx.cwd, Seq::empty()) {
                            Ok(path) => call.resolved(path),
                            Err(fault) => call.conclude(Err(fault)),
                        }
                    } else {
                        (call, ActionView::ProbePaths(call.candidates))
                    }
                },
            }
        },
    }
}

/// How `find_scope` begins. The arguments `code`, `language` and
/// `scope_rule` must be strings and `position` a position. The language must
/// be one with a known file extension. All of this is checked before a file
/// is written. Then the rule and the code are written to temporary files, and
/// the code is scanned with the rule.
pub open spec fn find_scope_start(args: JsonTree, ctx: ContextView) -> (CallView, ActionView) {
    match (args.text_field("code"@), args.text_field("language"@)) {
        (None, _) => refused(ToolErrorKind::MissingArgument, "Missing code"@),
        (Some(_), None) => refused(ToolErrorKind::MissingArgument, "Missing language"@),
        (Some(code), Some(language)) => {
            if !is_position(args.index_or_null("position"@)) {
                refused(ToolErrorKind::InvalidPosition, "Missing or invalid position"@)
            } else {
                match (args.text_field("scope_rule"@), file_extension(language)) {
                    (None, _) => refused(ToolErrorKind::MissingArgument, "Missing scope_rule"@),
                    (Some(_), None) => refused(
                        ToolErrorKind::UnsupportedLanguage,
                        "Unsupported language: "@ + language,
                    ),
                    (Some(scope_rule), Some(extension)) => {
                        let code_path = temp_path(ctx, "code"@, extension);
                        (CallView {
                            stage: Stage::Resolving,
                            target: Seq::empty(),
                            candidates: Seq::empty(),
                            labels: Seq::empty(),
                            deferred: None,
                            files: seq![
                                (temp_path(ctx, "find_scope_rule"@, "yml"@), scope_rule),
                                (code_path, code),
                            ],
                            written: 0,
                            removed: 0,
                            scan_target: code_path,
                            apply: false,
                            outcome: None,
                        }).write_next()
                    },
                }
            }
        },
    }
}

/// The path of a temporary file of a call.
pub fn temp_file_path(context: &CallContext, stem: &str, extension: &str) -> (path: String)
    ensures
        path@ == temp_path(context@, stem@, extension@),
{
    let mut name = stem.to_owned();
    name.append("_");
    name.append(decimal(context.call_id).as_str());
    name.append(".");
    name.append(extension);
    join(context.temp_dir.as_str(), name.as_str())
}

/// Whether `operation` is one that `execute_rule` knows.
pub fn known_operation(operation: &str) -> (r: bool)
    ensures
        r == is_known_operation(operation@),
{
    str_eq(operation, "search") || str_eq(operation, "replace") || str_eq(operation, "scan")
}

/// Whether a value is a line or column.
pub fn coordinate(value: &JsonValue) -> (r: bool)
    ensures
        r == is_coordinate(value@),
{
    match value.as_u64() {
        Some(n) => n <= 0xffff_ffff,
        None => false,
    }
}

/// Whether a value is a position.
pub fn position(value: &JsonValue) -> (r: bool)
    ensures
        r == is_position(value@),
{
    match value {
        JsonValue::Object(_) => {
            let line = match value.get("line") {
                Some(line) => coordinate(line),
                None => false,
            };
            let column = match value.get("column") {
                Some(column) => coordinate(column),
                None => false,
            };
            line && column
        },
        JsonValue::Array(items) => {
            assert(value@->Array_0.len() == items.len());
            if items.len() == 2 {
                assert(value@->Array_0[0] == items[0]@);
                assert(value@->Array_0[1] == items[1]@);
                coordinate(&items[0]) && coordinate(&items[1])
            } else {
                false
            }
        },
        _ => false,
    }
}

/// A call that fails before it begins.
pub fn refuse(kind: ToolErrorKind, message: &str) -> (step: (ToolCall, ToolAction))
    ensures
        (step.0@, step.1@) == refused(kind, message@),
        step.0@.wf(),
{
    ToolCall::finished(Err(ToolError::new(kind, message.to_owned())))
}

/// The examples that the search tools search: those of the catalog given
/// as text, or why there are none.
pub open spec fn engine_outcome(source: Result<Seq<char>, Seq<char>>) -> Result<
    Seq<ExampleView>,
    (ToolErrorKind, Seq<char>),
> {
    match source {
        Err(reason) => Err((ToolErrorKind::Catalog, reason)),
        Ok(text) => match catalog_examples(text) {
            Ok(examples) => Ok(examples),
            Err(message) => Err((ToolErrorKind::Catalog, message)),
        },
    }
}

/// The tools of the server, with what they need to know: where the
/// executable is, the roots of the client's workspace, and the catalog of
/// examples.
pub struct AstGrepTools {
    binary_manager: BinaryManager,
    roots: Vec<WorkspaceRoot>,
    catalog: Result<String, String>,
    search_engine: Result<SimpleSearchEngine, ToolError>,
}

impl AstGrepTools {
    /// The roots of the workspace, in the order the client gave them.
    pub closed spec fn roots(&self) -> Seq<WorkspaceRoot> {
        self.roots@
    }

    /// The manager of the executable.
    pub closed spec fn manager(&self) -> BinaryManager {
        self.binary_manager
    }

    /// The text of the catalog of examples, or the reason why there is none.
    pub closed spec fn catalog(&self) -> Result<Seq<char>, Seq<char>> {
        source_view(self.catalog)
    }

    /// The examples that the search tools search, or why there are none.
    pub closed spec fn examples(&self) -> Result<Seq<ExampleView>, (ToolErrorKind, Seq<char>)> {
        match self.search_engine {
            Ok(engine) => Ok(engine.entries()),
            Err(e) => Err((e.kind, e.message@)),
        }
    }

    /// Tools that find the executable through `binary_manager`, for a
    /// workspace without roots. `catalog` is the text of the catalog of
    /// examples, or the reason why there is none; the search tools search
    /// the examples it holds.
    pub fn new(binary_manager: BinaryManager, catalog: Result<String, String>) -> (tools: Self)
        ensures
            tools.roots().len() == 0,
            tools.manager() == binary_manager,
            tools.catalog() == source_view(catalog),
            tools.examples() == engine_outcome(source_view(catalog)),
    {
        let search_engine = match &catalog {
            Ok(text) => SimpleSearchEngine::new(text.as_str()),
            Err(reason) => Err(ToolError::new(ToolErrorKind::Catalog, reason.clone())),
        };
        AstGrepTools { binary_manager, roots: Vec::new(), catalog, search_engine }
    }

    /// Replaces the roots of the workspace, all at once.
    pub fn set_roots(&mut self, roots: Vec<WorkspaceRoot>)
        ensures
            final(self).roots() == roots@,
            final(self).manager() == old(self).manager(),
            final(self).catalog() == old(self).catalog(),
            final(self).examples() == old(self).examples(),
    {
        self.roots = roots;
    }

    /// The manager of the executable.
    pub fn binary_manager(&self) -> (manager: &BinaryManager)
        ensures
            *manager == self.manager(),
    {
        &self.binary_manager
    }

    /// Begins a search for the executable.
    pub fn ensure_binary(&self) -> (step: (EnsureState, EnsureAction))
        ensures
            self.manager().begins(step.0, step.1),
    {
        self.binary_manager.ensure_binary()
    }

    /// Carries a search for the executable on with the answer to its last
    /// action.
    pub fn advance_binary(&mut self, state: EnsureState, event: EnsureEvent) -> (step: (
        EnsureState,
        EnsureAction,
    ))
        ensures
            old(self).manager().follows(state, event, final(self).manager(), step.0, step.1),
            final(self).roots() == old(self).roots(),
            final(self).catalog() == old(self).catalog(),
            final(self).examples() == old(self).examples(),
    {
        self.binary_manager.advance(state, event)
    }

    /// The paths that `target` has under the roots, in order: the paths to
    /// look at before [`Self::resolve_path`] is asked.
    pub fn candidate_paths(&self, target: &str) -> (paths: Vec<String>)
        ensures
            views(paths@) == candidates(self.roots(), target@),
    {
        candidate_paths(&self.roots, target)
    }

    /// Resolves a target of the client to a path. An absolute target is
    /// returned as it is. Without roots a relative target is taken from the
    /// working directory `cwd`. With roots it is taken from the first root
    /// under which it exists, as `exists` says for each root in order; where
    /// it exists under none, the error names the target and every root.
    pub fn resolve_path(&self, target: &str, cwd: &Result<String, String>, exists: &Vec<bool>) -> (r:
        Result<String, ToolError>)
        ensures
            match r {
                Ok(path) => resolution(self.roots(), target@, cwd_view(*cwd), exists@) == Ok::<
                    Seq<char>,
                    (ToolErrorKind, Seq<char>),
                >(path@),
                Err(e) => resolution(self.roots(), target@, cwd_view(*cwd), exists@) == Err::<
                    Seq<char>,
                    (ToolErrorKind, Seq<char>),
                >((e.kind, e.message@)),
            },
    {
        resolve_path(&self.roots, target, cwd, exists)
    }

    /// Begins a call of `execute_rule`.
    pub fn execute_rule(&self, args: &JsonValue, context: &CallContext) -> (step: (
        ToolCall,
        ToolAction,
    ))
        ensures
            (step.0@, step.1@) == execute_rule_start(self.roots(), args@, context@),
            step.0@.wf(),
    {
        let rule_config = match args.get_str("rule_config") {
            Some(rule_config) => rule_config,
            None => {
                return refuse(ToolErrorKind::MissingArgument, "Missing rule_config");
            },
        };
        let target = match args.get_str("target") {
            Some(target) => target,
            None => {
                return refuse(ToolErrorKind::MissingArgument, "Missing target");
            },
        };
        let operation = match args.get_str("operation") {
            Some(operation) => operation,
            None => "search",
        };
        let dry_run = match args.get_bool("dry_run") {
            Some(dry_run) => dry_run,
            None => true,
        };
        match validate_rule_yaml(rule_config) {
            Ok(_) => {},
            Err(e) => {
                return refuse(e.kind, e.message.as_str());
            },
        }
        let deferred = if known_operation(operation) {
            None
        } else {
            let mut message = "Unknown operation: ".to_owned();
            message.append(operation);
            Some(ToolError::new(ToolErrorKind::UnknownOperation, message))
        };
        let mut files: Vec<TempFile> = Vec::new();
        files.push(
            TempFile {
                path: temp_file_path(context, "execute_rule", "yml"),
                content: rule_config.to_owned(),
            },
        );
        let call = ToolCall {
            stage: Stage::Resolving,
            target: target.to_owned(),
            candidates: candidate_paths(&self.roots, target),
            labels: root_names(&self.roots),
            deferred,
            files,
            written: 0,
            removed: 0,
            scan_target: String::new(),
            apply: str_eq(operation, "replace") && !dry_run,
            outcome: None,
        };
        proof {
            assert(call@.files =~= seq![
                (temp_path(context@, "execute_rule"@, "yml"@), rule_config@),
            ]);
        }
        if is_absolute(target) || self.roots.len() == 0 {
            let unknown: Vec<bool> = Vec::new();
            match resolve_path(&self.roots, target, &context.cwd, &unknown) {
                Ok(path) => call.resolved(path),
                Err(fault) => call.conclude(Err(fault)),
            }
        } else {
            let paths = candidate_paths(&self.roots, target);
            (call, ToolAction::ProbePaths { paths })
        }
    }

    /// Begins a call of `find_scope`.
    pub fn find_scope(&self, args: &JsonValue, context: &CallContext) -> (step: (
        ToolCall,
        ToolAction,
    ))
        ensures
            (step.0@, step.1@) == find_scope_start(args@, context@),
            step.0@.wf(),
    {
        let code = match args.get_str("code") {
            Some(code) => code,
            None => {
                return refuse(ToolErrorKind::MissingArgument, "Missing code");
            },
        };
        let language = match args.get_str("language") {
            Some(language) => language,
            None => {
                return refuse(ToolErrorKind::MissingArgument, "Missing language");
            },
        };
        let position_given = match args.get("position") {
            Some(value) => position(value),
            None => false,
        };
        if !position_given {
            return refuse(ToolErrorKind::InvalidPosition, "Missing or invalid position");
        }
        let scope_rule = match args.get_str("scope_rule") {
            Some(scope_rule) => scope_rule,
            None => {
                return refuse(ToolErrorKind::MissingArgument, "Missing scope_rule");
            },
        };
        let extension = match get_file_extension(language) {
            Ok(extension) => extension,
            Err(e) => {
                return refuse(e.kind, e.message.as_str());
            },
        };
        let code_path = temp_file_path(context, "code", extension);
        let mut files: Vec<TempFile> = Vec::new();
        files.push(
            TempFile {
                path: temp_file_path(context, "find_scope_rule", "yml"),
                content: scope_rule.to_owned(),
            },
        );
        files.push(TempFile { path: code_path.clone(), content: code.to_owned() });
        let call = ToolCall {
            stage: Stage::Resolving,
            target: String::new(),
            candidates: Vec::new(),
            labels: Vec::new(),
            deferred: None,
            files,
            written: 0,
            removed: 0,
            scan_target: code_path,
            apply: false,
            outcome: None,
        };
        proof {
            assert(call@.files =~= seq![
                (temp_path(context@, "find_scope_rule"@, "yml"@), scope_rule@),
                (temp_path(context@, "code"@, extension@), code@),
            ]);
            assert(call@.candidates =~= Seq::<Seq<char>>::empty());
            assert(call@.labels =~= Seq::<Seq<char>>::empty());
        }
        call.write_next()
    }
}

/// Calls with different numbers have different temporary files, whatever
/// the stem and the extension: no call writes over the files of another.
pub proof fn lemma_temp_names_differ(
    stem: Seq<char>,
    extension: Seq<char>,
    first: nat,
    second: nat,
)
    requires
        first != second,
    ensures
        temp_name(stem, first, extension) != temp_name(stem, second, extension),
{
    let a = temp_name(stem, first, extension);
    let b = temp_name(stem, second, extension);
    if a == b {
        let head = stem + "_"@;
        let tail = "."@ + extension;
        let x = decimal_text(first);
        let y = decimal_text(second);
        assert(a =~= head + x + tail);
        assert(b =~= head + y + tail);
        assert(x.len() == y.len()) by {
            assert(a.len() == head.len() + x.len() + tail.len());
            assert(b.len() == head.len() + y.len() + tail.len());
        }
        assert(x =~= y) by {
            assert forall|i: int| 0 <= i < x.len() implies x[i] == y[i] by {
                assert((head + x + tail)[head.len() + i] == x[i]);
                assert((head + y + tail)[head.len() + i] == y[i]);
            }
        }
        lemma_decimal_injective(first, second);
    }
}

/// A call of `execute_rule` with an operation that is not known never
/// writes a file and never asks for the executable: it fails at once, or it
/// asks which candidates of the target exist and fails on the answer. Where
/// the rule is well formed and the target is found, the failure is the
/// unknown operation.
pub proof fn lemma_unknown_operation_runs_nothing(
    roots: Seq<WorkspaceRoot>,
    args: JsonTree,
    ctx: ContextView,
    event: crate::tool_call::EventView,
)
    requires
        args.text_field("operation"@) matches Some(operation) && !is_known_operation(operation),
    ensures
        ({
            let (call, action) = execute_rule_start(roots, args, ctx);
            let (after, answer) = call.next(event);
            &&& call.wf()
            &&& call.written == 0
            &&& action is Finish || action is ProbePaths
            &&& action is Finish ==> action->Finish_0 is Err
            &&& action is ProbePaths ==> answer is Finish && answer->Finish_0 is Err
                && after.written == 0
            &&& (event matches crate::tool_call::EventView::Probed(exists) && (action is ProbePaths
                && crate::path_resolver::choice_among(
                call.candidates,
                call.labels,
                call.target,
                exists,
            ) is Ok)) ==> answer == ActionView::Finish(
                Err(
                    (
                        ToolErrorKind::UnknownOperation,
                        "Unknown operation: "@ + args.text_field("operation"@)->0,
                    ),
                ),
            )
        }),
{
}

/// A call of `find_scope` for a language without a known file extension
/// fails before any file is written: it is over at once, with an error.
pub proof fn lemma_unsupported_language_writes_nothing(args: JsonTree, ctx: ContextView)
    requires
        args.text_field("language"@) matches Some(language) && file_extension(language) is None,
    ensures
        ({
            let (call, action) = find_scope_start(args, ctx);
            &&& call == idle_call()
            &&& call.pending().len() == 0
            &&& action is Finish
            &&& action->Finish_0 is Err
            &&& (args.text_field("code"@) is Some && is_position(args.index_or_null("position"@))
                && args.text_field("scope_rule"@) is Some) ==> action == ActionView::Finish(
                Err(
                    (
                        ToolErrorKind::UnsupportedLanguage,
                        "Unsupported language: "@ + args.text_field("language"@)->0,
                    ),
                ),
            )
        }),
{
}

/// However a call begins, the account of its temporary files is right from
/// the first action on: a file is pending only where the first action asks
/// for it to be written.
pub proof fn lemma_calls_begin_clean(roots: Seq<WorkspaceRoot>, args: JsonTree, ctx: ContextView)
    ensures
        ({
            let (call, action) = execute_rule_start(roots, args, ctx);
            &&& call.wf()
            &&& match action {
                ActionView::WriteFile(path, _) => call.pending() == seq![path],
                _ => call.pending().len() == 0,
            }
        }),
        ({
            let (call, action) = find_scope_start(args, ctx);
            &&& call.wf()
            &&& match action {
                ActionView::WriteFile(path, _) => call.pending() == seq![path],
                _ => call.pending().len() == 0,
            }
        }),
{
    let (call, action) = execute_rule_start(roots, args, ctx);
    match action {
        ActionView::WriteFile(path, _) => {
            assert(call.pending() =~= seq![path]);
        },
        _ => {},
    }
    let (scope_call, scope_action) = find_scope_start(args, ctx);
    match scope_action {
        ActionView::WriteFile(path, _) => {
            assert(scope_call.pending() =~= seq![path]);
        },
        _ => {},
    }
}

/// The beginning of the addresses of documents by name.
pub const DOCS_PREFIX: &'static str = "ast-grep://docs/";

/// The beginning of the addresses of the examples of a language.
pub const EXAMPLES_PREFIX: &'static str = "ast-grep://examples/";

/// The beginning of the addresses of the patterns of a category.
pub const PATTERNS_PREFIX: &'static str = "ast-grep://patterns/";

/// The beginning of the addresses of queries.
pub const QUERY_PREFIX: &'static str = "ast-grep://query/";

/// The beginning of the addresses of navigation resources.
pub const NAVIGATION_PREFIX: &'static str = "ast-grep://navigation/";

/// The beginning of the name of the guide to a language.
pub const GUIDE_PREFIX: &'static str = "language-guide/";

/// What is read at the address that stands for missing navigation resources.
pub const NAVIGATION_ERROR_TEXT: &'static str =
    "\u{26A0}\u{FE0F} Navigation resources failed to load. This usually means the catalog is not available. Check ast-grep://catalog-status for details.";

/// What is read at the address that stands for missing catalog resources.
pub const CATALOG_ERROR_TEXT: &'static str =
    "\u{26A0}\u{FE0F} Catalog resources failed to load. This usually means the catalog file is missing or corrupt. Check ast-grep://catalog-status for details.";

/// The content of a resource, or why there is none, by its views.
pub type Content = Result<Seq<char>, (ToolErrorKind, Seq<char>)>;

/// Whether the content of the resource at `uri` names the path of the
/// executable.
pub open spec fn names_binary_path(uri: Seq<char>) -> bool {
    uri == "ast-grep://binary-path"@ || uri == "ast-grep://cli-reference"@
}

/// The document at `uri`, for the addresses of documents that are always
/// there. `binary_path` is the path to try for the executable.
pub open spec fn fixed_document(
    uri: Seq<char>,
    source: Result<Seq<char>, Seq<char>>,
    binary_path: Seq<char>,
) -> Option<Seq<char>> {
    if uri == "ast-grep://discover"@ {
        Some(DISCOVERY_GUIDE@)
    } else if uri == "ast-grep://languages"@ {
        Some(AVAILABLE_LANGUAGES@)
    } else if uri == "ast-grep://catalog-status"@ {
        Some(status_page(source))
    } else if uri == "ast-grep://navigation-error"@ {
        Some(NAVIGATION_ERROR_TEXT@)
    } else if uri == "ast-grep://catalog-error"@ {
        Some(CATALOG_ERROR_TEXT@)
    } else if uri == "ast-grep://binary-path"@ {
        Some(binary_path)
    } else if uri == "ast-grep://cli-reference"@ {
        Some(replaced(CLI_REFERENCE_TEMPLATE@, BINARY_PATH_PLACEHOLDER@, binary_path))
    } else if uri == "ast-grep://rule-examples"@ {
        Some(RULE_EXAMPLES@)
    } else if uri == "ast-grep://relational-patterns"@ {
        Some(RELATIONAL_PATTERNS@)
    } else if uri == "ast-grep://node-kinds"@ {
        Some(NODE_KINDS@)
    } else if uri == "ast-grep://cheatsheet/rules"@ {
        Some(CHEATSHEET_RULES@)
    } else if uri == "ast-grep://cheatsheet/yaml"@ {
        Some(CHEATSHEET_YAML@)
    } else if uri == "ast-grep://examples-by-language"@ {
        Some(EXAMPLES_BY_LANGUAGE@)
    } else if uri == "ast-grep://pattern-syntax"@ {
        Some(PATTERN_SYNTAX@)
    } else if uri == "ast-grep://rule-composition"@ {
        Some(RULE_COMPOSITION@)
    } else {
        None
    }
}

/// The document that an address under `ast-grep://docs/` stands for, given
/// what follows that prefix; `None` where it stands for none.
pub open spec fn docs_document(rest: Seq<char>) -> Option<Seq<char>> {
    let (doc, params) = parsed_params(rest);
    if doc == "examples-by-language"@ {
        Some(EXAMPLES_BY_LANGUAGE@)
    } else if doc == "pattern-syntax"@ {
        Some(PATTERN_SYNTAX@)
    } else if doc == "rule-composition"@ {
        Some(RULE_COMPOSITION@)
    } else if has_prefix(doc, GUIDE_PREFIX@) {
        Some(language_guide(doc.skip(GUIDE_PREFIX@.len() as int), params))
    } else {
        None
    }
}

/// The page of a query: of a search, of a filter or of a similarity query.
pub open spec fn query_document(
    examples: Result<Seq<ExampleView>, (ToolErrorKind, Seq<char>)>,
    rest: Seq<char>,
) -> Content {
    let (query_type, params) = parsed_params(rest);
    if query_type == "search"@ {
        match examples {
            Ok(found) => search_query_outcome(found, params),
            Err(fault) => Err(fault),
        }
    } else if query_type == "filter"@ {
        Ok(filter_page(params))
    } else if query_type == "similar"@ {
        match examples {
            Ok(found) => similar_query_outcome(found, params),
            Err(fault) => Err(fault),
        }
    } else {
        Err((ToolErrorKind::InvalidQuery, "Unknown query type: "@ + query_type))
    }
}

/// What follows `prefix` in `uri`.
pub open spec fn after(uri: Seq<char>, prefix: Seq<char>) -> Seq<char> {
    uri.skip(prefix.len() as int)
}

/// The content of the resource at `uri`: a document that is always there,
/// or a document made for the address, or an example or a navigation
/// document of the catalog. Fails for an address that stands for nothing.
pub open spec fn resource_content(
    uri: Seq<char>,
    source: Result<Seq<char>, Seq<char>>,
    examples: Result<Seq<ExampleView>, (ToolErrorKind, Seq<char>)>,
    binary_path: Seq<char>,
) -> Content {
    let unknown: Content = Err((ToolErrorKind::UnknownResource, "Unknown resource: "@ + uri));
    match fixed_document(uri, source, binary_path) {
        Some(text) => Ok(text),
        None => if has_prefix(uri, DOCS_PREFIX@) {
            match docs_document(after(uri, DOCS_PREFIX@)) {
                Some(text) => Ok(text),
                None => unknown,
            }
        } else if has_prefix(uri, EXAMPLES_PREFIX@) {
            let (language, params) = parsed_params(after(uri, EXAMPLES_PREFIX@));
            Ok(language_examples(language, params))
        } else if has_prefix(uri, PATTERNS_PREFIX@) {
            let (category, params) = parsed_params(after(uri, PATTERNS_PREFIX@));
            Ok(pattern_category(category, params))
        } else if has_prefix(uri, QUERY_PREFIX@) {
            query_document(examples, after(uri, QUERY_PREFIX@))
        } else if has_prefix(uri, CATALOG_PREFIX@) {
            catalog_example(source, uri)
        } else if has_prefix(uri, NAVIGATION_PREFIX@) {
            navigation_content(source, uri)
        } else {
            unknown
        },
    }
}

/// What a tool call begins with: for `find_scope` and `execute_rule` a call
/// that goes on, for the search tools a call that is over with the answer,
/// and for any other name a call that is over with an error.
pub open spec fn tool_start(
    roots: Seq<WorkspaceRoot>,
    examples: Result<Seq<ExampleView>, (ToolErrorKind, Seq<char>)>,
    tool_name: Seq<char>,
    args: JsonTree,
    ctx: ContextView,
) -> (CallView, ActionView) {
    if tool_name == "find_scope"@ {
        find_scope_start(args, ctx)
    } else if tool_name == "execute_rule"@ {
        execute_rule_start(roots, args, ctx)
    } else if tool_name == "search_examples"@ {
        answered(examples, |found: Seq<ExampleView>| search_examples_outcome(found, args))
    } else if tool_name == "similarity_search"@ {
        answered(examples, |found: Seq<ExampleView>| similarity_outcome(found, args))
    } else if tool_name == "suggest_examples"@ {
        answered(examples, |found: Seq<ExampleView>| suggestion_outcome(found, args))
    } else {
        refused(ToolErrorKind::UnknownTool, "Unknown tool: "@ + tool_name)
    }
}

/// A call that is over with the answer of a search tool, or with the reason
/// why there are no examples to search.
pub open spec fn answered(
    examples: Result<Seq<ExampleView>, (ToolErrorKind, Seq<char>)>,
    answer: spec_fn(Seq<ExampleView>) -> Content,
) -> (CallView, ActionView) {
    (
        idle_call(),
        ActionView::Finish(
            match examples {
                Ok(found) => answer(found),
                Err(fault) => Err(fault),
            },
        ),
    )
}

impl AstGrepTools {
    /// All resources of the server.
    pub fn list_resources(&self) -> (list: Vec<ResourceInfo>)
        ensures
            resource_views(list@) == listed_resources(self.catalog()),
    {
        list_resources(&self.catalog)
    }

    /// The prompts of the server.
    pub fn list_prompts(&self) -> (prompts: Vec<PromptInfo>)
        ensures
            prompt_views(prompts@) == listed_prompts(),
    {
        list_prompts()
    }

    /// The prompt of a name, filled in with the arguments. Fails for a name
    /// that no prompt has.
    pub fn get_prompt(&self, name: &str, arguments: &JsonValue) -> (r: Result<String, ToolError>)
        ensures
            match r {
                Ok(text) => prompt_text(name@, arguments@) == Ok::<
                    Seq<char>,
                    (ToolErrorKind, Seq<char>),
                >(text@),
                Err(e) => prompt_text(name@, arguments@) == Err::<
                    Seq<char>,
                    (ToolErrorKind, Seq<char>),
                >((e.kind, e.message@)),
            },
    {
        get_prompt(name, arguments)
    }

    /// Whether the content of the resource at `uri` names the path of the
    /// executable, so that the file system and the search path must be
    /// looked at before the resource is read.
    pub fn needs_binary_probe(uri: &str) -> (r: bool)
        ensures
            r == names_binary_path(uri@),
    {
        str_eq(uri, "ast-grep://binary-path") || str_eq(uri, "ast-grep://cli-reference")
    }

    /// The path to try for the executable, without fetching anything.
    pub fn get_binary_path(&self, probe: &BinaryProbe) -> (r: Result<String, ToolError>)
        ensures
            r matches Ok(path) && path@ == if probe.bundled_exists {
                self.manager().binary_path()
            } else {
                match probe.system_lookup {
                    Some(found) => trimmed(found@),
                    None => first_common_location(probe.common_exists@, 0),
                }
            },
    {
        match self.binary_manager.get_binary_path(probe) {
            Ok(path) => Ok(path),
            Err(e) => Err(ToolError::new(ToolErrorKind::Binary, e.message)),
        }
    }

    /// The page of a query.
    fn handle_query_resource(&self, rest: &str) -> (r: Result<String, ToolError>)
        ensures
            match r {
                Ok(text) => query_document(self.examples(), rest@) == Ok::<
                    Seq<char>,
                    (ToolErrorKind, Seq<char>),
                >(text@),
                Err(e) => query_document(self.examples(), rest@) == Err::<
                    Seq<char>,
                    (ToolErrorKind, Seq<char>),
                >((e.kind, e.message@)),
            },
    {
        let (query_type, params) = parse_uri_params(rest);
        if str_eq(query_type.as_str(), "search") {
            match &self.search_engine {
                Ok(engine) => handle_search_query(engine, &params),
                Err(e) => Err(ToolError::new(e.kind, e.message.clone())),
            }
        } else if str_eq(query_type.as_str(), "filter") {
            Ok(handle_filter_query(&params))
        } else if str_eq(query_type.as_str(), "similar") {
            match &self.search_engine {
                Ok(engine) => handle_similar_query(engine, &params),
                Err(e) => Err(ToolError::new(e.kind, e.message.clone())),
            }
        } else {
            let mut message = "Unknown query type: ".to_owned();
            message.append(query_type.as_str());
            Err(ToolError::new(ToolErrorKind::InvalidQuery, message))
        }
    }

    /// The document that an address under `ast-grep://docs/` stands for.
    fn parse_docs_uri(rest: &str) -> (r: Option<String>)
        ensures
            match r {
                Some(text) => docs_document(rest@) == Some(text@),
                None => docs_document(rest@) is None,
            },
    {
        let (doc, params) = parse_uri_params(rest);
        if str_eq(doc.as_str(), "examples-by-language") {
            Some(get_examples_by_language())
        } else if str_eq(doc.as_str(), "pattern-syntax") {
            Some(get_pattern_syntax())
        } else if str_eq(doc.as_str(), "rule-composition") {
            Some(get_rule_composition())
        } else {
            match strip_prefix(doc.as_str(), GUIDE_PREFIX) {
                Some(language) => Some(get_language_guide(language.as_str(), &params)),
                None => None,
            }
        }
    }

    /// The document at `uri`, for the addresses of documents that are
    /// always there.
    fn read_fixed(&self, uri: &str, binary_path: &str) -> (r: Option<String>)
        ensures
            match r {
                Some(text) => fixed_document(uri@, self.catalog(), binary_path@) == Some(text@),
                None => fixed_document(uri@, self.catalog(), binary_path@) is None,
            },
    {
        if str_eq(uri, "ast-grep://discover") {
            Some(get_discovery_guide())
        } else if str_eq(uri, "ast-grep://languages") {
            Some(get_available_languages())
        } else if str_eq(uri, "ast-grep://catalog-status") {
            Some(get_catalog_status_content(&self.catalog))
        } else if str_eq(uri, "ast-grep://navigation-error") {
            Some(NAVIGATION_ERROR_TEXT.to_owned())
        } else if str_eq(uri, "ast-grep://catalog-error") {
            Some(CATALOG_ERROR_TEXT.to_owned())
        } else if str_eq(uri, "ast-grep://binary-path") {
            Some(binary_path.to_owned())
        } else if str_eq(uri, "ast-grep://cli-reference") {
            Some(get_cli_reference(binary_path))
        } else if str_eq(uri, "ast-grep://rule-examples") {
            Some(get_rule_examples())
        } else if str_eq(uri, "ast-grep://relational-patterns") {
            Some(get_relational_patterns())
        } else if str_eq(uri, "ast-grep://node-kinds") {
            Some(get_node_kinds())
        } else if str_eq(uri, "ast-grep://cheatsheet/rules") {
            Some(get_cheatsheet_rules())
        } else if str_eq(uri, "ast-grep://cheatsheet/yaml") {
            Some(get_cheatsheet_yaml())
        } else if str_eq(uri, "ast-grep://examples-by-language") {
            Some(get_examples_by_language())
        } else if str_eq(uri, "ast-grep://pattern-syntax") {
            Some(get_pattern_syntax())
        } else if str_eq(uri, "ast-grep://rule-composition") {
            Some(get_rule_composition())
        } else {
            None
        }
    }

    /// The content of the resource at `uri`. `probe` says what the file
    /// system and the search path hold of the executable; it is looked at
    /// only for the resources that name the path of the executable.
    pub fn read_resource(&self, uri: &str, probe: &BinaryProbe) -> (r: Result<String, ToolError>)
        ensures
            ({
                let binary_path = if probe.bundled_exists {
                    self.manager().binary_path()
                } else {
                    match probe.system_lookup {
                        Some(found) => trimmed(found@),
                        None => first_common_location(probe.common_exists@, 0),
                    }
                };
                match r {
                    Ok(text) => resource_content(
                        uri@,
                        self.catalog(),
                        self.examples(),
                        binary_path,
                    ) == Ok::<Seq<char>, (ToolErrorKind, Seq<char>)>(text@),
                    Err(e) => resource_content(
                        uri@,
                        self.catalog(),
                        self.examples(),
                        binary_path,
                    ) == Err::<Seq<char>, (ToolErrorKind, Seq<char>)>((e.kind, e.message@)),
                }
            }),
    {
        let binary_path = match self.get_binary_path(probe) {
            Ok(path) => path,
            Err(e) => {
                return Err(e);
            },
        };
        match self.read_fixed(uri, binary_path.as_str()) {
            Some(text) => {
                return Ok(text);
            },
            None => {},
        }
        match strip_prefix(uri, DOCS_PREFIX) {
            Some(rest) => {
                return match Self::parse_docs_uri(rest.as_str()) {
                    Some(text) => Ok(text),
                    None => Err(unknown_resource(uri)),
                };
            },
            None => {},
        }
        match strip_prefix(uri, EXAMPLES_PREFIX) {
            Some(rest) => {
                let (language, params) = parse_uri_params(rest.as_str());
                return Ok(get_language_examples(language.as_str(), &params));
            },
            None => {},
        }
        match strip_prefix(uri, PATTERNS_PREFIX) {
            Some(rest) => {
                let (category, params) = parse_uri_params(rest.as_str());
                return Ok(get_pattern_category(category.as_str(), &params));
            },
            None => {},
        }
        match strip_prefix(uri, QUERY_PREFIX) {
            Some(rest) => {
                return self.handle_query_resource(rest.as_str());
            },
            None => {},
        }
        if crate::text::starts_with(uri, CATALOG_PREFIX) {
            get_catalog_example(&self.catalog, uri)
        } else if crate::text::starts_with(uri, NAVIGATION_PREFIX) {
            get_navigation_content(&self.catalog, uri)
        } else {
            Err(unknown_resource(uri))
        }
    }

    /// Begins a call of the tool `tool_name` with the arguments
    /// `arguments`. The call is carried on by performing the action and
    /// handing the answer to [`ToolCall::step`], until the action is
    /// `Finish`.
    pub fn call_tool(&self, tool_name: &str, arguments: &JsonValue, context: &CallContext) -> (step:
        (ToolCall, ToolAction))
        ensures
            (step.0@, step.1@) == tool_start(
                self.roots(),
                self.examples(),
                tool_name@,
                arguments@,
                context@,
            ),
            step.0@.wf(),
    {
        if str_eq(tool_name, "find_scope") {
            self.find_scope(arguments, context)
        } else if str_eq(tool_name, "execute_rule") {
            self.execute_rule(arguments, context)
        } else if str_eq(tool_name, "search_examples") {
            match &self.search_engine {
                Ok(engine) => ToolCall::finished(search_examples(engine, arguments)),
                Err(e) => ToolCall::finished(Err(ToolError::new(e.kind, e.message.clone()))),
            }
        } else if str_eq(tool_name, "similarity_search") {
            match &self.search_engine {
                Ok(engine) => ToolCall::finished(similarity_search_tool(engine, arguments)),
                Err(e) => ToolCall::finished(Err(ToolError::new(e.kind, e.message.clone()))),
            }
        } else if str_eq(tool_name, "suggest_examples") {
            match &self.search_engine {
                Ok(engine) => ToolCall::finished(suggest_examples(engine, arguments)),
                Err(e) => ToolCall::finished(Err(ToolError::new(e.kind, e.message.clone()))),
            }
        } else {
            let mut message = "Unknown tool: ".to_owned();
            message.append(tool_name);
            refuse(ToolErrorKind::UnknownTool, message.as_str())
        }
    }
}

/// The error for an address that stands for nothing.
fn unknown_resource(uri: &str) -> (e: ToolError)
    ensures
        e.kind == ToolErrorKind::UnknownResource,
        e.message@ == "Unknown resource: "@ + uri@,
{
    let mut message = "Unknown resource: ".to_owned();
    message.append(uri);
    ToolError::new(ToolErrorKind::UnknownResource, message)
}

/// A tool that the server does not know is refused at once: the call is
/// over before anything is written or run.
pub proof fn lemma_unknown_tool_is_refused(
    roots: Seq<WorkspaceRoot>,
    examples: Result<Seq<ExampleView>, (ToolErrorKind, Seq<char>)>,
    tool_name: Seq<char>,
    args: JsonTree,
    ctx: ContextView,
)
    requires
        tool_name != "find_scope"@,
        tool_name != "execute_rule"@,
        tool_name != "search_examples"@,
        tool_name != "similarity_search"@,
        tool_name != "suggest_examples"@,
    ensures
        tool_start(roots, examples, tool_name, args, ctx) == refused(
            ToolErrorKind::UnknownTool,
            "Unknown tool: "@ + tool_name,
        ),
{
}

} // verus!
