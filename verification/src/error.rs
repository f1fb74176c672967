//! The failures of a tool call.

use vstd::prelude::*;

verus! {

/// What went wrong in a tool call.
#[derive(Debug, Clone, Copy, PartialEq, Eq, Structural)]
pub enum ToolErrorKind {
    /// A required argument is absent or is no string.
    MissingArgument,
    /// The position is absent or is no pair of line and column.
    InvalidPosition,
    /// No tool has this name.
    UnknownTool,
    /// The operation is none of search, replace and scan.
    UnknownOperation,
    /// The language is not one the server supports.
    UnsupportedLanguage,
    /// The rule is no YAML text.
    InvalidYaml,
    /// The rule is YAML but no mapping.
    NotAMapping,
    /// The rule lacks one or more of the required fields.
    MissingFields,
    /// The language of the rule is no string.
    LanguageNotString,
    /// The `rule` field of the rule is no mapping.
    RuleFieldNotMapping,
    /// The target was found under none of the workspace roots.
    PathNotFound,
    /// The working directory is not known.
    CurrentDirectory,
    /// The pattern-matching executable could not be had.
    Binary,
    /// A temporary file could not be written.
    TempFile,
    /// The executable could not be started.
    Spawn,
    /// The executable ran and reported failure.
    ProcessFailed,
    /// The executable did not finish in time.
    TimedOut,
    /// No resource has this address.
    UnknownResource,
    /// No prompt has this name.
    UnknownPrompt,
    /// No scope pattern is known for this scope type and language.
    UnsupportedScope,
    /// No transformation of this name is known for this language.
    UnsupportedTransformation,
    /// The catalog of examples is absent or unreadable.
    Catalog,
    /// A query lacks a parameter or names an unknown kind of query.
    InvalidQuery,
    /// An event arrived that the call was not waiting for.
    UnexpectedEvent,
}

/// A failed tool call: what went wrong, and the message for the client.
#[derive(Debug, Clone)]
pub struct ToolError {
    pub kind: ToolErrorKind,
    pub message: String,
}

impl ToolError {
    /// An error of the given kind with the given message.
    pub fn new(kind: ToolErrorKind, message: String) -> (e: ToolError)
        ensures
            e.kind == kind,
            e.message@ == message@,
    {
        ToolError { kind, message }
    }
}

} // verus!
