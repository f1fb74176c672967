//! Checking a rule before it is handed to the pattern-matching executable.
//!
//! A rule is a YAML mapping with the fields `id`, `language` and `rule`. The
//! language is one of a fixed list, and `rule` is itself a mapping, which is
//! not looked into any further here.

use crate::error::{ToolError, ToolErrorKind};
use crate::text::{
    contains_text, has_prefix, join_strings, joined_with, lemma_contains_in_concat,
    lemma_contains_self, lemma_joined_contains, str_eq,
};
use crate::yaml::{entry, entry_trees, find_entry, parse_yaml, yaml_document, YamlTree, YamlValue};
use vstd::prelude::*;

verus! {

/// A rule of the right shape, shown in every message about a wrong one.
pub const EXAMPLE_RULE: &'static str = r#"id: example-rule
language: javascript
rule:
  pattern: function $NAME($$$PARAMS) { $$$BODY }
  # Optional: add constraints, transformations, etc.
  # constraints:
  #   - pattern: $NAME
  #     regex: "^[a-z]"
  # transform:
  #   $NAME: "new_$NAME""#;

/// The supported languages, as every message about languages names them.
pub const SUPPORTED_LANGUAGES: &'static str =
    "javascript, typescript, rust, python, java, go, cpp, c++, c";

/// The beginning of the message for a text that is no YAML.
pub const INVALID_YAML_HEAD: &'static str = "Invalid YAML syntax: ";

/// What follows the message of the parser in that message.
pub const INVALID_YAML_TAIL: &'static str =
    "\n\nPlease check your YAML formatting. Common issues:\n- Incorrect indentation (use spaces, not tabs)\n- Missing colons after keys\n- Unmatched quotes or brackets\n\nExample of correct format:\n";

/// The message for a rule that is no mapping, up to the example.
pub const NOT_A_MAPPING: &'static str =
    "Rule must be a YAML object, not a scalar value or array.\n\nExample of correct format:\n";

/// The beginning of the message for a rule that lacks fields.
pub const MISSING_FIELDS_HEAD: &'static str = "Missing required fields: ";

/// What follows the missing fields in that message, up to the example.
pub const MISSING_FIELDS_TAIL: &'static str =
    "\n\nRequired fields for ast-grep rules:\n- id: unique identifier for the rule\n- language: programming language (e.g., 'javascript', 'rust', 'python')\n- rule: the search/replace pattern definition\n\nExample of correct format:\n";

/// The beginning of the message for a language that is no string.
pub const LANGUAGE_NOT_STRING: &'static str = "Language field must be a string.";

/// What introduces the supported languages in a message.
pub const SUPPORTED_HEAD: &'static str = "\n\nSupported languages: ";

/// What introduces the example rule in a message.
pub const EXAMPLE_HEAD: &'static str = "\n\nExample of correct format:\n";

/// The beginning of the message for a language that is not supported.
pub const UNSUPPORTED_LANGUAGE_HEAD: &'static str = "Unsupported language: '";

/// The message for a `rule` field that is no mapping, up to the example.
pub const RULE_FIELD_NOT_MAPPING: &'static str =
    "Rule field must be an object containing pattern or other rule definitions.\n\nExample of correct format:\n";

/// Whether `language` is one of the languages a rule may name.
pub open spec fn is_supported_language(language: Seq<char>) -> bool {
    language == "javascript"@ || language == "typescript"@ || language == "rust"@ || language
        == "python"@ || language == "java"@ || language == "go"@ || language == "cpp"@
        || language == "c++"@ || language == "c"@
}

/// The extension of source files in `language`, for the languages supported.
pub open spec fn file_extension(language: Seq<char>) -> Option<Seq<char>> {
    if language == "javascript"@ {
        Some("js"@)
    } else if language == "typescript"@ {
        Some("ts"@)
    } else if language == "rust"@ {
        Some("rs"@)
    } else if language == "python"@ {
        Some("py"@)
    } else if language == "java"@ {
        Some("java"@)
    } else if language == "go"@ {
        Some("go"@)
    } else if language == "cpp"@ || language == "c++"@ {
        Some("cpp"@)
    } else if language == "c"@ {
        Some("c"@)
    } else {
        None
    }
}

/// The end that the messages about a language share: the supported
/// languages, then the example rule.
pub open spec fn language_help() -> Seq<char> {
    SUPPORTED_HEAD@ + SUPPORTED_LANGUAGES@ + EXAMPLE_HEAD@ + EXAMPLE_RULE@
}

/// The message for a language that is not supported.
pub open spec fn unsupported_language_message(language: Seq<char>) -> Seq<char> {
    UNSUPPORTED_LANGUAGE_HEAD@ + language + "'"@ + language_help()
}

/// The message for a text that is no YAML, given the parser's message.
pub open spec fn invalid_yaml_message(parser_message: Seq<char>) -> Seq<char> {
    INVALID_YAML_HEAD@ + parser_message + INVALID_YAML_TAIL@ + EXAMPLE_RULE@
}

/// The message for a rule that lacks the fields `missing`.
pub open spec fn missing_fields_message(missing: Seq<Seq<char>>) -> Seq<char> {
    MISSING_FIELDS_HEAD@ + joined_with(missing, ", "@) + MISSING_FIELDS_TAIL@ + EXAMPLE_RULE@
}

/// `key` alone where the mapping has no entry for it, nothing where it has.
pub open spec fn if_missing(entries: Seq<(YamlTree, YamlTree)>, key: Seq<char>) -> Seq<Seq<char>> {
    if entry(entries, key) is None {
        seq![key]
    } else {
        Seq::empty()
    }
}

/// The required fields that a mapping lacks, in the order `id`, `language`,
/// `rule`.
pub open spec fn missing_fields(entries: Seq<(YamlTree, YamlTree)>) -> Seq<Seq<char>> {
    if_missing(entries, "id"@) + if_missing(entries, "language"@) + if_missing(entries, "rule"@)
}

/// What is wrong with a parsed rule, with the message that says so; `None`
/// for a rule of the right shape. The checks are made in this order: the
/// text is YAML; the document is a mapping; no required field is missing;
/// the language is a string; the language is supported; `rule` is a mapping.
pub open spec fn rule_fault(doc: Result<YamlTree, Seq<char>>) -> Option<(ToolErrorKind, Seq<char>)> {
    match doc {
        Err(parser_message) => Some(
            (ToolErrorKind::InvalidYaml, invalid_yaml_message(parser_message)),
        ),
        Ok(tree) => match tree.mapping() {
            None => Some((ToolErrorKind::NotAMapping, NOT_A_MAPPING@ + EXAMPLE_RULE@)),
            Some(entries) => if missing_fields(entries).len() > 0 {
                Some((ToolErrorKind::MissingFields, missing_fields_message(missing_fields(entries))))
            } else {
                match entry(entries, "language"@)->0.text() {
                    None => Some(
                        (ToolErrorKind::LanguageNotString, LANGUAGE_NOT_STRING@ + language_help()),
                    ),
                    Some(language) => if !is_supported_language(language) {
                        Some(
                            (
                                ToolErrorKind::UnsupportedLanguage,
                                unsupported_language_message(language),
                            ),
                        )
                    } else if entry(entries, "rule"@)->0.mapping() is None {
                        Some(
                            (
                                ToolErrorKind::RuleFieldNotMapping,
                                RULE_FIELD_NOT_MAPPING@ + EXAMPLE_RULE@,
                            ),
                        )
                    } else {
                        None
                    },
                }
            },
        },
    }
}

/// The outcome of a parse, by its views.
pub open spec fn parsed_view(parsed: Result<YamlValue, String>) -> Result<YamlTree, Seq<char>> {
    match parsed {
        Ok(v) => Ok(v@),
        Err(e) => Err(e@),
    }
}

/// The example rule.
pub fn get_example_rule() -> (rule: &'static str)
    ensures
        rule@ == EXAMPLE_RULE@,
{
    EXAMPLE_RULE
}

/// Whether `language` is one of the languages a rule may name.
pub fn is_supported(language: &str) -> (r: bool)
    ensures
        r == is_supported_language(language@),
{
    str_eq(language, "javascript") || str_eq(language, "typescript") || str_eq(language, "rust")
        || str_eq(language, "python") || str_eq(language, "java") || str_eq(language, "go")
        || str_eq(language, "cpp") || str_eq(language, "c++") || str_eq(language, "c")
}

/// The text that ends the messages about a language.
fn language_help_text() -> (text: String)
    ensures
        text@ == language_help(),
{
    let mut text = SUPPORTED_HEAD.to_owned();
    text.append(SUPPORTED_LANGUAGES);
    text.append(EXAMPLE_HEAD);
    text.append(EXAMPLE_RULE);
    text
}

/// Accepts a supported language and rejects any other with a message that
/// names the language and the supported ones.
pub fn validate_language(language: &str) -> (r: Result<(), ToolError>)
    ensures
        match r {
            Ok(_) => is_supported_language(language@),
            Err(e) => !is_supported_language(language@) && e.kind
                == ToolErrorKind::UnsupportedLanguage && e.message@
                == unsupported_language_message(language@),
        },
{
    if is_supported(language) {
        Ok(())
    } else {
        let mut message = UNSUPPORTED_LANGUAGE_HEAD.to_owned();
        message.append(language);
        message.append("'");
        message.append(language_help_text().as_str());
        Err(ToolError::new(ToolErrorKind::UnsupportedLanguage, message))
    }
}

/// The extension of source files in `language`. Fails for a language that is
/// not supported, with a message that names it.
pub fn get_file_extension(language: &str) -> (r: Result<&'static str, ToolError>)
    ensures
        match r {
            Ok(extension) => file_extension(language@) == Some(extension@),
            Err(e) => file_extension(language@) is None && e.kind
                == ToolErrorKind::UnsupportedLanguage && e.message@ == "Unsupported language: "@
                + language@,
        },
{
    if str_eq(language, "javascript") {
        Ok("js")
    } else if str_eq(language, "typescript") {
        Ok("ts")
    } else if str_eq(language, "rust") {
        Ok("rs")
    } else if str_eq(language, "python") {
        Ok("py")
    } else if str_eq(language, "java") {
        Ok("java")
    } else if str_eq(language, "go") {
        Ok("go")
    } else if str_eq(language, "cpp") || str_eq(language, "c++") {
        Ok("cpp")
    } else if str_eq(language, "c") {
        Ok("c")
    } else {
        let mut message = "Unsupported language: ".to_owned();
        message.append(language);
        Err(ToolError::new(ToolErrorKind::UnsupportedLanguage, message))
    }
}

/// The required fields that a mapping lacks.
pub fn find_missing_fields(entries: &Vec<(YamlValue, YamlValue)>) -> (missing: Vec<String>)
    ensures
        crate::text::views(missing@) == missing_fields(entry_trees(entries@)),
{
    let mut missing: Vec<String> = Vec::new();
    if find_entry(entries, "id").is_none() {
        missing.push("id".to_owned());
    }
    if find_entry(entries, "language").is_none() {
        missing.push("language".to_owned());
    }
    if find_entry(entries, "rule").is_none() {
        missing.push("rule".to_owned());
    }
    assert(crate::text::views(missing@) =~= missing_fields(entry_trees(entries@)));
    missing
}

/// Checks a parsed rule: the outcome of parsing a rule text, be it a tree or
/// the parser's message. Says what is wrong with the first thing that is, in
/// the order that [`rule_fault`] gives.
pub fn validate_rule_document(parsed: &Result<YamlValue, String>) -> (r: Result<(), ToolError>)
    ensures
        match r {
            Ok(_) => rule_fault(parsed_view(*parsed)) is None,
            Err(e) => rule_fault(parsed_view(*parsed)) == Some((e.kind, e.message@)),
        },
{
    let doc = match parsed {
        Ok(doc) => doc,
        Err(parser_message) => {
            let mut message = INVALID_YAML_HEAD.to_owned();
            message.append(parser_message.as_str());
            message.append(INVALID_YAML_TAIL);
            message.append(EXAMPLE_RULE);
            return Err(ToolError::new(ToolErrorKind::InvalidYaml, message));
        },
    };
    let entries = match doc.as_mapping() {
        Some(entries) => entries,
        None => {
            let mut message = NOT_A_MAPPING.to_owned();
            message.append(EXAMPLE_RULE);
            return Err(ToolError::new(ToolErrorKind::NotAMapping, message));
        },
    };
    let missing = find_missing_fields(entries);
    if missing.len() > 0 {
        let mut message = MISSING_FIELDS_HEAD.to_owned();
        message.append(join_strings(&missing, ", ").as_str());
        message.append(MISSING_FIELDS_TAIL);
        message.append(EXAMPLE_RULE);
        return Err(ToolError::new(ToolErrorKind::MissingFields, message));
    }
    let language = match find_entry(entries, "language") {
        Some(value) => value.as_str(),
        None => None,
    };
    match language {
        Some(language) => {
            match validate_language(language) {
                Ok(_) => {},
                Err(e) => {
                    return Err(e);
                },
            }
        },
        None => {
            let mut message = LANGUAGE_NOT_STRING.to_owned();
            message.append(language_help_text().as_str());
            return Err(ToolError::new(ToolErrorKind::LanguageNotString, message));
        },
    }
    let rule_is_mapping = match find_entry(entries, "rule") {
        Some(rule) => rule.as_mapping().is_some(),
        None => true,
    };
    if !rule_is_mapping {
        let mut message = RULE_FIELD_NOT_MAPPING.to_owned();
        message.append(EXAMPLE_RULE);
        return Err(ToolError::new(ToolErrorKind::RuleFieldNotMapping, message));
    }
    Ok(())
}

/// Checks the text of a rule: parses it as YAML and checks the document.
pub fn validate_rule_yaml(rule_config: &str) -> (r: Result<(), ToolError>)
    ensures
        match r {
            Ok(_) => rule_fault(yaml_document(rule_config@)) is None,
            Err(e) => rule_fault(yaml_document(rule_config@)) == Some((e.kind, e.message@)),
        },
{
    let parsed = parse_yaml(rule_config);
    validate_rule_document(&parsed)
}

/// A rule that is a mapping and lacks required fields is rejected, and the
/// message lists, right after its opening words, every required field that
/// is missing, not only the first.
pub proof fn lemma_every_missing_field_is_named(tree: YamlTree, key: Seq<char>)
    requires
        tree.mapping() is Some,
        key == "id"@ || key == "language"@ || key == "rule"@,
        entry(tree.mapping()->0, key) is None,
    ensures
        ({
            let missing = missing_fields(tree.mapping()->0);
            let listed = joined_with(missing, ", "@);
            &&& rule_fault(Ok(tree)) == Some(
                (ToolErrorKind::MissingFields, missing_fields_message(missing)),
            )
            &&& missing.contains(key)
            &&& contains_text(listed, key)
            &&& has_prefix(missing_fields_message(missing), MISSING_FIELDS_HEAD@ + listed)
            &&& contains_text(missing_fields_message(missing), key)
        }),
{
    let entries = tree.mapping()->0;
    let missing = missing_fields(entries);
    let listed = joined_with(missing, ", "@);
    let a = if_missing(entries, "id"@);
    let b = if_missing(entries, "language"@);
    let c = if_missing(entries, "rule"@);
    let at: int = if key == "id"@ {
        0
    } else if key == "language"@ {
        a.len() as int
    } else {
        (a.len() + b.len()) as int
    };
    assert(0 <= at < missing.len() && missing[at] == key);
    lemma_joined_contains(missing, ", "@, at);
    let message = missing_fields_message(missing);
    let head = MISSING_FIELDS_HEAD@ + listed;
    assert(message.subrange(0, head.len() as int) =~= head);
    lemma_contains_in_concat(MISSING_FIELDS_HEAD@, listed, MISSING_FIELDS_TAIL@ + EXAMPLE_RULE@, key);
    assert(MISSING_FIELDS_HEAD@ + listed + (MISSING_FIELDS_TAIL@ + EXAMPLE_RULE@) =~= message);
}

/// A language outside the supported list is rejected, and the message names
/// the language and the whole supported list.
pub proof fn lemma_unsupported_language_names_supported(language: Seq<char>)
    ensures
        contains_text(unsupported_language_message(language), SUPPORTED_LANGUAGES@),
        contains_text(unsupported_language_message(language), language),
{
    let message = unsupported_language_message(language);
    lemma_contains_self(SUPPORTED_LANGUAGES@);
    lemma_contains_in_concat(
        UNSUPPORTED_LANGUAGE_HEAD@ + language + "'"@ + SUPPORTED_HEAD@,
        SUPPORTED_LANGUAGES@,
        EXAMPLE_HEAD@ + EXAMPLE_RULE@,
        SUPPORTED_LANGUAGES@,
    );
    assert(UNSUPPORTED_LANGUAGE_HEAD@ + language + "'"@ + SUPPORTED_HEAD@ + SUPPORTED_LANGUAGES@
        + (EXAMPLE_HEAD@ + EXAMPLE_RULE@) =~= message);
    lemma_contains_self(language);
    lemma_contains_in_concat(UNSUPPORTED_LANGUAGE_HEAD@, language, "'"@ + language_help(), language);
    assert(UNSUPPORTED_LANGUAGE_HEAD@ + language + ("'"@ + language_help()) =~= message);
}

/// A rule with all required fields whose language is a string outside the
/// supported list is rejected for its language, with a message that names
/// the supported list.
pub proof fn lemma_rule_with_unsupported_language(tree: YamlTree, language: Seq<char>)
    requires
        tree.mapping() is Some,
        missing_fields(tree.mapping()->0).len() == 0,
        entry(tree.mapping()->0, "language"@)->0.text() == Some(language),
        !is_supported_language(language),
    ensures
        rule_fault(Ok(tree)) == Some(
            (ToolErrorKind::UnsupportedLanguage, unsupported_language_message(language)),
        ),
        contains_text(unsupported_language_message(language), SUPPORTED_LANGUAGES@),
{
    lemma_unsupported_language_names_supported(language);
}

} // verus!
