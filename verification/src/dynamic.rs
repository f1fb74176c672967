//! Documents that are made for the address they are asked by.
//!
//! Such an address names a language, a category or a filter and may go on
//! with parameters, as in `ast-grep://examples/rust?category=all`. The
//! document says what was asked and is otherwise made of fixed text.

use crate::text::{
    byte_len, debug_form, debug_text, decimal, decimal_text, each, join_strings, joined_with,
    lowercase, split, split_at, split_once, split_once_at, str_eq, title_cased, to_lowercase,
    to_title_case, views,
};
use vstd::prelude::*;

verus! {

/// A parameter of an address: its name and its value.
pub type Parameter = (String, String);

/// The parameters of an address by their views.
pub open spec fn parameter_views(params: Seq<Parameter>) -> Seq<(Seq<char>, Seq<char>)> {
    Seq::new(params.len(), |i: int| (params[i].0@, params[i].1@))
}

/// `pair` as a parameter where it has the form `name=value`, nothing where
/// it has not.
pub open spec fn parameter_if_any(pair: Seq<char>) -> Seq<(Seq<char>, Seq<char>)> {
    match split_once_at(pair, '=') {
        Some((name, value)) => seq![(name, value)],
        None => Seq::empty(),
    }
}

/// The parameters among `pairs`, in order.
pub open spec fn parameters_of(pairs: Seq<Seq<char>>) -> Seq<(Seq<char>, Seq<char>)>
    decreases pairs.len(),
{
    if pairs.len() == 0 {
        Seq::empty()
    } else {
        parameters_of(pairs.drop_last()) + parameter_if_any(pairs.last())
    }
}

/// What stands before the parameters of an address, and the parameters: the
/// text up to the first `?`, and what follows it split at each `&` and then
/// at the first `=`.
pub open spec fn parsed_params(input: Seq<char>) -> (Seq<char>, Seq<(Seq<char>, Seq<char>)>) {
    match split_once_at(input, '?') {
        Some((base, query)) => (base, parameters_of(split_at(query, '&'))),
        None => (input, Seq::empty()),
    }
}

/// The value of the parameter `name`: that of the last parameter of that
/// name, which stands for all before it.
pub open spec fn parameter(params: Seq<(Seq<char>, Seq<char>)>, name: Seq<char>) -> Option<
    Seq<char>,
>
    decreases params.len(),
{
    if params.len() == 0 {
        None
    } else if params.last().0 == name {
        Some(params.last().1)
    } else {
        parameter(params.drop_last(), name)
    }
}

/// The value of the parameter `name`, or `default` where it is not given.
pub open spec fn parameter_or(
    params: Seq<(Seq<char>, Seq<char>)>,
    name: Seq<char>,
    default: Seq<char>,
) -> Seq<char> {
    match parameter(params, name) {
        Some(value) => value,
        None => default,
    }
}

/// Splits an address into what stands before its parameters, and the
/// parameters.
pub fn parse_uri_params(input: &str) -> (r: (String, Vec<Parameter>))
    ensures
        (r.0@, parameter_views(r.1@)) == parsed_params(input@),
{
    let mut params: Vec<Parameter> = Vec::new();
    assert(parameter_views(params@) =~= Seq::<(Seq<char>, Seq<char>)>::empty());
    match split_once(input, '?') {
        Some((base, query)) => {
            let pairs = split(query.as_str(), '&');
            let ghost all = views(pairs@);
            let mut i: usize = 0;
            assert(all.take(0) =~= Seq::<Seq<char>>::empty());
            while i < pairs.len()
                invariant
                    i <= pairs.len(),
                    all == views(pairs@),
                    parameter_views(params@) == parameters_of(all.take(i as int)),
                decreases pairs.len() - i,
            {
                proof {
                    assert(all.take(i + 1).drop_last() =~= all.take(i as int));
                    assert(all.take(i + 1).last() == pairs[i as int]@);
                }
                match split_once(pairs[i].as_str(), '=') {
                    Some((name, value)) => {
                        let ghost before = parameter_views(params@);
                        let ghost added = (name@, value@);
                        params.push((name, value));
                        assert(parameter_views(params@) =~= before + seq![added]);
                    },
                    None => {
                        assert(parameter_views(params@) + Seq::<
                            (Seq<char>, Seq<char>),
                        >::empty() =~= parameter_views(params@));
                    },
                }
                i = i + 1;
            }
            assert(all.take(pairs.len() as int) =~= all);
            (base, params)
        },
        None => (input.to_owned(), params),
    }
}

/// The value of the parameter `name`.
pub fn get_parameter<'a>(params: &'a Vec<Parameter>, name: &str) -> (r: Option<&'a str>)
    ensures
        match r {
            Some(value) => parameter(parameter_views(params@), name@) == Some(value@),
            None => parameter(parameter_views(params@), name@) is None,
        },
{
    let ghost all = parameter_views(params@);
    let mut i: usize = params.len();
    assert(all.take(params.len() as int) =~= all);
    while i > 0
        invariant
            i <= params.len(),
            all == parameter_views(params@),
            parameter(all, name@) == parameter(all.take(i as int), name@),
        decreases i,
    {
        i = i - 1;
        proof {
            assert(all.take(i + 1).drop_last() =~= all.take(i as int));
            assert(all.take(i + 1).last() == all[i as int]);
        }
        if str_eq(params[i].0.as_str(), name) {
            return Some(params[i].1.as_str());
        }
    }
    None
}

/// The value of the parameter `name`, or `default` where it is not given.
pub fn get_parameter_or(params: &Vec<Parameter>, name: &str, default: &str) -> (value: String)
    ensures
        value@ == parameter_or(parameter_views(params@), name@, default@),
{
    match get_parameter(params, name) {
        Some(value) => value.to_owned(),
        None => default.to_owned(),
    }
}

/// The common patterns of JavaScript and TypeScript.
pub const JAVASCRIPT_PATTERNS: &'static str = r#"
### Variable Declarations
```yaml
rule:
  any:
    - pattern: "var $VAR = $VALUE"
    - pattern: "let $VAR = $VALUE"  
    - pattern: "const $VAR = $VALUE"
```

### Function Calls
```yaml
rule:
  pattern: "$OBJ.$METHOD($$$ARGS)"
```
"#;

/// The common patterns of Python.
pub const PYTHON_PATTERNS: &'static str = r#"
### Function Definitions
```yaml
rule:
  pattern: "def $NAME($$$PARAMS): $$$BODY"
```

### Class Definitions
```yaml
rule:
  pattern: "class $NAME: $$$BODY"
```
"#;

/// The common patterns of Rust.
pub const RUST_PATTERNS: &'static str = r#"
### Function Items
```yaml
rule:
  pattern: "fn $NAME($$$PARAMS) -> $RET { $$$BODY }"
```

### Match Expressions
```yaml
rule:
  pattern: "match $EXPR { $$$ARMS }"
```
"#;

/// What stands for the common patterns of any other language.
pub const GENERIC_PATTERNS: &'static str = "Generic patterns available for all languages.";

/// The common patterns of a language, whatever the case it is written in.
pub open spec fn language_patterns(language: Seq<char>) -> Seq<char> {
    let lower = lowercase(language);
    if lower == "javascript"@ || lower == "typescript"@ {
        JAVASCRIPT_PATTERNS@
    } else if lower == "python"@ {
        PYTHON_PATTERNS@
    } else if lower == "rust"@ {
        RUST_PATTERNS@
    } else {
        GENERIC_PATTERNS@
    }
}

/// What a guide says of advanced techniques at a level.
pub open spec fn advanced_patterns(language: Seq<char>, level: Seq<char>) -> Seq<char> {
    if level == "advanced"@ {
        "Advanced "@ + language + " patterns with complex relational rules and constraints."@
    } else {
        "Intermediate patterns with basic relational rules."@
    }
}

/// What a guide says of best practices.
pub open spec fn best_practices(language: Seq<char>) -> Seq<char> {
    "Best practices for writing maintainable "@ + language + " ast-grep rules."@
}

/// The guide to a language, at the level and with the focus that the
/// parameters `level` and `focus` give; `beginner` and `patterns` where they
/// are not given.
pub open spec fn language_guide(language: Seq<char>, params: Seq<(Seq<char>, Seq<char>)>) -> Seq<
    char,
> {
    let level = parameter_or(params, "level"@, "beginner"@);
    let focus = parameter_or(params, "focus"@, "patterns"@);
    let title = title_cased(language);
    "# "@ + title + " AST-Grep Guide ("@ + level + " level)\n\n## Focus: "@ + focus
        + "\n\nThis guide provides "@ + level + "-level patterns and examples for "@ + title
        + " development.\n\n## Common Patterns for "@ + title + "\n\n"@ + language_patterns(
        language,
    ) + "\n\n## Advanced Techniques\n\n"@ + advanced_patterns(language, level)
        + "\n\n## Best Practices\n\n"@ + best_practices(language) + "\n\n"@
}

/// What stands for the examples of a language in a category.
pub open spec fn filtered_examples(
    language: Seq<char>,
    category: Seq<char>,
    complexity: Seq<char>,
) -> Seq<char> {
    "Filtered examples for "@ + language + ", category: "@ + category + ", complexity: "@
        + complexity
}

/// The examples of a language, in the category and of the complexity that
/// the parameters `category` and `complexity` give; `all` and `basic` where
/// they are not given.
pub open spec fn language_examples(language: Seq<char>, params: Seq<(Seq<char>, Seq<char>)>) -> Seq<
    char,
> {
    let category = parameter_or(params, "category"@, "all"@);
    let complexity = parameter_or(params, "complexity"@, "basic"@);
    "# "@ + title_cased(language) + " Examples\n\n**Category**: "@ + category
        + "  \n**Complexity**: "@ + complexity + "\n\n"@ + filtered_examples(
        language,
        category,
        complexity,
    )
        + "\n\n## Usage\n\nThese examples can be copied directly into your ast-grep rules or used as templates.\n\n"@
}

/// How a truth value is written.
pub open spec fn truth_text(flag: bool) -> Seq<char> {
    if flag {
        "true"@
    } else {
        "false"@
    }
}

/// The patterns of a category, for the language that the parameter
/// `language` gives (`any` where it is not given), with fixes where the
/// parameter `fixes` is `true`.
pub open spec fn pattern_category(category: Seq<char>, params: Seq<(Seq<char>, Seq<char>)>) -> Seq<
    char,
> {
    let language = parameter_or(params, "language"@, "any"@);
    let fixes = truth_text(parameter(params, "fixes"@) == Some("true"@));
    "# "@ + title_cased(category) + " Patterns\n\n**Language Filter**: "@ + language
        + "  \n**Include Fixes**: "@ + fixes + "\n\nPatterns for category: "@ + category
        + ", language: "@ + language + ", fixes: "@ + fixes
        + "\n\n## Related Categories\n\nRelated categories for: "@ + category + "\n\n"@
}

/// The common patterns of a language.
pub fn get_language_patterns(language: &str) -> (text: String)
    ensures
        text@ == language_patterns(language@),
{
    let lower = to_lowercase(language);
    if str_eq(lower.as_str(), "javascript") || str_eq(lower.as_str(), "typescript") {
        JAVASCRIPT_PATTERNS.to_owned()
    } else if str_eq(lower.as_str(), "python") {
        PYTHON_PATTERNS.to_owned()
    } else if str_eq(lower.as_str(), "rust") {
        RUST_PATTERNS.to_owned()
    } else {
        GENERIC_PATTERNS.to_owned()
    }
}

/// What a guide says of advanced techniques at a level.
pub fn get_advanced_patterns(language: &str, level: &str) -> (text: String)
    ensures
        text@ == advanced_patterns(language@, level@),
{
    if str_eq(level, "advanced") {
        let mut text = "Advanced ".to_owned();
        text.append(language);
        text.append(" patterns with complex relational rules and constraints.");
        text
    } else {
        "Intermediate patterns with basic relational rules.".to_owned()
    }
}

/// What a guide says of best practices.
pub fn get_best_practices(language: &str) -> (text: String)
    ensures
        text@ == best_practices(language@),
{
    let mut text = "Best practices for writing maintainable ".to_owned();
    text.append(language);
    text.append(" ast-grep rules.");
    text
}

/// The guide to a language.
pub fn get_language_guide(language: &str, params: &Vec<Parameter>) -> (text: String)
    ensures
        text@ == language_guide(language@, parameter_views(params@)),
{
    let level = get_parameter_or(params, "level", "beginner");
    let focus = get_parameter_or(params, "focus", "patterns");
    let title = to_title_case(language);
    let mut text = "# ".to_owned();
    text.append(title.as_str());
    text.append(" AST-Grep Guide (");
    text.append(level.as_str());
    text.append(" level)\n\n## Focus: ");
    text.append(focus.as_str());
    text.append("\n\nThis guide provides ");
    text.append(level.as_str());
    text.append("-level patterns and examples for ");
    text.append(title.as_str());
    text.append(" development.\n\n## Common Patterns for ");
    text.append(title.as_str());
    text.append("\n\n");
    text.append(get_language_patterns(language).as_str());
    text.append("\n\n## Advanced Techniques\n\n");
    text.append(get_advanced_patterns(language, level.as_str()).as_str());
    text.append("\n\n## Best Practices\n\n");
    text.append(get_best_practices(language).as_str());
    text.append("\n\n");
    proof {
        assert(text@ =~= language_guide(language@, parameter_views(params@)));
    }
    text
}

/// What stands for the examples of a language in a category.
pub fn filter_examples_by_criteria(language: &str, category: &str, complexity: &str) -> (text:
    String)
    ensures
        text@ == filtered_examples(language@, category@, complexity@),
{
    let mut text = "Filtered examples for ".to_owned();
    text.append(language);
    text.append(", category: ");
    text.append(category);
    text.append(", complexity: ");
    text.append(complexity);
    text
}

/// The examples of a language.
pub fn get_language_examples(language: &str, params: &Vec<Parameter>) -> (text: String)
    ensures
        text@ == language_examples(language@, parameter_views(params@)),
{
    let category = get_parameter_or(params, "category", "all");
    let complexity = get_parameter_or(params, "complexity", "basic");
    let mut text = "# ".to_owned();
    text.append(to_title_case(language).as_str());
    text.append(" Examples\n\n**Category**: ");
    text.append(category.as_str());
    text.append("  \n**Complexity**: ");
    text.append(complexity.as_str());
    text.append("\n\n");
    text.append(
        filter_examples_by_criteria(language, category.as_str(), complexity.as_str()).as_str(),
    );
    text.append(
        "\n\n## Usage\n\nThese examples can be copied directly into your ast-grep rules or used as templates.\n\n",
    );
    proof {
        assert(text@ =~= language_examples(language@, parameter_views(params@)));
    }
    text
}

/// How a truth value is written.
pub fn truth(flag: bool) -> (text: &'static str)
    ensures
        text@ == truth_text(flag),
{
    if flag {
        "true"
    } else {
        "false"
    }
}

/// The patterns of a category.
pub fn get_pattern_category(category: &str, params: &Vec<Parameter>) -> (text: String)
    ensures
        text@ == pattern_category(category@, parameter_views(params@)),
{
    let language = get_parameter_or(params, "language", "any");
    let with_fixes = match get_parameter(params, "fixes") {
        Some(value) => str_eq(value, "true"),
        None => false,
    };
    let fixes = truth(with_fixes);
    let mut text = "# ".to_owned();
    text.append(to_title_case(category).as_str());
    text.append(" Patterns\n\n**Language Filter**: ");
    text.append(language.as_str());
    text.append("  \n**Include Fixes**: ");
    text.append(fixes);
    text.append("\n\nPatterns for category: ");
    text.append(category);
    text.append(", language: ");
    text.append(language.as_str());
    text.append(", fixes: ");
    text.append(fixes);
    text.append("\n\n## Related Categories\n\nRelated categories for: ");
    text.append(category);
    text.append("\n\n");
    proof {
        assert(text@ =~= pattern_category(category@, parameter_views(params@)));
    }
    text
}

/// How the `Debug` form writes a truth value that may be absent.
pub open spec fn debug_flag(flag: Option<bool>) -> Seq<char> {
    match flag {
        Some(flag) => "Some("@ + truth_text(flag) + ")"@,
        None => "None"@,
    }
}

/// How the `Debug` form writes a text that may be absent.
pub open spec fn debug_optional(text: Option<Seq<char>>) -> Seq<char> {
    match text {
        Some(text) => "Some("@ + debug_form(text) + ")"@,
        None => "None"@,
    }
}

/// How the `Debug` form writes a list of texts that may be absent.
pub open spec fn debug_list(list: Option<Seq<Seq<char>>>) -> Seq<char> {
    match list {
        Some(list) => "Some(["@ + joined_with(each(list, |t: Seq<char>| debug_form(t)), ", "@)
            + "])"@,
        None => "None"@,
    }
}

/// What stands for the examples that a filter selects.
pub open spec fn filtered_catalog(
    has_fix: Option<bool>,
    language: Option<Seq<char>>,
    features: Option<Seq<Seq<char>>>,
) -> Seq<char> {
    "Filtered catalog results (fix: "@ + debug_flag(has_fix) + ", lang: "@ + debug_optional(
        language,
    ) + ", features: "@ + debug_list(features) + ")"@
}

/// The line on the fix filter, where it is set.
pub open spec fn fix_line(has_fix: Option<bool>) -> Seq<Seq<char>> {
    match has_fix {
        Some(flag) => seq!["- Has fix: "@ + truth_text(flag)],
        None => Seq::empty(),
    }
}

/// The line on the language filter, where it is set.
pub open spec fn language_line(language: Option<Seq<char>>) -> Seq<Seq<char>> {
    match language {
        Some(language) => seq!["- Language: "@ + language],
        None => Seq::empty(),
    }
}

/// The line on the features filter, where it is set.
pub open spec fn features_line(features: Option<Seq<Seq<char>>>) -> Seq<Seq<char>> {
    match features {
        Some(features) => seq!["- Features: "@ + joined_with(features, ", "@)],
        None => Seq::empty(),
    }
}

/// The filters that are set, one on each line.
pub open spec fn formatted_filters(
    has_fix: Option<bool>,
    language: Option<Seq<char>>,
    features: Option<Seq<Seq<char>>>,
) -> Seq<char> {
    joined_with(fix_line(has_fix) + language_line(language) + features_line(features), "\n"@)
}

/// The page of a filter query: the filters that the parameters `has_fix`,
/// `language` and `features` set, and what stands for the examples they
/// select. The number of results is the length in bytes of that text.
pub open spec fn filter_page(params: Seq<(Seq<char>, Seq<char>)>) -> Seq<char> {
    let has_fix = match parameter(params, "has_fix"@) {
        Some(value) => Some(value == "true"@),
        None => None,
    };
    let language = parameter(params, "language"@);
    let features = match parameter(params, "features"@) {
        Some(value) => Some(split_at(value, ',')),
        None => None,
    };
    let results = filtered_catalog(has_fix, language, features);
    "# Filtered Catalog\n\n**Filters Applied**:\n"@ + formatted_filters(
        has_fix,
        language,
        features,
    ) + "\n\n**Results**: "@ + decimal_text(byte_len(results) as nat) + " patterns\n\n"@ + results
        + "\n\n"@
}

/// A list of texts that may be absent, by its views.
pub open spec fn list_view(list: Option<Vec<String>>) -> Option<Seq<Seq<char>>> {
    match list {
        Some(list) => Some(views(list@)),
        None => None,
    }
}

/// What stands for the examples that a filter selects.
pub fn filter_catalog(has_fix: Option<bool>, language: Option<&str>, features: &Option<
    Vec<String>,
>) -> (text: String)
    ensures
        text@ == filtered_catalog(
            has_fix,
            match language {
                Some(l) => Some(l@),
                None => None,
            },
            list_view(*features),
        ),
{
    let mut text = "Filtered catalog results (fix: ".to_owned();
    match has_fix {
        Some(flag) => {
            text.append("Some(");
            text.append(truth(flag));
            text.append(")");
        },
        None => {
            text.append("None");
        },
    }
    text.append(", lang: ");
    match language {
        Some(language) => {
            text.append("Some(");
            text.append(debug_text(language).as_str());
            text.append(")");
        },
        None => {
            text.append("None");
        },
    }
    text.append(", features: ");
    match features {
        Some(list) => {
            let mut quoted: Vec<String> = Vec::new();
            let mut i: usize = 0;
            while i < list.len()
                invariant
                    i <= list.len(),
                    quoted.len() == i,
                    forall|k: int| 0 <= k < i ==> (#[trigger] quoted[k])@ == debug_form(list[k]@),
                decreases list.len() - i,
            {
                quoted.push(debug_text(list[i].as_str()));
                i = i + 1;
            }
            assert(views(quoted@) =~= each(views(list@), |t: Seq<char>| debug_form(t)));
            text.append("Some([");
            text.append(join_strings(&quoted, ", ").as_str());
            text.append("])");
        },
        None => {
            text.append("None");
        },
    }
    text.append(")");
    proof {
        assert(text@ =~= filtered_catalog(
            has_fix,
            match language {
                Some(l) => Some(l@),
                None => None,
            },
            list_view(*features),
        ));
    }
    text
}

/// The filters that are set, one on each line.
pub fn format_filters(has_fix: Option<bool>, language: Option<&str>, features: &Option<
    Vec<String>,
>) -> (text: String)
    ensures
        text@ == formatted_filters(
            has_fix,
            match language {
                Some(l) => Some(l@),
                None => None,
            },
            list_view(*features),
        ),
{
    let mut lines: Vec<String> = Vec::new();
    assert(views(lines@) =~= Seq::<Seq<char>>::empty());
    match has_fix {
        Some(flag) => {
            let mut line = "- Has fix: ".to_owned();
            line.append(truth(flag));
            lines.push(line);
        },
        None => {},
    }
    assert(views(lines@) =~= fix_line(has_fix));
    match language {
        Some(language) => {
            let mut line = "- Language: ".to_owned();
            line.append(language);
            lines.push(line);
        },
        None => {},
    }
    let ghost language_view = match language {
        Some(l) => Some(l@),
        None => None,
    };
    assert(views(lines@) =~= fix_line(has_fix) + language_line(language_view));
    match features {
        Some(list) => {
            let mut line = "- Features: ".to_owned();
            line.append(join_strings(list, ", ").as_str());
            lines.push(line);
        },
        None => {},
    }
    assert(views(lines@) =~= fix_line(has_fix) + language_line(language_view) + features_line(
        list_view(*features),
    ));
    join_strings(&lines, "\n")
}

/// The page of a filter query.
pub fn handle_filter_query(params: &Vec<Parameter>) -> (text: String)
    ensures
        text@ == filter_page(parameter_views(params@)),
{
    let has_fix = match get_parameter(params, "has_fix") {
        Some(value) => Some(str_eq(value, "true")),
        None => None,
    };
    let language = get_parameter(params, "language");
    let features = match get_parameter(params, "features") {
        Some(value) => Some(split(value, ',')),
        None => None,
    };
    let results = filter_catalog(has_fix, language, &features);
    let mut text = "# Filtered Catalog\n\n**Filters Applied**:\n".to_owned();
    text.append(format_filters(has_fix, language, &features).as_str());
    text.append("\n\n**Results**: ");
    text.append(decimal(results.as_str().len() as u64).as_str());
    text.append(" patterns\n\n");
    text.append(results.as_str());
    text.append("\n\n");
    proof {
        assert(text@ =~= filter_page(parameter_views(params@)));
    }
    text
}

} // verus!
