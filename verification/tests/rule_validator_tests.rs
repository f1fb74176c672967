use mcp_ast_grep::error::ToolErrorKind;
use mcp_ast_grep::rule_validator::{
    get_example_rule, get_file_extension, validate_language, validate_rule_document,
    validate_rule_yaml, SUPPORTED_LANGUAGES,
};
use mcp_ast_grep::yaml::{parse_yaml, YamlValue};

const GOOD_RULE: &str = "id: find-functions\nlanguage: rust\nrule:\n  pattern: pub fn $NAME() { $$$ }\n";

#[test]
fn well_formed_rule_is_accepted() {
    assert!(validate_rule_yaml(GOOD_RULE).is_ok());
    assert!(validate_rule_yaml(get_example_rule()).is_ok());
    assert!(validate_rule_yaml("id: a\nlanguage: c++\nrule: {kind: x}\nfix: y\n").is_ok());
}

#[test]
fn text_that_is_no_yaml_is_rejected_with_the_parser_message() {
    let text = "id: [unclosed";
    let parser_message = serde_yaml::from_str::<serde_yaml::Value>(text).unwrap_err().to_string();
    let err = validate_rule_yaml(text).unwrap_err();
    assert_eq!(err.kind, ToolErrorKind::InvalidYaml);
    assert!(err.message.starts_with(&format!("Invalid YAML syntax: {parser_message}\n\n")));
    assert!(err.message.contains("Example of correct format:"));
    assert!(err.message.ends_with(get_example_rule()));
}

#[test]
fn scalar_and_sequence_are_no_rules() {
    for text in ["just a string", "- a\n- b\n", "42", ""] {
        let err = validate_rule_yaml(text).unwrap_err();
        assert_eq!(err.kind, ToolErrorKind::NotAMapping, "{text:?}");
        assert!(err.message.starts_with("Rule must be a YAML object"));
    }
}

#[test]
fn all_missing_fields_are_listed() {
    let err = validate_rule_yaml("message: hello\n").unwrap_err();
    assert_eq!(err.kind, ToolErrorKind::MissingFields);
    assert!(err.message.starts_with("Missing required fields: id, language, rule\n\n"));

    let err = validate_rule_yaml("language: rust\n").unwrap_err();
    assert!(err.message.starts_with("Missing required fields: id, rule\n\n"));

    let err = validate_rule_yaml("id: x\nrule: {}\n").unwrap_err();
    assert!(err.message.starts_with("Missing required fields: language\n\n"));

    let err = validate_rule_yaml("id: x\nlanguage: rust\n").unwrap_err();
    assert!(err.message.starts_with("Missing required fields: rule\n\n"));
}

#[test]
fn language_outside_the_list_is_rejected_and_list_is_named() {
    let err = validate_rule_yaml("id: x\nlanguage: cobol\nrule: {pattern: a}\n").unwrap_err();
    assert_eq!(err.kind, ToolErrorKind::UnsupportedLanguage);
    assert!(err.message.starts_with("Unsupported language: 'cobol'\n\n"));
    assert!(err.message.contains(
        "Supported languages: javascript, typescript, rust, python, java, go, cpp, c++, c"
    ));
    assert!(err.message.contains(SUPPORTED_LANGUAGES));
}

#[test]
fn language_must_be_a_string() {
    let err = validate_rule_yaml("id: x\nlanguage: 5\nrule: {pattern: a}\n").unwrap_err();
    assert_eq!(err.kind, ToolErrorKind::LanguageNotString);
    assert!(err.message.starts_with("Language field must be a string."));
    assert!(err.message.contains(SUPPORTED_LANGUAGES));
}

#[test]
fn rule_field_must_be_a_mapping() {
    let err = validate_rule_yaml("id: x\nlanguage: rust\nrule: just text\n").unwrap_err();
    assert_eq!(err.kind, ToolErrorKind::RuleFieldNotMapping);
    assert!(err.message.starts_with("Rule field must be an object"));
}

#[test]
fn checks_are_made_in_order() {
    // missing fields are reported before an unsupported language
    let err = validate_rule_yaml("language: cobol\n").unwrap_err();
    assert_eq!(err.kind, ToolErrorKind::MissingFields);
    // the language is checked before the rule field
    let err = validate_rule_yaml("id: x\nlanguage: cobol\nrule: 1\n").unwrap_err();
    assert_eq!(err.kind, ToolErrorKind::UnsupportedLanguage);
}

#[test]
fn tagged_nodes_are_looked_through() {
    assert!(validate_rule_yaml("!tagged\nid: x\nlanguage: !lang rust\nrule: !r {pattern: a}\n").is_ok());
}

#[test]
fn every_supported_language_is_accepted() {
    for language in ["javascript", "typescript", "rust", "python", "java", "go", "cpp", "c++", "c"] {
        assert!(validate_language(language).is_ok(), "{language}");
    }
    for language in ["cobol", "", "Rust", "c#", "js"] {
        let err = validate_language(language).unwrap_err();
        assert_eq!(err.kind, ToolErrorKind::UnsupportedLanguage);
        assert!(err.message.starts_with(&format!("Unsupported language: '{language}'")));
    }
}

#[test]
fn file_extensions_follow_the_table() {
    for (language, extension) in [
        ("javascript", "js"),
        ("typescript", "ts"),
        ("rust", "rs"),
        ("python", "py"),
        ("java", "java"),
        ("go", "go"),
        ("cpp", "cpp"),
        ("c++", "cpp"),
        ("c", "c"),
    ] {
        assert_eq!(get_file_extension(language).unwrap(), extension);
    }
    let err = get_file_extension("cobol").unwrap_err();
    assert_eq!(err.kind, ToolErrorKind::UnsupportedLanguage);
    assert_eq!(err.message, "Unsupported language: cobol");
}

#[test]
fn validate_rule_document_takes_a_parsed_rule() {
    let doc = Ok(YamlValue::Mapping(vec![
        (YamlValue::String("id".to_string()), YamlValue::String("x".to_string())),
        (YamlValue::String("language".to_string()), YamlValue::String("go".to_string())),
        (YamlValue::String("rule".to_string()), YamlValue::Mapping(Vec::new())),
    ]));
    assert!(validate_rule_document(&doc).is_ok());
    let err = validate_rule_document(&Err("boom".to_string())).unwrap_err();
    assert_eq!(err.kind, ToolErrorKind::InvalidYaml);
    assert!(err.message.starts_with("Invalid YAML syntax: boom\n\n"));
    // a key that is no plain string does not count as the field
    let doc = Ok(YamlValue::Mapping(vec![(
        YamlValue::Tagged("!t".to_string(), Box::new(YamlValue::String("id".to_string()))),
        YamlValue::Null,
    )]));
    let err = validate_rule_document(&doc).unwrap_err();
    assert!(err.message.starts_with("Missing required fields: id, language, rule"));
}

#[test]
fn parse_yaml_reads_a_mapping_in_document_order() {
    let doc = parse_yaml("id: a\nlanguage: rust\ncount: 3\nflag: true\nnothing: ~\nlist: [1, x]\n").unwrap();
    match doc {
        YamlValue::Mapping(entries) => {
            assert_eq!(entries.len(), 6);
            assert!(matches!(&entries[0].0, YamlValue::String(k) if k == "id"));
            assert!(matches!(&entries[1].1, YamlValue::String(v) if v == "rust"));
            assert!(matches!(&entries[2].1, YamlValue::Number(n) if n == "3"));
            assert!(matches!(&entries[3].1, YamlValue::Bool(true)));
            assert!(matches!(&entries[4].1, YamlValue::Null));
            assert!(matches!(&entries[5].1, YamlValue::Sequence(items) if items.len() == 2));
        }
        _ => panic!("expected a mapping"),
    }
    assert!(parse_yaml("a: [").is_err());
}
