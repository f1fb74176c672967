//! The catalog of rule examples, read as JSON.
//!
//! The catalog is an object whose member `examples` is an array of examples.
//! An example is an object with the texts `id`, `title`, `description`,
//! `language`, `content` and `yaml_content`, the flag `has_fix`, and the
//! arrays of texts `features` and `rules`. Whatever an example lacks is made
//! up for, and whatever is of another type counts as lacking.

use crate::error::{ToolError, ToolErrorKind};
use crate::json::{
    json_document, json_pretty_text, parse_json, to_string_pretty, trees, JsonNum, JsonTree,
    JsonValue,
};
use crate::resource::{
    described, extend_resources, push_resource, resource_views, ResourceInfo, ResourceView,
};
use crate::text::{
    decimal, decimal_text, has_prefix, str_eq, strip_prefix, to_uppercase, uppercase, views,
};
use vstd::prelude::*;

verus! {

/// The text member `key` of `tree`, or `default` where it has none.
pub open spec fn text_or(tree: JsonTree, key: Seq<char>, default: Seq<char>) -> Seq<char> {
    match tree.text_field(key) {
        Some(text) => text,
        None => default,
    }
}

/// `text` alone where there is one, nothing where there is none.
pub open spec fn text_if_any(text: Option<Seq<char>>) -> Seq<Seq<char>> {
    match text {
        Some(text) => seq![text],
        None => Seq::empty(),
    }
}

/// The texts among `items`, in order.
pub open spec fn string_items(items: Seq<JsonTree>) -> Seq<Seq<char>>
    decreases items.len(),
{
    if items.len() == 0 {
        Seq::empty()
    } else {
        string_items(items.drop_last()) + text_if_any(items.last().text())
    }
}

/// The texts of the array member `key` of an example.
pub open spec fn listed(example: JsonTree, key: Seq<char>) -> Seq<Seq<char>> {
    match example.items_field(key) {
        Some(items) => string_items(items),
        None => Seq::empty(),
    }
}

/// The texts of the array member `key` of all examples, in order.
pub open spec fn all_listed(examples: Seq<JsonTree>, key: Seq<char>) -> Seq<Seq<char>>
    decreases examples.len(),
{
    if examples.len() == 0 {
        Seq::empty()
    } else {
        all_listed(examples.drop_last(), key) + listed(examples.last(), key)
    }
}

/// The text member `key` of all examples that have one, in order.
pub open spec fn all_texts(examples: Seq<JsonTree>, key: Seq<char>) -> Seq<Seq<char>>
    decreases examples.len(),
{
    if examples.len() == 0 {
        Seq::empty()
    } else {
        all_texts(examples.drop_last(), key) + text_if_any(examples.last().text_field(key))
    }
}

/// `texts` without what occurred before: each text once, where it first
/// stands.
pub open spec fn distinct(texts: Seq<Seq<char>>) -> Seq<Seq<char>>
    decreases texts.len(),
{
    if texts.len() == 0 {
        Seq::empty()
    } else if distinct(texts.drop_last()).contains(texts.last()) {
        distinct(texts.drop_last())
    } else {
        distinct(texts.drop_last()).push(texts.last())
    }
}

/// What is asked of an example for it to be in a selection.
#[derive(Debug)]
pub enum Criterion {
    /// Its language is this.
    Language(String),
    /// Its features hold this.
    Feature(String),
    /// It has a fix.
    HasFix,
    /// Its rules hold this.
    Rule(String),
}

/// The mathematical value of a [`Criterion`].
pub ghost enum CriterionView {
    Language(Seq<char>),
    Feature(Seq<char>),
    HasFix,
    Rule(Seq<char>),
}

impl View for Criterion {
    type V = CriterionView;

    open spec fn view(&self) -> CriterionView {
        match self {
            Criterion::Language(l) => CriterionView::Language(l@),
            Criterion::Feature(f) => CriterionView::Feature(f@),
            Criterion::HasFix => CriterionView::HasFix,
            Criterion::Rule(r) => CriterionView::Rule(r@),
        }
    }
}

/// Whether an example meets a criterion.
pub open spec fn admitted(criterion: CriterionView, example: JsonTree) -> bool {
    match criterion {
        CriterionView::Language(language) => example.text_field("language"@) == Some(language),
        CriterionView::Feature(feature) => listed(example, "features"@).contains(feature),
        CriterionView::HasFix => example.truth_field("has_fix"@) == Some(true),
        CriterionView::Rule(rule) => listed(example, "rules"@).contains(rule),
    }
}

/// The examples that meet a criterion, in order.
pub open spec fn selected(examples: Seq<JsonTree>, criterion: CriterionView) -> Seq<JsonTree>
    decreases examples.len(),
{
    if examples.len() == 0 {
        Seq::empty()
    } else if admitted(criterion, examples.last()) {
        selected(examples.drop_last(), criterion).push(examples.last())
    } else {
        selected(examples.drop_last(), criterion)
    }
}

/// The text member `key` of `value`, or `default` where it has none.
pub fn get_str_or(value: &JsonValue, key: &str, default: &str) -> (text: String)
    ensures
        text@ == text_or(value@, key@, default@),
{
    match value.get_str(key) {
        Some(text) => text.to_owned(),
        None => default.to_owned(),
    }
}

/// The texts among `items`, in order.
pub fn string_items_of(items: &Vec<JsonValue>) -> (texts: Vec<String>)
    ensures
        views(texts@) == string_items(trees(items@)),
{
    let mut texts: Vec<String> = Vec::new();
    let mut i: usize = 0;
    let ghost all = trees(items@);
    assert(all.take(0) =~= Seq::<JsonTree>::empty());
    assert(views(texts@) =~= Seq::<Seq<char>>::empty());
    while i < items.len()
        invariant
            i <= items.len(),
            all == trees(items@),
            views(texts@) == string_items(all.take(i as int)),
        decreases items.len() - i,
    {
        proof {
            assert(all.take(i + 1).drop_last() =~= all.take(i as int));
            assert(all.take(i + 1).last() == items[i as int]@);
        }
        match items[i].as_str() {
            Some(text) => {
                let ghost before = views(texts@);
                texts.push(text.to_owned());
                assert(views(texts@) =~= before + seq![text@]);
            },
            None => {
                assert(views(texts@) + Seq::<Seq<char>>::empty() =~= views(texts@));
            },
        }
        i = i + 1;
    }
    assert(all.take(items.len() as int) =~= all);
    texts
}

/// The texts of the array member `key` of an example.
pub fn listed_in(example: &JsonValue, key: &str) -> (texts: Vec<String>)
    ensures
        views(texts@) == listed(example@, key@),
{
    match example.get_array(key) {
        Some(items) => string_items_of(items),
        None => {
            let texts: Vec<String> = Vec::new();
            assert(views(texts@) =~= Seq::<Seq<char>>::empty());
            texts
        },
    }
}

/// Appends the strings of `more` to a list.
pub fn extend_strings(list: &mut Vec<String>, more: Vec<String>)
    ensures
        views(final(list)@) == views(old(list)@) + views(more@),
{
    let mut more = more;
    let ghost before = views(list@);
    let ghost added = views(more@);
    list.append(&mut more);
    assert(views(list@) =~= before + added);
}

/// The texts of the array member `key` of all examples, in order.
pub fn gather_listed(examples: &Vec<JsonValue>, key: &str) -> (texts: Vec<String>)
    ensures
        views(texts@) == all_listed(trees(examples@), key@),
{
    let mut texts: Vec<String> = Vec::new();
    let mut i: usize = 0;
    let ghost all = trees(examples@);
    assert(all.take(0) =~= Seq::<JsonTree>::empty());
    assert(views(texts@) =~= Seq::<Seq<char>>::empty());
    while i < examples.len()
        invariant
            i <= examples.len(),
            all == trees(examples@),
            views(texts@) == all_listed(all.take(i as int), key@),
        decreases examples.len() - i,
    {
        proof {
            assert(all.take(i + 1).drop_last() =~= all.take(i as int));
            assert(all.take(i + 1).last() == examples[i as int]@);
        }
        extend_strings(&mut texts, listed_in(&examples[i], key));
        i = i + 1;
    }
    assert(all.take(examples.len() as int) =~= all);
    texts
}

/// The text member `key` of all examples that have one, in order.
pub fn gather_texts(examples: &Vec<JsonValue>, key: &str) -> (texts: Vec<String>)
    ensures
        views(texts@) == all_texts(trees(examples@), key@),
{
    let mut texts: Vec<String> = Vec::new();
    let mut i: usize = 0;
    let ghost all = trees(examples@);
    assert(all.take(0) =~= Seq::<JsonTree>::empty());
    assert(views(texts@) =~= Seq::<Seq<char>>::empty());
    while i < examples.len()
        invariant
            i <= examples.len(),
            all == trees(examples@),
            views(texts@) == all_texts(all.take(i as int), key@),
        decreases examples.len() - i,
    {
        proof {
            assert(all.take(i + 1).drop_last() =~= all.take(i as int));
            assert(all.take(i + 1).last() == examples[i as int]@);
        }
        match examples[i].get_str(key) {
            Some(text) => {
                let ghost before = views(texts@);
                texts.push(text.to_owned());
                assert(views(texts@) =~= before + seq![text@]);
            },
            None => {
                assert(views(texts@) + Seq::<Seq<char>>::empty() =~= views(texts@));
            },
        }
        i = i + 1;
    }
    assert(all.take(examples.len() as int) =~= all);
    texts
}

/// Whether `list` holds the text `text`.
pub fn contains_string(list: &Vec<String>, text: &str) -> (r: bool)
    ensures
        r == views(list@).contains(text@),
{
    let mut i: usize = 0;
    while i < list.len()
        invariant
            i <= list.len(),
            forall|k: int| 0 <= k < i ==> views(list@)[k] != text@,
        decreases list.len() - i,
    {
        if str_eq(list[i].as_str(), text) {
            assert(views(list@)[i as int] == text@);
            return true;
        }
        i = i + 1;
    }
    false
}

/// `texts` without what occurred before.
pub fn distinct_texts(texts: &Vec<String>) -> (unique: Vec<String>)
    ensures
        views(unique@) == distinct(views(texts@)),
{
    let mut unique: Vec<String> = Vec::new();
    let mut i: usize = 0;
    let ghost all = views(texts@);
    assert(all.take(0) =~= Seq::<Seq<char>>::empty());
    assert(views(unique@) =~= Seq::<Seq<char>>::empty());
    while i < texts.len()
        invariant
            i <= texts.len(),
            all == views(texts@),
            views(unique@) == distinct(all.take(i as int)),
        decreases texts.len() - i,
    {
        proof {
            assert(all.take(i + 1).drop_last() =~= all.take(i as int));
            assert(all.take(i + 1).last() == texts[i as int]@);
        }
        if !contains_string(&unique, texts[i].as_str()) {
            let ghost before = views(unique@);
            unique.push(texts[i].clone());
            assert(views(unique@) =~= before.push(texts[i as int]@));
        }
        i = i + 1;
    }
    assert(all.take(texts.len() as int) =~= all);
    unique
}

/// Whether an example meets a criterion.
pub fn admits(criterion: &Criterion, example: &JsonValue) -> (r: bool)
    ensures
        r == admitted(criterion@, example@),
{
    match criterion {
        Criterion::Language(language) => match example.get_str("language") {
            Some(text) => str_eq(text, language.as_str()),
            None => false,
        },
        Criterion::Feature(feature) => contains_string(
            &listed_in(example, "features"),
            feature.as_str(),
        ),
        Criterion::HasFix => match example.get_bool("has_fix") {
            Some(flag) => flag,
            None => false,
        },
        Criterion::Rule(rule) => contains_string(&listed_in(example, "rules"), rule.as_str()),
    }
}

/// How many of the examples meet a criterion.
pub fn count_selected(examples: &Vec<JsonValue>, criterion: &Criterion) -> (count: usize)
    ensures
        count == selected(trees(examples@), criterion@).len(),
{
    let mut count: usize = 0;
    let mut i: usize = 0;
    let ghost all = trees(examples@);
    assert(all.take(0) =~= Seq::<JsonTree>::empty());
    while i < examples.len()
        invariant
            i <= examples.len(),
            all == trees(examples@),
            count <= i,
            count == selected(all.take(i as int), criterion@).len(),
        decreases examples.len() - i,
    {
        proof {
            assert(all.take(i + 1).drop_last() =~= all.take(i as int));
            assert(all.take(i + 1).last() == examples[i as int]@);
        }
        if admits(criterion, &examples[i]) {
            count = count + 1;
        }
        i = i + 1;
    }
    assert(all.take(examples.len() as int) =~= all);
    count
}

/// The kinds of navigation resources that stand for a value found in the
/// catalog.
#[derive(Debug, Clone, Copy, PartialEq, Eq, Structural)]
pub enum GroupKind {
    Language,
    Feature,
    Rule,
}

/// The criterion that selects the examples of a value of a kind.
pub open spec fn criterion_of(kind: GroupKind, value: Seq<char>) -> CriterionView {
    match kind {
        GroupKind::Language => CriterionView::Language(value),
        GroupKind::Feature => CriterionView::Feature(value),
        GroupKind::Rule => CriterionView::Rule(value),
    }
}

/// The beginning of the addresses of the examples of a language in the catalog.
pub const NAVIGATION_LANGUAGE: &'static str = "ast-grep://navigation/language/";

/// The beginning of the addresses of the examples with a feature.
pub const NAVIGATION_FEATURE: &'static str = "ast-grep://navigation/feature/";

/// The address of the examples with a fix.
pub const NAVIGATION_HAS_FIX: &'static str = "ast-grep://navigation/has-fix";

/// The beginning of the addresses of the examples with a kind of rule.
pub const NAVIGATION_RULE: &'static str = "ast-grep://navigation/rule/";

/// The beginning of the addresses of the examples of the catalog.
pub const CATALOG_PREFIX: &'static str = "ast-grep://catalog/";

/// The type of a resource that is JSON.
pub const JSON_TYPE: &'static str = "application/json";

/// The navigation resource for a criterion that `count` examples meet.
pub open spec fn navigation_entry(criterion: CriterionView, count: nat) -> ResourceView {
    match criterion {
        CriterionView::Language(language) => described(
            NAVIGATION_LANGUAGE@ + language,
            "Catalog: "@ + uppercase(language) + " Examples"@,
            "All "@ + decimal_text(count) + " catalog examples for "@ + language
                + " programming language"@,
            JSON_TYPE@,
        ),
        CriterionView::Feature(feature) => described(
            NAVIGATION_FEATURE@ + feature,
            "Catalog: "@ + feature + " Feature"@,
            "All "@ + decimal_text(count) + " examples using the '"@ + feature + "' feature"@,
            JSON_TYPE@,
        ),
        CriterionView::HasFix => described(
            NAVIGATION_HAS_FIX@,
            "Catalog: Examples with Fixes"@,
            "All "@ + decimal_text(count) + " examples that include code transformations/fixes"@,
            JSON_TYPE@,
        ),
        CriterionView::Rule(rule) => described(
            NAVIGATION_RULE@ + rule,
            "Catalog: "@ + rule + " Rules"@,
            "All "@ + decimal_text(count) + " examples using '"@ + rule + "' rule type"@,
            JSON_TYPE@,
        ),
    }
}

/// The navigation resources of a kind, one for each value, each with the
/// number of examples it selects.
pub open spec fn group_entries(kind: GroupKind, values: Seq<Seq<char>>, examples: Seq<JsonTree>) -> Seq<
    ResourceView,
> {
    Seq::new(
        values.len(),
        |i: int|
            navigation_entry(
                criterion_of(kind, values[i]),
                selected(examples, criterion_of(kind, values[i])).len(),
            ),
    )
}

/// The navigation resource for the examples with a fix, where there are any.
pub open spec fn fix_entries(examples: Seq<JsonTree>) -> Seq<ResourceView> {
    if selected(examples, CriterionView::HasFix).len() > 0 {
        seq![navigation_entry(CriterionView::HasFix, selected(examples, CriterionView::HasFix).len())]
    } else {
        Seq::empty()
    }
}

/// The navigation resources of a catalog: one for each language, then one
/// for each feature, then one for the examples with a fix, then one for each
/// kind of rule. Languages, features and kinds of rule stand in the order in
/// which the catalog first names them.
pub open spec fn navigation_resources(examples: Seq<JsonTree>) -> Seq<ResourceView> {
    group_entries(GroupKind::Language, distinct(all_texts(examples, "language"@)), examples)
        + group_entries(GroupKind::Feature, distinct(all_listed(examples, "features"@)), examples)
        + fix_entries(examples) + group_entries(
        GroupKind::Rule,
        distinct(all_listed(examples, "rules"@)),
        examples,
    )
}

/// The beginning of the message for a catalog that cannot be read for navigation.
pub const NAVIGATION_PARSE_FAILED: &'static str = "Failed to parse catalog.json for navigation: ";

/// The beginning of the message for a catalog that cannot be read.
pub const CATALOG_PARSE_FAILED: &'static str = "Failed to parse catalog.json: ";

/// The message for a catalog without examples.
pub const EXAMPLES_MISSING: &'static str = "Catalog file is missing 'examples' array";

/// The navigation resources of the catalog given as text, or why there are
/// none. A catalog without examples has no navigation resources.
pub open spec fn loaded_navigation(source: Result<Seq<char>, Seq<char>>) -> Result<
    Seq<ResourceView>,
    Seq<char>,
> {
    match source {
        Err(reason) => Err(reason),
        Ok(text) => match json_document(text) {
            Err(message) => Err(NAVIGATION_PARSE_FAILED@ + message),
            Ok(tree) => match tree.items_field("examples"@) {
                Some(examples) => Ok(navigation_resources(examples)),
                None => Ok(Seq::empty()),
            },
        },
    }
}

/// The catalog text, or why there is none, by its views.
pub open spec fn source_view(source: Result<String, String>) -> Result<Seq<char>, Seq<char>> {
    match source {
        Ok(text) => Ok(text@),
        Err(reason) => Err(reason@),
    }
}

/// The text "All `count` " that the descriptions of navigation resources
/// begin with.
fn all_of(count: usize) -> (text: String)
    ensures
        text@ == "All "@ + decimal_text(count as nat),
{
    let mut text = "All ".to_owned();
    text.append(decimal(count as u64).as_str());
    text
}

/// The navigation resource for a criterion that `count` examples meet.
pub fn navigation_resource(criterion: &Criterion, count: usize) -> (resource: ResourceInfo)
    ensures
        resource@ == navigation_entry(criterion@, count as nat),
{
    match criterion {
        Criterion::Language(language) => {
            let mut uri = NAVIGATION_LANGUAGE.to_owned();
            uri.append(language.as_str());
            let mut name = "Catalog: ".to_owned();
            name.append(to_uppercase(language.as_str()).as_str());
            name.append(" Examples");
            let mut description = all_of(count);
            description.append(" catalog examples for ");
            description.append(language.as_str());
            description.append(" programming language");
            ResourceInfo::new(uri, name, description, JSON_TYPE)
        },
        Criterion::Feature(feature) => {
            let mut uri = NAVIGATION_FEATURE.to_owned();
            uri.append(feature.as_str());
            let mut name = "Catalog: ".to_owned();
            name.append(feature.as_str());
            name.append(" Feature");
            let mut description = all_of(count);
            description.append(" examples using the '");
            description.append(feature.as_str());
            description.append("' feature");
            ResourceInfo::new(uri, name, description, JSON_TYPE)
        },
        Criterion::HasFix => {
            let mut description = all_of(count);
            description.append(" examples that include code transformations/fixes");
            ResourceInfo::new(
                NAVIGATION_HAS_FIX.to_owned(),
                "Catalog: Examples with Fixes".to_owned(),
                description,
                JSON_TYPE,
            )
        },
        Criterion::Rule(rule) => {
            let mut uri = NAVIGATION_RULE.to_owned();
            uri.append(rule.as_str());
            let mut name = "Catalog: ".to_owned();
            name.append(rule.as_str());
            name.append(" Rules");
            let mut description = all_of(count);
            description.append(" examples using '");
            description.append(rule.as_str());
            description.append("' rule type");
            ResourceInfo::new(uri, name, description, JSON_TYPE)
        },
    }
}

/// The criterion that selects the examples of a value of a kind.
pub fn criterion_for(kind: GroupKind, value: &str) -> (criterion: Criterion)
    ensures
        criterion@ == criterion_of(kind, value@),
{
    match kind {
        GroupKind::Language => Criterion::Language(value.to_owned()),
        GroupKind::Feature => Criterion::Feature(value.to_owned()),
        GroupKind::Rule => Criterion::Rule(value.to_owned()),
    }
}

/// The navigation resources of a kind, one for each value.
pub fn group_resources(kind: GroupKind, values: &Vec<String>, examples: &Vec<JsonValue>) -> (list:
    Vec<ResourceInfo>)
    ensures
        resource_views(list@) == group_entries(kind, views(values@), trees(examples@)),
{
    let mut list: Vec<ResourceInfo> = Vec::new();
    let mut i: usize = 0;
    while i < values.len()
        invariant
            i <= values.len(),
            list.len() == i,
            forall|k: int|
                0 <= k < i ==> (#[trigger] list[k])@ == group_entries(
                    kind,
                    views(values@),
                    trees(examples@),
                )[k],
        decreases values.len() - i,
    {
        let criterion = criterion_for(kind, values[i].as_str());
        let count = count_selected(examples, &criterion);
        list.push(navigation_resource(&criterion, count));
        i = i + 1;
    }
    assert(resource_views(list@) =~= group_entries(kind, views(values@), trees(examples@)));
    list
}

/// The navigation resources of the examples of a catalog.
pub fn navigation_resources_of(examples: &Vec<JsonValue>) -> (list: Vec<ResourceInfo>)
    ensures
        resource_views(list@) == navigation_resources(trees(examples@)),
{
    let languages = distinct_texts(&gather_texts(examples, "language"));
    let features = distinct_texts(&gather_listed(examples, "features"));
    let rules = distinct_texts(&gather_listed(examples, "rules"));
    let mut list = group_resources(GroupKind::Language, &languages, examples);
    extend_resources(&mut list, group_resources(GroupKind::Feature, &features, examples));
    let fixes = count_selected(examples, &Criterion::HasFix);
    if fixes > 0 {
        push_resource(&mut list, navigation_resource(&Criterion::HasFix, fixes));
    }
    extend_resources(&mut list, group_resources(GroupKind::Rule, &rules, examples));
    proof {
        let e = trees(examples@);
        let a = group_entries(GroupKind::Language, distinct(all_texts(e, "language"@)), e);
        let b = group_entries(GroupKind::Feature, distinct(all_listed(e, "features"@)), e);
        let c = fix_entries(e);
        let d = group_entries(GroupKind::Rule, distinct(all_listed(e, "rules"@)), e);
        if fixes > 0 {
            assert((a + b).push(c[0]) =~= a + b + c);
        } else {
            assert(a + b =~= a + b + c);
        }
    }
    list
}

/// The navigation resources of the catalog given as text: `Ok` with the
/// text of the catalog, or `Err` with the reason why there is none.
pub fn load_navigation_resources(source: &Result<String, String>) -> (r: Result<
    Vec<ResourceInfo>,
    String,
>)
    ensures
        match r {
            Ok(list) => loaded_navigation(source_view(*source)) == Ok::<
                Seq<ResourceView>,
                Seq<char>,
            >(resource_views(list@)),
            Err(e) => loaded_navigation(source_view(*source)) == Err::<
                Seq<ResourceView>,
                Seq<char>,
            >(e@),
        },
{
    let text = match source {
        Ok(text) => text,
        Err(reason) => {
            return Err(reason.clone());
        },
    };
    let catalog = match parse_json(text.as_str()) {
        Ok(catalog) => catalog,
        Err(message) => {
            let mut reason = NAVIGATION_PARSE_FAILED.to_owned();
            reason.append(message.as_str());
            return Err(reason);
        },
    };
    match catalog.get_array("examples") {
        Some(examples) => Ok(navigation_resources_of(examples)),
        None => {
            let list: Vec<ResourceInfo> = Vec::new();
            assert(resource_views(list@) =~= Seq::<ResourceView>::empty());
            Ok(list)
        },
    }
}

/// An example cut down to the members `keys`; a member that the example
/// lacks is null.
pub open spec fn projected(example: JsonTree, keys: Seq<Seq<char>>) -> JsonTree {
    JsonTree::Object(Seq::new(keys.len(), |i: int| (keys[i], example.index_or_null(keys[i]))))
}

/// The examples, each cut down to the members `keys`.
pub open spec fn projections(examples: Seq<JsonTree>, keys: Seq<Seq<char>>) -> Seq<JsonTree> {
    Seq::new(examples.len(), |i: int| projected(examples[i], keys))
}

/// The members that a navigation document shows of each example.
pub open spec fn navigation_keys(criterion: CriterionView) -> Seq<Seq<char>> {
    match criterion {
        CriterionView::Language(_) => seq![
            "id"@,
            "title"@,
            "description"@,
            "has_fix"@,
            "features"@,
            "playground_link"@,
            "yaml_content"@,
        ],
        _ => seq!["id"@, "title"@, "language"@, "description"@, "yaml_content"@],
    }
}

/// The member that says what a navigation document selects by.
pub open spec fn navigation_label(criterion: CriterionView) -> (Seq<char>, JsonTree) {
    match criterion {
        CriterionView::Language(language) => ("language"@, JsonTree::String(language)),
        CriterionView::Feature(feature) => ("feature"@, JsonTree::String(feature)),
        CriterionView::HasFix => ("filter"@, JsonTree::String("has_fix"@)),
        CriterionView::Rule(rule) => ("rule_type"@, JsonTree::String(rule)),
    }
}

/// The navigation document for a criterion: what it selects by, how many
/// examples it selects, and the selected examples cut down to their main
/// members.
pub open spec fn navigation_document(criterion: CriterionView, examples: Seq<JsonTree>) -> JsonTree {
    let chosen = selected(examples, criterion);
    JsonTree::Object(
        seq![
            navigation_label(criterion),
            ("total_examples"@, JsonTree::Number(JsonNum::PosInt(chosen.len() as u64))),
            ("examples"@, JsonTree::Array(projections(chosen, navigation_keys(criterion)))),
        ],
    )
}

/// The criterion that a navigation address stands for.
pub open spec fn criterion_of_uri(uri: Seq<char>) -> Option<CriterionView> {
    if has_prefix(uri, NAVIGATION_LANGUAGE@) {
        Some(CriterionView::Language(uri.skip(NAVIGATION_LANGUAGE@.len() as int)))
    } else if has_prefix(uri, NAVIGATION_FEATURE@) {
        Some(CriterionView::Feature(uri.skip(NAVIGATION_FEATURE@.len() as int)))
    } else if uri == NAVIGATION_HAS_FIX@ {
        Some(CriterionView::HasFix)
    } else if has_prefix(uri, NAVIGATION_RULE@) {
        Some(CriterionView::Rule(uri.skip(NAVIGATION_RULE@.len() as int)))
    } else {
        None
    }
}

/// The beginning of the message for a navigation address that stands for nothing.
pub const NAVIGATION_NOT_FOUND: &'static str = "Navigation resource not found: ";

/// The content of the navigation resource at `uri`: the navigation document
/// of its criterion, printed as JSON. Fails where the catalog is absent or
/// unreadable, and where the address stands for no criterion or the catalog
/// has no examples.
pub open spec fn navigation_content(source: Result<Seq<char>, Seq<char>>, uri: Seq<char>) -> Result<
    Seq<char>,
    (ToolErrorKind, Seq<char>),
> {
    match source {
        Err(reason) => Err((ToolErrorKind::Catalog, reason)),
        Ok(text) => match json_document(text) {
            Err(message) => Err((ToolErrorKind::Catalog, message)),
            Ok(tree) => match (tree.items_field("examples"@), criterion_of_uri(uri)) {
                (Some(examples), Some(criterion)) => match json_pretty_text(
                    navigation_document(criterion, examples),
                ) {
                    Ok(printed) => Ok(printed),
                    Err(message) => Err((ToolErrorKind::Catalog, message)),
                },
                _ => Err((ToolErrorKind::UnknownResource, NAVIGATION_NOT_FOUND@ + uri)),
            },
        },
    }
}

/// An example cut down to the members `keys`.
pub fn project(example: &JsonValue, keys: &Vec<&'static str>) -> (cut: JsonValue)
    ensures
        cut@ == projected(example@, Seq::new(keys@.len(), |i: int| keys@[i]@)),
{
    let mut members: Vec<(String, JsonValue)> = Vec::new();
    let ghost names = Seq::new(keys@.len(), |i: int| keys@[i]@);
    let mut i: usize = 0;
    while i < keys.len()
        invariant
            i <= keys.len(),
            members.len() == i,
            names == Seq::new(keys@.len(), |i: int| keys@[i]@),
            forall|k: int|
                0 <= k < i ==> (#[trigger] members[k]).0@ == names[k] && members[k].1@
                    == example@.index_or_null(names[k]),
        decreases keys.len() - i,
    {
        let value = match example.get(keys[i]) {
            Some(value) => value.duplicate(),
            None => JsonValue::Null,
        };
        members.push((keys[i].to_owned(), value));
        i = i + 1;
    }
    let cut = JsonValue::Object(members);
    assert(cut@->Object_0 =~= projected(example@, names)->Object_0);
    cut
}

/// The members that a navigation document shows of each example.
pub fn keys_for(criterion: &Criterion) -> (keys: Vec<&'static str>)
    ensures
        Seq::new(keys@.len(), |i: int| keys@[i]@) == navigation_keys(criterion@),
{
    let mut keys: Vec<&'static str> = Vec::new();
    keys.push("id");
    keys.push("title");
    match criterion {
        Criterion::Language(_) => {
            keys.push("description");
            keys.push("has_fix");
            keys.push("features");
            keys.push("playground_link");
            keys.push("yaml_content");
        },
        _ => {
            keys.push("language");
            keys.push("description");
            keys.push("yaml_content");
        },
    }
    assert(Seq::new(keys@.len(), |i: int| keys@[i]@) =~= navigation_keys(criterion@));
    keys
}

/// The examples that meet a criterion, each cut down to the members `keys`.
pub fn project_selected(
    examples: &Vec<JsonValue>,
    criterion: &Criterion,
    keys: &Vec<&'static str>,
) -> (cuts: Vec<JsonValue>)
    ensures
        trees(cuts@) == projections(
            selected(trees(examples@), criterion@),
            Seq::new(keys@.len(), |i: int| keys@[i]@),
        ),
{
    let mut cuts: Vec<JsonValue> = Vec::new();
    let ghost all = trees(examples@);
    let ghost names = Seq::new(keys@.len(), |i: int| keys@[i]@);
    let mut i: usize = 0;
    assert(all.take(0) =~= Seq::<JsonTree>::empty());
    assert(trees(cuts@) =~= projections(selected(all.take(0), criterion@), names));
    while i < examples.len()
        invariant
            i <= examples.len(),
            all == trees(examples@),
            names == Seq::new(keys@.len(), |i: int| keys@[i]@),
            trees(cuts@) == projections(selected(all.take(i as int), criterion@), names),
        decreases examples.len() - i,
    {
        proof {
            assert(all.take(i + 1).drop_last() =~= all.take(i as int));
            assert(all.take(i + 1).last() == examples[i as int]@);
        }
        if admits(criterion, &examples[i]) {
            let ghost before = trees(cuts@);
            let cut = project(&examples[i], keys);
            cuts.push(cut);
            proof {
                let chosen = selected(all.take(i as int), criterion@);
                assert(trees(cuts@) =~= before.push(projected(examples[i as int]@, names)));
                assert(projections(chosen.push(examples[i as int]@), names) =~= projections(
                    chosen,
                    names,
                ).push(projected(examples[i as int]@, names)));
            }
        }
        i = i + 1;
    }
    assert(all.take(examples.len() as int) =~= all);
    cuts
}

/// The criterion that a navigation address stands for.
pub fn parse_navigation_uri(uri: &str) -> (r: Option<Criterion>)
    ensures
        match r {
            Some(criterion) => criterion_of_uri(uri@) == Some(criterion@),
            None => criterion_of_uri(uri@) is None,
        },
{
    match strip_prefix(uri, NAVIGATION_LANGUAGE) {
        Some(language) => {
            return Some(Criterion::Language(language));
        },
        None => {},
    }
    match strip_prefix(uri, NAVIGATION_FEATURE) {
        Some(feature) => {
            return Some(Criterion::Feature(feature));
        },
        None => {},
    }
    if str_eq(uri, NAVIGATION_HAS_FIX) {
        return Some(Criterion::HasFix);
    }
    match strip_prefix(uri, NAVIGATION_RULE) {
        Some(rule) => Some(Criterion::Rule(rule)),
        None => None,
    }
}

/// The navigation document for a criterion.
pub fn navigation_document_of(criterion: &Criterion, examples: &Vec<JsonValue>) -> (document:
    JsonValue)
    ensures
        document@ == navigation_document(criterion@, trees(examples@)),
{
    let keys = keys_for(criterion);
    let cuts = project_selected(examples, criterion, &keys);
    let count = count_selected(examples, criterion);
    let label = match criterion {
        Criterion::Language(language) => ("language".to_owned(), JsonValue::String(language.clone())),
        Criterion::Feature(feature) => ("feature".to_owned(), JsonValue::String(feature.clone())),
        Criterion::HasFix => ("filter".to_owned(), JsonValue::String("has_fix".to_owned())),
        Criterion::Rule(rule) => ("rule_type".to_owned(), JsonValue::String(rule.clone())),
    };
    let mut members: Vec<(String, JsonValue)> = Vec::new();
    members.push(label);
    members.push(("total_examples".to_owned(), JsonValue::from_u64(count as u64)));
    let listing = JsonValue::Array(cuts);
    assert(listing@->Array_0 =~= trees(cuts@));
    members.push(("examples".to_owned(), listing));
    let ghost label_view = (members[0].0@, members[0].1@);
    let ghost count_view = members[1].1@;
    let ghost listing_view = members[2].1@;
    let document = JsonValue::Object(members);
    proof {
        let wanted = navigation_document(criterion@, trees(examples@))->Object_0;
        let built = document@->Object_0;
        assert(built.len() == 3);
        assert(built[0] == label_view);
        assert(label_view == navigation_label(criterion@));
        let chosen = selected(trees(examples@), criterion@);
        assert(count as nat == chosen.len());
        assert(count as u64 == chosen.len() as u64);
        assert(built[1].0 == "total_examples"@);
        assert(built[1].1 == count_view);
        assert(built[1] == wanted[1]);
        assert(listing_view == JsonTree::Array(trees(cuts@)));
        assert(built[2] == wanted[2]);
        assert(built =~= wanted);
    }
    document
}

/// The content of the navigation resource at `uri`.
pub fn get_navigation_content(source: &Result<String, String>, uri: &str) -> (r: Result<
    String,
    ToolError,
>)
    ensures
        match r {
            Ok(content) => navigation_content(source_view(*source), uri@) == Ok::<
                Seq<char>,
                (ToolErrorKind, Seq<char>),
            >(content@),
            Err(e) => navigation_content(source_view(*source), uri@) == Err::<
                Seq<char>,
                (ToolErrorKind, Seq<char>),
            >((e.kind, e.message@)),
        },
{
    let text = match source {
        Ok(text) => text,
        Err(reason) => {
            return Err(ToolError::new(ToolErrorKind::Catalog, reason.clone()));
        },
    };
    let catalog = match parse_json(text.as_str()) {
        Ok(catalog) => catalog,
        Err(message) => {
            return Err(ToolError::new(ToolErrorKind::Catalog, message));
        },
    };
    let criterion = parse_navigation_uri(uri);
    match (catalog.get_array("examples"), criterion) {
        (Some(examples), Some(criterion)) => {
            let document = navigation_document_of(&criterion, examples);
            match to_string_pretty(&document) {
                Ok(printed) => Ok(printed),
                Err(message) => Err(ToolError::new(ToolErrorKind::Catalog, message)),
            }
        },
        _ => {
            let mut message = NAVIGATION_NOT_FOUND.to_owned();
            message.append(uri);
            Err(ToolError::new(ToolErrorKind::UnknownResource, message))
        },
    }
}

/// The number of bytes that a text takes in UTF-8.
pub open spec fn utf8_len(text: Seq<char>) -> nat {
    vstd::utf8::encode_utf8(text).len()
}

/// The size of a text as a resource reports it: the number of its bytes, cut
/// down to 32 bits.
pub open spec fn reported_size(text: Seq<char>) -> u32 {
    ((utf8_len(text) as usize) as u64 % 0x1_0000_0000) as u32
}

/// The name an example goes by: its `id`, or `example-` and its index where
/// it has none.
pub open spec fn example_id(example: JsonTree, index: nat) -> Seq<char> {
    text_or(example, "id"@, "example-"@ + decimal_text(index))
}

/// Whether an example has a fix.
pub open spec fn with_fix(example: JsonTree) -> bool {
    example.truth_field("has_fix"@) == Some(true)
}

/// Whether an example has a link to the playground.
pub open spec fn with_playground(example: JsonTree) -> bool {
    example.text_field("playground_link"@) matches Some(link) && link.len() > 0
}

/// The description of the resource of an example: its own description, then
/// in brackets its language in upper case and whether it has a fix, then
/// whether it has a link to the playground.
pub open spec fn catalog_description(example: JsonTree) -> Seq<char> {
    text_or(example, "description"@, "No description"@) + " ["@ + uppercase(
        text_or(example, "language"@, "unknown"@),
    ) + (if with_fix(example) {
        " + Fix"@
    } else {
        Seq::empty()
    }) + "] "@ + (if with_playground(example) {
        "\u{2022} Has playground"@
    } else {
        Seq::empty()
    })
}

/// The resource of the example at `index`, for an example with content.
pub open spec fn catalog_entry(example: JsonTree, index: nat) -> Option<ResourceView> {
    match example.text_field("content"@) {
        None => None,
        Some(content) => Some(
            ResourceView {
                uri: CATALOG_PREFIX@ + example_id(example, index),
                name: (if with_fix(example) {
                    "\u{1F527} "@
                } else {
                    "\u{1F4DD} "@
                }) + text_or(example, "title"@, example_id(example, index)),
                description: Some(catalog_description(example)),
                mime_type: Some("text/yaml"@),
                size: Some(reported_size(content)),
            },
        ),
    }
}

/// The resources of the examples, in order; an example without content has
/// none.
pub open spec fn catalog_entries(examples: Seq<JsonTree>) -> Seq<ResourceView>
    decreases examples.len(),
{
    if examples.len() == 0 {
        Seq::empty()
    } else {
        let index = (examples.len() - 1) as nat;
        match catalog_entry(examples.last(), index) {
            Some(entry) => catalog_entries(examples.drop_last()).push(entry),
            None => catalog_entries(examples.drop_last()),
        }
    }
}

/// The resources of the examples of the catalog given as text, or why there
/// are none.
pub open spec fn loaded_catalog(source: Result<Seq<char>, Seq<char>>) -> Result<
    Seq<ResourceView>,
    Seq<char>,
> {
    match source {
        Err(reason) => Err(reason),
        Ok(text) => match json_document(text) {
            Err(message) => Err(CATALOG_PARSE_FAILED@ + message),
            Ok(tree) => match tree.items_field("examples"@) {
                Some(examples) => Ok(catalog_entries(examples)),
                None => Err(EXAMPLES_MISSING@),
            },
        },
    }
}

/// The name an example goes by.
pub fn example_name(example: &JsonValue, index: usize) -> (id: String)
    ensures
        id@ == example_id(example@, index as nat),
{
    let mut default_id = "example-".to_owned();
    default_id.append(decimal(index as u64).as_str());
    get_str_or(example, "id", default_id.as_str())
}

/// Whether an example has a fix.
pub fn has_fix(example: &JsonValue) -> (r: bool)
    ensures
        r == with_fix(example@),
{
    match example.get_bool("has_fix") {
        Some(flag) => flag,
        None => false,
    }
}

/// The resource of the example at `index`, for an example with content.
pub fn catalog_resource(example: &JsonValue, index: usize) -> (r: Option<ResourceInfo>)
    ensures
        match r {
            Some(resource) => catalog_entry(example@, index as nat) == Some(resource@),
            None => catalog_entry(example@, index as nat) is None,
        },
{
    let content = match example.get_str("content") {
        Some(content) => content,
        None => {
            return None;
        },
    };
    let id = example_name(example, index);
    let fix = has_fix(example);
    let mut uri = CATALOG_PREFIX.to_owned();
    uri.append(id.as_str());
    let mut name = if fix {
        "\u{1F527} ".to_owned()
    } else {
        "\u{1F4DD} ".to_owned()
    };
    name.append(get_str_or(example, "title", id.as_str()).as_str());
    let mut description = get_str_or(example, "description", "No description");
    description.append(" [");
    description.append(to_uppercase(get_str_or(example, "language", "unknown").as_str()).as_str());
    if fix {
        description.append(" + Fix");
    }
    description.append("] ");
    let playground = match example.get_str("playground_link") {
        Some(link) => link.unicode_len() > 0,
        None => false,
    };
    if playground {
        description.append("\u{2022} Has playground");
    }
    let bytes: u64 = content.len() as u64;
    let size: u32 = (bytes % 0x1_0000_0000) as u32;
    proof {
        assert(description@ =~= catalog_description(example@));
    }
    Some(
        ResourceInfo {
            uri,
            name,
            description: Some(description),
            mime_type: Some("text/yaml".to_owned()),
            size: Some(size),
        },
    )
}

/// The resources of the examples, in order.
pub fn catalog_resources_of(examples: &Vec<JsonValue>) -> (list: Vec<ResourceInfo>)
    ensures
        resource_views(list@) == catalog_entries(trees(examples@)),
{
    let mut list: Vec<ResourceInfo> = Vec::new();
    let ghost all = trees(examples@);
    let mut i: usize = 0;
    assert(all.take(0) =~= Seq::<JsonTree>::empty());
    assert(resource_views(list@) =~= Seq::<ResourceView>::empty());
    while i < examples.len()
        invariant
            i <= examples.len(),
            all == trees(examples@),
            resource_views(list@) == catalog_entries(all.take(i as int)),
        decreases examples.len() - i,
    {
        proof {
            assert(all.take(i + 1).drop_last() =~= all.take(i as int));
            assert(all.take(i + 1).last() == examples[i as int]@);
            assert(all.take(i + 1).len() - 1 == i);
        }
        match catalog_resource(&examples[i], i) {
            Some(resource) => {
                push_resource(&mut list, resource);
            },
            None => {},
        }
        i = i + 1;
    }
    assert(all.take(examples.len() as int) =~= all);
    list
}

/// The resources of the examples of the catalog given as text: `Ok` with the
/// text of the catalog, or `Err` with the reason why there is none.
pub fn load_catalog_resources(source: &Result<String, String>) -> (r: Result<
    Vec<ResourceInfo>,
    String,
>)
    ensures
        match r {
            Ok(list) => loaded_catalog(source_view(*source)) == Ok::<Seq<ResourceView>, Seq<char>>(
                resource_views(list@),
            ),
            Err(e) => loaded_catalog(source_view(*source)) == Err::<Seq<ResourceView>, Seq<char>>(
                e@,
            ),
        },
{
    let text = match source {
        Ok(text) => text,
        Err(reason) => {
            return Err(reason.clone());
        },
    };
    let catalog = match parse_json(text.as_str()) {
        Ok(catalog) => catalog,
        Err(message) => {
            let mut reason = CATALOG_PARSE_FAILED.to_owned();
            reason.append(message.as_str());
            return Err(reason);
        },
    };
    match catalog.get_array("examples") {
        Some(examples) => Ok(catalog_resources_of(examples)),
        None => Err(EXAMPLES_MISSING.to_owned()),
    }
}

/// The beginning of the message for a name that no example goes by.
pub const EXAMPLE_NOT_FOUND: &'static str = "Catalog example not found: ";

/// The content of the first of the examples `from..` that goes by the name
/// `id` and has content.
pub open spec fn example_content(examples: Seq<JsonTree>, id: Seq<char>, from: int) -> Option<
    Seq<char>,
>
    decreases examples.len() - from,
{
    if from < 0 || from >= examples.len() {
        None
    } else if example_id(examples[from], from as nat) == id && examples[from].text_field(
        "content"@,
    ) is Some {
        examples[from].text_field("content"@)
    } else {
        example_content(examples, id, from + 1)
    }
}

/// The name that a catalog address asks for: what follows the prefix of
/// catalog addresses, or nothing where the address has another form.
pub open spec fn requested_id(uri: Seq<char>) -> Seq<char> {
    if has_prefix(uri, CATALOG_PREFIX@) {
        uri.skip(CATALOG_PREFIX@.len() as int)
    } else {
        Seq::empty()
    }
}

/// The content of the catalog example at `uri`. Fails where the catalog is
/// absent or unreadable, and where no example with content goes by the name.
pub open spec fn catalog_example(source: Result<Seq<char>, Seq<char>>, uri: Seq<char>) -> Result<
    Seq<char>,
    (ToolErrorKind, Seq<char>),
> {
    match source {
        Err(reason) => Err((ToolErrorKind::Catalog, reason)),
        Ok(text) => match json_document(text) {
            Err(message) => Err((ToolErrorKind::Catalog, message)),
            Ok(tree) => {
                let found = match tree.items_field("examples"@) {
                    Some(examples) => example_content(examples, requested_id(uri), 0),
                    None => None,
                };
                match found {
                    Some(content) => Ok(content),
                    None => Err(
                        (ToolErrorKind::UnknownResource, EXAMPLE_NOT_FOUND@ + requested_id(uri)),
                    ),
                }
            },
        },
    }
}

/// The content of the catalog example at `uri`.
#[verifier::loop_isolation(false)]
pub fn get_catalog_example(source: &Result<String, String>, uri: &str) -> (r: Result<
    String,
    ToolError,
>)
    ensures
        match r {
            Ok(content) => catalog_example(source_view(*source), uri@) == Ok::<
                Seq<char>,
                (ToolErrorKind, Seq<char>),
            >(content@),
            Err(e) => catalog_example(source_view(*source), uri@) == Err::<
                Seq<char>,
                (ToolErrorKind, Seq<char>),
            >((e.kind, e.message@)),
        },
{
    let text = match source {
        Ok(text) => text,
        Err(reason) => {
            return Err(ToolError::new(ToolErrorKind::Catalog, reason.clone()));
        },
    };
    let catalog = match parse_json(text.as_str()) {
        Ok(catalog) => catalog,
        Err(message) => {
            return Err(ToolError::new(ToolErrorKind::Catalog, message));
        },
    };
    let id = match strip_prefix(uri, CATALOG_PREFIX) {
        Some(id) => id,
        None => String::new(),
    };
    match catalog.get_array("examples") {
        Some(examples) => {
            let ghost all = trees(examples@);
            let mut i: usize = 0;
            while i < examples.len()
                invariant
                    i <= examples.len(),
                    all == trees(examples@),
                    example_content(all, id@, 0) == example_content(all, id@, i as int),
                decreases examples.len() - i,
            {
                assert(all[i as int] == examples[i as int]@);
                let name = example_name(&examples[i], i);
                if str_eq(name.as_str(), id.as_str()) {
                    match examples[i].get_str("content") {
                        Some(content) => {
                            return Ok(content.to_owned());
                        },
                        None => {},
                    }
                }
                i = i + 1;
            }
        },
        None => {},
    }
    let mut message = EXAMPLE_NOT_FOUND.to_owned();
    message.append(id.as_str());
    Err(ToolError::new(ToolErrorKind::UnknownResource, message))
}

/// How the catalog stands.
#[derive(Debug)]
pub struct CatalogStatus {
    pub loaded: bool,
    pub path: String,
    pub example_count: usize,
    pub summary: String,
    pub error: Option<String>,
}

/// Where the catalog is said to lie.
pub const CATALOG_PATH: &'static str = "embedded://catalog.json";

/// The number of examples of a catalog.
pub open spec fn example_count(tree: JsonTree) -> nat {
    match tree.items_field("examples"@) {
        Some(examples) => examples.len(),
        None => 0,
    }
}

/// Whether the catalog given as text can be read.
pub open spec fn catalog_loaded(source: Result<Seq<char>, Seq<char>>) -> bool {
    source matches Ok(text) && json_document(text) is Ok
}

/// The number of examples of the catalog given as text; none where it cannot
/// be read.
pub open spec fn loaded_count(source: Result<Seq<char>, Seq<char>>) -> nat {
    match source {
        Ok(text) => match json_document(text) {
            Ok(tree) => example_count(tree),
            Err(_) => 0,
        },
        Err(_) => 0,
    }
}

/// One line on how the catalog stands.
pub open spec fn status_summary(source: Result<Seq<char>, Seq<char>>) -> Seq<char> {
    match source {
        Err(_) => "\u{274C} Embedded catalog not available"@,
        Ok(text) => match json_document(text) {
            Err(_) => "\u{274C} Catalog file corrupt"@,
            Ok(tree) => "\u{2705} Loaded "@ + decimal_text(example_count(tree))
                + " catalog examples"@,
        },
    }
}

/// What went wrong with the catalog, if anything.
pub open spec fn status_error(source: Result<Seq<char>, Seq<char>>) -> Option<Seq<char>> {
    match source {
        Err(reason) => Some("Embedded catalog error: "@ + reason),
        Ok(text) => match json_document(text) {
            Err(message) => Some("JSON parse error: "@ + message),
            Ok(_) => None,
        },
    }
}

/// How the catalog given as text stands.
pub fn get_catalog_status(source: &Result<String, String>) -> (status: CatalogStatus)
    ensures
        status.loaded == catalog_loaded(source_view(*source)),
        status.path@ == CATALOG_PATH@,
        status.example_count == loaded_count(source_view(*source)),
        status.summary@ == status_summary(source_view(*source)),
        crate::resource::text_view(status.error) == status_error(source_view(*source)),
{
    match source {
        Ok(text) => match parse_json(text.as_str()) {
            Ok(catalog) => {
                let example_count = match catalog.get_array("examples") {
                    Some(examples) => {
                        assert(trees(examples@).len() == examples.len());
                        examples.len()
                    },
                    None => 0,
                };
                let mut summary = "\u{2705} Loaded ".to_owned();
                summary.append(decimal(example_count as u64).as_str());
                summary.append(" catalog examples");
                CatalogStatus {
                    loaded: true,
                    path: CATALOG_PATH.to_owned(),
                    example_count,
                    summary,
                    error: None,
                }
            },
            Err(message) => {
                let mut error = "JSON parse error: ".to_owned();
                error.append(message.as_str());
                CatalogStatus {
                    loaded: false,
                    path: CATALOG_PATH.to_owned(),
                    example_count: 0,
                    summary: "\u{274C} Catalog file corrupt".to_owned(),
                    error: Some(error),
                }
            },
        },
        Err(reason) => {
            let mut error = "Embedded catalog error: ".to_owned();
            error.append(reason.as_str());
            CatalogStatus {
                loaded: false,
                path: CATALOG_PATH.to_owned(),
                example_count: 0,
                summary: "\u{274C} Embedded catalog not available".to_owned(),
                error: Some(error),
            }
        },
    }
}

/// How a catalog that can be read is marked.
pub const STATUS_LOADED: &'static str = "\u{2705} LOADED";

/// How a catalog that cannot be read is marked.
pub const STATUS_FAILED: &'static str = "\u{274C} FAILED";

/// The details given of a catalog that can be read.
pub const DETAILS_LOADED: &'static str =
    "The catalog loaded successfully and all example resources are available.";

/// What a catalog that can be read means, after the number of its examples.
pub const MEANING_LOADED_TAIL: &'static str =
    " catalog examples are available.\nYou can browse them using:\n- `ast-grep://navigation/language/{lang}` for language-specific examples\n- `ast-grep://navigation/has-fix` for examples with code fixes\n- `ast-grep://catalog/{id}` for specific examples";

/// What a catalog that cannot be read means.
pub const MEANING_FAILED: &'static str =
    "\u{274C} **Issue detected.** Catalog examples are not available.\nThis means you won't see individual catalog resources, but all static resources still work.";

/// What to do about a catalog that can be read.
pub const TROUBLE_LOADED: &'static str =
    "\u{1F389} **No action needed!** Everything is working correctly.";

/// What to do about a catalog that cannot be read.
pub const TROUBLE_FAILED: &'static str =
    "\u{1F527} **To fix catalog issues:**\n1. Try rebuilding the project: `cargo build`\n2. Check if the build process can access GitHub (for cloning examples)\n3. Verify disk space and permissions in the build directory\n4. If issues persist, you can still use all static resources";

/// The page on how the catalog stands.
pub open spec fn status_page(source: Result<Seq<char>, Seq<char>>) -> Seq<char> {
    let loaded = catalog_loaded(source);
    let count = decimal_text(loaded_count(source));
    "# \u{1F4CA} Catalog Status\n\n## Current Status: "@ + (if loaded {
        STATUS_LOADED@
    } else {
        STATUS_FAILED@
    }) + "\n\n**File Location**: `"@ + CATALOG_PATH@ + "`  \n**Examples Loaded**: "@ + count
        + "  \n**Status**: "@ + status_summary(source) + "\n\n## Details\n\n"@ + (
    match status_error(source) {
        Some(error) => "**Error Details**: "@ + error,
        None => DETAILS_LOADED@,
    }) + "\n\n## What This Means\n\n"@ + (if loaded {
        "\u{2705} **Good news!** "@ + count + MEANING_LOADED_TAIL@
    } else {
        MEANING_FAILED@
    }) + "\n\n## Troubleshooting\n\n"@ + (if loaded {
        TROUBLE_LOADED@
    } else {
        TROUBLE_FAILED@
    }) + "\n\n"@
}

/// The page on how the catalog given as text stands.
pub fn get_catalog_status_content(source: &Result<String, String>) -> (page: String)
    ensures
        page@ == status_page(source_view(*source)),
{
    let status = get_catalog_status(source);
    let count = decimal(status.example_count as u64);
    let mut page = "# \u{1F4CA} Catalog Status\n\n## Current Status: ".to_owned();
    if status.loaded {
        page.append(STATUS_LOADED);
    } else {
        page.append(STATUS_FAILED);
    }
    page.append("\n\n**File Location**: `");
    page.append(status.path.as_str());
    page.append("`  \n**Examples Loaded**: ");
    page.append(count.as_str());
    page.append("  \n**Status**: ");
    page.append(status.summary.as_str());
    page.append("\n\n## Details\n\n");
    match &status.error {
        Some(error) => {
            page.append("**Error Details**: ");
            page.append(error.as_str());
        },
        None => {
            page.append(DETAILS_LOADED);
        },
    }
    page.append("\n\n## What This Means\n\n");
    if status.loaded {
        page.append("\u{2705} **Good news!** ");
        page.append(count.as_str());
        page.append(MEANING_LOADED_TAIL);
    } else {
        page.append(MEANING_FAILED);
    }
    page.append("\n\n## Troubleshooting\n\n");
    if status.loaded {
        page.append(TROUBLE_LOADED);
    } else {
        page.append(TROUBLE_FAILED);
    }
    page.append("\n\n");
    proof {
        assert(page@ =~= status_page(source_view(*source)));
    }
    page
}

} // verus!
