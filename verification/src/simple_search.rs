//! Searching the catalog of rule examples by text.
//!
//! A query is normalised, lowered and split into terms. An example scores
//! for the whole query standing in its text and for each term of three
//! bytes or more standing in its title, description, rule, language or
//! features. The examples that score are ranked by score, the highest first,
//! and examples of equal score stay in the order of the catalog.
//!
//! Scores are counted in half points, so that they are whole numbers.

use crate::catalog::{get_str_or, listed, listed_in, text_or};
use crate::error::{ToolError, ToolErrorKind};
use crate::json::{json_document, parse_json, trees, JsonTree, JsonValue};
use crate::text::{
    byte_len, char_is_alphabetic, chars_of, contains, contains_text, eq_ignore_ascii_case,
    is_letter, join_strings, joined_with, lowercase, nfc, nfc_form, same_text_ignoring_ascii_case,
    split_whitespace, str_eq, to_lowercase, views, words,
};
use vstd::prelude::*;

verus! {

/// One example of the catalog.
#[derive(Debug, Clone)]
pub struct CatalogExample {
    pub id: String,
    pub title: String,
    pub description: String,
    pub language: String,
    pub has_fix: bool,
    pub features: Vec<String>,
    pub yaml_content: String,
    pub playground_link: String,
    /// The text that a search looks through: title, description, rule,
    /// features and language, each separated by one space.
    pub content: String,
}

/// The mathematical value of a [`CatalogExample`].
pub ghost struct ExampleView {
    pub id: Seq<char>,
    pub title: Seq<char>,
    pub description: Seq<char>,
    pub language: Seq<char>,
    pub has_fix: bool,
    pub features: Seq<Seq<char>>,
    pub yaml_content: Seq<char>,
    pub playground_link: Seq<char>,
    pub content: Seq<char>,
}

impl View for CatalogExample {
    type V = ExampleView;

    open spec fn view(&self) -> ExampleView {
        ExampleView {
            id: self.id@,
            title: self.title@,
            description: self.description@,
            language: self.language@,
            has_fix: self.has_fix,
            features: views(self.features@),
            yaml_content: self.yaml_content@,
            playground_link: self.playground_link@,
            content: self.content@,
        }
    }
}

/// The views of a vector of examples, item by item.
pub open spec fn example_views(items: Seq<CatalogExample>) -> Seq<ExampleView> {
    Seq::new(items.len(), |i: int| items[i]@)
}

/// An example found by a search, with its score in half points.
#[derive(Debug, Clone)]
pub struct SearchResult {
    pub id: String,
    pub title: String,
    pub description: String,
    pub language: String,
    /// Twice the relevance of the example to the query.
    pub score: u64,
    pub has_fix: bool,
    pub features: Vec<String>,
    pub yaml_content: String,
    pub playground_link: String,
}

/// The mathematical value of a [`SearchResult`].
pub ghost struct ResultView {
    pub id: Seq<char>,
    pub title: Seq<char>,
    pub description: Seq<char>,
    pub language: Seq<char>,
    pub score: u64,
    pub has_fix: bool,
    pub features: Seq<Seq<char>>,
    pub yaml_content: Seq<char>,
    pub playground_link: Seq<char>,
}

impl View for SearchResult {
    type V = ResultView;

    open spec fn view(&self) -> ResultView {
        ResultView {
            id: self.id@,
            title: self.title@,
            description: self.description@,
            language: self.language@,
            score: self.score,
            has_fix: self.has_fix,
            features: views(self.features@),
            yaml_content: self.yaml_content@,
            playground_link: self.playground_link@,
        }
    }
}

/// The views of a vector of results, item by item.
pub open spec fn result_views(items: Seq<SearchResult>) -> Seq<ResultView> {
    Seq::new(items.len(), |i: int| items[i]@)
}

/// Where a page of results stands among all results.
#[derive(Debug, Clone, Copy)]
pub struct Pagination {
    /// How many results there are in all.
    pub total_count: usize,
    /// How many results stand before the page.
    pub offset: usize,
    /// How many results the page may hold.
    pub limit: usize,
    /// Whether results stand after the page.
    pub has_more: bool,
}

/// A page of results.
#[derive(Debug)]
pub struct PaginatedResults {
    pub results: Vec<SearchResult>,
    pub pagination: Pagination,
}

/// Whether a page is what a search gives for an offset and a limit: its
/// results number no more than the limit, stand within the total, and more
/// are to be had exactly where results stand after them.
pub open spec fn is_page(paged: PaginatedResults) -> bool {
    let shown = paged.results@.len();
    let total = paged.pagination.total_count;
    let offset = paged.pagination.offset;
    &&& shown <= paged.pagination.limit
    &&& shown > 0 ==> offset + shown <= total
    &&& paged.pagination.has_more == (offset + shown < total)
    &&& paged.pagination.has_more ==> shown == paged.pagination.limit
}

/// The text that a search looks through.
pub open spec fn searchable(
    title: Seq<char>,
    description: Seq<char>,
    yaml_content: Seq<char>,
    features: Seq<Seq<char>>,
    language: Seq<char>,
) -> Seq<char> {
    title + " "@ + description + " "@ + yaml_content + " "@ + joined_with(features, " "@) + " "@
        + language
}

/// The example that a JSON value of the catalog stands for. A text that the
/// value lacks is empty, and it has no fix unless it says so.
pub open spec fn example_of(tree: JsonTree) -> ExampleView {
    let title = text_or(tree, "title"@, Seq::empty());
    let description = text_or(tree, "description"@, Seq::empty());
    let language = text_or(tree, "language"@, Seq::empty());
    let yaml_content = text_or(tree, "yaml_content"@, Seq::empty());
    let features = listed(tree, "features"@);
    ExampleView {
        id: text_or(tree, "id"@, Seq::empty()),
        title,
        description,
        language,
        has_fix: tree.truth_field("has_fix"@) == Some(true),
        features,
        yaml_content,
        playground_link: text_or(tree, "playground_link"@, Seq::empty()),
        content: searchable(title, description, yaml_content, features, language),
    }
}

/// The examples that the JSON values of a catalog stand for.
pub open spec fn examples_of(items: Seq<JsonTree>) -> Seq<ExampleView> {
    Seq::new(items.len(), |i: int| example_of(items[i]))
}

/// The message for a catalog without examples.
pub const NO_EXAMPLES: &'static str = "No examples found in catalog";

/// The examples of the catalog given as text, or why there are none.
pub open spec fn catalog_examples(text: Seq<char>) -> Result<Seq<ExampleView>, Seq<char>> {
    match json_document(text) {
        Err(message) => Err(message),
        Ok(tree) => match tree.items_field("examples"@) {
            Some(items) => Ok(examples_of(items)),
            None => Err(NO_EXAMPLES@),
        },
    }
}

/// The terms of a query: the words of the query, normalised and in lower
/// case.
pub open spec fn query_terms(query: Seq<char>) -> Seq<Seq<char>> {
    words(lowercase(nfc_form(query)))
}

/// Whether a language filter lets an example of a language through: no
/// filter and the filter `any` let everything through, any other filter the
/// language it names, whatever the case of its letters.
pub open spec fn language_admits(filter: Option<Seq<char>>, language: Seq<char>) -> bool {
    match filter {
        None => true,
        Some(wanted) => wanted == "any"@ || same_text_ignoring_ascii_case(language, wanted),
    }
}

/// `weight` where `term` stands in `text` in lower case, nothing where it
/// does not.
pub open spec fn hit(text: Seq<char>, term: Seq<char>, weight: nat) -> nat {
    if contains_text(lowercase(text), term) {
        weight
    } else {
        0
    }
}

/// What the features of an example score for a term: five half points for
/// each feature that holds it.
pub open spec fn feature_score(features: Seq<Seq<char>>, term: Seq<char>) -> nat
    decreases features.len(),
{
    if features.len() == 0 {
        0
    } else {
        feature_score(features.drop_last(), term) + hit(features.last(), term, 5)
    }
}

/// What an example scores for one term, in half points: ten for the title,
/// six for the description, four for the rule, two for the language, five
/// for each feature. A term of two bytes or less scores nothing.
pub open spec fn term_score(example: ExampleView, term: Seq<char>) -> nat {
    if byte_len(term) <= 2 {
        0
    } else {
        hit(example.title, term, 10) + hit(example.description, term, 6) + hit(
            example.yaml_content,
            term,
            4,
        ) + hit(example.language, term, 2) + feature_score(example.features, term)
    }
}

/// What an example scores for all terms.
pub open spec fn terms_score(example: ExampleView, terms: Seq<Seq<char>>) -> nat
    decreases terms.len(),
{
    if terms.len() == 0 {
        0
    } else {
        terms_score(example, terms.drop_last()) + term_score(example, terms.last())
    }
}

/// Whether a term speaks of fixing.
pub open spec fn names_fix(term: Seq<char>) -> bool {
    contains_text(term, "fix"@) || contains_text(term, "replace"@) || contains_text(
        term,
        "rewrite"@,
    )
}

/// Whether any of the terms speaks of fixing.
pub open spec fn any_names_fix(terms: Seq<Seq<char>>) -> bool {
    exists|i: int| 0 <= i < terms.len() && names_fix(#[trigger] terms[i])
}

/// The relevance of an example to the terms of a query, in half points:
/// twenty where the whole query stands in its text, its score for each term,
/// and two where it has a fix and the query speaks of fixing.
pub open spec fn relevance(example: ExampleView, terms: Seq<Seq<char>>) -> nat {
    hit(example.content, joined_with(terms, " "@), 20) + terms_score(example, terms) + if example.has_fix
        && any_names_fix(terms) {
        2nat
    } else {
        0nat
    }
}

/// A score as a machine number: the score, or the largest number where the
/// score is larger.
pub open spec fn capped(score: nat) -> u64 {
    if score > u64::MAX {
        u64::MAX
    } else {
        score as u64
    }
}

/// An example that scored: its index in the catalog, and its score.
pub type Hit = (usize, u64);

/// The examples among the first `upto` that a filter lets through and that
/// score for the terms, in the order of the catalog.
pub open spec fn hits(
    examples: Seq<ExampleView>,
    terms: Seq<Seq<char>>,
    filter: Option<Seq<char>>,
    upto: int,
) -> Seq<Hit>
    decreases upto,
{
    if upto <= 0 || upto > examples.len() {
        Seq::empty()
    } else {
        let example = examples[upto - 1];
        let score = capped(relevance(example, terms));
        if language_admits(filter, example.language) && score > 0 {
            hits(examples, terms, filter, upto - 1).push(((upto - 1) as usize, score))
        } else {
            hits(examples, terms, filter, upto - 1)
        }
    }
}

/// A ranking with one more hit: the hit stands before the first hit of a
/// lower score.
pub open spec fn placed(ranking: Seq<Hit>, hit: Hit) -> Seq<Hit>
    decreases ranking.len(),
{
    if ranking.len() == 0 || ranking[0].1 < hit.1 {
        seq![hit] + ranking
    } else {
        seq![ranking[0]] + placed(ranking.skip(1), hit)
    }
}

/// The hits ranked by score, the highest first; hits of equal score stay in
/// their order.
pub open spec fn ranked(hits: Seq<Hit>) -> Seq<Hit>
    decreases hits.len(),
{
    if hits.len() == 0 {
        Seq::empty()
    } else {
        placed(ranked(hits.drop_last()), hits.last())
    }
}

/// Whether the scores of a ranking never rise.
pub open spec fn descending(ranking: Seq<Hit>) -> bool {
    forall|i: int, j: int| 0 <= i <= j < ranking.len() ==> ranking[i].1 >= ranking[j].1
}

/// The result that a hit stands for.
pub open spec fn result_of(example: ExampleView, score: u64) -> ResultView {
    ResultView {
        id: example.id,
        title: example.title,
        description: example.description,
        language: example.language,
        score,
        has_fix: example.has_fix,
        features: example.features,
        yaml_content: example.yaml_content,
        playground_link: example.playground_link,
    }
}

/// The results that hits stand for.
pub open spec fn results_of(examples: Seq<ExampleView>, found: Seq<Hit>) -> Seq<ResultView> {
    Seq::new(found.len(), |i: int| result_of(examples[found[i].0 as int], found[i].1))
}

/// All examples that a query finds, ranked. A query without terms finds
/// nothing.
pub open spec fn ranking(
    examples: Seq<ExampleView>,
    query: Seq<char>,
    filter: Option<Seq<char>>,
) -> Seq<Hit> {
    if query_terms(query).len() == 0 {
        Seq::empty()
    } else {
        ranked(hits(examples, query_terms(query), filter, examples.len() as int))
    }
}

/// The part of a ranking that a page shows: what stands from `offset` on,
/// `limit` hits at most.
pub open spec fn page(found: Seq<Hit>, offset: nat, limit: nat) -> Seq<Hit> {
    let from = if offset < found.len() {
        offset
    } else {
        found.len()
    };
    let to = if from + limit < found.len() {
        from + limit
    } else {
        found.len()
    };
    found.subrange(from as int, to as int)
}

/// Searches the examples of a catalog.
pub struct SimpleSearchEngine {
    examples: Vec<CatalogExample>,
}

/// A copy of a list of strings.
pub fn copy_strings(list: &Vec<String>) -> (copy: Vec<String>)
    ensures
        views(copy@) == views(list@),
{
    let mut copy: Vec<String> = Vec::new();
    let mut i: usize = 0;
    while i < list.len()
        invariant
            i <= list.len(),
            copy.len() == i,
            forall|k: int| 0 <= k < i ==> (#[trigger] copy[k])@ == list[k]@,
        decreases list.len() - i,
    {
        copy.push(list[i].clone());
        i = i + 1;
    }
    assert(views(copy@) =~= views(list@));
    copy
}

/// The example that a JSON value of the catalog stands for.
pub fn example_from(value: &JsonValue) -> (example: CatalogExample)
    ensures
        example@ == example_of(value@),
{
    let title = get_str_or(value, "title", "");
    let description = get_str_or(value, "description", "");
    let language = get_str_or(value, "language", "");
    let yaml_content = get_str_or(value, "yaml_content", "");
    let features = listed_in(value, "features");
    let has_fix = match value.get_bool("has_fix") {
        Some(flag) => flag,
        None => false,
    };
    let mut content = title.clone();
    content.append(" ");
    content.append(description.as_str());
    content.append(" ");
    content.append(yaml_content.as_str());
    content.append(" ");
    content.append(join_strings(&features, " ").as_str());
    content.append(" ");
    content.append(language.as_str());
    proof {
        reveal_strlit("");
        assert(""@ =~= Seq::<char>::empty());
    }
    CatalogExample {
        id: get_str_or(value, "id", ""),
        title,
        description,
        language,
        has_fix,
        features,
        yaml_content,
        playground_link: get_str_or(value, "playground_link", ""),
        content,
    }
}

/// Adds to a score without passing the largest number.
fn add_capped(score: u64, more: u64) -> (sum: u64)
    ensures
        sum == capped((score + more) as nat),
{
    if score > u64::MAX - more {
        u64::MAX
    } else {
        score + more
    }
}

/// `weight` where `term` stands in `text` in lower case.
fn hit_in(text: &str, term: &str, weight: u64) -> (points: u64)
    ensures
        points == hit(text@, term@, weight as nat),
{
    if contains(to_lowercase(text).as_str(), term) {
        weight
    } else {
        0
    }
}

/// What the features of an example score for a term.
fn score_features(features: &Vec<String>, term: &str) -> (points: u64)
    ensures
        points == capped(feature_score(views(features@), term@)),
{
    let mut points: u64 = 0;
    let mut i: usize = 0;
    let ghost all = views(features@);
    assert(all.take(0) =~= Seq::<Seq<char>>::empty());
    while i < features.len()
        invariant
            i <= features.len(),
            all == views(features@),
            points == capped(feature_score(all.take(i as int), term@)),
        decreases features.len() - i,
    {
        proof {
            assert(all.take(i + 1).drop_last() =~= all.take(i as int));
            assert(all.take(i + 1).last() == features[i as int]@);
        }
        points = add_capped(points, hit_in(features[i].as_str(), term, 5));
        i = i + 1;
    }
    assert(all.take(features.len() as int) =~= all);
    points
}

/// What an example scores for one term.
fn score_term(example: &CatalogExample, term: &str) -> (points: u64)
    ensures
        points == capped(term_score(example@, term@)),
{
    if term.len() <= 2 {
        return 0;
    }
    let mut points = hit_in(example.title.as_str(), term, 10);
    points = add_capped(points, hit_in(example.description.as_str(), term, 6));
    points = add_capped(points, hit_in(example.yaml_content.as_str(), term, 4));
    points = add_capped(points, hit_in(example.language.as_str(), term, 2));
    add_capped(points, score_features(&example.features, term))
}

/// Whether a term speaks of fixing.
fn speaks_of_fix(term: &str) -> (r: bool)
    ensures
        r == names_fix(term@),
{
    contains(term, "fix") || contains(term, "replace") || contains(term, "rewrite")
}

/// Whether any of the terms speaks of fixing.
fn any_speaks_of_fix(terms: &Vec<String>) -> (r: bool)
    ensures
        r == any_names_fix(views(terms@)),
{
    let mut i: usize = 0;
    while i < terms.len()
        invariant
            i <= terms.len(),
            forall|k: int| 0 <= k < i ==> !names_fix(#[trigger] views(terms@)[k]),
        decreases terms.len() - i,
    {
        if speaks_of_fix(terms[i].as_str()) {
            assert(names_fix(views(terms@)[i as int]));
            return true;
        }
        i = i + 1;
    }
    false
}

/// The relevance of an example to the terms of a query, in half points.
pub fn calculate_score(example: &CatalogExample, terms: &Vec<String>) -> (score: u64)
    ensures
        score == capped(relevance(example@, views(terms@))),
{
    let full_query = join_strings(terms, " ");
    let mut score = hit_in(example.content.as_str(), full_query.as_str(), 20);
    let mut i: usize = 0;
    let mut by_terms: u64 = 0;
    let ghost all = views(terms@);
    assert(all.take(0) =~= Seq::<Seq<char>>::empty());
    while i < terms.len()
        invariant
            i <= terms.len(),
            all == views(terms@),
            by_terms == capped(terms_score(example@, all.take(i as int))),
        decreases terms.len() - i,
    {
        proof {
            assert(all.take(i + 1).drop_last() =~= all.take(i as int));
            assert(all.take(i + 1).last() == terms[i as int]@);
        }
        by_terms = add_capped(by_terms, score_term(example, terms[i].as_str()));
        i = i + 1;
    }
    assert(all.take(terms.len() as int) =~= all);
    score = add_capped(score, by_terms);
    if example.has_fix && any_speaks_of_fix(terms) {
        score = add_capped(score, 2);
    }
    score
}

/// Whether a language filter lets an example of a language through.
pub fn admits_language(filter: Option<&str>, language: &str) -> (r: bool)
    ensures
        r == language_admits(
            match filter {
                Some(f) => Some(f@),
                None => None,
            },
            language@,
        ),
{
    match filter {
        None => true,
        Some(wanted) => str_eq(wanted, "any") || eq_ignore_ascii_case(language, wanted),
    }
}

/// Puts a hit into a ranking, before the first hit of a lower score.
pub fn place(ranking: &mut Vec<Hit>, hit: Hit)
    ensures
        final(ranking)@ == placed(old(ranking)@, hit),
{
    let ghost before = ranking@;
    let mut at: usize = 0;
    assert(before.skip(0) =~= before);
    while at < ranking.len() && ranking[at].1 >= hit.1
        invariant
            at <= ranking.len(),
            ranking@ == before,
            placed(before, hit) == before.take(at as int) + placed(before.skip(at as int), hit),
        decreases ranking.len() - at,
    {
        proof {
            let rest = before.skip(at as int);
            assert(rest[0] == before[at as int]);
            assert(rest.skip(1) =~= before.skip(at + 1));
            assert(before.take(at as int) + (seq![rest[0]] + placed(rest.skip(1), hit))
                =~= before.take(at + 1) + placed(before.skip(at + 1), hit));
        }
        at = at + 1;
    }
    ranking.insert(at, hit);
    proof {
        let rest = before.skip(at as int);
        assert(placed(rest, hit) == seq![hit] + rest);
        assert(ranking@ =~= before.take(at as int) + (seq![hit] + rest));
    }
}

/// Ranks hits by score, the highest first.
pub fn rank(found: &Vec<Hit>) -> (ranking: Vec<Hit>)
    ensures
        ranking@ == ranked(found@),
{
    let mut ranking: Vec<Hit> = Vec::new();
    let mut i: usize = 0;
    assert(found@.take(0) =~= Seq::<Hit>::empty());
    while i < found.len()
        invariant
            i <= found.len(),
            ranking@ == ranked(found@.take(i as int)),
        decreases found.len() - i,
    {
        proof {
            assert(found@.take(i + 1).drop_last() =~= found@.take(i as int));
        }
        place(&mut ranking, found[i]);
        i = i + 1;
    }
    assert(found@.take(found.len() as int) =~= found@);
    ranking
}

impl SimpleSearchEngine {
    /// The examples that the engine searches.
    pub closed spec fn entries(&self) -> Seq<ExampleView> {
        example_views(self.examples@)
    }

    /// An engine for the examples of a catalog that is already read.
    pub fn from_examples(items: &Vec<JsonValue>) -> (engine: Self)
        ensures
            engine.entries() == examples_of(trees(items@)),
    {
        let mut examples: Vec<CatalogExample> = Vec::new();
        let mut i: usize = 0;
        while i < items.len()
            invariant
                i <= items.len(),
                examples.len() == i,
                forall|k: int| 0 <= k < i ==> (#[trigger] examples[k])@ == example_of(items[k]@),
            decreases items.len() - i,
        {
            examples.push(example_from(&items[i]));
            i = i + 1;
        }
        assert(example_views(examples@) =~= examples_of(trees(items@)));
        SimpleSearchEngine { examples }
    }

    /// An engine for the catalog given as text. Fails where the text is no
    /// JSON or has no examples.
    pub fn new(catalog_content: &str) -> (r: Result<Self, ToolError>)
        ensures
            match r {
                Ok(engine) => catalog_examples(catalog_content@) == Ok::<
                    Seq<ExampleView>,
                    Seq<char>,
                >(engine.entries()),
                Err(e) => e.kind == ToolErrorKind::Catalog && catalog_examples(catalog_content@)
                    == Err::<Seq<ExampleView>, Seq<char>>(e.message@),
            },
    {
        let catalog = match parse_json(catalog_content) {
            Ok(catalog) => catalog,
            Err(message) => {
                return Err(ToolError::new(ToolErrorKind::Catalog, message));
            },
        };
        match catalog.get_array("examples") {
            Some(items) => Ok(Self::from_examples(items)),
            None => Err(ToolError::new(ToolErrorKind::Catalog, NO_EXAMPLES.to_owned())),
        }
    }

    /// How many examples the engine searches.
    pub fn len(&self) -> (count: usize)
        ensures
            count == self.entries().len(),
    {
        self.examples.len()
    }

    /// The terms of a query.
    pub fn terms_of(query: &str) -> (terms: Vec<String>)
        ensures
            views(terms@) == query_terms(query@),
    {
        let normalized = to_lowercase(nfc(query).as_str());
        split_whitespace(normalized.as_str())
    }

    /// All examples that a query finds, ranked.
    pub fn rank_all(&self, query: &str, language_filter: Option<&str>) -> (found: Vec<Hit>)
        ensures
            found@ == ranking(
                self.entries(),
                query@,
                match language_filter {
                    Some(f) => Some(f@),
                    None => None,
                },
            ),
            forall|i: int| 0 <= i < found@.len() ==> (#[trigger] found@[i]).0 < self.entries().len(),
    {
        let terms = Self::terms_of(query);
        let mut scored: Vec<Hit> = Vec::new();
        if terms.len() == 0 {
            return scored;
        }
        let ghost filter = match language_filter {
            Some(f) => Some(f@),
            None => None,
        };
        let ghost all = self.entries();
        let mut i: usize = 0;
        while i < self.examples.len()
            invariant
                i <= self.examples.len(),
                all == self.entries(),
                all.len() == self.examples.len(),
                filter == match language_filter {
                    Some(f) => Some(f@),
                    None => None,
                },
                scored@ == hits(all, views(terms@), filter, i as int),
                forall|k: int| 0 <= k < scored@.len() ==> (#[trigger] scored@[k]).0 < i,
            decreases self.examples.len() - i,
        {
            assert(all[i as int] == self.examples[i as int]@);
            if admits_language(language_filter, self.examples[i].language.as_str()) {
                let score = calculate_score(&self.examples[i], &terms);
                if score > 0 {
                    scored.push((i, score));
                }
            }
            i = i + 1;
        }
        let found = rank(&scored);
        proof {
            lemma_ranked_keeps_hits(scored@);
            assert forall|k: int| 0 <= k < found@.len() implies (#[trigger] found@[k]).0
                < self.entries().len() by {
                assert(found@[k] == ranked(scored@)[k]);
                assert(ranked(scored@).contains(found@[k]));
                assert(scored@.contains(found@[k]));
                let at = choose|at: int| 0 <= at < scored@.len() && scored@[at] == found@[k];
                assert(scored@[at].0 < self.examples.len());
            }
        }
        found
    }

    /// The result that a hit stands for.
    fn result_for(&self, hit: Hit) -> (result: SearchResult)
        requires
            hit.0 < self.entries().len(),
        ensures
            result@ == result_of(self.entries()[hit.0 as int], hit.1),
    {
        let example = &self.examples[hit.0];
        SearchResult {
            id: example.id.clone(),
            title: example.title.clone(),
            description: example.description.clone(),
            language: example.language.clone(),
            score: hit.1,
            has_fix: example.has_fix,
            features: copy_strings(&example.features),
            yaml_content: example.yaml_content.clone(),
            playground_link: example.playground_link.clone(),
        }
    }

    /// The results that the hits `from..to` of a ranking stand for.
    fn results_for(&self, found: &Vec<Hit>, from: usize, to: usize) -> (results: Vec<SearchResult>)
        requires
            from <= to <= found.len(),
            forall|i: int| 0 <= i < found@.len() ==> (#[trigger] found@[i]).0 < self.entries().len(),
        ensures
            result_views(results@) == results_of(
                self.entries(),
                found@.subrange(from as int, to as int),
            ),
    {
        let mut results: Vec<SearchResult> = Vec::new();
        let mut i: usize = from;
        while i < to
            invariant
                from <= i <= to <= found.len(),
                results.len() == i - from,
                forall|k: int|
                    0 <= k < found@.len() ==> (#[trigger] found@[k]).0 < self.entries().len(),
                forall|k: int|
                    0 <= k < i - from ==> (#[trigger] results[k])@ == result_of(
                        self.entries()[found@[from + k].0 as int],
                        found@[from + k].1,
                    ),
            decreases to - i,
        {
            results.push(self.result_for(found[i]));
            i = i + 1;
        }
        assert(result_views(results@) =~= results_of(
            self.entries(),
            found@.subrange(from as int, to as int),
        ));
        results
    }

    /// The `limit` best examples for a query, among those that the language
    /// filter lets through.
    pub fn search(&self, query: &str, language_filter: Option<&str>, limit: usize) -> (r: Result<
        Vec<SearchResult>,
        ToolError,
    >)
        ensures
            r matches Ok(results) && result_views(results@) == results_of(
                self.entries(),
                page(
                    ranking(
                        self.entries(),
                        query@,
                        match language_filter {
                            Some(f) => Some(f@),
                            None => None,
                        },
                    ),
                    0,
                    limit as nat,
                ),
            ),
    {
        let found = self.rank_all(query, language_filter);
        let to = if limit < found.len() {
            limit
        } else {
            found.len()
        };
        Ok(self.results_for(&found, 0, to))
    }

    /// One page of the examples for a query: the results from `offset` on,
    /// `limit` at most, with the number of all results and whether more
    /// stand after the page.
    pub fn search_paginated(
        &self,
        query: &str,
        language_filter: Option<&str>,
        limit: usize,
        offset: usize,
    ) -> (r: Result<PaginatedResults, ToolError>)
        ensures
            ({
                let all = ranking(
                    self.entries(),
                    query@,
                    match language_filter {
                        Some(f) => Some(f@),
                        None => None,
                    },
                );
                &&& r matches Ok(paged) && result_views(paged.results@) == results_of(
                    self.entries(),
                    page(all, offset as nat, limit as nat),
                ) && paged.pagination.total_count == all.len() && paged.pagination.offset == offset
                    && paged.pagination.limit == limit && paged.pagination.has_more == (offset
                    + page(all, offset as nat, limit as nat).len() < all.len()) && is_page(paged)
            }),
    {
        let found = self.rank_all(query, language_filter);
        let total = found.len();
        let from = if offset < total {
            offset
        } else {
            total
        };
        let to = if limit < total - from {
            from + limit
        } else {
            total
        };
        let results = self.results_for(&found, from, to);
        let has_more = to < total;
        proof {
            assert(result_views(results@).len() == results@.len());
            assert(found@.subrange(from as int, to as int).len() == to - from);
        }
        Ok(
            PaginatedResults {
                results,
                pagination: Pagination { total_count: total, offset, limit, has_more },
            },
        )
    }
}

/// A ranking holds the hits it was made of, every one of them and no other.
pub proof fn lemma_placed_keeps_hits(ranking: Seq<Hit>, hit: Hit)
    ensures
        placed(ranking, hit).len() == ranking.len() + 1,
        forall|h: Hit| #[trigger] placed(ranking, hit).contains(h) <==> (ranking.contains(h) || h == hit),
    decreases ranking.len(),
{
    let out = placed(ranking, hit);
    if ranking.len() == 0 || ranking[0].1 < hit.1 {
        assert forall|h: Hit| #[trigger] out.contains(h) <==> (ranking.contains(h) || h == hit) by {
            if out.contains(h) {
                let at = choose|at: int| 0 <= at < out.len() && out[at] == h;
                if at > 0 {
                    assert(ranking[at - 1] == h);
                }
            }
            if ranking.contains(h) {
                let at = choose|at: int| 0 <= at < ranking.len() && ranking[at] == h;
                assert(out[at + 1] == h);
            }
            if h == hit {
                assert(out[0] == h);
            }
        }
    } else {
        let rest = ranking.skip(1);
        lemma_placed_keeps_hits(rest, hit);
        let inner = placed(rest, hit);
        assert forall|h: Hit| #[trigger] out.contains(h) <==> (ranking.contains(h) || h == hit) by {
            if out.contains(h) {
                let at = choose|at: int| 0 <= at < out.len() && out[at] == h;
                if at == 0 {
                    assert(ranking[0] == h);
                } else {
                    assert(inner[at - 1] == h);
                    assert(inner.contains(h));
                    if rest.contains(h) {
                        let r = choose|r: int| 0 <= r < rest.len() && rest[r] == h;
                        assert(ranking[r + 1] == h);
                    }
                }
            }
            if ranking.contains(h) {
                let at = choose|at: int| 0 <= at < ranking.len() && ranking[at] == h;
                if at == 0 {
                    assert(out[0] == h);
                } else {
                    assert(rest[at - 1] == h);
                    assert(rest.contains(h));
                    assert(inner.contains(h));
                    let r = choose|r: int| 0 <= r < inner.len() && inner[r] == h;
                    assert(out[r + 1] == h);
                }
            }
            if h == hit {
                assert(inner.contains(h));
                let r = choose|r: int| 0 <= r < inner.len() && inner[r] == h;
                assert(out[r + 1] == h);
            }
        }
    }
}

/// A ranking is as long as the list of hits it was made of and holds the
/// same hits.
pub proof fn lemma_ranked_keeps_hits(found: Seq<Hit>)
    ensures
        ranked(found).len() == found.len(),
        forall|h: Hit| #[trigger] ranked(found).contains(h) <==> found.contains(h),
    decreases found.len(),
{
    if found.len() > 0 {
        let before = found.drop_last();
        lemma_ranked_keeps_hits(before);
        lemma_placed_keeps_hits(ranked(before), found.last());
        assert forall|h: Hit| #[trigger] ranked(found).contains(h) <==> found.contains(h) by {
            if found.contains(h) {
                let at = choose|at: int| 0 <= at < found.len() && found[at] == h;
                if at < found.len() - 1 {
                    assert(before[at] == h);
                    assert(before.contains(h));
                }
            }
            if before.contains(h) {
                let at = choose|at: int| 0 <= at < before.len() && before[at] == h;
                assert(found[at] == h);
            }
            if h == found.last() {
                assert(found[found.len() - 1] == h);
            }
        }
    }
}

/// Putting a hit into a ranking whose scores never rise gives such a ranking
/// again.
pub proof fn lemma_placed_descending(ranking: Seq<Hit>, hit: Hit)
    requires
        descending(ranking),
    ensures
        descending(placed(ranking, hit)),
    decreases ranking.len(),
{
    let out = placed(ranking, hit);
    if ranking.len() == 0 || ranking[0].1 < hit.1 {
        assert forall|i: int, j: int| 0 <= i <= j < out.len() implies out[i].1 >= out[j].1 by {
            if i > 0 {
                assert(out[i] == ranking[i - 1]);
                assert(out[j] == ranking[j - 1]);
            } else if j > 0 {
                assert(out[j] == ranking[j - 1]);
                assert(ranking[0].1 >= ranking[j - 1].1);
            }
        }
    } else {
        let rest = ranking.skip(1);
        assert(descending(rest)) by {
            assert forall|i: int, j: int| 0 <= i <= j < rest.len() implies rest[i].1
                >= rest[j].1 by {
                assert(rest[i] == ranking[i + 1]);
                assert(rest[j] == ranking[j + 1]);
            }
        }
        lemma_placed_descending(rest, hit);
        lemma_placed_keeps_hits(rest, hit);
        let inner = placed(rest, hit);
        assert forall|i: int, j: int| 0 <= i <= j < out.len() implies out[i].1 >= out[j].1 by {
            if i > 0 {
                assert(out[i] == inner[i - 1]);
                assert(out[j] == inner[j - 1]);
            } else if j > 0 {
                assert(out[j] == inner[j - 1]);
                assert(inner.contains(inner[j - 1]));
                if rest.contains(inner[j - 1]) {
                    let r = choose|r: int| 0 <= r < rest.len() && rest[r] == inner[j - 1];
                    assert(ranking[r + 1] == inner[j - 1]);
                    assert(ranking[0].1 >= ranking[r + 1].1);
                }
            }
        }
    }
}

/// The scores of a ranking never rise.
pub proof fn lemma_ranked_descending(found: Seq<Hit>)
    ensures
        descending(ranked(found)),
    decreases found.len(),
{
    if found.len() > 0 {
        lemma_ranked_descending(found.drop_last());
        lemma_placed_descending(ranked(found.drop_last()), found.last());
    }
}

/// Whether a word is too common to tell texts apart.
pub open spec fn is_stop_word(word: Seq<char>) -> bool {
    word == "the"@ || word == "and"@ || word == "or"@ || word == "but"@ || word == "in"@ || word == "on"@ || word == "at"@ || word == "to"@ || word == "for"@ || word == "of"@ || word == "with"@ || word == "by"@ || word == "is"@ || word == "are"@ || word == "was"@ || word == "were"@ || word == "be"@ || word == "been"@ || word == "have"@ || word == "has"@ || word == "had"@ || word == "do"@ || word == "does"@ || word == "did"@ || word == "will"@ || word == "would"@ || word == "should"@ || word == "could"@ || word == "can"@ || word == "may"@ || word == "might"@ || word == "must"@ || word == "shall"@ || word == "this"@ || word == "that"@ || word == "these"@ || word == "those"@ || word == "a"@ || word == "an"@ || word == "as"@ || word == "if"@ || word == "then"@ || word == "else"@ || word == "when"@ || word == "where"@ || word == "why"@ || word == "how"@ || word == "what"@ || word == "which"@ || word == "who"@ || word == "whom"@ || word == "whose"@ || word == "i"@ || word == "you"@ || word == "he"@ || word == "she"@ || word == "it"@ || word == "we"@ || word == "they"@
}

/// Whether a word holds a letter.
pub open spec fn has_letter(word: Seq<char>) -> bool {
    exists|i: int| 0 <= i < word.len() && is_letter(#[trigger] word[i])
}

/// Whether a word can be a key term: it has more than two bytes, is no stop
/// word and holds a letter.
pub open spec fn is_key_word(word: Seq<char>) -> bool {
    byte_len(word) > 2 && !is_stop_word(word) && has_letter(word)
}

/// The words among `found` that can be key terms, in order.
pub open spec fn key_words(found: Seq<Seq<char>>) -> Seq<Seq<char>>
    decreases found.len(),
{
    if found.len() == 0 {
        Seq::empty()
    } else if is_key_word(found.last()) {
        key_words(found.drop_last()).push(found.last())
    } else {
        key_words(found.drop_last())
    }
}

/// The index of `word` in a tally, or the length of the tally where it has
/// not been counted yet.
pub open spec fn tally_index(tally: Seq<(Seq<char>, nat)>, word: Seq<char>) -> int
    decreases tally.len(),
{
    if tally.len() == 0 {
        0
    } else if tally[0].0 == word {
        0
    } else {
        1 + tally_index(tally.skip(1), word)
    }
}

/// A tally with one more occurrence of `word`: its count goes up by one, or
/// it is added at the end with the count one.
pub open spec fn counted(tally: Seq<(Seq<char>, nat)>, word: Seq<char>) -> Seq<(Seq<char>, nat)> {
    let at = tally_index(tally, word);
    if 0 <= at < tally.len() {
        tally.update(at, (word, tally[at].1 + 1))
    } else {
        tally.push((word, 1))
    }
}

/// How often each word occurs: every word once, in the order in which the
/// words first occur, with the number of its occurrences.
pub open spec fn tally_of(found: Seq<Seq<char>>) -> Seq<(Seq<char>, nat)>
    decreases found.len(),
{
    if found.len() == 0 {
        Seq::empty()
    } else {
        counted(tally_of(found.drop_last()), found.last())
    }
}

/// The entries of a tally as hits: the index of each, with its count.
pub open spec fn tally_hits(tally: Seq<(Seq<char>, nat)>) -> Seq<Hit> {
    Seq::new(tally.len(), |i: int| (i as usize, capped(tally[i].1)))
}

/// The most terms that a text is told by.
pub const MAX_KEY_TERMS: usize = 10;

/// The key terms of a text: its words in lower case that can be key terms,
/// the most frequent first and words of equal frequency in the order in
/// which they first occur, ten at most.
pub open spec fn key_terms(text: Seq<char>) -> Seq<Seq<char>> {
    let tally = tally_of(key_words(words(lowercase(text))));
    let order = ranked(tally_hits(tally));
    let count = if order.len() < MAX_KEY_TERMS {
        order.len()
    } else {
        MAX_KEY_TERMS as nat
    };
    Seq::new(count, |i: int| tally[order[i].0 as int].0)
}

/// Whether a word is too common to tell texts apart.
pub fn stop_word(word: &str) -> (r: bool)
    ensures
        r == is_stop_word(word@),
{
    str_eq(word, "the") || str_eq(word, "and") || str_eq(word, "or") || str_eq(word, "but") || str_eq(word, "in") || str_eq(word, "on") || str_eq(word, "at") || str_eq(word, "to") || str_eq(word, "for") || str_eq(word, "of") || str_eq(word, "with") || str_eq(word, "by") || str_eq(word, "is") || str_eq(word, "are") || str_eq(word, "was") || str_eq(word, "were") || str_eq(word, "be") || str_eq(word, "been") || str_eq(word, "have") || str_eq(word, "has") || str_eq(word, "had") || str_eq(word, "do") || str_eq(word, "does") || str_eq(word, "did") || str_eq(word, "will") || str_eq(word, "would") || str_eq(word, "should") || str_eq(word, "could") || str_eq(word, "can") || str_eq(word, "may") || str_eq(word, "might") || str_eq(word, "must") || str_eq(word, "shall") || str_eq(word, "this") || str_eq(word, "that") || str_eq(word, "these") || str_eq(word, "those") || str_eq(word, "a") || str_eq(word, "an") || str_eq(word, "as") || str_eq(word, "if") || str_eq(word, "then") || str_eq(word, "else") || str_eq(word, "when") || str_eq(word, "where") || str_eq(word, "why") || str_eq(word, "how") || str_eq(word, "what") || str_eq(word, "which") || str_eq(word, "who") || str_eq(word, "whom") || str_eq(word, "whose") || str_eq(word, "i") || str_eq(word, "you") || str_eq(word, "he") || str_eq(word, "she") || str_eq(word, "it") || str_eq(word, "we") || str_eq(word, "they")
}

/// Whether a word holds a letter.
pub fn holds_letter(word: &str) -> (r: bool)
    ensures
        r == has_letter(word@),
{
    let v = chars_of(word);
    let mut i: usize = 0;
    while i < v.len()
        invariant
            i <= v.len(),
            v@ == word@,
            forall|k: int| 0 <= k < i ==> !is_letter(#[trigger] word@[k]),
        decreases v.len() - i,
    {
        if char_is_alphabetic(v[i]) {
            assert(is_letter(word@[i as int]));
            return true;
        }
        i = i + 1;
    }
    false
}

/// Whether a word can be a key term.
pub fn key_word(word: &str) -> (r: bool)
    ensures
        r == is_key_word(word@),
{
    word.len() > 2 && !stop_word(word) && holds_letter(word)
}

/// What `tally_index` gives is the first index of the word.
pub proof fn lemma_tally_index(tally: Seq<(Seq<char>, nat)>, word: Seq<char>)
    ensures
        0 <= tally_index(tally, word) <= tally.len(),
        tally_index(tally, word) < tally.len() ==> tally[tally_index(tally, word)].0 == word,
        forall|j: int| 0 <= j < tally_index(tally, word) ==> (#[trigger] tally[j]).0 != word,
    decreases tally.len(),
{
    if tally.len() > 0 && tally[0].0 != word {
        lemma_tally_index(tally.skip(1), word);
        assert forall|j: int| 0 <= j < tally_index(tally, word) implies (#[trigger] tally[j]).0
            != word by {
            if j > 0 {
                assert(tally.skip(1)[j - 1] == tally[j]);
            }
        }
    }
}

/// A tally by its views.
pub open spec fn tally_view(tally: Seq<(String, usize)>) -> Seq<(Seq<char>, nat)> {
    Seq::new(tally.len(), |i: int| (tally[i].0@, tally[i].1 as nat))
}

/// Counts one more occurrence of `word`. `bound` is a number that no count
/// of the tally has passed.
pub fn count_word(tally: &mut Vec<(String, usize)>, word: &str, bound: usize)
    requires
        bound < usize::MAX,
        forall|k: int| 0 <= k < old(tally)@.len() ==> (#[trigger] old(tally)@[k]).1 <= bound,
    ensures
        tally_view(final(tally)@) == counted(tally_view(old(tally)@), word@),
        forall|k: int| 0 <= k < final(tally)@.len() ==> (#[trigger] final(tally)@[k]).1 <= bound + 1,
{
    let ghost before = tally_view(tally@);
    proof {
        lemma_tally_index(before, word@);
    }
    let mut i: usize = 0;
    while i < tally.len()
        invariant
            i <= tally.len(),
            before == tally_view(tally@),
            tally@ == old(tally)@,
            bound < usize::MAX,
            forall|k: int| 0 <= k < tally@.len() ==> (#[trigger] tally@[k]).1 <= bound,
            forall|k: int| 0 <= k < i ==> (#[trigger] before[k]).0 != word@,
        decreases tally.len() - i,
    {
        if str_eq(tally[i].0.as_str(), word) {
            assert(before[i as int].0 == word@);
            proof {
                lemma_tally_index(before, word@);
                let at = tally_index(before, word@);
                if at < i {
                    assert(before[at].0 != word@);
                }
                if at > i {
                    assert(before[i as int].0 != word@);
                }
            }
            assert(tally_index(before, word@) == i);
            let count = tally[i].1;
            tally.set(i, (word.to_owned(), count + 1));
            assert(tally_view(tally@) =~= before.update(i as int, (word@, before[i as int].1 + 1)));
            return ;
        }
        i = i + 1;
    }
    proof {
        lemma_tally_index(before, word@);
        let at = tally_index(before, word@);
        if at < tally.len() {
            assert(before[at].0 != word@);
        }
    }
    assert(tally_index(before, word@) == tally.len());
    tally.push((word.to_owned(), 1));
    assert(tally_view(tally@) =~= before.push((word@, 1)));
}

/// The key terms of a text.
pub fn extract_key_terms(text: &str) -> (terms: Vec<String>)
    ensures
        views(terms@) == key_terms(text@),
{
    let lower = to_lowercase(text);
    let found = split_whitespace(lower.as_str());
    let ghost all = views(found@);
    let mut tally: Vec<(String, usize)> = Vec::new();
    let mut i: usize = 0;
    assert(all.take(0) =~= Seq::<Seq<char>>::empty());
    assert(tally_view(tally@) =~= Seq::<(Seq<char>, nat)>::empty());
    while i < found.len()
        invariant
            i <= found.len(),
            all == views(found@),
            tally_view(tally@) == tally_of(key_words(all.take(i as int))),
            forall|k: int| 0 <= k < tally@.len() ==> (#[trigger] tally@[k]).1 <= i,
        decreases found.len() - i,
    {
        proof {
            assert(all.take(i + 1).drop_last() =~= all.take(i as int));
            assert(all.take(i + 1).last() == found[i as int]@);
        }
        if key_word(found[i].as_str()) {
            proof {
                let kept = key_words(all.take(i as int));
                assert(kept.push(found[i as int]@).drop_last() =~= kept);
            }
            count_word(&mut tally, found[i].as_str(), i);
        }
        i = i + 1;
    }
    assert(all.take(found.len() as int) =~= all);
    let mut as_hits: Vec<Hit> = Vec::new();
    let mut j: usize = 0;
    while j < tally.len()
        invariant
            j <= tally.len(),
            as_hits.len() == j,
            forall|k: int|
                0 <= k < j ==> (#[trigger] as_hits[k]) == (k as usize, capped(tally@[k].1 as nat)),
        decreases tally.len() - j,
    {
        as_hits.push((j, tally[j].1 as u64));
        j = j + 1;
    }
    assert(as_hits@ =~= tally_hits(tally_view(tally@)));
    let order = rank(&as_hits);
    proof {
        lemma_ranked_keeps_hits(as_hits@);
    }
    let count = if order.len() < MAX_KEY_TERMS {
        order.len()
    } else {
        MAX_KEY_TERMS
    };
    let mut terms: Vec<String> = Vec::new();
    let mut k: usize = 0;
    while k < count
        invariant
            k <= count <= order.len(),
            terms.len() == k,
            order@ == ranked(as_hits@),
            as_hits@ == tally_hits(tally_view(tally@)),
            forall|h: Hit| #[trigger] ranked(as_hits@).contains(h) <==> as_hits@.contains(h),
            forall|n: int|
                0 <= n < k ==> (#[trigger] terms[n])@ == tally_view(tally@)[order@[n].0 as int].0,
        decreases count - k,
    {
        proof {
            assert(ranked(as_hits@).contains(order@[k as int]));
            assert(as_hits@.contains(order@[k as int]));
            let at = choose|at: int| 0 <= at < as_hits@.len() && as_hits@[at] == order@[k as int];
            assert(order@[k as int].0 == at);
        }
        terms.push(tally[order[k].0].0.clone());
        k = k + 1;
    }
    assert(views(terms@) =~= key_terms(text@));
    terms
}

impl SimpleSearchEngine {
    /// The `limit` examples that are most like a text: those that a search
    /// for the key terms of the text finds.
    pub fn similarity_search(&self, example_text: &str, limit: usize) -> (r: Result<
        Vec<SearchResult>,
        ToolError,
    >)
        ensures
            r matches Ok(results) && result_views(results@) == results_of(
                self.entries(),
                page(
                    ranking(self.entries(), joined_with(key_terms(example_text@), " "@), None),
                    0,
                    limit as nat,
                ),
            ),
    {
        let terms = extract_key_terms(example_text);
        let query = join_strings(&terms, " ");
        self.search(query.as_str(), None, limit)
    }

    /// One page of the examples that are most like a text.
    pub fn similarity_search_paginated(&self, example_text: &str, limit: usize, offset: usize) -> (r:
        Result<PaginatedResults, ToolError>)
        ensures
            ({
                let all = ranking(
                    self.entries(),
                    joined_with(key_terms(example_text@), " "@),
                    None,
                );
                &&& r matches Ok(paged) && result_views(paged.results@) == results_of(
                    self.entries(),
                    page(all, offset as nat, limit as nat),
                ) && paged.pagination.total_count == all.len() && paged.pagination.offset == offset
                    && paged.pagination.limit == limit && paged.pagination.has_more == (offset
                    + page(all, offset as nat, limit as nat).len() < all.len()) && is_page(paged)
            }),
    {
        let terms = extract_key_terms(example_text);
        let query = join_strings(&terms, " ");
        self.search_paginated(query.as_str(), None, limit, offset)
    }
}

} // verus!
