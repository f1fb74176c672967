//! What the search tools and query resources say of the examples they find.

use crate::catalog::text_or;
use crate::dynamic::{
    get_parameter, get_parameter_or, parameter, parameter_or, parameter_views, Parameter,
};
use crate::error::{ToolError, ToolErrorKind};
use crate::json::{JsonTree, JsonValue};
use crate::simple_search::{
    is_page, key_terms, page, ranking, result_views, results_of, ExampleView, PaginatedResults,
    ResultView, SearchResult, SimpleSearchEngine,
};
use crate::text::{
    chars_of, decimal, decimal_text, first_index_of, join_strings, joined_with,
    lemma_first_index_of, parse_usize, parsed_number, position_of, str_eq, string_of, views,
};
use vstd::prelude::*;

verus! {

/// A score in half points written as a number with two decimals.
pub open spec fn score_text(halves: u64) -> Seq<char> {
    decimal_text((halves / 2) as nat) + if halves % 2 == 0 {
        ".00"@
    } else {
        ".50"@
    }
}

/// A score in half points written as a number with two decimals.
pub fn format_score(halves: u64) -> (text: String)
    ensures
        text@ == score_text(halves),
{
    let mut text = decimal(halves / 2);
    if halves % 2 == 0 {
        text.append(".00");
    } else {
        text.append(".50");
    }
    text
}

/// The first line of a text: what stands before its first line feed,
/// without the carriage return that may end it.
pub open spec fn first_line(text: Seq<char>) -> Seq<char> {
    let at = first_index_of(text, '\n');
    if at < text.len() && at > 0 && text[at - 1] == '\r' {
        text.take(at - 1)
    } else if at < text.len() {
        text.take(at)
    } else {
        text
    }
}

/// The first `n` characters of a text, or all of it where it has fewer.
pub open spec fn prefix_of(text: Seq<char>, n: nat) -> Seq<char> {
    if n <= text.len() {
        text.take(n as int)
    } else {
        text
    }
}

/// The first fifty characters of the first line of a text.
pub fn rule_preview(text: &str) -> (preview: String)
    ensures
        preview@ == prefix_of(first_line(text@), 50),
{
    let v = chars_of(text);
    proof {
        lemma_first_index_of(v@, '\n');
    }
    let end = match position_of(&v, '\n', 0) {
        Some(at) => {
            assert(first_index_of(v@, '\n') == at);
            if at > 0 && v[at - 1] == '\r' {
                at - 1
            } else {
                at
            }
        },
        None => {
            assert(first_index_of(v@, '\n') == v.len());
            v.len()
        },
    };
    assert(first_line(text@) =~= v@.subrange(0, end as int));
    let shown = if end < 50 {
        end
    } else {
        50
    };
    let preview = string_of(&v, 0, shown);
    assert(preview@ =~= prefix_of(first_line(text@), 50));
    preview
}

/// How the entry of a result is laid out.
#[derive(Debug, Clone, Copy, PartialEq, Eq, Structural)]
pub enum Layout {
    /// A section of a page of search results.
    SearchSection,
    /// A section of a page of similar patterns.
    SimilarSection,
    /// A line of the search tool.
    SearchLine,
    /// A line of the similarity tool.
    SimilarLine,
    /// A line of the suggestion tool.
    SuggestionLine,
}

/// What a section says of an example with a fix.
pub const HAS_FIX_SECTION: &'static str = "**Has Fix**: Yes \u{2705}\n";

/// What a section says of the rule of a result, where it has one.
pub open spec fn rule_block(result: ResultView) -> Seq<char> {
    if result.yaml_content.len() > 0 {
        "**YAML Rule**:\n```yaml\n"@ + result.yaml_content + "\n```\n\n"@
    } else {
        Seq::empty()
    }
}

/// What a section says of the playground of a result, where it has one.
pub open spec fn playground_block(result: ResultView) -> Seq<char> {
    if result.playground_link.len() > 0 {
        "**[Try it in Playground]("@ + result.playground_link + ")**\n\n"@
    } else {
        Seq::empty()
    }
}

/// `text` where `flag` holds, nothing where it does not.
pub open spec fn when(flag: bool, text: Seq<char>) -> Seq<char> {
    if flag {
        text
    } else {
        Seq::empty()
    }
}

/// The entry of the result with the number `number`.
pub open spec fn entry(layout: Layout, number: nat, result: ResultView) -> Seq<char> {
    match layout {
        Layout::SearchSection => "### "@ + decimal_text(number) + ". "@ + result.title
            + "\n\n**Language**: "@ + result.language + "\n**Score**: "@ + score_text(result.score)
            + "\n"@ + when(result.has_fix, HAS_FIX_SECTION@) + when(
            result.features.len() > 0,
            "**Features**: "@ + joined_with(result.features, ", "@) + "\n"@,
        ) + "\n**Description**: "@ + result.description + "\n\n"@ + rule_block(result)
            + playground_block(result) + "---\n\n"@,
        Layout::SimilarSection => "### "@ + decimal_text(number) + ". "@ + result.title
            + "\n\n**Language**: "@ + result.language + " | **Similarity Score**: "@ + score_text(
            result.score,
        ) + "\n"@ + when(result.has_fix, HAS_FIX_SECTION@) + "\n**Description**: "@
            + result.description + "\n\n"@ + rule_block(result) + playground_block(result)
            + "---\n\n"@,
        Layout::SearchLine => decimal_text(number) + ". "@ + result.title + " ("@ + result.language
            + ")\n   Description: "@ + result.description + "\n"@ + when(
            result.has_fix,
            "   \u{2705} Has Fix\n"@,
        ) + when(
            result.features.len() > 0,
            "   Features: "@ + joined_with(result.features, ", "@) + "\n"@,
        ) + "\n"@,
        Layout::SimilarLine => decimal_text(number) + ". "@ + result.title + " ("@
            + result.language + ")\n   Similarity: "@ + score_text(result.score)
            + "\n   Description: "@ + result.description + "\n"@ + when(
            result.yaml_content.len() > 0,
            "   YAML Rule: "@ + prefix_of(first_line(result.yaml_content), 50) + "...\n"@,
        ) + "\n"@,
        Layout::SuggestionLine => decimal_text(number) + ". "@ + result.title + " ("@
            + result.language + ")\n   Relevance: "@ + score_text(result.score)
            + "\n   What it does: "@ + result.description + "\n"@ + when(
            result.has_fix,
            "   \u{2705} Includes code transformation\n"@,
        ) + when(
            result.playground_link.len() > 0,
            "   Try it: "@ + result.playground_link + "\n"@,
        ) + "\n"@,
    }
}

/// The entries of results, numbered from `first` on.
pub open spec fn entries(layout: Layout, results: Seq<ResultView>, first: nat) -> Seq<char>
    decreases results.len(),
{
    if results.len() == 0 {
        Seq::empty()
    } else {
        entries(layout, results.drop_last(), first) + entry(
            layout,
            (first + results.len() - 1) as nat,
            results.last(),
        )
    }
}

/// Appends `part` to a text where `flag` holds.
pub fn append_when(text: &mut String, flag: bool, part: &str)
    ensures
        final(text)@ == old(text)@ + when(flag, part@),
{
    if flag {
        text.append(part);
    } else {
        assert(text@ + Seq::<char>::empty() =~= text@);
    }
}

/// Appends to a text what a section says of the features of a result.
fn append_features(text: &mut String, head: &str, result: &SearchResult)
    ensures
        final(text)@ == old(text)@ + when(
            result@.features.len() > 0,
            head@ + joined_with(result@.features, ", "@) + "\n"@,
        ),
{
    let mut part = head.to_owned();
    part.append(join_strings(&result.features, ", ").as_str());
    part.append("\n");
    assert(result@.features.len() == result.features.len());
    append_when(text, result.features.len() > 0, part.as_str());
}

/// Appends to a text what a section says of the rule of a result.
fn append_rule_block(text: &mut String, result: &SearchResult)
    ensures
        final(text)@ == old(text)@ + rule_block(result@),
{
    let mut part = "**YAML Rule**:\n```yaml\n".to_owned();
    part.append(result.yaml_content.as_str());
    part.append("\n```\n\n");
    append_when(text, result.yaml_content.as_str().unicode_len() > 0, part.as_str());
}

/// Appends to a text what a section says of the playground of a result.
fn append_playground_block(text: &mut String, result: &SearchResult)
    ensures
        final(text)@ == old(text)@ + playground_block(result@),
{
    let mut part = "**[Try it in Playground](".to_owned();
    part.append(result.playground_link.as_str());
    part.append(")**\n\n");
    append_when(text, result.playground_link.as_str().unicode_len() > 0, part.as_str());
}

/// The section of a result on a page of search results.
fn search_section(number: u64, result: &SearchResult) -> (text: String)
    ensures
        text@ == entry(Layout::SearchSection, number as nat, result@),
{
    let mut text = "### ".to_owned();
    text.append(decimal(number).as_str());
    text.append(". ");
    text.append(result.title.as_str());
    text.append("\n\n**Language**: ");
    text.append(result.language.as_str());
    text.append("\n**Score**: ");
    text.append(format_score(result.score).as_str());
    text.append("\n");
    append_when(&mut text, result.has_fix, HAS_FIX_SECTION);
    append_features(&mut text, "**Features**: ", result);
    text.append("\n**Description**: ");
    text.append(result.description.as_str());
    text.append("\n\n");
    append_rule_block(&mut text, result);
    append_playground_block(&mut text, result);
    text.append("---\n\n");
    text
}

/// The section of a result on a page of similar patterns.
fn similar_section(number: u64, result: &SearchResult) -> (text: String)
    ensures
        text@ == entry(Layout::SimilarSection, number as nat, result@),
{
    let mut text = "### ".to_owned();
    text.append(decimal(number).as_str());
    text.append(". ");
    text.append(result.title.as_str());
    text.append("\n\n**Language**: ");
    text.append(result.language.as_str());
    text.append(" | **Similarity Score**: ");
    text.append(format_score(result.score).as_str());
    text.append("\n");
    append_when(&mut text, result.has_fix, HAS_FIX_SECTION);
    text.append("\n**Description**: ");
    text.append(result.description.as_str());
    text.append("\n\n");
    append_rule_block(&mut text, result);
    append_playground_block(&mut text, result);
    text.append("---\n\n");
    text
}

/// The line of a result of the search tool.
fn search_line(number: u64, result: &SearchResult) -> (text: String)
    ensures
        text@ == entry(Layout::SearchLine, number as nat, result@),
{
    let mut text = decimal(number);
    text.append(". ");
    text.append(result.title.as_str());
    text.append(" (");
    text.append(result.language.as_str());
    text.append(")\n   Description: ");
    text.append(result.description.as_str());
    text.append("\n");
    append_when(&mut text, result.has_fix, "   \u{2705} Has Fix\n");
    append_features(&mut text, "   Features: ", result);
    text.append("\n");
    text
}

/// The line of a result of the similarity tool.
fn similar_line(number: u64, result: &SearchResult) -> (text: String)
    ensures
        text@ == entry(Layout::SimilarLine, number as nat, result@),
{
    let mut text = decimal(number);
    text.append(". ");
    text.append(result.title.as_str());
    text.append(" (");
    text.append(result.language.as_str());
    text.append(")\n   Similarity: ");
    text.append(format_score(result.score).as_str());
    text.append("\n   Description: ");
    text.append(result.description.as_str());
    text.append("\n");
    let mut part = "   YAML Rule: ".to_owned();
    part.append(rule_preview(result.yaml_content.as_str()).as_str());
    part.append("...\n");
    append_when(&mut text, result.yaml_content.as_str().unicode_len() > 0, part.as_str());
    text.append("\n");
    text
}

/// The line of a result of the suggestion tool.
fn suggestion_line(number: u64, result: &SearchResult) -> (text: String)
    ensures
        text@ == entry(Layout::SuggestionLine, number as nat, result@),
{
    let mut text = decimal(number);
    text.append(". ");
    text.append(result.title.as_str());
    text.append(" (");
    text.append(result.language.as_str());
    text.append(")\n   Relevance: ");
    text.append(format_score(result.score).as_str());
    text.append("\n   What it does: ");
    text.append(result.description.as_str());
    text.append("\n");
    append_when(&mut text, result.has_fix, "   \u{2705} Includes code transformation\n");
    let mut part = "   Try it: ".to_owned();
    part.append(result.playground_link.as_str());
    part.append("\n");
    append_when(&mut text, result.playground_link.as_str().unicode_len() > 0, part.as_str());
    text.append("\n");
    text
}

/// The entry of the result with the number `number`.
pub fn format_entry(layout: Layout, number: u64, result: &SearchResult) -> (text: String)
    ensures
        text@ == entry(layout, number as nat, result@),
{
    match layout {
        Layout::SearchSection => search_section(number, result),
        Layout::SimilarSection => similar_section(number, result),
        Layout::SearchLine => search_line(number, result),
        Layout::SimilarLine => similar_line(number, result),
        Layout::SuggestionLine => suggestion_line(number, result),
    }
}

/// The entries of results, numbered from `first` on.
pub fn format_entries(layout: Layout, results: &Vec<SearchResult>, first: u64) -> (text: String)
    requires
        first + results.len() <= u64::MAX + 1,
    ensures
        text@ == entries(layout, result_views(results@), first as nat),
{
    let mut text = String::new();
    let ghost all = result_views(results@);
    let mut i: usize = 0;
    assert(all.take(0) =~= Seq::<ResultView>::empty());
    while i < results.len()
        invariant
            i <= results.len(),
            first + results.len() <= u64::MAX + 1,
            all == result_views(results@),
            text@ == entries(layout, all.take(i as int), first as nat),
        decreases results.len() - i,
    {
        proof {
            assert(all.take(i + 1).drop_last() =~= all.take(i as int));
            assert(all.take(i + 1).last() == results[i as int]@);
        }
        text.append(format_entry(layout, first + i as u64, &results[i]).as_str());
        i = i + 1;
    }
    assert(all.take(results.len() as int) =~= all);
    text
}

/// A number of the client as a machine number: the number, or the largest
/// machine number where it is larger.
pub open spec fn clamped(n: u64) -> usize {
    if n > usize::MAX {
        usize::MAX
    } else {
        n as usize
    }
}

/// A number of the client as a machine number.
pub fn to_usize(n: u64) -> (m: usize)
    ensures
        m == clamped(n),
{
    if n > usize::MAX as u64 {
        usize::MAX
    } else {
        n as usize
    }
}

/// The language filter that an argument stands for: none for `any`.
pub open spec fn filter_of(language: Seq<char>) -> Option<Seq<char>> {
    if language == "any"@ {
        None
    } else {
        Some(language)
    }
}

/// What is said where more results stand after a page.
pub open spec fn more_text(offset: nat, limit: nat, shown: nat, total: nat) -> Seq<char> {
    "\u{1F4C4} More results available. Use offset: "@ + decimal_text(offset + limit)
        + " to get next page ("@ + decimal_text((total - offset - shown) as nat)
        + " more results).\n\n"@
}

/// What stands between "page" and the entries: the numbers of the first and
/// the last result of the page.
pub open spec fn page_span(offset: nat, shown: nat) -> Seq<char> {
    "(page "@ + decimal_text(offset + 1) + "-"@ + decimal_text(offset + shown) + "):\n\n"@
}

/// The note that ends what the search tool says.
pub const SEARCH_NOTE: &'static str =
    "\u{26A0}\u{FE0F} Note: These are starting points - adapt them to your specific requirements.";

/// The note that ends what the similarity tool says.
pub const SIMILARITY_NOTE: &'static str =
    "\u{26A0}\u{FE0F} Note: Similarity is based on text matching - review each example for relevance.";

/// The note that ends what the suggestion tool says.
pub const SUGGESTION_NOTE: &'static str =
    "\u{1F4A1} These examples might help with your problem, but you'll likely need to adapt them to your specific use case. Don't assume they'll work exactly as-is for your requirements.";

/// What a tool says of a page of results: how many it shows of how many,
/// the entries, whether more are to be had, and a note. `opening` and `kind`
/// are the words around the numbers, and `asked` what stands after them.
pub open spec fn page_text(
    layout: Layout,
    opening: Seq<char>,
    kind: Seq<char>,
    asked: Seq<char>,
    note: Seq<char>,
    results: Seq<ResultView>,
    total: nat,
    offset: nat,
    limit: nat,
    has_more: bool,
) -> Seq<char> {
    opening + decimal_text(results.len()) + " of "@ + decimal_text(total) + kind + asked
        + page_span(offset, results.len()) + entries(layout, results, offset + 1) + when(
        has_more,
        more_text(offset, limit, results.len(), total),
    ) + note
}

/// What the search tool says of a page of results.
pub open spec fn search_examples_text(
    query: Seq<char>,
    language: Seq<char>,
    results: Seq<ResultView>,
    total: nat,
    offset: nat,
    limit: nat,
    has_more: bool,
) -> Seq<char> {
    if results.len() == 0 {
        if offset > 0 {
            "No more examples found at offset "@ + decimal_text(offset) + " for '"@ + query
                + "' in "@ + language + " language."@
        } else {
            "No examples found matching '"@ + query + "' in "@ + language
                + " language. Try broader search terms or search in 'any' language."@
        }
    } else {
        page_text(
            Layout::SearchLine,
            "Found "@,
            " total examples for '"@,
            query + "' in "@ + language + " "@,
            SEARCH_NOTE@,
            results,
            total,
            offset,
            limit,
            has_more,
        )
    }
}

/// What the similarity tool says of a page of results.
pub open spec fn similarity_text(
    results: Seq<ResultView>,
    total: nat,
    offset: nat,
    limit: nat,
    has_more: bool,
) -> Seq<char> {
    if results.len() == 0 {
        if offset > 0 {
            "No more similar patterns found at offset "@ + decimal_text(offset)
                + " for the provided pattern."@
        } else {
            "No similar patterns found. Try using simpler or more general terms."@
        }
    } else {
        page_text(
            Layout::SimilarLine,
            "Found "@,
            " total similar patterns "@,
            Seq::empty(),
            SIMILARITY_NOTE@,
            results,
            total,
            offset,
            limit,
            has_more,
        )
    }
}

/// What the suggestion tool says of a page of results.
pub open spec fn suggestion_text(
    results: Seq<ResultView>,
    total: nat,
    offset: nat,
    limit: nat,
    has_more: bool,
) -> Seq<char> {
    if results.len() == 0 {
        if offset > 0 {
            "No more relevant examples found at offset "@ + decimal_text(offset)
                + " for your problem description."@
        } else {
            "No relevant examples found for your problem description. Try describing your problem with different terms or be more specific about what you're trying to achieve."@
        }
    } else {
        page_text(
            Layout::SuggestionLine,
            "Based on your problem description, here are "@,
            " potentially relevant examples "@,
            Seq::empty(),
            SUGGESTION_NOTE@,
            results,
            total,
            offset,
            limit,
            has_more,
        )
    }
}

/// What stands between "page" and the entries.
fn format_page_span(offset: usize, shown: usize) -> (text: String)
    requires
        offset + shown <= usize::MAX,
        shown > 0,
    ensures
        text@ == page_span(offset as nat, shown as nat),
{
    let mut text = "(page ".to_owned();
    text.append(decimal((offset + 1) as u64).as_str());
    text.append("-");
    text.append(decimal((offset + shown) as u64).as_str());
    text.append("):\n\n");
    text
}

/// What is said where more results stand after a page.
fn format_more(offset: usize, limit: usize, shown: usize, total: usize) -> (text: String)
    requires
        offset + limit <= usize::MAX,
        offset + shown <= total,
    ensures
        text@ == more_text(offset as nat, limit as nat, shown as nat, total as nat),
{
    let mut text = "\u{1F4C4} More results available. Use offset: ".to_owned();
    text.append(decimal((offset + limit) as u64).as_str());
    text.append(" to get next page (");
    text.append(decimal((total - offset - shown) as u64).as_str());
    text.append(" more results).\n\n");
    text
}

/// What a tool says of a page of results.
pub fn format_page(
    layout: Layout,
    opening: &str,
    kind: &str,
    asked: &str,
    note: &str,
    paged: &PaginatedResults,
) -> (text: String)
    requires
        is_page(*paged),
        paged.results@.len() > 0,
    ensures
        text@ == page_text(
            layout,
            opening@,
            kind@,
            asked@,
            note@,
            result_views(paged.results@),
            paged.pagination.total_count as nat,
            paged.pagination.offset as nat,
            paged.pagination.limit as nat,
            paged.pagination.has_more,
        ),
{
    let shown = paged.results.len();
    let total = paged.pagination.total_count;
    let offset = paged.pagination.offset;
    let limit = paged.pagination.limit;
    assert(result_views(paged.results@).len() == shown);
    let mut text = opening.to_owned();
    text.append(decimal(shown as u64).as_str());
    text.append(" of ");
    text.append(decimal(total as u64).as_str());
    text.append(kind);
    text.append(asked);
    text.append(format_page_span(offset, shown).as_str());
    text.append(format_entries(layout, &paged.results, (offset + 1) as u64).as_str());
    if paged.pagination.has_more {
        text.append(format_more(offset, limit, shown, total).as_str());
    } else {
        assert(text@ + Seq::<char>::empty() =~= text@);
    }
    text.append(note);
    text
}

/// What the search tool says of a page of results for a query in a
/// language.
pub fn format_search_examples(query: &str, language: &str, paged: &PaginatedResults) -> (text:
    String)
    requires
        is_page(*paged),
    ensures
        text@ == search_examples_text(
            query@,
            language@,
            result_views(paged.results@),
            paged.pagination.total_count as nat,
            paged.pagination.offset as nat,
            paged.pagination.limit as nat,
            paged.pagination.has_more,
        ),
{
    let offset = paged.pagination.offset;
    if paged.results.len() == 0 {
        let mut text = String::new();
        if offset > 0 {
            text.append("No more examples found at offset ");
            text.append(decimal(offset as u64).as_str());
            text.append(" for '");
            text.append(query);
            text.append("' in ");
            text.append(language);
            text.append(" language.");
        } else {
            text.append("No examples found matching '");
            text.append(query);
            text.append("' in ");
            text.append(language);
            text.append(" language. Try broader search terms or search in 'any' language.");
        }
        proof {
            assert(result_views(paged.results@).len() == 0);
            assert(text@ =~= search_examples_text(
                query@,
                language@,
                result_views(paged.results@),
                paged.pagination.total_count as nat,
                paged.pagination.offset as nat,
                paged.pagination.limit as nat,
                paged.pagination.has_more,
            ));
        }
        return text;
    }
    let mut asked = query.to_owned();
    asked.append("' in ");
    asked.append(language);
    asked.append(" ");
    assert(result_views(paged.results@).len() > 0);
    format_page(
        Layout::SearchLine,
        "Found ",
        " total examples for '",
        asked.as_str(),
        SEARCH_NOTE,
        paged,
    )
}

/// What the similarity tool says of a page of results.
pub fn format_similarity(paged: &PaginatedResults) -> (text: String)
    requires
        is_page(*paged),
    ensures
        text@ == similarity_text(
            result_views(paged.results@),
            paged.pagination.total_count as nat,
            paged.pagination.offset as nat,
            paged.pagination.limit as nat,
            paged.pagination.has_more,
        ),
{
    let offset = paged.pagination.offset;
    if paged.results.len() == 0 {
        assert(result_views(paged.results@).len() == 0);
        if offset > 0 {
            let mut text = "No more similar patterns found at offset ".to_owned();
            text.append(decimal(offset as u64).as_str());
            text.append(" for the provided pattern.");
            return text;
        } else {
            return "No similar patterns found. Try using simpler or more general terms.".to_owned();
        }
    }
    assert(result_views(paged.results@).len() > 0);
    proof {
        reveal_strlit("");
        assert(""@ =~= Seq::<char>::empty());
    }
    format_page(Layout::SimilarLine, "Found ", " total similar patterns ", "", SIMILARITY_NOTE, paged)
}

/// What the suggestion tool says of a page of results.
pub fn format_suggestions(paged: &PaginatedResults) -> (text: String)
    requires
        is_page(*paged),
    ensures
        text@ == suggestion_text(
            result_views(paged.results@),
            paged.pagination.total_count as nat,
            paged.pagination.offset as nat,
            paged.pagination.limit as nat,
            paged.pagination.has_more,
        ),
{
    let offset = paged.pagination.offset;
    if paged.results.len() == 0 {
        assert(result_views(paged.results@).len() == 0);
        if offset > 0 {
            let mut text = "No more relevant examples found at offset ".to_owned();
            text.append(decimal(offset as u64).as_str());
            text.append(" for your problem description.");
            return text;
        } else {
            return "No relevant examples found for your problem description. Try describing your problem with different terms or be more specific about what you're trying to achieve.".to_owned();
        }
    }
    assert(result_views(paged.results@).len() > 0);
    proof {
        reveal_strlit("");
        assert(""@ =~= Seq::<char>::empty());
    }
    format_page(
        Layout::SuggestionLine,
        "Based on your problem description, here are ",
        " potentially relevant examples ",
        "",
        SUGGESTION_NOTE,
        paged,
    )
}

/// An outcome of a search tool by its views.
pub type SearchOutcome = Result<Seq<char>, (ToolErrorKind, Seq<char>)>;

/// The number argument `key` as a machine number, or `default` where it is
/// not given.
pub open spec fn number_or(args: JsonTree, key: Seq<char>, default: u64) -> usize {
    clamped(
        match args.unsigned_field(key) {
            Some(n) => n,
            None => default,
        },
    )
}

/// What a tool says of the page that `offset` and `limit` cut from a
/// ranking.
pub open spec fn shown(examples: Seq<ExampleView>, all: Seq<crate::simple_search::Hit>, offset: usize, limit: usize) -> Seq<
    ResultView,
> {
    results_of(examples, page(all, offset as nat, limit as nat))
}

/// Whether results stand after the page that `offset` and `limit` cut from
/// a ranking.
pub open spec fn more_after(all: Seq<crate::simple_search::Hit>, offset: usize, limit: usize) -> bool {
    offset + page(all, offset as nat, limit as nat).len() < all.len()
}

/// What the tool `search_examples` answers: the page `offset`, `limit` of
/// the examples that the query finds in the language. The query must be
/// given; the language is any, the limit ten and the offset nothing where
/// they are not.
pub open spec fn search_examples_outcome(examples: Seq<ExampleView>, args: JsonTree) -> SearchOutcome {
    match args.text_field("query"@) {
        None => Err((ToolErrorKind::MissingArgument, "Missing query"@)),
        Some(query) => {
            let language = text_or(args, "language"@, "any"@);
            let limit = number_or(args, "limit"@, 10);
            let offset = number_or(args, "offset"@, 0);
            let all = ranking(examples, query, filter_of(language));
            Ok(
                search_examples_text(
                    query,
                    language,
                    shown(examples, all, offset, limit),
                    all.len(),
                    offset as nat,
                    limit as nat,
                    more_after(all, offset, limit),
                ),
            )
        },
    }
}

/// The ranking of the examples that are most like a text.
pub open spec fn likeness(examples: Seq<ExampleView>, text: Seq<char>) -> Seq<crate::simple_search::Hit> {
    ranking(examples, joined_with(key_terms(text), " "@), None)
}

/// What the tool `similarity_search` answers: the page `offset`, `limit` of
/// the examples that are most like the pattern. The pattern must be given;
/// the limit is ten and the offset nothing where they are not.
pub open spec fn similarity_outcome(examples: Seq<ExampleView>, args: JsonTree) -> SearchOutcome {
    match args.text_field("pattern"@) {
        None => Err((ToolErrorKind::MissingArgument, "Missing pattern"@)),
        Some(pattern) => {
            let limit = number_or(args, "limit"@, 10);
            let offset = number_or(args, "offset"@, 0);
            let all = likeness(examples, pattern);
            Ok(
                similarity_text(
                    shown(examples, all, offset, limit),
                    all.len(),
                    offset as nat,
                    limit as nat,
                    more_after(all, offset, limit),
                ),
            )
        },
    }
}

/// What the tool `suggest_examples` answers: the page `offset`, `limit` of
/// the examples that a search for the description finds, or, where the first
/// page of that search is empty, of the examples that are most like the
/// description. The description must be given; the language is any, the
/// limit five and the offset nothing where they are not.
pub open spec fn suggestion_outcome(examples: Seq<ExampleView>, args: JsonTree) -> SearchOutcome {
    match args.text_field("description"@) {
        None => Err((ToolErrorKind::MissingArgument, "Missing description"@)),
        Some(description) => {
            let language = text_or(args, "language"@, "any"@);
            let limit = number_or(args, "limit"@, 5);
            let offset = number_or(args, "offset"@, 0);
            let searched = ranking(examples, description, filter_of(language));
            let all = if offset == 0 && page(searched, 0, limit as nat).len() == 0 {
                likeness(examples, description)
            } else {
                searched
            };
            Ok(
                suggestion_text(
                    shown(examples, all, offset, limit),
                    all.len(),
                    offset as nat,
                    limit as nat,
                    more_after(all, offset, limit),
                ),
            )
        },
    }
}

/// The number argument `key` as a machine number.
pub fn get_number_or(args: &JsonValue, key: &str, default: u64) -> (n: usize)
    ensures
        n == number_or(args@, key@, default),
{
    match args.get_u64(key) {
        Some(n) => to_usize(n),
        None => to_usize(default),
    }
}

/// The language filter that an argument stands for.
pub fn language_filter(language: &str) -> (filter: Option<&str>)
    ensures
        match filter {
            Some(f) => filter_of(language@) == Some(f@),
            None => filter_of(language@) is None,
        },
{
    if str_eq(language, "any") {
        None
    } else {
        Some(language)
    }
}

/// The tool `search_examples`.
pub fn search_examples(engine: &SimpleSearchEngine, args: &JsonValue) -> (r: Result<String, ToolError>)
    ensures
        match r {
            Ok(text) => search_examples_outcome(engine.entries(), args@) == Ok::<
                Seq<char>,
                (ToolErrorKind, Seq<char>),
            >(text@),
            Err(e) => search_examples_outcome(engine.entries(), args@) == Err::<
                Seq<char>,
                (ToolErrorKind, Seq<char>),
            >((e.kind, e.message@)),
        },
{
    let query = match args.get_str("query") {
        Some(query) => query,
        None => {
            return Err(ToolError::new(ToolErrorKind::MissingArgument, "Missing query".to_owned()));
        },
    };
    let language = match args.get_str("language") {
        Some(language) => language,
        None => "any",
    };
    let limit = get_number_or(args, "limit", 10);
    let offset = get_number_or(args, "offset", 0);
    match engine.search_paginated(query, language_filter(language), limit, offset) {
        Ok(paged) => Ok(format_search_examples(query, language, &paged)),
        Err(e) => Err(e),
    }
}

/// The tool `similarity_search`.
pub fn similarity_search_tool(engine: &SimpleSearchEngine, args: &JsonValue) -> (r: Result<
    String,
    ToolError,
>)
    ensures
        match r {
            Ok(text) => similarity_outcome(engine.entries(), args@) == Ok::<
                Seq<char>,
                (ToolErrorKind, Seq<char>),
            >(text@),
            Err(e) => similarity_outcome(engine.entries(), args@) == Err::<
                Seq<char>,
                (ToolErrorKind, Seq<char>),
            >((e.kind, e.message@)),
        },
{
    let pattern = match args.get_str("pattern") {
        Some(pattern) => pattern,
        None => {
            return Err(
                ToolError::new(ToolErrorKind::MissingArgument, "Missing pattern".to_owned()),
            );
        },
    };
    let limit = get_number_or(args, "limit", 10);
    let offset = get_number_or(args, "offset", 0);
    match engine.similarity_search_paginated(pattern, limit, offset) {
        Ok(paged) => Ok(format_similarity(&paged)),
        Err(e) => Err(e),
    }
}

/// The tool `suggest_examples`.
pub fn suggest_examples(engine: &SimpleSearchEngine, args: &JsonValue) -> (r: Result<String, ToolError>)
    ensures
        match r {
            Ok(text) => suggestion_outcome(engine.entries(), args@) == Ok::<
                Seq<char>,
                (ToolErrorKind, Seq<char>),
            >(text@),
            Err(e) => suggestion_outcome(engine.entries(), args@) == Err::<
                Seq<char>,
                (ToolErrorKind, Seq<char>),
            >((e.kind, e.message@)),
        },
{
    let description = match args.get_str("description") {
        Some(description) => description,
        None => {
            return Err(
                ToolError::new(ToolErrorKind::MissingArgument, "Missing description".to_owned()),
            );
        },
    };
    let language = match args.get_str("language") {
        Some(language) => language,
        None => "any",
    };
    let limit = get_number_or(args, "limit", 5);
    let offset = get_number_or(args, "offset", 0);
    let searched = match engine.search_paginated(
        description,
        language_filter(language),
        limit,
        offset,
    ) {
        Ok(paged) => paged,
        Err(e) => {
            return Err(e);
        },
    };
    assert(result_views(searched.results@).len() == searched.results@.len());
    let paged = if searched.results.len() == 0 && offset == 0 {
        match engine.similarity_search_paginated(description, limit, offset) {
            Ok(paged) => paged,
            Err(e) => {
                return Err(e);
            },
        }
    } else {
        searched
    };
    Ok(format_suggestions(&paged))
}

/// The beginning of what is said where a search finds nothing.
pub const NO_RESULTS_HEAD: &'static str = "## No Results Found\n\nNo examples found matching '";

/// The end of what is said where a search finds nothing.
pub const NO_RESULTS_TAIL: &'static str =
    " language.\n\n**Suggestion**: Try:\n- Using broader search terms\n- Searching in 'any' language\n- Using different keywords related to your problem";

/// The note that ends a page of search results.
pub const IMPORTANT_NOTE: &'static str =
    "## \u{26A0}\u{FE0F} Important Note\n\nThese examples are provided to help you understand similar patterns and approaches. **Please don't assume these examples will be a perfect fit for your specific use case.** You may need to adapt the patterns, rules, or logic to match your exact requirements.\n\nConsider these examples as starting points and learning resources rather than drop-in solutions.";

/// The beginning of what is said where nothing is like a pattern.
pub const NO_SIMILAR_HEAD: &'static str =
    "## No Similar Patterns Found\n\nNo examples found similar to the provided pattern.\n\n**Pattern**: ";

/// The end of what is said where nothing is like a pattern.
pub const NO_SIMILAR_TAIL: &'static str =
    "\n\n**Suggestion**: Try using simpler or more general terms in your pattern.";

/// The note that ends a page of similar patterns.
pub const SIMILARITY_SEARCH_NOTE: &'static str =
    "## \u{26A0}\u{FE0F} Similarity Search Note\n\nThese examples were found based on text similarity to your provided pattern. **The similarity scoring is based on common terms and concepts, not exact pattern matching.** Review each example carefully to determine if it's relevant to your specific use case.\n\nConsider these as inspiration and adapt them to your exact requirements.";

/// What a page of search results says of the examples found.
pub open spec fn catalog_text(query: Seq<char>, language: Seq<char>, results: Seq<ResultView>) -> Seq<
    char,
> {
    if results.len() == 0 {
        NO_RESULTS_HEAD@ + query + "' in "@ + language + NO_RESULTS_TAIL@
    } else {
        entries(Layout::SearchSection, results, 1) + IMPORTANT_NOTE@
    }
}

/// The limit of a query: the number that the parameter `limit` stands for,
/// or ten where it is not given or stands for none.
pub open spec fn query_limit(params: Seq<(Seq<char>, Seq<char>)>) -> usize {
    match parameter(params, "limit"@) {
        Some(text) => match parsed_number(text) {
            Some(n) => n,
            None => 10,
        },
        None => 10,
    }
}

/// The page of a search query: the `limit` best examples for the parameter
/// `q` in the language of the parameter `lang`. The query must be given.
pub open spec fn search_query_outcome(
    examples: Seq<ExampleView>,
    params: Seq<(Seq<char>, Seq<char>)>,
) -> SearchOutcome {
    match parameter(params, "q"@) {
        None => Err((ToolErrorKind::InvalidQuery, "Missing search query"@)),
        Some(query) => {
            let language = parameter_or(params, "lang"@, "any"@);
            let limit = query_limit(params);
            let results = shown(examples, ranking(examples, query, filter_of(language)), 0, limit);
            Ok(
                "# Search Results for \""@ + query + "\"\n\n**Language**: "@ + language
                    + "  \n**Results**: "@ + decimal_text(results.len()) + " matches (limited to "@
                    + decimal_text(limit as nat) + ")\n\n"@ + catalog_text(query, language, results)
                    + "\n\n"@,
            )
        },
    }
}

/// The page of a similarity query: the `limit` examples most like the
/// parameter `pattern`. The pattern must be given.
pub open spec fn similar_query_outcome(
    examples: Seq<ExampleView>,
    params: Seq<(Seq<char>, Seq<char>)>,
) -> SearchOutcome {
    match parameter(params, "pattern"@) {
        None => Err((ToolErrorKind::InvalidQuery, "Missing pattern"@)),
        Some(pattern) => {
            let results = shown(examples, likeness(examples, pattern), 0, query_limit(params));
            if results.len() == 0 {
                Ok(NO_SIMILAR_HEAD@ + pattern + NO_SIMILAR_TAIL@)
            } else {
                Ok(
                    "# Similar Patterns to \""@ + pattern + "\"\n\n**Found "@ + decimal_text(
                        results.len(),
                    ) + " similar examples:**\n\n"@ + entries(Layout::SimilarSection, results, 1)
                        + SIMILARITY_SEARCH_NOTE@,
                )
            }
        },
    }
}

/// The limit of a query.
pub fn get_query_limit(params: &Vec<Parameter>) -> (limit: usize)
    ensures
        limit == query_limit(parameter_views(params@)),
{
    match get_parameter(params, "limit") {
        Some(text) => match parse_usize(text) {
            Some(n) => n,
            None => 10,
        },
        None => 10,
    }
}

/// What a page of search results says of the examples found.
pub fn search_catalog(query: &str, language: &str, results: &Vec<SearchResult>) -> (text: String)
    ensures
        text@ == catalog_text(query@, language@, result_views(results@)),
{
    assert(result_views(results@).len() == results.len());
    if results.len() == 0 {
        let mut text = NO_RESULTS_HEAD.to_owned();
        text.append(query);
        text.append("' in ");
        text.append(language);
        text.append(NO_RESULTS_TAIL);
        return text;
    }
    let mut text = format_entries(Layout::SearchSection, results, 1);
    text.append(IMPORTANT_NOTE);
    text
}

/// The page of a search query.
pub fn handle_search_query(engine: &SimpleSearchEngine, params: &Vec<Parameter>) -> (r: Result<
    String,
    ToolError,
>)
    ensures
        match r {
            Ok(text) => search_query_outcome(engine.entries(), parameter_views(params@)) == Ok::<
                Seq<char>,
                (ToolErrorKind, Seq<char>),
            >(text@),
            Err(e) => search_query_outcome(engine.entries(), parameter_views(params@)) == Err::<
                Seq<char>,
                (ToolErrorKind, Seq<char>),
            >((e.kind, e.message@)),
        },
{
    let query = match get_parameter(params, "q") {
        Some(query) => query,
        None => {
            return Err(
                ToolError::new(ToolErrorKind::InvalidQuery, "Missing search query".to_owned()),
            );
        },
    };
    let language = get_parameter_or(params, "lang", "any");
    let limit = get_query_limit(params);
    let results = match engine.search(query, language_filter(language.as_str()), limit) {
        Ok(results) => results,
        Err(e) => {
            return Err(e);
        },
    };
    assert(result_views(results@).len() == results.len());
    let mut text = "# Search Results for \"".to_owned();
    text.append(query);
    text.append("\"\n\n**Language**: ");
    text.append(language.as_str());
    text.append("  \n**Results**: ");
    text.append(decimal(results.len() as u64).as_str());
    text.append(" matches (limited to ");
    text.append(decimal(limit as u64).as_str());
    text.append(")\n\n");
    text.append(search_catalog(query, language.as_str(), &results).as_str());
    text.append("\n\n");
    Ok(text)
}

/// The page of a similarity query.
pub fn handle_similar_query(engine: &SimpleSearchEngine, params: &Vec<Parameter>) -> (r: Result<
    String,
    ToolError,
>)
    ensures
        match r {
            Ok(text) => similar_query_outcome(engine.entries(), parameter_views(params@)) == Ok::<
                Seq<char>,
                (ToolErrorKind, Seq<char>),
            >(text@),
            Err(e) => similar_query_outcome(engine.entries(), parameter_views(params@)) == Err::<
                Seq<char>,
                (ToolErrorKind, Seq<char>),
            >((e.kind, e.message@)),
        },
{
    let pattern = match get_parameter(params, "pattern") {
        Some(pattern) => pattern,
        None => {
            return Err(ToolError::new(ToolErrorKind::InvalidQuery, "Missing pattern".to_owned()));
        },
    };
    let limit = get_query_limit(params);
    let results = match engine.similarity_search(pattern, limit) {
        Ok(results) => results,
        Err(e) => {
            return Err(e);
        },
    };
    assert(result_views(results@).len() == results.len());
    if results.len() == 0 {
        let mut text = NO_SIMILAR_HEAD.to_owned();
        text.append(pattern);
        text.append(NO_SIMILAR_TAIL);
        return Ok(text);
    }
    let mut text = "# Similar Patterns to \"".to_owned();
    text.append(pattern);
    text.append("\"\n\n**Found ");
    text.append(decimal(results.len() as u64).as_str());
    text.append(" similar examples:**\n\n");
    text.append(format_entries(Layout::SimilarSection, &results, 1).as_str());
    text.append(SIMILARITY_SEARCH_NOTE);
    Ok(text)
}

} // verus!
