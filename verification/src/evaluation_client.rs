//! The records of an evaluation run against a chat endpoint, and the
//! analysis of the responses that come back.

use crate::error::{ToolError, ToolErrorKind};
use crate::json::{
    json_compact_text, json_document, json_to_string, parse_json, JsonTree, JsonValue,
};
use crate::text::{
    contains, contains_text, lowercase, split_whitespace, str_eq, to_lowercase, views, words,
};
use crate::tool_catalog::{list_tools, listed_tools, tool_views};
use vstd::prelude::*;

verus! {

/// Where the chat endpoint and the server under evaluation are found.
#[derive(Debug, Clone)]
pub struct EvaluationClientConfig {
    pub llm_endpoint: String,
    pub llm_api_key: Option<String>,
    pub model_name: String,
    pub server_command: String,
    pub server_args: Vec<String>,
    pub timeout_seconds: u64,
}

impl Default for EvaluationClientConfig {
    fn default() -> (config: Self)
        ensures
            config.llm_endpoint@ == "http://localhost:1234/v1"@,
            config.llm_api_key is None,
            config.model_name@ == "gpt-3.5-turbo"@,
            config.server_command@ == "cargo"@,
            config.server_args@.len() == 1,
            config.server_args@[0]@ == "run"@,
            config.timeout_seconds == 30,
    {
        let mut server_args: Vec<String> = Vec::new();
        server_args.push("run".to_owned());
        EvaluationClientConfig {
            llm_endpoint: "http://localhost:1234/v1".to_owned(),
            llm_api_key: None,
            model_name: "gpt-3.5-turbo".to_owned(),
            server_command: "cargo".to_owned(),
            server_args,
            timeout_seconds: 30,
        }
    }
}

/// The function a tool call names, with its arguments as JSON text.
#[derive(Debug, Clone)]
pub struct OpenAIFunction {
    pub name: String,
    pub arguments: String,
}

/// One tool call requested by the model.
#[derive(Debug, Clone)]
pub struct OpenAIToolCall {
    pub id: String,
    pub call_type: String,
    pub function: OpenAIFunction,
}

/// One message of a conversation.
#[derive(Debug, Clone)]
pub struct OpenAIMessage {
    pub role: String,
    pub content: String,
    pub tool_calls: Option<Vec<OpenAIToolCall>>,
}

/// The message of one choice of a chat response.
#[derive(Debug, Clone)]
pub struct OpenAIResponseMessage {
    pub content: Option<String>,
    pub tool_calls: Option<Vec<OpenAIToolCall>>,
}

/// One choice of a chat response.
#[derive(Debug, Clone)]
pub struct OpenAIChoice {
    pub message: OpenAIResponseMessage,
}

/// A chat response.
#[derive(Debug)]
pub struct OpenAIChatResponse {
    pub choices: Vec<OpenAIChoice>,
}

/// How a response reads.
#[derive(Debug, Clone, Copy, PartialEq, Eq, Structural)]
pub enum ResponseSentiment {
    Positive,
    Negative,
    Neutral,
    Confused,
    Helpful,
}

/// What was found in a response.
#[derive(Debug, Clone)]
pub struct ResponseAnalysis {
    pub contains_tool_calls: bool,
    pub contains_code: bool,
    pub contains_error: bool,
    pub word_count: usize,
    pub sentiment: ResponseSentiment,
    pub success_indicators: Vec<String>,
    pub failure_indicators: Vec<String>,
}

/// Where and when a snapshot was taken.
#[derive(Debug, Clone)]
pub struct SnapshotMetadata {
    pub test_name: String,
    pub model_name: String,
    pub timestamp: u64,
    pub git_commit: Option<String>,
    pub prompt_hash: String,
}

/// One tool call made during an evaluation, and how it went.
#[derive(Debug, Clone)]
pub struct ToolCallResult {
    pub tool_name: String,
    pub arguments: JsonValue,
    pub result: String,
    pub success: bool,
    pub duration_ms: u64,
}

/// The outcome of evaluating one prompt.
#[derive(Debug, Clone)]
pub struct EvaluationResult {
    pub prompt: String,
    pub response: String,
    pub duration_ms: u64,
    pub tool_calls_made: usize,
    pub success: bool,
    pub timestamp: u64,
    pub model_name: String,
    pub tool_calls: Vec<ToolCallResult>,
    pub conversation_length: usize,
}

/// An evaluation result as it is stored for later comparison.
#[derive(Debug, Clone)]
pub struct ResponseSnapshot {
    pub metadata: SnapshotMetadata,
    pub evaluation_result: EvaluationResult,
    pub response_analysis: ResponseAnalysis,
}

/// A tool of the server as the evaluation knows it.
#[derive(Debug, Clone)]
pub struct McpTool {
    pub name: String,
    pub description: String,
    /// The shape of the arguments, as the text of a JSON schema.
    pub input_schema: String,
}

/// The mathematical value of an [`OpenAIToolCall`].
pub ghost struct ToolCallView {
    pub id: Seq<char>,
    pub call_type: Seq<char>,
    pub name: Seq<char>,
    pub arguments: Seq<char>,
}

/// The mathematical value of an [`OpenAIMessage`].
pub ghost struct MessageView {
    pub role: Seq<char>,
    pub content: Seq<char>,
    pub tool_calls: Option<Seq<ToolCallView>>,
}

impl View for OpenAIToolCall {
    type V = ToolCallView;

    open spec fn view(&self) -> ToolCallView {
        ToolCallView {
            id: self.id@,
            call_type: self.call_type@,
            name: self.function.name@,
            arguments: self.function.arguments@,
        }
    }
}

/// The views of a vector of tool calls, item by item.
pub open spec fn call_views(calls: Seq<OpenAIToolCall>) -> Seq<ToolCallView> {
    Seq::new(calls.len(), |i: int| calls[i]@)
}

/// Tool calls that may be absent, by their views.
pub open spec fn optional_calls(calls: Option<Vec<OpenAIToolCall>>) -> Option<Seq<ToolCallView>> {
    match calls {
        Some(calls) => Some(call_views(calls@)),
        None => None,
    }
}

impl View for OpenAIMessage {
    type V = MessageView;

    open spec fn view(&self) -> MessageView {
        MessageView {
            role: self.role@,
            content: self.content@,
            tool_calls: optional_calls(self.tool_calls),
        }
    }
}

/// The views of a vector of messages, item by item.
pub open spec fn message_views(messages: Seq<OpenAIMessage>) -> Seq<MessageView> {
    Seq::new(messages.len(), |i: int| messages[i]@)
}

/// A message without tool calls.
pub open spec fn plain_message(role: Seq<char>, content: Seq<char>) -> MessageView {
    MessageView { role, content, tool_calls: None }
}

/// The function of a tool as it is offered to the model.
#[derive(Debug, Clone)]
pub struct OpenAIToolFunction {
    pub name: String,
    pub description: String,
    /// The shape of the arguments, as the text of a JSON schema.
    pub parameters: String,
}

/// A tool as it is offered to the model.
#[derive(Debug, Clone)]
pub struct OpenAITool {
    pub tool_type: String,
    pub function: OpenAIToolFunction,
}

/// A request to the chat endpoint.
#[derive(Debug)]
pub struct OpenAIChatRequest {
    pub model: String,
    pub messages: Vec<OpenAIMessage>,
    pub tools: Vec<OpenAITool>,
    pub tool_choice: String,
}

/// A copy of a list of tool calls.
pub fn copy_calls(calls: &Vec<OpenAIToolCall>) -> (copy: Vec<OpenAIToolCall>)
    ensures
        call_views(copy@) == call_views(calls@),
{
    let mut copy: Vec<OpenAIToolCall> = Vec::new();
    let mut i: usize = 0;
    while i < calls.len()
        invariant
            i <= calls.len(),
            copy.len() == i,
            forall|k: int| 0 <= k < i ==> (#[trigger] copy[k])@ == calls[k]@,
        decreases calls.len() - i,
    {
        copy.push(
            OpenAIToolCall {
                id: calls[i].id.clone(),
                call_type: calls[i].call_type.clone(),
                function: OpenAIFunction {
                    name: calls[i].function.name.clone(),
                    arguments: calls[i].function.arguments.clone(),
                },
            },
        );
        i = i + 1;
    }
    assert(call_views(copy@) =~= call_views(calls@));
    copy
}

/// A copy of a conversation.
pub fn copy_messages(messages: &Vec<OpenAIMessage>) -> (copy: Vec<OpenAIMessage>)
    ensures
        message_views(copy@) == message_views(messages@),
{
    let mut copy: Vec<OpenAIMessage> = Vec::new();
    let mut i: usize = 0;
    while i < messages.len()
        invariant
            i <= messages.len(),
            copy.len() == i,
            forall|k: int| 0 <= k < i ==> (#[trigger] copy[k])@ == messages[k]@,
        decreases messages.len() - i,
    {
        let tool_calls = match &messages[i].tool_calls {
            Some(calls) => Some(copy_calls(calls)),
            None => None,
        };
        copy.push(
            OpenAIMessage {
                role: messages[i].role.clone(),
                content: messages[i].content.clone(),
                tool_calls,
            },
        );
        i = i + 1;
    }
    assert(message_views(copy@) =~= message_views(messages@));
    copy
}

/// How many tool calls the messages ask for.
pub open spec fn tool_call_count(messages: Seq<MessageView>) -> nat
    decreases messages.len(),
{
    if messages.len() == 0 {
        0
    } else {
        tool_call_count(messages.drop_last()) + match messages.last().tool_calls {
            Some(calls) => calls.len(),
            None => 0,
        }
    }
}

/// What the evaluation makes of one requested tool call: its arguments read
/// as JSON, null where they are none, and a made-up result.
pub ghost struct CallResultView {
    pub tool_name: Seq<char>,
    pub arguments: JsonTree,
    pub result: Seq<char>,
    pub success: bool,
    pub duration_ms: u64,
}

impl View for ToolCallResult {
    type V = CallResultView;

    open spec fn view(&self) -> CallResultView {
        CallResultView {
            tool_name: self.tool_name@,
            arguments: self.arguments@,
            result: self.result@,
            success: self.success,
            duration_ms: self.duration_ms,
        }
    }
}

/// The views of a vector of call results, item by item.
pub open spec fn call_result_views(items: Seq<ToolCallResult>) -> Seq<CallResultView> {
    Seq::new(items.len(), |i: int| items[i]@)
}

/// The result that is recorded for every tool call.
pub const SIMULATED_RESULT: &'static str = "Simulated result";

/// The result that stands for a requested tool call.
pub open spec fn recorded(call: ToolCallView) -> CallResultView {
    CallResultView {
        tool_name: call.name,
        arguments: match json_document(call.arguments) {
            Ok(tree) => tree,
            Err(_) => JsonTree::Null,
        },
        result: SIMULATED_RESULT@,
        success: true,
        duration_ms: 0,
    }
}

/// The results that stand for requested tool calls.
pub open spec fn recorded_calls(calls: Seq<ToolCallView>) -> Seq<CallResultView> {
    Seq::new(calls.len(), |i: int| recorded(calls[i]))
}

/// The results that stand for the tool calls of the messages from `start`
/// on.
pub open spec fn recent_tool_calls(messages: Seq<MessageView>, start: int) -> Seq<CallResultView>
    decreases messages.len(),
{
    if messages.len() == 0 || messages.len() <= start {
        Seq::empty()
    } else {
        recent_tool_calls(messages.drop_last(), start) + match messages.last().tool_calls {
            Some(calls) => recorded_calls(calls),
            None => Seq::empty(),
        }
    }
}

/// What a simulated tool answers.
pub open spec fn simulated_answer(name: Seq<char>, arguments: JsonTree) -> Result<
    Seq<char>,
    (ToolErrorKind, Seq<char>),
> {
    if name == "find_scope"@ {
        Ok(
            "Found scope for tool call: "@ + name + " with args: "@ + json_compact_text(arguments),
        )
    } else if name == "execute_rule"@ {
        Ok("Executed ast-grep rule: "@ + name + " with args: "@ + json_compact_text(arguments))
    } else {
        Err((ToolErrorKind::UnknownTool, "Unknown tool: "@ + name))
    }
}

/// Whether a response holds code: a code fence or a word that declares
/// something.
pub open spec fn has_code(response: Seq<char>) -> bool {
    contains_text(response, "```"@) || contains_text(response, "function "@) || contains_text(
        response,
        "const "@,
    ) || contains_text(response, "let "@) || contains_text(response, "var "@) || contains_text(
        response,
        "class "@,
    ) || contains_text(response, "impl "@) || contains_text(response, "fn "@)
}

/// Whether a response speaks of an error.
pub open spec fn has_error(response: Seq<char>) -> bool {
    let lower = lowercase(response);
    contains_text(lower, "error"@) || contains_text(lower, "failed"@) || contains_text(
        lower,
        "exception"@,
    ) || contains_text(lower, "panic"@) || contains_text(lower, "undefined"@) || contains_text(
        lower,
        "null reference"@,
    )
}

/// How a response reads. Confusion is looked for first, then helpfulness,
/// then success, then failure.
pub open spec fn sentiment_of(response: Seq<char>) -> ResponseSentiment {
    let lower = lowercase(response);
    if contains_text(lower, "sorry"@) || contains_text(lower, "confused"@) || contains_text(
        lower,
        "unclear"@,
    ) {
        ResponseSentiment::Confused
    } else if contains_text(lower, "help"@) || contains_text(lower, "assist"@) || contains_text(
        lower,
        "guide"@,
    ) {
        ResponseSentiment::Helpful
    } else if contains_text(lower, "success"@) || contains_text(lower, "complete"@)
        || contains_text(lower, "done"@) {
        ResponseSentiment::Positive
    } else if contains_text(lower, "fail"@) || contains_text(lower, "error"@) || contains_text(
        lower,
        "problem"@,
    ) {
        ResponseSentiment::Negative
    } else {
        ResponseSentiment::Neutral
    }
}

/// The words that tell of success.
pub open spec fn success_words() -> Seq<Seq<char>> {
    seq![
        "successfully"@,
        "completed"@,
        "found"@,
        "executed"@,
        "processed"@,
        "analyzed"@,
        "generated"@,
        "created"@,
    ]
}

/// The words that tell of failure.
pub open spec fn failure_words() -> Seq<Seq<char>> {
    seq![
        "failed"@,
        "error"@,
        "unable"@,
        "cannot"@,
        "invalid"@,
        "missing"@,
        "not found"@,
        "timeout"@,
    ]
}

/// The words among `patterns` that stand in `text`, in the order of
/// `patterns`.
pub open spec fn present(text: Seq<char>, patterns: Seq<Seq<char>>) -> Seq<Seq<char>>
    decreases patterns.len(),
{
    if patterns.len() == 0 {
        Seq::empty()
    } else if contains_text(text, patterns.last()) {
        present(text, patterns.drop_last()).push(patterns.last())
    } else {
        present(text, patterns.drop_last())
    }
}

/// The mathematical value of a [`ResponseAnalysis`].
pub ghost struct AnalysisView {
    pub contains_tool_calls: bool,
    pub contains_code: bool,
    pub contains_error: bool,
    pub word_count: nat,
    pub sentiment: ResponseSentiment,
    pub success_indicators: Seq<Seq<char>>,
    pub failure_indicators: Seq<Seq<char>>,
}

impl View for ResponseAnalysis {
    type V = AnalysisView;

    open spec fn view(&self) -> AnalysisView {
        AnalysisView {
            contains_tool_calls: self.contains_tool_calls,
            contains_code: self.contains_code,
            contains_error: self.contains_error,
            word_count: self.word_count as nat,
            sentiment: self.sentiment,
            success_indicators: views(self.success_indicators@),
            failure_indicators: views(self.failure_indicators@),
        }
    }
}

/// What is found in a response to a prompt for which `tool_calls_made` tool
/// calls were made.
pub open spec fn analysis_of(response: Seq<char>, tool_calls_made: nat) -> AnalysisView {
    AnalysisView {
        contains_tool_calls: tool_calls_made > 0,
        contains_code: has_code(response),
        contains_error: has_error(response),
        word_count: words(response).len(),
        sentiment: sentiment_of(response),
        success_indicators: present(lowercase(response), success_words()),
        failure_indicators: present(lowercase(response), failure_words()),
    }
}

/// The words among `patterns` that stand in `text`.
pub fn find_present(text: &str, patterns: &Vec<&'static str>) -> (found: Vec<String>)
    ensures
        views(found@) == present(text@, Seq::new(patterns@.len(), |i: int| patterns@[i]@)),
{
    let mut found: Vec<String> = Vec::new();
    let ghost all = Seq::new(patterns@.len(), |i: int| patterns@[i]@);
    let mut i: usize = 0;
    assert(all.take(0) =~= Seq::<Seq<char>>::empty());
    assert(views(found@) =~= Seq::<Seq<char>>::empty());
    while i < patterns.len()
        invariant
            i <= patterns.len(),
            all == Seq::new(patterns@.len(), |i: int| patterns@[i]@),
            views(found@) == present(text@, all.take(i as int)),
        decreases patterns.len() - i,
    {
        proof {
            assert(all.take(i + 1).drop_last() =~= all.take(i as int));
            assert(all.take(i + 1).last() == patterns@[i as int]@);
        }
        if contains(text, patterns[i]) {
            let ghost before = views(found@);
            found.push(patterns[i].to_owned());
            assert(views(found@) =~= before.push(patterns@[i as int]@));
        }
        i = i + 1;
    }
    assert(all.take(patterns.len() as int) =~= all);
    found
}

/// Drives a conversation with a model that may call the tools of the server.
#[derive(Debug)]
pub struct EvaluationClient {
    pub config: EvaluationClientConfig,
    pub conversation_history: Vec<OpenAIMessage>,
}

/// What follows the first answer of the model.
#[derive(Debug)]
pub enum ChatStep {
    /// The conversation is over with this answer.
    Done(String),
    /// The model asked for tools; this request tells it what they gave.
    FollowUp(OpenAIChatRequest),
}

impl EvaluationClient {
    /// The conversation so far.
    pub open spec fn history(&self) -> Seq<MessageView> {
        message_views(self.conversation_history@)
    }

    /// A client with an empty conversation.
    pub fn new(config: EvaluationClientConfig) -> (client: Self)
        ensures
            client.config == config,
            client.history().len() == 0,
    {
        EvaluationClient { config, conversation_history: Vec::new() }
    }

    /// Forgets the conversation.
    pub fn reset_conversation(&mut self)
        ensures
            final(self).history().len() == 0,
            final(self).config == old(self).config,
    {
        self.conversation_history.clear();
    }

    /// The tools of the server.
    pub fn get_available_tools(&self) -> (tools: Vec<McpTool>)
        ensures
            tools@.len() == listed_tools().len(),
            forall|i: int|
                0 <= i < tools@.len() ==> (#[trigger] tools@[i]).name@ == listed_tools()[i].name
                    && tools@[i].description@ == listed_tools()[i].description
                    && tools@[i].input_schema@ == listed_tools()[i].input_schema,
    {
        let listed = list_tools();
        let mut tools: Vec<McpTool> = Vec::new();
        let mut i: usize = 0;
        while i < listed.len()
            invariant
                i <= listed.len(),
                tools.len() == i,
                tool_views(listed@) == listed_tools(),
                forall|k: int|
                    0 <= k < i ==> (#[trigger] tools@[k]).name@ == listed_tools()[k].name
                        && tools@[k].description@ == listed_tools()[k].description
                        && tools@[k].input_schema@ == listed_tools()[k].input_schema,
            decreases listed.len() - i,
        {
            assert(tool_views(listed@)[i as int] == listed@[i as int]@);
            tools.push(
                McpTool {
                    name: listed[i].name.clone(),
                    description: listed[i].description.clone(),
                    input_schema: listed[i].input_schema.clone(),
                },
            );
            i = i + 1;
        }
        assert(tool_views(listed@).len() == listed@.len());
        tools
    }

    /// What a simulated tool answers to a call.
    pub fn call_mcp_tool(&self, name: &str, arguments: &JsonValue) -> (r: Result<String, ToolError>)
        ensures
            match r {
                Ok(text) => simulated_answer(name@, arguments@) == Ok::<
                    Seq<char>,
                    (ToolErrorKind, Seq<char>),
                >(text@),
                Err(e) => simulated_answer(name@, arguments@) == Err::<
                    Seq<char>,
                    (ToolErrorKind, Seq<char>),
                >((e.kind, e.message@)),
            },
    {
        if str_eq(name, "find_scope") {
            let mut text = "Found scope for tool call: ".to_owned();
            text.append(name);
            text.append(" with args: ");
            text.append(json_to_string(arguments).as_str());
            Ok(text)
        } else if str_eq(name, "execute_rule") {
            let mut text = "Executed ast-grep rule: ".to_owned();
            text.append(name);
            text.append(" with args: ");
            text.append(json_to_string(arguments).as_str());
            Ok(text)
        } else {
            let mut message = "Unknown tool: ".to_owned();
            message.append(name);
            Err(ToolError::new(ToolErrorKind::UnknownTool, message))
        }
    }

    /// How many tool calls the conversation asks for.
    pub fn count_tool_calls_in_conversation(&self) -> (count: usize)
        requires
            tool_call_count(self.history()) <= usize::MAX,
        ensures
            count == tool_call_count(self.history()),
    {
        let mut count: usize = 0;
        let ghost all = self.history();
        let mut i: usize = 0;
        assert(all.take(0) =~= Seq::<MessageView>::empty());
        while i < self.conversation_history.len()
            invariant
                i <= self.conversation_history.len(),
                all == self.history(),
                tool_call_count(all) <= usize::MAX,
                count == tool_call_count(all.take(i as int)),
            decreases self.conversation_history.len() - i,
        {
            proof {
                assert(all.take(i + 1).drop_last() =~= all.take(i as int));
                assert(all.take(i + 1).last() == self.conversation_history[i as int]@);
                lemma_tool_call_count_grows(all, i + 1);
            }
            match &self.conversation_history[i].tool_calls {
                Some(calls) => {
                    assert(call_views(calls@).len() == calls.len());
                    count = count + calls.len();
                },
                None => {},
            }
            i = i + 1;
        }
        assert(all.take(self.conversation_history.len() as int) =~= all);
        count
    }

    /// The results that stand for the tool calls of the messages from
    /// `start_index` on.
    pub fn extract_tool_calls_from_recent_conversation(&self, start_index: usize) -> (results: Vec<
        ToolCallResult,
    >)
        ensures
            call_result_views(results@) == recent_tool_calls(self.history(), start_index as int),
    {
        let mut results: Vec<ToolCallResult> = Vec::new();
        let ghost all = self.history();
        let first: usize = if start_index < self.conversation_history.len() {
            start_index
        } else {
            self.conversation_history.len()
        };
        let mut i: usize = first;
        proof {
            assert(call_result_views(results@) =~= Seq::<CallResultView>::empty());
            lemma_no_recent_calls(all.take(first as int), start_index as int);
        }
        while i < self.conversation_history.len()
            invariant
                first <= i <= self.conversation_history.len(),
                first <= start_index,
                start_index < self.conversation_history.len() ==> first == start_index,
                start_index >= self.conversation_history.len() ==> first
                    == self.conversation_history.len(),
                all == self.history(),
                call_result_views(results@) == recent_tool_calls(
                    all.take(i as int),
                    start_index as int,
                ),
            decreases self.conversation_history.len() - i,
        {
            proof {
                assert(all.take(i + 1).drop_last() =~= all.take(i as int));
                assert(all.take(i + 1).last() == self.conversation_history[i as int]@);
            }
            match &self.conversation_history[i].tool_calls {
                Some(calls) => {
                    let ghost before = call_result_views(results@);
                    let mut j: usize = 0;
                    while j < calls.len()
                        invariant
                            j <= calls.len(),
                            call_result_views(results@) == before + recorded_calls(
                                call_views(calls@),
                            ).take(j as int),
                        decreases calls.len() - j,
                    {
                        let arguments = match parse_json(calls[j].function.arguments.as_str()) {
                            Ok(value) => value,
                            Err(_) => JsonValue::Null,
                        };
                        let ghost so_far = call_result_views(results@);
                        let record = ToolCallResult {
                            tool_name: calls[j].function.name.clone(),
                            arguments,
                            result: SIMULATED_RESULT.to_owned(),
                            success: true,
                            duration_ms: 0,
                        };
                        assert(record@ == recorded(calls[j as int]@));
                        results.push(record);
                        proof {
                            let wanted = recorded_calls(call_views(calls@));
                            assert(call_result_views(results@) =~= so_far.push(
                                recorded(calls[j as int]@),
                            ));
                            assert(wanted.take(j + 1) =~= wanted.take(j as int).push(
                                recorded(calls[j as int]@),
                            ));
                            assert(so_far.push(recorded(calls[j as int]@)) =~= before
                                + wanted.take(j + 1));
                        }
                        j = j + 1;
                    }
                    proof {
                        let wanted = recorded_calls(call_views(calls@));
                        assert(wanted.take(calls.len() as int) =~= wanted);
                    }
                },
                None => {
                    assert(call_result_views(results@) + Seq::<CallResultView>::empty()
                        =~= call_result_views(results@));
                },
            }
            i = i + 1;
        }
        assert(all.take(self.conversation_history.len() as int) =~= all);
        results
    }

    /// Whether a response holds code.
    pub fn detect_code_blocks(&self, response: &str) -> (r: bool)
        ensures
            r == has_code(response@),
    {
        contains(response, "```") || contains(response, "function ") || contains(
            response,
            "const ",
        ) || contains(response, "let ") || contains(response, "var ") || contains(
            response,
            "class ",
        ) || contains(response, "impl ") || contains(response, "fn ")
    }

    /// Whether a response speaks of an error.
    pub fn detect_error_patterns(&self, response: &str) -> (r: bool)
        ensures
            r == has_error(response@),
    {
        let lower = to_lowercase(response);
        contains(lower.as_str(), "error") || contains(lower.as_str(), "failed") || contains(
            lower.as_str(),
            "exception",
        ) || contains(lower.as_str(), "panic") || contains(lower.as_str(), "undefined")
            || contains(lower.as_str(), "null reference")
    }

    /// How a response reads.
    pub fn analyze_sentiment(&self, response: &str) -> (sentiment: ResponseSentiment)
        ensures
            sentiment == sentiment_of(response@),
    {
        let lower = to_lowercase(response);
        let lower = lower.as_str();
        if contains(lower, "sorry") || contains(lower, "confused") || contains(lower, "unclear") {
            ResponseSentiment::Confused
        } else if contains(lower, "help") || contains(lower, "assist") || contains(lower, "guide") {
            ResponseSentiment::Helpful
        } else if contains(lower, "success") || contains(lower, "complete") || contains(
            lower,
            "done",
        ) {
            ResponseSentiment::Positive
        } else if contains(lower, "fail") || contains(lower, "error") || contains(lower, "problem") {
            ResponseSentiment::Negative
        } else {
            ResponseSentiment::Neutral
        }
    }

    /// The words of success that stand in a response.
    pub fn extract_success_indicators(&self, response: &str) -> (found: Vec<String>)
        ensures
            views(found@) == present(lowercase(response@), success_words()),
    {
        let mut patterns: Vec<&'static str> = Vec::new();
        patterns.push("successfully");
        patterns.push("completed");
        patterns.push("found");
        patterns.push("executed");
        patterns.push("processed");
        patterns.push("analyzed");
        patterns.push("generated");
        patterns.push("created");
        assert(Seq::new(patterns@.len(), |i: int| patterns@[i]@) =~= success_words());
        find_present(to_lowercase(response).as_str(), &patterns)
    }

    /// The words of failure that stand in a response.
    pub fn extract_failure_indicators(&self, response: &str) -> (found: Vec<String>)
        ensures
            views(found@) == present(lowercase(response@), failure_words()),
    {
        let mut patterns: Vec<&'static str> = Vec::new();
        patterns.push("failed");
        patterns.push("error");
        patterns.push("unable");
        patterns.push("cannot");
        patterns.push("invalid");
        patterns.push("missing");
        patterns.push("not found");
        patterns.push("timeout");
        assert(Seq::new(patterns@.len(), |i: int| patterns@[i]@) =~= failure_words());
        find_present(to_lowercase(response).as_str(), &patterns)
    }

    /// What is found in a response, given the outcome of its evaluation.
    pub fn analyze_response(&self, response: &str, result: &EvaluationResult) -> (analysis:
        ResponseAnalysis)
        ensures
            analysis@ == analysis_of(response@, result.tool_calls_made as nat),
    {
        let found = split_whitespace(response);
        assert(views(found@).len() == found.len());
        ResponseAnalysis {
            contains_tool_calls: result.tool_calls_made > 0,
            contains_code: self.detect_code_blocks(response),
            contains_error: self.detect_error_patterns(response),
            word_count: found.len(),
            sentiment: self.analyze_sentiment(response),
            success_indicators: self.extract_success_indicators(response),
            failure_indicators: self.extract_failure_indicators(response),
        }
    }
}

/// The tool calls of the beginning of a conversation are no more than those
/// of the whole.
pub proof fn lemma_tool_call_count_grows(messages: Seq<MessageView>, upto: int)
    requires
        0 <= upto <= messages.len(),
    ensures
        tool_call_count(messages.take(upto)) <= tool_call_count(messages),
    decreases messages.len() - upto,
{
    if upto == messages.len() {
        assert(messages.take(upto) =~= messages);
    } else {
        assert(messages.drop_last().take(upto) =~= messages.take(upto));
        lemma_tool_call_count_grows(messages.drop_last(), upto);
    }
}

/// Messages before `start` hold no recent tool calls.
pub proof fn lemma_no_recent_calls(messages: Seq<MessageView>, start: int)
    requires
        messages.len() <= start,
    ensures
        recent_tool_calls(messages, start) == Seq::<CallResultView>::empty(),
{
}

/// The message for a tool call whose arguments are no JSON.
pub const ARGUMENTS_UNREADABLE: &'static str = "Failed to parse tool arguments";

/// What is reported to the model of one tool call: what the tool answered,
/// or that it failed. `None` where the arguments of the call are no JSON.
pub open spec fn tool_report(call: ToolCallView) -> Option<Seq<char>> {
    match json_document(call.arguments) {
        Err(_) => None,
        Ok(arguments) => Some(
            match simulated_answer(call.name, arguments) {
                Ok(answer) => "Tool "@ + call.name + ": "@ + answer,
                Err((_, message)) => "Tool "@ + call.name + " failed: "@ + message,
            },
        ),
    }
}

/// What is reported to the model of its tool calls, in order. `None` where
/// the arguments of a call are no JSON.
pub open spec fn tool_reports(calls: Seq<ToolCallView>) -> Option<Seq<Seq<char>>>
    decreases calls.len(),
{
    if calls.len() == 0 {
        Some(Seq::empty())
    } else {
        match (tool_reports(calls.drop_last()), tool_report(calls.last())) {
            (Some(before), Some(report)) => Some(before.push(report)),
            _ => None,
        }
    }
}

/// The messages that hand reports to the model.
pub open spec fn report_messages(reports: Seq<Seq<char>>) -> Seq<MessageView> {
    Seq::new(reports.len(), |i: int| plain_message("tool"@, reports[i]))
}

/// A text that may be absent, or nothing.
pub open spec fn text_or_empty(text: Option<String>) -> Seq<char> {
    match text {
        Some(text) => text@,
        None => Seq::empty(),
    }
}

/// The conversation after the first answer of the model, or `None` where
/// the arguments of a tool call are no JSON. An answer without tool calls is
/// added as it is. An answer with tool calls is added with them, and after
/// it what each tool reported.
pub open spec fn answered_history(history: Seq<MessageView>, answer: OpenAIResponseMessage) -> Option<
    Seq<MessageView>,
> {
    let content = text_or_empty(answer.content);
    match answer.tool_calls {
        None => Some(history.push(plain_message("assistant"@, content))),
        Some(calls) => match tool_reports(call_views(calls@)) {
            None => None,
            Some(reports) => Some(
                history.push(
                    MessageView {
                        role: "assistant"@,
                        content,
                        tool_calls: Some(call_views(calls@)),
                    },
                ) + report_messages(reports),
            ),
        },
    }
}

/// Whether `tools` are the tools of the server, each offered as a function
/// with its name, description and input schema.
pub open spec fn is_offer(tools: Seq<OpenAITool>) -> bool {
    &&& tools.len() == listed_tools().len()
    &&& forall|i: int|
        0 <= i < tools.len() ==> (#[trigger] tools[i]).tool_type@ == "function"@
            && tools[i].function.name@ == listed_tools()[i].name
            && tools[i].function.description@ == listed_tools()[i].description
            && tools[i].function.parameters@ == listed_tools()[i].input_schema
}

impl EvaluationClient {
    /// The tools of the server as they are offered to the model.
    pub fn offered_tools(&self) -> (tools: Vec<OpenAITool>)
        ensures
            is_offer(tools@),
    {
        let known = self.get_available_tools();
        let mut tools: Vec<OpenAITool> = Vec::new();
        let mut i: usize = 0;
        while i < known.len()
            invariant
                i <= known.len(),
                tools.len() == i,
                known@.len() == listed_tools().len(),
                forall|k: int|
                    0 <= k < known@.len() ==> (#[trigger] known@[k]).name@ == listed_tools()[k].name
                        && known@[k].description@ == listed_tools()[k].description
                        && known@[k].input_schema@ == listed_tools()[k].input_schema,
                forall|k: int|
                    0 <= k < i ==> (#[trigger] tools@[k]).tool_type@ == "function"@
                        && tools@[k].function.name@ == listed_tools()[k].name
                        && tools@[k].function.description@ == listed_tools()[k].description
                        && tools@[k].function.parameters@ == listed_tools()[k].input_schema,
            decreases known.len() - i,
        {
            tools.push(
                OpenAITool {
                    tool_type: "function".to_owned(),
                    function: OpenAIToolFunction {
                        name: known[i].name.clone(),
                        description: known[i].description.clone(),
                        parameters: known[i].input_schema.clone(),
                    },
                },
            );
            i = i + 1;
        }
        tools
    }

    /// Adds a message without tool calls to the conversation.
    fn remember(&mut self, role: &str, content: String)
        ensures
            final(self).history() == old(self).history().push(plain_message(role@, content@)),
            final(self).config == old(self).config,
    {
        let ghost before = self.history();
        self.conversation_history.push(
            OpenAIMessage { role: role.to_owned(), content, tool_calls: None },
        );
        assert(self.history() =~= before.push(plain_message(role@, content@)));
    }

    /// Begins a turn of the conversation: adds what the user says and gives
    /// the request to send to the model, which offers it the tools of the
    /// server.
    pub fn begin_chat(&mut self, user_message: &str) -> (request: OpenAIChatRequest)
        ensures
            final(self).history() == old(self).history().push(
                plain_message("user"@, user_message@),
            ),
            final(self).config == old(self).config,
            request.model@ == old(self).config.model_name@,
            message_views(request.messages@) == final(self).history(),
            is_offer(request.tools@),
            request.tool_choice@ == "auto"@,
    {
        self.remember("user", user_message.to_owned());
        OpenAIChatRequest {
            model: self.config.model_name.clone(),
            messages: copy_messages(&self.conversation_history),
            tools: self.offered_tools(),
            tool_choice: "auto".to_owned(),
        }
    }

    /// What is reported to the model of its tool calls.
    pub fn run_tool_calls(&self, calls: &Vec<OpenAIToolCall>) -> (r: Result<Vec<String>, ToolError>)
        ensures
            match r {
                Ok(reports) => tool_reports(call_views(calls@)) == Some(views(reports@)),
                Err(e) => tool_reports(call_views(calls@)) is None && e.kind
                    == ToolErrorKind::InvalidQuery && e.message@ == ARGUMENTS_UNREADABLE@,
            },
    {
        let mut reports: Vec<String> = Vec::new();
        let ghost all = call_views(calls@);
        let mut i: usize = 0;
        assert(all.take(0) =~= Seq::<ToolCallView>::empty());
        assert(views(reports@) =~= Seq::<Seq<char>>::empty());
        while i < calls.len()
            invariant
                i <= calls.len(),
                all == call_views(calls@),
                tool_reports(all.take(i as int)) == Some(views(reports@)),
            decreases calls.len() - i,
        {
            proof {
                assert(all.take(i + 1).drop_last() =~= all.take(i as int));
                assert(all.take(i + 1).last() == calls[i as int]@);
            }
            let name = calls[i].function.name.as_str();
            let arguments = match parse_json(calls[i].function.arguments.as_str()) {
                Ok(arguments) => arguments,
                Err(_) => {
                    proof {
                        lemma_unreadable_call_spoils_reports(all, i as int);
                    }
                    return Err(
                        ToolError::new(ToolErrorKind::InvalidQuery, ARGUMENTS_UNREADABLE.to_owned()),
                    );
                },
            };
            let mut report = "Tool ".to_owned();
            report.append(name);
            match self.call_mcp_tool(name, &arguments) {
                Ok(answer) => {
                    report.append(": ");
                    report.append(answer.as_str());
                },
                Err(e) => {
                    report.append(" failed: ");
                    report.append(e.message.as_str());
                },
            }
            let ghost before = views(reports@);
            let ghost added = report@;
            reports.push(report);
            assert(views(reports@) =~= before.push(added));
            i = i + 1;
        }
        assert(all.take(calls.len() as int) =~= all);
        Ok(reports)
    }

    /// Takes the first answer of the model. Where the model asked for no
    /// tool, the turn is over with its answer. Where it asked for tools,
    /// they are called, and the request that tells the model what they gave
    /// is returned. Fails, and leaves the conversation as it was, where the
    /// arguments of a tool call are no JSON.
    pub fn handle_chat_response(&mut self, response: &OpenAIChatResponse) -> (r: Result<
        ChatStep,
        ToolError,
    >)
        requires
            response.choices@.len() > 0,
        ensures
            final(self).config == old(self).config,
            match answered_history(old(self).history(), response.choices@[0].message) {
                None => r is Err && final(self).history() == old(self).history(),
                Some(history) => final(self).history() == history && (match r {
                    Ok(ChatStep::Done(answer)) => response.choices@[0].message.tool_calls is None
                        && answer@ == text_or_empty(response.choices@[0].message.content),
                    Ok(ChatStep::FollowUp(request)) => response.choices@[0].message.tool_calls
                        is Some && request.model@ == old(self).config.model_name@
                        && message_views(request.messages@) == history && request.tools@.len() == 0
                        && request.tool_choice@ == "none"@,
                    Err(_) => false,
                }),
            },
    {
        let message = &response.choices[0].message;
        let content = match &message.content {
            Some(content) => content.clone(),
            None => String::new(),
        };
        match &message.tool_calls {
            None => {
                self.remember("assistant", content.clone());
                Ok(ChatStep::Done(content))
            },
            Some(calls) => {
                let reports = match self.run_tool_calls(calls) {
                    Ok(reports) => reports,
                    Err(e) => {
                        return Err(e);
                    },
                };
                let ghost before = self.history();
                self.conversation_history.push(
                    OpenAIMessage {
                        role: "assistant".to_owned(),
                        content,
                        tool_calls: Some(copy_calls(calls)),
                    },
                );
                let ghost with_answer = self.history();
                proof {
                    assert(with_answer =~= before.push(
                        MessageView {
                            role: "assistant"@,
                            content: text_or_empty(message.content),
                            tool_calls: Some(call_views(calls@)),
                        },
                    ));
                }
                let mut i: usize = 0;
                while i < reports.len()
                    invariant
                        i <= reports.len(),
                        self.config == old(self).config,
                        self.history() == with_answer + report_messages(views(reports@)).take(
                            i as int,
                        ),
                    decreases reports.len() - i,
                {
                    let ghost so_far = self.history();
                    self.remember("tool", reports[i].clone());
                    proof {
                        let wanted = report_messages(views(reports@));
                        assert(wanted.take(i + 1) =~= wanted.take(i as int).push(
                            plain_message("tool"@, reports[i as int]@),
                        ));
                        assert(so_far.push(plain_message("tool"@, reports[i as int]@))
                            =~= with_answer + wanted.take(i + 1));
                    }
                    i = i + 1;
                }
                proof {
                    let wanted = report_messages(views(reports@));
                    assert(wanted.take(reports.len() as int) =~= wanted);
                }
                Ok(
                    ChatStep::FollowUp(
                        OpenAIChatRequest {
                            model: self.config.model_name.clone(),
                            messages: copy_messages(&self.conversation_history),
                            tools: Vec::new(),
                            tool_choice: "none".to_owned(),
                        },
                    ),
                )
            },
        }
    }

    /// Takes the answer of the model to what the tools gave: the turn is
    /// over with it.
    pub fn finish_chat(&mut self, response: &OpenAIChatResponse) -> (answer: String)
        requires
            response.choices@.len() > 0,
        ensures
            answer@ == text_or_empty(response.choices@[0].message.content),
            final(self).history() == old(self).history().push(
                plain_message("assistant"@, answer@),
            ),
            final(self).config == old(self).config,
    {
        let answer = match &response.choices[0].message.content {
            Some(content) => content.clone(),
            None => String::new(),
        };
        self.remember("assistant", answer.clone());
        answer
    }

    /// The outcome of the evaluation of a prompt, once the model has
    /// answered: `initial_history_len` is how long the conversation was
    /// before the prompt, `duration_ms` how long the answer took, and
    /// `timestamp` the time in seconds since the epoch.
    pub fn evaluation_result(
        &self,
        prompt: &str,
        response: String,
        duration_ms: u64,
        timestamp: u64,
        initial_history_len: usize,
    ) -> (result: EvaluationResult)
        requires
            tool_call_count(self.history()) <= usize::MAX,
        ensures
            result.prompt@ == prompt@,
            result.response@ == response@,
            result.duration_ms == duration_ms,
            result.tool_calls_made == tool_call_count(self.history()),
            result.success,
            result.timestamp == timestamp,
            result.model_name@ == self.config.model_name@,
            call_result_views(result.tool_calls@) == recent_tool_calls(
                self.history(),
                initial_history_len as int,
            ),
            result.conversation_length == self.history().len(),
    {
        EvaluationResult {
            prompt: prompt.to_owned(),
            response,
            duration_ms,
            tool_calls_made: self.count_tool_calls_in_conversation(),
            success: true,
            timestamp,
            model_name: self.config.model_name.clone(),
            tool_calls: self.extract_tool_calls_from_recent_conversation(initial_history_len),
            conversation_length: self.conversation_history.len(),
        }
    }
}

/// Where the arguments of one call are no JSON, nothing is reported of any.
pub proof fn lemma_unreadable_call_spoils_reports(calls: Seq<ToolCallView>, at: int)
    requires
        0 <= at < calls.len(),
        tool_report(calls[at]) is None,
    ensures
        tool_reports(calls) is None,
    decreases calls.len(),
{
    if at < calls.len() - 1 {
        assert(calls.drop_last()[at] == calls[at]);
        lemma_unreadable_call_spoils_reports(calls.drop_last(), at);
    }
}

/// When the evaluation of a prompt counts as a success.
#[derive(Debug, Clone)]
pub enum SuccessCriteria {
    /// The evaluation succeeded and tools were called.
    UsesTools,
    /// The evaluation succeeded, tools were called, and the response holds
    /// this text.
    UsesToolsAndMentions(String),
}

impl SuccessCriteria {
    /// Whether a result meets the criteria.
    pub open spec fn met_by(&self, result: EvaluationResult) -> bool {
        result.success && result.tool_calls_made > 0 && match self {
            SuccessCriteria::UsesTools => true,
            SuccessCriteria::UsesToolsAndMentions(text) => contains_text(result.response@, text@),
        }
    }

    /// Whether a result meets the criteria.
    pub fn is_met(&self, result: &EvaluationResult) -> (r: bool)
        ensures
            r == self.met_by(*result),
    {
        result.success && result.tool_calls_made > 0 && match self {
            SuccessCriteria::UsesTools => true,
            SuccessCriteria::UsesToolsAndMentions(text) => contains(
                result.response.as_str(),
                text.as_str(),
            ),
        }
    }
}

/// A prompt to evaluate, with what is expected of the answer.
#[derive(Debug, Clone)]
pub struct TestCase {
    pub name: String,
    pub prompt: String,
    pub expected_tools: Vec<String>,
    pub success_criteria: SuccessCriteria,
}

/// Prompts to evaluate with one client.
#[derive(Debug)]
pub struct EvaluationSuite {
    client: EvaluationClient,
    test_cases: Vec<TestCase>,
}

impl EvaluationSuite {
    /// The prompts of the suite.
    pub closed spec fn cases(&self) -> Seq<TestCase> {
        self.test_cases@
    }

    /// The configuration of the suite's client.
    pub closed spec fn config(&self) -> EvaluationClientConfig {
        self.client.config
    }

    /// A suite without prompts, whose client has the given configuration.
    pub fn new(config: EvaluationClientConfig) -> (suite: Self)
        ensures
            suite.cases().len() == 0,
            suite.config() == config,
    {
        EvaluationSuite { client: EvaluationClient::new(config), test_cases: Vec::new() }
    }

    /// Adds a prompt to the suite.
    pub fn add_test_case(&mut self, test_case: TestCase)
        ensures
            final(self).cases() == old(self).cases().push(test_case),
            final(self).config() == old(self).config(),
    {
        self.test_cases.push(test_case);
    }

    /// The prompts of the suite.
    pub fn test_cases(&self) -> (cases: &Vec<TestCase>)
        ensures
            cases@ == self.cases(),
    {
        &self.test_cases
    }

    /// The client of the suite, whose conversation is forgotten: each
    /// prompt is evaluated in a conversation of its own.
    pub fn fresh_client(&mut self) -> (client: &mut EvaluationClient)
        ensures
            client.history().len() == 0,
            client.config == old(self).config(),
            final(self).cases() == old(self).cases(),
    {
        self.client.reset_conversation();
        &mut self.client
    }
}

/// A prompt with one expected tool.
fn test_case(name: &str, prompt: &str, tool: &str, success_criteria: SuccessCriteria) -> (case:
    TestCase)
    ensures
        case.name@ == name@,
        case.prompt@ == prompt@,
        case.expected_tools@.len() == 1,
        case.expected_tools@[0]@ == tool@,
        case.success_criteria == success_criteria,
{
    let mut expected_tools: Vec<String> = Vec::new();
    expected_tools.push(tool.to_owned());
    TestCase { name: name.to_owned(), prompt: prompt.to_owned(), expected_tools, success_criteria }
}

/// The prompt of the default search case.
pub const SEARCH_PROMPT: &'static str =
    "Search for all function declarations in this JavaScript code: function hello() { return 'world'; }";

/// The prompt of the default scope case.
pub const SCOPE_PROMPT: &'static str =
    "Find the containing scope around line 1, column 10 in this code: function test() { const x = 1; return x; }";

/// The prompt of the default refactoring case.
pub const REFACTORING_PROMPT: &'static str =
    "Replace all console.log statements with logger.info in this code: console.log('hello'); console.log('world');";

/// Whether `case` has the given name and prompt and expects the one tool.
pub open spec fn is_case(case: TestCase, name: Seq<char>, prompt: Seq<char>, tool: Seq<char>) -> bool {
    &&& case.name@ == name
    &&& case.prompt@ == prompt
    &&& case.expected_tools@.len() == 1
    &&& case.expected_tools@[0]@ == tool
}

/// The prompts that are evaluated where none are given: a search, a scope
/// and a refactoring.
pub fn create_default_test_cases() -> (cases: Vec<TestCase>)
    ensures
        cases@.len() == 3,
        is_case(cases@[0], "Basic AST search"@, SEARCH_PROMPT@, "execute_rule"@),
        cases@[0].success_criteria matches SuccessCriteria::UsesToolsAndMentions(text) && text@
            == "function"@,
        is_case(cases@[1], "Scope finding"@, SCOPE_PROMPT@, "find_scope"@),
        cases@[1].success_criteria is UsesTools,
        is_case(cases@[2], "Code refactoring"@, REFACTORING_PROMPT@, "execute_rule"@),
        cases@[2].success_criteria matches SuccessCriteria::UsesToolsAndMentions(text) && text@
            == "logger.info"@,
{
    let mut cases: Vec<TestCase> = Vec::new();
    cases.push(
        test_case(
            "Basic AST search",
            SEARCH_PROMPT,
            "execute_rule",
            SuccessCriteria::UsesToolsAndMentions("function".to_owned()),
        ),
    );
    cases.push(
        test_case(
            "Scope finding",
            SCOPE_PROMPT,
            "find_scope",
            SuccessCriteria::UsesTools,
        ),
    );
    cases.push(
        test_case(
            "Code refactoring",
            REFACTORING_PROMPT,
            "execute_rule",
            SuccessCriteria::UsesToolsAndMentions("logger.info".to_owned()),
        ),
    );
    cases
}

} // verus!
