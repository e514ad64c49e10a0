//! The messages that a chat session exchanges with a model and its tools.

use crate::extract::{lemma_texts_push, texts};
use crate::json::{Json, JsonV};
use crate::json_text::{json_of_text, parse_json};
use crate::text::{
    chars_of, chars_start_with, has_prefix, join, joined, pieces, split, text_of, trim, trim_chars,
    trimmed,
};
use vstd::prelude::*;

verus! {

/// One message of a conversation.
#[derive(Debug, Clone)]
pub struct Message {
    pub role: String,
    pub content: String,
}

impl Message {
    /// A message in the role `system`.
    pub fn system(content: &str) -> (r: Message)
        ensures
            r.role@ == "system"@,
            r.content@ == content@,
    {
        Message { role: "system".to_string(), content: content.to_string() }
    }

    /// A message in the role `user`.
    pub fn user(content: &str) -> (r: Message)
        ensures
            r.role@ == "user"@,
            r.content@ == content@,
    {
        Message { role: "user".to_string(), content: content.to_string() }
    }

    /// A message in the role `assistant`.
    pub fn assistant(content: &str) -> (r: Message)
        ensures
            r.role@ == "assistant"@,
            r.content@ == content@,
    {
        Message { role: "assistant".to_string(), content: content.to_string() }
    }
}

/// The mathematical value of a [`Message`].
pub ghost struct MessageV {
    pub role: Seq<char>,
    pub content: Seq<char>,
}

impl View for Message {
    type V = MessageV;

    open spec fn view(&self) -> MessageV {
        MessageV { role: self.role@, content: self.content@ }
    }
}

/// The values of a list of messages.
pub open spec fn messages_view(messages: Seq<Message>) -> Seq<MessageV> {
    Seq::new(messages.len(), |i: int| messages[i]@)
}

/// One alternative of a completion.
#[derive(Debug)]
pub struct Choice {
    pub index: u32,
    pub message: Message,
    pub finish_reason: String,
}

/// What a model answers to a completion request.
#[derive(Debug)]
pub struct CompletionResponse {
    pub id: String,
    pub object: String,
    pub created: u64,
    pub model: String,
    pub choices: Vec<Choice>,
}

/// A piece of a tool's result, with its media type.
#[derive(Debug)]
pub struct Content {
    pub content_type: String,
    pub body: String,
}

impl Content {
    /// Plain text.
    pub fn text(content: &str) -> (r: Content)
        ensures
            r.content_type@ == "text/plain"@,
            r.body@ == content@,
    {
        Content { content_type: "text/plain".to_string(), body: content.to_string() }
    }

    /// A serialized JSON document.
    pub fn json(body: String) -> (r: Content)
        ensures
            r.content_type@ == "application/json"@,
            r.body@ == body@,
    {
        Content { content_type: "application/json".to_string(), body }
    }
}

/// The outcome of a tool call.
#[derive(Debug)]
pub struct ToolResult {
    pub success: bool,
    pub contents: Vec<Content>,
}

/// The failure of a tool call that could not be reported as a result.
#[derive(Debug)]
pub struct McpError {
    pub message: String,
}

/// Outcomes that can be reported as a tool result.
pub trait IntoCallToolResult: Sized {
    /// Whether the outcome is a success.
    spec fn succeeded(self) -> bool;

    /// The serialized JSON document that the outcome carries.
    spec fn payload(self) -> Seq<char>;

    /// Reports the outcome: always a result, with one JSON content that
    /// holds the payload, marked as success or failure.
    fn into_call_tool_result(self) -> (r: Result<ToolResult, McpError>)
        ensures
            r is Ok,
            r->Ok_0.success == self.succeeded(),
            r->Ok_0.contents@.len() == 1,
            r->Ok_0.contents@[0].content_type@ == "application/json"@,
            r->Ok_0.contents@[0].body@ == self.payload(),
    ;
}

/// An outcome whose response or error has been serialized.
impl IntoCallToolResult for Result<String, String> {
    open spec fn succeeded(self) -> bool {
        self is Ok
    }

    open spec fn payload(self) -> Seq<char> {
        match self {
            Ok(response) => response@,
            Err(error) => error@,
        }
    }

    fn into_call_tool_result(self) -> (r: Result<ToolResult, McpError>) {
        match self {
            Ok(response) => {
                let mut contents: Vec<Content> = Vec::new();
                contents.push(Content::json(response));
                Ok(ToolResult { success: true, contents })
            },
            Err(error) => {
                let mut contents: Vec<Content> = Vec::new();
                contents.push(Content::json(error));
                Ok(ToolResult { success: false, contents })
            },
        }
    }
}

/// A tool as it is offered to the model.
#[derive(Debug)]
pub struct Tool {
    pub name: String,
    pub description: String,
    pub parameters: Json,
}

/// A call of a tool that the model asks for.
#[derive(Debug)]
pub struct ToolCall {
    pub name: String,
    pub arguments: Json,
}

/// The tools that a request offers: none where the list is empty.
pub fn tool_definitions(tools: Vec<Tool>) -> (r: Option<Vec<Tool>>)
    ensures
        r == if tools@.len() > 0 {
            Some(tools)
        } else {
            None
        },
{
    if tools.len() > 0 {
        Some(tools)
    } else {
        None
    }
}

/// What has been read of a tool call, line by line.
pub ghost struct ToolCallScan {
    pub tool_name: Option<Seq<char>>,
    pub arguments: Seq<Seq<char>>,
    pub reading_arguments: bool,
}

/// Reads one line of a message. A line that begins with `Tool:` names the
/// tool, by what follows without the white space at its ends, and ends the
/// arguments. A line that begins with `Inputs:` begins the arguments; what
/// follows on that line is not read. Any other line is an argument line
/// while the arguments are read, without the white space at its ends.
pub open spec fn scan_line(state: ToolCallScan, line: Seq<char>) -> ToolCallScan {
    if has_prefix(line, "Tool:"@) {
        ToolCallScan {
            tool_name: Some(trimmed(line.subrange("Tool:"@.len() as int, line.len() as int))),
            reading_arguments: false,
            ..state
        }
    } else if has_prefix(line, "Inputs:"@) {
        ToolCallScan { reading_arguments: true, ..state }
    } else if state.reading_arguments {
        ToolCallScan { arguments: state.arguments.push(trimmed(line)), ..state }
    } else {
        state
    }
}

/// Reads the lines of a message in order.
pub open spec fn scan_lines(lines: Seq<Seq<char>>) -> ToolCallScan
    decreases lines.len(),
{
    if lines.len() == 0 {
        ToolCallScan { tool_name: None, arguments: Seq::empty(), reading_arguments: false }
    } else {
        scan_line(scan_lines(lines.drop_last()), lines.last())
    }
}

/// The tool call that a message asks for: the tool that its last `Tool:`
/// line names, and its argument lines joined by line feeds. There is none
/// where no line names a tool.
pub open spec fn tool_request_of(content: Seq<char>) -> Option<(Seq<char>, Seq<char>)> {
    let scan = scan_lines(pieces(content, '\n'));
    match scan.tool_name {
        Some(name) => Some((name, joined(scan.arguments, seq!['\n']))),
        None => None,
    }
}

/// A tool call as a message asks for it: the name of the tool, and the
/// text of its arguments.
#[derive(Debug)]
pub struct ToolRequest {
    pub name: String,
    pub arguments_text: String,
}

/// Reads the tool call that a message asks for.
pub fn parse_tool_request(content: &str) -> (r: Option<ToolRequest>)
    ensures
        match r {
            Some(request) => tool_request_of(content@) == Some(
                (request.name@, request.arguments_text@),
            ),
            None => tool_request_of(content@) is None,
        },
{
    let lines = split(content, '\n');
    let tool_marker = chars_of("Tool:");
    let inputs_marker = chars_of("Inputs:");
    let mut tool_name: Option<String> = None;
    let mut arguments: Vec<String> = Vec::new();
    let mut reading_arguments = false;
    let mut i: usize = 0;
    assert(texts(lines@).subrange(0, 0) =~= Seq::<Seq<char>>::empty());
    assert(texts(arguments@) =~= Seq::<Seq<char>>::empty());
    while i < lines.len()
        invariant
            i <= lines.len(),
            tool_marker@ == "Tool:"@,
            inputs_marker@ == "Inputs:"@,
            scan_lines(texts(lines@).subrange(0, i as int)) == (ToolCallScan {
                tool_name: match tool_name {
                    Some(name) => Some(name@),
                    None => None,
                },
                arguments: texts(arguments@),
                reading_arguments,
            }),
        decreases lines.len() - i,
    {
        let chars = chars_of(lines[i].as_str());
        proof {
            let upto = texts(lines@).subrange(0, i as int + 1);
            assert(upto.drop_last() =~= texts(lines@).subrange(0, i as int));
            assert(upto.last() == lines@[i as int]@);
        }
        if chars_start_with(&chars, &tool_marker) {
            let rest = text_of(&chars, tool_marker.len(), chars.len());
            tool_name = Some(trim(rest.as_str()));
            reading_arguments = false;
        } else if chars_start_with(&chars, &inputs_marker) {
            reading_arguments = true;
        } else if reading_arguments {
            let line = trim_chars(&chars);
            proof {
                lemma_texts_push(arguments@, line);
            }
            arguments.push(line);
        }
        i = i + 1;
    }
    assert(texts(lines@).subrange(0, i as int) =~= texts(lines@));
    match tool_name {
        Some(name) => {
            proof {
                reveal_strlit("\n");
                assert("\n"@ =~= seq!['\n']);
            }
            Some(ToolRequest { name, arguments_text: join(&arguments, "\n") })
        },
        None => None,
    }
}

/// The arguments that a text gives: the document that it holds, or the
/// text itself as a string where it is not JSON.
pub fn tool_arguments(arguments_text: String) -> (r: Json)
    ensures
        r@ == match json_of_text(arguments_text@) {
            Some(document) => document,
            None => JsonV::Str(arguments_text@),
        },
{
    match parse_json(arguments_text.as_str()) {
        Some(document) => document,
        None => Json::Str(arguments_text),
    }
}

/// The arguments that are handed to a tool: the document where it is an
/// object, else none.
pub fn call_arguments(arguments: Json) -> (r: Option<Json>)
    ensures
        r == if arguments@ is Object {
            Some(arguments)
        } else {
            None
        },
{
    if arguments.is_object() {
        Some(arguments)
    } else {
        None
    }
}

/// What a session does once it has read a line of input.
#[derive(Debug, Clone, Copy, PartialEq, Eq, Structural)]
pub enum InputAction {
    /// The line is empty: ask for the next one.
    Skip,
    /// The line asks to leave.
    Quit,
    /// The line was added to the conversation: ask the model to go on.
    Complete,
}

/// A conversation with a model.
#[derive(Debug)]
pub struct ChatSession {
    pub model: String,
    pub messages: Vec<Message>,
}

impl ChatSession {
    /// A session with the model `model` and no message yet.
    pub fn new(model: String) -> (r: ChatSession)
        ensures
            r.model == model,
            r.messages@.len() == 0,
    {
        ChatSession { model, messages: Vec::new() }
    }

    /// Adds a message in the role `system`.
    pub fn add_system_prompt(&mut self, prompt: &str)
        ensures
            final(self).model == old(self).model,
            messages_view(final(self).messages@) == messages_view(old(self).messages@).push(
                MessageV { role: "system"@, content: prompt@ },
            ),
    {
        let message = Message::system(prompt);
        assert(messages_view(self.messages@.push(message)) =~= messages_view(
            self.messages@,
        ).push(message@));
        self.messages.push(message);
    }

    /// Takes a line of input. The line is read without the white space at
    /// its ends. An empty line changes nothing, and so does `exit`, which
    /// asks to leave; any other line is added as a message in the role
    /// `user`.
    pub fn accept_input(&mut self, line: &str) -> (r: InputAction)
        ensures
            final(self).model == old(self).model,
            r == if trimmed(line@).len() == 0 {
                InputAction::Skip
            } else if trimmed(line@) == "exit"@ {
                InputAction::Quit
            } else {
                InputAction::Complete
            },
            messages_view(final(self).messages@) == if r == InputAction::Complete {
                messages_view(old(self).messages@).push(
                    MessageV { role: "user"@, content: trimmed(line@) },
                )
            } else {
                messages_view(old(self).messages@)
            },
    {
        let input = trim(line);
        if input.as_str().is_empty() {
            InputAction::Skip
        } else if input == "exit".to_string() {
            InputAction::Quit
        } else {
            let message = Message::user(input.as_str());
            assert(messages_view(self.messages@.push(message)) =~= messages_view(
                self.messages@,
            ).push(message@));
            self.messages.push(message);
            InputAction::Complete
        }
    }

    /// Takes the answer of the model: adds it to the conversation, and
    /// reads the tool call that it asks for.
    pub fn accept_completion(&mut self, message: Message) -> (r: Option<ToolRequest>)
        ensures
            final(self).model == old(self).model,
            messages_view(final(self).messages@) == messages_view(old(self).messages@).push(
                message@,
            ),
            match r {
                Some(request) => tool_request_of(message.content@) == Some(
                    (request.name@, request.arguments_text@),
                ),
                None => tool_request_of(message.content@) is None,
            },
    {
        let request = parse_tool_request(message.content.as_str());
        assert(messages_view(self.messages@.push(message)) =~= messages_view(
            self.messages@,
        ).push(message@));
        self.messages.push(message);
        request
    }

    /// Takes the result of a tool call: adds it as a message in the role
    /// `user`, a failure with a note that the call failed.
    pub fn accept_tool_result(&mut self, result: Result<String, String>)
        ensures
            final(self).model == old(self).model,
            messages_view(final(self).messages@) == messages_view(old(self).messages@).push(
                MessageV {
                    role: "user"@,
                    content: match result {
                        Ok(text) => text@,
                        Err(error) => "工具调用失败: "@ + error@,
                    },
                },
            ),
    {
        let message = match result {
            Ok(text) => Message::user(text.as_str()),
            Err(error) => Message::user(
                "工具调用失败: ".to_string().concat(error.as_str()).as_str(),
            ),
        };
        assert(messages_view(self.messages@.push(message)) =~= messages_view(
            self.messages@,
        ).push(message@));
        self.messages.push(message);
    }
}

/// What the system prompt says of a tool: its name, its description, and
/// the text of the schema of its parameters.
#[derive(Debug)]
pub struct ToolSummary {
    pub name: String,
    pub description: String,
    pub parameters: String,
}

/// The mathematical value of a [`ToolSummary`].
pub ghost struct ToolSummaryV {
    pub name: Seq<char>,
    pub description: Seq<char>,
    pub parameters: Seq<char>,
}

impl View for ToolSummary {
    type V = ToolSummaryV;

    open spec fn view(&self) -> ToolSummaryV {
        ToolSummaryV {
            name: self.name@,
            description: self.description@,
            parameters: self.parameters@,
        }
    }
}

/// The values of a list of tool summaries.
pub open spec fn summaries_view(tools: Seq<ToolSummary>) -> Seq<ToolSummaryV> {
    Seq::new(tools.len(), |i: int| tools[i]@)
}

/// The paragraph of the system prompt that presents one tool.
pub open spec fn tool_paragraph(tool: ToolSummaryV) -> Seq<char> {
    "\n工具名称: "@ + tool.name + "\n描述: "@ + tool.description + "\n参数格式: "@
        + tool.parameters + "\n"@
}

/// The paragraphs of the system prompt that present the tools, in order.
pub open spec fn tool_paragraphs(tools: Seq<ToolSummaryV>) -> Seq<char>
    decreases tools.len(),
{
    if tools.len() == 0 {
        Seq::empty()
    } else {
        tool_paragraphs(tools.drop_last()) + tool_paragraph(tools.last())
    }
}

/// The system prompt of a session: an introduction, a paragraph for each
/// tool, and the form in which a tool is to be called.
pub open spec fn system_prompt_text(tools: Seq<ToolSummaryV>) -> Seq<char> {
    "你是一个助手，可以帮助用户完成各种任务。你有以下工具可以使用：\n"@ + tool_paragraphs(tools)
        + "\n如果需要调用工具，请使用以下格式：\nTool: <工具名>\nInputs: <输入参数>\n"@
}

/// Writes the system prompt of a session that offers the tools `tools`.
pub fn system_prompt(tools: &Vec<ToolSummary>) -> (r: String)
    ensures
        r@ == system_prompt_text(summaries_view(tools@)),
{
    let mut prompt =
        "你是一个助手，可以帮助用户完成各种任务。你有以下工具可以使用：\n".to_string();
    let ghost header = prompt@;
    let mut i: usize = 0;
    assert(summaries_view(tools@).subrange(0, 0) =~= Seq::<ToolSummaryV>::empty());
    assert(prompt@ =~= header + tool_paragraphs(summaries_view(tools@).subrange(0, 0)));
    while i < tools.len()
        invariant
            i <= tools.len(),
            prompt@ == header + tool_paragraphs(summaries_view(tools@).subrange(0, i as int)),
        decreases tools.len() - i,
    {
        proof {
            let upto = summaries_view(tools@).subrange(0, i as int + 1);
            assert(upto.drop_last() =~= summaries_view(tools@).subrange(0, i as int));
            assert(upto.last() == tools@[i as int]@);
        }
        let ghost before = prompt@;
        prompt.append("\n工具名称: ");
        prompt.append(tools[i].name.as_str());
        prompt.append("\n描述: ");
        prompt.append(tools[i].description.as_str());
        prompt.append("\n参数格式: ");
        prompt.append(tools[i].parameters.as_str());
        prompt.append("\n");
        assert(prompt@ =~= before + tool_paragraph(tools@[i as int]@));
        assert(prompt@ =~= header + tool_paragraphs(
            summaries_view(tools@).subrange(0, i as int + 1),
        ));
        i = i + 1;
    }
    assert(summaries_view(tools@).subrange(0, i as int) =~= summaries_view(tools@));
    prompt.append("\n如果需要调用工具，请使用以下格式：\nTool: <工具名>\nInputs: <输入参数>\n");
    prompt
}

/// The texts under which a tool is found by what it does: its
/// description, its name, and its capability.
pub fn embedding_docs(name: &str, description: &str) -> (r: Vec<String>)
    ensures
        texts(r@) == seq![
            description@,
            "Tool name: "@ + name@,
            "Tool capability: "@ + description@,
        ],
{
    let mut docs: Vec<String> = Vec::new();
    docs.push(description.to_string());
    docs.push("Tool name: ".to_string().concat(name));
    docs.push("Tool capability: ".to_string().concat(description));
    assert(texts(docs@) =~= seq![
        description@,
        "Tool name: "@ + name@,
        "Tool capability: "@ + description@,
    ]);
    docs
}

/// The settings of a client of the completion service.
#[derive(Debug)]
pub struct OpenAIClient {
    pub api_key: String,
    pub base_url: String,
}

impl OpenAIClient {
    /// A client of the public service.
    pub fn new(api_key: String) -> (r: OpenAIClient)
        ensures
            r.api_key == api_key,
            r.base_url@ == "https://api.openai.com/v1/chat/completions"@,
    {
        OpenAIClient {
            api_key,
            base_url: "https://api.openai.com/v1/chat/completions".to_string(),
        }
    }

    /// The client with another address of the service.
    pub fn with_base_url(self, base_url: String) -> (r: OpenAIClient)
        ensures
            r.api_key == self.api_key,
            r.base_url == base_url,
    {
        OpenAIClient { api_key: self.api_key, base_url }
    }

    /// The value of the authorization header.
    pub fn authorization(&self) -> (r: String)
        ensures
            r@ == "Bearer "@ + self.api_key@,
    {
        "Bearer ".to_string().concat(self.api_key.as_str())
    }
}

/// The error that reports what the service answered in place of a
/// completion.
pub fn api_error(error_text: &str) -> (r: String)
    ensures
        r@ == "API Error: "@ + error_text@,
{
    "API Error: ".to_string().concat(error_text)
}

} // verus!
