//! What is exchanged with a model: inputs, tools, events and the state of a conversation.

use vstd::prelude::*;
use vstd::string::*;

use crate::json::{Json, JsonView};
use crate::model::{duplicate_all, duplicate_option, option_view, views, Duplicate};
use crate::profile::ReasoningLevel;

verus! {

#[derive(Clone, Copy, Debug, PartialEq, Eq, Structural)]
pub enum ModelMessageRole {
    User,
    Assistant,
}

/// One item of the input of a model.
#[derive(Debug, PartialEq, Eq)]
pub enum ModelInputItem {
    Message { role: ModelMessageRole, content: String },
    ToolCall { call_id: String, name: String, arguments: Json },
    ToolResult { call_id: String, output: Json },
}

pub enum InputView {
    Message { role: ModelMessageRole, content: Seq<char> },
    ToolCall { call_id: Seq<char>, name: Seq<char>, arguments: JsonView },
    ToolResult { call_id: Seq<char>, output: JsonView },
}

impl View for ModelInputItem {
    type V = InputView;

    open spec fn view(&self) -> InputView {
        match *self {
            ModelInputItem::Message { role, content } => InputView::Message {
                role,
                content: content@,
            },
            ModelInputItem::ToolCall { call_id, name, arguments } => InputView::ToolCall {
                call_id: call_id@,
                name: name@,
                arguments: arguments@,
            },
            ModelInputItem::ToolResult { call_id, output } => InputView::ToolResult {
                call_id: call_id@,
                output: output@,
            },
        }
    }
}

impl Duplicate for ModelInputItem {
    fn duplicate(&self) -> (r: Self) {
        match self {
            ModelInputItem::Message { role, content } => ModelInputItem::Message {
                role: *role,
                content: content.clone(),
            },
            ModelInputItem::ToolCall { call_id, name, arguments } => ModelInputItem::ToolCall {
                call_id: call_id.clone(),
                name: name.clone(),
                arguments: arguments.copy(),
            },
            ModelInputItem::ToolResult { call_id, output } => ModelInputItem::ToolResult {
                call_id: call_id.clone(),
                output: output.copy(),
            },
        }
    }
}

pub open spec fn user_message(content: Seq<char>) -> InputView {
    InputView::Message { role: ModelMessageRole::User, content }
}

/// A tool that a model may call.
#[derive(Debug, PartialEq, Eq)]
pub struct ToolDefinition {
    pub name: String,
    pub description: String,
    pub input_schema: Json,
    pub strict: bool,
}

pub struct ToolView {
    pub name: Seq<char>,
    pub description: Seq<char>,
    pub input_schema: JsonView,
    pub strict: bool,
}

impl View for ToolDefinition {
    type V = ToolView;

    open spec fn view(&self) -> ToolView {
        ToolView {
            name: self.name@,
            description: self.description@,
            input_schema: self.input_schema@,
            strict: self.strict,
        }
    }
}

impl Duplicate for ToolDefinition {
    fn duplicate(&self) -> (r: Self) {
        ToolDefinition {
            name: self.name.clone(),
            description: self.description.clone(),
            input_schema: self.input_schema.copy(),
            strict: self.strict,
        }
    }
}

/// A call that a model asked for.
#[derive(Debug, PartialEq, Eq)]
pub struct AgentToolCall {
    pub call_id: String,
    pub name: String,
    pub arguments: Json,
}

pub struct CallView {
    pub call_id: Seq<char>,
    pub name: Seq<char>,
    pub arguments: JsonView,
}

impl View for AgentToolCall {
    type V = CallView;

    open spec fn view(&self) -> CallView {
        CallView { call_id: self.call_id@, name: self.name@, arguments: self.arguments@ }
    }
}

impl Duplicate for AgentToolCall {
    fn duplicate(&self) -> (r: Self) {
        AgentToolCall {
            call_id: self.call_id.clone(),
            name: self.name.clone(),
            arguments: self.arguments.copy(),
        }
    }
}

/// The tokens that a model used.
#[derive(Clone, Copy, Debug, PartialEq, Eq, Structural)]
pub struct ModelUsage {
    pub input_tokens: u64,
    pub cached_input_tokens: u64,
    pub cache_write_tokens: u64,
    pub output_tokens: u64,
    pub reasoning_tokens: u64,
    pub total_tokens: u64,
}

/// What a model stream delivers, or the error in its place.
#[derive(Debug, PartialEq, Eq)]
pub enum ModelEvent {
    Started { response_id: String },
    TextDelta { delta: String },
    ReasoningSummaryDelta { delta: String },
    ToolCall { call: AgentToolCall },
    Usage { usage: ModelUsage },
    Completed,
    Incomplete { reason: Option<String> },
    Failed { code: String, message: String },
}

pub enum ModelEventView {
    Started { response_id: Seq<char> },
    TextDelta { delta: Seq<char> },
    ReasoningSummaryDelta { delta: Seq<char> },
    ToolCall { call: CallView },
    Usage { usage: ModelUsage },
    Completed,
    Incomplete { reason: Option<Seq<char>> },
    Failed { code: Seq<char>, message: Seq<char> },
}

impl View for ModelEvent {
    type V = ModelEventView;

    open spec fn view(&self) -> ModelEventView {
        match *self {
            ModelEvent::Started { response_id } => ModelEventView::Started {
                response_id: response_id@,
            },
            ModelEvent::TextDelta { delta } => ModelEventView::TextDelta { delta: delta@ },
            ModelEvent::ReasoningSummaryDelta { delta } => ModelEventView::ReasoningSummaryDelta {
                delta: delta@,
            },
            ModelEvent::ToolCall { call } => ModelEventView::ToolCall { call: call@ },
            ModelEvent::Usage { usage } => ModelEventView::Usage { usage },
            ModelEvent::Completed => ModelEventView::Completed,
            ModelEvent::Incomplete { reason } => ModelEventView::Incomplete {
                reason: option_view(reason),
            },
            ModelEvent::Failed { code, message } => ModelEventView::Failed {
                code: code@,
                message: message@,
            },
        }
    }
}

/// What a run has used so far.
#[derive(Clone, Copy, Debug, PartialEq, Eq, Structural)]
pub struct AgentExecutionMetrics {
    pub turns: u32,
    pub input_tokens: u64,
    pub output_tokens: u64,
    pub reasoning_tokens: u64,
    pub cached_input_tokens: u64,
    pub tool_calls: u64,
    pub elapsed_millis: u64,
}

pub open spec fn no_metrics() -> AgentExecutionMetrics {
    AgentExecutionMetrics {
        turns: 0,
        input_tokens: 0,
        output_tokens: 0,
        reasoning_tokens: 0,
        cached_input_tokens: 0,
        tool_calls: 0,
        elapsed_millis: 0,
    }
}

impl Default for AgentExecutionMetrics {
    fn default() -> (r: Self)
        ensures
            r == no_metrics(),
    {
        AgentExecutionMetrics {
            turns: 0,
            input_tokens: 0,
            output_tokens: 0,
            reasoning_tokens: 0,
            cached_input_tokens: 0,
            tool_calls: 0,
            elapsed_millis: 0,
        }
    }
}

/// The state of a conversation with a model between two turns.
#[derive(Debug, PartialEq, Eq)]
pub struct AgentModelContinuation {
    pub instructions: String,
    pub transcript: Vec<ModelInputItem>,
    pub next_input: Vec<ModelInputItem>,
    pub tools: Vec<ToolDefinition>,
    pub previous_response_id: Option<String>,
    pub output: String,
    pub next_turn: u8,
    pub max_turns: u8,
    pub conversation_continuation: bool,
    pub metrics: AgentExecutionMetrics,
    pub changed_files: Vec<String>,
}

pub struct ContinuationView {
    pub instructions: Seq<char>,
    pub transcript: Seq<InputView>,
    pub next_input: Seq<InputView>,
    pub tools: Seq<ToolView>,
    pub previous_response_id: Option<Seq<char>>,
    pub output: Seq<char>,
    pub next_turn: u8,
    pub max_turns: u8,
    pub conversation_continuation: bool,
    pub metrics: AgentExecutionMetrics,
    pub changed_files: Seq<Seq<char>>,
}

impl View for AgentModelContinuation {
    type V = ContinuationView;

    open spec fn view(&self) -> ContinuationView {
        ContinuationView {
            instructions: self.instructions@,
            transcript: views(self.transcript@),
            next_input: views(self.next_input@),
            tools: views(self.tools@),
            previous_response_id: option_view(self.previous_response_id),
            output: self.output@,
            next_turn: self.next_turn,
            max_turns: self.max_turns,
            conversation_continuation: self.conversation_continuation,
            metrics: self.metrics,
            changed_files: views(self.changed_files@),
        }
    }
}

impl Duplicate for AgentModelContinuation {
    fn duplicate(&self) -> (r: Self) {
        AgentModelContinuation {
            instructions: self.instructions.clone(),
            transcript: duplicate_all(&self.transcript),
            next_input: duplicate_all(&self.next_input),
            tools: duplicate_all(&self.tools),
            previous_response_id: duplicate_option(&self.previous_response_id),
            output: self.output.clone(),
            next_turn: self.next_turn,
            max_turns: self.max_turns,
            conversation_continuation: self.conversation_continuation,
            metrics: self.metrics,
            changed_files: duplicate_all(&self.changed_files),
        }
    }
}

/// A turn that ended with tool calls, and what it takes to go on after them.
#[derive(Debug, PartialEq, Eq)]
pub struct AgentModelToolYield {
    pub continuation: AgentModelContinuation,
    pub response_id: Option<String>,
    pub calls: Vec<AgentToolCall>,
}

pub struct YieldView {
    pub continuation: ContinuationView,
    pub response_id: Option<Seq<char>>,
    pub calls: Seq<CallView>,
}

impl View for AgentModelToolYield {
    type V = YieldView;

    open spec fn view(&self) -> YieldView {
        YieldView {
            continuation: self.continuation@,
            response_id: option_view(self.response_id),
            calls: views(self.calls@),
        }
    }
}

impl Duplicate for AgentModelToolYield {
    fn duplicate(&self) -> (r: Self) {
        AgentModelToolYield {
            continuation: self.continuation.duplicate(),
            response_id: duplicate_option(&self.response_id),
            calls: duplicate_all(&self.calls),
        }
    }
}

/// What is known of the model that is selected.
#[derive(Debug, PartialEq, Eq)]
pub struct ModelSelection {
    pub provider_id: String,
    pub model_id: String,
    pub reasoning_requested: ReasoningLevel,
    pub max_output_tokens: u32,
    pub conversation_continuation: bool,
}

pub struct SelectionView {
    pub provider_id: Seq<char>,
    pub model_id: Seq<char>,
    pub reasoning_requested: ReasoningLevel,
    pub max_output_tokens: u32,
    pub conversation_continuation: bool,
}

impl View for ModelSelection {
    type V = SelectionView;

    open spec fn view(&self) -> SelectionView {
        SelectionView {
            provider_id: self.provider_id@,
            model_id: self.model_id@,
            reasoning_requested: self.reasoning_requested,
            max_output_tokens: self.max_output_tokens,
            conversation_continuation: self.conversation_continuation,
        }
    }
}

impl Duplicate for ModelSelection {
    fn duplicate(&self) -> (r: Self) {
        ModelSelection {
            provider_id: self.provider_id.clone(),
            model_id: self.model_id.clone(),
            reasoning_requested: self.reasoning_requested,
            max_output_tokens: self.max_output_tokens,
            conversation_continuation: self.conversation_continuation,
        }
    }
}

/// The form in which a model answers.
#[derive(Clone, Copy, Debug, PartialEq, Eq, Structural)]
pub enum ResponseFormat {
    Text,
}

/// What is sent to a model.
#[derive(Debug, PartialEq, Eq)]
pub struct ModelRequest {
    pub model_id: String,
    pub instructions: String,
    pub input: Vec<ModelInputItem>,
    pub tools: Vec<ToolDefinition>,
    pub reasoning: ReasoningLevel,
    pub response_format: ResponseFormat,
    pub max_output_tokens: u32,
    pub previous_response_id: Option<String>,
    pub store: bool,
    pub timeout_millis: u64,
}

pub struct ModelRequestView {
    pub model_id: Seq<char>,
    pub instructions: Seq<char>,
    pub input: Seq<InputView>,
    pub tools: Seq<ToolView>,
    pub reasoning: ReasoningLevel,
    pub response_format: ResponseFormat,
    pub max_output_tokens: u32,
    pub previous_response_id: Option<Seq<char>>,
    pub store: bool,
    pub timeout_millis: u64,
}

impl View for ModelRequest {
    type V = ModelRequestView;

    open spec fn view(&self) -> ModelRequestView {
        ModelRequestView {
            model_id: self.model_id@,
            instructions: self.instructions@,
            input: views(self.input@),
            tools: views(self.tools@),
            reasoning: self.reasoning,
            response_format: self.response_format,
            max_output_tokens: self.max_output_tokens,
            previous_response_id: option_view(self.previous_response_id),
            store: self.store,
            timeout_millis: self.timeout_millis,
        }
    }
}

/// What steering looks like to a model.
pub open spec fn steering_message(instruction: Seq<char>) -> InputView {
    user_message("[Steering]\n"@ + instruction)
}

pub fn steering_input(instruction: &str) -> (r: ModelInputItem)
    ensures
        r@ == steering_message(instruction@),
{
    let mut content: String = "[Steering]\n".to_string();
    content.append(instruction);
    ModelInputItem::Message { role: ModelMessageRole::User, content }
}

pub open spec fn smaller(a: u32, b: u32) -> u32 {
    if a < b {
        a
    } else {
        b
    }
}

} // verus!
