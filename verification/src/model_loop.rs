//! The conversation of the main agent with a model: turns, what they cost, and how they end.

use vstd::prelude::*;
use vstd::string::*;

use crate::agent_turn::{
    join_present, present, reason_text, saturating_u8, steer_all, steering_inputs,
};
use crate::application::{
    AppView, BatchCallsView, HarnessApplication, LoopView, ModelLoopState, PendingCallView,
    PendingModelContinuation, PendingModelView, PendingToolBatch, PendingToolCall,
};
use crate::error::{failure, outcome, unit_outcome, ApplicationError, Outcome};
use crate::exchange::{
    smaller, user_message, AgentToolCall, CallView, InputView, ModelEvent, ModelEventView,
    ModelInputItem, ModelMessageRole, ModelRequest, ModelRequestView, ModelSelection, ModelUsage,
    ResponseFormat, SelectionView, ToolDefinition, ToolView,
};
use crate::execution::{AgentWorkingContext, WorkingView};
use crate::mission::{EventPriority, EventView, HarnessEvent};
use crate::model::{duplicate_all, duplicate_option, group_views, option_view, views, Duplicate};
use crate::runs::charge_step;
use crate::text::{is_blank, is_blank_text, joined, same, texts};
use crate::waves::{DescriptorView, ToolDescriptor};

verus! {

/// How often a model may answer before the conversation is given up.
pub const MAX_MODEL_TURNS: u8 = 8;

/// What the model is told of the project: its context, and what was found for the prompt.
pub open spec fn canonical_context(context: WorkingView, retrieved: Seq<char>) -> Seq<char> {
    joined(present(seq![context.stable_instructions, context.dynamic_context]), "\n"@) + retrieved
}

pub open spec fn offered(tools: Seq<DescriptorView>) -> Seq<ToolView> {
    tools.map_values(
        |d: DescriptorView|
            ToolView {
                name: d.canonical_name,
                description: d.description,
                input_schema: d.input_schema,
                strict: true,
            },
    )
}

/// A new conversation.
pub open spec fn fresh_loop(
    selection: SelectionView,
    prompt: Seq<char>,
    context: WorkingView,
    retrieved: Seq<char>,
    tools: Seq<DescriptorView>,
) -> LoopView {
    LoopView {
        selection,
        canonical_context: canonical_context(context, retrieved),
        tools: offered(tools),
        transcript: seq![user_message(prompt)],
        next_input: seq![user_message(prompt)],
        previous_response_id: None,
        output: Seq::empty(),
        next_turn: 0,
    }
}

pub fn start_model_loop(
    selection: ModelSelection,
    prompt: &str,
    context: &AgentWorkingContext,
    retrieved: &str,
    tools: &Vec<ToolDescriptor>,
) -> (r: ModelLoopState)
    ensures
        r@ == fresh_loop(selection@, prompt@, context@, retrieved@, views(tools@)),
{
    broadcast use group_views;

    let parts: Vec<String> = vec![
        context.stable_instructions.clone(),
        context.dynamic_context.clone(),
    ];
    assert(texts(parts@) =~= seq![context@.stable_instructions, context@.dynamic_context]);
    let mut canonical_context = join_present(&parts);
    canonical_context.append(retrieved);
    let mut definitions: Vec<ToolDefinition> = Vec::new();
    let mut i: usize = 0;
    while i < tools.len()
        invariant
            i <= tools.len(),
            definitions@.len() == i,
            forall|k: int|
                0 <= k < i ==> (#[trigger] definitions@[k])@ == offered(views(tools@))[k],
        decreases tools.len() - i,
    {
        definitions.push(
            ToolDefinition {
                name: tools[i].canonical_name.clone(),
                description: tools[i].description.clone(),
                input_schema: tools[i].input_schema.copy(),
                strict: true,
            },
        );
        i = i + 1;
    }
    assert(views(definitions@) =~= offered(views(tools@)));
    let transcript: Vec<ModelInputItem> = vec![
        ModelInputItem::Message { role: ModelMessageRole::User, content: prompt.to_string() },
    ];
    assert(views(transcript@) =~= seq![user_message(prompt@)]);
    ModelLoopState {
        selection,
        canonical_context,
        tools: definitions,
        next_input: duplicate_all(&transcript),
        transcript,
        previous_response_id: None,
        output: String::new(),
        next_turn: 0,
    }
}

/// Whether a conversation that was put aside can go on with the model that is selected now.
pub open spec fn still_selected(pending: PendingModelView, selection: SelectionView) -> bool {
    pending.state.selection.provider_id == selection.provider_id
        && pending.state.selection.model_id == selection.model_id
}

pub open spec fn selection_changed<T>() -> Outcome<T> {
    failure(
        "model-continuation-selection-changed"@,
        "审批等待期间 Provider/Model 已变化；请切回原模型后再继续"@,
    )
}

/// Going on with a conversation that was put aside. If another model is selected now it is put
/// aside again.
pub open spec fn go_on_with(s: AppView, pending: PendingModelView, selection: SelectionView) -> (
    AppView,
    Outcome<()>,
) {
    if still_selected(pending, selection) {
        (s, Outcome::Done(()))
    } else {
        let calls = pending.batch.calls;
        if calls.len() > 0 && calls[0].invocation_id is Some {
            (
                AppView {
                    pending_model: s.pending_model.insert(
                        calls[0].invocation_id->Some_0,
                        pending,
                    ),
                    ..s
                },
                selection_changed(),
            )
        } else {
            (
                s,
                failure(
                    "model-continuation-invalid"@,
                    "等待审批的 Tool Invocation 缺失"@,
                ),
            )
        }
    }
}

/// The state with what was said while the agent worked.
pub open spec fn steered(state: LoopView, said: Seq<Seq<char>>) -> LoopView {
    LoopView {
        next_input: state.next_input + steering_inputs(said),
        transcript: if state.selection.conversation_continuation {
            state.transcript
        } else {
            state.transcript + steering_inputs(said)
        },
        ..state
    }
}

pub fn steer_loop(state: ModelLoopState, said: &Vec<String>) -> (r: ModelLoopState)
    ensures
        r@ == steered(state@, texts(said@)),
{
    broadcast use group_views;

    let mut state = state;
    let ghost before = state@;
    let mut inputs = steer_all(said);
    let ghost added = views(inputs@);
    if !state.selection.conversation_continuation {
        let mut copies = duplicate_all(&inputs);
        state.transcript.append(&mut copies);
    }
    state.next_input.append(&mut inputs);
    assert(views(state.next_input@) =~= before.next_input + added);
    state
}

/// What is shown of an instruction that was heard.
pub open spec fn heard_event(agent: Seq<char>, instruction: Seq<char>) -> EventView {
    EventView::ReasoningSummary { agent_id: agent, summary: "已接收 Steering："@ + instruction }
}

pub fn steering_event(agent_id: &str, instruction: &str) -> (r: HarnessEvent)
    ensures
        r@ == heard_event(agent_id@, instruction@),
{
    let mut summary: String = "已接收 Steering：".to_string();
    summary.append(instruction);
    HarnessEvent::ReasoningSummary { agent_id: agent_id.to_string(), summary }
}

/// What the model is asked in a turn.
pub open spec fn loop_request(state: LoopView) -> ModelRequestView {
    ModelRequestView {
        model_id: state.selection.model_id,
        instructions: state.canonical_context,
        input: state.next_input,
        tools: state.tools,
        reasoning: state.selection.reasoning_requested,
        response_format: ResponseFormat::Text,
        max_output_tokens: smaller(state.selection.max_output_tokens, 1024),
        previous_response_id: state.previous_response_id,
        store: false,
        timeout_millis: 120000,
    }
}

/// Whether there is another turn, and what the model is asked in it. A run that was cancelled has
/// none.
pub open spec fn next_turn(state: LoopView, cancelled: bool, run_id: Option<Seq<char>>) -> Outcome<
    ModelRequestView,
> {
    if state.next_turn >= MAX_MODEL_TURNS {
        failure("model-tool-loop-exhausted"@, "Model Tool loop exhausted"@)
    } else if cancelled {
        failure(
            "agent-run-cancelled"@,
            match run_id {
                Some(run) => run,
                None => "unknown"@,
            },
        )
    } else {
        Outcome::Done(loop_request(state))
    }
}

/// Checks that the main agent may take another turn. Said before it hears what was said to it.
pub fn check_turn(state: &ModelLoopState, cancelled: bool, run_id: Option<&str>) -> (r: Result<
    (),
    ApplicationError,
>)
    ensures
        match r {
            Ok(()) => next_turn(state@, cancelled, option_view(run_id)) is Done,
            Err(e) => next_turn(state@, cancelled, option_view(run_id)) == Outcome::<
                ModelRequestView,
            >::Failed(e@),
        },
{
    if state.next_turn >= MAX_MODEL_TURNS {
        return Err(
            ApplicationError::new("model-tool-loop-exhausted", "Model Tool loop exhausted"),
        );
    }
    if cancelled {
        return match run_id {
            Some(run) => Err(ApplicationError::new("agent-run-cancelled", run)),
            None => Err(ApplicationError::new("agent-run-cancelled", "unknown")),
        };
    }
    Ok(())
}

pub fn model_request(state: &ModelLoopState) -> (r: ModelRequest)
    ensures
        r@ == loop_request(state@),
{
    ModelRequest {
        model_id: state.selection.model_id.clone(),
        instructions: state.canonical_context.clone(),
        input: duplicate_all(&state.next_input),
        tools: duplicate_all(&state.tools),
        reasoning: state.selection.reasoning_requested,
        response_format: ResponseFormat::Text,
        max_output_tokens: if state.selection.max_output_tokens < 1024 {
            state.selection.max_output_tokens
        } else {
            1024
        },
        previous_response_id: duplicate_option(&state.previous_response_id),
        store: false,
        timeout_millis: 120000,
    }
}

/// What came out of a turn so far.
pub struct LoopTurn {
    pub response_id: Option<String>,
    pub text: String,
    pub calls: Vec<AgentToolCall>,
    pub completed: bool,
}

pub struct LoopTurnView {
    pub response_id: Option<Seq<char>>,
    pub text: Seq<char>,
    pub calls: Seq<CallView>,
    pub completed: bool,
}

impl View for LoopTurn {
    type V = LoopTurnView;

    open spec fn view(&self) -> LoopTurnView {
        LoopTurnView {
            response_id: option_view(self.response_id),
            text: self.text@,
            calls: views(self.calls@),
            completed: self.completed,
        }
    }
}

pub open spec fn empty_turn() -> LoopTurnView {
    LoopTurnView { response_id: None, text: Seq::empty(), calls: Seq::empty(), completed: false }
}

impl LoopTurn {
    pub fn new() -> (r: Self)
        ensures
            r@ == empty_turn(),
    {
        broadcast use group_views;

        LoopTurn { response_id: None, text: String::new(), calls: Vec::new(), completed: false }
    }
}

/// What an event of the model means for a turn, and what is shown of it. Tokens and calls are
/// charged to the run before anything else is made of them.
pub open spec fn loop_event(
    s: AppView,
    t: LoopTurnView,
    event: ModelEventView,
    run_id: Option<Seq<char>>,
    agent: Seq<char>,
    now: i64,
) -> (AppView, Outcome<(LoopTurnView, Option<(EventView, EventPriority)>)>) {
    match event {
        ModelEventView::Started { response_id } => (
            s,
            Outcome::Done((LoopTurnView { response_id: Some(response_id), ..t }, None)),
        ),
        ModelEventView::TextDelta { delta } => (
            s,
            Outcome::Done(
                (
                    LoopTurnView { text: t.text + delta, ..t },
                    Some((EventView::TextOutput { text: delta }, EventPriority::Delta)),
                ),
            ),
        ),
        ModelEventView::ReasoningSummaryDelta { delta } => (
            s,
            Outcome::Done(
                (
                    t,
                    Some(
                        (
                            EventView::ReasoningSummary { agent_id: agent, summary: delta },
                            EventPriority::Delta,
                        ),
                    ),
                ),
            ),
        ),
        ModelEventView::ToolCall { call } => {
            let (after, charged) = charge_step(s, run_id, 0, 1, now);
            (
                after,
                match charged {
                    Outcome::Failed(e) => Outcome::Failed(e),
                    Outcome::Done(_) => Outcome::Done(
                        (LoopTurnView { calls: t.calls.push(call), ..t }, None),
                    ),
                },
            )
        },
        ModelEventView::Usage { usage } => {
            let (after, charged) = charge_step(s, run_id, usage.total_tokens, 0, now);
            (
                after,
                match charged {
                    Outcome::Failed(e) => Outcome::Failed(e),
                    Outcome::Done(_) => Outcome::Done(
                        (t, Some((EventView::ModelUsage { usage }, EventPriority::Normal))),
                    ),
                },
            )
        },
        ModelEventView::Completed => (
            s,
            Outcome::Done((LoopTurnView { completed: true, ..t }, None)),
        ),
        ModelEventView::Incomplete { reason } => (
            s,
            failure("model-response-incomplete"@, reason_text(reason)),
        ),
        ModelEventView::Failed { code, message } => (s, failure(code, message)),
    }
}

/// How a turn ends: with the answer, or with calls that are to be made first.
pub enum TurnEnd {
    Answered { output: String },
    Calls { state: ModelLoopState, batch: PendingToolBatch },
}

pub enum TurnEndView {
    Answered { output: Seq<char> },
    Calls { state: LoopView, batch: BatchCallsView },
}

impl View for TurnEnd {
    type V = TurnEndView;

    open spec fn view(&self) -> TurnEndView {
        match *self {
            TurnEnd::Answered { output } => TurnEndView::Answered { output: output@ },
            TurnEnd::Calls { state, batch } => TurnEndView::Calls { state: state@, batch: batch@ },
        }
    }
}

pub open spec fn batch_of(t: LoopTurnView) -> BatchCallsView {
    BatchCallsView {
        response_id: t.response_id,
        results: Seq::empty(),
        calls: t.calls.map_values(|c: CallView| PendingCallView { call: c, invocation_id: None }),
    }
}

/// The state after a turn, before its calls are made.
pub open spec fn loop_after(state: LoopView, t: LoopTurnView) -> LoopView {
    LoopView {
        output: state.output + t.text,
        next_turn: saturating_u8(state.next_turn),
        transcript: if t.calls.len() > 0 && !state.selection.conversation_continuation
            && t.text.len() > 0 {
            state.transcript.push(
                InputView::Message { role: ModelMessageRole::Assistant, content: t.text },
            )
        } else {
            state.transcript
        },
        ..state
    }
}

pub open spec fn turn_end(state: LoopView, t: LoopTurnView) -> Outcome<TurnEndView> {
    if !t.completed {
        failure("model-stream-no-completion"@, "Model stream 没有 terminal completion"@)
    } else if t.calls.len() == 0 {
        if is_blank_text(state.output + t.text) {
            failure("model-output-empty"@, "Model 没有产生文本输出"@)
        } else {
            Outcome::Done(TurnEndView::Answered { output: state.output + t.text })
        }
    } else {
        Outcome::Done(TurnEndView::Calls { state: loop_after(state, t), batch: batch_of(t) })
    }
}

/// Ends a turn.
pub fn end_turn(state: ModelLoopState, turn: LoopTurn) -> (r: Result<TurnEnd, ApplicationError>)
    ensures
        outcome(r) == turn_end(state@, turn@),
{
    broadcast use group_views;

    let ghost t = turn@;
    let ghost before = state@;
    if !turn.completed {
        return Err(
            ApplicationError::new(
                "model-stream-no-completion",
                "Model stream 没有 terminal completion",
            ),
        );
    }
    let mut state = state;
    state.output.append(turn.text.as_str());
    state.next_turn = state.next_turn.saturating_add(1);
    if turn.calls.len() == 0 {
        if is_blank(state.output.as_str()) {
            return Err(
                ApplicationError::new("model-output-empty", "Model 没有产生文本输出"),
            );
        }
        return Ok(TurnEnd::Answered { output: state.output });
    }
    if !state.selection.conversation_continuation && turn.text.as_str().unicode_len() > 0 {
        state.transcript.push(
            ModelInputItem::Message { role: ModelMessageRole::Assistant, content: turn.text },
        );
    }
    assert(state@ == loop_after(before, t));
    let mut calls: Vec<PendingToolCall> = Vec::new();
    let mut i: usize = 0;
    while i < turn.calls.len()
        invariant
            i <= turn.calls.len(),
            t.calls == views(turn.calls@),
            calls@.len() == i,
            forall|k: int| 0 <= k < i ==> (#[trigger] calls@[k])@ == batch_of(t).calls[k],
        decreases turn.calls.len() - i,
    {
        assert(t.calls[i as int] == turn.calls@[i as int]@);
        calls.push(PendingToolCall { call: turn.calls[i].duplicate(), invocation_id: None });
        i = i + 1;
    }
    assert(views(calls@) =~= batch_of(t).calls);
    Ok(
        TurnEnd::Calls {
            state,
            batch: PendingToolBatch {
                response_id: turn.response_id,
                results: Vec::new(),
                calls,
            },
        },
    )
}

/// After its last turn an agent that still asks for tools is given up.
pub open spec fn after_calls(state: LoopView) -> Outcome<()> {
    if state.next_turn >= MAX_MODEL_TURNS {
        failure("model-tool-loop-limit"@, "Model Tool loop 超过 8 轮"@)
    } else {
        Outcome::Done(())
    }
}

pub fn check_after_calls(state: &ModelLoopState) -> (r: Result<(), ApplicationError>)
    ensures
        unit_outcome(r) == after_calls(state@),
{
    if state.next_turn >= MAX_MODEL_TURNS {
        return Err(
            ApplicationError::new("model-tool-loop-limit", "Model Tool loop 超过 8 轮"),
        );
    }
    Ok(())
}

/// A conversation ends: each turn brings it nearer to the last one.
pub proof fn law_conversations_end(state: LoopView, t: LoopTurnView)
    requires
        state.next_turn < MAX_MODEL_TURNS,
        turn_end(state, t) is Done,
        turn_end(state, t)->Done_0 is Calls,
    ensures
        loop_after(state, t).next_turn == state.next_turn + 1,
        loop_after(state, t).next_turn <= MAX_MODEL_TURNS,
        after_calls(loop_after(state, t)) is Done <==> next_turn(
            loop_after(state, t),
            false,
            None,
        ) is Done,
{
}

/// What the model has said is never lost: the answer begins with what was said in earlier turns.
pub proof fn law_answers_keep_what_was_said(state: LoopView, t: LoopTurnView)
    requires
        turn_end(state, t) is Done,
    ensures
        match turn_end(state, t)->Done_0 {
            TurnEndView::Answered { output } => output == state.output + t.text,
            TurnEndView::Calls { state: after, batch } => after.output == state.output + t.text
                && batch.calls.len() == t.calls.len(),
        },
{
}

impl HarnessApplication {
    /// The answer when there is no model to call.
    pub fn answer_without_model(&self) -> (r: Option<String>)
        ensures
            option_view(r) == (if self@.model_ready {
                None
            } else {
                Some("deterministic fake result"@)
            }),
    {
        if self.model_ready {
            None
        } else {
            Some("deterministic fake result".to_string())
        }
    }

    /// Checks that a conversation that was put aside can go on. If not, it is put aside again.
    pub fn resume_model_loop(&mut self, pending: &PendingModelContinuation, selection: &ModelSelection) -> (r:
        Result<(), ApplicationError>)
        ensures
            (final(self)@, unit_outcome(r)) == go_on_with(old(self)@, pending@, selection@),
    {
        if same(
            pending.state.selection.provider_id.as_str(),
            selection.provider_id.as_str(),
        ) && same(pending.state.selection.model_id.as_str(), selection.model_id.as_str()) {
            return Ok(());
        }
        match self.store_pending_model_continuation(pending.duplicate()) {
            Ok(()) => Err(
                ApplicationError::new(
                    "model-continuation-selection-changed",
                    "审批等待期间 Provider/Model 已变化；请切回原模型后再继续",
                ),
            ),
            Err(error) => Err(error),
        }
    }

    /// Takes an event of the model into a turn. Gives what is to be shown of it.
    pub fn execute_model(
        &mut self,
        turn: &mut LoopTurn,
        event: &ModelEvent,
        run_id: Option<&str>,
        agent_id: &str,
        now: i64,
    ) -> (r: Result<Option<(HarnessEvent, EventPriority)>, ApplicationError>)
        ensures
            ({
                let (after, done) = loop_event(
                    old(self)@,
                    old(turn)@,
                    event@,
                    option_view(run_id),
                    agent_id@,
                    now,
                );
                final(self)@ == after && match r {
                    Ok(shown) => done == Outcome::Done(
                        (
                            final(turn)@,
                            match shown {
                                Some((event, priority)) => Some((event@, priority)),
                                None => None,
                            },
                        ),
                    ),
                    Err(e) => done == Outcome::<
                        (LoopTurnView, Option<(EventView, EventPriority)>),
                    >::Failed(e@) && final(turn)@ == old(turn)@,
                }
            }),
    {
        broadcast use group_views;

        match event {
            ModelEvent::Started { response_id } => {
                turn.response_id = Some(response_id.clone());
                Ok(None)
            },
            ModelEvent::TextDelta { delta } => {
                turn.text.append(delta.as_str());
                Ok(
                    Some(
                        (HarnessEvent::TextOutput { text: delta.clone() }, EventPriority::Delta),
                    ),
                )
            },
            ModelEvent::ReasoningSummaryDelta { delta } => Ok(
                Some(
                    (
                        HarnessEvent::ReasoningSummary {
                            agent_id: agent_id.to_string(),
                            summary: delta.clone(),
                        },
                        EventPriority::Delta,
                    ),
                ),
            ),
            ModelEvent::ToolCall { call } => match self.charge_agent_budget(run_id, 0, 1, now) {
                Ok(()) => {
                    turn.calls.push(call.duplicate());
                    Ok(None)
                },
                Err(error) => Err(error),
            },
            ModelEvent::Usage { usage } => match self.charge_agent_budget(
                run_id,
                usage.total_tokens,
                0,
                now,
            ) {
                Ok(()) => Ok(
                    Some((HarnessEvent::ModelUsage { usage: *usage }, EventPriority::Normal)),
                ),
                Err(error) => Err(error),
            },
            ModelEvent::Completed => {
                turn.completed = true;
                Ok(None)
            },
            ModelEvent::Incomplete { reason } => match reason {
                Some(reason) => Err(
                    ApplicationError::new("model-response-incomplete", reason.as_str()),
                ),
                None => Err(ApplicationError::new("model-response-incomplete", "unknown")),
            },
            ModelEvent::Failed { code, message } => Err(
                ApplicationError::new(code.as_str(), message.as_str()),
            ),
        }
    }
}

} // verus!
