//! One turn of an agent with a model.

use vstd::prelude::*;
use vstd::string::*;

use crate::error::{failure, outcome, AgentError, ErrorView, Outcome};
use crate::exchange::{
    no_metrics, smaller, steering_input, steering_message, user_message, AgentExecutionMetrics,
    AgentModelContinuation, AgentModelToolYield, AgentToolCall, CallView, ContinuationView,
    InputView, ModelEvent, ModelEventView, ModelInputItem, ModelMessageRole, ModelRequest,
    ModelRequestView, ModelSelection, ResponseFormat, SelectionView, YieldView,
};
use crate::execution::{AgentExecutionRequest, RequestView};
use crate::model::{duplicate_all, duplicate_option, group_views, option_view, views, Duplicate};
use crate::profile::{agent_profile, contract_text, profile_of};
use crate::results::{
    bare_result, plain_result, AgentResult, ResultView, CONFIDENCE_FOUR_FIFTHS, CONFIDENCE_HALF,
};
use crate::roles::AgentRole;
use crate::scheduling::saturating_sum;
use crate::text::{is_blank, is_blank_text, join, joined, texts};

verus! {

/// What a role is called in its contract.
pub open spec fn role_title_text(role: AgentRole) -> Seq<char> {
    match role {
        AgentRole::RequirementsAnalyst => "需求分析师"@,
        AgentRole::Explorer => "代码库探索员"@,
        AgentRole::Architect => "架构师"@,
        AgentRole::Planner => "规划员"@,
        AgentRole::Coder => "编码员"@,
        AgentRole::Reviewer => "独立代码审查员"@,
        AgentRole::SecurityAuditor => "安全审计员"@,
        AgentRole::PerformanceEngineer => "性能工程师"@,
        AgentRole::Tester => "测试员"@,
        AgentRole::ReleaseManager => "发布经理"@,
        AgentRole::Debugger => "调试员"@,
        AgentRole::Researcher => "研究员"@,
        AgentRole::MergeAgent => "合并员"@,
        AgentRole::Coordinator => "协调记录员"@,
        AgentRole::StaffingRouter => "专职分配员"@,
        AgentRole::Supervisor => "监督员"@,
    }
}

fn role_title(role: AgentRole) -> (r: &'static str)
    ensures
        r@ == role_title_text(role),
{
    match role {
        AgentRole::RequirementsAnalyst => "需求分析师",
        AgentRole::Explorer => "代码库探索员",
        AgentRole::Architect => "架构师",
        AgentRole::Planner => "规划员",
        AgentRole::Coder => "编码员",
        AgentRole::Reviewer => "独立代码审查员",
        AgentRole::SecurityAuditor => "安全审计员",
        AgentRole::PerformanceEngineer => "性能工程师",
        AgentRole::Tester => "测试员",
        AgentRole::ReleaseManager => "发布经理",
        AgentRole::Debugger => "调试员",
        AgentRole::Researcher => "研究员",
        AgentRole::MergeAgent => "合并员",
        AgentRole::Coordinator => "协调记录员",
        AgentRole::StaffingRouter => "专职分配员",
        AgentRole::Supervisor => "监督员",
    }
}

/// What an agent is told of its role: its title and its profile.
#[verifier::opaque]
pub open spec fn role_contract(role: AgentRole) -> Seq<char> {
    "<role-contract>"@ + role_title_text(role) + contract_text(profile_of(role))
        + "</role-contract>"@
}

pub fn render_role_contract(role: AgentRole) -> (r: String)
    ensures
        r@ == role_contract(role),
{
    proof {
        reveal(role_contract);
    }
    let mut r: String = "<role-contract>".to_string();
    r.append(role_title(role));
    r.append(agent_profile(role).render_contract().as_str());
    r.append("</role-contract>");
    r
}

/// The parts of a text that are there.
pub open spec fn present(parts: Seq<Seq<char>>) -> Seq<Seq<char>>
    decreases parts.len(),
{
    if parts.len() == 0 {
        Seq::empty()
    } else if parts.last().len() > 0 {
        present(parts.drop_last()).push(parts.last())
    } else {
        present(parts.drop_last())
    }
}

/// The parts that are there, one below the other.
pub fn join_present(parts: &Vec<String>) -> (r: String)
    ensures
        r@ == joined(present(texts(parts@)), "\n"@),
{
    let ghost all = texts(parts@);
    let mut kept: Vec<String> = Vec::new();
    let mut i: usize = 0;
    assert(all.subrange(0, 0) =~= Seq::empty());
    assert(texts(kept@) =~= Seq::empty());
    while i < parts.len()
        invariant
            i <= parts.len(),
            all == texts(parts@),
            texts(kept@) == present(all.subrange(0, i as int)),
        decreases parts.len() - i,
    {
        broadcast use group_views;

        let ghost next = all.subrange(0, i as int + 1);
        assert(next.drop_last() =~= all.subrange(0, i as int));
        assert(next.last() == parts@[i as int]@);
        if parts[i].as_str().unicode_len() > 0 {
            kept.push(parts[i].clone());
        }
        i = i + 1;
    }
    assert(all.subrange(0, all.len() as int) =~= all);
    join(&kept, "\n")
}

pub open spec fn steering_inputs(instructions: Seq<Seq<char>>) -> Seq<InputView> {
    instructions.map_values(|s: Seq<char>| steering_message(s))
}

/// The state in which an agent starts its turn: what it goes on with, or a new conversation.
pub open spec fn starting_state(
    request: RequestView,
    conversation_continuation: bool,
) -> ContinuationView {
    let steering = steering_inputs(request.steering_messages);
    match request.model_continuation {
        Some(state) => ContinuationView {
            next_input: state.next_input + steering,
            transcript: if state.conversation_continuation {
                state.transcript
            } else {
                state.transcript + steering
            },
            ..state
        },
        None => {
            let input = seq![user_message(request.contract.objective)] + steering;
            ContinuationView {
                instructions: joined(
                    present(
                        seq![
                            role_contract(request.contract.role),
                            request.context.stable_instructions,
                            request.context.dynamic_context,
                        ],
                    ),
                    "\n"@,
                ),
                transcript: input,
                next_input: input,
                tools: request.model_tools,
                previous_response_id: None,
                output: Seq::empty(),
                next_turn: 0,
                max_turns: request.contract.max_turns,
                conversation_continuation,
                metrics: no_metrics(),
                changed_files: Seq::empty(),
            }
        },
    }
}

pub open spec fn turn_request(
    state: ContinuationView,
    selection: SelectionView,
    timeout_millis: u64,
) -> ModelRequestView {
    ModelRequestView {
        model_id: selection.model_id,
        instructions: state.instructions,
        input: state.next_input,
        tools: state.tools,
        reasoning: selection.reasoning_requested,
        response_format: ResponseFormat::Text,
        max_output_tokens: smaller(selection.max_output_tokens, 2048),
        previous_response_id: state.previous_response_id,
        store: false,
        timeout_millis,
    }
}

/// What came out of a turn so far.
pub struct TurnView {
    pub response_id: Option<Seq<char>>,
    pub text: Seq<char>,
    pub calls: Seq<CallView>,
    pub completed: bool,
    pub input_tokens: u64,
    pub output_tokens: u64,
    pub reasoning_tokens: u64,
    pub cached_input_tokens: u64,
}

pub open spec fn turn_begun(metrics: AgentExecutionMetrics) -> TurnView {
    TurnView {
        response_id: None,
        text: Seq::empty(),
        calls: Seq::empty(),
        completed: false,
        input_tokens: metrics.input_tokens,
        output_tokens: metrics.output_tokens,
        reasoning_tokens: metrics.reasoning_tokens,
        cached_input_tokens: metrics.cached_input_tokens,
    }
}

pub open spec fn reason_text(reason: Option<Seq<char>>) -> Seq<char> {
    match reason {
        Some(r) => r,
        None => "unknown"@,
    }
}

pub open spec fn turn_event(t: TurnView, event: ModelEventView) -> Outcome<TurnView> {
    match event {
        ModelEventView::Started { response_id } => Outcome::Done(
            TurnView { response_id: Some(response_id), ..t },
        ),
        ModelEventView::TextDelta { delta } => Outcome::Done(TurnView { text: t.text + delta, ..t }),
        ModelEventView::ReasoningSummaryDelta { delta } => Outcome::Done(t),
        ModelEventView::ToolCall { call } => Outcome::Done(
            TurnView { calls: t.calls.push(call), ..t },
        ),
        ModelEventView::Usage { usage } => Outcome::Done(
            TurnView {
                input_tokens: saturating_sum(t.input_tokens, usage.input_tokens),
                output_tokens: saturating_sum(t.output_tokens, usage.output_tokens),
                reasoning_tokens: saturating_sum(t.reasoning_tokens, usage.reasoning_tokens),
                cached_input_tokens: saturating_sum(
                    t.cached_input_tokens,
                    usage.cached_input_tokens,
                ),
                ..t
            },
        ),
        ModelEventView::Completed => Outcome::Done(TurnView { completed: true, ..t }),
        ModelEventView::Incomplete { reason } => failure(
            "agent-model-incomplete"@,
            reason_text(reason),
        ),
        ModelEventView::Failed { code, message } => failure(code, message),
    }
}

/// What the events of a turn come to; the first that ends it early decides.
pub open spec fn turn_events(
    metrics: AgentExecutionMetrics,
    events: Seq<ModelEventView>,
) -> Outcome<TurnView>
    decreases events.len(),
{
    if events.len() == 0 {
        Outcome::Done(turn_begun(metrics))
    } else {
        match turn_events(metrics, events.drop_last()) {
            Outcome::Failed(e) => Outcome::Failed(e),
            Outcome::Done(t) => turn_event(t, events.last()),
        }
    }
}

pub open spec fn saturating_u32(n: u32) -> u32 {
    if n == u32::MAX {
        n
    } else {
        (n + 1) as u32
    }
}

pub open spec fn saturating_u8(n: u8) -> u8 {
    if n == u8::MAX {
        n
    } else {
        (n + 1) as u8
    }
}

/// The state after a turn that was completed.
pub open spec fn state_after(state: ContinuationView, t: TurnView) -> ContinuationView {
    ContinuationView {
        output: state.output + t.text,
        transcript: if t.calls.len() > 0 && !state.conversation_continuation && t.text.len() > 0 {
            state.transcript.push(
                InputView::Message { role: ModelMessageRole::Assistant, content: t.text },
            )
        } else {
            state.transcript
        },
        next_turn: saturating_u8(state.next_turn),
        metrics: AgentExecutionMetrics {
            turns: saturating_u32(state.metrics.turns),
            input_tokens: t.input_tokens,
            output_tokens: t.output_tokens,
            reasoning_tokens: t.reasoning_tokens,
            cached_input_tokens: t.cached_input_tokens,
            tool_calls: saturating_sum(state.metrics.tool_calls, t.calls.len() as u64),
            elapsed_millis: state.metrics.elapsed_millis,
        },
        ..state
    }
}

/// What an agent hands back after a turn: it waits for its tools, or it is done.
pub open spec fn turn_result(
    state: ContinuationView,
    run_id: Seq<char>,
    events: Seq<ModelEventView>,
) -> Outcome<ResultView> {
    match turn_events(state.metrics, events) {
        Outcome::Failed(e) => Outcome::Failed(e),
        Outcome::Done(t) => if !t.completed {
            failure("agent-model-no-completion"@, run_id)
        } else {
            let after = state_after(state, t);
            if t.calls.len() > 0 {
                Outcome::Done(
                    ResultView {
                        model_tool_yield: Some(
                            YieldView {
                                continuation: after,
                                response_id: t.response_id,
                                calls: t.calls,
                            },
                        ),
                        ..plain_result(
                            "waiting-tool"@,
                            after.output,
                            after.metrics,
                            CONFIDENCE_HALF,
                        )
                    },
                )
            } else if is_blank_text(after.output) {
                failure("agent-model-empty-result"@, run_id)
            } else {
                Outcome::Done(
                    ResultView {
                        changed_files: after.changed_files,
                        ..plain_result(
                            "completed"@,
                            after.output,
                            after.metrics,
                            CONFIDENCE_FOUR_FIFTHS,
                        )
                    },
                )
            }
        },
    }
}

/// An agent that works with a model.
pub struct ModelAgentHandler {
    timeout_millis: u64,
}

impl View for ModelAgentHandler {
    type V = u64;

    closed spec fn view(&self) -> u64 {
        self.timeout_millis
    }
}

impl ModelAgentHandler {
    pub fn new(timeout_millis: u64) -> (r: Result<Self, AgentError>)
        ensures
            match r {
                Ok(h) => timeout_millis > 0 && h@ == timeout_millis,
                Err(e) => timeout_millis == 0 && e@ == (ErrorView {
                    code: "agent-model-timeout-zero"@,
                    message: "0"@,
                }),
            },
    {
        if timeout_millis == 0 {
            return Err(AgentError::new("agent-model-timeout-zero", "0"));
        }
        Ok(ModelAgentHandler { timeout_millis })
    }

    /// The state in which a request starts, and what it asks the model; an error once its turns
    /// are used up.
    pub fn begin(&self, request: AgentExecutionRequest, selection: &ModelSelection) -> (r: Result<
        (AgentModelContinuation, ModelRequest),
        AgentError,
    >)
        ensures
            ({
                let state = starting_state(request@, selection@.conversation_continuation);
                match r {
                    Ok((s, m)) => state.next_turn < state.max_turns && s@ == state && m@
                        == turn_request(state, selection@, self@),
                    Err(e) => state.next_turn >= state.max_turns && e@ == (ErrorView {
                        code: "agent-model-turn-limit"@,
                        message: request@.contract.run_id,
                    }),
                }
            }),
    {
        let run_id = request.contract.run_id.clone();
        let state = start(request, selection.conversation_continuation);
        if state.next_turn >= state.max_turns {
            return Err(AgentError::new("agent-model-turn-limit", run_id.as_str()));
        }
        let model_request = ModelRequest {
            model_id: selection.model_id.clone(),
            instructions: state.instructions.clone(),
            input: duplicate_all(&state.next_input),
            tools: duplicate_all(&state.tools),
            reasoning: selection.reasoning_requested,
            response_format: ResponseFormat::Text,
            max_output_tokens: if selection.max_output_tokens < 2048 {
                selection.max_output_tokens
            } else {
                2048
            },
            previous_response_id: duplicate_option(&state.previous_response_id),
            store: false,
            timeout_millis: self.timeout_millis,
        };
        Ok((state, model_request))
    }

    /// What the agent hands back after the model has answered with these events.
    pub fn conclude(
        &self,
        state: AgentModelContinuation,
        run_id: &str,
        events: &Vec<ModelEvent>,
    ) -> (r: Result<AgentResult, AgentError>)
        ensures
            outcome(r) == turn_result(state@, run_id@, views(events@)),
    {
        broadcast use group_views;

        let turn = match read_turn(state.metrics, events) {
            Ok(turn) => turn,
            Err(error) => {
                return Err(error);
            },
        };
        if !turn.completed {
            return Err(AgentError::new("agent-model-no-completion", run_id));
        }
        let ghost t = turn@;
        let mut state = state;
        let ghost before = state@;
        state.output.append(turn.text.as_str());
        if turn.calls.len() > 0 && !state.conversation_continuation
            && turn.text.as_str().unicode_len() > 0 {
            state.transcript.push(
                ModelInputItem::Message {
                    role: ModelMessageRole::Assistant,
                    content: turn.text,
                },
            );
        }
        state.next_turn = state.next_turn.saturating_add(1);
        state.metrics = AgentExecutionMetrics {
            turns: state.metrics.turns.saturating_add(1),
            input_tokens: turn.input_tokens,
            output_tokens: turn.output_tokens,
            reasoning_tokens: turn.reasoning_tokens,
            cached_input_tokens: turn.cached_input_tokens,
            tool_calls: state.metrics.tool_calls.saturating_add(turn.calls.len() as u64),
            elapsed_millis: state.metrics.elapsed_millis,
        };
        assert(state@ == state_after(before, t));
        if turn.calls.len() > 0 {
            let mut result = bare_result(
                "waiting-tool",
                state.output.clone(),
                state.metrics,
                CONFIDENCE_HALF,
            );
            result.model_tool_yield = Some(
                AgentModelToolYield {
                    continuation: state,
                    response_id: turn.response_id,
                    calls: turn.calls,
                },
            );
            return Ok(result);
        }
        if is_blank(state.output.as_str()) {
            return Err(AgentError::new("agent-model-empty-result", run_id));
        }
        let mut result = bare_result(
            "completed",
            state.output,
            state.metrics,
            CONFIDENCE_FOUR_FIFTHS,
        );
        result.changed_files = state.changed_files;
        Ok(result)
    }
}

fn start(request: AgentExecutionRequest, conversation_continuation: bool) -> (r:
    AgentModelContinuation)
    ensures
        r@ == starting_state(request@, conversation_continuation),
{
    broadcast use group_views;

    let ghost view = request@;
    let mut steering = steer_all(&request.steering_messages);
    let ghost inputs = views(steering@);
    match request.model_continuation {
        Some(state) => {
            let mut state = state;
            let ghost before = state@;
            if !state.conversation_continuation {
                let mut copies = duplicate_all(&steering);
                state.transcript.append(&mut copies);
            }
            state.next_input.append(&mut steering);
            assert(views(state.next_input@) =~= before.next_input + inputs);
            state
        },
        None => {
            let mut input: Vec<ModelInputItem> = Vec::new();
            input.push(
                ModelInputItem::Message {
                    role: ModelMessageRole::User,
                    content: request.contract.objective.clone(),
                },
            );
            input.append(&mut steering);
            assert(views(input@) =~= seq![user_message(view.contract.objective)] + inputs);
            let parts: Vec<String> = vec![
                render_role_contract(request.contract.role),
                request.context.stable_instructions,
                request.context.dynamic_context,
            ];
            assert(texts(parts@) =~= seq![
                role_contract(view.contract.role),
                view.context.stable_instructions,
                view.context.dynamic_context,
            ]);
            AgentModelContinuation {
                instructions: join_present(&parts),
                transcript: duplicate_all(&input),
                next_input: input,
                tools: request.model_tools,
                previous_response_id: None,
                output: String::new(),
                next_turn: 0,
                max_turns: request.contract.max_turns,
                conversation_continuation,
                metrics: AgentExecutionMetrics::default(),
                changed_files: Vec::new(),
            }
        },
    }
}

pub fn steer_all(instructions: &Vec<String>) -> (r: Vec<ModelInputItem>)
    ensures
        views(r@) == steering_inputs(texts(instructions@)),
{
    let mut r: Vec<ModelInputItem> = Vec::new();
    let mut i: usize = 0;
    while i < instructions.len()
        invariant
            i <= instructions.len(),
            r@.len() == i,
            forall|k: int|
                0 <= k < i ==> (#[trigger] r@[k])@ == steering_message(instructions@[k]@),
        decreases instructions.len() - i,
    {
        r.push(steering_input(instructions[i].as_str()));
        i = i + 1;
    }
    assert(views(r@) =~= steering_inputs(texts(instructions@)));
    r
}

struct Turn {
    response_id: Option<String>,
    text: String,
    calls: Vec<AgentToolCall>,
    completed: bool,
    input_tokens: u64,
    output_tokens: u64,
    reasoning_tokens: u64,
    cached_input_tokens: u64,
}

impl View for Turn {
    type V = TurnView;

    closed spec fn view(&self) -> TurnView {
        TurnView {
            response_id: option_view(self.response_id),
            text: self.text@,
            calls: views(self.calls@),
            completed: self.completed,
            input_tokens: self.input_tokens,
            output_tokens: self.output_tokens,
            reasoning_tokens: self.reasoning_tokens,
            cached_input_tokens: self.cached_input_tokens,
        }
    }
}

fn read_event(turn: &mut Turn, event: &ModelEvent) -> (r: Result<(), AgentError>)
    ensures
        match r {
            Ok(()) => turn_event(old(turn)@, event@) == Outcome::Done(final(turn)@),
            Err(e) => turn_event(old(turn)@, event@) == Outcome::<TurnView>::Failed(e@),
        },
{
    broadcast use group_views;

    match event {
        ModelEvent::Started { response_id } => {
            turn.response_id = Some(response_id.clone());
        },
        ModelEvent::TextDelta { delta } => {
            turn.text.append(delta.as_str());
        },
        ModelEvent::ReasoningSummaryDelta { delta: _ } => {},
        ModelEvent::ToolCall { call } => {
            turn.calls.push(call.duplicate());
        },
        ModelEvent::Usage { usage } => {
            turn.input_tokens = turn.input_tokens.saturating_add(usage.input_tokens);
            turn.output_tokens = turn.output_tokens.saturating_add(usage.output_tokens);
            turn.reasoning_tokens = turn.reasoning_tokens.saturating_add(usage.reasoning_tokens);
            turn.cached_input_tokens = turn.cached_input_tokens.saturating_add(
                usage.cached_input_tokens,
            );
        },
        ModelEvent::Completed => {
            turn.completed = true;
        },
        ModelEvent::Incomplete { reason } => {
            return match reason {
                Some(reason) => Err(AgentError::new("agent-model-incomplete", reason.as_str())),
                None => Err(AgentError::new("agent-model-incomplete", "unknown")),
            };
        },
        ModelEvent::Failed { code, message } => {
            return Err(AgentError::new(code.as_str(), message.as_str()));
        },
    }
    Ok(())
}

fn read_turn(metrics: AgentExecutionMetrics, events: &Vec<ModelEvent>) -> (r: Result<
    Turn,
    AgentError,
>)
    ensures
        outcome(r) == turn_events(metrics, views(events@)),
{
    let ghost all = views(events@);
    let mut turn = Turn {
        response_id: None,
        text: String::new(),
        calls: Vec::new(),
        completed: false,
        input_tokens: metrics.input_tokens,
        output_tokens: metrics.output_tokens,
        reasoning_tokens: metrics.reasoning_tokens,
        cached_input_tokens: metrics.cached_input_tokens,
    };
    let mut i: usize = 0;
    assert(all.subrange(0, 0) =~= Seq::empty());
    assert(turn@ == turn_begun(metrics)) by {
        broadcast use group_views;

    }
    while i < events.len()
        invariant
            i <= events.len(),
            all == views(events@),
            turn_events(metrics, all.subrange(0, i as int)) == Outcome::Done(turn@),
        decreases events.len() - i,
    {
        let ghost next = all.subrange(0, i as int + 1);
        assert(next.drop_last() =~= all.subrange(0, i as int));
        assert(next.last() == events@[i as int]@);
        match read_event(&mut turn, &events[i]) {
            Ok(()) => {},
            Err(error) => {
                proof {
                    lemma_turn_fails(metrics, all, i as int + 1);
                }
                return Err(error);
            },
        }
        i = i + 1;
    }
    assert(all.subrange(0, all.len() as int) =~= all);
    Ok(turn)
}

proof fn lemma_turn_fails(metrics: AgentExecutionMetrics, events: Seq<ModelEventView>, n: int)
    requires
        0 <= n <= events.len(),
        turn_events(metrics, events.subrange(0, n)) is Failed,
    ensures
        turn_events(metrics, events) == turn_events(metrics, events.subrange(0, n)),
    decreases events.len() - n,
{
    if n < events.len() {
        let next = events.subrange(0, n + 1);
        assert(next.drop_last() =~= events.subrange(0, n));
        lemma_turn_fails(metrics, events, n + 1);
    } else {
        assert(events.subrange(0, n) =~= events);
    }
}

/// A turn counts once, and its text is added to what was said before.
pub proof fn law_turns_are_counted(
    state: ContinuationView,
    run_id: Seq<char>,
    events: Seq<ModelEventView>,
)
    requires
        turn_result(state, run_id, events) is Done,
    ensures
        ({
            let result = turn_result(state, run_id, events)->Done_0;
            &&& result.metrics.turns == saturating_u32(state.metrics.turns)
            &&& result.metrics.elapsed_millis == state.metrics.elapsed_millis
            &&& result.summary.len() >= state.output.len()
            &&& result.summary.subrange(0, state.output.len() as int) == state.output
            &&& result.model_tool_yield is Some <==> result.status == "waiting-tool"@
        }),
{
    let result = turn_result(state, run_id, events)->Done_0;
    reveal_strlit("waiting-tool");
    reveal_strlit("completed");
    assert("waiting-tool"@.len() != "completed"@.len());
    assert(result.summary.subrange(0, state.output.len() as int) =~= state.output);
}

} // verus!
