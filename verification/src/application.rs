//! The state of the application: what it holds of its agents between two calls.

use vstd::prelude::*;

use crate::budget::{AgentBudgetManager, AgentBudgetPolicy, EscrowView};
use crate::cancellation::{ControlView, RunCancellationTree};
use crate::catalog::{AgentCatalog, CatalogView};
use crate::exchange::{
    AgentModelContinuation, AgentToolCall, CallView, ContinuationView, InputView, ModelInputItem,
    ModelSelection, SelectionView, ToolDefinition, ToolView,
};
use crate::execution::{AgentExecutionRequest, RequestView};
use crate::json::{Json, JsonView};
use crate::leases::{FileLeaseManager, LeaseTableView};
use crate::messages::{AgentMessageBus, BusView};
use crate::mission::{ClaimedEffect, ClaimedEffectView};
use crate::model::{duplicate_all, duplicate_option, option_view, views, Duplicate};
use crate::ordered::TextMap;
use crate::state_store::{AgentStateStore, StateView};

verus! {

/// The limits of the mode that the application runs in.
#[derive(Debug, PartialEq, Eq)]
pub struct ModeProfile {
    pub mode: String,
    pub max_agents: usize,
    pub max_parallel_agents: usize,
    pub max_total_tokens: u64,
    pub max_tool_calls: u64,
    pub max_runtime_millis: u64,
    pub max_retries: u32,
    pub max_cost_units: u64,
    pub max_on_demand_tools: usize,
    pub context_window_tokens: u32,
    pub reserved_tool_tokens: u32,
    pub proactive_semantic_retrieval: bool,
}

pub struct ModeView {
    pub mode: Seq<char>,
    pub max_agents: usize,
    pub max_parallel_agents: usize,
    pub max_total_tokens: u64,
    pub max_tool_calls: u64,
    pub max_runtime_millis: u64,
    pub max_retries: u32,
    pub max_cost_units: u64,
    pub max_on_demand_tools: usize,
    pub context_window_tokens: u32,
    pub reserved_tool_tokens: u32,
    pub proactive_semantic_retrieval: bool,
}

impl View for ModeProfile {
    type V = ModeView;

    open spec fn view(&self) -> ModeView {
        ModeView {
            mode: self.mode@,
            max_agents: self.max_agents,
            max_parallel_agents: self.max_parallel_agents,
            max_total_tokens: self.max_total_tokens,
            max_tool_calls: self.max_tool_calls,
            max_runtime_millis: self.max_runtime_millis,
            max_retries: self.max_retries,
            max_cost_units: self.max_cost_units,
            max_on_demand_tools: self.max_on_demand_tools,
            context_window_tokens: self.context_window_tokens,
            reserved_tool_tokens: self.reserved_tool_tokens,
            proactive_semantic_retrieval: self.proactive_semantic_retrieval,
        }
    }
}

impl Duplicate for ModeProfile {
    fn duplicate(&self) -> (r: Self) {
        ModeProfile {
            mode: self.mode.clone(),
            max_agents: self.max_agents,
            max_parallel_agents: self.max_parallel_agents,
            max_total_tokens: self.max_total_tokens,
            max_tool_calls: self.max_tool_calls,
            max_runtime_millis: self.max_runtime_millis,
            max_retries: self.max_retries,
            max_cost_units: self.max_cost_units,
            max_on_demand_tools: self.max_on_demand_tools,
            context_window_tokens: self.context_window_tokens,
            reserved_tool_tokens: self.reserved_tool_tokens,
            proactive_semantic_retrieval: self.proactive_semantic_retrieval,
        }
    }
}

/// Who asked for a tool.
#[derive(Clone, Copy, Debug, PartialEq, Eq, Structural)]
pub enum ToolOrigin {
    User,
    Agent,
}

/// How far the call of a tool is. A status that nothing depends on is known by its name.
#[derive(Debug, PartialEq, Eq)]
pub enum ToolInvocationStatus {
    Completed,
    WaitingApproval,
    Other { name: String },
}

pub enum ToolStatusView {
    Completed,
    WaitingApproval,
    Other { name: Seq<char> },
}

impl View for ToolInvocationStatus {
    type V = ToolStatusView;

    open spec fn view(&self) -> ToolStatusView {
        match *self {
            ToolInvocationStatus::Completed => ToolStatusView::Completed,
            ToolInvocationStatus::WaitingApproval => ToolStatusView::WaitingApproval,
            ToolInvocationStatus::Other { name } => ToolStatusView::Other {
                name: name@,
            },
        }
    }
}

impl Duplicate for ToolInvocationStatus {
    fn duplicate(&self) -> (r: Self) {
        match self {
            ToolInvocationStatus::Completed => ToolInvocationStatus::Completed,
            ToolInvocationStatus::WaitingApproval => ToolInvocationStatus::WaitingApproval,
            ToolInvocationStatus::Other { name } => ToolInvocationStatus::Other {
                name: name.clone(),
            },
        }
    }
}

/// The record of a call of a tool.
#[derive(Debug, PartialEq, Eq)]
pub struct ToolInvocation {
    pub id: String,
    pub tool_name: String,
    pub args: Json,
    pub status: ToolInvocationStatus,
    pub approval_request_id: Option<String>,
    pub permission_action: Json,
    pub result: Option<Json>,
    pub mission_id: String,
    pub run_id: Option<String>,
    pub origin: ToolOrigin,
}

pub struct InvocationView {
    pub id: Seq<char>,
    pub tool_name: Seq<char>,
    pub args: JsonView,
    pub status: ToolStatusView,
    pub approval_request_id: Option<Seq<char>>,
    pub permission_action: JsonView,
    pub result: Option<JsonView>,
    pub mission_id: Seq<char>,
    pub run_id: Option<Seq<char>>,
    pub origin: ToolOrigin,
}

impl View for ToolInvocation {
    type V = InvocationView;

    open spec fn view(&self) -> InvocationView {
        InvocationView {
            id: self.id@,
            tool_name: self.tool_name@,
            args: self.args@,
            status: self.status@,
            approval_request_id: option_view(self.approval_request_id),
            permission_action: self.permission_action@,
            result: option_view(self.result),
            mission_id: self.mission_id@,
            run_id: option_view(self.run_id),
            origin: self.origin,
        }
    }
}

impl Duplicate for ToolInvocation {
    fn duplicate(&self) -> (r: Self) {
        ToolInvocation {
            id: self.id.clone(),
            tool_name: self.tool_name.clone(),
            args: self.args.copy(),
            status: self.status.duplicate(),
            approval_request_id: duplicate_option(&self.approval_request_id),
            permission_action: self.permission_action.copy(),
            result: duplicate_option(&self.result),
            mission_id: self.mission_id.clone(),
            run_id: duplicate_option(&self.run_id),
            origin: self.origin,
        }
    }
}

/// A call that a model asked for, and its invocation once there is one.
#[derive(Debug, PartialEq, Eq)]
pub struct PendingToolCall {
    pub call: AgentToolCall,
    pub invocation_id: Option<String>,
}

pub struct PendingCallView {
    pub call: CallView,
    pub invocation_id: Option<Seq<char>>,
}

impl View for PendingToolCall {
    type V = PendingCallView;

    open spec fn view(&self) -> PendingCallView {
        PendingCallView {
            call: self.call@,
            invocation_id: option_view(self.invocation_id),
        }
    }
}

impl Duplicate for PendingToolCall {
    fn duplicate(&self) -> (r: Self) {
        PendingToolCall {
            call: self.call.duplicate(),
            invocation_id: duplicate_option(&self.invocation_id),
        }
    }
}

/// A conversation of the main agent with a model.
#[derive(Debug, PartialEq, Eq)]
pub struct ModelLoopState {
    pub selection: ModelSelection,
    pub canonical_context: String,
    pub tools: Vec<ToolDefinition>,
    pub transcript: Vec<ModelInputItem>,
    pub next_input: Vec<ModelInputItem>,
    pub previous_response_id: Option<String>,
    pub output: String,
    pub next_turn: u8,
}

pub struct LoopView {
    pub selection: SelectionView,
    pub canonical_context: Seq<char>,
    pub tools: Seq<ToolView>,
    pub transcript: Seq<InputView>,
    pub next_input: Seq<InputView>,
    pub previous_response_id: Option<Seq<char>>,
    pub output: Seq<char>,
    pub next_turn: u8,
}

impl View for ModelLoopState {
    type V = LoopView;

    open spec fn view(&self) -> LoopView {
        LoopView {
            selection: self.selection@,
            canonical_context: self.canonical_context@,
            tools: views(self.tools@),
            transcript: views(self.transcript@),
            next_input: views(self.next_input@),
            previous_response_id: option_view(self.previous_response_id),
            output: self.output@,
            next_turn: self.next_turn,
        }
    }
}

impl Duplicate for ModelLoopState {
    fn duplicate(&self) -> (r: Self) {
        ModelLoopState {
            selection: self.selection.duplicate(),
            canonical_context: self.canonical_context.clone(),
            tools: duplicate_all(&self.tools),
            transcript: duplicate_all(&self.transcript),
            next_input: duplicate_all(&self.next_input),
            previous_response_id: duplicate_option(&self.previous_response_id),
            output: self.output.clone(),
            next_turn: self.next_turn,
        }
    }
}

/// The calls of one answer that are still to be made, and the results of those that were.
#[derive(Debug, PartialEq, Eq)]
pub struct PendingToolBatch {
    pub response_id: Option<String>,
    pub results: Vec<ModelInputItem>,
    pub calls: Vec<PendingToolCall>,
}

pub struct BatchCallsView {
    pub response_id: Option<Seq<char>>,
    pub results: Seq<InputView>,
    pub calls: Seq<PendingCallView>,
}

impl View for PendingToolBatch {
    type V = BatchCallsView;

    open spec fn view(&self) -> BatchCallsView {
        BatchCallsView {
            response_id: option_view(self.response_id),
            results: views(self.results@),
            calls: views(self.calls@),
        }
    }
}

impl Duplicate for PendingToolBatch {
    fn duplicate(&self) -> (r: Self) {
        PendingToolBatch {
            response_id: duplicate_option(&self.response_id),
            results: duplicate_all(&self.results),
            calls: duplicate_all(&self.calls),
        }
    }
}

/// A conversation that waits for an approval.
#[derive(Debug, PartialEq, Eq)]
pub struct PendingModelContinuation {
    pub mission_id: String,
    pub run_id: String,
    pub state: ModelLoopState,
    pub batch: PendingToolBatch,
}

pub struct PendingModelView {
    pub mission_id: Seq<char>,
    pub run_id: Seq<char>,
    pub state: LoopView,
    pub batch: BatchCallsView,
}

impl View for PendingModelContinuation {
    type V = PendingModelView;

    open spec fn view(&self) -> PendingModelView {
        PendingModelView {
            mission_id: self.mission_id@,
            run_id: self.run_id@,
            state: self.state@,
            batch: self.batch@,
        }
    }
}

impl Duplicate for PendingModelContinuation {
    fn duplicate(&self) -> (r: Self) {
        PendingModelContinuation {
            mission_id: self.mission_id.clone(),
            run_id: self.run_id.clone(),
            state: self.state.duplicate(),
            batch: self.batch.duplicate(),
        }
    }
}

/// An agent of a team that waits for the approval of a call.
#[derive(Debug, PartialEq, Eq)]
pub struct WaitingParallelTool {
    pub invocation: ToolInvocation,
    pub continuation: AgentModelContinuation,
    pub waiting_call: AgentToolCall,
    pub remaining_calls: Vec<AgentToolCall>,
}

pub struct WaitingToolView {
    pub invocation: InvocationView,
    pub continuation: ContinuationView,
    pub waiting_call: CallView,
    pub remaining_calls: Seq<CallView>,
}

impl View for WaitingParallelTool {
    type V = WaitingToolView;

    open spec fn view(&self) -> WaitingToolView {
        WaitingToolView {
            invocation: self.invocation@,
            continuation: self.continuation@,
            waiting_call: self.waiting_call@,
            remaining_calls: views(self.remaining_calls@),
        }
    }
}

impl Duplicate for WaitingParallelTool {
    fn duplicate(&self) -> (r: Self) {
        WaitingParallelTool {
            invocation: self.invocation.duplicate(),
            continuation: self.continuation.duplicate(),
            waiting_call: self.waiting_call.duplicate(),
            remaining_calls: duplicate_all(&self.remaining_calls),
        }
    }
}

#[derive(Debug, PartialEq, Eq)]
pub struct PendingParallelToolContinuation {
    pub request: AgentExecutionRequest,
    pub waiting: WaitingParallelTool,
    pub prompt: String,
}

pub struct PendingParallelView {
    pub request: RequestView,
    pub waiting: WaitingToolView,
    pub prompt: Seq<char>,
}

impl View for PendingParallelToolContinuation {
    type V = PendingParallelView;

    open spec fn view(&self) -> PendingParallelView {
        PendingParallelView {
            request: self.request@,
            waiting: self.waiting@,
            prompt: self.prompt@,
        }
    }
}

impl Duplicate for PendingParallelToolContinuation {
    fn duplicate(&self) -> (r: Self) {
        PendingParallelToolContinuation {
            request: self.request.duplicate(),
            waiting: self.waiting.duplicate(),
            prompt: self.prompt.clone(),
        }
    }
}

/// What it takes to go on after the agents of a team were called: the effects that were claimed for
/// their runs, and the requests that they got.
#[derive(Debug, PartialEq, Eq)]
pub struct AgentTeamContinuation {
    pub mission_id: String,
    pub prompt: String,
    pub claimed_by_run: TextMap<ClaimedEffect>,
    pub requests_by_run: TextMap<AgentExecutionRequest>,
}

pub struct TeamView {
    pub mission_id: Seq<char>,
    pub prompt: Seq<char>,
    pub claimed_by_run: Map<Seq<char>, ClaimedEffectView>,
    pub requests_by_run: Map<Seq<char>, RequestView>,
}

impl View for AgentTeamContinuation {
    type V = TeamView;

    open spec fn view(&self) -> TeamView {
        TeamView {
            mission_id: self.mission_id@,
            prompt: self.prompt@,
            claimed_by_run: self.claimed_by_run@,
            requests_by_run: self.requests_by_run@,
        }
    }
}

/// Agents to be called at the same time, some of them at once.
#[derive(Debug, PartialEq, Eq)]
pub struct AgentTeamModelJob {
    pub max_parallel: usize,
    pub requests: Vec<AgentExecutionRequest>,
    pub started_at_millis: i64,
}

pub struct JobView {
    pub max_parallel: usize,
    pub requests: Seq<RequestView>,
    pub started_at_millis: i64,
}

impl View for AgentTeamModelJob {
    type V = JobView;

    open spec fn view(&self) -> JobView {
        JobView {
            max_parallel: self.max_parallel,
            requests: views(self.requests@),
            started_at_millis: self.started_at_millis,
        }
    }
}

#[derive(Debug, PartialEq, Eq)]
pub struct PreparedAgentTeam {
    pub job: AgentTeamModelJob,
    pub continuation: AgentTeamContinuation,
}

pub struct PreparedView {
    pub job: JobView,
    pub continuation: TeamView,
}

impl View for PreparedAgentTeam {
    type V = PreparedView;

    open spec fn view(&self) -> PreparedView {
        PreparedView {
            job: self.job@,
            continuation: self.continuation@,
        }
    }
}

/// The state of the application. What it leaves to others, such as the store of the missions, the
/// model and the tools, is asked for and answered from outside.
pub struct HarnessApplication {
    pub project_id: String,
    pub project_root: String,
    pub session_id: String,
    pub active_mission_id: Option<String>,
    /// Whether there is a model to call.
    pub model_ready: bool,
    /// Whether there are tools to call.
    pub tools_ready: bool,
    pub agent_catalog: Option<AgentCatalog>,
    pub agent_messages: Option<AgentMessageBus>,
    pub file_leases: Option<FileLeaseManager>,
    pub agent_state: Option<AgentStateStore>,
    pub agent_budgets: Option<AgentBudgetManager>,
    pub run_controls: RunCancellationTree,
    pub mode_profile: ModeProfile,
    pub agent_budget_policy: AgentBudgetPolicy,
    pub pending_model_continuations: TextMap<PendingModelContinuation>,
    pub pending_parallel_tool_continuations: TextMap<PendingParallelToolContinuation>,
    pub ready_parallel_resume: Option<PreparedAgentTeam>,
}

pub struct AppView {
    pub project_id: Seq<char>,
    pub project_root: Seq<char>,
    pub session_id: Seq<char>,
    pub active_mission_id: Option<Seq<char>>,
    pub model_ready: bool,
    pub tools_ready: bool,
    pub agent_catalog: Option<CatalogView>,
    pub agent_messages: Option<BusView>,
    pub file_leases: Option<LeaseTableView>,
    pub agent_state: Option<StateView>,
    pub agent_budgets: Option<Seq<EscrowView>>,
    pub run_controls: Seq<ControlView>,
    pub mode_profile: ModeView,
    pub agent_budget_policy: AgentBudgetPolicy,
    pub pending_model: Map<Seq<char>, PendingModelView>,
    pub pending_parallel: Map<Seq<char>, PendingParallelView>,
    pub ready_parallel_resume: Option<PreparedView>,
}

impl View for HarnessApplication {
    type V = AppView;

    open spec fn view(&self) -> AppView {
        AppView {
            project_id: self.project_id@,
            project_root: self.project_root@,
            session_id: self.session_id@,
            active_mission_id: option_view(self.active_mission_id),
            model_ready: self.model_ready,
            tools_ready: self.tools_ready,
            agent_catalog: option_view(self.agent_catalog),
            agent_messages: option_view(self.agent_messages),
            file_leases: option_view(self.file_leases),
            agent_state: option_view(self.agent_state),
            agent_budgets: option_view(self.agent_budgets),
            run_controls: self.run_controls@,
            mode_profile: self.mode_profile@,
            agent_budget_policy: self.agent_budget_policy,
            pending_model: self.pending_model_continuations@,
            pending_parallel: self.pending_parallel_tool_continuations@,
            ready_parallel_resume: option_view(self.ready_parallel_resume),
        }
    }
}

/// What the agents of a team may use in a mode.
pub open spec fn mode_budget(profile: ModeView) -> AgentBudgetPolicy {
    AgentBudgetPolicy {
        max_agents: profile.max_agents,
        max_parallel_agents: profile.max_parallel_agents,
        max_total_tokens: profile.max_total_tokens,
        max_tool_calls: profile.max_tool_calls,
        max_runtime_millis: profile.max_runtime_millis,
        max_retries: profile.max_retries,
    }
}

pub fn mode_agent_budget(profile: &ModeProfile) -> (r: AgentBudgetPolicy)
    ensures
        r == mode_budget(profile@),
{
    AgentBudgetPolicy {
        max_agents: profile.max_agents,
        max_parallel_agents: profile.max_parallel_agents,
        max_total_tokens: profile.max_total_tokens,
        max_tool_calls: profile.max_tool_calls,
        max_runtime_millis: profile.max_runtime_millis,
        max_retries: profile.max_retries,
    }
}

pub open spec fn new_application(
    project_id: Seq<char>,
    project_root: Seq<char>,
    session_id: Seq<char>,
    mode: ModeView,
) -> AppView {
    AppView {
        project_id,
        project_root,
        session_id,
        active_mission_id: None,
        model_ready: false,
        tools_ready: false,
        agent_catalog: None,
        agent_messages: None,
        file_leases: None,
        agent_state: None,
        agent_budgets: None,
        run_controls: Seq::empty(),
        mode_profile: mode,
        agent_budget_policy: mode_budget(mode),
        pending_model: Map::empty(),
        pending_parallel: Map::empty(),
        ready_parallel_resume: None,
    }
}

impl HarnessApplication {
    pub fn new(
        project_id: String,
        project_root: String,
        session_id: String,
        mode_profile: ModeProfile,
    ) -> (r: Self)
        ensures
            r@ == new_application(project_id@, project_root@, session_id@, mode_profile@),
    {
        let agent_budget_policy = mode_agent_budget(&mode_profile);
        HarnessApplication {
            project_id,
            project_root,
            session_id,
            active_mission_id: None,
            model_ready: false,
            tools_ready: false,
            agent_catalog: None,
            agent_messages: None,
            file_leases: None,
            agent_state: None,
            agent_budgets: None,
            run_controls: RunCancellationTree::new(),
            mode_profile,
            agent_budget_policy,
            pending_model_continuations: TextMap::new(),
            pending_parallel_tool_continuations: TextMap::new(),
            ready_parallel_resume: None,
        }
    }

    /// The application with a model to call.
    pub fn with_model_runtime(self) -> (r: Self)
        ensures
            r@ == (AppView { model_ready: true, ..self@ }),
    {
        let mut r = self;
        r.model_ready = true;
        r
    }

    /// The application with tools to call.
    pub fn with_tool_runtime(self) -> (r: Self)
        ensures
            r@ == (AppView { tools_ready: true, ..self@ }),
    {
        let mut r = self;
        r.tools_ready = true;
        r
    }

    pub fn with_agent_catalog(self, catalog: AgentCatalog) -> (r: Self)
        ensures
            r@ == (AppView { agent_catalog: Some(catalog@), ..self@ }),
    {
        let mut r = self;
        r.agent_catalog = Some(catalog);
        r
    }

    pub fn with_agent_control_plane(
        self,
        messages: AgentMessageBus,
        file_leases: FileLeaseManager,
        state: AgentStateStore,
        budgets: AgentBudgetManager,
    ) -> (r: Self)
        ensures
            r@ == (AppView {
                agent_messages: Some(messages@),
                file_leases: Some(file_leases@),
                agent_state: Some(state@),
                agent_budgets: Some(budgets@),
                ..self@
            }),
    {
        let mut r = self;
        r.agent_messages = Some(messages);
        r.file_leases = Some(file_leases);
        r.agent_state = Some(state);
        r.agent_budgets = Some(budgets);
        r
    }

    pub fn mode_profile(&self) -> (r: ModeProfile)
        ensures
            r@ == self@.mode_profile,
    {
        self.mode_profile.duplicate()
    }

    /// Changes the mode, and with it what the agents may use.
    pub fn set_mode(&mut self, mode_profile: ModeProfile)
        ensures
            final(self)@ == (AppView {
                mode_profile: mode_profile@,
                agent_budget_policy: mode_budget(mode_profile@),
                ..old(self)@
            }),
    {
        self.agent_budget_policy = mode_agent_budget(&mode_profile);
        self.mode_profile = mode_profile;
    }

    /// Takes the team that is ready to go on after an approval.
    pub fn take_ready_parallel_resume(&mut self) -> (r: Option<PreparedAgentTeam>)
        ensures
            option_view(r) == old(self)@.ready_parallel_resume,
            final(self)@ == (AppView { ready_parallel_resume: None, ..old(self)@ }),
    {
        let mut ready: Option<PreparedAgentTeam> = None;
        std::mem::swap(&mut ready, &mut self.ready_parallel_resume);
        ready
    }
}

} // verus!
