//! Missions as the kernel shows them, and what is asked of the kernel.

use vstd::prelude::*;

use crate::json::{Json, JsonView};
use crate::exchange::ModelUsage;
use crate::model::{duplicate_all, duplicate_option, option_view, views, Duplicate};
use crate::ordered::{TextMap, TextSet};
use crate::text::texts;

verus! {

#[derive(Clone, Copy, Debug, PartialEq, Eq, Structural)]
pub enum MissionStatus {
    Created,
    Running,
    Completed,
    Cancelled,
    Failed,
}

#[derive(Clone, Copy, Debug, PartialEq, Eq, Structural)]
pub enum NodeStatus {
    Queued,
    Running,
    WaitingApproval,
    Submitted,
    Accepted,
    Failed,
    Cancelled,
}

#[derive(Clone, Copy, Debug, PartialEq, Eq, Structural)]
pub enum NodeKind {
    Task,
    Review,
    Merge,
}

#[derive(Clone, Copy, Debug, PartialEq, Eq, Structural)]
pub enum ApprovalDecision {
    Allow,
    Deny,
}

#[derive(Clone, Copy, Debug, PartialEq, Eq, Structural)]
pub enum EffectOutcome {
    Completed,
    Failed,
}

#[derive(Clone, Copy, Debug, PartialEq, Eq, Structural)]
pub enum EventPriority {
    Critical,
    Normal,
    Delta,
}

/// A node of a plan.
#[derive(Debug, PartialEq, Eq)]
pub struct WorkflowNodeDefinition {
    pub id: String,
    pub title: String,
    pub kind: NodeKind,
    pub depends_on: Vec<String>,
    pub agent_definition_id: String,
    pub requires_approval: Option<String>,
}

pub struct NodePlanView {
    pub id: Seq<char>,
    pub title: Seq<char>,
    pub kind: NodeKind,
    pub depends_on: Seq<Seq<char>>,
    pub agent_definition_id: Seq<char>,
    pub requires_approval: Option<Seq<char>>,
}

impl View for WorkflowNodeDefinition {
    type V = NodePlanView;

    open spec fn view(&self) -> NodePlanView {
        NodePlanView {
            id: self.id@,
            title: self.title@,
            kind: self.kind,
            depends_on: texts(self.depends_on@),
            agent_definition_id: self.agent_definition_id@,
            requires_approval: option_view(self.requires_approval),
        }
    }
}

impl Duplicate for WorkflowNodeDefinition {
    fn duplicate(&self) -> (r: Self) {
        WorkflowNodeDefinition {
            id: self.id.clone(),
            title: self.title.clone(),
            kind: self.kind,
            depends_on: duplicate_all(&self.depends_on),
            agent_definition_id: self.agent_definition_id.clone(),
            requires_approval: duplicate_option(&self.requires_approval),
        }
    }
}

/// A node of a mission, and how far it is.
#[derive(Debug, PartialEq, Eq)]
pub struct MissionNode {
    pub id: String,
    pub title: String,
    pub status: NodeStatus,
    pub run_id: Option<String>,
    pub depends_on: Vec<String>,
    pub agent_definition_id: String,
    pub output_summary: Option<String>,
}

pub struct MissionNodeView {
    pub id: Seq<char>,
    pub title: Seq<char>,
    pub status: NodeStatus,
    pub run_id: Option<Seq<char>>,
    pub depends_on: Seq<Seq<char>>,
    pub agent_definition_id: Seq<char>,
    pub output_summary: Option<Seq<char>>,
}

impl View for MissionNode {
    type V = MissionNodeView;

    open spec fn view(&self) -> MissionNodeView {
        MissionNodeView {
            id: self.id@,
            title: self.title@,
            status: self.status,
            run_id: option_view(self.run_id),
            depends_on: texts(self.depends_on@),
            agent_definition_id: self.agent_definition_id@,
            output_summary: option_view(self.output_summary),
        }
    }
}

impl Duplicate for MissionNode {
    fn duplicate(&self) -> (r: Self) {
        MissionNode {
            id: self.id.clone(),
            title: self.title.clone(),
            status: self.status,
            run_id: duplicate_option(&self.run_id),
            depends_on: duplicate_all(&self.depends_on),
            agent_definition_id: self.agent_definition_id.clone(),
            output_summary: duplicate_option(&self.output_summary),
        }
    }
}

#[derive(Debug, PartialEq, Eq)]
pub struct MissionRun {
    pub endpoint_id: String,
}

pub struct MissionRunView {
    pub endpoint_id: Seq<char>,
}

impl View for MissionRun {
    type V = MissionRunView;

    open spec fn view(&self) -> MissionRunView {
        MissionRunView {
            endpoint_id: self.endpoint_id@,
        }
    }
}

impl Duplicate for MissionRun {
    fn duplicate(&self) -> (r: Self) {
        MissionRun {
            endpoint_id: self.endpoint_id.clone(),
        }
    }
}

/// A mission: its nodes and its runs by id, and the approvals that it waits for.
#[derive(Debug, PartialEq, Eq)]
pub struct MissionState {
    pub mission_id: String,
    pub goal: String,
    pub status: MissionStatus,
    pub nodes: TextMap<MissionNode>,
    pub runs: TextMap<MissionRun>,
    pub pending_approvals: TextSet,
}

pub struct MissionView {
    pub mission_id: Seq<char>,
    pub goal: Seq<char>,
    pub status: MissionStatus,
    pub nodes: Map<Seq<char>, MissionNodeView>,
    pub runs: Map<Seq<char>, MissionRunView>,
    pub pending_approvals: Set<Seq<char>>,
}

impl View for MissionState {
    type V = MissionView;

    open spec fn view(&self) -> MissionView {
        MissionView {
            mission_id: self.mission_id@,
            goal: self.goal@,
            status: self.status,
            nodes: self.nodes@,
            runs: self.runs@,
            pending_approvals: self.pending_approvals@,
        }
    }
}

/// What can be asked of a mission.
#[derive(Debug, PartialEq, Eq)]
pub enum MissionCommand {
    CreateMission { mission_id: String, project_id: String, goal: String },
    InstallPlan { nodes: Vec<WorkflowNodeDefinition> },
    AppendPlanNodes { nodes: Vec<WorkflowNodeDefinition> },
    StartNode { node_id: String, run_id: String },
    SubmitNode { node_id: String, run_id: String, output_summary: String },
    AcceptNode { node_id: String, run_id: String },
    FailNode { node_id: String, run_id: String, error: String },
    CancelNode { node_id: String, reason: String },
    RequestApproval { node_id: String, run_id: String, approval_id: String, action: String, reason: String },
    ResolveApproval { approval_id: String, decision: ApprovalDecision },
    CompleteMission,
    CancelMission { reason: String },
}

pub enum CommandView {
    CreateMission { mission_id: Seq<char>, project_id: Seq<char>, goal: Seq<char> },
    InstallPlan { nodes: Seq<NodePlanView> },
    AppendPlanNodes { nodes: Seq<NodePlanView> },
    StartNode { node_id: Seq<char>, run_id: Seq<char> },
    SubmitNode { node_id: Seq<char>, run_id: Seq<char>, output_summary: Seq<char> },
    AcceptNode { node_id: Seq<char>, run_id: Seq<char> },
    FailNode { node_id: Seq<char>, run_id: Seq<char>, error: Seq<char> },
    CancelNode { node_id: Seq<char>, reason: Seq<char> },
    RequestApproval { node_id: Seq<char>, run_id: Seq<char>, approval_id: Seq<char>, action: Seq<char>, reason: Seq<char> },
    ResolveApproval { approval_id: Seq<char>, decision: ApprovalDecision },
    CompleteMission,
    CancelMission { reason: Seq<char> },
}

impl View for MissionCommand {
    type V = CommandView;

    open spec fn view(&self) -> CommandView {
        match *self {
            MissionCommand::CreateMission { mission_id, project_id, goal } => CommandView::CreateMission {
                mission_id: mission_id@,
                project_id: project_id@,
                goal: goal@,
            },
            MissionCommand::InstallPlan { nodes } => CommandView::InstallPlan {
                nodes: views(nodes@),
            },
            MissionCommand::AppendPlanNodes { nodes } => CommandView::AppendPlanNodes {
                nodes: views(nodes@),
            },
            MissionCommand::StartNode { node_id, run_id } => CommandView::StartNode {
                node_id: node_id@,
                run_id: run_id@,
            },
            MissionCommand::SubmitNode { node_id, run_id, output_summary } => CommandView::SubmitNode {
                node_id: node_id@,
                run_id: run_id@,
                output_summary: output_summary@,
            },
            MissionCommand::AcceptNode { node_id, run_id } => CommandView::AcceptNode {
                node_id: node_id@,
                run_id: run_id@,
            },
            MissionCommand::FailNode { node_id, run_id, error } => CommandView::FailNode {
                node_id: node_id@,
                run_id: run_id@,
                error: error@,
            },
            MissionCommand::CancelNode { node_id, reason } => CommandView::CancelNode {
                node_id: node_id@,
                reason: reason@,
            },
            MissionCommand::RequestApproval { node_id, run_id, approval_id, action, reason } => CommandView::RequestApproval {
                node_id: node_id@,
                run_id: run_id@,
                approval_id: approval_id@,
                action: action@,
                reason: reason@,
            },
            MissionCommand::ResolveApproval { approval_id, decision } => CommandView::ResolveApproval {
                approval_id: approval_id@,
                decision,
            },
            MissionCommand::CompleteMission => CommandView::CompleteMission,
            MissionCommand::CancelMission { reason } => CommandView::CancelMission {
                reason: reason@,
            },
        }
    }
}

/// What the kernel wants to be done outside of it.
#[derive(Debug, PartialEq, Eq)]
pub enum EffectIntent {
    StartAgentRun { node_id: String, run_id: String },
    ResumeAgentRun { node_id: String, run_id: String },
    VerifyAgentRun { node_id: String, run_id: String },
    CancelAgentRun { node_id: String, run_id: String, reason: String },
}

pub enum IntentView {
    StartAgentRun { node_id: Seq<char>, run_id: Seq<char> },
    ResumeAgentRun { node_id: Seq<char>, run_id: Seq<char> },
    VerifyAgentRun { node_id: Seq<char>, run_id: Seq<char> },
    CancelAgentRun { node_id: Seq<char>, run_id: Seq<char>, reason: Seq<char> },
}

impl View for EffectIntent {
    type V = IntentView;

    open spec fn view(&self) -> IntentView {
        match *self {
            EffectIntent::StartAgentRun { node_id, run_id } => IntentView::StartAgentRun {
                node_id: node_id@,
                run_id: run_id@,
            },
            EffectIntent::ResumeAgentRun { node_id, run_id } => IntentView::ResumeAgentRun {
                node_id: node_id@,
                run_id: run_id@,
            },
            EffectIntent::VerifyAgentRun { node_id, run_id } => IntentView::VerifyAgentRun {
                node_id: node_id@,
                run_id: run_id@,
            },
            EffectIntent::CancelAgentRun { node_id, run_id, reason } => IntentView::CancelAgentRun {
                node_id: node_id@,
                run_id: run_id@,
                reason: reason@,
            },
        }
    }
}

impl Duplicate for EffectIntent {
    fn duplicate(&self) -> (r: Self) {
        match self {
            EffectIntent::StartAgentRun { node_id, run_id } => EffectIntent::StartAgentRun {
                node_id: node_id.clone(),
                run_id: run_id.clone(),
            },
            EffectIntent::ResumeAgentRun { node_id, run_id } => EffectIntent::ResumeAgentRun {
                node_id: node_id.clone(),
                run_id: run_id.clone(),
            },
            EffectIntent::VerifyAgentRun { node_id, run_id } => EffectIntent::VerifyAgentRun {
                node_id: node_id.clone(),
                run_id: run_id.clone(),
            },
            EffectIntent::CancelAgentRun { node_id, run_id, reason } => EffectIntent::CancelAgentRun {
                node_id: node_id.clone(),
                run_id: run_id.clone(),
                reason: reason.clone(),
            },
        }
    }
}

/// An effect that can be claimed.
#[derive(Debug, PartialEq, Eq)]
pub struct EffectEntry {
    pub effect_id: String,
    pub mission_id: String,
    pub intent: EffectIntent,
}

pub struct EffectView {
    pub effect_id: Seq<char>,
    pub mission_id: Seq<char>,
    pub intent: IntentView,
}

impl View for EffectEntry {
    type V = EffectView;

    open spec fn view(&self) -> EffectView {
        EffectView {
            effect_id: self.effect_id@,
            mission_id: self.mission_id@,
            intent: self.intent@,
        }
    }
}

/// What shows that an effect is completed by the one that claimed it.
#[derive(Debug, PartialEq, Eq)]
pub struct CompletionFence {
    pub effect_id: String,
    pub mission_epoch: u64,
    pub claim_token: String,
    pub run_fence: Option<u64>,
}

pub struct FenceView {
    pub effect_id: Seq<char>,
    pub mission_epoch: u64,
    pub claim_token: Seq<char>,
    pub run_fence: Option<u64>,
}

impl View for CompletionFence {
    type V = FenceView;

    open spec fn view(&self) -> FenceView {
        FenceView {
            effect_id: self.effect_id@,
            mission_epoch: self.mission_epoch,
            claim_token: self.claim_token@,
            run_fence: self.run_fence,
        }
    }
}

impl Duplicate for CompletionFence {
    fn duplicate(&self) -> (r: Self) {
        CompletionFence {
            effect_id: self.effect_id.clone(),
            mission_epoch: self.mission_epoch,
            claim_token: self.claim_token.clone(),
            run_fence: self.run_fence,
        }
    }
}

#[derive(Debug, PartialEq, Eq)]
pub struct ClaimedEffect {
    pub fence: CompletionFence,
    pub intent: EffectIntent,
}

pub struct ClaimedEffectView {
    pub fence: FenceView,
    pub intent: IntentView,
}

impl View for ClaimedEffect {
    type V = ClaimedEffectView;

    open spec fn view(&self) -> ClaimedEffectView {
        ClaimedEffectView {
            fence: self.fence@,
            intent: self.intent@,
        }
    }
}

impl Duplicate for ClaimedEffect {
    fn duplicate(&self) -> (r: Self) {
        ClaimedEffect {
            fence: self.fence.duplicate(),
            intent: self.intent.duplicate(),
        }
    }
}

/// How an effect ended.
#[derive(Debug, PartialEq, Eq)]
pub struct EffectCompletion {
    pub fence: CompletionFence,
    pub outcome: EffectOutcome,
    pub result: Option<Json>,
    pub error: Option<String>,
    pub recorded_at_millis: i64,
}

pub struct CompletionView {
    pub fence: FenceView,
    pub outcome: EffectOutcome,
    pub result: Option<JsonView>,
    pub error: Option<Seq<char>>,
    pub recorded_at_millis: i64,
}

impl View for EffectCompletion {
    type V = CompletionView;

    open spec fn view(&self) -> CompletionView {
        CompletionView {
            fence: self.fence@,
            outcome: self.outcome,
            result: option_view(self.result),
            error: option_view(self.error),
            recorded_at_millis: self.recorded_at_millis,
        }
    }
}

/// What is shown of the work.
#[derive(Debug, PartialEq, Eq)]
pub enum HarnessEvent {
    AgentStatus { agent_id: String, role: String, status: String, detail: String },
    PlanChanged { accepted: usize, running: usize, pending: usize, blocked: usize },
    PermissionRequested { approval_id: String, invocation_id: Option<String>, action: String, risk: String, reason: String },
    ToolStatus { tool: String, status: String, summary: String },
    ReasoningSummary { agent_id: String, summary: String },
    TextOutput { text: String },
    ModelUsage { usage: ModelUsage },
    ModelChanged { provider: String, model: String, reasoning_requested: String, reasoning_effective: Option<String>, reasoning_mapping: String },
    GoalChanged { revision_id: Option<String>, text: Option<String>, locked: bool },
    ContextChanged { used_tokens: u64, max_tokens: u64, cache_percent: Option<u8> },
    SessionChanged { status: String },
    SystemStarted { version: String, mode: String },
    SystemReady { project_root: String },
    SystemShutdown { reason: String },
    McpStatus { server_id: String, status: String, detail: String },
    PluginStatus { plugin_id: String, status: String, detail: String },
    SkillStatus { skill_id: String, status: String, detail: String },
    BrowserStatus { session_id: String, status: String, detail: String },
}

pub enum EventView {
    AgentStatus { agent_id: Seq<char>, role: Seq<char>, status: Seq<char>, detail: Seq<char> },
    PlanChanged { accepted: usize, running: usize, pending: usize, blocked: usize },
    PermissionRequested { approval_id: Seq<char>, invocation_id: Option<Seq<char>>, action: Seq<char>, risk: Seq<char>, reason: Seq<char> },
    ToolStatus { tool: Seq<char>, status: Seq<char>, summary: Seq<char> },
    ReasoningSummary { agent_id: Seq<char>, summary: Seq<char> },
    TextOutput { text: Seq<char> },
    ModelUsage { usage: ModelUsage },
    ModelChanged { provider: Seq<char>, model: Seq<char>, reasoning_requested: Seq<char>, reasoning_effective: Option<Seq<char>>, reasoning_mapping: Seq<char> },
    GoalChanged { revision_id: Option<Seq<char>>, text: Option<Seq<char>>, locked: bool },
    ContextChanged { used_tokens: u64, max_tokens: u64, cache_percent: Option<u8> },
    SessionChanged { status: Seq<char> },
    SystemStarted { version: Seq<char>, mode: Seq<char> },
    SystemReady { project_root: Seq<char> },
    SystemShutdown { reason: Seq<char> },
    McpStatus { server_id: Seq<char>, status: Seq<char>, detail: Seq<char> },
    PluginStatus { plugin_id: Seq<char>, status: Seq<char>, detail: Seq<char> },
    SkillStatus { skill_id: Seq<char>, status: Seq<char>, detail: Seq<char> },
    BrowserStatus { session_id: Seq<char>, status: Seq<char>, detail: Seq<char> },
}

impl View for HarnessEvent {
    type V = EventView;

    open spec fn view(&self) -> EventView {
        match *self {
            HarnessEvent::AgentStatus { agent_id, role, status, detail } => EventView::AgentStatus {
                agent_id: agent_id@,
                role: role@,
                status: status@,
                detail: detail@,
            },
            HarnessEvent::PlanChanged { accepted, running, pending, blocked } => EventView::PlanChanged {
                accepted,
                running,
                pending,
                blocked,
            },
            HarnessEvent::PermissionRequested { approval_id, invocation_id, action, risk, reason } => EventView::PermissionRequested {
                approval_id: approval_id@,
                invocation_id: option_view(invocation_id),
                action: action@,
                risk: risk@,
                reason: reason@,
            },
            HarnessEvent::ToolStatus { tool, status, summary } => EventView::ToolStatus {
                tool: tool@,
                status: status@,
                summary: summary@,
            },
            HarnessEvent::ReasoningSummary { agent_id, summary } => EventView::ReasoningSummary {
                agent_id: agent_id@,
                summary: summary@,
            },
            HarnessEvent::TextOutput { text } => EventView::TextOutput {
                text: text@,
            },
            HarnessEvent::ModelUsage { usage } => EventView::ModelUsage {
                usage,
            },
            HarnessEvent::ModelChanged {
                provider,
                model,
                reasoning_requested,
                reasoning_effective,
                reasoning_mapping,
            } => EventView::ModelChanged {
                provider: provider@,
                model: model@,
                reasoning_requested: reasoning_requested@,
                reasoning_effective: option_view(reasoning_effective),
                reasoning_mapping: reasoning_mapping@,
            },
            HarnessEvent::GoalChanged { revision_id, text, locked } => EventView::GoalChanged {
                revision_id: option_view(revision_id),
                text: option_view(text),
                locked,
            },
            HarnessEvent::ContextChanged { used_tokens, max_tokens, cache_percent }
                => EventView::ContextChanged { used_tokens, max_tokens, cache_percent },
            HarnessEvent::SessionChanged { status } => EventView::SessionChanged {
                status: status@,
            },
            HarnessEvent::SystemStarted { version, mode } => EventView::SystemStarted {
                version: version@,
                mode: mode@,
            },
            HarnessEvent::SystemReady { project_root } => EventView::SystemReady {
                project_root: project_root@,
            },
            HarnessEvent::SystemShutdown { reason } => EventView::SystemShutdown {
                reason: reason@,
            },
            HarnessEvent::McpStatus { server_id, status, detail } => EventView::McpStatus {
                server_id: server_id@,
                status: status@,
                detail: detail@,
            },
            HarnessEvent::PluginStatus { plugin_id, status, detail } => EventView::PluginStatus {
                plugin_id: plugin_id@,
                status: status@,
                detail: detail@,
            },
            HarnessEvent::SkillStatus { skill_id, status, detail } => EventView::SkillStatus {
                skill_id: skill_id@,
                status: status@,
                detail: detail@,
            },
            HarnessEvent::BrowserStatus { session_id, status, detail } => EventView::BrowserStatus {
                session_id: session_id@,
                status: status@,
                detail: detail@,
            },
        }
    }
}

/// One thing to do with a mission, after those before it were done.
#[derive(Debug, PartialEq, Eq)]
pub enum MissionStep {
    Command { command: MissionCommand },
    Complete { completion: EffectCompletion },
    Publish { event: HarnessEvent, priority: EventPriority },
}

pub enum MissionStepView {
    Command { command: CommandView },
    Complete { completion: CompletionView },
    Publish { event: EventView, priority: EventPriority },
}

impl View for MissionStep {
    type V = MissionStepView;

    open spec fn view(&self) -> MissionStepView {
        match *self {
            MissionStep::Command { command } => MissionStepView::Command {
                command: command@,
            },
            MissionStep::Complete { completion } => MissionStepView::Complete {
                completion: completion@,
            },
            MissionStep::Publish { event, priority } => MissionStepView::Publish {
                event: event@,
                priority,
            },
        }
    }
}

} // verus!
