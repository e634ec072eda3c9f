//! The life of a mission as the application starts it and as others see it.

use vstd::prelude::*;
use vstd::string::*;

use crate::application::{AppView, HarnessApplication};
use crate::json::{json_parsed, json_text, member_of, text_value, Json, JsonView};
use crate::mission::{
    ApprovalDecision, CommandView, EffectIntent, EventPriority, EventView, HarnessEvent, IntentView,
    MissionCommand, MissionState, MissionStatus, MissionView,
};
use crate::model::{option_view, views};
use crate::plans::{
    main_plan, main_task_plan, no_plan, plan_of, plan_view, some_waiting, waits_for_approval,
    PlanModel, PlanView,
};

verus! {

/// What happened to a mission.
#[derive(Debug, PartialEq, Eq)]
pub enum DomainEvent {
    MissionCreated { goal: String },
    MissionPlanInstalled,
    MissionNodesAppended,
    NodeStarted,
    NodeSubmitted,
    NodeAccepted,
    NodeFailed,
    NodeCancelled,
    MissionCompleted,
    MissionCancelled,
    ApprovalRequested { approval_id: String, action: String, reason: String },
    ApprovalResolved { approval_id: String, decision: ApprovalDecision },
}

pub enum DomainView {
    MissionCreated { goal: Seq<char> },
    MissionPlanInstalled,
    MissionNodesAppended,
    NodeStarted,
    NodeSubmitted,
    NodeAccepted,
    NodeFailed,
    NodeCancelled,
    MissionCompleted,
    MissionCancelled,
    ApprovalRequested { approval_id: Seq<char>, action: Seq<char>, reason: Seq<char> },
    ApprovalResolved { approval_id: Seq<char>, decision: ApprovalDecision },
}

impl View for DomainEvent {
    type V = DomainView;

    open spec fn view(&self) -> DomainView {
        match *self {
            DomainEvent::MissionCreated { goal } => DomainView::MissionCreated {
                goal: goal@,
            },
            DomainEvent::MissionPlanInstalled => DomainView::MissionPlanInstalled,
            DomainEvent::MissionNodesAppended => DomainView::MissionNodesAppended,
            DomainEvent::NodeStarted => DomainView::NodeStarted,
            DomainEvent::NodeSubmitted => DomainView::NodeSubmitted,
            DomainEvent::NodeAccepted => DomainView::NodeAccepted,
            DomainEvent::NodeFailed => DomainView::NodeFailed,
            DomainEvent::NodeCancelled => DomainView::NodeCancelled,
            DomainEvent::MissionCompleted => DomainView::MissionCompleted,
            DomainEvent::MissionCancelled => DomainView::MissionCancelled,
            DomainEvent::ApprovalRequested { approval_id, action, reason } => DomainView::ApprovalRequested {
                approval_id: approval_id@,
                action: action@,
                reason: reason@,
            },
            DomainEvent::ApprovalResolved { approval_id, decision } => DomainView::ApprovalResolved {
                approval_id: approval_id@,
                decision,
            },
        }
    }
}

/// Where an event belongs.
#[derive(Debug, PartialEq, Eq)]
pub struct EventScope {
    pub session_id: Option<String>,
    pub mission_id: Option<String>,
    pub trace_id: Option<String>,
}

pub struct ScopeView {
    pub session_id: Option<Seq<char>>,
    pub mission_id: Option<Seq<char>>,
    pub trace_id: Option<Seq<char>>,
}

impl View for EventScope {
    type V = ScopeView;

    open spec fn view(&self) -> ScopeView {
        ScopeView {
            session_id: option_view(self.session_id),
            mission_id: option_view(self.mission_id),
            trace_id: option_view(self.trace_id),
        }
    }
}

/// Whether what happened may have changed the counts of the plan.
pub open spec fn changes_plan(event: DomainView) -> bool {
    !(event is MissionCreated || event is ApprovalRequested || event is ApprovalResolved)
}

/// Only a request for an approval is urgent.
pub open spec fn priority_of_event(event: DomainView) -> EventPriority {
    if event is ApprovalRequested {
        EventPriority::Critical
    } else {
        EventPriority::Normal
    }
}

/// A request for an approval as it is shown. An action that is a JSON object may name the call, the
/// risk and the permission that is asked for.
pub open spec fn permission_event(
    approval_id: Seq<char>,
    action: Seq<char>,
    reason: Seq<char>,
    metadata: Option<JsonView>,
) -> EventView {
    EventView::PermissionRequested {
        approval_id,
        invocation_id: text_value(member_of(metadata, "toolInvocationId"@)),
        action: match member_of(metadata, "permission"@) {
            Some(permission) => json_text(permission),
            None => action,
        },
        risk: match text_value(member_of(metadata, "risk"@)) {
            Some(risk) => risk,
            None => "medium"@,
        },
        reason,
    }
}

pub open spec fn decision_text(decision: ApprovalDecision) -> Seq<char> {
    match decision {
        ApprovalDecision::Allow => "Allow"@,
        ApprovalDecision::Deny => "Deny"@,
    }
}

/// What happened to a mission as others see it.
pub open spec fn shown_event(
    event: DomainView,
    metadata: Option<JsonView>,
    plan: PlanModel,
) -> EventView {
    match event {
        DomainView::MissionCreated { goal } => EventView::ReasoningSummary {
            agent_id: "agent:planner"@,
            summary: "创建 Mission："@ + goal,
        },
        DomainView::ApprovalRequested { approval_id, action, reason } => permission_event(
            approval_id,
            action,
            reason,
            metadata,
        ),
        DomainView::ApprovalResolved { approval_id, decision } => EventView::ToolStatus {
            tool: approval_id,
            status: "approval-resolved"@,
            summary: decision_text(decision),
        },
        _ => EventView::PlanChanged {
            accepted: plan.accepted as usize,
            running: plan.running as usize,
            pending: plan.pending as usize,
            blocked: plan.blocked as usize,
        },
    }
}

/// What a request for an approval says of the call that it is about: its action, read as JSON.
pub open spec fn metadata_of(event: DomainView) -> Option<JsonView> {
    match event {
        DomainView::ApprovalRequested { action, .. } => json_parsed(action),
        _ => None,
    }
}

/// What happened to a mission as it is published, and how urgent it is.
pub fn publish_mission_event(event: &DomainEvent, plan: &PlanView) -> (r: (
    HarnessEvent,
    EventPriority,
))
    ensures
        r.0@ == shown_event(event@, metadata_of(event@), plan@),
        r.1 == priority_of_event(event@),
{
    let metadata: Option<Json> = match event {
        DomainEvent::ApprovalRequested { action, .. } => Json::parse(action.as_str()),
        _ => None,
    };
    show_mission_event(event, metadata.as_ref(), plan)
}

/// What happened to a mission as others see it; `metadata` is the action of a request for an
/// approval, read as JSON.
pub fn show_mission_event(event: &DomainEvent, metadata: Option<&Json>, plan: &PlanView) -> (r: (
    HarnessEvent,
    EventPriority,
))
    ensures
        r.0@ == shown_event(
            event@,
            match metadata {
                Some(m) => Some(m@),
                None => None,
            },
            plan@,
        ),
        r.1 == priority_of_event(event@),
{
    match event {
        DomainEvent::MissionCreated { goal } => {
            let mut summary: String = "创建 Mission：".to_string();
            summary.append(goal.as_str());
            (
                HarnessEvent::ReasoningSummary { agent_id: "agent:planner".to_string(), summary },
                EventPriority::Normal,
            )
        },
        DomainEvent::ApprovalRequested { approval_id, action, reason } => {
            let mut invocation_id: Option<String> = None;
            let mut risk: String = "medium".to_string();
            let mut asked: String = action.clone();
            match metadata {
                Some(value) => {
                    match value.get_text("toolInvocationId") {
                        Some(id) => {
                            invocation_id = Some(id.clone());
                        },
                        None => {},
                    }
                    match value.get_text("risk") {
                        Some(given) => {
                            risk = given.clone();
                        },
                        None => {},
                    }
                    match value.get("permission") {
                        Some(permission) => {
                            asked = permission.text();
                        },
                        None => {},
                    }
                },
                None => {},
            }
            (
                HarnessEvent::PermissionRequested {
                    approval_id: approval_id.clone(),
                    invocation_id,
                    action: asked,
                    risk,
                    reason: reason.clone(),
                },
                EventPriority::Critical,
            )
        },
        DomainEvent::ApprovalResolved { approval_id, decision } => {
            let summary: String = match decision {
                ApprovalDecision::Allow => "Allow".to_string(),
                ApprovalDecision::Deny => "Deny".to_string(),
            };
            (
                HarnessEvent::ToolStatus {
                    tool: approval_id.clone(),
                    status: "approval-resolved".to_string(),
                    summary,
                },
                EventPriority::Normal,
            )
        },
        _ => (
            HarnessEvent::PlanChanged {
                accepted: plan.accepted,
                running: plan.running,
                pending: plan.pending,
                blocked: plan.blocked,
            },
            EventPriority::Normal,
        ),
    }
}

/// Whether the plan has to be counted for an event.
pub fn needs_plan(event: &DomainEvent) -> (r: bool)
    ensures
        r == changes_plan(event@),
{
    match event {
        DomainEvent::MissionCreated { .. }
        | DomainEvent::ApprovalRequested { .. }
        | DomainEvent::ApprovalResolved { .. } => false,
        _ => true,
    }
}

pub open spec fn run_of_intent(intent: IntentView) -> Seq<char> {
    match intent {
        IntentView::StartAgentRun { run_id, .. } => run_id,
        IntentView::ResumeAgentRun { run_id, .. } => run_id,
        IntentView::VerifyAgentRun { run_id, .. } => run_id,
        IntentView::CancelAgentRun { run_id, .. } => run_id,
    }
}

/// The run that an effect is about, and the first fence of that run.
pub fn effect_run(intent: &EffectIntent) -> (r: (String, u64))
    ensures
        r.0@ == run_of_intent(intent@),
        r.1 == 1,
{
    let run_id: String = match intent {
        EffectIntent::StartAgentRun { run_id, .. } => run_id.clone(),
        EffectIntent::ResumeAgentRun { run_id, .. } => run_id.clone(),
        EffectIntent::VerifyAgentRun { run_id, .. } => run_id.clone(),
        EffectIntent::CancelAgentRun { run_id, .. } => run_id.clone(),
    };
    (run_id, 1)
}

/// Beginning a mission makes it the active one.
pub open spec fn begin_step(s: AppView, mission_id: Seq<char>, goal: Seq<char>) -> (
    AppView,
    CommandView,
) {
    (
        AppView { active_mission_id: Some(mission_id), ..s },
        CommandView::CreateMission { mission_id, project_id: s.project_id, goal },
    )
}

/// The commands with which a single task gets under way.
pub open spec fn task_commands(
    s: AppView,
    prompt: Seq<char>,
    mission_id: Seq<char>,
    run_id: Seq<char>,
) -> Seq<CommandView> {
    seq![
        begin_step(s, mission_id, prompt).1,
        CommandView::InstallPlan { nodes: main_plan(prompt) },
        CommandView::StartNode { node_id: "task:main"@, run_id },
    ]
}

/// What is said in the end of a task.
pub open spec fn task_text(prompt: Seq<char>, mission: MissionView) -> Seq<char> {
    if mission.status is Completed {
        "Agent 已完成："@ + prompt
    } else if some_waiting(mission) {
        "Agent 等待审批："@ + prompt
    } else {
        "Agent 暂停："@ + prompt
    }
}

pub fn describe_task(prompt: &str, mission: &MissionState) -> (r: HarnessEvent)
    ensures
        r@ == (EventView::TextOutput { text: task_text(prompt@, mission@) }),
{
    let mut text: String = if mission.status == MissionStatus::Completed {
        "Agent 已完成：".to_string()
    } else if waits_for_approval(mission) {
        "Agent 等待审批：".to_string()
    } else {
        "Agent 暂停：".to_string()
    };
    text.append(prompt);
    HarnessEvent::TextOutput { text }
}

pub open spec fn session_place(s: AppView) -> ScopeView {
    ScopeView { session_id: Some(s.session_id), mission_id: None, trace_id: None }
}

pub open spec fn mission_place(s: AppView, mission_id: Seq<char>) -> ScopeView {
    ScopeView { session_id: Some(s.session_id), mission_id: Some(mission_id), trace_id: None }
}

/// With tracing an event that belongs to no trace begins one.
pub open spec fn traced(scope: ScopeView, trace_enabled: bool, fresh: Seq<char>) -> ScopeView {
    if trace_enabled && scope.trace_id is None {
        ScopeView { trace_id: Some(fresh), ..scope }
    } else {
        scope
    }
}

/// The plan of the active mission; of none if there is none.
pub open spec fn plan_shown(s: AppView, mission: Option<MissionView>) -> PlanModel {
    match s.active_mission_id {
        None => no_plan(),
        Some(_) => match mission {
            Some(mission) => plan_of(mission),
            None => no_plan(),
        },
    }
}

impl HarnessApplication {
    /// Makes a mission the active one. The command creates it.
    pub fn begin_mission(&mut self, mission_id: &str, goal: &str) -> (r: MissionCommand)
        ensures
            (final(self)@, r@) == begin_step(old(self)@, mission_id@, goal@),
    {
        self.active_mission_id = Some(mission_id.to_string());
        MissionCommand::CreateMission {
            mission_id: mission_id.to_string(),
            project_id: self.project_id.clone(),
            goal: goal.to_string(),
        }
    }

    /// Gets a single task under way.
    pub fn run_fake_task(&mut self, prompt: &str, mission_id: &str, run_id: &str) -> (r: Vec<
        MissionCommand,
    >)
        ensures
            final(self)@ == begin_step(old(self)@, mission_id@, prompt@).0,
            views(r@) == task_commands(old(self)@, prompt@, mission_id@, run_id@),
    {
        let create = self.begin_mission(mission_id, prompt);
        let install = MissionCommand::InstallPlan { nodes: main_task_plan(prompt) };
        let start = MissionCommand::StartNode {
            node_id: "task:main".to_string(),
            run_id: run_id.to_string(),
        };
        let r: Vec<MissionCommand> = vec![create, install, start];
        assert(views(r@) =~= task_commands(old(self)@, prompt@, mission_id@, run_id@));
        r
    }

    /// Counts the plan of the active mission.
    pub fn plan(&self, mission: Option<&MissionState>) -> (r: PlanView)
        ensures
            r@ == plan_shown(
                self@,
                match mission {
                    Some(m) => Some(m@),
                    None => None,
                },
            ),
    {
        let none = PlanView {
            mission_id: None,
            status: None,
            accepted: 0,
            running: 0,
            pending: 0,
            blocked: 0,
        };
        match &self.active_mission_id {
            None => none,
            Some(_) => match mission {
                Some(state) => plan_view(state),
                None => none,
            },
        }
    }

    pub fn session_scope(&self) -> (r: EventScope)
        ensures
            r@ == session_place(self@),
    {
        EventScope { session_id: Some(self.session_id.clone()), mission_id: None, trace_id: None }
    }

    pub fn mission_scope(&self, mission_id: &str) -> (r: EventScope)
        ensures
            r@ == mission_place(self@, mission_id@),
    {
        EventScope {
            session_id: Some(self.session_id.clone()),
            mission_id: Some(mission_id.to_string()),
            trace_id: None,
        }
    }
}

/// The scope with which an event is published.
pub fn traced_scope(scope: EventScope, trace_enabled: bool, trace_id: &str) -> (r: EventScope)
    ensures
        r@ == traced(scope@, trace_enabled, trace_id@),
{
    let mut r = scope;
    if trace_enabled && r.trace_id.is_none() {
        r.trace_id = Some(trace_id.to_string());
    }
    r
}

/// Whatever happens to a mission is shown, and what asks for a decision of the user is the only thing
/// that is urgent.
pub proof fn law_only_requests_are_urgent(
    event: DomainView,
    metadata: Option<JsonView>,
    plan: PlanModel,
)
    ensures
        priority_of_event(event) == EventPriority::Critical <==> shown_event(
            event,
            metadata,
            plan,
        ) is PermissionRequested,
        changes_plan(event) <==> shown_event(event, metadata, plan) is PlanChanged,
{
}

} // verus!
