//! Whole sessions of the harness, in a world in memory: what the library decides is done as it asks,
//! and what comes of it is handed back.
#![allow(dead_code)]

use std::collections::{BTreeMap, VecDeque};

use harness::agent_turn::ModelAgentHandler;
use harness::application::{
    AgentTeamContinuation, AgentTeamModelJob, HarnessApplication, ModeProfile, PreparedAgentTeam,
    ToolInvocation, ToolInvocationStatus, ToolOrigin,
};
use harness::approval_drive::{ApprovalAction, ApprovalPhase, ApprovalReply, ResumePhase};
use harness::budget::AgentBudgetManager;
use harness::builtin::builtin_agent_catalog;
use harness::catalog::AgentLifecycle;
use harness::checkpoints::{
    CheckpointView, CompactionMode, CompactionRequest, CompactionView, ContextCheckpoint,
    ContextResetView, FirstSeries, ForkView, checkpoint_missing, compaction_checkpoint_name,
    compaction_request, create_checkpoint, ensure_context_series, resolve_checkpoint,
};
use harness::context::{
    CompactionItem, CompactionRecord, ContextItem, ContextKind, ContextSeries, ContextTransition,
    Priority, focus, goal_in_context, new_context_item, pin, replace_goal_context,
};
use harness::conversation::{Talk, TalkAction, TalkPhase, TalkReply, ToolFact};
use harness::coordination::{CoordinationView, coordination_view};
use harness::digest::hash_text;
use harness::drive::{EffectAction, EffectPhase, EffectReply};
use harness::error::{AgentError, ApplicationError, agent_error};
use harness::exchange::{
    AgentExecutionMetrics, AgentToolCall, ModelEvent, ModelInputItem, ModelRequest,
    ModelSelection, ModelUsage,
};
use harness::execution::{
    AgentExecutionOutcome, AgentWorkingContext, BoundedAgentExecutor, check_start, merge_outcomes,
};
use harness::extensions::{account, logout};
use harness::json::{Json, object, text_json};
use harness::leases::{FileLeaseManager, WriteSite};
use harness::lsp::{
    LspAnswer, MAX_MEMORY_HITS, MAX_REPOSITORY_HITS, MemoryHit, Projection, RepositoryHit,
    RetrievalMode, VectorMode, read_lsp_answer, record_lsp_tool_fact, retrieval_mode,
    retrieve_project_context,
};
use harness::memory::{MemoryKind, NewMemoryRecord, PermissionRule, remember_meeting};
use harness::messages::AgentMessageBus;
use harness::mission::{
    ApprovalDecision, ClaimedEffect, CompletionFence, EffectCompletion, EffectEntry, EffectIntent,
    EventPriority, HarnessEvent, MissionCommand, MissionNode, MissionRun, MissionState,
    MissionStatus, MissionStep, NodeKind, NodeStatus, WorkflowNodeDefinition,
};
use harness::mission_events::{
    DomainEvent, EventScope, describe_task, needs_plan, publish_mission_event, traced_scope,
};
use harness::model::Duplicate;
use harness::model_loop::start_model_loop;
use harness::observe::{ProfileSamples, ProfileView, ToolRecord, WhyView, why};
use harness::ordered::{TextMap, TextSet};
use harness::parallel::{CallsAction, CallsPhase, CallsReply};
use harness::plans::{AdaptiveTeamProfile, PlanView, is_ready_to_complete, plan_view, research_plan};
use harness::profile::ReasoningLevel;
use harness::prompts::{
    ContextBudget, ContextView, DeterministicSummaryProvider, PromptSegment,
    agent_working_context, auto_compact_if_needed, context, context_changed, prompt_segments,
    select_segments,
};
use harness::results::{AgentResultEnvelope, bare_result};
use harness::roles::{AgentRole, ContextRole, context_role};
use harness::services::{self, ModelChoice};
use harness::session::{
    GoalHistoryView, GoalState, ModelCourse, ModelRuntimeView, ModelView, ReasoningMapping,
    SessionCommand, SessionModel, SessionState, SessionSummaryView, StatusView, clear_goal,
    current_goal_text, goal_changed, goal_history, model_changed, model_view,
    reconcile_model_session, set_goal,
};
use harness::settings::{
    ApprovalPolicy, ConfigLayer, FailoverView, ModelRoutePolicy, PermissionMode, RuntimeSettings,
    SettingChange, Undo, configure_failover, failover, model_route_policy,
};
use harness::state_store::AgentStateStore;
use harness::team_drive::{TeamAction, TeamPhase, TeamReply};
use harness::team_finish::{LspDiagnosticEvidence, PendingApproval, lsp_run_evidence};
use harness::team_view::{AgentBudgetView, AgentQueueView, set_agent_budget};
use harness::tool_calls::{ConfidentialityLabel, IntegrityLabel, ToolInvokeRequest};
use harness::wave_drive::{MusterAction, MusterKind, MusterReply, Recruit};
use harness::waves::ToolDescriptor;

/// What was chosen from a context for a role.
struct Selected {
    pub items: Vec<ContextItem>,
    pub excluded: Vec<String>,
    pub token_cost: u32,
    pub max_input_tokens: u32,
}

/// What a context was compacted to.
struct Compacted {
    pub items: Vec<CompactionItem>,
    pub record: CompactionRecord,
}

/// What the settings come to.
struct InForce {
    pub settings: RuntimeSettings,
    pub mode: ModeProfile,
    pub trace_enabled: bool,
}

trait Ports {
    fn now(&mut self) -> i64;

    fn next_id(&mut self, prefix: &str) -> String;

    fn publish(
        &mut self,
        event: HarnessEvent,
        scope: EventScope,
        priority: EventPriority,
    ) -> Result<(), ApplicationError>;

    fn mission(&mut self, mission_id: &str) -> Result<MissionState, ApplicationError>;

    /// The nodes that can be started, in the order in which the kernel gives them.
    fn ready_nodes(&mut self, mission_id: &str) -> Result<Vec<String>, ApplicationError>;

    /// Decides and stores a command; gives what happened.
    fn apply_mission(
        &mut self,
        mission_id: &str,
        command: MissionCommand,
    ) -> Result<Vec<DomainEvent>, ApplicationError>;

    fn claimable_effects(&mut self, limit: usize) -> Result<Vec<EffectEntry>, ApplicationError>;

    fn claim_effect(&mut self, effect_id: &str) -> Result<Option<ClaimedEffect>, ApplicationError>;

    fn complete_effect(&mut self, completion: EffectCompletion) -> Result<(), ApplicationError>;

    fn session(&mut self, session_id: &str) -> Result<SessionState, ApplicationError>;

    fn session_ids(&mut self) -> Result<Vec<String>, ApplicationError>;

    fn apply_session(
        &mut self,
        session_id: &str,
        command: SessionCommand,
    ) -> Result<(), ApplicationError>;

    fn active_series(
        &mut self,
        session_id: &str,
    ) -> Result<Option<ContextSeries>, ApplicationError>;

    fn series(&mut self, series_id: &str) -> Result<Option<ContextSeries>, ApplicationError>;

    fn commit_series(&mut self, transition: ContextTransition) -> Result<(), ApplicationError>;

    fn checkpoints(&mut self, session_id: &str)
    -> Result<Vec<ContextCheckpoint>, ApplicationError>;

    fn save_checkpoint(&mut self, checkpoint: &ContextCheckpoint) -> Result<(), ApplicationError>;

    /// The series with which a session begins that was forked at a checkpoint.
    fn fork_context_series(
        &mut self,
        source: &ContextSeries,
        checkpoint: &ContextCheckpoint,
        session_id: &str,
        series_id: &str,
        now: i64,
    ) -> Result<ContextSeries, ApplicationError>;

    fn count_tokens(&mut self, text: &str) -> u32;

    fn select_context(
        &mut self,
        role: ContextRole,
        items: Vec<ContextItem>,
        budget: &ContextBudget,
    ) -> Result<Selected, ApplicationError>;

    /// The text of some segments, and its hash.
    fn compile_prompt(
        &mut self,
        segments: &[PromptSegment],
    ) -> Result<(String, String), ApplicationError>;

    /// Compacts items; what is left out is summed up by `summaries`.
    fn compact_items(
        &mut self,
        summaries: &DeterministicSummaryProvider,
        request: CompactionRequest,
    ) -> Result<Compacted, ApplicationError>;

    /// Keeps a prompt; gives how often one was found, and how often not.
    fn cache_prompt(&mut self, prompt_hash: &str, text: &str) -> Result<(), ApplicationError>;

    fn cache_percent(&mut self) -> Option<u8>;

    fn model_view(&mut self) -> Result<ModelRuntimeView, ApplicationError>;

    fn model_selection(&mut self) -> Result<ModelSelection, ApplicationError>;

    fn test_model_registered(&mut self) -> bool;

    fn select_model(
        &mut self,
        provider_id: &str,
        model_id: &str,
    ) -> Result<ModelRuntimeView, ApplicationError>;

    fn set_reasoning(
        &mut self,
        reasoning: ReasoningLevel,
    ) -> Result<ModelRuntimeView, ApplicationError>;

    /// Has the agents of a team work on threads, as `executor::execute_job` does. Those of the
    /// requests that are marked were cancelled before.
    fn execute_job(
        &mut self,
        job: AgentTeamModelJob,
        cancelled: Vec<bool>,
    ) -> Result<Vec<AgentExecutionOutcome>, AgentError>;

    fn ask_model(&mut self, request: ModelRequest) -> Result<Vec<ModelEvent>, ApplicationError>;

    fn find_tools(
        &mut self,
        query: &str,
        limit: usize,
    ) -> Result<Vec<ToolDescriptor>, ApplicationError>;

    fn invoke(&mut self, request: ToolInvokeRequest) -> Result<ToolInvocation, ApplicationError>;

    /// Makes a call that was approved.
    fn make_approved(&mut self, invocation_id: &str) -> Result<ToolInvocation, ApplicationError>;

    fn deny(&mut self, invocation_id: &str) -> Result<ToolInvocation, ApplicationError>;

    fn invocation(
        &mut self,
        invocation_id: &str,
    ) -> Result<Option<ToolInvocation>, ApplicationError>;

    fn approvals(&mut self) -> Result<Vec<PendingApproval>, ApplicationError>;

    /// Where a path leads that is to be written.
    fn resolve_site(&mut self, path: &str) -> Result<WriteSite, ApplicationError>;

    /// Puts what a language server found into the index of the repository.
    fn project_fact(
        &mut self,
        fact: &ToolFact,
        answer: &LspAnswer,
        run_id: Option<&str>,
    ) -> Result<Projection, ApplicationError>;

    fn diagnostics(&mut self, run_id: &str)
    -> Result<Vec<LspDiagnosticEvidence>, ApplicationError>;

    /// Whether memory is to be searched by meaning.
    fn vector_mode(&mut self) -> VectorMode;

    /// What is remembered that fits a question, and whether it was searched for by meaning; nothing
    /// if there is no memory, or if it cannot be searched.
    fn search_memory(
        &mut self,
        query: &str,
        mode: RetrievalMode,
        limit: usize,
    ) -> Option<(Vec<MemoryHit>, bool)>;

    /// The files that fit a question; nothing if there is no index, or if it cannot be searched.
    fn search_files(&mut self, query: &str, limit: usize) -> Option<Vec<RepositoryHit>>;

    fn has_memory(&mut self) -> bool;

    fn remember(&mut self, record: NewMemoryRecord, now: i64) -> Result<(), ApplicationError>;

    fn add_permission_rule(&mut self, rule: &PermissionRule) -> Result<(), ApplicationError>;

    /// What would be in force with some settings changed.
    fn try_settings(
        &mut self,
        layer: ConfigLayer,
        changes: &[(String, Option<String>)],
    ) -> Result<InForce, ApplicationError>;

    /// Puts in force what was tried last.
    fn keep_settings(&mut self);

    fn approval_policy(&mut self) -> Result<ApprovalPolicy, ApplicationError>;

    fn set_approval_policy(&mut self, policy: ApprovalPolicy) -> Result<(), ApplicationError>;

    fn route_policy(&mut self) -> ModelRoutePolicy;

    fn set_route_policy(&mut self, policy: ModelRoutePolicy) -> Result<(), ApplicationError>;

    /// Whether names of files differ in case only by chance.
    fn folds_case(&self) -> bool;
}

type Outcome<T> = Result<T, ApplicationError>;

/// A session of the harness, with all that it needs from outside.
struct Harness<P: Ports> {
    pub app: HarnessApplication,
    pub ports: P,
    pub samples: ProfileSamples,
    pub trace_enabled: bool,
    pub version: String,
}

/// What came of finishing a wave.
struct AgentTeamFinalizeStep {
    pub plan: PlanView,
    pub next: Option<PreparedAgentTeam>,
}

fn active_series<P: Ports>(ports: &mut P, session_id: &str) -> Outcome<ContextSeries> {
    ports.active_series(session_id)?.ok_or_else(|| {
        ApplicationError::new(
            "context-series-missing",
            "Session 尚未建立活动 Context Series",
        )
    })
}

impl<P: Ports> Harness<P> {
    pub fn new(app: HarnessApplication, ports: P, version: &str) -> Self {
        Self {
            app,
            ports,
            samples: ProfileSamples::new(),
            trace_enabled: false,
            version: version.to_owned(),
        }
    }

    pub fn publish(
        &mut self,
        event: HarnessEvent,
        scope: EventScope,
        priority: EventPriority,
    ) -> Outcome<()> {
        let scope = if self.trace_enabled && scope.trace_id.is_none() {
            let trace_id = self.ports.next_id("trace");
            traced_scope(scope, true, &trace_id)
        } else {
            scope
        };
        self.ports.publish(event, scope, priority)
    }

    fn publish_to_session(&mut self, event: HarnessEvent, priority: EventPriority) -> Outcome<()> {
        let scope = self.app.session_scope();
        self.publish(event, scope, priority)
    }

    fn session(&mut self) -> Outcome<SessionState> {
        let session_id = self.app.session_id.clone();
        self.ports.session(&session_id)
    }

    pub fn apply_session_command(&mut self, command: SessionCommand) -> Outcome<()> {
        let session_id = self.app.session_id.clone();
        self.ports.apply_session(&session_id, command)
    }

    pub fn apply_mission_command(
        &mut self,
        mission_id: &str,
        command: MissionCommand,
    ) -> Outcome<()> {
        for event in self.ports.apply_mission(mission_id, command)? {
            let plan = if needs_plan(&event) {
                plan_view(&self.ports.mission(mission_id)?)
            } else {
                self.app.plan(None)
            };
            let (shown, priority) = publish_mission_event(&event, &plan);
            let scope = self.app.mission_scope(mission_id);
            self.publish(shown, scope, priority)?;
        }
        Ok(())
    }

    /// Does the steps that the library asks for, in order.
    fn perform(&mut self, mission_id: &str, steps: Vec<MissionStep>) -> Outcome<()> {
        for step in steps {
            match step {
                MissionStep::Command { command } => {
                    self.apply_mission_command(mission_id, command)?;
                }
                MissionStep::Complete { completion } => self.ports.complete_effect(completion)?,
                MissionStep::Publish { event, priority } => {
                    let scope = self.app.mission_scope(mission_id);
                    self.publish(event, scope, priority)?;
                }
            }
        }
        Ok(())
    }

    fn series(&mut self) -> Outcome<ContextSeries> {
        active_series(&mut self.ports, &self.app.session_id)
    }

    pub fn active_context_series(&mut self) -> Outcome<ContextSeries> {
        self.series()
    }

    fn new_item(
        &mut self,
        kind: ContextKind,
        priority: Priority,
        source: &str,
        content: &str,
        hard_required: bool,
    ) -> ContextItem {
        let id = self.ports.next_id("context");
        let tokens = self.ports.count_tokens(content);
        let now = self.ports.now();
        new_context_item(
            id,
            kind,
            priority,
            source,
            content,
            hard_required,
            tokens,
            now,
        )
    }

    pub fn append_context_item(
        &mut self,
        kind: ContextKind,
        priority: Priority,
        source: &str,
        content: &str,
        hard_required: bool,
    ) -> Outcome<()> {
        let current = self.series()?;
        let item = self.new_item(kind, priority, source, content, hard_required);
        let series_id = self.ports.next_id("series");
        let now = self.ports.now();
        let transition = self
            .app
            .append_context_item(&current, item, &series_id, now);
        self.ports.commit_series(transition)
    }

    fn replace_context_source(
        &mut self,
        source: &str,
        replacement: Option<ContextItem>,
    ) -> Outcome<()> {
        let current = self.series()?;
        let series_id = self.ports.next_id("series");
        let now = self.ports.now();
        match self
            .app
            .replace_context_source(&current, source, replacement, &series_id, now)
        {
            Some(transition) => self.ports.commit_series(transition),
            None => Ok(()),
        }
    }

    fn replace_goal(&mut self, text: &str) -> Outcome<()> {
        let id = self.ports.next_id("context");
        let tokens = self.ports.count_tokens(text);
        let now = self.ports.now();
        let item = replace_goal_context(id, text, tokens, now);
        self.replace_context_source("goal:active", Some(item))
    }

    fn task_in_context(&mut self, prompt: &str) -> Outcome<()> {
        let item = self.new_item(
            ContextKind::Task,
            Priority::Critical,
            "task:active",
            prompt,
            true,
        );
        self.replace_context_source("task:active", Some(item))
    }

    fn select_for(&mut self, role: ContextRole) -> Outcome<(ContextSeries, Selected)> {
        let series = self.series()?;
        let items = series
            .items
            .iter()
            .map(|item| item.context.duplicate())
            .collect();
        let budget = self.app.context_budget();
        let started = self.ports.now();
        let selected = self.ports.select_context(role, items, &budget)?;
        let elapsed = self.ports.now().saturating_sub(started);
        self.samples
            .record_profile_sample("context-build", u64::try_from(elapsed).unwrap_or(0));
        Ok((series, selected))
    }

    pub fn agent_working_context(&mut self, role: AgentRole) -> Outcome<AgentWorkingContext> {
        let (_, selected) = self.select_for(context_role(role))?;
        let segments = prompt_segments(&selected.items);
        let stable = self
            .ports
            .compile_prompt(&select_segments(&segments, true))?
            .0;
        let dynamic = self
            .ports
            .compile_prompt(&select_segments(&segments, false))?
            .0;
        let fingerprint = self.ports.compile_prompt(&segments)?.1;
        Ok(agent_working_context(
            stable,
            dynamic,
            &selected.items,
            &selected.excluded,
            selected.token_cost,
            selected.max_input_tokens,
            fingerprint,
        ))
    }

    fn current_prompt(&mut self) -> Outcome<(String, String)> {
        let (_, selected) = self.select_for(ContextRole::Supervisor)?;
        let segments = prompt_segments(&selected.items);
        let (text, hash) = self.ports.compile_prompt(&segments)?;
        Ok((hash, text))
    }

    pub fn cache_current_prompt(&mut self) -> Outcome<()> {
        let (hash, text) = self.current_prompt()?;
        self.ports.cache_prompt(&hash, &text)
    }

    pub fn context(&mut self) -> Outcome<ContextView> {
        let (series, selected) = self.select_for(ContextRole::Supervisor)?;
        let session_id = self.app.session_id.clone();
        let checkpoints = self.ports.checkpoints(&session_id)?.len();
        Ok(context(
            &series,
            selected.items.len(),
            selected.excluded.len(),
            selected.token_cost,
            selected.max_input_tokens,
            checkpoints,
        ))
    }

    fn publish_context_changed(&mut self) -> Outcome<()> {
        let view = self.context()?;
        let percent = self.ports.cache_percent();
        self.publish_to_session(context_changed(&view, percent), EventPriority::Normal)
    }

    pub fn status(&mut self) -> Outcome<StatusView> {
        let state = self.session()?;
        let view = if self.app.model_ready {
            Some(self.ports.model_view()?)
        } else {
            None
        };
        Ok(self.app.status(&state, view.as_ref()))
    }

    fn reconcile_model(&mut self) -> Outcome<()> {
        if !self.app.model_ready {
            return Ok(());
        }
        let state = self.session()?;
        let view = self.ports.model_view()?;
        let registered = self.ports.test_model_registered();
        match reconcile_model_session(&state.model, &view, registered)? {
            ModelCourse::Restore {
                provider_id,
                model_id,
                reasoning,
            } => {
                self.ports.select_model(&provider_id, &model_id)?;
                self.ports.set_reasoning(reasoning)?;
            }
            ModelCourse::Adopt { commands } => {
                for command in commands {
                    self.apply_session_command(command)?;
                }
            }
        }
        let view = self.ports.model_view()?;
        self.publish_to_session(model_changed(&view), EventPriority::Normal)
    }

    fn fork_series(
        &mut self,
        source: &ContextSeries,
        checkpoint: &ContextCheckpoint,
        session_id: &str,
    ) -> Outcome<ContextSeries> {
        let id = self.ports.next_id("series");
        let now = self.ports.now();
        self.ports
            .fork_context_series(source, checkpoint, session_id, &id, now)
    }

    fn checkpoint_of(&mut self, session_id: &str, id: &str) -> Outcome<Option<ContextCheckpoint>> {
        Ok(self
            .ports
            .checkpoints(session_id)?
            .into_iter()
            .find(|checkpoint| checkpoint.id == id))
    }

    fn begin_context(&mut self) -> Outcome<()> {
        let session_id = self.app.session_id.clone();
        if self.ports.active_series(&session_id)?.is_some() {
            return Ok(());
        }
        let next_series = match ensure_context_series(&self.session()?)? {
            FirstSeries::Fresh => ContextSeries {
                id: self.ports.next_id("series"),
                session_id,
                parent_series_id: None,
                restored_from_checkpoint_id: None,
                items: Vec::new(),
                created_at_millis: self.ports.now(),
            },
            FirstSeries::Fork {
                parent_session_id,
                checkpoint_id,
            } => {
                let checkpoint = self
                    .checkpoint_of(&parent_session_id, &checkpoint_id)?
                    .ok_or_else(|| {
                        ApplicationError::new(
                            "fork-checkpoint-not-found",
                            &format!("无法修复 Child Context：{checkpoint_id}"),
                        )
                    })?;
                let source = self
                    .ports
                    .series(&checkpoint.context_series_id)?
                    .ok_or_else(|| {
                        ApplicationError::new(
                            "fork-series-not-found",
                            &checkpoint.context_series_id,
                        )
                    })?;
                self.fork_series(&source, &checkpoint, &session_id)?
            }
        };
        self.ports.commit_series(ContextTransition {
            expected_active_series_id: None,
            next_series,
            compaction_record: None,
        })
    }

    fn reconcile_goal(&mut self) -> Outcome<()> {
        let state = self.session()?;
        let Some(text) = current_goal_text(&state.goal) else {
            return Ok(());
        };
        if goal_in_context(&self.series()?, &text) {
            return Ok(());
        }
        self.replace_goal(&text)
    }

    pub fn boot(&mut self) -> Outcome<StatusView> {
        let mode = self.app.mode_profile().mode;
        let mut events =
            services::boot(&self.version, &mode, &self.app.project_root).into_iter();
        if let Some((event, priority)) = events.next() {
            let scope = EventScope {
                session_id: None,
                mission_id: None,
                trace_id: None,
            };
            self.publish(event, scope, priority)?;
        }
        let state = self.session()?;
        if let Some(command) = self.app.create_session(&state) {
            self.apply_session_command(command)?;
        }
        self.reconcile_model()?;
        self.begin_context()?;
        self.reconcile_goal()?;
        let count = self.app.agent_count();
        let instances: Vec<String> = (0..count)
            .map(|_| self.ports.next_id("agent-instance"))
            .collect();
        let now = self.ports.now();
        self.app.reconcile_agent_runtime(&instances, now)?;
        for (event, priority) in events {
            self.publish_to_session(event, priority)?;
        }
        self.status()
    }

    pub fn shutdown(&mut self, reason: &str) -> Outcome<()> {
        let (event, priority) = services::shutdown(reason);
        self.publish_to_session(event, priority)
    }

    pub fn set_goal(&mut self, text: &str) -> Outcome<StatusView> {
        let state = self.session()?;
        let id = self.ports.next_id("goal");
        let now = self.ports.now();
        let revision = set_goal(&state, &id, text, now);
        self.apply_session_command(SessionCommand::ReviseGoal { revision })?;
        self.replace_goal(text)?;
        self.show_goal()?;
        self.status()
    }

    fn show_goal(&mut self) -> Outcome<()> {
        let state = self.session()?;
        self.publish_to_session(goal_changed(&state.goal), EventPriority::Critical)
    }

    pub fn clear_goal(&mut self) -> Outcome<StatusView> {
        self.apply_session_command(clear_goal())?;
        self.replace_context_source("goal:active", None)?;
        self.show_goal()?;
        self.status()
    }

    pub fn set_goal_lock(&mut self, locked: bool) -> Outcome<StatusView> {
        self.apply_session_command(services::set_goal_lock(locked))?;
        self.show_goal()?;
        self.status()
    }

    pub fn goal_history(&mut self, limit: usize) -> Outcome<GoalHistoryView> {
        Ok(goal_history(&self.session()?, limit))
    }

    pub fn sessions(&mut self) -> Outcome<Vec<SessionSummaryView>> {
        let mut summaries = Vec::new();
        for session_id in self.ports.session_ids()? {
            let state = self.ports.session(&session_id)?;
            summaries.push(self.app.session_summary(&state, &session_id));
        }
        Ok(summaries)
    }

    pub fn select_model(&mut self, provider_id: &str, model_id: &str) -> Outcome<ModelView> {
        let session = self.session()?;
        let ready = self.app.model_ready;
        let command = match services::select_model(&session.model, ready, provider_id, model_id)? {
            ModelChoice::Keep => return Ok(model_view(self.ports.model_view()?)),
            ModelChoice::Change { command } => command,
        };
        let previous = self.ports.model_view()?;
        let selected = self.ports.select_model(provider_id, model_id)?;
        if let Err(error) = self.apply_session_command(command) {
            let _ = self
                .ports
                .select_model(&previous.provider_id, &previous.model_id);
            return Err(error);
        }
        self.publish_to_session(model_changed(&selected), EventPriority::Normal)?;
        Ok(model_view(selected))
    }

    pub fn set_reasoning(
        &mut self,
        reasoning: ReasoningLevel,
    ) -> Outcome<ModelView> {
        let session = self.session()?;
        let ready = self.app.model_ready;
        let command = match services::set_reasoning(&session.model, ready, reasoning)? {
            ModelChoice::Keep => return Ok(model_view(self.ports.model_view()?)),
            ModelChoice::Change { command } => command,
        };
        let previous = self.ports.model_view()?;
        let selected = self.ports.set_reasoning(reasoning)?;
        if let Err(error) = self.apply_session_command(command) {
            let _ = self.ports.set_reasoning(previous.reasoning_requested);
            return Err(error);
        }
        self.publish_to_session(model_changed(&selected), EventPriority::Normal)?;
        Ok(model_view(selected))
    }

    fn change_setting(&mut self, change: SettingChange) -> Outcome<()> {
        let mut change = change;
        let changes = vec![(change.key.clone(), change.value.clone())];
        let wanted = self.ports.try_settings(change.layer, &changes)?;
        if self.app.tools_ready {
            let current = self.ports.approval_policy()?;
            if let Some(policy) = change.choose_approval(wanted.settings.permission_mode, current) {
                self.ports.set_approval_policy(policy)?;
            }
        }
        if self.app.model_ready {
            let current = self.ports.route_policy();
            if let Some(policy) = change.choose_route(&wanted.settings, current)? {
                if let Err(error) = self.ports.set_route_policy(policy) {
                    self.put_back(change.route_refused());
                    return Err(error);
                }
            }
        }
        let stored = self.session()?.settings;
        if let Some(command) = change.choose_command(&stored) {
            if let Err(error) = self.apply_session_command(command) {
                self.put_back(change.command_refused());
                return Err(error);
            }
        }
        self.ports.keep_settings();
        self.trace_enabled = wanted.trace_enabled;
        self.app.set_mode(wanted.mode);
        Ok(())
    }

    fn put_back(&mut self, undone: Vec<Undo>) {
        for undo in undone {
            let _ = match undo {
                Undo::Approval { policy } => self.ports.set_approval_policy(policy),
                Undo::Route { policy } => self.ports.set_route_policy(policy),
            };
        }
    }

    pub fn set_setting(&mut self, key: &str, value: &str, layer: ConfigLayer) -> Outcome<()> {
        let change = SettingChange::set_setting(layer, key, value)?;
        self.change_setting(change)
    }

    pub fn clear_setting(&mut self, key: &str, layer: ConfigLayer) -> Outcome<()> {
        let change = SettingChange::clear_setting(layer, key)?;
        self.change_setting(change)
    }

    pub fn configure_failover(
        &mut self,
        enabled: bool,
        cost_confirmed: bool,
        targets: &Vec<String>,
    ) -> Outcome<FailoverView> {
        let changes: Vec<(String, Option<String>)> =
            configure_failover(enabled, cost_confirmed, targets)
                .into_iter()
                .map(|(key, value)| (key, Some(value)))
                .collect();
        let wanted = self.ports.try_settings(ConfigLayer::Runtime, &changes)?;
        if self.app.model_ready {
            let policy = model_route_policy(&wanted.settings)?;
            self.ports.set_route_policy(policy)?;
        }
        self.ports.keep_settings();
        self.app.mode_profile = wanted.mode;
        Ok(failover(&wanted.settings))
    }

    pub fn set_agent_budget(&mut self, field: &str, value: u64) -> Outcome<AgentBudgetView> {
        let key = set_agent_budget(field)?;
        self.set_setting(key, &value.to_string(), ConfigLayer::Runtime)?;
        Ok(self.app.agent_budget())
    }

    pub fn pin(&mut self, value: &str) -> Outcome<ContextView> {
        let source_id = self.ports.next_id("source");
        let item_id = self.ports.next_id("context");
        let tokens = self.ports.count_tokens(value);
        let now = self.ports.now();
        let item = pin(value, &source_id, item_id, tokens, now)?;
        let current = self.series()?;
        let series_id = self.ports.next_id("series");
        let transition = self
            .app
            .append_context_item(&current, item, &series_id, now);
        self.ports.commit_series(transition)?;
        self.publish_context_changed()?;
        self.context()
    }

    pub fn focus(&mut self, value: Option<&str>) -> Outcome<ContextView> {
        let item_id = self.ports.next_id("context");
        let tokens = self.ports.count_tokens(value.unwrap_or_default());
        let now = self.ports.now();
        let replacement = focus(value, item_id, tokens, now)?;
        self.replace_context_source("focus:active", replacement)?;
        self.publish_context_changed()?;
        self.context()
    }

    fn checkpoint_record(&mut self, name: Option<&str>) -> Outcome<ContextCheckpoint> {
        let state = self.session()?;
        let series = self.series()?;
        let fingerprint = self.current_prompt()?.0;
        let id = self.ports.next_id("checkpoint");
        let now = self.ports.now();
        let checkpoint = self.app.create_checkpoint_record(
            &state,
            &series,
            name.map(str::to_owned),
            &id,
            &fingerprint,
            now,
        );
        self.ports.save_checkpoint(&checkpoint)?;
        Ok(checkpoint)
    }

    pub fn create_checkpoint(&mut self, name: Option<&str>) -> Outcome<CheckpointView> {
        Ok(create_checkpoint(&self.checkpoint_record(name)?))
    }

    pub fn resolve_checkpoint(&mut self, reference: &str) -> Outcome<ContextCheckpoint> {
        let session_id = self.app.session_id.clone();
        resolve_checkpoint(&self.ports.checkpoints(&session_id)?, reference)
    }

    fn checkpoint_and_series(
        &mut self,
        checkpoint_id: &str,
    ) -> Outcome<(ContextCheckpoint, ContextSeries)> {
        let session_id = self.app.session_id.clone();
        let checkpoint = self
            .checkpoint_of(&session_id, checkpoint_id)?
            .ok_or_else(|| checkpoint_missing(checkpoint_id))?;
        let source = self
            .ports
            .series(&checkpoint.context_series_id)?
            .ok_or_else(|| {
                ApplicationError::new("checkpoint-series-not-found", &checkpoint.context_series_id)
            })?;
        Ok((checkpoint, source))
    }

    pub fn rollback(&mut self, checkpoint_id: &str) -> Outcome<ContextView> {
        let session_id = self.app.session_id.clone();
        let checkpoints = self.ports.checkpoints(&session_id)?;
        let source_id = checkpoints
            .iter()
            .find(|checkpoint| checkpoint.id == checkpoint_id)
            .map(|checkpoint| checkpoint.context_series_id.clone());
        let source = match source_id {
            Some(id) => self.ports.series(&id)?,
            None => None,
        };
        let current = self.ports.active_series(&session_id)?;
        let series_id = self.ports.next_id("series");
        let now = self.ports.now();
        let transition = self.app.rollback(
            &checkpoints,
            checkpoint_id,
            source.as_ref(),
            current.as_ref(),
            &series_id,
            now,
        )?;
        self.ports.commit_series(transition)?;
        self.cache_current_prompt()?;
        self.publish_context_changed()?;
        self.context()
    }

    pub fn rollback_reference(&mut self, reference: &str) -> Outcome<ContextView> {
        let checkpoint = self.resolve_checkpoint(reference)?;
        self.rollback(&checkpoint.id)
    }

    pub fn fork_session(
        &mut self,
        checkpoint_id: &str,
        requested: Option<&str>,
    ) -> Outcome<ForkView> {
        let parent = self.session()?;
        let (checkpoint, source) = self.checkpoint_and_series(checkpoint_id)?;
        let child = match requested {
            Some(id) => id.to_owned(),
            None => self.ports.next_id("session"),
        };
        let taken = self.ports.session(&child)?.version != 0
            || self.ports.active_series(&child)?.is_some();
        let goal_id = self.ports.next_id("goal");
        let now = self.ports.now();
        let commands = self
            .app
            .fork_session(&parent, &checkpoint, &child, taken, &goal_id, now)?;
        for command in commands {
            self.ports.apply_session(&child, command)?;
        }
        let series = self.fork_series(&source, &checkpoint, &child)?;
        let child_context_series_id = series.id.clone();
        self.ports.commit_series(ContextTransition {
            expected_active_series_id: None,
            next_series: series,
            compaction_record: None,
        })?;
        Ok(ForkView {
            parent_session_id: self.app.session_id.clone(),
            child_session_id: child,
            checkpoint_id: checkpoint.id,
            child_context_series_id,
        })
    }

    pub fn fork_session_reference(
        &mut self,
        reference: &str,
        requested: Option<&str>,
    ) -> Outcome<ForkView> {
        let checkpoint = self.resolve_checkpoint(reference)?;
        self.fork_session(&checkpoint.id, requested)
    }

    pub fn reset_context(&mut self) -> Outcome<ContextResetView> {
        let mission = match self.app.active_mission_id.clone() {
            Some(mission_id) => Some(self.ports.mission(&mission_id)?),
            None => None,
        };
        self.app.check_reset(mission.as_ref())?;
        let checkpoint = self.checkpoint_record(Some("before-context-reset"))?;
        let current = self.series()?;
        let series_id = self.ports.next_id("series");
        let now = self.ports.now();
        let (transition, view) = self
            .app
            .reset_context(&current, &checkpoint.id, &series_id, now);
        self.ports.commit_series(transition)?;
        self.app.leave_mission();
        self.publish_context_changed()?;
        Ok(view)
    }

    pub fn compact(&mut self, mode: CompactionMode) -> Outcome<CompactionView> {
        let current = self.series()?;
        let checkpoint = self.checkpoint_record(Some(compaction_checkpoint_name(mode)))?;
        let now = self.ports.now();
        let request = compaction_request(mode, &current, &checkpoint, now);
        let compacted = self
            .ports
            .compact_items(&DeterministicSummaryProvider {}, request)?;
        let now = self.ports.now();
        let (transition, view) = self.app.compact(
            mode,
            &current,
            &checkpoint,
            compacted.items,
            compacted.record,
            now,
        );
        self.ports.commit_series(transition)?;
        self.cache_current_prompt()?;
        self.publish_context_changed()?;
        Ok(view)
    }

    pub fn auto_compact_if_needed(&mut self) -> Outcome<Option<CompactionView>> {
        let percent = self.context()?.percent;
        if auto_compact_if_needed(percent) {
            self.compact(CompactionMode::Safe).map(Some)
        } else {
            Ok(None)
        }
    }

    pub fn why(&mut self, journal: &Vec<ToolRecord>) -> Outcome<WhyView> {
        let goal = self.status()?.goal;
        let mission_id = self.app.active_mission_id.clone();
        let plan = match &mission_id {
            Some(mission_id) => Some(plan_view(&self.ports.mission(mission_id)?)),
            None => None,
        };
        let (_, selected) = self.select_for(ContextRole::Supervisor)?;
        Ok(why(
            goal,
            mission_id,
            plan.as_ref(),
            &selected.items,
            journal,
        ))
    }

    pub fn profile(&self, uptime_millis: u64) -> ProfileView {
        assert!(self.samples.can_be_summed(), "attempt to add with overflow");
        self.samples.profile(uptime_millis)
    }

    pub fn plan(&mut self) -> Outcome<PlanView> {
        let mission = match self.app.active_mission_id.clone() {
            Some(mission_id) => Some(self.ports.mission(&mission_id)?),
            None => None,
        };
        Ok(self.app.plan(mission.as_ref()))
    }

    pub fn agent_queue(&mut self) -> Outcome<AgentQueueView> {
        match self.app.active_mission_id.clone() {
            Some(mission_id) => {
                let mission = self.ports.mission(&mission_id)?;
                let ready = self.ports.ready_nodes(&mission_id)?;
                Ok(self.app.agent_queue(&mission, &ready))
            }
            None => Ok(AgentQueueView {
                mission_id: None,
                items: Vec::new(),
            }),
        }
    }

    pub fn cancel_queue_task(&mut self, task_id: &str, reason: &str) -> Outcome<AgentQueueView> {
        let command = self.app.cancel_queue_task(task_id, reason)?;
        if let Some(mission_id) = self.app.active_mission_id.clone() {
            self.apply_mission_command(&mission_id, command)?;
            self.drive_effects(&mission_id, "")?;
        }
        self.agent_queue()
    }

    pub fn cancel_active_mission(&mut self, reason: &str) -> Outcome<PlanView> {
        let command = self.app.cancel_active_mission(reason)?;
        if let Some(mission_id) = self.app.active_mission_id.clone() {
            self.apply_mission_command(&mission_id, command)?;
            self.drive_effects(&mission_id, "")?;
        }
        self.plan()
    }

    /// Keeps what a call has found out.
    pub fn record_lsp_tool_fact(&mut self, fact: &ToolFact, run_id: Option<&str>) -> Outcome<()> {
        let Some(answer) = read_lsp_answer(&fact.tool, &fact.arguments, &fact.result) else {
            return Ok(());
        };
        let projection = self.ports.project_fact(fact, &answer, run_id)?;
        let (_, content) = record_lsp_tool_fact(&fact.tool, &answer, &fact.result, &projection);
        let current = self.series()?;
        let item_id = self.ports.next_id("context");
        let tokens = self.ports.count_tokens(&content);
        let series_id = self.ports.next_id("series");
        let now = self.ports.now();
        match self.app.keep_lsp_fact(
            &current,
            &fact.tool,
            &answer,
            &fact.result,
            &projection,
            item_id,
            tokens,
            &series_id,
            now,
        ) {
            Some(transition) => self.ports.commit_series(transition),
            None => Ok(()),
        }
    }

    fn brief(
        &mut self,
        mission_id: &str,
        node_id: &str,
    ) -> Outcome<(MissionState, AgentWorkingContext)> {
        let state = self.ports.mission(mission_id)?;
        let agent_id = state
            .nodes
            .get(node_id)
            .map(|node| node.agent_definition_id.clone())
            .ok_or_else(|| ApplicationError::new("agent-node-missing", node_id))?;
        let role = self.app.working_role(&agent_id);
        let context = self.agent_working_context(role)?;
        Ok((state, context))
    }

    /// Runs the effects of a mission until none can be claimed or an agent has to wait.
    pub fn drive_effects(&mut self, mission_id: &str, prompt: &str) -> Outcome<()> {
        let mut phase = EffectPhase::Idle;
        let mut action = EffectAction::Claim;
        let mut told: Option<AgentWorkingContext> = None;
        loop {
            let reply = match action {
                EffectAction::Claim => match self.ports.claimable_effects(1)?.into_iter().next() {
                    None => EffectReply::Nothing,
                    Some(entry) => match self.ports.claim_effect(&entry.effect_id)? {
                        None => EffectReply::Lost,
                        Some(claimed) => EffectReply::Claimed { claimed },
                    },
                },
                EffectAction::ReadMission => EffectReply::Mission {
                    state: self.ports.mission(mission_id)?,
                },
                EffectAction::Brief { node_id } => {
                    let (state, context) = self.brief(mission_id, &node_id)?;
                    told = Some(context.duplicate());
                    EffectReply::Briefed { state, context }
                }
                EffectAction::Execute {
                    event,
                    agent_id,
                    run_id,
                } => {
                    let scope = self.app.mission_scope(mission_id);
                    self.publish(event, scope, EventPriority::Normal)?;
                    let Some(context) = told.take() else {
                        return Err(ApplicationError::new("agent-run-missing", &run_id));
                    };
                    let who = Talk {
                        mission_id: mission_id.to_owned(),
                        run_id: Some(run_id),
                        agent_id,
                    };
                    match self.execute_model(prompt, &who, &context) {
                        Ok(output) => EffectReply::Answered { output },
                        Err(error) => EffectReply::Refused { error },
                    }
                }
                EffectAction::FindCall { invocation_id } => EffectReply::Call {
                    invocation: self.ports.invocation(&invocation_id)?,
                    approvals: self.ports.approvals()?,
                },
                EffectAction::Perform { steps } => {
                    self.perform(mission_id, steps)?;
                    EffectReply::Performed
                }
                EffectAction::Finish => return Ok(()),
            };
            let now = self.ports.now();
            (phase, action) = self.app.drive_effects(mission_id, phase, reply, now)?;
        }
    }

    /// Looks for what is remembered and for files that fit a prompt.
    fn retrieve_project_context(&mut self, query: &str) -> String {
        let started = self.ports.now();
        let mode = retrieval_mode(
            self.ports.vector_mode(),
            self.app.mode_profile().proactive_semantic_retrieval,
        );
        let (memory, by_meaning) = self
            .ports
            .search_memory(query, mode, MAX_MEMORY_HITS)
            .unwrap_or_default();
        let files = self
            .ports
            .search_files(query, MAX_REPOSITORY_HITS)
            .unwrap_or_default();
        let text = retrieve_project_context(&memory, &files);
        let elapsed = self.ports.now().saturating_sub(started);
        self.samples
            .record_retrieval(u64::try_from(elapsed).unwrap_or(0), by_meaning);
        text
    }

    /// Talks with the model until there is an answer.
    fn execute_model(
        &mut self,
        prompt: &str,
        who: &Talk,
        context: &AgentWorkingContext,
    ) -> Outcome<String> {
        let retrieved = self.retrieve_project_context(prompt);
        if let Some(answer) = self.app.answer_without_model() {
            return Ok(answer);
        }
        let selection = self.ports.model_selection()?;
        let (mut phase, mut action) = match self.app.resume_conversation(who, &selection)? {
            Some(step) => step,
            None => {
                let tools = if self.app.tools_ready {
                    let limit = self.app.mode_profile().max_on_demand_tools;
                    self.ports.find_tools(prompt, limit)?
                } else {
                    Vec::new()
                };
                let state = start_model_loop(selection, prompt, context, &retrieved, &tools);
                (TalkPhase::Turning { state }, TalkAction::Proceed)
            }
        };
        let mut heard: std::vec::IntoIter<ModelEvent> = Vec::new().into_iter();
        loop {
            let reply = match action {
                TalkAction::Proceed => TalkReply::Go {
                    cancelled: who
                        .run_id
                        .as_ref()
                        .and_then(|run| self.app.run_controls.is_cancelled(run))
                        .unwrap_or(false),
                    delivery_token: self.ports.next_id("delivery"),
                },
                TalkAction::Ask { events, request } => {
                    for event in events {
                        let scope = self.app.mission_scope(&who.mission_id);
                        self.publish(event, scope, EventPriority::Normal)?;
                    }
                    let started = self.ports.now();
                    heard = self.ports.ask_model(request)?.into_iter();
                    let elapsed = self.ports.now().saturating_sub(started);
                    self.samples
                        .record_profile_sample("model", u64::try_from(elapsed).unwrap_or(0));
                    match heard.next() {
                        Some(event) => TalkReply::Event { event },
                        None => TalkReply::Ended,
                    }
                }
                TalkAction::Hear { event, priority } => {
                    if let Some(event) = event {
                        let scope = self.app.mission_scope(&who.mission_id);
                        self.publish(event, scope, priority)?;
                    }
                    match heard.next() {
                        Some(event) => TalkReply::Event { event },
                        None => TalkReply::Ended,
                    }
                }
                TalkAction::Resolve { path } => TalkReply::Site {
                    site: self.ports.resolve_site(&path)?,
                },
                TalkAction::Invoke { call } => {
                    let invocation_id = self.ports.next_id("tool-invocation");
                    let approval_id = self.ports.next_id("approval");
                    let now = self.ports.now();
                    let request = self.app.model_invocation(
                        &who.mission_id,
                        who.run_id.as_deref(),
                        &who.agent_id,
                        &call,
                        invocation_id,
                        approval_id,
                        now,
                    );
                    match self.ports.invoke(request) {
                        Ok(invocation) => TalkReply::Invoked { invocation },
                        Err(error) => TalkReply::CallFailed { error },
                    }
                }
                TalkAction::Lookup { invocation_id } => {
                    match self.ports.invocation(&invocation_id)? {
                        Some(invocation) => TalkReply::Invoked { invocation },
                        None => TalkReply::CallFailed {
                            error: ApplicationError::new(
                                "tool-invocation-not-found",
                                &invocation_id,
                            ),
                        },
                    }
                }
                TalkAction::Note { event, fact } => {
                    let scope = self.app.mission_scope(&who.mission_id);
                    self.publish(event, scope, EventPriority::Normal)?;
                    if let Some(fact) = fact {
                        self.record_lsp_tool_fact(&fact, who.run_id.as_deref())?;
                    }
                    TalkReply::Noted
                }
                TalkAction::Answer { output } => return Ok(output),
            };
            let now = self.ports.now();
            (phase, action) = self.app.converse(who, phase, reply, now)?;
        }
    }

    fn complete_if_done(&mut self, mission_id: &str) -> Outcome<()> {
        let state = self.ports.mission(mission_id)?;
        if is_ready_to_complete(&state) {
            self.apply_mission_command(mission_id, MissionCommand::CompleteMission)?;
        }
        Ok(())
    }

    pub fn run_fake_task(&mut self, prompt: &str) -> Outcome<PlanView> {
        if self.status()?.goal.is_none() {
            self.set_goal(prompt)?;
        }
        self.append_context_item(
            ContextKind::Conversation,
            Priority::High,
            "user:terminal",
            prompt,
            false,
        )?;
        self.task_in_context(prompt)?;
        self.auto_compact_if_needed()?;
        self.cache_current_prompt()?;
        self.publish_context_changed()?;
        let mission_id = self.ports.next_id("mission");
        let run_id = self.ports.next_id("run");
        for command in self.app.run_fake_task(prompt, &mission_id, &run_id) {
            self.apply_mission_command(&mission_id, command)?;
        }
        self.drive_effects(&mission_id, prompt)?;
        self.complete_if_done(&mission_id)?;
        let state = self.ports.mission(&mission_id)?;
        let scope = self.app.mission_scope(&mission_id);
        self.publish(describe_task(prompt, &state), scope, EventPriority::Normal)?;
        Ok(plan_view(&state))
    }

    fn begin_team_mission(&mut self, goal: &str) -> Outcome<String> {
        let mission_id = self.ports.next_id("mission");
        let command = self.app.begin_mission(&mission_id, goal);
        self.apply_mission_command(&mission_id, command)?;
        Ok(mission_id)
    }

    /// Musters a team: does what each agent needs, one after the other.
    fn muster(
        &mut self,
        kind: MusterKind,
        mission_id: &str,
        told: &str,
        recruits: Vec<Recruit>,
    ) -> Outcome<PreparedAgentTeam> {
        let token = self.ports.next_id("delivery");
        let now = self.ports.now();
        let steering = self.app.take_steering_messages(mission_id, &token, now)?;
        let mission = self.ports.mission(mission_id)?;
        let (mut phase, mut action) = self
            .app
            .begin_muster(kind, mission, told, recruits, steering, now)?;
        loop {
            let reply = match action {
                MusterAction::NameRun => MusterReply::Named {
                    run_id: self.ports.next_id("run"),
                },
                MusterAction::Do { steps } => {
                    self.perform(mission_id, steps)?;
                    MusterReply::Did
                }
                MusterAction::ListEffects => MusterReply::Effects {
                    entries: self.ports.claimable_effects(256)?,
                },
                MusterAction::Claim { effect_id } => MusterReply::Claimed {
                    claimed: self.ports.claim_effect(&effect_id)?,
                },
                MusterAction::Brief { node_id } => {
                    let (state, context) = self.brief(mission_id, &node_id)?;
                    MusterReply::Briefed { state, context }
                }
                MusterAction::Count { text } => MusterReply::Counted {
                    tokens: self.ports.count_tokens(&text),
                },
                MusterAction::FindTools { query } => {
                    let limit = self.app.mode_profile().max_on_demand_tools;
                    MusterReply::Found {
                        tools: self.ports.find_tools(&query, limit)?,
                    }
                }
                MusterAction::Ready { team } => return Ok(team),
            };
            let now = self.ports.now();
            (phase, action) = self.app.muster_team(phase, reply, now)?;
        }
    }

    fn muster_tasks(
        &mut self,
        kind: MusterKind,
        mission_id: &str,
        told: &str,
        tasks: Vec<String>,
    ) -> Outcome<PreparedAgentTeam> {
        let recruits = tasks
            .into_iter()
            .map(|task_id| Recruit {
                task_id,
                session: None,
            })
            .collect();
        self.muster(kind, mission_id, told, recruits)
    }

    pub fn prepare_parallel_agent_team(
        &mut self,
        prompt: &str,
        agent_count: usize,
    ) -> Outcome<PreparedAgentTeam> {
        self.app.check_team_size(agent_count)?;
        if self.status()?.goal.is_none() {
            self.set_goal(prompt)?;
        }
        self.task_in_context(prompt)?;
        let mission_id = self.begin_team_mission(prompt)?;
        let assignments = self.app.staff_research(agent_count)?;
        let nodes = research_plan(prompt, &assignments);
        self.apply_mission_command(&mission_id, MissionCommand::InstallPlan { nodes })?;
        BoundedAgentExecutor::new(
            self.app
                .agent_budget_policy
                .max_parallel_agents
                .min(agent_count),
        )
        .map_err(agent_error)?;
        let mission = self.ports.mission(&mission_id)?;
        let ready = self.ports.ready_nodes(&mission_id)?;
        let runs = self.app.prepare_parallel_agent_team(
            &mission,
            &mission_id,
            &ready,
            &assignments,
            agent_count,
        )?;
        let tasks = runs.into_iter().map(|run| run.task_id).collect();
        self.muster_tasks(MusterKind::Research, &mission_id, prompt, tasks)
    }

    pub fn prepare_next_agent_wave(&mut self, mission_id: &str) -> Outcome<PreparedAgentTeam> {
        let mission = self.ports.mission(mission_id)?;
        let ready: Vec<String> = self
            .ports
            .ready_nodes(mission_id)?
            .into_iter()
            .filter(|task_id| mission.nodes.contains_key(task_id))
            .collect();
        let runs = self
            .app
            .prepare_next_agent_wave(&mission, mission_id, &ready)?;
        let tasks = runs.into_iter().map(|run| run.task_id).collect();
        self.muster_tasks(MusterKind::Wave, mission_id, "", tasks)
    }

    pub fn prepare_adaptive_agent_team(
        &mut self,
        prompt: &str,
        worker_count: usize,
    ) -> Outcome<PreparedAgentTeam> {
        let nodes = self.app.prepare_adaptive_agent_team(prompt, worker_count)?;
        if self.status()?.goal.is_none() {
            self.set_goal(prompt)?;
        }
        self.task_in_context(prompt)?;
        let mission_id = self.begin_team_mission(prompt)?;
        self.apply_mission_command(&mission_id, MissionCommand::InstallPlan { nodes })?;
        self.prepare_next_agent_wave(&mission_id)
    }

    pub fn prepare_role_evidence_team(
        &mut self,
        prompt: &str,
        worker_count: usize,
    ) -> Outcome<PreparedAgentTeam> {
        let nodes = self.app.prepare_role_evidence_team(prompt, worker_count)?;
        if self.status()?.goal.is_none() {
            self.set_goal(prompt)?;
        }
        self.task_in_context(prompt)?;
        let mission_id = self.begin_team_mission(prompt)?;
        self.apply_mission_command(&mission_id, MissionCommand::InstallPlan { nodes })?;
        self.prepare_next_agent_wave(&mission_id)
    }

    pub fn prepare_review_agent(&mut self, input: &str) -> Outcome<PreparedAgentTeam> {
        let nodes = self.app.prepare_review_agent(input)?;
        self.task_in_context(input)?;
        let mission_id = self.begin_team_mission(
            "审查当前 Git diff 的 Bug/Security/Logic/Regression/Performance",
        )?;
        self.apply_mission_command(&mission_id, MissionCommand::InstallPlan { nodes })?;
        self.prepare_next_agent_wave(&mission_id)
    }

    pub fn prepare_recovered_agent_team(&mut self) -> Outcome<PreparedAgentTeam> {
        let sessions = self.app.prepare_recovered_agent_team()?;
        let Some(mission_id) = self.app.active_mission_id.clone() else {
            return Err(ApplicationError::new(
                "agent-recovery-mission-missing",
                "没有可恢复的活动 Mission",
            ));
        };
        let recruits = sessions
            .into_iter()
            .map(|session| Recruit {
                task_id: session.task_id.clone(),
                session: Some(session),
            })
            .collect();
        self.muster(MusterKind::Recovery, &mission_id, "", recruits)
    }

    /// Has the agents of a team work, as many at a time as may.
    pub fn execute_team(&mut self, job: AgentTeamModelJob) -> Outcome<Vec<AgentExecutionOutcome>> {
        let cancelled = job
            .requests
            .iter()
            .map(|request| {
                self.app
                    .run_controls
                    .is_cancelled(&request.contract.run_id)
                    .unwrap_or(false)
            })
            .collect();
        self.ports.execute_job(job, cancelled).map_err(agent_error)
    }

    /// Does what a call of an agent of a team needs.
    fn do_call(
        &mut self,
        calls: &CallsPhase,
        mission_id: &str,
        run_id: &str,
        action: CallsAction,
    ) -> Outcome<CallsReply> {
        Ok(match action {
            CallsAction::Resolve { path } => CallsReply::Site {
                site: self.ports.resolve_site(&path)?,
            },
            CallsAction::Invoke { call } => self.invoke_parallel(calls, &call)?,
            CallsAction::Note { event, fact } => {
                let scope = self.app.mission_scope(mission_id);
                self.publish(event, scope, EventPriority::Normal)?;
                if let Some(fact) = fact {
                    self.record_lsp_tool_fact(&fact, Some(run_id))?;
                }
                CallsReply::Noted
            }
            CallsAction::Resume { .. } | CallsAction::Wait { .. } => CallsReply::Noted,
        })
    }

    fn invoke_parallel(&mut self, phase: &CallsPhase, call: &AgentToolCall) -> Outcome<CallsReply> {
        let CallsPhase::Invoking { calls, .. } = phase else {
            return Ok(CallsReply::CallFailed {
                error: ApplicationError::new("tool-call-unexpected", &call.name),
            });
        };
        let invocation_id = self.ports.next_id("tool-invocation");
        let approval_id = self.ports.next_id("approval");
        let now = self.ports.now();
        let request = calls.invocation(&self.app.project_id, call, invocation_id, approval_id, now);
        Ok(match self.ports.invoke(request) {
            Ok(invocation) => CallsReply::Invoked { invocation },
            Err(error) => CallsReply::CallFailed { error },
        })
    }

    /// Has something remembered; gives the id under which it is.
    pub fn add_memory(
        &mut self,
        kind: MemoryKind,
        title: String,
        content: String,
        tags: Vec<String>,
    ) -> Outcome<String> {
        let has_memory = self.ports.has_memory();
        let id = self.ports.next_id("memory");
        let record = self
            .app
            .add_memory(has_memory, kind, title, content, tags, id.clone())?;
        let now = self.ports.now();
        self.ports.remember(record, now)?;
        Ok(id)
    }

    pub fn add_permission_rule(
        &mut self,
        effect: String,
        action: String,
        pattern: String,
    ) -> Outcome<PermissionRule> {
        let id = self.ports.next_id("permission-rule");
        let rule = self.app.add_permission_rule(effect, action, pattern, id)?;
        self.ports.add_permission_rule(&rule)?;
        Ok(rule)
    }

    pub fn coordinate_results(
        &mut self,
        mission_id: &str,
        results: &Vec<AgentResultEnvelope>,
    ) -> Outcome<CoordinationView> {
        let meeting_id = self.ports.next_id("meeting");
        let now = self.ports.now();
        let folds = self.ports.folds_case();
        let conflicts =
            self.app
                .coordinate_results(mission_id, results, &meeting_id, now, folds)?;
        let Some(meeting) = &conflicts.meeting else {
            return Ok(coordination_view(&conflicts, None, None));
        };
        let memory_id = if self.ports.has_memory() {
            let id = self.ports.next_id("memory");
            let now = self.ports.now();
            self.ports
                .remember(remember_meeting(meeting, id.clone()), now)?;
            Some(id)
        } else {
            None
        };
        let mut merge_task_id = None;
        if self.app.is_active(mission_id) {
            let mission = self.ports.mission(mission_id)?;
            let task_id = self.ports.next_id("task:merge");
            if let Some(command) = self.app.merge_conflicts(
                &mission,
                mission_id,
                &conflicts.merge_dependencies,
                &meeting.id,
                &task_id,
            ) {
                self.apply_mission_command(mission_id, command)?;
                merge_task_id = Some(task_id);
            }
        }
        Ok(coordination_view(&conflicts, memory_id, merge_task_id))
    }

    /// Finishes one wave of a team.
    pub fn finalize_parallel_agent_team_step(
        &mut self,
        continuation: AgentTeamContinuation,
        outcomes: Vec<AgentExecutionOutcome>,
        cancelled_tasks: TextSet,
        cancel_mission: bool,
    ) -> Outcome<AgentTeamFinalizeStep> {
        let mission_id = continuation.mission_id.clone();
        let prompt = continuation.prompt.clone();
        let now = self.ports.now();
        let (mut phase, mut action) = self.app.finalize_parallel_agent_team_step(
            continuation,
            outcomes,
            cancelled_tasks,
            cancel_mission,
            now,
        )?;
        loop {
            let reply = match action {
                TeamAction::Proceed => TeamReply::Did,
                TeamAction::Do { steps } => {
                    self.perform(&mission_id, steps)?;
                    TeamReply::Did
                }
                TeamAction::Diagnose { run_id } => TeamReply::Diagnostics {
                    diagnostics: self.ports.diagnostics(&run_id)?,
                },
                TeamAction::Call { action } => {
                    let TeamPhase::Calling { calls, ended, .. } = &phase else {
                        return Err(ApplicationError::new("tool-call-unexpected", &mission_id));
                    };
                    let run_id = ended.run_id.clone();
                    TeamReply::Call {
                        reply: self.do_call(calls, &mission_id, &run_id, action)?,
                    }
                }
                TeamAction::ListApprovals => TeamReply::Approvals {
                    approvals: self.ports.approvals()?,
                },
                TeamAction::DriveEffects => {
                    self.drive_effects(&mission_id, &prompt)?;
                    TeamReply::Did
                }
                TeamAction::Coordinate { results } => {
                    self.coordinate_results(&mission_id, &results)?;
                    TeamReply::Did
                }
                TeamAction::LookAtMission => TeamReply::Mission {
                    mission: self.ports.mission(&mission_id)?,
                },
                TeamAction::Finish { next } => {
                    let plan = plan_view(&self.ports.mission(&mission_id)?);
                    return Ok(AgentTeamFinalizeStep { plan, next });
                }
            };
            let now = self.ports.now();
            (phase, action) = self.app.finalize_parallel_agent_team(phase, reply, now)?;
        }
    }

    /// Finishes a team, calling its agents again as long as some go on.
    pub fn finalize_parallel_agent_team(
        &mut self,
        continuation: AgentTeamContinuation,
        outcomes: Vec<AgentExecutionOutcome>,
        cancelled_tasks: TextSet,
        cancel_mission: bool,
    ) -> Outcome<PlanView> {
        let mut step = self.finalize_parallel_agent_team_step(
            continuation,
            outcomes,
            cancelled_tasks,
            cancel_mission,
        )?;
        while let Some(next) = step.next {
            let outcomes = self.execute_team(next.job)?;
            step = self.finalize_parallel_agent_team_step(
                next.continuation,
                outcomes,
                TextSet::new(),
                false,
            )?;
        }
        Ok(step.plan)
    }

    pub fn run_parallel_agent_team(
        &mut self,
        prompt: &str,
        agent_count: usize,
    ) -> Outcome<PlanView> {
        let team = self.prepare_parallel_agent_team(prompt, agent_count)?;
        let outcomes = self.execute_team(team.job)?;
        self.finalize_parallel_agent_team(team.continuation, outcomes, TextSet::new(), false)
    }

    /// Approves a call: makes it, and lets whoever waited for it go on.
    pub fn approve_tool(&mut self, invocation_id: &str) -> Outcome<ToolInvocation> {
        let invocation = if self.app.tools_ready {
            self.ports.invocation(invocation_id)?
        } else {
            None
        };
        let (mut phase, mut action) = self.app.begin_approval(invocation, invocation_id)?;
        loop {
            let reply = match action {
                ApprovalAction::Resolve { path } => ApprovalReply::Site {
                    site: self.ports.resolve_site(&path)?,
                },
                ApprovalAction::Make { invocation_id } => {
                    match self.ports.make_approved(&invocation_id) {
                        Ok(approved) => ApprovalReply::Made { approved },
                        Err(error) => ApprovalReply::CallFailed { error },
                    }
                }
                ApprovalAction::Do { mission_id, steps } => {
                    self.perform(&mission_id, steps)?;
                    ApprovalReply::Did
                }
                ApprovalAction::ListEffects => ApprovalReply::Effects {
                    entries: self.ports.claimable_effects(256)?,
                },
                ApprovalAction::Claim { effect_id } => ApprovalReply::Claimed {
                    claimed: self.ports.claim_effect(&effect_id)?,
                },
                ApprovalAction::Keep { fact, run_id } => {
                    self.record_lsp_tool_fact(&fact, Some(&run_id))?;
                    ApprovalReply::Did
                }
                ApprovalAction::Call { action } => {
                    let ApprovalPhase::Resuming {
                        phase:
                            ResumePhase::Calling { calls, resumption },
                    } = &phase
                    else {
                        return Err(ApplicationError::new("tool-call-unexpected", invocation_id));
                    };
                    let mission_id = resumption.approved.mission_id.clone();
                    let run_id = resumption.approved.run_id.clone().unwrap_or_default();
                    ApprovalReply::Call {
                        reply: self.do_call(calls, &mission_id, &run_id, action)?,
                    }
                }
                ApprovalAction::ListApprovals => ApprovalReply::Approvals {
                    approvals: self.ports.approvals()?,
                },
                ApprovalAction::NameDelivery => ApprovalReply::Named {
                    delivery_token: self.ports.next_id("delivery"),
                },
                ApprovalAction::DriveEffects { mission_id } => {
                    let goal = self.ports.mission(&mission_id)?.goal;
                    self.drive_effects(&mission_id, &goal)?;
                    ApprovalReply::Did
                }
                ApprovalAction::LookAtMission { mission_id } => ApprovalReply::Mission {
                    mission: self.ports.mission(&mission_id)?,
                },
                ApprovalAction::Finish { approved } => return Ok(approved),
            };
            if let ApprovalPhase::Showing {
                invocation,
                waiters,
                ..
            } = &phase
            {
                if waiters.parallel
                    && !self
                        .app
                        .pending_parallel_tool_continuations
                        .contains_key(&invocation.id)
                {
                    return Err(ApplicationError::new(
                        "model-continuation-unavailable",
                        &invocation.id,
                    ));
                }
            }
            let now = self.ports.now();
            (phase, action) = self.app.carry_out_approval(phase, reply, now)?;
        }
    }

    /// Refuses a call: nothing waits for it any more.
    pub fn deny_tool(&mut self, invocation_id: &str) -> Outcome<ToolInvocation> {
        let invocation = if self.app.tools_ready {
            self.ports.invocation(invocation_id)?
        } else {
            None
        };
        self.app.check_invocation(&invocation, invocation_id)?;
        let Some(invocation) = invocation else {
            return Err(ApplicationError::new(
                "tool-invocation-not-found",
                invocation_id,
            ));
        };
        let denied_call = self.ports.deny(invocation_id)?;
        let mission = self.ports.mission(&invocation.mission_id).ok();
        let denied = self.app.deny_tool(&invocation, &mission)?;
        if let Some(command) = denied.command {
            self.apply_mission_command(&invocation.mission_id, command)?;
        }
        if let Some((agent_id, run_id)) = denied.waiting {
            let now = self.ports.now();
            self.app.end_denied_run(&agent_id, &run_id, now)?;
        }
        Ok(denied_call)
    }
}

/// How the model of a world answers.
enum Script {
    /// It says what it was told.
    Echo,
    /// It gives these answers, one after the other.
    Answers(VecDeque<Vec<ModelEvent>>),
}

#[derive(Debug, PartialEq, Eq)]
enum PatchStatus {
    Proposed,
    Applied,
}

/// A change of a file.
struct Patch {
    path: String,
    content: String,
    status: PatchStatus,
}

/// Whether what is remembered can be found by its meaning.
#[derive(Debug, PartialEq, Eq)]
enum SemanticCapability {
    Absent,
    Ready,
}

struct FakeEffect {
    entry: EffectEntry,
    claimed_until: Option<i64>,
    done: bool,
}

/// A world in memory around the library: a kernel, a store of contexts, a model and tools.
struct World {
    clock: i64,
    next: u64,
    events: Vec<(HarnessEvent, EventScope)>,
    missions: BTreeMap<String, MissionState>,
    kinds: BTreeMap<String, NodeKind>,
    effects: Vec<FakeEffect>,
    sessions: BTreeMap<String, SessionState>,
    series: BTreeMap<String, ContextSeries>,
    compactions: Vec<CompactionRecord>,
    active: BTreeMap<String, String>,
    checkpoints: Vec<ContextCheckpoint>,
    cached: Vec<String>,
    script: Script,
    asked: Vec<ModelRequest>,
    reasoning: ReasoningLevel,
    files: BTreeMap<String, String>,
    patches: Vec<Patch>,
    journal: Vec<ToolInvocation>,
    waiting: Vec<PendingApproval>,
    policy: ApprovalPolicy,
    route: ModelRoutePolicy,
    indexed: bool,
    diagnostics: BTreeMap<String, Vec<LspDiagnosticEvidence>>,
    memory: Option<Vec<NewMemoryRecord>>,
    semantic: SemanticCapability,
    rules: Vec<String>,
    kept: BTreeMap<String, (ConfigLayer, String)>,
    tried: BTreeMap<String, (ConfigLayer, String)>,
}

fn balanced_mode(mode: &str, settings: &BTreeMap<String, (ConfigLayer, String)>) -> ModeProfile {
    let full = mode == "full";
    let mut profile = ModeProfile {
        mode: mode.to_owned(),
        max_agents: if full { 12 } else { 8 },
        max_parallel_agents: if full { 6 } else { 4 },
        max_total_tokens: 1_000_000,
        max_tool_calls: 512,
        max_runtime_millis: 3_600_000,
        max_retries: 16,
        max_cost_units: 1_000,
        max_on_demand_tools: 12,
        context_window_tokens: 8_192,
        reserved_tool_tokens: 512,
        proactive_semantic_retrieval: false,
    };
    if let Some((_, cost)) = settings.get("agents.cost") {
        profile.max_cost_units = cost.parse().expect("cost");
    }
    profile
}

fn empty_session(session_id: &str) -> SessionState {
    SessionState {
        session_id: session_id.to_owned(),
        status: "active".to_owned(),
        version: 0,
        goal: GoalState {
            current_revision_id: None,
            revisions: TextMap::new(),
            locked: false,
        },
        model: SessionModel {
            provider_id: None,
            model_id: None,
            reasoning: ReasoningLevel::Off,
        },
        settings: TextMap::new(),
        parent_session_id: None,
        forked_from_checkpoint_id: None,
    }
}

fn copy_session(state: &SessionState) -> SessionState {
    let mut copy = empty_session(&state.session_id);
    copy.version = state.version;
    copy.goal.current_revision_id = state.goal.current_revision_id.clone();
    copy.goal.locked = state.goal.locked;
    for id in state.goal.revisions.keys() {
        let revision = state.goal.revisions.get(id).expect("revision");
        copy.goal.revisions.insert(id.clone(), revision.duplicate());
    }
    copy.model = SessionModel {
        provider_id: state.model.provider_id.clone(),
        model_id: state.model.model_id.clone(),
        reasoning: state.model.reasoning,
    };
    for key in state.settings.keys() {
        let value = state.settings.get(key).expect("setting");
        copy.settings.insert(key.clone(), value.clone());
    }
    copy.parent_session_id = state.parent_session_id.clone();
    copy.forked_from_checkpoint_id = state.forked_from_checkpoint_id.clone();
    copy
}

fn empty_mission(mission_id: &str) -> MissionState {
    MissionState {
        mission_id: mission_id.to_owned(),
        goal: String::new(),
        status: MissionStatus::Created,
        nodes: TextMap::new(),
        runs: TextMap::new(),
        pending_approvals: TextSet::new(),
    }
}

fn copy_mission(state: &MissionState) -> MissionState {
    let mut copy = empty_mission(&state.mission_id);
    copy.goal = state.goal.clone();
    copy.status = state.status;
    for id in state.nodes.keys() {
        copy.nodes
            .insert(id.clone(), state.nodes.get(id).expect("node").duplicate());
    }
    for id in state.runs.keys() {
        copy.runs
            .insert(id.clone(), state.runs.get(id).expect("run").duplicate());
    }
    copy.pending_approvals = state.pending_approvals.copy();
    copy
}

fn usage() -> ModelUsage {
    ModelUsage {
        input_tokens: 2,
        cached_input_tokens: 0,
        cache_write_tokens: 0,
        output_tokens: 1,
        reasoning_tokens: 0,
        total_tokens: 3,
    }
}

fn text_answer(text: &str) -> Vec<ModelEvent> {
    vec![
        ModelEvent::Started {
            response_id: format!("response:{text}"),
        },
        ModelEvent::TextDelta {
            delta: text.to_owned(),
        },
        ModelEvent::Usage { usage: usage() },
        ModelEvent::Completed,
    ]
}

fn tool_answer(name: &str, arguments: Json) -> Vec<ModelEvent> {
    vec![
        ModelEvent::Started {
            response_id: "response:tool".to_owned(),
        },
        ModelEvent::ToolCall {
            call: AgentToolCall {
                call_id: "call:1".to_owned(),
                name: name.to_owned(),
                arguments,
            },
        },
        ModelEvent::Usage { usage: usage() },
        ModelEvent::Completed,
    ]
}

fn node_of(definition: &WorkflowNodeDefinition) -> MissionNode {
    MissionNode {
        id: definition.id.clone(),
        title: definition.title.clone(),
        status: NodeStatus::Queued,
        run_id: None,
        depends_on: definition.depends_on.clone(),
        agent_definition_id: definition.agent_definition_id.clone(),
        output_summary: None,
    }
}

impl World {
    fn new(clock: i64, next: u64) -> Self {
        World {
            clock,
            next,
            events: Vec::new(),
            missions: BTreeMap::new(),
            kinds: BTreeMap::new(),
            effects: Vec::new(),
            sessions: BTreeMap::new(),
            series: BTreeMap::new(),
            compactions: Vec::new(),
            active: BTreeMap::new(),
            checkpoints: Vec::new(),
            cached: Vec::new(),
            script: Script::Echo,
            asked: Vec::new(),
            reasoning: ReasoningLevel::Off,
            files: BTreeMap::new(),
            patches: Vec::new(),
            journal: Vec::new(),
            waiting: Vec::new(),
            policy: ApprovalPolicy::NeverWithinSandbox,
            route: ModelRoutePolicy {
                enabled: false,
                user_confirmed_cost_scope: false,
                allowlist: Vec::new(),
            },
            indexed: false,
            diagnostics: BTreeMap::new(),
            memory: None,
            semantic: SemanticCapability::Absent,
            rules: Vec::new(),
            kept: BTreeMap::new(),
            tried: BTreeMap::new(),
        }
    }

    fn add_effect(&mut self, mission_id: &str, intent: EffectIntent) {
        let effect_id = self.next_id("effect");
        self.effects.push(FakeEffect {
            entry: EffectEntry {
                effect_id,
                mission_id: mission_id.to_owned(),
                intent,
            },
            claimed_until: None,
            done: false,
        });
    }

    fn change_node(
        &mut self,
        mission_id: &str,
        node_id: &str,
        change: impl FnOnce(&mut MissionNode),
    ) {
        let mission = self.missions.get_mut(mission_id).expect("mission");
        let mut node = mission.nodes.remove(node_id).expect("node");
        change(&mut node);
        mission.nodes.insert(node_id.to_owned(), node);
    }

    fn cancel_nodes(&mut self, mission_id: &str, node_id: &str, reason: &str) {
        let mission = self.missions.get(mission_id).expect("mission");
        let mut reached = vec![node_id.to_owned()];
        let mut grew = true;
        while grew {
            grew = false;
            for id in mission.nodes.keys() {
                let node = mission.nodes.get(id).expect("node");
                if !reached.contains(id) && node.depends_on.iter().any(|on| reached.contains(on)) {
                    reached.push(id.clone());
                    grew = true;
                }
            }
        }
        for id in reached {
            let mut run = None;
            self.change_node(mission_id, &id, |node| {
                if node.status == NodeStatus::Running {
                    run = node.run_id.clone();
                }
                node.status = NodeStatus::Cancelled;
            });
            if let Some(run_id) = run {
                self.add_effect(
                    mission_id,
                    EffectIntent::CancelAgentRun {
                        node_id: id,
                        run_id,
                        reason: reason.to_owned(),
                    },
                );
            }
        }
    }

    fn apply_patches(&mut self) {
        for patch in &mut self.patches {
            if patch.status == PatchStatus::Proposed {
                self.files.insert(patch.path.clone(), patch.content.clone());
                patch.status = PatchStatus::Applied;
            }
        }
    }

    fn run_tool(&mut self, invocation: &mut ToolInvocation) {
        let path = invocation
            .args
            .get_text("path")
            .expect("a path to read or to write")
            .clone();
        let content = if invocation.tool_name == "files.write" {
            let content = invocation.args.get_text("content").expect("content").clone();
            self.patches.push(Patch {
                path: path.clone(),
                content: content.clone(),
                status: PatchStatus::Proposed,
            });
            self.apply_patches();
            content
        } else {
            self.files.get(&path).expect("a file to read").clone()
        };
        invocation.status = ToolInvocationStatus::Completed;
        invocation.result = Some(object(vec![
            ("content".to_owned(), text_json(&content)),
            ("path".to_owned(), text_json(&path)),
        ]));
    }

    fn saw(&self, wanted: impl Fn(&HarnessEvent) -> bool) -> bool {
        self.events.iter().any(|(event, _)| wanted(event))
    }

    fn in_force(&self, settings: &BTreeMap<String, (ConfigLayer, String)>) -> InForce {
        let text = |key: &str| settings.get(key).map(|(_, value)| value.as_str());
        InForce {
            settings: RuntimeSettings {
                permission_mode: PermissionMode::Full,
                failover_enabled: text("failover.enabled") == Some("true"),
                failover_cost_confirmed: text("failover.cost-confirmed") == Some("true"),
                failover_targets: text("failover.targets").unwrap_or_default().to_owned(),
            },
            mode: balanced_mode(text("mode").unwrap_or("balanced"), settings),
            trace_enabled: text("trace.enabled") == Some("true"),
        }
    }
}

impl Ports for World {
    fn now(&mut self) -> i64 {
        self.clock
    }

    fn next_id(&mut self, prefix: &str) -> String {
        let id = format!("{prefix}:{}", self.next);
        self.next += 1;
        id
    }

    fn publish(
        &mut self,
        event: HarnessEvent,
        scope: EventScope,
        _priority: EventPriority,
    ) -> Result<(), ApplicationError> {
        self.events.push((event, scope));
        Ok(())
    }

    fn mission(&mut self, mission_id: &str) -> Result<MissionState, ApplicationError> {
        Ok(match self.missions.get(mission_id) {
            Some(state) => copy_mission(state),
            None => empty_mission(mission_id),
        })
    }

    fn ready_nodes(&mut self, mission_id: &str) -> Result<Vec<String>, ApplicationError> {
        let mission = self.mission(mission_id)?;
        let accepted = |id: &String| {
            mission
                .nodes
                .get(id)
                .is_some_and(|node| node.status == NodeStatus::Accepted)
        };
        Ok(mission
            .nodes
            .keys()
            .iter()
            .filter(|id| {
                let node = mission.nodes.get(id).expect("node");
                node.status == NodeStatus::Queued && node.depends_on.iter().all(accepted)
            })
            .cloned()
            .collect())
    }

    fn apply_mission(
        &mut self,
        mission_id: &str,
        command: MissionCommand,
    ) -> Result<Vec<DomainEvent>, ApplicationError> {
        let event = match command {
            MissionCommand::CreateMission { goal, .. } => {
                let mut mission = empty_mission(mission_id);
                mission.goal = goal.clone();
                self.missions.insert(mission_id.to_owned(), mission);
                DomainEvent::MissionCreated { goal }
            }
            MissionCommand::InstallPlan { nodes } => {
                for node in &nodes {
                    self.kinds.insert(node.id.clone(), node.kind);
                }
                let mission = self.missions.get_mut(mission_id).expect("mission");
                mission.status = MissionStatus::Running;
                for node in &nodes {
                    mission.nodes.insert(node.id.clone(), node_of(node));
                }
                DomainEvent::MissionPlanInstalled
            }
            MissionCommand::AppendPlanNodes { nodes } => {
                for node in &nodes {
                    self.kinds.insert(node.id.clone(), node.kind);
                    let mission = self.missions.get_mut(mission_id).expect("mission");
                    mission.nodes.insert(node.id.clone(), node_of(node));
                }
                DomainEvent::MissionNodesAppended
            }
            MissionCommand::StartNode { node_id, run_id } => {
                let mission = self.missions.get_mut(mission_id).expect("mission");
                let agent = mission
                    .nodes
                    .get(&node_id)
                    .expect("node")
                    .agent_definition_id
                    .clone();
                mission.runs.insert(
                    run_id.clone(),
                    MissionRun {
                        endpoint_id: format!("endpoint:{agent}"),
                    },
                );
                self.change_node(mission_id, &node_id, |node| {
                    node.status = NodeStatus::Running;
                    node.run_id = Some(run_id.clone());
                });
                self.add_effect(mission_id, EffectIntent::StartAgentRun { node_id, run_id });
                DomainEvent::NodeStarted
            }
            MissionCommand::SubmitNode {
                node_id,
                run_id,
                output_summary,
            } => {
                self.change_node(mission_id, &node_id, |node| {
                    node.status = NodeStatus::Submitted;
                    node.output_summary = Some(output_summary);
                });
                self.add_effect(mission_id, EffectIntent::VerifyAgentRun { node_id, run_id });
                DomainEvent::NodeSubmitted
            }
            MissionCommand::AcceptNode { node_id, .. } => {
                self.change_node(mission_id, &node_id, |node| {
                    node.status = NodeStatus::Accepted;
                });
                DomainEvent::NodeAccepted
            }
            MissionCommand::FailNode { node_id, .. } => {
                self.change_node(mission_id, &node_id, |node| {
                    node.status = NodeStatus::Failed;
                });
                DomainEvent::NodeFailed
            }
            MissionCommand::CancelNode { node_id, reason } => {
                self.cancel_nodes(mission_id, &node_id, &reason);
                DomainEvent::NodeCancelled
            }
            MissionCommand::RequestApproval {
                node_id,
                approval_id,
                action,
                reason,
                ..
            } => {
                self.change_node(mission_id, &node_id, |node| {
                    node.status = NodeStatus::WaitingApproval;
                });
                let mission = self.missions.get_mut(mission_id).expect("mission");
                mission.pending_approvals.insert(approval_id.clone());
                DomainEvent::ApprovalRequested {
                    approval_id,
                    action,
                    reason,
                }
            }
            MissionCommand::ResolveApproval {
                approval_id,
                decision,
            } => {
                let mission = self.missions.get_mut(mission_id).expect("mission");
                mission.pending_approvals.remove(&approval_id);
                let waiting: Vec<(String, String)> = mission
                    .nodes
                    .keys()
                    .iter()
                    .map(|id| mission.nodes.get(id).expect("node"))
                    .filter(|node| node.status == NodeStatus::WaitingApproval)
                    .map(|node| (node.id.clone(), node.run_id.clone().expect("run")))
                    .collect();
                for (node_id, run_id) in waiting {
                    let allowed = decision == ApprovalDecision::Allow;
                    self.change_node(mission_id, &node_id, |node| {
                        node.status = if allowed {
                            NodeStatus::Running
                        } else {
                            NodeStatus::Failed
                        };
                    });
                    if allowed {
                        self.add_effect(
                            mission_id,
                            EffectIntent::ResumeAgentRun { node_id, run_id },
                        );
                    }
                }
                DomainEvent::ApprovalResolved {
                    approval_id,
                    decision,
                }
            }
            MissionCommand::CompleteMission => {
                self.missions.get_mut(mission_id).expect("mission").status =
                    MissionStatus::Completed;
                DomainEvent::MissionCompleted
            }
            MissionCommand::CancelMission { reason } => {
                let ids = self.missions[mission_id].nodes.keys().clone();
                for id in ids {
                    let node = self.missions[mission_id].nodes.get(&id).expect("node");
                    if node.status != NodeStatus::Accepted {
                        self.cancel_nodes(mission_id, &id, &reason);
                    }
                }
                self.missions.get_mut(mission_id).expect("mission").status =
                    MissionStatus::Cancelled;
                DomainEvent::MissionCancelled
            }
        };
        Ok(vec![event])
    }

    fn claimable_effects(&mut self, limit: usize) -> Result<Vec<EffectEntry>, ApplicationError> {
        let now = self.clock;
        Ok(self
            .effects
            .iter()
            .filter(|effect| !effect.done && effect.claimed_until.is_none_or(|until| until <= now))
            .take(limit)
            .map(|effect| EffectEntry {
                effect_id: effect.entry.effect_id.clone(),
                mission_id: effect.entry.mission_id.clone(),
                intent: effect.entry.intent.duplicate(),
            })
            .collect())
    }

    fn claim_effect(&mut self, effect_id: &str) -> Result<Option<ClaimedEffect>, ApplicationError> {
        let claim_token = self.next_id("claim");
        let until = self.clock + 30_000;
        let effect = self
            .effects
            .iter_mut()
            .find(|effect| effect.entry.effect_id == effect_id)
            .expect("effect");
        effect.claimed_until = Some(until);
        Ok(Some(ClaimedEffect {
            fence: CompletionFence {
                effect_id: effect_id.to_owned(),
                mission_epoch: 1,
                claim_token,
                run_fence: Some(1),
            },
            intent: effect.entry.intent.duplicate(),
        }))
    }

    fn complete_effect(&mut self, completion: EffectCompletion) -> Result<(), ApplicationError> {
        let effect = self
            .effects
            .iter_mut()
            .find(|effect| effect.entry.effect_id == completion.fence.effect_id)
            .expect("effect");
        assert!(!effect.done, "an effect is completed once");
        effect.done = true;
        Ok(())
    }

    fn session(&mut self, session_id: &str) -> Result<SessionState, ApplicationError> {
        Ok(match self.sessions.get(session_id) {
            Some(state) => copy_session(state),
            None => empty_session(session_id),
        })
    }

    fn session_ids(&mut self) -> Result<Vec<String>, ApplicationError> {
        Ok(self.sessions.keys().cloned().collect())
    }

    fn apply_session(
        &mut self,
        session_id: &str,
        command: SessionCommand,
    ) -> Result<(), ApplicationError> {
        let mut state = self.session(session_id)?;
        match command {
            SessionCommand::CreateSession { .. } => {}
            SessionCommand::ForkSession {
                parent_session_id,
                checkpoint_id,
                ..
            } => {
                state.parent_session_id = Some(parent_session_id);
                state.forked_from_checkpoint_id = Some(checkpoint_id);
            }
            SessionCommand::ReviseGoal { revision } => {
                if state.goal.locked {
                    return Err(ApplicationError::new("goal-locked", &revision.text));
                }
                state.goal.current_revision_id = Some(revision.id.clone());
                state.goal.revisions.insert(revision.id.clone(), revision);
            }
            SessionCommand::ClearGoal { .. } => state.goal.current_revision_id = None,
            SessionCommand::SetGoalLock { locked } => state.goal.locked = locked,
            SessionCommand::SelectModel {
                provider_id,
                model_id,
            } => {
                state.model.provider_id = Some(provider_id);
                state.model.model_id = Some(model_id);
            }
            SessionCommand::SetReasoning { reasoning } => state.model.reasoning = reasoning,
            SessionCommand::SetSetting { key, value } => state.settings.insert(key, value),
            SessionCommand::ClearSetting { key } => {
                state.settings.remove(&key);
            }
        }
        state.version += 1;
        self.sessions.insert(session_id.to_owned(), state);
        Ok(())
    }

    fn active_series(
        &mut self,
        session_id: &str,
    ) -> Result<Option<ContextSeries>, ApplicationError> {
        Ok(self
            .active
            .get(session_id)
            .map(|id| self.series[id].duplicate()))
    }

    fn series(&mut self, series_id: &str) -> Result<Option<ContextSeries>, ApplicationError> {
        Ok(self.series.get(series_id).map(Duplicate::duplicate))
    }

    fn commit_series(&mut self, transition: ContextTransition) -> Result<(), ApplicationError> {
        let session_id = transition.next_series.session_id.clone();
        assert_eq!(
            self.active.get(&session_id),
            transition.expected_active_series_id.as_ref()
        );
        self.compactions.extend(transition.compaction_record);
        self.active
            .insert(session_id, transition.next_series.id.clone());
        self.series
            .insert(transition.next_series.id.clone(), transition.next_series);
        Ok(())
    }

    fn checkpoints(
        &mut self,
        session_id: &str,
    ) -> Result<Vec<ContextCheckpoint>, ApplicationError> {
        Ok(self
            .checkpoints
            .iter()
            .filter(|checkpoint| checkpoint.session_id == session_id)
            .map(Duplicate::duplicate)
            .collect())
    }

    fn save_checkpoint(&mut self, checkpoint: &ContextCheckpoint) -> Result<(), ApplicationError> {
        self.checkpoints.push(checkpoint.duplicate());
        Ok(())
    }

    fn fork_context_series(
        &mut self,
        source: &ContextSeries,
        checkpoint: &ContextCheckpoint,
        session_id: &str,
        series_id: &str,
        now: i64,
    ) -> Result<ContextSeries, ApplicationError> {
        Ok(ContextSeries {
            id: series_id.to_owned(),
            session_id: session_id.to_owned(),
            parent_series_id: Some(source.id.clone()),
            restored_from_checkpoint_id: Some(checkpoint.id.clone()),
            items: source.items.iter().map(Duplicate::duplicate).collect(),
            created_at_millis: now,
        })
    }

    fn count_tokens(&mut self, text: &str) -> u32 {
        u32::try_from(text.len().div_ceil(4)).expect("a short text")
    }

    fn select_context(
        &mut self,
        role: ContextRole,
        items: Vec<ContextItem>,
        budget: &ContextBudget,
    ) -> Result<Selected, ApplicationError> {
        let reads_alone = matches!(role, ContextRole::Reviewer | ContextRole::Explorer);
        let (excluded, items): (Vec<ContextItem>, Vec<ContextItem>) =
            items.into_iter().partition(|item| match item.kind {
                ContextKind::Agent => true,
                ContextKind::Conversation => reads_alone && !item.hard_required,
                _ => false,
            });
        let token_cost = items.iter().map(|item| item.token_cost).sum();
        Ok(Selected {
            items,
            excluded: excluded.into_iter().map(|item| item.id).collect(),
            token_cost,
            max_input_tokens: budget.model_context_window
                - budget.reserved_output_tokens
                - budget.reserved_tool_tokens
                - budget.reserved_recovery_tokens,
        })
    }

    fn compile_prompt(
        &mut self,
        segments: &[PromptSegment],
    ) -> Result<(String, String), ApplicationError> {
        let texts: Vec<&str> = segments
            .iter()
            .map(|segment| segment.content.as_str())
            .collect();
        let text = texts.join("\n");
        let hash = hash_text(&text);
        Ok((text, hash))
    }

    fn compact_items(
        &mut self,
        summaries: &DeterministicSummaryProvider,
        request: CompactionRequest,
    ) -> Result<Compacted, ApplicationError> {
        let cost = |items: &[CompactionItem]| {
            items.iter().map(|item| item.context.token_cost).sum::<u32>()
        };
        assert!(request.checkpoint.is_some(), "there is a way back");
        let loose: Vec<&CompactionItem> = request
            .items
            .iter()
            .filter(|item| !item.context.hard_required)
            .collect();
        let kept_from = loose.len().saturating_sub(request.keep_recent);
        let told: Vec<CompactionItem> = loose[..kept_from].iter().map(|i| i.duplicate()).collect();
        let text = summaries.text(&told);
        let tokens = self.count_tokens(&text);
        let summary = summaries.summarize(&told, tokens, request.max_summary_tokens)?;
        let mut items: Vec<CompactionItem> = request
            .items
            .iter()
            .filter(|item| item.context.hard_required)
            .map(Duplicate::duplicate)
            .collect();
        let mut kept = told.first().expect("something to compact").duplicate();
        kept.context.token_cost = summary.token_cost;
        kept.context.content = summary.summary;
        items.push(kept);
        items.extend(loose[kept_from..].iter().map(|item| item.duplicate()));
        Ok(Compacted {
            record: CompactionRecord {
                token_cost_before: cost(&request.items),
                token_cost_after: cost(&items),
                next_series_id: format!("{}:compacted", request.series_id),
                previous_series_id: request.series_id,
            },
            items,
        })
    }

    fn cache_prompt(&mut self, prompt_hash: &str, _text: &str) -> Result<(), ApplicationError> {
        if !self.cached.iter().any(|hash| hash == prompt_hash) {
            self.cached.push(prompt_hash.to_owned());
        }
        Ok(())
    }

    fn cache_percent(&mut self) -> Option<u8> {
        None
    }

    fn model_view(&mut self) -> Result<ModelRuntimeView, ApplicationError> {
        let clamped = self.reasoning == ReasoningLevel::Max;
        Ok(ModelRuntimeView {
            provider_id: "fake".to_owned(),
            model_id: "deterministic".to_owned(),
            reasoning_requested: self.reasoning,
            reasoning_effective: Some(if clamped {
                ReasoningLevel::High
            } else {
                self.reasoning
            }),
            reasoning_mapping: if clamped {
                ReasoningMapping::ClampedDown
            } else {
                ReasoningMapping::Exact
            },
            context_window_tokens: 8_192,
            max_output_tokens: 1_024,
            tool_calling: true,
            structured_output: true,
        })
    }

    fn model_selection(&mut self) -> Result<ModelSelection, ApplicationError> {
        Ok(ModelSelection {
            provider_id: "fake".to_owned(),
            model_id: "deterministic".to_owned(),
            reasoning_requested: self.reasoning,
            max_output_tokens: 1_024,
            conversation_continuation: true,
        })
    }

    fn test_model_registered(&mut self) -> bool {
        true
    }

    fn select_model(
        &mut self,
        _provider_id: &str,
        _model_id: &str,
    ) -> Result<ModelRuntimeView, ApplicationError> {
        self.model_view()
    }

    fn set_reasoning(
        &mut self,
        reasoning: ReasoningLevel,
    ) -> Result<ModelRuntimeView, ApplicationError> {
        self.reasoning = reasoning;
        self.model_view()
    }

    fn execute_job(
        &mut self,
        job: AgentTeamModelJob,
        cancelled: Vec<bool>,
    ) -> Result<Vec<AgentExecutionOutcome>, AgentError> {
        BoundedAgentExecutor::new(job.max_parallel)?.accept(&job.requests)?;
        let handler = ModelAgentHandler::new(120_000)?;
        let mut outcomes = Vec::new();
        for (request, cancelled) in job.requests.into_iter().zip(cancelled) {
            let contract = request.contract.duplicate();
            let told = |error: ApplicationError| AgentError::new(&error.code, &error.message);
            let execution = check_start(&contract, cancelled, job.started_at_millis)
                .and_then(|()| handler.begin(request, &self.model_selection().map_err(told)?))
                .and_then(|(state, asked)| {
                    let events = self.ask_model(asked).map_err(told)?;
                    handler.conclude(state, &contract.run_id, &events)
                });
            outcomes.push(AgentExecutionOutcome::of(&contract, execution));
        }
        Ok(merge_outcomes(outcomes))
    }

    fn ask_model(&mut self, request: ModelRequest) -> Result<Vec<ModelEvent>, ApplicationError> {
        let said = request
            .input
            .iter()
            .find_map(|item| match item {
                ModelInputItem::Message { content, .. } => Some(content.clone()),
                _ => None,
            })
            .unwrap_or_default();
        self.asked.push(request);
        Ok(match &mut self.script {
            Script::Echo => text_answer(&format!("deterministic:{said}")),
            Script::Answers(answers) => answers.pop_front().expect("an answer"),
        })
    }

    fn find_tools(
        &mut self,
        _query: &str,
        limit: usize,
    ) -> Result<Vec<ToolDescriptor>, ApplicationError> {
        Ok(["files.read", "files.write"]
            .iter()
            .take(limit)
            .map(|name| ToolDescriptor {
                canonical_name: (*name).to_owned(),
                description: format!("the tool {name}"),
                input_schema: object(vec![("type".to_owned(), text_json("object"))]),
            })
            .collect())
    }

    fn invoke(&mut self, request: ToolInvokeRequest) -> Result<ToolInvocation, ApplicationError> {
        let mut invocation = ToolInvocation {
            id: request.invocation_id,
            tool_name: request.tool_name,
            args: request.args,
            status: ToolInvocationStatus::WaitingApproval,
            approval_request_id: None,
            permission_action: text_json("file-access"),
            result: None,
            mission_id: request.mission_id,
            run_id: request.run_id,
            origin: request.origin,
        };
        if self.policy == ApprovalPolicy::Always {
            invocation.approval_request_id = Some(request.approval_request_id.clone());
            self.waiting.push(PendingApproval {
                id: request.approval_request_id,
                risk: "Medium".to_owned(),
                reason: "every call is asked for".to_owned(),
            });
        } else {
            self.run_tool(&mut invocation);
        }
        self.journal.push(invocation.duplicate());
        Ok(invocation)
    }

    fn make_approved(&mut self, invocation_id: &str) -> Result<ToolInvocation, ApplicationError> {
        let at = self
            .journal
            .iter()
            .position(|invocation| invocation.id == invocation_id)
            .expect("invocation");
        let mut invocation = self.journal[at].duplicate();
        self.run_tool(&mut invocation);
        self.journal[at] = invocation.duplicate();
        self.waiting
            .retain(|approval| Some(&approval.id) != invocation.approval_request_id.as_ref());
        Ok(invocation)
    }

    fn deny(&mut self, invocation_id: &str) -> Result<ToolInvocation, ApplicationError> {
        let at = self
            .journal
            .iter()
            .position(|invocation| invocation.id == invocation_id)
            .expect("invocation");
        self.journal[at].status = ToolInvocationStatus::Other {
            name: "Denied".to_owned(),
        };
        Ok(self.journal[at].duplicate())
    }

    fn invocation(
        &mut self,
        invocation_id: &str,
    ) -> Result<Option<ToolInvocation>, ApplicationError> {
        Ok(self
            .journal
            .iter()
            .find(|invocation| invocation.id == invocation_id)
            .map(Duplicate::duplicate))
    }

    fn approvals(&mut self) -> Result<Vec<PendingApproval>, ApplicationError> {
        Ok(self
            .waiting
            .iter()
            .map(|approval| PendingApproval {
                id: approval.id.clone(),
                risk: approval.risk.clone(),
                reason: approval.reason.clone(),
            })
            .collect())
    }

    fn resolve_site(&mut self, path: &str) -> Result<WriteSite, ApplicationError> {
        Ok(WriteSite {
            joined: path.to_owned(),
            existing: "/work/project".to_owned(),
            canonical: "/work/project".to_owned(),
        })
    }

    fn project_fact(
        &mut self,
        fact: &ToolFact,
        answer: &LspAnswer,
        run_id: Option<&str>,
    ) -> Result<Projection, ApplicationError> {
        if !self.indexed {
            return Ok(Projection::Absent);
        }
        let added = answer.count;
        if let Some(run_id) = run_id {
            self.diagnostics.insert(
                run_id.to_owned(),
                vec![LspDiagnosticEvidence {
                    server_id: answer.server_id.clone(),
                    path: answer.path.clone(),
                    file_hash: answer.expected_file_hash.clone().expect("hash"),
                    before_count: 0,
                    after_count: added,
                    added,
                    removed: 0,
                    error_count: 1,
                    warning_count: 0,
                }],
            );
        }
        let kind = fact.tool.trim_start_matches("lsp.").to_owned();
        Ok(Projection::Stored {
            kind,
            added,
            removed: 0,
        })
    }

    fn diagnostics(
        &mut self,
        run_id: &str,
    ) -> Result<Vec<LspDiagnosticEvidence>, ApplicationError> {
        Ok(self.diagnostics.remove(run_id).unwrap_or_default())
    }

    fn vector_mode(&mut self) -> VectorMode {
        VectorMode::On
    }

    fn search_memory(
        &mut self,
        query: &str,
        mode: RetrievalMode,
        limit: usize,
    ) -> Option<(Vec<MemoryHit>, bool)> {
        let records = self.memory.as_ref()?;
        let hits = records
            .iter()
            .filter(|record| query.contains(&record.title))
            .take(limit)
            .map(|record| MemoryHit {
                title: record.title.clone(),
                content: record.content.clone(),
            })
            .collect();
        let by_meaning =
            self.semantic == SemanticCapability::Ready && mode != RetrievalMode::Lexical;
        Some((hits, by_meaning))
    }

    fn search_files(&mut self, query: &str, limit: usize) -> Option<Vec<RepositoryHit>> {
        if !self.indexed {
            return None;
        }
        let hits = self
            .files
            .iter()
            .filter(|(path, _)| query.contains(path.as_str()))
            .take(limit)
            .map(|(path, content)| RepositoryHit {
                path: path.clone(),
                language: "text".to_owned(),
                summary: content.clone(),
                symbols: Vec::new(),
                diagnostics: Vec::new(),
                matched_by: "path".to_owned(),
            })
            .collect();
        Some(hits)
    }

    fn has_memory(&mut self) -> bool {
        self.memory.is_some()
    }

    fn remember(&mut self, record: NewMemoryRecord, _now: i64) -> Result<(), ApplicationError> {
        if let Some(memory) = self.memory.as_mut() {
            memory.push(record);
        }
        Ok(())
    }

    fn add_permission_rule(&mut self, rule: &PermissionRule) -> Result<(), ApplicationError> {
        self.rules.push(rule.id.clone());
        Ok(())
    }

    fn try_settings(
        &mut self,
        layer: ConfigLayer,
        changes: &[(String, Option<String>)],
    ) -> Result<InForce, ApplicationError> {
        let mut tried = self.kept.clone();
        for (key, value) in changes {
            if key == "agents.parallel" && value.as_deref() == Some("0") {
                return Err(ApplicationError::new("config-effective-invalid", key));
            }
            match value {
                Some(value) => tried.insert(key.clone(), (layer, value.clone())),
                None => tried.remove(key),
            };
        }
        let wanted = self.in_force(&tried);
        if wanted.settings.failover_enabled && !wanted.settings.failover_cost_confirmed {
            return Err(ApplicationError::new(
                "config-effective-invalid",
                "failover.cost-confirmed",
            ));
        }
        self.tried = tried;
        Ok(wanted)
    }

    fn keep_settings(&mut self) {
        self.kept = self.tried.clone();
    }

    fn approval_policy(&mut self) -> Result<ApprovalPolicy, ApplicationError> {
        Ok(self.policy)
    }

    fn set_approval_policy(&mut self, policy: ApprovalPolicy) -> Result<(), ApplicationError> {
        self.policy = policy;
        Ok(())
    }

    fn route_policy(&mut self) -> ModelRoutePolicy {
        self.route.duplicate()
    }

    fn set_route_policy(&mut self, policy: ModelRoutePolicy) -> Result<(), ApplicationError> {
        self.route = policy;
        Ok(())
    }

    fn folds_case(&self) -> bool {
        false
    }
}

fn application(world: World) -> Harness<World> {
    let app = HarnessApplication::new(
        "project:test".to_owned(),
        "C:/project".to_owned(),
        "session:test".to_owned(),
        balanced_mode("balanced", &BTreeMap::new()),
    );
    Harness::new(app, world, "0.1.0")
}

fn change(harness: &mut Harness<World>, with: impl FnOnce(HarnessApplication) -> HarnessApplication) {
    let empty = HarnessApplication::new(
        String::new(),
        String::new(),
        String::new(),
        balanced_mode("balanced", &BTreeMap::new()),
    );
    let app = std::mem::replace(&mut harness.app, empty);
    harness.app = with(app);
}

fn with_control_plane(app: HarnessApplication) -> HarnessApplication {
    app.with_agent_catalog(builtin_agent_catalog().expect("catalog"))
        .with_agent_control_plane(
            AgentMessageBus::new(),
            FileLeaseManager::new("/work/project".to_owned(), false),
            AgentStateStore::new(),
            AgentBudgetManager::new(),
        )
}

fn answers(all: Vec<Vec<ModelEvent>>) -> Script {
    Script::Answers(all.into_iter().collect())
}

#[test]
fn mode_settings_change_real_budgets_and_invalid_runtime_update_is_atomic() {
    let mut application = application(World::new(1_000, 1));
    application.boot().expect("boot");
    assert_eq!(application.status().expect("status").mode, "balanced");
    assert_eq!(application.app.agent_budget().max_agents, 8);

    application
        .set_setting("mode", "full", ConfigLayer::Session)
        .expect("full mode");
    assert_eq!(application.status().expect("status").mode, "full");
    assert_eq!(application.app.agent_budget().max_agents, 12);
    assert_eq!(application.app.agent_budget().max_parallel_agents, 6);
    let state = application.ports.session("session:test").expect("session");
    assert_eq!(
        state.settings.get("mode").map(String::as_str),
        Some("full")
    );

    let error = application
        .set_setting("agents.parallel", "0", ConfigLayer::Runtime)
        .expect_err("invalid parallel");
    assert_eq!(error.code, "config-effective-invalid");
    assert_eq!(application.app.agent_budget().max_parallel_agents, 6);
    assert_eq!(application.ports.kept["mode"].0, ConfigLayer::Session);
    assert!(!application.ports.kept.contains_key("agents.parallel"));

    let error = application
        .set_setting("mode", "lean", ConfigLayer::Global)
        .expect_err("a layer that is only read");
    assert_eq!(error.code, "config-layer-read-only");
}

#[test]
fn cost_unit_budget_is_visible_and_blocks_agent_dispatch_before_wakeup() {
    let mut application = application(World::new(1_000, 1));
    change(&mut application, |app| {
        app.with_model_runtime()
            .with_agent_catalog(builtin_agent_catalog().expect("catalog"))
    });
    application.boot().expect("boot");
    let targets = vec!["fake/deterministic".to_owned()];
    let failover = application
        .configure_failover(true, true, &targets)
        .expect("explicit failover");
    assert!(failover.enabled);
    assert!(failover.cost_confirmed);
    assert_eq!(failover.targets, vec!["fake/deterministic"]);
    assert!(application.configure_failover(true, false, &targets).is_err());
    application
        .configure_failover(false, false, &Vec::new())
        .expect("disable failover");
    let budget = application
        .set_agent_budget("cost", 1)
        .expect("cost budget");
    assert_eq!(budget.max_cost_units, 1);
    let error = match application.prepare_parallel_agent_team("cost constrained", 2) {
        Err(error) => error,
        Ok(_) => panic!("researchers must exceed one cost unit"),
    };
    assert_eq!(error.code, "agent-cost-budget-exhausted");
    assert_eq!(error.message, "1");
    assert!(application
        .app
        .agents()
        .expect("agents")
        .agents
        .iter()
        .all(|agent| matches!(agent.lifecycle, AgentLifecycle::Sleeping)));
}

#[test]
fn profile_why_and_trace_expose_bounded_evidence_without_private_reasoning() {
    let mut application = application(World::new(1_000, 1));
    application.boot().expect("boot");
    application
        .set_setting("trace.enabled", "true", ConfigLayer::Runtime)
        .expect("trace");
    application.set_goal("explain evidence").expect("goal");
    application.context().expect("context");

    let why = application.why(&Vec::new()).expect("why");
    assert_eq!(why.goal.as_deref(), Some("explain evidence"));
    assert!(why.summary.contains("durable Goal"));
    assert!(!why.context_sources.is_empty());
    assert!(!format!("{} {:?}", why.summary, why.context_sources)
        .to_lowercase()
        .contains("chain-of-thought"));

    application.samples.record_startup_millis(17);
    let profile = application.profile(0);
    assert!(profile.metrics.iter().any(|metric| {
        metric.name == "startup" && metric.count == 1 && metric.last_millis == 17
    }));
    assert!(profile
        .metrics
        .iter()
        .any(|metric| metric.name == "context-build" && metric.count > 0));

    let mut traced_goal = false;
    for (event, scope) in &application.ports.events {
        if matches!(event, HarnessEvent::GoalChanged { .. }) {
            traced_goal = scope.trace_id.is_some();
        }
    }
    assert!(traced_goal);
}

#[test]
fn goal_history_clear_context_reset_and_session_listing_are_durable_and_recoverable() {
    let mut application = application(World::new(1_000, 1));
    application.boot().expect("boot");
    application.set_goal("goal one").expect("goal one");
    application.set_goal("goal two").expect("goal two");
    let history = application.goal_history(20).expect("history");
    assert_eq!(history.revisions.len(), 2);
    assert_eq!(history.revisions[0].text, "goal two");

    application.clear_goal().expect("clear");
    assert!(application.status().expect("status").goal.is_none());
    assert!(application
        .active_context_series()
        .expect("series")
        .items
        .iter()
        .all(|item| item.context.source_identity != "goal:active"));
    assert_eq!(
        application
            .goal_history(20)
            .expect("history")
            .revisions
            .len(),
        2
    );

    application.set_goal("goal after clear").expect("new goal");
    application.pin("preserve this constraint").expect("pin");
    application
        .append_context_item(
            ContextKind::Conversation,
            Priority::Medium,
            "conversation:reset-test",
            "discard this conversation",
            false,
        )
        .expect("conversation");
    let before = application.active_context_series().expect("before");
    let reset = application.reset_context().expect("reset");
    assert_eq!(reset.removed_items, 1);
    assert_eq!(reset.retained_items, 2);
    assert_ne!(reset.previous_series_id, reset.next_series_id);
    assert_eq!(reset.previous_series_id, before.id);

    let checkpoint = application
        .create_checkpoint(Some("fork-list"))
        .expect("checkpoint");
    let child = application
        .fork_session_reference(&checkpoint.checkpoint_id, Some("session:listed-child"))
        .expect("fork");
    let sessions = application.sessions().expect("sessions");
    assert_eq!(sessions.len(), 2);
    assert!(sessions.iter().any(|session| session.current));
    let child_view = sessions
        .iter()
        .find(|session| session.session_id == child.child_session_id)
        .expect("child session");
    assert_eq!(
        child_view.parent_session_id.as_deref(),
        Some("session:test")
    );
    let taken = application
        .fork_session_reference("fork-list", Some("session:listed-child"))
        .err()
        .expect("a child is created once");
    assert_eq!(taken.code, "session-exists");
}

#[test]
fn lsp_tool_result_becomes_bounded_replaceable_repository_context_fact() {
    let mut world = World::new(1_000, 1);
    world.indexed = true;
    let mut application = application(world);
    application.boot().expect("boot");
    let position = |line: u64, character: u64| {
        object(vec![
            ("line".to_owned(), Json::Unsigned(line)),
            ("character".to_owned(), Json::Unsigned(character)),
        ])
    };
    let result = || {
        object(vec![
            ("serverId".to_owned(), text_json("fixture")),
            ("path".to_owned(), text_json("src/main.rs")),
            ("source".to_owned(), text_json("lsp")),
            ("integrity".to_owned(), text_json("untrusted")),
            (
                "fileHash".to_owned(),
                text_json(&hash_text("fn main() {}\n")),
            ),
            ("documentVersion".to_owned(), Json::Unsigned(1)),
            ("positionEncoding".to_owned(), text_json("utf-16")),
            ("count".to_owned(), Json::Unsigned(1)),
            ("returned".to_owned(), Json::Unsigned(1)),
            ("truncated".to_owned(), Json::Bool(false)),
            (
                "facts".to_owned(),
                Json::List(vec![object(vec![
                    ("path".to_owned(), text_json("src/main.rs")),
                    (
                        "range".to_owned(),
                        object(vec![
                            ("start".to_owned(), position(2, 4)),
                            ("end".to_owned(), position(2, 8)),
                        ]),
                    ),
                    ("severity".to_owned(), Json::Unsigned(1)),
                    ("code".to_owned(), text_json("E100")),
                    ("message".to_owned(), text_json("fixture diagnostic")),
                ])]),
            ),
        ])
    };
    let fact = ToolFact {
        tool: "lsp.diagnostics".to_owned(),
        arguments: object(vec![
            ("serverId".to_owned(), text_json("fixture")),
            ("path".to_owned(), text_json("src/main.rs")),
        ]),
        result: result(),
    };
    application
        .record_lsp_tool_fact(&fact, Some("run:review"))
        .expect("record");
    application
        .record_lsp_tool_fact(&fact, None)
        .expect("replace");
    let series = application.active_context_series().expect("series");
    let facts: Vec<_> = series
        .items
        .iter()
        .filter(|item| item.context.source_identity.starts_with("lsp-fact:"))
        .collect();
    assert_eq!(facts.len(), 1, "同一查询只保留最新事实摘要");
    assert_eq!(facts[0].context.kind, ContextKind::Repository);
    assert_eq!(facts[0].context.integrity, IntegrityLabel::Untrusted);
    assert!(facts[0].context.content.contains("fixture diagnostic"));
    assert!(facts[0]
        .context
        .content
        .contains("repositoryProjection=diagnostics"));
    assert!(facts[0].context.content.len() <= 8 * 1024 + 128);
    let working = application
        .agent_working_context(AgentRole::Researcher)
        .expect("context broker");
    assert!(working.dynamic_context.contains("fixture diagnostic"));
    let evidence = application
        .ports
        .diagnostics("run:review")
        .expect("evidence");
    assert_eq!(evidence[0].added, 1);
    let role_evidence = lsp_run_evidence(&evidence).expect("role evidence");
    assert_eq!(role_evidence[0].kind, "lsp-diagnostic-delta");
    assert!(role_evidence[0].summary.contains("added=1"));
}

#[test]
fn boot_goal_and_fake_task_flow_through_store_and_events() {
    let mut application = application(World::new(1_000, 1));
    let boot = application.boot().expect("boot");
    assert_eq!(boot.session_version, 1);
    let goal = application
        .set_goal("完成终端 vertical slice")
        .expect("goal");
    assert_eq!(goal.goal.as_deref(), Some("完成终端 vertical slice"));
    let plan = application
        .run_fake_task("完成终端 vertical slice")
        .expect("fake task");
    assert_eq!(plan.accepted, 1);
    assert_eq!(plan.status, Some(MissionStatus::Completed));
    assert!(application.ports.effects.iter().all(|effect| effect.done));
    let world = &application.ports;
    assert!(world.saw(|event| matches!(event, HarnessEvent::SystemReady { .. })));
    assert!(world.saw(|event| matches!(event, HarnessEvent::AgentStatus { .. })));
    assert!(world.saw(|event| matches!(event, HarnessEvent::TextOutput { .. })));
}

#[test]
fn builtin_agents_stay_sleeping_and_queue_reuses_mission_kernel() {
    let mut application = application(World::new(1_000, 1));
    change(&mut application, |app| {
        app.with_agent_catalog(builtin_agent_catalog().expect("catalog"))
    });
    let team = application.app.agents().expect("team");
    assert_eq!(team.total, 15);
    assert_eq!(team.sleeping, 15);
    assert_eq!(team.running, 0);
    assert!(
        application
            .app
            .agent("agent:coordinator")
            .expect("coordinator")
            .control_plane
    );
    application.boot().expect("boot");
    application.run_fake_task("inspect queue").expect("task");
    let queue = application.agent_queue().expect("queue");
    assert!(queue.mission_id.is_some());
    assert_eq!(queue.items.len(), 1);
}

#[test]
fn adaptive_team_routes_elite_specialists_and_builds_conditional_evidence_gates() {
    let mut application = application(World::new(1_000, 1));
    change(&mut application, |app| {
        with_control_plane(app.with_model_runtime())
    });
    application.boot().expect("boot");
    let prepared = application
        .prepare_adaptive_agent_team("release secure auth service with performance benchmark", 2)
        .expect("adaptive team");
    assert_eq!(prepared.job.requests.len(), 2);
    let mut first_wave: Vec<&str> = prepared
        .job
        .requests
        .iter()
        .map(|request| request.contract.agent_definition_id.as_str())
        .collect();
    first_wave.sort_unstable();
    assert_eq!(first_wave, vec!["agent:explorer", "agent:requirements"]);
    let mission = application
        .ports
        .mission(&prepared.continuation.mission_id)
        .expect("mission");
    assert_eq!(mission.nodes.len(), 11);
    for (task, agent) in [
        ("task:requirements", "agent:requirements"),
        ("task:explorer", "agent:explorer"),
        ("task:architect", "agent:architect"),
        ("task:security", "agent:security"),
        ("task:performance", "agent:performance"),
        ("task:release", "agent:release"),
    ] {
        assert_eq!(
            mission.nodes.get(task).expect("node").agent_definition_id,
            agent
        );
    }
    let tester = mission.nodes.get("task:tester").expect("tester");
    for gate in ["task:review", "task:security", "task:performance"] {
        assert!(tester.depends_on.iter().any(|on| on == gate));
    }
    assert_eq!(
        mission.nodes.get("task:release").expect("node").depends_on,
        vec!["task:tester"]
    );

    let lean = AdaptiveTeamProfile::classify("fix a typo in one message");
    assert_eq!(lean, AdaptiveTeamProfile::default());
}

#[test]
fn specialist_tool_views_enforce_read_execute_and_write_boundaries() {
    let mut application = application(World::new(1_000, 1));
    change(&mut application, |app| {
        app.with_tool_runtime()
            .with_agent_catalog(builtin_agent_catalog().expect("catalog"))
    });
    let query = application
        .app
        .agent_tools_query("agent:security", AgentRole::SecurityAuditor, "audit files")
        .expect("security tools")
        .expect("a question");
    assert!(query.starts_with("audit files "));
    let found = application.ports.find_tools(&query, 12).expect("tools");
    let security = application.app.agent_model_tools("agent:security", &found);
    assert!(security.iter().any(|tool| tool.name == "files.read"));
    assert!(security.iter().all(|tool| tool.name != "files.write"));
    let coder = application.app.agent_model_tools("agent:coder", &found);
    assert!(coder.iter().any(|tool| tool.name == "files.write"));
    let unknown = application
        .app
        .agent_tools_query("agent:nobody", AgentRole::Coder, "edit files")
        .expect_err("an unknown agent");
    assert_eq!(unknown.code, "agent-not-found");
}

#[test]
fn queue_cancel_uses_kernel_cascade_without_orphan_descendants() {
    let mut application = application(World::new(1_000, 1));
    application.boot().expect("boot");
    let mission_id = "mission:queue-cancel".to_owned();
    application.app.active_mission_id = Some(mission_id.clone());
    application
        .apply_mission_command(
            &mission_id,
            MissionCommand::CreateMission {
                mission_id: mission_id.clone(),
                project_id: "project:test".to_owned(),
                goal: "cancel branch".to_owned(),
            },
        )
        .expect("create");
    let node = |id: &str, title: &str, depends_on: Vec<String>, agent: &str| {
        WorkflowNodeDefinition {
            id: id.to_owned(),
            title: title.to_owned(),
            kind: NodeKind::Task,
            depends_on,
            agent_definition_id: agent.to_owned(),
            requires_approval: None,
        }
    };
    application
        .apply_mission_command(
            &mission_id,
            MissionCommand::InstallPlan {
                nodes: vec![
                    node("task:parent", "parent", vec![], "agent:coder"),
                    node(
                        "task:child",
                        "child",
                        vec!["task:parent".to_owned()],
                        "agent:review",
                    ),
                ],
            },
        )
        .expect("plan");
    let queue = application
        .cancel_queue_task("task:parent", "user changed scope")
        .expect("cancel");
    assert_eq!(queue.items.len(), 2);
    assert!(queue
        .items
        .iter()
        .all(|item| item.status == NodeStatus::Cancelled));
    assert_eq!(
        application
            .ports
            .mission(&mission_id)
            .expect("recover")
            .runs
            .len(),
        0
    );
}

/// The same world after a restart: the tables are still there, what was in memory is gone.
fn restarted(first: Harness<World>, clock: i64, next: u64) -> Harness<World> {
    let Harness { app, mut ports, .. } = first;
    ports.clock = clock;
    ports.next = next;
    let mut harness = application(ports);
    change(&mut harness, |fresh| {
        fresh
            .with_model_runtime()
            .with_agent_catalog(builtin_agent_catalog().expect("catalog"))
            .with_agent_control_plane(
                app.agent_messages.expect("messages"),
                app.file_leases.expect("leases"),
                app.agent_state.expect("state"),
                app.agent_budgets.expect("budgets"),
            )
    });
    harness
}

#[test]
fn expired_start_effect_and_recoverable_sessions_resume_after_process_restart() {
    let mut first = application(World::new(1_000, 1));
    change(&mut first, |app| with_control_plane(app.with_model_runtime()));
    first.boot().expect("first boot");
    let prepared = first
        .prepare_parallel_agent_team("recover this team", 2)
        .expect("prepare before crash");
    let mission_id = prepared.continuation.mission_id.clone();
    drop(prepared);

    let mut early = restarted(first, 10_000, 50);
    early.boot().expect("early boot");
    assert_eq!(
        early
            .prepare_recovered_agent_team()
            .err()
            .expect("live claim lease must block duplicate resume")
            .code,
        "agent-recovery-effect-not-claimable"
    );

    let mut recovered = restarted(early, 40_000, 100);
    let status = recovered.boot().expect("recovery boot");
    assert_eq!(status.active_mission_id, Some(mission_id.clone()));
    let resumed = recovered
        .prepare_recovered_agent_team()
        .expect("lease expired and resumable");
    let outcomes = recovered
        .execute_team(resumed.job)
        .expect("execute recovered batch");
    let plan = recovered
        .finalize_parallel_agent_team(resumed.continuation, outcomes, TextSet::new(), false)
        .expect("finalize recovered");
    assert_eq!(plan.mission_id, Some(mission_id));
    assert_eq!(plan.status, Some(MissionStatus::Completed));
    assert_eq!(plan.accepted, 2);
    assert!(recovered
        .app
        .agent_state
        .as_ref()
        .expect("state")
        .recoverable_sessions()
        .is_empty());
}

#[test]
fn reviewer_and_tester_requests_receive_only_dependency_result_tail() {
    let mut application = application(World::new(1_000, 1));
    change(&mut application, |app| {
        with_control_plane(app.with_model_runtime())
    });
    application.boot().expect("boot");
    let mut prepared = application
        .prepare_role_evidence_team("implement auth safely", 2)
        .expect("prepare planner");
    loop {
        let mission_id = prepared.continuation.mission_id.clone();
        let outcomes = application
            .execute_team(prepared.job)
            .expect("execute wave");
        let plan = application
            .finalize_parallel_agent_team(prepared.continuation, outcomes, TextSet::new(), false)
            .expect("finalize wave");
        if plan.status == Some(MissionStatus::Completed) {
            break;
        }
        prepared = application
            .prepare_next_agent_wave(&mission_id)
            .expect("next wave");
    }
    let requests = &application.ports.asked;
    assert_eq!(requests.len(), 5);
    let request_for = |needle: &str| {
        requests
            .iter()
            .find(|request| {
                request.input.iter().any(|item| {
                    matches!(
                        item,
                        ModelInputItem::Message { content, .. } if content.contains(needle)
                    )
                })
            })
            .unwrap_or_else(|| panic!("request missing: {needle}"))
    };
    let review = request_for("审查所有编码分片");
    assert!(review.instructions.contains("<dependency-results>"));
    assert!(review.instructions.contains("task:coder:00"));
    assert!(review.instructions.contains("task:coder:01"));
    let tester = request_for("验证审查结论");
    assert!(tester.instructions.contains("- task:review: "));
    assert!(!tester.instructions.contains("无关的主会话私有历史"));
}

#[test]
fn locked_goal_is_enforced_by_session_kernel() {
    let mut application = application(World::new(1_000, 1));
    application.boot().expect("boot");
    application.set_goal("first").expect("goal");
    application.set_goal_lock(true).expect("lock");
    let error = application
        .set_goal("second")
        .err()
        .expect("locked goal must reject");
    assert_eq!(error.code, "goal-locked");
}

#[test]
fn checkpoint_rollback_compaction_and_cache_share_durable_context() {
    let mut application = application(World::new(1_000, 1));
    application.boot().expect("boot");
    application.set_goal("保持 Goal 不丢失").expect("goal");
    for index in 0..5 {
        application
            .append_context_item(
                ContextKind::Conversation,
                Priority::Medium,
                &format!("turn:{index}"),
                &format!("第 {index} 轮的长工具观察：{}", "evidence ".repeat(120)),
                false,
            )
            .expect("append context");
    }
    application.cache_current_prompt().expect("prompt cache");
    let before = application.context().expect("context before");
    let checkpoint = application
        .create_checkpoint(Some("before-pin"))
        .expect("checkpoint");
    let parent_before = application
        .ports
        .session("session:test")
        .expect("parent before");
    let fork = application
        .fork_session(&checkpoint.checkpoint_id, None)
        .expect("fork");
    assert_eq!(
        application
            .ports
            .session("session:test")
            .expect("parent after")
            .version,
        parent_before.version,
        "Fork 不得向 Parent aggregate 追加事件"
    );
    let child = application
        .ports
        .session(&fork.child_session_id)
        .expect("child session");
    assert_eq!(
        child.parent_session_id,
        Some(fork.parent_session_id.clone())
    );
    assert_eq!(
        current_goal_text(&child.goal).as_deref(),
        Some("保持 Goal 不丢失")
    );
    assert_eq!(
        application
            .ports
            .active_series(&fork.child_session_id)
            .expect("child context")
            .expect("child context exists")
            .id,
        fork.child_context_series_id
    );
    application.pin("这个约束必须保留").expect("pin");
    let after_pin = application.context().expect("context after pin");
    assert!(after_pin.item_count > before.item_count);

    let rolled_back = application
        .rollback(&checkpoint.checkpoint_id)
        .expect("rollback");
    assert_eq!(rolled_back.item_count, before.item_count);
    assert_ne!(rolled_back.series_id, checkpoint.context_series_id);
    assert!(
        application
            .ports
            .series(&checkpoint.context_series_id)
            .expect("old series")
            .is_some(),
        "Rollback 不得删除 Parent Series"
    );

    let compacted = application
        .compact(CompactionMode::Safe)
        .expect("safe compact");
    assert!(compacted.token_cost_after < compacted.token_cost_before);
    assert_eq!(
        application.ports.compactions,
        vec![CompactionRecord {
            previous_series_id: compacted.previous_series_id.clone(),
            next_series_id: compacted.next_series_id.clone(),
            token_cost_before: compacted.token_cost_before,
            token_cost_after: compacted.token_cost_after,
        }]
    );
    assert_eq!(
        application.status().expect("status").goal.as_deref(),
        Some("保持 Goal 不丢失")
    );
    assert!(!application.ports.cached.is_empty());
    let missing = application
        .rollback("checkpoint:nowhere")
        .err()
        .expect("an unknown checkpoint");
    assert_eq!(missing.code, "checkpoint-not-found");
}

#[test]
fn auto_compaction_triggers_at_eighty_percent_budget() {
    let mut application = application(World::new(1_000, 1));
    application.boot().expect("boot");
    application.set_goal("auto compact goal").expect("goal");
    for (index, bytes) in [8_000, 6_000, 6_000].into_iter().enumerate() {
        application
            .append_context_item(
                ContextKind::Conversation,
                Priority::Medium,
                &format!("large-turn:{index}"),
                &"x".repeat(bytes),
                false,
            )
            .expect("append large context");
    }
    assert!(application.context().expect("before").percent >= 80);
    let compacted = application
        .auto_compact_if_needed()
        .expect("auto compact")
        .expect("threshold should trigger");
    assert!(compacted.token_cost_after < compacted.token_cost_before);
    assert!(application.context().expect("after").percent < 80);
    assert!(application
        .auto_compact_if_needed()
        .expect("nothing to compact")
        .is_none());
}

#[test]
fn model_runtime_drives_mission_and_persists_selection() {
    let mut application = application(World::new(1_000, 1));
    change(&mut application, HarnessApplication::with_model_runtime);
    let boot = application.boot().expect("boot");
    assert_eq!(boot.model, "fake/deterministic");
    assert_eq!(boot.session_version, 2, "create + model selection");
    let reasoning = application
        .set_reasoning(ReasoningLevel::Max)
        .expect("reasoning");
    assert_eq!(reasoning.reasoning_effective, Some(ReasoningLevel::High));
    assert_eq!(reasoning.reasoning_mapping, ReasoningMapping::ClampedDown);
    let plan = application
        .run_fake_task("model-backed task")
        .expect("model task");
    assert_eq!(plan.status, Some(MissionStatus::Completed));
    let session = application.ports.session("session:test").expect("session");
    assert_eq!(session.model.provider_id.as_deref(), Some("fake"));
    assert_eq!(session.model.model_id.as_deref(), Some("deterministic"));
    assert_eq!(session.model.reasoning, ReasoningLevel::Max);
    let world = &application.ports;
    assert!(world.saw(|event| matches!(
        event,
        HarnessEvent::TextOutput { text } if text.contains("deterministic:model-backed")
    )));
    assert!(world.saw(|event| matches!(event, HarnessEvent::ModelUsage { .. })));
}

fn file_arguments(path: &str, content: Option<&str>) -> Json {
    let mut members = vec![("path".to_owned(), text_json(path))];
    if let Some(content) = content {
        members.push(("content".to_owned(), text_json(content)));
    }
    object(members)
}

#[test]
fn model_tool_call_executes_and_continues_through_unified_runtime() {
    let mut world = World::new(1_000, 1);
    world
        .files
        .insert("/work/project/note.txt".to_owned(), "tool evidence".to_owned());
    world.script = answers(vec![
        tool_answer("files.read", file_arguments("/work/project/note.txt", None)),
        text_answer("finished-with-tool"),
    ]);
    let mut application = application(world);
    change(&mut application, |app| {
        app.with_model_runtime().with_tool_runtime()
    });
    application.boot().expect("boot");
    let plan = application
        .run_fake_task("read note then finish")
        .expect("tool-backed task");
    assert_eq!(plan.status, Some(MissionStatus::Completed));
    let world = &application.ports;
    assert_eq!(world.journal[0].status, ToolInvocationStatus::Completed);
    assert!(world.saw(|event| matches!(
        event,
        HarnessEvent::TextOutput { text } if text == "finished-with-tool"
    )));
    let asked = &world.asked[1].input;
    assert!(asked.iter().any(|item| matches!(
        item,
        ModelInputItem::ToolResult { output, .. }
            if output.get_text("content").map(String::as_str) == Some("tool evidence")
    )));
}

fn probe(leases: &mut FileLeaseManager, path: &str, now: i64) {
    let site = WriteSite {
        joined: path.to_owned(),
        existing: "/work/project".to_owned(),
        canonical: "/work/project".to_owned(),
    };
    let lease = leases
        .acquire(&site, "run:after".to_owned(), now, 100)
        .expect("lease was released");
    assert!(leases.release(&lease));
}

#[test]
fn agent_file_write_holds_lease_through_patch_application_and_releases_afterward() {
    let target = "/work/project/leased.txt";
    let mut world = World::new(1_000, 1);
    world.script = answers(vec![
        tool_answer("files.write", file_arguments(target, Some("leased content"))),
        text_answer("write completed"),
    ]);
    let mut application = application(world);
    change(&mut application, |app| {
        with_control_plane(app.with_model_runtime().with_tool_runtime())
    });
    application.boot().expect("boot");
    let plan = application
        .run_fake_task("write through lease and patch")
        .expect("task");
    assert_eq!(plan.status, Some(MissionStatus::Completed));
    assert_eq!(application.ports.files[target], "leased content");
    assert_eq!(application.ports.patches.len(), 1);
    assert_eq!(application.ports.patches[0].status, PatchStatus::Applied);
    let leases = application.app.file_leases.as_mut().expect("leases");
    probe(leases, target, 10_000);
}

#[test]
fn role_workflow_coder_yields_file_tool_and_resumes_in_next_model_job() {
    let target = "/work/project/parallel-tool.txt";
    let mut world = World::new(1_000, 1);
    world.script = answers(vec![
        text_answer("planner result"),
        tool_answer(
            "files.write",
            file_arguments(target, Some("parallel tool write")),
        ),
        text_answer("coder completed after tool"),
        text_answer("review passed"),
        text_answer("tests passed"),
    ]);
    let mut application = application(world);
    change(&mut application, |app| {
        with_control_plane(app.with_model_runtime().with_tool_runtime())
    });
    application.boot().expect("boot");
    let mut prepared = application
        .prepare_role_evidence_team("write then review", 1)
        .expect("planner");
    let mut tool_continuations = 0;
    loop {
        let mission_id = prepared.continuation.mission_id.clone();
        let outcomes = application
            .execute_team(prepared.job)
            .expect("execute wave");
        let step = application
            .finalize_parallel_agent_team_step(
                prepared.continuation,
                outcomes,
                TextSet::new(),
                false,
            )
            .expect("finalize step");
        if let Some(next) = step.next {
            tool_continuations += 1;
            prepared = next;
            continue;
        }
        if step.plan.status == Some(MissionStatus::Completed) {
            assert_eq!(step.plan.accepted, 4);
            break;
        }
        prepared = application
            .prepare_next_agent_wave(&mission_id)
            .expect("next role wave");
    }
    assert_eq!(tool_continuations, 1);
    assert_eq!(application.ports.files[target], "parallel tool write");
    assert_eq!(application.ports.patches.len(), 1);
    assert_eq!(application.ports.patches[0].status, PatchStatus::Applied);
    let state = application.app.agent_state.as_ref().expect("state");
    assert!(
        !state
            .recoverable_sessions()
            .iter()
            .any(|session| session.role == AgentRole::Coder),
        "completed Coder must not be recoverable"
    );
    let mission_id = application
        .app
        .active_mission_id
        .clone()
        .expect("mission");
    let mission = application.ports.mission(&mission_id).expect("mission");
    let coder_run = mission
        .nodes
        .keys()
        .iter()
        .map(|id| mission.nodes.get(id).expect("node"))
        .find(|node| node.agent_definition_id == "agent:coder")
        .expect("coder run")
        .run_id
        .clone()
        .expect("run");
    let result = state.result(&coder_run).expect("coder result");
    assert_eq!(result.metrics.turns, 2);
    assert_eq!(result.metrics.tool_calls, 1);
    assert_eq!(result.changed_files, vec![target]);
    let leases = application.app.file_leases.as_mut().expect("leases");
    probe(leases, target, 10_000);
}

#[test]
fn parallel_coder_waits_for_approval_then_resumes_same_model_continuation() {
    let target = "/work/project/approved-parallel.txt";
    let mut world = World::new(1_000, 1);
    world.policy = ApprovalPolicy::Always;
    world.script = answers(vec![
        text_answer("planner result"),
        tool_answer(
            "files.write",
            file_arguments(target, Some("approved parallel write")),
        ),
        text_answer("coder resumed after approval"),
        text_answer("review passed"),
        text_answer("tests passed"),
    ]);
    let mut application = application(world);
    change(&mut application, |app| {
        with_control_plane(app.with_model_runtime().with_tool_runtime())
    });
    application.boot().expect("boot");
    let planner = application
        .prepare_role_evidence_team("write with approval", 1)
        .expect("planner");
    let mission_id = planner.continuation.mission_id.clone();
    let planner_outcomes = application
        .execute_team(planner.job)
        .expect("planner execute");
    let planner_step = application
        .finalize_parallel_agent_team_step(
            planner.continuation,
            planner_outcomes,
            TextSet::new(),
            false,
        )
        .expect("planner finalize");
    assert!(planner_step.next.is_none());
    let coder = application
        .prepare_next_agent_wave(&mission_id)
        .expect("coder wave");
    let coder_outcomes = application
        .execute_team(coder.job)
        .expect("coder first turn");
    let waiting = application
        .finalize_parallel_agent_team_step(
            coder.continuation,
            coder_outcomes,
            TextSet::new(),
            false,
        )
        .expect("waiting approval");
    assert_eq!(waiting.plan.blocked, 1);
    assert!(waiting.next.is_none());
    assert!(!application.ports.files.contains_key(target));
    let invocation_id = application
        .ports
        .journal
        .iter()
        .find(|invocation| invocation.status == ToolInvocationStatus::WaitingApproval)
        .expect("waiting invocation")
        .id
        .clone();
    let approved = application
        .approve_tool(&invocation_id)
        .expect("approve parallel tool");
    assert_eq!(approved.status, ToolInvocationStatus::Completed);
    let resumed = application
        .app
        .take_ready_parallel_resume()
        .expect("prepared model resume");
    let outcomes = application
        .execute_team(resumed.job)
        .expect("resumed model");
    let step = application
        .finalize_parallel_agent_team_step(
            resumed.continuation,
            outcomes,
            TextSet::new(),
            false,
        )
        .expect("resume finalize");
    assert!(step.next.is_none());
    let mut plan = step.plan;
    while plan.status != Some(MissionStatus::Completed) {
        let wave = application
            .prepare_next_agent_wave(&mission_id)
            .expect("next role wave");
        let outcomes = application
            .execute_team(wave.job)
            .expect("execute role wave");
        let step = application
            .finalize_parallel_agent_team_step(
                wave.continuation,
                outcomes,
                TextSet::new(),
                false,
            )
            .expect("finalize role wave");
        assert!(step.next.is_none());
        plan = step.plan;
    }
    assert_eq!(plan.accepted, 4);
    assert_eq!(application.ports.files[target], "approved parallel write");
    assert!(application
        .ports
        .saw(|event| matches!(event, HarnessEvent::PermissionRequested { .. })));
}

#[test]
fn coordinator_persists_conflict_meeting_into_non_vector_project_memory() {
    let mut world = World::new(1_000, 1);
    world.memory = Some(Vec::new());
    let mut application = application(world);
    change(&mut application, with_control_plane);
    application.boot().expect("boot");
    let mission_id = "mission:coordination".to_owned();
    application.app.active_mission_id = Some(mission_id.clone());
    application
        .apply_mission_command(
            &mission_id,
            MissionCommand::CreateMission {
                mission_id: mission_id.clone(),
                project_id: "project:test".to_owned(),
                goal: "coordinate two proposals".to_owned(),
            },
        )
        .expect("create mission");
    let node = |id: &str, title: &str, kind: NodeKind, agent: &str| WorkflowNodeDefinition {
        id: id.to_owned(),
        title: title.to_owned(),
        kind,
        depends_on: vec![],
        agent_definition_id: agent.to_owned(),
        requires_approval: None,
    };
    application
        .apply_mission_command(
            &mission_id,
            MissionCommand::InstallPlan {
                nodes: vec![
                    node("task:run:a", "proposal a", NodeKind::Task, "agent:coder"),
                    node("task:run:b", "proposal b", NodeKind::Review, "agent:review"),
                ],
            },
        )
        .expect("install plan");
    let result = |agent: &str, run: &str, strategy: &str| {
        let mut claims = TextMap::new();
        claims.insert("auth.strategy".to_owned(), strategy.to_owned());
        let mut result = bare_result(
            "completed",
            strategy.to_owned(),
            AgentExecutionMetrics::default(),
            0.8_f32.to_bits(),
        );
        result.changed_files = vec!["src/auth.rs".to_owned()];
        AgentResultEnvelope {
            agent_id: agent.to_owned(),
            task_id: format!("task:{run}"),
            run_id: run.to_owned(),
            result,
            decision_claims: claims,
        }
    };
    let results = vec![
        result("agent:coder", "run:a", "token"),
        result("agent:review", "run:b", "session"),
    ];
    let view = application
        .coordinate_results(&mission_id, &results)
        .expect("coordinate");
    assert!(view.conflict_count >= 2);
    assert!(view.merge_required);
    let merge_task_id = view.merge_task_id.clone().expect("merge task");
    assert!(view.memory_id.is_some());
    let mission = application.ports.mission(&mission_id).expect("mission");
    assert_eq!(application.ports.kinds[&merge_task_id], NodeKind::Merge);
    assert_eq!(
        mission
            .nodes
            .get(&merge_task_id)
            .expect("merge")
            .agent_definition_id,
        "agent:merge"
    );
    assert_eq!(application.ports.semantic, SemanticCapability::Absent);
    let found = application
        .ports
        .memory
        .as_ref()
        .expect("memory")
        .iter()
        .filter(|record| record.title.contains("方案冲突"))
        .count();
    assert_eq!(found, 1);
    let meeting_id = view.meeting_id.expect("meeting id");
    assert!(application
        .app
        .agent_messages
        .as_ref()
        .expect("messages")
        .meeting(&meeting_id)
        .is_some());
}

#[test]
fn model_tool_approval_pauses_kernel_and_resumes_exact_continuation() {
    let mut world = World::new(1_000, 1);
    world.policy = ApprovalPolicy::Always;
    world.files.insert(
        "/work/project/approval-note.txt".to_owned(),
        "approved evidence".to_owned(),
    );
    world.script = answers(vec![
        tool_answer(
            "files.read",
            file_arguments("/work/project/approval-note.txt", None),
        ),
        text_answer("continued-after-approval"),
    ]);
    let mut application = application(world);
    change(&mut application, |app| {
        app.with_model_runtime().with_tool_runtime()
    });
    application.boot().expect("boot");
    let waiting = application
        .run_fake_task("read only after approval")
        .expect("waiting plan");
    assert_eq!(waiting.blocked, 1);
    assert_eq!(waiting.accepted, 0);
    let invocation = application.ports.journal[0].duplicate();
    assert_eq!(invocation.status, ToolInvocationStatus::WaitingApproval);
    let mut permission_events = 0;
    for (event, _) in &application.ports.events {
        if let HarnessEvent::PermissionRequested {
            invocation_id: Some(event_invocation_id),
            risk,
            ..
        } = event
        {
            assert_eq!(event_invocation_id, &invocation.id);
            assert_eq!(risk, "medium");
            permission_events += 1;
        }
    }
    assert_eq!(permission_events, 1);

    let completed = application
        .approve_tool(&invocation.id)
        .expect("approve and resume");
    assert_eq!(completed.status, ToolInvocationStatus::Completed);
    let plan = application.plan().expect("resumed plan");
    assert_eq!(plan.status, Some(MissionStatus::Completed));
    assert_eq!(plan.accepted, 1);
    assert_eq!(application.ports.journal.len(), 1);
}

#[test]
fn recovered_agent_approval_without_model_continuation_fails_closed() {
    let mut world = World::new(1, 1);
    world.policy = ApprovalPolicy::Always;
    world.files.insert(
        "/work/project/recovered.txt".to_owned(),
        "do not execute yet".to_owned(),
    );
    let waiting = world
        .invoke(ToolInvokeRequest {
            invocation_id: "invocation:recovered-agent".to_owned(),
            approval_request_id: "approval:recovered-agent".to_owned(),
            idempotency_key: "recovered-agent".to_owned(),
            project_id: "project:test".to_owned(),
            mission_id: "mission:recovered".to_owned(),
            run_id: Some("run:recovered".to_owned()),
            actor_id: "agent:model".to_owned(),
            origin: ToolOrigin::Agent,
            integrity: IntegrityLabel::Trusted,
            confidentiality: ConfidentialityLabel::ProjectPrivate,
            tool_name: "files.read".to_owned(),
            args: file_arguments("/work/project/recovered.txt", None),
            now_millis: 1,
        })
        .expect("waiting");
    assert_eq!(waiting.status, ToolInvocationStatus::WaitingApproval);
    let mut application = application(world);
    change(&mut application, HarnessApplication::with_tool_runtime);
    let error = application
        .approve_tool("invocation:recovered-agent")
        .expect_err("missing model continuation must fail closed");
    assert_eq!(error.code, "model-continuation-unavailable");
    assert_eq!(
        application.ports.journal[0].status,
        ToolInvocationStatus::WaitingApproval
    );
}

#[test]
fn account_and_logout_use_credential_port_without_exposing_secret() {
    let mut secret: Option<&str> = Some("sk-test-hidden");
    let view = account(secret.is_some());
    assert!(view.configured);
    let shown = format!(
        "{} {} {} {}",
        view.provider_id, view.auth_method, view.configured, view.storage
    );
    assert!(!shown.contains("sk-test-hidden"));
    logout("openai").expect("logout");
    assert!(secret.take().is_some());
    assert!(!account(secret.is_some()).configured);
    assert!(logout("another").is_err());
}

#[test]
fn a_refused_call_is_waited_for_by_nobody() {
    let mut world = World::new(1_000, 1);
    world.policy = ApprovalPolicy::Always;
    world.script = answers(vec![tool_answer(
        "files.read",
        file_arguments("/work/project/note.txt", None),
    )]);
    let mut application = application(world);
    change(&mut application, |app| {
        app.with_model_runtime().with_tool_runtime()
    });
    application.boot().expect("boot");
    let waiting = application.run_fake_task("read").expect("waiting plan");
    assert_eq!(waiting.blocked, 1);
    let invocation_id = application.ports.journal[0].id.clone();
    application.deny_tool(&invocation_id).expect("deny");
    assert_eq!(application.app.pending_model_continuations.len(), 0);
    let error = application
        .approve_tool(&invocation_id)
        .expect_err("nothing waits any more");
    assert_eq!(error.code, "model-continuation-unavailable");
    let error = application
        .deny_tool("invocation:nowhere")
        .expect_err("an unknown call");
    assert_eq!(error.code, "tool-invocation-not-found");
}

#[test]
fn a_cancelled_team_is_not_looked_at() {
    let mut application = application(World::new(1_000, 1));
    change(&mut application, |app| {
        with_control_plane(app.with_model_runtime())
    });
    application.boot().expect("boot");
    let team = application
        .prepare_parallel_agent_team("stop this team", 3)
        .expect("team");
    let outcomes = application.execute_team(team.job).expect("outcomes");
    assert_eq!(outcomes.len(), 3);
    let step = application
        .finalize_parallel_agent_team_step(team.continuation, outcomes, TextSet::new(), true)
        .expect("cancelled");
    assert!(step.next.is_none());
    assert_eq!(step.plan.status, Some(MissionStatus::Cancelled));
    assert_eq!(step.plan.accepted, 0);
    assert!(application.ports.effects.iter().all(|effect| effect.done));
    assert!(application
        .app
        .agents()
        .expect("agents")
        .agents
        .iter()
        .all(|agent| agent.active == 0));
}

#[test]
fn a_task_taken_out_of_the_queue_is_cancelled_alone() {
    let mut application = application(World::new(1_000, 1));
    change(&mut application, |app| {
        with_control_plane(app.with_model_runtime())
    });
    application.boot().expect("boot");
    let team = application
        .prepare_parallel_agent_team("drop one", 2)
        .expect("team");
    let outcomes = application.execute_team(team.job).expect("outcomes");
    let mut cancelled = TextSet::new();
    cancelled.insert("task:research:00".to_owned());
    let step = application
        .finalize_parallel_agent_team_step(team.continuation, outcomes, cancelled, false)
        .expect("finished");
    assert_eq!(step.plan.accepted, 1);
    assert_eq!(step.plan.status, Some(MissionStatus::Running));
}

#[test]
fn an_outcome_without_a_claim_is_refused() {
    let mut application = application(World::new(1_000, 1));
    change(&mut application, |app| {
        with_control_plane(app.with_model_runtime())
    });
    application.boot().expect("boot");
    let team = application
        .prepare_parallel_agent_team("lose one", 2)
        .expect("team");
    let mut outcomes = application.execute_team(team.job).expect("outcomes");
    outcomes[0].run_id = "run:nowhere".to_owned();
    let error = application
        .finalize_parallel_agent_team_step(team.continuation, outcomes, TextSet::new(), false)
        .err()
        .expect("refused");
    assert_eq!(error.code, "agent-claimed-effect-missing");
    assert_eq!(error.message, "run:nowhere");
}

#[test]
fn a_team_that_loses_an_outcome_is_refused() {
    let mut application = application(World::new(1_000, 1));
    change(&mut application, |app| {
        with_control_plane(app.with_model_runtime())
    });
    application.boot().expect("boot");
    let team = application
        .prepare_parallel_agent_team("lose one", 2)
        .expect("team");
    let mut outcomes = application.execute_team(team.job).expect("outcomes");
    outcomes.pop();
    let error = application
        .finalize_parallel_agent_team_step(team.continuation, outcomes, TextSet::new(), false)
        .err()
        .expect("refused");
    assert_eq!(error.code, "agent-outcome-count-mismatch");
    assert_eq!(error.message, "claims=1, requests=1");
}

#[test]
fn what_is_said_to_a_mission_is_heard_by_its_agents() {
    let mut application = application(World::new(1_000, 1));
    change(&mut application, |app| {
        with_control_plane(app.with_model_runtime())
    });
    application.boot().expect("boot");
    let empty = application
        .app
        .steer("   ", "message:0".to_owned(), 1_000)
        .err()
        .expect("nothing was said");
    assert_eq!(empty.code, "steering-empty");
    let idle = application
        .app
        .steer("look at auth", "message:1".to_owned(), 1_000)
        .err()
        .expect("nobody listens");
    assert_eq!(idle.code, "active-mission-missing");
    let team = application
        .prepare_role_evidence_team("steer this", 1)
        .expect("team");
    let said = application
        .app
        .steer("look at auth", "message:2".to_owned(), 1_000)
        .expect("said");
    assert!(said.queued);
    let mission_id = team.continuation.mission_id.clone();
    let outcomes = application.execute_team(team.job).expect("planner");
    application
        .finalize_parallel_agent_team(team.continuation, outcomes, TextSet::new(), false)
        .expect("planner is done");
    let next = application
        .prepare_next_agent_wave(&mission_id)
        .expect("coder");
    assert_eq!(next.job.requests[0].steering_messages, vec!["look at auth"]);
}

#[test]
fn a_review_alone_is_a_team_of_one() {
    let mut application = application(World::new(1_000, 1));
    change(&mut application, |app| {
        with_control_plane(app.with_model_runtime())
    });
    application.boot().expect("boot");
    let empty = application.prepare_review_agent("  \n").err().expect("empty");
    assert_eq!(empty.code, "review-input-empty");
    let team = application
        .prepare_review_agent("diff --git a/src/auth.rs b/src/auth.rs")
        .expect("team");
    assert_eq!(team.job.requests.len(), 1);
    assert_eq!(team.job.requests[0].contract.role, AgentRole::Reviewer);
    let outcomes = application.execute_team(team.job).expect("outcomes");
    let plan = application
        .finalize_parallel_agent_team(team.continuation, outcomes, TextSet::new(), false)
        .expect("reviewed");
    assert_eq!(plan.status, Some(MissionStatus::Completed));
}

#[test]
fn child_agent_context_excludes_irrelevant_main_history_by_role() {
    let mut application = application(World::new(1_000, 1));
    application.boot().expect("boot");
    application.set_goal("审查认证补丁").expect("goal");
    application
        .append_context_item(
            ContextKind::Conversation,
            Priority::Low,
            "conversation:unrelated",
            "无关的主会话私有历史",
            false,
        )
        .expect("conversation");
    application
        .append_context_item(
            ContextKind::Agent,
            Priority::Medium,
            "agent:catalog-body",
            "另一个 Agent 的完整能力正文",
            false,
        )
        .expect("agent context");
    application
        .append_context_item(
            ContextKind::Task,
            Priority::Critical,
            "task:review-auth",
            "只审查 auth.rs 的公开 diff",
            true,
        )
        .expect("task context");

    let review = application
        .agent_working_context(AgentRole::Reviewer)
        .expect("review context");
    assert!(review.dynamic_context.contains("只审查 auth.rs"));
    assert!(!review.dynamic_context.contains("无关的主会话私有历史"));
    assert!(!review.dynamic_context.contains("完整能力正文"));
    assert_eq!(review.excluded_item_ids.len(), 2);

    let coder = application
        .agent_working_context(AgentRole::Coder)
        .expect("coder context");
    assert!(coder.dynamic_context.contains("无关的主会话私有历史"));
    assert!(!coder.dynamic_context.contains("完整能力正文"));
    assert!(!coder.fingerprint.is_empty());

    let explorer = application
        .agent_working_context(AgentRole::Explorer)
        .expect("explorer context");
    assert!(explorer.dynamic_context.contains("只审查 auth.rs"));
    assert!(!explorer.dynamic_context.contains("无关的主会话私有历史"));
    assert!(!explorer.dynamic_context.contains("完整能力正文"));

    let requirements = application
        .agent_working_context(AgentRole::RequirementsAnalyst)
        .expect("requirements context");
    assert!(requirements.dynamic_context.contains("无关的主会话私有历史"));
    assert!(!requirements.dynamic_context.contains("完整能力正文"));
}

#[test]
fn what_the_user_has_remembered_points_back_at_the_session() {
    let mut application = application(World::new(1_000, 1));
    application.boot().expect("boot");
    let kind = || MemoryKind::Other {
        name: "decision".to_owned(),
    };
    let missing = application
        .add_memory(kind(), "a".to_owned(), "b".to_owned(), Vec::new())
        .expect_err("there is no memory");
    assert_eq!(missing.code, "memory-runtime-missing");
    application.ports.memory = Some(Vec::new());
    let id = application
        .add_memory(kind(), "a".to_owned(), "b".to_owned(), vec!["t".to_owned()])
        .expect("remembered");
    let records = application.ports.memory.as_ref().expect("memory");
    assert_eq!(
        records[0],
        NewMemoryRecord {
            id,
            kind: kind(),
            title: "a".to_owned(),
            content: "b".to_owned(),
            tags: vec!["t".to_owned()],
            source_ref: Some("session:test".to_owned()),
        }
    );
    assert_eq!(
        application
            .add_permission_rule("allow".to_owned(), "write".to_owned(), "src/*".to_owned())
            .expect_err("there are no tools")
            .code,
        "tool-runtime-missing"
    );
    change(&mut application, |app| app.with_tool_runtime());
    let rule = application
        .add_permission_rule("allow".to_owned(), "write".to_owned(), "src/*".to_owned())
        .expect("a rule");
    assert_eq!(rule.pattern, "src/*");
    assert_eq!(application.ports.rules, vec![rule.id]);
}

#[test]
fn what_is_remembered_reaches_the_model() {
    let mut world = World::new(1_000, 1);
    world.memory = Some(Vec::new());
    world.semantic = SemanticCapability::Ready;
    world.indexed = true;
    world.files.insert("notes.txt".to_owned(), "what the notes say".to_owned());
    let mut application = application(world);
    change(&mut application, HarnessApplication::with_model_runtime);
    application.boot().expect("boot");
    application
        .add_memory(
            MemoryKind::Other {
                name: "fact".to_owned(),
            },
            "style".to_owned(),
            "tabs".to_owned(),
            Vec::new(),
        )
        .expect("remembered");
    application
        .run_fake_task("which style do notes.txt have?")
        .expect("task");
    let instructions = &application.ports.asked[0].instructions;
    assert!(instructions.contains("\n\n[Retrieved Project Memory]\n- style: tabs\n"));
    assert!(instructions.contains("[Retrieved Repository Context]\n- notes.txt [text] what the notes say"));
    let names: Vec<String> = application
        .profile(5)
        .metrics
        .into_iter()
        .map(|metric| metric.name)
        .collect();
    assert!(names.contains(&"retrieval".to_owned()));
    assert!(names.contains(&"vector".to_owned()));
}
