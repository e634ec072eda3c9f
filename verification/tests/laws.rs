//! What the library promises as a whole, on concrete values, and the errors it gives.

use harness::application::{
    AgentTeamContinuation, HarnessApplication, ModeProfile, PreparedAgentTeam, ToolInvocation,
    ToolInvocationStatus, ToolOrigin,
};
use harness::approvals::{course_after_approval, ApprovedCourse, Waiters};
use harness::budget::{AgentBudgetManager, AgentBudgetPolicy, AgentBudgetRequest, BudgetEscrowStatus};
use harness::builtin::builtin_agent_catalog;
use harness::cancellation::RunCancellationTree;
use harness::catalog::{AgentCatalog, AgentLifecycle};
use harness::checkpoints::{
    compaction_checkpoint_name, compaction_request, ensure_context_series, resolve_checkpoint,
    CompactionMode, ContextCheckpoint, FirstSeries,
};
use harness::context::{
    focus, goal_in_context, new_context_item, next_context_order, pin, replace_goal_context,
    CacheClass, CompactionItem, CompactionRecord, Compressibility, ContextItem, ContextKind,
    ContextSeries, Priority,
};
use harness::conversation::{Talk, TalkAction, TalkPhase, TalkReply};
use harness::digest::hash_text;
use harness::error::AgentError;
use harness::exchange::{
    AgentExecutionMetrics, AgentModelContinuation, AgentToolCall, ModelEvent, ModelSelection,
};
use harness::execution::{
    merge_outcomes, AgentExecutionOutcome, AgentExecutionRequest, AgentTaskContract,
    AgentWorkingContext, SharedSteeringBuffer,
};
use harness::extensions::{
    mcp_connected, plugin_disabled, plugin_enabled, plugin_inactive, publish_mcp_oauth_status,
    McpServerView, PluginAction, PluginEnabling, PluginExtensions, PluginUndo, PluginView,
};
use harness::json::{object, text_json, Json};
use harness::leases::{FileLeaseManager, WriteSite};
use harness::lsp::{
    compact_lsp_fact, read_lsp_answer, record_lsp_tool_fact, retrieval_mode,
    retrieve_project_context, MemoryHit, Projection, RetrievalMode, VectorMode,
};
use harness::memory::remember_meeting;
use harness::messages::{AgentMessage, AgentMessageBus, AgentMessageKind};
use harness::mission::{
    ApprovalDecision, ClaimedEffect, CompletionFence, EffectEntry, EffectIntent, EffectOutcome,
    EventPriority, HarnessEvent, MissionCommand, MissionNode, MissionRun, MissionState,
    MissionStatus, MissionStep, NodeStatus,
};
use harness::mission_events::{
    describe_task, effect_run, needs_plan, publish_mission_event, show_mission_event,
    traced_scope, DomainEvent,
};
use harness::model::Duplicate;
use harness::model_loop::start_model_loop;
use harness::observe::{
    profile_metric, push_sample, tool_wall_millis, ProcessIdGenerator, ProfileSamples, SystemClock,
};
use harness::ordered::{TextMap, TextSet};
use harness::parallel::{CallsAction, CallsPhase, CallsReply};
use harness::paths::{paths_overlap, resolve_write};
use harness::persona::persona_prompt;
use harness::plans::{
    is_ready_to_complete, main_task_plan, plan_view, waits_for_approval, AdaptiveTeamProfile,
    PlanView,
};
use harness::profile::{agent_profile, escape, ReasoningLevel};
use harness::prompts::{
    auto_compact_if_needed, cache, context_percent, prompt_segments, select_segments,
    CacheMetrics, DeterministicSummaryProvider, PromptCacheability,
};
use harness::results::{
    bare_result, detect_conflicts, validate_required_evidence, AgentResultEnvelope, ConflictKind,
    Evidence, MeetingRecord,
};
use harness::roles::{
    all_roles, role_evidence_kind, role_gathers_diagnostics, AgentRole, RoleSet,
};
use harness::scheduling::AgentScheduler;
use harness::services;
use harness::session::{
    goal_history, reasoning_name, reconcile_model_session, set_goal, GoalState, ModelCourse,
    ModelRuntimeView, ReasoningMapping, SessionCommand, SessionModel, SessionState,
};
use harness::settings::{
    failover, model_route_policy, parse_failover_targets, permission_approval_policy,
    ApprovalPolicy, ConfigLayer, ModelRoutePolicy, PermissionMode, RuntimeSettings, SettingChange,
    Undo,
};
use harness::sorting::sorted;
use harness::staffing::StaffingAssignment;
use harness::state_store::{
    schema_action, AgentEndpoint, AgentEndpointStatus, AgentSession, AgentSessionStatus,
    AgentStateStore,
};
use harness::team_finish::{course_of, OutcomeCourse, PendingApproval, TeamFinish};
use harness::team_view::set_agent_budget;
use harness::text::{
    contains, decimal_of, decimal_of_signed, first_bytes, first_chars, split, to_ascii_lower, trim,
};
use harness::tool_calls::{append_parallel_tool_result, IntegrityLabel, ParallelCalls};
use harness::wave_drive::{MusterAction, MusterKind, MusterPhase, MusterReply, Recruit};
use harness::waves::{
    add_dependencies, check_recovered, claim_agent_resume_effect, claimable_recovery_effect,
    claimable_start_effect, dependency_summary, endpoint_of_run, ToolDescriptor,
};

fn mode() -> ModeProfile {
    ModeProfile {
        mode: "balanced".to_owned(),
        max_agents: 8,
        max_parallel_agents: 4,
        max_total_tokens: 1_000_000,
        max_tool_calls: 512,
        max_runtime_millis: 3_600_000,
        max_retries: 16,
        max_cost_units: 1_000,
        max_on_demand_tools: 12,
        context_window_tokens: 8_192,
        reserved_tool_tokens: 512,
        proactive_semantic_retrieval: false,
    }
}

fn bare() -> HarnessApplication {
    HarnessApplication::new(
        "project:test".to_owned(),
        "/work/project".to_owned(),
        "session:test".to_owned(),
        mode(),
    )
}

fn equipped() -> HarnessApplication {
    bare()
        .with_model_runtime()
        .with_tool_runtime()
        .with_agent_catalog(builtin_agent_catalog().expect("catalog"))
        .with_agent_control_plane(
            AgentMessageBus::new(),
            FileLeaseManager::new("/work/project".to_owned(), false),
            AgentStateStore::new(),
            AgentBudgetManager::new(),
        )
}

fn site(path: &str) -> WriteSite {
    WriteSite {
        joined: path.to_owned(),
        existing: "/work/project".to_owned(),
        canonical: "/work/project".to_owned(),
    }
}

fn node(id: &str, status: NodeStatus, run_id: Option<&str>) -> MissionNode {
    MissionNode {
        id: id.to_owned(),
        title: format!("work on {id}"),
        status,
        run_id: run_id.map(str::to_owned),
        depends_on: Vec::new(),
        agent_definition_id: "agent:coder".to_owned(),
        output_summary: None,
    }
}

fn mission(nodes: Vec<MissionNode>) -> MissionState {
    let mut state = MissionState {
        mission_id: "mission:test".to_owned(),
        goal: "a goal".to_owned(),
        status: MissionStatus::Running,
        nodes: TextMap::new(),
        runs: TextMap::new(),
        pending_approvals: TextSet::new(),
    };
    for node in nodes {
        if let Some(run_id) = &node.run_id {
            state.runs.insert(
                run_id.clone(),
                MissionRun {
                    endpoint_id: "endpoint:agent:coder".to_owned(),
                },
            );
        }
        state.nodes.insert(node.id.clone(), node);
    }
    state
}

fn working() -> AgentWorkingContext {
    AgentWorkingContext {
        stable_instructions: "stable".to_owned(),
        dynamic_context: "dynamic".to_owned(),
        selected_item_ids: Vec::new(),
        excluded_item_ids: Vec::new(),
        token_cost: 10,
        max_input_tokens: 100,
        fingerprint: "print".to_owned(),
    }
}

fn claimed(run_id: &str) -> ClaimedEffect {
    ClaimedEffect {
        fence: CompletionFence {
            effect_id: format!("effect:{run_id}"),
            mission_epoch: 1,
            claim_token: "claim:1".to_owned(),
            run_fence: Some(1),
        },
        intent: EffectIntent::StartAgentRun {
            node_id: "task:a".to_owned(),
            run_id: run_id.to_owned(),
        },
    }
}

fn request(run_id: &str) -> AgentExecutionRequest {
    AgentExecutionRequest {
        session_id: format!("agent-session:{run_id}"),
        contract: AgentTaskContract {
            mission_id: "mission:test".to_owned(),
            task_id: "task:a".to_owned(),
            run_id: run_id.to_owned(),
            parent_run_id: None,
            endpoint_id: "endpoint:agent:coder".to_owned(),
            agent_definition_id: "agent:coder".to_owned(),
            role: AgentRole::Coder,
            objective: "write".to_owned(),
            acceptance_criteria: vec!["written".to_owned()],
            max_turns: 4,
            deadline_millis: 10_000,
            planning_budget: None,
        },
        context: working(),
        steering_messages: Vec::new(),
        model_tools: Vec::new(),
        model_continuation: None,
    }
}

fn selection() -> ModelSelection {
    ModelSelection {
        provider_id: "fake".to_owned(),
        model_id: "deterministic".to_owned(),
        reasoning_requested: ReasoningLevel::Off,
        max_output_tokens: 1_024,
        conversation_continuation: true,
    }
}

fn call(id: &str, name: &str) -> AgentToolCall {
    AgentToolCall {
        call_id: id.to_owned(),
        name: name.to_owned(),
        arguments: object(vec![("path".to_owned(), text_json("/work/project/a.txt"))]),
    }
}

fn invocation(id: &str, name: &str, status: ToolInvocationStatus) -> ToolInvocation {
    ToolInvocation {
        id: id.to_owned(),
        tool_name: name.to_owned(),
        args: object(vec![("path".to_owned(), text_json("/work/project/a.txt"))]),
        result: match status {
            ToolInvocationStatus::Completed => Some(object(vec![(
                "path".to_owned(),
                text_json("/work/project/a.txt"),
            )])),
            _ => None,
        },
        approval_request_id: match status {
            ToolInvocationStatus::WaitingApproval => Some(format!("approval:{id}")),
            _ => None,
        },
        status,
        permission_action: text_json("file-write"),
        mission_id: "mission:test".to_owned(),
        run_id: Some("run:a".to_owned()),
        origin: ToolOrigin::Agent,
    }
}

#[test]
fn texts_are_hashed_with_sha_256() {
    assert_eq!(
        hash_text("abc"),
        "ba7816bf8f01cfea414140de5dae2223b00361a396177a9cb410ff61f20015ad"
    );
    assert_eq!(
        hash_text(""),
        "e3b0c44298fc1c149afbf4c8996fb92427ae41e4649b934ca495991b7852b855"
    );
}

#[test]
fn json_is_written_with_its_texts_quoted() {
    let value = object(vec![
        ("a".to_owned(), text_json("say \"hi\"\n中")),
        ("b".to_owned(), Json::List(vec![Json::Null, Json::Bool(true)])),
        ("c".to_owned(), Json::Negative(-7)),
    ]);
    assert_eq!(
        value.text(),
        "{\"a\":\"say \\\"hi\\\"\\n中\",\"b\":[null,true],\"c\":-7}"
    );
}

#[test]
fn objectives_are_read_in_lower_case() {
    assert_eq!(
        AdaptiveTeamProfile::classify("RELEASE the Secure API"),
        AdaptiveTeamProfile {
            security: true,
            performance: false,
            release: true,
        }
    );
}

#[test]
fn texts_are_taken_apart() {
    assert_eq!(to_ascii_lower("WaitingApproval Ä"), "waitingapproval Ä");
    assert_eq!(decimal_of(0), "0");
    assert_eq!(decimal_of(u64::MAX), "18446744073709551615");
    assert_eq!(decimal_of_signed(i64::MIN), "-9223372036854775808");
    assert_eq!(trim(" \u{3000}a b\t\n"), "a b");
    assert_eq!(split("a,,b", ','), vec!["a", "", "b"]);
    assert_eq!(first_chars("中文字", 2), "中文");
    assert_eq!(first_bytes("中文", 3).as_deref(), Some("中"));
    assert_eq!(first_bytes("中文", 4), None);
    assert!(contains("files.write", "write"));
    assert!(!contains("files", "files.write"));
}

#[test]
fn overlap_is_mutual() {
    for (left, right, overlap) in [
        ("src/auth", "src/auth/session.rs", true),
        ("src/auth", "src/authority", false),
        ("src/auth", "src/auth", true),
    ] {
        assert_eq!(paths_overlap(left, right), overlap);
        assert_eq!(paths_overlap(right, left), overlap);
    }
}

#[test]
fn sorting_orders_the_items_and_keeps_them_all() {
    assert_eq!(sorted(&vec![3_u64, 1, 2, 1]), vec![1, 1, 2, 3]);
    assert!(sorted(&Vec::<u64>::new()).is_empty());
}

#[test]
fn percentiles_are_in_order() {
    let values: Vec<u64> = (1..=100).rev().collect();
    let metric = profile_metric("model", &values).expect("a metric");
    assert_eq!(metric.count, 100);
    assert_eq!(metric.total_millis, 5_050);
    assert!(metric.p50_millis <= metric.p95_millis);
    assert!(metric.p95_millis <= metric.max_millis);
    assert_eq!(metric.max_millis, 100);
    assert_eq!(metric.last_millis, 1);
    assert!(profile_metric("model", &Vec::new()).is_none());
}

#[test]
fn samples_are_bounded() {
    let mut values = Vec::new();
    for value in 0..600 {
        push_sample(&mut values, value);
    }
    assert_eq!(values.len(), 512);
    assert_eq!(values[0], 88);
    assert_eq!(values[511], 599);
    let mut samples = ProfileSamples::new();
    samples.record_retrieval(5, true);
    samples.record_retrieval(7, false);
    let profile = samples.profile(9);
    let names: Vec<&str> = profile
        .metrics
        .iter()
        .map(|metric| metric.name.as_str())
        .collect();
    assert_eq!(names, vec!["retrieval", "vector"]);
    assert_eq!(profile.metrics[0].count, 2);
    assert_eq!(profile.metrics[1].count, 1);
}

#[test]
fn times_and_ids_are_told() {
    assert_eq!(tool_wall_millis(10, 25), 15);
    assert_eq!(tool_wall_millis(25, 10), 0);
    let clock = SystemClock {};
    assert_eq!(clock.unix_millis(Some(5)), 5);
    assert_eq!(clock.unix_millis(None), 0);
    assert_eq!(clock.unix_millis(Some(u128::MAX)), i64::MAX);
    let mut ids = ProcessIdGenerator::new(77);
    let first = ids.next_id("run");
    let second = ids.next_id("run");
    assert_ne!(first, second);
    assert!(first.starts_with("run:77:"));
}

#[test]
fn failover_targets_are_read_back() {
    let targets = parse_failover_targets(" openai/gpt , nothing,a/b/c,");
    let read: Vec<(&str, &str)> = targets
        .iter()
        .map(|target| (target.provider_id.as_str(), target.model_id.as_str()))
        .collect();
    assert_eq!(read, vec![("openai", "gpt"), ("a", "b/c")]);
    let settings = |enabled: bool, targets: &str| RuntimeSettings {
        permission_mode: PermissionMode::Ask,
        failover_enabled: enabled,
        failover_cost_confirmed: true,
        failover_targets: targets.to_owned(),
    };
    assert_eq!(failover(&settings(true, "a/b")).targets, vec!["a/b"]);
    let empty = model_route_policy(&settings(true, "")).expect_err("nothing may stand in");
    assert_eq!(empty.code, "failover-targets-empty");
    assert!(model_route_policy(&settings(false, "")).is_ok());
}

#[test]
fn refused_settings_are_undone() {
    assert_eq!(
        permission_approval_policy(PermissionMode::Safe),
        ApprovalPolicy::Always
    );
    assert_eq!(
        permission_approval_policy(PermissionMode::Custom),
        ApprovalPolicy::OnRequest
    );
    let mut change =
        SettingChange::set_setting(ConfigLayer::Session, "permission", "auto").expect("change");
    let told = change.choose_approval(PermissionMode::Auto, ApprovalPolicy::Always);
    assert_eq!(told, Some(ApprovalPolicy::UntrustedOnly));
    let settings = RuntimeSettings {
        permission_mode: PermissionMode::Auto,
        failover_enabled: true,
        failover_cost_confirmed: true,
        failover_targets: "a/b".to_owned(),
    };
    let before = ModelRoutePolicy {
        enabled: false,
        user_confirmed_cost_scope: false,
        allowlist: Vec::new(),
    };
    let route = change
        .choose_route(&settings, before)
        .expect("a route")
        .expect("another route");
    assert!(route.enabled);
    let command = change.choose_command(&TextMap::new()).expect("a command");
    assert_eq!(
        command,
        SessionCommand::SetSetting {
            key: "permission".to_owned(),
            value: "auto".to_owned(),
        }
    );
    assert_eq!(change.route_refused().len(), 1);
    let undone = change.command_refused();
    assert_eq!(undone.len(), 2);
    assert!(matches!(
        undone[0],
        Undo::Approval {
            policy: ApprovalPolicy::Always
        }
    ));
    assert!(matches!(&undone[1], Undo::Route { policy } if !policy.enabled));
    let refused = SettingChange::clear_setting(ConfigLayer::Project, "mode").err();
    assert_eq!(refused.expect("read only").code, "config-layer-read-only");
}

#[test]
fn a_failed_plugin_leaves_nothing() {
    let mut enabling = PluginEnabling::new(
        "plugin:a",
        vec!["skills/a".to_owned()],
        vec!["mcp.toml".to_owned()],
        true,
        true,
    );
    assert_eq!(
        enabling.enable_plugin().expect("a skill"),
        PluginAction::InstallSkill {
            path: "skills/a".to_owned()
        }
    );
    enabling.skill_installed("skill:a");
    assert_eq!(
        enabling.enable_plugin().expect("servers"),
        PluginAction::AddServers {
            path: "mcp.toml".to_owned()
        }
    );
    enabling.server_added("server:a");
    let undone = enabling.failed();
    assert!(undone.contains(&PluginUndo::UninstallSkill {
        skill_id: "skill:a".to_owned()
    }));
    assert!(undone.contains(&PluginUndo::RemoveServer {
        server_id: "server:a".to_owned()
    }));
    assert_eq!(undone.len(), 2);
    enabling.servers_added();
    assert_eq!(enabling.enable_plugin().expect("done"), PluginAction::Finish);
    let mut extensions = PluginExtensions::new();
    extensions.enabled(enabling);
    assert!(extensions.holds("plugin:a"));
    assert_eq!(extensions.disable_plugin("plugin:a", true, true).len(), 2);
    assert!(!extensions.holds("plugin:a"));

    let no_skills = PluginEnabling::new("p", vec!["s".to_owned()], Vec::new(), false, true);
    assert_eq!(
        no_skills.enable_plugin().expect_err("no skills").code,
        "skill-runtime-missing"
    );
    let no_servers = PluginEnabling::new("p", Vec::new(), vec!["m".to_owned()], true, false);
    assert_eq!(
        no_servers.enable_plugin().expect_err("no servers").code,
        "mcp-runtime-missing"
    );
}

#[test]
fn services_say_what_happened() {
    let (event, priority) = services::open_browser("browser:1", "AgentControl");
    assert_eq!(
        event,
        HarnessEvent::BrowserStatus {
            session_id: "browser:1".to_owned(),
            status: "agentcontrol".to_owned(),
            detail: "isolated profile ready".to_owned(),
        }
    );
    assert_eq!(priority, EventPriority::Normal);
    assert_eq!(
        services::handoff_browser("browser:1").1,
        EventPriority::Critical
    );
    assert_eq!(
        services::load_skill("skill:a", 12, 3).0,
        HarnessEvent::SkillStatus {
            skill_id: "skill:a".to_owned(),
            status: "loaded".to_owned(),
            detail: "promptBytes=12, references=3".to_owned(),
        }
    );
    assert_eq!(
        services::mcp_add_server("server:a", "stdio").0,
        HarnessEvent::McpStatus {
            server_id: "server:a".to_owned(),
            status: "added".to_owned(),
            detail: "stdio · runtime-only".to_owned(),
        }
    );
    assert_eq!(
        services::boot("1.0", "balanced", "/work").len(),
        3,
        "started, ready, and a session that is open"
    );
    assert_eq!(
        publish_mcp_oauth_status("server:a", false, true, Some("key:1")),
        HarnessEvent::McpStatus {
            server_id: "server:a".to_owned(),
            status: "oauth-pending".to_owned(),
            detail: "credential=key:1".to_owned(),
        }
    );
    let connected = mcp_connected(&McpServerView {
        id: "server:a".to_owned(),
        status: "Connected".to_owned(),
        supported_tool_count: 2,
        tool_count: 3,
        resource_count: 4,
        prompt_count: 5,
    });
    assert!(matches!(
        connected,
        HarnessEvent::McpStatus { status, detail, .. }
            if status == "connected" && detail == "tools=2/3, resources=4, prompts=5"
    ));
}

#[test]
fn a_model_is_chosen_once() {
    let session = SessionModel {
        provider_id: Some("a".to_owned()),
        model_id: Some("b".to_owned()),
        reasoning: ReasoningLevel::Low,
    };
    assert_eq!(
        services::select_model(&session, false, "a", "b").expect("it stands"),
        services::ModelChoice::Keep
    );
    assert_eq!(
        services::select_model(&session, false, "a", "c")
            .expect_err("no runtime")
            .code,
        "model-runtime-missing"
    );
    assert_eq!(
        services::set_reasoning(&session, true, ReasoningLevel::High).expect("a change"),
        services::ModelChoice::Change {
            command: SessionCommand::SetReasoning {
                reasoning: ReasoningLevel::High
            }
        }
    );
    assert_eq!(
        services::refresh_models(true, None)
            .expect_err("one has to be named")
            .code,
        "model-refresh-provider-required"
    );
    assert_eq!(reasoning_name(ReasoningLevel::Xhigh), "xhigh");
}

fn checkpoint(id: &str, name: Option<&str>) -> ContextCheckpoint {
    ContextCheckpoint {
        id: id.to_owned(),
        name: name.map(str::to_owned),
        session_id: "session:test".to_owned(),
        context_series_id: "series:1".to_owned(),
        goal_revision_id: None,
        plan_revision: None,
        completed_tasks: Vec::new(),
        pending_tasks: Vec::new(),
        decision_refs: Vec::new(),
        constraint_refs: Vec::new(),
        modified_file_refs: Vec::new(),
        error_refs: Vec::new(),
        memory_refs: Vec::new(),
        prompt_fingerprint: "print".to_owned(),
        created_at_millis: 0,
    }
}

#[test]
fn checkpoints_are_found_by_id_and_by_a_name_of_their_own() {
    let all = vec![
        checkpoint("checkpoint:1", Some("twice")),
        checkpoint("checkpoint:2", Some("twice")),
        checkpoint("checkpoint:3", Some("once")),
    ];
    assert_eq!(
        resolve_checkpoint(&all, "checkpoint:2").expect("by id").id,
        "checkpoint:2"
    );
    assert_eq!(
        resolve_checkpoint(&all, "once").expect("by name").id,
        "checkpoint:3"
    );
    assert_eq!(
        resolve_checkpoint(&all, "twice").expect_err("two").code,
        "checkpoint-name-ambiguous"
    );
    assert_eq!(
        resolve_checkpoint(&all, "never").expect_err("none").code,
        "checkpoint-not-found"
    );
    assert_eq!(
        compaction_checkpoint_name(CompactionMode::Aggressive),
        "auto-before-aggressive-compact"
    );
}

fn item(id: &str, kind: ContextKind, source: &str, hard_required: bool) -> ContextItem {
    new_context_item(
        id.to_owned(),
        kind,
        Priority::High,
        source,
        "content",
        hard_required,
        3,
        5,
    )
}

fn entry(item: ContextItem) -> CompactionItem {
    CompactionItem {
        context: item,
        pair_id: None,
        tool_phase: None,
        in_flight: false,
    }
}

fn series(items: Vec<CompactionItem>) -> ContextSeries {
    ContextSeries {
        id: "series:1".to_owned(),
        session_id: "session:test".to_owned(),
        parent_series_id: None,
        restored_from_checkpoint_id: None,
        items,
        created_at_millis: 0,
    }
}

#[test]
fn context_items_come_last_and_a_source_speaks_once() {
    let made = item("context:1", ContextKind::Constraint, "rule:1", true);
    assert_eq!(made.importance, 800);
    assert_eq!(made.compressibility, Compressibility::Exact);
    assert_eq!(made.cache_class, CacheClass::Static);
    assert_eq!(made.content_hash, hash_text("content"));
    assert_eq!(made.integrity, IntegrityLabel::Trusted);
    let app = bare();
    let empty = series(Vec::new());
    assert_eq!(next_context_order(&empty.items), 0);
    let first = app.append_context_item(&empty, made, "series:2", 9);
    assert_eq!(first.expected_active_series_id.as_deref(), Some("series:1"));
    assert_eq!(first.next_series.parent_series_id.as_deref(), Some("series:1"));
    let second = app.append_context_item(
        &first.next_series,
        item("context:2", ContextKind::Task, "task:active", true),
        "series:3",
        9,
    );
    let orders: Vec<i32> = second
        .next_series
        .items
        .iter()
        .map(|item| item.context.order)
        .collect();
    assert!(orders[0] < orders[1]);
    let replaced = app
        .replace_context_source(
            &second.next_series,
            "task:active",
            Some(item("context:3", ContextKind::Task, "task:active", true)),
            "series:4",
            9,
        )
        .expect("another item");
    let ids: Vec<&str> = replaced
        .next_series
        .items
        .iter()
        .map(|item| item.context.id.as_str())
        .collect();
    assert_eq!(ids, vec!["context:1", "context:3"]);
    assert!(app
        .replace_context_source(&replaced.next_series, "nobody", None, "series:5", 9)
        .is_none());
}

#[test]
fn goals_pins_and_focus_come_into_the_context() {
    let goal = replace_goal_context("context:1".to_owned(), "a goal", 2, 5);
    assert_eq!(goal.source_identity, "goal:active");
    assert_eq!(goal.importance, 1_000);
    let context = series(vec![entry(goal)]);
    assert!(goal_in_context(&context, "a goal"));
    assert!(!goal_in_context(&context, "another goal"));
    let pinned = pin("keep this", "source:1", "context:2".to_owned(), 2, 5).expect("pinned");
    assert_eq!(pinned.source_identity, "pin:source:1");
    assert!(pinned.hard_required);
    assert_eq!(
        pin("  ", "source:1", "context:2".to_owned(), 0, 5)
            .expect_err("nothing to pin")
            .code,
        "empty-pin"
    );
    assert_eq!(
        focus(Some(" "), "context:3".to_owned(), 0, 5)
            .expect_err("nothing to look at")
            .code,
        "empty-focus"
    );
    assert!(focus(None, "context:3".to_owned(), 0, 5)
        .expect("no focus")
        .is_none());
}

#[test]
fn a_reset_keeps_what_is_required_and_a_rollback_restores() {
    let app = bare();
    let current = series(vec![
        entry(item("context:1", ContextKind::Goal, "goal:active", false)),
        entry(item("context:2", ContextKind::Conversation, "turn:1", false)),
        entry(item("context:3", ContextKind::Conversation, "turn:2", true)),
    ]);
    let (transition, view) = app.reset_context(&current, "checkpoint:1", "series:2", 7);
    assert_eq!(view.removed_items, 1);
    assert_eq!(view.retained_items, 2);
    let source = series(vec![entry(item(
        "context:9",
        ContextKind::Decision,
        "decision:1",
        false,
    ))]);
    let checkpoints = vec![checkpoint("checkpoint:1", None)];
    let back = app
        .rollback(
            &checkpoints,
            "checkpoint:1",
            Some(&source),
            Some(&transition.next_series),
            "series:3",
            8,
        )
        .expect("gone back");
    let code = |id: &str, source: Option<&ContextSeries>, current: Option<&ContextSeries>| {
        app.rollback(&checkpoints, id, source, current, "series:3", 8)
            .expect_err("refused")
            .code
    };
    assert_eq!(
        code("checkpoint:2", Some(&source), Some(&source)),
        "checkpoint-not-found"
    );
    assert_eq!(
        code("checkpoint:1", None, Some(&source)),
        "checkpoint-series-not-found"
    );
    assert_eq!(
        code("checkpoint:1", Some(&source), None),
        "context-series-missing"
    );
    assert_eq!(back.next_series.items, source.items);
    assert_eq!(
        back.next_series.restored_from_checkpoint_id.as_deref(),
        Some("checkpoint:1")
    );
    let running = mission(vec![node("task:a", NodeStatus::Running, Some("run:a"))]);
    let mut busy = bare();
    busy.active_mission_id = Some("mission:test".to_owned());
    assert_eq!(
        busy.check_reset(Some(&running)).expect_err("busy").code,
        "reset-active-mission"
    );
}

#[test]
fn prompts_are_parted_and_contexts_measured() {
    let items = vec![
        item("context:1", ContextKind::System, "system", true),
        item("context:2", ContextKind::Conversation, "turn:1", false),
    ];
    let segments = prompt_segments(&items);
    let stable = select_segments(&segments, true);
    let dynamic = select_segments(&segments, false);
    assert_eq!(stable.len() + dynamic.len(), segments.len());
    assert!(stable
        .iter()
        .all(|segment| segment.cacheability == PromptCacheability::Static));
    assert_eq!(context_percent(50, 200), 25);
    assert_eq!(context_percent(1, 0), 100);
    assert_eq!(context_percent(u32::MAX, 1), 100);
    assert!(!auto_compact_if_needed(79));
    assert!(auto_compact_if_needed(80));
    let view = cache(
        CacheMetrics { hits: 1, misses: 2 },
        Some(CacheMetrics { hits: 2, misses: 1 }),
    );
    assert_eq!(view.effective_hit_rate_percent, Some(50));
    assert_eq!(
        cache(CacheMetrics { hits: 0, misses: 0 }, None).effective_hit_rate_percent,
        None
    );
    let provider = DeterministicSummaryProvider {};
    let told = vec![entry(item("context:2", ContextKind::Tool, "turn:1", false))];
    let summary = provider.summarize(&told, 5, 512).expect("a summary");
    assert_eq!(summary.token_cost, 5);
    assert_eq!(summary.completed_actions, vec!["preserved-ref:context:2"]);
    let bounded = provider.summarize(&told, 513, 512).expect("a summary");
    assert_eq!(bounded.token_cost, 512);
    let nothing = provider.summarize(&told, 5, 0).expect_err("no room");
    assert_eq!(nothing.code, "invalid-summary-input");
}

fn session() -> SessionState {
    SessionState {
        session_id: "session:test".to_owned(),
        status: "active".to_owned(),
        version: 1,
        goal: GoalState {
            current_revision_id: None,
            revisions: TextMap::new(),
            locked: false,
        },
        model: SessionModel {
            provider_id: None,
            model_id: None,
            reasoning: ReasoningLevel::Off,
        },
        settings: TextMap::new(),
        parent_session_id: None,
        forked_from_checkpoint_id: None,
    }
}

#[test]
fn the_history_of_goals_begins_with_the_latest() {
    let mut state = session();
    for (at, text) in ["first", "second", "third"].into_iter().enumerate() {
        let now = i64::try_from(at).expect("small");
        let revision = set_goal(&state, &format!("goal:{at}"), text, now);
        state.goal.current_revision_id = Some(revision.id.clone());
        state.goal.revisions.insert(revision.id.clone(), revision);
    }
    let history = goal_history(&state, 2);
    let texts: Vec<&str> = history
        .revisions
        .iter()
        .map(|revision| revision.text.as_str())
        .collect();
    assert_eq!(texts, vec!["third", "second"]);
    assert_eq!(
        state
            .goal
            .revisions
            .get("goal:2")
            .expect("revision")
            .parent_revision_id
            .as_deref(),
        Some("goal:1")
    );
}

#[test]
fn a_session_and_its_runtime_agree_on_a_model() {
    let runtime = ModelRuntimeView {
        provider_id: "openai".to_owned(),
        model_id: "large".to_owned(),
        reasoning_requested: ReasoningLevel::Medium,
        reasoning_effective: None,
        reasoning_mapping: ReasoningMapping::Exact,
        context_window_tokens: 1,
        max_output_tokens: 1,
        tool_calling: true,
        structured_output: true,
    };
    let model = |provider: Option<&str>, model: Option<&str>| SessionModel {
        provider_id: provider.map(str::to_owned),
        model_id: model.map(str::to_owned),
        reasoning: ReasoningLevel::Off,
    };
    let fresh = reconcile_model_session(&model(None, None), &runtime, false).expect("adopted");
    assert!(matches!(fresh, ModelCourse::Adopt { commands } if commands.len() == 2));
    let kept =
        reconcile_model_session(&model(Some("a"), Some("b")), &runtime, false).expect("restored");
    assert!(matches!(
        kept,
        ModelCourse::Restore { provider_id, model_id, .. } if provider_id == "a" && model_id == "b"
    ));
    let legacy = model(Some("fake"), Some("deterministic"));
    assert!(matches!(
        reconcile_model_session(&legacy, &runtime, false).expect("moved"),
        ModelCourse::Adopt { .. }
    ));
    assert!(matches!(
        reconcile_model_session(&legacy, &runtime, true).expect("kept"),
        ModelCourse::Restore { .. }
    ));
    let half = reconcile_model_session(&model(Some("a"), None), &runtime, false);
    assert_eq!(
        half.err().expect("half a choice").code,
        "session-model-lineage-incomplete"
    );
}

#[test]
fn a_first_series_is_fresh_or_forked() {
    let mut state = session();
    assert_eq!(
        ensure_context_series(&state).expect("fresh"),
        FirstSeries::Fresh
    );
    state.parent_session_id = Some("session:parent".to_owned());
    assert_eq!(
        ensure_context_series(&state).expect_err("half").code,
        "incomplete-session-lineage"
    );
    state.forked_from_checkpoint_id = Some("checkpoint:1".to_owned());
    assert_eq!(
        ensure_context_series(&state).expect("fork"),
        FirstSeries::Fork {
            parent_session_id: "session:parent".to_owned(),
            checkpoint_id: "checkpoint:1".to_owned(),
        }
    );
}

#[test]
fn every_role_has_a_profile_that_holds_and_diagnosis_owes_evidence() {
    let roles = all_roles();
    assert_eq!(roles.len(), 16);
    for role in roles {
        let profile = agent_profile(role);
        profile.validate().expect("a profile that holds");
        assert_eq!(profile.role, role);
        assert!(profile.render_contract().contains("<agent-profile schema="));
        if role_gathers_diagnostics(role) {
            assert!(role_evidence_kind(role).is_some());
        }
        assert_eq!(
            profile.memory_policy.write_scope.is_none(),
            role == AgentRole::Explorer || role == AgentRole::StaffingRouter
        );
        assert_eq!(
            profile.model_policy.max_tool_calls == 0,
            role == AgentRole::StaffingRouter
        );
        assert!(!profile.methodology_sources.is_empty());
        for other in all_roles() {
            if other != role {
                assert_ne!(agent_profile(other).profile_id, profile.profile_id);
            }
        }
    }
    let mut broken = agent_profile(AgentRole::Coder);
    broken.profile_id = "  ".to_owned();
    assert!(broken.validate().is_err());
    assert_eq!(escape("a<b>&\"c"), "a&lt;b&gt;&amp;&quot;c");
}

#[test]
fn plans_are_drawn_and_counted() {
    let app = equipped();
    let nodes = app
        .prepare_adaptive_agent_team("fix a typo", 1)
        .expect("a plan");
    assert_eq!(nodes.len(), 7);
    for (at, node) in nodes.iter().enumerate() {
        for on in &node.depends_on {
            assert!(nodes[..at].iter().any(|earlier| &earlier.id == on));
        }
    }
    assert_eq!(
        app.prepare_adaptive_agent_team("x", 0)
            .expect_err("nobody writes")
            .code,
        "adaptive-workflow-worker-count-invalid"
    );
    assert_eq!(
        app.prepare_role_evidence_team("x", 5)
            .expect_err("too many")
            .code,
        "agent-workflow-worker-count-invalid"
    );
    assert_eq!(
        bare()
            .prepare_role_evidence_team("x", 1)
            .expect_err("no model")
            .code,
        "model-runtime-missing"
    );
    assert_eq!(
        app.check_team_size(9).expect_err("too many").code,
        "agent-team-size-invalid"
    );
    assert_eq!(main_task_plan("x").len(), 1);
    let state = mission(vec![
        node("task:a", NodeStatus::Accepted, None),
        node("task:b", NodeStatus::Running, Some("run:b")),
        node("task:c", NodeStatus::WaitingApproval, Some("run:c")),
        node("task:d", NodeStatus::Queued, None),
    ]);
    let plan = plan_view(&state);
    assert_eq!(plan.accepted, 1);
    assert_eq!(
        plan.accepted + plan.running + plan.pending + plan.blocked,
        state.nodes.len()
    );
    assert!(waits_for_approval(&state));
    assert!(!is_ready_to_complete(&state));
    assert!(is_ready_to_complete(&mission(vec![node(
        "task:a",
        NodeStatus::Accepted,
        None
    )])));
}

#[test]
fn what_a_node_waited_for_comes_last_in_its_context() {
    let mut done = node("task:a", NodeStatus::Accepted, None);
    done.output_summary = Some("it works".to_owned());
    let mut next = node("task:b", NodeStatus::Queued, None);
    next.depends_on = vec!["task:a".to_owned(), "task:nowhere".to_owned()];
    let state = mission(vec![done, next.duplicate()]);
    let summary = dependency_summary(&state, &next);
    assert_eq!(summary, "- task:a: it works");
    let context = add_dependencies(working(), &summary, u32::MAX);
    assert_eq!(
        context.dynamic_context,
        "dynamic\n<dependency-results>\n- task:a: it works\n</dependency-results>"
    );
    assert_eq!(context.token_cost, u32::MAX);
    assert_eq!(
        context.fingerprint,
        hash_text(&format!("stable\n{}", context.dynamic_context))
    );
    assert_eq!(add_dependencies(working(), "", 5), working());
}

#[test]
fn effects_are_found_by_their_run() {
    let entries = vec![
        EffectEntry {
            effect_id: "effect:1".to_owned(),
            mission_id: "mission:other".to_owned(),
            intent: EffectIntent::StartAgentRun {
                node_id: "task:a".to_owned(),
                run_id: "run:a".to_owned(),
            },
        },
        EffectEntry {
            effect_id: "effect:2".to_owned(),
            mission_id: "mission:test".to_owned(),
            intent: EffectIntent::ResumeAgentRun {
                node_id: "task:a".to_owned(),
                run_id: "run:a".to_owned(),
            },
        },
    ];
    assert_eq!(
        claim_agent_resume_effect(&entries, "mission:test", "run:a").expect("found"),
        "effect:2"
    );
    assert_eq!(
        claimable_recovery_effect(&entries, "mission:test", "run:a").expect("found"),
        "effect:2"
    );
    assert_eq!(
        claimable_start_effect(&entries, "mission:test", "run:a")
            .expect_err("not of this mission")
            .code,
        "agent-start-effect-missing"
    );
    assert_eq!(
        claim_agent_resume_effect(&entries, "mission:test", "run:b")
            .expect_err("not of this run")
            .code,
        "agent-resume-effect-missing"
    );
    let (run_id, fence) = effect_run(&entries[0].intent);
    assert_eq!(run_id, "run:a");
    assert_eq!(fence, 1);
    let state = mission(vec![node("task:a", NodeStatus::Running, Some("run:a"))]);
    assert_eq!(
        endpoint_of_run(&state, "run:a").expect("endpoint"),
        "endpoint:agent:coder"
    );
    assert_eq!(
        endpoint_of_run(&state, "run:b").expect_err("no run").code,
        "agent-run-missing"
    );
}

#[test]
fn only_requests_for_approval_are_urgent() {
    let plan = PlanView {
        mission_id: None,
        status: None,
        accepted: 1,
        running: 2,
        pending: 3,
        blocked: 4,
    };
    let (event, priority) = publish_mission_event(&DomainEvent::NodeStarted, &plan);
    assert_eq!(priority, EventPriority::Normal);
    assert_eq!(
        event,
        HarnessEvent::PlanChanged {
            accepted: 1,
            running: 2,
            pending: 3,
            blocked: 4,
        }
    );
    assert!(needs_plan(&DomainEvent::MissionCompleted));
    let asked = DomainEvent::ApprovalRequested {
        approval_id: "approval:1".to_owned(),
        action: "raw".to_owned(),
        reason: "because".to_owned(),
    };
    assert!(!needs_plan(&asked));
    let metadata = object(vec![
        ("toolInvocationId".to_owned(), text_json("invocation:1")),
        ("permission".to_owned(), text_json("write")),
    ]);
    let (event, priority) = show_mission_event(&asked, Some(&metadata), &plan);
    assert_eq!(priority, EventPriority::Critical);
    assert_eq!(
        event,
        HarnessEvent::PermissionRequested {
            approval_id: "approval:1".to_owned(),
            invocation_id: Some("invocation:1".to_owned()),
            action: "\"write\"".to_owned(),
            risk: "medium".to_owned(),
            reason: "because".to_owned(),
        }
    );
    let (event, _) = publish_mission_event(&asked, &plan);
    assert!(matches!(
        event,
        HarnessEvent::PermissionRequested { action, invocation_id: None, .. } if action == "raw"
    ));
    let (event, _) = publish_mission_event(
        &DomainEvent::ApprovalResolved {
            approval_id: "approval:1".to_owned(),
            decision: ApprovalDecision::Deny,
        },
        &plan,
    );
    assert!(matches!(
        event,
        HarnessEvent::ToolStatus { status, summary, .. }
            if status == "approval-resolved" && summary == "Deny"
    ));
    let waiting = mission(vec![node("t", NodeStatus::WaitingApproval, Some("run:a"))]);
    assert!(matches!(
        describe_task("x", &waiting),
        HarnessEvent::TextOutput { text } if text == "Agent 等待审批：x"
    ));
    let app = bare();
    let scope = traced_scope(app.mission_scope("mission:test"), true, "trace:1");
    assert_eq!(scope.trace_id.as_deref(), Some("trace:1"));
    assert_eq!(scope.session_id.as_deref(), Some("session:test"));
}

#[test]
fn leases_stay_apart_and_come_back() {
    let mut leases = FileLeaseManager::new("/work/project".to_owned(), false);
    let first = leases
        .acquire(&site("/work/project/a/b"), "run:a".to_owned(), 0, 100)
        .expect("leased");
    assert!(leases
        .acquire(&site("/work/project/a"), "run:b".to_owned(), 50, 100)
        .is_err());
    assert!(leases
        .acquire(&site("/work/project/c"), "run:b".to_owned(), 50, 100)
        .is_ok());
    let rows = leases.rows().len();
    let mut stale = first.duplicate();
    stale.fence += 1;
    assert!(!leases.release(&stale));
    assert_eq!(leases.rows().len(), rows);
    assert!(leases.release(&first));
    assert!(!leases.release(&first));
}

#[test]
fn agents_write_only_under_a_lease() {
    let arguments = object(vec![("path".to_owned(), text_json("/work/project/a.txt"))]);
    let nothing = object(Vec::new());
    let app = bare();
    assert_eq!(
        app.write_lease_path("files.read", &nothing, None)
            .expect("reads"),
        None
    );
    assert_eq!(
        app.write_lease_path("files.write", &arguments, None)
            .expect_err("no run")
            .code,
        "file-lease-run-missing"
    );
    assert_eq!(
        app.write_lease_path("files.write", &nothing, Some("run:a"))
            .expect_err("no path")
            .code,
        "file-lease-path-missing"
    );
    assert_eq!(
        app.write_lease_path("files.write", &arguments, Some("run:a"))
            .expect_err("no leases")
            .code,
        "file-lease-runtime-missing"
    );
    let mut app = equipped();
    let lease = app
        .acquire_agent_write_lease(
            "files.write",
            &arguments,
            Some("run:a"),
            &site("/work/project/a.txt"),
            10,
        )
        .expect("leased")
        .expect("a lease");
    assert_eq!(lease.expires_at_millis, 120_010);
    let again = lease.duplicate();
    app.release_agent_write_lease(Some(lease)).expect("released");
    assert_eq!(
        app.release_agent_write_lease(Some(again))
            .expect_err("released already")
            .code,
        "file-lease-stale-release"
    );
}

#[test]
fn facts_of_language_servers_are_bounded() {
    let fact = object(vec![
        ("message".to_owned(), text_json("a problem")),
        ("severity".to_owned(), Json::Unsigned(1)),
        ("path".to_owned(), text_json("src/main.rs")),
    ]);
    let line = compact_lsp_fact("lsp.diagnostics", &fact);
    assert!(line.contains("a problem"));
    assert!(line.contains("src/main.rs"));
    let many: Vec<Json> = (0..100).map(|_| fact.copy()).collect();
    let result = object(vec![("facts".to_owned(), Json::List(many))]);
    let arguments = object(vec![("serverId".to_owned(), text_json("server"))]);
    let answer = read_lsp_answer("lsp.diagnostics", &arguments, &result).expect("an answer");
    assert_eq!(answer.server_id, "server");
    assert_eq!(answer.path, "unknown");
    assert!(read_lsp_answer("files.read", &arguments, &result).is_none());
    let (identity, content) = record_lsp_tool_fact(
        "lsp.diagnostics",
        &answer,
        &result,
        &Projection::Isolated {
            code: "stale".to_owned(),
        },
    );
    assert_eq!(
        identity,
        format!(
            "lsp-fact:{}",
            &hash_text("lsp.diagnostics\nserver\nunknown")[..24]
        )
    );
    assert!(content.contains("repositoryProjection=isolated(stale)"));
    assert_eq!(content.matches("\n- ").count(), 32);
    assert!(content.len() <= 8 * 1024 + 64);
}

#[test]
fn what_is_known_of_a_project_is_put_together() {
    assert_eq!(retrieval_mode(VectorMode::Off, true), RetrievalMode::Lexical);
    assert_eq!(retrieval_mode(VectorMode::Auto, true), RetrievalMode::Auto);
    assert_eq!(
        retrieval_mode(VectorMode::Auto, false),
        RetrievalMode::Lexical
    );
    let memory = vec![MemoryHit {
        title: "choice".to_owned(),
        content: "use tokens".to_owned(),
    }];
    assert_eq!(
        retrieve_project_context(&memory, &Vec::new()),
        "\n\n[Retrieved Project Memory]\n- choice: use tokens\n"
    );
    assert_eq!(retrieve_project_context(&Vec::new(), &Vec::new()), "");
}

#[test]
fn a_given_priority_is_shown_and_kept_apart() {
    let mut app = equipped();
    let state = mission(vec![
        node("task:a", NodeStatus::Queued, None),
        node("task:b", NodeStatus::Queued, None),
    ]);
    assert_eq!(
        app.set_queue_priority(&state, "task:a", 5, 1)
            .expect_err("no mission")
            .code,
        "active-mission-missing"
    );
    app.active_mission_id = Some("mission:test".to_owned());
    app.set_queue_priority(&state, "task:a", 500, 1)
        .expect("set");
    let queue = app.agent_queue(&state, &vec!["task:a".to_owned()]);
    assert_eq!(queue.items[0].priority, 100);
    assert!(queue.items[0].ready);
    assert_eq!(queue.items[1].priority, 0);
    assert!(!queue.items[1].ready);
    assert_eq!(
        app.set_queue_priority(&state, "task:z", 1, 1)
            .expect_err("no node")
            .code,
        "agent-node-missing"
    );
    assert_eq!(set_agent_budget("runtime-ms").expect("key"), "agents.runtime-ms");
    assert_eq!(
        set_agent_budget("money").expect_err("no such field").code,
        "budget-field-invalid"
    );
    assert_eq!(
        app.agent("agent:nobody").err().expect("nobody").code,
        "agent-not-found"
    );
    assert_eq!(
        bare().agents().err().expect("no catalog").code,
        "agent-catalog-missing"
    );
}

#[test]
fn calls_of_the_user_belong_to_the_terminal() {
    let app = equipped();
    let request = app
        .invoke_tool(
            "files.read",
            Json::Null,
            "invocation:1".to_owned(),
            "approval:1".to_owned(),
            "key:1".to_owned(),
            7,
        )
        .expect("a call");
    assert_eq!(request.mission_id, "mission:terminal");
    assert_eq!(request.run_id.as_deref(), Some("run:terminal"));
    assert_eq!(request.origin, ToolOrigin::User);
    let unknown = app.approve_tool(&None, "invocation:2").err().expect("unknown");
    assert_eq!(unknown.code, "tool-invocation-not-found");
    let waiters = Waiters {
        model: true,
        parallel: true,
    };
    assert_eq!(
        course_after_approval(&waiters, &ToolInvocationStatus::Completed),
        ApprovedCourse::Parallel
    );
    assert_eq!(
        course_after_approval(&waiters, &ToolInvocationStatus::WaitingApproval),
        ApprovedCourse::Nothing
    );
}

fn escrow_request(tokens: u64) -> AgentBudgetRequest {
    AgentBudgetRequest {
        reserved_tokens: tokens,
        reserved_tool_calls: 4,
        reserved_runtime_millis: 1_000,
        reserved_retries: 1,
    }
}

#[test]
fn escrows_are_reserved_once_and_rest_when_ended() {
    let policy = AgentBudgetPolicy::balanced();
    let mut budgets = AgentBudgetManager::new();
    let reserve = |budgets: &mut AgentBudgetManager, run: &str| {
        budgets.reserve(
            "mission:test".to_owned(),
            run.to_owned(),
            &escrow_request(100),
            &policy,
            5,
        )
    };
    let first = reserve(&mut budgets, "run:a").expect("reserved");
    let again = reserve(&mut budgets, "run:a").expect("reserved already");
    assert_eq!(first, again);
    assert_eq!(budgets.rows().len(), 1);
    budgets
        .release("run:a", BudgetEscrowStatus::Completed)
        .expect("released");
    assert!(budgets.charge("run:a", 1, 0, 6).is_err());
    assert_eq!(
        budgets.get("run:a").expect("row").status,
        BudgetEscrowStatus::Completed
    );
}

#[test]
fn cancelling_reaches_the_subtree_and_no_others() {
    let mut runs = RunCancellationTree::new();
    runs.register("run:a".to_owned(), None).expect("a");
    runs.register("run:b".to_owned(), Some("run:a".to_owned()))
        .expect("b");
    runs.register("run:c".to_owned(), None).expect("c");
    assert!(runs.register("run:a".to_owned(), None).is_err());
    assert!(runs
        .register("run:d".to_owned(), Some("run:z".to_owned()))
        .is_err());
    let reached = runs.cancel_subtree("run:a").expect("cancelled");
    assert_eq!(reached.len(), 2);
    assert_eq!(runs.is_cancelled("run:b"), Some(true));
    assert_eq!(runs.is_cancelled("run:c"), Some(false));
    assert_eq!(runs.is_cancelled("run:z"), None);
}

#[test]
fn agents_are_taken_and_given_back() {
    let mut catalog: AgentCatalog = builtin_agent_catalog().expect("catalog");
    for id in catalog.ids().clone() {
        assert_eq!(catalog.lifecycle(&id), Some(AgentLifecycle::Sleeping));
        assert_eq!(catalog.active_count(&id), 0);
    }
    catalog.reserve("agent:planner").expect("reserved");
    catalog.start("agent:planner").expect("started");
    assert_eq!(catalog.active_count("agent:planner"), 1);
    assert_eq!(catalog.active_count("agent:coder"), 0);
    catalog.release("agent:planner").expect("released");
    assert_eq!(
        catalog.lifecycle("agent:planner"),
        Some(AgentLifecycle::Sleeping)
    );
    assert!(catalog.reserve("agent:nobody").is_err());
}

#[test]
fn waiting_never_lowers_a_task_and_batches_keep_their_limits() {
    let scheduler = AgentScheduler {
        concurrency_limit: 2,
    };
    let ready: Vec<String> = (0..3).map(|i| format!("task:{i}")).collect();
    let assignments: Vec<StaffingAssignment> = ready
        .iter()
        .map(|task_id| StaffingAssignment {
            task_id: task_id.clone(),
            agent_id: "agent:coder".to_owned(),
            score: 0,
            reason_summary: "a reason".to_owned(),
            catalog_fingerprint: "print".to_owned(),
        })
        .collect();
    let mut waited = TextMap::new();
    waited.insert("task:2".to_owned(), 7_u32);
    let mut costs = TextMap::new();
    for task in &ready {
        costs.insert(task.clone(), 4_u64);
    }
    let batch = scheduler.schedule_with_constraints(
        &ready,
        &assignments,
        &TextMap::new(),
        &waited,
        &costs,
        &TextSet::new(),
        100,
    );
    assert_eq!(batch.runs.len(), 2);
    assert_eq!(batch.runs[0].task_id, "task:2");
    assert_eq!(batch.total_cost_units, 8);
    let tight = scheduler.schedule_with_constraints(
        &ready,
        &assignments,
        &TextMap::new(),
        &TextMap::new(),
        &costs,
        &TextSet::new(),
        3,
    );
    assert!(tight.runs.is_empty());
}

#[test]
fn only_one_update_wins_and_recovery_is_determined() {
    let mut store = AgentStateStore::new();
    let session = |run: &str, status: AgentSessionStatus| AgentSession {
        id: format!("agent-session:{run}"),
        mission_id: "mission:test".to_owned(),
        task_id: "task:a".to_owned(),
        run_id: run.to_owned(),
        parent_run_id: None,
        endpoint_id: "endpoint:agent:coder".to_owned(),
        agent_definition_id: "agent:coder".to_owned(),
        role: AgentRole::Coder,
        status,
        context_fingerprint: "print".to_owned(),
        previous_response_id: None,
        created_at_millis: 1,
        updated_at_millis: 1,
        version: 1,
    };
    store
        .create_session(&session("run:a", AgentSessionStatus::Running))
        .expect("created");
    let mut one = session("run:a", AgentSessionStatus::WaitingTool);
    store.update_session(1, &mut one).expect("first");
    assert_eq!(one.version, 2);
    let mut other = session("run:a", AgentSessionStatus::Failed);
    assert!(store.update_session(1, &mut other).is_err());
    store
        .create_session(&session("run:b", AgentSessionStatus::Completed))
        .expect("created");
    let ids: Vec<String> = store
        .recoverable_sessions()
        .into_iter()
        .map(|session| session.run_id)
        .collect();
    assert_eq!(ids, vec!["run:a"]);
    store.set_task_priority("mission:test", "task:a", 7, 1);
    assert_eq!(store.task_priority("mission:test", "task:a"), 7);
    assert_eq!(store.task_priority("mission:test", "task:b"), 0);
    assert!(schema_action(Some(u32::MAX)).is_err());
    let state = mission(vec![node("task:a", NodeStatus::Running, Some("run:z"))]);
    assert_eq!(
        check_recovered(&state, &session("run:a", AgentSessionStatus::Running))
            .expect_err("another run")
            .code,
        "agent-recovery-kernel-mismatch"
    );
}

#[test]
fn a_restart_readies_every_agent() {
    let mut app = equipped();
    let endpoint = AgentEndpoint {
        id: "endpoint:agent:coder".to_owned(),
        definition_id: "agent:coder".to_owned(),
        instance_id: "agent-instance:old".to_owned(),
        status: AgentEndpointStatus::Busy,
        generation: 3,
        active_runs: 2,
        max_concurrency: 1,
        last_heartbeat_millis: 1,
        version: 1,
    };
    let state = app.agent_state.as_mut().expect("state");
    state.create_endpoint(&endpoint).expect("an endpoint");
    let instances: Vec<String> = (0..app.agent_count()).map(|i| format!("new:{i}")).collect();
    app.reconcile_agent_runtime(&instances, 50).expect("ready");
    let state = app.agent_state.as_ref().expect("state");
    let coder = state.endpoint("endpoint:agent:coder").expect("coder");
    assert_eq!(coder.generation, 4);
    assert_eq!(coder.active_runs, 0);
    assert_eq!(coder.status, AgentEndpointStatus::Idle);
    let planner = state.endpoint("endpoint:agent:planner").expect("planner");
    assert_eq!(planner.generation, 1);
}

fn message(id: &str) -> AgentMessage {
    AgentMessage {
        id: id.to_owned(),
        idempotency_key: format!("key:{id}"),
        mission_id: "mission:test".to_owned(),
        from: "agent:a".to_owned(),
        to: "agent:b".to_owned(),
        kind: AgentMessageKind::Question,
        payload: Json::Null,
        sequence: 0,
        created_at_millis: 1,
        acknowledged_at_millis: None,
    }
}

#[test]
fn messages_are_claimed_by_one_and_rest_when_acknowledged() {
    let mut bus = AgentMessageBus::new();
    let first = bus.send(message("message:1")).expect("sent");
    let second = bus.send(message("message:2")).expect("sent");
    assert!(first.sequence < second.sequence);
    let again = bus.send(message("message:1")).expect("sent already");
    assert_eq!(again.sequence, first.sequence);
    assert_eq!(bus.rows().len(), 2);
    let mine = bus
        .claim("agent:b", 0, 10, "delivery:1", 5, 100)
        .expect("claimed");
    assert_eq!(mine.len(), 2);
    let theirs = bus
        .claim("agent:b", 0, 10, "delivery:2", 6, 100)
        .expect("claimed");
    assert!(theirs.is_empty());
    assert!(!bus.acknowledge_claim("message:1", "delivery:2", 7));
    assert!(bus.acknowledge_claim("message:1", "delivery:1", 7));
    assert!(!bus.acknowledge_claim("message:1", "delivery:1", 8));
    assert_eq!(bus.pending("agent:b", 0, 10).len(), 1);
}

fn envelope(agent: &str, path: &str, strategy: &str) -> AgentResultEnvelope {
    let mut result = bare_result(
        "completed",
        "a proposal".to_owned(),
        AgentExecutionMetrics::default(),
        0,
    );
    result.changed_files = vec![path.to_owned()];
    let mut claims = TextMap::new();
    claims.insert("strategy".to_owned(), strategy.to_owned());
    AgentResultEnvelope {
        agent_id: agent.to_owned(),
        task_id: format!("task:{agent}"),
        run_id: format!("run:{agent}"),
        result,
        decision_claims: claims,
    }
}

#[test]
fn conflicts_are_reported_and_put_on_record() {
    let results = vec![
        envelope("a", "src/auth", "token"),
        envelope("b", "src/auth/session.rs", "session"),
    ];
    let found = detect_conflicts(&results, false);
    assert!(found
        .iter()
        .any(|conflict| conflict.kind == ConflictKind::FileOverlap));
    assert!(found
        .iter()
        .any(|conflict| conflict.kind == ConflictKind::DecisionMismatch));
    let mut app = equipped();
    let conflicts = app
        .coordinate_results("mission:test", &results, "meeting:1", 5, false)
        .expect("coordinated");
    assert_eq!(conflicts.count, found.len());
    assert!(app
        .agent_messages
        .as_ref()
        .expect("bus")
        .meeting("meeting:1")
        .is_some());
    let apart = vec![
        envelope("a", "src/a.rs", "same"),
        envelope("b", "src/b.rs", "same"),
    ];
    let none = app
        .coordinate_results("mission:test", &apart, "meeting:2", 5, false)
        .expect("nothing to settle");
    assert_eq!(none.count, 0);
    assert!(none.meeting.is_none());
    assert_eq!(
        bare()
            .coordinate_results("mission:test", &results, "meeting:3", 5, false)
            .err()
            .expect("no bus")
            .code,
        "agent-message-bus-missing"
    );
}

#[test]
fn accepted_work_shows_its_evidence() {
    let mut result = bare_result(
        "completed",
        "done".to_owned(),
        AgentExecutionMetrics {
            turns: 1,
            ..AgentExecutionMetrics::default()
        },
        0,
    );
    assert!(validate_required_evidence(&result, &["review"]).is_err());
    result.evidence.push(Evidence {
        kind: "review".to_owned(),
        reference: "run:a".to_owned(),
        summary: "done".to_owned(),
    });
    validate_required_evidence(&result, &["review"]).expect("evident");
    let mut app = equipped();
    let mut reviewed = node("task:a", NodeStatus::Running, Some("run:a"));
    reviewed.agent_definition_id = "agent:review".to_owned();
    app.begin_agent_run(
        &mission(vec![reviewed]),
        "mission:test",
        "task:a",
        "run:a",
        &working(),
        8,
    )
    .expect("begun");
    let plain = bare_result(
        "completed",
        "reviewed".to_owned(),
        AgentExecutionMetrics {
            turns: 1,
            ..AgentExecutionMetrics::default()
        },
        0,
    );
    let (steps, kept) = app
        .accept_agent_result(
            &claimed("run:a"),
            "agent:review",
            "task:a",
            "run:a",
            plain,
            &Vec::new(),
            9,
        )
        .expect("accepted");
    assert!(kept
        .result
        .evidence
        .iter()
        .any(|evidence| evidence.reference == "run:a"));
    let completed = steps
        .iter()
        .filter(|step| matches!(step, MissionStep::Complete { .. }))
        .count();
    assert_eq!(completed, 1);
}

#[test]
fn a_failed_run_completes_its_effect_once() {
    let mut app = equipped();
    let state = mission(vec![node("task:a", NodeStatus::Running, Some("run:a"))]);
    let (agent, role) = app
        .begin_agent_run(&state, "mission:test", "task:a", "run:a", &working(), 5)
        .expect("begun");
    assert_eq!(agent, "agent:coder");
    assert_eq!(role, AgentRole::Coder);
    let busy = app.agent("agent:coder").expect("coder").active;
    assert_eq!(busy, 1);
    let steps = app
        .fail_agent_run(
            &claimed("run:a"),
            "agent:coder",
            "task:a",
            "run:a",
            Some(AgentError::new("lost", "the way")),
            6,
        )
        .expect("failed");
    assert_eq!(app.agent("agent:coder").expect("coder").active, 0);
    let completions: Vec<EffectOutcome> = steps
        .iter()
        .filter_map(|step| match step {
            MissionStep::Complete { completion } => Some(completion.outcome),
            _ => None,
        })
        .collect();
    assert_eq!(completions, vec![EffectOutcome::Failed]);
    assert!(steps.iter().any(|step| matches!(
        step,
        MissionStep::Command { command: MissionCommand::FailNode { .. } }
    )));
    assert_eq!(
        app.begin_agent_run(&state, "mission:test", "task:z", "run:z", &working(), 5)
            .expect_err("no node")
            .code,
        "agent-node-missing"
    );
}

#[test]
fn a_run_is_taken_once() {
    let mut team = PreparedAgentTeam::new("mission:test".to_owned(), "a goal".to_owned());
    team.enlist(request("run:a"), claimed("run:a"));
    let continuation: AgentTeamContinuation = team.continuation;
    assert_eq!(
        continuation.claimed_by_run.len(),
        continuation.requests_by_run.len()
    );
    let mut finish = TeamFinish::new(continuation);
    let taken = finish.take("run:a").ok().expect("taken");
    assert_eq!(taken.claimed, claimed("run:a"));
    assert!(taken.request.is_some());
    assert_eq!(
        finish.take("run:a").err().expect("taken already").code,
        "agent-claimed-effect-missing"
    );
    finish.check_all_taken().expect("all taken");
    assert_eq!(
        PreparedAgentTeam::new("m".to_owned(), "p".to_owned())
            .muster(4, 1)
            .err()
            .expect("nobody")
            .code,
        "agent-executor-zero-parallelism"
    );
}

#[test]
fn outcomes_are_merged_in_order_and_say_what_becomes_of_a_run() {
    let outcome = |run: &str, failed: bool| AgentExecutionOutcome {
        run_id: run.to_owned(),
        task_id: format!("task:{run}"),
        agent_definition_id: "agent:coder".to_owned(),
        result: if failed {
            None
        } else {
            Some(bare_result(
                "completed",
                "done".to_owned(),
                AgentExecutionMetrics::default(),
                0,
            ))
        },
        error: None,
    };
    let merged = merge_outcomes(vec![
        outcome("run:b", false),
        outcome("run:c", false),
        outcome("run:a", false),
    ]);
    let runs: Vec<&str> = merged.iter().map(|outcome| outcome.run_id.as_str()).collect();
    assert_eq!(runs, vec!["run:a", "run:b", "run:c"]);
    let mut cancelled = TextSet::new();
    cancelled.insert("task:run:a".to_owned());
    assert!(matches!(
        course_of(outcome("run:a", false), &cancelled),
        OutcomeCourse::Cancelled
    ));
    assert!(matches!(
        course_of(outcome("run:b", false), &cancelled),
        OutcomeCourse::Finished { .. }
    ));
    assert!(matches!(
        course_of(outcome("run:b", true), &cancelled),
        OutcomeCourse::Failed { error: None }
    ));
}

fn continuation() -> AgentModelContinuation {
    AgentModelContinuation {
        instructions: "stable".to_owned(),
        transcript: Vec::new(),
        next_input: Vec::new(),
        tools: Vec::new(),
        previous_response_id: None,
        output: String::new(),
        next_turn: 1,
        max_turns: 4,
        conversation_continuation: true,
        metrics: AgentExecutionMetrics::default(),
        changed_files: Vec::new(),
    }
}

#[test]
fn waiting_keeps_the_calls_that_are_left() {
    let mut app = equipped();
    let calls = ParallelCalls {
        request: request("run:a"),
        continuation: continuation(),
        calls: vec![
            call("call:1", "files.read"),
            call("call:2", "files.write"),
            call("call:3", "files.read"),
        ],
        next: 0,
    };
    let (phase, action) = app.begin_parallel_calls(calls, 5).expect("begun");
    assert!(matches!(&action, CallsAction::Invoke { call } if call.call_id == "call:1"));
    let (phase, action) = app
        .make_parallel_calls(
            phase,
            CallsReply::Invoked {
                invocation: invocation("i:1", "files.read", ToolInvocationStatus::Completed),
            },
            5,
        )
        .expect("made");
    assert!(matches!(&action, CallsAction::Note { fact: Some(_), .. }));
    let (phase, action) = app
        .make_parallel_calls(phase, CallsReply::Noted, 5)
        .expect("noted");
    assert!(matches!(&action, CallsAction::Resolve { path } if path == "/work/project/a.txt"));
    let (phase, _) = app
        .make_parallel_calls(
            phase,
            CallsReply::Site {
                site: site("/work/project/a.txt"),
            },
            5,
        )
        .expect("leased");
    assert_eq!(app.file_leases.as_ref().expect("leases").rows().len(), 1);
    let (phase, _) = app
        .make_parallel_calls(
            phase,
            CallsReply::Invoked {
                invocation: invocation("i:2", "files.write", ToolInvocationStatus::WaitingApproval),
            },
            5,
        )
        .expect("made");
    assert_eq!(app.file_leases.as_ref().expect("leases").rows().len(), 0);
    let (phase, action) = app
        .make_parallel_calls(phase, CallsReply::Noted, 5)
        .expect("noted");
    assert!(matches!(phase, CallsPhase::Over));
    match action {
        CallsAction::Wait { waiting, .. } => {
            assert_eq!(waiting.waiting_call.call_id, "call:2");
            assert_eq!(waiting.remaining_calls.len(), 1);
            assert_eq!(waiting.remaining_calls[0].call_id, "call:3");
        }
        _ => panic!("the agent has to wait"),
    }
    let mut told = continuation();
    append_parallel_tool_result(
        &mut told,
        &call("call:2", "files.write"),
        &object(vec![("path".to_owned(), text_json("/work/project/a.txt"))]),
    );
    assert_eq!(told.changed_files, vec!["/work/project/a.txt"]);
    let mut bare = bare();
    let none = ParallelCalls {
        request: request("run:a"),
        continuation: continuation(),
        calls: Vec::new(),
        next: 0,
    };
    assert_eq!(
        bare.begin_parallel_calls(none, 5).err().expect("no tools").code,
        "tool-runtime-missing"
    );
}

#[test]
fn a_failed_call_gives_its_lease_back() {
    let mut app = equipped();
    let calls = ParallelCalls {
        request: request("run:a"),
        continuation: continuation(),
        calls: vec![call("call:1", "files.write")],
        next: 0,
    };
    let (phase, _) = app.begin_parallel_calls(calls, 5).expect("begun");
    let (phase, _) = app
        .make_parallel_calls(
            phase,
            CallsReply::Site {
                site: site("/work/project/a.txt"),
            },
            5,
        )
        .expect("leased");
    let error = app
        .make_parallel_calls(
            phase,
            CallsReply::CallFailed {
                error: harness::error::ApplicationError::new("broken", "pipe"),
            },
            5,
        )
        .err()
        .expect("failed");
    assert_eq!(error.code, "broken");
    assert_eq!(app.file_leases.as_ref().expect("leases").rows().len(), 0);
}

#[test]
fn a_conversation_comes_to_an_end() {
    let mut app = bare().with_model_runtime().with_tool_runtime();
    let who = Talk {
        mission_id: "mission:test".to_owned(),
        run_id: Some("run:a".to_owned()),
        agent_id: "agent:coder".to_owned(),
    };
    let none: Vec<ToolDescriptor> = Vec::new();
    let state = start_model_loop(selection(), "a task", &working(), "", &none);
    let mut phase = TalkPhase::Turning { state };
    let mut action = TalkAction::Proceed;
    let mut asked = 0;
    let mut pending: Vec<ModelEvent> = Vec::new();
    let error = loop {
        let reply = match action {
            TalkAction::Proceed => TalkReply::Go {
                cancelled: false,
                delivery_token: "delivery:1".to_owned(),
            },
            TalkAction::Ask { .. } => {
                asked += 1;
                pending = vec![
                    ModelEvent::Completed,
                    ModelEvent::ToolCall {
                        call: call(&format!("call:{asked}"), "files.read"),
                    },
                ];
                TalkReply::Event {
                    event: pending.pop().expect("an event"),
                }
            }
            TalkAction::Hear { .. } => match pending.pop() {
                Some(event) => TalkReply::Event { event },
                None => TalkReply::Ended,
            },
            TalkAction::Invoke { call } => TalkReply::Invoked {
                invocation: invocation(&call.call_id, &call.name, ToolInvocationStatus::Completed),
            },
            TalkAction::Note { .. } => TalkReply::Noted,
            _ => panic!("nothing else is asked for"),
        };
        match app.converse(&who, phase, reply, 5) {
            Ok((next, wanted)) => {
                phase = next;
                action = wanted;
            }
            Err(error) => break error,
        }
    };
    assert_eq!(asked, 8);
    assert_eq!(error.code, "model-tool-loop-limit");
}

#[test]
fn a_muster_asks_for_one_thing_after_the_other() {
    let mut app = equipped();
    let state = || {
        mission(vec![node("task:a", NodeStatus::Running, Some("run:a"))])
    };
    let recruits = vec![Recruit {
        task_id: "task:a".to_owned(),
        session: None,
    }];
    let (phase, action) = app
        .begin_muster(MusterKind::Wave, state(), "", recruits, Vec::new(), 5)
        .expect("begun");
    assert!(matches!(action, MusterAction::NameRun));
    let named = MusterReply::Named {
        run_id: "run:a".to_owned(),
    };
    let (phase, action) = app.muster_team(phase, named, 5).expect("named");
    assert!(matches!(&action, MusterAction::Do { steps } if steps.len() == 1));
    let (phase, action) = app
        .muster_team(phase, MusterReply::Did, 6)
        .expect("started");
    assert!(matches!(action, MusterAction::ListEffects));
    let entries = vec![EffectEntry {
        effect_id: "effect:run:a".to_owned(),
        mission_id: "mission:test".to_owned(),
        intent: claimed("run:a").intent,
    }];
    let (phase, action) = app
        .muster_team(phase, MusterReply::Effects { entries }, 7)
        .expect("found");
    assert!(matches!(&action, MusterAction::Claim { effect_id } if effect_id == "effect:run:a"));
    let (phase, action) = app
        .muster_team(
            phase,
            MusterReply::Claimed {
                claimed: Some(claimed("run:a")),
            },
            8,
        )
        .expect("claimed");
    assert!(matches!(&action, MusterAction::Brief { node_id } if node_id == "task:a"));
    let (phase, action) = app
        .muster_team(
            phase,
            MusterReply::Briefed {
                state: state(),
                context: working(),
            },
            9,
        )
        .expect("briefed");
    assert!(matches!(action, MusterAction::FindTools { .. }));
    let (phase, action) = app
        .muster_team(phase, MusterReply::Found { tools: Vec::new() }, 10)
        .expect("equipped");
    assert!(matches!(phase, MusterPhase::Over));
    match action {
        MusterAction::Ready { team } => {
            assert_eq!(team.job.requests.len(), 1);
            assert_eq!(team.job.max_parallel, 1);
            assert_eq!(team.job.requests[0].contract.deadline_millis, 120_006);
            assert_eq!(
                team.continuation.claimed_by_run.get("run:a"),
                Some(&claimed("run:a"))
            );
        }
        _ => panic!("the team is ready"),
    }
}

#[test]
fn a_lost_claim_stops_a_muster() {
    let mut app = equipped();
    let state = mission(vec![node("task:a", NodeStatus::Queued, None)]);
    let unknown = app.begin_muster(
        MusterKind::Wave,
        mission(Vec::new()),
        "",
        vec![Recruit {
            task_id: "task:a".to_owned(),
            session: None,
        }],
        Vec::new(),
        5,
    );
    assert_eq!(unknown.err().expect("no node").code, "agent-node-missing");
    let (phase, _) = app
        .begin_muster(
            MusterKind::Research,
            state,
            "find out",
            vec![Recruit {
                task_id: "task:a".to_owned(),
                session: None,
            }],
            Vec::new(),
            5,
        )
        .expect("begun");
    let named = MusterReply::Named {
        run_id: "run:a".to_owned(),
    };
    let (phase, _) = app.muster_team(phase, named, 5).expect("named");
    let (phase, _) = app.muster_team(phase, MusterReply::Did, 5).expect("started");
    let lost = app
        .muster_team(
            phase,
            MusterReply::Effects {
                entries: Vec::new(),
            },
            5,
        )
        .err()
        .expect("nothing to claim");
    assert_eq!(lost.code, "agent-start-effect-missing");
}

#[test]
fn an_approval_that_nobody_asked_for_is_not_found() {
    let app = equipped();
    let waiting = invocation("i:1", "files.write", ToolInvocationStatus::WaitingApproval);
    let asked = vec![PendingApproval {
        id: "approval:i:1".to_owned(),
        risk: "High".to_owned(),
        reason: "it writes".to_owned(),
    }];
    let command = app
        .request_approval(&asked, &waiting, "task:a", "run:a")
        .expect("asked for");
    match command {
        MissionCommand::RequestApproval { action, reason, .. } => {
            assert_eq!(
                action,
                "{\"permission\":\"file-write\",\"risk\":\"high\",\"tool\":\"files.write\",\
                 \"toolInvocationId\":\"i:1\"}"
            );
            assert_eq!(reason, "it writes");
        }
        _ => panic!("an approval is asked for"),
    }
    assert_eq!(
        app.request_approval(&Vec::new(), &waiting, "task:a", "run:a")
            .expect_err("not asked for")
            .code,
        "tool-approval-request-not-found"
    );
    let unasked = invocation("i:2", "files.write", ToolInvocationStatus::Completed);
    assert_eq!(
        app.request_approval(&asked, &unasked, "task:a", "run:a")
            .expect_err("no approval")
            .code,
        "tool-approval-id-missing"
    );
}

#[test]
fn a_meeting_is_remembered_as_json() {
    let mut participants = TextSet::new();
    participants.insert("agent:b".to_owned());
    participants.insert("agent:a".to_owned());
    let record = remember_meeting(
        &MeetingRecord {
            id: "meeting:1".to_owned(),
            mission_id: "mission:test".to_owned(),
            topic: "which \"one\"".to_owned(),
            participants,
            transcript: Vec::new(),
            decisions: vec!["neither".to_owned()],
            conflicts: Vec::new(),
            created_at_millis: -1,
            closed_at_millis: None,
        },
        "memory:1".to_owned(),
    );
    assert_eq!(record.title, "which \"one\"");
    assert_eq!(record.tags, vec!["agent-meeting", "conflict"]);
    assert_eq!(record.source_ref.as_deref(), Some("meeting:1"));
    assert_eq!(
        record.content,
        "{\"id\":\"meeting:1\",\"missionId\":\"mission:test\",\
         \"topic\":\"which \\\"one\\\"\",\"participants\":[\"agent:a\",\"agent:b\"],\
         \"transcript\":[],\"decisions\":[\"neither\"],\"conflicts\":[],\
         \"createdAtMillis\":-1,\"closedAtMillis\":null}"
    );
}

#[test]
fn a_configuration_tells_only_the_runtimes_that_are_there() {
    let settings = RuntimeSettings {
        permission_mode: PermissionMode::Safe,
        failover_enabled: true,
        failover_cost_confirmed: true,
        failover_targets: String::new(),
    };
    let (app, told) = bare().with_config(mode(), &settings).expect("no model");
    assert_eq!(told.approval, None);
    assert_eq!(told.route, None);
    assert_eq!(app.agent_budget_policy.max_agents, 8);
    let (_, told) = bare()
        .with_tool_runtime()
        .with_config(mode(), &settings)
        .expect("no model");
    assert_eq!(told.approval, Some(ApprovalPolicy::Always));
    let refused = bare()
        .with_model_runtime()
        .with_config(mode(), &settings)
        .err()
        .expect("nothing may stand in");
    assert_eq!(refused.code, "failover-targets-empty");
}

#[test]
fn every_service_says_what_it_did() {
    let browser = |(event, priority): (HarnessEvent, EventPriority)| match event {
        HarnessEvent::BrowserStatus { status, .. } => (status, priority),
        _ => panic!("it is about a browser"),
    };
    assert_eq!(
        browser(services::navigate_browser("b", "https://x")).1,
        EventPriority::Normal
    );
    assert_eq!(browser(services::close_browser("b")).0, "closed");
    assert_eq!(
        browser(services::reclaim_browser("b")).1,
        EventPriority::Critical
    );
    let server = |(event, _): (HarnessEvent, EventPriority)| match event {
        HarnessEvent::McpStatus { status, .. } => status,
        _ => panic!("it is about a server"),
    };
    assert_eq!(server(services::mcp_remove_server("s")), "removed");
    assert_eq!(server(services::mcp_enable_server("s")), "enabled");
    assert_eq!(server(services::mcp_disable_server("s")), "disabled");
    assert_eq!(server(services::mcp_disconnect("s")), "disconnected");
    assert_eq!(server(services::mcp_oauth_start("s", "http://x")), "oauth-pending");
    assert!(matches!(
        services::unload_skill("skill:a").0,
        HarnessEvent::SkillStatus { status, .. } if status == "metadata-only"
    ));
    let view = PluginView {
        id: "plugin:a".to_owned(),
        active: false,
        status: "Disabled".to_owned(),
        last_error: Some("why".to_owned()),
        contribution_count: 2,
    };
    for event in [plugin_inactive(&view), plugin_enabled(&view), plugin_disabled(&view)] {
        assert!(matches!(
            event,
            HarnessEvent::PluginStatus { plugin_id, status, .. }
                if plugin_id == "plugin:a" && status == "disabled"
        ));
    }
}

#[test]
fn only_what_is_set_for_the_session_is_stored_and_only_once() {
    let lasting =
        SettingChange::set_setting(ConfigLayer::Session, "mode", "full").expect("a change");
    let passing =
        SettingChange::set_setting(ConfigLayer::Runtime, "mode", "full").expect("a change");
    let mut stored = TextMap::new();
    assert!(passing.choose_command(&stored).is_none());
    assert!(lasting.choose_command(&stored).is_some());
    stored.insert("mode".to_owned(), "full".to_owned());
    assert!(lasting.choose_command(&stored).is_none());
    let gone = SettingChange::clear_setting(ConfigLayer::Session, "mode").expect("a change");
    assert_eq!(
        gone.choose_command(&stored),
        Some(SessionCommand::ClearSetting {
            key: "mode".to_owned()
        })
    );
    assert!(gone.choose_command(&TextMap::new()).is_none());
}

#[test]
fn more_text_asks_for_no_less() {
    let release = AdaptiveTeamProfile::in_lower_case("deploy");
    assert!(release.release && !release.security && !release.performance);
    let more = AdaptiveTeamProfile::in_lower_case("secure it, deploy it, and benchmark it");
    assert!(more.release && more.security && more.performance);
    assert_eq!(
        AdaptiveTeamProfile::classify("DEPLOY"),
        AdaptiveTeamProfile::classify("deploy")
    );
}

#[test]
fn instructions_are_kept_in_order() {
    let mut buffer = SharedSteeringBuffer::new();
    buffer.push(" first ").expect("accepted");
    let before = buffer.snapshot();
    assert_eq!(buffer.push("  ").expect_err("blank").code, "steering-empty");
    buffer.push("second").expect("accepted");
    assert_eq!(before, vec!["first"]);
    assert_eq!(buffer.snapshot(), vec!["first", "second"]);
    assert_eq!(buffer.snapshot(), vec!["first", "second"]);
}

#[test]
fn personas_of_other_languages_are_english() {
    let english = persona_prompt("en");
    assert_eq!(persona_prompt("fr"), english);
    assert_eq!(persona_prompt(""), english);
    for language in ["zh-CN", "zh-TW", "ja"] {
        assert_ne!(persona_prompt(language), english);
    }
}

#[test]
fn actions_are_read_as_json() {
    let plan = PlanView {
        mission_id: None,
        status: None,
        accepted: 0,
        running: 0,
        pending: 0,
        blocked: 0,
    };
    let shown = |action: &str| {
        let asked = DomainEvent::ApprovalRequested {
            approval_id: "approval:1".to_owned(),
            action: action.to_owned(),
            reason: "because".to_owned(),
        };
        publish_mission_event(&asked, &plan).0
    };
    assert_eq!(
        shown(
            "{\"toolInvocationId\": \"invocation:1\", \"risk\": \"high\", \"permission\": {\"b\": [1, -2, 2.5], \"a\": null}}"
        ),
        HarnessEvent::PermissionRequested {
            approval_id: "approval:1".to_owned(),
            invocation_id: Some("invocation:1".to_owned()),
            action: "{\"a\":null,\"b\":[1,-2,2.5]}".to_owned(),
            risk: "high".to_owned(),
            reason: "because".to_owned(),
        }
    );
    for raw in ["write a file", "{\"permission\": ", "", "[1]", "{\"risk\": 3}"] {
        assert_eq!(
            shown(raw),
            HarnessEvent::PermissionRequested {
                approval_id: "approval:1".to_owned(),
                invocation_id: None,
                action: raw.to_owned(),
                risk: "medium".to_owned(),
                reason: "because".to_owned(),
            }
        );
    }
    assert_eq!(Json::parse("18446744073709551615"), Some(Json::Unsigned(u64::MAX)));
    assert_eq!(Json::parse("-1"), Some(Json::Negative(-1)));
    assert_eq!(Json::parse("true false"), None);
}

#[test]
fn control_characters_are_escaped() {
    assert_eq!(
        text_json("\u{8}\t\n\u{c}\r\u{1f}\u{0}\u{7f}\\/\"é").text(),
        "\"\\b\\t\\n\\f\\r\\u001f\\u0000\u{7f}\\\\/\\\"é\""
    );
}

#[test]
fn equal_sets_of_roles_are_equal() {
    let some = RoleSet::of(vec![AgentRole::Tester, AgentRole::Coder, AgentRole::Tester]);
    assert_eq!(some, RoleSet::of(vec![AgentRole::Coder, AgentRole::Tester]));
    assert_eq!(some.in_order(), vec![AgentRole::Coder, AgentRole::Tester]);
    assert_ne!(some, RoleSet::single(AgentRole::Coder));
    assert_eq!(RoleSet::of(Vec::new()), RoleSet::new());
}

#[test]
fn leases_keep_what_does_not_exist_as_it_is_written() {
    let leased = |joined: &str| resolve_write("/work", joined, "/work/a", "/work/b").expect("below");
    assert_eq!(leased("/work/a/x//y/./z"), "/work/b/x//y/./z");
    assert_eq!(leased("/work/a//./x/./"), "/work/b/x");
    assert_eq!(leased("/work/a/"), "/work/b");
    assert_eq!(leased("/work/./a/.."), "/work/b/..");
    assert_eq!(
        resolve_write("/", "/new", "/", "/").expect("below the root"),
        "/new"
    );
    assert_eq!(
        resolve_write("/work", "/work/a/x", "/work/a", "/home/b")
            .expect_err("outside")
            .code,
        "lease-path-outside-root"
    );
    assert_eq!(
        resolve_write("/work", "/work/a/x", "/work/b", "/work/b")
            .expect_err("no part of it")
            .code,
        "lease-path-invalid"
    );
}

#[test]
fn compactions_are_on_record() {
    let app = bare();
    let series = ContextSeries {
        id: "series:1".to_owned(),
        session_id: app.session_id.clone(),
        parent_series_id: None,
        restored_from_checkpoint_id: None,
        items: Vec::new(),
        created_at_millis: 1,
    };
    let record = || CompactionRecord {
        previous_series_id: "series:1".to_owned(),
        next_series_id: "series:2".to_owned(),
        token_cost_before: 9,
        token_cost_after: 4,
    };
    let checkpoint = ContextCheckpoint {
        id: "checkpoint:1".to_owned(),
        name: None,
        session_id: app.session_id.clone(),
        context_series_id: "series:1".to_owned(),
        goal_revision_id: None,
        plan_revision: None,
        completed_tasks: Vec::new(),
        pending_tasks: Vec::new(),
        decision_refs: Vec::new(),
        constraint_refs: Vec::new(),
        modified_file_refs: Vec::new(),
        error_refs: Vec::new(),
        memory_refs: Vec::new(),
        prompt_fingerprint: String::new(),
        created_at_millis: 1,
    };
    let request = compaction_request(CompactionMode::Safe, &series, &checkpoint, 2);
    assert_eq!((request.keep_recent, request.max_summary_tokens), (2, 512));
    assert_eq!(request.series_id, "series:1");
    assert_eq!(request.checkpoint.as_ref(), Some(&checkpoint));
    let (step, view) = app.compact(
        CompactionMode::Safe,
        &series,
        &checkpoint,
        Vec::new(),
        record(),
        3,
    );
    assert_eq!(step.compaction_record, Some(record()));
    assert_eq!(step.next_series.id, "series:2");
    assert_eq!(step.expected_active_series_id.as_deref(), Some("series:1"));
    assert_eq!(view.checkpoint_id, "checkpoint:1");
    assert_eq!((view.token_cost_before, view.token_cost_after), (9, 4));
}

#[test]
fn samples_that_cannot_be_summed_are_told() {
    let mut samples = ProfileSamples::new();
    samples.record_profile_sample("model", u64::MAX);
    assert!(samples.can_be_summed());
    samples.record_profile_sample("model", 1);
    assert!(!samples.can_be_summed());
}
