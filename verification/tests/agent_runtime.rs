use harness::agent_turn::ModelAgentHandler;
use harness::budget::{
    AgentBudgetManager, AgentBudgetPolicy, AgentBudgetRequest, BudgetEscrowStatus,
};
use harness::builtin::builtin_agent_catalog;
use harness::cancellation::RunCancellationTree;
use harness::catalog::{AgentCatalog, AgentDefinition, AgentLifecycle};
use harness::exchange::{
    AgentExecutionMetrics, AgentToolCall, ModelEvent, ModelInputItem, ModelSelection, ModelUsage,
    ToolDefinition,
};
use harness::execution::{
    check_start, merge_outcomes, AgentExecutionOutcome, AgentExecutionRequest, AgentTaskContract,
    AgentWorkingContext, BoundedAgentExecutor, SharedSteeringBuffer, SteeringAgentHandler,
};
use harness::json::{object, text_json, Json};
use harness::leases::{FileLeaseManager, WriteSite};
use harness::messages::{AgentMessage, AgentMessageBus, AgentMessageKind};
use harness::model::Duplicate;
use harness::ordered::{TextMap, TextSet};
use harness::profile::ReasoningLevel;
use harness::results::{
    bare_result, validate_acceptance, validate_required_evidence, AgentResult,
    AgentResultEnvelope, ConflictKind, Coordinator, Evidence, MeetingRecord,
};
use harness::roles::{AgentRole, RoleSet};
use harness::scheduling::AgentScheduler;
use harness::staffing::{StaffingAssignment, StaffingRouter, StaffingTask};
use harness::state_store::{
    AgentEndpoint, AgentEndpointStatus, AgentSession, AgentSessionStatus, AgentStateStore,
};
use std::collections::BTreeSet;

fn set(items: &[&str]) -> TextSet {
    TextSet::of(items.iter().map(|item| item.to_string()).collect())
}

fn text_list(items: &[&str]) -> Vec<String> {
    items.iter().map(|item| item.to_string()).collect()
}

fn agent(id: &str, role: AgentRole, capability: &str, cost: u32) -> AgentDefinition {
    AgentDefinition {
        id: id.to_owned(),
        name: id.to_owned(),
        roles: RoleSet::single(role),
        capabilities: set(&[capability]),
        allowed_tools: TextSet::new(),
        max_concurrency: 8,
        cost_weight: cost,
        integrity_floor: "trusted".to_owned(),
    }
}

fn task(id: &str, capability: &str, role: AgentRole) -> StaffingTask {
    StaffingTask {
        task_id: id.to_owned(),
        required_capabilities: set(&[capability]),
        preferred_roles: RoleSet::single(role),
        forbidden_agents: TextSet::new(),
    }
}

#[test]
fn builtin_catalog_has_fifteen_nonduplicative_roles_and_routes_specialists() {
    let catalog = builtin_agent_catalog().expect("builtin catalog");
    let definitions = catalog.list();
    assert_eq!(definitions.len(), 15);
    let ids = definitions
        .iter()
        .map(|definition| definition.id.to_string())
        .collect::<BTreeSet<_>>();
    for expected in [
        "agent:requirements",
        "agent:explorer",
        "agent:architect",
        "agent:security",
        "agent:performance",
        "agent:release",
    ] {
        assert!(ids.contains(expected), "missing {expected}");
    }
    for definition in &definitions {
        let control_plane = definition.roles.contains(AgentRole::Coordinator)
            || definition.roles.contains(AgentRole::StaffingRouter);
        assert!(!control_plane || !definition.roles.contains(AgentRole::Coder));
        if definition.roles.in_order().iter().any(|role| {
            matches!(
                role,
                AgentRole::RequirementsAnalyst
                    | AgentRole::Explorer
                    | AgentRole::Architect
                    | AgentRole::Reviewer
                    | AgentRole::SecurityAuditor
                    | AgentRole::PerformanceEngineer
                    | AgentRole::ReleaseManager
            )
        }) {
            assert!(!definition.allowed_tools.contains("file.write"));
        }
    }

    let wanted = [
        ("requirements-analysis", AgentRole::RequirementsAnalyst),
        ("codebase-exploration", AgentRole::Explorer),
        ("system-design", AgentRole::Architect),
        ("security-audit", AgentRole::SecurityAuditor),
        ("performance-analysis", AgentRole::PerformanceEngineer),
        ("release-readiness", AgentRole::ReleaseManager),
    ];
    let tasks = wanted
        .iter()
        .enumerate()
        .map(|(index, (capability, role))| {
            task(&format!("task:specialist:{index}"), capability, *role)
        })
        .collect::<Vec<_>>();
    let assignments = StaffingRouter::assign(&tasks, &catalog).expect("specialist routing");
    assert_eq!(assignments.len(), tasks.len());
    for (assignment, (_, role)) in assignments.iter().zip(wanted) {
        let actual = catalog
            .definition(&assignment.agent_id)
            .expect("assigned definition");
        assert!(actual.roles.contains(role));
    }
}

#[test]
fn staffing_is_deterministic_for_two_four_and_eight_tasks_without_kernel_catalog_pollution() {
    let mut catalog = AgentCatalog::new();
    catalog
        .register(agent("agent:coder", AgentRole::Coder, "rust", 10))
        .expect("coder");
    catalog
        .register(agent("agent:review", AgentRole::Reviewer, "review", 5))
        .expect("review");
    for count in [2, 4, 8] {
        let tasks = (0..count)
            .map(|i| task(&format!("task:{i}"), "rust", AgentRole::Coder))
            .collect::<Vec<_>>();
        let first = StaffingRouter::assign(&tasks, &catalog).expect("assign");
        let second = StaffingRouter::assign(&tasks, &catalog).expect("assign again");
        assert_eq!(first, second);
        assert!(first.iter().all(|a| a.agent_id == "agent:coder"));
        assert!(first.iter().all(|a| !a.catalog_fingerprint.is_empty()));
    }
    assert_eq!(catalog.lifecycle("agent:coder"), Some(AgentLifecycle::Sleeping));
}

#[test]
fn staffing_obeys_per_agent_capacity_and_control_plane_cannot_code() {
    let mut catalog = AgentCatalog::new();
    let mut limited = agent("agent:limited", AgentRole::Coder, "rust", 1);
    limited.max_concurrency = 1;
    catalog.register(limited).expect("limited coder");
    let tasks = (0..2)
        .map(|i| task(&format!("task:{i}"), "rust", AgentRole::Coder))
        .collect::<Vec<_>>();
    assert!(StaffingRouter::assign(&tasks, &catalog).is_err());

    let mut invalid = agent(
        "agent:coordinator-coder",
        AgentRole::Coordinator,
        "coordination",
        1,
    );
    invalid.roles = RoleSet::of(vec![AgentRole::Coordinator, AgentRole::Coder]);
    assert_eq!(
        catalog.register(invalid).expect_err("must reject").code,
        "agent-control-plane-cannot-code"
    );
}

#[test]
fn catalog_tracks_multiple_reserved_and_running_instances_without_overwrite() {
    let mut catalog = AgentCatalog::new();
    let mut definition = agent("agent:pool", AgentRole::Coder, "rust", 1);
    definition.max_concurrency = 2;
    catalog.register(definition.copy()).expect("register");
    assert!(catalog.register(definition).is_err());
    assert_eq!(catalog.list()[0].name, "agent:pool");

    let id = "agent:pool";
    catalog.reserve(id).expect("reserve first");
    catalog.start(id).expect("start first");
    catalog.reserve(id).expect("reserve second while first runs");
    assert_eq!(catalog.active_count(id), 2);
    assert_eq!(catalog.lifecycle(id), Some(AgentLifecycle::Running));
    assert!(catalog.reserve(id).is_err());
    catalog.start(id).expect("start second");
    catalog.release(id).expect("release first");
    assert_eq!(catalog.lifecycle(id), Some(AgentLifecycle::Running));
    catalog.release(id).expect("release second");
    assert_eq!(catalog.lifecycle(id), Some(AgentLifecycle::Sleeping));
    assert_eq!(
        catalog.release(id).expect_err("inactive release").code,
        "agent-not-active"
    );
}

fn assignment(index: usize) -> StaffingAssignment {
    StaffingAssignment {
        task_id: format!("task:{index}"),
        agent_id: "agent:coder".to_owned(),
        score: 1,
        reason_summary: "rust".to_owned(),
        catalog_fingerprint: "hash".to_owned(),
    }
}

#[test]
fn scheduler_uses_kernel_ready_nodes_priority_and_concurrency() {
    let ready = text_list(&["task:0", "task:1", "task:2", "task:3"]);
    let assignments = (0..4).map(assignment).collect::<Vec<_>>();
    let mut priorities = TextMap::new();
    priorities.insert("task:3".to_owned(), 10);
    let scheduled = AgentScheduler {
        concurrency_limit: 2,
    }
    .schedule(&ready, &assignments, &priorities);
    assert_eq!(scheduled.len(), 2);
    assert_eq!(scheduled[0].task_id, "task:3");
}

#[test]
fn scheduler_applies_aging_cancel_and_cost_budget_before_dispatch() {
    let ready = text_list(&["task:0", "task:1", "task:2"]);
    let assignments = (0..3).map(assignment).collect::<Vec<_>>();
    let mut priorities = TextMap::new();
    priorities.insert("task:1".to_owned(), 50);
    let mut wait_cycles = TextMap::new();
    wait_cycles.insert("task:0".to_owned(), 10);
    let mut costs = TextMap::new();
    costs.insert("task:0".to_owned(), 2);
    costs.insert("task:1".to_owned(), 2);
    costs.insert("task:2".to_owned(), 1);
    let cancelled = set(&["task:1"]);
    let batch = AgentScheduler {
        concurrency_limit: 3,
    }
    .schedule_with_constraints(
        &ready,
        &assignments,
        &priorities,
        &wait_cycles,
        &costs,
        &cancelled,
        2,
    );
    assert_eq!(batch.runs.len(), 1);
    assert_eq!(batch.runs[0].task_id, "task:0");
    assert_eq!(batch.total_cost_units, 2);
    assert!(batch.deferred.iter().any(|item| {
        item.task_id == "task:1" && item.reason == "cancelled-before-dispatch"
    }));
    assert!(batch
        .deferred
        .iter()
        .any(|item| { item.task_id == "task:2" && item.reason == "batch-cost-budget" }));
}

fn message(id: &str, key: &str, kind: AgentMessageKind, payload: Json) -> AgentMessage {
    AgentMessage {
        id: id.to_owned(),
        idempotency_key: key.to_owned(),
        mission_id: "mission:test".to_owned(),
        from: "agent:a".to_owned(),
        to: "agent:b".to_owned(),
        kind,
        payload,
        sequence: 0,
        created_at_millis: 1,
        acknowledged_at_millis: None,
    }
}

#[test]
fn message_bus_is_idempotent_ordered_and_acknowledged_per_recipient() {
    let mut bus = AgentMessageBus::new();
    let payload = object(vec![("question".to_owned(), text_json("conflict?"))]);
    let base = message(
        "message:1",
        "key:1",
        AgentMessageKind::Question,
        payload.copy(),
    );
    let first = bus.send(base.duplicate()).expect("send");
    let duplicate = bus
        .send(AgentMessage {
            id: "different".to_owned(),
            ..base
        })
        .expect("dedup");
    assert_eq!(first.id, duplicate.id);
    assert_eq!(first.sequence, 1);
    assert_eq!(bus.pending("agent:b", 0, 10).len(), 1);
    assert_eq!(
        bus.claim("agent:b", 0, 10, "delivery:ordered", 2, 100)
            .expect("claim")
            .len(),
        1
    );
    assert!(bus.acknowledge_claim(&first.id, "delivery:ordered", 3));
    assert!(bus.pending("agent:b", 0, 10).is_empty());
}

#[test]
fn message_claim_is_exactly_once_visible_until_lease_expires() {
    let mut bus = AgentMessageBus::new();
    let payload = object(vec![("task".to_owned(), text_json("review"))]);
    let sent = bus
        .send(message(
            "message:leased",
            "key:leased",
            AgentMessageKind::Task,
            payload,
        ))
        .expect("send");
    let first = bus
        .claim("agent:b", 0, 10, "delivery:first", 10, 100)
        .expect("first claim");
    assert_eq!(first.len(), 1);
    assert!(bus
        .claim("agent:b", 0, 10, "delivery:second", 20, 100)
        .expect("hidden while leased")
        .is_empty());
    assert!(!bus.acknowledge_claim(&sent.id, "delivery:first", 110));
    let reclaimed = bus
        .claim("agent:b", 0, 10, "delivery:second", 111, 100)
        .expect("reclaim after expiry");
    assert_eq!(reclaimed.len(), 1);
    assert_eq!(reclaimed[0].message.id, sent.id);
    assert!(!bus.acknowledge_claim(&sent.id, "delivery:first", 112));
    assert!(bus.acknowledge_claim(&sent.id, "delivery:second", 113));
    assert!(bus.pending("agent:b", 0, 10).is_empty());
}

fn site(joined: &str, existing: &str) -> WriteSite {
    WriteSite {
        joined: joined.to_owned(),
        existing: existing.to_owned(),
        canonical: existing.to_owned(),
    }
}

#[test]
fn overlapping_file_leases_conflict_and_stale_release_is_rejected() {
    let mut leases = FileLeaseManager::new("/work/project".to_owned(), false);
    let source = site("/work/project/src", "/work/project/src");
    let first = leases
        .acquire(&source, "run:a".to_owned(), 0, 100)
        .expect("first");
    let sibling = site("/work/project-lookalike", "/work/project-lookalike");
    assert!(leases
        .acquire(&sibling, "run:outside".to_owned(), 0, 100)
        .is_err());
    let below = site("/work/project/src/auth.rs", "/work/project/src");
    assert!(leases
        .acquire(&below, "run:b".to_owned(), 1, 100)
        .is_err());
    let replacement = leases
        .acquire(&source, "run:b".to_owned(), 101, 100)
        .expect("expired replacement");
    assert!(!leases.release(&first));
    assert!(leases.release(&replacement));
}

fn evidence(kind: &str, reference: &str, summary: &str) -> Evidence {
    Evidence {
        kind: kind.to_owned(),
        reference: reference.to_owned(),
        summary: summary.to_owned(),
    }
}

fn result(summary: &str, confidence: f32) -> AgentResult {
    bare_result(
        "completed",
        summary.to_owned(),
        AgentExecutionMetrics::default(),
        confidence.to_bits(),
    )
}

#[test]
fn coordinator_records_meeting_and_acceptance_requires_review_and_test_evidence() {
    let mut meeting = MeetingRecord {
        id: "meeting:1".to_owned(),
        mission_id: "mission:test".to_owned(),
        topic: "conflicting auth plans".to_owned(),
        participants: set(&["agent:a", "agent:b", "agent:coordinator"]),
        transcript: vec![],
        decisions: vec![],
        conflicts: vec![],
        created_at_millis: 1,
        closed_at_millis: None,
    };
    meeting.append("agent:a", "use tokens").expect("append");
    meeting.append("agent:b", "use sessions").expect("append");
    meeting.conflict("token/session strategy conflict");
    meeting.decide("coordinator requests evidence");
    meeting.close(2);
    assert!(meeting.append("agent:a", "late").is_err());
    let mut result = result("implemented", 0.9);
    result.changed_files = text_list(&["src/auth.rs"]);
    result.metrics.turns = 1;
    result.evidence.push(evidence("review", "review:1", "approved"));
    assert!(validate_acceptance(&result, true, true).is_err());
    result.evidence.push(evidence("test", "test:1", "passed"));
    validate_acceptance(&result, true, true).expect("accepted");
    assert!(validate_required_evidence(&result, &["security"]).is_err());
    result
        .evidence
        .push(evidence("security", "security:1", "threat model passed"));
    validate_required_evidence(&result, &["review", "test", "security"])
        .expect("all specialist evidence accepted");
}

fn proposal(agent_id: &str, run_id: &str, path: &str, strategy: &str) -> AgentResultEnvelope {
    let mut proposed = result("proposal", 0.8);
    proposed.changed_files = text_list(&[path]);
    let mut decision_claims = TextMap::new();
    decision_claims.insert("auth.strategy".to_owned(), strategy.to_owned());
    AgentResultEnvelope {
        agent_id: agent_id.to_owned(),
        task_id: format!("task:{agent_id}"),
        run_id: run_id.to_owned(),
        result: proposed,
        decision_claims,
    }
}

#[test]
fn coordinator_detects_file_and_decision_conflicts_and_persists_meeting() {
    let outcome = Coordinator::inspect(
        "mission:test".to_owned(),
        &[
            proposal("agent:a", "run:a", "src/auth", "token"),
            proposal("agent:b", "run:b", "src/auth/session.rs", "session"),
        ],
        "meeting:auto".to_owned(),
        10,
        false,
    );
    assert!(outcome
        .conflicts
        .iter()
        .any(|conflict| conflict.kind == ConflictKind::FileOverlap));
    assert!(outcome
        .conflicts
        .iter()
        .any(|conflict| conflict.kind == ConflictKind::DecisionMismatch));
    let meeting = outcome.meeting.expect("automatic meeting");
    assert!(meeting.participants.contains("agent:coordinator"));

    let mut bus = AgentMessageBus::new();
    bus.save_meeting(&meeting);
    assert_eq!(bus.meeting("meeting:auto"), Some(&meeting));
}

#[test]
fn parent_cancellation_reaches_every_child_and_parent_cannot_finish_early() {
    let mut tree = RunCancellationTree::new();
    let parent = "run:parent".to_owned();
    let child_a = "run:child-a".to_owned();
    let child_b = "run:child-b".to_owned();
    let grandchild = "run:grandchild".to_owned();
    tree.register(parent.clone(), None).expect("parent");
    tree.register(child_a.clone(), Some(parent.clone()))
        .expect("child a");
    tree.register(child_b.clone(), Some(parent.clone()))
        .expect("child b");
    tree.register(grandchild.clone(), Some(child_a.clone()))
        .expect("grandchild");
    assert_eq!(
        tree.finish(&parent)
            .expect_err("children still active")
            .code,
        "run-has-active-children"
    );
    let cancelled = tree.cancel_subtree(&parent).expect("cancel tree");
    assert_eq!(
        cancelled,
        vec![
            child_a.clone(),
            child_b.clone(),
            grandchild.clone(),
            parent.clone()
        ]
    );
    assert_eq!(tree.is_cancelled(&parent), Some(true));
    assert_eq!(tree.is_cancelled(&child_a), Some(true));
    assert_eq!(tree.is_cancelled(&child_b), Some(true));
    assert_eq!(tree.is_cancelled(&grandchild), Some(true));
    tree.finish(&grandchild).expect("finish grandchild");
    tree.finish(&child_a).expect("finish child a");
    tree.finish(&child_b).expect("finish child b");
    tree.finish(&parent).expect("finish parent last");
    assert!(tree.active_run_ids().is_empty());
}

#[test]
fn endpoint_and_agent_session_recover_with_cas_versions() {
    let mut store = AgentStateStore::new();
    let mut endpoint = AgentEndpoint {
        id: "endpoint:coder".to_owned(),
        definition_id: "agent:coder".to_owned(),
        instance_id: "instance:coder:1".to_owned(),
        status: AgentEndpointStatus::Idle,
        generation: 1,
        active_runs: 0,
        max_concurrency: 2,
        last_heartbeat_millis: 10,
        version: 1,
    };
    store.create_endpoint(&endpoint).expect("create endpoint");
    endpoint.status = AgentEndpointStatus::Busy;
    endpoint.active_runs = 1;
    store
        .update_endpoint(1, &mut endpoint)
        .expect("update endpoint");
    assert_eq!(endpoint.version, 2);
    assert_eq!(store.endpoint(&endpoint.id).expect("endpoint"), endpoint);
    let mut stale_endpoint = endpoint.duplicate();
    assert_eq!(
        store
            .update_endpoint(1, &mut stale_endpoint)
            .expect_err("stale endpoint")
            .code,
        "agent-endpoint-cas-conflict"
    );

    let mut session = AgentSession {
        id: "agent-session:1".to_owned(),
        mission_id: "mission:test".to_owned(),
        task_id: "task:test".to_owned(),
        run_id: "run:test".to_owned(),
        parent_run_id: None,
        endpoint_id: endpoint.id,
        agent_definition_id: "agent:coder".to_owned(),
        role: AgentRole::Coder,
        status: AgentSessionStatus::Prepared,
        context_fingerprint: "context:hash".to_owned(),
        previous_response_id: None,
        created_at_millis: 10,
        updated_at_millis: 10,
        version: 1,
    };
    store.create_session(&session).expect("create session");
    session.status = AgentSessionStatus::Running;
    session.updated_at_millis = 11;
    store
        .update_session(1, &mut session)
        .expect("update session");
    let mut compressed = result("compressed result", 0.75);
    compressed.follow_up = text_list(&["review"]);
    store.save_result(&session.run_id, &compressed, 12);
    store.set_task_priority(&session.mission_id, &session.task_id, 50, 12);
    assert_eq!(
        store.task_priority(&session.mission_id, &session.task_id),
        50
    );
    assert_eq!(store.recoverable_sessions(), vec![session.duplicate()]);
    let mut reopened = AgentStateStore::new();
    reopened.restore_session(&store.session(&session.id).expect("stored session"));
    reopened.save_result(
        &session.run_id,
        &store.result(&session.run_id).expect("stored result"),
        12,
    );
    assert_eq!(reopened.session(&session.id).expect("session"), session);
    assert_eq!(reopened.result(&session.run_id), Some(compressed));
}

fn budget(tokens: u64, tools: u64, runtime: u64, retries: u32) -> AgentBudgetRequest {
    AgentBudgetRequest {
        reserved_tokens: tokens,
        reserved_tool_calls: tools,
        reserved_runtime_millis: runtime,
        reserved_retries: retries,
    }
}

#[test]
fn durable_budget_escrow_enforces_parallel_tokens_tools_and_expiry() {
    let mut budgets = AgentBudgetManager::new();
    let policy = AgentBudgetPolicy {
        max_agents: 2,
        max_parallel_agents: 2,
        max_total_tokens: 100,
        max_tool_calls: 3,
        max_runtime_millis: 1_000,
        max_retries: 2,
    };
    let first_request = budget(60, 2, 400, 1);
    let mission = "mission:budget".to_owned();
    let first = budgets
        .reserve(
            mission.clone(),
            "run:one".to_owned(),
            &first_request,
            &policy,
            0,
        )
        .expect("first reserve");
    assert_eq!(
        budgets
            .reserve(
                mission.clone(),
                "run:one".to_owned(),
                &first_request,
                &policy,
                1,
            )
            .expect("idempotent reserve"),
        first
    );
    assert_eq!(
        budgets
            .reserve(
                mission.clone(),
                "run:too-large".to_owned(),
                &budget(50, 1, 100, 0),
                &policy,
                1,
            )
            .expect_err("mission token budget")
            .code,
        "agent-budget-token-limit"
    );
    budgets
        .reserve(
            mission.clone(),
            "run:two".to_owned(),
            &budget(40, 1, 400, 0),
            &policy,
            1,
        )
        .expect("second reserve");
    assert_eq!(
        budgets
            .reserve(
                mission,
                "run:three".to_owned(),
                &budget(1, 0, 1, 0),
                &policy,
                1,
            )
            .expect_err("agent limit")
            .code,
        "agent-budget-agent-limit"
    );
    let charged = budgets.charge("run:one", 50, 1, 10).expect("charge");
    assert_eq!(charged.consumed_tokens, 50);
    assert_eq!(
        budgets
            .charge("run:one", 11, 0, 11)
            .expect_err("token escrow")
            .code,
        "agent-budget-token-escrow"
    );
    let released = budgets
        .release("run:one", BudgetEscrowStatus::Completed)
        .expect("release");
    assert_eq!(released.status, BudgetEscrowStatus::Completed);

    let mut expiring = AgentBudgetManager::new();
    expiring
        .reserve(
            "mission:expiry".to_owned(),
            "run:expiry".to_owned(),
            &budget(1, 0, 10, 0),
            &policy,
            0,
        )
        .expect("expiring reserve");
    assert_eq!(
        expiring
            .charge("run:expiry", 1, 0, 10)
            .expect_err("expired")
            .code,
        "agent-budget-expired"
    );
    assert_eq!(
        expiring.get("run:expiry").expect("escrow").status,
        BudgetEscrowStatus::Expired
    );
}

fn request(
    index: &str,
    role: AgentRole,
    objective: &str,
    stable: &str,
    dynamic: &str,
    max_turns: u8,
) -> AgentExecutionRequest {
    AgentExecutionRequest {
        session_id: format!("agent-session:{index}"),
        contract: AgentTaskContract {
            mission_id: "mission:parallel".to_owned(),
            task_id: format!("task:{index}"),
            run_id: format!("run:{index}"),
            parent_run_id: None,
            endpoint_id: "endpoint:coder".to_owned(),
            agent_definition_id: "agent:coder".to_owned(),
            role,
            objective: objective.to_owned(),
            acceptance_criteria: text_list(&["returns result"]),
            max_turns,
            deadline_millis: 1_000,
            planning_budget: None,
        },
        context: AgentWorkingContext {
            stable_instructions: stable.to_owned(),
            dynamic_context: dynamic.to_owned(),
            selected_item_ids: vec![],
            excluded_item_ids: vec![],
            token_cost: 2,
            max_input_tokens: 100,
            fingerprint: format!("context:{index}"),
        },
        steering_messages: vec![],
        model_tools: vec![],
        model_continuation: None,
    }
}

#[test]
fn bounded_executor_runs_two_four_and_eight_agents_in_parallel_with_stable_merge_order() {
    for count in [2_usize, 4, 8] {
        let parallel = count.min(4);
        let executor = BoundedAgentExecutor::new(4).expect("executor");
        let requests = (0..count)
            .rev()
            .map(|index| {
                request(
                    &index.to_string(),
                    AgentRole::Coder,
                    &format!("task {index}"),
                    "core",
                    &format!("task {index}"),
                    4,
                )
            })
            .collect::<Vec<_>>();
        assert_eq!(executor.accept(&requests).expect("workers"), parallel);
        let outcomes = requests
            .iter()
            .map(|request| {
                check_start(&request.contract, false, 0).expect("in time");
                let mut done = result(&request.contract.task_id, 1.0);
                done.metrics.turns = 1;
                AgentExecutionOutcome::of(&request.contract, Ok(done))
            })
            .collect::<Vec<_>>();
        let outcomes = merge_outcomes(outcomes);
        assert_eq!(outcomes.len(), count);
        assert!(outcomes.iter().all(|outcome| outcome.error.is_none()));
        let task_ids = outcomes
            .iter()
            .map(|outcome| outcome.task_id.to_string())
            .collect::<Vec<_>>();
        let mut sorted = task_ids.clone();
        sorted.sort();
        assert_eq!(task_ids, sorted);
    }
}

fn selection(reasoning: ReasoningLevel) -> ModelSelection {
    ModelSelection {
        provider_id: "fake".to_owned(),
        model_id: "deterministic".to_owned(),
        reasoning_requested: reasoning,
        max_output_tokens: 4_096,
        conversation_continuation: true,
    }
}

fn usage(input: u64, cached: u64, output: u64, total: u64) -> ModelUsage {
    ModelUsage {
        input_tokens: input,
        cached_input_tokens: cached,
        cache_write_tokens: 0,
        output_tokens: output,
        reasoning_tokens: 0,
        total_tokens: total,
    }
}

#[test]
fn model_agent_handler_executes_isolated_request_through_real_model_runtime() {
    let handler = ModelAgentHandler::new(1_000).expect("handler");
    let asked = AgentExecutionRequest {
        session_id: "agent-session:model".to_owned(),
        contract: AgentTaskContract {
            mission_id: "mission:model".to_owned(),
            task_id: "task:review".to_owned(),
            run_id: "run:model".to_owned(),
            parent_run_id: None,
            endpoint_id: "endpoint:review".to_owned(),
            agent_definition_id: "agent:review".to_owned(),
            role: AgentRole::Reviewer,
            objective: "review the patch".to_owned(),
            acceptance_criteria: text_list(&["report findings"]),
            max_turns: 1,
            deadline_millis: 1_000,
            planning_budget: None,
        },
        context: AgentWorkingContext {
            stable_instructions: "review only".to_owned(),
            dynamic_context: "diff: auth.rs".to_owned(),
            selected_item_ids: vec![],
            excluded_item_ids: vec![],
            token_cost: 4,
            max_input_tokens: 100,
            fingerprint: "context:model".to_owned(),
        },
        steering_messages: text_list(&["focus on regressions"]),
        model_tools: vec![],
        model_continuation: None,
    };
    let run_id = asked.contract.run_id.clone();
    let (state, sent) = handler
        .begin(asked, &selection(ReasoningLevel::Low))
        .expect("begin");
    assert!(sent.instructions.contains("<role-contract>"));
    assert!(sent.instructions.contains("独立代码审查员"));
    assert!(sent.instructions.contains("review only"));
    let events = vec![
        ModelEvent::Started {
            response_id: "response:1".to_owned(),
        },
        ModelEvent::TextDelta {
            delta: "review ".to_owned(),
        },
        ModelEvent::TextDelta {
            delta: "complete".to_owned(),
        },
        ModelEvent::Usage {
            usage: usage(3, 1, 2, 5),
        },
        ModelEvent::Completed,
    ];
    let result = handler
        .conclude(state, &run_id, &events)
        .expect("result");
    assert_eq!(result.summary, "review complete");
    assert_eq!(result.metrics.input_tokens, 3);
    assert_eq!(result.metrics.cached_input_tokens, 1);
    assert_eq!(result.metrics.output_tokens, 2);
}

#[test]
fn model_agent_handler_yields_typed_tool_calls_and_resumes_exact_continuation() {
    let handler = ModelAgentHandler::new(1_000).expect("handler");
    let mut asked = request("tool", AgentRole::Coder, "read note", "core", "task", 4);
    asked.model_tools = vec![ToolDefinition {
        name: "files.read".to_owned(),
        description: "read".to_owned(),
        input_schema: object(vec![("type".to_owned(), text_json("object"))]),
        strict: true,
    }];
    let run_id = asked.contract.run_id.clone();
    let (state, _) = handler
        .begin(asked.duplicate(), &selection(ReasoningLevel::Off))
        .expect("begin");
    let arguments = object(vec![("path".to_owned(), text_json("note.txt"))]);
    let first = handler
        .conclude(
            state,
            &run_id,
            &vec![
                ModelEvent::Started {
                    response_id: "response:1".to_owned(),
                },
                ModelEvent::ToolCall {
                    call: AgentToolCall {
                        call_id: "call:1".to_owned(),
                        name: "files.read".to_owned(),
                        arguments,
                    },
                },
                ModelEvent::Usage {
                    usage: usage(2, 0, 1, 3),
                },
                ModelEvent::Completed,
            ],
        )
        .expect("first turn");
    assert_eq!(first.status, "waiting-tool");
    let mut yielded = first.model_tool_yield.expect("tool yield");
    assert_eq!(yielded.calls.len(), 1);
    yielded.continuation.previous_response_id = yielded.response_id;
    yielded.continuation.next_input = vec![ModelInputItem::ToolResult {
        call_id: yielded.calls[0].call_id.clone(),
        output: object(vec![("content".to_owned(), text_json("evidence"))]),
    }];
    asked.model_continuation = Some(yielded.continuation);
    let (state, sent) = handler
        .begin(asked, &selection(ReasoningLevel::Off))
        .expect("resume");
    assert_eq!(sent.previous_response_id, Some("response:1".to_owned()));
    let completed = handler
        .conclude(
            state,
            &run_id,
            &vec![
                ModelEvent::Started {
                    response_id: "response:2".to_owned(),
                },
                ModelEvent::TextDelta {
                    delta: "tool continuation complete".to_owned(),
                },
                ModelEvent::Usage {
                    usage: usage(2, 0, 1, 3),
                },
                ModelEvent::Completed,
            ],
        )
        .expect("continuation");
    assert_eq!(completed.status, "completed");
    assert_eq!(completed.summary, "tool continuation complete");
    assert_eq!(completed.metrics.turns, 2);
    assert_eq!(completed.metrics.tool_calls, 1);
}

#[test]
fn steering_reaches_every_request_that_starts_later() {
    let mut buffer = SharedSteeringBuffer::new();
    buffer.push("prefer small patches").expect("pushed");
    assert_eq!(
        buffer.push("   ").expect_err("blank").code,
        "steering-empty"
    );
    assert_eq!(buffer.snapshot(), text_list(&["prefer small patches"]));
    let handler = SteeringAgentHandler::new(buffer);
    let mut asked = request("steered", AgentRole::Coder, "x", "core", "task", 1);
    asked.steering_messages = text_list(&["first"]);
    let steered = handler.steered(asked);
    assert_eq!(
        steered.steering_messages,
        text_list(&["first", "prefer small patches"])
    );
}

#[test]
fn contracts_are_held_to_their_deadline_and_to_cancellation() {
    let asked = request("late", AgentRole::Coder, "x", "core", "task", 1);
    assert!(check_start(&asked.contract, false, 999).is_ok());
    assert!(check_start(&asked.contract, false, 1_000).is_err());
    assert!(check_start(&asked.contract, true, 0).is_err());
    assert!(BoundedAgentExecutor::new(0).is_err());
}
