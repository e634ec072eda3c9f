//! What is shown and written down of values: nothing of them is lost on the way, and no two of them
//! look the same.

use vstd::prelude::*;

use crate::application::{new_application, AppView, InvocationView, ModeView};
use crate::approval_drive::{
    approval_step, resume_step, ApprovalActionView, ApprovalPhaseView, ApprovalReplyView,
    ResumePhaseView, ResumptionView,
};
use crate::approvals::Waiters;
use crate::catalog::DefinitionView;
use crate::checkpoints::{compaction_shown, CheckpointModel, CompactionMode};
use crate::context::CompactionRecordView;
use crate::digest::{hex, hex_digit};
use crate::error::Outcome;
use crate::exchange::CallView;
use crate::execution::{steer_step, RequestView, WorkingView};
use crate::extensions::{connected_event, inactive_event, oauth_event, PluginModel, ServerModel};
use crate::json::{text_value, JsonView};
use crate::leases::SiteView;
use crate::lsp::{path_of, projection_note, ProjectionView};
use crate::memory::{meeting_json, texts_json};
use crate::mission::{
    ClaimedEffectView, EventView, IntentView, MissionStepView, MissionView,
};
use crate::mission_events::{
    mission_place, run_of_intent, session_place, task_text,
};
use crate::model_loop::heard_event;
use crate::observe::{plan_text, profile_shown};
use crate::ordered::{enumerates, in_order};
use crate::plans::{is_research_staffing, research_tasks, team_size_outcome, PlanModel};
use crate::profile::{reasoning_name_text, ReasoningLevel};
use crate::prompts::budget_of;
use crate::results::MeetingView;
use crate::roles::{context_role_of, role_name_text, AgentRole};
use crate::session::{goal_event, level_text, model_event, GoalView, RuntimeView};
use crate::settings::{failover_shown, flag_text, SettingsView};
use crate::staffing::{definition_json, is_staffing, text_list, AssignmentView};
use crate::state_store::{is_recovery, SessionView};
use crate::team_finish::ApprovalView;
use crate::text::{ascii_lowered, decimal, is_blank_text, joined, trimmed};
use crate::tool_calls::{acquire_lease_step, agent_invocation, tool_status};
use crate::wave_drive::{
    briefed_step, CrewView, MemberView, MusterActionView, MusterPhaseView, MusterView,
};
use crate::wave_laws::{has_result, result_line, was_at_work};
use crate::waves::{agent_status, is_recovered_team};

verus! {

/// The number that a hexadecimal digit says.
pub open spec fn digit_value(c: char) -> int {
    if '0' <= c && c <= '9' {
        c as int - '0' as int
    } else {
        c as int - 'a' as int + 10
    }
}

/// Every byte can be read back from its two digits, which are digits or small letters.
pub proof fn law_bytes_are_written_in_two_digits(bytes: Seq<u8>, i: int)
    requires
        0 <= i < bytes.len(),
    ensures
        hex(bytes).len() == 2 * bytes.len(),
        16 * digit_value(hex(bytes)[2 * i]) + digit_value(hex(bytes)[2 * i + 1]) == bytes[i],
        forall|n: int|
            0 <= n < 16 ==> ('0' <= (#[trigger] hex_digit(n)) && hex_digit(n) <= '9') || ('a'
                <= hex_digit(n) && hex_digit(n) <= 'f'),
{
    let b = bytes[i] as int;
    assert((2 * i) / 2 == i && (2 * i) % 2 == 0);
    assert((2 * i + 1) / 2 == i && (2 * i + 1) % 2 == 1);
    assert(0 <= b / 16 < 16 && 0 <= b % 16 < 16);
    assert(digit_value(hex_digit(b / 16)) == b / 16);
    assert(digit_value(hex_digit(b % 16)) == b % 16);
}

/// A new application has its project, its session and its mode, with the limits of the mode; nothing
/// is active in it, nothing is there yet and nobody waits.
pub proof fn law_new_applications_are_empty(
    project: Seq<char>,
    root: Seq<char>,
    session: Seq<char>,
    mode: ModeView,
    id: Seq<char>,
)
    ensures
        ({
            let s = new_application(project, root, session, mode);
            &&& s.project_id == project && s.project_root == root && s.session_id == session
            &&& s.mode_profile == mode && s.active_mission_id is None
            &&& !s.model_ready && !s.tools_ready && s.agent_catalog is None
            &&& s.agent_messages is None && s.file_leases is None && s.agent_state is None
            &&& s.agent_budgets is None && s.run_controls.len() == 0
            &&& !s.pending_model.contains_key(id) && !s.pending_parallel.contains_key(id)
            &&& s.ready_parallel_resume is None
            &&& s.agent_budget_policy.max_agents == mode.max_agents
            &&& s.agent_budget_policy.max_parallel_agents == mode.max_parallel_agents
            &&& s.agent_budget_policy.max_total_tokens == mode.max_total_tokens
            &&& s.agent_budget_policy.max_tool_calls == mode.max_tool_calls
            &&& s.agent_budget_policy.max_runtime_millis == mode.max_runtime_millis
            &&& s.agent_budget_policy.max_retries == mode.max_retries
        }),
{
}

/// A context may take what the model holds, but for what is kept for tools, for the answer and to
/// recover.
pub proof fn law_contexts_leave_room(s: AppView)
    ensures
        budget_of(s).model_context_window == s.mode_profile.context_window_tokens,
        budget_of(s).reserved_tool_tokens == s.mode_profile.reserved_tool_tokens,
        budget_of(s).reserved_output_tokens == 1024,
        budget_of(s).reserved_recovery_tokens == 512,
{
}

/// What a user says to a run stands behind all that was said before, without what is blank around it;
/// what is blank is refused.
pub proof fn law_instructions_are_buffered(messages: Seq<Seq<char>>, instruction: Seq<char>)
    ensures
        ({
            let (after, done) = steer_step(messages, instruction);
            &&& done is Done <==> !is_blank_text(instruction)
            &&& done is Failed ==> after == messages && done->Failed_0.code == "steering-empty"@
            &&& done is Done ==> after == messages + seq![trimmed(instruction)]
        }),
{
    assert(messages.push(trimmed(instruction)) =~= messages + seq![trimmed(instruction)]);
}

/// A team that works side by side has two to eight agents, and a model. It is staffed as its tasks ask,
/// if there is a catalog.
pub proof fn law_teams_have_two_to_eight_agents(
    s: AppView,
    count: int,
    result: Outcome<Seq<AssignmentView>>,
)
    ensures
        team_size_outcome(s, count) is Done <==> 2 <= count <= 8 && s.model_ready,
        team_size_outcome(s, count) matches Outcome::Failed(e) ==> (e.code
            == "agent-team-size-invalid"@ || (2 <= count <= 8 && e.code
            == "model-runtime-missing"@)),
        is_research_staffing(s, count, result) && s.agent_catalog is None ==> result is Failed,
        s.agent_catalog matches Some(c) ==> (is_research_staffing(s, count, result) <==> is_staffing(
            c,
            research_tasks(count),
            result,
        )),
{
}

/// Two definitions that are written down alike have the same name, limits and costs, and the same
/// capabilities and tools: a fingerprint tells them apart if they differ in any of these.
pub proof fn law_definitions_are_written_down_whole(a: DefinitionView, b: DefinitionView)
    requires
        definition_json(a) == definition_json(b),
        enumerates(in_order(a.capabilities), a.capabilities),
        enumerates(in_order(b.capabilities), b.capabilities),
        enumerates(in_order(a.allowed_tools), a.allowed_tools),
        enumerates(in_order(b.allowed_tools), b.allowed_tools),
    ensures
        a.id == b.id,
        a.name == b.name,
        a.capabilities == b.capabilities,
        a.allowed_tools == b.allowed_tools,
        a.max_concurrency == b.max_concurrency,
        a.cost_weight == b.cost_weight,
        a.integrity_floor == b.integrity_floor,
{
    let x = definition_json(a)->Object_0;
    let y = definition_json(b)->Object_0;
    assert(x[0] == y[0] && x[1] == y[1] && x[3] == y[3] && x[4] == y[4]);
    assert(x[5] == y[5] && x[6] == y[6] && x[7] == y[7]);
    lemma_list(in_order(a.capabilities), in_order(b.capabilities));
    lemma_list(in_order(a.allowed_tools), in_order(b.allowed_tools));
    assert forall|k: Seq<char>| a.capabilities.contains(k) <==> b.capabilities.contains(k) by {
        assert(in_order(a.capabilities).contains(k) <==> a.capabilities.contains(k));
        assert(in_order(b.capabilities).contains(k) <==> b.capabilities.contains(k));
    }
    assert forall|k: Seq<char>| a.allowed_tools.contains(k) <==> b.allowed_tools.contains(k) by {
        assert(in_order(a.allowed_tools).contains(k) <==> a.allowed_tools.contains(k));
        assert(in_order(b.allowed_tools).contains(k) <==> b.allowed_tools.contains(k));
    }
    assert(a.capabilities =~= b.capabilities);
    assert(a.allowed_tools =~= b.allowed_tools);
}

proof fn lemma_list(a: Seq<Seq<char>>, b: Seq<Seq<char>>)
    ensures
        text_list(a) == text_list(b) ==> a == b,
        texts_json(a) == texts_json(b) ==> a == b,
{
    if text_list(a) == text_list(b) {
        let x = text_list(a)->List_0;
        let y = text_list(b)->List_0;
        assert(x.len() == a.len() && y.len() == b.len());
        assert forall|i: int| 0 <= i < a.len() implies a[i] == b[i] by {
            assert(x[i] == JsonView::Text(a[i]));
            assert(y[i] == JsonView::Text(b[i]));
        }
        assert(a =~= b);
    }
    if texts_json(a) == texts_json(b) {
        let x = texts_json(a)->List_0;
        let y = texts_json(b)->List_0;
        assert(x.len() == a.len() && y.len() == b.len());
        assert forall|i: int| 0 <= i < a.len() implies a[i] == b[i] by {
            assert(x[i] == y[i]);
        }
        assert(a =~= b);
    }
}

/// Two meetings that are remembered alike are the same: nothing that was said, decided or in dispute
/// in them is lost, nor who took part and when.
pub proof fn law_meetings_are_remembered_whole(a: MeetingView, b: MeetingView)
    requires
        meeting_json(a) == meeting_json(b),
        enumerates(in_order(a.participants), a.participants),
        enumerates(in_order(b.participants), b.participants),
    ensures
        a.id == b.id,
        a.mission_id == b.mission_id,
        a.topic == b.topic,
        a.participants == b.participants,
        a.transcript == b.transcript,
        a.decisions == b.decisions,
        a.conflicts == b.conflicts,
        a.created_at_millis == b.created_at_millis,
        a.closed_at_millis == b.closed_at_millis,
{
    let x = meeting_json(a)->Object_0;
    let y = meeting_json(b)->Object_0;
    assert(x[0] == y[0] && x[1] == y[1] && x[2] == y[2] && x[3] == y[3] && x[4] == y[4]);
    assert(x[5] == y[5] && x[6] == y[6] && x[7] == y[7] && x[8] == y[8]);
    lemma_list(in_order(a.participants), in_order(b.participants));
    lemma_list(a.transcript, b.transcript);
    lemma_list(a.decisions, b.decisions);
    lemma_list(a.conflicts, b.conflicts);
    assert forall|k: Seq<char>| a.participants.contains(k) <==> b.participants.contains(k) by {
        assert(in_order(a.participants).contains(k) <==> a.participants.contains(k));
        assert(in_order(b.participants).contains(k) <==> b.participants.contains(k));
    }
    assert(a.participants =~= b.participants);
}

/// A level of reasoning has the same name wherever it is told, in small letters or not.
pub proof fn law_levels_have_one_name(level: ReasoningLevel)
    ensures
        ascii_lowered(reasoning_name_text(level)) == level_text(level),
{
    reveal_strlit("Off");
    reveal_strlit("Minimal");
    reveal_strlit("Low");
    reveal_strlit("Medium");
    reveal_strlit("High");
    reveal_strlit("Xhigh");
    reveal_strlit("Max");
    reveal_strlit("off");
    reveal_strlit("minimal");
    reveal_strlit("low");
    reveal_strlit("medium");
    reveal_strlit("high");
    reveal_strlit("xhigh");
    reveal_strlit("max");
    assert(ascii_lowered(reasoning_name_text(level)) =~= level_text(level));
}

/// What a plugin or a server has come to is shown under its own name; a server at which somebody is
/// signed in is said to be so, whatever else is under way.
pub proof fn law_extensions_are_shown_as_they_are(
    plugin: PluginModel,
    server: ServerModel,
    id: Seq<char>,
    authenticated: bool,
    pending: bool,
    credential: Option<Seq<char>>,
)
    ensures
        inactive_event(plugin) matches EventView::PluginStatus { plugin_id, status, detail }
            && plugin_id == plugin.id && status == ascii_lowered(plugin.status) && (
        plugin.last_error matches Some(e) ==> detail == e),
        connected_event(server) matches EventView::McpStatus { server_id, status, detail }
            && server_id == server.id && status == ascii_lowered(server.status) && detail
            == "tools="@ + decimal(server.supported_tool_count as nat) + "/"@ + decimal(
            server.tool_count as nat,
        ) + ", resources="@ + decimal(server.resource_count as nat) + ", prompts="@ + decimal(
            server.prompt_count as nat,
        ),
        oauth_event(id, authenticated, pending, credential) matches EventView::McpStatus {
            server_id,
            status,
            detail,
        } && server_id == id && status == (if authenticated {
            "authenticated"@
        } else if pending {
            "oauth-pending"@
        } else {
            "unauthenticated"@
        }) && (credential matches Some(c) ==> detail == "credential="@ + c),
{
}

/// The place of an event is its session, and its mission if it belongs to one.
pub proof fn law_events_have_their_place(s: AppView, mission: Seq<char>, intent: IntentView)
    ensures
        session_place(s).session_id == Some(s.session_id),
        session_place(s).mission_id is None,
        session_place(s).trace_id is None,
        mission_place(s, mission).session_id == Some(s.session_id),
        mission_place(s, mission).mission_id == Some(mission),
        mission_place(s, mission).trace_id is None,
        run_of_intent(intent) == match intent {
            IntentView::StartAgentRun { node_id, run_id } => run_id,
            IntentView::ResumeAgentRun { node_id, run_id } => run_id,
            IntentView::VerifyAgentRun { node_id, run_id } => run_id,
            IntentView::CancelAgentRun { node_id, run_id, reason } => run_id,
        },
{
}

/// In the end it is said of a task that it is done if its mission is completed; if not, that it waits
/// if some node waits for an approval, and else that it rests.
pub proof fn law_tasks_end_as_their_mission(prompt: Seq<char>, m: MissionView)
    ensures
        ({
            let waits = exists|id: Seq<char>| #[trigger]
                m.nodes.contains_key(id) && m.nodes[id].status is WaitingApproval;
            task_text(prompt, m) == (if m.status is Completed {
                "Agent 已完成："@
            } else if waits {
                "Agent 等待审批："@
            } else {
                "Agent 暂停："@
            }) + prompt
        }),
{
}

/// The goal and the model of a session are shown as they are.
pub proof fn law_goals_and_models_are_shown(goal: GoalView, r: RuntimeView)
    ensures
        goal_event(goal) matches EventView::GoalChanged { revision_id, text, locked } && locked
            == goal.locked && (revision_id is Some <==> text is Some) && (
        revision_id matches Some(id) ==> goal.current_revision_id is Some
            && goal.revisions.contains_key(goal.current_revision_id->Some_0) && id
            == goal.revisions[goal.current_revision_id->Some_0].id && text == Some(
            goal.revisions[goal.current_revision_id->Some_0].text,
        )),
        model_event(r) matches EventView::ModelChanged {
            provider,
            model,
            reasoning_requested,
            reasoning_effective,
            reasoning_mapping,
        } && provider == r.provider_id && model == r.model_id && reasoning_requested == level_text(
            r.reasoning_requested,
        ) && (reasoning_effective is Some <==> r.reasoning_effective is Some) && (
        r.reasoning_effective matches Some(l) ==> reasoning_effective == Some(level_text(l))),
{
}

/// What is shown of models that stand in is what was set, each target as a provider and a model.
pub proof fn law_standing_in_is_shown_as_set(settings: SettingsView)
    ensures
        ({
            let shown = failover_shown(settings);
            let targets = crate::settings::targets_in(settings.failover_targets);
            &&& shown.enabled == settings.failover_enabled
            &&& shown.cost_confirmed == settings.failover_cost_confirmed
            &&& shown.targets.len() == targets.len()
            &&& forall|i: int|
                0 <= i < targets.len() ==> #[trigger] shown.targets[i] == targets[i].provider_id
                    + "/"@ + targets[i].model_id
        }),
        flag_text(true) == "true"@,
        flag_text(false) == "false"@,
{
}

/// What a compaction came to is shown with both series, the checkpoint and what it cost before and
/// after.
pub proof fn law_compactions_are_shown(
    mode: CompactionMode,
    c: CheckpointModel,
    r: CompactionRecordView,
)
    ensures
        ({
            let x = compaction_shown(mode, c, r);
            &&& x.mode == mode && x.checkpoint_id == c.id
            &&& x.previous_series_id == r.previous_series_id && x.next_series_id == r.next_series_id
            &&& x.token_cost_before == r.token_cost_before && x.token_cost_after
                == r.token_cost_after
        }),
{
}

/// A call is shown under the name of its tool, with its status in small letters and the name of the
/// call; an agent at work under its name and role.
pub proof fn law_calls_and_agents_are_shown(
    tool: Seq<char>,
    invocation: InvocationView,
    agent: Seq<char>,
    role: AgentRole,
    status: Seq<char>,
    detail: Seq<char>,
)
    ensures
        tool_status(tool, invocation) matches EventView::ToolStatus { tool: t, status: x, summary }
            && t == tool && summary == invocation.id && (invocation.status is Completed ==> x
            == ascii_lowered("Completed"@)) && (invocation.status is WaitingApproval ==> x
            == ascii_lowered("WaitingApproval"@)),
        agent_status(agent, role, status, detail) == (EventView::AgentStatus {
            agent_id: agent,
            role: role_name_text(role),
            status,
            detail,
        }),
        heard_event(agent, detail) matches EventView::ReasoningSummary { agent_id, summary }
            && agent_id == agent && summary == "已接收 Steering："@ + detail,
{
}

/// What an agent calls is called in its own name, for its mission and its run, with the arguments that
/// it gave; it is the agent's call and not the user's.
pub proof fn law_agents_call_in_their_name(
    project: Seq<char>,
    mission: Seq<char>,
    run: Option<Seq<char>>,
    actor: Seq<char>,
    key: Seq<char>,
    call: CallView,
    id: Seq<char>,
    approval: Seq<char>,
    now: i64,
)
    ensures
        ({
            let x = agent_invocation(project, mission, run, actor, key, call, id, approval, now);
            &&& x.tool_name == call.name && x.args == call.arguments
            &&& x.invocation_id == id && x.approval_request_id == approval
            &&& x.idempotency_key == key && x.project_id == project && x.mission_id == mission
            &&& x.run_id == run && x.actor_id == actor && x.now_millis == now
            &&& x.origin is Agent
        }),
{
}

/// Where a fact is: in the path of its location, or in its own, or else outside.
pub proof fn law_facts_have_a_path(fact: JsonView, p: ProjectionView)
    ensures
        ({
            let own = text_value(crate::json::member(fact, "path"@));
            let at = crate::json::member(fact, "location"@);
            let there = text_value(crate::json::member(at->Some_0, "path"@));
            &&& at is Some && there is Some ==> path_of(fact) == there->Some_0
            &&& !(at is Some && there is Some) ==> path_of(fact) == (match own {
                Some(path) => path,
                None => "<external>"@,
            })
        }),
        projection_note(p) == match p {
            ProjectionView::Absent => ""@,
            ProjectionView::Stored { kind, added, removed } => " · repositoryProjection="@ + kind
                + " added="@ + decimal(added as nat) + " removed="@ + decimal(removed as nat),
            ProjectionView::Isolated { code } => " · repositoryProjection=isolated("@ + code
                + ")"@,
        },
{
}

/// The counts of a plan are told one after the other, and the time since the start with all that was
/// seen, in the order of the names.
pub proof fn law_plans_and_profiles_are_told(
    plan: PlanModel,
    samples: Map<Seq<char>, Seq<u64>>,
    uptime: u64,
)
    ensures
        plan_text(plan) == "当前计划：accepted="@ + decimal(plan.accepted as nat) + " running="@
            + decimal(plan.running as nat) + " pending="@ + decimal(plan.pending as nat)
            + " blocked="@ + decimal(plan.blocked as nat)
            + "；仅展示可审计依据摘要。"@,
        profile_shown(samples, uptime).uptime_millis == uptime,
        profile_shown(samples, uptime).metrics.map_values(
            |m: crate::observe::MetricModel| m.name,
        ) == in_order(samples.dom()).filter(crate::report_laws::was_seen(samples)),
{
    crate::report_laws::law_everything_seen_is_reported(samples, in_order(samples.dom()));
}

/// Each role sees the context of its own kind; who researches that of a planner, and who debugs or
/// merges that of a coder.
pub proof fn law_roles_see_their_context(role: AgentRole)
    ensures
        context_role_of(role) is Planner <==> role is Planner || role is Researcher,
        context_role_of(role) is Coder <==> role is Coder || role is Debugger || role is MergeAgent,
        context_role_of(role) is Requirements <==> role is RequirementsAnalyst,
        context_role_of(role) is Explorer <==> role is Explorer,
        context_role_of(role) is Architect <==> role is Architect,
        context_role_of(role) is Staffing <==> role is StaffingRouter,
        context_role_of(role) is Reviewer <==> role is Reviewer,
        context_role_of(role) is Security <==> role is SecurityAuditor,
        context_role_of(role) is Performance <==> role is PerformanceEngineer,
        context_role_of(role) is Tester <==> role is Tester,
        context_role_of(role) is Release <==> role is ReleaseManager,
        context_role_of(role) is Coordinator <==> role is Coordinator,
        context_role_of(role) is Supervisor <==> role is Supervisor,
{
}

/// A team is recovered from the active mission, with a model and where work is stored; it is made of
/// all sessions that were at work in it, and there has to be one.
pub proof fn law_recovered_teams_were_at_work(s: AppView, result: Outcome<Seq<SessionView>>)
    requires
        is_recovered_team(s, result),
    ensures
        s.active_mission_id is None || !s.model_ready || s.agent_state is None ==> result is Failed,
        result matches Outcome::Done(team) ==> team.len() > 0 && exists|all: Seq<SessionView>|
            #![trigger is_recovery(s.agent_state->Some_0.sessions, all)]
            is_recovery(s.agent_state->Some_0.sessions, all) && team == all.filter(
                was_at_work(s.active_mission_id->Some_0),
            ),
        result is Failed && s.active_mission_id is Some && s.model_ready && s.agent_state is Some
            ==> exists|all: Seq<SessionView>|
            #![trigger is_recovery(s.agent_state->Some_0.sessions, all)]
            is_recovery(s.agent_state->Some_0.sessions, all) && all.filter(
                was_at_work(s.active_mission_id->Some_0),
            ).len() == 0,
{
    if s.active_mission_id is Some && s.model_ready && s.agent_state is Some {
        let mission = s.active_mission_id->Some_0;
        let all = choose|all: Seq<SessionView>|
            #![trigger is_recovery(s.agent_state->Some_0.sessions, all)]
            is_recovery(s.agent_state->Some_0.sessions, all) && result
                == if crate::waves::at_work(all, mission).len() == 0 {
                crate::error::failure("agent-recovery-empty"@, mission)
            } else {
                Outcome::Done(crate::waves::at_work(all, mission))
            };
        lemma_at_work(all, mission);
        assert(is_recovery(s.agent_state->Some_0.sessions, all));
    }
}

proof fn lemma_at_work(all: Seq<SessionView>, mission: Seq<char>)
    ensures
        crate::waves::at_work(all, mission) == all.filter(was_at_work(mission)),
    decreases all.len(),
{
    reveal(Seq::filter);
    if all.len() > 0 {
        lemma_at_work(all.drop_last(), mission);
    }
}

/// An agent of a wave is told what its node waited for, if there is anything to tell, and what that
/// costs is counted first; any other agent is shown at work, and one that was recovered as resumed. If
/// the run cannot begin, nobody is told anything.
pub proof fn law_agents_of_a_wave_are_told_what_they_waited_for(
    s: AppView,
    m: MusterView,
    member: MemberView,
    claimed: ClaimedEffectView,
    state: MissionView,
    context: WorkingView,
    now: i64,
)
    ensures
        ({
            let (after, done) = briefed_step(s, m, member, claimed, state, context, now);
            let (after2, began) = crate::runs::begin_run_step(
                s,
                state,
                m.mission.mission_id,
                member.node.id,
                member.run_id,
                context,
                now,
            );
            let told = joined(
                member.node.depends_on.filter(has_result(m.mission)).map_values(
                    result_line(m.mission),
                ),
                "\n"@,
            );
            &&& after == after2
            &&& began is Failed ==> done is Failed
            &&& began matches Outcome::Done((agent, role)) ==> {
                let crew = CrewView { claimed, agent_id: agent, role, context, state };
                &&& m.kind is Wave && told.len() > 0 ==> done == Outcome::Done(
                    (
                        MusterPhaseView::Counting { muster: m, member, crew, summary: told },
                        MusterActionView::Count { text: told },
                    ),
                )
                &&& !(m.kind is Wave) ==> done is Done && done->Done_0.0 == (
                MusterPhaseView::Showing { muster: m, member, crew }) && (
                done->Done_0.1 matches MusterActionView::Do { steps } && steps.len() == 1 && (
                steps[0] matches MissionStepView::Publish { event, priority } && event == (
                EventView::AgentStatus {
                    agent_id: agent,
                    role: role_name_text(role),
                    status: if m.kind is Recovery {
                        "resumed"@
                    } else {
                        "running"@
                    },
                    detail: member.node.id,
                })))
            }
        }),
{
    crate::wave_laws::law_agents_are_told_what_they_waited_for(
        m.mission,
        member.node.depends_on,
    );
}

/// The file that an approved call writes is held for its run, and then the call is made by its name.
pub proof fn law_approved_writers_hold_their_file(
    s: AppView,
    invocation: InvocationView,
    waiters: Waiters,
    site: SiteView,
    now: i64,
)
    ensures
        ({
            let (after, done) = approval_step(
                s,
                ApprovalPhaseView::Leasing { invocation, waiters },
                ApprovalReplyView::Site { site },
                now,
            );
            let (after2, got) = acquire_lease_step(
                s,
                invocation.tool_name,
                invocation.args,
                invocation.run_id,
                site,
                now,
            );
            &&& after == after2
            &&& done is Done <==> got is Done
            &&& done is Done ==> done->Done_0 == (
                ApprovalPhaseView::Making { invocation, waiters, lease: got->Done_0 },
                ApprovalActionView::Make { invocation_id: invocation.id },
            )
        }),
{
    reveal(crate::approval_drive::leased_step);
}

/// An agent that has to wait again asks for the approval of its call for its own task and run, in its
/// own mission.
pub proof fn law_agents_ask_again_for_their_own_task(
    s: AppView,
    r: ResumptionView,
    request: RequestView,
    waiting: crate::application::WaitingToolView,
    approvals: Seq<ApprovalView>,
    now: i64,
)
    ensures
        ({
            let (after, done) = resume_step(
                s,
                ResumePhaseView::Asking { resumption: r, request, waiting },
                ApprovalReplyView::Approvals { approvals },
                now,
            );
            &&& after == s
            &&& done matches Outcome::Done((phase, action)) ==> {
                &&& phase matches ApprovalPhaseView::Resuming {
                    phase: ResumePhaseView::Requesting {
                        resumption,
                        request: q,
                        waiting: w,
                        request_id,
                    },
                } && resumption == r && q == request && w == waiting && Some(request_id)
                    == waiting.invocation.approval_request_id
                &&& action matches ApprovalActionView::Do { mission_id, steps } && mission_id
                    == request.contract.mission_id && steps.len() == 1 && (
                steps[0] matches MissionStepView::Command { command } && command
                    is RequestApproval && command->RequestApproval_node_id
                    == request.contract.task_id && command->RequestApproval_run_id
                    == request.contract.run_id)
            }
        }),
{
    reveal(resume_step);
    reveal(crate::approval_drive::asking_step);
}

} // verus!
