//! What settings and plugins change, and that what is refused changes nothing; what is shown of a
//! mission, and what is remembered.

use vstd::prelude::*;

use crate::application::{AppView, ModeView};
use crate::error::Outcome;
use crate::extensions::{
    next_step, undo_of, with_server, with_servers, with_skill, EnablingView, PluginActionView,
    PluginUndoView, RegistrationView,
};
use crate::json::JsonView;
use crate::memory::{meeting_memory, number_json, session_memory, MemoryKindView};
use crate::mission::{CommandView, EventView, MissionView};
use crate::mission_events::{
    begin_step, metadata_of, permission_event, plan_shown, priority_of_event, shown_event,
    task_commands, traced, DomainView, ScopeView,
};
use crate::plans::PlanModel;
use crate::results::MeetingView;
use crate::session::SessionCommandView;
use crate::settings::{
    approval_step, begin_change, change_command, config_step, cut, policy_of, read_target,
    read_targets, route_of, route_step, undo_all, ApprovalPolicy, ChangeView, ConfigLayer,
    PermissionMode, RouteView, SettingsView, TargetView, UndoView,
};
use crate::text::{split_parts, trimmed};

verus! {

/// The more a mode allows, the less often the user is asked.
pub proof fn law_modes_ask_less_and_less(mode: PermissionMode)
    ensures
        policy_of(mode) == ApprovalPolicy::Always <==> mode is Safe,
        policy_of(mode) == ApprovalPolicy::OnRequest <==> mode is Ask || mode is Custom,
        policy_of(mode) == ApprovalPolicy::UntrustedOnly <==> mode is Auto,
        policy_of(mode) == ApprovalPolicy::NeverWithinSandbox <==> mode is Full,
{
}

/// What is cut at a character is what stands before it and what stands behind it; it is cut where the
/// character comes first, and not at all if it does not come.
pub proof fn law_texts_are_cut_where_a_character_comes_first(s: Seq<char>, c: char)
    ensures
        match cut(s, c) {
            None => !s.contains(c),
            Some((before, behind)) => s == before + seq![c] + behind && !before.contains(c),
        },
    decreases s.len(),
{
    if s.len() > 0 {
        if s[0] == c {
            assert(s =~= Seq::<char>::empty() + seq![c] + s.drop_first());
        } else {
            let rest = s.drop_first();
            law_texts_are_cut_where_a_character_comes_first(rest, c);
            assert(s =~= seq![s[0]] + rest);
            match cut(rest, c) {
                None => {
                    if s.contains(c) {
                        let i = s.index_of(c);
                        assert(rest[i - 1] == c);
                    }
                },
                Some((before, behind)) => {
                    assert(s =~= (seq![s[0]] + before) + seq![c] + behind);
                    if (seq![s[0]] + before).contains(c) {
                        let i = (seq![s[0]] + before).index_of(c);
                        if i > 0 {
                            assert(before[i - 1] == c);
                        }
                    }
                },
            }
        }
    }
}

pub open spec fn is_target() -> spec_fn(Seq<char>) -> bool {
    |part: Seq<char>| trimmed(part).contains('/')
}

pub open spec fn target_in() -> spec_fn(Seq<char>) -> TargetView {
    |part: Seq<char>| read_target(part)->Some_0
}

/// Every part with a slash is a target, in the order of the parts, and no other part is one; the slash
/// that comes first parts its provider from its model.
pub proof fn law_targets_are_parts_with_a_slash(parts: Seq<Seq<char>>)
    ensures
        read_targets(parts) == parts.filter(is_target()).map_values(target_in()),
        forall|part: Seq<char>| #[trigger]
            read_target(part) matches Some(t) ==> trimmed(part) == t.provider_id + seq!['/']
                + t.model_id && !t.provider_id.contains('/'),
    decreases parts.len(),
{
    reveal(Seq::filter);
    assert forall|part: Seq<char>| #[trigger] read_target(part) is Some implies {
        let t = read_target(part)->Some_0;
        trimmed(part) == t.provider_id + seq!['/'] + t.model_id && !t.provider_id.contains('/')
    } by {
        law_texts_are_cut_where_a_character_comes_first(trimmed(part), '/');
    }
    if parts.len() > 0 {
        law_targets_are_parts_with_a_slash(parts.drop_last());
        let part = parts.last();
        law_texts_are_cut_where_a_character_comes_first(trimmed(part), '/');
        if let Some(t) = read_target(part) {
            let (before, behind) = cut(trimmed(part), '/')->Some_0;
            assert(trimmed(part)[before.len() as int] == '/');
            assert(is_target()(part));
            assert(parts.filter(is_target()).map_values(target_in())
                =~= parts.drop_last().filter(is_target()).map_values(target_in()).push(t));
        } else {
            assert(!is_target()(part));
            assert(parts.filter(is_target()) =~= parts.drop_last().filter(is_target()));
        }
    } else {
        assert(parts.filter(is_target()).map_values(target_in()) =~= Seq::<TargetView>::empty());
    }
}

/// Models stand in for one another only among those that are listed, and whoever wants that has to
/// list some. What the user has confirmed is told as they did.
pub proof fn law_models_stand_in_only_if_listed(settings: SettingsView)
    ensures
        ({
            let listed = split_parts(settings.failover_targets, ',').filter(is_target()).map_values(
                target_in(),
            );
            &&& route_of(settings) is Failed <==> settings.failover_enabled && listed.len() == 0
            &&& route_of(settings) matches Outcome::Done(r) ==> r == (RouteView {
                enabled: settings.failover_enabled,
                user_confirmed_cost_scope: settings.failover_cost_confirmed,
                allowlist: listed,
            })
        }),
{
    law_targets_are_parts_with_a_slash(split_parts(settings.failover_targets, ','));
}

/// Only what is set for the session or the running process can be changed. A policy is told only if it
/// is another one than before, and then the one before is remembered.
pub proof fn law_changes_remember_what_was_before(
    layer: ConfigLayer,
    key: Seq<char>,
    value: Option<Seq<char>>,
    c: ChangeView,
    settings: SettingsView,
    approval: ApprovalPolicy,
    route: RouteView,
)
    ensures
        begin_change(layer, key, value) is Done <==> layer is Session || layer is Runtime,
        begin_change(layer, key, value) matches Outcome::Done(x) ==> x.layer == layer && x.key == key
            && x.value == value && x.previous_approval is None && x.previous_route is None,
        ({
            let (after, told) = approval_step(c, settings.permission_mode, approval);
            &&& told is Some <==> approval != policy_of(settings.permission_mode)
            &&& told matches Some(p) ==> p == policy_of(settings.permission_mode)
                && after.previous_approval == Some(approval)
            &&& told is None ==> after == c
            &&& after == (ChangeView { previous_approval: after.previous_approval, ..c })
        }),
        ({
            let (after, told) = route_step(c, settings, route);
            &&& told is Failed <==> route_of(settings) is Failed
            &&& told matches Outcome::Done(t) ==> (t is Some <==> Outcome::Done(route) != route_of(
                settings,
            ))
            &&& told matches Outcome::Done(Some(r)) ==> Outcome::Done(r) == route_of(settings)
                && after.previous_route == Some(route)
            &&& !(told matches Outcome::Done(Some(_))) ==> after == c
            &&& after == (ChangeView { previous_route: after.previous_route, ..c })
        }),
{
}

/// What is set for the session is stored with it under its name, and what is cleared is taken out, if
/// that changes anything; what is set for the process is not stored at all.
pub proof fn law_session_settings_are_stored(c: ChangeView, stored: Map<Seq<char>, Seq<char>>)
    ensures
        match change_command(c, stored) {
            None => !(c.layer is Session) || (c.value matches Some(v) && stored.contains_key(c.key)
                && stored[c.key] == v) || (c.value is None && !stored.contains_key(c.key)),
            Some(SessionCommandView::SetSetting { key, value }) => c.layer is Session && key
                == c.key && c.value == Some(value) && !(stored.contains_key(key) && stored[key]
                == value),
            Some(SessionCommandView::ClearSetting { key }) => c.layer is Session && key == c.key
                && c.value is None && stored.contains_key(key),
            _ => false,
        },
{
}

/// What was told is put back, each policy as it was before, and nothing that was not told.
pub proof fn law_all_that_was_told_is_put_back(c: ChangeView)
    ensures
        ({
            let undo = undo_all(c);
            &&& c.previous_approval matches Some(p) ==> undo.contains(
                UndoView::Approval { policy: p },
            )
            &&& c.previous_route matches Some(r) ==> undo.contains(UndoView::Route { policy: r })
            &&& undo.len() == (if c.previous_approval is Some {
                1int
            } else {
                0
            }) + (if c.previous_route is Some {
                1int
            } else {
                0
            })
        }),
{
    let undo = undo_all(c);
    if c.previous_approval is Some {
        assert(undo[0] == undo[0]);
        assert(undo.contains(undo[0]));
    }
    if c.previous_route is Some {
        assert(undo.contains(undo[undo.len() - 1]));
    }
}

/// A configuration gives the application its mode, and every limit of its budget is that of the mode.
/// Only what is there is told of it; a configuration that cannot be told is refused.
pub proof fn law_configurations_set_the_limits(s: AppView, mode: ModeView, settings: SettingsView)
    ensures
        config_step(s, mode, settings) is Failed <==> s.model_ready && route_of(settings) is Failed,
        config_step(s, mode, settings) matches Outcome::Done((after, told)) ==> {
            let b = after.agent_budget_policy;
            &&& after == (AppView { mode_profile: mode, agent_budget_policy: b, ..s })
            &&& b.max_agents == mode.max_agents
            &&& b.max_parallel_agents == mode.max_parallel_agents
            &&& b.max_total_tokens == mode.max_total_tokens
            &&& b.max_tool_calls == mode.max_tool_calls
            &&& b.max_runtime_millis == mode.max_runtime_millis
            &&& b.max_retries == mode.max_retries
            &&& told.approval == if s.tools_ready {
                Some(policy_of(settings.permission_mode))
            } else {
                None
            }
            &&& told.route is Some <==> s.model_ready
            &&& told.route matches Some(r) ==> Outcome::Done(r) == route_of(settings)
        },
{
}

/// A plugin gets its skills one after the other, and then its servers; if there is nothing to add them
/// to, it cannot have any. What was added is written down, behind what was added before.
pub proof fn law_plugins_get_all_they_ask_for(e: EnablingView, id: Seq<char>)
    requires
        e.skills_done < usize::MAX,
        e.paths_done < usize::MAX,
    ensures
        ({
            let skills_left = e.skills_done < e.skill_paths.len();
            let paths_left = e.paths_done < e.mcp_paths.len();
            match next_step(e) {
                Outcome::Failed(x) => (!e.has_skills && e.skill_paths.len() > 0) || (!e.has_servers
                    && e.mcp_paths.len() > 0),
                Outcome::Done(PluginActionView::InstallSkill { path }) => e.has_skills
                    && skills_left && path == e.skill_paths[e.skills_done as int],
                Outcome::Done(PluginActionView::AddServers { path }) => (!skills_left
                    || !e.has_skills) && e.has_servers && paths_left && path
                    == e.mcp_paths[e.paths_done as int],
                Outcome::Done(PluginActionView::Finish) => (e.has_skills ==> !skills_left) && (
                !e.has_skills ==> e.skill_paths.len() == 0) && (e.has_servers ==> !paths_left) && (
                !e.has_servers ==> e.mcp_paths.len() == 0),
            }
        }),
        with_skill(e, id) == (EnablingView {
            skills_done: (e.skills_done + 1) as usize,
            registration: RegistrationView {
                skill_ids: e.registration.skill_ids + seq![id],
                ..e.registration
            },
            ..e
        }),
        with_server(e, id) == (EnablingView {
            registration: RegistrationView {
                mcp_server_ids: e.registration.mcp_server_ids + seq![id],
                ..e.registration
            },
            ..e
        }),
        with_servers(e) == (EnablingView { paths_done: (e.paths_done + 1) as usize, ..e }),
{
    assert(e.registration.skill_ids.push(id) =~= e.registration.skill_ids + seq![id]);
    assert(e.registration.mcp_server_ids.push(id) =~= e.registration.mcp_server_ids + seq![id]);
}

/// What a plugin has added is taken back, the last first, the skills before the servers.
pub proof fn law_plugins_are_taken_back_in_reverse(r: RegistrationView, i: int)
    ensures
        ({
            let undo = undo_of(r, true, true);
            let n = r.skill_ids.len();
            let m = r.mcp_server_ids.len();
            &&& undo.len() == n + m
            &&& 0 <= i < n ==> undo[i] == (PluginUndoView::UninstallSkill {
                skill_id: r.skill_ids[n - 1 - i],
            })
            &&& 0 <= i < m ==> undo[n + i] == (PluginUndoView::RemoveServer {
                server_id: r.mcp_server_ids[m - 1 - i],
            })
        }),
        undo_of(r, false, false).len() == 0,
        undo_of(r, true, false).len() == r.skill_ids.len(),
        undo_of(r, false, true).len() == r.mcp_server_ids.len(),
{
}

/// A mission that begins is the active one, and is created for the project with its goal. A single
/// task is created, planned and started, in this order, as one node of its own.
pub proof fn law_missions_begin_active(
    s: AppView,
    mission: Seq<char>,
    goal: Seq<char>,
    run: Seq<char>,
)
    ensures
        begin_step(s, mission, goal).0 == (AppView { active_mission_id: Some(mission), ..s }),
        begin_step(s, mission, goal).1 == (CommandView::CreateMission {
            mission_id: mission,
            project_id: s.project_id,
            goal,
        }),
        ({
            let commands = task_commands(s, goal, mission, run);
            &&& commands.len() == 3
            &&& commands[0] == begin_step(s, mission, goal).1
            &&& commands[1] is InstallPlan && commands[1]->InstallPlan_nodes.len() == 1
            &&& commands[2] is StartNode && commands[2]->StartNode_run_id == run
            &&& commands[1]->InstallPlan_nodes[0].id == commands[2]->StartNode_node_id
            &&& commands[1]->InstallPlan_nodes[0].title == goal
        }),
{
    crate::plan_laws::law_single_nodes_wait_for_nobody(goal);
}

/// What is asked for is shown with the call, the permission and the risk that the request names; what
/// it does not name is the action itself, and a medium risk.
pub proof fn law_requests_are_shown_with_what_they_ask(
    id: Seq<char>,
    action: Seq<char>,
    reason: Seq<char>,
    call: Seq<char>,
    permission: JsonView,
    risk: Seq<char>,
    plan: PlanModel,
)
    ensures
        permission_event(id, action, reason, None) == (EventView::PermissionRequested {
            approval_id: id,
            invocation_id: None,
            action,
            risk: "medium"@,
            reason,
        }),
        permission_event(
            id,
            action,
            reason,
            Some(
                JsonView::Object(
                    seq![
                        ("permission"@, permission),
                        ("risk"@, JsonView::Text(risk)),
                        ("toolInvocationId"@, JsonView::Text(call)),
                    ],
                ),
            ),
        ) == (EventView::PermissionRequested {
            approval_id: id,
            invocation_id: Some(call),
            action: crate::json::json_text(permission),
            risk,
            reason,
        }),
        ({
            let asked = DomainView::ApprovalRequested { approval_id: id, action, reason };
            &&& shown_event(asked, metadata_of(asked), plan) == permission_event(
                id,
                action,
                reason,
                crate::json::json_parsed(action),
            )
            &&& priority_of_event(asked) is Critical
        }),
{
    reveal_with_fuel(crate::json::lookup, 4);
    reveal_strlit("permission");
    reveal_strlit("risk");
    reveal_strlit("toolInvocationId");
    assert("permission"@.len() == 10);
    assert("risk"@.len() == 4);
    assert("toolInvocationId"@.len() == 16);
    let members = seq![
        ("permission"@, permission),
        ("risk"@, JsonView::Text(risk)),
        ("toolInvocationId"@, JsonView::Text(call)),
    ];
    assert(members.drop_first()[0] == members[1]);
    assert(members.drop_first().drop_first()[0] == members[2]);
}

/// What changes the plan is shown with the counts of the plan.
pub proof fn law_changes_are_shown_with_their_counts(
    event: DomainView,
    metadata: Option<JsonView>,
    plan: PlanModel,
)
    requires
        !(event is MissionCreated || event is ApprovalRequested || event is ApprovalResolved),
        0 <= plan.accepted <= usize::MAX,
        0 <= plan.running <= usize::MAX,
        0 <= plan.pending <= usize::MAX,
        0 <= plan.blocked <= usize::MAX,
    ensures
        shown_event(event, metadata, plan) matches EventView::PlanChanged {
            accepted,
            running,
            pending,
            blocked,
        } && accepted == plan.accepted && running == plan.running && pending == plan.pending
            && blocked == plan.blocked,
        priority_of_event(event) is Normal,
{
}

/// Who asks for traces gets one for every event that has none; nothing else of where it belongs
/// changes.
pub proof fn law_events_are_traced_once(scope: ScopeView, enabled: bool, fresh: Seq<char>)
    ensures
        ({
            let after = traced(scope, enabled, fresh);
            &&& after.session_id == scope.session_id && after.mission_id == scope.mission_id
            &&& scope.trace_id is Some || !enabled ==> after == scope
            &&& scope.trace_id is None && enabled ==> after.trace_id == Some(fresh)
        }),
{
}

/// The plan that is shown is the one of the active mission; without a mission it is empty.
pub proof fn law_the_active_plan_is_shown(s: AppView, mission: Option<MissionView>)
    ensures
        ({
            let shown = plan_shown(s, mission);
            &&& s.active_mission_id is None || mission is None ==> shown.mission_id is None
                && shown.status is None && shown.accepted == 0 && shown.running == 0
                && shown.pending == 0 && shown.blocked == 0
            &&& s.active_mission_id is Some ==> (mission matches Some(m) ==> shown
                == crate::plans::plan_of(m))
        }),
{
}

/// What is remembered says what it was told, and where it came from; without a memory nothing can be
/// remembered.
pub proof fn law_memories_point_back(
    s: AppView,
    has_memory: bool,
    kind: MemoryKindView,
    title: Seq<char>,
    content: Seq<char>,
    tags: Seq<Seq<char>>,
    id: Seq<char>,
    m: MeetingView,
    n: i64,
)
    ensures
        session_memory(s, has_memory, kind, title, content, tags, id) is Done <==> has_memory,
        session_memory(s, has_memory, kind, title, content, tags, id) matches Outcome::Done(x) ==> x.id
            == id && x.kind == kind && x.title == title && x.content == content && x.tags == tags
            && x.source_ref == Some(s.session_id),
        meeting_memory(m, id).id == id,
        meeting_memory(m, id).source_ref == Some(m.id),
        meeting_memory(m, id).title == m.topic,
        match number_json(n) {
            JsonView::Unsigned(k) => k == n,
            JsonView::Negative(k) => k == n && n < 0,
            _ => false,
        },
{
}

} // verus!
