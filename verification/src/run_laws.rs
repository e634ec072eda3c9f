//! What becomes of a run from its beginning to its end: what is set aside for it, who does it, what is
//! stored of it, and how it is stopped with everything that it has started.

use vstd::prelude::*;

use crate::application::AppView;
use crate::budget::{escrow_of, escrows_ok, AgentBudgetRequest, BudgetEscrowStatus};
use crate::cancellation::{
    cancel_step, children, finish_step, has_run, place_of_run, register_step, runs_ok, subtree,
    ControlView,
};
use crate::catalog::{active, catalog_ok};
use crate::error::Outcome;
use crate::execution::WorkingView;
use crate::mission::MissionView;
use crate::recovery::{interrupted, mission_after_restart, reconcile_one, status_after_restart};
use crate::runs::{
    adjust_step, begin_run_step, charge_step, finish_run_step, run_budget, set_fingerprint_step,
    set_response_step, set_status_step, working_role,
};
use crate::state_store::{
    create_endpoint_step, create_session_step, is_recovery, keyed_by_id, update_endpoint_step,
    update_session_step, AgentEndpointStatus, AgentSessionStatus, EndpointView, SessionView,
    StateView,
};
use crate::text::text_less;
use crate::turn_laws::held_at;

verus! {

/// A session is stored once, as it is given, and with the first version; a stored one is replaced by
/// whoever knows its version, which then is the next one. Nothing else that is stored changes, and
/// what is refused changes nothing.
pub proof fn law_sessions_are_stored_as_given(s: StateView, expected: u64, session: SessionView)
    ensures
        ({
            let (after, done) = create_session_step(s, session);
            &&& done is Done <==> session.version == 1 && !s.sessions.contains_key(session.id)
            &&& done is Failed ==> after == s
            &&& done is Done ==> after == (StateView { sessions: after.sessions, ..s })
                && after.sessions == s.sessions.insert(session.id, session)
        }),
        ({
            let (after, kept, done) = update_session_step(s, expected, session);
            &&& done is Done <==> s.sessions.contains_key(session.id)
                && s.sessions[session.id].version == expected
            &&& done is Failed ==> after == s
            &&& done is Done ==> after == (StateView { sessions: after.sessions, ..s })
                && after.sessions == s.sessions.insert(session.id, kept) && kept.version == held_at(
                u64::MAX as int,
                expected + 1,
            )
            &&& kept == (SessionView { version: kept.version, ..session })
        }),
{
}

/// The same holds of endpoints.
pub proof fn law_endpoints_are_stored_as_given(s: StateView, expected: u64, endpoint: EndpointView)
    ensures
        ({
            let (after, done) = create_endpoint_step(s, endpoint);
            &&& done is Done <==> endpoint.version == 1 && !s.endpoints.contains_key(endpoint.id)
            &&& done is Failed ==> after == s
            &&& done is Done ==> after == (StateView { endpoints: after.endpoints, ..s })
                && after.endpoints == s.endpoints.insert(endpoint.id, endpoint)
        }),
        ({
            let (after, kept, done) = update_endpoint_step(s, expected, endpoint);
            &&& done is Done <==> s.endpoints.contains_key(endpoint.id)
                && s.endpoints[endpoint.id].version == expected
            &&& done is Failed ==> after == s
            &&& done is Done ==> after == (StateView { endpoints: after.endpoints, ..s })
                && after.endpoints == s.endpoints.insert(endpoint.id, kept) && kept.version
                == held_at(u64::MAX as int, expected + 1)
            &&& kept == (EndpointView { version: kept.version, ..endpoint })
        }),
{
}

/// A session that has come to an end in one way or another.
pub open spec fn is_over(status: AgentSessionStatus) -> bool {
    status == AgentSessionStatus::Submitted || status == AgentSessionStatus::Completed || status
        == AgentSessionStatus::Cancelled || status == AgentSessionStatus::Failed
}

/// Every session that is not over is recovered, and no other one; the one that has rested longest
/// comes first.
pub proof fn law_what_is_not_over_is_recovered(
    sessions: Map<Seq<char>, SessionView>,
    all: Seq<SessionView>,
)
    requires
        keyed_by_id(sessions),
        is_recovery(sessions, all),
    ensures
        forall|id: Seq<char>| #[trigger]
            sessions.contains_key(id) ==> (all.contains(sessions[id]) <==> !is_over(
                sessions[id].status,
            )),
        forall|i: int|
            0 <= i < all.len() ==> sessions.contains_key((#[trigger] all[i]).id)
                && sessions[all[i].id] == all[i],
        forall|i: int, j: int|
            0 <= i < j < all.len() ==> (#[trigger] all[i]).updated_at_millis <= (
            #[trigger] all[j]).updated_at_millis && (all[i].updated_at_millis
                == all[j].updated_at_millis ==> text_less(all[i].id, all[j].id)),
{
    assert forall|id: Seq<char>| #[trigger] sessions.contains_key(id) implies (all.contains(
        sessions[id],
    ) <==> !is_over(sessions[id].status)) by {
        if all.contains(sessions[id]) {
            let i = all.index_of(sessions[id]);
            assert(all[i] == sessions[id]);
        }
    }
}

/// What is left of the agents when the program starts again: an endpoint begins a new generation under
/// a new instance with no run, offline if work of its agent was cut off; what was not known is made.
/// The mission of the work that was changed last is taken up if no other one is.
pub proof fn law_agents_start_again(
    s: StateView,
    d: crate::catalog::DefinitionView,
    sessions: Seq<SessionView>,
    instance: Seq<char>,
    now: i64,
    mission: Option<Seq<char>>,
)
    requires
        crate::recovery::endpoints_keyed(s),
    ensures
        ({
            let status = status_after_restart(interrupted(sessions), d.id);
            let (after, done) = reconcile_one(s, d, status, instance, now);
            let id = "endpoint:"@ + d.id;
            let e = after.endpoints[id];
            &&& done is Done
            &&& after == (StateView { endpoints: after.endpoints, ..s })
            &&& after.endpoints == s.endpoints.insert(id, e)
            &&& e.id == id && e.instance_id == instance && e.active_runs == 0
            &&& e.max_concurrency == d.max_concurrency && e.last_heartbeat_millis == now
            &&& e.status == AgentEndpointStatus::Offline || e.status == AgentEndpointStatus::Idle
            &&& e.status == AgentEndpointStatus::Offline <==> exists|i: int|
                0 <= i < sessions.len() && (#[trigger] sessions[i]).agent_definition_id == d.id
            &&& if s.endpoints.contains_key(id) {
                &&& e.definition_id == s.endpoints[id].definition_id
                &&& e.generation == held_at(u64::MAX as int, s.endpoints[id].generation + 1)
                &&& e.version == held_at(u64::MAX as int, s.endpoints[id].version + 1)
            } else {
                e.definition_id == d.id && e.generation == 1 && e.version == 1
            }
        }),
        mission is Some ==> mission_after_restart(mission, sessions) == mission,
        mission is None && sessions.len() == 0 ==> mission_after_restart(mission, sessions) is None,
        mission is None && sessions.len() > 0 ==> mission_after_restart(mission, sessions) == Some(
            sessions[sessions.len() - 1].mission_id,
        ),
{
    let agents = Seq::new(sessions.len(), |i: int| sessions[i].agent_definition_id);
    if agents.contains(d.id) {
        let i = agents.index_of(d.id);
        assert(sessions[i].agent_definition_id == d.id);
    }
    if exists|i: int| 0 <= i < sessions.len() && (#[trigger] sessions[i]).agent_definition_id == d.id {
        let i = choose|i: int|
            0 <= i < sessions.len() && (#[trigger] sessions[i]).agent_definition_id == d.id;
        assert(agents[i] == d.id);
    }
}

/// A new run is under control if it was not so before and the run that starts it, if there is one, is
/// and is not asked to stop. It stands at the end and nobody has asked it to stop.
pub proof fn law_runs_are_registered_once(
    runs: Seq<ControlView>,
    id: Seq<char>,
    parent: Option<Seq<char>>,
)
    requires
        runs_ok(runs),
    ensures
        ({
            let (after, done) = register_step(runs, id, parent);
            let known = exists|i: int| 0 <= i < runs.len() && (#[trigger] runs[i]).run_id == id;
            &&& done is Done <==> !known && (parent matches Some(p) ==> exists|i: int|
                0 <= i < runs.len() && (#[trigger] runs[i]).run_id == p && !runs[i].cancelled)
            &&& done is Failed ==> after == runs
            &&& done is Done ==> after == runs + seq![
                ControlView { run_id: id, parent, cancelled: false },
            ]
            &&& done matches Outcome::Failed(e) ==> if known {
                e.code == "run-control-exists"@ && e.message == id
            } else {
                e.message == parent->Some_0 && (e.code == "parent-run-cancelling"@ <==> exists|
                    i: int,
                |
                    0 <= i < runs.len() && (#[trigger] runs[i]).run_id == e.message)
            }
        }),
{
    reveal_strlit("parent-run-cancelling");
    reveal_strlit("parent-run-control-missing");
    assert("parent-run-cancelling"@.len() == 21);
    assert("parent-run-control-missing"@.len() == 26);
    assert(runs.push(ControlView { run_id: id, parent, cancelled: false }) =~= runs + seq![
        ControlView { run_id: id, parent, cancelled: false },
    ]);
    if let Some(p) = parent {
        if has_run(runs, p) {
            let at = place_of_run(runs, p);
            assert(runs[at].run_id == p);
        }
    }
}

/// Stopping a run asks it to stop, and every run whose starter is asked to stop by it, and no other
/// one; nothing else of any run changes. Nobody is let off who was asked before.
pub proof fn law_stopping_goes_down(runs: Seq<ControlView>, root: Seq<char>, i: int)
    requires
        runs_ok(runs),
        0 <= i < runs.len(),
    ensures
        ({
            let (after, done) = cancel_step(runs, root);
            let known = exists|k: int| 0 <= k < runs.len() && (#[trigger] runs[k]).run_id == root;
            let reached = |id: Seq<char>| subtree(runs, root).contains(id);
            &&& done is Done <==> known
            &&& done is Failed ==> after == runs
            &&& done is Done ==> {
                &&& after.len() == runs.len()
                &&& after[i] == (ControlView { cancelled: after[i].cancelled, ..runs[i] })
                &&& after[i].cancelled <==> runs[i].cancelled || reached(runs[i].run_id)
                &&& reached(runs[i].run_id) <==> runs[i].run_id == root || (runs[i].parent is Some
                    && reached(runs[i].parent->Some_0))
            }
        }),
{
    crate::cancellation::law_subtree_is_closed(runs, root, i);
}

pub open spec fn started_by(id: Seq<char>) -> spec_fn(ControlView) -> bool {
    |c: ControlView| c.parent == Some(id)
}

proof fn lemma_children_are_counted(runs: Seq<ControlView>, id: Seq<char>)
    ensures
        children(runs, id) == runs.filter(started_by(id)).len(),
    decreases runs.len(),
{
    reveal(Seq::filter);
    if runs.len() > 0 {
        lemma_children_are_counted(runs.drop_last(), id);
    }
}

/// A run ends if it is there and has started nothing that is still on; then it is gone, and the others
/// stand as they did.
pub proof fn law_runs_end_from_below(runs: Seq<ControlView>, id: Seq<char>, at: int)
    requires
        runs_ok(runs),
        0 <= at < runs.len(),
        runs[at].run_id == id,
    ensures
        ({
            let (after, done) = finish_step(runs, id);
            &&& done is Done <==> runs.filter(started_by(id)).len() == 0
            &&& done is Failed ==> after == runs && done->Failed_0.code
                == "run-has-active-children"@
            &&& done is Done ==> {
                &&& after.len() == runs.len() - 1
                &&& forall|i: int| 0 <= i < at ==> #[trigger] after[i] == runs[i]
                &&& forall|i: int| at <= i < after.len() ==> #[trigger] after[i] == runs[i + 1]
                &&& forall|i: int| 0 <= i < after.len() ==> (#[trigger] after[i]).run_id != id
            }
        }),
{
    lemma_children_are_counted(runs, id);
    let place = place_of_run(runs, id);
    assert(runs[place].run_id == runs[at].run_id);
    assert(place == at);
}

/// Writing something down of a run changes that of its session, when it was changed, and its version;
/// it cannot fail. A run without a session is left alone.
pub proof fn law_notes_on_a_run_change_one_session(
    s: AppView,
    run: Seq<char>,
    status: AgentSessionStatus,
    fingerprint: Seq<char>,
    response: Option<Seq<char>>,
    now: i64,
)
    requires
        s.agent_state matches Some(st) ==> keyed_by_id(st.sessions),
    ensures
        ({
            let id = "agent-session:"@ + run;
            let a = set_status_step(s, run, status, now);
            let b = set_fingerprint_step(s, run, fingerprint, now);
            let c = set_response_step(s, run, response, now);
            &&& a.1 is Done && b.1 is Done && c.1 is Done
            &&& (s.agent_state is None || !s.agent_state->Some_0.sessions.contains_key(id)) ==> a.0
                == s && b.0 == s && c.0 == s
            &&& s.agent_state matches Some(st) ==> st.sessions.contains_key(id) ==> {
                let before = st.sessions[id];
                let version = held_at(u64::MAX as int, before.version + 1) as u64;
                &&& a.0 == (AppView {
                    agent_state: Some(
                        StateView {
                            sessions: st.sessions.insert(
                                id,
                                SessionView { status, updated_at_millis: now, version, ..before },
                            ),
                            ..st
                        },
                    ),
                    ..s
                })
                &&& b.0 == (AppView {
                    agent_state: Some(
                        StateView {
                            sessions: st.sessions.insert(
                                id,
                                SessionView {
                                    context_fingerprint: fingerprint,
                                    updated_at_millis: now,
                                    version,
                                    ..before
                                },
                            ),
                            ..st
                        },
                    ),
                    ..s
                })
                &&& c.0 == (AppView {
                    agent_state: Some(
                        StateView {
                            sessions: st.sessions.insert(
                                id,
                                SessionView {
                                    previous_response_id: response,
                                    updated_at_millis: now,
                                    version,
                                    ..before
                                },
                            ),
                            ..st
                        },
                    ),
                    ..s
                })
            }
        }),
{
}

/// Counting a run in at an endpoint makes it busy with one run more; counting one out makes it idle
/// when no run is left. One counted in and then out leaves as many as there were.
pub proof fn law_endpoints_count_their_runs(
    s: AppView,
    agent: Seq<char>,
    now: i64,
    later: i64,
)
    requires
        s.agent_state matches Some(st) && crate::recovery::endpoints_keyed(st)
            && st.endpoints.contains_key("endpoint:"@ + agent),
    ensures
        ({
            let id = "endpoint:"@ + agent;
            let e = s.agent_state->Some_0.endpoints[id];
            let (on, r1) = adjust_step(s, agent, true, now);
            let (off, r2) = adjust_step(s, agent, false, now);
            let (back, r3) = adjust_step(on, agent, false, later);
            let e1 = on.agent_state->Some_0.endpoints[id];
            let e2 = off.agent_state->Some_0.endpoints[id];
            let e3 = back.agent_state->Some_0.endpoints[id];
            &&& r1 is Done && r2 is Done && r3 is Done
            &&& e1.active_runs == held_at(usize::MAX as int, e.active_runs + 1)
            &&& e1.status == AgentEndpointStatus::Busy && e1.last_heartbeat_millis == now
            &&& e.active_runs > 0 ==> e2.active_runs == e.active_runs - 1
            &&& e.active_runs == 0 ==> e2.active_runs == 0
            &&& e2.status == if e.active_runs <= 1 {
                AgentEndpointStatus::Idle
            } else {
                AgentEndpointStatus::Busy
            }
            &&& e2.last_heartbeat_millis == now
            &&& e.active_runs < usize::MAX ==> e3.active_runs == e.active_runs
            &&& e1.generation == e.generation && e1.definition_id == e.definition_id
                && e1.max_concurrency == e.max_concurrency && e1.instance_id == e.instance_id
            &&& e2.generation == e.generation && e2.definition_id == e.definition_id
                && e2.max_concurrency == e.max_concurrency && e2.instance_id == e.instance_id
            &&& on.agent_state->Some_0.sessions == s.agent_state->Some_0.sessions
            &&& on.agent_catalog == s.agent_catalog && on.agent_budgets == s.agent_budgets
            &&& on.run_controls == s.run_controls
        }),
{
}

/// For a run the tokens of its context and of an answer are set aside, and never less than the least.
pub proof fn law_runs_get_enough(token_cost: u32)
    ensures
        ({
            let b: AgentBudgetRequest = run_budget(token_cost);
            &&& b.reserved_tokens >= token_cost + 4096 && b.reserved_tokens >= 8192
            &&& b.reserved_tokens == token_cost + 4096 || b.reserved_tokens == 8192
            &&& b.reserved_tool_calls == 16
            &&& b.reserved_runtime_millis == 2 * 60 * 1000
            &&& b.reserved_retries == 1
        }),
{
}

/// A run that begins is done by the agent of its node, in the first of that agent's roles; it is under
/// control, has an escrow if budgets are kept, its agent has one active instance more, and its session
/// is on with the context that it was given. Of what it is not about, nothing changes.
pub proof fn law_a_run_begins_with_all_it_needs(
    s: AppView,
    mission: MissionView,
    mission_id: Seq<char>,
    node: Seq<char>,
    run: Seq<char>,
    context: WorkingView,
    now: i64,
)
    requires
        s.agent_state matches Some(st) ==> keyed_by_id(st.sessions)
            && crate::recovery::endpoints_keyed(st),
        s.agent_catalog matches Some(c) ==> catalog_ok(c),
        s.agent_budgets matches Some(rows) ==> escrows_ok(rows),
        begin_run_step(s, mission, mission_id, node, run, context, now).1 is Done,
    ensures
        ({
            let (after, done) = begin_run_step(s, mission, mission_id, node, run, context, now);
            let (agent, role) = done->Done_0;
            let id = "agent-session:"@ + run;
            let anew = !has_run(s.run_controls, run);
            &&& mission.nodes.contains_key(node)
            &&& agent == mission.nodes[node].agent_definition_id
            &&& role == working_role(s, agent)
            &&& has_run(after.run_controls, run)
            &&& anew ==> after.run_controls == s.run_controls + seq![
                ControlView { run_id: run, parent: None, cancelled: false },
            ]
            &&& !anew ==> after.run_controls == s.run_controls && after.agent_catalog
                == s.agent_catalog
            &&& after.agent_budgets matches Some(rows) ==> escrow_of(rows, run) is Some
            &&& after.agent_budgets is Some <==> s.agent_budgets is Some
            &&& s.agent_budgets matches Some(rows) ==> (escrow_of(rows, run) is None ==> {
                let e = escrow_of(after.agent_budgets->Some_0, run)->Some_0;
                &&& e.mission_id == mission_id && e.run_id == run
                &&& e.status == BudgetEscrowStatus::Active
                &&& e.consumed_tokens == 0 && e.consumed_tool_calls == 0
                &&& e.reserved_tokens == if context.token_cost <= 4096 {
                    8192
                } else {
                    context.token_cost + 4096
                }
                &&& e.reserved_tool_calls == 16 && e.reserved_retries == 1
                &&& e.expires_at_millis == held_at(i64::MAX as int, now + 2 * 60 * 1000)
            })
            &&& s.agent_state matches Some(st) ==> (anew && st.endpoints.contains_key(
                "endpoint:"@ + agent,
            ) ==> {
                let x = after.agent_state->Some_0.endpoints["endpoint:"@ + agent];
                &&& x.active_runs == held_at(
                    usize::MAX as int,
                    st.endpoints["endpoint:"@ + agent].active_runs + 1,
                )
                &&& x.status == AgentEndpointStatus::Busy
            })
            &&& s.agent_catalog matches Some(c) ==> (anew && c.contains_key(agent) ==> {
                &&& active(after.agent_catalog->Some_0, agent) == active(c, agent) + 1
                &&& active(c, agent) < c[agent].definition.max_concurrency
            })
            &&& s.agent_state matches Some(st) ==> {
                let x = after.agent_state->Some_0.sessions[id];
                &&& after.agent_state->Some_0.sessions.contains_key(id)
                &&& x.status == AgentSessionStatus::Running
                &&& x.context_fingerprint == context.fingerprint
                &&& x.updated_at_millis == now
                &&& !st.sessions.contains_key(id) ==> x.run_id == run && x.task_id == node
                    && x.mission_id == mission_id && x.agent_definition_id == agent && x.role
                    == role && x.created_at_millis == now && x.version == 1
                    && mission.runs.contains_key(run) && x.endpoint_id
                    == mission.runs[run].endpoint_id
                &&& st.sessions.contains_key(id) ==> x.created_at_millis
                    == st.sessions[id].created_at_millis && x.previous_response_id
                    == st.sessions[id].previous_response_id
                &&& after.agent_state->Some_0.results == st.results
                &&& after.agent_state->Some_0.controls == st.controls
            }
            &&& after == (AppView {
                agent_budgets: after.agent_budgets,
                run_controls: after.run_controls,
                agent_catalog: after.agent_catalog,
                agent_state: after.agent_state,
                ..s
            })
        }),
{
    let agent = mission.nodes[node].agent_definition_id;
    assert(s.run_controls.push(ControlView { run_id: run, parent: None, cancelled: false })
        =~= s.run_controls + seq![ControlView { run_id: run, parent: None, cancelled: false }]);
    let all = s.run_controls.push(ControlView { run_id: run, parent: None, cancelled: false });
    assert(all[all.len() - 1].run_id == run);
    if let Some(rows) = s.agent_budgets {
        let request = run_budget(context.token_cost);
        let policy = s.agent_budget_policy;
        if forall|i: int| 0 <= i < rows.len() ==> (#[trigger] rows[i]).run_id != run {
            crate::budget_laws::law_reserving_fits_the_policy(
                rows,
                mission_id,
                run,
                request,
                policy,
                now,
            );
        } else {
            let i = choose|i: int| 0 <= i < rows.len() && (#[trigger] rows[i]).run_id == run;
            crate::budget::lemma_place_of_run(rows, run);
            assert(escrow_of(rows, run) is Some);
            if crate::budget_laws::is_sensible(request, policy) {
                crate::budget_laws::law_a_run_has_one_escrow(
                    rows,
                    mission_id,
                    run,
                    i,
                    request,
                    policy,
                    now,
                );
                let after = crate::budget::reserve_budget(
                    rows,
                    mission_id,
                    run,
                    request,
                    policy,
                    now,
                ).0;
                assert(after[i].run_id == run);
                crate::budget::lemma_place_of_run(after, run);
            }
        }
    }
}

/// A run that ends is no longer under control; its agent has one active instance less and its escrow,
/// if it was active, ends in the way that is told. What was stored of sessions stays.
pub proof fn law_a_run_ends_with_all_it_had(
    s: AppView,
    agent: Seq<char>,
    run: Seq<char>,
    status: BudgetEscrowStatus,
    now: i64,
)
    requires
        runs_ok(s.run_controls),
        s.agent_budgets matches Some(rows) ==> escrows_ok(rows),
        finish_run_step(s, agent, run, status, now).1 is Done,
    ensures
        ({
            let after = finish_run_step(s, agent, run, status, now).0;
            &&& !has_run(after.run_controls, run)
            &&& !has_run(s.run_controls, run) ==> after.run_controls == s.run_controls
            &&& s.agent_catalog matches Some(c) ==> active(after.agent_catalog->Some_0, agent)
                == if active(c, agent) == 0 {
                0int
            } else {
                active(c, agent) - 1
            }
            &&& s.agent_state matches Some(st) ==> after.agent_state->Some_0.sessions == st.sessions
                && after.agent_state->Some_0.results == st.results
            &&& after == (AppView {
                agent_budgets: after.agent_budgets,
                run_controls: after.run_controls,
                agent_catalog: after.agent_catalog,
                agent_state: after.agent_state,
                ..s
            })
        }),
        forall|i: int|
            s.agent_budgets is Some && 0 <= i < s.agent_budgets->Some_0.len() && (
            #[trigger] s.agent_budgets->Some_0[i]).run_id == run ==> {
                let e = s.agent_budgets->Some_0[i];
                let x = finish_run_step(s, agent, run, status, now).0.agent_budgets->Some_0[i];
                &&& x.consumed_tokens == e.consumed_tokens
                &&& x.status == if e.status == BudgetEscrowStatus::Active {
                    status
                } else {
                    e.status
                }
            },
{
    if has_run(s.run_controls, run) {
        let at = place_of_run(s.run_controls, run);
        law_runs_end_from_below(s.run_controls, run, at);
    }
    if let Some(rows) = s.agent_budgets {
        assert forall|i: int| 0 <= i < rows.len() && (#[trigger] rows[i]).run_id == run implies {
            let e = rows[i];
            let x = finish_run_step(s, agent, run, status, now).0.agent_budgets->Some_0[i];
            &&& x.consumed_tokens == e.consumed_tokens
            &&& x.status == if e.status == BudgetEscrowStatus::Active {
                status
            } else {
                e.status
            }
        } by {
            crate::budget::lemma_place_of_run(rows, run);
            crate::budget_laws::law_releasing_ends_one_escrow(rows, run, i, status);
        }
    }
}

/// What a run has used is charged to its own escrow; without a run, or where no budgets are kept,
/// nothing is.
pub proof fn law_use_is_charged_to_the_run(
    s: AppView,
    run: Option<Seq<char>>,
    tokens: u64,
    tool_calls: u64,
    now: i64,
    i: int,
)
    requires
        s.agent_budgets matches Some(rows) ==> escrows_ok(rows) && 0 <= i < rows.len(),
    ensures
        ({
            let (after, done) = charge_step(s, run, tokens, tool_calls, now);
            &&& after == (AppView { agent_budgets: after.agent_budgets, ..s })
            &&& run is None || s.agent_budgets is None ==> after == s && done is Done
            &&& (s.agent_budgets matches Some(rows) && run is Some) ==> {
                let e = s.agent_budgets->Some_0[i];
                let x = after.agent_budgets->Some_0[i];
                &&& after.agent_budgets is Some
                &&& e.run_id != run->Some_0 ==> x == e
                &&& e.run_id == run->Some_0 && done is Done ==> x.consumed_tokens == held_at(
                    u64::MAX as int,
                    e.consumed_tokens + tokens,
                ) && x.consumed_tool_calls == held_at(
                    u64::MAX as int,
                    e.consumed_tool_calls + tool_calls,
                )
                &&& done is Failed ==> x.consumed_tokens == e.consumed_tokens
                    && x.consumed_tool_calls == e.consumed_tool_calls
            }
        }),
{
    if let Some(rows) = s.agent_budgets {
        if let Some(id) = run {
            if exists|j: int| 0 <= j < rows.len() && (#[trigger] rows[j]).run_id == id {
                let j = choose|j: int| 0 <= j < rows.len() && (#[trigger] rows[j]).run_id == id;
                crate::budget_laws::law_charges_are_spent(rows, id, j, tokens, tool_calls, now);
                assert(rows[i].run_id == id ==> i == j);
            } else {
                crate::budget_laws::law_unknown_runs_spend_nothing(
                    rows,
                    id,
                    tokens,
                    tool_calls,
                    now,
                    BudgetEscrowStatus::Failed,
                );
            }
        }
    }
}

} // verus!
