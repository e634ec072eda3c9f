//! Who works in a wave of a team, on what, with which tools, and with what the others have found out.

use vstd::prelude::*;

use crate::application::{AppView, PreparedView};
use crate::error::Outcome;
use crate::exchange::ToolView;
use crate::execution::{RequestView, WorkingView};
use crate::mission::{ClaimedEffectView, EffectView, MissionView};
use crate::result_laws::can_be_run;
use crate::roles::AgentRole;
use crate::scheduling::{is_schedule, BatchView, Limits, RunView, Weights};
use crate::scheduling_laws::by_priority;
use crate::staffing::AssignmentView;
use crate::state_store::SessionView;
use crate::text::{contains_text, is_blank_text, joined};
use crate::turn_laws::held_at;
use crate::waves::{
    assignment_costs, at_work, cost_of, dependency_lines, empty_team, enlisted, first_effect,
    given_priorities, given_priority, is_next_wave, may_call, mustered, permitted,
    ready_assignments, recovery_check, research_asked, role_request, run_endpoint, tools_query,
    with_dependencies, DescriptorView,
};

verus! {

/// A task costs what its agent costs, and one unit if nobody knows; each task is counted under its own
/// name.
pub proof fn law_tasks_cost_what_their_agents_cost(s: AppView, assignments: Seq<AssignmentView>, i: int)
    requires
        0 <= i < assignments.len(),
        forall|j: int|
            i < j < assignments.len() ==> (#[trigger] assignments[j]).task_id
                != assignments[i].task_id,
    ensures
        ({
            let a = assignments[i];
            let costs = assignment_costs(s, assignments);
            &&& costs.contains_key(a.task_id)
            &&& costs[a.task_id] == match s.agent_catalog {
                Some(c) if c.contains_key(a.agent_id) =>
                    c[a.agent_id].definition.cost_weight as u64,
                _ => 1,
            }
        }),
    decreases assignments.len(),
{
    let before = assignments.drop_last();
    if i < before.len() {
        assert(assignments[assignments.len() - 1].task_id != assignments[i].task_id);
        assert forall|j: int| i < j < before.len() implies (#[trigger] before[j]).task_id
            != before[i].task_id by {
            assert(before[j] == assignments[j]);
        }
        law_tasks_cost_what_their_agents_cost(s, before, i);
    }
}

/// Every task that is looked at has the priority that it was given, and nought if it was given none.
pub proof fn law_priorities_are_as_given(
    s: AppView,
    mission: Seq<char>,
    tasks: Seq<Seq<char>>,
    task: Seq<char>,
)
    ensures
        given_priorities(s, mission, tasks).contains_key(task) <==> tasks.contains(task),
        tasks.contains(task) ==> given_priorities(s, mission, tasks)[task] == given_priority(
            s,
            mission,
            task,
        ),
        s.agent_state is None ==> given_priority(s, mission, task) == 0,
        s.agent_state matches Some(st) ==> given_priority(s, mission, task) == if st.controls.contains_key(
            mission,
        ) && st.controls[mission].contains_key(task) {
            st.controls[mission][task].priority
        } else {
            0
        },
    decreases tasks.len(),
{
    if tasks.len() > 0 {
        let before = tasks.drop_last();
        law_priorities_are_as_given(s, mission, before, task);
        assert(tasks[tasks.len() - 1] == tasks.last());
        if before.contains(task) {
            let i = before.index_of(task);
            assert(tasks[i] == task);
        }
        if tasks.contains(task) && tasks.last() != task {
            let i = tasks.index_of(task);
            assert(before[i] == task);
        }
    }
}

/// A wave is made of tasks that are ready, each for the agent of its node; of those with the highest
/// priorities, no more than may work side by side, and for no more than a mission may cost. There is
/// no wave without a model, and none if nothing is ready or nothing can be paid.
pub proof fn law_waves_are_made_of_what_is_ready(
    s: AppView,
    m: MissionView,
    mission: Seq<char>,
    ready: Seq<Seq<char>>,
    result: Outcome<Seq<RunView>>,
)
    requires
        is_next_wave(s, m, mission, ready, result),
    ensures
        !s.model_ready || ready.len() == 0 ==> result is Failed,
        result matches Outcome::Done(runs) ==> {
            &&& s.model_ready
            &&& 0 < runs.len() <= s.agent_budget_policy.max_parallel_agents
            &&& held_at(u64::MAX as int, crate::scheduling::cost_of(runs)) <= s.mode_profile.max_cost_units
            &&& by_priority(runs)
            &&& forall|i: int|
                0 <= i < runs.len() ==> ready.contains((#[trigger] runs[i]).task_id)
                    && runs[i].agent_id == m.nodes[runs[i].task_id].agent_definition_id
        },
{
    if let Outcome::Done(runs) = result {
        let assignments = ready_assignments(m, ready);
        let w = Weights {
            priorities: given_priorities(s, mission, ready),
            wait_cycles: Map::empty(),
            estimated_costs: assignment_costs(s, assignments),
        };
        let limits = Limits {
            concurrency: s.agent_budget_policy.max_parallel_agents as nat,
            cancelled: Set::empty(),
            max_cost: s.mode_profile.max_cost_units,
        };
        let batch = choose|batch: BatchView|
            #![trigger batch.runs]
            is_schedule(ready, assignments, w, limits, batch) && result == if batch.runs.len()
                == 0 {
                crate::error::failure(
                    "agent-cost-budget-exhausted"@,
                    crate::text::decimal(s.mode_profile.max_cost_units as nat),
                )
            } else {
                Outcome::Done(batch.runs)
            };
        crate::scheduling_laws::law_schedules_answer_everybody(
            ready,
            assignments,
            w,
            limits,
            batch,
        );
        crate::scheduling_laws::law_candidates_are_ready_and_staffed(ready, assignments, w);
        let all = crate::scheduling::candidates(ready, assignments, w);
        let staffed = |task: Seq<char>| crate::scheduling_laws::has_agent(assignments, task);
        assert forall|i: int| 0 <= i < runs.len() implies ready.contains(
            (#[trigger] runs[i]).task_id,
        ) && runs[i].agent_id == m.nodes[runs[i].task_id].agent_definition_id by {
            assert(all.contains(batch.runs[i]));
            let k = all.index_of(batch.runs[i]);
            assert(all[k] == runs[i]);
            let tasks = all.map_values(|r: RunView| r.task_id);
            assert(tasks[k] == runs[i].task_id);
            assert(ready.filter(staffed).contains(runs[i].task_id));
            ready.lemma_filter_contains_rev(staffed, runs[i].task_id);
            lemma_filter_within(ready, staffed, runs[i].task_id);
            let a = choose|a: int|
                0 <= a < assignments.len() && (#[trigger] assignments[a]).task_id
                    == runs[i].task_id && assignments[a].agent_id == runs[i].agent_id && forall|
                    l: int,
                |
                    a < l < assignments.len() ==> (#[trigger] assignments[l]).task_id
                        != runs[i].task_id;
            assert(assignments[a].agent_id == m.nodes[ready[a]].agent_definition_id);
        }
    }
}

proof fn lemma_filter_within(all: Seq<Seq<char>>, keep: spec_fn(Seq<char>) -> bool, x: Seq<char>)
    requires
        all.filter(keep).contains(x),
    ensures
        all.contains(x),
    decreases all.len(),
{
    reveal(Seq::filter);
    if all.len() > 0 {
        let before = all.drop_last();
        assert(all[all.len() - 1] == all.last());
        if before.filter(keep).contains(x) {
            lemma_filter_within(before, keep, x);
            let i = before.index_of(x);
            assert(all[i] == x);
        } else {
            let kept = all.filter(keep);
            let i = kept.index_of(x);
            if i < before.filter(keep).len() {
                assert(before.filter(keep)[i] == x);
            }
            assert(x == all.last());
        }
    }
}

/// The effect that is looked for is the first one of the mission that starts the run, or that goes on
/// with it, as it is asked.
pub proof fn law_the_first_effect_of_a_run_is_found(
    entries: Seq<EffectView>,
    mission: Seq<char>,
    run: Seq<char>,
    start: bool,
    resume: bool,
)
    ensures
        match first_effect(entries, mission, run, start, resume) {
            None => forall|i: int|
                0 <= i < entries.len() ==> !is_wanted(
                    #[trigger] entries[i],
                    mission,
                    run,
                    start,
                    resume,
                ),
            Some(id) => exists|i: int|
                0 <= i < entries.len() && is_wanted(
                    #[trigger] entries[i],
                    mission,
                    run,
                    start,
                    resume,
                ) && entries[i].effect_id == id && forall|j: int|
                    0 <= j < i ==> !is_wanted(#[trigger] entries[j], mission, run, start, resume),
        },
    decreases entries.len(),
{
    if entries.len() > 0 {
        let before = entries.drop_last();
        law_the_first_effect_of_a_run_is_found(before, mission, run, start, resume);
        assert forall|j: int| 0 <= j < before.len() implies before[j] == #[trigger] entries[j] by {}
        match first_effect(before, mission, run, start, resume) {
            Some(id) => {
                let i = choose|i: int|
                    0 <= i < before.len() && is_wanted(
                        #[trigger] before[i],
                        mission,
                        run,
                        start,
                        resume,
                    ) && before[i].effect_id == id && forall|j: int|
                        0 <= j < i ==> !is_wanted(
                            #[trigger] before[j],
                            mission,
                            run,
                            start,
                            resume,
                        );
                assert(is_wanted(entries[i], mission, run, start, resume));
                assert forall|j: int| 0 <= j < i implies !is_wanted(
                    #[trigger] entries[j],
                    mission,
                    run,
                    start,
                    resume,
                ) by {
                    assert(!is_wanted(before[j], mission, run, start, resume));
                }
            },
            None => {
                assert forall|j: int| 0 <= j < before.len() implies !is_wanted(
                    #[trigger] entries[j],
                    mission,
                    run,
                    start,
                    resume,
                ) by {
                    assert(!is_wanted(before[j], mission, run, start, resume));
                }
                assert(entries[entries.len() - 1] == entries.last());
            },
        }
    }
}

/// An effect of a mission that starts a run, or that goes on with it.
pub open spec fn is_wanted(
    e: EffectView,
    mission: Seq<char>,
    run: Seq<char>,
    start: bool,
    resume: bool,
) -> bool {
    &&& e.mission_id == mission
    &&& (start && e.intent is StartAgentRun && e.intent->StartAgentRun_run_id == run) || (resume
        && e.intent is ResumeAgentRun && e.intent->ResumeAgentRun_run_id == run)
}

/// A node that has come to something.
pub open spec fn has_result(m: MissionView) -> spec_fn(Seq<char>) -> bool {
    |id: Seq<char>| m.nodes.contains_key(id) && m.nodes[id].output_summary is Some
}

pub open spec fn result_line(m: MissionView) -> spec_fn(Seq<char>) -> Seq<char> {
    |id: Seq<char>| "- "@ + id + ": "@ + m.nodes[id].output_summary->Some_0
}

/// An agent is told what every node came to that its own one waited for, one line for each, in their
/// order; nothing is told of a node that came to nothing.
pub proof fn law_agents_are_told_what_they_waited_for(m: MissionView, waited: Seq<Seq<char>>)
    ensures
        dependency_lines(m, waited) == waited.filter(has_result(m)).map_values(result_line(m)),
    decreases waited.len(),
{
    reveal(Seq::filter);
    if waited.len() > 0 {
        law_agents_are_told_what_they_waited_for(m, waited.drop_last());
        if has_result(m)(waited.last()) {
            assert(waited.filter(has_result(m)).map_values(result_line(m))
                =~= waited.drop_last().filter(has_result(m)).map_values(result_line(m)).push(
                result_line(m)(waited.last()),
            ));
        }
    } else {
        assert(waited.filter(has_result(m)).map_values(result_line(m)) =~= Seq::<
            Seq<char>,
        >::empty());
    }
}

/// What an agent is told besides comes at the end of its context, which then costs so much more and is
/// known by another fingerprint. If there is nothing to tell, nothing changes.
pub proof fn law_contexts_grow_by_what_is_told(c: WorkingView, told: Seq<char>, tokens: u32)
    ensures
        ({
            let after = with_dependencies(c, told, tokens);
            &&& told.len() == 0 ==> after == c
            &&& told.len() > 0 ==> {
                &&& after.dynamic_context == c.dynamic_context + (
                "\n<dependency-results>\n"@ + told + "\n</dependency-results>"@)
                &&& after.token_cost == held_at(u32::MAX as int, c.token_cost + tokens)
                &&& after.fingerprint == crate::digest::text_hash(
                    c.stable_instructions + "\n"@ + after.dynamic_context,
                )
                &&& after == (WorkingView {
                    dynamic_context: after.dynamic_context,
                    token_cost: after.token_cost,
                    fingerprint: after.fingerprint,
                    ..c
                })
            }
        }),
{
}

/// An agent is offered those of the tools that it may call, all of them, in their order, as they are
/// described.
pub proof fn law_agents_are_offered_all_they_may_call(
    tools: Seq<DescriptorView>,
    allowed: Set<Seq<char>>,
)
    ensures
        permitted(tools, allowed) == tools.filter(
            |d: DescriptorView| may_call(d.canonical_name, allowed),
        ).map_values(
            |d: DescriptorView|
                ToolView {
                    name: d.canonical_name,
                    description: d.description,
                    input_schema: d.input_schema,
                    strict: true,
                },
        ),
    decreases tools.len(),
{
    reveal(Seq::filter);
    let may = |d: DescriptorView| may_call(d.canonical_name, allowed);
    let shown = |d: DescriptorView|
        ToolView {
            name: d.canonical_name,
            description: d.description,
            input_schema: d.input_schema,
            strict: true,
        };
    if tools.len() > 0 {
        law_agents_are_offered_all_they_may_call(tools.drop_last(), allowed);
        if may(tools.last()) {
            assert(tools.filter(may).map_values(shown) =~= tools.drop_last().filter(may).map_values(
                shown,
            ).push(shown(tools.last())));
        }
    } else {
        assert(tools.filter(may).map_values(shown) =~= Seq::<ToolView>::empty());
    }
}

/// Who is allowed nothing may call nothing, and who is allowed more may call no less. A process needs
/// the leave to run one; whatever writes, applies or patches needs the leave to write files; a browser
/// or a network the leave to read it; and all else at least one of the leaves to read.
pub proof fn law_calls_need_leave(name: Seq<char>, allowed: Set<Seq<char>>, more: Set<Seq<char>>)
    requires
        allowed.subset_of(more),
    ensures
        may_call(name, allowed) ==> may_call(name, more),
        !may_call(name, Set::<Seq<char>>::empty()),
        name == "process.run"@ ==> (may_call(name, allowed) <==> allowed.contains(
            "process.run"@,
        )),
        name != "process.run"@ && (contains_text(name, "write"@) || contains_text(name, "apply"@)
            || contains_text(name, "patch"@)) ==> (may_call(name, allowed) <==> allowed.contains(
            "file.write"@,
        )),
        may_call(name, allowed) && name != "process.run"@ && !contains_text(name, "write"@)
            && !contains_text(name, "apply"@) && !contains_text(name, "patch"@)
            ==> allowed.contains("repository.read"@) || (contains_text(name, "diff"@)
            && allowed.contains("diff.read"@)) || (contains_text(name, "lsp"@) && allowed.contains(
            "lsp.read"@,
        )) || ((contains_text(name, "browser"@) || contains_text(name, "network"@)
            || contains_text(name, "http"@)) && allowed.contains("network.read"@)),
{
}

/// An agent that is allowed nothing is asked for no tools, nor is one where there are none; an agent
/// that is not known cannot be asked for.
pub proof fn law_tools_are_looked_for_if_allowed(
    s: AppView,
    agent: Seq<char>,
    role: AgentRole,
    query: Seq<char>,
)
    ensures
        ({
            let known = s.agent_catalog is Some && s.agent_catalog->Some_0.contains_key(agent);
            let allowed = s.agent_catalog->Some_0[agent].definition.allowed_tools;
            match tools_query(s, agent, role, query) {
                Outcome::Failed(e) => !known && e.message == agent,
                Outcome::Done(None) => known && (allowed == Set::<Seq<char>>::empty()
                    || !s.tools_ready),
                Outcome::Done(Some(asked)) => known && s.tools_ready && allowed != Set::<
                    Seq<char>,
                >::empty() && query.is_prefix_of(asked),
            }
        }),
{
    if let Outcome::Done(Some(asked)) = tools_query(s, agent, role, query) {
        assert(asked.subrange(0, query.len() as int) =~= query);
    }
}

/// What an agent is asked by its role can be run, as long as there is something to do and a context to
/// do it with, and a planner's context is not too long. It is given all that it is about, and two
/// minutes.
pub proof fn law_roles_are_asked_what_can_be_run(
    session: Seq<char>,
    mission: Seq<char>,
    task: Seq<char>,
    run: Seq<char>,
    parent: Option<Seq<char>>,
    endpoint: Seq<char>,
    agent: Seq<char>,
    role: AgentRole,
    objective: Seq<char>,
    now: i64,
    context: WorkingView,
    steering: Seq<Seq<char>>,
    tools: Seq<ToolView>,
)
    ensures
        ({
            let asked = role_request(
                session,
                mission,
                task,
                run,
                parent,
                endpoint,
                agent,
                role,
                objective,
                now,
                context,
                steering,
                tools,
            );
            let c = asked.contract;
            &&& can_be_run(asked) <==> !is_blank_text(objective) && !is_blank_text(
                context.fingerprint,
            ) && (role is Planner ==> context.token_cost <= 8192)
            &&& c.mission_id == mission && c.task_id == task && c.run_id == run
            &&& c.parent_run_id == parent && c.endpoint_id == endpoint
            &&& c.agent_definition_id == agent && c.role == role && c.objective == objective
            &&& 2 <= c.max_turns <= 4 && c.acceptance_criteria.len() == 1
            &&& c.deadline_millis == held_at(i64::MAX as int, now + 2 * 60 * 1000)
            &&& c.planning_budget is Some <==> role is Planner
            &&& asked.session_id == session && asked.context == context
            &&& asked.steering_messages == steering && asked.model_tools == tools
            &&& asked.model_continuation is None
        }),
{
}

/// An agent that does research is asked about its part in two turns, without tools.
pub proof fn law_research_can_be_run(
    mission: Seq<char>,
    prompt: Seq<char>,
    task: Seq<char>,
    run: Seq<char>,
    endpoint: Seq<char>,
    agent: Seq<char>,
    role: AgentRole,
    now: i64,
    context: WorkingView,
    steering: Seq<Seq<char>>,
)
    ensures
        ({
            let asked = research_asked(
                mission,
                prompt,
                task,
                run,
                endpoint,
                agent,
                role,
                now,
                context,
                steering,
            );
            let c = asked.contract;
            &&& c.mission_id == mission && c.task_id == task && c.run_id == run
            &&& c.endpoint_id == endpoint && c.agent_definition_id == agent && c.role == role
            &&& c.max_turns == 2 && c.deadline_millis == held_at(
                i64::MAX as int,
                now + 2 * 60 * 1000,
            )
            &&& prompt.is_prefix_of(c.objective) && contains_text(c.objective, task)
            &&& asked.session_id == "agent-session:"@ + run
            &&& asked.model_tools.len() == 0 && asked.context == context
            &&& asked.steering_messages == steering && asked.model_continuation is None
        }),
{
    let before = prompt + "\n你负责独立研究分片 "@;
    let after = "，返回可验证的简明结论。"@;
    let all = before + task + after;
    let at = before.len() as int;
    assert(all.subrange(at, at + task.len()) =~= task);
    assert(crate::text::occurs_at(all, task, at));
    assert(all.subrange(0, prompt.len() as int) =~= prompt);
}

/// The endpoint of a run is the one that the mission knows it by.
pub proof fn law_runs_have_one_endpoint(m: MissionView, run: Seq<char>)
    ensures
        run_endpoint(m, run) is Done <==> m.runs.contains_key(run),
        run_endpoint(m, run) matches Outcome::Done(id) ==> id == m.runs[run].endpoint_id,
        run_endpoint(m, run) matches Outcome::Failed(e) ==> e.message == run,
{
}

/// A team has the agents that joined it, in the order in which they did, with the effect that was
/// claimed for each; as many of them work side by side as may and are there.
pub proof fn law_teams_have_who_joined(
    p: PreparedView,
    request: RequestView,
    claimed: ClaimedEffectView,
    most: usize,
    now: i64,
)
    requires
        p.job.requests.len() < usize::MAX,
    ensures
        ({
            let run = request.contract.run_id;
            let joined = enlisted(p, request, claimed);
            &&& joined.job.requests == p.job.requests + seq![request]
            &&& joined.continuation.claimed_by_run == p.continuation.claimed_by_run.insert(
                run,
                claimed,
            )
            &&& joined.continuation.requests_by_run == p.continuation.requests_by_run.insert(
                run,
                request,
            )
            &&& joined.continuation.mission_id == p.continuation.mission_id
                && joined.continuation.prompt == p.continuation.prompt
            &&& mustered(joined, most, now) is Done <==> most > 0
            &&& mustered(p, most, now) is Done <==> most > 0 && p.job.requests.len() > 0
            &&& mustered(joined, most, now) matches Outcome::Done(team) ==> {
                &&& team.job.max_parallel == held_at(most as int, p.job.requests.len() + 1int)
                &&& team.job.started_at_millis == now
                &&& team.job.requests == joined.job.requests
                &&& team.continuation == joined.continuation
            }
        }),
{
    assert(p.job.requests.push(request) =~= p.job.requests + seq![request]);
}

/// Nobody belongs to a new team.
pub proof fn law_new_teams_are_empty(mission: Seq<char>, prompt: Seq<char>, run: Seq<char>)
    ensures
        ({
            let p = empty_team(mission, prompt);
            &&& p.job.requests.len() == 0
            &&& !p.continuation.claimed_by_run.contains_key(run)
            &&& !p.continuation.requests_by_run.contains_key(run)
            &&& p.continuation.mission_id == mission && p.continuation.prompt == prompt
        }),
{
}

/// A session of a mission that was at work when the program ended.
pub open spec fn was_at_work(mission: Seq<char>) -> spec_fn(SessionView) -> bool {
    |x: SessionView| x.mission_id == mission && (x.status is Prepared || x.status is Running)
}

/// A team is recovered from all sessions of the mission that were at work, in the order in which they
/// are recovered. A session goes on only if the mission says that its run is on at its node.
pub proof fn law_teams_are_recovered_from_work(
    sessions: Seq<SessionView>,
    mission: Seq<char>,
    m: MissionView,
    x: SessionView,
)
    ensures
        at_work(sessions, mission) == sessions.filter(was_at_work(mission)),
        match recovery_check(m, x) {
            Outcome::Done(node) => m.nodes.contains_key(x.task_id) && node == m.nodes[x.task_id]
                && node.status is Running && node.run_id == Some(x.run_id),
            Outcome::Failed(e) => !(m.nodes.contains_key(x.task_id) && m.nodes[x.task_id].status
                is Running && m.nodes[x.task_id].run_id == Some(x.run_id)),
        },
    decreases sessions.len(),
{
    reveal(Seq::filter);
    if sessions.len() > 0 {
        law_teams_are_recovered_from_work(sessions.drop_last(), mission, m, x);
    }
}

} // verus!
