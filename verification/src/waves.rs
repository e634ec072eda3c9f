//! Waves: the runs of a mission that are started together, and what each of them is asked.

use vstd::prelude::*;
use vstd::string::*;

use crate::application::{
    AgentTeamContinuation, AgentTeamModelJob, AppView, HarnessApplication, JobView,
    PreparedAgentTeam, PreparedView, TeamView,
};
use crate::digest::{hash_text, text_hash};
use crate::error::{failure, list_outcome, outcome, ApplicationError, Outcome};
use crate::exchange::{ToolDefinition, ToolView};
use crate::execution::{
    default_planning, AgentExecutionRequest, AgentTaskContract, AgentWorkingContext, ContractView,
    PlanningBudget, RequestView, WorkingView,
};
use crate::json::{Json, JsonView};
use crate::messages::clamp_i64;
use crate::mission::{
    ClaimedEffect, ClaimedEffectView, EffectEntry, EffectIntent, EffectView, EventView,
    HarnessEvent, IntentView, MissionNode, MissionNodeView, MissionState, MissionView, NodeStatus,
};
use crate::model::{duplicate_all, duplicate_option, group_views, option_view, views, Duplicate};
use crate::ordered::{in_order, TextMap, TextSet};
use crate::roles::{
    role_acceptance_criteria, role_criterion, role_max_turns, role_name, role_name_text,
    role_terms, role_terms_text, turn_limit, AgentRole,
};
use crate::runs::{agent_session_id, session_of_run};
use crate::scheduling::{
    is_schedule, AgentScheduler, BatchView, Limits, RunView, ScheduledRun, Weights,
};
use crate::staffing::{AssignmentView, StaffingAssignment};
use crate::state_store::{
    is_recovery, priority_of, AgentSession, AgentSessionStatus, SessionView,
};
use crate::text::{
    contains, contains_text, decimal, decimal_of, join, joined, same, texts,
};

verus! {

/// What it costs to put an agent to work; one unit if it is not known.
pub open spec fn cost_of(s: AppView, agent: Seq<char>) -> u64 {
    match s.agent_catalog {
        Some(c) => if c.contains_key(agent) {
            c[agent].definition.cost_weight as u64
        } else {
            1
        },
        None => 1,
    }
}

/// The costs of the tasks, by the agents that they are assigned to.
pub open spec fn assignment_costs(s: AppView, assignments: Seq<AssignmentView>) -> Map<
    Seq<char>,
    u64,
>
    decreases assignments.len(),
{
    if assignments.len() == 0 {
        Map::empty()
    } else {
        assignment_costs(s, assignments.drop_last()).insert(
            assignments.last().task_id,
            cost_of(s, assignments.last().agent_id),
        )
    }
}

/// The priority that a task was given.
pub open spec fn given_priority(s: AppView, mission_id: Seq<char>, task: Seq<char>) -> i32 {
    match s.agent_state {
        Some(st) => priority_of(st, mission_id, task),
        None => 0,
    }
}

pub open spec fn given_priorities(
    s: AppView,
    mission_id: Seq<char>,
    tasks: Seq<Seq<char>>,
) -> Map<Seq<char>, i32>
    decreases tasks.len(),
{
    if tasks.len() == 0 {
        Map::empty()
    } else {
        given_priorities(s, mission_id, tasks.drop_last()).insert(
            tasks.last(),
            given_priority(s, mission_id, tasks.last()),
        )
    }
}

/// A node that the kernel has made ready goes to the agent of its plan.
pub open spec fn ready_assignment(m: MissionView, task: Seq<char>) -> AssignmentView {
    AssignmentView {
        task_id: task,
        agent_id: m.nodes[task].agent_definition_id,
        score: 0,
        reason_summary: "kernel-ready-node"@,
        catalog_fingerprint: "kernel-plan"@,
    }
}

pub open spec fn ready_assignments(m: MissionView, ready: Seq<Seq<char>>) -> Seq<AssignmentView> {
    Seq::new(ready.len(), |i: int| ready_assignment(m, ready[i]))
}

/// The runs that fit into a wave, or that none does.
pub open spec fn is_wave_of(
    s: AppView,
    mission_id: Seq<char>,
    ready: Seq<Seq<char>>,
    prioritised: Seq<Seq<char>>,
    assignments: Seq<AssignmentView>,
    concurrency: nat,
    result: Outcome<Seq<RunView>>,
) -> bool {
    exists|batch: BatchView|
        #![trigger batch.runs]
        is_schedule(
            ready,
            assignments,
            Weights {
                priorities: given_priorities(s, mission_id, prioritised),
                wait_cycles: Map::empty(),
                estimated_costs: assignment_costs(s, assignments),
            },
            Limits {
                concurrency,
                cancelled: Set::empty(),
                max_cost: s.mode_profile.max_cost_units,
            },
            batch,
        ) && result == if batch.runs.len() == 0 {
            failure(
                "agent-cost-budget-exhausted"@,
                decimal(s.mode_profile.max_cost_units as nat),
            )
        } else {
            Outcome::Done(batch.runs)
        }
}

pub open spec fn is_next_wave(
    s: AppView,
    m: MissionView,
    mission_id: Seq<char>,
    ready: Seq<Seq<char>>,
    result: Outcome<Seq<RunView>>,
) -> bool {
    if !s.model_ready {
        result == failure::<Seq<RunView>>(
            "model-runtime-missing"@,
            "Agent wave 需要 Model Runtime"@,
        )
    } else if ready.len() == 0 {
        result == failure::<Seq<RunView>>("agent-wave-not-ready"@, mission_id)
    } else {
        is_wave_of(
            s,
            mission_id,
            ready,
            ready,
            ready_assignments(m, ready),
            s.agent_budget_policy.max_parallel_agents as nat,
            result,
        )
    }
}

impl HarnessApplication {
    pub fn estimated_assignment_costs(&self, assignments: &Vec<StaffingAssignment>) -> (r: TextMap<
        u64,
    >)
        ensures
            r@ == assignment_costs(self@, views(assignments@)),
    {
        let ghost all = views(assignments@);
        let mut r: TextMap<u64> = TextMap::new();
        let mut i: usize = 0;
        assert(all.subrange(0, 0) =~= Seq::empty());
        while i < assignments.len()
            invariant
                i <= assignments.len(),
                all == views(assignments@),
                r@ == assignment_costs(self@, all.subrange(0, i as int)),
            decreases assignments.len() - i,
        {
            let ghost next = all.subrange(0, i as int + 1);
            assert(next.drop_last() =~= all.subrange(0, i as int));
            assert(next.last() == assignments@[i as int]@);
            let cost: u64 = match &self.agent_catalog {
                Some(catalog) => match catalog.definition(assignments[i].agent_id.as_str()) {
                    Some(definition) => definition.cost_weight as u64,
                    None => 1,
                },
                None => 1,
            };
            r.insert(assignments[i].task_id.clone(), cost);
            i = i + 1;
        }
        assert(all.subrange(0, all.len() as int) =~= all);
        r
    }

    /// The priority that a task was given.
    pub fn given_priority(&self, mission_id: &str, task_id: &str) -> (r: i32)
        ensures
            r == given_priority(self@, mission_id@, task_id@),
    {
        match &self.agent_state {
            Some(store) => store.task_priority(mission_id, task_id),
            None => 0,
        }
    }

    fn priorities_of(&self, mission_id: &str, tasks: &Vec<String>) -> (r: TextMap<i32>)
        ensures
            r@ == given_priorities(self@, mission_id@, texts(tasks@)),
    {
        let ghost all = texts(tasks@);
        let mut r: TextMap<i32> = TextMap::new();
        let mut i: usize = 0;
        assert(all.subrange(0, 0) =~= Seq::empty());
        while i < tasks.len()
            invariant
                i <= tasks.len(),
                all == texts(tasks@),
                r@ == given_priorities(self@, mission_id@, all.subrange(0, i as int)),
            decreases tasks.len() - i,
        {
            let ghost next = all.subrange(0, i as int + 1);
            assert(next.drop_last() =~= all.subrange(0, i as int));
            assert(next.last() == tasks@[i as int]@);
            let priority = self.given_priority(mission_id, tasks[i].as_str());
            r.insert(tasks[i].clone(), priority);
            i = i + 1;
        }
        assert(all.subrange(0, all.len() as int) =~= all);
        r
    }

    fn schedule_runs(
        &self,
        mission_id: &str,
        ready: &Vec<String>,
        prioritised: &Vec<String>,
        assignments: &Vec<StaffingAssignment>,
        concurrency_limit: usize,
    ) -> (r: Result<Vec<ScheduledRun>, ApplicationError>)
        ensures
            is_wave_of(
                self@,
                mission_id@,
                texts(ready@),
                texts(prioritised@),
                views(assignments@),
                concurrency_limit as nat,
                list_outcome(r),
            ),
    {
        let priorities = self.priorities_of(mission_id, prioritised);
        let costs = self.estimated_assignment_costs(assignments);
        let wait_cycles: TextMap<u32> = TextMap::new();
        let cancelled = TextSet::new();
        let batch = AgentScheduler { concurrency_limit }.schedule_with_constraints(
            ready,
            assignments.as_slice(),
            &priorities,
            &wait_cycles,
            &costs,
            &cancelled,
            self.mode_profile.max_cost_units,
        );
        let ghost chosen = batch@;
        assert(batch.runs@.len() == chosen.runs.len());
        if batch.runs.len() == 0 {
            return Err(
                ApplicationError::new(
                    "agent-cost-budget-exhausted",
                    decimal_of(self.mode_profile.max_cost_units).as_str(),
                ),
            );
        }
        Ok(batch.runs)
    }

    /// The runs of the next wave of a mission: of the nodes that are ready, those that fit.
    pub fn prepare_next_agent_wave(
        &self,
        mission: &MissionState,
        mission_id: &str,
        ready: &Vec<String>,
    ) -> (r: Result<Vec<ScheduledRun>, ApplicationError>)
        requires
            forall|i: int|
                0 <= i < ready@.len() ==> mission@.nodes.contains_key(#[trigger] texts(ready@)[i]),
        ensures
            is_next_wave(self@, mission@, mission_id@, texts(ready@), list_outcome(r)),
    {
        if !self.model_ready {
            return Err(
                ApplicationError::new("model-runtime-missing", "Agent wave 需要 Model Runtime"),
            );
        }
        if ready.len() == 0 {
            return Err(ApplicationError::new("agent-wave-not-ready", mission_id));
        }
        let mut assignments: Vec<StaffingAssignment> = Vec::new();
        let mut i: usize = 0;
        while i < ready.len()
            invariant
                i <= ready.len(),
                forall|k: int|
                    0 <= k < ready@.len() ==> mission@.nodes.contains_key(
                        #[trigger] texts(ready@)[k],
                    ),
                assignments@.len() == i,
                forall|k: int|
                    0 <= k < i ==> (#[trigger] assignments@[k])@ == ready_assignments(
                        mission@,
                        texts(ready@),
                    )[k],
            decreases ready.len() - i,
        {
            assert(texts(ready@)[i as int] == ready@[i as int]@);
            let agent_id = match mission.nodes.get(ready[i].as_str()) {
                Some(node) => node.agent_definition_id.clone(),
                None => String::new(),
            };
            assignments.push(
                StaffingAssignment {
                    task_id: ready[i].clone(),
                    agent_id,
                    score: 0,
                    reason_summary: "kernel-ready-node".to_string(),
                    catalog_fingerprint: "kernel-plan".to_string(),
                },
            );
            i = i + 1;
        }
        assert(views(assignments@) =~= ready_assignments(mission@, texts(ready@)));
        self.schedule_runs(
            mission_id,
            ready,
            ready,
            &assignments,
            self.agent_budget_policy.max_parallel_agents,
        )
    }

    /// The runs of a team for research. All of them are queued; how many run at the same time is
    /// decided when they are called.
    pub fn prepare_parallel_agent_team(
        &self,
        mission: &MissionState,
        mission_id: &str,
        ready: &Vec<String>,
        assignments: &Vec<StaffingAssignment>,
        agent_count: usize,
    ) -> (r: Result<Vec<ScheduledRun>, ApplicationError>)
        ensures
            is_wave_of(
                self@,
                mission_id@,
                texts(ready@),
                in_order(mission@.nodes.dom()),
                views(assignments@),
                agent_count as nat,
                list_outcome(r),
            ),
    {
        self.schedule_runs(mission_id, ready, mission.nodes.keys(), assignments, agent_count)
    }
}

pub open spec fn is_effect_for(
    e: EffectView,
    mission_id: Seq<char>,
    run: Seq<char>,
    start: bool,
    resume: bool,
) -> bool {
    e.mission_id == mission_id && match e.intent {
        IntentView::StartAgentRun { node_id, run_id } => start && run_id == run,
        IntentView::ResumeAgentRun { node_id, run_id } => resume && run_id == run,
        _ => false,
    }
}

/// The first effect that starts or resumes a run.
pub open spec fn first_effect(
    entries: Seq<EffectView>,
    mission_id: Seq<char>,
    run: Seq<char>,
    start: bool,
    resume: bool,
) -> Option<Seq<char>>
    decreases entries.len(),
{
    if entries.len() == 0 {
        None
    } else {
        match first_effect(entries.drop_last(), mission_id, run, start, resume) {
            Some(id) => Some(id),
            None => if is_effect_for(entries.last(), mission_id, run, start, resume) {
                Some(entries.last().effect_id)
            } else {
                None
            },
        }
    }
}

fn find_effect(
    entries: &Vec<EffectEntry>,
    mission_id: &str,
    run: &str,
    start: bool,
    resume: bool,
) -> (r: Option<String>)
    ensures
        option_view(r) == first_effect(views(entries@), mission_id@, run@, start, resume),
{
    let ghost all = views(entries@);
    let mut i: usize = 0;
    let mut found: Option<String> = None;
    assert(all.subrange(0, 0) =~= Seq::empty());
    while i < entries.len()
        invariant
            i <= entries.len(),
            all == views(entries@),
            option_view(found) == first_effect(
                all.subrange(0, i as int),
                mission_id@,
                run@,
                start,
                resume,
            ),
        decreases entries.len() - i,
    {
        let ghost next = all.subrange(0, i as int + 1);
        assert(next.drop_last() =~= all.subrange(0, i as int));
        assert(next.last() == entries@[i as int]@);
        let entry = &entries[i];
        let fits = same(entry.mission_id.as_str(), mission_id) && match &entry.intent {
            EffectIntent::StartAgentRun { node_id: _, run_id } => start && same(
                run_id.as_str(),
                run,
            ),
            EffectIntent::ResumeAgentRun { node_id: _, run_id } => resume && same(
                run_id.as_str(),
                run,
            ),
            _ => false,
        };
        if found.is_none() && fits {
            found = Some(entry.effect_id.clone());
        }
        i = i + 1;
    }
    assert(all.subrange(0, all.len() as int) =~= all);
    found
}

pub open spec fn effect_or(found: Option<Seq<char>>, code: Seq<char>, message: Seq<char>) -> Outcome<
    Seq<char>,
> {
    match found {
        Some(id) => Outcome::Done(id),
        None => failure(code, message),
    }
}

/// The effect that starts a run.
pub fn claimable_start_effect(entries: &Vec<EffectEntry>, mission_id: &str, run_id: &str) -> (r:
    Result<String, ApplicationError>)
    ensures
        outcome(r) == effect_or(
            first_effect(views(entries@), mission_id@, run_id@, true, false),
            "agent-start-effect-missing"@,
            run_id@,
        ),
{
    match find_effect(entries, mission_id, run_id, true, false) {
        Some(id) => Ok(id),
        None => Err(ApplicationError::new("agent-start-effect-missing", run_id)),
    }
}

/// The effect that resumes a run.
pub fn claim_agent_resume_effect(entries: &Vec<EffectEntry>, mission_id: &str, run_id: &str) -> (r:
    Result<String, ApplicationError>)
    ensures
        outcome(r) == effect_or(
            first_effect(views(entries@), mission_id@, run_id@, false, true),
            "agent-resume-effect-missing"@,
            run_id@,
        ),
{
    match find_effect(entries, mission_id, run_id, false, true) {
        Some(id) => Ok(id),
        None => Err(ApplicationError::new("agent-resume-effect-missing", run_id)),
    }
}

/// The effect with which a run goes on after a restart.
pub fn claimable_recovery_effect(entries: &Vec<EffectEntry>, mission_id: &str, run_id: &str) -> (r:
    Result<String, ApplicationError>)
    ensures
        outcome(r) == effect_or(
            first_effect(views(entries@), mission_id@, run_id@, true, true),
            "agent-recovery-effect-not-claimable"@,
            "run="@ + run_id@ + "；原 worker 租约可能仍有效，请稍后重试 /resume"@,
        ),
{
    match find_effect(entries, mission_id, run_id, true, true) {
        Some(id) => Ok(id),
        None => {
            let mut message: String = "run=".to_string();
            message.append(run_id);
            message.append("；原 worker 租约可能仍有效，请稍后重试 /resume");
            Err(ApplicationError::new("agent-recovery-effect-not-claimable", message.as_str()))
        },
    }
}

/// What the nodes that a node waited for came to.
pub open spec fn dependency_lines(m: MissionView, dependencies: Seq<Seq<char>>) -> Seq<Seq<char>>
    decreases dependencies.len(),
{
    if dependencies.len() == 0 {
        Seq::empty()
    } else {
        let before = dependency_lines(m, dependencies.drop_last());
        let id = dependencies.last();
        if m.nodes.contains_key(id) && m.nodes[id].output_summary is Some {
            before.push("- "@ + id + ": "@ + m.nodes[id].output_summary->Some_0)
        } else {
            before
        }
    }
}

pub open spec fn dependency_text(m: MissionView, node: MissionNodeView) -> Seq<char> {
    joined(dependency_lines(m, node.depends_on), "\n"@)
}

/// What the nodes that a node waited for came to, a line each.
pub fn dependency_summary(mission: &MissionState, node: &MissionNode) -> (r: String)
    ensures
        r@ == dependency_text(mission@, node@),
{
    let ghost all = texts(node.depends_on@);
    let mut lines: Vec<String> = Vec::new();
    let mut i: usize = 0;
    assert(all.subrange(0, 0) =~= Seq::empty());
    assert(texts(lines@) =~= Seq::empty());
    while i < node.depends_on.len()
        invariant
            i <= node.depends_on.len(),
            all == texts(node.depends_on@),
            texts(lines@) == dependency_lines(mission@, all.subrange(0, i as int)),
        decreases node.depends_on.len() - i,
    {
        broadcast use group_views;

        let ghost next = all.subrange(0, i as int + 1);
        assert(next.drop_last() =~= all.subrange(0, i as int));
        assert(next.last() == node.depends_on@[i as int]@);
        match mission.nodes.get(node.depends_on[i].as_str()) {
            Some(dependency) => match &dependency.output_summary {
                Some(summary) => {
                    let mut line: String = "- ".to_string();
                    line.append(node.depends_on[i].as_str());
                    line.append(": ");
                    line.append(summary.as_str());
                    lines.push(line);
                },
                None => {},
            },
            None => {},
        }
        i = i + 1;
    }
    assert(all.subrange(0, all.len() as int) =~= all);
    join(&lines, "\n")
}

pub open spec fn saturating_u32_sum(a: u32, b: u32) -> u32 {
    if a + b > u32::MAX {
        u32::MAX
    } else {
        (a + b) as u32
    }
}

/// The context of a node with the results of those that it waited for at its end. It is known by
/// another fingerprint then.
pub open spec fn with_dependencies(c: WorkingView, summary: Seq<char>, tokens: u32) -> WorkingView {
    if summary.len() == 0 {
        c
    } else {
        let dynamic = c.dynamic_context + ("\n<dependency-results>\n"@ + summary
            + "\n</dependency-results>"@);
        WorkingView {
            dynamic_context: dynamic,
            token_cost: saturating_u32_sum(c.token_cost, tokens),
            fingerprint: text_hash(c.stable_instructions + "\n"@ + dynamic),
            ..c
        }
    }
}

pub fn add_dependencies(context: AgentWorkingContext, summary: &str, tokens: u32) -> (r:
    AgentWorkingContext)
    ensures
        r@ == with_dependencies(context@, summary@, tokens),
{
    let mut context = context;
    if summary.unicode_len() == 0 {
        return context;
    }
    let mut tail: String = "\n<dependency-results>\n".to_string();
    tail.append(summary);
    tail.append("\n</dependency-results>");
    context.dynamic_context.append(tail.as_str());
    context.token_cost = context.token_cost.saturating_add(tokens);
    let mut whole: String = context.stable_instructions.clone();
    whole.append("\n");
    whole.append(context.dynamic_context.as_str());
    context.fingerprint = hash_text(whole.as_str());
    context
}

/// What a node waited for comes at the end of what its agent is told, and changes nothing before it.
pub proof fn law_dependencies_come_last(c: WorkingView, summary: Seq<char>, tokens: u32)
    ensures
        ({
            let r = with_dependencies(c, summary, tokens);
            &&& r.stable_instructions == c.stable_instructions
            &&& c.dynamic_context.is_prefix_of(r.dynamic_context)
            &&& r.token_cost >= c.token_cost
        }),
{
    let r = with_dependencies(c, summary, tokens);
    assert(r.dynamic_context.subrange(0, c.dynamic_context.len() as int) =~= c.dynamic_context);
}

/// A tool as the tools themselves describe it.
pub struct ToolDescriptor {
    pub canonical_name: String,
    pub description: String,
    pub input_schema: Json,
}

pub struct DescriptorView {
    pub canonical_name: Seq<char>,
    pub description: Seq<char>,
    pub input_schema: JsonView,
}

impl View for ToolDescriptor {
    type V = DescriptorView;

    open spec fn view(&self) -> DescriptorView {
        DescriptorView {
            canonical_name: self.canonical_name@,
            description: self.description@,
            input_schema: self.input_schema@,
        }
    }
}

pub open spec fn reads_the_repository(name: Seq<char>) -> bool {
    contains_text(name, "read"@) || contains_text(name, "search"@) || contains_text(name, "status"@)
        || contains_text(name, "symbol"@) || contains_text(name, "definition"@) || contains_text(
        name,
        "reference"@,
    ) || contains_text(name, "diagnostic"@) || contains_text(name, "snapshot"@)
}

/// Whether an agent may call a tool of some name: what the name says it does has to be among what
/// the agent is allowed.
pub open spec fn may_call(name: Seq<char>, allowed: Set<Seq<char>>) -> bool {
    if name == "process.run"@ {
        allowed.contains("process.run"@)
    } else if contains_text(name, "write"@) || contains_text(name, "apply"@) || contains_text(
        name,
        "patch"@,
    ) {
        allowed.contains("file.write"@)
    } else if contains_text(name, "diff"@) {
        allowed.contains("diff.read"@) || allowed.contains("repository.read"@)
    } else if contains_text(name, "browser"@) || contains_text(name, "network"@) || contains_text(
        name,
        "http"@,
    ) {
        allowed.contains("network.read"@)
    } else if contains_text(name, "lsp"@) {
        allowed.contains("lsp.read"@) || allowed.contains("repository.read"@)
    } else {
        reads_the_repository(name) && allowed.contains("repository.read"@)
    }
}

pub open spec fn model_tool(d: DescriptorView) -> ToolView {
    ToolView {
        name: d.canonical_name,
        description: d.description,
        input_schema: d.input_schema,
        strict: true,
    }
}

/// The tools that an agent may call, out of those that were found for it.
pub open spec fn permitted(tools: Seq<DescriptorView>, allowed: Set<Seq<char>>) -> Seq<ToolView>
    decreases tools.len(),
{
    if tools.len() == 0 {
        Seq::empty()
    } else if may_call(tools.last().canonical_name, allowed) {
        permitted(tools.drop_last(), allowed).push(model_tool(tools.last()))
    } else {
        permitted(tools.drop_last(), allowed)
    }
}

/// No agent is offered a tool that it may not call.
pub proof fn law_offered_tools_may_be_called(
    tools: Seq<DescriptorView>,
    allowed: Set<Seq<char>>,
    i: int,
)
    requires
        0 <= i < permitted(tools, allowed).len(),
    ensures
        may_call(permitted(tools, allowed)[i].name, allowed),
    decreases tools.len(),
{
    if tools.len() > 0 {
        let before = permitted(tools.drop_last(), allowed);
        if i < before.len() {
            law_offered_tools_may_be_called(tools.drop_last(), allowed, i);
        }
    }
}

/// An agent that may not write files is offered nothing that writes, applies or patches.
pub proof fn law_readers_are_offered_no_writing(
    tools: Seq<DescriptorView>,
    allowed: Set<Seq<char>>,
    i: int,
)
    requires
        !allowed.contains("file.write"@),
        0 <= i < permitted(tools, allowed).len(),
        permitted(tools, allowed)[i].name != "process.run"@,
    ensures
        !contains_text(permitted(tools, allowed)[i].name, "write"@),
        !contains_text(permitted(tools, allowed)[i].name, "apply"@),
        !contains_text(permitted(tools, allowed)[i].name, "patch"@),
{
    law_offered_tools_may_be_called(tools, allowed, i);
}

fn is_permitted(name: &str, allowed: &TextSet) -> (r: bool)
    ensures
        r == may_call(name@, allowed@),
{
    if same(name, "process.run") {
        return allowed.contains("process.run");
    }
    if contains(name, "write") || contains(name, "apply") || contains(name, "patch") {
        return allowed.contains("file.write");
    }
    if contains(name, "diff") {
        return allowed.contains("diff.read") || allowed.contains("repository.read");
    }
    if contains(name, "browser") || contains(name, "network") || contains(name, "http") {
        return allowed.contains("network.read");
    }
    if contains(name, "lsp") {
        return allowed.contains("lsp.read") || allowed.contains("repository.read");
    }
    let repository_read = contains(name, "read") || contains(name, "search") || contains(
        name,
        "status",
    ) || contains(name, "symbol") || contains(name, "definition") || contains(name, "reference")
        || contains(name, "diagnostic") || contains(name, "snapshot");
    repository_read && allowed.contains("repository.read")
}

/// What is asked of the tools for an agent, if it can have any.
pub open spec fn tools_query(s: AppView, agent: Seq<char>, role: AgentRole, query: Seq<char>) -> Outcome<
    Option<Seq<char>>,
> {
    match s.agent_catalog {
        Some(c) => if c.contains_key(agent) {
            if c[agent].definition.allowed_tools == Set::<Seq<char>>::empty() || !s.tools_ready {
                Outcome::Done(None)
            } else {
                Outcome::Done(Some(query + " "@ + role_terms_text(role)))
            }
        } else {
            failure("agent-not-found"@, agent)
        },
        None => failure("agent-not-found"@, agent),
    }
}

impl HarnessApplication {
    /// What is asked of the tools for an agent; nothing if it is allowed none.
    pub fn agent_tools_query(&self, agent_id: &str, role: AgentRole, query: &str) -> (r: Result<
        Option<String>,
        ApplicationError,
    >)
        ensures
            match r {
                Ok(v) => tools_query(self@, agent_id@, role, query@) == Outcome::Done(
                    option_view(v),
                ),
                Err(e) => tools_query(self@, agent_id@, role, query@) == Outcome::<
                    Option<Seq<char>>,
                >::Failed(e@),
            },
    {
        let definition = match &self.agent_catalog {
            Some(catalog) => match catalog.definition(agent_id) {
                Some(definition) => definition,
                None => {
                    return Err(ApplicationError::new("agent-not-found", agent_id));
                },
            },
            None => {
                return Err(ApplicationError::new("agent-not-found", agent_id));
            },
        };
        if definition.allowed_tools.is_empty() || !self.tools_ready {
            return Ok(None);
        }
        let mut full: String = query.to_string();
        full.append(" ");
        full.append(role_terms(role));
        Ok(Some(full))
    }

    /// The tools that an agent may call, out of those that were found for it.
    pub fn agent_model_tools(&self, agent_id: &str, found: &Vec<ToolDescriptor>) -> (r: Vec<
        ToolDefinition,
    >)
        ensures
            views(r@) == match self@.agent_catalog {
                Some(c) => if c.contains_key(agent_id@) {
                    permitted(views(found@), c[agent_id@].definition.allowed_tools)
                } else {
                    Seq::empty()
                },
                None => Seq::empty(),
            },
    {
        broadcast use group_views;

        match &self.agent_catalog {
            Some(catalog) => match catalog.definition(agent_id) {
                Some(definition) => permitted_tools(found, &definition.allowed_tools),
                None => Vec::new(),
            },
            None => Vec::new(),
        }
    }
}

fn permitted_tools(found: &Vec<ToolDescriptor>, allowed: &TextSet) -> (r: Vec<ToolDefinition>)
    ensures
        views(r@) == permitted(views(found@), allowed@),
{
    let ghost all = views(found@);
    let mut r: Vec<ToolDefinition> = Vec::new();
    let mut i: usize = 0;
    assert(all.subrange(0, 0) =~= Seq::empty());
    assert(views(r@) =~= Seq::empty());
    while i < found.len()
        invariant
            i <= found.len(),
            all == views(found@),
            views(r@) == permitted(all.subrange(0, i as int), allowed@),
        decreases found.len() - i,
    {
        broadcast use group_views;

        let ghost next = all.subrange(0, i as int + 1);
        assert(next.drop_last() =~= all.subrange(0, i as int));
        assert(next.last() == found@[i as int]@);
        let tool = &found[i];
        if is_permitted(tool.canonical_name.as_str(), allowed) {
            r.push(
                ToolDefinition {
                    name: tool.canonical_name.clone(),
                    description: tool.description.clone(),
                    input_schema: tool.input_schema.copy(),
                    strict: true,
                },
            );
        }
        i = i + 1;
    }
    assert(all.subrange(0, all.len() as int) =~= all);
    r
}

/// How long an agent may work.
pub open spec fn deadline(now: i64) -> i64 {
    clamp_i64(now + 120000)
}

fn deadline_of(now: i64) -> (r: i64)
    ensures
        r == deadline(now),
{
    match now.checked_add(120000) {
        Some(end) => end,
        None => i64::MAX,
    }
}

pub open spec fn planning_of(role: AgentRole) -> Option<PlanningBudget> {
    if role is Planner {
        Some(default_planning())
    } else {
        None
    }
}

/// What is asked of an agent by its role.
pub open spec fn role_request(
    session_id: Seq<char>,
    mission_id: Seq<char>,
    task_id: Seq<char>,
    run_id: Seq<char>,
    parent_run_id: Option<Seq<char>>,
    endpoint_id: Seq<char>,
    agent: Seq<char>,
    role: AgentRole,
    objective: Seq<char>,
    now: i64,
    context: WorkingView,
    steering: Seq<Seq<char>>,
    tools: Seq<ToolView>,
) -> RequestView {
    RequestView {
        session_id,
        contract: ContractView {
            mission_id,
            task_id,
            run_id,
            parent_run_id,
            endpoint_id,
            agent_definition_id: agent,
            role,
            objective,
            acceptance_criteria: seq![role_criterion(role)],
            max_turns: turn_limit(role),
            deadline_millis: deadline(now),
            planning_budget: planning_of(role),
        },
        context,
        steering_messages: steering,
        model_tools: tools,
        model_continuation: None,
    }
}

pub open spec fn run_endpoint(m: MissionView, run_id: Seq<char>) -> Outcome<Seq<char>> {
    if m.runs.contains_key(run_id) {
        Outcome::Done(m.runs[run_id].endpoint_id)
    } else {
        failure("agent-run-missing"@, run_id)
    }
}

/// The endpoint at which a run was started.
pub fn endpoint_of_run(mission: &MissionState, run_id: &str) -> (r: Result<String, ApplicationError>)
    ensures
        outcome(r) == run_endpoint(mission@, run_id@),
{
    match mission.runs.get(run_id) {
        Some(run) => Ok(run.endpoint_id.clone()),
        None => Err(ApplicationError::new("agent-run-missing", run_id)),
    }
}

fn request_by_role(
    session_id: String,
    mission_id: &str,
    task_id: &str,
    run_id: &str,
    parent_run_id: Option<String>,
    endpoint_id: String,
    agent_id: String,
    role: AgentRole,
    objective: String,
    now: i64,
    context: AgentWorkingContext,
    steering: &Vec<String>,
    tools: Vec<ToolDefinition>,
) -> (r: AgentExecutionRequest)
    ensures
        r@ == role_request(
            session_id@,
            mission_id@,
            task_id@,
            run_id@,
            option_view(parent_run_id),
            endpoint_id@,
            agent_id@,
            role,
            objective@,
            now,
            context@,
            texts(steering@),
            views(tools@),
        ),
{
    AgentExecutionRequest {
        session_id,
        contract: AgentTaskContract {
            mission_id: mission_id.to_string(),
            task_id: task_id.to_string(),
            run_id: run_id.to_string(),
            parent_run_id,
            endpoint_id,
            agent_definition_id: agent_id,
            role,
            objective,
            acceptance_criteria: role_acceptance_criteria(role),
            max_turns: role_max_turns(role),
            deadline_millis: deadline_of(now),
            planning_budget: if role == AgentRole::Planner {
                Some(PlanningBudget::bounded_default())
            } else {
                None
            },
        },
        context,
        steering_messages: duplicate_all(steering),
        model_tools: tools,
        model_continuation: None,
    }
}

/// What the agent of a node of the next wave is asked.
pub fn wave_request(
    mission: &MissionState,
    node: &MissionNode,
    run_id: &str,
    endpoint_id: String,
    agent_id: String,
    role: AgentRole,
    now: i64,
    context: AgentWorkingContext,
    steering: &Vec<String>,
    tools: Vec<ToolDefinition>,
) -> (r: AgentExecutionRequest)
    ensures
        r@ == role_request(
            session_of_run(run_id@),
            mission@.mission_id,
            node@.id,
            run_id@,
            None,
            endpoint_id@,
            agent_id@,
            role,
            mission@.goal + "\n当前节点："@ + node@.title,
            now,
            context@,
            texts(steering@),
            views(tools@),
        ),
{
    let mut objective: String = mission.goal.clone();
    objective.append("\n当前节点：");
    objective.append(node.title.as_str());
    request_by_role(
        agent_session_id(run_id),
        mission.mission_id.as_str(),
        node.id.as_str(),
        run_id,
        None,
        endpoint_id,
        agent_id,
        role,
        objective,
        now,
        context,
        steering,
        tools,
    )
}

/// What an agent is asked whose session goes on after a restart.
pub fn recovered_request(
    mission: &MissionState,
    node: &MissionNode,
    session: &AgentSession,
    agent_id: String,
    role: AgentRole,
    now: i64,
    context: AgentWorkingContext,
    steering: &Vec<String>,
    tools: Vec<ToolDefinition>,
) -> (r: AgentExecutionRequest)
    ensures
        r@ == role_request(
            session@.id,
            mission@.mission_id,
            session@.task_id,
            session@.run_id,
            session@.parent_run_id,
            session@.endpoint_id,
            agent_id@,
            role,
            mission@.goal + "\n恢复任务 "@ + session@.task_id + "："@ + node@.title,
            now,
            context@,
            texts(steering@),
            views(tools@),
        ),
{
    let mut objective: String = mission.goal.clone();
    objective.append("\n恢复任务 ");
    objective.append(session.task_id.as_str());
    objective.append("：");
    objective.append(node.title.as_str());
    request_by_role(
        session.id.clone(),
        mission.mission_id.as_str(),
        session.task_id.as_str(),
        session.run_id.as_str(),
        duplicate_option(&session.parent_run_id),
        session.endpoint_id.clone(),
        agent_id,
        role,
        objective,
        now,
        context,
        steering,
        tools,
    )
}

/// What an agent of a team for research is asked.
pub open spec fn research_asked(
    mission_id: Seq<char>,
    prompt: Seq<char>,
    task_id: Seq<char>,
    run_id: Seq<char>,
    endpoint_id: Seq<char>,
    agent: Seq<char>,
    role: AgentRole,
    now: i64,
    context: WorkingView,
    steering: Seq<Seq<char>>,
) -> RequestView {
    RequestView {
        session_id: session_of_run(run_id),
        contract: ContractView {
            mission_id,
            task_id,
            run_id,
            parent_run_id: None,
            endpoint_id,
            agent_definition_id: agent,
            role,
            objective: prompt + "\n你负责独立研究分片 "@ + task_id
                + "，返回可验证的简明结论。"@,
            acceptance_criteria: seq!["返回非空结论"@],
            max_turns: 2,
            deadline_millis: deadline(now),
            planning_budget: None,
        },
        context,
        steering_messages: steering,
        model_tools: Seq::empty(),
        model_continuation: None,
    }
}

pub fn research_request(
    mission_id: &str,
    prompt: &str,
    task_id: &str,
    run_id: &str,
    endpoint_id: String,
    agent_id: String,
    role: AgentRole,
    now: i64,
    context: AgentWorkingContext,
    steering: &Vec<String>,
) -> (r: AgentExecutionRequest)
    ensures
        r@ == research_asked(
            mission_id@,
            prompt@,
            task_id@,
            run_id@,
            endpoint_id@,
            agent_id@,
            role,
            now,
            context@,
            texts(steering@),
        ),
{
    broadcast use group_views;

    let mut objective: String = prompt.to_string();
    objective.append("\n你负责独立研究分片 ");
    objective.append(task_id);
    objective.append("，返回可验证的简明结论。");
    let criteria: Vec<String> = vec!["返回非空结论".to_string()];
    assert(texts(criteria@) =~= seq!["返回非空结论"@]);
    AgentExecutionRequest {
        session_id: agent_session_id(run_id),
        contract: AgentTaskContract {
            mission_id: mission_id.to_string(),
            task_id: task_id.to_string(),
            run_id: run_id.to_string(),
            parent_run_id: None,
            endpoint_id,
            agent_definition_id: agent_id,
            role,
            objective,
            acceptance_criteria: criteria,
            max_turns: 2,
            deadline_millis: deadline_of(now),
            planning_budget: None,
        },
        context,
        steering_messages: duplicate_all(steering),
        model_tools: Vec::new(),
        model_continuation: None,
    }
}

pub open spec fn agent_status(
    agent: Seq<char>,
    role: AgentRole,
    status: Seq<char>,
    detail: Seq<char>,
) -> EventView {
    EventView::AgentStatus { agent_id: agent, role: role_name_text(role), status, detail }
}

/// What is shown of an agent.
pub fn agent_status_event(agent_id: &str, role: AgentRole, status: &str, detail: &str) -> (r:
    HarnessEvent)
    ensures
        r@ == agent_status(agent_id@, role, status@, detail@),
{
    HarnessEvent::AgentStatus {
        agent_id: agent_id.to_string(),
        role: role_name(role).to_string(),
        status: status.to_string(),
        detail: detail.to_string(),
    }
}

/// A team to which nobody belongs yet.
pub open spec fn empty_team(mission_id: Seq<char>, prompt: Seq<char>) -> PreparedView {
    PreparedView {
        job: JobView { max_parallel: 0, requests: Seq::empty(), started_at_millis: 0 },
        continuation: TeamView {
            mission_id,
            prompt,
            claimed_by_run: Map::empty(),
            requests_by_run: Map::empty(),
        },
    }
}

/// The team with one more agent: what it is asked, and the effect that was claimed for it.
pub open spec fn enlisted(p: PreparedView, request: RequestView, claimed: ClaimedEffectView) -> PreparedView {
    let run = request.contract.run_id;
    PreparedView {
        job: JobView { requests: p.job.requests.push(request), ..p.job },
        continuation: TeamView {
            claimed_by_run: p.continuation.claimed_by_run.insert(run, claimed),
            requests_by_run: p.continuation.requests_by_run.insert(run, request),
            ..p.continuation
        },
    }
}

/// The team once it is complete. As many of its agents as are allowed work at the same time.
pub open spec fn mustered(p: PreparedView, max_parallel_agents: usize, now: i64) -> Outcome<
    PreparedView,
> {
    let workers: usize = if max_parallel_agents < p.job.requests.len() {
        max_parallel_agents
    } else {
        p.job.requests.len() as usize
    };
    if workers == 0 {
        failure("agent-executor-zero-parallelism"@, "0"@)
    } else {
        Outcome::Done(
            PreparedView {
                job: JobView { max_parallel: workers, started_at_millis: now, ..p.job },
                ..p
            },
        )
    }
}

impl PreparedAgentTeam {
    pub fn new(mission_id: String, prompt: String) -> (r: Self)
        ensures
            r@ == empty_team(mission_id@, prompt@),
    {
        broadcast use group_views;

        PreparedAgentTeam {
            job: AgentTeamModelJob { max_parallel: 0, requests: Vec::new(), started_at_millis: 0 },
            continuation: AgentTeamContinuation {
                mission_id,
                prompt,
                claimed_by_run: TextMap::new(),
                requests_by_run: TextMap::new(),
            },
        }
    }

    /// Adds an agent to the team.
    pub fn enlist(&mut self, request: AgentExecutionRequest, claimed: ClaimedEffect)
        ensures
            final(self)@ == enlisted(old(self)@, request@, claimed@),
    {
        broadcast use group_views;

        let run_id = request.contract.run_id.clone();
        self.job.requests.push(request.duplicate());
        self.continuation.requests_by_run.insert(run_id.clone(), request);
        self.continuation.claimed_by_run.insert(run_id, claimed);
    }

    /// Completes the team.
    pub fn muster(self, max_parallel_agents: usize, now: i64) -> (r: Result<Self, ApplicationError>)
        ensures
            outcome(r) == mustered(self@, max_parallel_agents, now),
    {
        let mut team = self;
        assert(team.job.requests@.len() == team@.job.requests.len());
        let workers: usize = if max_parallel_agents < team.job.requests.len() {
            max_parallel_agents
        } else {
            team.job.requests.len()
        };
        if workers == 0 {
            return Err(ApplicationError::new("agent-executor-zero-parallelism", "0"));
        }
        team.job.max_parallel = workers;
        team.job.started_at_millis = now;
        Ok(team)
    }
}

/// What holds of a team: it has claimed an effect for each request, and the other way round.
pub open spec fn team_is_matched(t: TeamView) -> bool {
    t.claimed_by_run.dom() == t.requests_by_run.dom()
}

/// A team stays matched whoever is added to it.
pub proof fn law_teams_are_matched(p: PreparedView, request: RequestView, claimed: ClaimedEffectView)
    requires
        team_is_matched(p.continuation),
    ensures
        team_is_matched(enlisted(p, request, claimed).continuation),
        team_is_matched(empty_team(p.continuation.mission_id, p.continuation.prompt).continuation),
{
    let run = request.contract.run_id;
    let t = p.continuation;
    assert(t.claimed_by_run.insert(run, claimed).dom() =~= t.requests_by_run.insert(
        run,
        request,
    ).dom());
    assert(Map::<Seq<char>, ClaimedEffectView>::empty().dom() =~= Map::<
        Seq<char>,
        RequestView,
    >::empty().dom());
}

/// The sessions of a mission that were at work, in the order in which they are recovered.
pub open spec fn at_work(sessions: Seq<SessionView>, mission_id: Seq<char>) -> Seq<SessionView>
    decreases sessions.len(),
{
    if sessions.len() == 0 {
        Seq::empty()
    } else {
        let before = at_work(sessions.drop_last(), mission_id);
        let last = sessions.last();
        if last.mission_id == mission_id && (last.status is Prepared || last.status is Running) {
            before.push(last)
        } else {
            before
        }
    }
}

pub open spec fn is_recovered_team(s: AppView, result: Outcome<Seq<SessionView>>) -> bool {
    if s.active_mission_id is None {
        result == failure::<Seq<SessionView>>(
            "agent-recovery-mission-missing"@,
            "没有可恢复的活动 Mission"@,
        )
    } else if !s.model_ready {
        result == failure::<Seq<SessionView>>(
            "model-runtime-missing"@,
            "恢复 Team 需要 Model Runtime"@,
        )
    } else if s.agent_state is None {
        result == failure::<Seq<SessionView>>(
            "agent-state-missing"@,
            "Agent State Store 尚未注入"@,
        )
    } else {
        exists|all: Seq<SessionView>|
            #![trigger is_recovery(s.agent_state->Some_0.sessions, all)]
            is_recovery(s.agent_state->Some_0.sessions, all) && result == if at_work(
                all,
                s.active_mission_id->Some_0,
            ).len() == 0 {
                failure("agent-recovery-empty"@, s.active_mission_id->Some_0)
            } else {
                Outcome::Done(at_work(all, s.active_mission_id->Some_0))
            }
    }
}

/// Whether the kernel agrees that a session was at work.
pub open spec fn recovery_check(m: MissionView, session: SessionView) -> Outcome<MissionNodeView> {
    if !m.nodes.contains_key(session.task_id) {
        failure("agent-recovery-node-missing"@, session.task_id)
    } else {
        let node = m.nodes[session.task_id];
        if !(node.status is Running) || node.run_id != Some(session.run_id) {
            failure("agent-recovery-kernel-mismatch"@, session.run_id)
        } else {
            Outcome::Done(node)
        }
    }
}

/// The node that a session was at work on, if the kernel agrees.
pub fn check_recovered(mission: &MissionState, session: &AgentSession) -> (r: Result<
    MissionNode,
    ApplicationError,
>)
    ensures
        outcome(r) == recovery_check(mission@, session@),
{
    match mission.nodes.get(session.task_id.as_str()) {
        None => Err(
            ApplicationError::new("agent-recovery-node-missing", session.task_id.as_str()),
        ),
        Some(node) => {
            let same_run = match &node.run_id {
                Some(run_id) => same(run_id.as_str(), session.run_id.as_str()),
                None => false,
            };
            if node.status != NodeStatus::Running || !same_run {
                Err(
                    ApplicationError::new(
                        "agent-recovery-kernel-mismatch",
                        session.run_id.as_str(),
                    ),
                )
            } else {
                Ok(node.duplicate())
            }
        },
    }
}

impl HarnessApplication {
    /// The sessions of the active mission that were at work when the harness stopped.
    pub fn prepare_recovered_agent_team(&self) -> (r: Result<Vec<AgentSession>, ApplicationError>)
        ensures
            is_recovered_team(self@, list_outcome(r)),
    {
        let mission_id = match &self.active_mission_id {
            Some(mission_id) => mission_id,
            None => {
                return Err(
                    ApplicationError::new(
                        "agent-recovery-mission-missing",
                        "没有可恢复的活动 Mission",
                    ),
                );
            },
        };
        if !self.model_ready {
            return Err(
                ApplicationError::new("model-runtime-missing", "恢复 Team 需要 Model Runtime"),
            );
        }
        let store = match &self.agent_state {
            Some(store) => store,
            None => {
                return Err(
                    ApplicationError::new("agent-state-missing", "Agent State Store 尚未注入"),
                );
            },
        };
        let sessions = store.recoverable_sessions();
        let ghost all = views(sessions@);
        let mut r: Vec<AgentSession> = Vec::new();
        let mut i: usize = 0;
        assert(all.subrange(0, 0) =~= Seq::empty());
        assert(views(r@) =~= Seq::empty());
        while i < sessions.len()
            invariant
                i <= sessions.len(),
                all == views(sessions@),
                views(r@) == at_work(all.subrange(0, i as int), mission_id@),
            decreases sessions.len() - i,
        {
            broadcast use group_views;

            let ghost next = all.subrange(0, i as int + 1);
            assert(next.drop_last() =~= all.subrange(0, i as int));
            assert(next.last() == sessions@[i as int]@);
            let session = &sessions[i];
            if same(session.mission_id.as_str(), mission_id.as_str()) && (session.status
                == AgentSessionStatus::Prepared || session.status == AgentSessionStatus::Running) {
                r.push(session.duplicate());
            }
            i = i + 1;
        }
        assert(all.subrange(0, all.len() as int) =~= all);
        assert(views(r@).len() == r@.len());
        assert(is_recovery(self@.agent_state->Some_0.sessions, all));
        if r.len() == 0 {
            return Err(ApplicationError::new("agent-recovery-empty", mission_id.as_str()));
        }
        Ok(r)
    }
}

} // verus!
