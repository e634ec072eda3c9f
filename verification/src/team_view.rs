//! What is shown of the team: the agents, the queue of tasks and the budget.

use vstd::prelude::*;
use vstd::string::*;

use crate::application::{AppView, HarnessApplication};
use crate::cancellation::ids_of;
use crate::catalog::{
    active, catalog_ok, definitions_in_order, is_control_plane, lifecycle_of, AgentLifecycle,
    CatalogView, DefinitionView,
};
use crate::error::{failure, outcome, unit_outcome, ApplicationError, Outcome};
use crate::mission::{
    CommandView, MissionCommand, MissionNodeView, MissionState, MissionView, NodeStatus,
};
use crate::model::{option_view, views};
use crate::ordered::{enumerates, in_order, TextSet};
use crate::roles::{roles_in_order, AgentRole};
use crate::state_store::{
    lemma_recovery_of, priority_of, recovery_of, with_priority, StateView, TaskControl,
};
use crate::text::{copy_texts, same, texts};

verus! {

/// An agent as it is shown.
#[derive(Debug, PartialEq, Eq)]
pub struct AgentView {
    pub id: String,
    pub name: String,
    pub roles: Vec<AgentRole>,
    pub capabilities: Vec<String>,
    pub lifecycle: AgentLifecycle,
    pub active: usize,
    pub max_concurrency: usize,
    pub control_plane: bool,
}

pub struct AgentModel {
    pub id: Seq<char>,
    pub name: Seq<char>,
    pub roles: Seq<AgentRole>,
    pub capabilities: Seq<Seq<char>>,
    pub lifecycle: AgentLifecycle,
    pub active: nat,
    pub max_concurrency: usize,
    pub control_plane: bool,
}

impl View for AgentView {
    type V = AgentModel;

    open spec fn view(&self) -> AgentModel {
        AgentModel {
            id: self.id@,
            name: self.name@,
            roles: self.roles@,
            capabilities: texts(self.capabilities@),
            lifecycle: self.lifecycle,
            active: self.active as nat,
            max_concurrency: self.max_concurrency,
            control_plane: self.control_plane,
        }
    }
}

/// The team as it is shown.
#[derive(Debug, PartialEq, Eq)]
pub struct AgentTeamView {
    pub total: usize,
    pub sleeping: usize,
    pub reserved: usize,
    pub running: usize,
    pub durable_messages: bool,
    pub file_leases: bool,
    pub active_run_controls: usize,
    pub recoverable_sessions: usize,
    pub agents: Vec<AgentView>,
}

pub struct TeamModel {
    pub total: nat,
    pub sleeping: nat,
    pub reserved: nat,
    pub running: nat,
    pub durable_messages: bool,
    pub file_leases: bool,
    pub active_run_controls: nat,
    pub recoverable_sessions: nat,
    pub agents: Seq<AgentModel>,
}

impl View for AgentTeamView {
    type V = TeamModel;

    open spec fn view(&self) -> TeamModel {
        TeamModel {
            total: self.total as nat,
            sleeping: self.sleeping as nat,
            reserved: self.reserved as nat,
            running: self.running as nat,
            durable_messages: self.durable_messages,
            file_leases: self.file_leases,
            active_run_controls: self.active_run_controls as nat,
            recoverable_sessions: self.recoverable_sessions as nat,
            agents: views(self.agents@),
        }
    }
}

/// A task in the queue as it is shown.
#[derive(Debug, PartialEq, Eq)]
pub struct AgentQueueItemView {
    pub task_id: String,
    pub title: String,
    pub agent_definition_id: String,
    pub status: NodeStatus,
    pub ready: bool,
    pub priority: i32,
}

pub struct QueueItemModel {
    pub task_id: Seq<char>,
    pub title: Seq<char>,
    pub agent_definition_id: Seq<char>,
    pub status: NodeStatus,
    pub ready: bool,
    pub priority: i32,
}

impl View for AgentQueueItemView {
    type V = QueueItemModel;

    open spec fn view(&self) -> QueueItemModel {
        QueueItemModel {
            task_id: self.task_id@,
            title: self.title@,
            agent_definition_id: self.agent_definition_id@,
            status: self.status,
            ready: self.ready,
            priority: self.priority,
        }
    }
}

/// The tasks of the active mission as they are shown.
#[derive(Debug, PartialEq, Eq)]
pub struct AgentQueueView {
    pub mission_id: Option<String>,
    pub items: Vec<AgentQueueItemView>,
}

pub struct QueueModel {
    pub mission_id: Option<Seq<char>>,
    pub items: Seq<QueueItemModel>,
}

impl View for AgentQueueView {
    type V = QueueModel;

    open spec fn view(&self) -> QueueModel {
        QueueModel {
            mission_id: option_view(self.mission_id),
            items: views(self.items@),
        }
    }
}

/// The budget as it is shown.
#[derive(Debug, PartialEq, Eq)]
pub struct AgentBudgetView {
    pub scope: String,
    pub max_agents: usize,
    pub max_parallel_agents: usize,
    pub max_total_tokens: u64,
    pub max_tool_calls: u64,
    pub max_runtime_millis: u64,
    pub max_retries: u32,
    pub max_cost_units: u64,
}

pub struct BudgetModel {
    pub scope: Seq<char>,
    pub max_agents: usize,
    pub max_parallel_agents: usize,
    pub max_total_tokens: u64,
    pub max_tool_calls: u64,
    pub max_runtime_millis: u64,
    pub max_retries: u32,
    pub max_cost_units: u64,
}

impl View for AgentBudgetView {
    type V = BudgetModel;

    open spec fn view(&self) -> BudgetModel {
        BudgetModel {
            scope: self.scope@,
            max_agents: self.max_agents,
            max_parallel_agents: self.max_parallel_agents,
            max_total_tokens: self.max_total_tokens,
            max_tool_calls: self.max_tool_calls,
            max_runtime_millis: self.max_runtime_millis,
            max_retries: self.max_retries,
            max_cost_units: self.max_cost_units,
        }
    }
}

/// What is shown of an agent. One that is not in the catalog any more has failed.
pub open spec fn agent_model(c: CatalogView, d: DefinitionView) -> AgentModel {
    AgentModel {
        id: d.id,
        name: d.name,
        roles: roles_in_order(d.roles),
        capabilities: in_order(d.capabilities),
        lifecycle: match lifecycle_of(c, d.id) {
            Some(lifecycle) => lifecycle,
            None => AgentLifecycle::Failed,
        },
        active: active(c, d.id),
        max_concurrency: d.max_concurrency,
        control_plane: is_control_plane(d),
    }
}

pub open spec fn agent_models(c: CatalogView) -> Seq<AgentModel> {
    definitions_in_order(c).map_values(|d: DefinitionView| agent_model(c, d))
}

/// How many agents are in a state.
pub open spec fn count_of(agents: Seq<AgentModel>, lifecycle: AgentLifecycle) -> nat
    decreases agents.len(),
{
    if agents.len() == 0 {
        0
    } else {
        count_of(agents.drop_last(), lifecycle) + if agents.last().lifecycle == lifecycle {
            1nat
        } else {
            0
        }
    }
}

pub open spec fn recovery_count(state: Option<StateView>) -> nat {
    match state {
        Some(state) => recovery_of(state.sessions).len(),
        None => 0,
    }
}

/// The whole team.
pub open spec fn team_shown(s: AppView) -> Outcome<TeamModel> {
    match s.agent_catalog {
        None => failure("agent-catalog-missing"@, "Agent Catalog 尚未注入"@),
        Some(c) => {
            let agents = agent_models(c);
            Outcome::Done(
                TeamModel {
                    total: agents.len(),
                    sleeping: count_of(agents, AgentLifecycle::Sleeping),
                    reserved: count_of(agents, AgentLifecycle::Reserved),
                    running: count_of(agents, AgentLifecycle::Running),
                    durable_messages: s.agent_messages is Some,
                    file_leases: s.file_leases is Some,
                    active_run_controls: in_order(ids_of(s.run_controls)).len(),
                    recoverable_sessions: recovery_count(s.agent_state),
                    agents,
                },
            )
        },
    }
}

/// One agent of the team.
pub open spec fn agent_shown(s: AppView, id: Seq<char>) -> Outcome<AgentModel> {
    match s.agent_catalog {
        None => failure("agent-catalog-missing"@, "Agent Catalog 尚未注入"@),
        Some(c) => if c.contains_key(id) {
            Outcome::Done(agent_model(c, c[id].definition))
        } else {
            failure("agent-not-found"@, id)
        },
    }
}

pub open spec fn shown_priority(s: AppView, mission: Seq<char>, task: Seq<char>) -> i32 {
    match s.agent_state {
        Some(state) => priority_of(state, mission, task),
        None => 0,
    }
}

pub open spec fn queue_item(
    s: AppView,
    mission_id: Seq<char>,
    node: MissionNodeView,
    ready: Seq<Seq<char>>,
) -> QueueItemModel {
    QueueItemModel {
        task_id: node.id,
        title: node.title,
        agent_definition_id: node.agent_definition_id,
        status: node.status,
        ready: ready.contains(node.id),
        priority: shown_priority(s, mission_id, node.id),
    }
}

/// The queue of the active mission: every task of it, in the order of their ids.
pub open spec fn queue_shown(s: AppView, mission: MissionView, ready: Seq<Seq<char>>) -> QueueModel {
    match s.active_mission_id {
        None => QueueModel { mission_id: None, items: Seq::empty() },
        Some(id) => QueueModel {
            mission_id: Some(id),
            items: in_order(mission.nodes.dom()).map_values(
                |node: Seq<char>| queue_item(s, id, mission.nodes[node], ready),
            ),
        },
    }
}

/// A priority within the bounds of the queue.
pub open spec fn bounded_priority(priority: i32) -> i32 {
    if priority < -100 {
        (-100) as i32
    } else if priority > 100 {
        100
    } else {
        priority
    }
}

/// Giving a task of the active mission another priority.
pub open spec fn prioritize_step(
    s: AppView,
    mission: MissionView,
    task: Seq<char>,
    priority: i32,
    now: i64,
) -> (AppView, Outcome<()>) {
    match s.active_mission_id {
        None => (s, failure("active-mission-missing"@, "当前没有活动 Mission"@)),
        Some(id) => if !mission.nodes.contains_key(task) {
            (s, failure("agent-node-missing"@, task))
        } else {
            match s.agent_state {
                None => (s, failure("agent-state-missing"@, "Agent State Store 尚未注入"@)),
                Some(state) => (
                    AppView {
                        agent_state: Some(
                            with_priority(
                                state,
                                id,
                                task,
                                TaskControl {
                                    priority: bounded_priority(priority),
                                    updated_at_millis: now,
                                },
                            ),
                        ),
                        ..s
                    },
                    Outcome::Done(()),
                ),
            }
        },
    }
}

/// The command that withdraws a task of the active mission.
pub open spec fn task_withdrawal(s: AppView, task: Seq<char>, reason: Seq<char>) -> Outcome<
    CommandView,
> {
    match s.active_mission_id {
        None => failure("active-mission-missing"@, "当前没有活动 Mission"@),
        Some(_) => Outcome::Done(CommandView::CancelNode { node_id: task, reason }),
    }
}

/// The command that gives up the active mission.
pub open spec fn mission_withdrawal(s: AppView, reason: Seq<char>) -> Outcome<CommandView> {
    match s.active_mission_id {
        None => failure("active-mission-missing"@, "当前没有活动 Mission"@),
        Some(_) => Outcome::Done(CommandView::CancelMission { reason }),
    }
}

pub open spec fn budget_shown(s: AppView) -> BudgetModel {
    BudgetModel {
        scope: "runtime"@,
        max_agents: s.agent_budget_policy.max_agents,
        max_parallel_agents: s.agent_budget_policy.max_parallel_agents,
        max_total_tokens: s.agent_budget_policy.max_total_tokens,
        max_tool_calls: s.agent_budget_policy.max_tool_calls,
        max_runtime_millis: s.agent_budget_policy.max_runtime_millis,
        max_retries: s.agent_budget_policy.max_retries,
        max_cost_units: s.mode_profile.max_cost_units,
    }
}

/// The setting behind a field of the budget.
pub open spec fn budget_key(field: Seq<char>) -> Option<Seq<char>> {
    if field == "agents"@ {
        Some("agents.max"@)
    } else if field == "parallel"@ {
        Some("agents.parallel"@)
    } else if field == "tokens"@ {
        Some("agents.tokens"@)
    } else if field == "tools"@ {
        Some("agents.tools"@)
    } else if field == "runtime-ms"@ {
        Some("agents.runtime-ms"@)
    } else if field == "retries"@ {
        Some("agents.retries"@)
    } else if field == "cost"@ {
        Some("agents.cost"@)
    } else {
        None
    }
}

proof fn lemma_agent_ids(c: CatalogView)
    requires
        catalog_ok(c),
        enumerates(in_order(c.dom()), c.dom()),
    ensures
        forall|k: int|
            0 <= k < agent_models(c).len() ==> {
                let id = (#[trigger] agent_models(c)[k]).id;
                c.contains_key(id) && agent_models(c)[k] == agent_model(c, c[id].definition)
            },
        forall|id: Seq<char>| #[trigger]
            c.contains_key(id) ==> exists|k: int|
                0 <= k < agent_models(c).len() && (#[trigger] agent_models(c)[k]).id == id,
{
    let keys = in_order(c.dom());
    assert forall|k: int| 0 <= k < agent_models(c).len() implies {
        let id = (#[trigger] agent_models(c)[k]).id;
        c.contains_key(id) && agent_models(c)[k] == agent_model(c, c[id].definition)
    } by {
        assert(keys.contains(keys[k]));
        assert(c.contains_key(keys[k]));
    }
    assert forall|id: Seq<char>| #[trigger] c.contains_key(id) implies exists|k: int|
        0 <= k < agent_models(c).len() && (#[trigger] agent_models(c)[k]).id == id by {
        assert(keys.contains(id));
        let k = choose|k: int| 0 <= k < keys.len() && keys[k] == id;
        assert(agent_models(c)[k].id == id);
    }
}

fn count(agents: &Vec<AgentView>, lifecycle: AgentLifecycle) -> (r: usize)
    ensures
        r == count_of(views(agents@), lifecycle),
{
    let ghost all = views(agents@);
    let mut r: usize = 0;
    let mut i: usize = 0;
    assert(all.subrange(0, 0) =~= Seq::empty());
    while i < agents.len()
        invariant
            i <= agents.len(),
            all == views(agents@),
            r <= i,
            r == count_of(all.subrange(0, i as int), lifecycle),
        decreases agents.len() - i,
    {
        let ghost next = all.subrange(0, i as int + 1);
        assert(next.drop_last() =~= all.subrange(0, i as int));
        assert(next.last() == agents@[i as int]@);
        if agents[i].lifecycle == lifecycle {
            r = r + 1;
        }
        i = i + 1;
    }
    assert(all.subrange(0, all.len() as int) =~= all);
    r
}

impl HarnessApplication {
    /// Shows the team.
    pub fn agents(&self) -> (r: Result<AgentTeamView, ApplicationError>)
        ensures
            outcome(r) == team_shown(self@),
    {
        let catalog = match &self.agent_catalog {
            Some(catalog) => catalog,
            None => {
                return Err(
                    ApplicationError::new("agent-catalog-missing", "Agent Catalog 尚未注入"),
                );
            },
        };
        let definitions = catalog.list();
        let ghost c = catalog@;
        let ghost all = definitions_in_order(c);
        assert(views(definitions@).len() == definitions@.len());
        let mut agents: Vec<AgentView> = Vec::new();
        let mut i: usize = 0;
        while i < definitions.len()
            invariant
                i <= definitions.len(),
                c == catalog@,
                all == definitions_in_order(c),
                views(definitions@) == all,
                agents@.len() == i,
                forall|k: int|
                    0 <= k < i ==> (#[trigger] agents@[k])@ == agent_model(c, all[k]),
            decreases definitions.len() - i,
        {
            let definition = &definitions[i];
            assert(definition@ == all[i as int]);
            let lifecycle = match catalog.lifecycle(definition.id.as_str()) {
                Some(lifecycle) => lifecycle,
                None => AgentLifecycle::Failed,
            };
            agents.push(
                AgentView {
                    id: definition.id.clone(),
                    name: definition.name.clone(),
                    roles: definition.roles.in_order(),
                    capabilities: copy_texts(definition.capabilities.items()),
                    lifecycle,
                    active: catalog.active_count(definition.id.as_str()),
                    max_concurrency: definition.max_concurrency,
                    control_plane: definition.roles.contains(AgentRole::Coordinator)
                        || definition.roles.contains(AgentRole::StaffingRouter),
                },
            );
            i = i + 1;
        }
        assert(views(agents@) =~= agent_models(c));
        let active_runs = self.run_controls.active_run_ids();
        assert(views(active_runs@).len() == active_runs@.len());
        let recoverable_sessions: usize = match &self.agent_state {
            Some(state) => {
                let sessions = state.recoverable_sessions();
                proof {
                    lemma_recovery_of(state@.sessions, views(sessions@));
                }
                assert(views(sessions@).len() == sessions@.len());
                sessions.len()
            },
            None => 0,
        };
        Ok(
            AgentTeamView {
                total: agents.len(),
                sleeping: count(&agents, AgentLifecycle::Sleeping),
                reserved: count(&agents, AgentLifecycle::Reserved),
                running: count(&agents, AgentLifecycle::Running),
                durable_messages: self.agent_messages.is_some(),
                file_leases: self.file_leases.is_some(),
                active_run_controls: active_runs.len(),
                recoverable_sessions,
                agents,
            },
        )
    }

    /// Shows one agent.
    pub fn agent(&self, id: &str) -> (r: Result<AgentView, ApplicationError>)
        ensures
            outcome(r) == agent_shown(self@, id@),
    {
        let mut team = match self.agents() {
            Ok(team) => team,
            Err(error) => {
                return Err(error);
            },
        };
        let ghost c = self@.agent_catalog->0;
        let ghost all = agent_models(c);
        assert(views(team.agents@) == all);
        match &self.agent_catalog {
            Some(catalog) => {
                let ids = catalog.ids();
                proof {
                    lemma_agent_ids(c);
                }
            },
            None => {},
        }
        let mut i: usize = 0;
        let mut found: Option<usize> = None;
        while i < team.agents.len() && found.is_none()
            invariant
                i <= team.agents.len(),
                views(team.agents@) == all,
                match found {
                    Some(at) => at < team.agents@.len() && all[at as int].id == id@,
                    None => forall|k: int| 0 <= k < i ==> (#[trigger] all[k]).id != id@,
                },
            decreases team.agents.len() - i + if found is None {
                1int
            } else {
                0
            },
        {
            assert(all[i as int] == team.agents@[i as int]@);
            if same(team.agents[i].id.as_str(), id) {
                found = Some(i);
            } else {
                i = i + 1;
            }
        }
        match found {
            Some(at) => {
                assert(all[at as int] == team.agents@[at as int]@);
                Ok(team.agents.swap_remove(at))
            },
            None => Err(ApplicationError::new("agent-not-found", id)),
        }
    }

    /// Shows the queue of the active mission.
    pub fn agent_queue(&self, mission: &MissionState, ready: &Vec<String>) -> (r: AgentQueueView)
        ensures
            r@ == queue_shown(self@, mission@, texts(ready@)),
    {
        let mission_id = match &self.active_mission_id {
            Some(id) => id,
            None => {
                let items: Vec<AgentQueueItemView> = Vec::new();
                assert(views(items@) =~= Seq::empty());
                return AgentQueueView { mission_id: None, items };
            },
        };
        let prepared = TextSet::of(copy_texts(ready));
        let ghost s = self@;
        let ghost spec = queue_shown(s, mission@, texts(ready@)).items;
        let ghost keys = in_order(mission@.nodes.dom());
        let total: usize = mission.nodes.len();
        let mut items: Vec<AgentQueueItemView> = Vec::new();
        let mut i: usize = 0;
        while i < total
            invariant
                i <= total,
                total == keys.len(),
                keys == in_order(mission@.nodes.dom()),
                s == self@,
                s.active_mission_id == Some(mission_id@),
                prepared@ == texts(ready@).to_set(),
                spec == queue_shown(s, mission@, texts(ready@)).items,
                items@.len() == i,
                forall|k: int|
                    0 <= k < i ==> (#[trigger] items@[k])@ == spec[k],
            decreases total - i,
        {
            let node = mission.nodes.value_at(i);
            let priority: i32 = match &self.agent_state {
                Some(state) => state.task_priority(mission_id.as_str(), node.id.as_str()),
                None => 0,
            };
            items.push(
                AgentQueueItemView {
                    task_id: node.id.clone(),
                    title: node.title.clone(),
                    agent_definition_id: node.agent_definition_id.clone(),
                    status: node.status,
                    ready: prepared.contains(node.id.as_str()),
                    priority,
                },
            );
            i = i + 1;
        }
        assert(views(items@) =~= spec);
        AgentQueueView { mission_id: Some(mission_id.clone()), items }
    }

    /// Gives a task another priority.
    pub fn set_queue_priority(
        &mut self,
        mission: &MissionState,
        task_id: &str,
        priority: i32,
        now: i64,
    ) -> (r: Result<(), ApplicationError>)
        ensures
            (final(self)@, unit_outcome(r)) == prioritize_step(
                old(self)@,
                mission@,
                task_id@,
                priority,
                now,
            ),
    {
        let mission_id = match &self.active_mission_id {
            Some(id) => id.clone(),
            None => {
                return Err(
                    ApplicationError::new("active-mission-missing", "当前没有活动 Mission"),
                );
            },
        };
        if !mission.nodes.contains_key(task_id) {
            return Err(ApplicationError::new("agent-node-missing", task_id));
        }
        let bounded: i32 = if priority < -100 {
            -100
        } else if priority > 100 {
            100
        } else {
            priority
        };
        match &mut self.agent_state {
            Some(state) => {
                state.set_task_priority(mission_id.as_str(), task_id, bounded, now);
                Ok(())
            },
            None => Err(ApplicationError::new("agent-state-missing", "Agent State Store 尚未注入")),
        }
    }

    /// The command that withdraws a task.
    pub fn cancel_queue_task(&self, task_id: &str, reason: &str) -> (r: Result<
        MissionCommand,
        ApplicationError,
    >)
        ensures
            outcome(r) == task_withdrawal(self@, task_id@, reason@),
    {
        match &self.active_mission_id {
            Some(_) => Ok(
                MissionCommand::CancelNode {
                    node_id: task_id.to_string(),
                    reason: reason.to_string(),
                },
            ),
            None => Err(ApplicationError::new("active-mission-missing", "当前没有活动 Mission")),
        }
    }

    /// The command that gives up the mission.
    pub fn cancel_active_mission(&self, reason: &str) -> (r: Result<
        MissionCommand,
        ApplicationError,
    >)
        ensures
            outcome(r) == mission_withdrawal(self@, reason@),
    {
        match &self.active_mission_id {
            Some(_) => Ok(MissionCommand::CancelMission { reason: reason.to_string() }),
            None => Err(ApplicationError::new("active-mission-missing", "当前没有活动 Mission")),
        }
    }

    /// Shows the budget.
    pub fn agent_budget(&self) -> (r: AgentBudgetView)
        ensures
            r@ == budget_shown(self@),
    {
        AgentBudgetView {
            scope: "runtime".to_string(),
            max_agents: self.agent_budget_policy.max_agents,
            max_parallel_agents: self.agent_budget_policy.max_parallel_agents,
            max_total_tokens: self.agent_budget_policy.max_total_tokens,
            max_tool_calls: self.agent_budget_policy.max_tool_calls,
            max_runtime_millis: self.agent_budget_policy.max_runtime_millis,
            max_retries: self.agent_budget_policy.max_retries,
            max_cost_units: self.mode_profile.max_cost_units,
        }
    }
}

/// The setting behind a field of the budget.
pub fn set_agent_budget(field: &str) -> (r: Result<&'static str, ApplicationError>)
    ensures
        outcome(r) == match budget_key(field@) {
            Some(key) => Outcome::Done(key),
            None => failure(
                "budget-field-invalid"@,
                "支持 agents/parallel/tokens/tools/runtime-ms/retries/cost"@,
            ),
        },
{
    if same(field, "agents") {
        Ok("agents.max")
    } else if same(field, "parallel") {
        Ok("agents.parallel")
    } else if same(field, "tokens") {
        Ok("agents.tokens")
    } else if same(field, "tools") {
        Ok("agents.tools")
    } else if same(field, "runtime-ms") {
        Ok("agents.runtime-ms")
    } else if same(field, "retries") {
        Ok("agents.retries")
    } else if same(field, "cost") {
        Ok("agents.cost")
    } else {
        Err(
            ApplicationError::new(
                "budget-field-invalid",
                "支持 agents/parallel/tokens/tools/runtime-ms/retries/cost",
            ),
        )
    }
}

/// A priority that was given is shown, within the bounds of the queue.
pub proof fn law_a_given_priority_is_shown(
    s: AppView,
    mission: MissionView,
    task: Seq<char>,
    priority: i32,
    now: i64,
)
    ensures
        prioritize_step(s, mission, task, priority, now).1 is Done ==> shown_priority(
            prioritize_step(s, mission, task, priority, now).0,
            s.active_mission_id->0,
            task,
        ) == bounded_priority(priority) && -100 <= bounded_priority(priority) <= 100,
{
}

} // verus!
