//! Scheduling: which of the ready tasks run in the next batch.

use vstd::prelude::*;

use crate::catalog::AgentDefinitionId;
use crate::model::{group_views, lemma_insert_multiset, views};
use crate::ordered::{TextMap, TextSet};
use crate::staffing::{AssignmentView, StaffingAssignment, TaskId};
use crate::text::{less, same, text_less, texts};

verus! {

/// A task that is dispatched.
#[derive(Debug, PartialEq, Eq)]
pub struct ScheduledRun {
    pub task_id: TaskId,
    pub agent_id: AgentDefinitionId,
    pub priority: i32,
    pub estimated_cost_units: u64,
}

pub struct RunView {
    pub task_id: Seq<char>,
    pub agent_id: Seq<char>,
    pub priority: i32,
    pub estimated_cost_units: u64,
}

impl View for ScheduledRun {
    type V = RunView;

    open spec fn view(&self) -> RunView {
        RunView {
            task_id: self.task_id@,
            agent_id: self.agent_id@,
            priority: self.priority,
            estimated_cost_units: self.estimated_cost_units,
        }
    }
}

/// A task that has to wait, and why.
#[derive(Debug, PartialEq, Eq)]
pub struct SchedulingDeferral {
    pub task_id: TaskId,
    pub reason: String,
}

pub struct DeferralView {
    pub task_id: Seq<char>,
    pub reason: Seq<char>,
}

impl View for SchedulingDeferral {
    type V = DeferralView;

    open spec fn view(&self) -> DeferralView {
        DeferralView { task_id: self.task_id@, reason: self.reason@ }
    }
}

/// A batch of runs, what was deferred, and what the runs cost together.
#[derive(Debug, PartialEq, Eq)]
pub struct ScheduleBatch {
    pub runs: Vec<ScheduledRun>,
    pub deferred: Vec<SchedulingDeferral>,
    pub total_cost_units: u64,
}

pub struct BatchView {
    pub runs: Seq<RunView>,
    pub deferred: Seq<DeferralView>,
    pub total: u64,
}

impl View for ScheduleBatch {
    type V = BatchView;

    open spec fn view(&self) -> BatchView {
        BatchView {
            runs: views(self.runs@),
            deferred: views(self.deferred@),
            total: self.total_cost_units,
        }
    }
}

pub open spec fn clamp_i32(x: int) -> i32 {
    if x > i32::MAX {
        i32::MAX
    } else if x < i32::MIN {
        i32::MIN
    } else {
        x as i32
    }
}

pub open spec fn value_or<V>(m: Map<Seq<char>, V>, key: Seq<char>, default: V) -> V {
    if m.contains_key(key) {
        m[key]
    } else {
        default
    }
}

/// Each cycle of waiting lifts a task by ten.
pub open spec fn aged_priority(priority: i32, cycles: u32) -> i32 {
    let waited = if cycles > i32::MAX {
        i32::MAX as int
    } else {
        cycles as int
    };
    clamp_i32(priority + clamp_i32(waited * 10))
}

/// The agent of the last assignment for a task.
pub open spec fn agent_for(assignments: Seq<AssignmentView>, task: Seq<char>) -> Option<Seq<char>>
    decreases assignments.len(),
{
    if assignments.len() == 0 {
        None
    } else if assignments.last().task_id == task {
        Some(assignments.last().agent_id)
    } else {
        agent_for(assignments.drop_last(), task)
    }
}

pub struct Weights {
    pub priorities: Map<Seq<char>, i32>,
    pub wait_cycles: Map<Seq<char>, u32>,
    pub estimated_costs: Map<Seq<char>, u64>,
}

pub open spec fn candidate(task: Seq<char>, agent: Seq<char>, w: Weights) -> RunView {
    RunView {
        task_id: task,
        agent_id: agent,
        priority: aged_priority(value_or(w.priorities, task, 0), value_or(w.wait_cycles, task, 0)),
        estimated_cost_units: value_or(w.estimated_costs, task, 1),
    }
}

/// Those of the ready tasks that an agent was assigned to.
pub open spec fn candidates(
    ready: Seq<Seq<char>>,
    assignments: Seq<AssignmentView>,
    w: Weights,
) -> Seq<RunView>
    decreases ready.len(),
{
    if ready.len() == 0 {
        Seq::empty()
    } else {
        let before = candidates(ready.drop_last(), assignments, w);
        match agent_for(assignments, ready.last()) {
            Some(agent) => before.push(candidate(ready.last(), agent, w)),
            None => before,
        }
    }
}

/// Higher priority first, and of equal priorities the lesser task.
pub open spec fn comes_first(a: RunView, b: RunView) -> bool {
    a.priority > b.priority || (a.priority == b.priority && text_less(a.task_id, b.task_id))
}

pub open spec fn in_dispatch_order(runs: Seq<RunView>) -> bool {
    forall|i: int, j: int|
        0 <= i < j < runs.len() ==> !comes_first(#[trigger] runs[j], #[trigger] runs[i])
}

/// The same candidates, in the order in which they are considered.
pub open spec fn is_dispatch_order(of: Seq<RunView>, order: Seq<RunView>) -> bool {
    in_dispatch_order(order) && order.to_multiset() == of.to_multiset()
}

pub struct Limits {
    pub concurrency: nat,
    pub cancelled: Set<Seq<char>>,
    pub max_cost: u64,
}

pub open spec fn saturating_sum(a: u64, b: u64) -> u64 {
    if a + b > u64::MAX {
        u64::MAX
    } else {
        (a + b) as u64
    }
}

/// What keeps a candidate from running beside the runs already chosen.
pub open spec fn obstacle(batch: BatchView, run: RunView, limits: Limits) -> Option<Seq<char>> {
    if limits.cancelled.contains(run.task_id) {
        Some("cancelled-before-dispatch"@)
    } else if batch.runs.len() >= limits.concurrency {
        Some("global-concurrency-limit"@)
    } else if saturating_sum(batch.total, run.estimated_cost_units) > limits.max_cost {
        Some("batch-cost-budget"@)
    } else {
        None
    }
}

pub open spec fn considered(batch: BatchView, run: RunView, limits: Limits) -> BatchView {
    match obstacle(batch, run, limits) {
        Some(reason) => BatchView {
            runs: batch.runs,
            deferred: batch.deferred.push(DeferralView { task_id: run.task_id, reason }),
            total: batch.total,
        },
        None => BatchView {
            runs: batch.runs.push(run),
            deferred: batch.deferred,
            total: saturating_sum(batch.total, run.estimated_cost_units),
        },
    }
}

/// The batch after the candidates were considered one after another.
pub open spec fn dispatched(order: Seq<RunView>, limits: Limits) -> BatchView
    decreases order.len(),
{
    if order.len() == 0 {
        BatchView { runs: Seq::empty(), deferred: Seq::empty(), total: 0 }
    } else {
        considered(dispatched(order.drop_last(), limits), order.last(), limits)
    }
}

/// The batch comes from considering the candidates in their order.
pub open spec fn is_schedule(
    ready: Seq<Seq<char>>,
    assignments: Seq<AssignmentView>,
    w: Weights,
    limits: Limits,
    batch: BatchView,
) -> bool {
    exists|order: Seq<RunView>|
        #![trigger in_dispatch_order(order)]
        is_dispatch_order(candidates(ready, assignments, w), order) && batch == dispatched(
            order,
            limits,
        )
}

fn find_agent(assignments: &[StaffingAssignment], task: &str) -> (r: Option<String>)
    ensures
        r is Some <==> agent_for(views(assignments@), task@) is Some,
        r matches Some(agent) ==> agent_for(views(assignments@), task@) == Some(agent@),
{
    let ghost all = views(assignments@);
    let mut i: usize = assignments.len();
    assert(all.subrange(0, all.len() as int) =~= all);
    while i > 0
        invariant
            i <= assignments.len(),
            all == views(assignments@),
            agent_for(all, task@) == agent_for(all.subrange(0, i as int), task@),
        decreases i,
    {
        assert(all.subrange(0, i as int).drop_last() =~= all.subrange(0, i - 1));
        i = i - 1;
        assert(all[i as int] == assignments@[i as int]@);
        if same(assignments[i].task_id.as_str(), task) {
            return Some(assignments[i].agent_id.clone());
        }
    }
    None
}

fn age(priority: i32, cycles: u32) -> (r: i32)
    ensures
        r == aged_priority(priority, cycles),
{
    let waited: i64 = if cycles > 0x7fff_ffff {
        0x7fff_ffff
    } else {
        cycles as i64
    };
    let lift: i64 = if waited * 10 > 0x7fff_ffff {
        0x7fff_ffff
    } else {
        waited * 10
    };
    let sum: i64 = priority as i64 + lift;
    if sum > 0x7fff_ffff {
        0x7fff_ffff
    } else {
        sum as i32
    }
}

fn precedes(a: &ScheduledRun, b: &ScheduledRun) -> (r: bool)
    ensures
        r == comes_first(a@, b@),
{
    a.priority > b.priority || (a.priority == b.priority && less(
        a.task_id.as_str(),
        b.task_id.as_str(),
    ))
}

proof fn lemma_comes_first_total(a: RunView, b: RunView, c: RunView)
    ensures
        !(comes_first(a, b) && comes_first(b, a)),
        comes_first(a, b) && comes_first(b, c) ==> comes_first(a, c),
        !comes_first(a, b) && !comes_first(b, a) ==> a.priority == b.priority && a.task_id
            == b.task_id,
        !comes_first(b, a) && !comes_first(c, b) ==> !comes_first(c, a),
{
    crate::text::lemma_text_less_total(a.task_id, b.task_id);
    crate::text::lemma_text_less_total(b.task_id, c.task_id);
    crate::text::lemma_text_less_total(a.task_id, c.task_id);
    if text_less(a.task_id, b.task_id) {
        crate::text::lemma_text_less_asymmetric(a.task_id, b.task_id);
    }
    if text_less(b.task_id, a.task_id) {
        crate::text::lemma_text_less_asymmetric(b.task_id, a.task_id);
    }
    if text_less(a.task_id, b.task_id) && text_less(b.task_id, c.task_id) {
        crate::text::lemma_text_less_transitive(a.task_id, b.task_id, c.task_id);
    }
    if text_less(a.task_id, b.task_id) && text_less(c.task_id, a.task_id) {
        crate::text::lemma_text_less_transitive(c.task_id, a.task_id, b.task_id);
    }
    if text_less(b.task_id, c.task_id) && text_less(c.task_id, a.task_id) {
        crate::text::lemma_text_less_transitive(b.task_id, c.task_id, a.task_id);
    }
    if text_less(c.task_id, b.task_id) {
        crate::text::lemma_text_less_asymmetric(c.task_id, b.task_id);
    }
    if text_less(c.task_id, a.task_id) {
        crate::text::lemma_text_less_asymmetric(c.task_id, a.task_id);
    }
    crate::text::lemma_text_less_irreflexive(a.task_id);
    crate::text::lemma_text_less_irreflexive(b.task_id);
    crate::text::lemma_text_less_irreflexive(c.task_id);
}

/// Puts a run in its place among runs in dispatch order.
fn insert_run(order: &mut Vec<ScheduledRun>, run: ScheduledRun)
    requires
        in_dispatch_order(views(old(order)@)),
    ensures
        in_dispatch_order(views(final(order)@)),
        views(final(order)@).to_multiset() == views(old(order)@).to_multiset().insert(run@),
        final(order)@.len() == old(order)@.len() + 1,
{
    let ghost before = views(order@);
    let ghost x = run@;
    let mut at: usize = 0;
    while at < order.len() && !precedes(&run, &order[at])
        invariant
            at <= order.len(),
            before == views(order@),
            x == run@,
            forall|k: int| 0 <= k < at ==> !comes_first(x, #[trigger] before[k]),
        decreases order.len() - at,
    {
        assert(before[at as int] == order@[at as int]@);
        at = at + 1;
    }
    assert(at < order.len() ==> before[at as int] == order@[at as int]@);
    order.insert(at, run);
    proof {
        broadcast use group_views;

        let after = before.insert(at as int, x);
        assert(views(order@) == after);
        assert forall|i: int, j: int| 0 <= i < j < after.len() implies !comes_first(
            #[trigger] after[j],
            #[trigger] after[i],
        ) by {
            if j == at {
                assert(after[i] == before[i]);
            } else if i == at {
                assert(after[j] == before[j - 1]);
                lemma_comes_first_total(x, before[at as int], before[j - 1]);
                if j - 1 > at {
                    assert(!comes_first(before[j - 1], before[at as int]));
                    lemma_comes_first_total(before[j - 1], x, before[at as int]);
                }
            } else {
                let a = if i < at { i } else { i - 1 };
                let b = if j < at { j } else { j - 1 };
                assert(after[i] == before[a]);
                assert(after[j] == before[b]);
            }
        }
        lemma_insert_multiset(before, at as int, x);
    }
}

/// Chooses runs within a limit on how many of them are active at once.
pub struct AgentScheduler {
    pub concurrency_limit: usize,
}

impl AgentScheduler {
    /// Schedules without waiting cycles, costs, cancellations or a budget.
    pub fn schedule(
        &self,
        ready: &Vec<TaskId>,
        assignments: &[StaffingAssignment],
        priorities: &TextMap<i32>,
    ) -> (r: Vec<ScheduledRun>)
        ensures
            exists|order: Seq<RunView>|
                #![trigger in_dispatch_order(order)]
                is_dispatch_order(
                    candidates(
                        texts(ready@),
                        views(assignments@),
                        (Weights {
                            priorities: priorities@,
                            wait_cycles: Map::empty(),
                            estimated_costs: Map::empty(),
                        }),
                    ),
                    order,
                ) && views(r@) == dispatched(
                    order,
                    (Limits {
                        concurrency: self.concurrency_limit as nat,
                        cancelled: Set::empty(),
                        max_cost: u64::MAX,
                    }),
                ).runs,
    {
        let wait_cycles: TextMap<u32> = TextMap::new();
        let costs: TextMap<u64> = TextMap::new();
        let cancelled = TextSet::new();
        self.schedule_with_constraints(
            ready,
            assignments,
            priorities,
            &wait_cycles,
            &costs,
            &cancelled,
            0xffff_ffff_ffff_ffff,
        ).runs
    }

    /// Waiting lifts a task so that it does not starve; cancellations and the budget of the batch
    /// take effect before any agent is woken.
    pub fn schedule_with_constraints(
        &self,
        ready: &Vec<TaskId>,
        assignments: &[StaffingAssignment],
        priorities: &TextMap<i32>,
        wait_cycles: &TextMap<u32>,
        estimated_costs: &TextMap<u64>,
        cancelled_tasks: &TextSet,
        max_total_cost_units: u64,
    ) -> (r: ScheduleBatch)
        ensures
            is_schedule(
                texts(ready@),
                views(assignments@),
                (Weights {
                    priorities: priorities@,
                    wait_cycles: wait_cycles@,
                    estimated_costs: estimated_costs@,
                }),
                (Limits {
                    concurrency: self.concurrency_limit as nat,
                    cancelled: cancelled_tasks@,
                    max_cost: max_total_cost_units,
                }),
                r@,
            ),
    {
        let ghost w = Weights {
            priorities: priorities@,
            wait_cycles: wait_cycles@,
            estimated_costs: estimated_costs@,
        };
        let ghost limits = Limits {
            concurrency: self.concurrency_limit as nat,
            cancelled: cancelled_tasks@,
            max_cost: max_total_cost_units,
        };
        let ghost tasks = texts(ready@);
        let ghost staff = views(assignments@);
        let mut order: Vec<ScheduledRun> = Vec::new();
        let mut i: usize = 0;
        proof {
            broadcast use vstd::seq_lib::group_to_multiset_ensures;

            assert(tasks.subrange(0, 0) =~= Seq::empty());
            assert(views(order@) =~= Seq::empty());
        }
        while i < ready.len()
            invariant
                i <= ready.len(),
                tasks == texts(ready@),
                staff == views(assignments@),
                w == (Weights {
                    priorities: priorities@,
                    wait_cycles: wait_cycles@,
                    estimated_costs: estimated_costs@,
                }),
                in_dispatch_order(views(order@)),
                views(order@).to_multiset() == candidates(
                    tasks.subrange(0, i as int),
                    staff,
                    w,
                ).to_multiset(),
            decreases ready.len() - i,
        {
            let task = &ready[i];
            proof {
                broadcast use vstd::seq_lib::group_to_multiset_ensures;

                let next = tasks.subrange(0, i as int + 1);
                assert(next.drop_last() =~= tasks.subrange(0, i as int));
                assert(next.last() == task@);
            }
            if let Some(agent_id) = find_agent(assignments, task.as_str()) {
                let priority: i32 = match priorities.get(task.as_str()) {
                    Some(p) => *p,
                    None => 0,
                };
                let cycles: u32 = match wait_cycles.get(task.as_str()) {
                    Some(n) => *n,
                    None => 0,
                };
                let cost: u64 = match estimated_costs.get(task.as_str()) {
                    Some(n) => *n,
                    None => 1,
                };
                let run = ScheduledRun {
                    task_id: task.clone(),
                    agent_id,
                    priority: age(priority, cycles),
                    estimated_cost_units: cost,
                };
                assert(run@ == candidate(task@, agent_id@, w));
                proof {
                    broadcast use vstd::seq_lib::group_to_multiset_ensures;

                    let before = candidates(tasks.subrange(0, i as int), staff, w);
                    assert(before.push(run@).to_multiset() =~= before.to_multiset().insert(run@));
                }
                insert_run(&mut order, run);
            }
            i = i + 1;
        }
        assert(tasks.subrange(0, tasks.len() as int) =~= tasks);
        let ghost all = views(order@);
        let mut rest = order;
        let mut runs: Vec<ScheduledRun> = Vec::new();
        let mut deferred: Vec<SchedulingDeferral> = Vec::new();
        let mut total: u64 = 0;
        let ghost mut done: int = 0;
        proof {
            assert(all.subrange(0, 0) =~= Seq::empty());
            assert(views(runs@) =~= Seq::empty());
            assert(views(deferred@) =~= Seq::empty());
            assert(all.subrange(0, all.len() as int) =~= all);
        }
        while rest.len() > 0
            invariant
                0 <= done <= all.len(),
                views(rest@) == all.subrange(done, all.len() as int),
                limits == (Limits {
                    concurrency: self.concurrency_limit as nat,
                    cancelled: cancelled_tasks@,
                    max_cost: max_total_cost_units,
                }),
                (BatchView { runs: views(runs@), deferred: views(deferred@), total })
                    == dispatched(all.subrange(0, done), limits),
            decreases rest.len(),
        {
            broadcast use group_views;

            let ghost before = views(rest@);
            assert(before.len() == rest@.len());
            let run = rest.remove(0);
            proof {
                assert(run@ == before[0]);
                assert(run@ == all[done]);
                let next = all.subrange(0, done + 1);
                assert(next.drop_last() =~= all.subrange(0, done));
                assert(views(rest@) =~= all.subrange(done + 1, all.len() as int));
                done = done + 1;
            }
            let sum: u64 = total.saturating_add(run.estimated_cost_units);
            if cancelled_tasks.contains(run.task_id.as_str()) {
                deferred.push(
                    SchedulingDeferral {
                        task_id: run.task_id,
                        reason: "cancelled-before-dispatch".to_owned(),
                    },
                );
            } else if runs.len() >= self.concurrency_limit {
                deferred.push(
                    SchedulingDeferral {
                        task_id: run.task_id,
                        reason: "global-concurrency-limit".to_owned(),
                    },
                );
            } else if sum > max_total_cost_units {
                deferred.push(
                    SchedulingDeferral {
                        task_id: run.task_id,
                        reason: "batch-cost-budget".to_owned(),
                    },
                );
            } else {
                total = sum;
                runs.push(run);
            }
        }
        assert(all.subrange(0, done) =~= all);
        assert(in_dispatch_order(all));
        ScheduleBatch { runs, deferred, total_cost_units: total }
    }
}

/// A batch never exceeds the limit on concurrency nor the budget, and each candidate either runs
/// or is deferred.
pub proof fn law_batch_keeps_its_limits(order: Seq<RunView>, limits: Limits)
    ensures
        ({
            let batch = dispatched(order, limits);
            &&& batch.runs.len() <= limits.concurrency
            &&& batch.total <= limits.max_cost
            &&& batch.runs.len() + batch.deferred.len() == order.len()
        }),
    decreases order.len(),
{
    if order.len() > 0 {
        law_batch_keeps_its_limits(order.drop_last(), limits);
    }
}

/// Below saturation the total is what the runs cost together.
pub proof fn law_total_is_the_cost_of_the_runs(order: Seq<RunView>, limits: Limits)
    requires
        limits.max_cost < u64::MAX,
    ensures
        dispatched(order, limits).total == cost_of(dispatched(order, limits).runs),
    decreases order.len(),
{
    if order.len() > 0 {
        law_total_is_the_cost_of_the_runs(order.drop_last(), limits);
        let before = dispatched(order.drop_last(), limits);
        assert(before.runs.push(order.last()).drop_last() =~= before.runs);
    }
}

pub open spec fn cost_of(runs: Seq<RunView>) -> int
    decreases runs.len(),
{
    if runs.len() == 0 {
        0
    } else {
        cost_of(runs.drop_last()) + runs.last().estimated_cost_units
    }
}

/// A cancelled task never runs, and what runs keeps the dispatch order.
pub proof fn law_runs_are_ordered_and_not_cancelled(order: Seq<RunView>, limits: Limits)
    requires
        in_dispatch_order(order),
    ensures
        ({
            let runs = dispatched(order, limits).runs;
            &&& in_dispatch_order(runs)
            &&& forall|i: int|
                0 <= i < runs.len() ==> !limits.cancelled.contains((#[trigger] runs[i]).task_id)
            &&& forall|i: int| 0 <= i < runs.len() ==> order.contains(#[trigger] runs[i])
        }),
    decreases order.len(),
{
    if order.len() > 0 {
        let less = order.drop_last();
        assert forall|i: int, j: int| 0 <= i < j < less.len() implies !comes_first(
            #[trigger] less[j],
            #[trigger] less[i],
        ) by {
            assert(!comes_first(order[j], order[i]));
        }
        law_runs_are_ordered_and_not_cancelled(less, limits);
        let before = dispatched(less, limits).runs;
        let runs = dispatched(order, limits).runs;
        assert forall|i: int| 0 <= i < runs.len() implies order.contains(#[trigger] runs[i]) by {
            if i < before.len() {
                assert(runs[i] == before[i]);
                let k = choose|k: int| 0 <= k < less.len() && less[k] == before[i];
                assert(order[k] == runs[i]);
            } else {
                assert(order[order.len() - 1] == runs[i]);
            }
        }
        assert forall|i: int, j: int| 0 <= i < j < runs.len() implies !comes_first(
            #[trigger] runs[j],
            #[trigger] runs[i],
        ) by {
            assert(runs[i] == before[i]);
            if j < before.len() {
                assert(runs[j] == before[j]);
            } else {
                let k = choose|k: int| 0 <= k < less.len() && less[k] == before[i];
                assert(order[k] == before[i]);
                assert(!comes_first(order[order.len() - 1], order[k]));
            }
        }
    }
}

/// A task that has waited longer is never placed lower for it.
pub proof fn law_waiting_never_lowers(priority: i32, cycles: u32, more: u32)
    requires
        cycles <= more,
    ensures
        aged_priority(priority, cycles) <= aged_priority(priority, more),
        priority <= aged_priority(priority, cycles),
{
}

} // verus!
