//! What scheduling is for: whatever is ready runs in its turn unless something stands against it.

use vstd::prelude::*;

use crate::scheduling::{
    agent_for, candidates, comes_first, cost_of, dispatched, in_dispatch_order, is_dispatch_order,
    is_schedule, BatchView, DeferralView, Limits, RunView, Weights,
};
use crate::staffing::AssignmentView;
use crate::text::text_less;
use crate::turn_laws::held_at;

verus! {

/// Somebody is assigned to a task.
pub open spec fn has_agent(assignments: Seq<AssignmentView>, task: Seq<char>) -> bool {
    exists|k: int| 0 <= k < assignments.len() && (#[trigger] assignments[k]).task_id == task
}

/// The agent is the one that was assigned to a task last.
pub open spec fn is_agent_of(
    assignments: Seq<AssignmentView>,
    task: Seq<char>,
    agent: Seq<char>,
) -> bool {
    exists|k: int|
        0 <= k < assignments.len() && (#[trigger] assignments[k]).task_id == task
            && assignments[k].agent_id == agent && forall|l: int|
            k < l < assignments.len() ==> (#[trigger] assignments[l]).task_id != task
}

proof fn lemma_agent(assignments: Seq<AssignmentView>, task: Seq<char>)
    ensures
        match agent_for(assignments, task) {
            Some(agent) => is_agent_of(assignments, task, agent) && has_agent(assignments, task),
            None => !has_agent(assignments, task),
        },
    decreases assignments.len(),
{
    if assignments.len() > 0 {
        let less = assignments.drop_last();
        let n = less.len() as int;
        lemma_agent(less, task);
        assert(assignments[n] == assignments.last());
        if assignments.last().task_id != task {
            match agent_for(less, task) {
                Some(agent) => {
                    let k = choose|k: int|
                        0 <= k < less.len() && (#[trigger] less[k]).task_id == task
                            && less[k].agent_id == agent && forall|l: int|
                            k < l < less.len() ==> (#[trigger] less[l]).task_id != task;
                    assert(assignments[k] == less[k]);
                    assert forall|l: int| k < l < assignments.len() implies (
                    #[trigger] assignments[l]).task_id != task by {
                        if l < n {
                            assert(assignments[l] == less[l]);
                        }
                    }
                },
                None => {
                    if has_agent(assignments, task) {
                        let k = choose|k: int|
                            0 <= k < assignments.len() && (#[trigger] assignments[k]).task_id
                                == task;
                        assert(less[k].task_id == task);
                    }
                },
            }
        }
    }
}

/// The candidates of a batch are the tasks that are ready and that somebody is assigned to, in the
/// order in which they are ready. Each goes to the agent that was assigned last. It has the priority
/// that it was given, nought if it was given none, with ten more for each cycle that it has waited;
/// and it costs what was estimated, or one unit.
pub proof fn law_candidates_are_ready_and_staffed(
    ready: Seq<Seq<char>>,
    assignments: Seq<AssignmentView>,
    w: Weights,
)
    ensures
        ({
            let all = candidates(ready, assignments, w);
            let most = i32::MAX as int;
            &&& all.map_values(|r: RunView| r.task_id) == ready.filter(
                |task: Seq<char>| has_agent(assignments, task),
            )
            &&& forall|i: int|
                0 <= i < all.len() ==> {
                    let r = #[trigger] all[i];
                    let given: int = if w.priorities.contains_key(r.task_id) {
                        w.priorities[r.task_id] as int
                    } else {
                        0
                    };
                    let waited: int = if w.wait_cycles.contains_key(r.task_id) {
                        w.wait_cycles[r.task_id] as int
                    } else {
                        0
                    };
                    &&& is_agent_of(assignments, r.task_id, r.agent_id)
                    &&& given + 10 * waited <= most && 10 * waited <= most ==> r.priority == given
                        + 10 * waited
                    &&& r.priority == held_at(most, given + held_at(most, 10 * waited))
                    &&& r.estimated_cost_units == if w.estimated_costs.contains_key(r.task_id) {
                        w.estimated_costs[r.task_id]
                    } else {
                        1
                    }
                }
        }),
    decreases ready.len(),
{
    reveal(Seq::filter);
    let all = candidates(ready, assignments, w);
    if ready.len() > 0 {
        let less = ready.drop_last();
        law_candidates_are_ready_and_staffed(less, assignments, w);
        lemma_agent(assignments, ready.last());
        let before = candidates(less, assignments, w);
        assert(agent_for(assignments, ready.last()) is Some ==> all.map_values(
            |r: RunView| r.task_id,
        ) =~= before.map_values(|r: RunView| r.task_id).push(ready.last()));
        assert forall|i: int| 0 <= i < before.len() implies before[i] == all[i] by {}
    } else {
        assert(all.map_values(|r: RunView| r.task_id) =~= Seq::<Seq<char>>::empty());
    }
}

/// Looking at one more candidate changes nothing of what was decided before it. It runs if it was not
/// cancelled, if fewer runs than may be active stand in the batch already, and if the budget is
/// enough for it beside them; otherwise it has to wait.
pub proof fn law_one_more_candidate(order: Seq<RunView>, run: RunView, limits: Limits)
    ensures
        ({
            let before = dispatched(order, limits);
            let after = dispatched(order.push(run), limits);
            let runs = !limits.cancelled.contains(run.task_id) && before.runs.len()
                < limits.concurrency && held_at(
                u64::MAX as int,
                cost_of(before.runs) + run.estimated_cost_units,
            ) <= limits.max_cost;
            &&& runs ==> after.runs == before.runs + seq![run] && after.deferred == before.deferred
            &&& !runs ==> after.runs == before.runs && after.deferred.len() == before.deferred.len()
                + 1 && after.deferred.last().task_id == run.task_id && after.deferred.drop_last()
                == before.deferred
            &&& after.total == held_at(u64::MAX as int, cost_of(after.runs))
        }),
{
    assert(order.push(run).drop_last() =~= order);
    lemma_total(order, limits);
    lemma_total(order.push(run), limits);
    let before = dispatched(order, limits);
    let after = dispatched(order.push(run), limits);
    assert(before.runs.push(run) =~= before.runs + seq![run]);
    assert(after.deferred.len() > before.deferred.len() ==> after.deferred.drop_last()
        =~= before.deferred);
}

proof fn lemma_cost_grows(runs: Seq<RunView>, run: RunView)
    ensures
        cost_of(runs.push(run)) == cost_of(runs) + run.estimated_cost_units,
        cost_of(runs) >= 0,
    decreases runs.len(),
{
    assert(runs.push(run).drop_last() =~= runs);
    if runs.len() > 0 {
        lemma_cost_grows(runs.drop_last(), runs.last());
    }
}

proof fn lemma_total(order: Seq<RunView>, limits: Limits)
    ensures
        dispatched(order, limits).total == held_at(
            u64::MAX as int,
            cost_of(dispatched(order, limits).runs),
        ),
        cost_of(dispatched(order, limits).runs) >= 0,
    decreases order.len(),
{
    if order.len() > 0 {
        lemma_total(order.drop_last(), limits);
        lemma_cost_grows(dispatched(order.drop_last(), limits).runs, order.last());
    }
}

/// What stands against the candidate at a place: it was cancelled, or as many runs as may be active
/// come before it, or it costs more than what those before it leave of the budget. The first `n` runs
/// come before it, and the others after it.
pub open spec fn is_cause(
    order: Seq<RunView>,
    limits: Limits,
    runs: Seq<RunView>,
    d: DeferralView,
    at: int,
    n: int,
) -> bool {
    &&& 0 <= at < order.len()
    &&& 0 <= n <= runs.len()
    &&& order[at].task_id == d.task_id
    &&& forall|a: int| 0 <= a < n ==> order.subrange(0, at).contains(#[trigger] runs[a])
    &&& forall|a: int|
        n <= a < runs.len() ==> order.subrange(at + 1, order.len() as int).contains(
            #[trigger] runs[a],
        )
    &&& if limits.cancelled.contains(d.task_id) {
        d.reason == "cancelled-before-dispatch"@
    } else if n >= limits.concurrency {
        d.reason == "global-concurrency-limit"@
    } else {
        &&& d.reason == "batch-cost-budget"@
        &&& held_at(
            u64::MAX as int,
            cost_of(runs.subrange(0, n)) + order[at].estimated_cost_units,
        ) > limits.max_cost
    }
}

pub open spec fn has_cause(
    order: Seq<RunView>,
    limits: Limits,
    runs: Seq<RunView>,
    d: DeferralView,
) -> bool {
    exists|at: int, n: int| #[trigger] is_cause(order, limits, runs, d, at, n)
}

proof fn lemma_runs_come_from(order: Seq<RunView>, limits: Limits)
    ensures
        forall|a: int|
            0 <= a < dispatched(order, limits).runs.len() ==> order.contains(
                #[trigger] dispatched(order, limits).runs[a],
            ),
    decreases order.len(),
{
    if order.len() > 0 {
        let less = order.drop_last();
        lemma_runs_come_from(less, limits);
        let before = dispatched(less, limits).runs;
        let runs = dispatched(order, limits).runs;
        assert forall|a: int| 0 <= a < runs.len() implies order.contains(#[trigger] runs[a]) by {
            if a < before.len() {
                let k = less.index_of(before[a]);
                assert(order[k] == runs[a]);
            } else {
                assert(order[order.len() - 1] == runs[a]);
            }
        }
    }
}

/// No candidate is held back without cause: each that has to wait was cancelled, or comes after as
/// many runs as may be active, or would with the runs before it cost more than the budget.
pub proof fn law_nothing_waits_without_cause(order: Seq<RunView>, limits: Limits, k: int)
    requires
        0 <= k < dispatched(order, limits).deferred.len(),
    ensures
        has_cause(
            order,
            limits,
            dispatched(order, limits).runs,
            dispatched(order, limits).deferred[k],
        ),
    decreases order.len(),
{
    let less = order.drop_last();
    let last = order.len() - 1;
    let before = dispatched(less, limits);
    let batch = dispatched(order, limits);
    let d = batch.deferred[k];
    lemma_total(less, limits);
    if k < before.deferred.len() {
        law_nothing_waits_without_cause(less, limits, k);
        assert(before.deferred[k] == d);
        let (at, n) = choose|at: int, n: int| #[trigger]
            is_cause(less, limits, before.runs, before.deferred[k], at, n);
        assert(order[at] == less[at]);
        assert(order.subrange(0, at) =~= less.subrange(0, at));
        assert(batch.runs.subrange(0, n) =~= before.runs.subrange(0, n));
        assert forall|a: int| 0 <= a < n implies order.subrange(0, at).contains(
            #[trigger] batch.runs[a],
        ) by {
            assert(batch.runs[a] == before.runs[a]);
        }
        let later = order.subrange(at + 1, order.len() as int);
        assert forall|a: int| n <= a < batch.runs.len() implies later.contains(
            #[trigger] batch.runs[a],
        ) by {
            if a < before.runs.len() {
                assert(batch.runs[a] == before.runs[a]);
                let some = less.subrange(at + 1, less.len() as int);
                let m = some.index_of(before.runs[a]);
                assert(later[m] == some[m]);
            } else {
                assert(later[later.len() - 1] == batch.runs[a]);
            }
        }
        assert(is_cause(order, limits, batch.runs, d, at, n));
    } else {
        let n = before.runs.len() as int;
        lemma_runs_come_from(less, limits);
        assert(order.subrange(0, last) =~= less);
        assert(before.runs.subrange(0, n) =~= before.runs);
        assert(batch.runs == before.runs);
        assert(is_cause(order, limits, batch.runs, d, last, n));
    }
}

pub open spec fn wanted(limits: Limits) -> spec_fn(RunView) -> bool {
    |r: RunView| !limits.cancelled.contains(r.task_id)
}

pub open spec fn unwanted(limits: Limits) -> spec_fn(RunView) -> bool {
    |r: RunView| limits.cancelled.contains(r.task_id)
}

/// If all candidates that were not cancelled may be active together and the budget is enough for all
/// of them, they all run, and nothing waits but what was cancelled.
pub proof fn law_what_fits_runs(order: Seq<RunView>, limits: Limits)
    requires
        order.filter(wanted(limits)).len() <= limits.concurrency,
        cost_of(order.filter(wanted(limits))) <= limits.max_cost,
    ensures
        ({
            let batch = dispatched(order, limits);
            &&& batch.runs == order.filter(wanted(limits))
            &&& batch.total == cost_of(order.filter(wanted(limits)))
            &&& batch.deferred == order.filter(unwanted(limits)).map_values(
                |r: RunView|
                    DeferralView { task_id: r.task_id, reason: "cancelled-before-dispatch"@ },
            )
        }),
    decreases order.len(),
{
    reveal(Seq::filter);
    let named = |r: RunView|
        DeferralView { task_id: r.task_id, reason: "cancelled-before-dispatch"@ };
    if order.len() > 0 {
        let less = order.drop_last();
        let last = order.last();
        lemma_cost_grows(less.filter(wanted(limits)), last);
        law_what_fits_runs(less, limits);
        lemma_total(less, limits);
        let out = less.filter(unwanted(limits));
        if limits.cancelled.contains(last.task_id) {
            assert(out.push(last).map_values(named) =~= out.map_values(named).push(named(last)));
        }
        assert(dispatched(order, limits).deferred =~= order.filter(unwanted(limits)).map_values(
            |r: RunView| DeferralView { task_id: r.task_id, reason: "cancelled-before-dispatch"@ },
        ));
    } else {
        assert(dispatched(order, limits).deferred =~= order.filter(unwanted(limits)).map_values(
            |r: RunView| DeferralView { task_id: r.task_id, reason: "cancelled-before-dispatch"@ },
        ));
    }
}

/// The tasks of runs, and of what has to wait.
pub open spec fn tasks_run(batch: BatchView) -> Seq<Seq<char>> {
    batch.runs.map_values(|r: RunView| r.task_id)
}

pub open spec fn tasks_waiting(batch: BatchView) -> Seq<Seq<char>> {
    batch.deferred.map_values(|d: DeferralView| d.task_id)
}

proof fn lemma_everybody_is_answered(order: Seq<RunView>, limits: Limits)
    ensures
        ({
            let batch = dispatched(order, limits);
            tasks_run(batch).to_multiset().add(tasks_waiting(batch).to_multiset())
                =~= order.map_values(|r: RunView| r.task_id).to_multiset()
        }),
    decreases order.len(),
{
    broadcast use vstd::seq_lib::group_to_multiset_ensures;

    let named = |r: RunView| r.task_id;
    let batch = dispatched(order, limits);
    if order.len() > 0 {
        let less = order.drop_last();
        lemma_everybody_is_answered(less, limits);
        let before = dispatched(less, limits);
        let last = order.last();
        assert(order.map_values(named) =~= less.map_values(named).push(last.task_id));
        if batch.runs.len() > before.runs.len() {
            assert(tasks_run(batch) =~= tasks_run(before).push(last.task_id));
            assert(tasks_waiting(batch) =~= tasks_waiting(before));
        } else {
            assert(tasks_run(batch) =~= tasks_run(before));
            assert(tasks_waiting(batch) =~= tasks_waiting(before).push(last.task_id));
        }
    } else {
        assert(tasks_run(batch) =~= Seq::<Seq<char>>::empty());
        assert(tasks_waiting(batch) =~= Seq::<Seq<char>>::empty());
        assert(order.map_values(named) =~= Seq::<Seq<char>>::empty());
    }
}

proof fn lemma_names_of(a: Seq<RunView>, b: Seq<RunView>)
    requires
        a.to_multiset() == b.to_multiset(),
    ensures
        a.map_values(|r: RunView| r.task_id).to_multiset() =~= b.map_values(
            |r: RunView| r.task_id,
        ).to_multiset(),
    decreases a.len(),
{
    broadcast use vstd::seq_lib::group_to_multiset_ensures;

    let named = |r: RunView| r.task_id;
    assert(a.len() == a.to_multiset().len());
    assert(b.len() == b.to_multiset().len());
    if a.len() > 0 {
        let x = a.last();
        assert(a.contains(x));
        assert(b.to_multiset().count(x) > 0);
        assert(b.contains(x));
        let k = b.index_of(x);
        let less = a.drop_last();
        let rest = b.remove(k);
        assert(less.push(x) =~= a);
        assert(less.to_multiset() =~= a.to_multiset().remove(x));
        assert(rest.to_multiset() =~= b.to_multiset().remove(x));
        lemma_names_of(less, rest);
        assert(a.map_values(named) =~= less.map_values(named).push(named(x)));
        assert(b.map_values(named).remove(k) =~= rest.map_values(named));
        assert(b.map_values(named)[k] == named(x));
        assert(b.map_values(named).contains(named(x)));
        assert(b.map_values(named).to_multiset() =~= rest.map_values(named).to_multiset().insert(
            named(x),
        ));
    } else {
        assert(a.map_values(named) =~= b.map_values(named));
    }
}

/// Higher priorities first, and of equal ones the lesser task.
pub open spec fn by_priority(runs: Seq<RunView>) -> bool {
    forall|i: int, j: int|
        0 <= i < j < runs.len() ==> {
            let a = #[trigger] runs[i];
            let b = #[trigger] runs[j];
            a.priority > b.priority || (a.priority == b.priority && !text_less(
                b.task_id,
                a.task_id,
            ))
        }
}

pub open spec fn each_has_a_cause(order: Seq<RunView>, limits: Limits, batch: BatchView) -> bool {
    forall|k: int|
        0 <= k < batch.deferred.len() ==> has_cause(
            order,
            limits,
            batch.runs,
            #[trigger] batch.deferred[k],
        )
}

proof fn lemma_by_priority(runs: Seq<RunView>)
    requires
        in_dispatch_order(runs),
    ensures
        by_priority(runs),
{
    assert forall|i: int, j: int| 0 <= i < j < runs.len() implies {
        let a = #[trigger] runs[i];
        let b = #[trigger] runs[j];
        a.priority > b.priority || (a.priority == b.priority && !text_less(b.task_id, a.task_id))
    } by {
        assert(!comes_first(runs[j], runs[i]));
    }
}

/// A schedule answers for each candidate, whether it runs or waits, and for nobody else. What runs
/// was a candidate, was not cancelled and stands in the order of priority, and of equal ones in that
/// of the tasks; it is no more than may be active and costs no more than the budget, as the total
/// tells.
pub proof fn law_schedules_answer_everybody(
    ready: Seq<Seq<char>>,
    assignments: Seq<AssignmentView>,
    w: Weights,
    limits: Limits,
    batch: BatchView,
)
    requires
        is_schedule(ready, assignments, w, limits, batch),
    ensures
        tasks_run(batch).to_multiset().add(tasks_waiting(batch).to_multiset()) =~= candidates(
            ready,
            assignments,
            w,
        ).map_values(|r: RunView| r.task_id).to_multiset(),
        forall|i: int|
            0 <= i < batch.runs.len() ==> candidates(ready, assignments, w).contains(
                #[trigger] batch.runs[i],
            ) && !limits.cancelled.contains(batch.runs[i].task_id),
        by_priority(batch.runs),
        batch.runs.len() <= limits.concurrency,
        batch.total <= limits.max_cost,
        batch.total == held_at(u64::MAX as int, cost_of(batch.runs)),
{
    broadcast use vstd::seq_lib::group_to_multiset_ensures;

    let all = candidates(ready, assignments, w);
    let order = choose|order: Seq<RunView>|
        #![trigger in_dispatch_order(order)]
        is_dispatch_order(all, order) && batch == dispatched(order, limits);
    assert(in_dispatch_order(order));
    crate::scheduling::law_batch_keeps_its_limits(order, limits);
    crate::scheduling::law_runs_are_ordered_and_not_cancelled(order, limits);
    lemma_total(order, limits);
    lemma_everybody_is_answered(order, limits);
    lemma_names_of(order, all);
    lemma_by_priority(batch.runs);
    assert forall|i: int| 0 <= i < batch.runs.len() implies all.contains(
        #[trigger] batch.runs[i],
    ) by {
        assert(order.contains(batch.runs[i]));
        assert(order.to_multiset().count(batch.runs[i]) > 0);
    }
}

/// A schedule looks at the candidates in the order of priority, and none of them waits without cause:
/// it was cancelled, or as many runs as may be active come before it, or it would with the runs
/// before it cost more than the budget. If all that were not cancelled fit in, they all run.
pub proof fn law_schedules_hold_nothing_back(
    ready: Seq<Seq<char>>,
    assignments: Seq<AssignmentView>,
    w: Weights,
    limits: Limits,
    batch: BatchView,
) -> (order: Seq<RunView>)
    requires
        is_schedule(ready, assignments, w, limits, batch),
    ensures
        order.to_multiset() == candidates(ready, assignments, w).to_multiset(),
        by_priority(order),
        each_has_a_cause(order, limits, batch),
        order.filter(wanted(limits)).len() <= limits.concurrency && cost_of(
            order.filter(wanted(limits)),
        ) <= limits.max_cost ==> batch.runs == order.filter(wanted(limits)),
{
    let all = candidates(ready, assignments, w);
    let order = choose|order: Seq<RunView>|
        #![trigger in_dispatch_order(order)]
        is_dispatch_order(all, order) && batch == dispatched(order, limits);
    assert(in_dispatch_order(order));
    lemma_by_priority(order);
    assert forall|k: int| 0 <= k < batch.deferred.len() implies has_cause(
        order,
        limits,
        batch.runs,
        #[trigger] batch.deferred[k],
    ) by {
        law_nothing_waits_without_cause(order, limits, k);
    }
    if order.filter(wanted(limits)).len() <= limits.concurrency && cost_of(
        order.filter(wanted(limits)),
    ) <= limits.max_cost {
        law_what_fits_runs(order, limits);
    }
    order
}

} // verus!
