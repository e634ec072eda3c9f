//! What staffing is for: each task goes to the agent that suits it best of those that can take it.

use vstd::prelude::*;

use crate::catalog::{
    active, catalog_ok, entry_ok, is_available, lifecycle_of, register_step, release_step,
    reserve_step, start_step, AgentLifecycle, CatalogView, DefinitionView,
};
use crate::error::{ErrorView, Outcome};
use crate::roles::{lemma_roles_are_counted, AgentRole};
use crate::staffing::{
    assigned, can_take, is_choice, is_staffing, nobody_can_take, preferred, staffed, AssignmentView,
    StaffingTaskView,
};
use crate::text::{is_blank_text, text_less};

verus! {

/// How many of the roles that a task would like an agent has.
pub open spec fn fitting_roles(t: StaffingTaskView, d: DefinitionView) -> nat {
    t.preferred_roles.intersect(d.roles).len()
}

/// How many of some assignments went to an agent.
pub open spec fn load(out: Seq<AssignmentView>, id: Seq<char>) -> nat {
    out.filter(|a: AssignmentView| a.agent_id == id).len()
}

/// An agent that may take a task after some others were given away: nobody forbids it, it is able to
/// do all that the task needs, and not all of its instances are busy.
pub open spec fn is_fit(
    c: CatalogView,
    t: StaffingTaskView,
    out: Seq<AssignmentView>,
    id: Seq<char>,
) -> bool {
    &&& c.contains_key(id)
    &&& !t.forbidden_agents.contains(id)
    &&& forall|need: Seq<char>| #[trigger]
        t.required_capabilities.contains(need) ==> c[id].definition.capabilities.contains(need)
    &&& c[id].reserved + c[id].running + load(out, id) < c[id].definition.max_concurrency
}

proof fn lemma_load(out: Seq<AssignmentView>, id: Seq<char>)
    ensures
        assigned(out, id) == load(out, id),
    decreases out.len(),
{
    reveal(Seq::filter);
    if out.len() > 0 {
        lemma_load(out.drop_last(), id);
    }
}

proof fn lemma_fit(c: CatalogView, t: StaffingTaskView, out: Seq<AssignmentView>, id: Seq<char>)
    ensures
        can_take(c, t, out, id) == is_fit(c, t, out, id),
{
    lemma_load(out, id);
    if is_fit(c, t, out, id) {
        assert(t.required_capabilities.subset_of(c[id].definition.capabilities));
    }
}

/// Of two agents that can both take a task, the one with more of the roles that the task would like,
/// with a lower cost and with less to do already is chosen: one role outweighs a hundred units of
/// cost, and each task that an agent was given before counts as twenty-five of them. Where both come
/// to the same, the lesser identifier decides.
pub proof fn law_the_best_agent_is_chosen(
    c: CatalogView,
    tasks: Seq<StaffingTaskView>,
    out: Seq<AssignmentView>,
    i: int,
    other: Seq<char>,
)
    requires
        staffed(c, tasks, out),
        0 <= i < out.len(),
        other != out[i].agent_id,
        is_fit(c, tasks[i], out.subrange(0, i), other),
    ensures
        ({
            let chosen = out[i].agent_id;
            let before = out.subrange(0, i);
            let a = c[chosen].definition;
            let b = c[other].definition;
            let roles = fitting_roles(tasks[i], a) - fitting_roles(tasks[i], b);
            let cost = a.cost_weight - b.cost_weight;
            let busy = load(before, chosen) - load(before, other);
            &&& is_fit(c, tasks[i], before, chosen)
            &&& roles == 0 && busy == 0 ==> cost <= 0
            &&& roles == 0 && cost == 0 ==> busy <= 0
            &&& busy == 0 && cost == 0 ==> roles >= 0
            &&& cost + 25 * busy <= 100 * roles
            &&& cost + 25 * busy == 100 * roles ==> text_less(chosen, other)
        }),
{
    let chosen = out[i].agent_id;
    let before = out.subrange(0, i);
    lemma_fit(c, tasks[i], before, other);
    lemma_fit(c, tasks[i], before, chosen);
    lemma_load(before, other);
    lemma_load(before, chosen);
    assert(is_choice(c, tasks[i], before, chosen));
    assert(preferred(c, tasks[i], before, chosen, other));
    lemma_roles_are_counted(
        tasks[i].preferred_roles.intersect(c[chosen].definition.roles),
    );
    lemma_roles_are_counted(tasks[i].preferred_roles.intersect(c[other].definition.roles));
}

/// A score is a hundred for each fitting role, and whatever the agent costs and was given before
/// takes from it: it is never more than a hundred for each fitting role, an agent that costs more
/// scores less by just that, and so does one that was given more.
pub proof fn law_scores_fall_with_cost_and_load(
    c: CatalogView,
    tasks: Seq<StaffingTaskView>,
    out: Seq<AssignmentView>,
    i: int,
)
    requires
        staffed(c, tasks, out),
        0 <= i < out.len(),
    ensures
        ({
            let d = c[out[i].agent_id].definition;
            let fitting = fitting_roles(tasks[i], d);
            let given = load(out.subrange(0, i), out[i].agent_id);
            &&& out[i].score <= 100 * fitting
            &&& out[i].score + d.cost_weight + 25 * given == 100 * fitting
            &&& d.cost_weight > 0 ==> out[i].score < 100 * fitting
            &&& out[i].task_id == tasks[i].task_id
        }),
{
    lemma_load(out.subrange(0, i), out[i].agent_id);
    let d = c[out[i].agent_id].definition;
    lemma_roles_are_counted(tasks[i].preferred_roles.intersect(d.roles));
}

/// Staffing gives each task to one agent as long as somebody is fit for it. It fails with the first
/// task for which nobody is.
pub proof fn law_staffing_fails_only_if_nobody_is_fit(
    c: CatalogView,
    tasks: Seq<StaffingTaskView>,
    result: Outcome<Seq<AssignmentView>>,
)
    requires
        is_staffing(c, tasks, result),
    ensures
        match result {
            Outcome::Done(out) => {
                &&& out.len() == tasks.len()
                &&& forall|i: int|
                    0 <= i < out.len() ==> (#[trigger] out[i]).task_id == tasks[i].task_id
                        && is_fit(c, tasks[i], out.subrange(0, i), out[i].agent_id)
            },
            Outcome::Failed(error) => exists|out: Seq<AssignmentView>|
                #![trigger staffed(c, tasks, out)]
                {
                    &&& staffed(c, tasks, out)
                    &&& out.len() < tasks.len()
                    &&& error.message == tasks[out.len() as int].task_id
                    &&& error.code == "staffing-no-capable-agent"@
                    &&& forall|id: Seq<char>|
                        !#[trigger] is_fit(c, tasks[out.len() as int], out, id)
                },
        },
{
    match result {
        Outcome::Done(out) => {
            assert forall|i: int| 0 <= i < out.len() implies (#[trigger] out[i]).task_id
                == tasks[i].task_id && is_fit(
                c,
                tasks[i],
                out.subrange(0, i),
                out[i].agent_id,
            ) by {
                lemma_fit(c, tasks[i], out.subrange(0, i), out[i].agent_id);
            }
        },
        Outcome::Failed(error) => {
            let out = choose|out: Seq<AssignmentView>|
                #![trigger staffed(c, tasks, out)]
                staffed(c, tasks, out) && out.len() < tasks.len() && nobody_can_take(
                    c,
                    tasks[out.len() as int],
                    out,
                ) && error == (ErrorView {
                    code: "staffing-no-capable-agent"@,
                    message: tasks[out.len() as int].task_id,
                });
            let t = tasks[out.len() as int];
            assert forall|id: Seq<char>| !#[trigger] is_fit(c, t, out, id) by {
                lemma_fit(c, t, out, id);
                assert(!can_take(c, t, out, id));
            }
            assert(staffed(c, tasks, out));
        },
    }
}

/// However many tasks are given away, an agent is never given more of them than it has instances that
/// are free.
pub proof fn law_nobody_is_overloaded(
    c: CatalogView,
    tasks: Seq<StaffingTaskView>,
    out: Seq<AssignmentView>,
    id: Seq<char>,
)
    requires
        catalog_ok(c),
        staffed(c, tasks, out),
        c.contains_key(id),
    ensures
        c[id].reserved + c[id].running + load(out, id) <= c[id].definition.max_concurrency,
{
    crate::staffing::law_staffing_keeps_capacity(c, tasks, out, id);
    lemma_load(out, id);
}

/// All assignments of one staffing say from which catalog they come, and they say the same.
pub proof fn law_assignments_name_their_catalog(
    c: CatalogView,
    tasks: Seq<StaffingTaskView>,
    out: Seq<AssignmentView>,
    i: int,
    j: int,
)
    requires
        staffed(c, tasks, out),
        0 <= i < out.len(),
        0 <= j < out.len(),
    ensures
        out[i].catalog_fingerprint == out[j].catalog_fingerprint,
        out[i].catalog_fingerprint == crate::staffing::fingerprint_of(c),
{
    let a = out[i];
    let b = out[j];
}

/// A definition stands in the catalog once it was registered, as it was given and with nobody at work.
/// It is refused if it has no name, no capability or no room for an instance, if it would write code
/// from the control plane, or if its identifier is taken.
pub proof fn law_definitions_are_registered_once(c: CatalogView, d: DefinitionView)
    ensures
        ({
            let (after, result) = register_step(c, d);
            let control = d.roles.contains(AgentRole::Coordinator) || d.roles.contains(
                AgentRole::StaffingRouter,
            );
            let whole = !is_blank_text(d.name) && d.capabilities != Set::<Seq<char>>::empty()
                && d.max_concurrency > 0;
            &&& result is Done <==> whole && !(control && d.roles.contains(AgentRole::Coder))
                && !c.contains_key(d.id)
            &&& result is Done ==> {
                &&& after.dom() == c.dom().insert(d.id)
                &&& after[d.id].definition == d
                &&& after[d.id].reserved == 0 && after[d.id].running == 0
                &&& register_step(after, d).1 == Outcome::<()>::Failed(
                    ErrorView { code: "agent-definition-exists"@, message: "duplicate"@ },
                )
                &&& forall|id: Seq<char>| #[trigger] c.contains_key(id) ==> after[id] == c[id]
            }
        }),
{
    assert(register_step(c, d).1 is Done ==> register_step(c, d).0.dom() =~= c.dom().insert(d.id));
}

/// An agent can be reserved as long as it has an instance to spare, started as long as one is
/// reserved, and released as long as one is at work or reserved. Reserving and releasing change the
/// number of its active instances by one, and starting leaves that number as it is. What the agent is
/// never changes.
pub proof fn law_instances_are_counted(c: CatalogView, id: Seq<char>)
    requires
        catalog_ok(c),
        c.contains_key(id),
    ensures
        ({
            let e = c[id];
            let (reserved, first) = reserve_step(c, id);
            let (started, second) = start_step(c, id);
            let (released, third) = release_step(c, id);
            &&& first is Done <==> e.reserved + e.running < e.definition.max_concurrency
            &&& second is Done <==> e.reserved > 0
            &&& third is Done <==> e.reserved + e.running > 0
            &&& is_available(c, id) <==> first is Done
            &&& first is Done ==> reserved[id].reserved == e.reserved + 1 && reserved[id].running
                == e.running
            &&& second is Done ==> started[id].reserved == e.reserved - 1 && started[id].running
                == e.running + 1
            &&& third is Done && e.running > 0 ==> released[id].running == e.running - 1
                && released[id].reserved == e.reserved
            &&& third is Done && e.running == 0 ==> released[id].reserved == e.reserved - 1
                && released[id].running == 0
            &&& reserved[id].definition == e.definition && started[id].definition == e.definition
                && released[id].definition == e.definition
            &&& reserved.dom() == c.dom() && started.dom() == c.dom() && released.dom() == c.dom()
            &&& forall|o: Seq<char>|
                o != id && #[trigger] c.contains_key(o) ==> reserved[o] == c[o] && started[o] == c[o]
                    && released[o] == c[o]
            &&& active(c, id) == e.reserved + e.running
            &&& lifecycle_of(c, id) == Some(
                if e.running > 0 {
                    AgentLifecycle::Running
                } else if e.reserved > 0 {
                    AgentLifecycle::Reserved
                } else {
                    AgentLifecycle::Sleeping
                },
            )
        }),
{
    assert(entry_ok(id, c[id]));
    assert(reserve_step(c, id).0.dom() =~= c.dom());
    assert(start_step(c, id).0.dom() =~= c.dom());
    assert(release_step(c, id).0.dom() =~= c.dom());
}

/// Nobody can be reserved, started or released who is not in the catalog.
pub proof fn law_strangers_do_not_work(c: CatalogView, id: Seq<char>)
    requires
        !c.contains_key(id),
    ensures
        reserve_step(c, id) == (
            c,
            Outcome::<()>::Failed(ErrorView { code: "agent-not-available"@, message: id }),
        ),
        start_step(c, id) == (
            c,
            Outcome::<()>::Failed(ErrorView { code: "agent-not-found"@, message: id }),
        ),
        release_step(c, id) == (
            c,
            Outcome::<()>::Failed(ErrorView { code: "agent-not-found"@, message: id }),
        ),
        lifecycle_of(c, id) is None,
        active(c, id) == 0,
{
}

} // verus!
