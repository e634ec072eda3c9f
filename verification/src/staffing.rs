//! Staffing: which agent takes which task.

use vstd::prelude::*;
use vstd::string::*;

use crate::catalog::{
    active, catalog_ok, definitions_in_order, entry_ok, AgentCatalog, AgentDefinition,
    AgentDefinitionId, CatalogView, DefinitionView,
};
use crate::digest::{hash_text, text_hash};
use crate::error::{list_outcome, AgentError, ErrorView, Outcome};
use crate::json::{json_text, object, text_json, Json, JsonView};
use crate::model::{group_views, views};
use crate::ordered::{in_order, TextSet};
use crate::roles::{
    common_roles, role_kebab, role_kebab_text, roles_in_order, AgentRole, RoleSet,
};
use crate::text::{decimal, decimal_of, text_less, texts};

verus! {

pub type TaskId = String;

/// A task in search of an agent.
#[derive(Debug, PartialEq, Eq)]
pub struct StaffingTask {
    pub task_id: TaskId,
    pub required_capabilities: TextSet,
    pub preferred_roles: RoleSet,
    pub forbidden_agents: TextSet,
}

pub struct StaffingTaskView {
    pub task_id: Seq<char>,
    pub required_capabilities: Set<Seq<char>>,
    pub preferred_roles: Set<AgentRole>,
    pub forbidden_agents: Set<Seq<char>>,
}

impl View for StaffingTask {
    type V = StaffingTaskView;

    open spec fn view(&self) -> StaffingTaskView {
        StaffingTaskView {
            task_id: self.task_id@,
            required_capabilities: self.required_capabilities@,
            preferred_roles: self.preferred_roles@,
            forbidden_agents: self.forbidden_agents@,
        }
    }
}

/// A task with the agent that takes it.
#[derive(Debug, PartialEq, Eq)]
pub struct StaffingAssignment {
    pub task_id: TaskId,
    pub agent_id: AgentDefinitionId,
    pub score: i64,
    pub reason_summary: String,
    pub catalog_fingerprint: String,
}

pub struct AssignmentView {
    pub task_id: Seq<char>,
    pub agent_id: Seq<char>,
    pub score: int,
    pub reason_summary: Seq<char>,
    pub catalog_fingerprint: Seq<char>,
}

impl View for StaffingAssignment {
    type V = AssignmentView;

    open spec fn view(&self) -> AssignmentView {
        AssignmentView {
            task_id: self.task_id@,
            agent_id: self.agent_id@,
            score: self.score as int,
            reason_summary: self.reason_summary@,
            catalog_fingerprint: self.catalog_fingerprint@,
        }
    }
}

pub open spec fn text_list(items: Seq<Seq<char>>) -> JsonView {
    JsonView::List(Seq::new(items.len(), |i: int| JsonView::Text(items[i])))
}

/// A definition as it is serialised.
pub open spec fn definition_json(d: DefinitionView) -> JsonView {
    JsonView::Object(
        seq![
            ("id"@, JsonView::Text(d.id)),
            ("name"@, JsonView::Text(d.name)),
            (
                "roles"@,
                text_list(
                    Seq::new(
                        roles_in_order(d.roles).len(),
                        |i: int| role_kebab_text(roles_in_order(d.roles)[i]),
                    ),
                ),
            ),
            ("capabilities"@, text_list(in_order(d.capabilities))),
            ("allowedTools"@, text_list(in_order(d.allowed_tools))),
            ("maxConcurrency"@, JsonView::Unsigned(d.max_concurrency as u64)),
            ("costWeight"@, JsonView::Unsigned(d.cost_weight as u64)),
            ("integrityFloor"@, JsonView::Text(d.integrity_floor)),
        ],
    )
}

/// The definitions of a catalog as they are serialised, in ascending order.
pub open spec fn catalog_json(c: CatalogView) -> JsonView {
    JsonView::List(
        Seq::new(
            definitions_in_order(c).len(),
            |i: int| definition_json(definitions_in_order(c)[i]),
        ),
    )
}

/// The fingerprint of the definitions of a catalog.
pub open spec fn fingerprint_of(c: CatalogView) -> Seq<char> {
    text_hash(json_text(catalog_json(c)))
}

/// How many of the assignments go to an agent.
pub open spec fn assigned(out: Seq<AssignmentView>, id: Seq<char>) -> nat
    decreases out.len(),
{
    if out.len() == 0 {
        0
    } else {
        assigned(out.drop_last(), id) + if out.last().agent_id == id {
            1nat
        } else {
            0
        }
    }
}

/// The agent is not forbidden, has what the task requires, and has an instance to spare.
pub open spec fn can_take(
    c: CatalogView,
    t: StaffingTaskView,
    out: Seq<AssignmentView>,
    id: Seq<char>,
) -> bool {
    &&& c.contains_key(id)
    &&& !t.forbidden_agents.contains(id)
    &&& t.required_capabilities.subset_of(c[id].definition.capabilities)
    &&& active(c, id) + assigned(out, id) < c[id].definition.max_concurrency
}

/// Preferred roles weigh most; cost and what the agent was already given count against it.
pub open spec fn staffing_score(
    c: CatalogView,
    t: StaffingTaskView,
    out: Seq<AssignmentView>,
    id: Seq<char>,
) -> int {
    common_roles(t.preferred_roles, c[id].definition.roles) * 100 - c[id].definition.cost_weight
        - assigned(out, id) * 25
}

/// The higher score wins, and of equal scores the lesser identifier.
pub open spec fn preferred(
    c: CatalogView,
    t: StaffingTaskView,
    out: Seq<AssignmentView>,
    a: Seq<char>,
    b: Seq<char>,
) -> bool {
    let x = staffing_score(c, t, out, a);
    let y = staffing_score(c, t, out, b);
    x > y || (x == y && text_less(a, b))
}

pub open spec fn is_choice(
    c: CatalogView,
    t: StaffingTaskView,
    out: Seq<AssignmentView>,
    id: Seq<char>,
) -> bool {
    &&& can_take(c, t, out, id)
    &&& forall|o: Seq<char>|
        o != id && #[trigger] can_take(c, t, out, o) ==> preferred(c, t, out, id, o)
}

pub open spec fn nobody_can_take(
    c: CatalogView,
    t: StaffingTaskView,
    out: Seq<AssignmentView>,
) -> bool {
    forall|o: Seq<char>| !#[trigger] can_take(c, t, out, o)
}

pub open spec fn assignment_for(
    c: CatalogView,
    t: StaffingTaskView,
    out: Seq<AssignmentView>,
    id: Seq<char>,
) -> AssignmentView {
    AssignmentView {
        task_id: t.task_id,
        agent_id: id,
        score: staffing_score(c, t, out, id),
        reason_summary: "required="@ + decimal(in_order(t.required_capabilities).len())
            + " preferredRoles="@ + decimal(roles_in_order(t.preferred_roles).len()),
        catalog_fingerprint: fingerprint_of(c),
    }
}

/// The first tasks are staffed, each with the choice that the assignments before it leave.
pub open spec fn staffed(
    c: CatalogView,
    tasks: Seq<StaffingTaskView>,
    out: Seq<AssignmentView>,
) -> bool {
    &&& out.len() <= tasks.len()
    &&& forall|i: int|
        0 <= i < out.len() ==> {
            let before = out.subrange(0, i);
            let id = (#[trigger] out[i]).agent_id;
            is_choice(c, tasks[i], before, id) && out[i] == assignment_for(c, tasks[i], before, id)
        }
}

/// What staffing comes to: an assignment for each task, or the first task that nobody can take once
/// those before it are assigned.
pub open spec fn is_staffing(
    c: CatalogView,
    tasks: Seq<StaffingTaskView>,
    result: Outcome<Seq<AssignmentView>>,
) -> bool {
    match result {
        Outcome::Done(out) => staffed(c, tasks, out) && out.len() == tasks.len(),
        Outcome::Failed(error) => exists|out: Seq<AssignmentView>|
            #![trigger staffed(c, tasks, out)]
            staffed(c, tasks, out) && out.len() < tasks.len() && nobody_can_take(
                c,
                tasks[out.len() as int],
                out,
            ) && error == (ErrorView {
                code: "staffing-no-capable-agent"@,
                message: tasks[out.len() as int].task_id,
            }),
    }
}

fn text_list_of(items: &Vec<String>) -> (r: Json)
    ensures
        r@ == text_list(texts(items@)),
{
    let mut list: Vec<Json> = Vec::new();
    let mut i: usize = 0;
    while i < items.len()
        invariant
            i <= items.len(),
            list@.len() == i,
            forall|k: int| 0 <= k < i ==> (#[trigger] list@[k])@ == JsonView::Text(items@[k]@),
        decreases items.len() - i,
    {
        list.push(text_json(items[i].as_str()));
        i = i + 1;
    }
    let r = Json::List(list);
    assert(r@->List_0 =~= text_list(texts(items@))->List_0);
    r
}

fn definition_to_json(d: &AgentDefinition) -> (r: Json)
    ensures
        r@ == definition_json(d@),
{
    let roles = d.roles.in_order();
    let mut names: Vec<String> = Vec::new();
    let mut i: usize = 0;
    while i < roles.len()
        invariant
            i <= roles.len(),
            roles@ == roles_in_order(d@.roles),
            names@.len() == i,
            forall|k: int| 0 <= k < i ==> (#[trigger] names@[k])@ == role_kebab_text(roles@[k]),
        decreases roles.len() - i,
    {
        names.push(role_kebab(roles[i]).to_owned());
        i = i + 1;
    }
    assert(texts(names@) =~= Seq::new(roles@.len(), |k: int| role_kebab_text(roles@[k])));
    let mut members: Vec<(String, Json)> = Vec::new();
    members.push(("id".to_owned(), text_json(d.id.as_str())));
    members.push(("name".to_owned(), text_json(d.name.as_str())));
    members.push(("roles".to_owned(), text_list_of(&names)));
    members.push(("capabilities".to_owned(), text_list_of(d.capabilities.items())));
    members.push(("allowedTools".to_owned(), text_list_of(d.allowed_tools.items())));
    members.push(("maxConcurrency".to_owned(), Json::Unsigned(d.max_concurrency as u64)));
    members.push(("costWeight".to_owned(), Json::Unsigned(d.cost_weight as u64)));
    members.push(("integrityFloor".to_owned(), text_json(d.integrity_floor.as_str())));
    let r = object(members);
    assert(r@->Object_0 =~= definition_json(d@)->Object_0);
    r
}

/// The fingerprint of the definitions of a catalog: equal catalogs have equal fingerprints.
pub fn catalog_fingerprint(catalog: &AgentCatalog) -> (r: String)
    ensures
        r@ == fingerprint_of(catalog@),
{
    let definitions = catalog.list();
    let mut list: Vec<Json> = Vec::new();
    let mut i: usize = 0;
    while i < definitions.len()
        invariant
            i <= definitions.len(),
            views(definitions@) == definitions_in_order(catalog@),
            list@.len() == i,
            forall|k: int|
                0 <= k < i ==> (#[trigger] list@[k])@ == definition_json(
                    definitions_in_order(catalog@)[k],
                ),
        decreases definitions.len() - i,
    {
        assert(views(definitions@)[i as int] == definitions@[i as int]@);
        list.push(definition_to_json(&definitions[i]));
        i = i + 1;
    }
    let json = Json::List(list);
    assert(json@->List_0 =~= catalog_json(catalog@)->List_0);
    hash_text(json.text().as_str())
}

proof fn lemma_assigned_push(out: Seq<AssignmentView>, a: AssignmentView, id: Seq<char>)
    ensures
        assigned(out.push(a), id) == assigned(out, id) + if a.agent_id == id {
            1nat
        } else {
            0
        },
{
    assert(out.push(a).drop_last() =~= out);
}

fn count_assigned(out: &Vec<StaffingAssignment>, id: &str) -> (r: usize)
    ensures
        r == assigned(views(out@), id@),
        r <= out.len(),
{
    let ghost all = views(out@);
    let mut r: usize = 0;
    let mut i: usize = 0;
    assert(all.subrange(0, 0) =~= Seq::empty());
    while i < out.len()
        invariant
            i <= out.len(),
            all == views(out@),
            r <= i,
            r == assigned(all.subrange(0, i as int), id@),
        decreases out.len() - i,
    {
        proof {
            lemma_assigned_push(all.subrange(0, i as int), all[i as int], id@);
            assert(all.subrange(0, i as int + 1) =~= all.subrange(0, i as int).push(all[i as int]));
        }
        if crate::text::same(out[i].agent_id.as_str(), id) {
            r = r + 1;
        }
        i = i + 1;
    }
    assert(all.subrange(0, all.len() as int) =~= all);
    r
}

/// The score of an agent that can take the task.
fn evaluate(
    catalog: &AgentCatalog,
    task: &StaffingTask,
    out: &Vec<StaffingAssignment>,
    id: &str,
) -> (r: Option<i64>)
    requires
        out@.len() <= i64::MAX / 100,
    ensures
        r is Some <==> can_take(catalog@, task@, views(out@), id@),
        r matches Some(score) ==> score == staffing_score(catalog@, task@, views(out@), id@),
{
    match catalog.definition(id) {
        Some(agent) => {
            proof {
                assert(entry_ok(id@, catalog@[id@]));
            }
            let given = count_assigned(out, id);
            let busy = catalog.active_count(id);
            if task.forbidden_agents.contains(id) || !task.required_capabilities.is_subset(
                &agent.capabilities,
            ) || !(given < agent.max_concurrency - busy) {
                return None;
            }
            let matching = task.preferred_roles.count_common(&agent.roles);
            let score: i64 = matching as i64 * 100 - agent.cost_weight as i64 - given as i64 * 25;
            Some(score)
        },
        None => None,
    }
}

/// Routes tasks to the agents that suit them best.
pub struct StaffingRouter;

impl StaffingRouter {
    /// Finds an agent for each of the tasks in turn. Fails on the first task that nobody can take.
    pub fn assign(tasks: &[StaffingTask], catalog: &AgentCatalog) -> (r: Result<
        Vec<StaffingAssignment>,
        AgentError,
    >)
        requires
            tasks@.len() <= i64::MAX / 100,
        ensures
            is_staffing(catalog@, views(tasks@), list_outcome(r)),
    {
        let fingerprint = catalog_fingerprint(catalog);
        let ids = catalog.ids();
        let ghost c = catalog@;
        let ghost all = views(tasks@);
        let mut out: Vec<StaffingAssignment> = Vec::new();
        let mut n: usize = 0;
        while n < tasks.len()
            invariant
                n <= tasks.len(),
                tasks@.len() <= i64::MAX / 100,
                c == catalog@,
                all == views(tasks@),
                crate::ordered::enumerates(texts(ids@), c.dom()),
                fingerprint@ == fingerprint_of(c),
                out@.len() == n,
                staffed(c, all, views(out@)),
            decreases tasks.len() - n,
        {
            let task = &tasks[n];
            let ghost before = views(out@);
            let ghost t = task@;
            let mut best: Option<(usize, i64)> = None;
            let mut i: usize = 0;
            while i < ids.len()
                invariant
                    i <= ids.len(),
                    out@.len() <= i64::MAX / 100,
                    c == catalog@,
                    t == task@,
                    before == views(out@),
                    crate::ordered::ascending(texts(ids@)),
                    best matches Some((b, s)) ==> b < i && can_take(c, t, before, ids@[b as int]@)
                        && s == staffing_score(c, t, before, ids@[b as int]@) && forall|k: int|
                        0 <= k < i && k != b && #[trigger] can_take(c, t, before, texts(ids@)[k])
                            ==> preferred(c, t, before, ids@[b as int]@, texts(ids@)[k]),
                    best is None ==> forall|k: int|
                        0 <= k < i ==> !#[trigger] can_take(c, t, before, texts(ids@)[k]),
                decreases ids.len() - i,
            {
                assert(texts(ids@)[i as int] == ids@[i as int]@);
                if let Some(score) = evaluate(catalog, task, &out, ids[i].as_str()) {
                    let wins = match best {
                        Some((_, s)) => score > s,
                        None => true,
                    };
                    proof {
                        if let Some((b, s)) = best {
                            assert(texts(ids@)[b as int] == ids@[b as int]@);
                            assert(text_less(texts(ids@)[b as int], texts(ids@)[i as int]));
                        }
                    }
                    if wins {
                        best = Some((i, score));
                    }
                }
                i = i + 1;
            }
            match best {
                Some((b, score)) => {
                    let mut reason = "required=".to_owned();
                    reason.append(decimal_of(task.required_capabilities.len() as u64).as_str());
                    reason.append(" preferredRoles=");
                    reason.append(decimal_of(task.preferred_roles.in_order().len() as u64).as_str());
                    let ghost id = ids@[b as int]@;
                    out.push(
                        StaffingAssignment {
                            task_id: task.task_id.clone(),
                            agent_id: ids[b].clone(),
                            score,
                            reason_summary: reason,
                            catalog_fingerprint: fingerprint.clone(),
                        },
                    );
                    proof {
                        broadcast use group_views;

                        assert(views(out@) == before.push(assignment_for(c, t, before, id)));
                        assert forall|o: Seq<char>|
                            o != id && #[trigger] can_take(c, t, before, o) implies preferred(
                            c,
                            t,
                            before,
                            id,
                            o,
                        ) by {
                            assert(texts(ids@).contains(o));
                            let k = choose|k: int| 0 <= k < ids@.len() && texts(ids@)[k] == o;
                            assert(can_take(c, t, before, texts(ids@)[k]));
                        }
                        lemma_staffed_push(c, all, before, id);
                    }
                },
                None => {
                    proof {
                        assert forall|o: Seq<char>| !#[trigger] can_take(c, t, before, o) by {
                            if can_take(c, t, before, o) {
                                assert(texts(ids@).contains(o));
                                let k = choose|k: int| 0 <= k < ids@.len() && texts(ids@)[k] == o;
                                assert(can_take(c, t, before, texts(ids@)[k]));
                            }
                        }
                        assert(all[n as int] == t);
                        assert(staffed(c, all, before));
                    }
                    return Err(AgentError::new("staffing-no-capable-agent", task.task_id.as_str()));
                },
            }
            n = n + 1;
        }
        Ok(out)
    }
}

proof fn lemma_staffed_push(
    c: CatalogView,
    tasks: Seq<StaffingTaskView>,
    before: Seq<AssignmentView>,
    id: Seq<char>,
)
    requires
        staffed(c, tasks, before),
        before.len() < tasks.len(),
        is_choice(c, tasks[before.len() as int], before, id),
    ensures
        staffed(c, tasks, before.push(assignment_for(c, tasks[before.len() as int], before, id))),
{
    let after = before.push(assignment_for(c, tasks[before.len() as int], before, id));
    assert forall|i: int| 0 <= i < after.len() implies {
        let earlier = after.subrange(0, i);
        let a = (#[trigger] after[i]).agent_id;
        is_choice(c, tasks[i], earlier, a) && after[i] == assignment_for(c, tasks[i], earlier, a)
    } by {
        if i < before.len() {
            assert(after.subrange(0, i) =~= before.subrange(0, i));
            assert(before[i] == after[i]);
        } else {
            assert(after.subrange(0, i) =~= before);
        }
    }
}

proof fn lemma_staffed_prefix(
    c: CatalogView,
    tasks: Seq<StaffingTaskView>,
    out: Seq<AssignmentView>,
)
    requires
        staffed(c, tasks, out),
        out.len() > 0,
    ensures
        staffed(c, tasks, out.drop_last()),
{
    let less = out.drop_last();
    assert forall|i: int| 0 <= i < less.len() implies {
        let earlier = less.subrange(0, i);
        let a = (#[trigger] less[i]).agent_id;
        is_choice(c, tasks[i], earlier, a) && less[i] == assignment_for(c, tasks[i], earlier, a)
    } by {
        assert(less.subrange(0, i) =~= out.subrange(0, i));
        assert(out[i] == less[i]);
    }
}

/// Staffing is determined by the tasks and the catalog: two ways to staff the same number of tasks
/// are the same.
pub proof fn law_staffing_is_deterministic(
    c: CatalogView,
    tasks: Seq<StaffingTaskView>,
    a: Seq<AssignmentView>,
    b: Seq<AssignmentView>,
)
    requires
        staffed(c, tasks, a),
        staffed(c, tasks, b),
        a.len() == b.len(),
    ensures
        a == b,
    decreases a.len(),
{
    if a.len() > 0 {
        lemma_staffed_prefix(c, tasks, a);
        lemma_staffed_prefix(c, tasks, b);
        law_staffing_is_deterministic(c, tasks, a.drop_last(), b.drop_last());
        let n = a.len() - 1;
        let before = a.drop_last();
        assert(a.subrange(0, n) =~= before);
        assert(b.subrange(0, n) =~= before);
        let x = a[n].agent_id;
        let y = b[n].agent_id;
        if x != y {
            assert(preferred(c, tasks[n], before, x, y));
            assert(preferred(c, tasks[n], before, y, x));
            crate::text::lemma_text_less_asymmetric(x, y);
        }
        assert(a =~= a.drop_last().push(a[n]));
        assert(b =~= b.drop_last().push(b[n]));
    } else {
        assert(a =~= b);
    }
}

/// No agent is given more than it can take beside what it is already doing.
pub proof fn law_staffing_keeps_capacity(
    c: CatalogView,
    tasks: Seq<StaffingTaskView>,
    out: Seq<AssignmentView>,
    id: Seq<char>,
)
    requires
        catalog_ok(c),
        staffed(c, tasks, out),
        c.contains_key(id),
    ensures
        active(c, id) + assigned(out, id) <= c[id].definition.max_concurrency,
    decreases out.len(),
{
    assert(entry_ok(id, c[id]));
    if out.len() > 0 {
        lemma_staffed_prefix(c, tasks, out);
        law_staffing_keeps_capacity(c, tasks, out.drop_last(), id);
        let n = out.len() - 1;
        assert(out.subrange(0, n) =~= out.drop_last());
        assert(is_choice(c, tasks[n], out.drop_last(), out[n].agent_id));
    }
}

/// Whoever is given a task has the capabilities that it requires and is not forbidden to take it.
pub proof fn law_assignees_qualify(
    c: CatalogView,
    tasks: Seq<StaffingTaskView>,
    out: Seq<AssignmentView>,
    i: int,
)
    requires
        staffed(c, tasks, out),
        0 <= i < out.len(),
    ensures
        c.contains_key(out[i].agent_id),
        tasks[i].required_capabilities.subset_of(c[out[i].agent_id].definition.capabilities),
        !tasks[i].forbidden_agents.contains(out[i].agent_id),
        out[i].task_id == tasks[i].task_id,
{
    let a = out[i];
}

} // verus!
