//! What plans are for: who works on what, and who has to wait for whom.

use vstd::prelude::*;

use crate::builtin::builtin_definitions;
use crate::error::Outcome;
use crate::application::AppView;
use crate::mission::{MissionView, NodePlanView};
use crate::ordered::in_order;
use crate::plans::{
    adaptive_blueprints, closing_blueprints, coder_blueprints, coder_task, coder_tasks, counted,
    ids_of, is_adaptive_plan, main_plan, mentions_any, opening_blueprints, performance_words,
    plan_of, plan_nodes, profile_in, release_words, research_nodes, research_task, research_tasks,
    review_blueprints, review_plan, role_plan, role_plan_outcome, security_words, staffing_tasks,
    AdaptiveTeamProfile, BlueprintView,
};
use crate::roles::AgentRole;
use crate::staffing::{is_staffing, staffed, AssignmentView};
use crate::text::{contains_text, decimal, lemma_decimal_distinct, two_digits};

verus! {

/// Which work has to be done before which other: what is wanted and what is there before how it is
/// built, that before it is divided, that before it is coded, that before it is looked at, that before
/// it is tested, and that before it is released.
pub open spec fn comes_before(first: AgentRole, then: AgentRole) -> bool {
    match then {
        AgentRole::Architect => first is RequirementsAnalyst || first is Explorer,
        AgentRole::Planner => first is Architect,
        AgentRole::Coder => first is Planner,
        AgentRole::Reviewer | AgentRole::SecurityAuditor | AgentRole::PerformanceEngineer
            => first is Coder,
        AgentRole::Tester => first is Reviewer || first is SecurityAuditor
            || first is PerformanceEngineer,
        AgentRole::ReleaseManager => first is Tester,
        _ => false,
    }
}

/// One node of a plan has to wait for another.
pub open spec fn waits_for(nodes: Seq<BlueprintView>, i: int, j: int) -> bool {
    nodes[i].depends_on.contains(nodes[j].id)
}

/// Whether a role has a part in a plan.
pub open spec fn takes_part(role: AgentRole, profile: AdaptiveTeamProfile) -> bool {
    match role {
        AgentRole::RequirementsAnalyst
        | AgentRole::Explorer
        | AgentRole::Architect
        | AgentRole::Planner
        | AgentRole::Coder
        | AgentRole::Reviewer
        | AgentRole::Tester => true,
        AgentRole::SecurityAuditor => profile.security,
        AgentRole::PerformanceEngineer => profile.performance,
        AgentRole::ReleaseManager => profile.release,
        _ => false,
    }
}

pub open spec fn has_role(nodes: Seq<BlueprintView>, role: AgentRole) -> bool {
    exists|i: int| 0 <= i < nodes.len() && (#[trigger] nodes[i]).preferred_role == role
}

/// By what the name of a task of a role can be told.
spec fn mark(role: AgentRole) -> (char, char, char) {
    match role {
        AgentRole::RequirementsAnalyst => ('r', 'e', 'q'),
        AgentRole::Explorer => ('e', 'x', 'p'),
        AgentRole::Architect => ('a', 'r', 'c'),
        AgentRole::Planner => ('p', 'l', 'a'),
        AgentRole::Coder => ('c', 'o', 'd'),
        AgentRole::Reviewer => ('r', 'e', 'v'),
        AgentRole::SecurityAuditor => ('s', 'e', 'c'),
        AgentRole::PerformanceEngineer => ('p', 'e', 'r'),
        AgentRole::Tester => ('t', 'e', 's'),
        _ => ('r', 'e', 'l'),
    }
}

/// The place in a plan at which a role works; coders begin there.
spec fn place(role: AgentRole, count: int, profile: AdaptiveTeamProfile) -> int {
    let sec: int = if profile.security {
        1
    } else {
        0
    };
    let perf: int = if profile.performance {
        1
    } else {
        0
    };
    match role {
        AgentRole::RequirementsAnalyst => 0,
        AgentRole::Explorer => 1,
        AgentRole::Architect => 2,
        AgentRole::Planner => 3,
        AgentRole::Coder => 4,
        AgentRole::Reviewer => 4 + count,
        AgentRole::SecurityAuditor => 5 + count,
        AgentRole::PerformanceEngineer => 5 + count + sec,
        AgentRole::Tester => 5 + count + sec + perf,
        _ => 6 + count + sec + perf,
    }
}

/// What stands at a place of a plan.
proof fn lemma_node(prompt: Seq<char>, count: int, profile: AdaptiveTeamProfile, i: int)
    requires
        1 <= count <= 8,
        0 <= i < adaptive_blueprints(prompt, count, profile).len(),
    ensures
        ({
            let nodes = adaptive_blueprints(prompt, count, profile);
            let node = nodes[i];
            let role = node.preferred_role;
            let m = mark(role);
            &&& takes_part(role, profile)
            &&& role is Coder ==> 4 <= i < 4 + count && node.id == coder_task(i - 4)
            &&& !(role is Coder) ==> i == place(role, count, profile)
            &&& node.id.len() > 7 && node.id[5] == m.0 && node.id[6] == m.1 && node.id[7] == m.2
        }),
{
    reveal_strlit("task:requirements");
    reveal_strlit("task:explorer");
    reveal_strlit("task:architect");
    reveal_strlit("task:planner");
    reveal_strlit("task:coder:");
    reveal_strlit("task:review");
    reveal_strlit("task:security");
    reveal_strlit("task:performance");
    reveal_strlit("task:tester");
    reveal_strlit("task:release");
    let opening = opening_blueprints(prompt);
    let coders = coder_blueprints(prompt, count);
    let reviews = review_blueprints(prompt, count, profile);
    let closing = closing_blueprints(prompt, count, profile);
    let nodes = adaptive_blueprints(prompt, count, profile);
    if i < 4 {
        assert(nodes[i] == opening[i]);
    } else if i < 4 + count {
        assert(nodes[i] == coders[i - 4]);
    } else if i < 4 + count + reviews.len() {
        assert(nodes[i] == reviews[i - 4 - count]);
    } else {
        assert(nodes[i] == closing[i - 4 - count - reviews.len()]);
    }
}

proof fn lemma_node_of(role: AgentRole, prompt: Seq<char>, count: int, profile: AdaptiveTeamProfile)
    requires
        1 <= count <= 8,
        takes_part(role, profile),
    ensures
        ({
            let nodes = adaptive_blueprints(prompt, count, profile);
            let at = place(role, count, profile);
            0 <= at < nodes.len() && nodes[at].preferred_role == role
        }),
{
    let opening = opening_blueprints(prompt);
    let coders = coder_blueprints(prompt, count);
    let reviews = review_blueprints(prompt, count, profile);
    let closing = closing_blueprints(prompt, count, profile);
    let nodes = adaptive_blueprints(prompt, count, profile);
    let at = place(role, count, profile);
    if at < 4 {
        assert(nodes[at] == opening[at]);
    } else if at < 4 + count {
        assert(nodes[at] == coders[at - 4]);
    } else if at < 4 + count + reviews.len() {
        assert(nodes[at] == reviews[at - 4 - count]);
    } else {
        assert(nodes[at] == closing[at - 4 - count - reviews.len()]);
    }
}

/// The numbers of the parts of something are written differently.
proof fn lemma_two_digits(a: nat, b: nat)
    requires
        a < 10,
        b < 10,
        two_digits(a) == two_digits(b),
    ensures
        a == b,
{
    let x = two_digits(a);
    let y = two_digits(b);
    assert(x.last() == y.last());
    lemma_digit(a);
    lemma_digit(b);
    assert(decimal(a) =~= decimal(b));
    lemma_decimal_distinct(a, b);
}

proof fn lemma_digit(a: nat)
    requires
        a < 10,
    ensures
        decimal(a).len() == 1,
        two_digits(a).len() == 2,
        two_digits(a).last() == decimal(a)[0],
{
    reveal_strlit("0");
}

proof fn lemma_coder_tasks_differ(a: int, b: int)
    requires
        0 <= a < 10,
        0 <= b < 10,
        coder_task(a) == coder_task(b),
    ensures
        a == b,
{
    let head = "task:coder:"@;
    let n = head.len() as int;
    lemma_digit(a as nat);
    lemma_digit(b as nat);
    assert(coder_task(a).subrange(n, n + 2) =~= two_digits(a as nat));
    assert(coder_task(b).subrange(n, n + 2) =~= two_digits(b as nat));
    lemma_two_digits(a as nat, b as nat);
}

/// No two tasks of an adaptive plan have the same name, and no two of them the same role, but for the
/// coders. Each role that a plan needs has its part in it, and the coders are as many as were asked
/// for. Security, performance and release have a part if they matter.
pub proof fn law_adaptive_plans_have_one_of_each(
    prompt: Seq<char>,
    count: int,
    profile: AdaptiveTeamProfile,
    i: int,
    j: int,
    role: AgentRole,
)
    requires
        1 <= count <= 8,
        0 <= i < j < adaptive_blueprints(prompt, count, profile).len(),
    ensures
        ({
            let nodes = adaptive_blueprints(prompt, count, profile);
            &&& nodes[i].id != nodes[j].id
            &&& nodes[i].preferred_role == nodes[j].preferred_role ==> nodes[i].preferred_role is Coder
            &&& has_role(nodes, role) <==> takes_part(role, profile)
            &&& nodes.len() == 6 + count + (if profile.security {
                1int
            } else {
                0
            }) + (if profile.performance {
                1int
            } else {
                0
            }) + (if profile.release {
                1int
            } else {
                0
            })
        }),
{
    let nodes = adaptive_blueprints(prompt, count, profile);
    lemma_node(prompt, count, profile, i);
    lemma_node(prompt, count, profile, j);
    if nodes[i].preferred_role is Coder && nodes[j].preferred_role is Coder && nodes[i].id
        == nodes[j].id {
        lemma_coder_tasks_differ(i - 4, j - 4);
    }
    if takes_part(role, profile) {
        lemma_node_of(role, prompt, count, profile);
    }
    if has_role(nodes, role) {
        let k = choose|k: int| 0 <= k < nodes.len() && (#[trigger] nodes[k]).preferred_role == role;
        lemma_node(prompt, count, profile, k);
    }
}

/// A node of an adaptive plan waits for exactly those nodes whose work has to be done before its own:
/// the architect for what is wanted and what is there, the planner for the architect, every coder for
/// the planner, every review for every coder, the tests for every review, and the release for the
/// tests.
pub proof fn law_work_waits_for_what_it_builds_on(
    prompt: Seq<char>,
    count: int,
    profile: AdaptiveTeamProfile,
    i: int,
    j: int,
)
    requires
        1 <= count <= 8,
        0 <= i < adaptive_blueprints(prompt, count, profile).len(),
        0 <= j < adaptive_blueprints(prompt, count, profile).len(),
    ensures
        ({
            let nodes = adaptive_blueprints(prompt, count, profile);
            waits_for(nodes, i, j) <==> comes_before(
                nodes[j].preferred_role,
                nodes[i].preferred_role,
            )
        }),
{
    let nodes = adaptive_blueprints(prompt, count, profile);
    let opening = opening_blueprints(prompt);
    let coders = coder_blueprints(prompt, count);
    let reviews = review_blueprints(prompt, count, profile);
    let closing = closing_blueprints(prompt, count, profile);
    let c = 4 + count + reviews.len();
    lemma_node(prompt, count, profile, i);
    lemma_node(prompt, count, profile, j);
    let id = nodes[j].id;
    if i < 4 {
        assert(nodes[i] == opening[i]);
        assert(nodes[0] == opening[0]);
        assert(nodes[1] == opening[1]);
        assert(nodes[2] == opening[2]);
        if i == 2 {
            let on = nodes[i].depends_on;
            assert(on[0] == nodes[0].id);
            assert(on[1] == nodes[1].id);
            if j > 1 {
                lemma_ids_differ(prompt, count, profile, 0, j);
                lemma_ids_differ(prompt, count, profile, 1, j);
            }
        } else if i == 3 {
            let on = nodes[i].depends_on;
            assert(on[0] == nodes[2].id);
            if j != 2 {
                lemma_ids_differ(prompt, count, profile, 2, j);
            }
        }
    } else if i < 4 + count {
        assert(nodes[i] == coders[i - 4]);
        assert(nodes[3] == opening[3]);
        let on = nodes[i].depends_on;
        assert(on[0] == nodes[3].id);
        if j != 3 {
            lemma_ids_differ(prompt, count, profile, 3, j);
        }
    } else if i < c {
        assert(nodes[i] == reviews[i - 4 - count]);
        let on = coder_tasks(count);
        assert(nodes[i].depends_on == on);
        if 4 <= j < 4 + count {
            assert(nodes[j] == coders[j - 4]);
            assert(on[j - 4] == id);
        } else if on.contains(id) {
            let k = on.index_of(id);
            assert(nodes[4 + k] == coders[k]);
            lemma_ids_differ(prompt, count, profile, 4 + k, j);
        }
    } else if i == c {
        assert(nodes[i] == closing[0]);
        let on = ids_of(reviews);
        assert(nodes[i].depends_on == on);
        if 4 + count <= j < c {
            assert(nodes[j] == reviews[j - 4 - count]);
            assert(on[j - 4 - count] == id);
        } else if on.contains(id) {
            let k = on.index_of(id);
            assert(nodes[4 + count + k] == reviews[k]);
            lemma_ids_differ(prompt, count, profile, 4 + count + k, j);
        }
    } else {
        assert(nodes[i] == closing[1]);
        assert(nodes[c] == closing[0]);
        let on = nodes[i].depends_on;
        assert(on[0] == nodes[c].id);
        if j != c {
            lemma_ids_differ(prompt, count, profile, c, j);
        }
    }
}

proof fn lemma_ids_differ(
    prompt: Seq<char>,
    count: int,
    profile: AdaptiveTeamProfile,
    i: int,
    j: int,
)
    requires
        1 <= count <= 8,
        0 <= i < adaptive_blueprints(prompt, count, profile).len(),
        0 <= j < adaptive_blueprints(prompt, count, profile).len(),
        i != j,
    ensures
        adaptive_blueprints(prompt, count, profile)[i].id != adaptive_blueprints(
            prompt,
            count,
            profile,
        )[j].id,
{
    if i < j {
        law_adaptive_plans_have_one_of_each(prompt, count, profile, i, j, AgentRole::Coder);
    } else {
        law_adaptive_plans_have_one_of_each(prompt, count, profile, j, i, AgentRole::Coder);
    }
}

/// Nothing of an adaptive plan is done for nothing: every node but the last is waited for by a later
/// one.
pub proof fn law_nothing_is_done_for_nothing(
    prompt: Seq<char>,
    count: int,
    profile: AdaptiveTeamProfile,
    i: int,
)
    requires
        1 <= count <= 8,
        0 <= i < adaptive_blueprints(prompt, count, profile).len() - 1,
    ensures
        exists|j: int|
            i < j < adaptive_blueprints(prompt, count, profile).len() && #[trigger] waits_for(
                adaptive_blueprints(prompt, count, profile),
                j,
                i,
            ),
{
    let nodes = adaptive_blueprints(prompt, count, profile);
    lemma_node(prompt, count, profile, i);
    let role = nodes[i].preferred_role;
    let next = match role {
        AgentRole::RequirementsAnalyst | AgentRole::Explorer => AgentRole::Architect,
        AgentRole::Architect => AgentRole::Planner,
        AgentRole::Planner => AgentRole::Coder,
        AgentRole::Coder => AgentRole::Reviewer,
        AgentRole::Reviewer | AgentRole::SecurityAuditor | AgentRole::PerformanceEngineer
            => AgentRole::Tester,
        _ => AgentRole::ReleaseManager,
    };
    if next is ReleaseManager {
        law_adaptive_plans_have_one_of_each(prompt, count, profile, 0, 1, next);
    }
    lemma_node_of(next, prompt, count, profile);
    let j = place(next, count, profile);
    law_work_waits_for_what_it_builds_on(prompt, count, profile, j, i);
    assert(waits_for(nodes, j, i));
}

/// Every node of an adaptive plan says what it is about: its title ends with what was asked for. What
/// looks at the work of others is a review, and all else is a task.
pub proof fn law_nodes_say_what_they_are_about(
    prompt: Seq<char>,
    count: int,
    profile: AdaptiveTeamProfile,
    i: int,
)
    requires
        1 <= count <= 8,
        0 <= i < adaptive_blueprints(prompt, count, profile).len(),
    ensures
        ({
            let node = adaptive_blueprints(prompt, count, profile)[i];
            let n = node.title.len() - prompt.len();
            &&& n > 0
            &&& node.title.subrange(n, node.title.len() as int) == prompt
            &&& node.kind is Review <==> node.preferred_role is Reviewer
                || node.preferred_role is SecurityAuditor
                || node.preferred_role is PerformanceEngineer
                || node.preferred_role is ReleaseManager
            &&& !(node.kind is Review) ==> node.kind is Task
        }),
{
    let opening = opening_blueprints(prompt);
    let coders = coder_blueprints(prompt, count);
    let reviews = review_blueprints(prompt, count, profile);
    let closing = closing_blueprints(prompt, count, profile);
    let nodes = adaptive_blueprints(prompt, count, profile);
    reveal_strlit("澄清范围、非目标与可验证验收标准：");
    reveal_strlit("只读定位入口、依赖、符号与数据流：");
    reveal_strlit("定义边界、契约、失败模式与架构决策：");
    reveal_strlit("把需求与架构转成可并行 Evidence DAG：");
    reveal_strlit("实现受控编码分片 ");
    reveal_strlit("独立审查正确性、契约与回归风险：");
    reveal_strlit("独立安全审计与威胁模型：");
    reveal_strlit("测量基线、瓶颈与性能回归阈值：");
    reveal_strlit("按验收标准验证所有实现与独立审查结论：");
    reveal_strlit("验证版本、产物、校验和与回滚方案：");
    if i < 4 {
        assert(nodes[i] == opening[i]);
    } else if i < 4 + count {
        assert(nodes[i] == coders[i - 4]);
    } else if i < 4 + count + reviews.len() {
        assert(nodes[i] == reviews[i - 4 - count]);
    } else {
        assert(nodes[i] == closing[i - 4 - count - reviews.len()]);
    }
    let node = nodes[i];
    let n = node.title.len() - prompt.len();
    assert(node.title.subrange(n, node.title.len() as int) =~= prompt);
}

/// Somebody of the built-in agents has a role and is able to do something.
pub open spec fn somebody_can(role: AgentRole, capability: Seq<char>) -> bool {
    exists|k: int|
        0 <= k < builtin_definitions().len() && (#[trigger] builtin_definitions()[k]).roles.contains(
            role,
        ) && builtin_definitions()[k].capabilities.contains(capability)
}

/// For every node of an adaptive plan there is a built-in agent of the role that the node would like,
/// and it is able to do what the node needs.
pub proof fn law_built_in_agents_can_staff_adaptive_plans(
    prompt: Seq<char>,
    count: int,
    profile: AdaptiveTeamProfile,
    i: int,
)
    requires
        1 <= count <= 8,
        0 <= i < adaptive_blueprints(prompt, count, profile).len(),
    ensures
        ({
            let node = adaptive_blueprints(prompt, count, profile)[i];
            somebody_can(node.preferred_role, node.required_capability)
        }),
{
    let opening = opening_blueprints(prompt);
    let coders = coder_blueprints(prompt, count);
    let reviews = review_blueprints(prompt, count, profile);
    let closing = closing_blueprints(prompt, count, profile);
    let nodes = adaptive_blueprints(prompt, count, profile);
    if i < 4 {
        assert(nodes[i] == opening[i]);
    } else if i < 4 + count {
        assert(nodes[i] == coders[i - 4]);
    } else if i < 4 + count + reviews.len() {
        assert(nodes[i] == reviews[i - 4 - count]);
    } else {
        assert(nodes[i] == closing[i - 4 - count - reviews.len()]);
    }
    let node = nodes[i];
    let all = builtin_definitions();
    let k: int = match node.preferred_role {
        AgentRole::RequirementsAnalyst => 2,
        AgentRole::Explorer => 3,
        AgentRole::Architect => 4,
        AgentRole::Planner => 5,
        AgentRole::Coder => 6,
        AgentRole::Reviewer => 7,
        AgentRole::SecurityAuditor => 8,
        AgentRole::PerformanceEngineer => 9,
        AgentRole::Tester => 10,
        _ => 11,
    };
    assert(all[2].capabilities.contains("requirements-analysis"@)) by {
        let able = seq!["requirements-analysis"@, "acceptance-criteria"@, "ambiguity-detection"@, "scope-control"@];
        assert(able[0] == "requirements-analysis"@);
    }
    assert(all[3].capabilities.contains("codebase-exploration"@)) by {
        let able = seq!["codebase-exploration"@, "dependency-tracing"@, "repository-map"@, "symbol-discovery"@];
        assert(able[0] == "codebase-exploration"@);
    }
    assert(all[4].capabilities.contains("system-design"@)) by {
        let able = seq!["system-design"@, "boundary-analysis"@, "architecture-decision"@, "risk-analysis"@];
        assert(able[0] == "system-design"@);
    }
    assert(all[5].capabilities.contains("task-decomposition"@)) by {
        let able = seq!["task-decomposition"@, "dependency-analysis"@];
        assert(able[0] == "task-decomposition"@);
    }
    assert(all[6].capabilities.contains("code-edit"@)) by {
        let able = seq!["code-edit"@, "rust"@, "typescript"@];
        assert(able[0] == "code-edit"@);
    }
    assert(all[7].capabilities.contains("code-review"@)) by {
        let able = seq!["code-review"@, "conflict-detection"@];
        assert(able[0] == "code-review"@);
    }
    assert(all[8].capabilities.contains("security-audit"@)) by {
        let able = seq!["security-audit"@, "threat-model"@, "vulnerability-analysis"@, "supply-chain-review"@];
        assert(able[0] == "security-audit"@);
    }
    assert(all[9].capabilities.contains("performance-analysis"@)) by {
        let able = seq!["performance-analysis"@, "benchmark"@, "profiling"@, "regression-analysis"@];
        assert(able[0] == "performance-analysis"@);
    }
    assert(all[10].capabilities.contains("test-execution"@)) by {
        let able = seq!["test-execution"@, "evidence"@];
        assert(able[0] == "test-execution"@);
    }
    assert(all[11].capabilities.contains("release-readiness"@)) by {
        let able = seq!["release-readiness"@, "artifact-verification"@, "version-policy"@, "rollback-planning"@];
        assert(able[0] == "release-readiness"@);
    }
    assert(all[k].roles.contains(node.preferred_role));
    assert(all[k].capabilities.contains(node.required_capability));
}

/// A plan that was made is the drawn plan with an agent for each node. The agent is in the catalog and
/// able to do what the node needs, and nothing else of the node has changed. A plan fails for want of
/// a number of coders that is allowed, of a model, of a catalog or of an agent.
pub proof fn law_adaptive_plans_are_staffed(
    s: AppView,
    prompt: Seq<char>,
    count: int,
    profile: AdaptiveTeamProfile,
    result: Outcome<Seq<NodePlanView>>,
)
    requires
        is_adaptive_plan(s, prompt, count, profile, result),
    ensures
        result is Done ==> 1 <= count <= 4 && s.model_ready && s.agent_catalog is Some,
        result matches Outcome::Done(nodes) ==> {
            let drawn = adaptive_blueprints(prompt, count, profile);
            let c = s.agent_catalog->Some_0;
            &&& nodes.len() == drawn.len()
            &&& forall|i: int|
                0 <= i < nodes.len() ==> {
                    let node = #[trigger] nodes[i];
                    &&& node.id == drawn[i].id && node.title == drawn[i].title && node.kind
                        == drawn[i].kind && node.depends_on == drawn[i].depends_on
                    &&& node.requires_approval is None
                    &&& c.contains_key(node.agent_definition_id)
                    &&& c[node.agent_definition_id].definition.capabilities.contains(
                        drawn[i].required_capability,
                    )
                }
        },
        result matches Outcome::Failed(e) ==> if !(1 <= count <= 4) {
            e.code == "adaptive-workflow-worker-count-invalid"@
        } else if !s.model_ready {
            e.code == "model-runtime-missing"@
        } else if s.agent_catalog is None {
            e.code == "agent-catalog-missing"@
        } else {
            e.code == "staffing-no-capable-agent"@
        },
{
    if 1 <= count <= 4 && s.model_ready && s.agent_catalog is Some {
        let drawn = adaptive_blueprints(prompt, count, profile);
        let c = s.agent_catalog->Some_0;
        let tasks = staffing_tasks(drawn);
        let staffing = choose|staffing: Outcome<Seq<AssignmentView>>|
            #![trigger is_staffing(c, tasks, staffing)]
            is_staffing(c, tasks, staffing) && result == match staffing {
                Outcome::Done(out) => Outcome::Done(plan_nodes(drawn, out)),
                Outcome::Failed(e) => Outcome::Failed(e),
            };
        if let Outcome::Done(out) = staffing {
            let nodes = plan_nodes(drawn, out);
            assert(staffed(c, tasks, out));
            assert forall|i: int| 0 <= i < nodes.len() implies {
                let node = #[trigger] nodes[i];
                c.contains_key(node.agent_definition_id)
                    && c[node.agent_definition_id].definition.capabilities.contains(
                    drawn[i].required_capability,
                )
            } by {
                crate::staffing::law_assignees_qualify(c, tasks, out, i);
                assert(tasks[i].required_capabilities.contains(drawn[i].required_capability));
            }
        }
    }
}

/// The plan of a small team: a planner first, then as many coders as were asked for, each after the
/// planner, then a review after all coders, and tests after the review. The nodes have different
/// names, each of them is about what was asked for, and each goes to the built-in agent of its role.
pub proof fn law_small_teams_plan_code_review_and_test(prompt: Seq<char>, count: int)
    requires
        1 <= count <= 4,
    ensures
        ({
            let nodes = role_plan(prompt, count);
            let review = nodes[1 + count];
            let tester = nodes[2 + count];
            &&& nodes.len() == 3 + count
            &&& nodes[0].agent_definition_id == builtin_definitions()[5].id
            &&& nodes[0].depends_on.len() == 0
            &&& nodes[0].kind is Task && tester.kind is Task && review.kind is Review
            &&& forall|i: int|
                1 <= i <= count ==> {
                    let coder = #[trigger] nodes[i];
                    &&& coder.depends_on == seq![nodes[0].id]
                    &&& coder.agent_definition_id == builtin_definitions()[6].id
                    &&& coder.kind is Task
                    &&& review.depends_on[i - 1] == coder.id
                    &&& coder.id != review.id && coder.id != nodes[0].id && coder.id != tester.id
                }
            &&& forall|i: int, j: int|
                1 <= i < j <= count ==> (#[trigger] nodes[i]).id != (#[trigger] nodes[j]).id
            &&& review.depends_on.len() == count
            &&& review.agent_definition_id == builtin_definitions()[7].id
            &&& tester.depends_on == seq![review.id]
            &&& tester.agent_definition_id == builtin_definitions()[10].id
            &&& nodes[0].id != review.id && nodes[0].id != tester.id && review.id != tester.id
            &&& forall|i: int|
                0 <= i < nodes.len() ==> {
                    let title = (#[trigger] nodes[i]).title;
                    title.len() > prompt.len() && title.subrange(
                        title.len() - prompt.len(),
                        title.len() as int,
                    ) == prompt && nodes[i].requires_approval is None
                }
        }),
        builtin_definitions()[5].roles.contains(AgentRole::Planner),
        builtin_definitions()[6].roles.contains(AgentRole::Coder),
        builtin_definitions()[7].roles.contains(AgentRole::Reviewer),
        builtin_definitions()[10].roles.contains(AgentRole::Tester),
{
    reveal_strlit("task:planner");
    reveal_strlit("task:coder:");
    reveal_strlit("task:review");
    reveal_strlit("task:tester");
    reveal_strlit("规划：");
    reveal_strlit("编码分片 ");
    reveal_strlit("审查所有编码分片：");
    reveal_strlit("验证审查结论：");
    let nodes = role_plan(prompt, count);
    assert("task:planner"@[5] == 'p');
    assert("task:review"@[5] == 'r');
    assert("task:tester"@[5] == 't');
    assert forall|i: int| 1 <= i <= count implies (#[trigger] nodes[i]).id[5] == 'c' && nodes[i].id
        == coder_task(i - 1) by {}
    assert forall|i: int, j: int| 1 <= i < j <= count implies (#[trigger] nodes[i]).id != (
    #[trigger] nodes[j]).id by {
        if nodes[i].id == nodes[j].id {
            lemma_coder_tasks_differ(i - 1, j - 1);
        }
    }
    assert forall|i: int| 0 <= i < nodes.len() implies {
        let title = (#[trigger] nodes[i]).title;
        title.len() > prompt.len() && title.subrange(
            title.len() - prompt.len(),
            title.len() as int,
        ) == prompt
    } by {
        let title = nodes[i].title;
        assert(title.subrange(title.len() - prompt.len(), title.len() as int) =~= prompt);
    }
}

/// A small team has between one and four coders, and needs a model.
pub proof fn law_small_teams_need_a_model(s: AppView, prompt: Seq<char>, count: int)
    ensures
        match role_plan_outcome(s, prompt, count) {
            Outcome::Done(nodes) => 1 <= count <= 4 && s.model_ready && nodes == role_plan(
                prompt,
                count,
            ),
            Outcome::Failed(e) => if 1 <= count <= 4 {
                !s.model_ready && e.code == "model-runtime-missing"@
            } else {
                e.code == "agent-workflow-worker-count-invalid"@
            },
        },
{
}

/// A single task is a plan of one node for a coder, and a single review a plan of one node for an agent
/// that reviews; neither waits for anybody.
pub proof fn law_single_nodes_wait_for_nobody(prompt: Seq<char>)
    ensures
        main_plan(prompt).len() == 1,
        main_plan(prompt)[0].title == prompt,
        main_plan(prompt)[0].depends_on.len() == 0,
        main_plan(prompt)[0].kind is Task,
        main_plan(prompt)[0].agent_definition_id == builtin_definitions()[6].id,
        main_plan(prompt)[0].requires_approval is None,
        review_plan().len() == 1,
        review_plan()[0].depends_on.len() == 0,
        review_plan()[0].kind is Review,
        review_plan()[0].agent_definition_id == builtin_definitions()[7].id,
        builtin_definitions()[6].roles.contains(AgentRole::Coder),
        builtin_definitions()[7].roles.contains(AgentRole::Reviewer),
{
}

/// A team for research has one task for each agent, under different names, that asks for research and
/// would like a researcher; its nodes wait for nobody, go to whom they were given and say what they
/// are about.
pub proof fn law_research_is_done_side_by_side(
    prompt: Seq<char>,
    count: int,
    assignments: Seq<AssignmentView>,
    i: int,
    j: int,
)
    requires
        0 <= i < j < count <= 8,
        assignments.len() == count,
    ensures
        ({
            let tasks = research_tasks(count);
            let nodes = research_nodes(prompt, assignments);
            let title = nodes[i].title;
            &&& tasks.len() == count && nodes.len() == count
            &&& tasks[i].task_id != tasks[j].task_id
            &&& tasks[i].required_capabilities.contains("research"@)
            &&& tasks[i].preferred_roles.contains(AgentRole::Researcher)
            &&& forall|agent: Seq<char>| !#[trigger] tasks[i].forbidden_agents.contains(agent)
            &&& nodes[i].id == assignments[i].task_id
            &&& nodes[i].agent_definition_id == assignments[i].agent_id
            &&& nodes[i].depends_on.len() == 0
            &&& nodes[i].kind is Task
            &&& nodes[i].requires_approval is None
            &&& title.len() > prompt.len()
            &&& title.subrange(title.len() - prompt.len(), title.len() as int) == prompt
        }),
        somebody_can(AgentRole::Researcher, "research"@),
{
    reveal_strlit("并行研究分片 ");
    let head = "task:research:"@;
    let n = head.len() as int;
    lemma_digit(i as nat);
    lemma_digit(j as nat);
    assert(research_task(i).subrange(n, n + 2) =~= two_digits(i as nat));
    assert(research_task(j).subrange(n, n + 2) =~= two_digits(j as nat));
    if research_task(i) == research_task(j) {
        lemma_two_digits(i as nat, j as nat);
    }
    let title = research_nodes(prompt, assignments)[i].title;
    assert(title.subrange(title.len() - prompt.len(), title.len() as int) =~= prompt);
    let able = seq!["documentation"@, "research"@];
    assert(able[1] == "research"@);
    assert(builtin_definitions()[13].capabilities.contains("research"@));
}

/// Any of these words says that safety matters, and nothing else does.
pub proof fn law_words_for_security(text: Seq<char>)
    ensures
        profile_in(text).security <==> (contains_text(text, "security"@)
            || contains_text(text, "secure"@)
            || contains_text(text, "auth"@)
            || contains_text(text, "permission"@)
            || contains_text(text, "secret"@)
            || contains_text(text, "credential"@)
            || contains_text(text, "crypto"@)
            || contains_text(text, "injection"@)
            || contains_text(text, "supply chain"@)
            || contains_text(text, "安全"@)
            || contains_text(text, "鉴权"@)
            || contains_text(text, "认证"@)
            || contains_text(text, "授权"@)
            || contains_text(text, "权限"@)
            || contains_text(text, "密钥"@)
            || contains_text(text, "注入"@)
            || contains_text(text, "供应链"@)),
{
    let words = security_words();
    assert(words[0] == "security"@);
    assert(words[1] == "secure"@);
    assert(words[2] == "auth"@);
    assert(words[3] == "permission"@);
    assert(words[4] == "secret"@);
    assert(words[5] == "credential"@);
    assert(words[6] == "crypto"@);
    assert(words[7] == "injection"@);
    assert(words[8] == "supply chain"@);
    assert(words[9] == "安全"@);
    assert(words[10] == "鉴权"@);
    assert(words[11] == "认证"@);
    assert(words[12] == "授权"@);
    assert(words[13] == "权限"@);
    assert(words[14] == "密钥"@);
    assert(words[15] == "注入"@);
    assert(words[16] == "供应链"@);
    if mentions_any(text, words) {
        let i = choose|i: int| 0 <= i < words.len() && contains_text(text, #[trigger] words[i]);
        assert(contains_text(text, words[i]));
    }
}

/// Any of these words says that speed matters, and nothing else does.
pub proof fn law_words_for_performance(text: Seq<char>)
    ensures
        profile_in(text).performance <==> (contains_text(text, "performance"@)
            || contains_text(text, "latency"@)
            || contains_text(text, "throughput"@)
            || contains_text(text, "benchmark"@)
            || contains_text(text, "profil"@)
            || contains_text(text, "memory leak"@)
            || contains_text(text, "optimize"@)
            || contains_text(text, "slow"@)
            || contains_text(text, "性能"@)
            || contains_text(text, "延迟"@)
            || contains_text(text, "吞吐"@)
            || contains_text(text, "基准"@)
            || contains_text(text, "内存泄漏"@)
            || contains_text(text, "优化"@)
            || contains_text(text, "卡顿"@)),
{
    let words = performance_words();
    assert(words[0] == "performance"@);
    assert(words[1] == "latency"@);
    assert(words[2] == "throughput"@);
    assert(words[3] == "benchmark"@);
    assert(words[4] == "profil"@);
    assert(words[5] == "memory leak"@);
    assert(words[6] == "optimize"@);
    assert(words[7] == "slow"@);
    assert(words[8] == "性能"@);
    assert(words[9] == "延迟"@);
    assert(words[10] == "吞吐"@);
    assert(words[11] == "基准"@);
    assert(words[12] == "内存泄漏"@);
    assert(words[13] == "优化"@);
    assert(words[14] == "卡顿"@);
    if mentions_any(text, words) {
        let i = choose|i: int| 0 <= i < words.len() && contains_text(text, #[trigger] words[i]);
        assert(contains_text(text, words[i]));
    }
}

/// Any of these words says that a release matters, and nothing else does.
pub proof fn law_words_for_release(text: Seq<char>)
    ensures
        profile_in(text).release <==> (contains_text(text, "release"@)
            || contains_text(text, "publish"@)
            || contains_text(text, "deploy"@)
            || contains_text(text, "package"@)
            || contains_text(text, "shipping"@)
            || contains_text(text, "version bump"@)
            || contains_text(text, "发布"@)
            || contains_text(text, "上线"@)
            || contains_text(text, "部署"@)
            || contains_text(text, "打包"@)
            || contains_text(text, "发版"@)
            || contains_text(text, "版本"@)),
{
    let words = release_words();
    assert(words[0] == "release"@);
    assert(words[1] == "publish"@);
    assert(words[2] == "deploy"@);
    assert(words[3] == "package"@);
    assert(words[4] == "shipping"@);
    assert(words[5] == "version bump"@);
    assert(words[6] == "发布"@);
    assert(words[7] == "上线"@);
    assert(words[8] == "部署"@);
    assert(words[9] == "打包"@);
    assert(words[10] == "发版"@);
    assert(words[11] == "版本"@);
    if mentions_any(text, words) {
        let i = choose|i: int| 0 <= i < words.len() && contains_text(text, #[trigger] words[i]);
        assert(contains_text(text, words[i]));
    }
}

/// Those of some nodes of a mission that are in some state.
pub open spec fn nodes_in(
    m: MissionView,
    ids: Seq<Seq<char>>,
    state: spec_fn(crate::mission::NodeStatus) -> bool,
) -> int {
    ids.filter(|id: Seq<char>| state(m.nodes[id].status)).len() as int
}

proof fn lemma_nodes_in(
    m: MissionView,
    n: int,
    state: spec_fn(crate::mission::NodeStatus) -> bool,
)
    requires
        0 < n <= in_order(m.nodes.dom()).len(),
    ensures
        ({
            let ids = in_order(m.nodes.dom());
            nodes_in(m, ids.subrange(0, n), state) == nodes_in(m, ids.subrange(0, n - 1), state)
                + if state(m.nodes[ids[n - 1]].status) {
                1int
            } else {
                0
            }
        }),
{
    reveal(Seq::filter);
    let ids = in_order(m.nodes.dom());
    assert(ids.subrange(0, n).drop_last() =~= ids.subrange(0, n - 1));
}

pub open spec fn is_accepted() -> spec_fn(crate::mission::NodeStatus) -> bool {
    |s: crate::mission::NodeStatus| s is Accepted
}

pub open spec fn is_at_work() -> spec_fn(crate::mission::NodeStatus) -> bool {
    |s: crate::mission::NodeStatus| s is Running || s is Submitted
}

pub open spec fn is_queued() -> spec_fn(crate::mission::NodeStatus) -> bool {
    |s: crate::mission::NodeStatus| s is Queued
}

pub open spec fn is_held_up() -> spec_fn(crate::mission::NodeStatus) -> bool {
    |s: crate::mission::NodeStatus| s is WaitingApproval || s is Failed || s is Cancelled
}

proof fn lemma_counted(m: MissionView, n: int)
    requires
        0 <= n <= in_order(m.nodes.dom()).len(),
    ensures
        ({
            let ids = in_order(m.nodes.dom()).subrange(0, n);
            let p = counted(m, n);
            &&& p.accepted == nodes_in(m, ids, is_accepted())
            &&& p.running == nodes_in(m, ids, is_at_work())
            &&& p.pending == nodes_in(m, ids, is_queued())
            &&& p.blocked == nodes_in(m, ids, is_held_up())
            &&& p.mission_id == Some(m.mission_id)
            &&& p.status == Some(m.status)
        }),
    decreases n,
{
    if n > 0 {
        lemma_counted(m, n - 1);
        lemma_nodes_in(m, n, is_accepted());
        lemma_nodes_in(m, n, is_at_work());
        lemma_nodes_in(m, n, is_queued());
        lemma_nodes_in(m, n, is_held_up());
    } else {
        reveal(Seq::filter);
    }
}

/// What is shown of a plan are the numbers of its nodes that were accepted, that are at work or handed
/// in, that are still to come, and that are held up.
pub proof fn law_plans_count_their_nodes(m: MissionView)
    ensures
        ({
            let ids = in_order(m.nodes.dom());
            let p = plan_of(m);
            &&& p.accepted == nodes_in(m, ids, is_accepted())
            &&& p.running == nodes_in(m, ids, is_at_work())
            &&& p.pending == nodes_in(m, ids, is_queued())
            &&& p.blocked == nodes_in(m, ids, is_held_up())
            &&& p.mission_id == Some(m.mission_id)
            &&& p.status == Some(m.status)
        }),
{
    let ids = in_order(m.nodes.dom());
    assert(ids.subrange(0, ids.len() as int) =~= ids);
    lemma_counted(m, ids.len() as int);
}

} // verus!
