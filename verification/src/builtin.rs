//! The agents that every harness starts with.

use vstd::prelude::*;

use crate::catalog::{
    codes_from_control_plane, fresh_entry, is_complete, AgentCatalog, AgentDefinition,
    CatalogView, DefinitionView,
};
use crate::error::AgentError;
use crate::model::{group_views, views};
use crate::ordered::TextSet;
use crate::roles::{AgentRole, RoleSet};
use crate::text::{is_blank_text, is_white_space, lemma_blank, texts};

verus! {

pub open spec fn builtin_view(
    id: Seq<char>,
    name: Seq<char>,
    role: AgentRole,
    capabilities: Seq<Seq<char>>,
    allowed_tools: Seq<Seq<char>>,
    max_concurrency: usize,
    cost_weight: u32,
) -> DefinitionView {
    DefinitionView {
        id,
        name,
        roles: set![role],
        capabilities: capabilities.to_set(),
        allowed_tools: allowed_tools.to_set(),
        max_concurrency,
        cost_weight,
        integrity_floor: "trusted"@,
    }
}

/// The built-in agents. All of them are asleep when the harness starts.
pub open spec fn builtin_definitions() -> Seq<DefinitionView> {
    seq![
        builtin_view(
            "agent:staffing-router"@,
            "专职分配员"@,
            AgentRole::StaffingRouter,
            seq!["capability-routing"@, "capacity-planning"@],
            Seq::empty(),
            1,
            1,
        ),
        builtin_view(
            "agent:coordinator"@,
            "协调记录员"@,
            AgentRole::Coordinator,
            seq!["coordination"@, "conflict-detection"@, "meeting-record"@],
            seq!["message.read"@, "message.write"@, "memory.write"@],
            1,
            2,
        ),
        builtin_view(
            "agent:requirements"@,
            "需求分析师"@,
            AgentRole::RequirementsAnalyst,
            seq!["requirements-analysis"@, "acceptance-criteria"@, "ambiguity-detection"@, "scope-control"@],
            seq!["memory.read"@, "repository.read"@],
            2,
            2,
        ),
        builtin_view(
            "agent:explorer"@,
            "代码库探索员"@,
            AgentRole::Explorer,
            seq!["codebase-exploration"@, "dependency-tracing"@, "repository-map"@, "symbol-discovery"@],
            seq!["repository.read"@, "lsp.read"@],
            8,
            1,
        ),
        builtin_view(
            "agent:architect"@,
            "架构师"@,
            AgentRole::Architect,
            seq!["system-design"@, "boundary-analysis"@, "architecture-decision"@, "risk-analysis"@],
            seq!["repository.read"@, "memory.read"@, "memory.write"@],
            2,
            4,
        ),
        builtin_view(
            "agent:planner"@,
            "规划员"@,
            AgentRole::Planner,
            seq!["task-decomposition"@, "dependency-analysis"@],
            seq!["repository.read"@, "memory.read"@],
            2,
            3,
        ),
        builtin_view(
            "agent:coder"@,
            "编码员"@,
            AgentRole::Coder,
            seq!["code-edit"@, "rust"@, "typescript"@],
            seq!["repository.read"@, "file.write"@, "process.run"@],
            4,
            5,
        ),
        builtin_view(
            "agent:review"@,
            "审查员"@,
            AgentRole::Reviewer,
            seq!["code-review"@, "conflict-detection"@],
            seq!["repository.read"@, "diff.read"@],
            2,
            3,
        ),
        builtin_view(
            "agent:security"@,
            "安全审计员"@,
            AgentRole::SecurityAuditor,
            seq!["security-audit"@, "threat-model"@, "vulnerability-analysis"@, "supply-chain-review"@],
            seq!["repository.read"@, "diff.read"@, "network.read"@],
            2,
            4,
        ),
        builtin_view(
            "agent:performance"@,
            "性能工程师"@,
            AgentRole::PerformanceEngineer,
            seq!["performance-analysis"@, "benchmark"@, "profiling"@, "regression-analysis"@],
            seq!["repository.read"@, "process.run"@],
            2,
            4,
        ),
        builtin_view(
            "agent:tester"@,
            "测试员"@,
            AgentRole::Tester,
            seq!["test-execution"@, "evidence"@],
            seq!["repository.read"@, "process.run"@],
            2,
            3,
        ),
        builtin_view(
            "agent:release"@,
            "发布经理"@,
            AgentRole::ReleaseManager,
            seq!["release-readiness"@, "artifact-verification"@, "version-policy"@, "rollback-planning"@],
            seq!["repository.read"@, "diff.read"@, "process.run"@],
            1,
            3,
        ),
        builtin_view(
            "agent:debugger"@,
            "调试员"@,
            AgentRole::Debugger,
            seq!["diagnosis"@, "failure-localization"@],
            seq!["repository.read"@, "process.run"@],
            2,
            4,
        ),
        builtin_view(
            "agent:researcher"@,
            "研究员"@,
            AgentRole::Researcher,
            seq!["documentation"@, "research"@],
            seq!["repository.read"@, "network.read"@],
            8,
            4,
        ),
        builtin_view(
            "agent:merge"@,
            "合并员"@,
            AgentRole::MergeAgent,
            seq!["code-merge"@, "conflict-resolution"@, "code-edit"@],
            seq!["repository.read"@, "diff.read"@, "file.write"@, "process.run"@],
            1,
            5,
        ),
    ]
}

/// A catalog in which the given definitions stand, none of them active.
pub open spec fn catalog_of(definitions: Seq<DefinitionView>) -> CatalogView
    decreases definitions.len(),
{
    if definitions.len() == 0 {
        Map::empty()
    } else {
        catalog_of(definitions.drop_last()).insert(
            definitions.last().id,
            fresh_entry(definitions.last()),
        )
    }
}

pub open spec fn distinct_ids(definitions: Seq<DefinitionView>) -> bool {
    forall|i: int, j: int|
        0 <= i < j < definitions.len() ==> #[trigger] definitions[i].id
            != #[trigger] definitions[j].id
}

pub open spec fn all_acceptable(definitions: Seq<DefinitionView>) -> bool {
    forall|i: int|
        0 <= i < definitions.len() ==> is_complete(#[trigger] definitions[i])
            && !codes_from_control_plane(definitions[i])
}

proof fn lemma_catalog_of_keys(definitions: Seq<DefinitionView>, id: Seq<char>)
    ensures
        catalog_of(definitions).contains_key(id) <==> exists|i: int|
            0 <= i < definitions.len() && #[trigger] definitions[i].id == id,
    decreases definitions.len(),
{
    if definitions.len() > 0 {
        let rest = definitions.drop_last();
        lemma_catalog_of_keys(rest, id);
        if definitions.last().id == id {
            assert(definitions[definitions.len() - 1].id == id);
        }
        if exists|i: int| 0 <= i < rest.len() && #[trigger] rest[i].id == id {
            let i = choose|i: int| 0 <= i < rest.len() && #[trigger] rest[i].id == id;
            assert(definitions[i].id == id);
        }
        if exists|i: int| 0 <= i < definitions.len() && #[trigger] definitions[i].id == id {
            let i = choose|i: int| 0 <= i < definitions.len() && #[trigger] definitions[i].id == id;
            if i < rest.len() {
                assert(rest[i].id == id);
            }
        }
    }
}

/// Registers definitions of distinct agents, one after another.
fn catalog_from(definitions: Vec<AgentDefinition>) -> (r: Result<AgentCatalog, AgentError>)
    requires
        distinct_ids(views(definitions@)),
        all_acceptable(views(definitions@)),
    ensures
        r matches Ok(c) && c@ == catalog_of(views(definitions@)),
{
    let ghost all = views(definitions@);
    let mut definitions = definitions;
    let mut catalog = AgentCatalog::new();
    let total: usize = definitions.len();
    let mut done: usize = 0;
    assert(all.subrange(0, 0) =~= Seq::empty());
    while definitions.len() > 0
        invariant
            total == all.len(),
            done + definitions.len() == all.len(),
            distinct_ids(all),
            all_acceptable(all),
            views(definitions@) == all.subrange(done as int, all.len() as int),
            catalog@ == catalog_of(all.subrange(0, done as int)),
        decreases definitions.len(),
    {
        broadcast use group_views;

        let ghost before = views(definitions@);
        let definition = definitions.remove(0);
        assert(definition@ == before[0]);
        proof {
            let prefix = all.subrange(0, done as int);
            let next = all.subrange(0, done as int + 1);
            lemma_catalog_of_keys(prefix, definition@.id);
            assert(definition@ == all[done as int]);
            if catalog@.contains_key(definition@.id) {
                let i = choose|i: int|
                    0 <= i < prefix.len() && #[trigger] prefix[i].id == definition@.id;
                assert(all[i].id == all[done as int].id);
            }
            assert(next.drop_last() =~= prefix);
            assert(views(definitions@) =~= all.subrange(done as int + 1, all.len() as int));
        }
        match catalog.register(definition) {
            Ok(_) => {},
            Err(error) => {
                return Err(error);
            },
        }
        done = done + 1;
    }
    assert(all.subrange(0, all.len() as int) =~= all);
    Ok(catalog)
}

fn text_set(items: Vec<&str>) -> (r: TextSet)
    ensures
        r@ == views(items@).to_set(),
{
    let mut owned: Vec<String> = Vec::new();
    let mut i: usize = 0;
    while i < items.len()
        invariant
            i <= items.len(),
            texts(owned@) == views(items@).subrange(0, i as int),
        decreases items.len() - i,
    {
        broadcast use group_views;

        owned.push(items[i].to_owned());
        i = i + 1;
        assert(texts(owned@) =~= views(items@).subrange(0, i as int));
    }
    assert(texts(owned@) =~= views(items@));
    TextSet::of(owned)
}

pub fn builtin_definition(
    id: &str,
    name: &str,
    role: AgentRole,
    capabilities: Vec<&str>,
    allowed_tools: Vec<&str>,
    max_concurrency: usize,
    cost_weight: u32,
) -> (r: AgentDefinition)
    ensures
        r@ == builtin_view(
            id@,
            name@,
            role,
            views(capabilities@),
            views(allowed_tools@),
            max_concurrency,
            cost_weight,
        ),
{
    AgentDefinition {
        id: id.to_owned(),
        name: name.to_owned(),
        roles: RoleSet::single(role),
        capabilities: text_set(capabilities),
        allowed_tools: text_set(allowed_tools),
        max_concurrency,
        cost_weight,
        integrity_floor: "trusted".to_owned(),
    }
}

proof fn lemma_starts_visible(name: Seq<char>)
    requires
        name.len() > 0,
        !is_white_space(name[0]),
    ensures
        !is_blank_text(name),
{
    lemma_blank(name);
}

proof fn lemma_builtin_acceptable()
    ensures
        all_acceptable(builtin_definitions()),
        builtin_definitions().len() == 15,
{
    reveal_strlit("专职分配员");
    lemma_starts_visible("专职分配员"@);
    reveal_strlit("协调记录员");
    lemma_starts_visible("协调记录员"@);
    reveal_strlit("需求分析师");
    lemma_starts_visible("需求分析师"@);
    reveal_strlit("代码库探索员");
    lemma_starts_visible("代码库探索员"@);
    reveal_strlit("架构师");
    lemma_starts_visible("架构师"@);
    reveal_strlit("规划员");
    lemma_starts_visible("规划员"@);
    reveal_strlit("编码员");
    lemma_starts_visible("编码员"@);
    reveal_strlit("审查员");
    lemma_starts_visible("审查员"@);
    reveal_strlit("安全审计员");
    lemma_starts_visible("安全审计员"@);
    reveal_strlit("性能工程师");
    lemma_starts_visible("性能工程师"@);
    reveal_strlit("测试员");
    lemma_starts_visible("测试员"@);
    reveal_strlit("发布经理");
    lemma_starts_visible("发布经理"@);
    reveal_strlit("调试员");
    lemma_starts_visible("调试员"@);
    reveal_strlit("研究员");
    lemma_starts_visible("研究员"@);
    reveal_strlit("合并员");
    lemma_starts_visible("合并员"@);
    let all = builtin_definitions();
    assert forall|i: int| 0 <= i < all.len() implies is_complete(#[trigger] all[i])
        && !codes_from_control_plane(all[i]) by {
        if i == 0 {
            let capabilities = seq!["capability-routing"@, "capacity-planning"@];
            assert(capabilities[0] == "capability-routing"@);
            assert(all[0].capabilities.contains("capability-routing"@));
        } else if i == 1 {
            let capabilities = seq!["coordination"@, "conflict-detection"@, "meeting-record"@];
            assert(capabilities[0] == "coordination"@);
            assert(all[1].capabilities.contains("coordination"@));
        } else if i == 2 {
            let capabilities = seq!["requirements-analysis"@, "acceptance-criteria"@, "ambiguity-detection"@, "scope-control"@];
            assert(capabilities[0] == "requirements-analysis"@);
            assert(all[2].capabilities.contains("requirements-analysis"@));
        } else if i == 3 {
            let capabilities = seq!["codebase-exploration"@, "dependency-tracing"@, "repository-map"@, "symbol-discovery"@];
            assert(capabilities[0] == "codebase-exploration"@);
            assert(all[3].capabilities.contains("codebase-exploration"@));
        } else if i == 4 {
            let capabilities = seq!["system-design"@, "boundary-analysis"@, "architecture-decision"@, "risk-analysis"@];
            assert(capabilities[0] == "system-design"@);
            assert(all[4].capabilities.contains("system-design"@));
        } else if i == 5 {
            let capabilities = seq!["task-decomposition"@, "dependency-analysis"@];
            assert(capabilities[0] == "task-decomposition"@);
            assert(all[5].capabilities.contains("task-decomposition"@));
        } else if i == 6 {
            let capabilities = seq!["code-edit"@, "rust"@, "typescript"@];
            assert(capabilities[0] == "code-edit"@);
            assert(all[6].capabilities.contains("code-edit"@));
        } else if i == 7 {
            let capabilities = seq!["code-review"@, "conflict-detection"@];
            assert(capabilities[0] == "code-review"@);
            assert(all[7].capabilities.contains("code-review"@));
        } else if i == 8 {
            let capabilities = seq!["security-audit"@, "threat-model"@, "vulnerability-analysis"@, "supply-chain-review"@];
            assert(capabilities[0] == "security-audit"@);
            assert(all[8].capabilities.contains("security-audit"@));
        } else if i == 9 {
            let capabilities = seq!["performance-analysis"@, "benchmark"@, "profiling"@, "regression-analysis"@];
            assert(capabilities[0] == "performance-analysis"@);
            assert(all[9].capabilities.contains("performance-analysis"@));
        } else if i == 10 {
            let capabilities = seq!["test-execution"@, "evidence"@];
            assert(capabilities[0] == "test-execution"@);
            assert(all[10].capabilities.contains("test-execution"@));
        } else if i == 11 {
            let capabilities = seq!["release-readiness"@, "artifact-verification"@, "version-policy"@, "rollback-planning"@];
            assert(capabilities[0] == "release-readiness"@);
            assert(all[11].capabilities.contains("release-readiness"@));
        } else if i == 12 {
            let capabilities = seq!["diagnosis"@, "failure-localization"@];
            assert(capabilities[0] == "diagnosis"@);
            assert(all[12].capabilities.contains("diagnosis"@));
        } else if i == 13 {
            let capabilities = seq!["documentation"@, "research"@];
            assert(capabilities[0] == "documentation"@);
            assert(all[13].capabilities.contains("documentation"@));
        } else if i == 14 {
            let capabilities = seq!["code-merge"@, "conflict-resolution"@, "code-edit"@];
            assert(capabilities[0] == "code-merge"@);
            assert(all[14].capabilities.contains("code-merge"@));
        }
    }
}

proof fn lemma_builtin_distinct()
    ensures
        distinct_ids(builtin_definitions()),
{
    reveal_strlit("agent:staffing-router");
    reveal_strlit("agent:coordinator");
    reveal_strlit("agent:requirements");
    reveal_strlit("agent:explorer");
    reveal_strlit("agent:architect");
    reveal_strlit("agent:planner");
    reveal_strlit("agent:coder");
    reveal_strlit("agent:review");
    reveal_strlit("agent:security");
    reveal_strlit("agent:performance");
    reveal_strlit("agent:tester");
    reveal_strlit("agent:release");
    reveal_strlit("agent:debugger");
    reveal_strlit("agent:researcher");
    reveal_strlit("agent:merge");
    let all = builtin_definitions();
    // The identifiers differ in length, or in the seventh or eighth character.
    assert forall|i: int, j: int| 0 <= i < j < all.len() implies #[trigger] all[i].id
        != #[trigger] all[j].id by {
        assert(all[i].id.len() != all[j].id.len() || all[i].id[6] != all[j].id[6] || all[i].id[7]
            != all[j].id[7]);
    }
}

/// The catalog of the built-in agents: fifteen of them, all asleep.
pub fn builtin_agent_catalog() -> (r: Result<AgentCatalog, AgentError>)
    ensures
        r matches Ok(c) && c@ == catalog_of(builtin_definitions()),
{
    broadcast use group_views;

    let mut definitions: Vec<AgentDefinition> = Vec::new();
    assert(views(definitions@) =~= Seq::empty());
    let capabilities: Vec<&str> = vec!["capability-routing", "capacity-planning"];
    let tools: Vec<&str> = Vec::new();
    assert(views(capabilities@) =~= seq!["capability-routing"@, "capacity-planning"@]);
    assert(views(tools@) =~= Seq::<Seq<char>>::empty());
    definitions.push(
        builtin_definition("agent:staffing-router", "专职分配员", AgentRole::StaffingRouter, capabilities, tools, 1, 1),
    );
    let capabilities: Vec<&str> = vec!["coordination", "conflict-detection", "meeting-record"];
    let tools: Vec<&str> = vec!["message.read", "message.write", "memory.write"];
    assert(views(capabilities@) =~= seq!["coordination"@, "conflict-detection"@, "meeting-record"@]);
    assert(views(tools@) =~= seq!["message.read"@, "message.write"@, "memory.write"@]);
    definitions.push(
        builtin_definition("agent:coordinator", "协调记录员", AgentRole::Coordinator, capabilities, tools, 1, 2),
    );
    let capabilities: Vec<&str> = vec!["requirements-analysis", "acceptance-criteria", "ambiguity-detection", "scope-control"];
    let tools: Vec<&str> = vec!["memory.read", "repository.read"];
    assert(views(capabilities@) =~= seq!["requirements-analysis"@, "acceptance-criteria"@, "ambiguity-detection"@, "scope-control"@]);
    assert(views(tools@) =~= seq!["memory.read"@, "repository.read"@]);
    definitions.push(
        builtin_definition("agent:requirements", "需求分析师", AgentRole::RequirementsAnalyst, capabilities, tools, 2, 2),
    );
    let capabilities: Vec<&str> = vec!["codebase-exploration", "dependency-tracing", "repository-map", "symbol-discovery"];
    let tools: Vec<&str> = vec!["repository.read", "lsp.read"];
    assert(views(capabilities@) =~= seq!["codebase-exploration"@, "dependency-tracing"@, "repository-map"@, "symbol-discovery"@]);
    assert(views(tools@) =~= seq!["repository.read"@, "lsp.read"@]);
    definitions.push(
        builtin_definition("agent:explorer", "代码库探索员", AgentRole::Explorer, capabilities, tools, 8, 1),
    );
    let capabilities: Vec<&str> = vec!["system-design", "boundary-analysis", "architecture-decision", "risk-analysis"];
    let tools: Vec<&str> = vec!["repository.read", "memory.read", "memory.write"];
    assert(views(capabilities@) =~= seq!["system-design"@, "boundary-analysis"@, "architecture-decision"@, "risk-analysis"@]);
    assert(views(tools@) =~= seq!["repository.read"@, "memory.read"@, "memory.write"@]);
    definitions.push(
        builtin_definition("agent:architect", "架构师", AgentRole::Architect, capabilities, tools, 2, 4),
    );
    let capabilities: Vec<&str> = vec!["task-decomposition", "dependency-analysis"];
    let tools: Vec<&str> = vec!["repository.read", "memory.read"];
    assert(views(capabilities@) =~= seq!["task-decomposition"@, "dependency-analysis"@]);
    assert(views(tools@) =~= seq!["repository.read"@, "memory.read"@]);
    definitions.push(
        builtin_definition("agent:planner", "规划员", AgentRole::Planner, capabilities, tools, 2, 3),
    );
    let capabilities: Vec<&str> = vec!["code-edit", "rust", "typescript"];
    let tools: Vec<&str> = vec!["repository.read", "file.write", "process.run"];
    assert(views(capabilities@) =~= seq!["code-edit"@, "rust"@, "typescript"@]);
    assert(views(tools@) =~= seq!["repository.read"@, "file.write"@, "process.run"@]);
    definitions.push(
        builtin_definition("agent:coder", "编码员", AgentRole::Coder, capabilities, tools, 4, 5),
    );
    let capabilities: Vec<&str> = vec!["code-review", "conflict-detection"];
    let tools: Vec<&str> = vec!["repository.read", "diff.read"];
    assert(views(capabilities@) =~= seq!["code-review"@, "conflict-detection"@]);
    assert(views(tools@) =~= seq!["repository.read"@, "diff.read"@]);
    definitions.push(
        builtin_definition("agent:review", "审查员", AgentRole::Reviewer, capabilities, tools, 2, 3),
    );
    let capabilities: Vec<&str> = vec!["security-audit", "threat-model", "vulnerability-analysis", "supply-chain-review"];
    let tools: Vec<&str> = vec!["repository.read", "diff.read", "network.read"];
    assert(views(capabilities@) =~= seq!["security-audit"@, "threat-model"@, "vulnerability-analysis"@, "supply-chain-review"@]);
    assert(views(tools@) =~= seq!["repository.read"@, "diff.read"@, "network.read"@]);
    definitions.push(
        builtin_definition("agent:security", "安全审计员", AgentRole::SecurityAuditor, capabilities, tools, 2, 4),
    );
    let capabilities: Vec<&str> = vec!["performance-analysis", "benchmark", "profiling", "regression-analysis"];
    let tools: Vec<&str> = vec!["repository.read", "process.run"];
    assert(views(capabilities@) =~= seq!["performance-analysis"@, "benchmark"@, "profiling"@, "regression-analysis"@]);
    assert(views(tools@) =~= seq!["repository.read"@, "process.run"@]);
    definitions.push(
        builtin_definition("agent:performance", "性能工程师", AgentRole::PerformanceEngineer, capabilities, tools, 2, 4),
    );
    let capabilities: Vec<&str> = vec!["test-execution", "evidence"];
    let tools: Vec<&str> = vec!["repository.read", "process.run"];
    assert(views(capabilities@) =~= seq!["test-execution"@, "evidence"@]);
    assert(views(tools@) =~= seq!["repository.read"@, "process.run"@]);
    definitions.push(
        builtin_definition("agent:tester", "测试员", AgentRole::Tester, capabilities, tools, 2, 3),
    );
    let capabilities: Vec<&str> = vec!["release-readiness", "artifact-verification", "version-policy", "rollback-planning"];
    let tools: Vec<&str> = vec!["repository.read", "diff.read", "process.run"];
    assert(views(capabilities@) =~= seq!["release-readiness"@, "artifact-verification"@, "version-policy"@, "rollback-planning"@]);
    assert(views(tools@) =~= seq!["repository.read"@, "diff.read"@, "process.run"@]);
    definitions.push(
        builtin_definition("agent:release", "发布经理", AgentRole::ReleaseManager, capabilities, tools, 1, 3),
    );
    let capabilities: Vec<&str> = vec!["diagnosis", "failure-localization"];
    let tools: Vec<&str> = vec!["repository.read", "process.run"];
    assert(views(capabilities@) =~= seq!["diagnosis"@, "failure-localization"@]);
    assert(views(tools@) =~= seq!["repository.read"@, "process.run"@]);
    definitions.push(
        builtin_definition("agent:debugger", "调试员", AgentRole::Debugger, capabilities, tools, 2, 4),
    );
    let capabilities: Vec<&str> = vec!["documentation", "research"];
    let tools: Vec<&str> = vec!["repository.read", "network.read"];
    assert(views(capabilities@) =~= seq!["documentation"@, "research"@]);
    assert(views(tools@) =~= seq!["repository.read"@, "network.read"@]);
    definitions.push(
        builtin_definition("agent:researcher", "研究员", AgentRole::Researcher, capabilities, tools, 8, 4),
    );
    let capabilities: Vec<&str> = vec!["code-merge", "conflict-resolution", "code-edit"];
    let tools: Vec<&str> = vec!["repository.read", "diff.read", "file.write", "process.run"];
    assert(views(capabilities@) =~= seq!["code-merge"@, "conflict-resolution"@, "code-edit"@]);
    assert(views(tools@) =~= seq!["repository.read"@, "diff.read"@, "file.write"@, "process.run"@]);
    definitions.push(
        builtin_definition("agent:merge", "合并员", AgentRole::MergeAgent, capabilities, tools, 1, 5),
    );
    proof {
        lemma_builtin_acceptable();
        lemma_builtin_distinct();
        assert(views(definitions@) =~= builtin_definitions());
    }
    catalog_from(definitions)
}

/// The built-in agents are distinct, and each of them stands in the catalog with nothing active.
pub proof fn law_builtin_agents_sleep(i: int)
    requires
        0 <= i < 15,
    ensures
        ({
            let c = catalog_of(builtin_definitions());
            let d = builtin_definitions()[i];
            &&& c.contains_key(d.id)
            &&& c[d.id] == fresh_entry(d)
            &&& crate::catalog::lifecycle_of(c, d.id) == Some(
                crate::catalog::AgentLifecycle::Sleeping,
            )
        }),
{
    lemma_builtin_acceptable();
    lemma_builtin_distinct();
    lemma_entry_of(builtin_definitions(), i);
}

proof fn lemma_entry_of(definitions: Seq<DefinitionView>, i: int)
    requires
        distinct_ids(definitions),
        0 <= i < definitions.len(),
    ensures
        catalog_of(definitions).contains_key(definitions[i].id),
        catalog_of(definitions)[definitions[i].id] == fresh_entry(definitions[i]),
    decreases definitions.len(),
{
    if i < definitions.len() - 1 {
        let rest = definitions.drop_last();
        assert forall|a: int, b: int| 0 <= a < b < rest.len() implies #[trigger] rest[a].id
            != #[trigger] rest[b].id by {
            assert(definitions[a].id != definitions[b].id);
        }
        lemma_entry_of(rest, i);
        assert(definitions[i].id != definitions[definitions.len() - 1].id);
    }
}

} // verus!
