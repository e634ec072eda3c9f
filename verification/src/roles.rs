//! The roles that an agent can have, and what each role means to the rest of the harness.

use vstd::prelude::*;

verus! {

#[derive(Clone, Copy, Debug, PartialEq, Eq, PartialOrd, Ord, Hash, Structural)]
pub enum AgentRole {
    RequirementsAnalyst,
    Explorer,
    Architect,
    Planner,
    Coder,
    Reviewer,
    SecurityAuditor,
    PerformanceEngineer,
    Tester,
    ReleaseManager,
    Debugger,
    Researcher,
    MergeAgent,
    Coordinator,
    StaffingRouter,
    Supervisor,
}

/// The role for which a working context is compiled.
#[derive(Clone, Copy, Debug, PartialEq, Eq, Structural)]
pub enum ContextRole {
    Requirements,
    Explorer,
    Architect,
    Planner,
    Staffing,
    Coder,
    Reviewer,
    Security,
    Performance,
    Tester,
    Release,
    Coordinator,
    Supervisor,
}

/// The roles in their order.
pub open spec fn role_order() -> Seq<AgentRole> {
    seq![
        AgentRole::RequirementsAnalyst,
        AgentRole::Explorer,
        AgentRole::Architect,
        AgentRole::Planner,
        AgentRole::Coder,
        AgentRole::Reviewer,
        AgentRole::SecurityAuditor,
        AgentRole::PerformanceEngineer,
        AgentRole::Tester,
        AgentRole::ReleaseManager,
        AgentRole::Debugger,
        AgentRole::Researcher,
        AgentRole::MergeAgent,
        AgentRole::Coordinator,
        AgentRole::StaffingRouter,
        AgentRole::Supervisor,
    ]
}

pub fn all_roles() -> (r: Vec<AgentRole>)
    ensures
        r@ == role_order(),
{
    vec![
        AgentRole::RequirementsAnalyst,
        AgentRole::Explorer,
        AgentRole::Architect,
        AgentRole::Planner,
        AgentRole::Coder,
        AgentRole::Reviewer,
        AgentRole::SecurityAuditor,
        AgentRole::PerformanceEngineer,
        AgentRole::Tester,
        AgentRole::ReleaseManager,
        AgentRole::Debugger,
        AgentRole::Researcher,
        AgentRole::MergeAgent,
        AgentRole::Coordinator,
        AgentRole::StaffingRouter,
        AgentRole::Supervisor,
    ]
}

/// The first `n` roles in order, those of them that are in the set.
pub open spec fn roles_among(members: Set<AgentRole>, n: int) -> Seq<AgentRole>
    decreases n,
{
    if n <= 0 {
        Seq::empty()
    } else if members.contains(role_order()[n - 1]) {
        roles_among(members, n - 1).push(role_order()[n - 1])
    } else {
        roles_among(members, n - 1)
    }
}

/// The members of a set of roles in the order of the roles.
pub open spec fn roles_in_order(members: Set<AgentRole>) -> Seq<AgentRole> {
    roles_among(members, 16)
}

/// The number of roles that are in both sets.
pub open spec fn common_roles(a: Set<AgentRole>, b: Set<AgentRole>) -> nat {
    roles_in_order(a.intersect(b)).len()
}

/// A role stands at its place in the order of the roles.
pub open spec fn role_place(role: AgentRole) -> int {
    match role {
        AgentRole::RequirementsAnalyst => 0,
        AgentRole::Explorer => 1,
        AgentRole::Architect => 2,
        AgentRole::Planner => 3,
        AgentRole::Coder => 4,
        AgentRole::Reviewer => 5,
        AgentRole::SecurityAuditor => 6,
        AgentRole::PerformanceEngineer => 7,
        AgentRole::Tester => 8,
        AgentRole::ReleaseManager => 9,
        AgentRole::Debugger => 10,
        AgentRole::Researcher => 11,
        AgentRole::MergeAgent => 12,
        AgentRole::Coordinator => 13,
        AgentRole::StaffingRouter => 14,
        AgentRole::Supervisor => 15,
    }
}

proof fn lemma_among(members: Set<AgentRole>, n: int, role: AgentRole)
    requires
        0 <= n <= 16,
    ensures
        roles_among(members, n).contains(role) <==> members.contains(role) && role_place(role) < n,
    decreases n,
{
    if n > 0 {
        lemma_among(members, n - 1, role);
        let before = roles_among(members, n - 1);
        let last = role_order()[n - 1];
        assert(role_place(last) == n - 1);
        assert(role_order()[role_place(role)] == role);
        if members.contains(last) {
            let all = before.push(last);
            assert(all[before.len() as int] == last);
            if before.contains(role) {
                let k = before.index_of(role);
                assert(all[k] == role);
            }
            if all.contains(role) && role != last {
                let k = all.index_of(role);
                assert(before[k] == role);
            }
        }
    }
}

proof fn lemma_among_rises(members: Set<AgentRole>, n: int)
    requires
        0 <= n <= 16,
    ensures
        forall|i: int, j: int|
            0 <= i < j < roles_among(members, n).len() ==> role_place(
                #[trigger] roles_among(members, n)[i],
            ) < role_place(#[trigger] roles_among(members, n)[j]),
        forall|i: int|
            0 <= i < roles_among(members, n).len() ==> role_place(
                #[trigger] roles_among(members, n)[i],
            ) < n,
    decreases n,
{
    if n > 0 {
        lemma_among_rises(members, n - 1);
        let before = roles_among(members, n - 1);
        let last = role_order()[n - 1];
        assert(role_place(last) == n - 1);
        if members.contains(last) {
            let all = before.push(last);
            assert forall|i: int, j: int| 0 <= i < j < all.len() implies role_place(
                #[trigger] all[i],
            ) < role_place(#[trigger] all[j]) by {
                assert(all[i] == before[i]);
                if j < before.len() {
                    assert(all[j] == before[j]);
                }
            }
            assert forall|i: int| 0 <= i < all.len() implies role_place(#[trigger] all[i]) < n by {
                if i < before.len() {
                    assert(all[i] == before[i]);
                }
            }
        }
    }
}

/// There are as many members in order as there are members.
pub proof fn lemma_roles_are_counted(members: Set<AgentRole>)
    ensures
        roles_in_order(members).len() == members.len(),
{
    let all = roles_in_order(members);
    lemma_in_order(members);
    lemma_among_rises(members, 16);
    assert(all.no_duplicates());
    all.unique_seq_to_set();
}

/// The members of a set, in order, are the members of the set.
proof fn lemma_in_order(members: Set<AgentRole>)
    ensures
        roles_in_order(members).to_set() == members,
{
    assert forall|role: AgentRole|
        roles_in_order(members).to_set().contains(role) == members.contains(role) by {
        lemma_among(members, 16, role);
    }
    assert(roles_in_order(members).to_set() =~= members);
}

fn holds(members: &Vec<AgentRole>, role: AgentRole) -> (r: bool)
    ensures
        r == members@.to_set().contains(role),
{
    let mut i: usize = 0;
    while i < members.len()
        invariant
            i <= members.len(),
            forall|k: int| 0 <= k < i ==> members@[k] != role,
        decreases members.len() - i,
    {
        if members[i] == role {
            return true;
        }
        i = i + 1;
    }
    false
}

/// A set of roles. The members stand in the order of the roles, each of them once, so that equal sets
/// are equal values.
#[derive(Debug, PartialEq, Eq)]
pub struct RoleSet {
    members: Vec<AgentRole>,
}

impl View for RoleSet {
    type V = Set<AgentRole>;

    closed spec fn view(&self) -> Set<AgentRole> {
        self.members@.to_set()
    }
}

impl RoleSet {
    #[verifier::type_invariant]
    spec fn ordered(self) -> bool {
        self.members@ == roles_in_order(self.members@.to_set())
    }

    pub fn new() -> (r: Self)
        ensures
            r@ == Set::<AgentRole>::empty(),
    {
        let r = RoleSet::of(Vec::new());
        assert(r@ =~= Set::<AgentRole>::empty());
        r
    }

    pub fn of(members: Vec<AgentRole>) -> (r: Self)
        ensures
            r@ == members@.to_set(),
    {
        let ghost all = members@.to_set();
        let order = all_roles();
        let mut kept: Vec<AgentRole> = Vec::new();
        let mut i: usize = 0;
        while i < 16
            invariant
                i <= 16,
                all == members@.to_set(),
                order@ == role_order(),
                kept@ == roles_among(all, i as int),
            decreases 16 - i,
        {
            if holds(&members, order[i]) {
                kept.push(order[i]);
            }
            i = i + 1;
        }
        proof {
            lemma_in_order(all);
        }
        RoleSet { members: kept }
    }

    pub fn single(role: AgentRole) -> (r: Self)
        ensures
            r@ == set![role],
    {
        let members: Vec<AgentRole> = vec![role];
        assert(members@[0] == role);
        assert(members@.to_set() =~= set![role]);
        RoleSet::of(members)
    }

    pub fn contains(&self, role: AgentRole) -> (r: bool)
        ensures
            r == self@.contains(role),
    {
        holds(&self.members, role)
    }

    pub fn in_order(&self) -> (r: Vec<AgentRole>)
        ensures
            r@ == roles_in_order(self@),
    {
        proof {
            use_type_invariant(self);
        }
        let mut r: Vec<AgentRole> = Vec::new();
        let mut i: usize = 0;
        while i < self.members.len()
            invariant
                i <= self.members.len(),
                r@ == self.members@.subrange(0, i as int),
            decreases self.members.len() - i,
        {
            r.push(self.members[i]);
            i = i + 1;
            assert(r@ =~= self.members@.subrange(0, i as int));
        }
        assert(r@ =~= self.members@);
        r
    }

    pub fn count_common(&self, other: &RoleSet) -> (r: usize)
        ensures
            r == common_roles(self@, other@),
            r <= 16,
    {
        let order = all_roles();
        let mut r: usize = 0;
        let mut i: usize = 0;
        while i < 16
            invariant
                i <= 16,
                order@ == role_order(),
                r <= i,
                r == roles_among(self@.intersect(other@), i as int).len(),
            decreases 16 - i,
        {
            if self.contains(order[i]) && other.contains(order[i]) {
                r = r + 1;
            }
            i = i + 1;
        }
        r
    }

    /// The first of the members in the order of the roles.
    pub fn first(&self) -> (r: Option<AgentRole>)
        ensures
            r == first_role(self@),
    {
        let roles = self.in_order();
        if roles.len() > 0 {
            Some(roles[0])
        } else {
            None
        }
    }

    pub fn copy(&self) -> (r: Self)
        ensures
            r@ == self@,
    {
        proof {
            lemma_in_order(self@);
        }
        RoleSet::of(self.in_order())
    }
}

pub open spec fn first_role(members: Set<AgentRole>) -> Option<AgentRole> {
    let roles = roles_in_order(members);
    if roles.len() > 0 {
        Some(roles[0])
    } else {
        None
    }
}

/// The name of a role in serialised form.
pub open spec fn role_kebab_text(role: AgentRole) -> Seq<char> {
    match role {
        AgentRole::RequirementsAnalyst => "requirements-analyst"@,
        AgentRole::Explorer => "explorer"@,
        AgentRole::Architect => "architect"@,
        AgentRole::Planner => "planner"@,
        AgentRole::Coder => "coder"@,
        AgentRole::Reviewer => "review"@,
        AgentRole::SecurityAuditor => "security-auditor"@,
        AgentRole::PerformanceEngineer => "performance-engineer"@,
        AgentRole::Tester => "tester"@,
        AgentRole::ReleaseManager => "release-manager"@,
        AgentRole::Debugger => "debugger"@,
        AgentRole::Researcher => "researcher"@,
        AgentRole::MergeAgent => "merge-agent"@,
        AgentRole::Coordinator => "coordinator"@,
        AgentRole::StaffingRouter => "staffing-router"@,
        AgentRole::Supervisor => "supervisor"@,
    }
}

pub fn role_kebab(role: AgentRole) -> (r: &'static str)
    ensures
        r@ == role_kebab_text(role),
{
    match role {
        AgentRole::RequirementsAnalyst => "requirements-analyst",
        AgentRole::Explorer => "explorer",
        AgentRole::Architect => "architect",
        AgentRole::Planner => "planner",
        AgentRole::Coder => "coder",
        AgentRole::Reviewer => "review",
        AgentRole::SecurityAuditor => "security-auditor",
        AgentRole::PerformanceEngineer => "performance-engineer",
        AgentRole::Tester => "tester",
        AgentRole::ReleaseManager => "release-manager",
        AgentRole::Debugger => "debugger",
        AgentRole::Researcher => "researcher",
        AgentRole::MergeAgent => "merge-agent",
        AgentRole::Coordinator => "coordinator",
        AgentRole::StaffingRouter => "staffing-router",
        AgentRole::Supervisor => "supervisor",
    }
}

/// The name of a role in status events.
pub open spec fn role_name_text(role: AgentRole) -> Seq<char> {
    match role {
        AgentRole::RequirementsAnalyst => "RequirementsAnalyst"@,
        AgentRole::Explorer => "Explorer"@,
        AgentRole::Architect => "Architect"@,
        AgentRole::Planner => "Planner"@,
        AgentRole::Coder => "Coder"@,
        AgentRole::Reviewer => "Review"@,
        AgentRole::SecurityAuditor => "SecurityAuditor"@,
        AgentRole::PerformanceEngineer => "PerformanceEngineer"@,
        AgentRole::Tester => "Tester"@,
        AgentRole::ReleaseManager => "ReleaseManager"@,
        AgentRole::Debugger => "Debugger"@,
        AgentRole::Researcher => "Researcher"@,
        AgentRole::MergeAgent => "MergeAgent"@,
        AgentRole::Coordinator => "Coordinator"@,
        AgentRole::StaffingRouter => "StaffingRouter"@,
        AgentRole::Supervisor => "Supervisor"@,
    }
}

pub fn role_name(role: AgentRole) -> (r: &'static str)
    ensures
        r@ == role_name_text(role),
{
    match role {
        AgentRole::RequirementsAnalyst => "RequirementsAnalyst",
        AgentRole::Explorer => "Explorer",
        AgentRole::Architect => "Architect",
        AgentRole::Planner => "Planner",
        AgentRole::Coder => "Coder",
        AgentRole::Reviewer => "Review",
        AgentRole::SecurityAuditor => "SecurityAuditor",
        AgentRole::PerformanceEngineer => "PerformanceEngineer",
        AgentRole::Tester => "Tester",
        AgentRole::ReleaseManager => "ReleaseManager",
        AgentRole::Debugger => "Debugger",
        AgentRole::Researcher => "Researcher",
        AgentRole::MergeAgent => "MergeAgent",
        AgentRole::Coordinator => "Coordinator",
        AgentRole::StaffingRouter => "StaffingRouter",
        AgentRole::Supervisor => "Supervisor",
    }
}

/// What the work of a role has to provide to be accepted.
pub open spec fn role_criterion(role: AgentRole) -> Seq<char> {
    match role {
        AgentRole::RequirementsAnalyst => "提供范围、非目标、歧义和可确定验证的验收标准"@,
        AgentRole::Explorer => "提供带文件/符号引用的入口、依赖和数据流地图"@,
        AgentRole::Architect => "提供边界、契约、失败模式、权衡和 ADR"@,
        AgentRole::Planner => "提供无环依赖、文件所有权、验收证据和回滚点"@,
        AgentRole::Coder => "提交最小实现并报告真实工具/验证结果"@,
        AgentRole::Reviewer => "提供带证据位置、影响和复现条件的 review evidence"@,
        AgentRole::SecurityAuditor => "提供严重度、证据位置、攻击前提和修复验收条件的 security evidence"@,
        AgentRole::PerformanceEngineer => "提供基线、负载、指标、瓶颈和回归阈值的 performance evidence"@,
        AgentRole::Tester => "提供命令、环境、实际结果和覆盖映射的 test evidence"@,
        AgentRole::ReleaseManager => "提供版本、测试、产物、校验和与回滚核对的 release evidence"@,
        AgentRole::Debugger => "提供稳定复现、互斥假设、最小实验和根因链"@,
        AgentRole::Researcher => "提供带来源和版本日期的事实/推断分离结论"@,
        AgentRole::MergeAgent => "提供不丢失契约和会议决定的冲突解决结果"@,
        AgentRole::Coordinator => "提供冲突、会议记录和可追踪决定"@,
        AgentRole::StaffingRouter => "提供结构化能力、容量和成本分配理由"@,
        AgentRole::Supervisor => "提供目标、预算、权限、依赖和证据门状态"@,
    }
}

pub fn role_criterion_of(role: AgentRole) -> (r: &'static str)
    ensures
        r@ == role_criterion(role),
{
    match role {
        AgentRole::RequirementsAnalyst => "提供范围、非目标、歧义和可确定验证的验收标准",
        AgentRole::Explorer => "提供带文件/符号引用的入口、依赖和数据流地图",
        AgentRole::Architect => "提供边界、契约、失败模式、权衡和 ADR",
        AgentRole::Planner => "提供无环依赖、文件所有权、验收证据和回滚点",
        AgentRole::Coder => "提交最小实现并报告真实工具/验证结果",
        AgentRole::Reviewer => "提供带证据位置、影响和复现条件的 review evidence",
        AgentRole::SecurityAuditor => "提供严重度、证据位置、攻击前提和修复验收条件的 security evidence",
        AgentRole::PerformanceEngineer => "提供基线、负载、指标、瓶颈和回归阈值的 performance evidence",
        AgentRole::Tester => "提供命令、环境、实际结果和覆盖映射的 test evidence",
        AgentRole::ReleaseManager => "提供版本、测试、产物、校验和与回滚核对的 release evidence",
        AgentRole::Debugger => "提供稳定复现、互斥假设、最小实验和根因链",
        AgentRole::Researcher => "提供带来源和版本日期的事实/推断分离结论",
        AgentRole::MergeAgent => "提供不丢失契约和会议决定的冲突解决结果",
        AgentRole::Coordinator => "提供冲突、会议记录和可追踪决定",
        AgentRole::StaffingRouter => "提供结构化能力、容量和成本分配理由",
        AgentRole::Supervisor => "提供目标、预算、权限、依赖和证据门状态",
    }
}

/// The words by which tools are looked up for a role.
pub open spec fn role_terms_text(role: AgentRole) -> Seq<char> {
    match role {
        AgentRole::RequirementsAnalyst => "files read search requirements"@,
        AgentRole::Explorer => "files read search symbols references"@,
        AgentRole::Architect => "files read search architecture dependencies"@,
        AgentRole::Planner => "code file read write test"@,
        AgentRole::Coder => "code file read write test"@,
        AgentRole::Reviewer => "files read diff diagnostics"@,
        AgentRole::SecurityAuditor => "files read search diff security secrets dependencies"@,
        AgentRole::PerformanceEngineer => "files read process benchmark profile performance"@,
        AgentRole::Tester => "files read process test diagnostics"@,
        AgentRole::ReleaseManager => "files read process git diff package version checksum"@,
        AgentRole::Debugger => "files read process diagnostics reproduce"@,
        AgentRole::Researcher => "files read search browser documentation"@,
        AgentRole::MergeAgent => "code file read write test"@,
        AgentRole::Coordinator => "code file read write test"@,
        AgentRole::StaffingRouter => "code file read write test"@,
        AgentRole::Supervisor => "code file read write test"@,
    }
}

pub fn role_terms(role: AgentRole) -> (r: &'static str)
    ensures
        r@ == role_terms_text(role),
{
    match role {
        AgentRole::RequirementsAnalyst => "files read search requirements",
        AgentRole::Explorer => "files read search symbols references",
        AgentRole::Architect => "files read search architecture dependencies",
        AgentRole::Planner => "code file read write test",
        AgentRole::Coder => "code file read write test",
        AgentRole::Reviewer => "files read diff diagnostics",
        AgentRole::SecurityAuditor => "files read search diff security secrets dependencies",
        AgentRole::PerformanceEngineer => "files read process benchmark profile performance",
        AgentRole::Tester => "files read process test diagnostics",
        AgentRole::ReleaseManager => "files read process git diff package version checksum",
        AgentRole::Debugger => "files read process diagnostics reproduce",
        AgentRole::Researcher => "files read search browser documentation",
        AgentRole::MergeAgent => "code file read write test",
        AgentRole::Coordinator => "code file read write test",
        AgentRole::StaffingRouter => "code file read write test",
        AgentRole::Supervisor => "code file read write test",
    }
}

pub fn role_acceptance_criteria(role: AgentRole) -> (r: Vec<String>)
    ensures
        crate::text::texts(r@) == seq![role_criterion(role)],
{
    let r = vec![role_criterion_of(role).to_owned()];
    assert(crate::text::texts(r@) =~= seq![role_criterion(role)]);
    r
}

/// The kind of evidence that the result of a role must carry, if it must carry any.
pub open spec fn evidence_kind_text(role: AgentRole) -> Option<Seq<char>> {
    match role {
        AgentRole::RequirementsAnalyst => Some("requirements"@),
        AgentRole::Explorer => Some("exploration"@),
        AgentRole::Architect => Some("architecture"@),
        AgentRole::Reviewer => Some("review"@),
        AgentRole::SecurityAuditor => Some("security"@),
        AgentRole::PerformanceEngineer => Some("performance"@),
        AgentRole::Tester => Some("test"@),
        AgentRole::ReleaseManager => Some("release"@),
        _ => None,
    }
}

pub fn role_evidence_kind(role: AgentRole) -> (r: Option<&'static str>)
    ensures
        r is Some <==> evidence_kind_text(role) is Some,
        r matches Some(kind) ==> evidence_kind_text(role) == Some(kind@),
{
    match role {
        AgentRole::RequirementsAnalyst => Some("requirements"),
        AgentRole::Explorer => Some("exploration"),
        AgentRole::Architect => Some("architecture"),
        AgentRole::Reviewer => Some("review"),
        AgentRole::SecurityAuditor => Some("security"),
        AgentRole::PerformanceEngineer => Some("performance"),
        AgentRole::Tester => Some("test"),
        AgentRole::ReleaseManager => Some("release"),
        _ => None,
    }
}

/// The number of model turns that a role may take.
pub open spec fn turn_limit(role: AgentRole) -> u8 {
    match role {
        AgentRole::RequirementsAnalyst | AgentRole::Explorer | AgentRole::Planner => 2,
        AgentRole::Architect | AgentRole::Reviewer | AgentRole::SecurityAuditor => 3,
        _ => 4,
    }
}

pub fn role_max_turns(role: AgentRole) -> (r: u8)
    ensures
        r == turn_limit(role),
{
    match role {
        AgentRole::RequirementsAnalyst | AgentRole::Explorer | AgentRole::Planner => 2,
        AgentRole::Architect | AgentRole::Reviewer | AgentRole::SecurityAuditor => 3,
        AgentRole::PerformanceEngineer | AgentRole::Tester | AgentRole::ReleaseManager => 4,
        _ => 4,
    }
}

pub open spec fn context_role_of(role: AgentRole) -> ContextRole {
    match role {
        AgentRole::RequirementsAnalyst => ContextRole::Requirements,
        AgentRole::Explorer => ContextRole::Explorer,
        AgentRole::Architect => ContextRole::Architect,
        AgentRole::Planner | AgentRole::Researcher => ContextRole::Planner,
        AgentRole::StaffingRouter => ContextRole::Staffing,
        AgentRole::Coder | AgentRole::Debugger | AgentRole::MergeAgent => ContextRole::Coder,
        AgentRole::Reviewer => ContextRole::Reviewer,
        AgentRole::SecurityAuditor => ContextRole::Security,
        AgentRole::PerformanceEngineer => ContextRole::Performance,
        AgentRole::Tester => ContextRole::Tester,
        AgentRole::ReleaseManager => ContextRole::Release,
        AgentRole::Coordinator => ContextRole::Coordinator,
        AgentRole::Supervisor => ContextRole::Supervisor,
    }
}

pub fn context_role(role: AgentRole) -> (r: ContextRole)
    ensures
        r == context_role_of(role),
{
    match role {
        AgentRole::RequirementsAnalyst => ContextRole::Requirements,
        AgentRole::Explorer => ContextRole::Explorer,
        AgentRole::Architect => ContextRole::Architect,
        AgentRole::Planner | AgentRole::Researcher => ContextRole::Planner,
        AgentRole::StaffingRouter => ContextRole::Staffing,
        AgentRole::Coder | AgentRole::Debugger | AgentRole::MergeAgent => ContextRole::Coder,
        AgentRole::Reviewer => ContextRole::Reviewer,
        AgentRole::SecurityAuditor => ContextRole::Security,
        AgentRole::PerformanceEngineer => ContextRole::Performance,
        AgentRole::Tester => ContextRole::Tester,
        AgentRole::ReleaseManager => ContextRole::Release,
        AgentRole::Coordinator => ContextRole::Coordinator,
        AgentRole::Supervisor => ContextRole::Supervisor,
    }
}

/// The roles whose results are checked against the diagnostics that were seen during the run.
pub open spec fn gathers_diagnostics(role: AgentRole) -> bool {
    role == AgentRole::Reviewer || role == AgentRole::SecurityAuditor || role
        == AgentRole::PerformanceEngineer || role == AgentRole::Tester || role
        == AgentRole::ReleaseManager
}

pub fn role_gathers_diagnostics(role: AgentRole) -> (r: bool)
    ensures
        r == gathers_diagnostics(role),
{
    match role {
        AgentRole::Reviewer
        | AgentRole::SecurityAuditor
        | AgentRole::PerformanceEngineer
        | AgentRole::Tester
        | AgentRole::ReleaseManager => true,
        _ => false,
    }
}

/// Each role that gathers diagnostics must also carry evidence of its own kind.
pub proof fn law_diagnostic_roles_owe_evidence(role: AgentRole)
    requires
        gathers_diagnostics(role),
    ensures
        evidence_kind_text(role) is Some,
{
}

} // verus!
