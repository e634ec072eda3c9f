//! The plans of missions: which nodes they have, and who works on them.

use vstd::prelude::*;
use vstd::string::*;

use crate::application::{AppView, HarnessApplication};
use crate::error::{agent_error, failure, list_outcome, unit_outcome, ApplicationError, Outcome};
use crate::mission::{
    MissionState, MissionStatus, MissionView, NodeKind, NodePlanView, NodeStatus,
    WorkflowNodeDefinition,
};
use crate::model::{duplicate_all, group_views, option_view, views};
use crate::ordered::{enumerates, in_order, TextSet};
use crate::roles::{AgentRole, RoleSet};
use crate::staffing::{
    is_staffing, AssignmentView, StaffingAssignment, StaffingRouter, StaffingTask,
    StaffingTaskView,
};
use crate::text::{
    contains, contains_text, decimal, decimal_of, is_blank, is_blank_text, lower, lowercase,
    occurs_at, texts, two_digits, two_digits_of,
};

verus! {

/// The words of which each says that safety matters, that speed matters, or that it is released.
pub open spec fn security_words() -> Seq<Seq<char>> {
    seq![
        "security"@,
        "secure"@,
        "auth"@,
        "permission"@,
        "secret"@,
        "credential"@,
        "crypto"@,
        "injection"@,
        "supply chain"@,
        "安全"@,
        "鉴权"@,
        "认证"@,
        "授权"@,
        "权限"@,
        "密钥"@,
        "注入"@,
        "供应链"@,
    ]
}

pub open spec fn performance_words() -> Seq<Seq<char>> {
    seq![
        "performance"@,
        "latency"@,
        "throughput"@,
        "benchmark"@,
        "profil"@,
        "memory leak"@,
        "optimize"@,
        "slow"@,
        "性能"@,
        "延迟"@,
        "吞吐"@,
        "基准"@,
        "内存泄漏"@,
        "优化"@,
        "卡顿"@,
    ]
}

pub open spec fn release_words() -> Seq<Seq<char>> {
    seq![
        "release"@,
        "publish"@,
        "deploy"@,
        "package"@,
        "shipping"@,
        "version bump"@,
        "发布"@,
        "上线"@,
        "部署"@,
        "打包"@,
        "发版"@,
        "版本"@,
    ]
}

/// Which of the specialists a task needs beside the others.
#[derive(Clone, Copy, Debug, PartialEq, Eq, Structural)]
pub struct AdaptiveTeamProfile {
    pub security: bool,
    pub performance: bool,
    pub release: bool,
}

pub open spec fn mentions_any(text: Seq<char>, words: Seq<Seq<char>>) -> bool {
    exists|i: int| 0 <= i < words.len() && contains_text(text, #[trigger] words[i])
}

/// What a text in lower case asks for.
pub open spec fn profile_in(text: Seq<char>) -> AdaptiveTeamProfile {
    AdaptiveTeamProfile {
        security: mentions_any(text, security_words()),
        performance: mentions_any(text, performance_words()),
        release: mentions_any(text, release_words()),
    }
}

proof fn lemma_mentions_stay(
    text: Seq<char>,
    before: Seq<char>,
    after: Seq<char>,
    words: Seq<Seq<char>>,
)
    requires
        mentions_any(text, words),
    ensures
        mentions_any(before + text + after, words),
{
    let i = choose|i: int| 0 <= i < words.len() && contains_text(text, #[trigger] words[i]);
    let word = words[i];
    let at = choose|at: int| occurs_at(text, word, at);
    let whole = before + text + after;
    let there = before.len() + at;
    assert(whole.subrange(there, there + word.len()) =~= word);
    assert(occurs_at(whole, word, there));
}

/// More text never takes a specialist away: whatever a text in lower case asks for, it asks for with
/// anything before and after it too. Whether a specialist is asked for rests on the words for that
/// specialist alone.
pub proof fn law_more_text_asks_for_no_less(text: Seq<char>, before: Seq<char>, after: Seq<char>)
    ensures
        ({
            let whole = profile_in(before + text + after);
            &&& profile_in(text).security ==> whole.security
            &&& profile_in(text).performance ==> whole.performance
            &&& profile_in(text).release ==> whole.release
        }),
        profile_in(text).security <==> mentions_any(text, security_words()),
        profile_in(text).performance <==> mentions_any(text, performance_words()),
        profile_in(text).release <==> mentions_any(text, release_words()),
{
    if profile_in(text).security {
        lemma_mentions_stay(text, before, after, security_words());
    }
    if profile_in(text).performance {
        lemma_mentions_stay(text, before, after, performance_words());
    }
    if profile_in(text).release {
        lemma_mentions_stay(text, before, after, release_words());
    }
}

fn contains_any(text: &str, words: &Vec<&str>) -> (r: bool)
    ensures
        r == mentions_any(text@, views(words@)),
{
    let mut i: usize = 0;
    while i < words.len()
        invariant
            i <= words.len(),
            forall|k: int| 0 <= k < i ==> !contains_text(text@, #[trigger] views(words@)[k]),
        decreases words.len() - i,
    {
        assert(views(words@)[i as int] == words@[i as int]@);
        if contains(text, words[i]) {
            return true;
        }
        i = i + 1;
    }
    false
}

impl Default for AdaptiveTeamProfile {
    fn default() -> (r: Self)
        ensures
            r == (AdaptiveTeamProfile { security: false, performance: false, release: false }),
    {
        AdaptiveTeamProfile { security: false, performance: false, release: false }
    }
}

impl AdaptiveTeamProfile {
    /// What an objective asks for.
    pub fn classify(objective: &str) -> (r: Self)
        ensures
            r == profile_in(lowercase(objective@)),
    {
        Self::in_lower_case(lower(objective).as_str())
    }

    /// What an objective in lower case asks for.
    pub fn in_lower_case(text: &str) -> (r: Self)
        ensures
            r == profile_in(text@),
    {
        let security: Vec<&str> = vec![
            "security",
            "secure",
            "auth",
            "permission",
            "secret",
            "credential",
            "crypto",
            "injection",
            "supply chain",
            "安全",
            "鉴权",
            "认证",
            "授权",
            "权限",
            "密钥",
            "注入",
            "供应链",
        ];
        assert(views(security@) =~= security_words());
        let performance: Vec<&str> = vec![
            "performance",
            "latency",
            "throughput",
            "benchmark",
            "profil",
            "memory leak",
            "optimize",
            "slow",
            "性能",
            "延迟",
            "吞吐",
            "基准",
            "内存泄漏",
            "优化",
            "卡顿",
        ];
        assert(views(performance@) =~= performance_words());
        let release: Vec<&str> = vec![
            "release",
            "publish",
            "deploy",
            "package",
            "shipping",
            "version bump",
            "发布",
            "上线",
            "部署",
            "打包",
            "发版",
            "版本",
        ];
        assert(views(release@) =~= release_words());
        AdaptiveTeamProfile {
            security: contains_any(text, &security),
            performance: contains_any(text, &performance),
            release: contains_any(text, &release),
        }
    }
}

/// A node of a plan before somebody is found for it.
pub struct AdaptiveNodeBlueprint {
    pub id: String,
    pub title: String,
    pub kind: NodeKind,
    pub depends_on: Vec<String>,
    pub required_capability: String,
    pub preferred_role: AgentRole,
}

pub struct BlueprintView {
    pub id: Seq<char>,
    pub title: Seq<char>,
    pub kind: NodeKind,
    pub depends_on: Seq<Seq<char>>,
    pub required_capability: Seq<char>,
    pub preferred_role: AgentRole,
}

impl View for AdaptiveNodeBlueprint {
    type V = BlueprintView;

    open spec fn view(&self) -> BlueprintView {
        BlueprintView {
            id: self.id@,
            title: self.title@,
            kind: self.kind,
            depends_on: texts(self.depends_on@),
            required_capability: self.required_capability@,
            preferred_role: self.preferred_role,
        }
    }
}

fn blueprint(
    id: &str,
    title: &str,
    prompt: &str,
    kind: NodeKind,
    depends_on: Vec<String>,
    required_capability: &str,
    preferred_role: AgentRole,
) -> (r: AdaptiveNodeBlueprint)
    ensures
        r@ == (BlueprintView {
            id: id@,
            title: title@ + prompt@,
            kind,
            depends_on: texts(depends_on@),
            required_capability: required_capability@,
            preferred_role,
        }),
{
    let mut full: String = title.to_string();
    full.append(prompt);
    AdaptiveNodeBlueprint {
        id: id.to_string(),
        title: full,
        kind,
        depends_on,
        required_capability: required_capability.to_string(),
        preferred_role,
    }
}

pub open spec fn coder_task(index: int) -> Seq<char> {
    "task:coder:"@ + two_digits(index as nat)
}

pub open spec fn coder_tasks(count: int) -> Seq<Seq<char>> {
    Seq::new(count as nat, |i: int| coder_task(i))
}

fn coder_task_id(index: usize) -> (r: String)
    ensures
        r@ == coder_task(index as int),
{
    let mut r: String = "task:coder:".to_string();
    r.append(two_digits_of(index).as_str());
    r
}

fn coder_task_ids(count: usize) -> (r: Vec<String>)
    ensures
        texts(r@) == coder_tasks(count as int),
{
    let mut r: Vec<String> = Vec::new();
    let mut i: usize = 0;
    while i < count
        invariant
            i <= count,
            r@.len() == i,
            forall|k: int| 0 <= k < i ==> (#[trigger] r@[k])@ == coder_task(k),
        decreases count - i,
    {
        r.push(coder_task_id(i));
        i = i + 1;
    }
    assert(texts(r@) =~= coder_tasks(count as int));
    r
}

/// What comes before the code: what is wanted, what is there, how it is done and in which order.
pub open spec fn opening_blueprints(prompt: Seq<char>) -> Seq<BlueprintView> {
    seq![
        BlueprintView {
            id: "task:requirements"@,
            title: "澄清范围、非目标与可验证验收标准："@ + prompt,
            kind: NodeKind::Task,
            depends_on: Seq::empty(),
            required_capability: "requirements-analysis"@,
            preferred_role: AgentRole::RequirementsAnalyst,
        },
        BlueprintView {
            id: "task:explorer"@,
            title: "只读定位入口、依赖、符号与数据流："@ + prompt,
            kind: NodeKind::Task,
            depends_on: Seq::empty(),
            required_capability: "codebase-exploration"@,
            preferred_role: AgentRole::Explorer,
        },
        BlueprintView {
            id: "task:architect"@,
            title: "定义边界、契约、失败模式与架构决策："@ + prompt,
            kind: NodeKind::Task,
            depends_on: seq!["task:requirements"@, "task:explorer"@],
            required_capability: "system-design"@,
            preferred_role: AgentRole::Architect,
        },
        BlueprintView {
            id: "task:planner"@,
            title: "把需求与架构转成可并行 Evidence DAG："@ + prompt,
            kind: NodeKind::Task,
            depends_on: seq!["task:architect"@],
            required_capability: "task-decomposition"@,
            preferred_role: AgentRole::Planner,
        },
    ]
}

pub open spec fn coder_blueprint(prompt: Seq<char>, index: int) -> BlueprintView {
    BlueprintView {
        id: coder_task(index),
        title: "实现受控编码分片 "@ + decimal((index + 1) as nat) + "："@ + prompt,
        kind: NodeKind::Task,
        depends_on: seq!["task:planner"@],
        required_capability: "code-edit"@,
        preferred_role: AgentRole::Coder,
    }
}

pub open spec fn coder_blueprints(prompt: Seq<char>, count: int) -> Seq<BlueprintView> {
    Seq::new(count as nat, |i: int| coder_blueprint(prompt, i))
}

/// The reviews of the code, each by itself.
pub open spec fn review_blueprints(
    prompt: Seq<char>,
    count: int,
    profile: AdaptiveTeamProfile,
) -> Seq<BlueprintView> {
    let review = seq![
        BlueprintView {
            id: "task:review"@,
            title: "独立审查正确性、契约与回归风险："@ + prompt,
            kind: NodeKind::Review,
            depends_on: coder_tasks(count),
            required_capability: "code-review"@,
            preferred_role: AgentRole::Reviewer,
        },
    ];
    let security = if profile.security {
        review.push(
            BlueprintView {
                id: "task:security"@,
                title: "独立安全审计与威胁模型："@ + prompt,
                kind: NodeKind::Review,
                depends_on: coder_tasks(count),
                required_capability: "security-audit"@,
                preferred_role: AgentRole::SecurityAuditor,
            },
        )
    } else {
        review
    };
    if profile.performance {
        security.push(
            BlueprintView {
                id: "task:performance"@,
                title: "测量基线、瓶颈与性能回归阈值："@ + prompt,
                kind: NodeKind::Review,
                depends_on: coder_tasks(count),
                required_capability: "performance-analysis"@,
                preferred_role: AgentRole::PerformanceEngineer,
            },
        )
    } else {
        security
    }
}

pub open spec fn ids_of(blueprints: Seq<BlueprintView>) -> Seq<Seq<char>> {
    Seq::new(blueprints.len(), |i: int| blueprints[i].id)
}

/// What comes after all reviews: the tests, and what is released once they have passed.
pub open spec fn closing_blueprints(
    prompt: Seq<char>,
    count: int,
    profile: AdaptiveTeamProfile,
) -> Seq<BlueprintView> {
    let test = seq![
        BlueprintView {
            id: "task:tester"@,
            title: "按验收标准验证所有实现与独立审查结论："@ + prompt,
            kind: NodeKind::Task,
            depends_on: ids_of(review_blueprints(prompt, count, profile)),
            required_capability: "test-execution"@,
            preferred_role: AgentRole::Tester,
        },
    ];
    if profile.release {
        test.push(
            BlueprintView {
                id: "task:release"@,
                title: "验证版本、产物、校验和与回滚方案："@ + prompt,
                kind: NodeKind::Review,
                depends_on: seq!["task:tester"@],
                required_capability: "release-readiness"@,
                preferred_role: AgentRole::ReleaseManager,
            },
        )
    } else {
        test
    }
}

pub open spec fn adaptive_blueprints(
    prompt: Seq<char>,
    count: int,
    profile: AdaptiveTeamProfile,
) -> Seq<BlueprintView> {
    opening_blueprints(prompt) + coder_blueprints(prompt, count) + review_blueprints(
        prompt,
        count,
        profile,
    ) + closing_blueprints(prompt, count, profile)
}

/// Whether a node of a plan comes before a place in it.
pub open spec fn planned_before(nodes: Seq<BlueprintView>, id: Seq<char>, place: int) -> bool {
    exists|j: int| 0 <= j < place && (#[trigger] nodes[j]).id == id
}

/// The nodes of an adaptive plan wait only for nodes that come before them, so the plan has no
/// circle.
pub proof fn law_adaptive_plans_have_no_circle(
    prompt: Seq<char>,
    count: int,
    profile: AdaptiveTeamProfile,
    i: int,
    d: int,
)
    requires
        0 <= count,
        0 <= i < adaptive_blueprints(prompt, count, profile).len(),
        0 <= d < adaptive_blueprints(prompt, count, profile)[i].depends_on.len(),
    ensures
        planned_before(
            adaptive_blueprints(prompt, count, profile),
            adaptive_blueprints(prompt, count, profile)[i].depends_on[d],
            i,
        ),
{
    let opening = opening_blueprints(prompt);
    let coders = coder_blueprints(prompt, count);
    let reviews = review_blueprints(prompt, count, profile);
    let closing = closing_blueprints(prompt, count, profile);
    let all = adaptive_blueprints(prompt, count, profile);
    let id = all[i].depends_on[d];
    let a = opening.len() as int;
    let b = a + coders.len();
    let c = b + reviews.len();
    if i < a {
        assert(all[i] == opening[i]);
        assert(all[0] == opening[0]);
        assert(all[1] == opening[1]);
        assert(all[2] == opening[2]);
        if i == 2 {
            assert(all[d].id == id);
        } else {
            assert(i == 3);
            assert(all[2].id == id);
        }
    } else if i < b {
        assert(all[i] == coders[i - a]);
        assert(all[3] == opening[3]);
        assert(all[3].id == id);
    } else if i < c {
        assert(all[i] == reviews[i - b]);
        assert(all[i].depends_on == coder_tasks(count));
        assert(all[a + d] == coders[d]);
        assert(all[a + d].id == id);
    } else {
        assert(all[i] == closing[i - c]);
        if i == c {
            assert(all[b + d] == reviews[d]);
            assert(all[b + d].id == id);
        } else {
            assert(all[c] == closing[0]);
            assert(all[c].id == id);
        }
    }
}

/// Everything that was coded is reviewed, and everything that was reviewed is tested.
pub proof fn law_code_is_reviewed_and_tested(
    prompt: Seq<char>,
    count: int,
    profile: AdaptiveTeamProfile,
    coder: int,
    review: int,
)
    requires
        0 <= coder < count,
        0 <= review < review_blueprints(prompt, count, profile).len(),
    ensures
        review_blueprints(prompt, count, profile)[review].depends_on.contains(
            coder_blueprints(prompt, count)[coder].id,
        ),
        closing_blueprints(prompt, count, profile)[0].depends_on.contains(
            review_blueprints(prompt, count, profile)[review].id,
        ),
{
    let reviews = review_blueprints(prompt, count, profile);
    assert(reviews[review].depends_on == coder_tasks(count));
    assert(coder_tasks(count)[coder] == coder_blueprints(prompt, count)[coder].id);
    assert(ids_of(reviews)[review] == reviews[review].id);
}

fn one_text(text: &str) -> (r: Vec<String>)
    ensures
        texts(r@) == seq![text@],
{
    let mut r: Vec<String> = Vec::new();
    r.push(text.to_string());
    assert(texts(r@) =~= seq![text@]);
    r
}

fn draw_opening(prompt: &str) -> (r: Vec<AdaptiveNodeBlueprint>)
    ensures
        views(r@) == opening_blueprints(prompt@),
{
    broadcast use group_views;

    let none: Vec<String> = Vec::new();
    let also_none: Vec<String> = Vec::new();
    assert(texts(none@) =~= Seq::empty());
    assert(texts(also_none@) =~= Seq::empty());
    let mut both: Vec<String> = one_text("task:requirements");
    both.push("task:explorer".to_string());
    assert(texts(both@) =~= seq!["task:requirements"@, "task:explorer"@]);
    let r: Vec<AdaptiveNodeBlueprint> = vec![
        blueprint(
            "task:requirements",
            "澄清范围、非目标与可验证验收标准：",
            prompt,
            NodeKind::Task,
            none,
            "requirements-analysis",
            AgentRole::RequirementsAnalyst,
        ),
        blueprint(
            "task:explorer",
            "只读定位入口、依赖、符号与数据流：",
            prompt,
            NodeKind::Task,
            also_none,
            "codebase-exploration",
            AgentRole::Explorer,
        ),
        blueprint(
            "task:architect",
            "定义边界、契约、失败模式与架构决策：",
            prompt,
            NodeKind::Task,
            both,
            "system-design",
            AgentRole::Architect,
        ),
        blueprint(
            "task:planner",
            "把需求与架构转成可并行 Evidence DAG：",
            prompt,
            NodeKind::Task,
            one_text("task:architect"),
            "task-decomposition",
            AgentRole::Planner,
        ),
    ];
    assert(views(r@) =~= opening_blueprints(prompt@));
    r
}

fn draw_coders(prompt: &str, count: usize) -> (r: Vec<AdaptiveNodeBlueprint>)
    requires
        count <= 8,
    ensures
        views(r@) == coder_blueprints(prompt@, count as int),
{
    let mut r: Vec<AdaptiveNodeBlueprint> = Vec::new();
    let mut i: usize = 0;
    while i < count
        invariant
            i <= count <= 8,
            r@.len() == i,
            forall|k: int| 0 <= k < i ==> (#[trigger] r@[k])@ == coder_blueprint(prompt@, k),
        decreases count - i,
    {
        let mut title: String = "实现受控编码分片 ".to_string();
        title.append(decimal_of((i + 1) as u64).as_str());
        title.append("：");
        let id = coder_task_id(i);
        let ghost whole = coder_blueprint(prompt@, i as int);
        let node = blueprint(
            id.as_str(),
            title.as_str(),
            prompt,
            NodeKind::Task,
            one_text("task:planner"),
            "code-edit",
            AgentRole::Coder,
        );
        assert(node@.title =~= whole.title);
        r.push(node);
        i = i + 1;
    }
    assert(views(r@) =~= coder_blueprints(prompt@, count as int));
    r
}

fn draw_reviews(prompt: &str, count: usize, profile: AdaptiveTeamProfile) -> (r: Vec<
    AdaptiveNodeBlueprint,
>)
    ensures
        views(r@) == review_blueprints(prompt@, count as int, profile),
{
    broadcast use group_views;

    let mut r: Vec<AdaptiveNodeBlueprint> = Vec::new();
    r.push(
        blueprint(
            "task:review",
            "独立审查正确性、契约与回归风险：",
            prompt,
            NodeKind::Review,
            coder_task_ids(count),
            "code-review",
            AgentRole::Reviewer,
        ),
    );
    assert(views(r@) =~= seq![
        BlueprintView {
            id: "task:review"@,
            title: "独立审查正确性、契约与回归风险："@ + prompt@,
            kind: NodeKind::Review,
            depends_on: coder_tasks(count as int),
            required_capability: "code-review"@,
            preferred_role: AgentRole::Reviewer,
        },
    ]);
    if profile.security {
        r.push(
            blueprint(
                "task:security",
                "独立安全审计与威胁模型：",
                prompt,
                NodeKind::Review,
                coder_task_ids(count),
                "security-audit",
                AgentRole::SecurityAuditor,
            ),
        );
    }
    if profile.performance {
        r.push(
            blueprint(
                "task:performance",
                "测量基线、瓶颈与性能回归阈值：",
                prompt,
                NodeKind::Review,
                coder_task_ids(count),
                "performance-analysis",
                AgentRole::PerformanceEngineer,
            ),
        );
    }
    r
}

fn blueprint_ids(blueprints: &Vec<AdaptiveNodeBlueprint>) -> (r: Vec<String>)
    ensures
        texts(r@) == ids_of(views(blueprints@)),
{
    let mut r: Vec<String> = Vec::new();
    let mut i: usize = 0;
    while i < blueprints.len()
        invariant
            i <= blueprints.len(),
            r@.len() == i,
            forall|k: int| 0 <= k < i ==> (#[trigger] r@[k])@ == blueprints@[k]@.id,
        decreases blueprints.len() - i,
    {
        r.push(blueprints[i].id.clone());
        i = i + 1;
    }
    assert(texts(r@) =~= ids_of(views(blueprints@)));
    r
}

fn draw_closing(
    prompt: &str,
    count: usize,
    reviews: &Vec<AdaptiveNodeBlueprint>,
    profile: AdaptiveTeamProfile,
) -> (r: Vec<AdaptiveNodeBlueprint>)
    requires
        views(reviews@) == review_blueprints(prompt@, count as int, profile),
    ensures
        views(r@) == closing_blueprints(prompt@, count as int, profile),
{
    broadcast use group_views;

    let mut r: Vec<AdaptiveNodeBlueprint> = Vec::new();
    r.push(
        blueprint(
            "task:tester",
            "按验收标准验证所有实现与独立审查结论：",
            prompt,
            NodeKind::Task,
            blueprint_ids(reviews),
            "test-execution",
            AgentRole::Tester,
        ),
    );
    assert(views(r@) =~= seq![
        BlueprintView {
            id: "task:tester"@,
            title: "按验收标准验证所有实现与独立审查结论："@ + prompt@,
            kind: NodeKind::Task,
            depends_on: ids_of(review_blueprints(prompt@, count as int, profile)),
            required_capability: "test-execution"@,
            preferred_role: AgentRole::Tester,
        },
    ]);
    if profile.release {
        r.push(
            blueprint(
                "task:release",
                "验证版本、产物、校验和与回滚方案：",
                prompt,
                NodeKind::Review,
                one_text("task:tester"),
                "release-readiness",
                AgentRole::ReleaseManager,
            ),
        );
    }
    r
}

/// The nodes of the plan of an adaptive team, before somebody is found for them.
pub fn draw_adaptive(prompt: &str, count: usize, profile: AdaptiveTeamProfile) -> (r: Vec<
    AdaptiveNodeBlueprint,
>)
    requires
        count <= 8,
    ensures
        views(r@) == adaptive_blueprints(prompt@, count as int, profile),
{
    broadcast use group_views;

    let mut r = draw_opening(prompt);
    let mut coders = draw_coders(prompt, count);
    let mut reviews = draw_reviews(prompt, count, profile);
    let mut closing = draw_closing(prompt, count, &reviews, profile);
    r.append(&mut coders);
    r.append(&mut reviews);
    r.append(&mut closing);
    r
}

/// What a node asks of whoever works on it.
pub open spec fn staffing_task(b: BlueprintView) -> StaffingTaskView {
    StaffingTaskView {
        task_id: b.id,
        required_capabilities: set![b.required_capability],
        preferred_roles: set![b.preferred_role],
        forbidden_agents: Set::empty(),
    }
}

pub open spec fn staffing_tasks(blueprints: Seq<BlueprintView>) -> Seq<StaffingTaskView> {
    Seq::new(blueprints.len(), |i: int| staffing_task(blueprints[i]))
}

pub open spec fn plan_node(b: BlueprintView, agent: Seq<char>) -> NodePlanView {
    NodePlanView {
        id: b.id,
        title: b.title,
        kind: b.kind,
        depends_on: b.depends_on,
        agent_definition_id: agent,
        requires_approval: None,
    }
}

/// The nodes, each with the agent that it was given to.
pub open spec fn plan_nodes(blueprints: Seq<BlueprintView>, assignments: Seq<AssignmentView>) -> Seq<
    NodePlanView,
> {
    Seq::new(blueprints.len(), |i: int| plan_node(blueprints[i], assignments[i].agent_id))
}

fn staffing_task_for(id: &str, capability: &str, role: AgentRole) -> (r: StaffingTask)
    ensures
        r@ == (StaffingTaskView {
            task_id: id@,
            required_capabilities: set![capability@],
            preferred_roles: set![role],
            forbidden_agents: Set::empty(),
        }),
{
    let mut required = TextSet::new();
    required.insert(capability.to_string());
    assert(required@ =~= set![capability@]);
    StaffingTask {
        task_id: id.to_string(),
        required_capabilities: required,
        preferred_roles: RoleSet::single(role),
        forbidden_agents: TextSet::new(),
    }
}

fn staffing_tasks_of(blueprints: &Vec<AdaptiveNodeBlueprint>) -> (r: Vec<StaffingTask>)
    ensures
        views(r@) == staffing_tasks(views(blueprints@)),
{
    let mut r: Vec<StaffingTask> = Vec::new();
    let mut i: usize = 0;
    while i < blueprints.len()
        invariant
            i <= blueprints.len(),
            r@.len() == i,
            forall|k: int| 0 <= k < i ==> (#[trigger] r@[k])@ == staffing_task(blueprints@[k]@),
        decreases blueprints.len() - i,
    {
        let node = &blueprints[i];
        r.push(
            staffing_task_for(
                node.id.as_str(),
                node.required_capability.as_str(),
                node.preferred_role,
            ),
        );
        i = i + 1;
    }
    assert(views(r@) =~= staffing_tasks(views(blueprints@)));
    r
}

fn plan_nodes_of(
    blueprints: &Vec<AdaptiveNodeBlueprint>,
    assignments: &Vec<StaffingAssignment>,
) -> (r: Vec<WorkflowNodeDefinition>)
    requires
        blueprints.len() == assignments.len(),
    ensures
        views(r@) == plan_nodes(views(blueprints@), views(assignments@)),
{
    let mut r: Vec<WorkflowNodeDefinition> = Vec::new();
    let mut i: usize = 0;
    while i < blueprints.len()
        invariant
            i <= blueprints.len(),
            blueprints.len() == assignments.len(),
            r@.len() == i,
            forall|k: int|
                0 <= k < i ==> (#[trigger] r@[k])@ == plan_node(
                    blueprints@[k]@,
                    assignments@[k]@.agent_id,
                ),
        decreases blueprints.len() - i,
    {
        let node = &blueprints[i];
        r.push(
            WorkflowNodeDefinition {
                id: node.id.clone(),
                title: node.title.clone(),
                kind: node.kind,
                depends_on: duplicate_all(&node.depends_on),
                agent_definition_id: assignments[i].agent_id.clone(),
                requires_approval: None,
            },
        );
        i = i + 1;
    }
    assert(views(r@) =~= plan_nodes(views(blueprints@), views(assignments@)));
    r
}

/// What the plan of an adaptive team comes to.
pub open spec fn is_adaptive_plan(
    s: AppView,
    prompt: Seq<char>,
    worker_count: int,
    profile: AdaptiveTeamProfile,
    result: Outcome<Seq<NodePlanView>>,
) -> bool {
    if !(1 <= worker_count <= 4) {
        result == failure::<Seq<NodePlanView>>(
            "adaptive-workflow-worker-count-invalid"@,
            "Adaptive workflow 当前支持 1..=4 个 Coder worker"@,
        )
    } else if !s.model_ready {
        result == failure::<Seq<NodePlanView>>(
            "model-runtime-missing"@,
            "Adaptive workflow 需要 Model Runtime"@,
        )
    } else if s.agent_catalog is None {
        result == failure::<Seq<NodePlanView>>(
            "agent-catalog-missing"@,
            "Agent Catalog 尚未注入"@,
        )
    } else {
        let blueprints = adaptive_blueprints(prompt, worker_count, profile);
        exists|staffing: Outcome<Seq<AssignmentView>>|
            #![trigger is_staffing(s.agent_catalog->Some_0, staffing_tasks(blueprints), staffing)]
            is_staffing(s.agent_catalog->Some_0, staffing_tasks(blueprints), staffing) && result
                == match staffing {
                Outcome::Done(out) => Outcome::Done(plan_nodes(blueprints, out)),
                Outcome::Failed(e) => Outcome::Failed(e),
            }
    }
}

pub open spec fn role_node(
    id: Seq<char>,
    title: Seq<char>,
    kind: NodeKind,
    depends_on: Seq<Seq<char>>,
    agent: Seq<char>,
) -> NodePlanView {
    NodePlanView {
        id,
        title,
        kind,
        depends_on,
        agent_definition_id: agent,
        requires_approval: None,
    }
}

fn node_for(id: &str, title: String, kind: NodeKind, depends_on: Vec<String>, agent: &str) -> (r:
    WorkflowNodeDefinition)
    ensures
        r@ == role_node(id@, title@, kind, texts(depends_on@), agent@),
{
    WorkflowNodeDefinition {
        id: id.to_string(),
        title,
        kind,
        depends_on,
        agent_definition_id: agent.to_string(),
        requires_approval: None,
    }
}

fn titled(title: &str, prompt: &str) -> (r: String)
    ensures
        r@ == title@ + prompt@,
{
    let mut r: String = title.to_string();
    r.append(prompt);
    r
}

pub open spec fn coding_node(prompt: Seq<char>, index: int) -> NodePlanView {
    role_node(
        coder_task(index),
        "编码分片 "@ + decimal((index + 1) as nat) + "："@ + prompt,
        NodeKind::Task,
        seq!["task:planner"@],
        "agent:coder"@,
    )
}

/// The plan of a small team: it plans, codes, reviews and tests.
pub open spec fn role_plan(prompt: Seq<char>, count: int) -> Seq<NodePlanView> {
    seq![
        role_node(
            "task:planner"@,
            "规划："@ + prompt,
            NodeKind::Task,
            Seq::empty(),
            "agent:planner"@,
        ),
    ] + Seq::new(count as nat, |i: int| coding_node(prompt, i)) + seq![
        role_node(
            "task:review"@,
            "审查所有编码分片："@ + prompt,
            NodeKind::Review,
            coder_tasks(count),
            "agent:review"@,
        ),
        role_node(
            "task:tester"@,
            "验证审查结论："@ + prompt,
            NodeKind::Task,
            seq!["task:review"@],
            "agent:tester"@,
        ),
    ]
}

pub open spec fn role_plan_outcome(s: AppView, prompt: Seq<char>, count: int) -> Outcome<
    Seq<NodePlanView>,
> {
    if !(1 <= count <= 4) {
        failure(
            "agent-workflow-worker-count-invalid"@,
            "Role workflow 当前支持 1..=4 个 Coder worker"@,
        )
    } else if !s.model_ready {
        failure("model-runtime-missing"@, "Role workflow 需要 Model Runtime"@)
    } else {
        Outcome::Done(role_plan(prompt, count))
    }
}

/// The plan of a single review.
pub open spec fn review_plan() -> Seq<NodePlanView> {
    seq![
        role_node(
            "task:review"@,
            "自动 Review Git diff"@,
            NodeKind::Review,
            Seq::empty(),
            "agent:review"@,
        ),
    ]
}

/// The plan of a single task.
pub open spec fn main_plan(prompt: Seq<char>) -> Seq<NodePlanView> {
    seq![role_node("task:main"@, prompt, NodeKind::Task, Seq::empty(), "agent:coder"@)]
}

pub fn main_task_plan(prompt: &str) -> (r: Vec<WorkflowNodeDefinition>)
    ensures
        views(r@) == main_plan(prompt@),
{
    let none: Vec<String> = Vec::new();
    assert(texts(none@) =~= Seq::empty());
    let r: Vec<WorkflowNodeDefinition> = vec![
        node_for("task:main", prompt.to_string(), NodeKind::Task, none, "agent:coder"),
    ];
    assert(views(r@) =~= main_plan(prompt@));
    r
}

pub open spec fn research_task(index: int) -> Seq<char> {
    "task:research:"@ + two_digits(index as nat)
}

pub open spec fn research_tasks(count: int) -> Seq<StaffingTaskView> {
    Seq::new(
        count as nat,
        |i: int|
            StaffingTaskView {
                task_id: research_task(i),
                required_capabilities: set!["research"@],
                preferred_roles: set![AgentRole::Researcher],
                forbidden_agents: Set::empty(),
            },
    )
}

/// The plan of a team that researches in parallel.
pub open spec fn research_nodes(prompt: Seq<char>, assignments: Seq<AssignmentView>) -> Seq<
    NodePlanView,
> {
    Seq::new(
        assignments.len(),
        |i: int|
            role_node(
                assignments[i].task_id,
                "并行研究分片 "@ + decimal((i + 1) as nat) + "："@ + prompt,
                NodeKind::Task,
                Seq::empty(),
                assignments[i].agent_id,
            ),
    )
}

pub open spec fn team_size_outcome(s: AppView, count: int) -> Outcome<()> {
    if !(2 <= count <= 8) {
        failure("agent-team-size-invalid"@, "并行 Team 当前支持 2..=8 个 Agent"@)
    } else if !s.model_ready {
        failure("model-runtime-missing"@, "并行 Team 需要 Model Runtime"@)
    } else {
        Outcome::Done(())
    }
}

pub open spec fn is_research_staffing(
    s: AppView,
    count: int,
    result: Outcome<Seq<AssignmentView>>,
) -> bool {
    match s.agent_catalog {
        None => result == failure::<Seq<AssignmentView>>(
            "agent-catalog-missing"@,
            "Agent Catalog 尚未注入"@,
        ),
        Some(c) => is_staffing(c, research_tasks(count), result),
    }
}

/// The nodes of a plan for research, for the agents that were found.
pub fn research_plan(prompt: &str, assignments: &Vec<StaffingAssignment>) -> (r: Vec<
    WorkflowNodeDefinition,
>)
    ensures
        views(r@) == research_nodes(prompt@, views(assignments@)),
{
    let mut r: Vec<WorkflowNodeDefinition> = Vec::new();
    let mut i: usize = 0;
    while i < assignments.len()
        invariant
            i <= assignments.len(),
            r@.len() == i,
            forall|k: int|
                0 <= k < i ==> (#[trigger] r@[k])@ == research_nodes(
                    prompt@,
                    views(assignments@),
                )[k],
        decreases assignments.len() - i,
    {
        let mut title: String = "并行研究分片 ".to_string();
        title.append(decimal_of((i as u64) + 1).as_str());
        title.append("：");
        title.append(prompt);
        let none: Vec<String> = Vec::new();
        assert(texts(none@) =~= Seq::empty());
        let node = node_for(
            assignments[i].task_id.as_str(),
            title,
            NodeKind::Task,
            none,
            assignments[i].agent_id.as_str(),
        );
        assert(views(assignments@)[i as int] == assignments@[i as int]@);
        r.push(node);
        i = i + 1;
    }
    assert(views(r@) =~= research_nodes(prompt@, views(assignments@)));
    r
}

impl HarnessApplication {
    /// The plan of an adaptive team: requirements and exploration, architecture, planning, code,
    /// reviews, tests and, if asked for, a release. An agent is found for each node.
    pub fn prepare_adaptive_agent_team(&self, prompt: &str, worker_count: usize) -> (r: Result<
        Vec<WorkflowNodeDefinition>,
        ApplicationError,
    >)
        ensures
            is_adaptive_plan(
                self@,
                prompt@,
                worker_count as int,
                profile_in(lowercase(prompt@)),
                list_outcome(r),
            ),
    {
        self.plan_adaptive_team(prompt, worker_count, AdaptiveTeamProfile::classify(prompt))
    }

    /// The plan of an adaptive team with the given specialists.
    pub fn plan_adaptive_team(
        &self,
        prompt: &str,
        worker_count: usize,
        profile: AdaptiveTeamProfile,
    ) -> (r: Result<Vec<WorkflowNodeDefinition>, ApplicationError>)
        ensures
            is_adaptive_plan(self@, prompt@, worker_count as int, profile, list_outcome(r)),
    {
        if !(1 <= worker_count && worker_count <= 4) {
            return Err(
                ApplicationError::new(
                    "adaptive-workflow-worker-count-invalid",
                    "Adaptive workflow 当前支持 1..=4 个 Coder worker",
                ),
            );
        }
        if !self.model_ready {
            return Err(
                ApplicationError::new(
                    "model-runtime-missing",
                    "Adaptive workflow 需要 Model Runtime",
                ),
            );
        }
        let catalog = match &self.agent_catalog {
            Some(catalog) => catalog,
            None => {
                return Err(
                    ApplicationError::new("agent-catalog-missing", "Agent Catalog 尚未注入"),
                );
            },
        };
        let blueprints = draw_adaptive(prompt, worker_count, profile);
        let tasks = staffing_tasks_of(&blueprints);
        assert(views(blueprints@).len() == blueprints@.len());
        assert(views(tasks@).len() == tasks@.len());
        match StaffingRouter::assign(tasks.as_slice(), catalog) {
            Ok(assignments) => {
                assert(views(assignments@).len() == assignments@.len());
                let ghost staffing = Outcome::<Seq<AssignmentView>>::Done(views(assignments@));
                assert(is_staffing(self@.agent_catalog->Some_0, staffing_tasks(views(blueprints@)), staffing));
                Ok(plan_nodes_of(&blueprints, &assignments))
            },
            Err(error) => {
                let ghost staffing = Outcome::<Seq<AssignmentView>>::Failed(error@);
                assert(is_staffing(self@.agent_catalog->Some_0, staffing_tasks(views(blueprints@)), staffing));
                Err(agent_error(error))
            },
        }
    }

    /// The plan of a small team: it plans, codes, reviews and tests.
    pub fn prepare_role_evidence_team(&self, prompt: &str, worker_count: usize) -> (r: Result<
        Vec<WorkflowNodeDefinition>,
        ApplicationError,
    >)
        ensures
            list_outcome(r) == role_plan_outcome(self@, prompt@, worker_count as int),
    {
        broadcast use group_views;

        if !(1 <= worker_count && worker_count <= 4) {
            return Err(
                ApplicationError::new(
                    "agent-workflow-worker-count-invalid",
                    "Role workflow 当前支持 1..=4 个 Coder worker",
                ),
            );
        }
        if !self.model_ready {
            return Err(
                ApplicationError::new("model-runtime-missing", "Role workflow 需要 Model Runtime"),
            );
        }
        let none: Vec<String> = Vec::new();
        assert(texts(none@) =~= Seq::empty());
        let mut nodes: Vec<WorkflowNodeDefinition> = vec![
            node_for(
                "task:planner",
                titled("规划：", prompt),
                NodeKind::Task,
                none,
                "agent:planner",
            ),
        ];
        let ghost first = views(nodes@);
        let mut coders: Vec<WorkflowNodeDefinition> = Vec::new();
        let mut i: usize = 0;
        while i < worker_count
            invariant
                i <= worker_count <= 4,
                coders@.len() == i,
                forall|k: int| 0 <= k < i ==> (#[trigger] coders@[k])@ == coding_node(prompt@, k),
            decreases worker_count - i,
        {
            let mut title: String = "编码分片 ".to_string();
            title.append(decimal_of((i + 1) as u64).as_str());
            title.append("：");
            title.append(prompt);
            let id = coder_task_id(i);
            coders.push(
                node_for(
                    id.as_str(),
                    title,
                    NodeKind::Task,
                    one_text("task:planner"),
                    "agent:coder",
                ),
            );
            i = i + 1;
        }
        let ghost middle = views(coders@);
        assert(middle =~= Seq::new(worker_count as nat, |i: int| coding_node(prompt@, i)));
        let mut last: Vec<WorkflowNodeDefinition> = vec![
            node_for(
                "task:review",
                titled("审查所有编码分片：", prompt),
                NodeKind::Review,
                coder_task_ids(worker_count),
                "agent:review",
            ),
            node_for(
                "task:tester",
                titled("验证审查结论：", prompt),
                NodeKind::Task,
                one_text("task:review"),
                "agent:tester",
            ),
        ];
        let ghost end = views(last@);
        nodes.append(&mut coders);
        nodes.append(&mut last);
        assert(views(nodes@) =~= role_plan(prompt@, worker_count as int));
        Ok(nodes)
    }

    /// The plan of a review; there has to be something to review.
    pub fn prepare_review_agent(&self, review_input: &str) -> (r: Result<
        Vec<WorkflowNodeDefinition>,
        ApplicationError,
    >)
        ensures
            list_outcome(r) == (if is_blank_text(review_input@) {
                failure("review-input-empty"@, "Diff 为空"@)
            } else {
                Outcome::Done(review_plan())
            }),
    {
        if is_blank(review_input) {
            return Err(ApplicationError::new("review-input-empty", "Diff 为空"));
        }
        let none: Vec<String> = Vec::new();
        assert(texts(none@) =~= Seq::empty());
        let nodes: Vec<WorkflowNodeDefinition> = vec![
            node_for(
                "task:review",
                "自动 Review Git diff".to_string(),
                NodeKind::Review,
                none,
                "agent:review",
            ),
        ];
        assert(views(nodes@) =~= review_plan());
        Ok(nodes)
    }

    /// Checks the size of a team for research, and that there is a model to call.
    pub fn check_team_size(&self, agent_count: usize) -> (r: Result<(), ApplicationError>)
        ensures
            unit_outcome(r) == team_size_outcome(self@, agent_count as int),
    {
        if !(2 <= agent_count && agent_count <= 8) {
            return Err(
                ApplicationError::new(
                    "agent-team-size-invalid",
                    "并行 Team 当前支持 2..=8 个 Agent",
                ),
            );
        }
        if !self.model_ready {
            return Err(
                ApplicationError::new("model-runtime-missing", "并行 Team 需要 Model Runtime"),
            );
        }
        Ok(())
    }

    /// Finds the agents of a team for research.
    pub fn staff_research(&self, agent_count: usize) -> (r: Result<
        Vec<StaffingAssignment>,
        ApplicationError,
    >)
        requires
            agent_count <= 8,
        ensures
            is_research_staffing(self@, agent_count as int, list_outcome(r)),
    {
        let catalog = match &self.agent_catalog {
            Some(catalog) => catalog,
            None => {
                return Err(
                    ApplicationError::new("agent-catalog-missing", "Agent Catalog 尚未注入"),
                );
            },
        };
        let mut tasks: Vec<StaffingTask> = Vec::new();
        let mut i: usize = 0;
        while i < agent_count
            invariant
                i <= agent_count <= 8,
                tasks@.len() == i,
                forall|k: int|
                    0 <= k < i ==> (#[trigger] tasks@[k])@ == research_tasks(agent_count as int)[k],
            decreases agent_count - i,
        {
            let mut id: String = "task:research:".to_string();
            id.append(two_digits_of(i).as_str());
            tasks.push(staffing_task_for(id.as_str(), "research", AgentRole::Researcher));
            i = i + 1;
        }
        assert(views(tasks@) =~= research_tasks(agent_count as int));
        match StaffingRouter::assign(tasks.as_slice(), catalog) {
            Ok(assignments) => Ok(assignments),
            Err(error) => Err(agent_error(error)),
        }
    }
}

/// The nodes of a mission that are done, at work, waiting and held up.
#[derive(Debug, PartialEq, Eq)]
pub struct PlanView {
    pub mission_id: Option<String>,
    pub status: Option<MissionStatus>,
    pub accepted: usize,
    pub running: usize,
    pub pending: usize,
    pub blocked: usize,
}

pub struct PlanModel {
    pub mission_id: Option<Seq<char>>,
    pub status: Option<MissionStatus>,
    pub accepted: int,
    pub running: int,
    pub pending: int,
    pub blocked: int,
}

impl View for PlanView {
    type V = PlanModel;

    open spec fn view(&self) -> PlanModel {
        PlanModel {
            mission_id: option_view(self.mission_id),
            status: self.status,
            accepted: self.accepted as int,
            running: self.running as int,
            pending: self.pending as int,
            blocked: self.blocked as int,
        }
    }
}

pub open spec fn no_plan() -> PlanModel {
    PlanModel {
        mission_id: None,
        status: None,
        accepted: 0,
        running: 0,
        pending: 0,
        blocked: 0,
    }
}

pub open spec fn one_if(b: bool) -> int {
    if b {
        1
    } else {
        0
    }
}

/// The first nodes of a mission, in the order of their ids, counted by their status.
pub open spec fn counted(m: MissionView, n: int) -> PlanModel
    decreases n,
{
    if n <= 0 {
        PlanModel {
            mission_id: Some(m.mission_id),
            status: Some(m.status),
            accepted: 0,
            running: 0,
            pending: 0,
            blocked: 0,
        }
    } else {
        let before = counted(m, n - 1);
        let status = m.nodes[in_order(m.nodes.dom())[n - 1]].status;
        PlanModel {
            accepted: before.accepted + one_if(status is Accepted),
            running: before.running + one_if(status is Running || status is Submitted),
            pending: before.pending + one_if(status is Queued),
            blocked: before.blocked + one_if(
                status is WaitingApproval || status is Failed || status is Cancelled,
            ),
            ..before
        }
    }
}

pub open spec fn plan_of(m: MissionView) -> PlanModel {
    counted(m, in_order(m.nodes.dom()).len() as int)
}

/// Every node counts once.
pub proof fn law_every_node_is_counted(m: MissionView, n: int)
    requires
        0 <= n <= in_order(m.nodes.dom()).len(),
    ensures
        ({
            let p = counted(m, n);
            p.accepted + p.running + p.pending + p.blocked == n && p.accepted >= 0 && p.running >= 0
                && p.pending >= 0 && p.blocked >= 0
        }),
    decreases n,
{
    if n > 0 {
        law_every_node_is_counted(m, n - 1);
    }
}

pub fn plan_view(state: &MissionState) -> (r: PlanView)
    ensures
        r@ == plan_of(state@),
{
    let total: usize = state.nodes.len();
    let mut r = PlanView {
        mission_id: Some(state.mission_id.clone()),
        status: Some(state.status),
        accepted: 0,
        running: 0,
        pending: 0,
        blocked: 0,
    };
    let mut i: usize = 0;
    while i < total
        invariant
            i <= total,
            total == in_order(state@.nodes.dom()).len(),
            r@ == counted(state@, i as int),
        decreases total - i,
    {
        proof {
            law_every_node_is_counted(state@, i as int);
        }
        match state.nodes.value_at(i).status {
            NodeStatus::Accepted => {
                r.accepted = r.accepted + 1;
            },
            NodeStatus::Running | NodeStatus::Submitted => {
                r.running = r.running + 1;
            },
            NodeStatus::Queued => {
                r.pending = r.pending + 1;
            },
            NodeStatus::WaitingApproval | NodeStatus::Failed | NodeStatus::Cancelled => {
                r.blocked = r.blocked + 1;
            },
        }
        i = i + 1;
    }
    r
}

/// Whether every node was accepted.
pub open spec fn all_accepted(m: MissionView) -> bool {
    forall|id: Seq<char>| #[trigger]
        m.nodes.contains_key(id) ==> m.nodes[id].status is Accepted
}

/// Whether some node waits for an approval.
pub open spec fn some_waiting(m: MissionView) -> bool {
    exists|id: Seq<char>| #[trigger]
        m.nodes.contains_key(id) && m.nodes[id].status is WaitingApproval
}

/// Whether nothing is left to do in a mission that is running.
pub fn is_ready_to_complete(state: &MissionState) -> (r: bool)
    ensures
        r == (state@.status is Running && all_accepted(state@)),
{
    if state.status != MissionStatus::Running {
        return false;
    }
    let keys = state.nodes.keys();
    let ghost ids = in_order(state@.nodes.dom());
    let mut i: usize = 0;
    while i < keys.len()
        invariant
            i <= keys.len(),
            ids == texts(keys@),
            ids == in_order(state@.nodes.dom()),
            enumerates(ids, state@.nodes.dom()),
            forall|k: int| 0 <= k < i ==> state@.nodes[#[trigger] ids[k]].status is Accepted,
        decreases keys.len() - i,
    {
        if state.nodes.value_at(i).status != NodeStatus::Accepted {
            assert(ids.contains(ids[i as int]));
            assert(state@.nodes.dom().contains(ids[i as int]));
            assert(state@.nodes.contains_key(ids[i as int]));
            return false;
        }
        i = i + 1;
    }
    proof {
        assert forall|id: Seq<char>| #[trigger] state@.nodes.contains_key(id) implies state@.nodes[id].status is Accepted by {
            assert(state@.nodes.dom().contains(id));
            assert(ids.contains(id));
            let k = ids.index_of(id);
            assert(ids[k] == id);
        }
    }
    true
}

/// Whether some node of a mission waits for an approval.
pub fn waits_for_approval(state: &MissionState) -> (r: bool)
    ensures
        r == some_waiting(state@),
{
    let keys = state.nodes.keys();
    let ghost ids = in_order(state@.nodes.dom());
    let mut i: usize = 0;
    while i < keys.len()
        invariant
            i <= keys.len(),
            ids == texts(keys@),
            ids == in_order(state@.nodes.dom()),
            enumerates(ids, state@.nodes.dom()),
            forall|k: int|
                0 <= k < i ==> !(state@.nodes[#[trigger] ids[k]].status is WaitingApproval),
        decreases keys.len() - i,
    {
        if state.nodes.value_at(i).status == NodeStatus::WaitingApproval {
            assert(ids.contains(ids[i as int]));
            assert(state@.nodes.dom().contains(ids[i as int]));
            assert(state@.nodes.contains_key(ids[i as int]));
            return true;
        }
        i = i + 1;
    }
    proof {
        assert forall|id: Seq<char>| #[trigger] state@.nodes.contains_key(id) implies !(
        state@.nodes[id].status is WaitingApproval) by {
            assert(state@.nodes.dom().contains(id));
            assert(ids.contains(id));
            let k = ids.index_of(id);
            assert(ids[k] == id);
        }
    }
    false
}

} // verus!
