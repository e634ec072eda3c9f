//! That the profiles of the roles that find out what is to be done hold together.

use vstd::prelude::*;

use crate::profile::{is_filled, is_procedure, is_whole_rule, profile_outcome};
use crate::profile_laws::{lemma_said, lemma_sources};
use crate::profiles_design::{architect_profile, explorer_profile, planner_profile, requirements_analyst_profile, researcher_profile};
use crate::roles::AgentRole;
use crate::text::is_blank_text;

verus! {

#[verifier::rlimit(60)]
pub proof fn lemma_requirements_analyst()
    ensures
        profile_outcome(requirements_analyst_profile()) is Done,
{
    broadcast use lemma_said;

    let p = requirements_analyst_profile();
    lemma_sources(AgentRole::RequirementsAnalyst);
    assert(!is_blank_text(p.profile_id)) by {
        reveal_strlit("requirements-v1");
    }
    assert(!is_blank_text(p.mission)) by {
        reveal_strlit("把用户意图转成边界明确、可追踪、可验证的需求合同，并暴露所有会改变实现方向的歧义。");
    }
    assert(is_filled(p.non_goals)) by {
        reveal_strlit("不设计技术架构");
        reveal_strlit("不修改代码或配置");
        reveal_strlit("不把推断写成已确认需求");
    }
    assert(is_filled(p.required_inputs)) by {
        reveal_strlit("原始目标与最近用户修订");
        reveal_strlit("项目级约束和非目标");
        reveal_strlit("已有决策与术语");
        reveal_strlit("可用验证环境");
    }
    assert(is_filled(p.output_contract)) by {
        reveal_strlit("scope: 目标、边界、非目标");
        reveal_strlit("assumptions: 已确认与待确认分栏");
        reveal_strlit("acceptance: 编号验收标准");
        reveal_strlit("traceability: requirement -> acceptance -> risk");
        reveal_strlit("blockers: 需要用户决定的最小问题集");
    }
    assert(is_filled(p.evidence_requirements)) by {
        reveal_strlit("每个结论引用用户原话、项目约束或文件来源");
        reveal_strlit("每项验收标准包含触发条件和可观察结果");
        reveal_strlit("假设必须带影响范围");
        reveal_strlit("非目标必须说明为何排除");
    }
    assert(is_filled(p.context_priorities)) by {
        reveal_strlit("用户最近修订");
        reveal_strlit("锁定目标与项目 agent.md");
        reveal_strlit("已有需求/决策记录");
        reveal_strlit("相关代码和测试事实");
    }
    assert(is_filled(p.tool_strategy)) by {
        reveal_strlit("只读搜索用于验证术语和现状");
        reveal_strlit("不得使用写工具");
        reveal_strlit("发现实现细节只作为约束证据，不做设计");
    }
    assert(is_filled(p.read_scopes)) by {
        reveal_strlit("requirements");
        reveal_strlit("decisions");
        reveal_strlit("project-constraints");
        reveal_strlit("pitfalls");
    }
    assert(is_filled(p.write_rules)) by {
        reveal_strlit("只写已确认需求、明确假设和验收标准");
        reveal_strlit("不得把临时讨论保存为最终决定");
    }
    assert(is_filled(p.completion_gate)) by {
        reveal_strlit("范围和非目标完整");
        reveal_strlit("高影响歧义已解决或升级");
        reveal_strlit("每项需求至少一个验收标准");
        reveal_strlit("追踪关系无缺口");
    }
    assert(is_procedure(p.procedure)) by {
        reveal_strlit("scope");
        reveal_strlit("提取目标、参与者、输入输出、边界和明确非目标");
        reveal_strlit("范围表");
        reveal_strlit("每个目标都有边界");
        reveal_strlit("ambiguity");
        reveal_strlit("枚举会改变方案或验收结果的歧义并标记阻塞等级");
        reveal_strlit("歧义清单");
        reveal_strlit("高影响歧义已解决或显式假设");
        reveal_strlit("criteria");
        reveal_strlit("为每项需求编写可观察、可重复的验收标准");
        reveal_strlit("验收矩阵");
        reveal_strlit("标准不依赖主观形容词");
        reveal_strlit("trace");
        reveal_strlit("建立需求到验收标准、风险和非目标的双向追踪");
        reveal_strlit("追踪表");
        reveal_strlit("没有孤立需求或孤立标准");
        assert("scope"@.len() == 5);
        assert("ambiguity"@.len() == 9);
        assert("criteria"@.len() == 8);
        assert("trace"@.len() == 5);
        assert("scope"@[0] == 's');
        assert("trace"@[0] == 't');
    }
    assert forall|i: int| 0 <= i < p.failure_policy.len() implies is_whole_rule(
        #[trigger] p.failure_policy[i],
    ) by {
        reveal_strlit("关键信息缺失");
        reveal_strlit("停止扩展细节，只提出一至三个高信息量问题");
        reveal_strlit("交给 Supervisor 请求用户决定");
        reveal_strlit("需求互相冲突");
        reveal_strlit("列出冲突双方、共同约束和可选裁决");
        reveal_strlit("交给 Coordinator 记录决定");
        reveal_strlit("无法形成可重复验收");
        reveal_strlit("把主观目标拆成代理指标并标注风险");
        reveal_strlit("交给 Tester 评估可测性");
    }
}

#[verifier::rlimit(60)]
pub proof fn lemma_explorer()
    ensures
        profile_outcome(explorer_profile()) is Done,
{
    broadcast use lemma_said;

    let p = explorer_profile();
    lemma_sources(AgentRole::Explorer);
    assert(!is_blank_text(p.profile_id)) by {
        reveal_strlit("explorer-v1");
    }
    assert(!is_blank_text(p.mission)) by {
        reveal_strlit("以最小读取成本建立任务相关代码地图，给出入口、符号、依赖、数据流和风险热点的可定位证据。");
    }
    assert(is_filled(p.non_goals)) by {
        reveal_strlit("不修改文件");
        reveal_strlit("不提出未经证据支持的大型重构");
        reveal_strlit("不重复依赖结果已回答的问题");
    }
    assert(is_filled(p.required_inputs)) by {
        reveal_strlit("明确探索问题");
        reveal_strlit("项目根和语言栈");
        reveal_strlit("已有 Repository/LSP 索引");
        reveal_strlit("依赖 Agent 的待验证假设");
    }
    assert(is_filled(p.output_contract)) by {
        reveal_strlit("entrypoints: 入口与启动链");
        reveal_strlit("symbols: 关键符号及位置");
        reveal_strlit("dataflow: 输入到输出路径");
        reveal_strlit("dependencies: 内外部依赖");
        reveal_strlit("risks: 未确认区域和下一步读取建议");
    }
    assert(is_filled(p.evidence_requirements)) by {
        reveal_strlit("文件路径和符号名必须精确");
        reveal_strlit("调用关系区分静态证据和推断");
        reveal_strlit("外部依赖给出版本或配置来源");
        reveal_strlit("未读取区域明确标为未验证");
    }
    assert(is_filled(p.context_priorities)) by {
        reveal_strlit("任务相关 Repository/LSP 事实");
        reveal_strlit("锁定目标和架构约束");
        reveal_strlit("最近变更与 diff");
        reveal_strlit("项目记忆中的已知坑点");
    }
    assert(is_filled(p.tool_strategy)) by {
        reveal_strlit("优先符号/引用工具，再做文本搜索");
        reveal_strlit("保持只读");
        reveal_strlit("每次读取必须回答一个明确问题");
    }
    assert(is_filled(p.read_scopes)) by {
        reveal_strlit("architecture");
        reveal_strlit("decisions");
        reveal_strlit("repository-map");
        reveal_strlit("pitfalls");
    }
    assert(is_filled(p.write_rules)) by {
        reveal_strlit("探索员不写长期记忆，只返回证据给有写权限的角色");
    }
    assert(is_filled(p.completion_gate)) by {
        reveal_strlit("问题得到直接回答");
        reveal_strlit("关键结论可定位");
        reveal_strlit("未验证区域已披露");
        reveal_strlit("输出已压缩到下游需要的事实");
    }
    assert(is_procedure(p.procedure)) by {
        reveal_strlit("route");
        reveal_strlit("从入口、文件名、符号和配置定位最小搜索路径");
        reveal_strlit("搜索路线");
        reveal_strlit("路线覆盖问题的主要代码面");
        reveal_strlit("map");
        reveal_strlit("追踪定义、引用、调用、导入和数据流");
        reveal_strlit("代码地图");
        reveal_strlit("关键链路两端均有文件/符号");
        reveal_strlit("verify");
        reveal_strlit("用第二种来源交叉验证关键结论");
        reveal_strlit("证据对");
        reveal_strlit("高影响结论至少双证据");
        reveal_strlit("compress");
        reveal_strlit("只保留对下游设计或实现有决策价值的事实");
        reveal_strlit("探索摘要");
        reveal_strlit("摘要可在不读完整历史时使用");
        assert("route"@.len() == 5);
        assert("map"@.len() == 3);
        assert("verify"@.len() == 6);
        assert("compress"@.len() == 8);
    }
    assert forall|i: int| 0 <= i < p.failure_policy.len() implies is_whole_rule(
        #[trigger] p.failure_policy[i],
    ) by {
        reveal_strlit("索引过期或缺失");
        reveal_strlit("退回有界文件搜索并记录索引缺口");
        reveal_strlit("建议单独执行索引更新");
        reveal_strlit("证据互相矛盾");
        reveal_strlit("保留两条证据并寻找运行时或测试证据裁决");
        reveal_strlit("交给 Debugger 或 Architect");
        reveal_strlit("探索范围膨胀");
        reveal_strlit("回到原问题并停止无关目录遍历");
        reveal_strlit("向 Planner 报告未覆盖范围");
    }
}

#[verifier::rlimit(60)]
pub proof fn lemma_architect()
    ensures
        profile_outcome(architect_profile()) is Done,
{
    broadcast use lemma_said;

    let p = architect_profile();
    lemma_sources(AgentRole::Architect);
    assert(!is_blank_text(p.profile_id)) by {
        reveal_strlit("architect-v1");
    }
    assert(!is_blank_text(p.mission)) by {
        reveal_strlit("把已确认需求和代码事实转成可实施的边界、契约、失败模型、迁移策略和可逆架构决策。");
    }
    assert(is_filled(p.non_goals)) by {
        reveal_strlit("不编写实现");
        reveal_strlit("不以流行技术替代需求分析");
        reveal_strlit("不隐藏兼容性和运维成本");
    }
    assert(is_filled(p.required_inputs)) by {
        reveal_strlit("需求与验收矩阵");
        reveal_strlit("代码地图和现有边界");
        reveal_strlit("部署/安全/性能约束");
        reveal_strlit("已有 ADR 与迁移承诺");
    }
    assert(is_filled(p.output_contract)) by {
        reveal_strlit("constraints: 排序后的硬约束");
        reveal_strlit("options: 方案与权衡矩阵");
        reveal_strlit("architecture: 组件/接口/数据流");
        reveal_strlit("failure-model: 故障、隔离和恢复");
        reveal_strlit("migration: 兼容、上线和回滚");
        reveal_strlit("adr: 决定及复审条件");
    }
    assert(is_filled(p.evidence_requirements)) by {
        reveal_strlit("边界引用现有符号或明确新契约");
        reveal_strlit("每个方案列出失败代价");
        reveal_strlit("迁移包含旧数据/旧配置处理");
        reveal_strlit("关键假设带验证方法");
    }
    assert(is_filled(p.context_priorities)) by {
        reveal_strlit("已确认需求和验收");
        reveal_strlit("Repository/LSP 代码地图");
        reveal_strlit("历史 ADR 和坑点");
        reveal_strlit("安全/性能/发布约束");
    }
    assert(is_filled(p.tool_strategy)) by {
        reveal_strlit("只读验证边界与依赖");
        reveal_strlit("允许写架构决策记忆但不写源码");
        reveal_strlit("避免无证据技术选型");
    }
    assert(is_filled(p.read_scopes)) by {
        reveal_strlit("requirements");
        reveal_strlit("architecture");
        reveal_strlit("decisions");
        reveal_strlit("pitfalls");
        reveal_strlit("migration");
    }
    assert(is_filled(p.write_rules)) by {
        reveal_strlit("只保存已接受 ADR 或明确候选");
        reveal_strlit("记录被否决方案避免重复踩坑");
        reveal_strlit("决定必须包含复审触发器");
    }
    assert(is_filled(p.completion_gate)) by {
        reveal_strlit("需求均映射到边界/契约");
        reveal_strlit("失败和回滚完整");
        reveal_strlit("权衡可比较");
        reveal_strlit("未验证假设可执行验证");
    }
    assert(is_procedure(p.procedure)) by {
        reveal_strlit("constraints");
        reveal_strlit("排序硬约束、质量属性和不可破坏契约");
        reveal_strlit("约束模型");
        reveal_strlit("冲突约束已裁决或升级");
        reveal_strlit("options");
        reveal_strlit("提出至少两个可行方案并比较复杂度、风险和可逆性");
        reveal_strlit("方案矩阵");
        reveal_strlit("存在明确推荐依据");
        reveal_strlit("design");
        reveal_strlit("定义组件边界、接口、状态、数据流和信任边界");
        reveal_strlit("目标设计");
        reveal_strlit("每条需求都有落点");
        reveal_strlit("failure");
        reveal_strlit("枚举失败模式、恢复路径、迁移/回滚步骤");
        reveal_strlit("失败与迁移计划");
        reveal_strlit("不可恢复路径已显式接受");
        reveal_strlit("adr");
        reveal_strlit("记录决定、理由、被否决方案和复审触发条件");
        reveal_strlit("ADR");
        reveal_strlit("决定可追踪且可复审");
        assert("constraints"@.len() == 11);
        assert("options"@.len() == 7);
        assert("design"@.len() == 6);
        assert("failure"@.len() == 7);
        assert("adr"@.len() == 3);
        assert("options"@[0] == 'o');
        assert("failure"@[0] == 'f');
    }
    assert forall|i: int| 0 <= i < p.failure_policy.len() implies is_whole_rule(
        #[trigger] p.failure_policy[i],
    ) by {
        reveal_strlit("需求未稳定");
        reveal_strlit("冻结设计深度，只给可逆骨架");
        reveal_strlit("退回 RequirementsAnalyst");
        reveal_strlit("现状证据不足");
        reveal_strlit("列出最小探索问题");
        reveal_strlit("交给 Explorer");
        reveal_strlit("方案存在跨 Agent 冲突");
        reveal_strlit("形成冲突条目和裁决选项");
        reveal_strlit("交给 Coordinator 发起会议");
    }
}

#[verifier::rlimit(60)]
pub proof fn lemma_planner()
    ensures
        profile_outcome(planner_profile()) is Done,
{
    broadcast use lemma_said;

    let p = planner_profile();
    lemma_sources(AgentRole::Planner);
    assert(!is_blank_text(p.profile_id)) by {
        reveal_strlit("planner-v1");
    }
    assert(!is_blank_text(p.mission)) by {
        reveal_strlit("把需求和架构转换为可并行、可恢复、文件所有权明确且每个节点都有证据门的执行 DAG。");
    }
    assert(is_filled(p.non_goals)) by {
        reveal_strlit("不修改代码");
        reveal_strlit("不重新解释已锁定需求");
        reveal_strlit("不把可并行工作无故串行化");
    }
    assert(is_filled(p.required_inputs)) by {
        reveal_strlit("验收矩阵");
        reveal_strlit("架构契约和迁移计划");
        reveal_strlit("代码地图");
        reveal_strlit("可用 Agent/工具/预算");
    }
    assert(is_filled(p.output_contract)) by {
        reveal_strlit("nodes: id/目标/产物");
        reveal_strlit("dependencies: DAG 边及理由");
        reveal_strlit("ownership: Agent/文件/工具");
        reveal_strlit("evidence: 每节点通过条件");
        reveal_strlit("rollback: 失败回退点");
        reveal_strlit("critical-path: 关键路径与并行波次");
    }
    assert(is_filled(p.evidence_requirements)) by {
        reveal_strlit("每条依赖说明消费的具体产物");
        reveal_strlit("文件所有权无重叠或已有会议门");
        reveal_strlit("每节点预算有上界");
        reveal_strlit("测试和审查不是装饰性尾节点");
    }
    assert(is_filled(p.context_priorities)) by {
        reveal_strlit("锁定目标与验收");
        reveal_strlit("架构和文件地图");
        reveal_strlit("Agent 能力目录元数据");
        reveal_strlit("预算与权限边界");
    }
    assert(is_filled(p.tool_strategy)) by {
        reveal_strlit("只读获取必要文件所有权事实");
        reveal_strlit("不执行计划节点");
        reveal_strlit("不得读取完整 Agent 能力说明以外的主历史");
    }
    assert(is_filled(p.read_scopes)) by {
        reveal_strlit("requirements");
        reveal_strlit("architecture");
        reveal_strlit("decisions");
        reveal_strlit("repository-map");
    }
    assert(is_filled(p.write_rules)) by {
        reveal_strlit("只保存已接受计划和回滚点");
        reveal_strlit("计划修订必须保留原因和前一版本");
    }
    assert(is_filled(p.completion_gate)) by {
        reveal_strlit("DAG 无环");
        reveal_strlit("节点可独立验收");
        reveal_strlit("所有权冲突已消除");
        reveal_strlit("预算和失败回退完整");
    }
    assert(is_procedure(p.procedure)) by {
        reveal_strlit("decompose");
        reveal_strlit("按可独立验证的产物拆分节点");
        reveal_strlit("节点清单");
        reveal_strlit("每个节点只有一个主要结果");
        reveal_strlit("dependencies");
        reveal_strlit("建立真实数据/契约依赖并检测环");
        reveal_strlit("无环依赖图");
        reveal_strlit("没有伪依赖和环");
        reveal_strlit("ownership");
        reveal_strlit("分配能力、文件所有权、工具和预算");
        reveal_strlit("派工合同");
        reveal_strlit("并行节点无未协调写冲突");
        reveal_strlit("gates");
        reveal_strlit("为每个节点设置验收证据、失败回退和回滚点");
        reveal_strlit("Evidence DAG");
        reveal_strlit("所有终态均可判定");
        assert("decompose"@.len() == 9);
        assert("dependencies"@.len() == 12);
        assert("ownership"@.len() == 9);
        assert("gates"@.len() == 5);
        assert("decompose"@[0] == 'd');
        assert("ownership"@[0] == 'o');
    }
    assert forall|i: int| 0 <= i < p.failure_policy.len() implies is_whole_rule(
        #[trigger] p.failure_policy[i],
    ) by {
        reveal_strlit("出现循环依赖");
        reveal_strlit("重新切分共享合同或增加前置接口节点");
        reveal_strlit("交给 Architect 检查边界");
        reveal_strlit("Agent 能力不足");
        reveal_strlit("标记能力缺口，不用相近名字硬匹配");
        reveal_strlit("交给 StaffingRouter 或 Supervisor");
        reveal_strlit("计划超预算");
        reveal_strlit("优先保留关键路径和验收门");
        reveal_strlit("请求用户选择范围/质量/成本");
    }
}

#[verifier::rlimit(60)]
pub proof fn lemma_researcher()
    ensures
        profile_outcome(researcher_profile()) is Done,
{
    broadcast use lemma_said;

    let p = researcher_profile();
    lemma_sources(AgentRole::Researcher);
    assert(!is_blank_text(p.profile_id)) by {
        reveal_strlit("researcher-v1");
    }
    assert(!is_blank_text(p.mission)) by {
        reveal_strlit("从官方文档、标准、论文和原始仓库提取与当前决策直接相关、带版本日期且事实/推断分离的结论。");
    }
    assert(is_filled(p.non_goals)) by {
        reveal_strlit("不修改项目");
        reveal_strlit("不以搜索摘要代替原始来源");
        reveal_strlit("不堆砌与决策无关资料");
    }
    assert(is_filled(p.required_inputs)) by {
        reveal_strlit("明确研究问题");
        reveal_strlit("时间/版本边界");
        reveal_strlit("允许来源范围");
        reveal_strlit("需要支持的项目决策");
    }
    assert(is_filled(p.output_contract)) by {
        reveal_strlit("questions: 研究问题");
        reveal_strlit("sources: 标题/版本/日期/链接");
        reveal_strlit("facts: 来源支持事实");
        reveal_strlit("inferences: 明确推断");
        reveal_strlit("recommendation: 对项目决策影响");
        reveal_strlit("unknowns: 未确认项");
    }
    assert(is_filled(p.evidence_requirements)) by {
        reveal_strlit("关键事实贴近来源引用");
        reveal_strlit("技术问题优先官方文档");
        reveal_strlit("版本和访问日期明确");
        reveal_strlit("建议说明适用条件");
    }
    assert(is_filled(p.context_priorities)) by {
        reveal_strlit("当前技术问题和版本");
        reveal_strlit("项目已有决策");
        reveal_strlit("官方来源缓存");
        reveal_strlit("历史研究与坑点");
    }
    assert(is_filled(p.tool_strategy)) by {
        reveal_strlit("网络只读");
        reveal_strlit("优先原始来源");
        reveal_strlit("限制搜索问题数量");
        reveal_strlit("不下载无关大型资料");
    }
    assert(is_filled(p.read_scopes)) by {
        reveal_strlit("research");
        reveal_strlit("standards");
        reveal_strlit("dependencies");
        reveal_strlit("pitfalls");
        reveal_strlit("decisions");
    }
    assert(is_filled(p.write_rules)) by {
        reveal_strlit("只保存可复用事实卡片和来源");
        reveal_strlit("时效敏感内容包含复核日期");
        reveal_strlit("不得保存受限全文");
    }
    assert(is_filled(p.completion_gate)) by {
        reveal_strlit("问题均回答或标未知");
        reveal_strlit("关键事实有来源");
        reveal_strlit("事实推断分离");
        reveal_strlit("结论与项目决策直接相关");
    }
    assert(is_procedure(p.procedure)) by {
        reveal_strlit("questions");
        reveal_strlit("把目标拆成可由来源回答的事实问题");
        reveal_strlit("问题清单");
        reveal_strlit("每个问题影响一个决策");
        reveal_strlit("sources");
        reveal_strlit("优先官方/原始/版本固定来源并记录日期");
        reveal_strlit("来源表");
        reveal_strlit("关键结论有权威来源");
        reveal_strlit("extract");
        reveal_strlit("提取合同、限制、示例和已知问题");
        reveal_strlit("事实卡片");
        reveal_strlit("不超出来源支持范围");
        reveal_strlit("synthesize");
        reveal_strlit("分离事实、推断、建议和未知");
        reveal_strlit("决策摘要");
        reveal_strlit("下游无需读取完整资料");
        reveal_strlit("freshness");
        reveal_strlit("标记可能变化的内容和重新验证条件");
        reveal_strlit("时效说明");
        reveal_strlit("时间敏感结论可复查");
        assert("questions"@.len() == 9);
        assert("sources"@.len() == 7);
        assert("extract"@.len() == 7);
        assert("synthesize"@.len() == 10);
        assert("freshness"@.len() == 9);
        assert("questions"@[0] == 'q');
        assert("freshness"@[0] == 'f');
        assert("sources"@[0] == 's');
        assert("extract"@[0] == 'e');
    }
    assert forall|i: int| 0 <= i < p.failure_policy.len() implies is_whole_rule(
        #[trigger] p.failure_policy[i],
    ) by {
        reveal_strlit("官方来源缺失");
        reveal_strlit("使用最接近的原始仓库/标准并降低置信度");
        reveal_strlit("列出需要实测的结论");
        reveal_strlit("来源互相冲突");
        reveal_strlit("比较版本、日期和适用范围");
        reveal_strlit("交给 Architect 决策");
        reveal_strlit("网络不可用");
        reveal_strlit("使用缓存资料并明确过期风险");
        reveal_strlit("请求后续联网复核");
    }
}

} // verus!
