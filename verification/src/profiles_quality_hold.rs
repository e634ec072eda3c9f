//! That the profiles of the roles that look for what is wrong hold together.

use vstd::prelude::*;

use crate::profile::{is_filled, is_procedure, is_whole_rule, profile_outcome};
use crate::profile_laws::{lemma_said, lemma_sources};
use crate::profiles_quality::{performance_engineer_profile, reviewer_profile, security_auditor_profile, tester_profile};
use crate::roles::AgentRole;
use crate::text::is_blank_text;

verus! {

#[verifier::rlimit(60)]
pub proof fn lemma_reviewer()
    ensures
        profile_outcome(reviewer_profile()) is Done,
{
    broadcast use lemma_said;

    let p = reviewer_profile();
    lemma_sources(AgentRole::Reviewer);
    assert(!is_blank_text(p.profile_id)) by {
        reveal_strlit("review-v1");
    }
    assert(!is_blank_text(p.mission)) by {
        reveal_strlit("独立寻找会导致错误行为、回归、数据损坏或契约破坏的具体问题，并用可复现证据排序。");
    }
    assert(is_filled(p.non_goals)) by {
        reveal_strlit("不直接修代码");
        reveal_strlit("不报告纯风格偏好");
        reveal_strlit("不把缺少证据的担忧升级为 finding");
    }
    assert(is_filled(p.required_inputs)) by {
        reveal_strlit("需求/架构合同");
        reveal_strlit("实现 diff");
        reveal_strlit("相关测试结果");
        reveal_strlit("依赖 Agent 的变更摘要");
    }
    assert(is_filled(p.output_contract)) by {
        reveal_strlit("conclusion: pass/conditional/block");
        reveal_strlit("findings: severity/location/trigger/impact");
        reveal_strlit("contract-coverage: 验收映射");
        reveal_strlit("test-gaps: 未覆盖风险");
        reveal_strlit("residual-risk: 可接受但需记录事项");
    }
    assert(is_filled(p.evidence_requirements)) by {
        reveal_strlit("finding 必须有精确文件/符号位置");
        reveal_strlit("必须描述触发条件和用户影响");
        reveal_strlit("区分本次引入与既有问题");
        reveal_strlit("没有 finding 时说明检查范围");
    }
    assert(is_filled(p.context_priorities)) by {
        reveal_strlit("需求和架构合同");
        reveal_strlit("变更 diff 与直接调用方");
        reveal_strlit("测试证据");
        reveal_strlit("历史回归和坑点");
    }
    assert(is_filled(p.tool_strategy)) by {
        reveal_strlit("保持只读");
        reveal_strlit("优先 diff/引用/诊断工具");
        reveal_strlit("不运行无关大范围命令");
    }
    assert(is_filled(p.read_scopes)) by {
        reveal_strlit("requirements");
        reveal_strlit("architecture");
        reveal_strlit("decisions");
        reveal_strlit("pitfalls");
        reveal_strlit("regressions");
    }
    assert(is_filled(p.write_rules)) by {
        reveal_strlit("只保存已证实 finding 和残余风险");
        reveal_strlit("每条记录包含修复验收条件");
    }
    assert(is_filled(p.completion_gate)) by {
        reveal_strlit("合同逐项检查");
        reveal_strlit("finding 均可复现/定位");
        reveal_strlit("严重度有依据");
        reveal_strlit("给出明确裁决和测试缺口");
    }
    assert(is_procedure(p.procedure)) by {
        reveal_strlit("contract");
        reveal_strlit("逐项对照验收和接口合同");
        reveal_strlit("合同覆盖表");
        reveal_strlit("每项合同已通过或有 finding");
        reveal_strlit("risk-scan");
        reveal_strlit("检查边界、错误路径、状态迁移、并发和兼容性");
        reveal_strlit("风险候选");
        reveal_strlit("高风险面已覆盖");
        reveal_strlit("reproduce");
        reveal_strlit("为候选 finding 建立最小触发条件或代码路径");
        reveal_strlit("可复现证据");
        reveal_strlit("无证据候选已降级");
        reveal_strlit("rank");
        reveal_strlit("按影响、概率和修复阻塞性排序");
        reveal_strlit("finding 列表");
        reveal_strlit("优先级可解释");
        reveal_strlit("verdict");
        reveal_strlit("给出通过/有条件通过/阻塞结论及剩余风险");
        reveal_strlit("审查裁决");
        reveal_strlit("Tester 可消费");
        assert("contract"@.len() == 8);
        assert("risk-scan"@.len() == 9);
        assert("reproduce"@.len() == 9);
        assert("rank"@.len() == 4);
        assert("verdict"@.len() == 7);
        assert("risk-scan"@[1] == 'i');
        assert("reproduce"@[1] == 'e');
    }
    assert forall|i: int| 0 <= i < p.failure_policy.len() implies is_whole_rule(
        #[trigger] p.failure_policy[i],
    ) by {
        reveal_strlit("diff 或合同缺失");
        reveal_strlit("不猜测实现意图，列出缺少输入");
        reveal_strlit("退回 Coder/Planner");
        reveal_strlit("无法静态裁决");
        reveal_strlit("提出最小运行时测试");
        reveal_strlit("交给 Tester/Debugger");
        reveal_strlit("跨实现方案冲突");
        reveal_strlit("记录冲突合同和双方证据");
        reveal_strlit("交给 Coordinator");
    }
}

#[verifier::rlimit(60)]
pub proof fn lemma_security_auditor()
    ensures
        profile_outcome(security_auditor_profile()) is Done,
{
    broadcast use lemma_said;

    let p = security_auditor_profile();
    lemma_sources(AgentRole::SecurityAuditor);
    assert(!is_blank_text(p.profile_id)) by {
        reveal_strlit("security-v1");
    }
    assert(!is_blank_text(p.mission)) by {
        reveal_strlit("基于真实信任边界识别可利用安全缺陷，给出攻击前提、证据、影响、修复和验证条件。");
    }
    assert(is_filled(p.non_goals)) by {
        reveal_strlit("不修改生产代码");
        reveal_strlit("不把一般质量问题包装成安全漏洞");
        reveal_strlit("不执行未授权攻击或泄露 secret");
    }
    assert(is_filled(p.required_inputs)) by {
        reveal_strlit("资产与信任边界");
        reveal_strlit("认证授权和数据流");
        reveal_strlit("diff/依赖/配置");
        reveal_strlit("威胁模型与部署环境");
    }
    assert(is_filled(p.output_contract)) by {
        reveal_strlit("threat-model: 资产/边界/攻击者");
        reveal_strlit("findings: severity/CWE/location/prerequisite/impact");
        reveal_strlit("remediation: 最小修复与纵深防御");
        reveal_strlit("verification: 安全回归测试");
        reveal_strlit("residual-risk: 接受或阻塞");
    }
    assert(is_filled(p.evidence_requirements)) by {
        reveal_strlit("每个 finding 有攻击路径和前提");
        reveal_strlit("secret 不进入输出");
        reveal_strlit("供应链结论引用锁文件/来源");
        reveal_strlit("严重度同时考虑可利用性和影响");
    }
    assert(is_filled(p.context_priorities)) by {
        reveal_strlit("信任边界和权限模型");
        reveal_strlit("认证/secret/网络相关 diff");
        reveal_strlit("依赖锁和安全记忆");
        reveal_strlit("部署与沙箱约束");
    }
    assert(is_filled(p.tool_strategy)) by {
        reveal_strlit("默认只读");
        reveal_strlit("网络读取必须限定官方/授权来源");
        reveal_strlit("不得输出 secret");
        reveal_strlit("危险验证必须 fail closed");
    }
    assert(is_filled(p.read_scopes)) by {
        reveal_strlit("security-decisions");
        reveal_strlit("threat-models");
        reveal_strlit("vulnerabilities");
        reveal_strlit("pitfalls");
        reveal_strlit("dependencies");
    }
    assert(is_filled(p.write_rules)) by {
        reveal_strlit("只写已证实漏洞、威胁模型和修复验收");
        reveal_strlit("敏感证据必须脱敏并限制范围");
    }
    assert(is_filled(p.completion_gate)) by {
        reveal_strlit("信任边界完整");
        reveal_strlit("finding 有攻击路径");
        reveal_strlit("误报处理透明");
        reveal_strlit("修复和验证条件明确");
    }
    assert(is_procedure(p.procedure)) by {
        reveal_strlit("threat-model");
        reveal_strlit("识别资产、攻击者、入口、边界和滥用案例");
        reveal_strlit("威胁模型");
        reveal_strlit("高价值资产均有威胁路径");
        reveal_strlit("surface");
        reveal_strlit("审查输入、身份、权限、secret、网络、文件和供应链面");
        reveal_strlit("攻击面清单");
        reveal_strlit("相关边界已覆盖");
        reveal_strlit("validate");
        reveal_strlit("为候选漏洞建立安全的最小证据链");
        reveal_strlit("漏洞证据");
        reveal_strlit("误报已排除或标注");
        reveal_strlit("remediate");
        reveal_strlit("给出最小修复、纵深防御和验证测试");
        reveal_strlit("修复合同");
        reveal_strlit("修复可验收");
        reveal_strlit("residual");
        reveal_strlit("记录剩余风险和部署假设");
        reveal_strlit("残余风险");
        reveal_strlit("风险接受主体明确");
        assert("threat-model"@.len() == 12);
        assert("surface"@.len() == 7);
        assert("validate"@.len() == 8);
        assert("remediate"@.len() == 9);
        assert("residual"@.len() == 8);
        assert("validate"@[0] == 'v');
        assert("residual"@[0] == 'r');
    }
    assert forall|i: int| 0 <= i < p.failure_policy.len() implies is_whole_rule(
        #[trigger] p.failure_policy[i],
    ) by {
        reveal_strlit("授权范围不清");
        reveal_strlit("停止主动验证，只做静态分析");
        reveal_strlit("请求 Supervisor 确认范围");
        reveal_strlit("证据可能暴露敏感信息");
        reveal_strlit("只保留脱敏指纹和位置");
        reveal_strlit("交给安全披露流程");
        reveal_strlit("需要运行危险 PoC");
        reveal_strlit("改用无害等价测试");
        reveal_strlit("明确记录未验证风险");
    }
}

#[verifier::rlimit(60)]
pub proof fn lemma_performance_engineer()
    ensures
        profile_outcome(performance_engineer_profile()) is Done,
{
    broadcast use lemma_said;

    let p = performance_engineer_profile();
    lemma_sources(AgentRole::PerformanceEngineer);
    assert(!is_blank_text(p.profile_id)) by {
        reveal_strlit("performance-v1");
    }
    assert(!is_blank_text(p.mission)) by {
        reveal_strlit("用可重复测量定位瓶颈并定义可执行的性能预算、优化优先级和回归阈值。");
    }
    assert(is_filled(p.non_goals)) by {
        reveal_strlit("不凭直觉微优化");
        reveal_strlit("不修改生产代码");
        reveal_strlit("不以单次无控制测量下结论");
    }
    assert(is_filled(p.required_inputs)) by {
        reveal_strlit("性能目标和负载模型");
        reveal_strlit("基线环境");
        reveal_strlit("相关代码/配置");
        reveal_strlit("已有 profile/benchmark");
    }
    assert(is_filled(p.output_contract)) by {
        reveal_strlit("budget: 指标/负载/阈值");
        reveal_strlit("baseline: 环境/样本/分布");
        reveal_strlit("bottleneck: profile 证据");
        reveal_strlit("experiments: 候选与结果");
        reveal_strlit("regression-gate: 自动门槛");
    }
    assert(is_filled(p.evidence_requirements)) by {
        reveal_strlit("命令、环境和迭代次数完整");
        reveal_strlit("报告分布而非只报平均值");
        reveal_strlit("优化收益与正确性风险并列");
        reveal_strlit("外部等待单独计量");
    }
    assert(is_filled(p.context_priorities)) by {
        reveal_strlit("性能 SLO 和负载");
        reveal_strlit("热点相关代码");
        reveal_strlit("历史基线和回归");
        reveal_strlit("部署资源约束");
    }
    assert(is_filled(p.tool_strategy)) by {
        reveal_strlit("命令仅用于基线/profile/benchmark");
        reveal_strlit("保持代码只读");
        reveal_strlit("先测量再提出优化");
    }
    assert(is_filled(p.read_scopes)) by {
        reveal_strlit("performance-budgets");
        reveal_strlit("benchmarks");
        reveal_strlit("regressions");
        reveal_strlit("architecture");
        reveal_strlit("pitfalls");
    }
    assert(is_filled(p.write_rules)) by {
        reveal_strlit("只保存可复现基线、瓶颈和阈值");
        reveal_strlit("环境变化必须创建新基线版本");
    }
    assert(is_filled(p.completion_gate)) by {
        reveal_strlit("性能合同可测");
        reveal_strlit("基线可重复");
        reveal_strlit("瓶颈有 profile 证据");
        reveal_strlit("回归门可自动执行");
    }
    assert(is_procedure(p.procedure)) by {
        reveal_strlit("budget");
        reveal_strlit("定义延迟、吞吐、内存、CPU 或成本预算");
        reveal_strlit("性能合同");
        reveal_strlit("指标和阈值可测");
        reveal_strlit("baseline");
        reveal_strlit("固定环境与负载并采集重复基线");
        reveal_strlit("基线数据");
        reveal_strlit("波动范围已知");
        reveal_strlit("profile");
        reveal_strlit("区分 CPU/I/O/内存/锁/外部等待并定位热点");
        reveal_strlit("瓶颈证据");
        reveal_strlit("主导瓶颈有数据");
        reveal_strlit("experiment");
        reveal_strlit("设计单变量实验比较候选优化");
        reveal_strlit("实验结果");
        reveal_strlit("收益和副作用可比较");
        reveal_strlit("guard");
        reveal_strlit("定义回归测试、阈值和观测指标");
        reveal_strlit("性能门");
        reveal_strlit("CI/发布可执行");
        assert("budget"@.len() == 6);
        assert("baseline"@.len() == 8);
        assert("profile"@.len() == 7);
        assert("experiment"@.len() == 10);
        assert("guard"@.len() == 5);
    }
    assert forall|i: int| 0 <= i < p.failure_policy.len() implies is_whole_rule(
        #[trigger] p.failure_policy[i],
    ) by {
        reveal_strlit("环境不可复现");
        reveal_strlit("停止比较绝对值，先建立稳定 harness");
        reveal_strlit("请求 Tester/ReleaseManager 提供环境");
        reveal_strlit("数据波动过大");
        reveal_strlit("增加样本并隔离噪声源");
        reveal_strlit("标注当前结论置信度");
        reveal_strlit("优化破坏契约");
        reveal_strlit("拒绝性能收益作为通过依据");
        reveal_strlit("交给 Architect/Review");
    }
}

#[verifier::rlimit(60)]
pub proof fn lemma_tester()
    ensures
        profile_outcome(tester_profile()) is Done,
{
    broadcast use lemma_said;

    let p = tester_profile();
    lemma_sources(AgentRole::Tester);
    assert(!is_blank_text(p.profile_id)) by {
        reveal_strlit("tester-v1");
    }
    assert(!is_blank_text(p.mission)) by {
        reveal_strlit("把验收合同和风险转成最小充分、可重复的测试组合，并报告真实环境、命令、结果和覆盖缺口。");
    }
    assert(is_filled(p.non_goals)) by {
        reveal_strlit("不把未覆盖视为通过");
        reveal_strlit("不修改生产实现来迎合测试");
        reveal_strlit("不隐藏 flaky 或既有失败");
    }
    assert(is_filled(p.required_inputs)) by {
        reveal_strlit("验收标准");
        reveal_strlit("实现和审查摘要");
        reveal_strlit("风险/失败模型");
        reveal_strlit("可用测试环境");
    }
    assert(is_filled(p.output_contract)) by {
        reveal_strlit("matrix: acceptance/risk -> test");
        reveal_strlit("environment: 平台/版本/配置");
        reveal_strlit("commands: 命令和退出码");
        reveal_strlit("results: pass/fail/flaky");
        reveal_strlit("coverage-gaps: 未测边界");
        reveal_strlit("conclusion: release impact");
    }
    assert(is_filled(p.evidence_requirements)) by {
        reveal_strlit("测试结果来自真实执行");
        reveal_strlit("失败保留最小关键输出");
        reveal_strlit("flaky 有复现频率");
        reveal_strlit("每个未覆盖项说明风险");
    }
    assert(is_filled(p.context_priorities)) by {
        reveal_strlit("验收矩阵");
        reveal_strlit("Review/Security/Performance findings");
        reveal_strlit("变更文件和测试入口");
        reveal_strlit("历史 flaky/回归");
    }
    assert(is_filled(p.tool_strategy)) by {
        reveal_strlit("运行最小充分测试");
        reveal_strlit("保持生产代码只读");
        reveal_strlit("测试产物必须有界");
        reveal_strlit("不得跳过失败命令");
    }
    assert(is_filled(p.read_scopes)) by {
        reveal_strlit("requirements");
        reveal_strlit("test-strategy");
        reveal_strlit("regressions");
        reveal_strlit("flaky-tests");
        reveal_strlit("pitfalls");
    }
    assert(is_filled(p.write_rules)) by {
        reveal_strlit("关键验收有测试");
        reveal_strlit("命令环境结果完整");
        reveal_strlit("失败已分类");
        reveal_strlit("覆盖缺口和发布影响明确");
    }
    assert(is_filled(p.completion_gate)) by {
        reveal_strlit("测试矩阵覆盖关键合同");
        reveal_strlit("全部命令有真实终态");
        reveal_strlit("失败和 flaky 已分类");
        reveal_strlit("覆盖缺口与发布影响明确");
    }
    assert(is_procedure(p.procedure)) by {
        reveal_strlit("map");
        reveal_strlit("建立验收与风险到测试层级的映射");
        reveal_strlit("测试矩阵");
        reveal_strlit("关键合同有测试");
        reveal_strlit("select");
        reveal_strlit("选择单元、集成、端到端、属性或故障测试的最小组合");
        reveal_strlit("执行计划");
        reveal_strlit("无重复低价值测试");
        reveal_strlit("execute");
        reveal_strlit("在记录环境中运行并保存原始终态");
        reveal_strlit("测试证据");
        reveal_strlit("每条命令有结果");
        reveal_strlit("triage");
        reveal_strlit("区分本次回归、既有失败、环境失败和 flaky");
        reveal_strlit("失败分类");
        reveal_strlit("失败责任清晰");
        reveal_strlit("verdict");
        reveal_strlit("按验收矩阵给出通过、阻塞和覆盖缺口");
        reveal_strlit("测试裁决");
        reveal_strlit("发布门可消费");
        assert("map"@.len() == 3);
        assert("select"@.len() == 6);
        assert("execute"@.len() == 7);
        assert("triage"@.len() == 6);
        assert("verdict"@.len() == 7);
        assert("select"@[0] == 's');
        assert("triage"@[0] == 't');
        assert("execute"@[0] == 'e');
        assert("verdict"@[0] == 'v');
    }
    assert forall|i: int| 0 <= i < p.failure_policy.len() implies is_whole_rule(
        #[trigger] p.failure_policy[i],
    ) by {
        reveal_strlit("环境缺失");
        reveal_strlit("不伪造结果，列出精确依赖");
        reveal_strlit("交给 ReleaseManager/Supervisor");
        reveal_strlit("失败不可复现");
        reveal_strlit("固定 seed/时间/并发并收集诊断");
        reveal_strlit("交给 Debugger");
        reveal_strlit("测试要求与合同冲突");
        reveal_strlit("保留双方映射");
        reveal_strlit("退回 Requirements/Architect");
    }
}

} // verus!
