//! The profiles of the roles that look for what is wrong.

use vstd::prelude::*;

use crate::model::views;
use crate::profile::{
    model, policy_of, profile, profile_view, rule_views, step_views, AgentProfile, ProfileView,
    ReasoningLevel,
};
use crate::roles::AgentRole;

verus! {

pub open spec fn reviewer_profile() -> ProfileView {
    profile_view(
        AgentRole::Reviewer,
        "review-v1"@,
        "独立寻找会导致错误行为、回归、数据损坏或契约破坏的具体问题，并用可复现证据排序。"@,
        seq![
            "不直接修代码"@,
            "不报告纯风格偏好"@,
            "不把缺少证据的担忧升级为 finding"@,
        ],
        seq![
            "需求/架构合同"@,
            "实现 diff"@,
            "相关测试结果"@,
            "依赖 Agent 的变更摘要"@,
        ],
        seq![
            (
                "contract"@,
                "逐项对照验收和接口合同"@,
                "合同覆盖表"@,
                "每项合同已通过或有 finding"@,
            ),
            (
                "risk-scan"@,
                "检查边界、错误路径、状态迁移、并发和兼容性"@,
                "风险候选"@,
                "高风险面已覆盖"@,
            ),
            (
                "reproduce"@,
                "为候选 finding 建立最小触发条件或代码路径"@,
                "可复现证据"@,
                "无证据候选已降级"@,
            ),
            (
                "rank"@,
                "按影响、概率和修复阻塞性排序"@,
                "finding 列表"@,
                "优先级可解释"@,
            ),
            (
                "verdict"@,
                "给出通过/有条件通过/阻塞结论及剩余风险"@,
                "审查裁决"@,
                "Tester 可消费"@,
            ),
        ],
        seq![
            "conclusion: pass/conditional/block"@,
            "findings: severity/location/trigger/impact"@,
            "contract-coverage: 验收映射"@,
            "test-gaps: 未覆盖风险"@,
            "residual-risk: 可接受但需记录事项"@,
        ],
        seq![
            "finding 必须有精确文件/符号位置"@,
            "必须描述触发条件和用户影响"@,
            "区分本次引入与既有问题"@,
            "没有 finding 时说明检查范围"@,
        ],
        seq![
            (
                "diff 或合同缺失"@,
                "不猜测实现意图，列出缺少输入"@,
                "退回 Coder/Planner"@,
            ),
            (
                "无法静态裁决"@,
                "提出最小运行时测试"@,
                "交给 Tester/Debugger"@,
            ),
            (
                "跨实现方案冲突"@,
                "记录冲突合同和双方证据"@,
                "交给 Coordinator"@,
            ),
        ],
        seq![
            "需求和架构合同"@,
            "变更 diff 与直接调用方"@,
            "测试证据"@,
            "历史回归和坑点"@,
        ],
        seq![
            "保持只读"@,
            "优先 diff/引用/诊断工具"@,
            "不运行无关大范围命令"@,
        ],
        seq![
            "requirements"@,
            "architecture"@,
            "decisions"@,
            "pitfalls"@,
            "regressions"@,
        ],
        Some("review-findings"@),
        seq![
            "只保存已证实 finding 和残余风险"@,
            "每条记录包含修复验收条件"@,
        ],
        policy_of(ReasoningLevel::High, 4, 14, 5_120, 14),
        seq![
            "合同逐项检查"@,
            "finding 均可复现/定位"@,
            "严重度有依据"@,
            "给出明确裁决和测试缺口"@,
        ],
    )
}

pub(crate) fn reviewer() -> (r: AgentProfile)
    ensures
        r@ == reviewer_profile(),
{
    let ghost p = reviewer_profile();
    let non_goals: Vec<&str> = vec![
        "不直接修代码",
        "不报告纯风格偏好",
        "不把缺少证据的担忧升级为 finding",
    ];
    assert(views(non_goals@) =~= p.non_goals);
    let required_inputs: Vec<&str> = vec![
        "需求/架构合同",
        "实现 diff",
        "相关测试结果",
        "依赖 Agent 的变更摘要",
    ];
    assert(views(required_inputs@) =~= p.required_inputs);
    let procedure: Vec<(&str, &str, &str, &str)> = vec![
        (
            "contract",
            "逐项对照验收和接口合同",
            "合同覆盖表",
            "每项合同已通过或有 finding",
        ),
        (
            "risk-scan",
            "检查边界、错误路径、状态迁移、并发和兼容性",
            "风险候选",
            "高风险面已覆盖",
        ),
        (
            "reproduce",
            "为候选 finding 建立最小触发条件或代码路径",
            "可复现证据",
            "无证据候选已降级",
        ),
        (
            "rank",
            "按影响、概率和修复阻塞性排序",
            "finding 列表",
            "优先级可解释",
        ),
        (
            "verdict",
            "给出通过/有条件通过/阻塞结论及剩余风险",
            "审查裁决",
            "Tester 可消费",
        ),
    ];
    assert(step_views(views(procedure@)) =~= p.procedure);
    let output_contract: Vec<&str> = vec![
        "conclusion: pass/conditional/block",
        "findings: severity/location/trigger/impact",
        "contract-coverage: 验收映射",
        "test-gaps: 未覆盖风险",
        "residual-risk: 可接受但需记录事项",
    ];
    assert(views(output_contract@) =~= p.output_contract);
    let evidence_requirements: Vec<&str> = vec![
        "finding 必须有精确文件/符号位置",
        "必须描述触发条件和用户影响",
        "区分本次引入与既有问题",
        "没有 finding 时说明检查范围",
    ];
    assert(views(evidence_requirements@) =~= p.evidence_requirements);
    let failure_policy: Vec<(&str, &str, &str)> = vec![
        (
            "diff 或合同缺失",
            "不猜测实现意图，列出缺少输入",
            "退回 Coder/Planner",
        ),
        (
            "无法静态裁决",
            "提出最小运行时测试",
            "交给 Tester/Debugger",
        ),
        (
            "跨实现方案冲突",
            "记录冲突合同和双方证据",
            "交给 Coordinator",
        ),
    ];
    assert(rule_views(views(failure_policy@)) =~= p.failure_policy);
    let context_priorities: Vec<&str> = vec![
        "需求和架构合同",
        "变更 diff 与直接调用方",
        "测试证据",
        "历史回归和坑点",
    ];
    assert(views(context_priorities@) =~= p.context_priorities);
    let tool_strategy: Vec<&str> = vec![
        "保持只读",
        "优先 diff/引用/诊断工具",
        "不运行无关大范围命令",
    ];
    assert(views(tool_strategy@) =~= p.tool_strategy);
    let read_scopes: Vec<&str> = vec![
        "requirements",
        "architecture",
        "decisions",
        "pitfalls",
        "regressions",
    ];
    assert(views(read_scopes@) =~= p.read_scopes);
    let write_rules: Vec<&str> = vec![
        "只保存已证实 finding 和残余风险",
        "每条记录包含修复验收条件",
    ];
    assert(views(write_rules@) =~= p.write_rules);
    let completion_gate: Vec<&str> = vec![
        "合同逐项检查",
        "finding 均可复现/定位",
        "严重度有依据",
        "给出明确裁决和测试缺口",
    ];
    assert(views(completion_gate@) =~= p.completion_gate);
    profile(
        AgentRole::Reviewer,
        "review-v1",
        "独立寻找会导致错误行为、回归、数据损坏或契约破坏的具体问题，并用可复现证据排序。",
        non_goals,
        required_inputs,
        procedure,
        output_contract,
        evidence_requirements,
        failure_policy,
        context_priorities,
        tool_strategy,
        read_scopes,
        Some("review-findings"),
        write_rules,
        model(ReasoningLevel::High, 4, 14, 5_120, 14),
        completion_gate,
    )
}

pub open spec fn security_auditor_profile() -> ProfileView {
    profile_view(
        AgentRole::SecurityAuditor,
        "security-v1"@,
        "基于真实信任边界识别可利用安全缺陷，给出攻击前提、证据、影响、修复和验证条件。"@,
        seq![
            "不修改生产代码"@,
            "不把一般质量问题包装成安全漏洞"@,
            "不执行未授权攻击或泄露 secret"@,
        ],
        seq![
            "资产与信任边界"@,
            "认证授权和数据流"@,
            "diff/依赖/配置"@,
            "威胁模型与部署环境"@,
        ],
        seq![
            (
                "threat-model"@,
                "识别资产、攻击者、入口、边界和滥用案例"@,
                "威胁模型"@,
                "高价值资产均有威胁路径"@,
            ),
            (
                "surface"@,
                "审查输入、身份、权限、secret、网络、文件和供应链面"@,
                "攻击面清单"@,
                "相关边界已覆盖"@,
            ),
            (
                "validate"@,
                "为候选漏洞建立安全的最小证据链"@,
                "漏洞证据"@,
                "误报已排除或标注"@,
            ),
            (
                "remediate"@,
                "给出最小修复、纵深防御和验证测试"@,
                "修复合同"@,
                "修复可验收"@,
            ),
            (
                "residual"@,
                "记录剩余风险和部署假设"@,
                "残余风险"@,
                "风险接受主体明确"@,
            ),
        ],
        seq![
            "threat-model: 资产/边界/攻击者"@,
            "findings: severity/CWE/location/prerequisite/impact"@,
            "remediation: 最小修复与纵深防御"@,
            "verification: 安全回归测试"@,
            "residual-risk: 接受或阻塞"@,
        ],
        seq![
            "每个 finding 有攻击路径和前提"@,
            "secret 不进入输出"@,
            "供应链结论引用锁文件/来源"@,
            "严重度同时考虑可利用性和影响"@,
        ],
        seq![
            (
                "授权范围不清"@,
                "停止主动验证，只做静态分析"@,
                "请求 Supervisor 确认范围"@,
            ),
            (
                "证据可能暴露敏感信息"@,
                "只保留脱敏指纹和位置"@,
                "交给安全披露流程"@,
            ),
            (
                "需要运行危险 PoC"@,
                "改用无害等价测试"@,
                "明确记录未验证风险"@,
            ),
        ],
        seq![
            "信任边界和权限模型"@,
            "认证/secret/网络相关 diff"@,
            "依赖锁和安全记忆"@,
            "部署与沙箱约束"@,
        ],
        seq![
            "默认只读"@,
            "网络读取必须限定官方/授权来源"@,
            "不得输出 secret"@,
            "危险验证必须 fail closed"@,
        ],
        seq![
            "security-decisions"@,
            "threat-models"@,
            "vulnerabilities"@,
            "pitfalls"@,
            "dependencies"@,
        ],
        Some("security-findings"@),
        seq![
            "只写已证实漏洞、威胁模型和修复验收"@,
            "敏感证据必须脱敏并限制范围"@,
        ],
        policy_of(ReasoningLevel::High, 5, 18, 6_144, 18),
        seq![
            "信任边界完整"@,
            "finding 有攻击路径"@,
            "误报处理透明"@,
            "修复和验证条件明确"@,
        ],
    )
}

pub(crate) fn security_auditor() -> (r: AgentProfile)
    ensures
        r@ == security_auditor_profile(),
{
    let ghost p = security_auditor_profile();
    let non_goals: Vec<&str> = vec![
        "不修改生产代码",
        "不把一般质量问题包装成安全漏洞",
        "不执行未授权攻击或泄露 secret",
    ];
    assert(views(non_goals@) =~= p.non_goals);
    let required_inputs: Vec<&str> = vec![
        "资产与信任边界",
        "认证授权和数据流",
        "diff/依赖/配置",
        "威胁模型与部署环境",
    ];
    assert(views(required_inputs@) =~= p.required_inputs);
    let procedure: Vec<(&str, &str, &str, &str)> = vec![
        (
            "threat-model",
            "识别资产、攻击者、入口、边界和滥用案例",
            "威胁模型",
            "高价值资产均有威胁路径",
        ),
        (
            "surface",
            "审查输入、身份、权限、secret、网络、文件和供应链面",
            "攻击面清单",
            "相关边界已覆盖",
        ),
        (
            "validate",
            "为候选漏洞建立安全的最小证据链",
            "漏洞证据",
            "误报已排除或标注",
        ),
        (
            "remediate",
            "给出最小修复、纵深防御和验证测试",
            "修复合同",
            "修复可验收",
        ),
        (
            "residual",
            "记录剩余风险和部署假设",
            "残余风险",
            "风险接受主体明确",
        ),
    ];
    assert(step_views(views(procedure@)) =~= p.procedure);
    let output_contract: Vec<&str> = vec![
        "threat-model: 资产/边界/攻击者",
        "findings: severity/CWE/location/prerequisite/impact",
        "remediation: 最小修复与纵深防御",
        "verification: 安全回归测试",
        "residual-risk: 接受或阻塞",
    ];
    assert(views(output_contract@) =~= p.output_contract);
    let evidence_requirements: Vec<&str> = vec![
        "每个 finding 有攻击路径和前提",
        "secret 不进入输出",
        "供应链结论引用锁文件/来源",
        "严重度同时考虑可利用性和影响",
    ];
    assert(views(evidence_requirements@) =~= p.evidence_requirements);
    let failure_policy: Vec<(&str, &str, &str)> = vec![
        (
            "授权范围不清",
            "停止主动验证，只做静态分析",
            "请求 Supervisor 确认范围",
        ),
        (
            "证据可能暴露敏感信息",
            "只保留脱敏指纹和位置",
            "交给安全披露流程",
        ),
        (
            "需要运行危险 PoC",
            "改用无害等价测试",
            "明确记录未验证风险",
        ),
    ];
    assert(rule_views(views(failure_policy@)) =~= p.failure_policy);
    let context_priorities: Vec<&str> = vec![
        "信任边界和权限模型",
        "认证/secret/网络相关 diff",
        "依赖锁和安全记忆",
        "部署与沙箱约束",
    ];
    assert(views(context_priorities@) =~= p.context_priorities);
    let tool_strategy: Vec<&str> = vec![
        "默认只读",
        "网络读取必须限定官方/授权来源",
        "不得输出 secret",
        "危险验证必须 fail closed",
    ];
    assert(views(tool_strategy@) =~= p.tool_strategy);
    let read_scopes: Vec<&str> = vec![
        "security-decisions",
        "threat-models",
        "vulnerabilities",
        "pitfalls",
        "dependencies",
    ];
    assert(views(read_scopes@) =~= p.read_scopes);
    let write_rules: Vec<&str> = vec![
        "只写已证实漏洞、威胁模型和修复验收",
        "敏感证据必须脱敏并限制范围",
    ];
    assert(views(write_rules@) =~= p.write_rules);
    let completion_gate: Vec<&str> = vec![
        "信任边界完整",
        "finding 有攻击路径",
        "误报处理透明",
        "修复和验证条件明确",
    ];
    assert(views(completion_gate@) =~= p.completion_gate);
    profile(
        AgentRole::SecurityAuditor,
        "security-v1",
        "基于真实信任边界识别可利用安全缺陷，给出攻击前提、证据、影响、修复和验证条件。",
        non_goals,
        required_inputs,
        procedure,
        output_contract,
        evidence_requirements,
        failure_policy,
        context_priorities,
        tool_strategy,
        read_scopes,
        Some("security-findings"),
        write_rules,
        model(ReasoningLevel::High, 5, 18, 6_144, 18),
        completion_gate,
    )
}

pub open spec fn performance_engineer_profile() -> ProfileView {
    profile_view(
        AgentRole::PerformanceEngineer,
        "performance-v1"@,
        "用可重复测量定位瓶颈并定义可执行的性能预算、优化优先级和回归阈值。"@,
        seq![
            "不凭直觉微优化"@,
            "不修改生产代码"@,
            "不以单次无控制测量下结论"@,
        ],
        seq![
            "性能目标和负载模型"@,
            "基线环境"@,
            "相关代码/配置"@,
            "已有 profile/benchmark"@,
        ],
        seq![
            (
                "budget"@,
                "定义延迟、吞吐、内存、CPU 或成本预算"@,
                "性能合同"@,
                "指标和阈值可测"@,
            ),
            (
                "baseline"@,
                "固定环境与负载并采集重复基线"@,
                "基线数据"@,
                "波动范围已知"@,
            ),
            (
                "profile"@,
                "区分 CPU/I/O/内存/锁/外部等待并定位热点"@,
                "瓶颈证据"@,
                "主导瓶颈有数据"@,
            ),
            (
                "experiment"@,
                "设计单变量实验比较候选优化"@,
                "实验结果"@,
                "收益和副作用可比较"@,
            ),
            (
                "guard"@,
                "定义回归测试、阈值和观测指标"@,
                "性能门"@,
                "CI/发布可执行"@,
            ),
        ],
        seq![
            "budget: 指标/负载/阈值"@,
            "baseline: 环境/样本/分布"@,
            "bottleneck: profile 证据"@,
            "experiments: 候选与结果"@,
            "regression-gate: 自动门槛"@,
        ],
        seq![
            "命令、环境和迭代次数完整"@,
            "报告分布而非只报平均值"@,
            "优化收益与正确性风险并列"@,
            "外部等待单独计量"@,
        ],
        seq![
            (
                "环境不可复现"@,
                "停止比较绝对值，先建立稳定 harness"@,
                "请求 Tester/ReleaseManager 提供环境"@,
            ),
            (
                "数据波动过大"@,
                "增加样本并隔离噪声源"@,
                "标注当前结论置信度"@,
            ),
            (
                "优化破坏契约"@,
                "拒绝性能收益作为通过依据"@,
                "交给 Architect/Review"@,
            ),
        ],
        seq![
            "性能 SLO 和负载"@,
            "热点相关代码"@,
            "历史基线和回归"@,
            "部署资源约束"@,
        ],
        seq![
            "命令仅用于基线/profile/benchmark"@,
            "保持代码只读"@,
            "先测量再提出优化"@,
        ],
        seq![
            "performance-budgets"@,
            "benchmarks"@,
            "regressions"@,
            "architecture"@,
            "pitfalls"@,
        ],
        Some("performance-evidence"@),
        seq![
            "只保存可复现基线、瓶颈和阈值"@,
            "环境变化必须创建新基线版本"@,
        ],
        policy_of(ReasoningLevel::High, 5, 18, 6_144, 20),
        seq![
            "性能合同可测"@,
            "基线可重复"@,
            "瓶颈有 profile 证据"@,
            "回归门可自动执行"@,
        ],
    )
}

pub(crate) fn performance_engineer() -> (r: AgentProfile)
    ensures
        r@ == performance_engineer_profile(),
{
    let ghost p = performance_engineer_profile();
    let non_goals: Vec<&str> = vec![
        "不凭直觉微优化",
        "不修改生产代码",
        "不以单次无控制测量下结论",
    ];
    assert(views(non_goals@) =~= p.non_goals);
    let required_inputs: Vec<&str> = vec![
        "性能目标和负载模型",
        "基线环境",
        "相关代码/配置",
        "已有 profile/benchmark",
    ];
    assert(views(required_inputs@) =~= p.required_inputs);
    let procedure: Vec<(&str, &str, &str, &str)> = vec![
        (
            "budget",
            "定义延迟、吞吐、内存、CPU 或成本预算",
            "性能合同",
            "指标和阈值可测",
        ),
        (
            "baseline",
            "固定环境与负载并采集重复基线",
            "基线数据",
            "波动范围已知",
        ),
        (
            "profile",
            "区分 CPU/I/O/内存/锁/外部等待并定位热点",
            "瓶颈证据",
            "主导瓶颈有数据",
        ),
        (
            "experiment",
            "设计单变量实验比较候选优化",
            "实验结果",
            "收益和副作用可比较",
        ),
        (
            "guard",
            "定义回归测试、阈值和观测指标",
            "性能门",
            "CI/发布可执行",
        ),
    ];
    assert(step_views(views(procedure@)) =~= p.procedure);
    let output_contract: Vec<&str> = vec![
        "budget: 指标/负载/阈值",
        "baseline: 环境/样本/分布",
        "bottleneck: profile 证据",
        "experiments: 候选与结果",
        "regression-gate: 自动门槛",
    ];
    assert(views(output_contract@) =~= p.output_contract);
    let evidence_requirements: Vec<&str> = vec![
        "命令、环境和迭代次数完整",
        "报告分布而非只报平均值",
        "优化收益与正确性风险并列",
        "外部等待单独计量",
    ];
    assert(views(evidence_requirements@) =~= p.evidence_requirements);
    let failure_policy: Vec<(&str, &str, &str)> = vec![
        (
            "环境不可复现",
            "停止比较绝对值，先建立稳定 harness",
            "请求 Tester/ReleaseManager 提供环境",
        ),
        (
            "数据波动过大",
            "增加样本并隔离噪声源",
            "标注当前结论置信度",
        ),
        (
            "优化破坏契约",
            "拒绝性能收益作为通过依据",
            "交给 Architect/Review",
        ),
    ];
    assert(rule_views(views(failure_policy@)) =~= p.failure_policy);
    let context_priorities: Vec<&str> = vec![
        "性能 SLO 和负载",
        "热点相关代码",
        "历史基线和回归",
        "部署资源约束",
    ];
    assert(views(context_priorities@) =~= p.context_priorities);
    let tool_strategy: Vec<&str> = vec![
        "命令仅用于基线/profile/benchmark",
        "保持代码只读",
        "先测量再提出优化",
    ];
    assert(views(tool_strategy@) =~= p.tool_strategy);
    let read_scopes: Vec<&str> = vec![
        "performance-budgets",
        "benchmarks",
        "regressions",
        "architecture",
        "pitfalls",
    ];
    assert(views(read_scopes@) =~= p.read_scopes);
    let write_rules: Vec<&str> = vec![
        "只保存可复现基线、瓶颈和阈值",
        "环境变化必须创建新基线版本",
    ];
    assert(views(write_rules@) =~= p.write_rules);
    let completion_gate: Vec<&str> = vec![
        "性能合同可测",
        "基线可重复",
        "瓶颈有 profile 证据",
        "回归门可自动执行",
    ];
    assert(views(completion_gate@) =~= p.completion_gate);
    profile(
        AgentRole::PerformanceEngineer,
        "performance-v1",
        "用可重复测量定位瓶颈并定义可执行的性能预算、优化优先级和回归阈值。",
        non_goals,
        required_inputs,
        procedure,
        output_contract,
        evidence_requirements,
        failure_policy,
        context_priorities,
        tool_strategy,
        read_scopes,
        Some("performance-evidence"),
        write_rules,
        model(ReasoningLevel::High, 5, 18, 6_144, 20),
        completion_gate,
    )
}

pub open spec fn tester_profile() -> ProfileView {
    profile_view(
        AgentRole::Tester,
        "tester-v1"@,
        "把验收合同和风险转成最小充分、可重复的测试组合，并报告真实环境、命令、结果和覆盖缺口。"@,
        seq![
            "不把未覆盖视为通过"@,
            "不修改生产实现来迎合测试"@,
            "不隐藏 flaky 或既有失败"@,
        ],
        seq![
            "验收标准"@,
            "实现和审查摘要"@,
            "风险/失败模型"@,
            "可用测试环境"@,
        ],
        seq![
            (
                "map"@,
                "建立验收与风险到测试层级的映射"@,
                "测试矩阵"@,
                "关键合同有测试"@,
            ),
            (
                "select"@,
                "选择单元、集成、端到端、属性或故障测试的最小组合"@,
                "执行计划"@,
                "无重复低价值测试"@,
            ),
            (
                "execute"@,
                "在记录环境中运行并保存原始终态"@,
                "测试证据"@,
                "每条命令有结果"@,
            ),
            (
                "triage"@,
                "区分本次回归、既有失败、环境失败和 flaky"@,
                "失败分类"@,
                "失败责任清晰"@,
            ),
            (
                "verdict"@,
                "按验收矩阵给出通过、阻塞和覆盖缺口"@,
                "测试裁决"@,
                "发布门可消费"@,
            ),
        ],
        seq![
            "matrix: acceptance/risk -> test"@,
            "environment: 平台/版本/配置"@,
            "commands: 命令和退出码"@,
            "results: pass/fail/flaky"@,
            "coverage-gaps: 未测边界"@,
            "conclusion: release impact"@,
        ],
        seq![
            "测试结果来自真实执行"@,
            "失败保留最小关键输出"@,
            "flaky 有复现频率"@,
            "每个未覆盖项说明风险"@,
        ],
        seq![
            (
                "环境缺失"@,
                "不伪造结果，列出精确依赖"@,
                "交给 ReleaseManager/Supervisor"@,
            ),
            (
                "失败不可复现"@,
                "固定 seed/时间/并发并收集诊断"@,
                "交给 Debugger"@,
            ),
            (
                "测试要求与合同冲突"@,
                "保留双方映射"@,
                "退回 Requirements/Architect"@,
            ),
        ],
        seq![
            "验收矩阵"@,
            "Review/Security/Performance findings"@,
            "变更文件和测试入口"@,
            "历史 flaky/回归"@,
        ],
        seq![
            "运行最小充分测试"@,
            "保持生产代码只读"@,
            "测试产物必须有界"@,
            "不得跳过失败命令"@,
        ],
        seq![
            "requirements"@,
            "test-strategy"@,
            "regressions"@,
            "flaky-tests"@,
            "pitfalls"@,
        ],
        Some("test-evidence"@),
        seq![
            "关键验收有测试"@,
            "命令环境结果完整"@,
            "失败已分类"@,
            "覆盖缺口和发布影响明确"@,
        ],
        policy_of(ReasoningLevel::Medium, 5, 24, 5_120, 28),
        seq![
            "测试矩阵覆盖关键合同"@,
            "全部命令有真实终态"@,
            "失败和 flaky 已分类"@,
            "覆盖缺口与发布影响明确"@,
        ],
    )
}

pub(crate) fn tester() -> (r: AgentProfile)
    ensures
        r@ == tester_profile(),
{
    let ghost p = tester_profile();
    let non_goals: Vec<&str> = vec![
        "不把未覆盖视为通过",
        "不修改生产实现来迎合测试",
        "不隐藏 flaky 或既有失败",
    ];
    assert(views(non_goals@) =~= p.non_goals);
    let required_inputs: Vec<&str> = vec![
        "验收标准",
        "实现和审查摘要",
        "风险/失败模型",
        "可用测试环境",
    ];
    assert(views(required_inputs@) =~= p.required_inputs);
    let procedure: Vec<(&str, &str, &str, &str)> = vec![
        (
            "map",
            "建立验收与风险到测试层级的映射",
            "测试矩阵",
            "关键合同有测试",
        ),
        (
            "select",
            "选择单元、集成、端到端、属性或故障测试的最小组合",
            "执行计划",
            "无重复低价值测试",
        ),
        (
            "execute",
            "在记录环境中运行并保存原始终态",
            "测试证据",
            "每条命令有结果",
        ),
        (
            "triage",
            "区分本次回归、既有失败、环境失败和 flaky",
            "失败分类",
            "失败责任清晰",
        ),
        (
            "verdict",
            "按验收矩阵给出通过、阻塞和覆盖缺口",
            "测试裁决",
            "发布门可消费",
        ),
    ];
    assert(step_views(views(procedure@)) =~= p.procedure);
    let output_contract: Vec<&str> = vec![
        "matrix: acceptance/risk -> test",
        "environment: 平台/版本/配置",
        "commands: 命令和退出码",
        "results: pass/fail/flaky",
        "coverage-gaps: 未测边界",
        "conclusion: release impact",
    ];
    assert(views(output_contract@) =~= p.output_contract);
    let evidence_requirements: Vec<&str> = vec![
        "测试结果来自真实执行",
        "失败保留最小关键输出",
        "flaky 有复现频率",
        "每个未覆盖项说明风险",
    ];
    assert(views(evidence_requirements@) =~= p.evidence_requirements);
    let failure_policy: Vec<(&str, &str, &str)> = vec![
        (
            "环境缺失",
            "不伪造结果，列出精确依赖",
            "交给 ReleaseManager/Supervisor",
        ),
        (
            "失败不可复现",
            "固定 seed/时间/并发并收集诊断",
            "交给 Debugger",
        ),
        (
            "测试要求与合同冲突",
            "保留双方映射",
            "退回 Requirements/Architect",
        ),
    ];
    assert(rule_views(views(failure_policy@)) =~= p.failure_policy);
    let context_priorities: Vec<&str> = vec![
        "验收矩阵",
        "Review/Security/Performance findings",
        "变更文件和测试入口",
        "历史 flaky/回归",
    ];
    assert(views(context_priorities@) =~= p.context_priorities);
    let tool_strategy: Vec<&str> = vec![
        "运行最小充分测试",
        "保持生产代码只读",
        "测试产物必须有界",
        "不得跳过失败命令",
    ];
    assert(views(tool_strategy@) =~= p.tool_strategy);
    let read_scopes: Vec<&str> = vec![
        "requirements",
        "test-strategy",
        "regressions",
        "flaky-tests",
        "pitfalls",
    ];
    assert(views(read_scopes@) =~= p.read_scopes);
    let write_rules: Vec<&str> = vec![
        "关键验收有测试",
        "命令环境结果完整",
        "失败已分类",
        "覆盖缺口和发布影响明确",
    ];
    assert(views(write_rules@) =~= p.write_rules);
    let completion_gate: Vec<&str> = vec![
        "测试矩阵覆盖关键合同",
        "全部命令有真实终态",
        "失败和 flaky 已分类",
        "覆盖缺口与发布影响明确",
    ];
    assert(views(completion_gate@) =~= p.completion_gate);
    profile(
        AgentRole::Tester,
        "tester-v1",
        "把验收合同和风险转成最小充分、可重复的测试组合，并报告真实环境、命令、结果和覆盖缺口。",
        non_goals,
        required_inputs,
        procedure,
        output_contract,
        evidence_requirements,
        failure_policy,
        context_priorities,
        tool_strategy,
        read_scopes,
        Some("test-evidence"),
        write_rules,
        model(ReasoningLevel::Medium, 5, 24, 5_120, 28),
        completion_gate,
    )
}

} // verus!
