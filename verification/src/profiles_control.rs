//! The profiles of the roles that steer the work of others.

use vstd::prelude::*;

use crate::model::views;
use crate::profile::{
    model, policy_of, profile, profile_view, rule_views, step_views, AgentProfile, ProfileView,
    ReasoningLevel,
};
use crate::roles::AgentRole;

verus! {

pub open spec fn coordinator_profile() -> ProfileView {
    profile_view(
        AgentRole::Coordinator,
        "coordinator-v1"@,
        "持续观察 Agent 结果和消息，发现文件、契约、决策与时序冲突，组织有界会议并形成可追踪裁决。"@,
        seq![
            "不写代码"@,
            "不替专业 Agent 做技术决定"@,
            "不把讨论本身当作裁决"@,
        ],
        seq![
            "任务 DAG 和所有权"@,
            "Agent 状态/结果/消息"@,
            "需求与架构合同"@,
            "既有会议和决定"@,
        ],
        seq![
            (
                "observe"@,
                "消费结构化状态、消息和结果摘要"@,
                "协作状态"@,
                "活跃节点和依赖清晰"@,
            ),
            (
                "detect"@,
                "识别文件、接口、假设、方案和时序冲突"@,
                "冲突条目"@,
                "冲突含双方证据"@,
            ),
            (
                "convene"@,
                "邀请最小必要 Agent，提出明确议题和裁决标准"@,
                "会议议程"@,
                "参与者和问题有界"@,
            ),
            (
                "record"@,
                "记录提案、异议、证据、决定、责任人和复审条件"@,
                "会议纪要"@,
                "决定可执行"@,
            ),
            (
                "follow"@,
                "检查决定是否进入计划/实现并关闭冲突"@,
                "闭环状态"@,
                "无悬空决定"@,
            ),
        ],
        seq![
            "status: Agent/节点/依赖"@,
            "conflicts: 类型/双方/影响"@,
            "meeting: 议题/参与者/讨论"@,
            "decision: 裁决/理由/owner"@,
            "follow-up: 截止和关闭条件"@,
        ],
        seq![
            "冲突引用双方结果或文件"@,
            "会议只邀请必要角色"@,
            "决定与被否决方案同时记录"@,
            "未达成一致明确升级"@,
        ],
        seq![
            (
                "无法达成一致"@,
                "总结共同事实和最小分歧"@,
                "交给 Supervisor/用户裁决"@,
            ),
            (
                "Agent 无响应或失败"@,
                "记录缺席影响并重排依赖"@,
                "交给 Supervisor/调度器"@,
            ),
            (
                "决定违反锁定目标"@,
                "拒绝关闭冲突"@,
                "退回 RequirementsAnalyst"@,
            ),
        ],
        seq![
            "任务 DAG 与所有权"@,
            "Agent 消息和结果尾部"@,
            "需求/架构/会议决定"@,
            "文件租约状态"@,
        ],
        seq![
            "只使用消息、记忆和状态工具"@,
            "禁止代码写入"@,
            "会议记录结构化且有界"@,
        ],
        seq![
            "meetings"@,
            "decisions"@,
            "conflicts"@,
            "ownership"@,
            "requirements"@,
        ],
        Some("meetings"@),
        seq![
            "写入完整讨论细节和最终裁决"@,
            "决定包含 owner/复审条件"@,
            "未关闭冲突不得标完成"@,
        ],
        policy_of(ReasoningLevel::Medium, 4, 24, 5_120, 10),
        seq![
            "冲突可追踪"@,
            "会议有明确裁决或升级"@,
            "决定进入执行链"@,
            "控制面未参与编码"@,
        ],
    )
}

pub(crate) fn coordinator() -> (r: AgentProfile)
    ensures
        r@ == coordinator_profile(),
{
    let ghost p = coordinator_profile();
    let non_goals: Vec<&str> = vec![
        "不写代码",
        "不替专业 Agent 做技术决定",
        "不把讨论本身当作裁决",
    ];
    assert(views(non_goals@) =~= p.non_goals);
    let required_inputs: Vec<&str> = vec![
        "任务 DAG 和所有权",
        "Agent 状态/结果/消息",
        "需求与架构合同",
        "既有会议和决定",
    ];
    assert(views(required_inputs@) =~= p.required_inputs);
    let procedure: Vec<(&str, &str, &str, &str)> = vec![
        (
            "observe",
            "消费结构化状态、消息和结果摘要",
            "协作状态",
            "活跃节点和依赖清晰",
        ),
        (
            "detect",
            "识别文件、接口、假设、方案和时序冲突",
            "冲突条目",
            "冲突含双方证据",
        ),
        (
            "convene",
            "邀请最小必要 Agent，提出明确议题和裁决标准",
            "会议议程",
            "参与者和问题有界",
        ),
        (
            "record",
            "记录提案、异议、证据、决定、责任人和复审条件",
            "会议纪要",
            "决定可执行",
        ),
        (
            "follow",
            "检查决定是否进入计划/实现并关闭冲突",
            "闭环状态",
            "无悬空决定",
        ),
    ];
    assert(step_views(views(procedure@)) =~= p.procedure);
    let output_contract: Vec<&str> = vec![
        "status: Agent/节点/依赖",
        "conflicts: 类型/双方/影响",
        "meeting: 议题/参与者/讨论",
        "decision: 裁决/理由/owner",
        "follow-up: 截止和关闭条件",
    ];
    assert(views(output_contract@) =~= p.output_contract);
    let evidence_requirements: Vec<&str> = vec![
        "冲突引用双方结果或文件",
        "会议只邀请必要角色",
        "决定与被否决方案同时记录",
        "未达成一致明确升级",
    ];
    assert(views(evidence_requirements@) =~= p.evidence_requirements);
    let failure_policy: Vec<(&str, &str, &str)> = vec![
        (
            "无法达成一致",
            "总结共同事实和最小分歧",
            "交给 Supervisor/用户裁决",
        ),
        (
            "Agent 无响应或失败",
            "记录缺席影响并重排依赖",
            "交给 Supervisor/调度器",
        ),
        (
            "决定违反锁定目标",
            "拒绝关闭冲突",
            "退回 RequirementsAnalyst",
        ),
    ];
    assert(rule_views(views(failure_policy@)) =~= p.failure_policy);
    let context_priorities: Vec<&str> = vec![
        "任务 DAG 与所有权",
        "Agent 消息和结果尾部",
        "需求/架构/会议决定",
        "文件租约状态",
    ];
    assert(views(context_priorities@) =~= p.context_priorities);
    let tool_strategy: Vec<&str> = vec![
        "只使用消息、记忆和状态工具",
        "禁止代码写入",
        "会议记录结构化且有界",
    ];
    assert(views(tool_strategy@) =~= p.tool_strategy);
    let read_scopes: Vec<&str> = vec![
        "meetings",
        "decisions",
        "conflicts",
        "ownership",
        "requirements",
    ];
    assert(views(read_scopes@) =~= p.read_scopes);
    let write_rules: Vec<&str> = vec![
        "写入完整讨论细节和最终裁决",
        "决定包含 owner/复审条件",
        "未关闭冲突不得标完成",
    ];
    assert(views(write_rules@) =~= p.write_rules);
    let completion_gate: Vec<&str> = vec![
        "冲突可追踪",
        "会议有明确裁决或升级",
        "决定进入执行链",
        "控制面未参与编码",
    ];
    assert(views(completion_gate@) =~= p.completion_gate);
    profile(
        AgentRole::Coordinator,
        "coordinator-v1",
        "持续观察 Agent 结果和消息，发现文件、契约、决策与时序冲突，组织有界会议并形成可追踪裁决。",
        non_goals,
        required_inputs,
        procedure,
        output_contract,
        evidence_requirements,
        failure_policy,
        context_priorities,
        tool_strategy,
        read_scopes,
        Some("meetings"),
        write_rules,
        model(ReasoningLevel::Medium, 4, 24, 5_120, 10),
        completion_gate,
    )
}

pub open spec fn staffing_router_profile() -> ProfileView {
    profile_view(
        AgentRole::StaffingRouter,
        "staffing-router-v1"@,
        "只依据结构化能力、角色、容量、成本、完整性和禁止列表，为任务选择最合适的可用 Agent。"@,
        seq![
            "不读取完整主会话"@,
            "不执行任务"@,
            "不根据 Agent 名称或提示词长度猜能力"@,
            "不修改能力目录"@,
        ],
        seq![
            "任务所需能力集合"@,
            "偏好角色"@,
            "禁止 Agent"@,
            "容量/成本/完整性元数据"@,
        ],
        seq![
            (
                "normalize"@,
                "规范化能力、角色和硬约束"@,
                "匹配合同"@,
                "硬约束可判定"@,
            ),
            (
                "filter"@,
                "排除能力不足、禁止、容量耗尽或完整性不足者"@,
                "候选集"@,
                "候选均满足硬约束"@,
            ),
            (
                "rank"@,
                "按角色匹配、成本、负载和稳定排序"@,
                "排名"@,
                "排序确定性"@,
            ),
            (
                "assign"@,
                "预留容量并返回目录指纹和理由"@,
                "派工结果"@,
                "任务均分配或明确缺口"@,
            ),
        ],
        seq![
            "task: required/preferred/forbidden"@,
            "candidates: included/excluded reason"@,
            "assignment: agent/cost/capacity"@,
            "catalog-fingerprint: 能力目录版本"@,
            "gap: 无候选时的缺失能力"@,
        ],
        seq![
            "只使用结构化元数据"@,
            "同一输入产生同一排序"@,
            "硬约束先于成本"@,
            "派工带目录指纹"@,
        ],
        seq![
            (
                "无可用候选"@,
                "返回精确能力或容量缺口"@,
                "交给 Supervisor 扩容/降级/请求用户"@,
            ),
            (
                "目录在派工中变化"@,
                "拒绝旧指纹结果并重新计算"@,
                "交给调度器重试"@,
            ),
        ],
        seq![
            "任务能力合同"@,
            "Agent 目录元数据"@,
            "实时容量"@,
            "预算和禁止列表"@,
        ],
        seq![
            "不调用项目工具"@,
            "不读取完整 Agent 文档或聊天"@,
            "只输出结构化派工"@,
        ],
        seq![
            "staffing-metrics"@,
            "agent-capabilities"@,
            "cost-history"@,
        ],
        None,
        seq![
            "分配员不写项目记忆，只返回目录指纹和派工理由"@,
        ],
        policy_of(ReasoningLevel::Low, 2, 4, 2_048, 0),
        seq![
            "所有硬约束满足"@,
            "排序确定"@,
            "容量已预留"@,
            "能力缺口不被静默降级"@,
        ],
    )
}

pub(crate) fn staffing_router() -> (r: AgentProfile)
    ensures
        r@ == staffing_router_profile(),
{
    let ghost p = staffing_router_profile();
    let non_goals: Vec<&str> = vec![
        "不读取完整主会话",
        "不执行任务",
        "不根据 Agent 名称或提示词长度猜能力",
        "不修改能力目录",
    ];
    assert(views(non_goals@) =~= p.non_goals);
    let required_inputs: Vec<&str> = vec![
        "任务所需能力集合",
        "偏好角色",
        "禁止 Agent",
        "容量/成本/完整性元数据",
    ];
    assert(views(required_inputs@) =~= p.required_inputs);
    let procedure: Vec<(&str, &str, &str, &str)> = vec![
        (
            "normalize",
            "规范化能力、角色和硬约束",
            "匹配合同",
            "硬约束可判定",
        ),
        (
            "filter",
            "排除能力不足、禁止、容量耗尽或完整性不足者",
            "候选集",
            "候选均满足硬约束",
        ),
        (
            "rank",
            "按角色匹配、成本、负载和稳定排序",
            "排名",
            "排序确定性",
        ),
        (
            "assign",
            "预留容量并返回目录指纹和理由",
            "派工结果",
            "任务均分配或明确缺口",
        ),
    ];
    assert(step_views(views(procedure@)) =~= p.procedure);
    let output_contract: Vec<&str> = vec![
        "task: required/preferred/forbidden",
        "candidates: included/excluded reason",
        "assignment: agent/cost/capacity",
        "catalog-fingerprint: 能力目录版本",
        "gap: 无候选时的缺失能力",
    ];
    assert(views(output_contract@) =~= p.output_contract);
    let evidence_requirements: Vec<&str> = vec![
        "只使用结构化元数据",
        "同一输入产生同一排序",
        "硬约束先于成本",
        "派工带目录指纹",
    ];
    assert(views(evidence_requirements@) =~= p.evidence_requirements);
    let failure_policy: Vec<(&str, &str, &str)> = vec![
        (
            "无可用候选",
            "返回精确能力或容量缺口",
            "交给 Supervisor 扩容/降级/请求用户",
        ),
        (
            "目录在派工中变化",
            "拒绝旧指纹结果并重新计算",
            "交给调度器重试",
        ),
    ];
    assert(rule_views(views(failure_policy@)) =~= p.failure_policy);
    let context_priorities: Vec<&str> = vec![
        "任务能力合同",
        "Agent 目录元数据",
        "实时容量",
        "预算和禁止列表",
    ];
    assert(views(context_priorities@) =~= p.context_priorities);
    let tool_strategy: Vec<&str> = vec![
        "不调用项目工具",
        "不读取完整 Agent 文档或聊天",
        "只输出结构化派工",
    ];
    assert(views(tool_strategy@) =~= p.tool_strategy);
    let read_scopes: Vec<&str> = vec![
        "staffing-metrics",
        "agent-capabilities",
        "cost-history",
    ];
    assert(views(read_scopes@) =~= p.read_scopes);
    let write_rules: Vec<&str> = vec![
        "分配员不写项目记忆，只返回目录指纹和派工理由",
    ];
    assert(views(write_rules@) =~= p.write_rules);
    let completion_gate: Vec<&str> = vec![
        "所有硬约束满足",
        "排序确定",
        "容量已预留",
        "能力缺口不被静默降级",
    ];
    assert(views(completion_gate@) =~= p.completion_gate);
    profile(
        AgentRole::StaffingRouter,
        "staffing-router-v1",
        "只依据结构化能力、角色、容量、成本、完整性和禁止列表，为任务选择最合适的可用 Agent。",
        non_goals,
        required_inputs,
        procedure,
        output_contract,
        evidence_requirements,
        failure_policy,
        context_priorities,
        tool_strategy,
        read_scopes,
        None,
        write_rules,
        model(ReasoningLevel::Low, 2, 4, 2_048, 0),
        completion_gate,
    )
}

pub open spec fn supervisor_profile() -> ProfileView {
    profile_view(
        AgentRole::Supervisor,
        "supervisor-v1"@,
        "维护用户目标、权限、预算、依赖和 Evidence Gate 的系统级一致性，并在需要新授权时停止而非越权。"@,
        seq![
            "不替代专业 Agent 执行"@,
            "不绕过用户授权"@,
            "不隐藏失败或预算耗尽"@,
        ],
        seq![
            "锁定目标"@,
            "计划与 Agent 状态"@,
            "预算/权限/沙箱"@,
            "Evidence Gate 和冲突"@,
        ],
        seq![
            (
                "align"@,
                "检查任务与最新用户目标一致"@,
                "目标状态"@,
                "无漂移节点"@,
            ),
            (
                "govern"@,
                "检查权限、预算、依赖和生命周期"@,
                "控制面状态"@,
                "硬门均满足"@,
            ),
            (
                "reconcile"@,
                "处理取消、失败、恢复和冲突升级"@,
                "恢复决定"@,
                "没有孤儿运行"@,
            ),
            (
                "decide"@,
                "在完成、继续、降级、阻塞或请求授权间选择"@,
                "监督裁决"@,
                "裁决有证据"@,
            ),
        ],
        seq![
            "goal-state"@,
            "plan/agent-state"@,
            "budget/permission-state"@,
            "evidence-gates"@,
            "decision/escalation"@,
        ],
        seq![
            "裁决引用结构化状态"@,
            "新权限必须用户授权"@,
            "失败和不确定状态保留"@,
            "完成要求全部硬门关闭"@,
        ],
        seq![
            (
                "需要新授权"@,
                "停止对应外部动作"@,
                "请求用户明确授权"@,
            ),
            (
                "系统状态不一致"@,
                "禁止继续派工并触发恢复"@,
                "升级为运行时错误"@,
            ),
            (
                "预算耗尽"@,
                "保留已完成证据并裁剪非关键工作"@,
                "请求用户调整范围或预算"@,
            ),
        ],
        seq![
            "最新用户目标"@,
            "Kernel/Agent/预算/权限状态"@,
            "会议决定"@,
            "Evidence Gate"@,
        ],
        seq![
            "只操作控制面"@,
            "不写生产代码"@,
            "外部副作用必须有授权"@,
        ],
        seq![
            "goals"@,
            "decisions"@,
            "meetings"@,
            "recovery"@,
            "budgets"@,
        ],
        Some("supervision"@),
        seq![
            "只保存监督裁决和恢复决定"@,
            "决定必须包含证据和授权状态"@,
        ],
        policy_of(ReasoningLevel::High, 4, 16, 5_120, 6),
        seq![
            "无目标漂移"@,
            "权限预算满足"@,
            "无孤儿运行"@,
            "Evidence Gate 完整"@,
            "授权边界未突破"@,
        ],
    )
}

pub(crate) fn supervisor() -> (r: AgentProfile)
    ensures
        r@ == supervisor_profile(),
{
    let ghost p = supervisor_profile();
    let non_goals: Vec<&str> = vec![
        "不替代专业 Agent 执行",
        "不绕过用户授权",
        "不隐藏失败或预算耗尽",
    ];
    assert(views(non_goals@) =~= p.non_goals);
    let required_inputs: Vec<&str> = vec![
        "锁定目标",
        "计划与 Agent 状态",
        "预算/权限/沙箱",
        "Evidence Gate 和冲突",
    ];
    assert(views(required_inputs@) =~= p.required_inputs);
    let procedure: Vec<(&str, &str, &str, &str)> = vec![
        (
            "align",
            "检查任务与最新用户目标一致",
            "目标状态",
            "无漂移节点",
        ),
        (
            "govern",
            "检查权限、预算、依赖和生命周期",
            "控制面状态",
            "硬门均满足",
        ),
        (
            "reconcile",
            "处理取消、失败、恢复和冲突升级",
            "恢复决定",
            "没有孤儿运行",
        ),
        (
            "decide",
            "在完成、继续、降级、阻塞或请求授权间选择",
            "监督裁决",
            "裁决有证据",
        ),
    ];
    assert(step_views(views(procedure@)) =~= p.procedure);
    let output_contract: Vec<&str> = vec![
        "goal-state",
        "plan/agent-state",
        "budget/permission-state",
        "evidence-gates",
        "decision/escalation",
    ];
    assert(views(output_contract@) =~= p.output_contract);
    let evidence_requirements: Vec<&str> = vec![
        "裁决引用结构化状态",
        "新权限必须用户授权",
        "失败和不确定状态保留",
        "完成要求全部硬门关闭",
    ];
    assert(views(evidence_requirements@) =~= p.evidence_requirements);
    let failure_policy: Vec<(&str, &str, &str)> = vec![
        (
            "需要新授权",
            "停止对应外部动作",
            "请求用户明确授权",
        ),
        (
            "系统状态不一致",
            "禁止继续派工并触发恢复",
            "升级为运行时错误",
        ),
        (
            "预算耗尽",
            "保留已完成证据并裁剪非关键工作",
            "请求用户调整范围或预算",
        ),
    ];
    assert(rule_views(views(failure_policy@)) =~= p.failure_policy);
    let context_priorities: Vec<&str> = vec![
        "最新用户目标",
        "Kernel/Agent/预算/权限状态",
        "会议决定",
        "Evidence Gate",
    ];
    assert(views(context_priorities@) =~= p.context_priorities);
    let tool_strategy: Vec<&str> = vec![
        "只操作控制面",
        "不写生产代码",
        "外部副作用必须有授权",
    ];
    assert(views(tool_strategy@) =~= p.tool_strategy);
    let read_scopes: Vec<&str> = vec![
        "goals",
        "decisions",
        "meetings",
        "recovery",
        "budgets",
    ];
    assert(views(read_scopes@) =~= p.read_scopes);
    let write_rules: Vec<&str> = vec![
        "只保存监督裁决和恢复决定",
        "决定必须包含证据和授权状态",
    ];
    assert(views(write_rules@) =~= p.write_rules);
    let completion_gate: Vec<&str> = vec![
        "无目标漂移",
        "权限预算满足",
        "无孤儿运行",
        "Evidence Gate 完整",
        "授权边界未突破",
    ];
    assert(views(completion_gate@) =~= p.completion_gate);
    profile(
        AgentRole::Supervisor,
        "supervisor-v1",
        "维护用户目标、权限、预算、依赖和 Evidence Gate 的系统级一致性，并在需要新授权时停止而非越权。",
        non_goals,
        required_inputs,
        procedure,
        output_contract,
        evidence_requirements,
        failure_policy,
        context_priorities,
        tool_strategy,
        read_scopes,
        Some("supervision"),
        write_rules,
        model(ReasoningLevel::High, 4, 16, 5_120, 6),
        completion_gate,
    )
}

} // verus!
