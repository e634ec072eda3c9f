//! That the profiles of the roles that keep the others in order hold together.

use vstd::prelude::*;

use crate::profile::{is_filled, is_procedure, is_whole_rule, profile_outcome};
use crate::profile_laws::{lemma_said, lemma_sources};
use crate::profiles_control::{coordinator_profile, staffing_router_profile, supervisor_profile};
use crate::roles::AgentRole;
use crate::text::is_blank_text;

verus! {

#[verifier::rlimit(60)]
pub proof fn lemma_coordinator()
    ensures
        profile_outcome(coordinator_profile()) is Done,
{
    broadcast use lemma_said;

    let p = coordinator_profile();
    lemma_sources(AgentRole::Coordinator);
    assert(!is_blank_text(p.profile_id)) by {
        reveal_strlit("coordinator-v1");
    }
    assert(!is_blank_text(p.mission)) by {
        reveal_strlit("持续观察 Agent 结果和消息，发现文件、契约、决策与时序冲突，组织有界会议并形成可追踪裁决。");
    }
    assert(is_filled(p.non_goals)) by {
        reveal_strlit("不写代码");
        reveal_strlit("不替专业 Agent 做技术决定");
        reveal_strlit("不把讨论本身当作裁决");
    }
    assert(is_filled(p.required_inputs)) by {
        reveal_strlit("任务 DAG 和所有权");
        reveal_strlit("Agent 状态/结果/消息");
        reveal_strlit("需求与架构合同");
        reveal_strlit("既有会议和决定");
    }
    assert(is_filled(p.output_contract)) by {
        reveal_strlit("status: Agent/节点/依赖");
        reveal_strlit("conflicts: 类型/双方/影响");
        reveal_strlit("meeting: 议题/参与者/讨论");
        reveal_strlit("decision: 裁决/理由/owner");
        reveal_strlit("follow-up: 截止和关闭条件");
    }
    assert(is_filled(p.evidence_requirements)) by {
        reveal_strlit("冲突引用双方结果或文件");
        reveal_strlit("会议只邀请必要角色");
        reveal_strlit("决定与被否决方案同时记录");
        reveal_strlit("未达成一致明确升级");
    }
    assert(is_filled(p.context_priorities)) by {
        reveal_strlit("任务 DAG 与所有权");
        reveal_strlit("Agent 消息和结果尾部");
        reveal_strlit("需求/架构/会议决定");
        reveal_strlit("文件租约状态");
    }
    assert(is_filled(p.tool_strategy)) by {
        reveal_strlit("只使用消息、记忆和状态工具");
        reveal_strlit("禁止代码写入");
        reveal_strlit("会议记录结构化且有界");
    }
    assert(is_filled(p.read_scopes)) by {
        reveal_strlit("meetings");
        reveal_strlit("decisions");
        reveal_strlit("conflicts");
        reveal_strlit("ownership");
        reveal_strlit("requirements");
    }
    assert(is_filled(p.write_rules)) by {
        reveal_strlit("写入完整讨论细节和最终裁决");
        reveal_strlit("决定包含 owner/复审条件");
        reveal_strlit("未关闭冲突不得标完成");
    }
    assert(is_filled(p.completion_gate)) by {
        reveal_strlit("冲突可追踪");
        reveal_strlit("会议有明确裁决或升级");
        reveal_strlit("决定进入执行链");
        reveal_strlit("控制面未参与编码");
    }
    assert(is_procedure(p.procedure)) by {
        reveal_strlit("observe");
        reveal_strlit("消费结构化状态、消息和结果摘要");
        reveal_strlit("协作状态");
        reveal_strlit("活跃节点和依赖清晰");
        reveal_strlit("detect");
        reveal_strlit("识别文件、接口、假设、方案和时序冲突");
        reveal_strlit("冲突条目");
        reveal_strlit("冲突含双方证据");
        reveal_strlit("convene");
        reveal_strlit("邀请最小必要 Agent，提出明确议题和裁决标准");
        reveal_strlit("会议议程");
        reveal_strlit("参与者和问题有界");
        reveal_strlit("record");
        reveal_strlit("记录提案、异议、证据、决定、责任人和复审条件");
        reveal_strlit("会议纪要");
        reveal_strlit("决定可执行");
        reveal_strlit("follow");
        reveal_strlit("检查决定是否进入计划/实现并关闭冲突");
        reveal_strlit("闭环状态");
        reveal_strlit("无悬空决定");
        assert("observe"@.len() == 7);
        assert("detect"@.len() == 6);
        assert("convene"@.len() == 7);
        assert("record"@.len() == 6);
        assert("follow"@.len() == 6);
        assert("observe"@[0] == 'o');
        assert("convene"@[0] == 'c');
        assert("detect"@[0] == 'd');
        assert("record"@[0] == 'r');
        assert("follow"@[0] == 'f');
    }
    assert forall|i: int| 0 <= i < p.failure_policy.len() implies is_whole_rule(
        #[trigger] p.failure_policy[i],
    ) by {
        reveal_strlit("无法达成一致");
        reveal_strlit("总结共同事实和最小分歧");
        reveal_strlit("交给 Supervisor/用户裁决");
        reveal_strlit("Agent 无响应或失败");
        reveal_strlit("记录缺席影响并重排依赖");
        reveal_strlit("交给 Supervisor/调度器");
        reveal_strlit("决定违反锁定目标");
        reveal_strlit("拒绝关闭冲突");
        reveal_strlit("退回 RequirementsAnalyst");
    }
}

#[verifier::rlimit(60)]
pub proof fn lemma_staffing_router()
    ensures
        profile_outcome(staffing_router_profile()) is Done,
{
    broadcast use lemma_said;

    let p = staffing_router_profile();
    lemma_sources(AgentRole::StaffingRouter);
    assert(!is_blank_text(p.profile_id)) by {
        reveal_strlit("staffing-router-v1");
    }
    assert(!is_blank_text(p.mission)) by {
        reveal_strlit("只依据结构化能力、角色、容量、成本、完整性和禁止列表，为任务选择最合适的可用 Agent。");
    }
    assert(is_filled(p.non_goals)) by {
        reveal_strlit("不读取完整主会话");
        reveal_strlit("不执行任务");
        reveal_strlit("不根据 Agent 名称或提示词长度猜能力");
        reveal_strlit("不修改能力目录");
    }
    assert(is_filled(p.required_inputs)) by {
        reveal_strlit("任务所需能力集合");
        reveal_strlit("偏好角色");
        reveal_strlit("禁止 Agent");
        reveal_strlit("容量/成本/完整性元数据");
    }
    assert(is_filled(p.output_contract)) by {
        reveal_strlit("task: required/preferred/forbidden");
        reveal_strlit("candidates: included/excluded reason");
        reveal_strlit("assignment: agent/cost/capacity");
        reveal_strlit("catalog-fingerprint: 能力目录版本");
        reveal_strlit("gap: 无候选时的缺失能力");
    }
    assert(is_filled(p.evidence_requirements)) by {
        reveal_strlit("只使用结构化元数据");
        reveal_strlit("同一输入产生同一排序");
        reveal_strlit("硬约束先于成本");
        reveal_strlit("派工带目录指纹");
    }
    assert(is_filled(p.context_priorities)) by {
        reveal_strlit("任务能力合同");
        reveal_strlit("Agent 目录元数据");
        reveal_strlit("实时容量");
        reveal_strlit("预算和禁止列表");
    }
    assert(is_filled(p.tool_strategy)) by {
        reveal_strlit("不调用项目工具");
        reveal_strlit("不读取完整 Agent 文档或聊天");
        reveal_strlit("只输出结构化派工");
    }
    assert(is_filled(p.read_scopes)) by {
        reveal_strlit("staffing-metrics");
        reveal_strlit("agent-capabilities");
        reveal_strlit("cost-history");
    }
    assert(is_filled(p.write_rules)) by {
        reveal_strlit("分配员不写项目记忆，只返回目录指纹和派工理由");
    }
    assert(is_filled(p.completion_gate)) by {
        reveal_strlit("所有硬约束满足");
        reveal_strlit("排序确定");
        reveal_strlit("容量已预留");
        reveal_strlit("能力缺口不被静默降级");
    }
    assert(is_procedure(p.procedure)) by {
        reveal_strlit("normalize");
        reveal_strlit("规范化能力、角色和硬约束");
        reveal_strlit("匹配合同");
        reveal_strlit("硬约束可判定");
        reveal_strlit("filter");
        reveal_strlit("排除能力不足、禁止、容量耗尽或完整性不足者");
        reveal_strlit("候选集");
        reveal_strlit("候选均满足硬约束");
        reveal_strlit("rank");
        reveal_strlit("按角色匹配、成本、负载和稳定排序");
        reveal_strlit("排名");
        reveal_strlit("排序确定性");
        reveal_strlit("assign");
        reveal_strlit("预留容量并返回目录指纹和理由");
        reveal_strlit("派工结果");
        reveal_strlit("任务均分配或明确缺口");
        assert("normalize"@.len() == 9);
        assert("filter"@.len() == 6);
        assert("rank"@.len() == 4);
        assert("assign"@.len() == 6);
        assert("filter"@[0] == 'f');
        assert("assign"@[0] == 'a');
    }
    assert forall|i: int| 0 <= i < p.failure_policy.len() implies is_whole_rule(
        #[trigger] p.failure_policy[i],
    ) by {
        reveal_strlit("无可用候选");
        reveal_strlit("返回精确能力或容量缺口");
        reveal_strlit("交给 Supervisor 扩容/降级/请求用户");
        reveal_strlit("目录在派工中变化");
        reveal_strlit("拒绝旧指纹结果并重新计算");
        reveal_strlit("交给调度器重试");
    }
}

#[verifier::rlimit(60)]
pub proof fn lemma_supervisor()
    ensures
        profile_outcome(supervisor_profile()) is Done,
{
    broadcast use lemma_said;

    let p = supervisor_profile();
    lemma_sources(AgentRole::Supervisor);
    assert(!is_blank_text(p.profile_id)) by {
        reveal_strlit("supervisor-v1");
    }
    assert(!is_blank_text(p.mission)) by {
        reveal_strlit("维护用户目标、权限、预算、依赖和 Evidence Gate 的系统级一致性，并在需要新授权时停止而非越权。");
    }
    assert(is_filled(p.non_goals)) by {
        reveal_strlit("不替代专业 Agent 执行");
        reveal_strlit("不绕过用户授权");
        reveal_strlit("不隐藏失败或预算耗尽");
    }
    assert(is_filled(p.required_inputs)) by {
        reveal_strlit("锁定目标");
        reveal_strlit("计划与 Agent 状态");
        reveal_strlit("预算/权限/沙箱");
        reveal_strlit("Evidence Gate 和冲突");
    }
    assert(is_filled(p.output_contract)) by {
        reveal_strlit("goal-state");
        reveal_strlit("plan/agent-state");
        reveal_strlit("budget/permission-state");
        reveal_strlit("evidence-gates");
        reveal_strlit("decision/escalation");
    }
    assert(is_filled(p.evidence_requirements)) by {
        reveal_strlit("裁决引用结构化状态");
        reveal_strlit("新权限必须用户授权");
        reveal_strlit("失败和不确定状态保留");
        reveal_strlit("完成要求全部硬门关闭");
    }
    assert(is_filled(p.context_priorities)) by {
        reveal_strlit("最新用户目标");
        reveal_strlit("Kernel/Agent/预算/权限状态");
        reveal_strlit("会议决定");
        reveal_strlit("Evidence Gate");
    }
    assert(is_filled(p.tool_strategy)) by {
        reveal_strlit("只操作控制面");
        reveal_strlit("不写生产代码");
        reveal_strlit("外部副作用必须有授权");
    }
    assert(is_filled(p.read_scopes)) by {
        reveal_strlit("goals");
        reveal_strlit("decisions");
        reveal_strlit("meetings");
        reveal_strlit("recovery");
        reveal_strlit("budgets");
    }
    assert(is_filled(p.write_rules)) by {
        reveal_strlit("只保存监督裁决和恢复决定");
        reveal_strlit("决定必须包含证据和授权状态");
    }
    assert(is_filled(p.completion_gate)) by {
        reveal_strlit("无目标漂移");
        reveal_strlit("权限预算满足");
        reveal_strlit("无孤儿运行");
        reveal_strlit("Evidence Gate 完整");
        reveal_strlit("授权边界未突破");
    }
    assert(is_procedure(p.procedure)) by {
        reveal_strlit("align");
        reveal_strlit("检查任务与最新用户目标一致");
        reveal_strlit("目标状态");
        reveal_strlit("无漂移节点");
        reveal_strlit("govern");
        reveal_strlit("检查权限、预算、依赖和生命周期");
        reveal_strlit("控制面状态");
        reveal_strlit("硬门均满足");
        reveal_strlit("reconcile");
        reveal_strlit("处理取消、失败、恢复和冲突升级");
        reveal_strlit("恢复决定");
        reveal_strlit("没有孤儿运行");
        reveal_strlit("decide");
        reveal_strlit("在完成、继续、降级、阻塞或请求授权间选择");
        reveal_strlit("监督裁决");
        reveal_strlit("裁决有证据");
        assert("align"@.len() == 5);
        assert("govern"@.len() == 6);
        assert("reconcile"@.len() == 9);
        assert("decide"@.len() == 6);
        assert("govern"@[0] == 'g');
        assert("decide"@[0] == 'd');
    }
    assert forall|i: int| 0 <= i < p.failure_policy.len() implies is_whole_rule(
        #[trigger] p.failure_policy[i],
    ) by {
        reveal_strlit("需要新授权");
        reveal_strlit("停止对应外部动作");
        reveal_strlit("请求用户明确授权");
        reveal_strlit("系统状态不一致");
        reveal_strlit("禁止继续派工并触发恢复");
        reveal_strlit("升级为运行时错误");
        reveal_strlit("预算耗尽");
        reveal_strlit("保留已完成证据并裁剪非关键工作");
        reveal_strlit("请求用户调整范围或预算");
    }
}

} // verus!
