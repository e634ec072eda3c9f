//! That the profiles of the roles that build hold together.

use vstd::prelude::*;

use crate::profile::{is_filled, is_procedure, is_whole_rule, profile_outcome};
use crate::profile_laws::{lemma_said, lemma_sources};
use crate::profiles_build::{coder_profile, debugger_profile, merge_agent_profile, release_manager_profile};
use crate::roles::AgentRole;
use crate::text::is_blank_text;

verus! {

#[verifier::rlimit(60)]
pub proof fn lemma_coder()
    ensures
        profile_outcome(coder_profile()) is Done,
{
    broadcast use lemma_said;

    let p = coder_profile();
    lemma_sources(AgentRole::Coder);
    assert(!is_blank_text(p.profile_id)) by {
        reveal_strlit("coder-v1");
    }
    assert(!is_blank_text(p.mission)) by {
        reveal_strlit("在分配边界内完成最小、可验证、可回滚的实现，并提供真实工具和测试证据。");
    }
    assert(is_filled(p.non_goals)) by {
        reveal_strlit("不扩展任务范围");
        reveal_strlit("不修改未分配文件");
        reveal_strlit("不声称未运行测试通过");
        reveal_strlit("不绕过审批、沙箱或 File Lease");
    }
    assert(is_filled(p.required_inputs)) by {
        reveal_strlit("节点目标与验收标准");
        reveal_strlit("架构/接口合同");
        reveal_strlit("文件所有权");
        reveal_strlit("依赖节点产物");
        reveal_strlit("项目编码与安全约束");
    }
    assert(is_filled(p.output_contract)) by {
        reveal_strlit("changes: 文件和行为变化");
        reveal_strlit("contract: 满足的接口/验收");
        reveal_strlit("verification: 命令与实际结果");
        reveal_strlit("risks: 未覆盖和兼容风险");
        reveal_strlit("rollback: 可恢复步骤");
    }
    assert(is_filled(p.evidence_requirements)) by {
        reveal_strlit("每个改动对应验收或必要重构理由");
        reveal_strlit("测试输出来自真实工具调用");
        reveal_strlit("新增错误路径有处理");
        reveal_strlit("变更文件在所有权范围内");
    }
    assert(is_filled(p.context_priorities)) by {
        reveal_strlit("节点合同和验收");
        reveal_strlit("目标文件及直接调用方");
        reveal_strlit("邻近测试和构建配置");
        reveal_strlit("架构决定与已知坑点");
    }
    assert(is_filled(p.tool_strategy)) by {
        reveal_strlit("先读后写");
        reveal_strlit("写入必须绑定 File Lease");
        reveal_strlit("命令必须有验证目的");
        reveal_strlit("优先补丁和可回滚变更");
    }
    assert(is_filled(p.read_scopes)) by {
        reveal_strlit("requirements");
        reveal_strlit("architecture");
        reveal_strlit("decisions");
        reveal_strlit("pitfalls");
        reveal_strlit("coding-conventions");
    }
    assert(is_filled(p.write_rules)) by {
        reveal_strlit("只保存可复用坑点、契约和验证结论");
        reveal_strlit("不保存临时代码片段或未确认猜测");
    }
    assert(is_filled(p.completion_gate)) by {
        reveal_strlit("验收需求已实现");
        reveal_strlit("目标测试真实通过或失败已披露");
        reveal_strlit("无越权文件修改");
        reveal_strlit("diff 自审完成");
        reveal_strlit("回滚方法明确");
    }
    assert(is_procedure(p.procedure)) by {
        reveal_strlit("inspect");
        reveal_strlit("读取目标文件、邻近测试和调用方，确认最小改动面");
        reveal_strlit("实现前检查");
        reveal_strlit("影响面和入口已确认");
        reveal_strlit("implement");
        reveal_strlit("按合同实施小步修改，每步保持可编译或可解释");
        reveal_strlit("补丁");
        reveal_strlit("验收需求已实现且无越界");
        reveal_strlit("verify");
        reveal_strlit("运行最小充分的格式、静态检查和目标测试");
        reveal_strlit("验证证据");
        reveal_strlit("实际结果已记录");
        reveal_strlit("review-self");
        reveal_strlit("检查 diff、错误路径、兼容性和非目标变更");
        reveal_strlit("自审清单");
        reveal_strlit("无意外修改和未披露风险");
        reveal_strlit("handoff");
        reveal_strlit("返回文件、行为变化、测试、限制和回滚方法");
        reveal_strlit("实现交接");
        reveal_strlit("审查员可独立复核");
        assert("inspect"@.len() == 7);
        assert("implement"@.len() == 9);
        assert("verify"@.len() == 6);
        assert("review-self"@.len() == 11);
        assert("handoff"@.len() == 7);
        assert("inspect"@[0] == 'i');
        assert("handoff"@[0] == 'h');
    }
    assert forall|i: int| 0 <= i < p.failure_policy.len() implies is_whole_rule(
        #[trigger] p.failure_policy[i],
    ) by {
        reveal_strlit("依赖或需求不明确");
        reveal_strlit("停止编码并提出具体阻塞证据");
        reveal_strlit("回到 Planner/Architect/Requirements");
        reveal_strlit("测试失败");
        reveal_strlit("保留失败输出，区分本次回归与既有失败");
        reveal_strlit("交给 Debugger 或 Tester");
        reveal_strlit("文件租约冲突");
        reveal_strlit("不重试覆盖，提交冲突文件和预期修改");
        reveal_strlit("交给 Coordinator/MergeAgent");
        reveal_strlit("需要扩大范围");
        reveal_strlit("列出新增文件、原因和风险");
        reveal_strlit("请求 Supervisor 扩权");
    }
}

#[verifier::rlimit(60)]
pub proof fn lemma_debugger()
    ensures
        profile_outcome(debugger_profile()) is Done,
{
    broadcast use lemma_said;

    let p = debugger_profile();
    lemma_sources(AgentRole::Debugger);
    assert(!is_blank_text(p.profile_id)) by {
        reveal_strlit("debugger-v1");
    }
    assert(!is_blank_text(p.mission)) by {
        reveal_strlit("建立稳定复现，维护互斥假设，用最小实验排除错误解释并给出从触发到根因的证据链。");
    }
    assert(is_filled(p.non_goals)) by {
        reveal_strlit("不凭症状直接改代码");
        reveal_strlit("不同时改变多个变量");
        reveal_strlit("不把无法复现等同不存在");
    }
    assert(is_filled(p.required_inputs)) by {
        reveal_strlit("失败现象和期望行为");
        reveal_strlit("环境/版本/输入");
        reveal_strlit("日志/堆栈/测试");
        reveal_strlit("最近变更");
    }
    assert(is_filled(p.output_contract)) by {
        reveal_strlit("reproduction: 环境/步骤/频率");
        reveal_strlit("hypotheses: prediction/evidence/status");
        reveal_strlit("experiments: 单变量结果");
        reveal_strlit("root-cause-chain: trigger -> state -> propagation -> symptom");
        reveal_strlit("fix-contract: 修改点/回归测试");
    }
    assert(is_filled(p.evidence_requirements)) by {
        reveal_strlit("复现命令和输入完整");
        reveal_strlit("每次实验对应一个假设");
        reveal_strlit("根因区别于近因和症状");
        reveal_strlit("无法验证部分明确标注");
    }
    assert(is_filled(p.context_priorities)) by {
        reveal_strlit("原始错误证据");
        reveal_strlit("最近变更与调用链");
        reveal_strlit("历史相似故障");
        reveal_strlit("运行环境和配置");
    }
    assert(is_filled(p.tool_strategy)) by {
        reveal_strlit("先复现后实验");
        reveal_strlit("命令有明确假设");
        reveal_strlit("生产数据保持只读");
        reveal_strlit("诊断输出有界");
    }
    assert(is_filled(p.read_scopes)) by {
        reveal_strlit("incidents");
        reveal_strlit("regressions");
        reveal_strlit("pitfalls");
        reveal_strlit("architecture");
        reveal_strlit("environment");
    }
    assert(is_filled(p.write_rules)) by {
        reveal_strlit("复现合同稳定");
        reveal_strlit("互斥假设已检验");
        reveal_strlit("根因链有证据");
        reveal_strlit("修复和回归测试明确");
    }
    assert(is_filled(p.completion_gate)) by {
        reveal_strlit("复现合同稳定");
        reveal_strlit("互斥假设得到实验裁决");
        reveal_strlit("根因链逐段有证据");
        reveal_strlit("最小修复与回归测试可执行");
    }
    assert(is_procedure(p.procedure)) by {
        reveal_strlit("reproduce");
        reveal_strlit("最小化输入、环境和步骤并确认稳定性");
        reveal_strlit("复现合同");
        reveal_strlit("现象可重复或概率已量化");
        reveal_strlit("hypotheses");
        reveal_strlit("列出互斥假设及各自可证伪预测");
        reveal_strlit("假设表");
        reveal_strlit("假设覆盖主因类别");
        reveal_strlit("experiments");
        reveal_strlit("按信息增益运行单变量实验");
        reveal_strlit("实验日志");
        reveal_strlit("至少一个假设被排除/确认");
        reveal_strlit("root-cause");
        reveal_strlit("连接触发条件、错误状态、传播路径和可见症状");
        reveal_strlit("根因链");
        reveal_strlit("链条每段有证据");
        reveal_strlit("fix-contract");
        reveal_strlit("提出最小修复、回归测试和观测点");
        reveal_strlit("修复建议");
        reveal_strlit("Coder 可执行且 Tester 可验证");
        assert("reproduce"@.len() == 9);
        assert("hypotheses"@.len() == 10);
        assert("experiments"@.len() == 11);
        assert("root-cause"@.len() == 10);
        assert("fix-contract"@.len() == 12);
        assert("hypotheses"@[0] == 'h');
        assert("root-cause"@[0] == 'r');
    }
    assert forall|i: int| 0 <= i < p.failure_policy.len() implies is_whole_rule(
        #[trigger] p.failure_policy[i],
    ) by {
        reveal_strlit("无法复现");
        reveal_strlit("收集更多观测点并比较环境差异");
        reveal_strlit("请求用户/系统提供原始环境");
        reveal_strlit("实验具有破坏性");
        reveal_strlit("改用只读或隔离等价实验");
        reveal_strlit("请求 Supervisor 授权");
        reveal_strlit("根因跨边界");
        reveal_strlit("拆分子假设和责任组件");
        reveal_strlit("交给 Explorer/Architect/外部 owner");
    }
}

#[verifier::rlimit(60)]
pub proof fn lemma_merge_agent()
    ensures
        profile_outcome(merge_agent_profile()) is Done,
{
    broadcast use lemma_said;

    let p = merge_agent_profile();
    lemma_sources(AgentRole::MergeAgent);
    assert(!is_blank_text(p.profile_id)) by {
        reveal_strlit("merge-v1");
    }
    assert(!is_blank_text(p.mission)) by {
        reveal_strlit("依据已接受合同和会议决定合并并行变更，显式解决语义/文件冲突且不静默丢失任何一方需求。");
    }
    assert(is_filled(p.non_goals)) by {
        reveal_strlit("不重新设计未授权架构");
        reveal_strlit("不以最后写入者覆盖冲突");
        reveal_strlit("不合并未通过证据门的变更");
    }
    assert(is_filled(p.required_inputs)) by {
        reveal_strlit("各分支补丁和验证");
        reveal_strlit("共同需求/架构合同");
        reveal_strlit("文件租约与冲突记录");
        reveal_strlit("Coordinator 会议决定");
    }
    assert(is_filled(p.output_contract)) by {
        reveal_strlit("inputs: 分支/补丁/证据");
        reveal_strlit("conflicts: 类型/位置/双方意图");
        reveal_strlit("resolutions: 决定/实现");
        reveal_strlit("verification: 命令和结果");
        reveal_strlit("discarded: 被舍弃内容及理由");
    }
    assert(is_filled(p.evidence_requirements)) by {
        reveal_strlit("每个冲突引用双方证据");
        reveal_strlit("会议决定优先级明确");
        reveal_strlit("合并 diff 保持最小");
        reveal_strlit("测试覆盖冲突区域");
    }
    assert(is_filled(p.context_priorities)) by {
        reveal_strlit("已接受合同/ADR");
        reveal_strlit("各分支 diff 和测试");
        reveal_strlit("会议记录");
        reveal_strlit("历史合并坑点");
    }
    assert(is_filled(p.tool_strategy)) by {
        reveal_strlit("写入必须持有租约");
        reveal_strlit("先分类再修改");
        reveal_strlit("禁止整文件覆盖");
        reveal_strlit("合并后强制验证");
    }
    assert(is_filled(p.read_scopes)) by {
        reveal_strlit("architecture");
        reveal_strlit("decisions");
        reveal_strlit("meetings");
        reveal_strlit("merge-history");
        reveal_strlit("pitfalls");
    }
    assert(is_filled(p.write_rules)) by {
        reveal_strlit("所有输入分支可追踪");
        reveal_strlit("冲突均有裁决");
        reveal_strlit("有效需求未丢失");
        reveal_strlit("合并测试通过或阻塞明确");
    }
    assert(is_filled(p.completion_gate)) by {
        reveal_strlit("全部输入分支可追踪");
        reveal_strlit("每个冲突都有裁决");
        reveal_strlit("有效需求未被静默丢弃");
        reveal_strlit("合并后验证通过或阻塞明确");
    }
    assert(is_procedure(p.procedure)) by {
        reveal_strlit("inventory");
        reveal_strlit("列出补丁、文件、符号、行为和证据");
        reveal_strlit("合并清单");
        reveal_strlit("所有输入分支可追踪");
        reveal_strlit("classify");
        reveal_strlit("区分文本、语义、契约、测试和迁移冲突");
        reveal_strlit("冲突图");
        reveal_strlit("冲突无遗漏");
        reveal_strlit("resolve");
        reveal_strlit("按合同/会议决定实施最小合并");
        reveal_strlit("合并补丁");
        reveal_strlit("双方有效需求保留");
        reveal_strlit("verify");
        reveal_strlit("运行受影响测试并比较合并前后行为");
        reveal_strlit("合并证据");
        reveal_strlit("无新回归");
        reveal_strlit("trace");
        reveal_strlit("记录每个冲突的裁决和被舍弃内容");
        reveal_strlit("合并记录");
        reveal_strlit("审查员可审计");
        assert("inventory"@.len() == 9);
        assert("classify"@.len() == 8);
        assert("resolve"@.len() == 7);
        assert("verify"@.len() == 6);
        assert("trace"@.len() == 5);
    }
    assert forall|i: int| 0 <= i < p.failure_policy.len() implies is_whole_rule(
        #[trigger] p.failure_policy[i],
    ) by {
        reveal_strlit("缺少裁决");
        reveal_strlit("停止合并冲突部分，保留可独立合并部分");
        reveal_strlit("交给 Coordinator 发起会议");
        reveal_strlit("合同本身冲突");
        reveal_strlit("不擅自选择实现");
        reveal_strlit("退回 Architect/Requirements");
        reveal_strlit("合并后测试失败");
        reveal_strlit("保留失败和二分信息");
        reveal_strlit("交给 Debugger");
    }
}

#[verifier::rlimit(60)]
pub proof fn lemma_release_manager()
    ensures
        profile_outcome(release_manager_profile()) is Done,
{
    broadcast use lemma_said;

    let p = release_manager_profile();
    lemma_sources(AgentRole::ReleaseManager);
    assert(!is_blank_text(p.profile_id)) by {
        reveal_strlit("release-v1");
    }
    assert(!is_blank_text(p.mission)) by {
        reveal_strlit("在不执行未授权发布的前提下验证版本、测试、产物、校验和、兼容性、回滚和外部前置条件。");
    }
    assert(is_filled(p.non_goals)) by {
        reveal_strlit("未经授权不推送或发布");
        reveal_strlit("不把构建成功等同发布就绪");
        reveal_strlit("不修改功能实现");
    }
    assert(is_filled(p.required_inputs)) by {
        reveal_strlit("版本和变更范围");
        reveal_strlit("全部 Evidence Gate 结果");
        reveal_strlit("构建/打包配置");
        reveal_strlit("平台和回滚要求");
    }
    assert(is_filled(p.output_contract)) by {
        reveal_strlit("version: 各清单一致性");
        reveal_strlit("gates: 测试/审查/安全/性能");
        reveal_strlit("artifacts: 平台/大小/hash");
        reveal_strlit("install-rollback: smoke 结果");
        reveal_strlit("authorization: 已有/缺失");
        reveal_strlit("conclusion: ready/blocked");
    }
    assert(is_filled(p.evidence_requirements)) by {
        reveal_strlit("校验和来自最终产物");
        reveal_strlit("平台缺失不得宣称全平台");
        reveal_strlit("发布权限单独列出");
        reveal_strlit("回滚实际验证或明确未验证");
    }
    assert(is_filled(p.context_priorities)) by {
        reveal_strlit("发布目标和版本策略");
        reveal_strlit("全部 Evidence Gate");
        reveal_strlit("构建配置和锁文件");
        reveal_strlit("历史安装/回滚坑点");
    }
    assert(is_filled(p.tool_strategy)) by {
        reveal_strlit("只读检查加受控构建");
        reveal_strlit("外部写操作必须独立授权");
        reveal_strlit("不得覆盖既有产物");
    }
    assert(is_filled(p.read_scopes)) by {
        reveal_strlit("release-policy");
        reveal_strlit("artifacts");
        reveal_strlit("compatibility");
        reveal_strlit("rollback");
        reveal_strlit("pitfalls");
    }
    assert(is_filled(p.write_rules)) by {
        reveal_strlit("版本完全一致");
        reveal_strlit("所有必需门通过");
        reveal_strlit("产物 hash 完整");
        reveal_strlit("安装回滚可用");
        reveal_strlit("授权状态明确");
    }
    assert(is_filled(p.completion_gate)) by {
        reveal_strlit("版本和变更范围一致");
        reveal_strlit("所有必需 Evidence Gate 通过");
        reveal_strlit("最终产物与校验和完整");
        reveal_strlit("安装、回滚和授权状态明确");
    }
    assert(is_procedure(p.procedure)) by {
        reveal_strlit("scope");
        reveal_strlit("核对版本、标签计划、变更和兼容声明");
        reveal_strlit("发布范围");
        reveal_strlit("版本语义一致");
        reveal_strlit("evidence");
        reveal_strlit("汇总测试、审查、安全和性能门");
        reveal_strlit("证据清单");
        reveal_strlit("阻塞门为零");
        reveal_strlit("artifacts");
        reveal_strlit("构建并核验平台产物、清单和校验和");
        reveal_strlit("产物清单");
        reveal_strlit("产物可复现且一致");
        reveal_strlit("rollback");
        reveal_strlit("验证安装、升级、回滚和数据兼容");
        reveal_strlit("回滚证据");
        reveal_strlit("失败路径可恢复");
        reveal_strlit("authorize");
        reveal_strlit("区分准备完成与外部发布授权");
        reveal_strlit("发布裁决");
        reveal_strlit("外部动作有明确授权");
        assert("scope"@.len() == 5);
        assert("evidence"@.len() == 8);
        assert("artifacts"@.len() == 9);
        assert("rollback"@.len() == 8);
        assert("authorize"@.len() == 9);
        assert("evidence"@[0] == 'e');
        assert("rollback"@[0] == 'r');
        assert("artifacts"@[1] == 'r');
        assert("authorize"@[1] == 'u');
    }
    assert forall|i: int| 0 <= i < p.failure_policy.len() implies is_whole_rule(
        #[trigger] p.failure_policy[i],
    ) by {
        reveal_strlit("证据门缺失");
        reveal_strlit("停止发布准备并列出缺口");
        reveal_strlit("退回相应 Review/Tester");
        reveal_strlit("外部授权缺失");
        reveal_strlit("保持产物本地，不创建 tag/release");
        reveal_strlit("请求用户明确授权");
        reveal_strlit("产物与源码版本不一致");
        reveal_strlit("拒绝发布并重新构建");
        reveal_strlit("交给 Coder/Build owner");
    }
}

} // verus!
