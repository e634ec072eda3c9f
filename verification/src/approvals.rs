//! Approvals: what is done when the user allows a call or refuses it.

use vstd::prelude::*;
use vstd::string::*;

use crate::application::{
    AppView, HarnessApplication, InvocationView, PendingParallelToolContinuation,
    PendingParallelView, PreparedAgentTeam, PreparedView, ToolInvocation, ToolInvocationStatus,
    ToolOrigin, ToolStatusView,
};
use crate::budget::BudgetEscrowStatus;
use crate::cancellation::has_run;
use crate::error::{failure, outcome, unit_outcome, ApplicationError, Outcome};
use crate::execution::{AgentExecutionRequest, RequestView};
use crate::json::{Json, JsonView};
use crate::mission::{
    ApprovalDecision, ClaimedEffect, ClaimedEffectView, CommandView, MissionCommand, MissionState,
    MissionView,
};
use crate::model::{group_views, option_view};
use crate::runs::{finish_run_step, set_status_step};
use crate::state_store::AgentSessionStatus;
use crate::steering::take_steering;
use crate::tool_calls::{
    append_parallel_tool_result, with_result, ConfidentialityLabel, IntegrityLabel, InvokeView,
    ParallelCalls, ParallelCallsView, ToolInvokeRequest,
};
use crate::waves::{empty_team, enlisted, mustered};

verus! {

/// What waits for a call: the conversation of the main agent, or an agent of a team.
pub struct Waiters {
    pub model: bool,
    pub parallel: bool,
}

/// Who waits for a call that is to be approved. The call of an agent for which nothing waits is
/// not approved: it would be made without anybody who takes its result.
pub open spec fn waiters(s: AppView, invocation: Option<InvocationView>, id: Seq<char>) -> Outcome<
    Waiters,
> {
    if !s.tools_ready {
        failure("tool-runtime-missing"@, "Tool Runtime 尚未注入"@)
    } else {
        match invocation {
            None => failure("tool-invocation-not-found"@, id),
            Some(invocation) => {
                let model = s.pending_model.contains_key(id);
                let parallel = s.pending_parallel.contains_key(id);
                if invocation.origin is Agent && !model && !parallel {
                    failure(
                        "model-continuation-unavailable"@,
                        "Agent Tool 的模型 continuation 已因重启丢失；为避免重复副作用，请 /deny 后重新提交任务"@,
                    )
                } else {
                    Outcome::Done(Waiters { model, parallel })
                }
            },
        }
    }
}

/// What is done once an approved call was made.
#[derive(Clone, Copy, Debug, PartialEq, Eq, Structural)]
pub enum ApprovedCourse {
    /// An agent of a team goes on.
    Parallel,
    /// The main agent goes on.
    Main,
    /// Nothing waits, or the call is not completed.
    Nothing,
}

pub open spec fn approved_course(w: Waiters, status: ToolStatusView) -> ApprovedCourse {
    if !(status is Completed) {
        ApprovedCourse::Nothing
    } else if w.parallel {
        ApprovedCourse::Parallel
    } else if w.model {
        ApprovedCourse::Main
    } else {
        ApprovedCourse::Nothing
    }
}

pub fn course_after_approval(waiters: &Waiters, status: &ToolInvocationStatus) -> (r: ApprovedCourse)
    ensures
        r == approved_course(*waiters, status@),
{
    match status {
        ToolInvocationStatus::Completed => if waiters.parallel {
            ApprovedCourse::Parallel
        } else if waiters.model {
            ApprovedCourse::Main
        } else {
            ApprovedCourse::Nothing
        },
        _ => ApprovedCourse::Nothing,
    }
}

pub open spec fn resolve(request_id: Seq<char>, decision: ApprovalDecision) -> CommandView {
    CommandView::ResolveApproval { approval_id: request_id, decision }
}

/// The agent of a team that waited goes on: its mission is the active one, and its approval is
/// resolved.
pub open spec fn resume_parallel_step(s: AppView, invocation: InvocationView) -> (
    AppView,
    Outcome<(PendingParallelView, CommandView)>,
) {
    let pending = s.pending_parallel[invocation.id];
    let s1 = AppView { pending_parallel: s.pending_parallel.remove(invocation.id), ..s };
    match invocation.approval_request_id {
        None => (s1, failure("tool-approval-id-missing"@, invocation.id)),
        Some(request_id) => (
            AppView { active_mission_id: Some(pending.request.contract.mission_id), ..s1 },
            Outcome::Done((pending, resolve(request_id, ApprovalDecision::Allow))),
        ),
    }
}

/// The main agent goes on.
pub open spec fn resume_main_step(s: AppView, invocation: InvocationView) -> (
    AppView,
    Outcome<CommandView>,
) {
    match invocation.approval_request_id {
        None => (s, failure("tool-approval-id-missing"@, invocation.id)),
        Some(request_id) => (
            AppView { active_mission_id: Some(invocation.mission_id), ..s },
            Outcome::Done(resolve(request_id, ApprovalDecision::Allow)),
        ),
    }
}

/// The calls that are left once the result of the approved call was taken.
pub open spec fn resumed(pending: PendingParallelView, invocation: InvocationView) -> Outcome<
    ParallelCallsView,
> {
    match invocation.result {
        None => failure("tool-result-missing"@, invocation.tool_name),
        Some(output) => Outcome::Done(
            ParallelCallsView {
                request: pending.request,
                continuation: with_result(
                    pending.waiting.continuation,
                    pending.waiting.waiting_call,
                    output,
                ),
                calls: pending.waiting.remaining_calls,
                next: 0,
            },
        ),
    }
}

/// Takes the result of the approved call into the conversation of the agent that waited for it.
pub fn resume_calls(pending: PendingParallelToolContinuation, invocation: &ToolInvocation) -> (r:
    Result<ParallelCalls, ApplicationError>)
    ensures
        outcome(r) == resumed(pending@, invocation@),
{
    match &invocation.result {
        None => Err(
            ApplicationError::new("tool-result-missing", invocation.tool_name.as_str()),
        ),
        Some(output) => {
            let mut waiting = pending.waiting;
            append_parallel_tool_result(&mut waiting.continuation, &waiting.waiting_call, output);
            Ok(ParallelCalls::of_waiting(pending.request, waiting))
        },
    }
}

/// A team of one agent that goes on, with what was said to its mission meanwhile.
pub open spec fn resume_job_step(
    s: AppView,
    request: RequestView,
    claimed: ClaimedEffectView,
    prompt: Seq<char>,
    token: Seq<char>,
    now: i64,
) -> (AppView, Outcome<PreparedView>) {
    let (s1, said) = take_steering(s, request.contract.mission_id, token, now);
    match said {
        Outcome::Failed(e) => (s1, Outcome::Failed(e)),
        Outcome::Done(instructions) => {
            let steered = RequestView {
                steering_messages: request.steering_messages + instructions,
                ..request
            };
            if !s1.model_ready {
                (
                    s1,
                    failure("model-runtime-missing"@, "Tool continuation 需要 Model Runtime"@),
                )
            } else if !has_run(s1.run_controls, request.contract.run_id) {
                (s1, failure("run-control-missing"@, request.contract.run_id))
            } else {
                (
                    s1,
                    mustered(
                        enlisted(
                            empty_team(request.contract.mission_id, prompt),
                            steered,
                            claimed,
                        ),
                        1,
                        now,
                    ),
                )
            }
        },
    }
}

/// What is done when a call is refused.
pub struct Denied {
    /// Resolves the approval, if somebody waits for it.
    pub command: Option<MissionCommand>,
    /// The agent and the run of a team that waited.
    pub waiting: Option<(String, String)>,
}

pub struct DeniedView {
    pub command: Option<CommandView>,
    pub waiting: Option<(Seq<char>, Seq<char>)>,
}

impl View for Denied {
    type V = DeniedView;

    open spec fn view(&self) -> DeniedView {
        DeniedView {
            command: option_view(self.command),
            waiting: match self.waiting {
                Some((agent, run)) => Some((agent@, run@)),
                None => None,
            },
        }
    }
}

/// Refusing a call: nothing waits for it any more, and the approval is resolved if it was asked for.
pub open spec fn deny_step(
    s: AppView,
    invocation: InvocationView,
    mission: Option<MissionView>,
) -> (AppView, Outcome<DeniedView>) {
    let s1 = AppView {
        pending_model: s.pending_model.remove(invocation.id),
        pending_parallel: s.pending_parallel.remove(invocation.id),
        ..s
    };
    match invocation.approval_request_id {
        None => (s1, failure("tool-approval-id-missing"@, invocation.id)),
        Some(request_id) => {
            let asked = match mission {
                Some(m) => m.pending_approvals.contains(request_id),
                None => false,
            };
            let parallel = s.pending_parallel.contains_key(invocation.id);
            (
                s1,
                Outcome::Done(
                    DeniedView {
                        command: if s.pending_model.contains_key(invocation.id) || parallel
                            || asked {
                            Some(resolve(request_id, ApprovalDecision::Deny))
                        } else {
                            None
                        },
                        waiting: if parallel {
                            let contract = s.pending_parallel[invocation.id].request.contract;
                            Some((contract.agent_definition_id, contract.run_id))
                        } else {
                            None
                        },
                    },
                ),
            )
        },
    }
}

/// The run of an agent whose call was refused is over.
pub open spec fn denied_run_step(s: AppView, agent: Seq<char>, run: Seq<char>, now: i64) -> (
    AppView,
    Outcome<()>,
) {
    let (s1, r1) = set_status_step(s, run, AgentSessionStatus::Failed, now);
    match r1 {
        Outcome::Failed(e) => (s1, Outcome::Failed(e)),
        Outcome::Done(_) => finish_run_step(s1, agent, run, BudgetEscrowStatus::Failed, now),
    }
}

/// After a call was refused nothing waits for it any more.
pub proof fn law_nothing_waits_for_a_refused_call(
    s: AppView,
    invocation: InvocationView,
    mission: Option<MissionView>,
)
    ensures
        ({
            let after = deny_step(s, invocation, mission).0;
            !after.pending_model.contains_key(invocation.id)
                && !after.pending_parallel.contains_key(invocation.id)
        }),
{
}

/// The call of an agent is approved only if somebody waits for its result, so that its effect is
/// not repeated.
pub proof fn law_agent_calls_need_a_waiter(s: AppView, invocation: InvocationView, id: Seq<char>)
    requires
        invocation.origin is Agent,
        waiters(s, Some(invocation), id) is Done,
    ensures
        s.pending_model.contains_key(id) || s.pending_parallel.contains_key(id),
{
}

/// An approved call is taken up once: it is no longer waited for afterwards.
pub proof fn law_an_approval_is_used_once(s: AppView, invocation: InvocationView)
    ensures
        !resume_parallel_step(s, invocation).0.pending_parallel.contains_key(invocation.id),
{
}

/// The mission that a user's call belongs to when none is active.
pub open spec fn terminal_mission(s: AppView) -> Seq<char> {
    match s.active_mission_id {
        Some(id) => id,
        None => "mission:terminal"@,
    }
}

pub open spec fn terminal_invocation(
    s: AppView,
    tool: Seq<char>,
    args: JsonView,
    invocation_id: Seq<char>,
    approval_request_id: Seq<char>,
    idempotency_key: Seq<char>,
    now: i64,
) -> Outcome<InvokeView> {
    if !s.tools_ready {
        failure("tool-runtime-missing"@, "Tool Runtime 尚未注入"@)
    } else {
        Outcome::Done(
            InvokeView {
                invocation_id,
                approval_request_id,
                idempotency_key,
                project_id: s.project_id,
                mission_id: terminal_mission(s),
                run_id: Some("run:terminal"@),
                actor_id: "user:terminal"@,
                origin: ToolOrigin::User,
                integrity: IntegrityLabel::Trusted,
                confidentiality: ConfidentialityLabel::ProjectPrivate,
                tool_name: tool,
                args,
                now_millis: now,
            },
        )
    }
}

impl HarnessApplication {
    /// Checks that a call can be approved. Gives who waits for it.
    pub fn approve_tool(&self, invocation: &Option<ToolInvocation>, invocation_id: &str) -> (r:
        Result<Waiters, ApplicationError>)
        ensures
            match r {
                Ok(w) => waiters(self@, option_view(*invocation), invocation_id@) == Outcome::Done(
                    w,
                ),
                Err(e) => waiters(self@, option_view(*invocation), invocation_id@) == Outcome::<
                    Waiters,
                >::Failed(e@),
            },
    {
        if !self.tools_ready {
            return Err(ApplicationError::new("tool-runtime-missing", "Tool Runtime 尚未注入"));
        }
        match invocation {
            None => Err(ApplicationError::new("tool-invocation-not-found", invocation_id)),
            Some(invocation) => {
                let model = self.pending_model_continuations.contains_key(invocation_id);
                let parallel = self.pending_parallel_tool_continuations.contains_key(
                    invocation_id,
                );
                if invocation.origin == ToolOrigin::Agent && !model && !parallel {
                    return Err(
                        ApplicationError::new(
                            "model-continuation-unavailable",
                            "Agent Tool 的模型 continuation 已因重启丢失；为避免重复副作用，请 /deny 后重新提交任务",
                        ),
                    );
                }
                Ok(Waiters { model, parallel })
            },
        }
    }

    /// Lets the agent of a team go on that waited for a call. Gives what it needs, and the command
    /// that resolves the approval.
    pub fn resume_parallel(&mut self, invocation: &ToolInvocation) -> (r: Result<
        (PendingParallelToolContinuation, MissionCommand),
        ApplicationError,
    >)
        requires
            old(self)@.pending_parallel.contains_key(invocation@.id),
        ensures
            ({
                let (after, done) = resume_parallel_step(old(self)@, invocation@);
                final(self)@ == after && match r {
                    Ok((pending, command)) => done == Outcome::Done((pending@, command@)),
                    Err(e) => done == Outcome::<(PendingParallelView, CommandView)>::Failed(e@),
                }
            }),
    {
        let removed = self.pending_parallel_tool_continuations.remove(invocation.id.as_str());
        match (removed, &invocation.approval_request_id) {
            (Some(pending), Some(request_id)) => {
                self.active_mission_id = Some(pending.request.contract.mission_id.clone());
                Ok(
                    (
                        pending,
                        MissionCommand::ResolveApproval {
                            approval_id: request_id.clone(),
                            decision: ApprovalDecision::Allow,
                        },
                    ),
                )
            },
            _ => Err(
                ApplicationError::new("tool-approval-id-missing", invocation.id.as_str()),
            ),
        }
    }

    /// Lets the main agent go on that waited for a call. Gives the command that resolves the
    /// approval.
    pub fn resume_main(&mut self, invocation: &ToolInvocation) -> (r: Result<
        MissionCommand,
        ApplicationError,
    >)
        ensures
            (final(self)@, outcome(r)) == resume_main_step(old(self)@, invocation@),
    {
        match &invocation.approval_request_id {
            Some(request_id) => {
                self.active_mission_id = Some(invocation.mission_id.clone());
                Ok(
                    MissionCommand::ResolveApproval {
                        approval_id: request_id.clone(),
                        decision: ApprovalDecision::Allow,
                    },
                )
            },
            None => Err(
                ApplicationError::new("tool-approval-id-missing", invocation.id.as_str()),
            ),
        }
    }

    /// A team of the one agent that goes on.
    pub fn build_parallel_resume_job(
        &mut self,
        request: AgentExecutionRequest,
        claimed: ClaimedEffect,
        prompt: String,
        delivery_token: &str,
        now: i64,
    ) -> (r: Result<PreparedAgentTeam, ApplicationError>)
        ensures
            (final(self)@, outcome(r)) == resume_job_step(
                old(self)@,
                request@,
                claimed@,
                prompt@,
                delivery_token@,
                now,
            ),
    {
        broadcast use group_views;

        let mission_id = request.contract.mission_id.clone();
        let run_id = request.contract.run_id.clone();
        let said = match self.take_steering_messages(mission_id.as_str(), delivery_token, now) {
            Ok(said) => said,
            Err(error) => {
                return Err(error);
            },
        };
        let mut request = request;
        let mut said = said;
        request.steering_messages.append(&mut said);
        if !self.model_ready {
            return Err(
                ApplicationError::new(
                    "model-runtime-missing",
                    "Tool continuation 需要 Model Runtime",
                ),
            );
        }
        if self.run_controls.is_cancelled(run_id.as_str()).is_none() {
            return Err(ApplicationError::new("run-control-missing", run_id.as_str()));
        }
        let mut team = PreparedAgentTeam::new(mission_id, prompt);
        team.enlist(request, claimed);
        team.muster(1, now)
    }

    /// Keeps the team that is ready to go on.
    pub fn set_ready_parallel_resume(&mut self, team: PreparedAgentTeam)
        ensures
            final(self)@ == (AppView { ready_parallel_resume: Some(team@), ..old(self)@ }),
    {
        self.ready_parallel_resume = Some(team);
    }

    /// Checks that there are tools, and that the call is known.
    pub fn check_invocation(&self, invocation: &Option<ToolInvocation>, invocation_id: &str) -> (r:
        Result<(), ApplicationError>)
        ensures
            unit_outcome(r) == (if !self@.tools_ready {
                failure("tool-runtime-missing"@, "Tool Runtime 尚未注入"@)
            } else if *invocation is None {
                failure("tool-invocation-not-found"@, invocation_id@)
            } else {
                Outcome::Done(())
            }),
    {
        if !self.tools_ready {
            return Err(ApplicationError::new("tool-runtime-missing", "Tool Runtime 尚未注入"));
        }
        match invocation {
            None => Err(ApplicationError::new("tool-invocation-not-found", invocation_id)),
            Some(_) => Ok(()),
        }
    }

    /// Refuses a call. The mission is given if it could be recovered.
    pub fn deny_tool(&mut self, invocation: &ToolInvocation, mission: &Option<MissionState>) -> (r:
        Result<Denied, ApplicationError>)
        ensures
            (final(self)@, outcome(r)) == deny_step(
                old(self)@,
                invocation@,
                option_view(*mission),
            ),
    {
        let model = self.pending_model_continuations.remove(invocation.id.as_str());
        let parallel = self.pending_parallel_tool_continuations.remove(invocation.id.as_str());
        let request_id = match &invocation.approval_request_id {
            Some(request_id) => request_id,
            None => {
                return Err(
                    ApplicationError::new("tool-approval-id-missing", invocation.id.as_str()),
                );
            },
        };
        let asked = match mission {
            Some(mission) => mission.pending_approvals.contains(request_id.as_str()),
            None => false,
        };
        let command = if model.is_some() || parallel.is_some() || asked {
            Some(
                MissionCommand::ResolveApproval {
                    approval_id: request_id.clone(),
                    decision: ApprovalDecision::Deny,
                },
            )
        } else {
            None
        };
        let waiting = match parallel {
            Some(pending) => Some(
                (
                    pending.request.contract.agent_definition_id,
                    pending.request.contract.run_id,
                ),
            ),
            None => None,
        };
        Ok(Denied { command, waiting })
    }

    /// Ends the run of an agent whose call was refused.
    pub fn end_denied_run(&mut self, agent_id: &str, run_id: &str, now: i64) -> (r: Result<
        (),
        ApplicationError,
    >)
        ensures
            (final(self)@, unit_outcome(r)) == denied_run_step(
                old(self)@,
                agent_id@,
                run_id@,
                now,
            ),
    {
        match self.set_agent_session_status(run_id, AgentSessionStatus::Failed, now) {
            Ok(()) => self.finish_agent_run(agent_id, run_id, BudgetEscrowStatus::Failed, now),
            Err(error) => Err(error),
        }
    }

    /// What is handed to the tools for a call of the user.
    pub fn invoke_tool(
        &self,
        tool_name: &str,
        args: Json,
        invocation_id: String,
        approval_request_id: String,
        idempotency_key: String,
        now: i64,
    ) -> (r: Result<ToolInvokeRequest, ApplicationError>)
        ensures
            outcome(r) == terminal_invocation(
                self@,
                tool_name@,
                args@,
                invocation_id@,
                approval_request_id@,
                idempotency_key@,
                now,
            ),
    {
        if !self.tools_ready {
            return Err(ApplicationError::new("tool-runtime-missing", "Tool Runtime 尚未注入"));
        }
        let mission_id = match &self.active_mission_id {
            Some(mission_id) => mission_id.clone(),
            None => "mission:terminal".to_string(),
        };
        Ok(
            ToolInvokeRequest {
                invocation_id,
                approval_request_id,
                idempotency_key,
                project_id: self.project_id.clone(),
                mission_id,
                run_id: Some("run:terminal".to_string()),
                actor_id: "user:terminal".to_string(),
                origin: ToolOrigin::User,
                integrity: IntegrityLabel::Trusted,
                confidentiality: ConfidentialityLabel::ProjectPrivate,
                tool_name: tool_name.to_string(),
                args,
                now_millis: now,
            },
        )
    }
}

} // verus!
