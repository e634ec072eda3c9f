//! How the approval of a call is carried out: the call is made, and whoever waited for it goes on.

use vstd::prelude::*;
use vstd::string::*;

use crate::application::{
    AppView, HarnessApplication, InvocationView, PendingParallelToolContinuation,
    PendingParallelView, ToolInvocation, WaitingParallelTool, WaitingToolView,
};
use crate::approvals::{
    approved_course, course_after_approval, resume_calls, resume_job_step, resume_main_step,
    resume_parallel_step, resumed, waiters, ApprovedCourse, Waiters,
};
use crate::conversation::{FactView, ToolFact};
use crate::error::{failure, outcome, ApplicationError, ErrorView, Outcome};
use crate::execution::{AgentExecutionRequest, RequestView};
use crate::leases::{FileLease, LeaseView, SiteView, WriteSite};
use crate::mission::{
    ClaimedEffect, ClaimedEffectView, CommandView, EffectEntry, EffectView, EventPriority,
    MissionCommand, MissionState, MissionStep, MissionStepView, MissionView,
};
use crate::model::{option_view, views};
use crate::parallel::{
    calls_left, calls_reply_fits, law_calls_come_to_an_end, parallel_first, parallel_step,
    CallsAction, CallsActionView, CallsPhase, CallsPhaseView, CallsReply, CallsReplyView,
};
use crate::plans::{all_accepted, is_ready_to_complete};
use crate::runs::set_status_step;
use crate::state_store::AgentSessionStatus;
use crate::team_finish::{approval_command, park_step, ApprovalView, PendingApproval};
use crate::tool_calls::{
    acquire_lease_step, lease_path, release_lease_step, tool_status, tool_status_event,
};
use crate::waves::{claim_agent_resume_effect, effect_or, first_effect};

verus! {

/// An agent of a team that goes on: the effect under which it does, what it was told to do, and the call
/// that was approved.
pub struct Resumption {
    pub claimed: ClaimedEffect,
    pub prompt: String,
    pub approved: ToolInvocation,
}

pub struct ResumptionView {
    pub claimed: ClaimedEffectView,
    pub prompt: Seq<char>,
    pub approved: InvocationView,
}

impl View for Resumption {
    type V = ResumptionView;

    open spec fn view(&self) -> ResumptionView {
        ResumptionView {
            claimed: self.claimed@,
            prompt: self.prompt@,
            approved: self.approved@,
        }
    }
}

/// How far an agent of a team has come that goes on: its approval is resolved, its effect is found and
/// claimed, what the call found out is kept, the calls that are left are made, and it is called again or
/// has to wait once more.
pub enum ResumePhase {
    Resolving { pending: PendingParallelToolContinuation, approved: ToolInvocation },
    Listing { pending: PendingParallelToolContinuation, approved: ToolInvocation },
    Claiming { pending: PendingParallelToolContinuation, approved: ToolInvocation },
    Keeping { pending: PendingParallelToolContinuation, approved: ToolInvocation, claimed: ClaimedEffect },
    Calling { resumption: Resumption, calls: CallsPhase },
    Asking { resumption: Resumption, request: AgentExecutionRequest, waiting: WaitingParallelTool },
    Requesting { resumption: Resumption, request: AgentExecutionRequest, waiting: WaitingParallelTool, request_id: String },
    Parking { resumption: Resumption, request: AgentExecutionRequest, waiting: WaitingParallelTool },
    Mustering { resumption: Resumption, request: AgentExecutionRequest },
}

pub enum ResumePhaseView {
    Resolving { pending: PendingParallelView, approved: InvocationView },
    Listing { pending: PendingParallelView, approved: InvocationView },
    Claiming { pending: PendingParallelView, approved: InvocationView },
    Keeping { pending: PendingParallelView, approved: InvocationView, claimed: ClaimedEffectView },
    Calling { resumption: ResumptionView, calls: CallsPhaseView },
    Asking { resumption: ResumptionView, request: RequestView, waiting: WaitingToolView },
    Requesting { resumption: ResumptionView, request: RequestView, waiting: WaitingToolView, request_id: Seq<char> },
    Parking { resumption: ResumptionView, request: RequestView, waiting: WaitingToolView },
    Mustering { resumption: ResumptionView, request: RequestView },
}

impl View for ResumePhase {
    type V = ResumePhaseView;

    open spec fn view(&self) -> ResumePhaseView {
        match *self {
            ResumePhase::Resolving { pending, approved } => ResumePhaseView::Resolving {
                pending: pending@,
                approved: approved@,
            },
            ResumePhase::Listing { pending, approved } => ResumePhaseView::Listing {
                pending: pending@,
                approved: approved@,
            },
            ResumePhase::Claiming { pending, approved } => ResumePhaseView::Claiming {
                pending: pending@,
                approved: approved@,
            },
            ResumePhase::Keeping { pending, approved, claimed } => ResumePhaseView::Keeping {
                pending: pending@,
                approved: approved@,
                claimed: claimed@,
            },
            ResumePhase::Calling { resumption, calls } => ResumePhaseView::Calling {
                resumption: resumption@,
                calls: calls@,
            },
            ResumePhase::Asking { resumption, request, waiting } => ResumePhaseView::Asking {
                resumption: resumption@,
                request: request@,
                waiting: waiting@,
            },
            ResumePhase::Requesting { resumption, request, waiting, request_id } => ResumePhaseView::Requesting {
                resumption: resumption@,
                request: request@,
                waiting: waiting@,
                request_id: request_id@,
            },
            ResumePhase::Parking { resumption, request, waiting } => ResumePhaseView::Parking {
                resumption: resumption@,
                request: request@,
                waiting: waiting@,
            },
            ResumePhase::Mustering { resumption, request } => ResumePhaseView::Mustering {
                resumption: resumption@,
                request: request@,
            },
        }
    }
}

/// How far an approval is carried out. The call is leased what it writes, made and shown. An agent of a
/// team then goes on, or the main agent with the effects of its mission.
pub enum ApprovalPhase {
    Leasing { invocation: ToolInvocation, waiters: Waiters },
    Making { invocation: ToolInvocation, waiters: Waiters, lease: Option<FileLease> },
    Showing { invocation: ToolInvocation, waiters: Waiters, approved: ToolInvocation },
    Resuming { phase: ResumePhase },
    Releasing { mission_id: String, approved: ToolInvocation },
    Driving { mission_id: String, approved: ToolInvocation },
    Closing { approved: ToolInvocation },
    Ending { approved: ToolInvocation },
    Over,
}

pub enum ApprovalPhaseView {
    Leasing { invocation: InvocationView, waiters: Waiters },
    Making { invocation: InvocationView, waiters: Waiters, lease: Option<LeaseView> },
    Showing { invocation: InvocationView, waiters: Waiters, approved: InvocationView },
    Resuming { phase: ResumePhaseView },
    Releasing { mission_id: Seq<char>, approved: InvocationView },
    Driving { mission_id: Seq<char>, approved: InvocationView },
    Closing { approved: InvocationView },
    Ending { approved: InvocationView },
    Over,
}

impl View for ApprovalPhase {
    type V = ApprovalPhaseView;

    open spec fn view(&self) -> ApprovalPhaseView {
        match *self {
            ApprovalPhase::Leasing { invocation, waiters } => ApprovalPhaseView::Leasing {
                invocation: invocation@,
                waiters,
            },
            ApprovalPhase::Making { invocation, waiters, lease } => ApprovalPhaseView::Making {
                invocation: invocation@,
                waiters,
                lease: option_view(lease),
            },
            ApprovalPhase::Showing { invocation, waiters, approved } => ApprovalPhaseView::Showing {
                invocation: invocation@,
                waiters,
                approved: approved@,
            },
            ApprovalPhase::Resuming { phase } => ApprovalPhaseView::Resuming {
                phase: phase@,
            },
            ApprovalPhase::Releasing { mission_id, approved } => ApprovalPhaseView::Releasing {
                mission_id: mission_id@,
                approved: approved@,
            },
            ApprovalPhase::Driving { mission_id, approved } => ApprovalPhaseView::Driving {
                mission_id: mission_id@,
                approved: approved@,
            },
            ApprovalPhase::Closing { approved } => ApprovalPhaseView::Closing {
                approved: approved@,
            },
            ApprovalPhase::Ending { approved } => ApprovalPhaseView::Ending {
                approved: approved@,
            },
            ApprovalPhase::Over => ApprovalPhaseView::Over,
        }
    }
}

/// What came of an action.
pub enum ApprovalReply {
    Site { site: WriteSite },
    Made { approved: ToolInvocation },
    CallFailed { error: ApplicationError },
    Did,
    Effects { entries: Vec<EffectEntry> },
    Claimed { claimed: Option<ClaimedEffect> },
    Call { reply: CallsReply },
    Approvals { approvals: Vec<PendingApproval> },
    Named { delivery_token: String },
    Mission { mission: MissionState },
}

pub enum ApprovalReplyView {
    Site { site: SiteView },
    Made { approved: InvocationView },
    CallFailed { error: ErrorView },
    Did,
    Effects { entries: Seq<EffectView> },
    Claimed { claimed: Option<ClaimedEffectView> },
    Call { reply: CallsReplyView },
    Approvals { approvals: Seq<ApprovalView> },
    Named { delivery_token: Seq<char> },
    Mission { mission: MissionView },
}

impl View for ApprovalReply {
    type V = ApprovalReplyView;

    open spec fn view(&self) -> ApprovalReplyView {
        match *self {
            ApprovalReply::Site { site } => ApprovalReplyView::Site {
                site: site@,
            },
            ApprovalReply::Made { approved } => ApprovalReplyView::Made {
                approved: approved@,
            },
            ApprovalReply::CallFailed { error } => ApprovalReplyView::CallFailed {
                error: error@,
            },
            ApprovalReply::Did => ApprovalReplyView::Did,
            ApprovalReply::Effects { entries } => ApprovalReplyView::Effects {
                entries: views(entries@),
            },
            ApprovalReply::Claimed { claimed } => ApprovalReplyView::Claimed {
                claimed: option_view(claimed),
            },
            ApprovalReply::Call { reply } => ApprovalReplyView::Call {
                reply: reply@,
            },
            ApprovalReply::Approvals { approvals } => ApprovalReplyView::Approvals {
                approvals: views(approvals@),
            },
            ApprovalReply::Named { delivery_token } => ApprovalReplyView::Named {
                delivery_token: delivery_token@,
            },
            ApprovalReply::Mission { mission } => ApprovalReplyView::Mission {
                mission: mission@,
            },
        }
    }
}

/// What is to be done next.
pub enum ApprovalAction {
    /// Find out where a path leads.
    Resolve { path: String },
    /// Make the call that was approved.
    Make { invocation_id: String },
    /// Do these steps for a mission, in order.
    Do { mission_id: String, steps: Vec<MissionStep> },
    /// List the effects that can be claimed.
    ListEffects,
    Claim { effect_id: String },
    /// Keep what a call of a run has found out.
    Keep { fact: ToolFact, run_id: String },
    /// Do what a call of a tool needs.
    Call { action: CallsAction },
    /// List the approvals that are asked for.
    ListApprovals,
    /// Give a name to a delivery.
    NameDelivery,
    DriveEffects { mission_id: String },
    LookAtMission { mission_id: String },
    /// The approval is carried out.
    Finish { approved: ToolInvocation },
}

pub enum ApprovalActionView {
    Resolve { path: Seq<char> },
    Make { invocation_id: Seq<char> },
    Do { mission_id: Seq<char>, steps: Seq<MissionStepView> },
    ListEffects,
    Claim { effect_id: Seq<char> },
    Keep { fact: FactView, run_id: Seq<char> },
    Call { action: CallsActionView },
    ListApprovals,
    NameDelivery,
    DriveEffects { mission_id: Seq<char> },
    LookAtMission { mission_id: Seq<char> },
    Finish { approved: InvocationView },
}

impl View for ApprovalAction {
    type V = ApprovalActionView;

    open spec fn view(&self) -> ApprovalActionView {
        match *self {
            ApprovalAction::Resolve { path } => ApprovalActionView::Resolve { path: path@ },
            ApprovalAction::Make { invocation_id } => ApprovalActionView::Make {
                invocation_id: invocation_id@,
            },
            ApprovalAction::Do { mission_id, steps } => ApprovalActionView::Do {
                mission_id: mission_id@,
                steps: views(steps@),
            },
            ApprovalAction::ListEffects => ApprovalActionView::ListEffects,
            ApprovalAction::Claim { effect_id } => ApprovalActionView::Claim {
                effect_id: effect_id@,
            },
            ApprovalAction::Keep { fact, run_id } => ApprovalActionView::Keep {
                fact: fact@,
                run_id: run_id@,
            },
            ApprovalAction::Call { action } => ApprovalActionView::Call { action: action@ },
            ApprovalAction::ListApprovals => ApprovalActionView::ListApprovals,
            ApprovalAction::NameDelivery => ApprovalActionView::NameDelivery,
            ApprovalAction::DriveEffects { mission_id } => ApprovalActionView::DriveEffects {
                mission_id: mission_id@,
            },
            ApprovalAction::LookAtMission { mission_id } => ApprovalActionView::LookAtMission {
                mission_id: mission_id@,
            },
            ApprovalAction::Finish { approved } => ApprovalActionView::Finish {
                approved: approved@,
            },
        }
    }
}

pub open spec fn resume_reply_fits(phase: ResumePhaseView, reply: ApprovalReplyView) -> bool {
    match phase {
        ResumePhaseView::Listing { .. } => reply is Effects,
        ResumePhaseView::Claiming { .. } => reply is Claimed,
        ResumePhaseView::Calling { calls, .. } => reply is Call && calls_reply_fits(
            calls,
            reply->reply,
        ),
        ResumePhaseView::Asking { .. } => reply is Approvals,
        ResumePhaseView::Mustering { .. } => reply is Named,
        _ => reply is Did,
    }
}

/// Whether a reply fits the phase, and the agent of a team that is to go on is still there.
pub open spec fn approval_reply_fits(
    s: AppView,
    phase: ApprovalPhaseView,
    reply: ApprovalReplyView,
) -> bool {
    match phase {
        ApprovalPhaseView::Leasing { .. } => reply is Site,
        ApprovalPhaseView::Making { .. } => reply is Made || reply is CallFailed,
        ApprovalPhaseView::Showing { invocation, waiters, approved } => reply is Did && (
        approved_course(waiters, approved.status) is Parallel ==> s.pending_parallel.contains_key(
            invocation.id,
        )),
        ApprovalPhaseView::Resuming { phase } => resume_reply_fits(phase, reply),
        ApprovalPhaseView::Closing { .. } => reply is Mission,
        ApprovalPhaseView::Over => false,
        _ => reply is Did,
    }
}

pub open spec fn approval_on(phase: ApprovalPhaseView, action: ApprovalActionView) -> Outcome<
    (ApprovalPhaseView, ApprovalActionView),
> {
    Outcome::Done((phase, action))
}

pub open spec fn resume_on(phase: ResumePhaseView, action: ApprovalActionView) -> Outcome<
    (ApprovalPhaseView, ApprovalActionView),
> {
    approval_on(ApprovalPhaseView::Resuming { phase }, action)
}

pub open spec fn carried_out(approved: InvocationView) -> Outcome<
    (ApprovalPhaseView, ApprovalActionView),
> {
    approval_on(ApprovalPhaseView::Over, ApprovalActionView::Finish { approved })
}

pub open spec fn one_command(mission_id: Seq<char>, command: CommandView) -> ApprovalActionView {
    ApprovalActionView::Do { mission_id, steps: seq![MissionStepView::Command { command }] }
}

/// The first step: the call has to be known and waited for, and what it writes is leased.
pub open spec fn first_approval_step(
    s: AppView,
    invocation: Option<InvocationView>,
    invocation_id: Seq<char>,
) -> Outcome<(ApprovalPhaseView, ApprovalActionView)> {
    match waiters(s, invocation, invocation_id) {
        Outcome::Failed(e) => Outcome::Failed(e),
        Outcome::Done(waiters) => {
            let invocation = invocation->Some_0;
            match lease_path(s, invocation.tool_name, invocation.args, invocation.run_id) {
                Outcome::Failed(e) => Outcome::Failed(e),
                Outcome::Done(Some(path)) => approval_on(
                    ApprovalPhaseView::Leasing { invocation, waiters },
                    ApprovalActionView::Resolve { path },
                ),
                Outcome::Done(None) => approval_on(
                    ApprovalPhaseView::Making { invocation, waiters, lease: None },
                    ApprovalActionView::Make { invocation_id },
                ),
            }
        },
    }
}

/// What a step of the calls that are left means for the agent.
pub open spec fn after_resumed_call(
    r: ResumptionView,
    made: Outcome<(CallsPhaseView, CallsActionView)>,
) -> Outcome<(ApprovalPhaseView, ApprovalActionView)> {
    match made {
        Outcome::Failed(e) => Outcome::Failed(e),
        Outcome::Done((_, CallsActionView::Resume { request })) => resume_on(
            ResumePhaseView::Mustering { resumption: r, request },
            ApprovalActionView::NameDelivery,
        ),
        Outcome::Done((_, CallsActionView::Wait { request, waiting })) => resume_on(
            ResumePhaseView::Asking { resumption: r, request, waiting },
            ApprovalActionView::ListApprovals,
        ),
        Outcome::Done((calls, action)) => resume_on(
            ResumePhaseView::Calling { resumption: r, calls },
            ApprovalActionView::Call { action },
        ),
    }
}

/// The call was made and shown: whoever waited for it goes on.
#[verifier::opaque]
pub open spec fn shown_step(
    s: AppView,
    invocation: InvocationView,
    waiters: Waiters,
    approved: InvocationView,
) -> (AppView, Outcome<(ApprovalPhaseView, ApprovalActionView)>) {
    match approved_course(waiters, approved.status) {
        ApprovedCourse::Nothing => (s, carried_out(approved)),
        ApprovedCourse::Parallel => {
            let (s1, r1) = resume_parallel_step(s, invocation);
            (
                s1,
                match r1 {
                    Outcome::Failed(e) => Outcome::Failed(e),
                    Outcome::Done((pending, command)) => resume_on(
                        ResumePhaseView::Resolving { pending, approved },
                        one_command(pending.request.contract.mission_id, command),
                    ),
                },
            )
        },
        ApprovedCourse::Main => {
            let (s1, r1) = resume_main_step(s, invocation);
            (
                s1,
                match r1 {
                    Outcome::Failed(e) => Outcome::Failed(e),
                    Outcome::Done(command) => approval_on(
                        ApprovalPhaseView::Releasing {
                            mission_id: invocation.mission_id,
                            approved,
                        },
                        one_command(invocation.mission_id, command),
                    ),
                },
            )
        },
    }
}

/// The effect was claimed, or was not; the call must have a result.
#[verifier::opaque]
pub open spec fn claimed_step(
    pending: PendingParallelView,
    approved: InvocationView,
    claimed: Option<ClaimedEffectView>,
) -> Outcome<(ApprovalPhaseView, ApprovalActionView)> {
    let run_id = pending.request.contract.run_id;
    match claimed {
        None => failure("agent-resume-effect-claim-lost"@, run_id),
        Some(claimed) => match approved.result {
            None => failure("tool-result-missing"@, approved.tool_name),
            Some(result) => resume_on(
                ResumePhaseView::Keeping { pending, approved, claimed },
                ApprovalActionView::Keep {
                    fact: FactView {
                        tool: pending.waiting.waiting_call.name,
                        arguments: pending.waiting.waiting_call.arguments,
                        result,
                    },
                    run_id,
                },
            ),
        },
    }
}

/// The agent can be called again: it runs, and a team of it alone is ready.
#[verifier::opaque]
pub open spec fn ready_step(
    s: AppView,
    r: ResumptionView,
    request: RequestView,
    delivery_token: Seq<char>,
    now: i64,
) -> (AppView, Outcome<(ApprovalPhaseView, ApprovalActionView)>) {
    let (s1, r1) = set_status_step(s, request.contract.run_id, AgentSessionStatus::Running, now);
    match r1 {
        Outcome::Failed(e) => (s1, Outcome::Failed(e)),
        Outcome::Done(_) => {
            let (s2, r2) = resume_job_step(s1, request, r.claimed, r.prompt, delivery_token, now);
            match r2 {
                Outcome::Failed(e) => (s2, Outcome::Failed(e)),
                Outcome::Done(team) => (
                    AppView { ready_parallel_resume: Some(team), ..s2 },
                    carried_out(r.approved),
                ),
            }
        },
    }
}

/// What the call writes is leased.
#[verifier::opaque]
pub open spec fn leased_step(
    s: AppView,
    invocation: InvocationView,
    waiters: Waiters,
    site: SiteView,
    now: i64,
) -> (AppView, Outcome<(ApprovalPhaseView, ApprovalActionView)>) {
    let (s1, r1) = acquire_lease_step(
        s,
        invocation.tool_name,
        invocation.args,
        invocation.run_id,
        site,
        now,
    );
    (
        s1,
        match r1 {
            Outcome::Failed(e) => Outcome::Failed(e),
            Outcome::Done(lease) => approval_on(
                ApprovalPhaseView::Making { invocation, waiters, lease },
                ApprovalActionView::Make { invocation_id: invocation.id },
            ),
        },
    )
}

/// The call was made, or could not be: the lease is given back.
#[verifier::opaque]
pub open spec fn made_step(
    s: AppView,
    invocation: InvocationView,
    waiters: Waiters,
    lease: Option<LeaseView>,
    made: Outcome<InvocationView>,
) -> (AppView, Outcome<(ApprovalPhaseView, ApprovalActionView)>) {
    let (s1, r1) = release_lease_step(s, lease);
    (
        s1,
        match r1 {
            Outcome::Failed(e) => Outcome::Failed(e),
            Outcome::Done(_) => match made {
                Outcome::Failed(e) => Outcome::Failed(e),
                Outcome::Done(approved) => approval_on(
                    ApprovalPhaseView::Showing { invocation, waiters, approved },
                    ApprovalActionView::Do {
                        mission_id: approved.mission_id,
                        steps: seq![
                            MissionStepView::Publish {
                                event: tool_status(approved.tool_name, approved),
                                priority: EventPriority::Normal,
                            },
                        ],
                    },
                ),
            },
        },
    )
}

/// The effect with which the agent goes on is looked for.
#[verifier::opaque]
pub open spec fn listed_step(
    pending: PendingParallelView,
    approved: InvocationView,
    entries: Seq<EffectView>,
) -> Outcome<(ApprovalPhaseView, ApprovalActionView)> {
    let contract = pending.request.contract;
    match effect_or(
        first_effect(entries, contract.mission_id, contract.run_id, false, true),
        "agent-resume-effect-missing"@,
        contract.run_id,
    ) {
        Outcome::Failed(e) => Outcome::Failed(e),
        Outcome::Done(effect_id) => resume_on(
            ResumePhaseView::Claiming { pending, approved },
            ApprovalActionView::Claim { effect_id },
        ),
    }
}

/// The result is taken into the conversation, and the calls that are left begin.
#[verifier::opaque]
pub open spec fn kept_step(
    s: AppView,
    pending: PendingParallelView,
    approved: InvocationView,
    claimed: ClaimedEffectView,
    now: i64,
) -> (AppView, Outcome<(ApprovalPhaseView, ApprovalActionView)>) {
    match resumed(pending, approved) {
        Outcome::Failed(e) => (s, Outcome::Failed(e)),
        Outcome::Done(calls) => {
            let (s1, made) = parallel_first(s, calls, now);
            (
                s1,
                after_resumed_call(
                    ResumptionView { claimed, prompt: pending.prompt, approved },
                    made,
                ),
            )
        },
    }
}

/// One more step of the calls that are left.
#[verifier::opaque]
pub open spec fn call_step(
    s: AppView,
    resumption: ResumptionView,
    calls: CallsPhaseView,
    reply: CallsReplyView,
    now: i64,
) -> (AppView, Outcome<(ApprovalPhaseView, ApprovalActionView)>) {
    let (s1, made) = parallel_step(s, calls, reply, now);
    (s1, after_resumed_call(resumption, made))
}

/// Another approval is asked for.
#[verifier::opaque]
pub open spec fn asking_step(
    s: AppView,
    resumption: ResumptionView,
    request: RequestView,
    waiting: WaitingToolView,
    approvals: Seq<ApprovalView>,
) -> Outcome<(ApprovalPhaseView, ApprovalActionView)> {
    match approval_command(
        s.tools_ready,
        approvals,
        waiting.invocation,
        request.contract.task_id,
        request.contract.run_id,
    ) {
        Outcome::Failed(e) => Outcome::Failed(e),
        Outcome::Done(command) => resume_on(
            ResumePhaseView::Requesting {
                resumption,
                request,
                waiting,
                request_id: waiting.invocation.approval_request_id->Some_0,
            },
            one_command(request.contract.mission_id, command),
        ),
    }
}

/// The agent waits once more.
#[verifier::opaque]
pub open spec fn requested_step(
    s: AppView,
    resumption: ResumptionView,
    request: RequestView,
    waiting: WaitingToolView,
    request_id: Seq<char>,
    now: i64,
) -> (AppView, Outcome<(ApprovalPhaseView, ApprovalActionView)>) {
    let (s1, r1) = park_step(
        s,
        resumption.claimed,
        request.contract.run_id,
        waiting,
        request_id,
        now,
    );
    (
        s1,
        match r1 {
            Outcome::Failed(e) => Outcome::Failed(e),
            Outcome::Done(step) => resume_on(
                ResumePhaseView::Parking { resumption, request, waiting },
                ApprovalActionView::Do {
                    mission_id: request.contract.mission_id,
                    steps: seq![step],
                },
            ),
        },
    )
}

/// The mission is looked at, and completed if nothing is left to do in it.
#[verifier::opaque]
pub open spec fn closed_step(approved: InvocationView, mission: MissionView) -> Outcome<
    (ApprovalPhaseView, ApprovalActionView),
> {
    if mission.status is Running && all_accepted(mission) {
        approval_on(
            ApprovalPhaseView::Ending { approved },
            one_command(mission.mission_id, CommandView::CompleteMission),
        )
    } else {
        carried_out(approved)
    }
}

/// One step of letting the agent of a team go on.
#[verifier::opaque]
pub open spec fn resume_step(
    s: AppView,
    phase: ResumePhaseView,
    reply: ApprovalReplyView,
    now: i64,
) -> (AppView, Outcome<(ApprovalPhaseView, ApprovalActionView)>) {
    match phase {
        ResumePhaseView::Resolving { pending, approved } => (
            s,
            resume_on(
                ResumePhaseView::Listing { pending, approved },
                ApprovalActionView::ListEffects,
            ),
        ),
        ResumePhaseView::Listing { pending, approved } => (
            s,
            listed_step(pending, approved, reply->entries),
        ),
        ResumePhaseView::Claiming { pending, approved } => (
            s,
            claimed_step(pending, approved, reply->claimed),
        ),
        ResumePhaseView::Keeping { pending, approved, claimed } => kept_step(
            s,
            pending,
            approved,
            claimed,
            now,
        ),
        ResumePhaseView::Calling { resumption, calls } => call_step(
            s,
            resumption,
            calls,
            reply->reply,
            now,
        ),
        ResumePhaseView::Asking { resumption, request, waiting } => (
            s,
            asking_step(s, resumption, request, waiting, reply->approvals),
        ),
        ResumePhaseView::Requesting { resumption, request, waiting, request_id } =>
            requested_step(s, resumption, request, waiting, request_id, now),
        ResumePhaseView::Parking { resumption, request, waiting } => (
            AppView {
                pending_parallel: s.pending_parallel.insert(
                    waiting.invocation.id,
                    PendingParallelView { request, waiting, prompt: resumption.prompt },
                ),
                ..s
            },
            carried_out(resumption.approved),
        ),
        ResumePhaseView::Mustering { resumption, request } => ready_step(
            s,
            resumption,
            request,
            reply->delivery_token,
            now,
        ),
    }
}

/// One step of carrying out an approval.
pub open spec fn approval_step(
    s: AppView,
    phase: ApprovalPhaseView,
    reply: ApprovalReplyView,
    now: i64,
) -> (AppView, Outcome<(ApprovalPhaseView, ApprovalActionView)>) {
    match phase {
        ApprovalPhaseView::Leasing { invocation, waiters } => leased_step(
            s,
            invocation,
            waiters,
            reply->site,
            now,
        ),
        ApprovalPhaseView::Making { invocation, waiters, lease } => made_step(
            s,
            invocation,
            waiters,
            lease,
            match reply {
                ApprovalReplyView::CallFailed { error } => Outcome::Failed(error),
                _ => Outcome::Done(reply->approved),
            },
        ),
        ApprovalPhaseView::Showing { invocation, waiters, approved } => shown_step(
            s,
            invocation,
            waiters,
            approved,
        ),
        ApprovalPhaseView::Resuming { phase } => resume_step(s, phase, reply, now),
        ApprovalPhaseView::Releasing { mission_id, approved } => (
            s,
            approval_on(
                ApprovalPhaseView::Driving { mission_id, approved },
                ApprovalActionView::DriveEffects { mission_id },
            ),
        ),
        ApprovalPhaseView::Driving { mission_id, approved } => (
            s,
            approval_on(
                ApprovalPhaseView::Closing { approved },
                ApprovalActionView::LookAtMission { mission_id },
            ),
        ),
        ApprovalPhaseView::Closing { approved } => (s, closed_step(approved, reply->mission)),
        ApprovalPhaseView::Ending { approved } => (s, carried_out(approved)),
        ApprovalPhaseView::Over => (s, failure("tool-approval-over"@, "approval"@)),
    }
}

pub open spec fn approving(r: Result<(ApprovalPhase, ApprovalAction), ApplicationError>) -> Outcome<
    (ApprovalPhaseView, ApprovalActionView),
> {
    match r {
        Ok((phase, action)) => Outcome::Done((phase@, action@)),
        Err(error) => Outcome::Failed(error@),
    }
}

fn do_command(mission_id: String, command: MissionCommand) -> (r: ApprovalAction)
    ensures
        r@ == one_command(mission_id@, command@),
{
    let ghost shown = command@;
    let steps: Vec<MissionStep> = vec![MissionStep::Command { command }];
    assert(views(steps@) =~= seq![MissionStepView::Command { command: shown }]);
    ApprovalAction::Do { mission_id, steps }
}

fn do_step(mission_id: String, step: MissionStep) -> (r: ApprovalAction)
    ensures
        r@ == (ApprovalActionView::Do { mission_id: mission_id@, steps: seq![step@] }),
{
    let ghost shown = step@;
    let steps: Vec<MissionStep> = vec![step];
    assert(views(steps@) =~= seq![shown]);
    ApprovalAction::Do { mission_id, steps }
}

fn run_of_call(invocation: &ToolInvocation) -> (r: Option<&str>)
    ensures
        option_view(r) == invocation@.run_id,
{
    match &invocation.run_id {
        Some(run) => Some(run.as_str()),
        None => None,
    }
}

fn claimed_effect(
    pending: PendingParallelToolContinuation,
    approved: ToolInvocation,
    claimed: Option<ClaimedEffect>,
) -> (r: Result<(ApprovalPhase, ApprovalAction), ApplicationError>)
    ensures
        approving(r) == claimed_step(pending@, approved@, option_view(claimed)),
{
    proof {
        reveal(claimed_step);
    }
    let claimed = match claimed {
        Some(claimed) => claimed,
        None => {
            return Err(
                ApplicationError::new(
                    "agent-resume-effect-claim-lost",
                    pending.request.contract.run_id.as_str(),
                ),
            );
        },
    };
    let result = match &approved.result {
        Some(result) => result.copy(),
        None => {
            return Err(
                ApplicationError::new("tool-result-missing", approved.tool_name.as_str()),
            );
        },
    };
    let fact = ToolFact {
        tool: pending.waiting.waiting_call.name.clone(),
        arguments: pending.waiting.waiting_call.arguments.copy(),
        result,
    };
    let run_id = pending.request.contract.run_id.clone();
    Ok(
        (
            ApprovalPhase::Resuming { phase: ResumePhase::Keeping { pending, approved, claimed } },
            ApprovalAction::Keep { fact, run_id },
        ),
    )
}

fn find_resume_effect(
    pending: PendingParallelToolContinuation,
    approved: ToolInvocation,
    entries: &Vec<EffectEntry>,
) -> (r: Result<(ApprovalPhase, ApprovalAction), ApplicationError>)
    ensures
        approving(r) == listed_step(pending@, approved@, views(entries@)),
{
    proof {
        reveal(listed_step);
    }
    match claim_agent_resume_effect(
        entries,
        pending.request.contract.mission_id.as_str(),
        pending.request.contract.run_id.as_str(),
    ) {
        Err(error) => Err(error),
        Ok(effect_id) => Ok(
            (ApprovalPhase::Resuming { phase: ResumePhase::Claiming { pending, approved } }, ApprovalAction::Claim { effect_id }),
        ),
    }
}

fn close_mission(approved: ToolInvocation, mission: MissionState) -> (r: Result<
    (ApprovalPhase, ApprovalAction),
    ApplicationError,
>)
    ensures
        approving(r) == closed_step(approved@, mission@),
{
    proof {
        reveal(closed_step);
    }
    if is_ready_to_complete(&mission) {
        Ok(
            (
                ApprovalPhase::Ending { approved },
                do_command(mission.mission_id, MissionCommand::CompleteMission),
            ),
        )
    } else {
        Ok((ApprovalPhase::Over, ApprovalAction::Finish { approved }))
    }
}

fn go_on_after_resumed_call(resumption: Resumption, phase: CallsPhase, action: CallsAction) -> (r: Result<
    (ApprovalPhase, ApprovalAction),
    ApplicationError,
>)
    ensures
        approving(r) == after_resumed_call(resumption@, Outcome::Done((phase@, action@))),
{
    match action {
        CallsAction::Resume { request } => Ok(
            (ApprovalPhase::Resuming { phase: ResumePhase::Mustering { resumption, request } }, ApprovalAction::NameDelivery),
        ),
        CallsAction::Wait { request, waiting } => Ok(
            (
                ApprovalPhase::Resuming { phase: ResumePhase::Asking { resumption, request, waiting } },
                ApprovalAction::ListApprovals,
            ),
        ),
        action => Ok(
            (ApprovalPhase::Resuming { phase: ResumePhase::Calling { resumption, calls: phase } }, ApprovalAction::Call { action }),
        ),
    }
}

impl HarnessApplication {
    /// Begins to carry out the approval of a call.
    pub fn begin_approval(&self, invocation: Option<ToolInvocation>, invocation_id: &str) -> (r: Result<
        (ApprovalPhase, ApprovalAction),
        ApplicationError,
    >)
        ensures
            approving(r) == first_approval_step(
                self@,
                option_view(invocation),
                invocation_id@,
            ),
    {
        let waiters = match self.approve_tool(&invocation, invocation_id) {
            Ok(waiters) => waiters,
            Err(error) => {
                return Err(error);
            },
        };
        match invocation {
            None => Err(ApplicationError::new("tool-invocation-not-found", invocation_id)),
            Some(invocation) => match self.write_lease_path(
                invocation.tool_name.as_str(),
                &invocation.args,
                run_of_call(&invocation),
            ) {
                Err(error) => Err(error),
                Ok(Some(path)) => Ok(
                    (
                        ApprovalPhase::Leasing { invocation, waiters },
                        ApprovalAction::Resolve { path },
                    ),
                ),
                Ok(None) => Ok(
                    (
                        ApprovalPhase::Making { invocation, waiters, lease: None },
                        ApprovalAction::Make { invocation_id: invocation_id.to_string() },
                    ),
                ),
            },
        }
    }

    fn go_on_after_showing(
        &mut self,
        invocation: ToolInvocation,
        waiters: Waiters,
        approved: ToolInvocation,
    ) -> (r: Result<(ApprovalPhase, ApprovalAction), ApplicationError>)
        requires
            approved_course(waiters, approved@.status) is Parallel ==> old(
                self,
            )@.pending_parallel.contains_key(invocation@.id),
        ensures
            (final(self)@, approving(r)) == shown_step(
                old(self)@,
                invocation@,
                waiters,
                approved@,
            ),
    {
        proof {
            reveal(shown_step);
        }
        match course_after_approval(&waiters, &approved.status) {
            ApprovedCourse::Nothing => Ok(
                (ApprovalPhase::Over, ApprovalAction::Finish { approved }),
            ),
            ApprovedCourse::Parallel => match self.resume_parallel(&invocation) {
                Err(error) => Err(error),
                Ok((pending, command)) => {
                    let mission_id = pending.request.contract.mission_id.clone();
                    Ok(
                        (
                            ApprovalPhase::Resuming { phase: ResumePhase::Resolving { pending, approved } },
                            do_command(mission_id, command),
                        ),
                    )
                },
            },
            ApprovedCourse::Main => match self.resume_main(&invocation) {
                Err(error) => Err(error),
                Ok(command) => {
                    let mission_id = invocation.mission_id.clone();
                    Ok(
                        (
                            ApprovalPhase::Releasing { mission_id: invocation.mission_id, approved },
                            do_command(mission_id, command),
                        ),
                    )
                },
            },
        }
    }

    fn muster_resumed(
        &mut self,
        resumption: Resumption,
        request: AgentExecutionRequest,
        delivery_token: &str,
        now: i64,
    ) -> (r: Result<(ApprovalPhase, ApprovalAction), ApplicationError>)
        ensures
            (final(self)@, approving(r)) == ready_step(
                old(self)@,
                resumption@,
                request@,
                delivery_token@,
                now,
            ),
    {
        proof {
            reveal(ready_step);
        }
        match self.set_agent_session_status(
            request.contract.run_id.as_str(),
            AgentSessionStatus::Running,
            now,
        ) {
            Ok(()) => {},
            Err(error) => {
                return Err(error);
            },
        }
        match self.build_parallel_resume_job(
            request,
            resumption.claimed,
            resumption.prompt,
            delivery_token,
            now,
        ) {
            Err(error) => Err(error),
            Ok(team) => {
                self.set_ready_parallel_resume(team);
                Ok((ApprovalPhase::Over, ApprovalAction::Finish { approved: resumption.approved }))
            },
        }
    }

    fn ask_again(
        &self,
        resumption: Resumption,
        request: AgentExecutionRequest,
        waiting: WaitingParallelTool,
        approvals: &Vec<PendingApproval>,
    ) -> (r: Result<(ApprovalPhase, ApprovalAction), ApplicationError>)
        ensures
            approving(r) == asking_step(
                self@,
                resumption@,
                request@,
                waiting@,
                views(approvals@),
            ),
    {
        proof {
            reveal(asking_step);
        }
        match self.request_approval(
            approvals,
            &waiting.invocation,
            request.contract.task_id.as_str(),
            request.contract.run_id.as_str(),
        ) {
            Err(error) => Err(error),
            Ok(command) => {
                let request_id = match &waiting.invocation.approval_request_id {
                    Some(id) => id.clone(),
                    None => String::new(),
                };
                let mission_id = request.contract.mission_id.clone();
                Ok(
                    (
                        ApprovalPhase::Resuming { phase: ResumePhase::Requesting { resumption, request, waiting, request_id } },
                        do_command(mission_id, command),
                    ),
                )
            },
        }
    }

    fn lease_for_approved(
        &mut self,
        invocation: ToolInvocation,
        waiters: Waiters,
        site: &WriteSite,
        now: i64,
    ) -> (r: Result<(ApprovalPhase, ApprovalAction), ApplicationError>)
        ensures
            (final(self)@, approving(r)) == leased_step(
                old(self)@,
                invocation@,
                waiters,
                site@,
                now,
            ),
    {
        proof {
            reveal(leased_step);
        }
        match self.acquire_agent_write_lease(
            invocation.tool_name.as_str(),
            &invocation.args,
            run_of_call(&invocation),
            site,
            now,
        ) {
            Err(error) => Err(error),
            Ok(lease) => {
                let invocation_id = invocation.id.clone();
                Ok(
                    (
                        ApprovalPhase::Making { invocation, waiters, lease },
                        ApprovalAction::Make { invocation_id },
                    ),
                )
            },
        }
    }

    fn show_approved(
        &mut self,
        invocation: ToolInvocation,
        waiters: Waiters,
        lease: Option<FileLease>,
        made: Result<ToolInvocation, ApplicationError>,
    ) -> (r: Result<(ApprovalPhase, ApprovalAction), ApplicationError>)
        ensures
            (final(self)@, approving(r)) == made_step(
                old(self)@,
                invocation@,
                waiters,
                option_view(lease),
                outcome(made),
            ),
    {
        proof {
            reveal(made_step);
        }
        match self.release_agent_write_lease(lease) {
            Ok(()) => {},
            Err(error) => {
                return Err(error);
            },
        }
        match made {
            Err(error) => Err(error),
            Ok(approved) => {
                let event = tool_status_event(approved.tool_name.as_str(), &approved);
                let action = do_step(
                    approved.mission_id.clone(),
                    MissionStep::Publish { event, priority: EventPriority::Normal },
                );
                Ok((ApprovalPhase::Showing { invocation, waiters, approved }, action))
            },
        }
    }

    fn begin_calls_left(
        &mut self,
        pending: PendingParallelToolContinuation,
        approved: ToolInvocation,
        claimed: ClaimedEffect,
        now: i64,
    ) -> (r: Result<(ApprovalPhase, ApprovalAction), ApplicationError>)
        ensures
            (final(self)@, approving(r)) == kept_step(
                old(self)@,
                pending@,
                approved@,
                claimed@,
                now,
            ),
    {
        proof {
            reveal(kept_step);
        }
        let prompt = pending.prompt.clone();
        let calls = match resume_calls(pending, &approved) {
            Ok(calls) => calls,
            Err(error) => {
                return Err(error);
            },
        };
        match self.begin_parallel_calls(calls, now) {
            Err(error) => Err(error),
            Ok((phase, action)) => go_on_after_resumed_call(
                Resumption { claimed, prompt, approved },
                phase,
                action,
            ),
        }
    }

    fn make_calls_left(
        &mut self,
        resumption: Resumption,
        calls: CallsPhase,
        reply: CallsReply,
        now: i64,
    ) -> (r: Result<(ApprovalPhase, ApprovalAction), ApplicationError>)
        requires
            calls_reply_fits(calls@, reply@),
        ensures
            (final(self)@, approving(r)) == call_step(
                old(self)@,
                resumption@,
                calls@,
                reply@,
                now,
            ),
    {
        proof {
            reveal(call_step);
        }
        match self.make_parallel_calls(calls, reply, now) {
            Err(error) => Err(error),
            Ok((phase, action)) => go_on_after_resumed_call(resumption, phase, action),
        }
    }

    fn park_again(
        &mut self,
        resumption: Resumption,
        request: AgentExecutionRequest,
        waiting: WaitingParallelTool,
        request_id: &str,
        now: i64,
    ) -> (r: Result<(ApprovalPhase, ApprovalAction), ApplicationError>)
        ensures
            (final(self)@, approving(r)) == requested_step(
                old(self)@,
                resumption@,
                request@,
                waiting@,
                request_id@,
                now,
            ),
    {
        proof {
            reveal(requested_step);
        }
        match self.park_agent_run(
            &resumption.claimed,
            request.contract.run_id.as_str(),
            &waiting,
            request_id,
            now,
        ) {
            Err(error) => Err(error),
            Ok(step) => {
                let mission_id = request.contract.mission_id.clone();
                Ok(
                    (
                        ApprovalPhase::Resuming { phase: ResumePhase::Parking { resumption, request, waiting } },
                        do_step(mission_id, step),
                    ),
                )
            },
        }
    }

    fn resume_approved(&mut self, phase: ResumePhase, reply: ApprovalReply, now: i64) -> (r: Result<
        (ApprovalPhase, ApprovalAction),
        ApplicationError,
    >)
        requires
            resume_reply_fits(phase@, reply@),
        ensures
            (final(self)@, approving(r)) == resume_step(old(self)@, phase@, reply@, now),
    {
        proof {
            reveal(resume_step);
        }
        match phase {
            ResumePhase::Resolving { pending, approved } => Ok(
                (ApprovalPhase::Resuming { phase: ResumePhase::Listing { pending, approved } }, ApprovalAction::ListEffects),
            ),
            ResumePhase::Listing { pending, approved } => match reply {
                ApprovalReply::Effects { entries } => find_resume_effect(
                    pending,
                    approved,
                    &entries,
                ),
                _ => Err(ApplicationError::new("tool-approval-over", "approval")),
            },
            ResumePhase::Claiming { pending, approved } => match reply {
                ApprovalReply::Claimed { claimed } => claimed_effect(pending, approved, claimed),
                _ => Err(ApplicationError::new("tool-approval-over", "approval")),
            },
            ResumePhase::Keeping { pending, approved, claimed } => self.begin_calls_left(
                pending,
                approved,
                claimed,
                now,
            ),
            ResumePhase::Calling { resumption, calls } => match reply {
                ApprovalReply::Call { reply } => self.make_calls_left(
                    resumption,
                    calls,
                    reply,
                    now,
                ),
                _ => Err(ApplicationError::new("tool-approval-over", "approval")),
            },
            ResumePhase::Asking { resumption, request, waiting } => match reply {
                ApprovalReply::Approvals { approvals } => self.ask_again(
                    resumption,
                    request,
                    waiting,
                    &approvals,
                ),
                _ => Err(ApplicationError::new("tool-approval-over", "approval")),
            },
            ResumePhase::Requesting { resumption, request, waiting, request_id } =>
                self.park_again(resumption, request, waiting, request_id.as_str(), now),
            ResumePhase::Parking { resumption, request, waiting } => {
                self.keep_pending_parallel(request, waiting, resumption.prompt);
                Ok((ApprovalPhase::Over, ApprovalAction::Finish { approved: resumption.approved }))
            },
            ResumePhase::Mustering { resumption, request } => match reply {
                ApprovalReply::Named { delivery_token } => self.muster_resumed(
                    resumption,
                    request,
                    delivery_token.as_str(),
                    now,
                ),
                _ => Err(ApplicationError::new("tool-approval-over", "approval")),
            },
        }
    }

    /// One step of carrying out the approval of a call.
    pub fn carry_out_approval(&mut self, phase: ApprovalPhase, reply: ApprovalReply, now: i64) -> (r:
        Result<(ApprovalPhase, ApprovalAction), ApplicationError>)
        requires
            approval_reply_fits(old(self)@, phase@, reply@),
        ensures
            (final(self)@, approving(r)) == approval_step(old(self)@, phase@, reply@, now),
    {
        match phase {
            ApprovalPhase::Leasing { invocation, waiters } => match reply {
                ApprovalReply::Site { site } => self.lease_for_approved(
                    invocation,
                    waiters,
                    &site,
                    now,
                ),
                _ => Err(ApplicationError::new("tool-approval-over", "approval")),
            },
            ApprovalPhase::Making { invocation, waiters, lease } => match reply {
                ApprovalReply::Made { approved } => self.show_approved(
                    invocation,
                    waiters,
                    lease,
                    Ok(approved),
                ),
                ApprovalReply::CallFailed { error } => self.show_approved(
                    invocation,
                    waiters,
                    lease,
                    Err(error),
                ),
                _ => Err(ApplicationError::new("tool-approval-over", "approval")),
            },
            ApprovalPhase::Showing { invocation, waiters, approved } => self.go_on_after_showing(
                invocation,
                waiters,
                approved,
            ),
            ApprovalPhase::Resuming { phase } => self.resume_approved(phase, reply, now),
            ApprovalPhase::Releasing { mission_id, approved } => {
                let driven = mission_id.clone();
                Ok(
                    (
                        ApprovalPhase::Driving { mission_id, approved },
                        ApprovalAction::DriveEffects { mission_id: driven },
                    ),
                )
            },
            ApprovalPhase::Driving { mission_id, approved } => Ok(
                (
                    ApprovalPhase::Closing { approved },
                    ApprovalAction::LookAtMission { mission_id },
                ),
            ),
            ApprovalPhase::Closing { approved } => match reply {
                ApprovalReply::Mission { mission } => close_mission(approved, mission),
                _ => Err(ApplicationError::new("tool-approval-over", "approval")),
            },
            ApprovalPhase::Ending { approved } => Ok(
                (ApprovalPhase::Over, ApprovalAction::Finish { approved }),
            ),
            ApprovalPhase::Over => Err(ApplicationError::new("tool-approval-over", "approval")),
        }
    }
}

/// How much is left to be done for an approval.
pub open spec fn approval_left(phase: ApprovalPhaseView) -> (int, int) {
    match phase {
        ApprovalPhaseView::Leasing { .. } => (14, 0),
        ApprovalPhaseView::Making { .. } => (13, 0),
        ApprovalPhaseView::Showing { .. } => (12, 0),
        ApprovalPhaseView::Resuming { phase } => match phase {
            ResumePhaseView::Resolving { .. } => (11, 0),
            ResumePhaseView::Listing { .. } => (10, 0),
            ResumePhaseView::Claiming { .. } => (9, 0),
            ResumePhaseView::Keeping { .. } => (8, 0),
            ResumePhaseView::Calling { calls, .. } => (7, calls_left(calls)),
            ResumePhaseView::Asking { .. } => (6, 0),
            ResumePhaseView::Requesting { .. } => (5, 0),
            ResumePhaseView::Parking { .. } => (4, 0),
            ResumePhaseView::Mustering { .. } => (4, 0),
        },
        ApprovalPhaseView::Releasing { .. } => (4, 0),
        ApprovalPhaseView::Driving { .. } => (3, 0),
        ApprovalPhaseView::Closing { .. } => (2, 0),
        ApprovalPhaseView::Ending { .. } => (1, 0),
        ApprovalPhaseView::Over => (0, 0),
    }
}

/// The call that was approved, once it was made.
pub open spec fn approved_so_far(phase: ApprovalPhaseView) -> Option<InvocationView> {
    match phase {
        ApprovalPhaseView::Leasing { .. } => None,
        ApprovalPhaseView::Making { .. } => None,
        ApprovalPhaseView::Showing { approved, .. } => Some(approved),
        ApprovalPhaseView::Resuming { phase } => Some(
            match phase {
                ResumePhaseView::Resolving { approved, .. } => approved,
                ResumePhaseView::Listing { approved, .. } => approved,
                ResumePhaseView::Claiming { approved, .. } => approved,
                ResumePhaseView::Keeping { approved, .. } => approved,
                ResumePhaseView::Calling { resumption, .. } => resumption.approved,
                ResumePhaseView::Asking { resumption, .. } => resumption.approved,
                ResumePhaseView::Requesting { resumption, .. } => resumption.approved,
                ResumePhaseView::Parking { resumption, .. } => resumption.approved,
                ResumePhaseView::Mustering { resumption, .. } => resumption.approved,
            },
        ),
        ApprovalPhaseView::Releasing { approved, .. } => Some(approved),
        ApprovalPhaseView::Driving { approved, .. } => Some(approved),
        ApprovalPhaseView::Closing { approved } => Some(approved),
        ApprovalPhaseView::Ending { approved } => Some(approved),
        ApprovalPhaseView::Over => None,
    }
}

/// There is less to be done, and the call that was approved is kept or given back.
pub open spec fn gets_on(
    phase: ApprovalPhaseView,
    done: Outcome<(ApprovalPhaseView, ApprovalActionView)>,
) -> bool {
    done matches Outcome::Done((next, action)) ==> {
        &&& 0 <= approval_left(next).0 < approval_left(phase).0 || (approval_left(next).0
            == approval_left(phase).0 && 0 <= approval_left(next).1 < approval_left(phase).1)
        &&& approved_so_far(phase) matches Some(approved) ==> match action {
            ApprovalActionView::Finish { approved: given } => given == approved,
            _ => approved_so_far(next) == Some(approved),
        }
    }
}

proof fn lemma_resuming_gets_on(s: AppView, phase: ResumePhaseView, reply: ApprovalReplyView, now: i64)
    requires
        resume_reply_fits(phase, reply),
    ensures
        gets_on(ApprovalPhaseView::Resuming { phase }, resume_step(s, phase, reply, now).1),
{
    reveal(resume_step);
    match phase {
        ResumePhaseView::Listing { .. } => {
            reveal(listed_step);
        },
        ResumePhaseView::Claiming { .. } => {
            reveal(claimed_step);
        },
        ResumePhaseView::Keeping { .. } => {
            reveal(kept_step);
        },
        ResumePhaseView::Calling { calls, .. } => {
            reveal(call_step);
            law_calls_come_to_an_end(s, calls, reply->reply, now);
        },
        ResumePhaseView::Asking { .. } => {
            reveal(asking_step);
        },
        ResumePhaseView::Requesting { .. } => {
            reveal(requested_step);
        },
        ResumePhaseView::Mustering { .. } => {
            reveal(ready_step);
        },
        _ => {},
    }
}

/// Carrying out an approval comes to an end: with every step there is less to be done. What comes of it
/// is the call as it came out, whoever goes on after it.
pub proof fn law_approvals_come_to_an_end(
    s: AppView,
    phase: ApprovalPhaseView,
    reply: ApprovalReplyView,
    now: i64,
)
    requires
        approval_reply_fits(s, phase, reply),
    ensures
        gets_on(phase, approval_step(s, phase, reply, now).1),
{
    match phase {
        ApprovalPhaseView::Leasing { .. } => {
            reveal(leased_step);
        },
        ApprovalPhaseView::Making { .. } => {
            reveal(made_step);
        },
        ApprovalPhaseView::Showing { .. } => {
            reveal(shown_step);
        },
        ApprovalPhaseView::Resuming { phase } => {
            lemma_resuming_gets_on(s, phase, reply, now);
        },
        ApprovalPhaseView::Closing { .. } => {
            reveal(closed_step);
        },
        _ => {},
    }
}

} // verus!
