//! The effects of a mission, one after the other, until there is none left: what is to be done
//! outside is an action, and what came of it is a reply.

use vstd::prelude::*;
use vstd::string::*;

use crate::application::{AppView, HarnessApplication, InvocationView, ToolInvocation};
use crate::effects::{
    abandon_step, await_step, awaited, awaited_invocation, cancel_run_step, submit_step, verify_step,
};
use crate::error::{error_text, failure, ApplicationError, ErrorView, Outcome};
use crate::execution::{AgentWorkingContext, WorkingView};
use crate::mission::{
    ClaimedEffect, ClaimedEffectView, EffectIntent, EventView, HarnessEvent, IntentView,
    MissionState, MissionStep, MissionStepView, MissionView,
};
use crate::model::{option_view, views};
use crate::runs::begin_run_step;
use crate::team_finish::{
    approval_command, failed_step, failed_with, ApprovalView, PendingApproval,
};
use crate::waves::{agent_status, agent_status_event};

verus! {

/// How far the effects have come.
pub enum EffectPhase {
    Idle,
    Reading { claimed: ClaimedEffect },
    Executing { claimed: ClaimedEffect, agent_id: String },
    Asking { claimed: ClaimedEffect, invocation_id: String },
    Parking { claimed: ClaimedEffect, request_id: String, invocation_id: String },
    Failing { claimed: ClaimedEffect, agent_id: String, error: ApplicationError },
    GivingUp { error: ApplicationError },
    Parked,
}

pub enum PhaseView {
    Idle,
    Reading { claimed: ClaimedEffectView },
    Executing { claimed: ClaimedEffectView, agent_id: Seq<char> },
    Asking { claimed: ClaimedEffectView, invocation_id: Seq<char> },
    Parking { claimed: ClaimedEffectView, request_id: Seq<char>, invocation_id: Seq<char> },
    Failing { claimed: ClaimedEffectView, agent_id: Seq<char>, error: ErrorView },
    GivingUp { error: ErrorView },
    Parked,
}

impl View for EffectPhase {
    type V = PhaseView;

    open spec fn view(&self) -> PhaseView {
        match *self {
            EffectPhase::Idle => PhaseView::Idle,
            EffectPhase::Reading { claimed } => PhaseView::Reading {
                claimed: claimed@,
            },
            EffectPhase::Executing { claimed, agent_id } => PhaseView::Executing {
                claimed: claimed@,
                agent_id: agent_id@,
            },
            EffectPhase::Asking { claimed, invocation_id } => PhaseView::Asking {
                claimed: claimed@,
                invocation_id: invocation_id@,
            },
            EffectPhase::Parking { claimed, request_id, invocation_id } => PhaseView::Parking {
                claimed: claimed@,
                request_id: request_id@,
                invocation_id: invocation_id@,
            },
            EffectPhase::Failing { claimed, agent_id, error } => PhaseView::Failing {
                claimed: claimed@,
                agent_id: agent_id@,
                error: error@,
            },
            EffectPhase::GivingUp { error } => PhaseView::GivingUp {
                error: error@,
            },
            EffectPhase::Parked => PhaseView::Parked,
        }
    }
}

/// What came of an action.
pub enum EffectReply {
    Nothing,
    Lost,
    Claimed { claimed: ClaimedEffect },
    Mission { state: MissionState },
    Briefed { state: MissionState, context: AgentWorkingContext },
    Answered { output: String },
    Refused { error: ApplicationError },
    Call { invocation: Option<ToolInvocation>, approvals: Vec<PendingApproval> },
    Performed,
}

pub enum ReplyView {
    Nothing,
    Lost,
    Claimed { claimed: ClaimedEffectView },
    Mission { state: MissionView },
    Briefed { state: MissionView, context: WorkingView },
    Answered { output: Seq<char> },
    Refused { error: ErrorView },
    Call { invocation: Option<InvocationView>, approvals: Seq<ApprovalView> },
    Performed,
}

impl View for EffectReply {
    type V = ReplyView;

    open spec fn view(&self) -> ReplyView {
        match *self {
            EffectReply::Nothing => ReplyView::Nothing,
            EffectReply::Lost => ReplyView::Lost,
            EffectReply::Claimed { claimed } => ReplyView::Claimed {
                claimed: claimed@,
            },
            EffectReply::Mission { state } => ReplyView::Mission {
                state: state@,
            },
            EffectReply::Briefed { state, context } => ReplyView::Briefed {
                state: state@,
                context: context@,
            },
            EffectReply::Answered { output } => ReplyView::Answered {
                output: output@,
            },
            EffectReply::Refused { error } => ReplyView::Refused {
                error: error@,
            },
            EffectReply::Call { invocation, approvals } => ReplyView::Call {
                invocation: option_view(invocation),
                approvals: views(approvals@),
            },
            EffectReply::Performed => ReplyView::Performed,
        }
    }
}

/// What is to be done next.
pub enum EffectAction {
    Claim,
    ReadMission,
    Brief { node_id: String },
    Execute { event: HarnessEvent, agent_id: String, run_id: String },
    FindCall { invocation_id: String },
    Perform { steps: Vec<MissionStep> },
    Finish,
}

pub enum ActionView {
    Claim,
    ReadMission,
    Brief { node_id: Seq<char> },
    Execute { event: EventView, agent_id: Seq<char>, run_id: Seq<char> },
    FindCall { invocation_id: Seq<char> },
    Perform { steps: Seq<MissionStepView> },
    Finish,
}

impl View for EffectAction {
    type V = ActionView;

    open spec fn view(&self) -> ActionView {
        match *self {
            EffectAction::Claim => ActionView::Claim,
            EffectAction::ReadMission => ActionView::ReadMission,
            EffectAction::Brief { node_id } => ActionView::Brief {
                node_id: node_id@,
            },
            EffectAction::Execute { event, agent_id, run_id } => ActionView::Execute {
                event: event@,
                agent_id: agent_id@,
                run_id: run_id@,
            },
            EffectAction::FindCall { invocation_id } => ActionView::FindCall {
                invocation_id: invocation_id@,
            },
            EffectAction::Perform { steps } => ActionView::Perform {
                steps: views(steps@),
            },
            EffectAction::Finish => ActionView::Finish,
        }
    }
}

/// The node and the run of an effect.
pub open spec fn node_of(claimed: ClaimedEffectView) -> Seq<char> {
    match claimed.intent {
        IntentView::StartAgentRun { node_id, .. } => node_id,
        IntentView::ResumeAgentRun { node_id, .. } => node_id,
        IntentView::VerifyAgentRun { node_id, .. } => node_id,
        IntentView::CancelAgentRun { node_id, .. } => node_id,
    }
}

pub open spec fn run_of(claimed: ClaimedEffectView) -> Seq<char> {
    match claimed.intent {
        IntentView::StartAgentRun { run_id, .. } => run_id,
        IntentView::ResumeAgentRun { run_id, .. } => run_id,
        IntentView::VerifyAgentRun { run_id, .. } => run_id,
        IntentView::CancelAgentRun { run_id, .. } => run_id,
    }
}

/// Whether an effect sets an agent to work.
pub open spec fn sets_to_work(claimed: ClaimedEffectView) -> bool {
    claimed.intent is StartAgentRun || claimed.intent is ResumeAgentRun
}

/// Whether a reply is one to the action of a phase.
pub open spec fn reply_fits(phase: PhaseView, reply: ReplyView) -> bool {
    match phase {
        PhaseView::Idle => reply is Nothing || reply is Lost || reply is Claimed
            || reply is Performed,
        PhaseView::Reading { claimed } => if sets_to_work(claimed) {
            reply is Briefed
        } else {
            reply is Mission
        },
        PhaseView::Executing { .. } => reply is Answered || reply is Refused,
        PhaseView::Asking { .. } => reply is Call,
        _ => reply is Performed,
    }
}

/// Nothing more is done after an error.
pub open spec fn stopped(e: ErrorView) -> Outcome<(PhaseView, ActionView)> {
    Outcome::Failed(e)
}

pub open spec fn go_on(phase: PhaseView, action: ActionView) -> Outcome<(PhaseView, ActionView)> {
    Outcome::Done((phase, action))
}

/// Steps are performed and then the next effect is claimed.
pub open spec fn perform_and_claim(step: (AppView, Outcome<Seq<MissionStepView>>)) -> (
    AppView,
    Outcome<(PhaseView, ActionView)>,
) {
    (
        step.0,
        match step.1 {
            Outcome::Failed(e) => stopped(e),
            Outcome::Done(steps) => go_on(PhaseView::Idle, ActionView::Perform { steps }),
        },
    )
}

/// One step is performed, and what comes after it is the next phase.
pub open spec fn perform_one(step: (AppView, Outcome<MissionStepView>), next: PhaseView) -> (
    AppView,
    Outcome<(PhaseView, ActionView)>,
) {
    (
        step.0,
        match step.1 {
            Outcome::Failed(e) => stopped(e),
            Outcome::Done(one) => go_on(next, ActionView::Perform { steps: seq![one] }),
        },
    )
}

/// What is done with an effect once the mission is known.
pub open spec fn read_step(
    s: AppView,
    mission_id: Seq<char>,
    claimed: ClaimedEffectView,
    reply: ReplyView,
    now: i64,
) -> (AppView, Outcome<(PhaseView, ActionView)>) {
    let node = node_of(claimed);
    let run = run_of(claimed);
    match claimed.intent {
        IntentView::VerifyAgentRun { .. } => perform_and_claim(
            verify_step(s, reply->Mission_state, claimed, node, run, now),
        ),
        IntentView::CancelAgentRun { reason, .. } => perform_and_claim(
            cancel_run_step(s, reply->Mission_state, claimed, node, run, reason, now),
        ),
        _ => {
            let (s1, r1) = begin_run_step(
                s,
                reply->Briefed_state,
                mission_id,
                node,
                run,
                reply->context,
                now,
            );
            (
                s1,
                match r1 {
                    Outcome::Failed(e) => stopped(e),
                    Outcome::Done((agent, role)) => go_on(
                        PhaseView::Executing { claimed, agent_id: agent },
                        ActionView::Execute {
                            event: agent_status(agent, role, "running"@, node),
                            agent_id: agent,
                            run_id: run,
                        },
                    ),
                },
            )
        },
    }
}

/// What is done when a run could not come to an end: a call that has to be approved is looked for,
/// any other error fails the effect.
pub open spec fn refused_step(
    s: AppView,
    claimed: ClaimedEffectView,
    agent: Seq<char>,
    error: ErrorView,
    now: i64,
) -> Outcome<(PhaseView, ActionView)> {
    match awaited(error) {
        None => go_on(
            PhaseView::Failing { claimed, agent_id: agent, error },
            ActionView::Perform { steps: seq![failed_with(claimed, error_text(error), now)] },
        ),
        Some(Outcome::Failed(e)) => stopped(e),
        Some(Outcome::Done(invocation_id)) => if !s.tools_ready {
            failure("tool-runtime-missing"@, "Tool Runtime 尚未注入"@)
        } else {
            go_on(
                PhaseView::Asking { claimed, invocation_id },
                ActionView::FindCall { invocation_id },
            )
        },
    }
}

/// What is done with the call that has to be approved: the mission asks for the approval.
pub open spec fn asked_step(
    s: AppView,
    claimed: ClaimedEffectView,
    invocation_id: Seq<char>,
    invocation: Option<InvocationView>,
    approvals: Seq<ApprovalView>,
) -> Outcome<(PhaseView, ActionView)> {
    match invocation {
        None => failure("tool-invocation-not-found"@, invocation_id),
        Some(call) => match approval_command(
            s.tools_ready,
            approvals,
            call,
            node_of(claimed),
            run_of(claimed),
        ) {
            Outcome::Failed(e) => stopped(e),
            Outcome::Done(command) => go_on(
                PhaseView::Parking {
                    claimed,
                    request_id: call.approval_request_id->0,
                    invocation_id,
                },
                ActionView::Perform { steps: seq![MissionStepView::Command { command }] },
            ),
        },
    }
}

/// One step of the effects: from how far they have come and what came of the last action, to how far
/// they come and what is to be done next.
pub open spec fn drive_step(
    s: AppView,
    mission_id: Seq<char>,
    phase: PhaseView,
    reply: ReplyView,
    now: i64,
) -> (AppView, Outcome<(PhaseView, ActionView)>) {
    match phase {
        PhaseView::Idle => match reply {
            ReplyView::Nothing => (s, go_on(PhaseView::Idle, ActionView::Finish)),
            ReplyView::Lost => (s, failure("effect-claim-lost"@, "Effect 被其他 Runner 领取"@)),
            ReplyView::Claimed { claimed } => (
                s,
                go_on(
                    PhaseView::Reading { claimed },
                    if sets_to_work(claimed) {
                        ActionView::Brief { node_id: node_of(claimed) }
                    } else {
                        ActionView::ReadMission
                    },
                ),
            ),
            _ => (s, go_on(PhaseView::Idle, ActionView::Claim)),
        },
        PhaseView::Reading { claimed } => read_step(s, mission_id, claimed, reply, now),
        PhaseView::Executing { claimed, agent_id } => match reply {
            ReplyView::Answered { output } => perform_and_claim(
                submit_step(s, claimed, node_of(claimed), run_of(claimed), output, now),
            ),
            _ => (s, refused_step(s, claimed, agent_id, reply->error, now)),
        },
        PhaseView::Asking { claimed, invocation_id } => (
            s,
            asked_step(s, claimed, invocation_id, reply->invocation, reply->approvals),
        ),
        PhaseView::Parking { claimed, request_id, invocation_id } => perform_one(
            await_step(s, claimed, run_of(claimed), request_id, invocation_id, now),
            PhaseView::Parked,
        ),
        PhaseView::Failing { claimed, agent_id, error } => perform_one(
            abandon_step(s, agent_id, node_of(claimed), run_of(claimed), error, now),
            PhaseView::GivingUp { error },
        ),
        PhaseView::GivingUp { error } => (s, stopped(error)),
        PhaseView::Parked => (s, go_on(PhaseView::Parked, ActionView::Finish)),
    }
}

/// The outcome of a step.
pub open spec fn driven(r: Result<(EffectPhase, EffectAction), ApplicationError>) -> Outcome<(
    PhaseView,
    ActionView,
)> {
    match r {
        Ok((phase, action)) => Outcome::Done((phase@, action@)),
        Err(error) => Outcome::Failed(error@),
    }
}

fn node_and_run(claimed: &ClaimedEffect) -> (r: (String, String))
    ensures
        r.0@ == node_of(claimed@),
        r.1@ == run_of(claimed@),
{
    match &claimed.intent {
        EffectIntent::StartAgentRun { node_id, run_id } => (node_id.clone(), run_id.clone()),
        EffectIntent::ResumeAgentRun { node_id, run_id } => (node_id.clone(), run_id.clone()),
        EffectIntent::VerifyAgentRun { node_id, run_id } => (node_id.clone(), run_id.clone()),
        EffectIntent::CancelAgentRun { node_id, run_id, .. } => (node_id.clone(), run_id.clone()),
    }
}

fn starts_work(claimed: &ClaimedEffect) -> (r: bool)
    ensures
        r == sets_to_work(claimed@),
{
    match &claimed.intent {
        EffectIntent::StartAgentRun { .. } | EffectIntent::ResumeAgentRun { .. } => true,
        _ => false,
    }
}

fn one_step(step: MissionStep) -> (r: Vec<MissionStep>)
    ensures
        views(r@) == seq![step@],
{
    let r: Vec<MissionStep> = vec![step];
    assert(views(r@) =~= seq![step@]);
    r
}

impl HarnessApplication {
    fn drive_reading(
        &mut self,
        mission_id: &str,
        claimed: ClaimedEffect,
        reply: EffectReply,
        now: i64,
    ) -> (r: Result<(EffectPhase, EffectAction), ApplicationError>)
        requires
            reply_fits((PhaseView::Reading { claimed: claimed@ }), reply@),
        ensures
            (final(self)@, driven(r)) == read_step(
                old(self)@,
                mission_id@,
                claimed@,
                reply@,
                now,
            ),
    {
        let (node_id, run_id) = node_and_run(&claimed);
        match reply {
            EffectReply::Briefed { state, context } => match self.begin_agent_run(
                &state,
                mission_id,
                node_id.as_str(),
                run_id.as_str(),
                &context,
                now,
            ) {
                Ok((agent_id, role)) => {
                    let event = agent_status_event(
                        agent_id.as_str(),
                        role,
                        "running",
                        node_id.as_str(),
                    );
                    Ok(
                        (
                            EffectPhase::Executing { claimed, agent_id: agent_id.clone() },
                            EffectAction::Execute { event, agent_id, run_id },
                        ),
                    )
                },
                Err(error) => Err(error),
            },
            EffectReply::Mission { state } => {
                let done = match &claimed.intent {
                    EffectIntent::CancelAgentRun { reason, .. } => self.cancel_run(
                        &state,
                        &claimed,
                        node_id.as_str(),
                        run_id.as_str(),
                        reason.as_str(),
                        now,
                    ),
                    _ => self.verify_run(
                        &state,
                        &claimed,
                        node_id.as_str(),
                        run_id.as_str(),
                        now,
                    ),
                };
                match done {
                    Ok(steps) => Ok((EffectPhase::Idle, EffectAction::Perform { steps })),
                    Err(error) => Err(error),
                }
            },
            _ => Ok((EffectPhase::Idle, EffectAction::Finish)),
        }
    }

    fn drive_refused(
        &self,
        claimed: ClaimedEffect,
        agent_id: String,
        error: ApplicationError,
        now: i64,
    ) -> (r: Result<(EffectPhase, EffectAction), ApplicationError>)
        ensures
            driven(r) == refused_step(self@, claimed@, agent_id@, error@, now),
    {
        match awaited_invocation(&error) {
            None => {
                let steps = one_step(failed_step(&claimed, error.text().as_str(), now));
                Ok(
                    (
                        EffectPhase::Failing { claimed, agent_id, error },
                        EffectAction::Perform { steps },
                    ),
                )
            },
            Some(Err(invalid)) => Err(invalid),
            Some(Ok(invocation_id)) => {
                if !self.tools_ready {
                    return Err(
                        ApplicationError::new("tool-runtime-missing", "Tool Runtime 尚未注入"),
                    );
                }
                Ok(
                    (
                        EffectPhase::Asking { claimed, invocation_id: invocation_id.clone() },
                        EffectAction::FindCall { invocation_id },
                    ),
                )
            },
        }
    }

    fn drive_asked(
        &self,
        claimed: ClaimedEffect,
        invocation_id: String,
        invocation: Option<ToolInvocation>,
        approvals: Vec<PendingApproval>,
    ) -> (r: Result<(EffectPhase, EffectAction), ApplicationError>)
        ensures
            driven(r) == asked_step(
                self@,
                claimed@,
                invocation_id@,
                option_view(invocation),
                views(approvals@),
            ),
    {
        let call = match invocation {
            Some(call) => call,
            None => {
                return Err(
                    ApplicationError::new("tool-invocation-not-found", invocation_id.as_str()),
                );
            },
        };
        let (node_id, run_id) = node_and_run(&claimed);
        match self.request_approval(&approvals, &call, node_id.as_str(), run_id.as_str()) {
            Ok(command) => {
                let request_id: String = match &call.approval_request_id {
                    Some(id) => id.clone(),
                    None => String::new(),
                };
                Ok(
                    (
                        EffectPhase::Parking { claimed, request_id, invocation_id },
                        EffectAction::Perform {
                            steps: one_step(MissionStep::Command { command }),
                        },
                    ),
                )
            },
            Err(error) => Err(error),
        }
    }

    /// One step of the effects of a mission.
    pub fn drive_effects(
        &mut self,
        mission_id: &str,
        phase: EffectPhase,
        reply: EffectReply,
        now: i64,
    ) -> (r: Result<(EffectPhase, EffectAction), ApplicationError>)
        requires
            reply_fits(phase@, reply@),
        ensures
            (final(self)@, driven(r)) == drive_step(
                old(self)@,
                mission_id@,
                phase@,
                reply@,
                now,
            ),
    {
        match phase {
            EffectPhase::Idle => match reply {
                EffectReply::Nothing => Ok((EffectPhase::Idle, EffectAction::Finish)),
                EffectReply::Lost => Err(
                    ApplicationError::new("effect-claim-lost", "Effect 被其他 Runner 领取"),
                ),
                EffectReply::Claimed { claimed } => {
                    let action = if starts_work(&claimed) {
                        EffectAction::Brief { node_id: node_and_run(&claimed).0 }
                    } else {
                        EffectAction::ReadMission
                    };
                    Ok((EffectPhase::Reading { claimed }, action))
                },
                _ => Ok((EffectPhase::Idle, EffectAction::Claim)),
            },
            EffectPhase::Reading { claimed } => self.drive_reading(mission_id, claimed, reply, now),
            EffectPhase::Executing { claimed, agent_id } => match reply {
                EffectReply::Answered { output } => {
                    let (node_id, run_id) = node_and_run(&claimed);
                    match self.submit_output(
                        &claimed,
                        node_id.as_str(),
                        run_id.as_str(),
                        output.as_str(),
                        now,
                    ) {
                        Ok(steps) => Ok((EffectPhase::Idle, EffectAction::Perform { steps })),
                        Err(error) => Err(error),
                    }
                },
                EffectReply::Refused { error } => self.drive_refused(claimed, agent_id, error, now),
                _ => Ok((EffectPhase::Idle, EffectAction::Finish)),
            },
            EffectPhase::Asking { claimed, invocation_id } => match reply {
                EffectReply::Call { invocation, approvals } => self.drive_asked(
                    claimed,
                    invocation_id,
                    invocation,
                    approvals,
                ),
                _ => Ok((EffectPhase::Idle, EffectAction::Finish)),
            },
            EffectPhase::Parking { claimed, request_id, invocation_id } => {
                let (_, run_id) = node_and_run(&claimed);
                match self.await_approval(
                    &claimed,
                    run_id.as_str(),
                    request_id.as_str(),
                    invocation_id.as_str(),
                    now,
                ) {
                    Ok(step) => Ok(
                        (EffectPhase::Parked, EffectAction::Perform { steps: one_step(step) }),
                    ),
                    Err(error) => Err(error),
                }
            },
            EffectPhase::Failing { claimed, agent_id, error } => {
                let (node_id, run_id) = node_and_run(&claimed);
                match self.abandon_run(
                    agent_id.as_str(),
                    node_id.as_str(),
                    run_id.as_str(),
                    &error,
                    now,
                ) {
                    Ok(step) => Ok(
                        (
                            EffectPhase::GivingUp { error },
                            EffectAction::Perform { steps: one_step(step) },
                        ),
                    ),
                    Err(refused) => Err(refused),
                }
            },
            EffectPhase::GivingUp { error } => Err(error),
            EffectPhase::Parked => Ok((EffectPhase::Parked, EffectAction::Finish)),
        }
    }
}

/// Steps that complete effects.
pub open spec fn completions(steps: Seq<MissionStepView>) -> nat
    decreases steps.len(),
{
    if steps.len() == 0 {
        0
    } else {
        completions(steps.drop_last()) + if steps.last() is Complete {
            1nat
        } else {
            0
        }
    }
}

/// Whether the effect of a phase is still open.
pub open spec fn is_open(phase: PhaseView) -> bool {
    phase is Reading || phase is Executing || phase is Asking || phase is Parking
}

/// Every effect that was claimed is completed once: a step completes it exactly if it was open and is
/// open no more.
pub proof fn law_effects_are_completed_once(
    s: AppView,
    mission_id: Seq<char>,
    phase: PhaseView,
    reply: ReplyView,
    now: i64,
)
    requires
        reply_fits(phase, reply),
    ensures
        drive_step(s, mission_id, phase, reply, now).1 matches Outcome::Done((next, action)) ==> {
            let done = match action {
                ActionView::Perform { steps } => completions(steps),
                _ => 0,
            };
            done == if is_open(phase) && !is_open(next) {
                1nat
            } else {
                0
            }
        },
{
    reveal_with_fuel(completions, 3);
    match drive_step(s, mission_id, phase, reply, now).1 {
        Outcome::Done((next, ActionView::Perform { steps })) => {
            if steps.len() == 2 {
                assert(steps.drop_last() =~= seq![steps[0]]);
            }
            if steps.len() >= 1 {
                assert(seq![steps[0]].drop_last() =~= Seq::empty());
                assert(steps.len() == 1 ==> steps =~= seq![steps[0]]);
            }
        },
        _ => {},
    }
}

/// A run that has failed is reported with its own error, after its effect and its node have failed.
pub proof fn law_failures_are_reported(
    s: AppView,
    mission_id: Seq<char>,
    claimed: ClaimedEffectView,
    agent: Seq<char>,
    error: ErrorView,
    now: i64,
)
    requires
        error.code != "tool-approval-required"@,
    ensures
        ({
            let executing = PhaseView::Executing { claimed, agent_id: agent };
            let (s1, r1) = drive_step(
                s,
                mission_id,
                executing,
                ReplyView::Refused { error },
                now,
            );
            &&& s1 == s
            &&& r1 == go_on(
                PhaseView::Failing { claimed, agent_id: agent, error },
                ActionView::Perform { steps: seq![failed_with(claimed, error_text(error), now)] },
            )
            &&& drive_step(
                s,
                mission_id,
                PhaseView::GivingUp { error },
                ReplyView::Performed,
                now,
            ) == (s, stopped(error))
        }),
{
}

} // verus!
