//! How a wave of a team is finished, from outcome to outcome: what is to be done for each, and what
//! comes after the last.

use vstd::prelude::*;
use vstd::string::*;

use crate::application::{
    AgentTeamContinuation, AppView, HarnessApplication, PendingParallelView, PreparedAgentTeam,
    PreparedView, TeamView, WaitingParallelTool, WaitingToolView,
};
use crate::budget::BudgetEscrowStatus;
use crate::error::{failure, ApplicationError, ErrorView, Outcome};
use crate::execution::{
    AgentExecutionOutcome, AgentExecutionRequest, RequestView, RunOutcomeView,
};
use crate::mission::{
    ClaimedEffect, ClaimedEffectView, CommandView, MissionCommand, MissionState, MissionStep,
    MissionStepView, MissionView,
};
use crate::model::{option_view, views};
use crate::ordered::TextSet;
use crate::parallel::{
    calls_left, calls_reply_fits, law_calls_come_to_an_end, parallel_first, parallel_step,
    CallsAction, CallsActionView, CallsPhase, CallsPhaseView, CallsReply, CallsReplyView,
};
use crate::plans::{all_accepted, is_ready_to_complete};
use crate::results::{AgentResult, AgentResultEnvelope, EnvelopeView, EvidenceView, ResultView};
use crate::roles::{gathers_diagnostics, role_gathers_diagnostics};
use crate::runs::{finish_run_step, set_status_step, working_role};
use crate::state_store::AgentSessionStatus;
use crate::team_finish::{
    accept_step, approval_command, cancel_task, cancel_team, cancel_team_steps,
    cancelled_task_steps, course, course_of, diagnostics_evidence, fail_step, go_on_step,
    leftover_outcome, lsp_run_evidence, next_wave, park_step, without_run, yield_step,
    ApprovalView, CourseView, DiagnosticView, FinishView, LspDiagnosticEvidence, OutcomeCourse,
    PendingApproval, TeamFinish,
};
use crate::tool_calls::{yielded, ParallelCalls, ParallelCallsView};
use crate::waves::{empty_team, enlisted};

verus! {

/// A wave that is being finished: the outcomes that are still to be looked at, and the tasks that the
/// user has taken out of the queue.
pub struct Wave {
    pub finish: TeamFinish,
    pub rest: Vec<AgentExecutionOutcome>,
    pub cancelled: TextSet,
}

pub struct WaveView {
    pub finish: FinishView,
    pub rest: Seq<RunOutcomeView>,
    pub cancelled: Set<Seq<char>>,
}

impl View for Wave {
    type V = WaveView;

    open spec fn view(&self) -> WaveView {
        WaveView {
            finish: self.finish@,
            rest: views(self.rest@),
            cancelled: self.cancelled@,
        }
    }
}

/// A run whose outcome is looked at, and the effect that was claimed for it.
pub struct EndedRun {
    pub claimed: ClaimedEffect,
    pub agent_id: String,
    pub task_id: String,
    pub run_id: String,
}

pub struct EndedView {
    pub claimed: ClaimedEffectView,
    pub agent_id: Seq<char>,
    pub task_id: Seq<char>,
    pub run_id: Seq<char>,
}

impl View for EndedRun {
    type V = EndedView;

    open spec fn view(&self) -> EndedView {
        EndedView {
            claimed: self.claimed@,
            agent_id: self.agent_id@,
            task_id: self.task_id@,
            run_id: self.run_id@,
        }
    }
}

/// How far a wave is finished: an outcome is settled, its diagnostics are gathered, its calls are made,
/// its approval is looked for, asked for and waited for; then effects are driven, results are
/// coordinated, and the mission is looked at.
pub enum TeamPhase {
    Settling { wave: Wave },
    Gathering { wave: Wave, ended: EndedRun, result: AgentResult },
    Calling { wave: Wave, ended: EndedRun, calls: CallsPhase },
    Asking { wave: Wave, ended: EndedRun, request: AgentExecutionRequest, waiting: WaitingParallelTool },
    Requesting { wave: Wave, ended: EndedRun, request: AgentExecutionRequest, waiting: WaitingParallelTool, request_id: String },
    Parking { wave: Wave, request: AgentExecutionRequest, waiting: WaitingParallelTool },
    Driving { finish: TeamFinish },
    Coordinating { finish: TeamFinish },
    Closing,
    Stopping,
    Ending,
    Over,
}

pub enum TeamPhaseView {
    Settling { wave: WaveView },
    Gathering { wave: WaveView, ended: EndedView, result: ResultView },
    Calling { wave: WaveView, ended: EndedView, calls: CallsPhaseView },
    Asking { wave: WaveView, ended: EndedView, request: RequestView, waiting: WaitingToolView },
    Requesting { wave: WaveView, ended: EndedView, request: RequestView, waiting: WaitingToolView, request_id: Seq<char> },
    Parking { wave: WaveView, request: RequestView, waiting: WaitingToolView },
    Driving { finish: FinishView },
    Coordinating { finish: FinishView },
    Closing,
    Stopping,
    Ending,
    Over,
}

impl View for TeamPhase {
    type V = TeamPhaseView;

    open spec fn view(&self) -> TeamPhaseView {
        match *self {
            TeamPhase::Settling { wave } => TeamPhaseView::Settling {
                wave: wave@,
            },
            TeamPhase::Gathering { wave, ended, result } => TeamPhaseView::Gathering {
                wave: wave@,
                ended: ended@,
                result: result@,
            },
            TeamPhase::Calling { wave, ended, calls } => TeamPhaseView::Calling {
                wave: wave@,
                ended: ended@,
                calls: calls@,
            },
            TeamPhase::Asking { wave, ended, request, waiting } => TeamPhaseView::Asking {
                wave: wave@,
                ended: ended@,
                request: request@,
                waiting: waiting@,
            },
            TeamPhase::Requesting { wave, ended, request, waiting, request_id } => TeamPhaseView::Requesting {
                wave: wave@,
                ended: ended@,
                request: request@,
                waiting: waiting@,
                request_id: request_id@,
            },
            TeamPhase::Parking { wave, request, waiting } => TeamPhaseView::Parking {
                wave: wave@,
                request: request@,
                waiting: waiting@,
            },
            TeamPhase::Driving { finish } => TeamPhaseView::Driving {
                finish: finish@,
            },
            TeamPhase::Coordinating { finish } => TeamPhaseView::Coordinating {
                finish: finish@,
            },
            TeamPhase::Closing => TeamPhaseView::Closing,
            TeamPhase::Stopping => TeamPhaseView::Stopping,
            TeamPhase::Ending => TeamPhaseView::Ending,
            TeamPhase::Over => TeamPhaseView::Over,
        }
    }
}

/// What came of an action.
pub enum TeamReply {
    Did,
    Diagnostics { diagnostics: Vec<LspDiagnosticEvidence> },
    Call { reply: CallsReply },
    Approvals { approvals: Vec<PendingApproval> },
    Mission { mission: MissionState },
}

pub enum TeamReplyView {
    Did,
    Diagnostics { diagnostics: Seq<DiagnosticView> },
    Call { reply: CallsReplyView },
    Approvals { approvals: Seq<ApprovalView> },
    Mission { mission: MissionView },
}

impl View for TeamReply {
    type V = TeamReplyView;

    open spec fn view(&self) -> TeamReplyView {
        match *self {
            TeamReply::Did => TeamReplyView::Did,
            TeamReply::Diagnostics { diagnostics } => TeamReplyView::Diagnostics {
                diagnostics: views(diagnostics@),
            },
            TeamReply::Call { reply } => TeamReplyView::Call {
                reply: reply@,
            },
            TeamReply::Approvals { approvals } => TeamReplyView::Approvals {
                approvals: views(approvals@),
            },
            TeamReply::Mission { mission } => TeamReplyView::Mission {
                mission: mission@,
            },
        }
    }
}

/// What is to be done next.
pub enum TeamAction {
    /// Go on.
    Proceed,
    /// Do these steps, in order.
    Do { steps: Vec<MissionStep> },
    /// Look up what the diagnostics of a run showed.
    Diagnose { run_id: String },
    /// Do what a call of a tool needs.
    Call { action: CallsAction },
    /// List the approvals that are asked for.
    ListApprovals,
    DriveEffects,
    Coordinate { results: Vec<AgentResultEnvelope> },
    LookAtMission,
    /// The wave is finished; some agents may go on.
    Finish { next: Option<PreparedAgentTeam> },
}

pub enum TeamActionView {
    Proceed,
    Do { steps: Seq<MissionStepView> },
    Diagnose { run_id: Seq<char> },
    Call { action: CallsActionView },
    ListApprovals,
    DriveEffects,
    Coordinate { results: Seq<EnvelopeView> },
    LookAtMission,
    Finish { next: Option<PreparedView> },
}

impl View for TeamAction {
    type V = TeamActionView;

    open spec fn view(&self) -> TeamActionView {
        match *self {
            TeamAction::Proceed => TeamActionView::Proceed,
            TeamAction::Do { steps } => TeamActionView::Do { steps: views(steps@) },
            TeamAction::Diagnose { run_id } => TeamActionView::Diagnose { run_id: run_id@ },
            TeamAction::Call { action } => TeamActionView::Call { action: action@ },
            TeamAction::ListApprovals => TeamActionView::ListApprovals,
            TeamAction::DriveEffects => TeamActionView::DriveEffects,
            TeamAction::Coordinate { results } => TeamActionView::Coordinate {
                results: views(results@),
            },
            TeamAction::LookAtMission => TeamActionView::LookAtMission,
            TeamAction::Finish { next } => TeamActionView::Finish { next: option_view(next) },
        }
    }
}

pub open spec fn team_reply_fits(phase: TeamPhaseView, reply: TeamReplyView) -> bool {
    match phase {
        TeamPhaseView::Gathering { .. } => reply is Diagnostics,
        TeamPhaseView::Calling { calls, .. } => reply is Call && calls_reply_fits(
            calls,
            reply->reply,
        ),
        TeamPhaseView::Asking { .. } => reply is Approvals,
        TeamPhaseView::Closing => reply is Mission,
        TeamPhaseView::Over => false,
        _ => reply is Did,
    }
}

pub open spec fn team_on(phase: TeamPhaseView, action: TeamActionView) -> Outcome<
    (TeamPhaseView, TeamActionView),
> {
    Outcome::Done((phase, action))
}

/// A result is accepted.
pub open spec fn accepted_step(
    s: AppView,
    w: WaveView,
    ended: EndedView,
    result: ResultView,
    diagnostics: Seq<EvidenceView>,
    now: i64,
) -> (AppView, Outcome<(TeamPhaseView, TeamActionView)>) {
    let (s1, r1) = accept_step(
        s,
        ended.claimed,
        ended.agent_id,
        ended.task_id,
        ended.run_id,
        result,
        diagnostics,
        now,
    );
    (
        s1,
        match r1 {
            Outcome::Failed(e) => Outcome::Failed(e),
            Outcome::Done((steps, envelope)) => team_on(
                TeamPhaseView::Settling {
                    wave: WaveView {
                        finish: FinishView {
                            accepted: w.finish.accepted.push(envelope),
                            ..w.finish
                        },
                        ..w
                    },
                },
                TeamActionView::Do { steps },
            ),
        },
    )
}

/// What a step of the calls of an agent means for its run.
pub open spec fn after_call(
    s: AppView,
    w: WaveView,
    ended: EndedView,
    made: Outcome<(CallsPhaseView, CallsActionView)>,
    now: i64,
) -> (AppView, Outcome<(TeamPhaseView, TeamActionView)>) {
    match made {
        Outcome::Failed(e) => (s, Outcome::Failed(e)),
        Outcome::Done((_, CallsActionView::Resume { request })) => {
            let (s1, r1) = go_on_step(s, ended.run_id, now);
            (
                s1,
                match r1 {
                    Outcome::Failed(e) => Outcome::Failed(e),
                    Outcome::Done(_) => team_on(
                        TeamPhaseView::Settling {
                            wave: WaveView {
                                finish: FinishView {
                                    next: enlisted(w.finish.next, request, ended.claimed),
                                    ..w.finish
                                },
                                ..w
                            },
                        },
                        TeamActionView::Proceed,
                    ),
                },
            )
        },
        Outcome::Done((_, CallsActionView::Wait { request, waiting })) => (
            s,
            team_on(
                TeamPhaseView::Asking { wave: w, ended, request, waiting },
                TeamActionView::ListApprovals,
            ),
        ),
        Outcome::Done((calls, action)) => (
            s,
            team_on(
                TeamPhaseView::Calling { wave: w, ended, calls },
                TeamActionView::Call { action },
            ),
        ),
    }
}

/// The next outcome; after the last one, every claim and request has to be taken, and the effects are
/// driven.
pub open spec fn next_outcome(s: AppView, w: WaveView, now: i64) -> (
    AppView,
    Outcome<(TeamPhaseView, TeamActionView)>,
) {
    if w.rest.len() == 0 {
        (
            s,
            match leftover_outcome(w.finish.continuation) {
                Outcome::Failed(e) => Outcome::Failed(e),
                Outcome::Done(_) => team_on(
                    TeamPhaseView::Driving { finish: w.finish },
                    TeamActionView::DriveEffects,
                ),
            },
        )
    } else {
        let o = w.rest[0];
        let known = w.finish.continuation;
        if !known.claimed_by_run.contains_key(o.run_id) {
            (s, failure("agent-claimed-effect-missing"@, o.run_id))
        } else {
            let ended = EndedView {
                claimed: known.claimed_by_run[o.run_id],
                agent_id: o.agent_definition_id,
                task_id: o.task_id,
                run_id: o.run_id,
            };
            let request = if known.requests_by_run.contains_key(o.run_id) {
                Some(known.requests_by_run[o.run_id])
            } else {
                None
            };
            let left = WaveView {
                finish: without_run(w.finish, o.run_id),
                rest: w.rest.subrange(1, w.rest.len() as int),
                ..w
            };
            outcome_step(s, left, ended, request, course(o, w.cancelled), now)
        }
    }
}

/// What becomes of one outcome.
pub open spec fn outcome_step(
    s: AppView,
    w: WaveView,
    ended: EndedView,
    request: Option<RequestView>,
    course: CourseView,
    now: i64,
) -> (AppView, Outcome<(TeamPhaseView, TeamActionView)>) {
    match course {
        CourseView::Cancelled => (
            s,
            team_on(
                TeamPhaseView::Settling { wave: w },
                TeamActionView::Do {
                    steps: cancelled_task_steps(ended.claimed, ended.task_id, now),
                },
            ),
        ),
        CourseView::Failed { error } => {
            let (s1, r1) = fail_step(
                s,
                ended.claimed,
                ended.agent_id,
                ended.task_id,
                ended.run_id,
                error,
                now,
            );
            (
                s1,
                match r1 {
                    Outcome::Failed(e) => Outcome::Failed(e),
                    Outcome::Done(steps) => team_on(
                        TeamPhaseView::Settling { wave: w },
                        TeamActionView::Do { steps },
                    ),
                },
            )
        },
        CourseView::Finished { result } => if gathers_diagnostics(
            working_role(s, ended.agent_id),
        ) {
            (
                s,
                team_on(
                    TeamPhaseView::Gathering { wave: w, ended, result },
                    TeamActionView::Diagnose { run_id: ended.run_id },
                ),
            )
        } else {
            accepted_step(s, w, ended, result, Seq::empty(), now)
        },
        CourseView::Yielded { tool_yield } => {
            let (s1, r1) = yield_step(s, request, ended.run_id, now);
            match r1 {
                Outcome::Failed(e) => (s1, Outcome::Failed(e)),
                Outcome::Done(request) => {
                    let calls = ParallelCallsView {
                        request,
                        continuation: yielded(tool_yield),
                        calls: tool_yield.calls,
                        next: 0,
                    };
                    let (s2, made) = parallel_first(s1, calls, now);
                    after_call(s2, w, ended, made, now)
                },
            }
        },
    }
}

/// After the last outcome: the agents that go on, or else a look at the mission.
pub open spec fn closing_step(s: AppView, f: FinishView, now: i64) -> Outcome<
    (TeamPhaseView, TeamActionView),
> {
    match next_wave(s, f, now) {
        Outcome::Failed(e) => Outcome::Failed(e),
        Outcome::Done(Some(team)) => team_on(
            TeamPhaseView::Over,
            TeamActionView::Finish { next: Some(team) },
        ),
        Outcome::Done(None) => team_on(TeamPhaseView::Closing, TeamActionView::LookAtMission),
    }
}

/// The first step of finishing a wave. Where the user has cancelled the mission, its effects are
/// completed and it is cancelled; no outcome is looked at.
pub open spec fn first_team_step(
    s: AppView,
    t: TeamView,
    outcomes: Seq<RunOutcomeView>,
    cancelled: Set<Seq<char>>,
    cancel_mission: bool,
    now: i64,
) -> (AppView, Outcome<(TeamPhaseView, TeamActionView)>) {
    if cancel_mission {
        (
            s,
            team_on(
                TeamPhaseView::Stopping,
                TeamActionView::Do { steps: cancel_team_steps(t, now) },
            ),
        )
    } else {
        next_outcome(
            s,
            WaveView {
                finish: FinishView {
                    continuation: t,
                    accepted: Seq::empty(),
                    next: empty_team(t.mission_id, t.prompt),
                },
                rest: outcomes,
                cancelled,
            },
            now,
        )
    }
}

/// One step of finishing a wave.
pub open spec fn team_step(s: AppView, phase: TeamPhaseView, reply: TeamReplyView, now: i64) -> (
    AppView,
    Outcome<(TeamPhaseView, TeamActionView)>,
) {
    match phase {
        TeamPhaseView::Settling { wave } => next_outcome(s, wave, now),
        TeamPhaseView::Gathering { wave, ended, result } => match diagnostics_evidence(
            reply->diagnostics,
            reply->diagnostics.len() as int,
        ) {
            Outcome::Failed(e) => (s, Outcome::Failed(e)),
            Outcome::Done(evidence) => accepted_step(s, wave, ended, result, evidence, now),
        },
        TeamPhaseView::Calling { wave, ended, calls } => {
            let (s1, made) = parallel_step(s, calls, reply->reply, now);
            after_call(s1, wave, ended, made, now)
        },
        TeamPhaseView::Asking { wave, ended, request, waiting } => (
            s,
            match approval_command(
                s.tools_ready,
                reply->approvals,
                waiting.invocation,
                ended.task_id,
                ended.run_id,
            ) {
                Outcome::Failed(e) => Outcome::Failed(e),
                Outcome::Done(command) => team_on(
                    TeamPhaseView::Requesting {
                        wave,
                        ended,
                        request,
                        waiting,
                        request_id: waiting.invocation.approval_request_id->Some_0,
                    },
                    TeamActionView::Do { steps: seq![MissionStepView::Command { command }] },
                ),
            },
        ),
        TeamPhaseView::Requesting { wave, ended, request, waiting, request_id } => {
            let (s1, r1) = park_step(s, ended.claimed, ended.run_id, waiting, request_id, now);
            (
                s1,
                match r1 {
                    Outcome::Failed(e) => Outcome::Failed(e),
                    Outcome::Done(step) => team_on(
                        TeamPhaseView::Parking { wave, request, waiting },
                        TeamActionView::Do { steps: seq![step] },
                    ),
                },
            )
        },
        TeamPhaseView::Parking { wave, request, waiting } => {
            let s1 = AppView {
                pending_parallel: s.pending_parallel.insert(
                    waiting.invocation.id,
                    PendingParallelView {
                        request,
                        waiting,
                        prompt: wave.finish.continuation.prompt,
                    },
                ),
                ..s
            };
            next_outcome(s1, wave, now)
        },
        TeamPhaseView::Driving { finish } => (
            s,
            if finish.accepted.len() > 1 {
                team_on(
                    TeamPhaseView::Coordinating {
                        finish: FinishView { accepted: Seq::empty(), ..finish },
                    },
                    TeamActionView::Coordinate { results: finish.accepted },
                )
            } else {
                closing_step(s, finish, now)
            },
        ),
        TeamPhaseView::Coordinating { finish } => (s, closing_step(s, finish, now)),
        TeamPhaseView::Closing => (
            s,
            if reply->mission.status is Running && all_accepted(reply->mission) {
                team_on(
                    TeamPhaseView::Ending,
                    TeamActionView::Do {
                        steps: seq![
                            MissionStepView::Command { command: CommandView::CompleteMission },
                        ],
                    },
                )
            } else {
                team_on(TeamPhaseView::Over, TeamActionView::Finish { next: None })
            },
        ),
        TeamPhaseView::Stopping => (
            s,
            team_on(TeamPhaseView::Ending, TeamActionView::DriveEffects),
        ),
        _ => (s, team_on(TeamPhaseView::Over, TeamActionView::Finish { next: None })),
    }
}

pub open spec fn teamed(r: Result<(TeamPhase, TeamAction), ApplicationError>) -> Outcome<
    (TeamPhaseView, TeamActionView),
> {
    match r {
        Ok((phase, action)) => Outcome::Done((phase@, action@)),
        Err(error) => Outcome::Failed(error@),
    }
}

impl HarnessApplication {
    fn accept_outcome(
        &mut self,
        wave: Wave,
        ended: EndedRun,
        result: AgentResult,
        diagnostics: &Vec<LspDiagnosticEvidence>,
        now: i64,
    ) -> (r: Result<(TeamPhase, TeamAction), ApplicationError>)
        ensures
            (final(self)@, teamed(r)) == (match diagnostics_evidence(
                views(diagnostics@),
                diagnostics@.len() as int,
            ) {
                Outcome::Failed(e) => (old(self)@, Outcome::Failed(e)),
                Outcome::Done(evidence) => accepted_step(
                    old(self)@,
                    wave@,
                    ended@,
                    result@,
                    evidence,
                    now,
                ),
            }),
    {
        let evidence = match lsp_run_evidence(diagnostics) {
            Ok(evidence) => evidence,
            Err(error) => {
                return Err(error);
            },
        };
        match self.accept_agent_result(
            &ended.claimed,
            ended.agent_id.as_str(),
            ended.task_id.as_str(),
            ended.run_id.as_str(),
            result,
            &evidence,
            now,
        ) {
            Err(error) => Err(error),
            Ok((steps, envelope)) => {
                let mut wave = wave;
                wave.finish.keep(envelope);
                Ok((TeamPhase::Settling { wave }, TeamAction::Do { steps }))
            },
        }
    }

    fn go_on_after_call(
        &mut self,
        wave: Wave,
        ended: EndedRun,
        phase: CallsPhase,
        action: CallsAction,
        now: i64,
    ) -> (r: Result<(TeamPhase, TeamAction), ApplicationError>)
        ensures
            (final(self)@, teamed(r)) == after_call(
                old(self)@,
                wave@,
                ended@,
                Outcome::Done((phase@, action@)),
                now,
            ),
    {
        match action {
            CallsAction::Resume { request } => {
                match self.resume_agent_run(ended.run_id.as_str(), now) {
                    Ok(()) => {},
                    Err(error) => {
                        return Err(error);
                    },
                }
                let mut wave = wave;
                wave.finish.carry_on(request, ended.claimed);
                Ok((TeamPhase::Settling { wave }, TeamAction::Proceed))
            },
            CallsAction::Wait { request, waiting } => Ok(
                (TeamPhase::Asking { wave, ended, request, waiting }, TeamAction::ListApprovals),
            ),
            action => Ok(
                (TeamPhase::Calling { wave, ended, calls: phase }, TeamAction::Call { action }),
            ),
        }
    }

    fn settle_outcome(
        &mut self,
        wave: Wave,
        ended: EndedRun,
        request: Option<AgentExecutionRequest>,
        course: OutcomeCourse,
        now: i64,
    ) -> (r: Result<(TeamPhase, TeamAction), ApplicationError>)
        ensures
            (final(self)@, teamed(r)) == outcome_step(
                old(self)@,
                wave@,
                ended@,
                option_view(request),
                course@,
                now,
            ),
    {
        match course {
            OutcomeCourse::Cancelled => {
                let steps = cancel_task(&ended.claimed, ended.task_id.as_str(), now);
                Ok((TeamPhase::Settling { wave }, TeamAction::Do { steps }))
            },
            OutcomeCourse::Failed { error } => match self.fail_agent_run(
                &ended.claimed,
                ended.agent_id.as_str(),
                ended.task_id.as_str(),
                ended.run_id.as_str(),
                error,
                now,
            ) {
                Err(error) => Err(error),
                Ok(steps) => Ok((TeamPhase::Settling { wave }, TeamAction::Do { steps })),
            },
            OutcomeCourse::Finished { result } => {
                let role = self.working_role(ended.agent_id.as_str());
                if role_gathers_diagnostics(role) {
                    let run_id = ended.run_id.clone();
                    Ok(
                        (
                            TeamPhase::Gathering { wave, ended, result },
                            TeamAction::Diagnose { run_id },
                        ),
                    )
                } else {
                    let none: Vec<LspDiagnosticEvidence> = Vec::new();
                    self.accept_outcome(wave, ended, result, &none, now)
                }
            },
            OutcomeCourse::Yielded { tool_yield } => {
                let request = match self.begin_agent_yield(request, ended.run_id.as_str(), now) {
                    Ok(request) => request,
                    Err(error) => {
                        return Err(error);
                    },
                };
                let calls = ParallelCalls::of_yield(request, tool_yield);
                match self.begin_parallel_calls(calls, now) {
                    Err(error) => Err(error),
                    Ok((phase, action)) => self.go_on_after_call(wave, ended, phase, action, now),
                }
            },
        }
    }

    fn take_outcome(&mut self, wave: Wave, now: i64) -> (r: Result<
        (TeamPhase, TeamAction),
        ApplicationError,
    >)
        ensures
            (final(self)@, teamed(r)) == next_outcome(old(self)@, wave@, now),
    {
        assert(wave@.rest.len() == wave.rest@.len());
        if wave.rest.len() == 0 {
            return match wave.finish.check_all_taken() {
                Ok(()) => Ok(
                    (TeamPhase::Driving { finish: wave.finish }, TeamAction::DriveEffects),
                ),
                Err(error) => Err(error),
            };
        }
        let ghost before = wave@;
        let mut wave = wave;
        assert(before.rest[0] == wave.rest@[0]@);
        let first = wave.rest.remove(0);
        assert(wave@.rest =~= before.rest.subrange(1, before.rest.len() as int));
        let taken = match wave.finish.take(first.run_id.as_str()) {
            Ok(taken) => taken,
            Err(error) => {
                return Err(error);
            },
        };
        let ended = EndedRun {
            claimed: taken.claimed,
            agent_id: first.agent_definition_id.clone(),
            task_id: first.task_id.clone(),
            run_id: first.run_id.clone(),
        };
        let course = course_of(first, &wave.cancelled);
        self.settle_outcome(wave, ended, taken.request, course, now)
    }

    fn close_wave(&self, finish: TeamFinish, now: i64) -> (r: Result<
        (TeamPhase, TeamAction),
        ApplicationError,
    >)
        ensures
            teamed(r) == closing_step(self@, finish@, now),
    {
        match self.next_agent_team(finish, now) {
            Err(error) => Err(error),
            Ok(Some(team)) => Ok((TeamPhase::Over, TeamAction::Finish { next: Some(team) })),
            Ok(None) => Ok((TeamPhase::Closing, TeamAction::LookAtMission)),
        }
    }

    /// Begins to finish a wave of a team.
    pub fn finalize_parallel_agent_team_step(
        &mut self,
        continuation: AgentTeamContinuation,
        outcomes: Vec<AgentExecutionOutcome>,
        cancelled_tasks: TextSet,
        cancel_mission: bool,
        now: i64,
    ) -> (r: Result<(TeamPhase, TeamAction), ApplicationError>)
        ensures
            (final(self)@, teamed(r)) == first_team_step(
                old(self)@,
                continuation@,
                views(outcomes@),
                cancelled_tasks@,
                cancel_mission,
                now,
            ),
    {
        if cancel_mission {
            let steps = cancel_team(&continuation, now);
            return Ok((TeamPhase::Stopping, TeamAction::Do { steps }));
        }
        let finish = TeamFinish::new(continuation);
        self.take_outcome(Wave { finish, rest: outcomes, cancelled: cancelled_tasks }, now)
    }

    /// One step of finishing a wave of a team.
    pub fn finalize_parallel_agent_team(&mut self, phase: TeamPhase, reply: TeamReply, now: i64) -> (r:
        Result<(TeamPhase, TeamAction), ApplicationError>)
        requires
            team_reply_fits(phase@, reply@),
        ensures
            (final(self)@, teamed(r)) == team_step(old(self)@, phase@, reply@, now),
    {
        match (phase, reply) {
            (TeamPhase::Settling { wave }, _) => self.take_outcome(wave, now),
            (
                TeamPhase::Gathering { wave, ended, result },
                TeamReply::Diagnostics { diagnostics },
            ) => {
                assert(views(diagnostics@).len() == diagnostics@.len());
                self.accept_outcome(wave, ended, result, &diagnostics, now)
            },
            (TeamPhase::Calling { wave, ended, calls }, TeamReply::Call { reply }) => {
                match self.make_parallel_calls(calls, reply, now) {
                    Err(error) => Err(error),
                    Ok((phase, action)) => self.go_on_after_call(wave, ended, phase, action, now),
                }
            },
            (
                TeamPhase::Asking { wave, ended, request, waiting },
                TeamReply::Approvals { approvals },
            ) => {
                let command = match self.request_approval(
                    &approvals,
                    &waiting.invocation,
                    ended.task_id.as_str(),
                    ended.run_id.as_str(),
                ) {
                    Ok(command) => command,
                    Err(error) => {
                        return Err(error);
                    },
                };
                let request_id = match &waiting.invocation.approval_request_id {
                    Some(id) => id.clone(),
                    None => String::new(),
                };
                let steps: Vec<MissionStep> = vec![MissionStep::Command { command }];
                assert(views(steps@) =~= seq![MissionStepView::Command { command: command@ }]);
                Ok(
                    (
                        TeamPhase::Requesting { wave, ended, request, waiting, request_id },
                        TeamAction::Do { steps },
                    ),
                )
            },
            (TeamPhase::Requesting { wave, ended, request, waiting, request_id }, _) => {
                match self.park_agent_run(
                    &ended.claimed,
                    ended.run_id.as_str(),
                    &waiting,
                    request_id.as_str(),
                    now,
                ) {
                    Err(error) => Err(error),
                    Ok(step) => {
                        let ghost shown = step@;
                        let steps: Vec<MissionStep> = vec![step];
                        assert(views(steps@) =~= seq![shown]);
                        Ok(
                            (
                                TeamPhase::Parking { wave, request, waiting },
                                TeamAction::Do { steps },
                            ),
                        )
                    },
                }
            },
            (TeamPhase::Parking { wave, request, waiting }, _) => {
                let prompt = wave.finish.continuation.prompt.clone();
                self.keep_pending_parallel(request, waiting, prompt);
                self.take_outcome(wave, now)
            },
            (TeamPhase::Driving { finish }, _) => {
                let mut finish = finish;
                assert(finish@.accepted.len() == finish.accepted@.len());
                if finish.needs_coordination() {
                    let ghost all = finish@;
                    let mut results: Vec<AgentResultEnvelope> = Vec::new();
                    std::mem::swap(&mut results, &mut finish.accepted);
                    assert(finish@.accepted =~= Seq::empty());
                    Ok(
                        (
                            TeamPhase::Coordinating { finish },
                            TeamAction::Coordinate { results },
                        ),
                    )
                } else {
                    self.close_wave(finish, now)
                }
            },
            (TeamPhase::Coordinating { finish }, _) => self.close_wave(finish, now),
            (TeamPhase::Closing, TeamReply::Mission { mission }) => {
                if is_ready_to_complete(&mission) {
                    let steps: Vec<MissionStep> = vec![
                        MissionStep::Command { command: MissionCommand::CompleteMission },
                    ];
                    assert(views(steps@) =~= seq![
                        MissionStepView::Command { command: CommandView::CompleteMission },
                    ]);
                    Ok((TeamPhase::Ending, TeamAction::Do { steps }))
                } else {
                    Ok((TeamPhase::Over, TeamAction::Finish { next: None }))
                }
            },
            (TeamPhase::Stopping, _) => Ok((TeamPhase::Ending, TeamAction::DriveEffects)),
            _ => Ok((TeamPhase::Over, TeamAction::Finish { next: None })),
        }
    }
}

/// How many outcomes are still to be looked at, counting the one that is being settled.
pub open spec fn outcomes_left(phase: TeamPhaseView) -> nat {
    match phase {
        TeamPhaseView::Settling { wave } => wave.rest.len() + 1,
        TeamPhaseView::Gathering { wave, .. } => wave.rest.len() + 1,
        TeamPhaseView::Calling { wave, .. } => wave.rest.len() + 1,
        TeamPhaseView::Asking { wave, .. } => wave.rest.len() + 1,
        TeamPhaseView::Requesting { wave, .. } => wave.rest.len() + 1,
        TeamPhaseView::Parking { wave, .. } => wave.rest.len() + 1,
        _ => 0,
    }
}

/// How much is left to be done for an outcome, or after the last one.
pub open spec fn stages_left(phase: TeamPhaseView) -> int {
    match phase {
        TeamPhaseView::Calling { calls, .. } => 5 + calls_left(calls),
        TeamPhaseView::Gathering { .. } => 4,
        TeamPhaseView::Asking { .. } => 3,
        TeamPhaseView::Requesting { .. } => 2,
        TeamPhaseView::Parking { .. } => 1,
        TeamPhaseView::Settling { .. } => 0,
        TeamPhaseView::Driving { .. } => 4,
        TeamPhaseView::Coordinating { .. } => 3,
        TeamPhaseView::Closing => 2,
        TeamPhaseView::Stopping => 2,
        TeamPhaseView::Ending => 1,
        TeamPhaseView::Over => 0,
    }
}

/// Finishing a wave comes to an end: with every step there is less to be done.
pub proof fn law_waves_come_to_an_end(
    s: AppView,
    phase: TeamPhaseView,
    reply: TeamReplyView,
    now: i64,
)
    requires
        team_reply_fits(phase, reply),
    ensures
        team_step(s, phase, reply, now).1 matches Outcome::Done((next, _)) ==> {
            ||| 0 <= outcomes_left(next) < outcomes_left(phase)
            ||| outcomes_left(next) == outcomes_left(phase) && 0 <= stages_left(next)
                < stages_left(phase)
        },
{
    if phase is Calling {
        law_calls_come_to_an_end(s, phase->Calling_calls, reply->reply, now);
    }
}

proof fn lemma_failing_keeps_the_parked(
    s: AppView,
    claimed: ClaimedEffectView,
    agent: Seq<char>,
    task: Seq<char>,
    run: Seq<char>,
    error: Option<ErrorView>,
    now: i64,
)
    ensures
        fail_step(s, claimed, agent, task, run, error, now).0.pending_parallel
            == s.pending_parallel,
{
    let s1 = set_status_step(s, run, AgentSessionStatus::Failed, now).0;
    assert(s1.pending_parallel == s.pending_parallel);
    assert(finish_run_step(s1, agent, run, BudgetEscrowStatus::Failed, now).0.pending_parallel
        == s.pending_parallel);
}

proof fn lemma_accepting_keeps_the_parked(
    s: AppView,
    w: WaveView,
    ended: EndedView,
    result: ResultView,
    diagnostics: Seq<EvidenceView>,
    now: i64,
)
    ensures
        accepted_step(s, w, ended, result, diagnostics, now).0.pending_parallel
            == s.pending_parallel,
{
}

proof fn lemma_calling_keeps_the_parked(
    s: AppView,
    w: WaveView,
    ended: EndedView,
    request: Option<RequestView>,
    calls: ParallelCallsView,
    now: i64,
)
    ensures
        ({
            let (s1, _) = yield_step(s, request, ended.run_id, now);
            let (s2, made) = parallel_first(s1, calls, now);
            &&& s1.pending_parallel == s.pending_parallel
            &&& after_call(s2, w, ended, made, now).0.pending_parallel == s.pending_parallel
        }),
{
    let (s1, _) = yield_step(s, request, ended.run_id, now);
    assert(s1.pending_parallel == s.pending_parallel);
    let (s2, made) = parallel_first(s1, calls, now);
    assert(s2.pending_parallel == s.pending_parallel);
}

proof fn lemma_outcomes_keep_the_parked(s: AppView, w: WaveView, now: i64)
    ensures
        next_outcome(s, w, now).0.pending_parallel == s.pending_parallel,
{
    if w.rest.len() != 0 {
        let o = w.rest[0];
        let known = w.finish.continuation;
        let ended = EndedView {
            claimed: known.claimed_by_run[o.run_id],
            agent_id: o.agent_definition_id,
            task_id: o.task_id,
            run_id: o.run_id,
        };
        let request = if known.requests_by_run.contains_key(o.run_id) {
            Some(known.requests_by_run[o.run_id])
        } else {
            None
        };
        let left = WaveView {
            finish: without_run(w.finish, o.run_id),
            rest: w.rest.subrange(1, w.rest.len() as int),
            ..w
        };
        match course(o, w.cancelled) {
            CourseView::Cancelled => {},
            CourseView::Failed { error } => {
                lemma_failing_keeps_the_parked(
                    s,
                    ended.claimed,
                    ended.agent_id,
                    ended.task_id,
                    ended.run_id,
                    error,
                    now,
                );
            },
            CourseView::Finished { result } => {
                lemma_accepting_keeps_the_parked(s, left, ended, result, Seq::empty(), now);
            },
            CourseView::Yielded { tool_yield } => {
                let (_, r1) = yield_step(s, request, ended.run_id, now);
                if let Outcome::Done(given) = r1 {
                    let calls = ParallelCallsView {
                        request: given,
                        continuation: yielded(tool_yield),
                        calls: tool_yield.calls,
                        next: 0,
                    };
                    lemma_calling_keeps_the_parked(s, left, ended, request, calls, now);
                } else {
                    lemma_calling_keeps_the_parked(s, left, ended, request, arbitrary(), now);
                }
            },
        }
    }
}

/// An agent that waits for an approval can go on with what it asked for, once the call is approved.
pub proof fn law_parked_agents_are_found_again(
    s: AppView,
    wave: WaveView,
    request: RequestView,
    waiting: WaitingToolView,
    now: i64,
)
    ensures
        ({
            let after = team_step(
                s,
                TeamPhaseView::Parking { wave, request, waiting },
                TeamReplyView::Did,
                now,
            ).0;
            &&& after.pending_parallel.contains_key(waiting.invocation.id)
            &&& after.pending_parallel[waiting.invocation.id].request == request
            &&& after.pending_parallel[waiting.invocation.id].waiting == waiting
        }),
{
    let s1 = AppView {
        pending_parallel: s.pending_parallel.insert(
            waiting.invocation.id,
            PendingParallelView { request, waiting, prompt: wave.finish.continuation.prompt },
        ),
        ..s
    };
    lemma_outcomes_keep_the_parked(s1, wave, now);
}

/// A mission is completed only when nothing is left to do in it.
pub proof fn law_missions_are_completed_when_all_is_accepted(
    s: AppView,
    mission: MissionView,
    now: i64,
)
    ensures
        team_step(s, TeamPhaseView::Closing, TeamReplyView::Mission { mission }, now).1
            == team_on(TeamPhaseView::Over, TeamActionView::Finish { next: None }) || (
        mission.status is Running && all_accepted(mission)),
{
}

} // verus!
