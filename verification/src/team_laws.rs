//! How a team is mustered and how its wave is finished: every agent that is called joins, every outcome
//! is looked at, and what is shown of the team is what it is.

use vstd::prelude::*;

use crate::application::{AppView, PendingParallelView, TeamView, WaitingToolView};
use crate::cancellation::has_run;
use crate::catalog::{active, definitions_in_order, lifecycle_of, AgentLifecycle};
use crate::error::{ErrorView, Outcome};
use crate::execution::{RequestView, RunOutcomeView};
use crate::finish_laws::{stands_at, tells_completion};
use crate::mission::{
    ClaimedEffectView, CommandView, MissionNodeView, MissionStepView, MissionView,
};
use crate::ordered::{enumerates, in_order};
use crate::parallel::CallsActionView;
use crate::results::{EvidenceView, ResultView};
use crate::run_laws::law_notes_on_a_run_change_one_session;
use crate::runs::working_role;
use crate::state_store::{keyed_by_id, AgentSessionStatus, TaskControl};
use crate::team_drive::{
    accepted_step, after_call, closing_step, first_team_step, next_outcome, outcome_step, team_step,
    EndedView, TeamActionView, TeamPhaseView, TeamReplyView, WaveView,
};
use crate::team_finish::{accept_step, cancel_team_steps, fail_step, CourseView, FinishView};
use crate::team_view::{
    agent_models, agent_shown, budget_key, budget_shown, count_of, mission_withdrawal,
    prioritize_step, queue_shown, task_withdrawal, team_shown, AgentModel,
};
use crate::turn_laws::held_at;
use crate::wave_drive::{
    equip_step, first_muster_step, member_request, muster_step, next_recruit, CrewView, MemberView,
    MusterActionView, MusterKind, MusterPhaseView, MusterReplyView, MusterView, RecruitView,
};
use crate::wave_laws::is_wanted;

verus! {

/// When the user has cancelled the mission no outcome is looked at: every effect is completed and the
/// mission is cancelled. If not, the first outcome is looked at, with nothing accepted yet and nobody
/// in the next wave.
pub proof fn law_cancelled_missions_are_stopped(
    s: AppView,
    t: TeamView,
    outcomes: Seq<RunOutcomeView>,
    cancelled: Set<Seq<char>>,
    now: i64,
)
    ensures
        first_team_step(s, t, outcomes, cancelled, true, now) == (
            s,
            Outcome::Done(
                (
                    TeamPhaseView::Stopping,
                    TeamActionView::Do { steps: cancel_team_steps(t, now) },
                ),
            ),
        ),
        exists|wave: WaveView|
            {
                &&& first_team_step(s, t, outcomes, cancelled, false, now) == #[trigger] next_outcome(
                    s,
                    wave,
                    now,
                )
                &&& wave.rest == outcomes && wave.cancelled == cancelled
                &&& wave.finish.continuation == t && wave.finish.accepted.len() == 0
                &&& wave.finish.next.job.requests.len() == 0
                &&& wave.finish.next.continuation.mission_id == t.mission_id
                &&& wave.finish.next.continuation.prompt == t.prompt
            },
{
    let wave = WaveView {
        finish: FinishView {
            continuation: t,
            accepted: Seq::empty(),
            next: crate::waves::empty_team(t.mission_id, t.prompt),
        },
        rest: outcomes,
        cancelled,
    };
    assert(first_team_step(s, t, outcomes, cancelled, false, now) == next_outcome(s, wave, now));
}

/// What is left of a wave when its first outcome was taken out.
pub open spec fn is_left(w: WaveView, left: WaveView) -> bool {
    let run = w.rest[0].run_id;
    &&& left.rest == w.rest.drop_first()
    &&& left.cancelled == w.cancelled
    &&& left.finish.accepted == w.finish.accepted
    &&& left.finish.next == w.finish.next
    &&& left.finish.continuation.claimed_by_run == w.finish.continuation.claimed_by_run.remove(run)
    &&& left.finish.continuation.requests_by_run == w.finish.continuation.requests_by_run.remove(
        run,
    )
}

/// The outcomes are looked at in their order. Each takes the effect and the request of its own run out
/// of the team, so that it is looked at once; an outcome of a run for which no effect was claimed is an
/// error. After the last one nothing may be left, and the effects are driven.
pub proof fn law_every_outcome_is_looked_at(s: AppView, w: WaveView, now: i64)
    requires
        enumerates(
            in_order(w.finish.continuation.claimed_by_run.dom()),
            w.finish.continuation.claimed_by_run.dom(),
        ),
        enumerates(
            in_order(w.finish.continuation.requests_by_run.dom()),
            w.finish.continuation.requests_by_run.dom(),
        ),
    ensures
        ({
            let (after, done) = next_outcome(s, w, now);
            let team = w.finish.continuation;
            &&& w.rest.len() == 0 ==> {
                &&& after == s
                &&& done is Done <==> team.claimed_by_run.dom() == Set::<Seq<char>>::empty()
                    && team.requests_by_run.dom() == Set::<Seq<char>>::empty()
                &&& done is Done ==> done->Done_0 == (
                    TeamPhaseView::Driving { finish: w.finish },
                    TeamActionView::DriveEffects,
                )
            }
            &&& w.rest.len() > 0 && !team.claimed_by_run.contains_key(w.rest[0].run_id) ==> after
                == s && done == Outcome::<(TeamPhaseView, TeamActionView)>::Failed(
                ErrorView {
                    code: "agent-claimed-effect-missing"@,
                    message: w.rest[0].run_id,
                },
            )
            &&& w.rest.len() > 0 && team.claimed_by_run.contains_key(w.rest[0].run_id) ==> exists|
                left: WaveView,
            |
                {
                    let o = w.rest[0];
                    &&& #[trigger] is_left(w, left)
                    &&& (after, done) == outcome_step(
                        s,
                        left,
                        EndedView {
                            claimed: team.claimed_by_run[o.run_id],
                            agent_id: o.agent_definition_id,
                            task_id: o.task_id,
                            run_id: o.run_id,
                        },
                        if team.requests_by_run.contains_key(o.run_id) {
                            Some(team.requests_by_run[o.run_id])
                        } else {
                            None
                        },
                        crate::team_finish::course(o, w.cancelled),
                        now,
                    )
                }
        }),
{
    crate::finish_laws::law_waves_end_with_nothing_left(
        w.finish.continuation,
        w.finish,
        Seq::empty(),
    );
    if w.rest.len() > 0 {
        let o = w.rest[0];
        let left = WaveView {
            finish: crate::team_finish::without_run(w.finish, o.run_id),
            rest: w.rest.subrange(1, w.rest.len() as int),
            ..w
        };
        assert(left.rest =~= w.rest.drop_first());
        assert(is_left(w, left));
        let team = w.finish.continuation;
        if team.claimed_by_run.contains_key(o.run_id) {
            assert(next_outcome(s, w, now) == outcome_step(
                s,
                left,
                EndedView {
                    claimed: team.claimed_by_run[o.run_id],
                    agent_id: o.agent_definition_id,
                    task_id: o.task_id,
                    run_id: o.run_id,
                },
                if team.requests_by_run.contains_key(o.run_id) {
                    Some(team.requests_by_run[o.run_id])
                } else {
                    None
                },
                crate::team_finish::course(o, w.cancelled),
                now,
            ));
        }
    }
}

/// A task that was taken away completes its effect and is cancelled; a run that has failed is given up
/// with its error; a result is accepted, after a look at the diagnostics if its role judges the work of
/// others.
pub proof fn law_outcomes_are_settled(
    s: AppView,
    w: WaveView,
    x: EndedView,
    request: Option<RequestView>,
    result: ResultView,
    error: Option<ErrorView>,
    now: i64,
)
    ensures
        ({
            let (after, done) = outcome_step(s, w, x, request, CourseView::Cancelled, now);
            &&& after == s && done is Done
            &&& done->Done_0.0 == (TeamPhaseView::Settling { wave: w })
            &&& done->Done_0.1 matches TeamActionView::Do { steps } && steps.len() == 2
                && tells_completion(steps[0], x.claimed, now) && (
            steps[1] matches MissionStepView::Command { command } && command is CancelNode
                && command->CancelNode_node_id == x.task_id)
        }),
        ({
            let (after, done) = outcome_step(s, w, x, request, CourseView::Failed { error }, now);
            let (after2, steps) = fail_step(
                s,
                x.claimed,
                x.agent_id,
                x.task_id,
                x.run_id,
                error,
                now,
            );
            &&& after == after2
            &&& done is Done <==> steps is Done
            &&& done is Done ==> done->Done_0 == (
                TeamPhaseView::Settling { wave: w },
                TeamActionView::Do { steps: steps->Done_0 },
            )
        }),
        ({
            let (after, done) = outcome_step(s, w, x, request, CourseView::Finished { result }, now);
            let role = working_role(s, x.agent_id);
            let judges = role is Reviewer || role is SecurityAuditor || role is PerformanceEngineer
                || role is Tester || role is ReleaseManager;
            &&& judges ==> (after, done) == (
                s,
                Outcome::Done(
                    (
                        TeamPhaseView::Gathering { wave: w, ended: x, result },
                        TeamActionView::Diagnose { run_id: x.run_id },
                    ),
                ),
            )
            &&& !judges ==> (after, done) == accepted_step(s, w, x, result, Seq::empty(), now)
        }),
{
}

/// What is accepted stands behind all that was accepted before, and the next outcome comes.
pub proof fn law_accepted_results_are_collected(
    s: AppView,
    w: WaveView,
    x: EndedView,
    result: ResultView,
    seen: Seq<EvidenceView>,
    now: i64,
)
    ensures
        ({
            let (after, done) = accepted_step(s, w, x, result, seen, now);
            let (after2, kept) = accept_step(
                s,
                x.claimed,
                x.agent_id,
                x.task_id,
                x.run_id,
                result,
                seen,
                now,
            );
            &&& after == after2
            &&& done is Done <==> kept is Done
            &&& done matches Outcome::Done((phase, action)) ==> {
                let (steps, envelope) = kept->Done_0;
                &&& phase is Settling && action == (TeamActionView::Do { steps })
                &&& phase->Settling_wave.finish.accepted == w.finish.accepted + seq![envelope]
                &&& phase->Settling_wave.finish.continuation == w.finish.continuation
                &&& phase->Settling_wave.finish.next == w.finish.next
                &&& phase->Settling_wave.rest == w.rest
                &&& phase->Settling_wave.cancelled == w.cancelled
            }
        }),
{
    let kept = accept_step(
        s,
        x.claimed,
        x.agent_id,
        x.task_id,
        x.run_id,
        result,
        seen,
        now,
    ).1;
    if kept is Done {
        let envelope = kept->Done_0.1;
        assert(w.finish.accepted.push(envelope) =~= w.finish.accepted + seq![envelope]);
    }
}

/// An agent whose calls are all made joins the next wave under its effect, behind those that did
/// before, and is at work again; one that has to wait asks for the approval.
pub proof fn law_who_made_its_calls_joins_the_next_wave(
    s: AppView,
    w: WaveView,
    x: EndedView,
    phase: crate::parallel::CallsPhaseView,
    request: RequestView,
    waiting: WaitingToolView,
    now: i64,
)
    requires
        s.agent_state matches Some(st) ==> keyed_by_id(st.sessions),
    ensures
        ({
            let (after, done) = after_call(
                s,
                w,
                x,
                Outcome::Done((phase, CallsActionView::Resume { request })),
                now,
            );
            &&& done is Done <==> has_run(s.run_controls, x.run_id)
            &&& done matches Outcome::Done((next, action)) ==> {
                let f = next->Settling_wave.finish;
                &&& next is Settling && action is Proceed
                &&& stands_at(after, x.run_id, AgentSessionStatus::Running)
                &&& f.next.job.requests == w.finish.next.job.requests + seq![request]
                &&& f.next.continuation.claimed_by_run
                    == w.finish.next.continuation.claimed_by_run.insert(
                    request.contract.run_id,
                    x.claimed,
                )
                &&& f.accepted == w.finish.accepted && f.continuation == w.finish.continuation
                &&& next->Settling_wave.rest == w.rest
            }
        }),
        after_call(
            s,
            w,
            x,
            Outcome::Done((phase, CallsActionView::Wait { request, waiting })),
            now,
        ) == (
            s,
            Outcome::Done(
                (
                    TeamPhaseView::Asking { wave: w, ended: x, request, waiting },
                    TeamActionView::ListApprovals,
                ),
            ),
        ),
{
    law_notes_on_a_run_change_one_session(
        s,
        x.run_id,
        AgentSessionStatus::Running,
        Seq::empty(),
        None,
        now,
    );
    assert(w.finish.next.job.requests.push(request) =~= w.finish.next.job.requests + seq![request]);
}

/// An agent that waits for an approval asks for it under its own task and run, says that it waits, and
/// is put aside under the name of its call, with its request and with what the team is there for; then
/// the next outcome comes.
pub proof fn law_waiting_agents_are_put_aside(
    s: AppView,
    w: WaveView,
    x: EndedView,
    request: RequestView,
    waiting: WaitingToolView,
    approvals: Seq<crate::team_finish::ApprovalView>,
    id: Seq<char>,
    now: i64,
)
    requires
        s.agent_state matches Some(st) ==> keyed_by_id(st.sessions),
    ensures
        ({
            let (after, done) = team_step(
                s,
                TeamPhaseView::Asking { wave: w, ended: x, request, waiting },
                TeamReplyView::Approvals { approvals },
                now,
            );
            &&& after == s
            &&& done matches Outcome::Done((phase, action)) ==> {
                &&& phase is Requesting && Some(phase->request_id)
                    == waiting.invocation.approval_request_id
                &&& action matches TeamActionView::Do { steps } && steps.len() == 1 && (
                steps[0] matches MissionStepView::Command { command } && command
                    is RequestApproval && command->RequestApproval_node_id == x.task_id
                    && command->RequestApproval_run_id == x.run_id
                    && command->RequestApproval_approval_id == phase->request_id)
            }
        }),
        ({
            let (after, done) = team_step(
                s,
                TeamPhaseView::Requesting { wave: w, ended: x, request, waiting, request_id: id },
                TeamReplyView::Did,
                now,
            );
            &&& done is Done && done->Done_0.0 == (TeamPhaseView::Parking {
                wave: w,
                request,
                waiting,
            })
            &&& stands_at(after, x.run_id, AgentSessionStatus::WaitingApproval)
            &&& done->Done_0.1 matches TeamActionView::Do { steps } && steps.len() == 1
                && tells_completion(steps[0], x.claimed, now)
        }),
        team_step(
            s,
            TeamPhaseView::Parking { wave: w, request, waiting },
            TeamReplyView::Did,
            now,
        ) == next_outcome(
            AppView {
                pending_parallel: s.pending_parallel.insert(
                    waiting.invocation.id,
                    PendingParallelView {
                        request,
                        waiting,
                        prompt: w.finish.continuation.prompt,
                    },
                ),
                ..s
            },
            w,
            now,
        ),
{
    crate::finish_laws::law_runs_wait_and_go_on(
        s,
        None,
        x.claimed,
        x.run_id,
        waiting,
        id,
        now,
    );
}

/// When the effects were driven, more than one result is held against the others, all of them; then
/// the next wave comes if somebody goes on, and if nobody does, the mission is looked at. It is
/// completed if it is on and all its nodes are accepted.
pub proof fn law_results_are_held_against_one_another(
    s: AppView,
    f: FinishView,
    mission: MissionView,
    now: i64,
)
    requires
        f.next.job.requests.len() <= usize::MAX,
    ensures
        ({
            let (after, done) = team_step(
                s,
                TeamPhaseView::Driving { finish: f },
                TeamReplyView::Did,
                now,
            );
            &&& after == s
            &&& f.accepted.len() > 1 ==> done is Done && done->Done_0.1 == (
            TeamActionView::Coordinate { results: f.accepted }) && done->Done_0.0 is Coordinating
                && done->Done_0.0->Coordinating_finish.next == f.next
            &&& f.accepted.len() <= 1 ==> done == closing_step(s, f, now)
        }),
        team_step(s, TeamPhaseView::Coordinating { finish: f }, TeamReplyView::Did, now) == (
            s,
            closing_step(s, f, now),
        ),
        ({
            let done = closing_step(s, f, now);
            &&& f.next.job.requests.len() == 0 ==> done == Outcome::Done(
                (TeamPhaseView::Closing, TeamActionView::LookAtMission),
            )
            &&& f.next.job.requests.len() > 0 && done is Done ==> done->Done_0.0 is Over && (
            done->Done_0.1 matches TeamActionView::Finish { next } && next matches Some(team)
                && team.job.requests == f.next.job.requests && team.continuation
                == f.next.continuation)
        }),
        ({
            let (after, done) = team_step(
                s,
                TeamPhaseView::Closing,
                TeamReplyView::Mission { mission },
                now,
            );
            let over = mission.status is Running && forall|id: Seq<char>| #[trigger]
                mission.nodes.contains_key(id) ==> mission.nodes[id].status is Accepted;
            &&& after == s
            &&& over ==> done == Outcome::Done(
                (
                    TeamPhaseView::Ending,
                    TeamActionView::Do {
                        steps: seq![
                            MissionStepView::Command { command: CommandView::CompleteMission },
                        ],
                    },
                ),
            )
            &&& !over ==> done == Outcome::Done(
                (TeamPhaseView::Over, TeamActionView::Finish { next: None }),
            )
        }),
        team_step(s, TeamPhaseView::Stopping, TeamReplyView::Did, now) == (
            s,
            Outcome::Done((TeamPhaseView::Ending, TeamActionView::DriveEffects)),
        ),
{
}

/// The agents of a team are called one after the other; a new one gets a run of its own, and one that
/// was at work goes on with its run, if the mission says that it is on. When all are there, the team is
/// ready.
pub proof fn law_agents_are_called_in_turn(s: AppView, m: MusterView, now: i64)
    requires
        m.team.job.requests.len() <= usize::MAX,
    ensures
        ({
            let done = next_recruit(s, m, now);
            let most = s.agent_budget_policy.max_parallel_agents;
            &&& m.recruits.len() == 0 ==> {
                &&& done is Done <==> most > 0 && m.team.job.requests.len() > 0
                &&& done matches Outcome::Done((phase, action)) ==> phase is Over && (
                action matches MusterActionView::Ready { team } && team.job.requests
                    == m.team.job.requests && team.continuation == m.team.continuation
                    && team.job.max_parallel == held_at(
                    most as int,
                    m.team.job.requests.len() as int,
                ) && team.job.started_at_millis == now)
            }
            &&& m.recruits.len() > 0 ==> {
                let r = m.recruits[0];
                let left = MusterView { recruits: m.recruits.drop_first(), ..m };
                match r.session {
                    None => match done {
                        Outcome::Failed(e) => !m.mission.nodes.contains_key(r.task_id)
                            && e.message == r.task_id,
                        Outcome::Done((phase, action)) => m.mission.nodes.contains_key(r.task_id)
                            && phase == (MusterPhaseView::Naming {
                            muster: left,
                            node: m.mission.nodes[r.task_id],
                        }) && action is NameRun,
                    },
                    Some(x) => {
                        let on = m.mission.nodes.contains_key(x.task_id)
                            && m.mission.nodes[x.task_id].status is Running
                            && m.mission.nodes[x.task_id].run_id == Some(x.run_id);
                        &&& done is Done <==> on
                        &&& done matches Outcome::Done((phase, action)) ==> action is ListEffects
                            && phase == (MusterPhaseView::Listing {
                            muster: left,
                            member: MemberView {
                                node: m.mission.nodes[x.task_id],
                                run_id: x.run_id,
                                session: Some(x),
                                started: now,
                            },
                        })
                    },
                }
            }
        }),
{
    if m.recruits.len() > 0 {
        assert(m.recruits.subrange(1, m.recruits.len() as int) =~= m.recruits.drop_first());
    }
}

/// A new run is started at its node, and its effect is looked for: the first that starts it, or, for
/// one that was at work, the first that starts it or goes on with it. It is claimed, and the agent is
/// told about its node.
pub proof fn law_runs_are_started_and_claimed(
    s: AppView,
    m: MusterView,
    node: MissionNodeView,
    member: MemberView,
    run: Seq<char>,
    entries: Seq<crate::mission::EffectView>,
    claimed: Option<ClaimedEffectView>,
    now: i64,
)
    ensures
        muster_step(
            s,
            MusterPhaseView::Naming { muster: m, node },
            MusterReplyView::Named { run_id: run },
            now,
        ) == (
            s,
            Outcome::Done(
                (
                    MusterPhaseView::Starting {
                        muster: m,
                        member: MemberView { node, run_id: run, session: None, started: now },
                    },
                    MusterActionView::Do {
                        steps: seq![
                            MissionStepView::Command {
                                command: CommandView::StartNode { node_id: node.id, run_id: run },
                            },
                        ],
                    },
                ),
            ),
        ),
        ({
            let (after, done) = muster_step(
                s,
                MusterPhaseView::Listing { muster: m, member },
                MusterReplyView::Effects { entries },
                now,
            );
            let resumes = member.session is Some;
            &&& after == s
            &&& done is Failed <==> forall|i: int|
                0 <= i < entries.len() ==> !is_wanted(
                    #[trigger] entries[i],
                    m.mission.mission_id,
                    member.run_id,
                    true,
                    resumes,
                )
            &&& done matches Outcome::Done((phase, action)) ==> {
                &&& phase == (MusterPhaseView::Claiming { muster: m, member })
                &&& action is Claim
                &&& exists|i: int|
                    0 <= i < entries.len() && is_wanted(
                        #[trigger] entries[i],
                        m.mission.mission_id,
                        member.run_id,
                        true,
                        resumes,
                    ) && entries[i].effect_id == action->effect_id
            }
        }),
        ({
            let (after, done) = muster_step(
                s,
                MusterPhaseView::Claiming { muster: m, member },
                MusterReplyView::Claimed { claimed },
                now,
            );
            &&& after == s
            &&& done is Done <==> claimed is Some
            &&& done is Done ==> done->Done_0 == (
                MusterPhaseView::Briefing { muster: m, member, claimed: claimed->Some_0 },
                MusterActionView::Brief { node_id: member.node.id },
            )
            &&& done matches Outcome::Failed(e) ==> e.message == member.run_id
        }),
{
    crate::wave_laws::law_the_first_effect_of_a_run_is_found(
        entries,
        m.mission.mission_id,
        member.run_id,
        true,
        member.session is Some,
    );
}

/// An agent that joins is asked in its own mission, about its own task and in its own run, at its own
/// endpoint; with the context that it was told, what was said to the mission, and the tools that it may
/// call. One that does research has none.
pub proof fn law_agents_are_asked_about_their_own_task(
    m: MusterView,
    member: MemberView,
    crew: CrewView,
    endpoint: Seq<char>,
    tools: Seq<crate::exchange::ToolView>,
)
    ensures
        ({
            let r = member_request(m, member, crew, endpoint, tools);
            &&& r.contract.mission_id == m.mission.mission_id
            &&& r.contract.agent_definition_id == crew.agent_id && r.contract.role == crew.role
            &&& r.context == crew.context && r.steering_messages == m.steering
            &&& r.contract.deadline_millis == held_at(
                i64::MAX as int,
                member.started + 2 * 60 * 1000,
            )
            &&& match member.session {
                Some(x) => r.contract.run_id == x.run_id && r.contract.task_id == x.task_id
                    && r.contract.endpoint_id == x.endpoint_id && r.session_id == x.id
                    && r.contract.parent_run_id == x.parent_run_id,
                None => r.contract.run_id == member.run_id && r.contract.task_id == member.node.id
                    && r.contract.endpoint_id == endpoint && r.session_id == "agent-session:"@
                    + member.run_id && r.contract.parent_run_id is None,
            }
            &&& r.model_tools == if member.session is None && m.kind is Research {
                Seq::empty()
            } else {
                tools
            }
        }),
{
}

/// A team that was mustered for nobody is not ready; the prompt of a team is what it was told for its
/// research, and else the goal of the mission.
pub proof fn law_teams_are_mustered_for_their_goal(
    s: AppView,
    kind: MusterKind,
    mission: MissionView,
    told: Seq<char>,
    recruits: Seq<RecruitView>,
    steering: Seq<Seq<char>>,
    now: i64,
)
    ensures
        recruits.len() == 0 ==> first_muster_step(
            s,
            kind,
            mission,
            told,
            recruits,
            steering,
            now,
        ) is Failed,
        exists|m: MusterView|
            {
                &&& first_muster_step(s, kind, mission, told, recruits, steering, now)
                    == #[trigger] next_recruit(s, m, now)
                &&& m.kind == kind && m.mission == mission && m.recruits == recruits && m.steering
                    == steering
                &&& m.team.job.requests.len() == 0
                &&& m.team.continuation.mission_id == mission.mission_id
                &&& m.team.continuation.prompt == if kind is Research {
                    told
                } else {
                    mission.goal
                }
            },
{
    let m = MusterView {
        kind,
        mission,
        steering,
        recruits,
        team: crate::waves::empty_team(
            mission.mission_id,
            crate::wave_drive::team_prompt(kind, mission, told),
        ),
    };
    assert(first_muster_step(s, kind, mission, told, recruits, steering, now) == next_recruit(
        s,
        m,
        now,
    ));
}

/// An agent that is equipped at an endpoint that is known joins the team under the effect that was
/// claimed for it, at once if it needs no tools, and else when they were found.
pub proof fn law_equipped_agents_join(
    s: AppView,
    m: MusterView,
    member: MemberView,
    crew: CrewView,
    now: i64,
)
    requires
        member.session is None,
    ensures
        ({
            let done = equip_step(s, m, member, crew, now);
            let known = crew.state.runs.contains_key(member.run_id);
            &&& !known ==> done is Failed
            &&& known && m.kind is Research ==> exists|r: RequestView|
                {
                    &&& done == next_recruit(
                        s,
                        MusterView {
                            team: #[trigger] crate::waves::enlisted(m.team, r, crew.claimed),
                            ..m
                        },
                        now,
                    )
                    &&& r.contract.run_id == member.run_id
                    &&& r.contract.endpoint_id == crew.state.runs[member.run_id].endpoint_id
                    &&& r.model_tools.len() == 0
                }
            &&& done matches Outcome::Done((MusterPhaseView::Equipping { endpoint_id, .. }, action))
                ==> known && endpoint_id == crew.state.runs[member.run_id].endpoint_id && action
                is FindTools && member.node.title.is_prefix_of(action->query)
        }),
{
    if crew.state.runs.contains_key(member.run_id) {
        let endpoint = crew.state.runs[member.run_id].endpoint_id;
        let r = member_request(m, member, crew, endpoint, Seq::empty());
        let team = crate::waves::enlisted(m.team, r, crew.claimed);
        assert(m.kind is Research ==> equip_step(s, m, member, crew, now) == next_recruit(
            s,
            MusterView { team, ..m },
            now,
        ));
        lemma_recruits_do_not_equip(s, MusterView { team, ..m }, now);
        crate::wave_laws::law_tools_are_looked_for_if_allowed(
            s,
            crew.agent_id,
            crew.role,
            member.node.title,
        );
    }
}

proof fn lemma_recruits_do_not_equip(s: AppView, m: MusterView, now: i64)
    ensures
        next_recruit(s, m, now) matches Outcome::Done((phase, _)) ==> !(phase is Equipping),
{
}

pub open spec fn is_at(lifecycle: AgentLifecycle) -> spec_fn(AgentModel) -> bool {
    |a: AgentModel| a.lifecycle == lifecycle
}

proof fn lemma_counted(agents: Seq<AgentModel>, lifecycle: AgentLifecycle)
    ensures
        count_of(agents, lifecycle) == agents.filter(is_at(lifecycle)).len(),
    decreases agents.len(),
{
    reveal(Seq::filter);
    if agents.len() > 0 {
        lemma_counted(agents.drop_last(), lifecycle);
    }
}

/// What is shown of a team are all agents of the catalog, in their order, each as it is; and how many
/// of them sleep, are reserved and run.
pub proof fn law_teams_are_shown_as_they_are(s: AppView, id: Seq<char>)
    ensures
        team_shown(s) is Done <==> s.agent_catalog is Some,
        team_shown(s) matches Outcome::Done(t) ==> {
            let c = s.agent_catalog->Some_0;
            let all = definitions_in_order(c);
            &&& t.total == all.len() && t.agents.len() == all.len()
            &&& forall|i: int|
                0 <= i < all.len() ==> {
                    let a = #[trigger] t.agents[i];
                    &&& a.id == all[i].id && a.name == all[i].name
                    &&& a.capabilities == in_order(all[i].capabilities)
                    &&& a.max_concurrency == all[i].max_concurrency
                    &&& a.active == active(c, all[i].id)
                    &&& lifecycle_of(c, all[i].id) matches Some(l) ==> a.lifecycle == l
                    &&& a.control_plane <==> all[i].roles.contains(
                        crate::roles::AgentRole::Coordinator,
                    ) || all[i].roles.contains(crate::roles::AgentRole::StaffingRouter)
                }
            &&& t.sleeping == t.agents.filter(is_at(AgentLifecycle::Sleeping)).len()
            &&& t.reserved == t.agents.filter(is_at(AgentLifecycle::Reserved)).len()
            &&& t.running == t.agents.filter(is_at(AgentLifecycle::Running)).len()
            &&& t.durable_messages <==> s.agent_messages is Some
            &&& t.file_leases <==> s.file_leases is Some
        },
        agent_shown(s, id) is Done <==> s.agent_catalog is Some && s.agent_catalog->Some_0.contains_key(
            id,
        ),
        agent_shown(s, id) matches Outcome::Done(a) ==> a.id
            == s.agent_catalog->Some_0[id].definition.id && a.name
            == s.agent_catalog->Some_0[id].definition.name,
{
    if let Some(c) = s.agent_catalog {
        let agents = agent_models(c);
        lemma_counted(agents, AgentLifecycle::Sleeping);
        lemma_counted(agents, AgentLifecycle::Reserved);
        lemma_counted(agents, AgentLifecycle::Running);
    }
}

/// The queue shows every task of the active mission, in the order of their names, each as it is, with
/// the priority that it was given and whether it is ready.
pub proof fn law_queues_show_every_task(
    s: AppView,
    mission: MissionView,
    ready: Seq<Seq<char>>,
    i: int,
)
    requires
        0 <= i < in_order(mission.nodes.dom()).len(),
    ensures
        s.active_mission_id is None ==> queue_shown(s, mission, ready).items.len() == 0
            && queue_shown(s, mission, ready).mission_id is None,
        s.active_mission_id matches Some(id) ==> {
            let q = queue_shown(s, mission, ready);
            let node = mission.nodes[in_order(mission.nodes.dom())[i]];
            let x = q.items[i];
            &&& q.mission_id == Some(id)
            &&& q.items.len() == in_order(mission.nodes.dom()).len()
            &&& x.task_id == node.id && x.title == node.title && x.status == node.status
            &&& x.agent_definition_id == node.agent_definition_id
            &&& x.ready <==> ready.contains(node.id)
            &&& x.priority == match s.agent_state {
                Some(st) if st.controls.contains_key(id) && st.controls[id].contains_key(node.id) =>
                    st.controls[id][node.id].priority,
                _ => 0,
            }
        },
{
}

/// A priority is given to a task of the active mission, within a hundred up and down, and to no other
/// one.
pub proof fn law_priorities_are_given_to_one_task(
    s: AppView,
    mission: MissionView,
    task: Seq<char>,
    priority: i32,
    now: i64,
)
    ensures
        ({
            let (after, done) = prioritize_step(s, mission, task, priority, now);
            let held = if priority < -100 {
                -100int
            } else {
                held_at(100, priority as int)
            };
            &&& done is Done <==> s.active_mission_id is Some && mission.nodes.contains_key(task)
                && s.agent_state is Some
            &&& done is Failed ==> after == s
            &&& done is Done ==> {
                let id = s.active_mission_id->Some_0;
                let st = s.agent_state->Some_0;
                let before = if st.controls.contains_key(id) {
                    st.controls[id]
                } else {
                    Map::empty()
                };
                let x = after.agent_state->Some_0;
                &&& x.controls == st.controls.insert(
                    id,
                    before.insert(
                        task,
                        TaskControl { priority: held as i32, updated_at_millis: now },
                    ),
                )
                &&& x.sessions == st.sessions && x.endpoints == st.endpoints && x.results
                    == st.results
                &&& after == (AppView { agent_state: after.agent_state, ..s })
            }
        }),
{
}

/// A task or a mission is withdrawn with its reason, if a mission is active.
pub proof fn law_what_is_active_can_be_withdrawn(s: AppView, task: Seq<char>, reason: Seq<char>)
    ensures
        task_withdrawal(s, task, reason) == if s.active_mission_id is Some {
            Outcome::Done(CommandView::CancelNode { node_id: task, reason })
        } else {
            Outcome::Failed(
                ErrorView {
                    code: "active-mission-missing"@,
                    message: "当前没有活动 Mission"@,
                },
            )
        },
        mission_withdrawal(s, reason) == if s.active_mission_id is Some {
            Outcome::Done(CommandView::CancelMission { reason })
        } else {
            Outcome::Failed(
                ErrorView {
                    code: "active-mission-missing"@,
                    message: "当前没有活动 Mission"@,
                },
            )
        },
{
}

/// The budget that is shown is the one that is kept.
pub proof fn law_the_budget_is_shown_as_kept(s: AppView)
    ensures
        budget_shown(s).max_agents == s.agent_budget_policy.max_agents,
        budget_shown(s).max_parallel_agents == s.agent_budget_policy.max_parallel_agents,
        budget_shown(s).max_total_tokens == s.agent_budget_policy.max_total_tokens,
        budget_shown(s).max_tool_calls == s.agent_budget_policy.max_tool_calls,
        budget_shown(s).max_runtime_millis == s.agent_budget_policy.max_runtime_millis,
        budget_shown(s).max_retries == s.agent_budget_policy.max_retries,
        budget_shown(s).max_cost_units == s.mode_profile.max_cost_units,
{
}

/// Two fields of the budget are never behind the same setting.
pub proof fn law_budget_fields_have_their_own_setting(a: Seq<char>, b: Seq<char>)
    requires
        a != b,
        budget_key(a) is Some,
    ensures
        budget_key(a) != budget_key(b),
        budget_key(a)->Some_0.subrange(0, 7) == "agents."@,
{
    reveal_strlit("agents.");
    reveal_strlit("agents.max");
    reveal_strlit("agents.parallel");
    reveal_strlit("agents.tokens");
    reveal_strlit("agents.tools");
    reveal_strlit("agents.runtime-ms");
    reveal_strlit("agents.retries");
    reveal_strlit("agents.cost");
    assert("agents.max"@.len() == 10);
    assert("agents.parallel"@.len() == 15);
    assert("agents.tokens"@.len() == 13);
    assert("agents.tools"@.len() == 12);
    assert("agents.runtime-ms"@.len() == 17);
    assert("agents.retries"@.len() == 14);
    assert("agents.cost"@.len() == 11);
    assert(budget_key(a)->Some_0.subrange(0, 7) =~= "agents."@);
}

} // verus!
