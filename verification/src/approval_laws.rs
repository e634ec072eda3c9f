//! What an approval does: who waited for it goes on where it waited, and with nothing twice; and what
//! becomes of a call that is refused.

use vstd::prelude::*;

use crate::application::{
    AppView, InvocationView, PendingParallelView, ToolStatusView, WaitingToolView,
};
use crate::approval_drive::{
    approval_step, first_approval_step, resume_step, shown_step, ApprovalActionView,
    ApprovalPhaseView, ApprovalReplyView, ResumePhaseView, ResumptionView,
};
use crate::approvals::{
    approved_course, deny_step, denied_run_step, resume_job_step, resume_main_step,
    resume_parallel_step, resumed, terminal_invocation, waiters, Waiters,
};
use crate::budget::BudgetEscrowStatus;
use crate::cancellation::has_run;
use crate::effect_laws::{is_ended, is_sound};
use crate::error::{ErrorView, Outcome};
use crate::execution::RequestView;
use crate::finish_laws::{stands_at, tells_completion};
use crate::json::JsonView;
use crate::leases::LeaseView;
use crate::mission::{
    ApprovalDecision, ClaimedEffectView, CommandView, MissionStepView, MissionView,
};
use crate::parallel::{parallel_next, CallsActionView, CallsPhaseView};
use crate::run_laws::{
    law_a_run_ends_with_all_it_had, law_notes_on_a_run_change_one_session,
};
use crate::runs::set_status_step;
use crate::state_store::{keyed_by_id, AgentSessionStatus};
use crate::steering::take_steering;
use crate::talk_laws::law_writers_hold_their_file;
use crate::tool_calls::{settle_call, ParallelCallsView};

verus! {

/// A call can be approved where there are tools and the call is known; the call of an agent only if
/// somebody waits for it. It is told who does.
pub proof fn law_calls_are_approved_for_who_waits(
    s: AppView,
    invocation: Option<InvocationView>,
    id: Seq<char>,
)
    ensures
        ({
            let model = s.pending_model.contains_key(id);
            let parallel = s.pending_parallel.contains_key(id);
            let w = waiters(s, invocation, id);
            &&& w is Done <==> s.tools_ready && invocation is Some && (
            invocation->Some_0.origin is Agent ==> model || parallel)
            &&& w matches Outcome::Done(who) ==> who.model == model && who.parallel == parallel
            &&& w matches Outcome::Failed(e) ==> e.code == if !s.tools_ready {
                "tool-runtime-missing"@
            } else if invocation is None {
                "tool-invocation-not-found"@
            } else {
                "model-continuation-unavailable"@
            }
        }),
{
}

/// Only a call that was completed lets somebody go on: the agent of a team if one waits for it, or
/// else the main agent if it does.
pub proof fn law_completed_calls_let_go_on(w: Waiters, status: ToolStatusView)
    ensures
        approved_course(w, status) is Parallel <==> status is Completed && w.parallel,
        approved_course(w, status) is Main <==> status is Completed && w.model && !w.parallel,
        approved_course(w, status) is Nothing <==> !(status is Completed) || (!w.model
            && !w.parallel),
{
}

/// Whoever goes on does so in its own mission, which is the active one then, and the approval that it
/// asked for is given. The agent of a team is taken out of those that wait, as it stood there; the
/// others wait on.
pub proof fn law_waiters_go_on_in_their_mission(s: AppView, invocation: InvocationView)
    requires
        s.pending_parallel.contains_key(invocation.id),
    ensures
        ({
            let (after, done) = resume_parallel_step(s, invocation);
            let waited = s.pending_parallel[invocation.id];
            &&& done is Done <==> invocation.approval_request_id is Some
            &&& after.pending_parallel == s.pending_parallel.remove(invocation.id)
            &&& after == (AppView {
                pending_parallel: after.pending_parallel,
                active_mission_id: after.active_mission_id,
                ..s
            })
            &&& done matches Outcome::Done((pending, command)) ==> {
                &&& pending == waited
                &&& after.active_mission_id == Some(waited.request.contract.mission_id)
                &&& command is ResolveApproval && Some(command->ResolveApproval_approval_id)
                    == invocation.approval_request_id
                &&& command->decision == ApprovalDecision::Allow
            }
        }),
        ({
            let (after, done) = resume_main_step(s, invocation);
            &&& done is Done <==> invocation.approval_request_id is Some
            &&& done is Failed ==> after == s
            &&& after == (AppView { active_mission_id: after.active_mission_id, ..s })
            &&& done matches Outcome::Done(command) ==> {
                &&& after.active_mission_id == Some(invocation.mission_id)
                &&& command is ResolveApproval && Some(command->ResolveApproval_approval_id)
                    == invocation.approval_request_id
                &&& command->decision == ApprovalDecision::Allow
            }
        }),
{
}

/// An agent that waited for one call goes on just as if the call had not had to be approved: with the
/// same request, the result in the same place of the conversation and the same calls left.
pub proof fn law_waiting_changes_nothing(
    p: ParallelCallsView,
    asked: InvocationView,
    approved: InvocationView,
    waiting: WaitingToolView,
    prompt: Seq<char>,
)
    requires
        0 <= p.next < p.calls.len(),
        settle_call(p, asked).1 == Outcome::Done(Some(waiting)),
        approved.status is Completed,
        approved.result is Some,
    ensures
        ({
            let pending = PendingParallelView { request: p.request, waiting, prompt };
            let late = resumed(pending, approved);
            let early = settle_call(p, approved);
            &&& early.1 == Outcome::<Option<WaitingToolView>>::Done(None)
            &&& late is Done
            &&& late->Done_0.request == early.0.request
            &&& late->Done_0.continuation == early.0.continuation
            &&& late->Done_0.calls.subrange(late->Done_0.next, late->Done_0.calls.len() as int)
                == early.0.calls.subrange(early.0.next, early.0.calls.len() as int)
        }),
{
    let pending = PendingParallelView { request: p.request, waiting, prompt };
    let late = resumed(pending, approved)->Done_0;
    let early = settle_call(p, approved).0;
    assert(late.calls.subrange(0, late.calls.len() as int) =~= p.calls.subrange(
        p.next + 1,
        p.calls.len() as int,
    ));
}

/// A call that brought no result lets nobody go on.
pub proof fn law_nobody_goes_on_without_a_result(
    pending: PendingParallelView,
    approved: InvocationView,
)
    ensures
        resumed(pending, approved) is Done <==> approved.result is Some,
        resumed(pending, approved) matches Outcome::Failed(e) ==> e.code == "tool-result-missing"@
            && e.message == approved.tool_name,
{
}

/// An agent goes on as a team of its own, with what it was asked and what was said to its mission
/// meanwhile behind what it was told before; it needs a model, and has to be under control.
pub proof fn law_agents_go_on_by_themselves(
    s: AppView,
    request: RequestView,
    claimed: ClaimedEffectView,
    prompt: Seq<char>,
    token: Seq<char>,
    now: i64,
)
    ensures
        ({
            let (after, done) = resume_job_step(s, request, claimed, prompt, token, now);
            let said = take_steering(s, request.contract.mission_id, token, now).1;
            let run = request.contract.run_id;
            &&& after == (AppView { agent_messages: after.agent_messages, ..s })
            &&& done is Done <==> said is Done && s.model_ready && has_run(s.run_controls, run)
            &&& done matches Outcome::Done(team) ==> {
                &&& team.job.requests.len() == 1 && team.job.max_parallel == 1
                &&& team.job.started_at_millis == now
                &&& team.job.requests[0] == (RequestView {
                    steering_messages: request.steering_messages + said->Done_0,
                    ..request
                })
                &&& team.continuation.mission_id == request.contract.mission_id
                &&& team.continuation.prompt == prompt
                &&& team.continuation.claimed_by_run == Map::<
                    Seq<char>,
                    ClaimedEffectView,
                >::empty().insert(run, claimed)
                &&& team.continuation.requests_by_run == Map::<Seq<char>, RequestView>::empty().insert(
                    run,
                    team.job.requests[0],
                )
            }
        }),
{
}

/// Nobody waits for a call that was refused, and whoever waits for another one waits on. The approval
/// is refused if somebody waited or the mission still asks for it; and of a team it is told whose run
/// is over.
pub proof fn law_refused_calls_are_waited_for_no_more(
    s: AppView,
    invocation: InvocationView,
    mission: Option<MissionView>,
)
    ensures
        ({
            let (after, done) = deny_step(s, invocation, mission);
            let model = s.pending_model.contains_key(invocation.id);
            let parallel = s.pending_parallel.contains_key(invocation.id);
            &&& after == (AppView {
                pending_model: s.pending_model.remove(invocation.id),
                pending_parallel: s.pending_parallel.remove(invocation.id),
                ..s
            })
            &&& done is Done <==> invocation.approval_request_id is Some
            &&& done matches Outcome::Done(d) ==> {
                let id = invocation.approval_request_id->Some_0;
                &&& d.command is Some <==> model || parallel || (mission is Some
                    && mission->Some_0.pending_approvals.contains(id))
                &&& d.command matches Some(command) ==> command is ResolveApproval
                    && command->ResolveApproval_approval_id == id && command->decision
                    == ApprovalDecision::Deny
                &&& d.waiting is Some <==> parallel
                &&& d.waiting matches Some((agent, run)) ==> agent
                    == s.pending_parallel[invocation.id].request.contract.agent_definition_id
                    && run == s.pending_parallel[invocation.id].request.contract.run_id
            }
        }),
{
}

/// The run whose call was refused is over, and has failed.
pub proof fn law_refused_runs_have_failed(s: AppView, agent: Seq<char>, run: Seq<char>, now: i64)
    requires
        is_sound(s),
    ensures
        ({
            let (after, done) = denied_run_step(s, agent, run, now);
            done is Done ==> is_ended(
                s,
                after,
                run,
                AgentSessionStatus::Failed,
                BudgetEscrowStatus::Failed,
            )
        }),
{
    law_notes_on_a_run_change_one_session(
        s,
        run,
        AgentSessionStatus::Failed,
        Seq::empty(),
        None,
        now,
    );
    let s1 = set_status_step(s, run, AgentSessionStatus::Failed, now).0;
    if denied_run_step(s, agent, run, now).1 is Done {
        law_a_run_ends_with_all_it_had(s1, agent, run, BudgetEscrowStatus::Failed, now);
    }
}

/// What a user calls is called in their name, in the active mission if there is one, and needs tools.
pub proof fn law_users_call_in_their_name(
    s: AppView,
    tool: Seq<char>,
    args: JsonView,
    id: Seq<char>,
    approval: Seq<char>,
    key: Seq<char>,
    now: i64,
)
    ensures
        ({
            let made = terminal_invocation(s, tool, args, id, approval, key, now);
            &&& made is Done <==> s.tools_ready
            &&& made matches Outcome::Done(call) ==> {
                &&& call.tool_name == tool && call.args == args && call.invocation_id == id
                &&& call.approval_request_id == approval && call.idempotency_key == key
                &&& call.project_id == s.project_id && call.now_millis == now
                &&& call.origin is User && call.actor_id == "user:terminal"@
                &&& s.active_mission_id matches Some(m) ==> call.mission_id == m
                &&& s.active_mission_id is None ==> call.mission_id == "mission:terminal"@
            }
        }),
{
}

/// Carrying out an approval begins with the call itself; the file that it writes is held first.
pub proof fn law_approved_calls_are_made(
    s: AppView,
    invocation: InvocationView,
    id: Seq<char>,
)
    ensures
        first_approval_step(s, Some(invocation), id) matches Outcome::Done((phase, action)) ==> {
            &&& waiters(s, Some(invocation), id) is Done
            &&& invocation.tool_name == "files.write"@ ==> phase == (ApprovalPhaseView::Leasing {
                invocation,
                waiters: waiters(s, Some(invocation), id)->Done_0,
            }) && action is Resolve
            &&& invocation.tool_name != "files.write"@ ==> phase == (ApprovalPhaseView::Making {
                invocation,
                waiters: waiters(s, Some(invocation), id)->Done_0,
                lease: None,
            }) && action == (ApprovalActionView::Make { invocation_id: id })
        },
        first_approval_step(s, None, id) is Failed,
{
    law_writers_hold_their_file(s, invocation.tool_name, invocation.args, invocation.run_id);
}

/// What came of the call is shown in its mission, whatever lease was held for it is given back, and a
/// call that failed fails the approval.
pub proof fn law_approved_calls_are_shown(
    s: AppView,
    invocation: InvocationView,
    w: Waiters,
    lease: Option<LeaseView>,
    approved: InvocationView,
    error: ErrorView,
    now: i64,
)
    ensures
        ({
            let making = ApprovalPhaseView::Making { invocation, waiters: w, lease };
            let (after, done) = approval_step(
                s,
                making,
                ApprovalReplyView::Made { approved },
                now,
            );
            let (after2, failed) = approval_step(
                s,
                making,
                ApprovalReplyView::CallFailed { error },
                now,
            );
            &&& after == after2 && failed is Failed
            &&& lease is None ==> after == s && done is Done && failed == Outcome::<
                (ApprovalPhaseView, ApprovalActionView),
            >::Failed(error)
            &&& after == (AppView { file_leases: after.file_leases, ..s })
            &&& done matches Outcome::Done((phase, action)) ==> {
                &&& phase == (ApprovalPhaseView::Showing { invocation, waiters: w, approved })
                &&& action is Do && action->Do_mission_id == approved.mission_id
                &&& action->steps.len() == 1 && action->steps[0] is Publish
            }
        }),
{
    reveal(crate::approval_drive::made_step);
}

/// After that whoever waited goes on: an agent of a team resolves its approval and looks for the
/// effect with which it goes on; the main agent resolves it and drives the effects of its mission;
/// and if nobody waited, that was all.
pub proof fn law_approvals_wake_who_waited(
    s: AppView,
    invocation: InvocationView,
    w: Waiters,
    approved: InvocationView,
)
    requires
        approved.status is Completed && w.parallel ==> s.pending_parallel.contains_key(
            invocation.id,
        ),
    ensures
        ({
            let (after, done) = shown_step(s, invocation, w, approved);
            let finished = approved.status is Completed;
            &&& !finished || (!w.model && !w.parallel) ==> after == s && done == Outcome::Done(
                (ApprovalPhaseView::Over, ApprovalActionView::Finish { approved }),
            )
            &&& done matches Outcome::Done((phase, action)) ==> {
                &&& finished && w.parallel ==> {
                    let pending = s.pending_parallel[invocation.id];
                    &&& phase == (ApprovalPhaseView::Resuming {
                        phase: ResumePhaseView::Resolving { pending, approved },
                    })
                    &&& action is Do && action->Do_mission_id == pending.request.contract.mission_id
                    &&& !after.pending_parallel.contains_key(invocation.id)
                }
                &&& finished && w.model && !w.parallel ==> {
                    &&& phase == (ApprovalPhaseView::Releasing {
                        mission_id: invocation.mission_id,
                        approved,
                    })
                    &&& action is Do && action->Do_mission_id == invocation.mission_id
                }
                &&& action is Do ==> action->steps.len() == 1 && (
                action->steps[0] matches MissionStepView::Command { command } && command
                    is ResolveApproval && command->decision == ApprovalDecision::Allow && Some(
                    command->ResolveApproval_approval_id,
                ) == invocation.approval_request_id)
            }
        }),
{
    reveal(shown_step);
}

/// An agent of a team that goes on keeps what its call has found out under its own run, makes the
/// calls that are left, and is ready when none is. If one of these has to be approved in turn, the
/// agent is put aside again with what is left of them, under the name of that call.
pub proof fn law_resumed_agents_are_ready_or_wait_again(
    s: AppView,
    r: ResumptionView,
    request: RequestView,
    waiting: WaitingToolView,
    token: Seq<char>,
    now: i64,
)
    requires
        s.agent_state matches Some(st) ==> keyed_by_id(st.sessions),
    ensures
        ({
            let parking = ResumePhaseView::Parking { resumption: r, request, waiting };
            let (after, done) = resume_step(s, parking, ApprovalReplyView::Did, now);
            &&& done == Outcome::Done(
                (ApprovalPhaseView::Over, ApprovalActionView::Finish { approved: r.approved }),
            )
            &&& after == (AppView {
                pending_parallel: s.pending_parallel.insert(
                    waiting.invocation.id,
                    PendingParallelView { request, waiting, prompt: r.prompt },
                ),
                ..s
            })
        }),
        ({
            let mustering = ResumePhaseView::Mustering { resumption: r, request };
            let (after, done) = resume_step(
                s,
                mustering,
                ApprovalReplyView::Named { delivery_token: token },
                now,
            );
            done is Done ==> {
                &&& done == Outcome::Done(
                    (ApprovalPhaseView::Over, ApprovalActionView::Finish { approved: r.approved }),
                )
                &&& stands_at(after, request.contract.run_id, AgentSessionStatus::Running)
                &&& after.ready_parallel_resume matches Some(team)
                    && team.job.requests.len() == 1 && team.job.requests[0].contract
                    == request.contract && team.continuation.claimed_by_run.contains_key(
                    request.contract.run_id,
                ) && team.continuation.claimed_by_run[request.contract.run_id] == r.claimed
            }
        }),
{
    reveal(resume_step);
    reveal(crate::approval_drive::ready_step);
    law_notes_on_a_run_change_one_session(
        s,
        request.contract.run_id,
        AgentSessionStatus::Running,
        Seq::empty(),
        None,
        now,
    );
}

/// The effect with which an agent goes on is the first one that resumes its run in its mission; it is
/// claimed, and what the call has found out is kept under the run, as the call that waited.
pub proof fn law_agents_go_on_with_their_own_effect(
    s: AppView,
    pending: PendingParallelView,
    approved: InvocationView,
    entries: Seq<crate::mission::EffectView>,
    claimed: Option<ClaimedEffectView>,
    now: i64,
)
    ensures
        ({
            let c = pending.request.contract;
            let (after, done) = resume_step(
                s,
                ResumePhaseView::Listing { pending, approved },
                ApprovalReplyView::Effects { entries },
                now,
            );
            &&& after == s
            &&& done is Failed <==> forall|i: int|
                0 <= i < entries.len() ==> !crate::wave_laws::is_wanted(
                    #[trigger] entries[i],
                    c.mission_id,
                    c.run_id,
                    false,
                    true,
                )
            &&& done matches Outcome::Done((phase, action)) ==> {
                &&& phase == (ApprovalPhaseView::Resuming {
                    phase: ResumePhaseView::Claiming { pending, approved },
                })
                &&& action is Claim
                &&& exists|i: int|
                    0 <= i < entries.len() && crate::wave_laws::is_wanted(
                        #[trigger] entries[i],
                        c.mission_id,
                        c.run_id,
                        false,
                        true,
                    ) && entries[i].effect_id == action->effect_id
            }
        }),
        ({
            let (after, done) = resume_step(
                s,
                ResumePhaseView::Claiming { pending, approved },
                ApprovalReplyView::Claimed { claimed },
                now,
            );
            let call = pending.waiting.waiting_call;
            &&& after == s
            &&& done is Done <==> claimed is Some && approved.result is Some
            &&& done matches Outcome::Done((phase, action)) ==> {
                &&& phase == (ApprovalPhaseView::Resuming {
                    phase: ResumePhaseView::Keeping { pending, approved, claimed: claimed->Some_0 },
                })
                &&& action is Keep && action->run_id == pending.request.contract.run_id
                &&& action->Keep_fact.tool == call.name && action->Keep_fact.arguments
                    == call.arguments && Some(action->Keep_fact.result) == approved.result
            }
        }),
{
    reveal(resume_step);
    reveal(crate::approval_drive::listed_step);
    reveal(crate::approval_drive::claimed_step);
    let c = pending.request.contract;
    crate::wave_laws::law_the_first_effect_of_a_run_is_found(
        entries,
        c.mission_id,
        c.run_id,
        false,
        true,
    );
}

/// When what was found out is kept, the calls that are left are made; and a call among them that has to
/// be approved is asked for under its own task and run, and the agent says that it waits.
pub proof fn law_resumed_agents_make_the_calls_left(
    s: AppView,
    pending: PendingParallelView,
    approved: InvocationView,
    claimed: ClaimedEffectView,
    r: ResumptionView,
    request: RequestView,
    waiting: WaitingToolView,
    id: Seq<char>,
    now: i64,
)
    requires
        s.agent_state matches Some(st) ==> keyed_by_id(st.sessions),
    ensures
        ({
            let (after, done) = resume_step(
                s,
                ResumePhaseView::Keeping { pending, approved, claimed },
                ApprovalReplyView::Did,
                now,
            );
            &&& !s.tools_ready || approved.result is None ==> done is Failed && after == s
            &&& done matches Outcome::Done((phase, action)) ==> {
                let rest = resumed(pending, approved)->Done_0;
                let next = parallel_next(s, rest, now);
                let kept = ResumptionView { claimed, prompt: pending.prompt, approved };
                &&& after == next.0
                &&& next.1->Done_0.1 matches CallsActionView::Resume { request: q } ==> phase == (
                ApprovalPhaseView::Resuming {
                    phase: ResumePhaseView::Mustering { resumption: kept, request: q },
                })
                &&& next.1->Done_0.1 is Invoke ==> phase == (ApprovalPhaseView::Resuming {
                    phase: ResumePhaseView::Calling { resumption: kept, calls: next.1->Done_0.0 },
                })
            }
        }),
        ({
            let (after, done) = resume_step(
                s,
                ResumePhaseView::Requesting { resumption: r, request, waiting, request_id: id },
                ApprovalReplyView::Did,
                now,
            );
            &&& done is Done
            &&& done->Done_0.0 == (ApprovalPhaseView::Resuming {
                phase: ResumePhaseView::Parking { resumption: r, request, waiting },
            })
            &&& done->Done_0.1 matches ApprovalActionView::Do { mission_id, steps } && mission_id
                == request.contract.mission_id && steps.len() == 1 && tells_completion(
                steps[0],
                r.claimed,
                now,
            )
            &&& stands_at(after, request.contract.run_id, AgentSessionStatus::WaitingApproval)
        }),
{
    reveal(resume_step);
    reveal(crate::approval_drive::kept_step);
    reveal(crate::approval_drive::requested_step);
    crate::finish_laws::law_runs_wait_and_go_on(
        s,
        None,
        r.claimed,
        request.contract.run_id,
        waiting,
        id,
        now,
    );
}

/// When the effects of the main agent's mission were driven, the mission is completed if it is on and
/// all its nodes are accepted; and the approval is carried out.
pub proof fn law_missions_end_with_their_last_node(
    s: AppView,
    approved: InvocationView,
    mission: MissionView,
    now: i64,
)
    ensures
        ({
            let (after, done) = approval_step(
                s,
                ApprovalPhaseView::Closing { approved },
                ApprovalReplyView::Mission { mission },
                now,
            );
            let over = mission.status is Running && forall|id: Seq<char>| #[trigger]
                mission.nodes.contains_key(id) ==> mission.nodes[id].status is Accepted;
            &&& after == s && done is Done
            &&& !over ==> done->Done_0 == (
                ApprovalPhaseView::Over,
                ApprovalActionView::Finish { approved },
            )
            &&& over ==> done->Done_0.0 == (ApprovalPhaseView::Ending { approved }) && (
            done->Done_0.1 matches ApprovalActionView::Do { mission_id, steps } && mission_id
                == mission.mission_id && steps == seq![
                MissionStepView::Command { command: CommandView::CompleteMission },
            ])
        }),
{
    reveal(crate::approval_drive::closed_step);
}

/// The calls of an answer are made one after the other, each by its own name and with the file that it
/// writes held; when all are made the agent goes on from the response that it has heard last.
pub proof fn law_agents_go_on_when_all_calls_are_made(s: AppView, p: ParallelCallsView, now: i64)
    requires
        s.agent_state matches Some(st) ==> keyed_by_id(st.sessions),
        0 <= p.next,
    ensures
        ({
            let (after, done) = parallel_next(s, p, now);
            let run = p.request.contract.run_id;
            &&& p.next >= p.calls.len() ==> {
                &&& done is Done && done->Done_0.0 is Over
                &&& done->Done_0.1 matches CallsActionView::Resume { request }
                    && request.model_continuation is Some && request.contract
                    == p.request.contract && request.context == p.request.context
                &&& crate::runs::session_stored(after, run) matches Some(x)
                    ==> x.previous_response_id
                    == done->Done_0.1->Resume_request.model_continuation->Some_0.previous_response_id
            }
            &&& p.next < p.calls.len() ==> {
                let call = p.calls[p.next];
                &&& after == s
                &&& done matches Outcome::Done((phase, action)) ==> if call.name
                    == "files.write"@ {
                    phase == (CallsPhaseView::Leasing { calls: p }) && action is Resolve
                } else {
                    phase == (CallsPhaseView::Invoking { calls: p, lease: None }) && action == (
                    CallsActionView::Invoke { call })
                }
                &&& call.name != "files.write"@ ==> done is Done
            }
        }),
{
    law_notes_on_a_run_change_one_session(
        s,
        p.request.contract.run_id,
        AgentSessionStatus::Running,
        Seq::empty(),
        crate::tool_calls::continued(p.continuation).previous_response_id,
        now,
    );
}

} // verus!
