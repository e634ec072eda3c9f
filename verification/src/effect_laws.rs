//! What becomes of the effects of a mission: who works on them, how they end, and what the mission is
//! told. And how a mission is steered meanwhile.

use vstd::prelude::*;

use crate::application::{AppView, InvocationView};
use crate::budget::{escrows_ok, BudgetEscrowStatus};
use crate::cancellation::{has_run, runs_ok};
use crate::drive::{drive_step, reply_fits, ActionView, PhaseView, ReplyView};
use crate::effects::{
    abandon_step, await_step, awaited, cancel_run_step, submit_step, verify_step,
};
use crate::error::{ErrorView, Outcome};
use crate::finish_laws::{stands_at, tells_completion};
use crate::json::{member_of, text_value, JsonView};
use crate::messages::{send_step, ClaimedView, RowView};
use crate::mission::{
    ClaimedEffectView, CommandView, EffectOutcome, IntentView, MissionStepView, MissionView,
};
use crate::run_laws::{
    law_a_run_ends_with_all_it_had, law_notes_on_a_run_change_one_session,
};
use crate::runs::{cancel_control, set_status_step};
use crate::state_store::{keyed_by_id, AgentSessionStatus};
use crate::steering::{heard, instruction_in, steer_mission};
use crate::team_finish::{save_result_step, ApprovalView};
use crate::text::{is_blank_text, starts_with_text, trimmed};

verus! {

/// What is known of an application in which runs are started and ended.
pub open spec fn is_sound(s: AppView) -> bool {
    &&& s.agent_state matches Some(st) ==> keyed_by_id(st.sessions)
    &&& runs_ok(s.run_controls)
    &&& s.agent_budgets matches Some(rows) ==> escrows_ok(rows)
}

/// The answer of the main agent is kept as its result, its run is submitted, and the mission is told
/// what was answered and that the effect is completed.
pub proof fn law_answers_are_submitted(
    s: AppView,
    claimed: ClaimedEffectView,
    node: Seq<char>,
    run: Seq<char>,
    output: Seq<char>,
    now: i64,
)
    requires
        is_sound(s),
    ensures
        ({
            let (after, done) = submit_step(s, claimed, node, run, output, now);
            &&& done is Done
            &&& done->Done_0.len() == 2
            &&& done->Done_0[0] == (MissionStepView::Command {
                command: CommandView::SubmitNode {
                    node_id: node,
                    run_id: run,
                    output_summary: output,
                },
            })
            &&& tells_completion(done->Done_0[1], claimed, now)
            &&& stands_at(after, run, AgentSessionStatus::Submitted)
            &&& after.agent_budgets == s.agent_budgets && after.run_controls == s.run_controls
            &&& s.agent_state is Some ==> {
                let kept = after.agent_state->Some_0.results[run];
                &&& after.agent_state->Some_0.results == s.agent_state->Some_0.results.insert(
                    run,
                    kept,
                )
                &&& kept.recorded_at_millis == now
                &&& kept.result.status == "completed"@ && kept.result.summary == output
                &&& kept.result.evidence.len() == 0 && kept.result.changed_files.len() == 0
                &&& kept.result.metrics.tool_calls == 0 && kept.result.model_tool_yield is None
            }
        }),
{
    let s1 = save_result_step(
        s,
        run,
        crate::results::plain_result(
            "completed"@,
            output,
            crate::exchange::no_metrics(),
            crate::results::CONFIDENCE_HALF,
        ),
        now,
    );
    law_notes_on_a_run_change_one_session(
        s1,
        run,
        AgentSessionStatus::Submitted,
        Seq::empty(),
        None,
        now,
    );
}

/// A run that waits for an approval says so, and its effect is completed with what it waits for.
pub proof fn law_waiting_runs_complete_their_effect(
    s: AppView,
    claimed: ClaimedEffectView,
    run: Seq<char>,
    request_id: Seq<char>,
    invocation_id: Seq<char>,
    now: i64,
)
    requires
        is_sound(s),
    ensures
        ({
            let (after, done) = await_step(s, claimed, run, request_id, invocation_id, now);
            &&& done is Done && tells_completion(done->Done_0, claimed, now)
            &&& done->Done_0->completion.result == Some(
                JsonView::Object(
                    seq![
                        ("toolInvocationId"@, JsonView::Text(invocation_id)),
                        ("waitingApproval"@, JsonView::Text(request_id)),
                    ],
                ),
            )
            &&& stands_at(after, run, AgentSessionStatus::WaitingApproval)
            &&& after == (AppView { agent_state: after.agent_state, ..s })
        }),
{
    law_notes_on_a_run_change_one_session(
        s,
        run,
        AgentSessionStatus::WaitingApproval,
        Seq::empty(),
        None,
        now,
    );
}

/// A run is over in one way: under no control, its session and its escrow say how it ended.
pub open spec fn is_ended(
    s: AppView,
    after: AppView,
    run: Seq<char>,
    status: AgentSessionStatus,
    escrow: BudgetEscrowStatus,
) -> bool {
    &&& !has_run(after.run_controls, run)
    &&& stands_at(after, run, status)
    &&& forall|i: int|
        s.agent_budgets is Some && 0 <= i < s.agent_budgets->Some_0.len() && (
        #[trigger] s.agent_budgets->Some_0[i]).run_id == run && s.agent_budgets->Some_0[i].status
            == BudgetEscrowStatus::Active ==> after.agent_budgets->Some_0[i].status == escrow
}

proof fn lemma_ended(
    s: AppView,
    s1: AppView,
    agent: Seq<char>,
    run: Seq<char>,
    status: AgentSessionStatus,
    escrow: BudgetEscrowStatus,
    now: i64,
)
    requires
        is_sound(s),
        is_sound(s1),
        s1.agent_state == s.agent_state,
        s1.agent_budgets == s.agent_budgets,
    ensures
        ({
            let s2 = set_status_step(s1, run, status, now).0;
            let (after, done) = crate::runs::finish_run_step(s2, agent, run, escrow, now);
            done is Done ==> is_ended(s, after, run, status, escrow)
        }),
        set_status_step(s1, run, status, now).1 is Done,
{
    law_notes_on_a_run_change_one_session(s1, run, status, Seq::empty(), None, now);
    let s2 = set_status_step(s1, run, status, now).0;
    if crate::runs::finish_run_step(s2, agent, run, escrow, now).1 is Done {
        law_a_run_ends_with_all_it_had(s2, agent, run, escrow, now);
    }
}

/// A run that could not be done ends as failed, and the mission is told of its task with the error.
pub proof fn law_abandoned_runs_have_failed(
    s: AppView,
    agent: Seq<char>,
    node: Seq<char>,
    run: Seq<char>,
    error: ErrorView,
    now: i64,
)
    requires
        is_sound(s),
    ensures
        ({
            let (after, done) = abandon_step(s, agent, node, run, error, now);
            done matches Outcome::Done(step) ==> {
                &&& is_ended(s, after, run, AgentSessionStatus::Failed, BudgetEscrowStatus::Failed)
                &&& step == (MissionStepView::Command {
                    command: CommandView::FailNode {
                        node_id: node,
                        run_id: run,
                        error: error.code + ": "@ + error.message,
                    },
                })
            }
        }),
{
    lemma_ended(
        s,
        s,
        agent,
        run,
        AgentSessionStatus::Failed,
        BudgetEscrowStatus::Failed,
        now,
    );
}

/// A run that is verified ends as completed, its node is accepted and the effect is completed.
pub proof fn law_verified_runs_are_completed(
    s: AppView,
    m: MissionView,
    claimed: ClaimedEffectView,
    node: Seq<char>,
    run: Seq<char>,
    now: i64,
)
    requires
        is_sound(s),
    ensures
        ({
            let (after, done) = verify_step(s, m, claimed, node, run, now);
            &&& !m.nodes.contains_key(node) ==> done is Failed && after == s
            &&& done matches Outcome::Done(steps) ==> {
                &&& is_ended(
                    s,
                    after,
                    run,
                    AgentSessionStatus::Completed,
                    BudgetEscrowStatus::Completed,
                )
                &&& steps.len() == 2
                &&& steps[0] == (MissionStepView::Command {
                    command: CommandView::AcceptNode { node_id: node, run_id: run },
                })
                &&& tells_completion(steps[1], claimed, now)
            }
        }),
{
    if m.nodes.contains_key(node) {
        lemma_ended(
            s,
            s,
            m.nodes[node].agent_definition_id,
            run,
            AgentSessionStatus::Completed,
            BudgetEscrowStatus::Completed,
            now,
        );
    }
}

/// A run that is cancelled ends as cancelled, everybody is told by whom it was done and why it ended,
/// and its effect is completed with the run and the reason.
pub proof fn law_cancelled_runs_are_over(
    s: AppView,
    m: MissionView,
    claimed: ClaimedEffectView,
    node: Seq<char>,
    run: Seq<char>,
    reason: Seq<char>,
    now: i64,
)
    requires
        is_sound(s),
        crate::cancellation::cancelled_downwards(s.run_controls),
    ensures
        ({
            let (after, done) = cancel_run_step(s, m, claimed, node, run, reason, now);
            &&& !m.nodes.contains_key(node) ==> done is Failed && after == s
            &&& done matches Outcome::Done(steps) ==> {
                &&& is_ended(
                    s,
                    after,
                    run,
                    AgentSessionStatus::Cancelled,
                    BudgetEscrowStatus::Cancelled,
                )
                &&& steps.len() == 2
                &&& steps[0] is Publish
                &&& tells_completion(steps[1], claimed, now)
                &&& steps[1]->completion.result == Some(
                    JsonView::Object(
                        seq![
                            ("cancelledRunId"@, JsonView::Text(run)),
                            ("reason"@, JsonView::Text(reason)),
                        ],
                    ),
                )
            }
        }),
{
    if m.nodes.contains_key(node) {
        let s1 = cancel_control(s, run);
        if has_run(s.run_controls, run) {
            crate::cancellation::law_cancelling_reaches_the_subtree(s.run_controls, run);
        }
        lemma_ended(
            s,
            s1,
            m.nodes[node].agent_definition_id,
            run,
            AgentSessionStatus::Cancelled,
            BudgetEscrowStatus::Cancelled,
            now,
        );
    }
}

/// An error asks for an approval exactly if it says so, and names the call behind its first words.
pub proof fn law_errors_name_the_call_they_wait_for(error: ErrorView, call: Seq<char>)
    ensures
        awaited(error) is None <==> error.code != "tool-approval-required"@,
        error.code == "tool-approval-required"@ && error.message == "invocation="@ + call
            ==> awaited(error) == Some(Outcome::Done(call)),
        awaited(error) matches Some(Outcome::Done(id)) ==> error.message == "invocation="@ + id,
        awaited(error) matches Some(Outcome::Failed(e)) ==> !starts_with_text(
            error.message,
            "invocation="@,
        ) && e.message == error.message,
{
    let said = "invocation="@ + call;
    let n = "invocation="@.len() as int;
    assert(said.subrange(0, n) =~= "invocation="@);
    assert(said.subrange(n, said.len() as int) =~= call);
    if starts_with_text(error.message, "invocation="@) {
        let m = error.message;
        assert(m =~= m.subrange(0, n) + m.subrange(n, m.len() as int));
    }
}

/// The node and the run that an effect is about.
pub open spec fn is_about(claimed: ClaimedEffectView, node: Seq<char>, run: Seq<char>) -> bool {
    match claimed.intent {
        IntentView::StartAgentRun { node_id, run_id } => node_id == node && run_id == run,
        IntentView::ResumeAgentRun { node_id, run_id } => node_id == node && run_id == run,
        IntentView::VerifyAgentRun { node_id, run_id } => node_id == node && run_id == run,
        IntentView::CancelAgentRun { node_id, run_id, .. } => node_id == node && run_id == run,
    }
}

/// The effects of a mission are taken one after the other until none is left. An effect that starts a
/// run or goes on with it is worked on by the agent of its node; one that verifies a run completes it
/// and one that cancels it cancels it. Every one of them concerns its own node and its own run.
pub proof fn law_effects_are_worked_on(
    s: AppView,
    mission: Seq<char>,
    claimed: ClaimedEffectView,
    node: Seq<char>,
    run: Seq<char>,
    reply: ReplyView,
    now: i64,
)
    requires
        is_about(claimed, node, run),
        reply_fits(PhaseView::Reading { claimed }, reply),
    ensures
        drive_step(s, mission, PhaseView::Idle, ReplyView::Nothing, now) == (
            s,
            Outcome::Done((PhaseView::Idle, ActionView::Finish)),
        ),
        drive_step(s, mission, PhaseView::Idle, ReplyView::Performed, now) == (
            s,
            Outcome::Done((PhaseView::Idle, ActionView::Claim)),
        ),
        drive_step(s, mission, PhaseView::Idle, ReplyView::Lost, now).1 is Failed,
        drive_step(s, mission, PhaseView::Idle, ReplyView::Claimed { claimed }, now) == (
            s,
            Outcome::Done(
                (
                    PhaseView::Reading { claimed },
                    if claimed.intent is StartAgentRun || claimed.intent is ResumeAgentRun {
                        ActionView::Brief { node_id: node }
                    } else {
                        ActionView::ReadMission
                    },
                ),
            ),
        ),
        ({
            let (after, done) = drive_step(s, mission, PhaseView::Reading { claimed }, reply, now);
            &&& claimed.intent is VerifyAgentRun ==> {
                let (after2, steps) = verify_step(
                    s,
                    reply->Mission_state,
                    claimed,
                    node,
                    run,
                    now,
                );
                &&& after == after2
                &&& done is Done <==> steps is Done
                &&& done matches Outcome::Done((phase, action)) ==> phase is Idle && action == (
                ActionView::Perform { steps: steps->Done_0 })
            }
            &&& claimed.intent is CancelAgentRun ==> {
                let (after2, steps) = cancel_run_step(
                    s,
                    reply->Mission_state,
                    claimed,
                    node,
                    run,
                    claimed.intent->reason,
                    now,
                );
                &&& after == after2
                &&& done is Done <==> steps is Done
                &&& done matches Outcome::Done((phase, action)) ==> phase is Idle && action == (
                ActionView::Perform { steps: steps->Done_0 })
            }
            &&& claimed.intent is StartAgentRun || claimed.intent is ResumeAgentRun ==> (
            done matches Outcome::Done((phase, action)) ==> {
                let agent = reply->Briefed_state.nodes[node].agent_definition_id;
                &&& phase == (PhaseView::Executing { claimed, agent_id: agent })
                &&& action is Execute && action->agent_id == agent && action->run_id == run
                &&& has_run(after.run_controls, run)
            })
        }),
{
    if claimed.intent is StartAgentRun || claimed.intent is ResumeAgentRun {
        let all = s.run_controls.push(
            crate::cancellation::ControlView { run_id: run, parent: None, cancelled: false },
        );
        assert(all[all.len() - 1].run_id == run);
    }
}

/// What an agent has answered is submitted for its node. A run that has failed fails its effect and
/// then its node, with its own error, and ends the drive with it. A run that waits for an approval
/// asks the mission for it and is parked.
pub proof fn law_effects_end_as_their_run_does(
    s: AppView,
    mission: Seq<char>,
    claimed: ClaimedEffectView,
    node: Seq<char>,
    run: Seq<char>,
    agent: Seq<char>,
    output: Seq<char>,
    error: ErrorView,
    now: i64,
)
    requires
        is_about(claimed, node, run),
        is_sound(s),
    ensures
        ({
            let working = PhaseView::Executing { claimed, agent_id: agent };
            let (after, done) = drive_step(
                s,
                mission,
                working,
                ReplyView::Answered { output },
                now,
            );
            let (after2, steps) = submit_step(s, claimed, node, run, output, now);
            &&& after == after2
            &&& done == Outcome::Done(
                (PhaseView::Idle, ActionView::Perform { steps: steps->Done_0 }),
            )
        }),
        error.code != "tool-approval-required"@ ==> {
            let working = PhaseView::Executing { claimed, agent_id: agent };
            let failing = PhaseView::Failing { claimed, agent_id: agent, error };
            let (after, done) = drive_step(s, mission, working, ReplyView::Refused { error }, now);
            let (last, told) = drive_step(s, mission, failing, ReplyView::Performed, now);
            &&& after == s && done is Done && done->Done_0.0 == failing
            &&& done->Done_0.1 matches ActionView::Perform { steps } && steps.len() == 1 && (
            steps[0] matches MissionStepView::Complete { completion } && completion.fence
                == claimed.fence && completion.outcome == EffectOutcome::Failed && completion.error
                == Some(error.code + ": "@ + error.message) && completion.recorded_at_millis == now)
            &&& told matches Outcome::Done((phase, action)) ==> phase == (PhaseView::GivingUp {
                error,
            }) && is_ended(s, last, run, AgentSessionStatus::Failed, BudgetEscrowStatus::Failed)
            &&& drive_step(s, mission, PhaseView::GivingUp { error }, ReplyView::Performed, now).1
                == Outcome::<(PhaseView, ActionView)>::Failed(error)
        },
{
    law_answers_are_submitted(s, claimed, node, run, output, now);
    law_abandoned_runs_have_failed(s, agent, node, run, error, now);
}

/// A call that has to be approved is looked for by its name, and the mission is asked for its approval
/// of it for the node and the run that the effect is about.
pub proof fn law_drives_ask_for_approvals(
    s: AppView,
    mission: Seq<char>,
    claimed: ClaimedEffectView,
    node: Seq<char>,
    run: Seq<char>,
    agent: Seq<char>,
    call: Seq<char>,
    invocation: Option<InvocationView>,
    approvals: Seq<ApprovalView>,
    now: i64,
)
    requires
        is_about(claimed, node, run),
        is_sound(s),
    ensures
        ({
            let working = PhaseView::Executing { claimed, agent_id: agent };
            let error = ErrorView {
                code: "tool-approval-required"@,
                message: "invocation="@ + call,
            };
            let (after, done) = drive_step(s, mission, working, ReplyView::Refused { error }, now);
            &&& after == s
            &&& done is Done <==> s.tools_ready
            &&& done is Done ==> done->Done_0 == (
                PhaseView::Asking { claimed, invocation_id: call },
                ActionView::FindCall { invocation_id: call },
            )
        }),
        ({
            let asking = PhaseView::Asking { claimed, invocation_id: call };
            let (after, done) = drive_step(
                s,
                mission,
                asking,
                ReplyView::Call { invocation, approvals },
                now,
            );
            &&& after == s
            &&& invocation is None ==> done is Failed
            &&& done matches Outcome::Done((phase, action)) ==> {
                &&& invocation is Some && s.tools_ready
                &&& phase is Parking && phase->Parking_claimed == claimed
                    && phase->Parking_invocation_id == call && Some(phase->Parking_request_id)
                    == invocation->Some_0.approval_request_id
                &&& action matches ActionView::Perform { steps } && steps.len() == 1 && (
                steps[0] matches MissionStepView::Command { command } && command
                    is RequestApproval && command->RequestApproval_node_id == node
                    && command->RequestApproval_run_id == run
                    && command->RequestApproval_approval_id == phase->Parking_request_id)
            }
        }),
        ({
            let parking = PhaseView::Parking { claimed, request_id: call, invocation_id: agent };
            let (after, done) = drive_step(s, mission, parking, ReplyView::Performed, now);
            &&& done is Done && done->Done_0.0 is Parked
            &&& stands_at(after, run, AgentSessionStatus::WaitingApproval)
            &&& done->Done_0.1 matches ActionView::Perform { steps } && steps.len() == 1
                && tells_completion(steps[0], claimed, now)
            &&& drive_step(s, mission, PhaseView::Parked, ReplyView::Performed, now) == (
                s,
                Outcome::Done((PhaseView::Parked, ActionView::Finish)),
            )
        }),
{
    let error = ErrorView { code: "tool-approval-required"@, message: "invocation="@ + call };
    law_errors_name_the_call_they_wait_for(error, call);
    law_waiting_runs_complete_their_effect(s, claimed, run, call, agent, now);
}

/// What a message says to the mission: something that is not blank, without what is blank around it.
pub open spec fn steers() -> spec_fn(ClaimedView) -> bool {
    |c: ClaimedView|
        c.message.kind is Steering && (text_value(
            member_of(Some(c.message.payload), "instruction"@),
        ) matches Some(text) && !is_blank_text(text))
}

pub open spec fn says() -> spec_fn(ClaimedView) -> Seq<char> {
    |c: ClaimedView|
        trimmed(text_value(member_of(Some(c.message.payload), "instruction"@))->Some_0)
}

/// What is heard is what every message says that steers, in the order of the messages, and nothing
/// else.
pub proof fn law_all_steering_is_heard_in_order(
    rows: Seq<RowView>,
    claimed: Seq<ClaimedView>,
    token: Seq<char>,
    now: i64,
    n: int,
)
    requires
        0 <= n <= claimed.len(),
    ensures
        heard(rows, claimed, token, now, n).1 matches Outcome::Done(said) ==> said
            == claimed.subrange(0, n).filter(steers()).map_values(says()),
    decreases n,
{
    reveal(Seq::filter);
    if n > 0 {
        law_all_steering_is_heard_in_order(rows, claimed, token, now, n - 1);
        let all = claimed.subrange(0, n);
        let before = claimed.subrange(0, n - 1);
        assert(all.drop_last() =~= before);
        assert(all.last() == claimed[n - 1]);
        let c = claimed[n - 1];
        assert(instruction_in(c.message) is Some <==> steers()(c));
        if steers()(c) {
            assert(instruction_in(c.message) == Some(says()(c)));
            assert(all.filter(steers()).map_values(says()) =~= before.filter(steers()).map_values(
                says(),
            ).push(says()(c)));
        } else {
            assert(all.filter(steers()) =~= before.filter(steers()));
        }
    } else {
        assert(claimed.subrange(0, 0).filter(steers()).map_values(says()) =~= Seq::<
            Seq<char>,
        >::empty());
    }
}

/// Steering needs something to say, a mission that is active and a bus. It is sent to whoever
/// supervises that mission, from the user, and without what is blank around it.
pub proof fn law_steering_is_sent_to_the_mission(
    s: AppView,
    instruction: Seq<char>,
    id: Seq<char>,
    now: i64,
)
    ensures
        ({
            let (after, done) = steer_mission(s, instruction, id, now);
            &&& after == (AppView { agent_messages: after.agent_messages, ..s })
            &&& is_blank_text(instruction) || s.active_mission_id is None || s.agent_messages is None
                ==> done is Failed && after == s
            &&& done matches Outcome::Done(shown) ==> {
                let rows = s.agent_messages->Some_0.rows;
                &&& shown.queued && Some(shown.mission_id) == s.active_mission_id
                &&& after.agent_messages->Some_0.meetings == s.agent_messages->Some_0.meetings
                &&& after.agent_messages->Some_0.rows == send_step(
                    rows,
                    crate::steering::steering_sent(shown.mission_id, id, instruction, now),
                ).0
            }
        }),
        ({
            let m = crate::steering::steering_sent(
                s.active_mission_id->Some_0,
                id,
                instruction,
                now,
            );
            &&& m.id == id && m.from == "user:terminal"@ && m.kind is Steering
            &&& Some(m.mission_id) == s.active_mission_id || s.active_mission_id is None
            &&& m.to == crate::steering::steering_query(m.mission_id).recipient
            &&& m.created_at_millis == now && m.acknowledged_at_millis is None
            &&& text_value(member_of(Some(m.payload), "instruction"@)) == Some(
                trimmed(instruction),
            )
        }),
{
    reveal_with_fuel(crate::json::lookup, 2);
}

} // verus!
