//! How the runs of a team end: what is kept of each of them, and what is told to the mission.

use vstd::prelude::*;

use crate::application::{AppView, InvocationView, TeamView, WaitingToolView};
use crate::budget::{escrows_ok, BudgetEscrowStatus};
use crate::cancellation::{has_run, runs_ok};
use crate::error::{ErrorView, Outcome};
use crate::execution::{RequestView, RunOutcomeView};
use crate::json::{json_text, JsonView};
use crate::mission::{
    ClaimedEffectView, CommandView, CompletionView, EffectOutcome, MissionStepView,
};
use crate::ordered::{enumerates, in_order};
use crate::results::{acceptance, EvidenceView, ResultView};
use crate::roles::AgentRole;
use crate::run_laws::{
    law_a_run_ends_with_all_it_had, law_notes_on_a_run_change_one_session,
    law_use_is_charged_to_the_run,
};
use crate::runs::{charge_step, session_stored, set_status_step, working_role};
use crate::state_store::{keyed_by_id, AgentSessionStatus, SavedView};
use crate::team_finish::{
    accept_step, approval_command, cancel_team_steps, cancelled_task_steps, course,
    diagnostic_evidence, diagnostics_evidence, fail_step, first_approval, go_on_step,
    leftover_outcome, next_wave, park_step, required_evidence, save_result_step, with_evidence,
    without_run, yield_step, ApprovalView, CourseView, DiagnosticView, FinishView,
};
use crate::text::{ascii_lowered, byte_len};
use crate::turn_laws::held_at;

verus! {

/// The step that tells that an effect was completed.
pub open spec fn tells_completion(
    step: MissionStepView,
    claimed: ClaimedEffectView,
    now: i64,
) -> bool {
    step matches MissionStepView::Complete { completion } && completion.fence == claimed.fence
        && completion.outcome == EffectOutcome::Completed && completion.error is None
        && completion.recorded_at_millis == now
}

/// The roles that owe evidence of their own, and the kind that each of them owes.
pub open spec fn owes(role: AgentRole, kind: Seq<char>) -> bool {
    ||| role is RequirementsAnalyst && kind == "requirements"@
    ||| role is Explorer && kind == "exploration"@
    ||| role is Architect && kind == "architecture"@
    ||| role is Reviewer && kind == "review"@
    ||| role is SecurityAuditor && kind == "security"@
    ||| role is PerformanceEngineer && kind == "performance"@
    ||| role is Tester && kind == "test"@
    ||| role is ReleaseManager && kind == "release"@
}

/// A result gets the evidence that its role owes behind its own, with what it says and the run that
/// said it, and, if the role judges the work of others, what was seen of the diagnostics behind that.
/// What an agent has asked of tools is gone; nothing else of the result changes.
pub proof fn law_results_show_what_their_role_owes(
    result: ResultView,
    role: AgentRole,
    run: Seq<char>,
    seen: Seq<EvidenceView>,
)
    ensures
        ({
            let shown = with_evidence(result, role, run, seen);
            let judges = role is Reviewer || role is SecurityAuditor || role is PerformanceEngineer
                || role is Tester || role is ReleaseManager;
            let owed = required_evidence(role);
            &&& forall|kind: Seq<char>| #[trigger] owed.contains(kind) <==> owes(role, kind)
            &&& owed.len() <= 1
            &&& shown.evidence == result.evidence + Seq::new(
                owed.len(),
                |i: int|
                    EvidenceView { kind: owed[i], reference: run, summary: result.summary },
            ) + if judges {
                seen
            } else {
                Seq::empty()
            }
            &&& shown.model_tool_yield is None
            &&& shown == (ResultView {
                evidence: shown.evidence,
                model_tool_yield: shown.model_tool_yield,
                ..result
            })
        }),
{
    let owed = required_evidence(role);
    if owed.len() > 0 {
        assert(owed[0] == owed[0]);
        assert(owed.contains(owed[0]));
    }
    let shown = with_evidence(result, role, run, seen);
    let own = Seq::new(
        owed.len(),
        |i: int| EvidenceView { kind: owed[i], reference: run, summary: result.summary },
    );
    assert(shown.evidence =~= result.evidence + own + if crate::roles::gathers_diagnostics(role) {
        seen
    } else {
        Seq::empty()
    });
}

/// What was seen of the diagnostics is evidence, one for each in order, as long as the file of each is
/// named by a hash of at least sixteen bytes; it is referred to by the server, the file and the first
/// sixteen bytes of the hash.
pub proof fn law_diagnostics_are_evidence(all: Seq<DiagnosticView>, n: int)
    requires
        0 <= n <= all.len(),
    ensures
        match diagnostics_evidence(all, n) {
            Outcome::Done(seen) => seen.len() == n && forall|i: int|
                0 <= i < n ==> diagnostic_evidence(#[trigger] all[i]) == Outcome::Done(seen[i]),
            Outcome::Failed(e) => exists|i: int|
                0 <= i < n && diagnostic_evidence(#[trigger] all[i]) == Outcome::<
                    EvidenceView,
                >::Failed(e),
        },
        forall|i: int|
            0 <= i < n ==> match diagnostic_evidence(#[trigger] all[i]) {
                Outcome::Done(e) => {
                    &&& e.kind == "lsp-diagnostic-delta"@
                    &&& exists|k: int|
                        0 <= k <= all[i].file_hash.len() && byte_len(
                            #[trigger] all[i].file_hash.subrange(0, k),
                        ) == 16 && e.reference == "lsp:"@ + all[i].server_id + ":"@ + all[i].path
                            + ":"@ + all[i].file_hash.subrange(0, k)
                },
                Outcome::Failed(e) => {
                    &&& e.code == "lsp-evidence-file-hash-invalid"@
                    &&& e.message == all[i].file_hash
                    &&& forall|k: int|
                        0 <= k <= all[i].file_hash.len() ==> byte_len(
                            #[trigger] all[i].file_hash.subrange(0, k),
                        ) != 16
                },
            },
    decreases n,
{
    if n > 0 {
        law_diagnostics_are_evidence(all, n - 1);
        if let Outcome::Failed(e) = diagnostics_evidence(all, n) {
            if diagnostics_evidence(all, n - 1) is Done {
                assert(diagnostic_evidence(all[n - 1]) == Outcome::<EvidenceView>::Failed(e));
            }
        }
    }
}

/// What becomes of an outcome: a task that was taken away is cancelled whatever came of it; one that
/// asks for tools waits for them; any other result is finished; and without a result it has failed.
pub proof fn law_outcomes_take_one_course(o: RunOutcomeView, cancelled: Set<Seq<char>>)
    ensures
        course(o, cancelled) is Cancelled <==> cancelled.contains(o.task_id),
        course(o, cancelled) matches CourseView::Yielded { tool_yield } ==> o.result is Some
            && o.result->Some_0.model_tool_yield == Some(tool_yield),
        course(o, cancelled) matches CourseView::Finished { result } ==> o.result == Some(result)
            && result.model_tool_yield is None,
        course(o, cancelled) matches CourseView::Failed { error } ==> o.result is None && error
            == o.error,
{
}

/// When a mission is cancelled, every effect that was claimed is completed, once, and then the mission
/// is cancelled; when a task is, its effect is, and then the task.
pub proof fn law_cancelling_completes_what_was_claimed(
    t: TeamView,
    claimed: ClaimedEffectView,
    task: Seq<char>,
    now: i64,
)
    requires
        enumerates(in_order(t.claimed_by_run.dom()), t.claimed_by_run.dom()),
    ensures
        ({
            let steps = cancel_team_steps(t, now);
            let runs = in_order(t.claimed_by_run.dom());
            &&& steps.len() == runs.len() + 1
            &&& forall|i: int|
                0 <= i < runs.len() ==> tells_completion(
                    #[trigger] steps[i],
                    t.claimed_by_run[runs[i]],
                    now,
                )
            &&& forall|run: Seq<char>| #[trigger]
                t.claimed_by_run.contains_key(run) ==> runs.contains(run)
            &&& runs.no_duplicates()
            &&& steps.last() matches MissionStepView::Command { command } && command
                is CancelMission
        }),
        ({
            let steps = cancelled_task_steps(claimed, task, now);
            &&& steps.len() == 2
            &&& tells_completion(steps[0], claimed, now)
            &&& steps[1] matches MissionStepView::Command { command } && command is CancelNode
                && command->CancelNode_node_id == task
        }),
{
    let runs = in_order(t.claimed_by_run.dom());
    assert forall|run: Seq<char>| #[trigger]
        t.claimed_by_run.contains_key(run) implies runs.contains(run) by {
        assert(t.claimed_by_run.dom().contains(run));
    }
    assert forall|i: int, j: int| 0 <= i < runs.len() && 0 <= j < runs.len() && i
        != j implies runs[i] != runs[j] by {
        if i < j {
            crate::text::lemma_text_less_asymmetric(runs[i], runs[j]);
        } else {
            crate::text::lemma_text_less_asymmetric(runs[j], runs[i]);
        }
    }
}

/// A result that is kept is the one of its run, with the time at which it came; no other one changes.
pub proof fn law_results_are_kept_by_run(
    s: AppView,
    run: Seq<char>,
    result: ResultView,
    now: i64,
)
    ensures
        s.agent_state is None ==> save_result_step(s, run, result, now) == s,
        s.agent_state matches Some(st) ==> {
            let after = save_result_step(s, run, result, now);
            &&& after.agent_state->Some_0.results == st.results.insert(
                run,
                SavedView { result, recorded_at_millis: now },
            )
            &&& after.agent_state->Some_0.sessions == st.sessions
            &&& after.agent_state->Some_0.endpoints == st.endpoints
            &&& after == (AppView { agent_state: after.agent_state, ..s })
        },
{
}

/// A run whose result is accepted has shown what its role owes and has paid for all tokens that went
/// in and out and for its calls. Its result is kept and handed on, its session is submitted, and the
/// mission is told that its task is done and its effect completed.
pub proof fn law_accepted_runs_are_paid_and_submitted(
    s: AppView,
    claimed: ClaimedEffectView,
    agent: Seq<char>,
    task: Seq<char>,
    run: Seq<char>,
    result: ResultView,
    seen: Seq<EvidenceView>,
    now: i64,
    i: int,
)
    requires
        s.agent_state matches Some(st) ==> keyed_by_id(st.sessions),
        s.agent_budgets matches Some(rows) ==> escrows_ok(rows) && 0 <= i < rows.len()
            && rows[i].run_id == run,
    ensures
        ({
            let role = working_role(s, agent);
            let shown = with_evidence(result, role, run, seen);
            let (after, done) = accept_step(s, claimed, agent, task, run, result, seen, now);
            let tokens = held_at(
                u64::MAX as int,
                result.metrics.input_tokens + result.metrics.output_tokens,
            );
            let id = "agent-session:"@ + run;
            &&& acceptance(shown, required_evidence(role)) is Failed ==> after == s && done
                is Failed
            &&& done matches Outcome::Done((steps, envelope)) ==> {
                &&& acceptance(shown, required_evidence(role)) is Done
                &&& envelope.agent_id == agent && envelope.task_id == task && envelope.run_id == run
                &&& envelope.result == shown && envelope.decision_claims
                    == Map::<Seq<char>, Seq<char>>::empty()
                &&& steps.len() == 3
                &&& steps[0] matches MissionStepView::Command { command } && command
                    == (CommandView::SubmitNode {
                    node_id: task,
                    run_id: run,
                    output_summary: result.summary,
                })
                &&& tells_completion(steps[1], claimed, now)
                &&& steps[2] is Publish
                &&& s.agent_state is Some ==> {
                    let st = after.agent_state->Some_0;
                    &&& st.results == s.agent_state->Some_0.results.insert(
                        run,
                        SavedView { result: shown, recorded_at_millis: now },
                    )
                    &&& s.agent_state->Some_0.sessions.contains_key(id) ==> st.sessions[id].status
                        == AgentSessionStatus::Submitted && st.sessions[id].updated_at_millis
                        == now
                }
                &&& s.agent_budgets is Some ==> {
                    let e = s.agent_budgets->Some_0[i];
                    let x = after.agent_budgets->Some_0[i];
                    &&& x.consumed_tokens == held_at(u64::MAX as int, e.consumed_tokens + tokens)
                    &&& x.consumed_tool_calls == held_at(
                        u64::MAX as int,
                        e.consumed_tool_calls + result.metrics.tool_calls,
                    )
                }
            }
            &&& done is Failed ==> after.agent_state == s.agent_state
        }),
{
    let role = working_role(s, agent);
    let shown = with_evidence(result, role, run, seen);
    let tokens = crate::scheduling::saturating_sum(
        shown.metrics.input_tokens,
        shown.metrics.output_tokens,
    );
    law_use_is_charged_to_the_run(s, Some(run), tokens, shown.metrics.tool_calls, now, i);
    let s1 = charge_step(s, Some(run), tokens, shown.metrics.tool_calls, now).0;
    let s2 = save_result_step(s1, run, shown, now);
    law_notes_on_a_run_change_one_session(
        s2,
        run,
        AgentSessionStatus::Submitted,
        Seq::empty(),
        None,
        now,
    );
}

/// A run that has failed is given up: its session says so, its escrow ends as failed, and the mission
/// is told the same error of its task and of its effect. Without an error the run itself is named.
pub proof fn law_failed_runs_are_given_up(
    s: AppView,
    claimed: ClaimedEffectView,
    agent: Seq<char>,
    task: Seq<char>,
    run: Seq<char>,
    error: Option<ErrorView>,
    now: i64,
)
    requires
        s.agent_state matches Some(st) ==> keyed_by_id(st.sessions),
        runs_ok(s.run_controls),
        s.agent_budgets matches Some(rows) ==> escrows_ok(rows),
    ensures
        ({
            let (after, done) = fail_step(s, claimed, agent, task, run, error, now);
            let id = "agent-session:"@ + run;
            let told = match error {
                Some(e) => e.code + ": "@ + e.message,
                None => "agent-outcome-empty"@ + ": "@ + run,
            };
            done matches Outcome::Done(steps) ==> {
                &&& steps.len() == 2
                &&& steps[0] == (MissionStepView::Command {
                    command: CommandView::FailNode { node_id: task, run_id: run, error: told },
                })
                &&& steps[1] == (MissionStepView::Complete {
                    completion: CompletionView {
                        fence: claimed.fence,
                        outcome: EffectOutcome::Failed,
                        result: None,
                        error: Some(told),
                        recorded_at_millis: now,
                    },
                })
                &&& !has_run(after.run_controls, run)
                &&& s.agent_state matches Some(st) ==> (st.sessions.contains_key(id)
                    ==> after.agent_state->Some_0.sessions[id].status
                    == AgentSessionStatus::Failed)
                &&& forall|i: int|
                    s.agent_budgets is Some && 0 <= i < s.agent_budgets->Some_0.len() && (
                    #[trigger] s.agent_budgets->Some_0[i]).run_id == run
                        && s.agent_budgets->Some_0[i].status == BudgetEscrowStatus::Active
                        ==> after.agent_budgets->Some_0[i].status == BudgetEscrowStatus::Failed
            }
        }),
{
    let s1 = set_status_step(s, run, AgentSessionStatus::Failed, now).0;
    law_notes_on_a_run_change_one_session(
        s,
        run,
        AgentSessionStatus::Failed,
        Seq::empty(),
        None,
        now,
    );
    if fail_step(s, claimed, agent, task, run, error, now).1 is Done {
        law_a_run_ends_with_all_it_had(s1, agent, run, BudgetEscrowStatus::Failed, now);
    }
}

/// The status of a run's session, if it has one.
pub open spec fn stands_at(s: AppView, run: Seq<char>, status: AgentSessionStatus) -> bool {
    session_stored(s, run) matches Some(x) ==> x.status == status
}

/// A run that asks for tools waits for them, and is looked up as it was asked; one that waits for an
/// approval says so, with the response that it goes on from, and its effect is completed with what it
/// waits for; one that goes on runs again, if it is under control.
pub proof fn law_runs_wait_and_go_on(
    s: AppView,
    request: Option<RequestView>,
    claimed: ClaimedEffectView,
    run: Seq<char>,
    waiting: WaitingToolView,
    request_id: Seq<char>,
    now: i64,
)
    requires
        s.agent_state matches Some(st) ==> keyed_by_id(st.sessions),
    ensures
        ({
            let (after, done) = yield_step(s, request, run, now);
            &&& done is Done <==> request is Some
            &&& done matches Outcome::Done(r) ==> request == Some(r)
            &&& done is Failed ==> after == s && done->Failed_0.message == run
            &&& done is Done ==> stands_at(after, run, AgentSessionStatus::WaitingTool)
            &&& after.agent_budgets == s.agent_budgets && after.run_controls == s.run_controls
        }),
        ({
            let (after, done) = park_step(s, claimed, run, waiting, request_id, now);
            &&& done is Done
            &&& tells_completion(done->Done_0, claimed, now)
            &&& done->Done_0->completion.result == Some(
                JsonView::Object(
                    seq![
                        ("toolInvocationId"@, JsonView::Text(waiting.invocation.id)),
                        ("waitingApproval"@, JsonView::Text(request_id)),
                    ],
                ),
            )
            &&& stands_at(after, run, AgentSessionStatus::WaitingApproval)
            &&& session_stored(after, run) matches Some(x) ==> x.previous_response_id
                == waiting.continuation.previous_response_id
            &&& after.agent_budgets == s.agent_budgets && after.run_controls == s.run_controls
        }),
        ({
            let (after, done) = go_on_step(s, run, now);
            &&& done is Done <==> exists|i: int|
                0 <= i < s.run_controls.len() && (#[trigger] s.run_controls[i]).run_id == run
            &&& stands_at(after, run, AgentSessionStatus::Running)
            &&& after.agent_budgets == s.agent_budgets && after.run_controls == s.run_controls
        }),
{
    let s1 = set_status_step(s, run, AgentSessionStatus::WaitingApproval, now).0;
    law_notes_on_a_run_change_one_session(
        s,
        run,
        AgentSessionStatus::WaitingApproval,
        Seq::empty(),
        None,
        now,
    );
    law_notes_on_a_run_change_one_session(
        s1,
        run,
        AgentSessionStatus::WaitingApproval,
        Seq::empty(),
        waiting.continuation.previous_response_id,
        now,
    );
}

/// The approval that is found is the first one with the name that is asked for.
pub proof fn law_the_first_approval_counts(all: Seq<ApprovalView>, id: Seq<char>)
    ensures
        match first_approval(all, id) {
            None => forall|i: int| 0 <= i < all.len() ==> (#[trigger] all[i]).id != id,
            Some(a) => exists|i: int|
                0 <= i < all.len() && #[trigger] all[i] == a && a.id == id && forall|j: int|
                    0 <= j < i ==> (#[trigger] all[j]).id != id,
        },
    decreases all.len(),
{
    if all.len() > 0 {
        let rest = all.drop_last();
        law_the_first_approval_counts(rest, id);
        match first_approval(rest, id) {
            Some(a) => {
                let i = choose|i: int|
                    0 <= i < rest.len() && #[trigger] rest[i] == a && a.id == id && forall|j: int|
                        0 <= j < i ==> (#[trigger] rest[j]).id != id;
                assert(all[i] == a);
                assert forall|j: int| 0 <= j < i implies (#[trigger] all[j]).id != id by {
                    assert(rest[j].id != id);
                }
            },
            None => {
                assert forall|j: int| 0 <= j < rest.len() implies (#[trigger] all[j]).id
                    != id by {
                    assert(rest[j].id != id);
                }
                if all.last().id == id {
                    assert(all[all.len() - 1] == all.last());
                }
            },
        }
    }
}

/// The user is asked to approve a call exactly if the call names a request and there is one of that
/// name; they are told the tool, the call, what it would do, how risky that is and why they are asked.
pub proof fn law_approvals_are_asked_for(
    tools_ready: bool,
    all: Seq<ApprovalView>,
    invocation: InvocationView,
    task: Seq<char>,
    run: Seq<char>,
)
    ensures
        ({
            let asked = approval_command(tools_ready, all, invocation, task, run);
            &&& asked is Done <==> tools_ready && invocation.approval_request_id is Some && exists|
                i: int,
            |
                0 <= i < all.len() && Some((#[trigger] all[i]).id)
                    == invocation.approval_request_id
            &&& asked matches Outcome::Done(command) ==> exists|i: int|
                0 <= i < all.len() && Some((#[trigger] all[i]).id)
                    == invocation.approval_request_id && command == (CommandView::RequestApproval {
                    node_id: task,
                    run_id: run,
                    approval_id: all[i].id,
                    action: json_text(
                        JsonView::Object(
                            seq![
                                ("permission"@, invocation.permission_action),
                                ("risk"@, JsonView::Text(ascii_lowered(all[i].risk))),
                                ("tool"@, JsonView::Text(invocation.tool_name)),
                                ("toolInvocationId"@, JsonView::Text(invocation.id)),
                            ],
                        ),
                    ),
                    reason: all[i].reason,
                })
        }),
{
    if let Some(id) = invocation.approval_request_id {
        law_the_first_approval_counts(all, id);
    }
}

/// A wave is over when neither an effect nor a request is left; a run that was taken out leaves the
/// others as they were.
pub proof fn law_waves_end_with_nothing_left(t: TeamView, f: FinishView, run: Seq<char>)
    requires
        enumerates(in_order(t.claimed_by_run.dom()), t.claimed_by_run.dom()),
        enumerates(in_order(t.requests_by_run.dom()), t.requests_by_run.dom()),
    ensures
        leftover_outcome(t) is Done <==> t.claimed_by_run.dom() == Set::<Seq<char>>::empty()
            && t.requests_by_run.dom() == Set::<Seq<char>>::empty(),
        without_run(f, run).continuation.claimed_by_run
            == f.continuation.claimed_by_run.remove(run),
        without_run(f, run).continuation.requests_by_run
            == f.continuation.requests_by_run.remove(run),
        without_run(f, run).continuation.mission_id == f.continuation.mission_id,
        without_run(f, run).accepted == f.accepted,
        without_run(f, run).next == f.next,
{
    let claims = in_order(t.claimed_by_run.dom());
    let requests = in_order(t.requests_by_run.dom());
    if claims.len() > 0 {
        assert(claims.contains(claims[0]));
        assert(t.claimed_by_run.dom().contains(claims[0]));
    } else {
        assert forall|k: Seq<char>| !t.claimed_by_run.dom().contains(k) by {
            assert(!claims.contains(k));
        }
        assert(t.claimed_by_run.dom() =~= Set::<Seq<char>>::empty());
    }
    if requests.len() > 0 {
        assert(requests.contains(requests[0]));
        assert(t.requests_by_run.dom().contains(requests[0]));
    } else {
        assert forall|k: Seq<char>| !t.requests_by_run.dom().contains(k) by {
            assert(!requests.contains(k));
        }
        assert(t.requests_by_run.dom() =~= Set::<Seq<char>>::empty());
    }
}

/// There is another wave if somebody goes on; it needs a model, and as many of its agents work side by
/// side as are allowed to and are there.
pub proof fn law_who_goes_on_makes_the_next_wave(s: AppView, f: FinishView, now: i64)
    requires
        f.next.job.requests.len() <= usize::MAX,
    ensures
        ({
            let n = f.next.job.requests.len();
            let most = s.agent_budget_policy.max_parallel_agents;
            match next_wave(s, f, now) {
                Outcome::Failed(e) => n > 0 && (!s.model_ready || most == 0),
                Outcome::Done(None) => n == 0,
                Outcome::Done(Some(team)) => {
                    &&& n > 0 && s.model_ready && most > 0
                    &&& team.job.max_parallel == held_at(most as int, n as int)
                    &&& team.job.started_at_millis == now
                    &&& team.job.requests == f.next.job.requests
                    &&& team.continuation == f.next.continuation
                },
            }
        }),
{
}

} // verus!
