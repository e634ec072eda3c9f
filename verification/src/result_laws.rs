//! What results are held to: what may be run, what is accepted, in which order outcomes are merged,
//! and what is settled between agents that contradict one another.

use vstd::prelude::*;

use crate::application::AppView;
use crate::builtin::builtin_definitions;
use crate::coordination::{
    coordinate_step, coordination_shown, merge_command, tasks_of, ConflictsModel,
};
use crate::error::{ErrorView, Outcome};
use crate::execution::{
    batch_outcome, merged, merged_before, request_outcome, runs_before, start_outcome, ContractView,
    RequestView, RunOutcomeView,
};
use crate::mission::MissionView;
use crate::ordered::in_order;
use crate::paths::{components, is_prefix};
use crate::results::{
    acceptance, acceptance_kinds, all_conflicts, append_step, conflict_meeting, conflict_text,
    conflicts_among, conflicts_between, conflicts_from, conflicts_of_decisions, conflicts_of_file,
    conflicts_of_files, first_missing, has_evidence, ConflictKind, ConflictView, EnvelopeView,
    EvidenceView, MeetingView, ResultView,
};
use crate::roles::AgentRole;
use crate::text::{is_blank_text, text_less, trimmed};

verus! {

/// A request that can be run by itself: there is something to do, a turn to do it in and a context to
/// do it with; and a planner has a budget that is enough for what it is asked.
pub open spec fn can_be_run(request: RequestView) -> bool {
    let c = request.contract;
    &&& !is_blank_text(c.objective)
    &&& c.max_turns > 0
    &&& !is_blank_text(request.context.fingerprint)
    &&& c.role is Planner ==> {
        &&& c.planning_budget is Some
        &&& c.planning_budget->Some_0.max_planning_iterations >= c.max_turns
        &&& c.planning_budget->Some_0.max_plan_depth > 0
        &&& c.planning_budget->Some_0.max_wall_time_millis > 0
        &&& c.planning_budget->Some_0.max_discovery_actions > 0
        &&& c.planning_budget->Some_0.max_planner_tokens >= request.context.token_cost
    }
}

/// A batch is accepted if each of its requests can be run and no run stands in it twice. If not, the
/// first request with which that fails is named.
pub proof fn law_batches_hold_runs_that_can_be_run(requests: Seq<RequestView>, n: int)
    requires
        0 <= n <= requests.len(),
    ensures
        batch_outcome(requests, n) is Done <==> {
            &&& forall|i: int| 0 <= i < n ==> can_be_run(#[trigger] requests[i])
            &&& forall|i: int, j: int|
                0 <= i < j < n ==> (#[trigger] requests[i]).contract.run_id != (
                #[trigger] requests[j]).contract.run_id
        },
        batch_outcome(requests, n) matches Outcome::Failed(e) ==> exists|i: int|
            0 <= i < n && (#[trigger] requests[i]).contract.run_id == e.message && batch_outcome(
                requests,
                i,
            ) is Done && (e.code == "agent-dispatch-duplicate-run"@ <==> runs_before(
                requests,
                i,
                e.message,
            )),
    decreases n,
{
    reveal_strlit("agent-dispatch-duplicate-run");
    reveal_strlit("agent-dispatch-invalid");
    reveal_strlit("planner-budget-missing");
    reveal_strlit("planner-budget-invalid");
    if n > 0 {
        law_batches_hold_runs_that_can_be_run(requests, n - 1);
        let request = requests[n - 1];
        assert("agent-dispatch-duplicate-run"@.len() == 28);
        assert("agent-dispatch-invalid"@.len() == 22);
        assert("planner-budget-missing"@.len() == 22);
        assert("planner-budget-invalid"@.len() == 22);
        assert(request_outcome(request) is Done <==> can_be_run(request));
        if runs_before(requests, n - 1, request.contract.run_id) {
            let i = choose|i: int|
                0 <= i < n - 1 && (#[trigger] requests[i]).contract.run_id
                    == request.contract.run_id;
            assert(requests[i].contract.run_id == requests[n - 1].contract.run_id);
        }
        if batch_outcome(requests, n) is Failed {
            if batch_outcome(requests, n - 1) is Done {
                assert(requests[n - 1].contract.run_id == batch_outcome(
                    requests,
                    n,
                )->Failed_0.message);
            }
        }
    }
}

/// A run starts if nobody has cancelled it and its time is not over; and it is told why it does not.
pub proof fn law_runs_start_in_time(contract: ContractView, cancelled: bool, now: i64)
    ensures
        start_outcome(contract, cancelled, now) is Done <==> !cancelled && now
            < contract.deadline_millis,
        start_outcome(contract, cancelled, now) matches Outcome::Failed(e) ==> e.message
            == contract.run_id && e.code == if cancelled {
            "agent-run-cancelled-before-start"@
        } else {
            "agent-run-deadline-exceeded"@
        },
{
}

/// Outcomes are merged in the order of their tasks, and those of one task in the order of their runs,
/// whatever the order in which they came in.
pub proof fn law_outcomes_are_merged_by_task(outcomes: Seq<RunOutcomeView>, i: int, j: int)
    requires
        0 <= i < j < outcomes.len(),
    ensures
        ({
            let a = merged(outcomes)[i];
            let b = merged(outcomes)[j];
            &&& !text_less(b.task_id, a.task_id)
            &&& a.task_id == b.task_id ==> !text_less(b.run_id, a.run_id)
            &&& outcomes.contains(a)
        }),
        merged(outcomes).len() == outcomes.len(),
        merged(outcomes).to_multiset() == outcomes.to_multiset(),
{
    broadcast use vstd::seq_lib::group_to_multiset_ensures;

    crate::execution::law_merging_orders_the_outcomes(outcomes);
    let all = merged(outcomes);
    assert(!merged_before(all[j], all[i]));
    assert(all.contains(all[i]));
    assert(all.to_multiset().count(all[i]) > 0);
    assert(outcomes.to_multiset().count(all[i]) > 0);
}

/// Evidence of which something is not said.
pub open spec fn is_hollow(e: EvidenceView) -> bool {
    is_blank_text(e.kind) || is_blank_text(e.reference) || is_blank_text(e.summary)
}

pub open spec fn shows(evidence: Seq<EvidenceView>, kind: Seq<char>) -> bool {
    exists|i: int| 0 <= i < evidence.len() && (#[trigger] evidence[i]).kind == kind
}

/// A confidence from nought to one, as its bits tell.
pub open spec fn is_confidence(bits: u32) -> bool {
    bits <= 0x3f80_0000 || bits == 0x8000_0000
}

proof fn lemma_missing(evidence: Seq<EvidenceView>, required: Seq<Seq<char>>)
    ensures
        match first_missing(evidence, required) {
            None => forall|i: int| 0 <= i < required.len() ==> shows(evidence, #[trigger] required[i]),
            Some(kind) => exists|i: int|
                0 <= i < required.len() && #[trigger] required[i] == kind && !shows(evidence, kind)
                    && forall|j: int| 0 <= j < i ==> shows(evidence, #[trigger] required[j]),
        },
    decreases required.len(),
{
    if required.len() > 0 {
        let rest = required.drop_first();
        lemma_missing(evidence, rest);
        assert(has_evidence(evidence, required[0]) == shows(evidence, required[0]));
        if shows(evidence, required[0]) {
            match first_missing(evidence, rest) {
                None => {
                    assert forall|i: int| 0 <= i < required.len() implies shows(
                        evidence,
                        #[trigger] required[i],
                    ) by {
                        if i > 0 {
                            assert(rest[i - 1] == required[i]);
                        }
                    }
                },
                Some(kind) => {
                    let i = choose|i: int|
                        0 <= i < rest.len() && #[trigger] rest[i] == kind && !shows(evidence, kind)
                            && forall|j: int| 0 <= j < i ==> shows(evidence, #[trigger] rest[j]);
                    assert(required[i + 1] == kind);
                    assert forall|j: int| 0 <= j < i + 1 implies shows(
                        evidence,
                        #[trigger] required[j],
                    ) by {
                        if j > 0 {
                            assert(rest[j - 1] == required[j]);
                        }
                    }
                },
            }
        }
    }
}

/// A result is accepted if it is completed and says something, if its confidence is one, if it shows
/// every kind of evidence that is asked for and no evidence is hollow, and if, where evidence is asked
/// for, somebody has worked for it. If not, the first of these that fails is told, and of evidence the
/// first kind that is missing.
pub proof fn law_results_are_accepted_for_their_evidence(
    result: ResultView,
    required: Seq<Seq<char>>,
)
    ensures
        ({
            let whole = result.status == "completed"@ && !is_blank_text(result.summary);
            let shown = forall|i: int|
                0 <= i < required.len() ==> shows(result.evidence, #[trigger] required[i]);
            let solid = forall|i: int|
                0 <= i < result.evidence.len() ==> !is_hollow(#[trigger] result.evidence[i]);
            &&& acceptance(result, required) is Done <==> whole && is_confidence(result.confidence)
                && shown && solid && (required.len() > 0 ==> result.metrics.turns > 0)
            &&& acceptance(result, required) matches Outcome::Failed(e) ==> e.code == if !whole {
                "agent-result-incomplete"@
            } else if !is_confidence(result.confidence) {
                "agent-result-confidence"@
            } else if !shown {
                "agent-evidence-required"@
            } else if !solid {
                "agent-evidence-invalid"@
            } else {
                "agent-evidence-metrics-missing"@
            }
            &&& acceptance(result, required) matches Outcome::Failed(e) ==> whole && is_confidence(
                result.confidence,
            ) && !shown ==> exists|i: int|
                0 <= i < required.len() && #[trigger] required[i] == e.message && !shows(
                    result.evidence,
                    e.message,
                ) && forall|j: int|
                    0 <= j < i ==> shows(result.evidence, #[trigger] required[j])
        }),
{
    lemma_missing(result.evidence, required);
    if crate::results::has_void(result.evidence) {
        let i = choose|i: int|
            0 <= i < result.evidence.len() && crate::results::is_void(
                #[trigger] result.evidence[i],
            );
        assert(is_hollow(result.evidence[i]));
    } else {
        assert forall|i: int| 0 <= i < result.evidence.len() implies !is_hollow(
            #[trigger] result.evidence[i],
        ) by {
            assert(!crate::results::is_void(result.evidence[i]));
        }
    }
}

/// Tests ask for evidence of a test and reviews for evidence of a review, and nothing else does.
pub proof fn law_tests_and_reviews_ask_for_evidence(
    requires_test: bool,
    requires_review: bool,
    kind: Seq<char>,
)
    ensures
        acceptance_kinds(requires_test, requires_review).contains(kind) <==> (requires_test && kind
            == "test"@) || (requires_review && kind == "review"@),
{
    let kinds = acceptance_kinds(requires_test, requires_review);
    if requires_test {
        assert(kinds[0] == "test"@);
    }
    if requires_review {
        assert(kinds[kinds.len() - 1] == "review"@);
    }
}

/// Two files, as they are compared, are the same or one lies below the other.
pub open spec fn files_clash(a: Seq<char>, b: Seq<char>) -> bool {
    is_prefix(components(a), components(b)) || is_prefix(components(b), components(a))
}

/// A conflict between two results: both changed the same file, or they decided the same thing in
/// different ways. It names both agents, the one of the earlier result first.
pub open spec fn is_conflict(
    l: EnvelopeView,
    r: EnvelopeView,
    fold_case: bool,
    c: ConflictView,
) -> bool {
    &&& c.left_agent == l.agent_id
    &&& c.right_agent == r.agent_id
    &&& match c.kind {
        ConflictKind::FileOverlap => {
            &&& c.subject == "changed_files"@
            &&& files_clash(c.left_value, c.right_value)
            &&& exists|a: int, b: int|
                0 <= a < l.result.changed_files.len() && 0 <= b < r.result.changed_files.len()
                    && c.left_value == crate::lease_laws::compared(
                    #[trigger] l.result.changed_files[a],
                    fold_case,
                ) && c.right_value == crate::lease_laws::compared(
                    #[trigger] r.result.changed_files[b],
                    fold_case,
                )
        },
        ConflictKind::DecisionMismatch => {
            &&& l.decision_claims.contains_key(c.subject)
            &&& r.decision_claims.contains_key(c.subject)
            &&& c.left_value == l.decision_claims[c.subject]
            &&& c.right_value == r.decision_claims[c.subject]
            &&& trimmed(c.left_value) != trimmed(c.right_value)
        },
    }
}

proof fn lemma_file(l: EnvelopeView, r: EnvelopeView, i: int, n: int, fold_case: bool, k: int)
    requires
        0 <= i < l.result.changed_files.len(),
        n <= r.result.changed_files.len(),
        0 <= k < conflicts_of_file(l, r, i, n, fold_case).len(),
    ensures
        is_conflict(l, r, fold_case, conflicts_of_file(l, r, i, n, fold_case)[k]),
    decreases n,
{
    let before = conflicts_of_file(l, r, i, n - 1, fold_case);
    if k < before.len() {
        lemma_file(l, r, i, n - 1, fold_case, k);
    } else {
        let a = l.result.changed_files[i];
        let b = r.result.changed_files[n - 1];
        assert(is_conflict(l, r, fold_case, conflicts_of_file(l, r, i, n, fold_case)[k]));
    }
}

proof fn lemma_files(l: EnvelopeView, r: EnvelopeView, n: int, fold_case: bool, k: int)
    requires
        n <= l.result.changed_files.len(),
        0 <= k < conflicts_of_files(l, r, n, fold_case).len(),
    ensures
        is_conflict(l, r, fold_case, conflicts_of_files(l, r, n, fold_case)[k]),
    decreases n,
{
    let before = conflicts_of_files(l, r, n - 1, fold_case);
    if k < before.len() {
        lemma_files(l, r, n - 1, fold_case, k);
    } else {
        lemma_file(
            l,
            r,
            n - 1,
            r.result.changed_files.len() as int,
            fold_case,
            k - before.len(),
        );
    }
}

proof fn lemma_decisions(l: EnvelopeView, r: EnvelopeView, n: int, fold_case: bool, k: int)
    requires
        n <= in_order(l.decision_claims.dom()).len(),
        crate::ordered::enumerates(in_order(l.decision_claims.dom()), l.decision_claims.dom()),
        0 <= k < conflicts_of_decisions(l, r, n).len(),
    ensures
        is_conflict(l, r, fold_case, conflicts_of_decisions(l, r, n)[k]),
    decreases n,
{
    let before = conflicts_of_decisions(l, r, n - 1);
    if k < before.len() {
        lemma_decisions(l, r, n - 1, fold_case, k);
    } else {
        let keys = in_order(l.decision_claims.dom());
        assert(keys.contains(keys[n - 1]));
    }
}

proof fn lemma_from(all: Seq<EnvelopeView>, i: int, n: int, fold_case: bool, k: int)
    requires
        0 <= i < all.len(),
        n <= all.len(),
        claims_are_listed(all),
        0 <= k < conflicts_from(all, i, n, fold_case).len(),
    ensures
        exists|j: int|
            i < j < n && is_conflict(
                all[i],
                #[trigger] all[j],
                fold_case,
                conflicts_from(all, i, n, fold_case)[k],
            ),
    decreases n - i,
{
    let before = conflicts_from(all, i, n - 1, fold_case);
    if k < before.len() {
        lemma_from(all, i, n - 1, fold_case, k);
        let j = choose|j: int|
            i < j < n - 1 && is_conflict(all[i], #[trigger] all[j], fold_case, before[k]);
        assert(conflicts_from(all, i, n, fold_case)[k] == before[k]);
        assert(is_conflict(all[i], all[j], fold_case, conflicts_from(all, i, n, fold_case)[k]));
    } else {
        let l = all[i];
        let r = all[n - 1];
        let files = conflicts_of_files(l, r, l.result.changed_files.len() as int, fold_case);
        let m = k - before.len();
        assert(conflicts_from(all, i, n, fold_case)[k] == conflicts_between(l, r, fold_case)[m]);
        if m < files.len() {
            lemma_files(l, r, l.result.changed_files.len() as int, fold_case, m);
        } else {
            assert(claims_are_listed(all));
            lemma_decisions(
                l,
                r,
                in_order(l.decision_claims.dom()).len() as int,
                fold_case,
                m - files.len(),
            );
        }
        assert(is_conflict(
            all[i],
            all[n - 1],
            fold_case,
            conflicts_from(all, i, n, fold_case)[k],
        ));
    }
}

/// The decisions of each result can be listed in order.
pub open spec fn claims_are_listed(all: Seq<EnvelopeView>) -> bool {
    forall|i: int|
        0 <= i < all.len() ==> crate::ordered::enumerates(
            in_order((#[trigger] all[i]).decision_claims.dom()),
            all[i].decision_claims.dom(),
        )
}

proof fn lemma_among(all: Seq<EnvelopeView>, m: int, fold_case: bool, k: int)
    requires
        m <= all.len(),
        claims_are_listed(all),
        0 <= k < conflicts_among(all, m, fold_case).len(),
    ensures
        exists|i: int, j: int|
            0 <= i < j < all.len() && is_conflict(
                #[trigger] all[i],
                #[trigger] all[j],
                fold_case,
                conflicts_among(all, m, fold_case)[k],
            ),
    decreases m,
{
    let before = conflicts_among(all, m - 1, fold_case);
    let c = conflicts_among(all, m, fold_case)[k];
    if k < before.len() {
        lemma_among(all, m - 1, fold_case, k);
        assert(before[k] == c);
    } else {
        let n = all.len() as int;
        lemma_from(all, m - 1, n, fold_case, k - before.len());
        assert(conflicts_from(all, m - 1, n, fold_case)[k - before.len()] == c);
        let j = choose|j: int|
            m - 1 < j < n && is_conflict(all[m - 1], #[trigger] all[j], fold_case, c);
        assert(is_conflict(all[m - 1], all[j], fold_case, c));
    }
}

/// Whatever is reported as a conflict is one between two of the results.
pub proof fn law_reported_conflicts_are_real(all: Seq<EnvelopeView>, fold_case: bool, k: int)
    requires
        claims_are_listed(all),
        0 <= k < all_conflicts(all, fold_case).len(),
    ensures
        exists|i: int, j: int|
            0 <= i < j < all.len() && is_conflict(
                #[trigger] all[i],
                #[trigger] all[j],
                fold_case,
                all_conflicts(all, fold_case)[k],
            ),
{
    lemma_among(all, all.len() as int, fold_case, k);
}

/// Two results that changed the same file, or one below the other, are reported with the two files;
/// two that decided the same thing in different ways are reported with what each of them decided.
pub proof fn law_contradictions_are_reported(
    all: Seq<EnvelopeView>,
    fold_case: bool,
    i: int,
    j: int,
    a: int,
    b: int,
    key: Seq<char>,
)
    requires
        claims_are_listed(all),
        0 <= i < j < all.len(),
    ensures
        0 <= a < all[i].result.changed_files.len() && 0 <= b < all[j].result.changed_files.len()
            && files_clash(
            crate::lease_laws::compared(all[i].result.changed_files[a], fold_case),
            crate::lease_laws::compared(all[j].result.changed_files[b], fold_case),
        ) ==> all_conflicts(all, fold_case).contains(
            ConflictView {
                kind: ConflictKind::FileOverlap,
                left_agent: all[i].agent_id,
                right_agent: all[j].agent_id,
                subject: "changed_files"@,
                left_value: crate::lease_laws::compared(
                    all[i].result.changed_files[a],
                    fold_case,
                ),
                right_value: crate::lease_laws::compared(
                    all[j].result.changed_files[b],
                    fold_case,
                ),
            },
        ),
        all[i].decision_claims.contains_key(key) && all[j].decision_claims.contains_key(key)
            && trimmed(all[i].decision_claims[key]) != trimmed(all[j].decision_claims[key])
            ==> all_conflicts(all, fold_case).contains(
            ConflictView {
                kind: ConflictKind::DecisionMismatch,
                left_agent: all[i].agent_id,
                right_agent: all[j].agent_id,
                subject: key,
                left_value: all[i].decision_claims[key],
                right_value: all[j].decision_claims[key],
            },
        ),
{
    if 0 <= a < all[i].result.changed_files.len() && 0 <= b < all[j].result.changed_files.len()
        && files_clash(
        crate::lease_laws::compared(all[i].result.changed_files[a], fold_case),
        crate::lease_laws::compared(all[j].result.changed_files[b], fold_case),
    ) {
        crate::results::law_overlapping_files_are_reported(all, i, j, a, b, fold_case);
    }
    if all[i].decision_claims.contains_key(key) && all[j].decision_claims.contains_key(key)
        && trimmed(all[i].decision_claims[key]) != trimmed(all[j].decision_claims[key]) {
        let keys = in_order(all[i].decision_claims.dom());
        assert(all[i].decision_claims.dom().contains(key));
        assert(keys.contains(key));
        let k = keys.index_of(key);
        crate::results::law_disagreements_are_reported(all, i, j, k, fold_case);
    }
}

/// The meeting about conflicts belongs to the mission, names every conflict once and in order, and
/// everybody whose result was looked at takes part in it, and the coordinator. Nothing was said or
/// decided in it yet.
pub proof fn law_everybody_concerned_is_called(
    mission: Seq<char>,
    all: Seq<EnvelopeView>,
    id: Seq<char>,
    now: i64,
    fold_case: bool,
    agent: Seq<char>,
)
    ensures
        ({
            let m = conflict_meeting(mission, all, id, now, fold_case);
            let found = all_conflicts(all, fold_case);
            &&& m.id == id && m.mission_id == mission
            &&& m.created_at_millis == now && m.closed_at_millis is None
            &&& m.transcript.len() == 0 && m.decisions.len() == 0
            &&& m.participants.contains(agent) <==> agent == "agent:coordinator"@ || exists|i: int|
                0 <= i < all.len() && (#[trigger] all[i]).agent_id == agent
            &&& m.conflicts.len() == found.len()
            &&& forall|k: int|
                0 <= k < found.len() ==> #[trigger] m.conflicts[k] == conflict_text(found[k])
        }),
        builtin_definitions()[1].id == "agent:coordinator"@,
        builtin_definitions()[1].roles.contains(AgentRole::Coordinator),
{
    let agents = Seq::new(all.len(), |i: int| all[i].agent_id);
    if agents.contains(agent) {
        let i = agents.index_of(agent);
        assert(all[i].agent_id == agent);
    }
    if exists|i: int| 0 <= i < all.len() && (#[trigger] all[i]).agent_id == agent {
        let i = choose|i: int| 0 <= i < all.len() && (#[trigger] all[i]).agent_id == agent;
        assert(agents[i] == agent);
    }
}

/// Only those who take part in a meeting speak in it, and only until it is closed. What they say stands
/// at the end of what was said, under their name.
pub proof fn law_participants_speak_until_the_end(
    m: MeetingView,
    speaker: Seq<char>,
    message: Seq<char>,
)
    ensures
        ({
            let (after, result) = append_step(m, speaker, message);
            &&& result is Done <==> m.closed_at_millis is None && m.participants.contains(speaker)
            &&& result is Failed ==> after == m
            &&& result is Done ==> after == (MeetingView {
                transcript: m.transcript + seq![speaker + ": "@ + trimmed(message)],
                ..m
            })
            &&& result matches Outcome::Failed(e) ==> if m.closed_at_millis is Some {
                e == (ErrorView { code: "meeting-closed"@, message: m.id })
            } else {
                e == (ErrorView { code: "meeting-speaker-not-participant"@, message: speaker })
            }
        }),
{
    assert(m.transcript.push(speaker + ": "@ + trimmed(message)) =~= m.transcript + seq![
        speaker + ": "@ + trimmed(message),
    ]);
}

/// Coordination counts the conflicts and keeps the meeting about them; what is to be merged are the
/// tasks of all results that were looked at. It needs a bus only if there is something to keep.
pub proof fn law_coordination_keeps_the_meeting(
    s: AppView,
    mission_id: Seq<char>,
    results: Seq<EnvelopeView>,
    meeting_id: Seq<char>,
    now: i64,
    fold_case: bool,
)
    ensures
        ({
            let (after, done) = coordinate_step(s, mission_id, results, meeting_id, now, fold_case);
            let n = all_conflicts(results, fold_case).len();
            &&& done is Failed <==> n > 0 && s.agent_messages is None
            &&& done matches Outcome::Done(c) ==> {
                &&& c.count == n
                &&& c.merge_dependencies == in_order(tasks_of(results))
                &&& c.meeting is Some <==> n > 0
                &&& c.meeting matches Some(m) ==> m == conflict_meeting(
                    mission_id,
                    results,
                    meeting_id,
                    now,
                    fold_case,
                ) && after.agent_messages->Some_0.meetings
                    == s.agent_messages->Some_0.meetings.insert(meeting_id, m)
                    && after.agent_messages->Some_0.rows == s.agent_messages->Some_0.rows
                &&& after == (AppView { agent_messages: after.agent_messages, ..s })
                &&& n == 0 ==> after == s
            }
        }),
        forall|task: Seq<char>| #[trigger]
            tasks_of(results).contains(task) <==> exists|i: int|
                0 <= i < results.len() && (#[trigger] results[i]).task_id == task,
{
    let tasks = Seq::new(results.len(), |i: int| results[i].task_id);
    assert forall|task: Seq<char>| #[trigger]
        tasks_of(results).contains(task) <==> exists|i: int|
            0 <= i < results.len() && (#[trigger] results[i]).task_id == task by {
        if tasks.contains(task) {
            let i = tasks.index_of(task);
            assert(results[i].task_id == task);
        }
        if exists|i: int| 0 <= i < results.len() && (#[trigger] results[i]).task_id == task {
            let i = choose|i: int| 0 <= i < results.len() && (#[trigger] results[i]).task_id == task;
            assert(tasks[i] == task);
        }
    }
}

/// Conflicts of the active mission are settled by one more task, of the agent that merges, that waits
/// for all tasks concerned; only tasks of the plan can be waited for. What is shown tells whether
/// there was something to settle.
pub proof fn law_conflicts_are_settled_by_a_merge(
    s: AppView,
    mission: MissionView,
    mission_id: Seq<char>,
    depends_on: Seq<Seq<char>>,
    meeting_id: Seq<char>,
    task_id: Seq<char>,
    c: ConflictsModel,
    memory_id: Option<Seq<char>>,
    merge_task_id: Option<Seq<char>>,
)
    ensures
        ({
            let planned = forall|i: int|
                0 <= i < depends_on.len() ==> mission.nodes.contains_key(#[trigger] depends_on[i]);
            match merge_command(s, mission, mission_id, depends_on, meeting_id, task_id) {
                None => s.active_mission_id != Some(mission_id) || !planned,
                Some(command) => {
                    &&& s.active_mission_id == Some(mission_id) && planned
                    &&& command is AppendPlanNodes
                    &&& command->AppendPlanNodes_nodes.len() == 1
                    &&& command->AppendPlanNodes_nodes[0].id == task_id
                    &&& command->AppendPlanNodes_nodes[0].depends_on == depends_on
                    &&& command->AppendPlanNodes_nodes[0].kind is Merge
                    &&& command->AppendPlanNodes_nodes[0].agent_definition_id
                        == builtin_definitions()[14].id
                    &&& command->AppendPlanNodes_nodes[0].requires_approval is None
                },
            }
        }),
        builtin_definitions()[14].roles.contains(AgentRole::MergeAgent),
        ({
            let shown = coordination_shown(c, memory_id, merge_task_id);
            &&& shown.merge_required <==> c.meeting is Some
            &&& c.meeting is Some ==> shown.conflict_count == c.count && shown.meeting_id == Some(
                c.meeting->Some_0.id,
            ) && shown.memory_id == memory_id && shown.merge_task_id == merge_task_id
            &&& c.meeting is None ==> shown.conflict_count == 0 && shown.meeting_id is None
                && shown.memory_id is None && shown.merge_task_id is None
        }),
{
}

} // verus!
