//! How a wave of a team ends: what becomes of each outcome, of the effect that was claimed for it,
//! and of the agents that go on.

use vstd::prelude::*;
use vstd::string::*;

use crate::application::{
    AgentTeamContinuation, AppView, HarnessApplication, InvocationView,
    PendingParallelToolContinuation, PendingParallelView, PreparedAgentTeam, PreparedView,
    TeamView, ToolInvocation, WaitingParallelTool, WaitingToolView,
};
use crate::cancellation::has_run;
use crate::error::{
    agent_error, error_text, failure, list_outcome, outcome, unit_outcome, AgentError,
    ApplicationError, ErrorView, Outcome,
};
use crate::exchange::{AgentModelToolYield, YieldView};
use crate::execution::{
    AgentExecutionOutcome, AgentExecutionRequest, RequestView, RunOutcomeView,
};
use crate::json::{json_text, object, text_json, Json, JsonView};
use crate::mission::{
    ClaimedEffect, ClaimedEffectView, CommandView, CompletionView, EffectCompletion,
    EffectOutcome, EventPriority, FenceView, MissionCommand, MissionStep, MissionStepView,
};
use crate::model::{duplicate_all, group_views, option_view, views, Duplicate};
use crate::ordered::{in_order, TextMap, TextSet};
use crate::results::{
    acceptance, validate_required_evidence, AgentResult, AgentResultEnvelope, EnvelopeView,
    Evidence, EvidenceView, ResultView,
};
use crate::roles::{
    evidence_kind_text, gathers_diagnostics, role_evidence_kind, role_gathers_diagnostics,
    AgentRole,
};
use crate::budget::BudgetEscrowStatus;
use crate::runs::{
    charge_step, finish_run_step, set_response_step, set_status_step, working_role,
};
use crate::scheduling::saturating_sum;
use crate::state_store::{AgentSessionStatus, SavedView, StateView};
use crate::text::{
    ascii_lowered, byte_prefix, decimal, decimal_of, first_bytes, same, to_ascii_lower,
};
use crate::waves::{agent_status, agent_status_event, empty_team, enlisted, mustered};

verus! {

pub open spec fn completed(
    claimed: ClaimedEffectView,
    result: Option<JsonView>,
    now: i64,
) -> MissionStepView {
    MissionStepView::Complete {
        completion: CompletionView {
            fence: claimed.fence,
            outcome: EffectOutcome::Completed,
            result,
            error: None,
            recorded_at_millis: now,
        },
    }
}

pub open spec fn failed_with(
    claimed: ClaimedEffectView,
    error: Seq<char>,
    now: i64,
) -> MissionStepView {
    MissionStepView::Complete {
        completion: CompletionView {
            fence: claimed.fence,
            outcome: EffectOutcome::Failed,
            result: None,
            error: Some(error),
            recorded_at_millis: now,
        },
    }
}

/// Completes an effect.
pub fn complete_step(claimed: &ClaimedEffect, result: Option<Json>, now: i64) -> (r: MissionStep)
    ensures
        r@ == completed(claimed@, option_view(result), now),
{
    MissionStep::Complete {
        completion: EffectCompletion {
            fence: claimed.fence.duplicate(),
            outcome: EffectOutcome::Completed,
            result,
            error: None,
            recorded_at_millis: now,
        },
    }
}

/// Completes an effect that has failed.
pub fn failed_step(claimed: &ClaimedEffect, error: &str, now: i64) -> (r: MissionStep)
    ensures
        r@ == failed_with(claimed@, error@, now),
{
    MissionStep::Complete {
        completion: EffectCompletion {
            fence: claimed.fence.duplicate(),
            outcome: EffectOutcome::Failed,
            result: None,
            error: Some(error.to_string()),
            recorded_at_millis: now,
        },
    }
}

pub open spec fn cancelled_json() -> JsonView {
    JsonView::Object(seq![("cancelled"@, JsonView::Bool(true))])
}

fn cancelled_result() -> (r: Json)
    ensures
        r@ == cancelled_json(),
{
    let members: Vec<(String, Json)> = vec![("cancelled".to_string(), Json::Bool(true))];
    let r = object(members);
    assert(r@->Object_0 =~= cancelled_json()->Object_0);
    r
}

pub open spec fn all_cancelled(claims: Map<Seq<char>, ClaimedEffectView>, now: i64, n: int) -> Seq<
    MissionStepView,
> {
    Seq::new(
        n as nat,
        |i: int| completed(claims[in_order(claims.dom())[i]], Some(cancelled_json()), now),
    )
}

/// What is done when the user cancels the mission of a team: every effect that was claimed is
/// completed, and the mission is cancelled.
pub open spec fn cancel_team_steps(t: TeamView, now: i64) -> Seq<MissionStepView> {
    all_cancelled(t.claimed_by_run, now, in_order(t.claimed_by_run.dom()).len() as int).push(
        MissionStepView::Command {
            command: CommandView::CancelMission { reason: "user-cancelled-background-team"@ },
        },
    )
}

pub fn cancel_team(continuation: &AgentTeamContinuation, now: i64) -> (r: Vec<MissionStep>)
    ensures
        views(r@) == cancel_team_steps(continuation@, now),
{
    broadcast use group_views;

    let ghost claims = continuation@.claimed_by_run;
    let total: usize = continuation.claimed_by_run.len();
    let mut r: Vec<MissionStep> = Vec::new();
    let mut i: usize = 0;
    while i < total
        invariant
            i <= total,
            total == in_order(claims.dom()).len(),
            claims == continuation.claimed_by_run@,
            views(r@) == all_cancelled(claims, now, i as int),
        decreases total - i,
    {
        broadcast use group_views;

        let claimed = continuation.claimed_by_run.value_at(i);
        r.push(complete_step(claimed, Some(cancelled_result()), now));
        assert(views(r@) =~= all_cancelled(claims, now, i as int + 1));
        i = i + 1;
    }
    r.push(
        MissionStep::Command {
            command: MissionCommand::CancelMission {
                reason: "user-cancelled-background-team".to_string(),
            },
        },
    );
    r
}

/// What is done with a run whose task the user has taken out of the queue.
pub open spec fn cancelled_task_steps(
    claimed: ClaimedEffectView,
    task: Seq<char>,
    now: i64,
) -> Seq<MissionStepView> {
    seq![
        completed(claimed, Some(cancelled_json()), now),
        MissionStepView::Command {
            command: CommandView::CancelNode { node_id: task, reason: "user-queue-cancel"@ },
        },
    ]
}

pub fn cancel_task(claimed: &ClaimedEffect, task_id: &str, now: i64) -> (r: Vec<MissionStep>)
    ensures
        views(r@) == cancelled_task_steps(claimed@, task_id@, now),
{
    let r: Vec<MissionStep> = vec![
        complete_step(claimed, Some(cancelled_result()), now),
        MissionStep::Command {
            command: MissionCommand::CancelNode {
                node_id: task_id.to_string(),
                reason: "user-queue-cancel".to_string(),
            },
        },
    ];
    assert(views(r@) =~= cancelled_task_steps(claimed@, task_id@, now));
    r
}

/// The state of a wave that is being finished: whose outcomes are still to come, the results that
/// were accepted, and the agents that go on.
pub struct TeamFinish {
    pub continuation: AgentTeamContinuation,
    pub accepted: Vec<AgentResultEnvelope>,
    pub next: PreparedAgentTeam,
}

pub struct FinishView {
    pub continuation: TeamView,
    pub accepted: Seq<EnvelopeView>,
    pub next: PreparedView,
}

impl View for TeamFinish {
    type V = FinishView;

    open spec fn view(&self) -> FinishView {
        FinishView {
            continuation: self.continuation@,
            accepted: views(self.accepted@),
            next: self.next@,
        }
    }
}

/// What an outcome finds: the effect that was claimed for its run, and what the agent was asked.
pub struct Taken {
    pub claimed: ClaimedEffect,
    pub request: Option<AgentExecutionRequest>,
}

pub open spec fn without_run(f: FinishView, run: Seq<char>) -> FinishView {
    FinishView {
        continuation: TeamView {
            claimed_by_run: f.continuation.claimed_by_run.remove(run),
            requests_by_run: f.continuation.requests_by_run.remove(run),
            ..f.continuation
        },
        ..f
    }
}

impl TeamFinish {
    pub fn new(continuation: AgentTeamContinuation) -> (r: Self)
        ensures
            r@ == (FinishView {
                continuation: continuation@,
                accepted: Seq::empty(),
                next: empty_team(continuation@.mission_id, continuation@.prompt),
            }),
    {
        broadcast use group_views;

        let next = PreparedAgentTeam::new(
            continuation.mission_id.clone(),
            continuation.prompt.clone(),
        );
        TeamFinish { continuation, accepted: Vec::new(), next }
    }

    /// Takes what was claimed and asked for the run of an outcome. Each run is taken once.
    pub fn take(&mut self, run_id: &str) -> (r: Result<Taken, ApplicationError>)
        ensures
            match r {
                Ok(taken) => {
                    &&& old(self)@.continuation.claimed_by_run.contains_key(run_id@)
                    &&& taken.claimed@ == old(self)@.continuation.claimed_by_run[run_id@]
                    &&& option_view(taken.request)
                        == if old(self)@.continuation.requests_by_run.contains_key(run_id@) {
                        Some(old(self)@.continuation.requests_by_run[run_id@])
                    } else {
                        None
                    }
                    &&& final(self)@ == without_run(old(self)@, run_id@)
                },
                Err(e) => {
                    &&& !old(self)@.continuation.claimed_by_run.contains_key(run_id@)
                    &&& e@ == (ErrorView { code: "agent-claimed-effect-missing"@, message: run_id@ })
                    &&& final(self)@ == old(self)@
                },
            },
    {
        let ghost before = self@;
        let claimed = match self.continuation.claimed_by_run.remove(run_id) {
            Some(claimed) => claimed,
            None => {
                assert(self@.continuation.claimed_by_run =~= before.continuation.claimed_by_run);
                return Err(ApplicationError::new("agent-claimed-effect-missing", run_id));
            },
        };
        let request = self.continuation.requests_by_run.remove(run_id);
        Ok(Taken { claimed, request })
    }

    /// Lets an agent go on in the next wave, under the effect that was claimed for it.
    pub fn carry_on(&mut self, request: AgentExecutionRequest, claimed: ClaimedEffect)
        ensures
            final(self)@ == (FinishView {
                next: enlisted(old(self)@.next, request@, claimed@),
                ..old(self)@
            }),
    {
        self.next.enlist(request, claimed);
    }

    /// Keeps a result that was accepted.
    pub fn keep(&mut self, envelope: AgentResultEnvelope)
        ensures
            final(self)@ == (FinishView {
                accepted: old(self)@.accepted.push(envelope@),
                ..old(self)@
            }),
    {
        broadcast use group_views;

        self.accepted.push(envelope);
    }

    /// Whether there is more than one result, so that they have to be coordinated.
    pub fn needs_coordination(&self) -> (r: bool)
        ensures
            r == (self@.accepted.len() > 1),
    {
        self.accepted.len() > 1
    }

    /// Checks that every claim and every request was taken.
    pub fn check_all_taken(&self) -> (r: Result<(), ApplicationError>)
        ensures
            unit_outcome(r) == leftover_outcome(self@.continuation),
    {
        let claims: usize = self.continuation.claimed_by_run.len();
        let requests: usize = self.continuation.requests_by_run.len();
        if claims != 0 || requests != 0 {
            let mut message: String = "claims=".to_string();
            message.append(decimal_of(claims as u64).as_str());
            message.append(", requests=");
            message.append(decimal_of(requests as u64).as_str());
            return Err(ApplicationError::new("agent-outcome-count-mismatch", message.as_str()));
        }
        Ok(())
    }
}

pub open spec fn leftover_outcome(t: TeamView) -> Outcome<()> {
    let claims = in_order(t.claimed_by_run.dom()).len();
    let requests = in_order(t.requests_by_run.dom()).len();
    if claims != 0 || requests != 0 {
        failure(
            "agent-outcome-count-mismatch"@,
            "claims="@ + decimal(claims) + ", requests="@ + decimal(requests),
        )
    } else {
        Outcome::Done(())
    }
}

/// What an outcome of a run means for it.
pub enum OutcomeCourse {
    /// The user has taken its task out of the queue.
    Cancelled,
    /// The agent asks for tools.
    Yielded { tool_yield: AgentModelToolYield },
    /// The agent is done.
    Finished { result: AgentResult },
    /// The run has failed.
    Failed { error: Option<AgentError> },
}

pub enum CourseView {
    Cancelled,
    Yielded { tool_yield: YieldView },
    Finished { result: ResultView },
    Failed { error: Option<ErrorView> },
}

impl View for OutcomeCourse {
    type V = CourseView;

    open spec fn view(&self) -> CourseView {
        match *self {
            OutcomeCourse::Cancelled => CourseView::Cancelled,
            OutcomeCourse::Yielded { tool_yield } => CourseView::Yielded {
                tool_yield: tool_yield@,
            },
            OutcomeCourse::Finished { result } => CourseView::Finished { result: result@ },
            OutcomeCourse::Failed { error } => CourseView::Failed { error: option_view(error) },
        }
    }
}

pub open spec fn course(o: RunOutcomeView, cancelled: Set<Seq<char>>) -> CourseView {
    if cancelled.contains(o.task_id) {
        CourseView::Cancelled
    } else {
        match o.result {
            Some(result) => match result.model_tool_yield {
                Some(tool_yield) => CourseView::Yielded { tool_yield },
                None => CourseView::Finished { result },
            },
            None => CourseView::Failed { error: o.error },
        }
    }
}

/// Decides what an outcome means for its run.
pub fn course_of(outcome: AgentExecutionOutcome, cancelled_tasks: &TextSet) -> (r: OutcomeCourse)
    ensures
        r@ == course(outcome@, cancelled_tasks@),
{
    if cancelled_tasks.contains(outcome.task_id.as_str()) {
        return OutcomeCourse::Cancelled;
    }
    match outcome.result {
        Some(result) => {
            let mut result = result;
            let mut tool_yield: Option<AgentModelToolYield> = None;
            std::mem::swap(&mut tool_yield, &mut result.model_tool_yield);
            match tool_yield {
                Some(tool_yield) => OutcomeCourse::Yielded { tool_yield },
                None => OutcomeCourse::Finished { result },
            }
        },
        None => OutcomeCourse::Failed { error: outcome.error },
    }
}

/// An agent asks for tools: what it was asked has to be known, and its session waits.
pub open spec fn yield_step(
    s: AppView,
    request: Option<RequestView>,
    run: Seq<char>,
    now: i64,
) -> (AppView, Outcome<RequestView>) {
    match request {
        None => (s, failure("agent-tool-request-missing"@, run)),
        Some(request) => {
            let (after, done) = set_status_step(s, run, AgentSessionStatus::WaitingTool, now);
            (
                after,
                match done {
                    Outcome::Done(_) => Outcome::Done(request),
                    Outcome::Failed(e) => Outcome::Failed(e),
                },
            )
        },
    }
}

/// What a diagnostic of a run showed.
pub struct LspDiagnosticEvidence {
    pub server_id: String,
    pub path: String,
    pub file_hash: String,
    pub before_count: u64,
    pub after_count: u64,
    pub added: u64,
    pub removed: u64,
    pub error_count: u64,
    pub warning_count: u64,
}

pub struct DiagnosticView {
    pub server_id: Seq<char>,
    pub path: Seq<char>,
    pub file_hash: Seq<char>,
    pub before_count: u64,
    pub after_count: u64,
    pub added: u64,
    pub removed: u64,
    pub error_count: u64,
    pub warning_count: u64,
}

impl View for LspDiagnosticEvidence {
    type V = DiagnosticView;

    open spec fn view(&self) -> DiagnosticView {
        DiagnosticView {
            server_id: self.server_id@,
            path: self.path@,
            file_hash: self.file_hash@,
            before_count: self.before_count,
            after_count: self.after_count,
            added: self.added,
            removed: self.removed,
            error_count: self.error_count,
            warning_count: self.warning_count,
        }
    }
}

pub open spec fn diagnostic_evidence(d: DiagnosticView) -> Outcome<EvidenceView> {
    match byte_prefix(d.file_hash, 16) {
        None => failure("lsp-evidence-file-hash-invalid"@, d.file_hash),
        Some(prefix) => Outcome::Done(
            EvidenceView {
                kind: "lsp-diagnostic-delta"@,
                reference: "lsp:"@ + d.server_id + ":"@ + d.path + ":"@ + prefix,
                summary: "diagnostics "@ + decimal(d.before_count as nat) + "→"@ + decimal(
                    d.after_count as nat,
                ) + " · added="@ + decimal(d.added as nat) + " removed="@ + decimal(
                    d.removed as nat,
                ) + " errors="@ + decimal(d.error_count as nat) + " warnings="@ + decimal(
                    d.warning_count as nat,
                ),
            },
        ),
    }
}

/// The evidence of the first diagnostics; the first that cannot be named is the error.
pub open spec fn diagnostics_evidence(all: Seq<DiagnosticView>, n: int) -> Outcome<
    Seq<EvidenceView>,
>
    decreases n,
{
    if n <= 0 {
        Outcome::Done(Seq::empty())
    } else {
        match diagnostics_evidence(all, n - 1) {
            Outcome::Failed(e) => Outcome::Failed(e),
            Outcome::Done(before) => match diagnostic_evidence(all[n - 1]) {
                Outcome::Failed(e) => Outcome::Failed(e),
                Outcome::Done(e) => Outcome::Done(before.push(e)),
            },
        }
    }
}

proof fn lemma_diagnostics_fail(all: Seq<DiagnosticView>, n: int, m: int)
    requires
        diagnostics_evidence(all, n) is Failed,
        n <= m,
    ensures
        diagnostics_evidence(all, m) == diagnostics_evidence(all, n),
    decreases m - n,
{
    if n < m {
        lemma_diagnostics_fail(all, n, m - 1);
    }
}

fn evidence_of(diagnostic: &LspDiagnosticEvidence) -> (r: Result<Evidence, ApplicationError>)
    ensures
        outcome(r) == diagnostic_evidence(diagnostic@),
{
    let prefix = match first_bytes(diagnostic.file_hash.as_str(), 16) {
        Some(prefix) => prefix,
        None => {
            return Err(
                ApplicationError::new(
                    "lsp-evidence-file-hash-invalid",
                    diagnostic.file_hash.as_str(),
                ),
            );
        },
    };
    let mut reference: String = "lsp:".to_string();
    reference.append(diagnostic.server_id.as_str());
    reference.append(":");
    reference.append(diagnostic.path.as_str());
    reference.append(":");
    reference.append(prefix.as_str());
    let mut summary: String = "diagnostics ".to_string();
    summary.append(decimal_of(diagnostic.before_count).as_str());
    summary.append("→");
    summary.append(decimal_of(diagnostic.after_count).as_str());
    summary.append(" · added=");
    summary.append(decimal_of(diagnostic.added).as_str());
    summary.append(" removed=");
    summary.append(decimal_of(diagnostic.removed).as_str());
    summary.append(" errors=");
    summary.append(decimal_of(diagnostic.error_count).as_str());
    summary.append(" warnings=");
    summary.append(decimal_of(diagnostic.warning_count).as_str());
    Ok(Evidence { kind: "lsp-diagnostic-delta".to_string(), reference, summary })
}

/// The evidence of the diagnostics of a run.
pub fn lsp_run_evidence(diagnostics: &Vec<LspDiagnosticEvidence>) -> (r: Result<
    Vec<Evidence>,
    ApplicationError,
>)
    ensures
        list_outcome(r) == diagnostics_evidence(views(diagnostics@), diagnostics@.len() as int),
{
    let ghost all = views(diagnostics@);
    let mut r: Vec<Evidence> = Vec::new();
    let mut i: usize = 0;
    assert(views(r@) =~= Seq::empty());
    while i < diagnostics.len()
        invariant
            i <= diagnostics.len(),
            all == views(diagnostics@),
            diagnostics_evidence(all, i as int) == Outcome::Done(views(r@)),
        decreases diagnostics.len() - i,
    {
        broadcast use group_views;

        assert(all[i as int] == diagnostics@[i as int]@);
        match evidence_of(&diagnostics[i]) {
            Ok(evidence) => {
                r.push(evidence);
            },
            Err(error) => {
                assert(diagnostics_evidence(all, i as int + 1) is Failed);
                proof {
                    lemma_diagnostics_fail(all, i as int + 1, all.len() as int);
                }
                return Err(error);
            },
        }
        i = i + 1;
    }
    Ok(r)
}

/// The kinds of evidence that the work of a role has to show.
pub open spec fn required_evidence(role: AgentRole) -> Seq<Seq<char>> {
    match evidence_kind_text(role) {
        Some(kind) => seq![kind],
        None => Seq::empty(),
    }
}

/// A result with the evidence that the role owes, and that of the diagnostics.
pub open spec fn with_evidence(
    result: ResultView,
    role: AgentRole,
    run: Seq<char>,
    diagnostics: Seq<EvidenceView>,
) -> ResultView {
    let owed = match evidence_kind_text(role) {
        Some(kind) => result.evidence.push(
            EvidenceView { kind, reference: run, summary: result.summary },
        ),
        None => result.evidence,
    };
    ResultView {
        evidence: if gathers_diagnostics(role) {
            owed + diagnostics
        } else {
            owed
        },
        model_tool_yield: None,
        ..result
    }
}

pub open spec fn save_result_step(s: AppView, run: Seq<char>, result: ResultView, now: i64) -> AppView {
    match s.agent_state {
        Some(st) => AppView {
            agent_state: Some(
                StateView {
                    results: st.results.insert(
                        run,
                        SavedView { result, recorded_at_millis: now },
                    ),
                    ..st
                },
            ),
            ..s
        },
        None => s,
    }
}

pub open spec fn submitted_steps(
    claimed: ClaimedEffectView,
    agent: Seq<char>,
    role: AgentRole,
    task: Seq<char>,
    run: Seq<char>,
    summary: Seq<char>,
    now: i64,
) -> Seq<MissionStepView> {
    seq![
        MissionStepView::Command {
            command: CommandView::SubmitNode {
                node_id: task,
                run_id: run,
                output_summary: summary,
            },
        },
        completed(claimed, None, now),
        MissionStepView::Publish {
            event: agent_status(agent, role, "submitted"@, task),
            priority: EventPriority::Normal,
        },
    ]
}

/// Accepting the result of a run: it has to show its evidence; its use is charged, the result is
/// stored and the node is submitted.
pub open spec fn accept_step(
    s: AppView,
    claimed: ClaimedEffectView,
    agent: Seq<char>,
    task: Seq<char>,
    run: Seq<char>,
    result: ResultView,
    diagnostics: Seq<EvidenceView>,
    now: i64,
) -> (AppView, Outcome<(Seq<MissionStepView>, EnvelopeView)>) {
    let role = working_role(s, agent);
    let shown = with_evidence(result, role, run, diagnostics);
    match acceptance(shown, required_evidence(role)) {
        Outcome::Failed(e) => (s, Outcome::Failed(e)),
        Outcome::Done(_) => {
            let (s1, r1) = charge_step(
                s,
                Some(run),
                saturating_sum(shown.metrics.input_tokens, shown.metrics.output_tokens),
                shown.metrics.tool_calls,
                now,
            );
            match r1 {
                Outcome::Failed(e) => (s1, Outcome::Failed(e)),
                Outcome::Done(_) => {
                    let s2 = save_result_step(s1, run, shown, now);
                    let (s3, r3) = set_status_step(s2, run, AgentSessionStatus::Submitted, now);
                    match r3 {
                        Outcome::Failed(e) => (s3, Outcome::Failed(e)),
                        Outcome::Done(_) => (
                            s3,
                            Outcome::Done(
                                (
                                    submitted_steps(
                                        claimed,
                                        agent,
                                        role,
                                        task,
                                        run,
                                        shown.summary,
                                        now,
                                    ),
                                    EnvelopeView {
                                        agent_id: agent,
                                        task_id: task,
                                        run_id: run,
                                        result: shown,
                                        decision_claims: Map::empty(),
                                    },
                                ),
                            ),
                        ),
                    }
                },
            }
        },
    }
}

pub open spec fn failed_steps(
    claimed: ClaimedEffectView,
    task: Seq<char>,
    run: Seq<char>,
    error: Seq<char>,
    now: i64,
) -> Seq<MissionStepView> {
    seq![
        MissionStepView::Command {
            command: CommandView::FailNode { node_id: task, run_id: run, error },
        },
        failed_with(claimed, error, now),
    ]
}

pub open spec fn outcome_error(error: Option<ErrorView>, run: Seq<char>) -> ErrorView {
    match error {
        Some(e) => e,
        None => ErrorView { code: "agent-outcome-empty"@, message: run },
    }
}

/// Giving up a run that has failed.
pub open spec fn fail_step(
    s: AppView,
    claimed: ClaimedEffectView,
    agent: Seq<char>,
    task: Seq<char>,
    run: Seq<char>,
    error: Option<ErrorView>,
    now: i64,
) -> (AppView, Outcome<Seq<MissionStepView>>) {
    let (s1, r1) = set_status_step(s, run, AgentSessionStatus::Failed, now);
    match r1 {
        Outcome::Failed(e) => (s1, Outcome::Failed(e)),
        Outcome::Done(_) => {
            let (s2, r2) = finish_run_step(s1, agent, run, BudgetEscrowStatus::Failed, now);
            match r2 {
                Outcome::Failed(e) => (s2, Outcome::Failed(e)),
                Outcome::Done(_) => (
                    s2,
                    Outcome::Done(
                        failed_steps(
                            claimed,
                            task,
                            run,
                            error_text(outcome_error(error, run)),
                            now,
                        ),
                    ),
                ),
            }
        },
    }
}

/// An approval that is asked for.
pub struct PendingApproval {
    pub id: String,
    pub risk: String,
    pub reason: String,
}

pub struct ApprovalView {
    pub id: Seq<char>,
    pub risk: Seq<char>,
    pub reason: Seq<char>,
}

impl View for PendingApproval {
    type V = ApprovalView;

    open spec fn view(&self) -> ApprovalView {
        ApprovalView { id: self.id@, risk: self.risk@, reason: self.reason@ }
    }
}

pub open spec fn first_approval(approvals: Seq<ApprovalView>, id: Seq<char>) -> Option<ApprovalView>
    decreases approvals.len(),
{
    if approvals.len() == 0 {
        None
    } else {
        match first_approval(approvals.drop_last(), id) {
            Some(a) => Some(a),
            None => if approvals.last().id == id {
                Some(approvals.last())
            } else {
                None
            },
        }
    }
}

/// What the user is asked to approve.
pub open spec fn approval_action(invocation: InvocationView, risk: Seq<char>) -> JsonView {
    JsonView::Object(
        seq![
            ("permission"@, invocation.permission_action),
            ("risk"@, JsonView::Text(ascii_lowered(risk))),
            ("tool"@, JsonView::Text(invocation.tool_name)),
            ("toolInvocationId"@, JsonView::Text(invocation.id)),
        ],
    )
}

/// The command that asks for the approval of a call, if one is asked for.
pub open spec fn approval_command(
    tools_ready: bool,
    approvals: Seq<ApprovalView>,
    invocation: InvocationView,
    task: Seq<char>,
    run: Seq<char>,
) -> Outcome<CommandView> {
    match invocation.approval_request_id {
        None => failure("tool-approval-id-missing"@, invocation.id),
        Some(request_id) => if !tools_ready {
            failure("tool-runtime-missing"@, "Tool Runtime 尚未注入"@)
        } else {
            match first_approval(approvals, request_id) {
                None => failure("tool-approval-request-not-found"@, request_id),
                Some(approval) => Outcome::Done(
                    CommandView::RequestApproval {
                        node_id: task,
                        run_id: run,
                        approval_id: request_id,
                        action: json_text(approval_action(invocation, approval.risk)),
                        reason: approval.reason,
                    },
                ),
            }
        },
    }
}

pub open spec fn waiting_json(request_id: Seq<char>, invocation_id: Seq<char>) -> JsonView {
    JsonView::Object(
        seq![
            ("toolInvocationId"@, JsonView::Text(invocation_id)),
            ("waitingApproval"@, JsonView::Text(request_id)),
        ],
    )
}

pub fn waiting_result(request_id: &str, invocation_id: &str) -> (r: Json)
    ensures
        r@ == waiting_json(request_id@, invocation_id@),
{
    let members: Vec<(String, Json)> = vec![
        ("toolInvocationId".to_string(), text_json(invocation_id)),
        ("waitingApproval".to_string(), text_json(request_id)),
    ];
    let r = object(members);
    assert(r@->Object_0 =~= waiting_json(request_id@, invocation_id@)->Object_0);
    r
}

/// An agent of a team waits for an approval: its session says so, and the effect is completed.
pub open spec fn park_step(
    s: AppView,
    claimed: ClaimedEffectView,
    run: Seq<char>,
    waiting: WaitingToolView,
    request_id: Seq<char>,
    now: i64,
) -> (AppView, Outcome<MissionStepView>) {
    let (s1, r1) = set_status_step(s, run, AgentSessionStatus::WaitingApproval, now);
    match r1 {
        Outcome::Failed(e) => (s1, Outcome::Failed(e)),
        Outcome::Done(_) => {
            let (s2, r2) = set_response_step(
                s1,
                run,
                waiting.continuation.previous_response_id,
                now,
            );
            match r2 {
                Outcome::Failed(e) => (s2, Outcome::Failed(e)),
                Outcome::Done(_) => (
                    s2,
                    Outcome::Done(
                        completed(
                            claimed,
                            Some(waiting_json(request_id, waiting.invocation.id)),
                            now,
                        ),
                    ),
                ),
            }
        },
    }
}

/// Whether a run can go on: it has to be under control.
pub open spec fn go_on_step(s: AppView, run: Seq<char>, now: i64) -> (AppView, Outcome<()>) {
    let (s1, r1) = set_status_step(s, run, AgentSessionStatus::Running, now);
    match r1 {
        Outcome::Failed(e) => (s1, Outcome::Failed(e)),
        Outcome::Done(_) => if has_run(s1.run_controls, run) {
            (s1, Outcome::Done(()))
        } else {
            (s1, failure("run-control-missing"@, run))
        },
    }
}

/// The next wave of a team, if some of its agents go on.
pub open spec fn next_wave(s: AppView, f: FinishView, now: i64) -> Outcome<Option<PreparedView>> {
    if f.next.job.requests.len() == 0 {
        Outcome::Done(None)
    } else if !s.model_ready {
        failure("model-runtime-missing"@, "Tool continuation 需要 Model Runtime"@)
    } else {
        match mustered(f.next, s.agent_budget_policy.max_parallel_agents, now) {
            Outcome::Done(team) => Outcome::Done(Some(team)),
            Outcome::Failed(e) => Outcome::Failed(e),
        }
    }
}

fn find_approval(approvals: &Vec<PendingApproval>, id: &str) -> (r: Option<usize>)
    ensures
        match r {
            Some(i) => i < approvals.len() && first_approval(views(approvals@), id@) == Some(
                approvals@[i as int]@,
            ),
            None => first_approval(views(approvals@), id@) is None,
        },
{
    let ghost all = views(approvals@);
    let mut i: usize = 0;
    let mut found: Option<usize> = None;
    assert(all.subrange(0, 0) =~= Seq::empty());
    while i < approvals.len()
        invariant
            i <= approvals.len(),
            all == views(approvals@),
            match found {
                Some(k) => k < i && first_approval(all.subrange(0, i as int), id@) == Some(
                    approvals@[k as int]@,
                ),
                None => first_approval(all.subrange(0, i as int), id@) is None,
            },
        decreases approvals.len() - i,
    {
        let ghost next = all.subrange(0, i as int + 1);
        assert(next.drop_last() =~= all.subrange(0, i as int));
        assert(next.last() == approvals@[i as int]@);
        if found.is_none() && same(approvals[i].id.as_str(), id) {
            found = Some(i);
        }
        i = i + 1;
    }
    assert(all.subrange(0, all.len() as int) =~= all);
    found
}

impl HarnessApplication {
    /// Accepts the result of a run. Gives what is to be done with the mission, in order, and the
    /// result as it was accepted.
    pub fn accept_agent_result(
        &mut self,
        claimed: &ClaimedEffect,
        agent_id: &str,
        task_id: &str,
        run_id: &str,
        result: AgentResult,
        diagnostics: &Vec<Evidence>,
        now: i64,
    ) -> (r: Result<(Vec<MissionStep>, AgentResultEnvelope), ApplicationError>)
        ensures
            ({
                let (after, done) = accept_step(
                    old(self)@,
                    claimed@,
                    agent_id@,
                    task_id@,
                    run_id@,
                    result@,
                    views(diagnostics@),
                    now,
                );
                final(self)@ == after && match r {
                    Ok((steps, envelope)) => done == Outcome::Done((views(steps@), envelope@)),
                    Err(e) => done == Outcome::<(Seq<MissionStepView>, EnvelopeView)>::Failed(e@),
                }
            }),
    {
        broadcast use group_views;

        let role = self.working_role(agent_id);
        let mut result = result;
        let ghost before = result@;
        result.model_tool_yield = None;
        let mut required: Vec<&str> = Vec::new();
        match role_evidence_kind(role) {
            Some(kind) => {
                required.push(kind);
                result.evidence.push(
                    Evidence {
                        kind: kind.to_string(),
                        reference: run_id.to_string(),
                        summary: result.summary.clone(),
                    },
                );
            },
            None => {},
        }
        assert(views(required@) =~= required_evidence(role));
        if role_gathers_diagnostics(role) {
            let mut copies = duplicate_all(diagnostics);
            result.evidence.append(&mut copies);
        }
        assert(result@ == with_evidence(before, role, run_id@, views(diagnostics@)));
        match validate_required_evidence(&result, required.as_slice()) {
            Ok(()) => {},
            Err(error) => {
                return Err(agent_error(error));
            },
        }
        let tokens = result.metrics.input_tokens.saturating_add(result.metrics.output_tokens);
        match self.charge_agent_budget(Some(run_id), tokens, result.metrics.tool_calls, now) {
            Ok(()) => {},
            Err(error) => {
                return Err(error);
            },
        }
        self.save_agent_result(run_id, &result, now);
        match self.set_agent_session_status(run_id, AgentSessionStatus::Submitted, now) {
            Ok(()) => {},
            Err(error) => {
                return Err(error);
            },
        }
        let steps: Vec<MissionStep> = vec![
            MissionStep::Command {
                command: MissionCommand::SubmitNode {
                    node_id: task_id.to_string(),
                    run_id: run_id.to_string(),
                    output_summary: result.summary.clone(),
                },
            },
            complete_step(claimed, None, now),
            MissionStep::Publish {
                event: agent_status_event(agent_id, role, "submitted", task_id),
                priority: EventPriority::Normal,
            },
        ];
        assert(views(steps@) =~= submitted_steps(
            claimed@,
            agent_id@,
            role,
            task_id@,
            run_id@,
            result@.summary,
            now,
        ));
        Ok(
            (
                steps,
                AgentResultEnvelope {
                    agent_id: agent_id.to_string(),
                    task_id: task_id.to_string(),
                    run_id: run_id.to_string(),
                    result,
                    decision_claims: TextMap::new(),
                },
            ),
        )
    }

    /// Stores the result of a run, if results are stored.
    pub fn save_agent_result(&mut self, run_id: &str, result: &AgentResult, now: i64)
        ensures
            final(self)@ == save_result_step(old(self)@, run_id@, result@, now),
    {
        match &mut self.agent_state {
            Some(store) => {
                store.save_result(run_id, result, now);
            },
            None => {},
        }
    }

    /// Gives up a run that has failed. Gives what is to be done with the mission, in order.
    pub fn fail_agent_run(
        &mut self,
        claimed: &ClaimedEffect,
        agent_id: &str,
        task_id: &str,
        run_id: &str,
        error: Option<AgentError>,
        now: i64,
    ) -> (r: Result<Vec<MissionStep>, ApplicationError>)
        ensures
            (final(self)@, list_outcome(r)) == fail_step(
                old(self)@,
                claimed@,
                agent_id@,
                task_id@,
                run_id@,
                option_view(error),
                now,
            ),
    {
        let error = match error {
            Some(error) => error,
            None => AgentError::new("agent-outcome-empty", run_id),
        };
        match self.set_agent_session_status(run_id, AgentSessionStatus::Failed, now) {
            Ok(()) => {},
            Err(refused) => {
                return Err(refused);
            },
        }
        match self.finish_agent_run(agent_id, run_id, BudgetEscrowStatus::Failed, now) {
            Ok(()) => {},
            Err(refused) => {
                return Err(refused);
            },
        }
        let text = error.text();
        let steps: Vec<MissionStep> = vec![
            MissionStep::Command {
                command: MissionCommand::FailNode {
                    node_id: task_id.to_string(),
                    run_id: run_id.to_string(),
                    error: text.clone(),
                },
            },
            failed_step(claimed, text.as_str(), now),
        ];
        assert(views(steps@) =~= failed_steps(claimed@, task_id@, run_id@, text@, now));
        Ok(steps)
    }

    /// The command that asks for the approval of a call.
    pub fn request_approval(
        &self,
        approvals: &Vec<PendingApproval>,
        waiting: &ToolInvocation,
        task_id: &str,
        run_id: &str,
    ) -> (r: Result<MissionCommand, ApplicationError>)
        ensures
            outcome(r) == approval_command(
                self@.tools_ready,
                views(approvals@),
                waiting@,
                task_id@,
                run_id@,
            ),
    {
        let request_id = match &waiting.approval_request_id {
            Some(request_id) => request_id,
            None => {
                return Err(ApplicationError::new("tool-approval-id-missing", waiting.id.as_str()));
            },
        };
        if !self.tools_ready {
            return Err(ApplicationError::new("tool-runtime-missing", "Tool Runtime 尚未注入"));
        }
        match find_approval(approvals, request_id.as_str()) {
            None => Err(
                ApplicationError::new("tool-approval-request-not-found", request_id.as_str()),
            ),
            Some(i) => {
                let approval = &approvals[i];
                let members: Vec<(String, Json)> = vec![
                    ("permission".to_string(), waiting.permission_action.copy()),
                    (
                        "risk".to_string(),
                        text_json(to_ascii_lower(approval.risk.as_str()).as_str()),
                    ),
                    ("tool".to_string(), text_json(waiting.tool_name.as_str())),
                    ("toolInvocationId".to_string(), text_json(waiting.id.as_str())),
                ];
                let action = object(members);
                assert(action@->Object_0 =~= approval_action(
                    waiting@,
                    approval@.risk,
                )->Object_0);
                Ok(
                    MissionCommand::RequestApproval {
                        node_id: task_id.to_string(),
                        run_id: run_id.to_string(),
                        approval_id: request_id.clone(),
                        action: action.text(),
                        reason: approval.reason.clone(),
                    },
                )
            },
        }
    }

    /// Records that an agent of a team waits for an approval. Gives the step that completes the
    /// effect of its run.
    pub fn park_agent_run(
        &mut self,
        claimed: &ClaimedEffect,
        run_id: &str,
        waiting: &WaitingParallelTool,
        request_id: &str,
        now: i64,
    ) -> (r: Result<MissionStep, ApplicationError>)
        ensures
            (final(self)@, outcome(r)) == park_step(
                old(self)@,
                claimed@,
                run_id@,
                waiting@,
                request_id@,
                now,
            ),
    {
        match self.set_agent_session_status(run_id, AgentSessionStatus::WaitingApproval, now) {
            Ok(()) => {},
            Err(error) => {
                return Err(error);
            },
        }
        match self.set_agent_session_previous_response(
            run_id,
            &waiting.continuation.previous_response_id,
            now,
        ) {
            Ok(()) => {},
            Err(error) => {
                return Err(error);
            },
        }
        Ok(
            complete_step(
                claimed,
                Some(waiting_result(request_id, waiting.invocation.id.as_str())),
                now,
            ),
        )
    }

    /// Keeps what an agent needs to go on once its call is approved.
    pub fn keep_pending_parallel(
        &mut self,
        request: AgentExecutionRequest,
        waiting: WaitingParallelTool,
        prompt: String,
    )
        ensures
            final(self)@ == (AppView {
                pending_parallel: old(self)@.pending_parallel.insert(
                    waiting@.invocation.id,
                    PendingParallelView { request: request@, waiting: waiting@, prompt: prompt@ },
                ),
                ..old(self)@
            }),
    {
        let key = waiting.invocation.id.clone();
        self.pending_parallel_tool_continuations.insert(
            key,
            PendingParallelToolContinuation { request, waiting, prompt },
        );
    }

    /// Begins the calls of an agent that asks for tools.
    pub fn begin_agent_yield(
        &mut self,
        request: Option<AgentExecutionRequest>,
        run_id: &str,
        now: i64,
    ) -> (r: Result<AgentExecutionRequest, ApplicationError>)
        ensures
            (final(self)@, outcome(r)) == yield_step(
                old(self)@,
                option_view(request),
                run_id@,
                now,
            ),
    {
        match request {
            None => Err(ApplicationError::new("agent-tool-request-missing", run_id)),
            Some(request) => match self.set_agent_session_status(
                run_id,
                AgentSessionStatus::WaitingTool,
                now,
            ) {
                Ok(()) => Ok(request),
                Err(error) => Err(error),
            },
        }
    }

    /// Lets a run go on after its calls.
    pub fn resume_agent_run(&mut self, run_id: &str, now: i64) -> (r: Result<(), ApplicationError>)
        ensures
            (final(self)@, unit_outcome(r)) == go_on_step(old(self)@, run_id@, now),
    {
        match self.set_agent_session_status(run_id, AgentSessionStatus::Running, now) {
            Ok(()) => {},
            Err(error) => {
                return Err(error);
            },
        }
        if self.run_controls.is_cancelled(run_id).is_some() {
            Ok(())
        } else {
            Err(ApplicationError::new("run-control-missing", run_id))
        }
    }

    /// The next wave of a team, of the agents that go on.
    pub fn next_agent_team(&self, finish: TeamFinish, now: i64) -> (r: Result<
        Option<PreparedAgentTeam>,
        ApplicationError,
    >)
        ensures
            match r {
                Ok(next) => next_wave(self@, finish@, now) == Outcome::Done(option_view(next)),
                Err(e) => next_wave(self@, finish@, now) == Outcome::<
                    Option<PreparedView>,
                >::Failed(e@),
            },
    {
        assert(finish.next.job.requests@.len() == finish@.next.job.requests.len());
        if finish.next.job.requests.len() == 0 {
            return Ok(None);
        }
        if !self.model_ready {
            return Err(
                ApplicationError::new(
                    "model-runtime-missing",
                    "Tool continuation 需要 Model Runtime",
                ),
            );
        }
        match finish.next.muster(self.agent_budget_policy.max_parallel_agents, now) {
            Ok(team) => Ok(Some(team)),
            Err(error) => Err(error),
        }
    }
}

/// The completions of an effect among some steps.
pub open spec fn completions(steps: Seq<MissionStepView>, fence: FenceView) -> nat
    decreases steps.len(),
{
    if steps.len() == 0 {
        0
    } else {
        completions(steps.drop_last(), fence) + (match steps.last() {
            MissionStepView::Complete { completion } => if completion.fence == fence {
                1nat
            } else {
                0nat
            },
            _ => 0nat,
        })
    }
}

/// However a run ends, the effect that was claimed for it is completed exactly once.
pub proof fn law_an_effect_is_completed_once(
    claimed: ClaimedEffectView,
    agent: Seq<char>,
    role: AgentRole,
    task: Seq<char>,
    run: Seq<char>,
    text: Seq<char>,
    now: i64,
)
    ensures
        completions(cancelled_task_steps(claimed, task, now), claimed.fence) == 1,
        completions(
            submitted_steps(claimed, agent, role, task, run, text, now),
            claimed.fence,
        ) == 1,
        completions(failed_steps(claimed, task, run, text, now), claimed.fence) == 1,
{
    reveal_with_fuel(completions, 4);
    let a = cancelled_task_steps(claimed, task, now);
    let b = submitted_steps(claimed, agent, role, task, run, text, now);
    let c = failed_steps(claimed, task, run, text, now);
    assert(a.drop_last().last() == a[0]);
    assert(b.drop_last().last() == b[1]);
    assert(b.drop_last().drop_last().last() == b[0]);
    assert(c.drop_last().last() == c[0]);
}

/// A run is taken once: a second outcome of the same run finds nothing.
pub proof fn law_a_run_is_taken_once(f: FinishView, run: Seq<char>)
    ensures
        !without_run(f, run).continuation.claimed_by_run.contains_key(run),
        !without_run(f, run).continuation.requests_by_run.contains_key(run),
{
}

/// A result that is accepted shows the evidence that its role owes.
pub proof fn law_accepted_work_is_evident(
    result: ResultView,
    role: AgentRole,
    run: Seq<char>,
    diagnostics: Seq<EvidenceView>,
)
    requires
        evidence_kind_text(role) is Some,
    ensures
        with_evidence(result, role, run, diagnostics).evidence.contains(
            EvidenceView {
                kind: evidence_kind_text(role)->Some_0,
                reference: run,
                summary: result.summary,
            },
        ),
{
    let n = result.evidence.len();
    let shown = with_evidence(result, role, run, diagnostics).evidence;
    assert(shown[n as int] == (EvidenceView {
        kind: evidence_kind_text(role)->Some_0,
        reference: run,
        summary: result.summary,
    }));
}

} // verus!
