//! The results of agents: what they must show, where they conflict, and the meetings on that.

use vstd::prelude::*;
use vstd::string::*;

use crate::catalog::AgentDefinitionId;
use crate::error::{failure, unit_outcome, AgentError, Outcome};
use crate::exchange::{AgentExecutionMetrics, AgentModelToolYield, YieldView};
use crate::model::{
    duplicate_all, duplicate_option, group_views, option_view, views, Duplicate,
};
use crate::ordered::{enumerates, in_order, TextMap, TextSet};
use crate::paths::{normalized, normalized_text, overlap, paths_overlap};
use crate::staffing::TaskId;
use crate::text::{is_blank, is_blank_text, same, texts, trim, trimmed};

verus! {

pub type MissionId = String;

pub type RunId = String;

/// Something that a result can be checked by.
#[derive(Debug, PartialEq, Eq)]
pub struct Evidence {
    pub kind: String,
    pub reference: String,
    pub summary: String,
}

pub struct EvidenceView {
    pub kind: Seq<char>,
    pub reference: Seq<char>,
    pub summary: Seq<char>,
}

impl View for Evidence {
    type V = EvidenceView;

    open spec fn view(&self) -> EvidenceView {
        EvidenceView { kind: self.kind@, reference: self.reference@, summary: self.summary@ }
    }
}

impl Duplicate for Evidence {
    fn duplicate(&self) -> (r: Self) {
        Evidence {
            kind: self.kind.clone(),
            reference: self.reference.clone(),
            summary: self.summary.clone(),
        }
    }
}

/// What an agent hands back. The confidence is kept as the bits of a single precision number.
#[derive(Debug, PartialEq, Eq)]
pub struct AgentResult {
    pub status: String,
    pub summary: String,
    pub artifacts: Vec<String>,
    pub changed_files: Vec<String>,
    pub evidence: Vec<Evidence>,
    pub warnings: Vec<String>,
    pub errors: Vec<String>,
    pub metrics: AgentExecutionMetrics,
    pub confidence: u32,
    pub follow_up: Vec<String>,
    pub model_tool_yield: Option<AgentModelToolYield>,
}

pub struct ResultView {
    pub status: Seq<char>,
    pub summary: Seq<char>,
    pub artifacts: Seq<Seq<char>>,
    pub changed_files: Seq<Seq<char>>,
    pub evidence: Seq<EvidenceView>,
    pub warnings: Seq<Seq<char>>,
    pub errors: Seq<Seq<char>>,
    pub metrics: AgentExecutionMetrics,
    pub confidence: u32,
    pub follow_up: Seq<Seq<char>>,
    pub model_tool_yield: Option<YieldView>,
}

impl View for AgentResult {
    type V = ResultView;

    open spec fn view(&self) -> ResultView {
        ResultView {
            status: self.status@,
            summary: self.summary@,
            artifacts: views(self.artifacts@),
            changed_files: views(self.changed_files@),
            evidence: views(self.evidence@),
            warnings: views(self.warnings@),
            errors: views(self.errors@),
            metrics: self.metrics,
            confidence: self.confidence,
            follow_up: views(self.follow_up@),
            model_tool_yield: option_view(self.model_tool_yield),
        }
    }
}

impl Duplicate for AgentResult {
    fn duplicate(&self) -> (r: Self) {
        AgentResult {
            status: self.status.clone(),
            summary: self.summary.clone(),
            artifacts: duplicate_all(&self.artifacts),
            changed_files: duplicate_all(&self.changed_files),
            evidence: duplicate_all(&self.evidence),
            warnings: duplicate_all(&self.warnings),
            errors: duplicate_all(&self.errors),
            metrics: self.metrics,
            confidence: self.confidence,
            follow_up: duplicate_all(&self.follow_up),
            model_tool_yield: duplicate_option(&self.model_tool_yield),
        }
    }
}

/// The bits of one half, of four fifths and of one as single precision numbers.
pub const CONFIDENCE_HALF: u32 = 0x3f00_0000;

pub const CONFIDENCE_FOUR_FIFTHS: u32 = 0x3f4c_cccd;

pub const CONFIDENCE_ONE: u32 = 0x3f80_0000;

/// The bits of a single precision number that is not less than zero and not more than one. The
/// bits of numbers that are not negative are ordered as the numbers are; negative zero is zero.
pub open spec fn confidence_in_range(bits: u32) -> bool {
    bits <= CONFIDENCE_ONE || bits == 0x8000_0000u32
}

/// A result of which nothing but the status, the summary and the metrics is given.
pub open spec fn plain_result(
    status: Seq<char>,
    summary: Seq<char>,
    metrics: AgentExecutionMetrics,
    confidence: u32,
) -> ResultView {
    ResultView {
        status,
        summary,
        artifacts: Seq::empty(),
        changed_files: Seq::empty(),
        evidence: Seq::empty(),
        warnings: Seq::empty(),
        errors: Seq::empty(),
        metrics,
        confidence,
        follow_up: Seq::empty(),
        model_tool_yield: None,
    }
}

pub fn bare_result(
    status: &str,
    summary: String,
    metrics: AgentExecutionMetrics,
    confidence: u32,
) -> (r: AgentResult)
    ensures
        r@ == plain_result(status@, summary@, metrics, confidence),
        r.model_tool_yield is None,
{
    broadcast use group_views;

    AgentResult {
        status: status.to_owned(),
        summary,
        artifacts: Vec::new(),
        changed_files: Vec::new(),
        evidence: Vec::new(),
        warnings: Vec::new(),
        errors: Vec::new(),
        metrics,
        confidence,
        follow_up: Vec::new(),
        model_tool_yield: None,
    }
}

pub open spec fn has_evidence(evidence: Seq<EvidenceView>, kind: Seq<char>) -> bool {
    exists|i: int| 0 <= i < evidence.len() && (#[trigger] evidence[i]).kind == kind
}

/// The first kind of evidence that is required and not there.
pub open spec fn first_missing(
    evidence: Seq<EvidenceView>,
    required: Seq<Seq<char>>,
) -> Option<Seq<char>>
    decreases required.len(),
{
    if required.len() == 0 {
        None
    } else if !has_evidence(evidence, required[0]) {
        Some(required[0])
    } else {
        first_missing(evidence, required.drop_first())
    }
}

pub open spec fn is_void(e: EvidenceView) -> bool {
    is_blank_text(e.kind) || is_blank_text(e.reference) || is_blank_text(e.summary)
}

pub open spec fn has_void(evidence: Seq<EvidenceView>) -> bool {
    exists|i: int| 0 <= i < evidence.len() && is_void(#[trigger] evidence[i])
}

/// Whether a result is accepted, given the kinds of evidence that it must carry.
pub open spec fn acceptance(result: ResultView, required: Seq<Seq<char>>) -> Outcome<()> {
    if result.status != "completed"@ || is_blank_text(result.summary) {
        failure("agent-result-incomplete"@, "status/summary"@)
    } else if !confidence_in_range(result.confidence) {
        failure("agent-result-confidence"@, "range"@)
    } else if first_missing(result.evidence, required) is Some {
        failure("agent-evidence-required"@, first_missing(result.evidence, required)->0)
    } else if has_void(result.evidence) {
        failure("agent-evidence-invalid"@, "kind/reference/summary"@)
    } else if required.len() > 0 && result.metrics.turns == 0 {
        failure("agent-evidence-metrics-missing"@, "turns=0"@)
    } else {
        Outcome::Done(())
    }
}

fn carries(evidence: &Vec<Evidence>, kind: &str) -> (r: bool)
    ensures
        r == has_evidence(views(evidence@), kind@),
{
    let ghost all = views(evidence@);
    let mut i: usize = 0;
    while i < evidence.len()
        invariant
            i <= evidence.len(),
            all == views(evidence@),
            forall|k: int| 0 <= k < i ==> (#[trigger] all[k]).kind != kind@,
        decreases evidence.len() - i,
    {
        assert(all[i as int] == evidence@[i as int]@);
        if same(evidence[i].kind.as_str(), kind) {
            return true;
        }
        i = i + 1;
    }
    false
}

fn carries_void(evidence: &Vec<Evidence>) -> (r: bool)
    ensures
        r == has_void(views(evidence@)),
{
    let ghost all = views(evidence@);
    let mut i: usize = 0;
    while i < evidence.len()
        invariant
            i <= evidence.len(),
            all == views(evidence@),
            forall|k: int| 0 <= k < i ==> !is_void(#[trigger] all[k]),
        decreases evidence.len() - i,
    {
        assert(all[i as int] == evidence@[i as int]@);
        if is_blank(evidence[i].kind.as_str()) || is_blank(evidence[i].reference.as_str())
            || is_blank(evidence[i].summary.as_str()) {
            return true;
        }
        i = i + 1;
    }
    false
}

pub fn validate_required_evidence(result: &AgentResult, required_evidence: &[&str]) -> (r: Result<
    (),
    AgentError,
>)
    ensures
        unit_outcome(r) == acceptance(result@, views(required_evidence@)),
{
    if !same(result.status.as_str(), "completed") || is_blank(result.summary.as_str()) {
        return Err(AgentError::new("agent-result-incomplete", "status/summary"));
    }
    if !(result.confidence <= CONFIDENCE_ONE || result.confidence == 0x8000_0000u32) {
        return Err(AgentError::new("agent-result-confidence", "range"));
    }
    let ghost required = views(required_evidence@);
    let mut i: usize = 0;
    assert(required.subrange(0, required.len() as int) =~= required);
    while i < required_evidence.len()
        invariant
            i <= required_evidence.len(),
            required == views(required_evidence@),
            result@.status == "completed"@,
            !is_blank_text(result@.summary),
            confidence_in_range(result@.confidence),
            first_missing(result@.evidence, required) == first_missing(
                result@.evidence,
                required.subrange(i as int, required.len() as int),
            ),
        decreases required_evidence.len() - i,
    {
        let ghost rest = required.subrange(i as int, required.len() as int);
        assert(rest[0] == required_evidence@[i as int]@);
        assert(rest.drop_first() =~= required.subrange(i as int + 1, required.len() as int));
        if !carries(&result.evidence, required_evidence[i]) {
            return Err(AgentError::new("agent-evidence-required", required_evidence[i]));
        }
        i = i + 1;
    }
    if carries_void(&result.evidence) {
        return Err(AgentError::new("agent-evidence-invalid", "kind/reference/summary"));
    }
    if required_evidence.len() > 0 && result.metrics.turns == 0 {
        return Err(AgentError::new("agent-evidence-metrics-missing", "turns=0"));
    }
    Ok(())
}

/// The kinds of evidence that tests and reviews leave behind.
pub open spec fn acceptance_kinds(requires_test: bool, requires_review: bool) -> Seq<Seq<char>> {
    (if requires_test {
        seq!["test"@]
    } else {
        Seq::empty()
    }) + (if requires_review {
        seq!["review"@]
    } else {
        Seq::empty()
    })
}

pub fn validate_acceptance(
    result: &AgentResult,
    requires_test: bool,
    requires_review: bool,
) -> (r: Result<(), AgentError>)
    ensures
        unit_outcome(r) == acceptance(result@, acceptance_kinds(requires_test, requires_review)),
{
    let mut required: Vec<&str> = Vec::new();
    if requires_test {
        required.push("test");
    }
    if requires_review {
        required.push("review");
    }
    assert(views(required@) =~= acceptance_kinds(requires_test, requires_review));
    validate_required_evidence(result, required.as_slice())
}

/// An accepted result carries every kind of evidence that was asked for, and no void evidence.
pub proof fn law_accepted_results_show_their_evidence(
    result: ResultView,
    required: Seq<Seq<char>>,
    i: int,
)
    requires
        acceptance(result, required) == Outcome::Done(()),
        0 <= i < required.len(),
    ensures
        has_evidence(result.evidence, required[i]),
        !has_void(result.evidence),
        result.metrics.turns > 0,
{
    lemma_none_missing(result.evidence, required, i);
}

proof fn lemma_none_missing(evidence: Seq<EvidenceView>, required: Seq<Seq<char>>, i: int)
    requires
        first_missing(evidence, required) is None,
        0 <= i < required.len(),
    ensures
        has_evidence(evidence, required[i]),
    decreases i,
{
    if i > 0 {
        lemma_none_missing(evidence, required.drop_first(), i - 1);
    }
}

/// A result with where it came from and what it decided.
#[derive(Debug, PartialEq, Eq)]
pub struct AgentResultEnvelope {
    pub agent_id: AgentDefinitionId,
    pub task_id: TaskId,
    pub run_id: RunId,
    pub result: AgentResult,
    pub decision_claims: TextMap<String>,
}

pub struct EnvelopeView {
    pub agent_id: Seq<char>,
    pub task_id: Seq<char>,
    pub run_id: Seq<char>,
    pub result: ResultView,
    pub decision_claims: Map<Seq<char>, Seq<char>>,
}

impl View for AgentResultEnvelope {
    type V = EnvelopeView;

    open spec fn view(&self) -> EnvelopeView {
        EnvelopeView {
            agent_id: self.agent_id@,
            task_id: self.task_id@,
            run_id: self.run_id@,
            result: self.result@,
            decision_claims: self.decision_claims@,
        }
    }
}

#[derive(Clone, Copy, Debug, PartialEq, Eq, Structural)]
pub enum ConflictKind {
    FileOverlap,
    DecisionMismatch,
}

#[derive(Debug, PartialEq, Eq)]
pub struct DetectedConflict {
    pub kind: ConflictKind,
    pub left_agent: AgentDefinitionId,
    pub right_agent: AgentDefinitionId,
    pub subject: String,
    pub left_value: String,
    pub right_value: String,
}

pub struct ConflictView {
    pub kind: ConflictKind,
    pub left_agent: Seq<char>,
    pub right_agent: Seq<char>,
    pub subject: Seq<char>,
    pub left_value: Seq<char>,
    pub right_value: Seq<char>,
}

impl View for DetectedConflict {
    type V = ConflictView;

    open spec fn view(&self) -> ConflictView {
        ConflictView {
            kind: self.kind,
            left_agent: self.left_agent@,
            right_agent: self.right_agent@,
            subject: self.subject@,
            left_value: self.left_value@,
            right_value: self.right_value@,
        }
    }
}

pub open spec fn file_conflict(
    l: EnvelopeView,
    r: EnvelopeView,
    i: int,
    j: int,
    fold_case: bool,
) -> ConflictView {
    ConflictView {
        kind: ConflictKind::FileOverlap,
        left_agent: l.agent_id,
        right_agent: r.agent_id,
        subject: "changed_files"@,
        left_value: normalized_text(l.result.changed_files[i], fold_case),
        right_value: normalized_text(r.result.changed_files[j], fold_case),
    }
}

/// The conflicts of one file of the left result with the first `n` of the right one.
pub open spec fn conflicts_of_file(
    l: EnvelopeView,
    r: EnvelopeView,
    i: int,
    n: int,
    fold_case: bool,
) -> Seq<ConflictView>
    decreases n,
{
    if n <= 0 {
        Seq::empty()
    } else {
        let c = file_conflict(l, r, i, n - 1, fold_case);
        let before = conflicts_of_file(l, r, i, n - 1, fold_case);
        if overlap(c.left_value, c.right_value) {
            before.push(c)
        } else {
            before
        }
    }
}

/// The conflicts of the first `n` files of the left result with those of the right one.
pub open spec fn conflicts_of_files(
    l: EnvelopeView,
    r: EnvelopeView,
    n: int,
    fold_case: bool,
) -> Seq<ConflictView>
    decreases n,
{
    if n <= 0 {
        Seq::empty()
    } else {
        conflicts_of_files(l, r, n - 1, fold_case) + conflicts_of_file(
            l,
            r,
            n - 1,
            r.result.changed_files.len() as int,
            fold_case,
        )
    }
}

pub open spec fn disagree(l: EnvelopeView, r: EnvelopeView, key: Seq<char>) -> bool {
    r.decision_claims.contains_key(key) && trimmed(l.decision_claims[key])
        != trimmed(r.decision_claims[key])
}

pub open spec fn decision_conflict(l: EnvelopeView, r: EnvelopeView, key: Seq<char>) -> ConflictView {
    ConflictView {
        kind: ConflictKind::DecisionMismatch,
        left_agent: l.agent_id,
        right_agent: r.agent_id,
        subject: key,
        left_value: l.decision_claims[key],
        right_value: r.decision_claims[key],
    }
}

/// The conflicts in the first `n` decisions of the left result, in ascending order.
pub open spec fn conflicts_of_decisions(l: EnvelopeView, r: EnvelopeView, n: int) -> Seq<
    ConflictView,
>
    decreases n,
{
    if n <= 0 {
        Seq::empty()
    } else {
        let key = in_order(l.decision_claims.dom())[n - 1];
        let before = conflicts_of_decisions(l, r, n - 1);
        if disagree(l, r, key) {
            before.push(decision_conflict(l, r, key))
        } else {
            before
        }
    }
}

/// All conflicts between two results: those of files, then those of decisions.
pub open spec fn conflicts_between(l: EnvelopeView, r: EnvelopeView, fold_case: bool) -> Seq<
    ConflictView,
> {
    conflicts_of_files(l, r, l.result.changed_files.len() as int, fold_case)
        + conflicts_of_decisions(l, r, in_order(l.decision_claims.dom()).len() as int)
}

/// The conflicts of the result at `i` with those after it, up to `n`.
pub open spec fn conflicts_from(all: Seq<EnvelopeView>, i: int, n: int, fold_case: bool) -> Seq<
    ConflictView,
>
    decreases n - i,
{
    if n <= i + 1 {
        Seq::empty()
    } else {
        conflicts_from(all, i, n - 1, fold_case) + conflicts_between(all[i], all[n - 1], fold_case)
    }
}

/// The conflicts of the first `m` results with those after each of them.
pub open spec fn conflicts_among(all: Seq<EnvelopeView>, m: int, fold_case: bool) -> Seq<
    ConflictView,
>
    decreases m,
{
    if m <= 0 {
        Seq::empty()
    } else {
        conflicts_among(all, m - 1, fold_case) + conflicts_from(
            all,
            m - 1,
            all.len() as int,
            fold_case,
        )
    }
}

pub open spec fn all_conflicts(all: Seq<EnvelopeView>, fold_case: bool) -> Seq<ConflictView> {
    conflicts_among(all, all.len() as int, fold_case)
}

fn push_file_conflicts(
    left: &AgentResultEnvelope,
    right: &AgentResultEnvelope,
    fold_case: bool,
    out: &mut Vec<DetectedConflict>,
)
    ensures
        views(final(out)@) == views(old(out)@) + conflicts_of_files(
            left@,
            right@,
            left@.result.changed_files.len() as int,
            fold_case,
        ),
{
    let ghost start = views(out@);
    let ghost l = left@;
    let ghost r = right@;
    let mut i: usize = 0;
    assert(views(out@) =~= start + conflicts_of_files(l, r, 0, fold_case));
    while i < left.result.changed_files.len()
        invariant
            i <= left.result.changed_files.len(),
            l == left@,
            r == right@,
            views(out@) == start + conflicts_of_files(l, r, i as int, fold_case),
        decreases left.result.changed_files.len() - i,
    {
        let ghost before = views(out@);
        let left_path = normalized(left.result.changed_files[i].as_str(), fold_case);
        assert(l.result.changed_files[i as int] == left.result.changed_files@[i as int]@);
        let mut j: usize = 0;
        assert(views(out@) =~= before + conflicts_of_file(l, r, i as int, 0, fold_case));
        while j < right.result.changed_files.len()
            invariant
                i < left.result.changed_files.len(),
                j <= right.result.changed_files.len(),
                l == left@,
                r == right@,
                left_path@ == normalized_text(l.result.changed_files[i as int], fold_case),
                views(out@) == before + conflicts_of_file(l, r, i as int, j as int, fold_case),
            decreases right.result.changed_files.len() - j,
        {
            broadcast use group_views;

            let right_path = normalized(right.result.changed_files[j].as_str(), fold_case);
            assert(r.result.changed_files[j as int] == right.result.changed_files@[j as int]@);
            if paths_overlap(left_path.as_str(), right_path.as_str()) {
                out.push(
                    DetectedConflict {
                        kind: ConflictKind::FileOverlap,
                        left_agent: left.agent_id.clone(),
                        right_agent: right.agent_id.clone(),
                        subject: "changed_files".to_owned(),
                        left_value: left_path.clone(),
                        right_value: right_path,
                    },
                );
            }
            j = j + 1;
            assert(views(out@) =~= before + conflicts_of_file(l, r, i as int, j as int, fold_case));
        }
        i = i + 1;
        assert(views(out@) =~= start + conflicts_of_files(l, r, i as int, fold_case));
    }
}

fn push_decision_conflicts(
    left: &AgentResultEnvelope,
    right: &AgentResultEnvelope,
    out: &mut Vec<DetectedConflict>,
)
    ensures
        views(final(out)@) == views(old(out)@) + conflicts_of_decisions(
            left@,
            right@,
            in_order(left@.decision_claims.dom()).len() as int,
        ),
{
    let ghost start = views(out@);
    let ghost l = left@;
    let ghost r = right@;
    let keys = left.decision_claims.keys();
    let mut i: usize = 0;
    assert(views(out@) =~= start + conflicts_of_decisions(l, r, 0));
    while i < keys.len()
        invariant
            i <= keys.len(),
            l == left@,
            r == right@,
            texts(keys@) == in_order(l.decision_claims.dom()),
            enumerates(texts(keys@), l.decision_claims.dom()),
            views(out@) == start + conflicts_of_decisions(l, r, i as int),
        decreases keys.len() - i,
    {
        broadcast use group_views;

        let key = &keys[i];
        assert(texts(keys@)[i as int] == key@);
        assert(texts(keys@).contains(key@));
        if let (Some(left_value), Some(right_value)) = (
            left.decision_claims.get(key.as_str()),
            right.decision_claims.get(key.as_str()),
        ) {
            if !same(trim(left_value.as_str()).as_str(), trim(right_value.as_str()).as_str()) {
                out.push(
                    DetectedConflict {
                        kind: ConflictKind::DecisionMismatch,
                        left_agent: left.agent_id.clone(),
                        right_agent: right.agent_id.clone(),
                        subject: key.clone(),
                        left_value: left_value.clone(),
                        right_value: right_value.clone(),
                    },
                );
            }
        }
        i = i + 1;
        assert(views(out@) =~= start + conflicts_of_decisions(l, r, i as int));
    }
}

/// Compares each result with those after it: the files that both changed, and the decisions on
/// which they differ.
pub fn detect_conflicts(results: &[AgentResultEnvelope], fold_case: bool) -> (r: Vec<
    DetectedConflict,
>)
    ensures
        views(r@) == all_conflicts(views(results@), fold_case),
{
    let ghost all = views(results@);
    let mut out: Vec<DetectedConflict> = Vec::new();
    let mut i: usize = 0;
    assert(views(out@) =~= conflicts_among(all, 0, fold_case));
    while i < results.len()
        invariant
            i <= results.len(),
            all == views(results@),
            views(out@) == conflicts_among(all, i as int, fold_case),
        decreases results.len() - i,
    {
        let ghost before = views(out@);
        let mut j: usize = i + 1;
        assert(views(out@) =~= before + conflicts_from(all, i as int, j as int, fold_case));
        while j < results.len()
            invariant
                i < j <= results.len(),
                all == views(results@),
                views(out@) == before + conflicts_from(all, i as int, j as int, fold_case),
            decreases results.len() - j,
        {
            let ghost earlier = views(out@);
            assert(all[i as int] == results@[i as int]@);
            assert(all[j as int] == results@[j as int]@);
            push_file_conflicts(&results[i], &results[j], fold_case, &mut out);
            push_decision_conflicts(&results[i], &results[j], &mut out);
            assert(views(out@) =~= earlier + conflicts_between(
                all[i as int],
                all[j as int],
                fold_case,
            ));
            j = j + 1;
            assert(views(out@) =~= before + conflicts_from(all, i as int, j as int, fold_case));
        }
        i = i + 1;
    }
    out
}

proof fn lemma_contains_add<A>(a: Seq<A>, b: Seq<A>, x: A)
    ensures
        (a + b).contains(x) <==> a.contains(x) || b.contains(x),
{
    if a.contains(x) {
        let i = choose|i: int| 0 <= i < a.len() && a[i] == x;
        assert((a + b)[i] == x);
    }
    if b.contains(x) {
        let i = choose|i: int| 0 <= i < b.len() && b[i] == x;
        assert((a + b)[a.len() + i] == x);
    }
    if (a + b).contains(x) {
        let i = choose|i: int| 0 <= i < (a + b).len() && (a + b)[i] == x;
        if i < a.len() {
            assert(a[i] == x);
        } else {
            assert(b[i - a.len()] == x);
        }
    }
}

proof fn lemma_contains_push<A>(a: Seq<A>, y: A, x: A)
    ensures
        a.push(y).contains(x) <==> a.contains(x) || x == y,
{
    assert(a.push(y) =~= a + seq![y]);
    lemma_contains_add(a, seq![y], x);
    assert(seq![y][0] == y);
}

proof fn lemma_file_conflict_listed(
    l: EnvelopeView,
    r: EnvelopeView,
    i: int,
    j: int,
    n: int,
    fold_case: bool,
)
    requires
        0 <= j < n,
        ({
            let c = file_conflict(l, r, i, j, fold_case);
            overlap(c.left_value, c.right_value)
        }),
    ensures
        conflicts_of_file(l, r, i, n, fold_case).contains(file_conflict(l, r, i, j, fold_case)),
    decreases n,
{
    let c = file_conflict(l, r, i, n - 1, fold_case);
    let before = conflicts_of_file(l, r, i, n - 1, fold_case);
    lemma_contains_push(before, c, file_conflict(l, r, i, j, fold_case));
    if j < n - 1 {
        lemma_file_conflict_listed(l, r, i, j, n - 1, fold_case);
    }
}

proof fn lemma_file_conflicts_listed(
    l: EnvelopeView,
    r: EnvelopeView,
    i: int,
    j: int,
    n: int,
    fold_case: bool,
)
    requires
        0 <= i < n,
        0 <= j < r.result.changed_files.len(),
        ({
            let c = file_conflict(l, r, i, j, fold_case);
            overlap(c.left_value, c.right_value)
        }),
    ensures
        conflicts_of_files(l, r, n, fold_case).contains(file_conflict(l, r, i, j, fold_case)),
    decreases n,
{
    let c = file_conflict(l, r, i, j, fold_case);
    lemma_contains_add(
        conflicts_of_files(l, r, n - 1, fold_case),
        conflicts_of_file(l, r, n - 1, r.result.changed_files.len() as int, fold_case),
        c,
    );
    if i < n - 1 {
        lemma_file_conflicts_listed(l, r, i, j, n - 1, fold_case);
    } else {
        lemma_file_conflict_listed(l, r, i, j, r.result.changed_files.len() as int, fold_case);
    }
}

proof fn lemma_decision_conflict_listed(l: EnvelopeView, r: EnvelopeView, k: int, n: int)
    requires
        0 <= k < n,
        disagree(l, r, in_order(l.decision_claims.dom())[k]),
    ensures
        conflicts_of_decisions(l, r, n).contains(
            decision_conflict(l, r, in_order(l.decision_claims.dom())[k]),
        ),
    decreases n,
{
    let key = in_order(l.decision_claims.dom())[n - 1];
    lemma_contains_push(
        conflicts_of_decisions(l, r, n - 1),
        decision_conflict(l, r, key),
        decision_conflict(l, r, in_order(l.decision_claims.dom())[k]),
    );
    if k < n - 1 {
        lemma_decision_conflict_listed(l, r, k, n - 1);
    }
}

proof fn lemma_pair_listed(
    all: Seq<EnvelopeView>,
    i: int,
    j: int,
    n: int,
    fold_case: bool,
    c: ConflictView,
)
    requires
        0 <= i < j < n <= all.len(),
        conflicts_between(all[i], all[j], fold_case).contains(c),
    ensures
        conflicts_from(all, i, n, fold_case).contains(c),
    decreases n,
{
    lemma_contains_add(
        conflicts_from(all, i, n - 1, fold_case),
        conflicts_between(all[i], all[n - 1], fold_case),
        c,
    );
    if j < n - 1 {
        lemma_pair_listed(all, i, j, n - 1, fold_case, c);
    }
}

proof fn lemma_from_listed(
    all: Seq<EnvelopeView>,
    i: int,
    m: int,
    fold_case: bool,
    c: ConflictView,
)
    requires
        0 <= i < m <= all.len(),
        conflicts_from(all, i, all.len() as int, fold_case).contains(c),
    ensures
        conflicts_among(all, m, fold_case).contains(c),
    decreases m,
{
    lemma_contains_add(
        conflicts_among(all, m - 1, fold_case),
        conflicts_from(all, m - 1, all.len() as int, fold_case),
        c,
    );
    if i < m - 1 {
        lemma_from_listed(all, i, m - 1, fold_case, c);
    }
}

/// No overlap goes unnoticed: two files of two results that overlap are reported.
pub proof fn law_overlapping_files_are_reported(
    all: Seq<EnvelopeView>,
    i: int,
    j: int,
    a: int,
    b: int,
    fold_case: bool,
)
    requires
        0 <= i < j < all.len(),
        0 <= a < all[i].result.changed_files.len(),
        0 <= b < all[j].result.changed_files.len(),
        overlap(
            normalized_text(all[i].result.changed_files[a], fold_case),
            normalized_text(all[j].result.changed_files[b], fold_case),
        ),
    ensures
        all_conflicts(all, fold_case).contains(file_conflict(all[i], all[j], a, b, fold_case)),
{
    let l = all[i];
    let r = all[j];
    let c = file_conflict(l, r, a, b, fold_case);
    lemma_file_conflicts_listed(l, r, a, b, l.result.changed_files.len() as int, fold_case);
    lemma_contains_add(
        conflicts_of_files(l, r, l.result.changed_files.len() as int, fold_case),
        conflicts_of_decisions(l, r, in_order(l.decision_claims.dom()).len() as int),
        c,
    );
    lemma_pair_listed(all, i, j, all.len() as int, fold_case, c);
    lemma_from_listed(all, i, all.len() as int, fold_case, c);
}

/// No disagreement goes unnoticed: a decision on which two results differ is reported.
pub proof fn law_disagreements_are_reported(
    all: Seq<EnvelopeView>,
    i: int,
    j: int,
    k: int,
    fold_case: bool,
)
    requires
        0 <= i < j < all.len(),
        0 <= k < in_order(all[i].decision_claims.dom()).len(),
        disagree(all[i], all[j], in_order(all[i].decision_claims.dom())[k]),
    ensures
        all_conflicts(all, fold_case).contains(
            decision_conflict(all[i], all[j], in_order(all[i].decision_claims.dom())[k]),
        ),
{
    let l = all[i];
    let r = all[j];
    let c = decision_conflict(l, r, in_order(l.decision_claims.dom())[k]);
    lemma_decision_conflict_listed(l, r, k, in_order(l.decision_claims.dom()).len() as int);
    lemma_contains_add(
        conflicts_of_files(l, r, l.result.changed_files.len() as int, fold_case),
        conflicts_of_decisions(l, r, in_order(l.decision_claims.dom()).len() as int),
        c,
    );
    lemma_pair_listed(all, i, j, all.len() as int, fold_case, c);
    lemma_from_listed(all, i, all.len() as int, fold_case, c);
}

/// The minutes of a meeting.
#[derive(Debug, PartialEq, Eq)]
pub struct MeetingRecord {
    pub id: String,
    pub mission_id: MissionId,
    pub topic: String,
    pub participants: TextSet,
    pub transcript: Vec<String>,
    pub decisions: Vec<String>,
    pub conflicts: Vec<String>,
    pub created_at_millis: i64,
    pub closed_at_millis: Option<i64>,
}

pub struct MeetingView {
    pub id: Seq<char>,
    pub mission_id: Seq<char>,
    pub topic: Seq<char>,
    pub participants: Set<Seq<char>>,
    pub transcript: Seq<Seq<char>>,
    pub decisions: Seq<Seq<char>>,
    pub conflicts: Seq<Seq<char>>,
    pub created_at_millis: i64,
    pub closed_at_millis: Option<i64>,
}

impl View for MeetingRecord {
    type V = MeetingView;

    open spec fn view(&self) -> MeetingView {
        MeetingView {
            id: self.id@,
            mission_id: self.mission_id@,
            topic: self.topic@,
            participants: self.participants@,
            transcript: views(self.transcript@),
            decisions: views(self.decisions@),
            conflicts: views(self.conflicts@),
            created_at_millis: self.created_at_millis,
            closed_at_millis: self.closed_at_millis,
        }
    }
}

impl Duplicate for MeetingRecord {
    fn duplicate(&self) -> (r: Self) {
        MeetingRecord {
            id: self.id.clone(),
            mission_id: self.mission_id.clone(),
            topic: self.topic.clone(),
            participants: self.participants.copy(),
            transcript: duplicate_all(&self.transcript),
            decisions: duplicate_all(&self.decisions),
            conflicts: duplicate_all(&self.conflicts),
            created_at_millis: self.created_at_millis,
            closed_at_millis: self.closed_at_millis,
        }
    }
}

/// A contribution to a meeting: refused once it is closed, and to those who do not take part.
pub open spec fn append_step(m: MeetingView, speaker: Seq<char>, message: Seq<char>) -> (
    MeetingView,
    Outcome<()>,
) {
    if m.closed_at_millis is Some {
        (m, failure("meeting-closed"@, m.id))
    } else if !m.participants.contains(speaker) {
        (m, failure("meeting-speaker-not-participant"@, speaker))
    } else {
        (
            MeetingView { transcript: m.transcript.push(speaker + ": "@ + trimmed(message)), ..m },
            Outcome::Done(()),
        )
    }
}

impl MeetingRecord {
    pub fn append(&mut self, speaker: &str, message: &str) -> (r: Result<(), AgentError>)
        ensures
            (final(self)@, unit_outcome(r)) == append_step(old(self)@, speaker@, message@),
    {
        broadcast use group_views;

        if self.closed_at_millis.is_some() {
            return Err(AgentError::new("meeting-closed", self.id.as_str()));
        }
        if !self.participants.contains(speaker) {
            return Err(AgentError::new("meeting-speaker-not-participant", speaker));
        }
        let mut line = speaker.to_owned();
        line.append(": ");
        line.append(trim(message).as_str());
        self.transcript.push(line);
        Ok(())
    }

    pub fn decide(&mut self, decision: &str)
        ensures
            final(self)@ == (MeetingView {
                decisions: old(self)@.decisions.push(trimmed(decision@)),
                ..old(self)@
            }),
    {
        broadcast use group_views;

        self.decisions.push(trim(decision));
    }

    pub fn conflict(&mut self, conflict: &str)
        ensures
            final(self)@ == (MeetingView {
                conflicts: old(self)@.conflicts.push(trimmed(conflict@)),
                ..old(self)@
            }),
    {
        broadcast use group_views;

        self.conflicts.push(trim(conflict));
    }

    pub fn close(&mut self, now: i64)
        ensures
            final(self)@ == (MeetingView { closed_at_millis: Some(now), ..old(self)@ }),
    {
        self.closed_at_millis = Some(now);
    }
}

pub open spec fn conflict_kind_text(kind: ConflictKind) -> Seq<char> {
    match kind {
        ConflictKind::FileOverlap => "FileOverlap"@,
        ConflictKind::DecisionMismatch => "DecisionMismatch"@,
    }
}

pub open spec fn conflict_text(c: ConflictView) -> Seq<char> {
    conflict_kind_text(c.kind) + ": "@ + c.left_agent + " <> "@ + c.right_agent + " · "@ + c.subject
        + " · "@ + c.left_value + " <> "@ + c.right_value
}

pub fn format_conflict(conflict: &DetectedConflict) -> (r: String)
    ensures
        r@ == conflict_text(conflict@),
{
    let mut r = match conflict.kind {
        ConflictKind::FileOverlap => "FileOverlap".to_owned(),
        ConflictKind::DecisionMismatch => "DecisionMismatch".to_owned(),
    };
    r.append(": ");
    r.append(conflict.left_agent.as_str());
    r.append(" <> ");
    r.append(conflict.right_agent.as_str());
    r.append(" · ");
    r.append(conflict.subject.as_str());
    r.append(" · ");
    r.append(conflict.left_value.as_str());
    r.append(" <> ");
    r.append(conflict.right_value.as_str());
    r
}

/// What the inspection of results gave: the conflicts, and a meeting if there are any.
#[derive(Debug, PartialEq, Eq)]
pub struct CoordinationOutcome {
    pub conflicts: Vec<DetectedConflict>,
    pub meeting: Option<MeetingRecord>,
}

pub open spec fn agents_of(all: Seq<EnvelopeView>) -> Set<Seq<char>> {
    Seq::new(all.len(), |i: int| all[i].agent_id).to_set()
}

/// The meeting that conflicts call for.
pub open spec fn conflict_meeting(
    mission: Seq<char>,
    all: Seq<EnvelopeView>,
    id: Seq<char>,
    now: i64,
    fold_case: bool,
) -> MeetingView {
    let conflicts = all_conflicts(all, fold_case);
    MeetingView {
        id,
        mission_id: mission,
        topic: "自动检测到子 Agent 方案冲突"@,
        participants: agents_of(all).insert("agent:coordinator"@),
        transcript: Seq::empty(),
        decisions: Seq::empty(),
        conflicts: Seq::new(conflicts.len(), |i: int| conflict_text(conflicts[i])),
        created_at_millis: now,
        closed_at_millis: None,
    }
}

/// Looks on at the results of agents; it changes no code.
pub struct Coordinator;

impl Coordinator {
    /// Calls a meeting exactly if there are conflicts.
    pub fn inspect(
        mission_id: MissionId,
        results: &[AgentResultEnvelope],
        meeting_id: String,
        now: i64,
        fold_case: bool,
    ) -> (r: CoordinationOutcome)
        ensures
            views(r.conflicts@) == all_conflicts(views(results@), fold_case),
            r.meeting is Some <==> all_conflicts(views(results@), fold_case).len() > 0,
            r.meeting matches Some(m) ==> m@ == conflict_meeting(
                mission_id@,
                views(results@),
                meeting_id@,
                now,
                fold_case,
            ),
    {
        broadcast use group_views;

        let conflicts = detect_conflicts(results, fold_case);
        if conflicts.len() == 0 {
            return CoordinationOutcome { conflicts, meeting: None };
        }
        let ghost all = views(results@);
        let ghost found = all_conflicts(all, fold_case);
        let mut ids: Vec<String> = Vec::new();
        let mut i: usize = 0;
        while i < results.len()
            invariant
                i <= results.len(),
                all == views(results@),
                ids@.len() == i,
                forall|k: int| 0 <= k < i ==> (#[trigger] ids@[k])@ == all[k].agent_id,
            decreases results.len() - i,
        {
            ids.push(results[i].agent_id.clone());
            i = i + 1;
        }
        assert(texts(ids@) =~= Seq::new(all.len(), |k: int| all[k].agent_id));
        let mut participants = TextSet::of(ids);
        participants.insert("agent:coordinator".to_owned());
        let mut lines: Vec<String> = Vec::new();
        let mut j: usize = 0;
        while j < conflicts.len()
            invariant
                j <= conflicts.len(),
                found == views(conflicts@),
                lines@.len() == j,
                forall|k: int| 0 <= k < j ==> (#[trigger] lines@[k])@ == conflict_text(found[k]),
            decreases conflicts.len() - j,
        {
            lines.push(format_conflict(&conflicts[j]));
            j = j + 1;
        }
        assert(texts(lines@) =~= Seq::new(found.len(), |k: int| conflict_text(found[k])));
        let meeting = MeetingRecord {
            id: meeting_id,
            mission_id,
            topic: "自动检测到子 Agent 方案冲突".to_owned(),
            participants,
            transcript: Vec::new(),
            decisions: Vec::new(),
            conflicts: lines,
            created_at_millis: now,
            closed_at_millis: None,
        };
        CoordinationOutcome { conflicts, meeting: Some(meeting) }
    }
}

} // verus!
