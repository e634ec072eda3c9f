//! Checkpoints of the context: how they are made, found, gone back to and forked from.

use vstd::prelude::*;
use vstd::string::*;

use crate::application::{AppView, HarnessApplication};
use crate::context::{
    successor, CompactionItem, CompactionRecord, CompactionRecordView, ContextKind, ContextSeries,
    ContextTransition, EntryView, SeriesView, TransitionView,
};
use crate::error::{failure, outcome, unit_outcome, ApplicationError, Outcome};
use crate::mission::{MissionState, MissionStatus, MissionView};
use crate::model::{duplicate_all, duplicate_option, group_views, option_view, views, Duplicate};
use crate::profile::ReasoningLevel;
use crate::session::{
    GoalRevision, RevisionView, SessionCommand, SessionCommandView, SessionState, SessionStateView,
};
use crate::text::{same, texts};

verus! {

/// What the context was at some time, and what it was about.
#[derive(Debug, PartialEq, Eq)]
pub struct ContextCheckpoint {
    pub id: String,
    pub name: Option<String>,
    pub session_id: String,
    pub context_series_id: String,
    pub goal_revision_id: Option<String>,
    pub plan_revision: Option<String>,
    pub completed_tasks: Vec<String>,
    pub pending_tasks: Vec<String>,
    pub decision_refs: Vec<String>,
    pub constraint_refs: Vec<String>,
    pub modified_file_refs: Vec<String>,
    pub error_refs: Vec<String>,
    pub memory_refs: Vec<String>,
    pub prompt_fingerprint: String,
    pub created_at_millis: i64,
}

pub struct CheckpointModel {
    pub id: Seq<char>,
    pub name: Option<Seq<char>>,
    pub session_id: Seq<char>,
    pub context_series_id: Seq<char>,
    pub goal_revision_id: Option<Seq<char>>,
    pub plan_revision: Option<Seq<char>>,
    pub completed_tasks: Seq<Seq<char>>,
    pub pending_tasks: Seq<Seq<char>>,
    pub decision_refs: Seq<Seq<char>>,
    pub constraint_refs: Seq<Seq<char>>,
    pub modified_file_refs: Seq<Seq<char>>,
    pub error_refs: Seq<Seq<char>>,
    pub memory_refs: Seq<Seq<char>>,
    pub prompt_fingerprint: Seq<char>,
    pub created_at_millis: i64,
}

impl View for ContextCheckpoint {
    type V = CheckpointModel;

    open spec fn view(&self) -> CheckpointModel {
        CheckpointModel {
            id: self.id@,
            name: option_view(self.name),
            session_id: self.session_id@,
            context_series_id: self.context_series_id@,
            goal_revision_id: option_view(self.goal_revision_id),
            plan_revision: option_view(self.plan_revision),
            completed_tasks: texts(self.completed_tasks@),
            pending_tasks: texts(self.pending_tasks@),
            decision_refs: texts(self.decision_refs@),
            constraint_refs: texts(self.constraint_refs@),
            modified_file_refs: texts(self.modified_file_refs@),
            error_refs: texts(self.error_refs@),
            memory_refs: texts(self.memory_refs@),
            prompt_fingerprint: self.prompt_fingerprint@,
            created_at_millis: self.created_at_millis,
        }
    }
}

impl Duplicate for ContextCheckpoint {
    fn duplicate(&self) -> (r: Self) {
        ContextCheckpoint {
            id: self.id.clone(),
            name: duplicate_option(&self.name),
            session_id: self.session_id.clone(),
            context_series_id: self.context_series_id.clone(),
            goal_revision_id: duplicate_option(&self.goal_revision_id),
            plan_revision: duplicate_option(&self.plan_revision),
            completed_tasks: duplicate_all(&self.completed_tasks),
            pending_tasks: duplicate_all(&self.pending_tasks),
            decision_refs: duplicate_all(&self.decision_refs),
            constraint_refs: duplicate_all(&self.constraint_refs),
            modified_file_refs: duplicate_all(&self.modified_file_refs),
            error_refs: duplicate_all(&self.error_refs),
            memory_refs: duplicate_all(&self.memory_refs),
            prompt_fingerprint: self.prompt_fingerprint.clone(),
            created_at_millis: self.created_at_millis,
        }
    }
}

/// How much is compacted.
#[derive(Clone, Copy, Debug, PartialEq, Eq, Structural)]
pub enum CompactionMode {
    Safe,
    Aggressive,
}

/// What a reset left.
#[derive(Debug, PartialEq, Eq)]
pub struct ContextResetView {
    pub checkpoint_id: String,
    pub previous_series_id: String,
    pub next_series_id: String,
    pub removed_items: usize,
    pub retained_items: usize,
}

pub struct ResetModel {
    pub checkpoint_id: Seq<char>,
    pub previous_series_id: Seq<char>,
    pub next_series_id: Seq<char>,
    pub removed_items: usize,
    pub retained_items: usize,
}

impl View for ContextResetView {
    type V = ResetModel;

    open spec fn view(&self) -> ResetModel {
        ResetModel {
            checkpoint_id: self.checkpoint_id@,
            previous_series_id: self.previous_series_id@,
            next_series_id: self.next_series_id@,
            removed_items: self.removed_items,
            retained_items: self.retained_items,
        }
    }
}

/// A checkpoint as it is shown.
#[derive(Debug, PartialEq, Eq)]
pub struct CheckpointView {
    pub checkpoint_id: String,
    pub context_series_id: String,
    pub created_at_millis: i64,
}

pub struct CheckpointShown {
    pub checkpoint_id: Seq<char>,
    pub context_series_id: Seq<char>,
    pub created_at_millis: i64,
}

impl View for CheckpointView {
    type V = CheckpointShown;

    open spec fn view(&self) -> CheckpointShown {
        CheckpointShown {
            checkpoint_id: self.checkpoint_id@,
            context_series_id: self.context_series_id@,
            created_at_millis: self.created_at_millis,
        }
    }
}

/// A fork as it is shown.
#[derive(Debug, PartialEq, Eq)]
pub struct ForkView {
    pub parent_session_id: String,
    pub child_session_id: String,
    pub checkpoint_id: String,
    pub child_context_series_id: String,
}

pub struct ForkShown {
    pub parent_session_id: Seq<char>,
    pub child_session_id: Seq<char>,
    pub checkpoint_id: Seq<char>,
    pub child_context_series_id: Seq<char>,
}

impl View for ForkView {
    type V = ForkShown;

    open spec fn view(&self) -> ForkShown {
        ForkShown {
            parent_session_id: self.parent_session_id@,
            child_session_id: self.child_session_id@,
            checkpoint_id: self.checkpoint_id@,
            child_context_series_id: self.child_context_series_id@,
        }
    }
}

/// A compaction as it is shown.
#[derive(Debug, PartialEq, Eq)]
pub struct CompactionView {
    pub mode: CompactionMode,
    pub previous_series_id: String,
    pub next_series_id: String,
    pub checkpoint_id: String,
    pub token_cost_before: u32,
    pub token_cost_after: u32,
}

pub struct CompactionShown {
    pub mode: CompactionMode,
    pub previous_series_id: Seq<char>,
    pub next_series_id: Seq<char>,
    pub checkpoint_id: Seq<char>,
    pub token_cost_before: u32,
    pub token_cost_after: u32,
}

impl View for CompactionView {
    type V = CompactionShown;

    open spec fn view(&self) -> CompactionShown {
        CompactionShown {
            mode: self.mode,
            previous_series_id: self.previous_series_id@,
            next_series_id: self.next_series_id@,
            checkpoint_id: self.checkpoint_id@,
            token_cost_before: self.token_cost_before,
            token_cost_after: self.token_cost_after,
        }
    }
}

/// The ids of the items of one kind.
pub open spec fn refs_of(items: Seq<EntryView>, kind: ContextKind) -> Seq<Seq<char>>
    decreases items.len(),
{
    if items.len() == 0 {
        Seq::empty()
    } else {
        let before = refs_of(items.drop_last(), kind);
        if items.last().context.kind == kind {
            before.push(items.last().context.id)
        } else {
            before
        }
    }
}

fn collect_refs(items: &Vec<CompactionItem>, kind: ContextKind) -> (r: Vec<String>)
    ensures
        texts(r@) == refs_of(views(items@), kind),
{
    let ghost all = views(items@);
    let mut r: Vec<String> = Vec::new();
    let mut i: usize = 0;
    assert(all.subrange(0, 0) =~= Seq::empty());
    assert(texts(r@) =~= Seq::empty());
    while i < items.len()
        invariant
            i <= items.len(),
            all == views(items@),
            texts(r@) == refs_of(all.subrange(0, i as int), kind),
        decreases items.len() - i,
    {
        let ghost next = all.subrange(0, i as int + 1);
        let ghost before = texts(r@);
        assert(next.drop_last() =~= all.subrange(0, i as int));
        assert(next.last() == items@[i as int]@);
        if items[i].context.kind == kind {
            r.push(items[i].context.id.clone());
            assert(texts(r@) =~= before.push(next.last().context.id));
        }
        i = i + 1;
    }
    assert(all.subrange(0, all.len() as int) =~= all);
    r
}

/// A checkpoint of the active series.
pub open spec fn checkpoint_of(
    s: AppView,
    session: SessionStateView,
    series: SeriesView,
    name: Option<Seq<char>>,
    id: Seq<char>,
    fingerprint: Seq<char>,
    now: i64,
) -> CheckpointModel {
    CheckpointModel {
        id,
        name,
        session_id: s.session_id,
        context_series_id: series.id,
        goal_revision_id: session.goal.current_revision_id,
        plan_revision: s.active_mission_id,
        completed_tasks: Seq::empty(),
        pending_tasks: Seq::empty(),
        decision_refs: refs_of(series.items, ContextKind::Decision),
        constraint_refs: refs_of(series.items, ContextKind::Constraint),
        modified_file_refs: Seq::empty(),
        error_refs: refs_of(series.items, ContextKind::Error),
        memory_refs: refs_of(series.items, ContextKind::Memory),
        prompt_fingerprint: fingerprint,
        created_at_millis: now,
    }
}

/// What is asked of a compaction: the last `keep_recent` items stay as they are, and what takes the
/// place of the others costs no more than `max_summary_tokens`.
#[derive(Debug, PartialEq, Eq)]
pub struct CompactionRequest {
    pub mode: CompactionMode,
    pub items: Vec<CompactionItem>,
    pub keep_recent: usize,
    pub max_summary_tokens: u32,
    pub series_id: String,
    pub checkpoint: Option<ContextCheckpoint>,
    pub now_millis: i64,
}

pub struct CompactionRequestView {
    pub mode: CompactionMode,
    pub items: Seq<EntryView>,
    pub keep_recent: usize,
    pub max_summary_tokens: u32,
    pub series_id: Seq<char>,
    pub checkpoint: Option<CheckpointModel>,
    pub now_millis: i64,
}

impl View for CompactionRequest {
    type V = CompactionRequestView;

    open spec fn view(&self) -> CompactionRequestView {
        CompactionRequestView {
            mode: self.mode,
            items: views(self.items@),
            keep_recent: self.keep_recent,
            max_summary_tokens: self.max_summary_tokens,
            series_id: self.series_id@,
            checkpoint: option_view(self.checkpoint),
            now_millis: self.now_millis,
        }
    }
}

/// A compaction of the whole of a series; its checkpoint is the way back.
pub fn compaction_request(
    mode: CompactionMode,
    current: &ContextSeries,
    checkpoint: &ContextCheckpoint,
    now: i64,
) -> (r: CompactionRequest)
    ensures
        r@ == (CompactionRequestView {
            mode,
            items: current@.items,
            keep_recent: 2,
            max_summary_tokens: 512,
            series_id: current@.id,
            checkpoint: Some(checkpoint@),
            now_millis: now,
        }),
{
    CompactionRequest {
        mode,
        items: duplicate_all(&current.items),
        keep_recent: 2,
        max_summary_tokens: 512,
        series_id: current.id.clone(),
        checkpoint: Some(checkpoint.duplicate()),
        now_millis: now,
    }
}

/// The step from a series to what its compaction left, with the record of the compaction.
pub open spec fn compaction_step(
    s: AppView,
    current: SeriesView,
    visible_items: Seq<EntryView>,
    record: CompactionRecordView,
    now: i64,
) -> TransitionView {
    TransitionView {
        compaction_record: Some(record),
        ..successor(s, current, None, visible_items, record.next_series_id, now)
    }
}

pub open spec fn compaction_shown(
    mode: CompactionMode,
    checkpoint: CheckpointModel,
    record: CompactionRecordView,
) -> CompactionShown {
    CompactionShown {
        mode,
        previous_series_id: record.previous_series_id,
        next_series_id: record.next_series_id,
        checkpoint_id: checkpoint.id,
        token_cost_before: record.token_cost_before,
        token_cost_after: record.token_cost_after,
    }
}

/// The name of the checkpoint before a compaction.
pub fn compaction_checkpoint_name(mode: CompactionMode) -> (r: &'static str)
    ensures
        r@ == match mode {
            CompactionMode::Safe => "auto-before-safe-compact"@,
            CompactionMode::Aggressive => "auto-before-aggressive-compact"@,
        },
{
    match mode {
        CompactionMode::Safe => "auto-before-safe-compact",
        CompactionMode::Aggressive => "auto-before-aggressive-compact",
    }
}

pub open spec fn has_id(all: Seq<CheckpointModel>, id: Seq<char>) -> bool {
    exists|i: int| 0 <= i < all.len() && (#[trigger] all[i]).id == id
}

/// The first checkpoint with an id.
pub open spec fn first_with_id(all: Seq<CheckpointModel>, id: Seq<char>) -> CheckpointModel
    decreases all.len(),
{
    if all.len() == 0 || all[0].id == id {
        all[0]
    } else {
        first_with_id(all.drop_first(), id)
    }
}

/// The checkpoints of a name.
pub open spec fn named(all: Seq<CheckpointModel>, name: Seq<char>) -> Seq<CheckpointModel>
    decreases all.len(),
{
    if all.len() == 0 {
        Seq::empty()
    } else {
        let before = named(all.drop_last(), name);
        if all.last().name == Some(name) {
            before.push(all.last())
        } else {
            before
        }
    }
}

/// A checkpoint is found by its id, or by its name if no other has it.
pub open spec fn resolved(all: Seq<CheckpointModel>, reference: Seq<char>) -> Outcome<
    CheckpointModel,
> {
    if has_id(all, reference) {
        Outcome::Done(first_with_id(all, reference))
    } else if named(all, reference).len() == 1 {
        Outcome::Done(named(all, reference)[0])
    } else if named(all, reference).len() == 0 {
        failure("checkpoint-not-found"@, "未找到 Checkpoint："@ + reference)
    } else {
        failure(
            "checkpoint-name-ambiguous"@,
            "Checkpoint 名称不唯一，请改用 ID："@ + reference,
        )
    }
}

proof fn lemma_first_with_id(all: Seq<CheckpointModel>, id: Seq<char>, at: int)
    requires
        0 <= at < all.len(),
        all[at].id == id,
        forall|k: int| 0 <= k < at ==> (#[trigger] all[k]).id != id,
    ensures
        first_with_id(all, id) == all[at],
    decreases at,
{
    if at > 0 {
        let rest = all.drop_first();
        assert forall|k: int| 0 <= k < at - 1 implies (#[trigger] rest[k]).id != id by {
            assert(rest[k] == all[k + 1]);
        }
        assert(all[0].id != id);
        lemma_first_with_id(rest, id, at - 1);
    }
}

/// Whether a checkpoint has an id.
pub open spec fn has_checkpoint(all: Seq<CheckpointModel>, id: Seq<char>) -> bool {
    exists|i: int| 0 <= i < all.len() && (#[trigger] all[i]).id == id
}

fn place_of_checkpoint(checkpoints: &Vec<ContextCheckpoint>, id: &str) -> (r: Option<usize>)
    ensures
        r is Some <==> has_checkpoint(views(checkpoints@), id@),
        r matches Some(at) ==> at < checkpoints@.len() && checkpoints@[at as int]@ == first_with_id(
            views(checkpoints@),
            id@,
        ) && checkpoints@[at as int]@.id == id@,
{
    let ghost all = views(checkpoints@);
    let mut i: usize = 0;
    while i < checkpoints.len()
        invariant
            i <= checkpoints.len(),
            all == views(checkpoints@),
            forall|k: int| 0 <= k < i ==> (#[trigger] all[k]).id != id@,
        decreases checkpoints.len() - i,
    {
        assert(all[i as int] == checkpoints@[i as int]@);
        if same(checkpoints[i].id.as_str(), id) {
            proof {
                lemma_first_with_id(all, id@, i as int);
            }
            return Some(i);
        }
        i = i + 1;
    }
    None
}

/// Going back to a checkpoint: what it points at becomes the context again, in a new series. A
/// checkpoint or a series that is not there is an error.
pub open spec fn rollback_step(
    s: AppView,
    checkpoints: Seq<CheckpointModel>,
    checkpoint_id: Seq<char>,
    source: Option<SeriesView>,
    current: Option<SeriesView>,
    series_id: Seq<char>,
    now: i64,
) -> Outcome<TransitionView> {
    if !has_checkpoint(checkpoints, checkpoint_id) {
        failure("checkpoint-not-found"@, "未找到 Checkpoint："@ + checkpoint_id)
    } else {
        match (source, current) {
            (None, _) => failure(
                "checkpoint-series-not-found"@,
                first_with_id(checkpoints, checkpoint_id).context_series_id,
            ),
            (Some(_), None) => failure(
                "context-series-missing"@,
                "Session 尚未建立活动 Context Series"@,
            ),
            (Some(source), Some(current)) => Outcome::Done(
                successor(s, current, Some(checkpoint_id), source.items, series_id, now),
            ),
        }
    }
}

/// The series that are stored of a session, which of them is in use, and the compactions that are
/// on record.
pub struct ContextsView {
    pub stored: Map<Seq<char>, SeriesView>,
    pub active: Option<Seq<char>>,
    pub compactions: Seq<CompactionRecordView>,
}

/// The series after a step: a step that expects another series to be in use is not taken.
pub open spec fn committed(contexts: ContextsView, step: TransitionView) -> ContextsView {
    if contexts.active == step.expected_active_series_id {
        ContextsView {
            stored: contexts.stored.insert(step.next_series.id, step.next_series),
            active: Some(step.next_series.id),
            compactions: match step.compaction_record {
                Some(record) => contexts.compactions.push(record),
                None => contexts.compactions,
            },
        }
    } else {
        contexts
    }
}

/// The series after a step that may have been refused.
pub open spec fn after_step(contexts: ContextsView, step: Outcome<TransitionView>) -> ContextsView {
    match step {
        Outcome::Done(step) => committed(contexts, step),
        Outcome::Failed(_) => contexts,
    }
}

/// Finds a checkpoint by its id or by its name.
pub fn resolve_checkpoint(checkpoints: &Vec<ContextCheckpoint>, reference: &str) -> (r: Result<
    ContextCheckpoint,
    ApplicationError,
>)
    ensures
        outcome(r) == resolved(views(checkpoints@), reference@),
{
    broadcast use group_views;

    let ghost all = views(checkpoints@);
    if let Some(at) = place_of_checkpoint(checkpoints, reference) {
        return Ok(checkpoints[at].duplicate());
    }
    let mut count: usize = 0;
    let mut found: usize = 0;
    let mut j: usize = 0;
    assert(all.subrange(0, 0) =~= Seq::empty());
    while j < checkpoints.len()
        invariant
            j <= checkpoints.len(),
            all == views(checkpoints@),
            count <= j,
            count == named(all.subrange(0, j as int), reference@).len(),
            count > 0 ==> found < checkpoints.len() && named(
                all.subrange(0, j as int),
                reference@,
            ).last() == all[found as int],
        decreases checkpoints.len() - j,
    {
        let ghost next = all.subrange(0, j as int + 1);
        assert(next.drop_last() =~= all.subrange(0, j as int));
        assert(next.last() == checkpoints@[j as int]@);
        let hit = match &checkpoints[j].name {
            Some(name) => same(name.as_str(), reference),
            None => false,
        };
        if hit {
            count = count + 1;
            found = j;
        }
        j = j + 1;
    }
    assert(all.subrange(0, all.len() as int) =~= all);
    if count == 1 {
        assert(all[found as int] == checkpoints@[found as int]@);
        Ok(checkpoints[found].duplicate())
    } else if count == 0 {
        let mut message: String = "未找到 Checkpoint：".to_string();
        message.append(reference);
        Err(ApplicationError::new("checkpoint-not-found", message.as_str()))
    } else {
        let mut message: String = "Checkpoint 名称不唯一，请改用 ID：".to_string();
        message.append(reference);
        Err(ApplicationError::new("checkpoint-name-ambiguous", message.as_str()))
    }
}

/// What a reset keeps: the goal, and what is required.
pub open spec fn is_retained(e: EntryView) -> bool {
    e.context.kind == ContextKind::Goal || e.context.hard_required
}

pub open spec fn retained(items: Seq<EntryView>) -> Seq<EntryView>
    decreases items.len(),
{
    if items.len() == 0 {
        Seq::empty()
    } else {
        let before = retained(items.drop_last());
        if is_retained(items.last()) {
            before.push(items.last())
        } else {
            before
        }
    }
}

pub open spec fn reset_shown(
    checkpoint_id: Seq<char>,
    current: SeriesView,
    next_id: Seq<char>,
) -> ResetModel {
    let kept = retained(current.items).len();
    ResetModel {
        checkpoint_id,
        previous_series_id: current.id,
        next_series_id: next_id,
        removed_items: (current.items.len() - kept) as usize,
        retained_items: kept as usize,
    }
}

proof fn lemma_retained(items: Seq<EntryView>)
    ensures
        retained(items).len() <= items.len(),
    decreases items.len(),
{
    if items.len() > 0 {
        lemma_retained(items.drop_last());
    }
}

/// A reset keeps every goal and everything that is required, and nothing else.
pub proof fn law_reset_keeps_what_is_required(items: Seq<EntryView>, e: EntryView)
    ensures
        retained(items).contains(e) <==> items.contains(e) && is_retained(e),
    decreases items.len(),
{
    if items.len() > 0 {
        let rest = items.drop_last();
        law_reset_keeps_what_is_required(rest, e);
        let before = retained(rest);
        if items.contains(e) {
            let k = items.index_of(e);
            if k < items.len() - 1 {
                assert(rest[k] == e);
            }
        }
        if rest.contains(e) {
            let k = rest.index_of(e);
            assert(items[k] == e);
        }
        if is_retained(items.last()) {
            let after = before.push(items.last());
            assert(after.last() == items.last());
            if before.contains(e) {
                let k = before.index_of(e);
                assert(after[k] == e);
            }
            if after.contains(e) {
                let k = after.index_of(e);
                if k < before.len() {
                    assert(before[k] == e);
                } else {
                    assert(items[items.len() - 1] == e);
                }
            }
            if items.last() == e {
                assert(after[after.len() - 1] == e);
            }
        }
    }
}

/// Whether a reset has to wait: work is under way.
pub open spec fn reset_check(s: AppView, mission: Option<MissionView>) -> Outcome<()> {
    if s.active_mission_id is Some && (mission matches Some(m) && m.status is Running) {
        failure(
            "reset-active-mission"@,
            "活动 Mission 运行或等待审批时不能 reset；请先完成或取消"@,
        )
    } else {
        Outcome::Done(())
    }
}

/// The commands that make a child of a session at a checkpoint: it gets the model and the reasoning
/// of its parent, and the goal that the parent had at the checkpoint.
pub open spec fn fork_commands(
    s: AppView,
    parent: SessionStateView,
    checkpoint: CheckpointModel,
    child_id: Seq<char>,
    goal_id: Seq<char>,
    now: i64,
) -> Seq<SessionCommandView> {
    let fork = seq![
        SessionCommandView::ForkSession {
            child_session_id: child_id,
            project_id: s.project_id,
            parent_session_id: s.session_id,
            checkpoint_id: checkpoint.id,
        },
    ];
    let model = match (parent.model.provider_id, parent.model.model_id) {
        (Some(provider_id), Some(model_id)) => fork.push(
            SessionCommandView::SelectModel { provider_id, model_id },
        ),
        _ => fork,
    };
    let reasoning = if parent.model.reasoning != ReasoningLevel::Off {
        model.push(SessionCommandView::SetReasoning { reasoning: parent.model.reasoning })
    } else {
        model
    };
    match goal_at(parent, checkpoint) {
        Some(text) => reasoning.push(
            SessionCommandView::ReviseGoal {
                revision: RevisionView {
                    id: goal_id,
                    parent_revision_id: None,
                    text,
                    created_by: "system:session-fork"@,
                    reason: "fork-from:"@ + checkpoint.id,
                    created_at_millis: now,
                },
            },
        ),
        None => reasoning,
    }
}

/// The goal that a session had at a checkpoint.
pub open spec fn goal_at(parent: SessionStateView, checkpoint: CheckpointModel) -> Option<Seq<char>> {
    match checkpoint.goal_revision_id {
        Some(id) => if parent.goal.revisions.contains_key(id) {
            Some(parent.goal.revisions[id].text)
        } else {
            None
        },
        None => None,
    }
}

pub open spec fn child_exists<T>(child_id: Seq<char>) -> Outcome<T> {
    failure("session-exists"@, "Child Session 已存在："@ + child_id)
}

/// How a session without a series gets its first one.
#[derive(Debug, PartialEq, Eq)]
pub enum FirstSeries {
    /// An empty one.
    Fresh,
    /// The one of a checkpoint of another session.
    Fork { parent_session_id: String, checkpoint_id: String },
}

pub enum FirstSeriesView {
    Fresh,
    Fork { parent_session_id: Seq<char>, checkpoint_id: Seq<char> },
}

impl View for FirstSeries {
    type V = FirstSeriesView;

    open spec fn view(&self) -> FirstSeriesView {
        match *self {
            FirstSeries::Fresh => FirstSeriesView::Fresh,
            FirstSeries::Fork { parent_session_id, checkpoint_id } => FirstSeriesView::Fork {
                parent_session_id: parent_session_id@,
                checkpoint_id: checkpoint_id@,
            },
        }
    }
}

/// A session that was forked must know from what; a half of it is not enough.
pub open spec fn first_series(session: SessionStateView) -> Outcome<FirstSeriesView> {
    match (session.parent_session_id, session.forked_from_checkpoint_id) {
        (Some(parent_session_id), Some(checkpoint_id)) => Outcome::Done(
            FirstSeriesView::Fork { parent_session_id, checkpoint_id },
        ),
        (None, None) => Outcome::Done(FirstSeriesView::Fresh),
        _ => failure(
            "incomplete-session-lineage"@,
            "Session fork lineage 不完整，拒绝创建错误的空 Context"@,
        ),
    }
}

/// Decides how a session without a series gets its first one.
pub fn ensure_context_series(session: &SessionState) -> (r: Result<FirstSeries, ApplicationError>)
    ensures
        outcome(r) == first_series(session@),
{
    match (&session.parent_session_id, &session.forked_from_checkpoint_id) {
        (Some(parent_session_id), Some(checkpoint_id)) => Ok(
            FirstSeries::Fork {
                parent_session_id: parent_session_id.clone(),
                checkpoint_id: checkpoint_id.clone(),
            },
        ),
        (None, None) => Ok(FirstSeries::Fresh),
        _ => Err(
            ApplicationError::new(
                "incomplete-session-lineage",
                "Session fork lineage 不完整，拒绝创建错误的空 Context",
            ),
        ),
    }
}

impl HarnessApplication {
    /// Makes a checkpoint of the active series.
    pub fn create_checkpoint_record(
        &self,
        session: &SessionState,
        series: &ContextSeries,
        name: Option<String>,
        id: &str,
        prompt_fingerprint: &str,
        now: i64,
    ) -> (r: ContextCheckpoint)
        ensures
            r@ == checkpoint_of(
                self@,
                session@,
                series@,
                option_view(name),
                id@,
                prompt_fingerprint@,
                now,
            ),
    {
        let r = ContextCheckpoint {
            id: id.to_string(),
            name,
            session_id: self.session_id.clone(),
            context_series_id: series.id.clone(),
            goal_revision_id: duplicate_option(&session.goal.current_revision_id),
            plan_revision: duplicate_option(&self.active_mission_id),
            completed_tasks: Vec::new(),
            pending_tasks: Vec::new(),
            decision_refs: collect_refs(&series.items, ContextKind::Decision),
            constraint_refs: collect_refs(&series.items, ContextKind::Constraint),
            modified_file_refs: Vec::new(),
            error_refs: collect_refs(&series.items, ContextKind::Error),
            memory_refs: collect_refs(&series.items, ContextKind::Memory),
            prompt_fingerprint: prompt_fingerprint.to_string(),
            created_at_millis: now,
        };
        assert(r@.completed_tasks =~= Seq::empty());
        assert(r@.pending_tasks =~= Seq::empty());
        assert(r@.modified_file_refs =~= Seq::empty());
        r
    }

    /// The step back to what the context was at a checkpoint: `source` is the series that the
    /// checkpoint points at and `current` the one that is in use, where they are stored. What came
    /// after the checkpoint stays on record.
    pub fn rollback(
        &self,
        checkpoints: &Vec<ContextCheckpoint>,
        checkpoint_id: &str,
        source: Option<&ContextSeries>,
        current: Option<&ContextSeries>,
        series_id: &str,
        now: i64,
    ) -> (r: Result<ContextTransition, ApplicationError>)
        ensures
            outcome(r) == rollback_step(
                self@,
                views(checkpoints@),
                checkpoint_id@,
                option_view(source),
                option_view(current),
                series_id@,
                now,
            ),
    {
        broadcast use group_views;

        let at = match place_of_checkpoint(checkpoints, checkpoint_id) {
            Some(at) => at,
            None => {
                return Err(checkpoint_missing(checkpoint_id));
            },
        };
        let checkpoint = &checkpoints[at];
        let source = match source {
            Some(source) => source,
            None => {
                return Err(
                    ApplicationError::new(
                        "checkpoint-series-not-found",
                        checkpoint.context_series_id.as_str(),
                    ),
                );
            },
        };
        let current = match current {
            Some(current) => current,
            None => {
                return Err(
                    ApplicationError::new(
                        "context-series-missing",
                        "Session 尚未建立活动 Context Series",
                    ),
                );
            },
        };
        Ok(
            ContextTransition {
                expected_active_series_id: Some(current.id.clone()),
                next_series: ContextSeries {
                    id: series_id.to_string(),
                    session_id: self.session_id.clone(),
                    parent_series_id: Some(current.id.clone()),
                    restored_from_checkpoint_id: Some(checkpoint.id.clone()),
                    items: duplicate_all(&source.items),
                    created_at_millis: now,
                },
                compaction_record: None,
            },
        )
    }

    /// The step to a compacted context: `visible_items` is what the compaction left, and `record`
    /// what it says of itself.
    pub fn compact(
        &self,
        mode: CompactionMode,
        current: &ContextSeries,
        checkpoint: &ContextCheckpoint,
        visible_items: Vec<CompactionItem>,
        record: CompactionRecord,
        now: i64,
    ) -> (r: (ContextTransition, CompactionView))
        ensures
            r.0@ == compaction_step(self@, current@, views(visible_items@), record@, now),
            r.1@ == compaction_shown(mode, checkpoint@, record@),
    {
        let view = CompactionView {
            mode,
            previous_series_id: record.previous_series_id.clone(),
            next_series_id: record.next_series_id.clone(),
            checkpoint_id: checkpoint.id.clone(),
            token_cost_before: record.token_cost_before,
            token_cost_after: record.token_cost_after,
        };
        let mut transition = self.commit_context_items(
            current,
            visible_items,
            record.next_series_id.as_str(),
            now,
        );
        transition.compaction_record = Some(record);
        (transition, view)
    }

    /// Whether the context may be reset.
    pub fn check_reset(&self, mission: Option<&MissionState>) -> (r: Result<(), ApplicationError>)
        ensures
            unit_outcome(r) == reset_check(
                self@,
                match mission {
                    Some(m) => Some(m@),
                    None => None,
                },
            ),
    {
        match (&self.active_mission_id, mission) {
            (Some(_), Some(state)) => if state.status == MissionStatus::Running {
                Err(
                    ApplicationError::new(
                        "reset-active-mission",
                        "活动 Mission 运行或等待审批时不能 reset；请先完成或取消",
                    ),
                )
            } else {
                Ok(())
            },
            _ => Ok(()),
        }
    }

    /// The step to a context with what a reset keeps.
    pub fn reset_context(
        &self,
        current: &ContextSeries,
        checkpoint_id: &str,
        series_id: &str,
        now: i64,
    ) -> (r: (ContextTransition, ContextResetView))
        ensures
            r.0@ == successor(self@, current@, None, retained(current@.items), series_id@, now),
            r.1@ == reset_shown(checkpoint_id@, current@, series_id@),
    {
        broadcast use group_views;

        let ghost all = current@.items;
        let mut items: Vec<CompactionItem> = Vec::new();
        let mut i: usize = 0;
        assert(all.subrange(0, 0) =~= Seq::empty());
        assert(views(items@) =~= Seq::empty());
        while i < current.items.len()
            invariant
                i <= current.items.len(),
                all == views(current.items@),
                views(items@) == retained(all.subrange(0, i as int)),
            decreases current.items.len() - i,
        {
            broadcast use group_views;

            let ghost next = all.subrange(0, i as int + 1);
            assert(next.drop_last() =~= all.subrange(0, i as int));
            assert(next.last() == current.items@[i as int]@);
            if current.items[i].context.kind == ContextKind::Goal
                || current.items[i].context.hard_required {
                items.push(current.items[i].duplicate());
            }
            i = i + 1;
        }
        assert(all.subrange(0, all.len() as int) =~= all);
        proof {
            lemma_retained(all);
        }
        assert(views(items@).len() == items@.len());
        assert(all.len() == current.items@.len());
        let kept: usize = items.len();
        let view = ContextResetView {
            checkpoint_id: checkpoint_id.to_string(),
            previous_series_id: current.id.clone(),
            next_series_id: series_id.to_string(),
            removed_items: current.items.len() - kept,
            retained_items: kept,
        };
        (self.commit_context_items(current, items, series_id, now), view)
    }

    /// No mission is active any more.
    pub fn leave_mission(&mut self)
        ensures
            final(self)@ == (AppView { active_mission_id: None, ..old(self)@ }),
    {
        self.active_mission_id = None;
    }

    /// The commands that make a child session; refused if there is a session of that id.
    pub fn fork_session(
        &self,
        parent: &SessionState,
        checkpoint: &ContextCheckpoint,
        child_session_id: &str,
        taken: bool,
        goal_id: &str,
        now: i64,
    ) -> (r: Result<Vec<SessionCommand>, ApplicationError>)
        ensures
            (match r {
                Ok(commands) => Outcome::Done(views(commands@)),
                Err(error) => Outcome::Failed(error@),
            }) == if taken {
                child_exists(child_session_id@)
            } else {
                Outcome::Done(
                    fork_commands(
                        self@,
                        parent@,
                        checkpoint@,
                        child_session_id@,
                        goal_id@,
                        now,
                    ),
                )
            },
    {
        broadcast use group_views;

        if taken {
            let mut message: String = "Child Session 已存在：".to_string();
            message.append(child_session_id);
            return Err(ApplicationError::new("session-exists", message.as_str()));
        }
        let mut commands: Vec<SessionCommand> = vec![
            SessionCommand::ForkSession {
                child_session_id: child_session_id.to_string(),
                project_id: self.project_id.clone(),
                parent_session_id: self.session_id.clone(),
                checkpoint_id: checkpoint.id.clone(),
            },
        ];
        assert(views(commands@) =~= seq![
            SessionCommandView::ForkSession {
                child_session_id: child_session_id@,
                project_id: self@.project_id,
                parent_session_id: self@.session_id,
                checkpoint_id: checkpoint@.id,
            },
        ]);
        match (&parent.model.provider_id, &parent.model.model_id) {
            (Some(provider_id), Some(model_id)) => {
                commands.push(
                    SessionCommand::SelectModel {
                        provider_id: provider_id.clone(),
                        model_id: model_id.clone(),
                    },
                );
            },
            _ => {},
        }
        if parent.model.reasoning != ReasoningLevel::Off {
            commands.push(SessionCommand::SetReasoning { reasoning: parent.model.reasoning });
        }
        match &checkpoint.goal_revision_id {
            Some(id) => match parent.goal.revisions.get(id.as_str()) {
                Some(goal) => {
                    let mut reason: String = "fork-from:".to_string();
                    reason.append(checkpoint.id.as_str());
                    commands.push(
                        SessionCommand::ReviseGoal {
                            revision: GoalRevision {
                                id: goal_id.to_string(),
                                parent_revision_id: None,
                                text: goal.text.clone(),
                                created_by: "system:session-fork".to_string(),
                                reason,
                                created_at_millis: now,
                            },
                        },
                    );
                },
                None => {},
            },
            None => {},
        }
        Ok(commands)
    }
}

/// Shows a checkpoint.
pub fn create_checkpoint(checkpoint: &ContextCheckpoint) -> (r: CheckpointView)
    ensures
        r@ == (CheckpointShown {
            checkpoint_id: checkpoint@.id,
            context_series_id: checkpoint@.context_series_id,
            created_at_millis: checkpoint@.created_at_millis,
        }),
{
    CheckpointView {
        checkpoint_id: checkpoint.id.clone(),
        context_series_id: checkpoint.context_series_id.clone(),
        created_at_millis: checkpoint.created_at_millis,
    }
}

/// The error when a checkpoint is not there.
pub fn checkpoint_missing(checkpoint_id: &str) -> (r: ApplicationError)
    ensures
        r@ == (crate::error::ErrorView {
            code: "checkpoint-not-found"@,
            message: "未找到 Checkpoint："@ + checkpoint_id@,
        }),
{
    let mut message: String = "未找到 Checkpoint：".to_string();
    message.append(checkpoint_id);
    ApplicationError::new("checkpoint-not-found", message.as_str())
}

/// A series stays as it was stored, whatever step comes after it under an id of its own.
pub proof fn law_series_stay_on_record(
    contexts: ContextsView,
    step: TransitionView,
    id: Seq<char>,
)
    requires
        !contexts.stored.contains_key(step.next_series.id),
        contexts.stored.contains_key(id),
    ensures
        committed(contexts, step).stored.contains_key(id),
        committed(contexts, step).stored[id] == contexts.stored[id],
{
}

/// A compaction puts a series with what it left in the place of the one in use, which stays stored
/// as it was, and it is on record.
pub proof fn law_compaction_is_on_record(
    s: AppView,
    contexts: ContextsView,
    visible_items: Seq<EntryView>,
    record: CompactionRecordView,
    now: i64,
)
    requires
        contexts.active matches Some(active) && contexts.stored.contains_key(active)
            && contexts.stored[active].id == active,
        !contexts.stored.contains_key(record.next_series_id),
    ensures
        ({
            let active = contexts.active->Some_0;
            let current = contexts.stored[active];
            let after = committed(contexts, compaction_step(s, current, visible_items, record, now));
            &&& after.active == Some(record.next_series_id)
            &&& after.stored[record.next_series_id].items == visible_items
            &&& after.stored[record.next_series_id].parent_series_id == Some(active)
            &&& after.stored[active] == current
            &&& after.compactions == contexts.compactions.push(record)
        }),
{
}

/// Going back to a checkpoint makes what the context was when the checkpoint was made the context
/// again, whatever came since: the items are those of the series of that time, as many as they were.
/// They stand in a series with an id of its own, and both that series of that time and the one that
/// was in use stay stored as they were.
pub proof fn law_rollback_restores_the_context(
    s: AppView,
    session: SessionStateView,
    series: SeriesView,
    name: Option<Seq<char>>,
    id: Seq<char>,
    fingerprint: Seq<char>,
    made: i64,
    checkpoints: Seq<CheckpointModel>,
    at: int,
    contexts: ContextsView,
    next_id: Seq<char>,
    now: i64,
)
    requires
        0 <= at < checkpoints.len(),
        checkpoints[at] == checkpoint_of(s, session, series, name, id, fingerprint, made),
        contexts.stored.contains_key(series.id),
        contexts.stored[series.id] == series,
        contexts.active matches Some(active) && contexts.stored.contains_key(active)
            && contexts.stored[active].id == active,
        !contexts.stored.contains_key(next_id),
    ensures
        ({
            let active = contexts.active->Some_0;
            let current = contexts.stored[active];
            let after = after_step(
                contexts,
                rollback_step(s, checkpoints, id, Some(series), Some(current), next_id, now),
            );
            let restored = after.stored[next_id];
            &&& checkpoints[at].context_series_id == series.id
            &&& after.active == Some(next_id)
            &&& after.stored.contains_key(next_id)
            &&& next_id != series.id
            &&& next_id != active
            &&& restored.id == next_id
            &&& restored.items == series.items
            &&& restored.items.len() == series.items.len()
            &&& restored.restored_from_checkpoint_id == Some(id)
            &&& restored.parent_series_id == Some(active)
            &&& after.stored[series.id] == series
            &&& after.stored[active] == current
        }),
{
    assert(checkpoints[at].id == id);
}

/// A checkpoint that is not there cannot be gone back to, and trying to changes nothing.
pub proof fn law_unknown_checkpoints_are_refused(
    s: AppView,
    checkpoints: Seq<CheckpointModel>,
    id: Seq<char>,
    source: Option<SeriesView>,
    current: Option<SeriesView>,
    contexts: ContextsView,
    next_id: Seq<char>,
    now: i64,
)
    requires
        forall|i: int| 0 <= i < checkpoints.len() ==> (#[trigger] checkpoints[i]).id != id,
    ensures
        ({
            let step = rollback_step(s, checkpoints, id, source, current, next_id, now);
            &&& step == failure::<TransitionView>(
                "checkpoint-not-found"@,
                "未找到 Checkpoint："@ + id,
            )
            &&& after_step(contexts, step) == contexts
        }),
{
}

/// A checkpoint is found again by its id, whatever the others are called.
pub proof fn law_checkpoints_are_found_by_id(all: Seq<CheckpointModel>, at: int)
    requires
        0 <= at < all.len(),
        forall|k: int| 0 <= k < at ==> (#[trigger] all[k]).id != all[at].id,
    ensures
        resolved(all, all[at].id) == Outcome::Done(all[at]),
{
    lemma_first_with_id(all, all[at].id, at);
}

} // verus!
