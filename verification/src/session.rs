//! A session: its goal, the model it works with, and the commands that change them.

use vstd::prelude::*;
use vstd::string::*;

use crate::application::{AppView, HarnessApplication};
use crate::error::{failure, outcome, ApplicationError, Outcome};
use crate::mission::{EventView, HarnessEvent};
use crate::model::{duplicate_option, option_view, views, Duplicate};
use crate::ordered::{in_order, TextMap};
use crate::profile::ReasoningLevel;
use crate::sorting::{by_rank, law_sorting_orders_the_items, sorted, Ranked};
use crate::text::{
    lemma_text_less_irreflexive, lemma_text_less_total, lemma_text_less_transitive, less, same,
    text_less,
};

verus! {

/// How a model meets the reasoning that was asked for.
#[derive(Clone, Copy, Debug, PartialEq, Eq, Structural)]
pub enum ReasoningMapping {
    Exact,
    ClampedDown,
    ClampedUp,
    UnsupportedIgnored,
}

/// A goal as it was set at some time.
#[derive(Debug, PartialEq, Eq)]
pub struct GoalRevision {
    pub id: String,
    pub parent_revision_id: Option<String>,
    pub text: String,
    pub created_by: String,
    pub reason: String,
    pub created_at_millis: i64,
}

pub struct RevisionView {
    pub id: Seq<char>,
    pub parent_revision_id: Option<Seq<char>>,
    pub text: Seq<char>,
    pub created_by: Seq<char>,
    pub reason: Seq<char>,
    pub created_at_millis: i64,
}

impl View for GoalRevision {
    type V = RevisionView;

    open spec fn view(&self) -> RevisionView {
        RevisionView {
            id: self.id@,
            parent_revision_id: option_view(self.parent_revision_id),
            text: self.text@,
            created_by: self.created_by@,
            reason: self.reason@,
            created_at_millis: self.created_at_millis,
        }
    }
}

impl Duplicate for GoalRevision {
    fn duplicate(&self) -> (r: Self) {
        GoalRevision {
            id: self.id.clone(),
            parent_revision_id: duplicate_option(&self.parent_revision_id),
            text: self.text.clone(),
            created_by: self.created_by.clone(),
            reason: self.reason.clone(),
            created_at_millis: self.created_at_millis,
        }
    }
}

/// The goals that a session had, and the one that it has.
#[derive(Debug, PartialEq, Eq)]
pub struct GoalState {
    pub current_revision_id: Option<String>,
    pub revisions: TextMap<GoalRevision>,
    pub locked: bool,
}

pub struct GoalView {
    pub current_revision_id: Option<Seq<char>>,
    pub revisions: Map<Seq<char>, RevisionView>,
    pub locked: bool,
}

impl View for GoalState {
    type V = GoalView;

    open spec fn view(&self) -> GoalView {
        GoalView {
            current_revision_id: option_view(self.current_revision_id),
            revisions: self.revisions@,
            locked: self.locked,
        }
    }
}

/// The model that a session works with.
#[derive(Debug, PartialEq, Eq)]
pub struct SessionModel {
    pub provider_id: Option<String>,
    pub model_id: Option<String>,
    pub reasoning: ReasoningLevel,
}

pub struct SessionModelView {
    pub provider_id: Option<Seq<char>>,
    pub model_id: Option<Seq<char>>,
    pub reasoning: ReasoningLevel,
}

impl View for SessionModel {
    type V = SessionModelView;

    open spec fn view(&self) -> SessionModelView {
        SessionModelView {
            provider_id: option_view(self.provider_id),
            model_id: option_view(self.model_id),
            reasoning: self.reasoning,
        }
    }
}

/// A session.
#[derive(Debug, PartialEq, Eq)]
pub struct SessionState {
    pub session_id: String,
    pub status: String,
    pub version: u64,
    pub goal: GoalState,
    pub model: SessionModel,
    pub settings: TextMap<String>,
    pub parent_session_id: Option<String>,
    pub forked_from_checkpoint_id: Option<String>,
}

pub struct SessionStateView {
    pub session_id: Seq<char>,
    pub status: Seq<char>,
    pub version: u64,
    pub goal: GoalView,
    pub model: SessionModelView,
    pub settings: Map<Seq<char>, Seq<char>>,
    pub parent_session_id: Option<Seq<char>>,
    pub forked_from_checkpoint_id: Option<Seq<char>>,
}

impl View for SessionState {
    type V = SessionStateView;

    open spec fn view(&self) -> SessionStateView {
        SessionStateView {
            session_id: self.session_id@,
            status: self.status@,
            version: self.version,
            goal: self.goal@,
            model: self.model@,
            settings: self.settings@,
            parent_session_id: option_view(self.parent_session_id),
            forked_from_checkpoint_id: option_view(self.forked_from_checkpoint_id),
        }
    }
}

/// What is to be done to a session.
#[derive(Debug, PartialEq, Eq)]
pub enum SessionCommand {
    CreateSession { session_id: String, project_id: String },
    ForkSession { child_session_id: String, project_id: String, parent_session_id: String, checkpoint_id: String },
    ReviseGoal { revision: GoalRevision },
    ClearGoal { reason: String },
    SetGoalLock { locked: bool },
    SelectModel { provider_id: String, model_id: String },
    SetReasoning { reasoning: ReasoningLevel },
    SetSetting { key: String, value: String },
    ClearSetting { key: String },
}

pub enum SessionCommandView {
    CreateSession { session_id: Seq<char>, project_id: Seq<char> },
    ForkSession { child_session_id: Seq<char>, project_id: Seq<char>, parent_session_id: Seq<char>, checkpoint_id: Seq<char> },
    ReviseGoal { revision: RevisionView },
    ClearGoal { reason: Seq<char> },
    SetGoalLock { locked: bool },
    SelectModel { provider_id: Seq<char>, model_id: Seq<char> },
    SetReasoning { reasoning: ReasoningLevel },
    SetSetting { key: Seq<char>, value: Seq<char> },
    ClearSetting { key: Seq<char> },
}

impl View for SessionCommand {
    type V = SessionCommandView;

    open spec fn view(&self) -> SessionCommandView {
        match *self {
            SessionCommand::CreateSession { session_id, project_id } => SessionCommandView::CreateSession {
                session_id: session_id@,
                project_id: project_id@,
            },
            SessionCommand::ForkSession { child_session_id, project_id, parent_session_id, checkpoint_id } => SessionCommandView::ForkSession {
                child_session_id: child_session_id@,
                project_id: project_id@,
                parent_session_id: parent_session_id@,
                checkpoint_id: checkpoint_id@,
            },
            SessionCommand::ReviseGoal { revision } => SessionCommandView::ReviseGoal {
                revision: revision@,
            },
            SessionCommand::ClearGoal { reason } => SessionCommandView::ClearGoal {
                reason: reason@,
            },
            SessionCommand::SetGoalLock { locked } => SessionCommandView::SetGoalLock {
                locked,
            },
            SessionCommand::SelectModel { provider_id, model_id } => SessionCommandView::SelectModel {
                provider_id: provider_id@,
                model_id: model_id@,
            },
            SessionCommand::SetReasoning { reasoning } => SessionCommandView::SetReasoning {
                reasoning,
            },
            SessionCommand::SetSetting { key, value } => SessionCommandView::SetSetting {
                key: key@,
                value: value@,
            },
            SessionCommand::ClearSetting { key } => SessionCommandView::ClearSetting {
                key: key@,
            },
        }
    }
}

/// The model as it is set up.
#[derive(Debug, PartialEq, Eq)]
pub struct ModelRuntimeView {
    pub provider_id: String,
    pub model_id: String,
    pub reasoning_requested: ReasoningLevel,
    pub reasoning_effective: Option<ReasoningLevel>,
    pub reasoning_mapping: ReasoningMapping,
    pub context_window_tokens: u32,
    pub max_output_tokens: u32,
    pub tool_calling: bool,
    pub structured_output: bool,
}

pub struct RuntimeView {
    pub provider_id: Seq<char>,
    pub model_id: Seq<char>,
    pub reasoning_requested: ReasoningLevel,
    pub reasoning_effective: Option<ReasoningLevel>,
    pub reasoning_mapping: ReasoningMapping,
    pub context_window_tokens: u32,
    pub max_output_tokens: u32,
    pub tool_calling: bool,
    pub structured_output: bool,
}

impl View for ModelRuntimeView {
    type V = RuntimeView;

    open spec fn view(&self) -> RuntimeView {
        RuntimeView {
            provider_id: self.provider_id@,
            model_id: self.model_id@,
            reasoning_requested: self.reasoning_requested,
            reasoning_effective: self.reasoning_effective,
            reasoning_mapping: self.reasoning_mapping,
            context_window_tokens: self.context_window_tokens,
            max_output_tokens: self.max_output_tokens,
            tool_calling: self.tool_calling,
            structured_output: self.structured_output,
        }
    }
}

/// The model as it is shown.
#[derive(Debug, PartialEq, Eq)]
pub struct ModelView {
    pub provider_id: String,
    pub model_id: String,
    pub reasoning_requested: ReasoningLevel,
    pub reasoning_effective: Option<ReasoningLevel>,
    pub reasoning_mapping: ReasoningMapping,
    pub context_window_tokens: u32,
    pub max_output_tokens: u32,
    pub tool_calling: bool,
    pub structured_output: bool,
}

pub struct ModelModel {
    pub provider_id: Seq<char>,
    pub model_id: Seq<char>,
    pub reasoning_requested: ReasoningLevel,
    pub reasoning_effective: Option<ReasoningLevel>,
    pub reasoning_mapping: ReasoningMapping,
    pub context_window_tokens: u32,
    pub max_output_tokens: u32,
    pub tool_calling: bool,
    pub structured_output: bool,
}

impl View for ModelView {
    type V = ModelModel;

    open spec fn view(&self) -> ModelModel {
        ModelModel {
            provider_id: self.provider_id@,
            model_id: self.model_id@,
            reasoning_requested: self.reasoning_requested,
            reasoning_effective: self.reasoning_effective,
            reasoning_mapping: self.reasoning_mapping,
            context_window_tokens: self.context_window_tokens,
            max_output_tokens: self.max_output_tokens,
            tool_calling: self.tool_calling,
            structured_output: self.structured_output,
        }
    }
}

/// The state of the session as it is shown.
#[derive(Debug, PartialEq, Eq)]
pub struct StatusView {
    pub session_id: String,
    pub session_status: String,
    pub session_version: u64,
    pub goal: Option<String>,
    pub goal_locked: bool,
    pub active_mission_id: Option<String>,
    pub mode: String,
    pub model: String,
    pub reasoning: String,
}

pub struct StatusModel {
    pub session_id: Seq<char>,
    pub session_status: Seq<char>,
    pub session_version: u64,
    pub goal: Option<Seq<char>>,
    pub goal_locked: bool,
    pub active_mission_id: Option<Seq<char>>,
    pub mode: Seq<char>,
    pub model: Seq<char>,
    pub reasoning: Seq<char>,
}

impl View for StatusView {
    type V = StatusModel;

    open spec fn view(&self) -> StatusModel {
        StatusModel {
            session_id: self.session_id@,
            session_status: self.session_status@,
            session_version: self.session_version,
            goal: option_view(self.goal),
            goal_locked: self.goal_locked,
            active_mission_id: option_view(self.active_mission_id),
            mode: self.mode@,
            model: self.model@,
            reasoning: self.reasoning@,
        }
    }
}

/// A session in a list of sessions.
#[derive(Debug, PartialEq, Eq)]
pub struct SessionSummaryView {
    pub session_id: String,
    pub current: bool,
    pub status: String,
    pub version: u64,
    pub goal: Option<String>,
    pub parent_session_id: Option<String>,
    pub forked_from_checkpoint_id: Option<String>,
}

pub struct SummaryModel {
    pub session_id: Seq<char>,
    pub current: bool,
    pub status: Seq<char>,
    pub version: u64,
    pub goal: Option<Seq<char>>,
    pub parent_session_id: Option<Seq<char>>,
    pub forked_from_checkpoint_id: Option<Seq<char>>,
}

impl View for SessionSummaryView {
    type V = SummaryModel;

    open spec fn view(&self) -> SummaryModel {
        SummaryModel {
            session_id: self.session_id@,
            current: self.current,
            status: self.status@,
            version: self.version,
            goal: option_view(self.goal),
            parent_session_id: option_view(self.parent_session_id),
            forked_from_checkpoint_id: option_view(self.forked_from_checkpoint_id),
        }
    }
}

/// The goals of a session, the latest first.
#[derive(Debug, PartialEq, Eq)]
pub struct GoalHistoryView {
    pub current_revision_id: Option<String>,
    pub locked: bool,
    pub revisions: Vec<GoalRevision>,
}

pub struct HistoryModel {
    pub current_revision_id: Option<Seq<char>>,
    pub locked: bool,
    pub revisions: Seq<RevisionView>,
}

impl View for GoalHistoryView {
    type V = HistoryModel;

    open spec fn view(&self) -> HistoryModel {
        HistoryModel {
            current_revision_id: option_view(self.current_revision_id),
            locked: self.locked,
            revisions: views(self.revisions@),
        }
    }
}

/// The goal that a session has.
pub open spec fn current_goal(goal: GoalView) -> Option<RevisionView> {
    match goal.current_revision_id {
        Some(id) => if goal.revisions.contains_key(id) {
            Some(goal.revisions[id])
        } else {
            None
        },
        None => None,
    }
}

pub open spec fn goal_text(goal: GoalView) -> Option<Seq<char>> {
    match current_goal(goal) {
        Some(revision) => Some(revision.text),
        None => None,
    }
}

/// The text of the goal that a session has.
pub fn current_goal_text(goal: &GoalState) -> (r: Option<String>)
    ensures
        option_view(r) == goal_text(goal@),
{
    match &goal.current_revision_id {
        Some(id) => match goal.revisions.get(id.as_str()) {
            Some(revision) => Some(revision.text.clone()),
            None => None,
        },
        None => None,
    }
}

pub open spec fn level_text(level: ReasoningLevel) -> Seq<char> {
    match level {
        ReasoningLevel::Off => "off"@,
        ReasoningLevel::Minimal => "minimal"@,
        ReasoningLevel::Low => "low"@,
        ReasoningLevel::Medium => "medium"@,
        ReasoningLevel::High => "high"@,
        ReasoningLevel::Xhigh => "xhigh"@,
        ReasoningLevel::Max => "max"@,
    }
}

pub fn reasoning_name(reasoning: ReasoningLevel) -> (r: &'static str)
    ensures
        r@ == level_text(reasoning),
{
    match reasoning {
        ReasoningLevel::Off => "off",
        ReasoningLevel::Minimal => "minimal",
        ReasoningLevel::Low => "low",
        ReasoningLevel::Medium => "medium",
        ReasoningLevel::High => "high",
        ReasoningLevel::Xhigh => "xhigh",
        ReasoningLevel::Max => "max",
    }
}

pub open spec fn mapping_text(mapping: ReasoningMapping) -> Seq<char> {
    match mapping {
        ReasoningMapping::Exact => "exact"@,
        ReasoningMapping::ClampedDown => "clamped-down"@,
        ReasoningMapping::ClampedUp => "clamped-up"@,
        ReasoningMapping::UnsupportedIgnored => "unsupported-ignored"@,
    }
}

pub fn reasoning_mapping_name(mapping: ReasoningMapping) -> (r: &'static str)
    ensures
        r@ == mapping_text(mapping),
{
    match mapping {
        ReasoningMapping::Exact => "exact",
        ReasoningMapping::ClampedDown => "clamped-down",
        ReasoningMapping::ClampedUp => "clamped-up",
        ReasoningMapping::UnsupportedIgnored => "unsupported-ignored",
    }
}

/// A goal that the user sets comes after the goal that the session has.
pub open spec fn new_goal(state: SessionStateView, id: Seq<char>, text: Seq<char>, now: i64) -> RevisionView {
    RevisionView {
        id,
        parent_revision_id: state.goal.current_revision_id,
        text,
        created_by: "user:terminal"@,
        reason: "terminal-input"@,
        created_at_millis: now,
    }
}

/// The goal that the user sets.
pub fn set_goal(state: &SessionState, id: &str, text: &str, now: i64) -> (r: GoalRevision)
    ensures
        r@ == new_goal(state@, id@, text@, now),
{
    GoalRevision {
        id: id.to_string(),
        parent_revision_id: duplicate_option(&state.goal.current_revision_id),
        text: text.to_string(),
        created_by: "user:terminal".to_string(),
        reason: "terminal-input".to_string(),
        created_at_millis: now,
    }
}

/// The command that takes the goal away.
pub fn clear_goal() -> (r: SessionCommand)
    ensures
        r@ == (SessionCommandView::ClearGoal { reason: "user-terminal-clear"@ }),
{
    SessionCommand::ClearGoal { reason: "user-terminal-clear".to_string() }
}

/// The goal of a session as others see it.
pub open spec fn goal_event(goal: GoalView) -> EventView {
    match current_goal(goal) {
        Some(revision) => EventView::GoalChanged {
            revision_id: Some(revision.id),
            text: Some(revision.text),
            locked: goal.locked,
        },
        None => EventView::GoalChanged { revision_id: None, text: None, locked: goal.locked },
    }
}

pub fn goal_changed(goal: &GoalState) -> (r: HarnessEvent)
    ensures
        r@ == goal_event(goal@),
{
    match &goal.current_revision_id {
        Some(id) => match goal.revisions.get(id.as_str()) {
            Some(revision) => HarnessEvent::GoalChanged {
                revision_id: Some(revision.id.clone()),
                text: Some(revision.text.clone()),
                locked: goal.locked,
            },
            None => HarnessEvent::GoalChanged { revision_id: None, text: None, locked: goal.locked },
        },
        None => HarnessEvent::GoalChanged { revision_id: None, text: None, locked: goal.locked },
    }
}

impl Ranked for GoalRevision {
    open spec fn ranks_before(a: RevisionView, b: RevisionView) -> bool {
        a.created_at_millis > b.created_at_millis || (a.created_at_millis == b.created_at_millis
            && text_less(b.id, a.id))
    }

    fn is_before(&self, other: &Self) -> (r: bool) {
        self.created_at_millis > other.created_at_millis || (self.created_at_millis
            == other.created_at_millis && less(other.id.as_str(), self.id.as_str()))
    }

    proof fn lemma_ranks(a: RevisionView, b: RevisionView, c: RevisionView) {
        if text_less(a.id, b.id) && text_less(b.id, a.id) {
            lemma_text_less_transitive(a.id, b.id, a.id);
            lemma_text_less_irreflexive(a.id);
        }
        lemma_text_less_total(a.id, b.id);
        lemma_text_less_total(b.id, c.id);
        if text_less(a.id, b.id) && text_less(b.id, c.id) {
            lemma_text_less_transitive(a.id, b.id, c.id);
        }
        if text_less(c.id, a.id) {
            if text_less(a.id, b.id) {
                lemma_text_less_transitive(c.id, a.id, b.id);
            }
            if text_less(b.id, c.id) {
                lemma_text_less_transitive(b.id, c.id, a.id);
            }
            if text_less(b.id, a.id) && text_less(c.id, b.id) {
                lemma_text_less_transitive(c.id, b.id, a.id);
            }
        }
        if text_less(a.id, c.id) {
            if text_less(c.id, b.id) {
                lemma_text_less_transitive(a.id, c.id, b.id);
            }
            if text_less(b.id, a.id) {
                lemma_text_less_transitive(b.id, a.id, c.id);
            }
        }
    }
}

pub open spec fn revisions_of(goal: GoalView) -> Seq<RevisionView> {
    Seq::new(
        in_order(goal.revisions.dom()).len(),
        |i: int| goal.revisions[in_order(goal.revisions.dom())[i]],
    )
}

/// At least one and at most two hundred.
pub open spec fn page(limit: usize) -> int {
    if limit < 1 {
        1
    } else if limit > 200 {
        200
    } else {
        limit as int
    }
}

pub open spec fn first_items<T>(items: Seq<T>, n: int) -> Seq<T> {
    if n < items.len() {
        items.subrange(0, n)
    } else {
        items
    }
}

pub open spec fn history_shown(goal: GoalView, limit: usize) -> HistoryModel {
    HistoryModel {
        current_revision_id: goal.current_revision_id,
        locked: goal.locked,
        revisions: first_items(by_rank::<GoalRevision>(revisions_of(goal)), page(limit)),
    }
}

/// Shows the goals that a session had, the latest first.
pub fn goal_history(state: &SessionState, limit: usize) -> (r: GoalHistoryView)
    ensures
        r@ == history_shown(state@.goal, limit),
{
    let ghost keys = in_order(state@.goal.revisions.dom());
    let ghost all = revisions_of(state@.goal);
    let total: usize = state.goal.revisions.len();
    let mut revisions: Vec<GoalRevision> = Vec::new();
    let mut i: usize = 0;
    while i < total
        invariant
            i <= total,
            total == keys.len(),
            keys == in_order(state@.goal.revisions.dom()),
            all == revisions_of(state@.goal),
            revisions@.len() == i,
            forall|k: int| 0 <= k < i ==> (#[trigger] revisions@[k])@ == all[k],
        decreases total - i,
    {
        revisions.push(state.goal.revisions.value_at(i).duplicate());
        i = i + 1;
    }
    assert(views(revisions@) =~= all);
    let mut latest = sorted(&revisions);
    let ghost ranked = views(latest@);
    let most: usize = if limit < 1 {
        1
    } else if limit > 200 {
        200
    } else {
        limit
    };
    latest.truncate(most);
    assert(views(latest@) =~= first_items(ranked, page(limit)));
    GoalHistoryView {
        current_revision_id: duplicate_option(&state.goal.current_revision_id),
        locked: state.goal.locked,
        revisions: latest,
    }
}

/// The history of a goal begins with the latest of all goals that the session had.
pub proof fn law_history_begins_with_the_latest(goal: GoalView, limit: usize, i: int)
    requires
        0 <= i < revisions_of(goal).len(),
    ensures
        history_shown(goal, limit).revisions.len() > 0,
        !GoalRevision::ranks_before(revisions_of(goal)[i], history_shown(goal, limit).revisions[0]),
{
    broadcast use vstd::seq_lib::group_to_multiset_ensures;

    let all = revisions_of(goal);
    let ranked = by_rank::<GoalRevision>(all);
    law_sorting_orders_the_items::<GoalRevision>(all);
    assert(all.contains(all[i]));
    assert(ranked.to_multiset().count(all[i]) > 0);
    assert(ranked.contains(all[i]));
    let k = ranked.index_of(all[i]);
    if k > 0 {
        assert(!GoalRevision::ranks_before(ranked[k], ranked[0]));
    } else {
        GoalRevision::lemma_ranks(all[i], all[i], all[i]);
    }
}

/// How the model is named, and how much it is to reason. Without a runtime there is a model that
/// only repeats.
pub open spec fn model_shown(runtime: Option<RuntimeView>) -> (Seq<char>, Seq<char>) {
    match runtime {
        Some(view) => (
            view.provider_id + "/"@ + view.model_id,
            level_text(view.reasoning_requested),
        ),
        None => ("fake/deterministic"@, "off"@),
    }
}

pub open spec fn status_shown(
    s: AppView,
    state: SessionStateView,
    runtime: Option<RuntimeView>,
) -> StatusModel {
    StatusModel {
        session_id: state.session_id,
        session_status: state.status,
        session_version: state.version,
        goal: goal_text(state.goal),
        goal_locked: state.goal.locked,
        active_mission_id: s.active_mission_id,
        mode: s.mode_profile.mode,
        model: model_shown(runtime).0,
        reasoning: model_shown(runtime).1,
    }
}

pub open spec fn summary_shown(s: AppView, state: SessionStateView, session_id: Seq<char>) -> SummaryModel {
    SummaryModel {
        session_id,
        current: session_id == s.session_id,
        status: state.status,
        version: state.version,
        goal: goal_text(state.goal),
        parent_session_id: state.parent_session_id,
        forked_from_checkpoint_id: state.forked_from_checkpoint_id,
    }
}

/// What is done about the model of a session at the start.
pub enum ModelCourse {
    /// The session has chosen a model: the runtime takes it up.
    Restore { provider_id: String, model_id: String, reasoning: ReasoningLevel },
    /// The session takes up the model of the runtime.
    Adopt { commands: Vec<SessionCommand> },
}

pub enum ModelCourseView {
    Restore { provider_id: Seq<char>, model_id: Seq<char>, reasoning: ReasoningLevel },
    Adopt { commands: Seq<SessionCommandView> },
}

impl View for ModelCourse {
    type V = ModelCourseView;

    open spec fn view(&self) -> ModelCourseView {
        match *self {
            ModelCourse::Restore { provider_id, model_id, reasoning } => ModelCourseView::Restore {
                provider_id: provider_id@,
                model_id: model_id@,
                reasoning,
            },
            ModelCourse::Adopt { commands } => ModelCourseView::Adopt {
                commands: views(commands@),
            },
        }
    }
}

/// The model of tests, which early releases had put into sessions.
pub open spec fn is_test_model(provider: Option<Seq<char>>, model: Option<Seq<char>>) -> bool {
    provider == Some("fake"@) && model == Some("deterministic"@)
}

pub open spec fn adopt(runtime: RuntimeView, with_reasoning: bool) -> ModelCourseView {
    let select = SessionCommandView::SelectModel {
        provider_id: runtime.provider_id,
        model_id: runtime.model_id,
    };
    ModelCourseView::Adopt {
        commands: if with_reasoning {
            seq![select, SessionCommandView::SetReasoning { reasoning: runtime.reasoning_requested }]
        } else {
            seq![select]
        },
    }
}

/// A session keeps the model that it has chosen, unless that is the model of tests and it is not
/// there; a session that has chosen none takes the one of the runtime.
pub open spec fn model_course(
    session: SessionModelView,
    runtime: RuntimeView,
    test_model_registered: bool,
) -> Outcome<ModelCourseView> {
    if is_test_model(session.provider_id, session.model_id) && !test_model_registered {
        Outcome::Done(adopt(runtime, session.reasoning != runtime.reasoning_requested))
    } else {
        match (session.provider_id, session.model_id) {
            (Some(provider_id), Some(model_id)) => Outcome::Done(
                ModelCourseView::Restore { provider_id, model_id, reasoning: session.reasoning },
            ),
            (None, None) => Outcome::Done(
                adopt(runtime, runtime.reasoning_requested != ReasoningLevel::Off),
            ),
            _ => failure(
                "session-model-lineage-incomplete"@,
                "Session 的 provider/model 选择不完整"@,
            ),
        }
    }
}

fn adopt_model(runtime: &ModelRuntimeView, with_reasoning: bool) -> (r: ModelCourse)
    ensures
        r@ == adopt(runtime@, with_reasoning),
{
    let select = SessionCommand::SelectModel {
        provider_id: runtime.provider_id.clone(),
        model_id: runtime.model_id.clone(),
    };
    if with_reasoning {
        let commands: Vec<SessionCommand> = vec![
            select,
            SessionCommand::SetReasoning { reasoning: runtime.reasoning_requested },
        ];
        assert(views(commands@) =~= adopt(runtime@, true)->commands);
        ModelCourse::Adopt { commands }
    } else {
        let commands: Vec<SessionCommand> = vec![select];
        assert(views(commands@) =~= adopt(runtime@, false)->commands);
        ModelCourse::Adopt { commands }
    }
}

/// What is done about the model of a session at the start.
pub fn reconcile_model_session(
    session: &SessionModel,
    runtime: &ModelRuntimeView,
    test_model_registered: bool,
) -> (r: Result<ModelCourse, ApplicationError>)
    ensures
        outcome(r) == model_course(session@, runtime@, test_model_registered),
{
    let is_test = match (&session.provider_id, &session.model_id) {
        (Some(provider), Some(model)) => same(provider.as_str(), "fake") && same(
            model.as_str(),
            "deterministic",
        ),
        _ => false,
    };
    if is_test && !test_model_registered {
        return Ok(adopt_model(runtime, session.reasoning != runtime.reasoning_requested));
    }
    match (&session.provider_id, &session.model_id) {
        (Some(provider_id), Some(model_id)) => Ok(
            ModelCourse::Restore {
                provider_id: provider_id.clone(),
                model_id: model_id.clone(),
                reasoning: session.reasoning,
            },
        ),
        (None, None) => Ok(
            adopt_model(runtime, runtime.reasoning_requested != ReasoningLevel::Off),
        ),
        _ => Err(
            ApplicationError::new(
                "session-model-lineage-incomplete",
                "Session 的 provider/model 选择不完整",
            ),
        ),
    }
}

/// Whether a session works with a model already.
pub fn has_model(session: &SessionModel, provider_id: &str, model_id: &str) -> (r: bool)
    ensures
        r == (session@.provider_id == Some(provider_id@) && session@.model_id == Some(model_id@)),
{
    match (&session.provider_id, &session.model_id) {
        (Some(provider), Some(model)) => same(provider.as_str(), provider_id) && same(
            model.as_str(),
            model_id,
        ),
        _ => false,
    }
}

pub open spec fn model_event(view: RuntimeView) -> EventView {
    EventView::ModelChanged {
        provider: view.provider_id,
        model: view.model_id,
        reasoning_requested: level_text(view.reasoning_requested),
        reasoning_effective: match view.reasoning_effective {
            Some(level) => Some(level_text(level)),
            None => None,
        },
        reasoning_mapping: mapping_text(view.reasoning_mapping),
    }
}

/// Shows the model.
pub fn model_view(view: ModelRuntimeView) -> (r: ModelView)
    ensures
        r@ == (ModelModel {
            provider_id: view@.provider_id,
            model_id: view@.model_id,
            reasoning_requested: view@.reasoning_requested,
            reasoning_effective: view@.reasoning_effective,
            reasoning_mapping: view@.reasoning_mapping,
            context_window_tokens: view@.context_window_tokens,
            max_output_tokens: view@.max_output_tokens,
            tool_calling: view@.tool_calling,
            structured_output: view@.structured_output,
        }),
{
    ModelView {
        provider_id: view.provider_id,
        model_id: view.model_id,
        reasoning_requested: view.reasoning_requested,
        reasoning_effective: view.reasoning_effective,
        reasoning_mapping: view.reasoning_mapping,
        context_window_tokens: view.context_window_tokens,
        max_output_tokens: view.max_output_tokens,
        tool_calling: view.tool_calling,
        structured_output: view.structured_output,
    }
}

/// The model as others see it.
pub fn model_changed(view: &ModelRuntimeView) -> (r: HarnessEvent)
    ensures
        r@ == model_event(view@),
{
    let reasoning_effective: Option<String> = match view.reasoning_effective {
        Some(level) => Some(reasoning_name(level).to_string()),
        None => None,
    };
    HarnessEvent::ModelChanged {
        provider: view.provider_id.clone(),
        model: view.model_id.clone(),
        reasoning_requested: reasoning_name(view.reasoning_requested).to_string(),
        reasoning_effective,
        reasoning_mapping: reasoning_mapping_name(view.reasoning_mapping).to_string(),
    }
}

impl HarnessApplication {
    /// Shows the state of the session.
    pub fn status(&self, state: &SessionState, runtime: Option<&ModelRuntimeView>) -> (r: StatusView)
        ensures
            r@ == status_shown(
                self@,
                state@,
                match runtime {
                    Some(view) => Some(view@),
                    None => None,
                },
            ),
    {
        let (model, reasoning): (String, String) = match runtime {
            Some(view) => {
                let mut name = view.provider_id.clone();
                name.append("/");
                name.append(view.model_id.as_str());
                (name, reasoning_name(view.reasoning_requested).to_string())
            },
            None => ("fake/deterministic".to_string(), "off".to_string()),
        };
        StatusView {
            session_id: state.session_id.clone(),
            session_status: state.status.clone(),
            session_version: state.version,
            goal: current_goal_text(&state.goal),
            goal_locked: state.goal.locked,
            active_mission_id: duplicate_option(&self.active_mission_id),
            mode: self.mode_profile.mode.clone(),
            model,
            reasoning,
        }
    }

    /// Shows a session in a list of sessions.
    pub fn session_summary(&self, state: &SessionState, session_id: &str) -> (r: SessionSummaryView)
        ensures
            r@ == summary_shown(self@, state@, session_id@),
    {
        SessionSummaryView {
            session_id: session_id.to_string(),
            current: same(session_id, self.session_id.as_str()),
            status: state.status.clone(),
            version: state.version,
            goal: current_goal_text(&state.goal),
            parent_session_id: duplicate_option(&state.parent_session_id),
            forked_from_checkpoint_id: duplicate_option(&state.forked_from_checkpoint_id),
        }
    }

    /// The command with which the session begins; none if it has begun.
    pub fn create_session(&self, state: &SessionState) -> (r: Option<SessionCommand>)
        ensures
            option_view(r) == if state@.version == 0 {
                Some(
                    SessionCommandView::CreateSession {
                        session_id: self@.session_id,
                        project_id: self@.project_id,
                    },
                )
            } else {
                None
            },
    {
        if state.version == 0 {
            Some(
                SessionCommand::CreateSession {
                    session_id: self.session_id.clone(),
                    project_id: self.project_id.clone(),
                },
            )
        } else {
            None
        }
    }
}

/// Commands as a session carries them out on its choice of a model.
pub open spec fn choose_model(session: SessionModelView, command: SessionCommandView) -> SessionModelView {
    match command {
        SessionCommandView::SelectModel { provider_id, model_id } => SessionModelView {
            provider_id: Some(provider_id),
            model_id: Some(model_id),
            ..session
        },
        SessionCommandView::SetReasoning { reasoning } => SessionModelView { reasoning, ..session },
        _ => session,
    }
}

pub open spec fn choose_models(session: SessionModelView, commands: Seq<SessionCommandView>) -> SessionModelView
    decreases commands.len(),
{
    if commands.len() == 0 {
        session
    } else {
        choose_model(choose_models(session, commands.drop_last()), commands.last())
    }
}

/// After the start the session and the runtime agree on the model and on the reasoning.
pub proof fn law_session_and_runtime_agree(
    session: SessionModelView,
    runtime: RuntimeView,
    test_model_registered: bool,
)
    requires
        session.provider_id is None ==> session.reasoning == ReasoningLevel::Off,
    ensures
        model_course(session, runtime, test_model_registered) matches Outcome::Done(course)
            ==> match course {
            ModelCourseView::Restore { provider_id, model_id, reasoning } => session
                == (SessionModelView {
                provider_id: Some(provider_id),
                model_id: Some(model_id),
                reasoning,
            }),
            ModelCourseView::Adopt { commands } => choose_models(session, commands) == (
            SessionModelView {
                provider_id: Some(runtime.provider_id),
                model_id: Some(runtime.model_id),
                reasoning: runtime.reasoning_requested,
            }),
        },
{
    let select = SessionCommandView::SelectModel {
        provider_id: runtime.provider_id,
        model_id: runtime.model_id,
    };
    let set = SessionCommandView::SetReasoning { reasoning: runtime.reasoning_requested };
    reveal_with_fuel(choose_models, 3);
    assert(seq![select].drop_last() =~= Seq::empty());
    assert(seq![select, set].drop_last() =~= seq![select]);
}

} // verus!
