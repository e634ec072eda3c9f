//! What a model is told of the context, what that costs, and when it has to become shorter.

use vstd::prelude::*;
use vstd::string::*;

use crate::application::{AppView, HarnessApplication};
use crate::context::{
    CacheClass, CompactionItem, ContextItem, ContextKind, ContextSeries, EntryView, ItemView,
    Priority,
};
use crate::error::{failure, outcome, ApplicationError, Outcome};
use crate::execution::{AgentWorkingContext, WorkingView};
use crate::mission::{EventView, HarnessEvent};
use crate::model::{group_views, option_view, views, Duplicate};
use crate::observe::{kind_name, kind_text};
use crate::text::{ascii_lowered, copy_texts, decimal, decimal_of, join, joined, texts, to_ascii_lower};

verus! {

/// Who speaks in a segment.
#[derive(Clone, Copy, Debug, PartialEq, Eq, Structural)]
pub enum PromptRole {
    System,
    Developer,
    Tool,
    User,
}

/// How long a segment stays the same.
#[derive(Clone, Copy, Debug, PartialEq, Eq, Structural)]
pub enum PromptCacheability {
    Static,
    SemiStable,
    DynamicTail,
}

/// A piece of what a model is told.
#[derive(Debug, PartialEq, Eq)]
pub struct PromptSegment {
    pub id: String,
    pub version: String,
    pub role: PromptRole,
    pub priority: i32,
    pub cacheability: PromptCacheability,
    pub order: i32,
    pub source_kind: String,
    pub source_reference: String,
    pub content: String,
}

pub struct SegmentView {
    pub id: Seq<char>,
    pub version: Seq<char>,
    pub role: PromptRole,
    pub priority: i32,
    pub cacheability: PromptCacheability,
    pub order: i32,
    pub source_kind: Seq<char>,
    pub source_reference: Seq<char>,
    pub content: Seq<char>,
}

impl View for PromptSegment {
    type V = SegmentView;

    open spec fn view(&self) -> SegmentView {
        SegmentView {
            id: self.id@,
            version: self.version@,
            role: self.role,
            priority: self.priority,
            cacheability: self.cacheability,
            order: self.order,
            source_kind: self.source_kind@,
            source_reference: self.source_reference@,
            content: self.content@,
        }
    }
}

impl Duplicate for PromptSegment {
    fn duplicate(&self) -> (r: Self) {
        PromptSegment {
            id: self.id.clone(),
            version: self.version.clone(),
            role: self.role,
            priority: self.priority,
            cacheability: self.cacheability,
            order: self.order,
            source_kind: self.source_kind.clone(),
            source_reference: self.source_reference.clone(),
            content: self.content.clone(),
        }
    }
}

/// How many tokens there are, and for what some are kept free.
#[derive(Debug, PartialEq, Eq)]
pub struct ContextBudget {
    pub model_context_window: u32,
    pub reserved_output_tokens: u32,
    pub reserved_tool_tokens: u32,
    pub reserved_recovery_tokens: u32,
}

pub struct ContextBudgetView {
    pub model_context_window: u32,
    pub reserved_output_tokens: u32,
    pub reserved_tool_tokens: u32,
    pub reserved_recovery_tokens: u32,
}

impl View for ContextBudget {
    type V = ContextBudgetView;

    open spec fn view(&self) -> ContextBudgetView {
        ContextBudgetView {
            model_context_window: self.model_context_window,
            reserved_output_tokens: self.reserved_output_tokens,
            reserved_tool_tokens: self.reserved_tool_tokens,
            reserved_recovery_tokens: self.reserved_recovery_tokens,
        }
    }
}

/// The context as it is shown.
#[derive(Debug, PartialEq, Eq)]
pub struct ContextView {
    pub series_id: String,
    pub item_count: usize,
    pub selected_count: usize,
    pub excluded_count: usize,
    pub used_tokens: u32,
    pub max_tokens: u32,
    pub percent: u8,
    pub checkpoint_count: usize,
}

pub struct ContextShown {
    pub series_id: Seq<char>,
    pub item_count: usize,
    pub selected_count: usize,
    pub excluded_count: usize,
    pub used_tokens: u32,
    pub max_tokens: u32,
    pub percent: u8,
    pub checkpoint_count: usize,
}

impl View for ContextView {
    type V = ContextShown;

    open spec fn view(&self) -> ContextShown {
        ContextShown {
            series_id: self.series_id@,
            item_count: self.item_count,
            selected_count: self.selected_count,
            excluded_count: self.excluded_count,
            used_tokens: self.used_tokens,
            max_tokens: self.max_tokens,
            percent: self.percent,
            checkpoint_count: self.checkpoint_count,
        }
    }
}

/// What takes the place of items that were compacted.
#[derive(Debug, PartialEq, Eq)]
pub struct StructuredSummary {
    pub summary: String,
    pub active_assumptions: Vec<String>,
    pub unresolved_blockers: Vec<String>,
    pub completed_actions: Vec<String>,
    pub next_goal: String,
    pub token_cost: u32,
}

pub struct SummaryView {
    pub summary: Seq<char>,
    pub active_assumptions: Seq<Seq<char>>,
    pub unresolved_blockers: Seq<Seq<char>>,
    pub completed_actions: Seq<Seq<char>>,
    pub next_goal: Seq<char>,
    pub token_cost: u32,
}

impl View for StructuredSummary {
    type V = SummaryView;

    open spec fn view(&self) -> SummaryView {
        SummaryView {
            summary: self.summary@,
            active_assumptions: texts(self.active_assumptions@),
            unresolved_blockers: texts(self.unresolved_blockers@),
            completed_actions: texts(self.completed_actions@),
            next_goal: self.next_goal@,
            token_cost: self.token_cost,
        }
    }
}

/// How often a cache could answer.
#[derive(Clone, Copy, Debug, PartialEq, Eq)]
pub struct CacheMetrics {
    pub hits: u64,
    pub misses: u64,
}

pub struct MetricsView {
    pub hits: u64,
    pub misses: u64,
}

impl View for CacheMetrics {
    type V = MetricsView;

    open spec fn view(&self) -> MetricsView {
        MetricsView {
            hits: self.hits,
            misses: self.misses,
        }
    }
}

/// The caches as they are shown.
#[derive(Debug, PartialEq, Eq)]
pub struct CacheView {
    pub l1: CacheMetrics,
    pub l2: Option<CacheMetrics>,
    pub effective_hit_rate_percent: Option<u8>,
}

pub struct CacheShown {
    pub l1: MetricsView,
    pub l2: Option<MetricsView>,
    pub effective_hit_rate_percent: Option<u8>,
}

impl View for CacheView {
    type V = CacheShown;

    open spec fn view(&self) -> CacheShown {
        CacheShown {
            l1: self.l1@,
            l2: option_view(self.l2),
            effective_hit_rate_percent: self.effective_hit_rate_percent,
        }
    }
}

/// Under what a compiled prompt is kept.
#[derive(Debug, PartialEq, Eq)]
pub struct PromptCacheKey {
    pub project_id: String,
    pub session_id: String,
    pub provider: String,
    pub model: String,
    pub input_hash: String,
    pub schema_version: String,
}

pub struct PromptKeyView {
    pub project_id: Seq<char>,
    pub session_id: Seq<char>,
    pub provider: Seq<char>,
    pub model: Seq<char>,
    pub input_hash: Seq<char>,
    pub schema_version: Seq<char>,
}

impl View for PromptCacheKey {
    type V = PromptKeyView;

    open spec fn view(&self) -> PromptKeyView {
        PromptKeyView {
            project_id: self.project_id@,
            session_id: self.session_id@,
            provider: self.provider@,
            model: self.model@,
            input_hash: self.input_hash@,
            schema_version: self.schema_version@,
        }
    }
}

pub open spec fn speaker(kind: ContextKind) -> PromptRole {
    match kind {
        ContextKind::System => PromptRole::System,
        ContextKind::Constraint => PromptRole::Developer,
        ContextKind::Tool => PromptRole::Tool,
        _ => PromptRole::User,
    }
}

pub fn prompt_role(kind: ContextKind) -> (r: PromptRole)
    ensures
        r == speaker(kind),
{
    match kind {
        ContextKind::System => PromptRole::System,
        ContextKind::Constraint => PromptRole::Developer,
        ContextKind::Tool => PromptRole::Tool,
        _ => PromptRole::User,
    }
}

pub open spec fn priority_number(priority: Priority) -> i32 {
    match priority {
        Priority::Low => 10,
        Priority::Medium => 20,
        Priority::High => 30,
        Priority::Critical => 40,
    }
}

pub fn priority_value(priority: Priority) -> (r: i32)
    ensures
        r == priority_number(priority),
{
    match priority {
        Priority::Low => 10,
        Priority::Medium => 20,
        Priority::High => 30,
        Priority::Critical => 40,
    }
}

pub open spec fn cacheability_of(class: CacheClass) -> PromptCacheability {
    match class {
        CacheClass::Static => PromptCacheability::Static,
        CacheClass::SemiStable => PromptCacheability::SemiStable,
        CacheClass::DynamicTail => PromptCacheability::DynamicTail,
    }
}

/// An item as a model is told it.
pub open spec fn segment_of(item: ItemView) -> SegmentView {
    SegmentView {
        id: item.id,
        version: "1"@,
        role: speaker(item.kind),
        priority: priority_number(item.priority),
        cacheability: cacheability_of(item.cache_class),
        order: item.order,
        source_kind: ascii_lowered(kind_text(item.kind)),
        source_reference: item.source,
        content: item.content,
    }
}

pub fn context_prompt_segment(item: &ContextItem) -> (r: PromptSegment)
    ensures
        r@ == segment_of(item@),
{
    let cacheability = match item.cache_class {
        CacheClass::Static => PromptCacheability::Static,
        CacheClass::SemiStable => PromptCacheability::SemiStable,
        CacheClass::DynamicTail => PromptCacheability::DynamicTail,
    };
    PromptSegment {
        id: item.id.clone(),
        version: "1".to_string(),
        role: prompt_role(item.kind),
        priority: priority_value(item.priority),
        cacheability,
        order: item.order,
        source_kind: to_ascii_lower(kind_name(item.kind)),
        source_reference: item.source.clone(),
        content: item.content.clone(),
    }
}

pub open spec fn segments_of(items: Seq<ItemView>) -> Seq<SegmentView> {
    items.map_values(|item: ItemView| segment_of(item))
}

/// The segments that stay the same, or those that do not.
pub open spec fn segments_with(segments: Seq<SegmentView>, stable: bool) -> Seq<SegmentView>
    decreases segments.len(),
{
    if segments.len() == 0 {
        Seq::empty()
    } else {
        let before = segments_with(segments.drop_last(), stable);
        if (segments.last().cacheability == PromptCacheability::Static) == stable {
            before.push(segments.last())
        } else {
            before
        }
    }
}

/// All segments of the items that were selected.
pub fn prompt_segments(selected: &Vec<ContextItem>) -> (r: Vec<PromptSegment>)
    ensures
        views(r@) == segments_of(views(selected@)),
{
    let ghost items = views(selected@);
    let ghost spec = segments_of(items);
    let mut r: Vec<PromptSegment> = Vec::new();
    let mut i: usize = 0;
    while i < selected.len()
        invariant
            i <= selected.len(),
            items == views(selected@),
            spec == segments_of(items),
            r@.len() == i,
            forall|k: int| 0 <= k < i ==> (#[trigger] r@[k])@ == spec[k],
        decreases selected.len() - i,
    {
        assert(items[i as int] == selected@[i as int]@);
        r.push(context_prompt_segment(&selected[i]));
        i = i + 1;
    }
    assert(views(r@) =~= spec);
    r
}

/// The segments that stay the same come apart from those that do not, so that they can be kept.
pub fn select_segments(segments: &Vec<PromptSegment>, stable: bool) -> (r: Vec<PromptSegment>)
    ensures
        views(r@) == segments_with(views(segments@), stable),
{
    broadcast use group_views;

    let ghost all = views(segments@);
    let mut r: Vec<PromptSegment> = Vec::new();
    let mut i: usize = 0;
    assert(all.subrange(0, 0) =~= Seq::empty());
    assert(views(r@) =~= Seq::empty());
    while i < segments.len()
        invariant
            i <= segments.len(),
            all == views(segments@),
            views(r@) == segments_with(all.subrange(0, i as int), stable),
        decreases segments.len() - i,
    {
        broadcast use group_views;

        let ghost next = all.subrange(0, i as int + 1);
        assert(next.drop_last() =~= all.subrange(0, i as int));
        assert(next.last() == segments@[i as int]@);
        if (segments[i].cacheability == PromptCacheability::Static) == stable {
            r.push(segments[i].duplicate());
        }
        i = i + 1;
    }
    assert(all.subrange(0, all.len() as int) =~= all);
    r
}

/// No segment is lost or told twice: the two parts together are the whole.
pub proof fn law_segments_are_parted(segments: Seq<SegmentView>)
    ensures
        segments_with(segments, true).len() + segments_with(segments, false).len()
            == segments.len(),
        (segments_with(segments, true) + segments_with(segments, false)).to_multiset()
            == segments.to_multiset(),
    decreases segments.len(),
{
    broadcast use vstd::seq_lib::group_to_multiset_ensures;

    let stable = segments_with(segments, true);
    let other = segments_with(segments, false);
    vstd::seq_lib::lemma_multiset_commutative(stable, other);
    if segments.len() > 0 {
        let rest = segments.drop_last();
        law_segments_are_parted(rest);
        let a = segments_with(rest, true);
        let b = segments_with(rest, false);
        vstd::seq_lib::lemma_multiset_commutative(a, b);
        assert(rest.push(segments.last()) =~= segments);
        assert(segments.to_multiset() == rest.to_multiset().insert(segments.last()));
        if segments.last().cacheability == PromptCacheability::Static {
            assert(stable.to_multiset() == a.to_multiset().insert(segments.last()));
        } else {
            assert(other.to_multiset() == b.to_multiset().insert(segments.last()));
        }
        assert((stable + other).to_multiset() =~= segments.to_multiset());
    } else {
        assert(stable + other =~= segments);
    }
}

/// What an agent knows of the context: only what was selected for it.
pub fn agent_working_context(
    stable_text: String,
    dynamic_text: String,
    selected: &Vec<ContextItem>,
    excluded_item_ids: &Vec<String>,
    token_cost: u32,
    max_input_tokens: u32,
    fingerprint: String,
) -> (r: AgentWorkingContext)
    ensures
        r@ == (WorkingView {
            stable_instructions: stable_text@,
            dynamic_context: dynamic_text@,
            selected_item_ids: views(selected@).map_values(|item: ItemView| item.id),
            excluded_item_ids: texts(excluded_item_ids@),
            token_cost,
            max_input_tokens,
            fingerprint: fingerprint@,
        }),
{
    let ghost items = views(selected@);
    let ghost spec = items.map_values(|item: ItemView| item.id);
    let mut selected_item_ids: Vec<String> = Vec::new();
    let mut i: usize = 0;
    while i < selected.len()
        invariant
            i <= selected.len(),
            items == views(selected@),
            spec == items.map_values(|item: ItemView| item.id),
            selected_item_ids@.len() == i,
            forall|k: int| 0 <= k < i ==> (#[trigger] selected_item_ids@[k])@ == spec[k],
        decreases selected.len() - i,
    {
        assert(items[i as int] == selected@[i as int]@);
        selected_item_ids.push(selected[i].id.clone());
        i = i + 1;
    }
    assert(texts(selected_item_ids@) =~= spec);
    AgentWorkingContext {
        stable_instructions: stable_text,
        dynamic_context: dynamic_text,
        selected_item_ids,
        excluded_item_ids: copy_texts(excluded_item_ids),
        token_cost,
        max_input_tokens,
        fingerprint,
    }
}

pub open spec fn times_hundred(n: u32) -> int {
    if n * 100 > u32::MAX {
        u32::MAX as int
    } else {
        n * 100
    }
}

/// How full the context is. What cannot be said is taken for full.
pub open spec fn fullness(used: u32, most: u32) -> u8 {
    if most == 0 {
        100
    } else if times_hundred(used) / most as int > u8::MAX {
        100
    } else {
        (times_hundred(used) / most as int) as u8
    }
}

/// How full the context is, in percent.
pub fn context_percent(used_tokens: u32, max_tokens: u32) -> (r: u8)
    ensures
        r == fullness(used_tokens, max_tokens),
{
    if max_tokens == 0 {
        return 100;
    }
    let scaled: u32 = match used_tokens.checked_mul(100) {
        Some(scaled) => scaled,
        None => u32::MAX,
    };
    let percent: u32 = scaled / max_tokens;
    if percent > 255 {
        100
    } else {
        percent as u8
    }
}

/// Whether the context is to be compacted: it is four fifths full.
pub fn auto_compact_if_needed(percent: u8) -> (r: bool)
    ensures
        r == (percent >= 80),
{
    percent >= 80
}

/// Shows the context.
pub fn context(
    series: &ContextSeries,
    selected_count: usize,
    excluded_count: usize,
    used_tokens: u32,
    max_tokens: u32,
    checkpoint_count: usize,
) -> (r: ContextView)
    ensures
        r@ == (ContextShown {
            series_id: series@.id,
            item_count: series@.items.len() as usize,
            selected_count,
            excluded_count,
            used_tokens,
            max_tokens,
            percent: fullness(used_tokens, max_tokens),
            checkpoint_count,
        }),
{
    assert(series@.items.len() == series.items@.len());
    ContextView {
        series_id: series.id.clone(),
        item_count: series.items.len(),
        selected_count,
        excluded_count,
        used_tokens,
        max_tokens,
        percent: context_percent(used_tokens, max_tokens),
        checkpoint_count,
    }
}

/// A context within its limit of tokens is at most a hundred percent full.
pub proof fn law_a_context_within_its_limit_is_not_overfull(used: u32, most: u32)
    requires
        used <= most,
    ensures
        fullness(used, most) <= 100,
{
    if most > 0 {
        assert(times_hundred(used) <= 100 * most);
        assert(times_hundred(used) / most as int <= 100) by (nonlinear_arith)
            requires
                0 <= times_hundred(used) <= 100 * most,
                most > 0,
        ;
    }
}

pub open spec fn budget_of(s: AppView) -> ContextBudgetView {
    ContextBudgetView {
        model_context_window: s.mode_profile.context_window_tokens,
        reserved_output_tokens: 1024,
        reserved_tool_tokens: s.mode_profile.reserved_tool_tokens,
        reserved_recovery_tokens: 512,
    }
}

impl HarnessApplication {
    /// How many tokens the context may take in the present mode.
    pub fn context_budget(&self) -> (r: ContextBudget)
        ensures
            r@ == budget_of(self@),
    {
        ContextBudget {
            model_context_window: self.mode_profile.context_window_tokens,
            reserved_output_tokens: 1024,
            reserved_tool_tokens: self.mode_profile.reserved_tool_tokens,
            reserved_recovery_tokens: 512,
        }
    }

    /// Under what the present prompt is kept.
    pub fn prompt_cache_key(&self, prompt_hash: &str) -> (r: PromptCacheKey)
        ensures
            r@ == (PromptKeyView {
                project_id: self@.project_id,
                session_id: self@.session_id,
                provider: "fake"@,
                model: "deterministic"@,
                input_hash: prompt_hash@,
                schema_version: "canonical-prompt-v1"@,
            }),
    {
        PromptCacheKey {
            project_id: self.project_id.clone(),
            session_id: self.session_id.clone(),
            provider: "fake".to_string(),
            model: "deterministic".to_string(),
            input_hash: prompt_hash.to_string(),
            schema_version: "canonical-prompt-v1".to_string(),
        }
    }
}

/// The context as others see it.
pub fn context_changed(view: &ContextView, cache_percent: Option<u8>) -> (r: HarnessEvent)
    ensures
        r@ == (EventView::ContextChanged {
            used_tokens: view@.used_tokens as u64,
            max_tokens: view@.max_tokens as u64,
            cache_percent,
        }),
{
    HarnessEvent::ContextChanged {
        used_tokens: view.used_tokens as u64,
        max_tokens: view.max_tokens as u64,
        cache_percent,
    }
}

pub open spec fn capped(n: int) -> int {
    if n > u64::MAX {
        u64::MAX as int
    } else {
        n
    }
}

/// How often the caches together could answer, in percent; nothing if they were never asked.
pub open spec fn hit_rate(l1: MetricsView, l2: Option<MetricsView>) -> Option<u8> {
    let hits = capped(
        l1.hits + match l2 {
            Some(m) => m.hits as int,
            None => 0,
        },
    );
    let misses = capped(
        l1.misses + match l2 {
            Some(m) => m.misses as int,
            None => 0,
        },
    );
    let total = capped(hits + misses);
    if total == 0 {
        None
    } else {
        let percent = capped(hits * 100) / total;
        Some(
            if percent > u8::MAX {
                100
            } else {
                percent as u8
            },
        )
    }
}

/// Shows the caches.
pub fn cache(l1: CacheMetrics, l2: Option<CacheMetrics>) -> (r: CacheView)
    ensures
        r@ == (CacheShown {
            l1: l1@,
            l2: option_view(l2),
            effective_hit_rate_percent: hit_rate(l1@, option_view(l2)),
        }),
{
    let (more_hits, more_misses): (u64, u64) = match &l2 {
        Some(metrics) => (metrics.hits, metrics.misses),
        None => (0, 0),
    };
    let hits: u64 = l1.hits.saturating_add(more_hits);
    let misses: u64 = l1.misses.saturating_add(more_misses);
    let total: u64 = hits.saturating_add(misses);
    let effective_hit_rate_percent: Option<u8> = if total == 0 {
        None
    } else {
        let scaled: u64 = match hits.checked_mul(100) {
            Some(scaled) => scaled,
            None => u64::MAX,
        };
        let percent: u64 = scaled / total;
        if percent > 255 {
            Some(100)
        } else {
            Some(percent as u8)
        }
    };
    CacheView { l1, l2, effective_hit_rate_percent }
}

pub open spec fn sources_of(items: Seq<EntryView>) -> Seq<Seq<char>> {
    items.map_values(|e: EntryView| e.context.source_identity)
}

pub open spec fn summary_text(items: Seq<EntryView>) -> Seq<char> {
    "结构化历史摘要：已压缩 "@ + decimal(items.len()) + " 项；来源 ["@ + joined(
        sources_of(items),
        ", "@,
    ) + "]。原始项仍保存在前一 Context Series。"@
}

pub open spec fn preserved(items: Seq<EntryView>) -> Seq<Seq<char>> {
    items.map_values(|e: EntryView| "preserved-ref:"@ + e.context.id)
}

/// The summary of items. It costs what its text costs, at least one token and at most what it may.
pub open spec fn summary_of(items: Seq<EntryView>, tokens: u32, most: u32) -> Outcome<SummaryView> {
    if items.len() == 0 || most == 0 {
        failure("invalid-summary-input"@, "Summary 输入或预算为空"@)
    } else {
        Outcome::Done(
            SummaryView {
                summary: summary_text(items),
                active_assumptions: Seq::empty(),
                unresolved_blockers: Seq::empty(),
                completed_actions: preserved(items),
                next_goal: "继续当前 durable Goal"@,
                token_cost: if tokens > most {
                    most
                } else if tokens < 1 {
                    1
                } else {
                    tokens
                },
            },
        )
    }
}

/// Summaries that say where what was compacted can be found.
#[derive(Clone, Copy, Debug, Default)]
pub struct DeterministicSummaryProvider;

impl DeterministicSummaryProvider {
    /// The text of the summary of items.
    pub fn text(&self, items: &Vec<CompactionItem>) -> (r: String)
        ensures
            r@ == summary_text(views(items@)),
    {
        let ghost all = views(items@);
        let ghost spec = sources_of(all);
        let mut sources: Vec<String> = Vec::new();
        let mut i: usize = 0;
        while i < items.len()
            invariant
                i <= items.len(),
                all == views(items@),
                spec == sources_of(all),
                sources@.len() == i,
                forall|k: int| 0 <= k < i ==> (#[trigger] sources@[k])@ == spec[k],
            decreases items.len() - i,
        {
            assert(all[i as int] == items@[i as int]@);
            sources.push(items[i].context.source_identity.clone());
            i = i + 1;
        }
        assert(texts(sources@) =~= spec);
        let mut r: String = "结构化历史摘要：已压缩 ".to_string();
        r.append(decimal_of(items.len() as u64).as_str());
        r.append(" 项；来源 [");
        r.append(join(&sources, ", ").as_str());
        r.append("]。原始项仍保存在前一 Context Series。");
        r
    }

    /// The summary of items; `tokens` is what its text costs.
    pub fn summarize(&self, items: &Vec<CompactionItem>, tokens: u32, max_summary_tokens: u32) -> (r:
        Result<StructuredSummary, ApplicationError>)
        ensures
            outcome(r) == summary_of(views(items@), tokens, max_summary_tokens),
    {
        let ghost all = views(items@);
        assert(all.len() == items@.len());
        if items.len() == 0 || max_summary_tokens == 0 {
            return Err(
                ApplicationError::new("invalid-summary-input", "Summary 输入或预算为空"),
            );
        }
        let ghost spec = preserved(all);
        let mut completed_actions: Vec<String> = Vec::new();
        let mut i: usize = 0;
        while i < items.len()
            invariant
                i <= items.len(),
                all == views(items@),
                spec == preserved(all),
                completed_actions@.len() == i,
                forall|k: int| 0 <= k < i ==> (#[trigger] completed_actions@[k])@ == spec[k],
            decreases items.len() - i,
        {
            assert(all[i as int] == items@[i as int]@);
            let mut text: String = "preserved-ref:".to_string();
            text.append(items[i].context.id.as_str());
            completed_actions.push(text);
            i = i + 1;
        }
        assert(texts(completed_actions@) =~= spec);
        let r = StructuredSummary {
            summary: self.text(items),
            active_assumptions: Vec::new(),
            unresolved_blockers: Vec::new(),
            completed_actions,
            next_goal: "继续当前 durable Goal".to_string(),
            token_cost: if tokens > max_summary_tokens {
                max_summary_tokens
            } else if tokens < 1 {
                1
            } else {
                tokens
            },
        };
        assert(r@.active_assumptions =~= Seq::empty());
        assert(r@.unresolved_blockers =~= Seq::empty());
        Ok(r)
    }
}

} // verus!
