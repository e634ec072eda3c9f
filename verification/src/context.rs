//! The context of a session: items that are shown to models, in series that are never changed but
//! followed by others.

use vstd::prelude::*;
use vstd::string::*;

use crate::application::{AppView, HarnessApplication};
use crate::digest::{hash_text, text_hash};
use crate::error::{failure, outcome, ApplicationError, Outcome};
use crate::lsp::{answer_identity, answer_text, projection_note, record_lsp_tool_fact, LspAnswer, Projection};
use crate::json::Json;
use crate::model::{duplicate_all, duplicate_option, group_views, option_view, views, Duplicate};
use crate::text::{is_blank, is_blank_text, same};
use crate::tool_calls::{ConfidentialityLabel, IntegrityLabel};

verus! {

/// What an item is about.
#[derive(Clone, Copy, Debug, PartialEq, Eq, Structural)]
pub enum ContextKind {
    System,
    Constraint,
    Goal,
    Task,
    Agent,
    Conversation,
    Repository,
    Memory,
    Pinned,
    Tool,
    Decision,
    Error,
}

/// How much an item matters.
#[derive(Clone, Copy, Debug, PartialEq, Eq, Structural)]
pub enum Priority {
    Low,
    Medium,
    High,
    Critical,
}

/// Whether an item may be shortened.
#[derive(Clone, Copy, Debug, PartialEq, Eq, Structural)]
pub enum Compressibility {
    Exact,
    Structured,
}

/// How long an item stays the same.
#[derive(Clone, Copy, Debug, PartialEq, Eq, Structural)]
pub enum CacheClass {
    Static,
    SemiStable,
    DynamicTail,
}

/// An item of the context.
#[derive(Debug, PartialEq, Eq)]
pub struct ContextItem {
    pub id: String,
    pub kind: ContextKind,
    pub priority: Priority,
    pub token_cost: u32,
    pub source: String,
    pub timestamp_millis: i64,
    pub importance: u32,
    pub compressibility: Compressibility,
    pub ttl_millis: Option<i64>,
    pub content_hash: String,
    pub source_identity: String,
    pub integrity: IntegrityLabel,
    pub confidentiality: ConfidentialityLabel,
    pub cache_class: CacheClass,
    pub order: i32,
    pub hard_required: bool,
    pub content: String,
}

pub struct ItemView {
    pub id: Seq<char>,
    pub kind: ContextKind,
    pub priority: Priority,
    pub token_cost: u32,
    pub source: Seq<char>,
    pub timestamp_millis: i64,
    pub importance: u32,
    pub compressibility: Compressibility,
    pub ttl_millis: Option<i64>,
    pub content_hash: Seq<char>,
    pub source_identity: Seq<char>,
    pub integrity: IntegrityLabel,
    pub confidentiality: ConfidentialityLabel,
    pub cache_class: CacheClass,
    pub order: i32,
    pub hard_required: bool,
    pub content: Seq<char>,
}

impl View for ContextItem {
    type V = ItemView;

    open spec fn view(&self) -> ItemView {
        ItemView {
            id: self.id@,
            kind: self.kind,
            priority: self.priority,
            token_cost: self.token_cost,
            source: self.source@,
            timestamp_millis: self.timestamp_millis,
            importance: self.importance,
            compressibility: self.compressibility,
            ttl_millis: self.ttl_millis,
            content_hash: self.content_hash@,
            source_identity: self.source_identity@,
            integrity: self.integrity,
            confidentiality: self.confidentiality,
            cache_class: self.cache_class,
            order: self.order,
            hard_required: self.hard_required,
            content: self.content@,
        }
    }
}

impl Duplicate for ContextItem {
    fn duplicate(&self) -> (r: Self) {
        ContextItem {
            id: self.id.clone(),
            kind: self.kind,
            priority: self.priority,
            token_cost: self.token_cost,
            source: self.source.clone(),
            timestamp_millis: self.timestamp_millis,
            importance: self.importance,
            compressibility: self.compressibility,
            ttl_millis: self.ttl_millis,
            content_hash: self.content_hash.clone(),
            source_identity: self.source_identity.clone(),
            integrity: self.integrity,
            confidentiality: self.confidentiality,
            cache_class: self.cache_class,
            order: self.order,
            hard_required: self.hard_required,
            content: self.content.clone(),
        }
    }
}

/// An item with what binds it to others: a call and its result, or work that is under way.
#[derive(Debug, PartialEq, Eq)]
pub struct CompactionItem {
    pub context: ContextItem,
    pub pair_id: Option<String>,
    pub tool_phase: Option<String>,
    pub in_flight: bool,
}

pub struct EntryView {
    pub context: ItemView,
    pub pair_id: Option<Seq<char>>,
    pub tool_phase: Option<Seq<char>>,
    pub in_flight: bool,
}

impl View for CompactionItem {
    type V = EntryView;

    open spec fn view(&self) -> EntryView {
        EntryView {
            context: self.context@,
            pair_id: option_view(self.pair_id),
            tool_phase: option_view(self.tool_phase),
            in_flight: self.in_flight,
        }
    }
}

impl Duplicate for CompactionItem {
    fn duplicate(&self) -> (r: Self) {
        CompactionItem {
            context: self.context.duplicate(),
            pair_id: duplicate_option(&self.pair_id),
            tool_phase: duplicate_option(&self.tool_phase),
            in_flight: self.in_flight,
        }
    }
}

/// The context of a session at one time.
#[derive(Debug, PartialEq, Eq)]
pub struct ContextSeries {
    pub id: String,
    pub session_id: String,
    pub parent_series_id: Option<String>,
    pub restored_from_checkpoint_id: Option<String>,
    pub items: Vec<CompactionItem>,
    pub created_at_millis: i64,
}

pub struct SeriesView {
    pub id: Seq<char>,
    pub session_id: Seq<char>,
    pub parent_series_id: Option<Seq<char>>,
    pub restored_from_checkpoint_id: Option<Seq<char>>,
    pub items: Seq<EntryView>,
    pub created_at_millis: i64,
}

impl View for ContextSeries {
    type V = SeriesView;

    open spec fn view(&self) -> SeriesView {
        SeriesView {
            id: self.id@,
            session_id: self.session_id@,
            parent_series_id: option_view(self.parent_series_id),
            restored_from_checkpoint_id: option_view(self.restored_from_checkpoint_id),
            items: views(self.items@),
            created_at_millis: self.created_at_millis,
        }
    }
}

impl Duplicate for ContextSeries {
    fn duplicate(&self) -> (r: Self) {
        ContextSeries {
            id: self.id.clone(),
            session_id: self.session_id.clone(),
            parent_series_id: duplicate_option(&self.parent_series_id),
            restored_from_checkpoint_id: duplicate_option(&self.restored_from_checkpoint_id),
            items: duplicate_all(&self.items),
            created_at_millis: self.created_at_millis,
        }
    }
}

/// What is kept of a compaction: the series that it began with, the one that it led to, and what
/// each of them costs.
#[derive(Debug, PartialEq, Eq)]
pub struct CompactionRecord {
    pub previous_series_id: String,
    pub next_series_id: String,
    pub token_cost_before: u32,
    pub token_cost_after: u32,
}

pub struct CompactionRecordView {
    pub previous_series_id: Seq<char>,
    pub next_series_id: Seq<char>,
    pub token_cost_before: u32,
    pub token_cost_after: u32,
}

impl View for CompactionRecord {
    type V = CompactionRecordView;

    open spec fn view(&self) -> CompactionRecordView {
        CompactionRecordView {
            previous_series_id: self.previous_series_id@,
            next_series_id: self.next_series_id@,
            token_cost_before: self.token_cost_before,
            token_cost_after: self.token_cost_after,
        }
    }
}

impl Duplicate for CompactionRecord {
    fn duplicate(&self) -> (r: Self) {
        CompactionRecord {
            previous_series_id: self.previous_series_id.clone(),
            next_series_id: self.next_series_id.clone(),
            token_cost_before: self.token_cost_before,
            token_cost_after: self.token_cost_after,
        }
    }
}

/// A step from the series that is expected to be the active one to its successor, with the record
/// of the compaction if it is one.
#[derive(Debug, PartialEq, Eq)]
pub struct ContextTransition {
    pub expected_active_series_id: Option<String>,
    pub next_series: ContextSeries,
    pub compaction_record: Option<CompactionRecord>,
}

pub struct TransitionView {
    pub expected_active_series_id: Option<Seq<char>>,
    pub next_series: SeriesView,
    pub compaction_record: Option<CompactionRecordView>,
}

impl View for ContextTransition {
    type V = TransitionView;

    open spec fn view(&self) -> TransitionView {
        TransitionView {
            expected_active_series_id: option_view(self.expected_active_series_id),
            next_series: self.next_series@,
            compaction_record: option_view(self.compaction_record),
        }
    }
}

impl Duplicate for ContextTransition {
    fn duplicate(&self) -> (r: Self) {
        ContextTransition {
            expected_active_series_id: duplicate_option(&self.expected_active_series_id),
            next_series: self.next_series.duplicate(),
            compaction_record: duplicate_option(&self.compaction_record),
        }
    }
}

pub open spec fn importance_of(priority: Priority) -> u32 {
    match priority {
        Priority::Critical => 1000,
        Priority::High => 800,
        Priority::Medium => 500,
        Priority::Low => 200,
    }
}

pub open spec fn cache_class_of(kind: ContextKind) -> CacheClass {
    match kind {
        ContextKind::System | ContextKind::Constraint => CacheClass::Static,
        ContextKind::Repository | ContextKind::Memory | ContextKind::Pinned
            => CacheClass::SemiStable,
        _ => CacheClass::DynamicTail,
    }
}

/// A new item. It costs at least one token. What is required must not be shortened.
pub open spec fn fresh_item(
    id: Seq<char>,
    kind: ContextKind,
    priority: Priority,
    source: Seq<char>,
    content: Seq<char>,
    hard_required: bool,
    tokens: u32,
    now: i64,
) -> ItemView {
    ItemView {
        id,
        kind,
        priority,
        token_cost: if tokens < 1 {
            1
        } else {
            tokens
        },
        source,
        timestamp_millis: now,
        importance: importance_of(priority),
        compressibility: if hard_required {
            Compressibility::Exact
        } else {
            Compressibility::Structured
        },
        ttl_millis: None,
        content_hash: text_hash(content),
        source_identity: source,
        integrity: IntegrityLabel::Trusted,
        confidentiality: ConfidentialityLabel::ProjectPrivate,
        cache_class: cache_class_of(kind),
        order: 0,
        hard_required,
        content,
    }
}

/// Makes an item; `tokens` is what its content costs.
pub fn new_context_item(
    id: String,
    kind: ContextKind,
    priority: Priority,
    source_identity: &str,
    content: &str,
    hard_required: bool,
    tokens: u32,
    now: i64,
) -> (r: ContextItem)
    ensures
        r@ == fresh_item(
            id@,
            kind,
            priority,
            source_identity@,
            content@,
            hard_required,
            tokens,
            now,
        ),
{
    let importance: u32 = match priority {
        Priority::Critical => 1000,
        Priority::High => 800,
        Priority::Medium => 500,
        Priority::Low => 200,
    };
    let cache_class = match kind {
        ContextKind::System | ContextKind::Constraint => CacheClass::Static,
        ContextKind::Repository | ContextKind::Memory | ContextKind::Pinned
            => CacheClass::SemiStable,
        _ => CacheClass::DynamicTail,
    };
    ContextItem {
        id,
        kind,
        priority,
        token_cost: if tokens < 1 {
            1
        } else {
            tokens
        },
        source: source_identity.to_string(),
        timestamp_millis: now,
        importance,
        compressibility: if hard_required {
            Compressibility::Exact
        } else {
            Compressibility::Structured
        },
        ttl_millis: None,
        content_hash: hash_text(content),
        source_identity: source_identity.to_string(),
        integrity: IntegrityLabel::Trusted,
        confidentiality: ConfidentialityLabel::ProjectPrivate,
        cache_class,
        order: 0,
        hard_required,
        content: content.to_string(),
    }
}

pub open spec fn following(order: i32) -> i32 {
    if order == i32::MAX {
        order
    } else {
        (order + 1) as i32
    }
}

/// The greatest place that is taken.
pub open spec fn greatest_order(items: Seq<EntryView>) -> i32
    recommends
        items.len() > 0,
    decreases items.len(),
{
    if items.len() == 0 {
        0
    } else if items.len() == 1 {
        items[0].context.order
    } else {
        let before = greatest_order(items.drop_last());
        if items.last().context.order > before {
            items.last().context.order
        } else {
            before
        }
    }
}

/// The first free place behind all items.
pub open spec fn next_order(items: Seq<EntryView>) -> i32 {
    if items.len() == 0 {
        0
    } else {
        following(greatest_order(items))
    }
}

pub fn next_context_order(items: &Vec<CompactionItem>) -> (r: i32)
    ensures
        r == next_order(views(items@)),
{
    let ghost all = views(items@);
    if items.len() == 0 {
        return 0;
    }
    let mut greatest: i32 = items[0].context.order;
    let mut i: usize = 1;
    assert(all.subrange(0, 1).len() == 1);
    while i < items.len()
        invariant
            1 <= i <= items.len(),
            all == views(items@),
            greatest == greatest_order(all.subrange(0, i as int)),
        decreases items.len() - i,
    {
        let ghost next = all.subrange(0, i as int + 1);
        assert(next.drop_last() =~= all.subrange(0, i as int));
        assert(next.last() == items@[i as int]@);
        if items[i].context.order > greatest {
            greatest = items[i].context.order;
        }
        i = i + 1;
    }
    assert(all.subrange(0, all.len() as int) =~= all);
    if greatest == 0x7fff_ffff {
        greatest
    } else {
        greatest + 1
    }
}

pub open spec fn placed(item: ItemView, items: Seq<EntryView>) -> EntryView {
    EntryView {
        context: ItemView { order: next_order(items), ..item },
        pair_id: None,
        tool_phase: None,
        in_flight: false,
    }
}

/// The items with one more behind them.
pub open spec fn appended(items: Seq<EntryView>, item: ItemView) -> Seq<EntryView> {
    items.push(placed(item, items))
}

/// The items of other sources than one.
pub open spec fn without_source(items: Seq<EntryView>, source: Seq<char>) -> Seq<EntryView>
    decreases items.len(),
{
    if items.len() == 0 {
        Seq::empty()
    } else {
        let rest = without_source(items.drop_last(), source);
        if items.last().context.source_identity != source {
            rest.push(items.last())
        } else {
            rest
        }
    }
}

/// The items in which what a source said is replaced, or left out.
pub open spec fn replaced(
    items: Seq<EntryView>,
    source: Seq<char>,
    replacement: Option<ItemView>,
) -> Seq<EntryView> {
    match replacement {
        Some(item) => appended(without_source(items, source), item),
        None => without_source(items, source),
    }
}

/// The series after a series with other items.
pub open spec fn successor(
    s: AppView,
    current: SeriesView,
    restored_from: Option<Seq<char>>,
    items: Seq<EntryView>,
    id: Seq<char>,
    now: i64,
) -> TransitionView {
    TransitionView {
        expected_active_series_id: Some(current.id),
        next_series: SeriesView {
            id,
            session_id: s.session_id,
            parent_series_id: Some(current.id),
            restored_from_checkpoint_id: restored_from,
            items,
            created_at_millis: now,
        },
        compaction_record: None,
    }
}

fn same_text_option(a: &Option<String>, b: &Option<String>) -> (r: bool)
    ensures
        r == (option_view(*a) == option_view(*b)),
{
    match (a, b) {
        (Some(a), Some(b)) => same(a.as_str(), b.as_str()),
        (None, None) => true,
        _ => false,
    }
}

fn same_item(a: &ContextItem, b: &ContextItem) -> (r: bool)
    ensures
        r == (a@ == b@),
{
    let ttl = match (a.ttl_millis, b.ttl_millis) {
        (Some(a), Some(b)) => a == b,
        (None, None) => true,
        _ => false,
    };
    same(a.id.as_str(), b.id.as_str()) && a.kind == b.kind && a.priority == b.priority
        && a.token_cost == b.token_cost && same(a.source.as_str(), b.source.as_str())
        && a.timestamp_millis == b.timestamp_millis && a.importance == b.importance
        && a.compressibility == b.compressibility && ttl && same(
        a.content_hash.as_str(),
        b.content_hash.as_str(),
    ) && same(a.source_identity.as_str(), b.source_identity.as_str()) && a.integrity == b.integrity
        && a.confidentiality == b.confidentiality && a.cache_class == b.cache_class && a.order
        == b.order && a.hard_required == b.hard_required && same(
        a.content.as_str(),
        b.content.as_str(),
    )
}

fn same_items(a: &Vec<CompactionItem>, b: &Vec<CompactionItem>) -> (r: bool)
    ensures
        r == (views(a@) == views(b@)),
{
    assert(views(a@).len() == a@.len());
    assert(views(b@).len() == b@.len());
    if a.len() != b.len() {
        return false;
    }
    let mut i: usize = 0;
    while i < a.len()
        invariant
            i <= a.len() == b.len(),
            forall|k: int| 0 <= k < i ==> (#[trigger] views(a@)[k]) == views(b@)[k],
        decreases a.len() - i,
    {
        assert(views(a@)[i as int] == a@[i as int]@);
        assert(views(b@)[i as int] == b@[i as int]@);
        let x = &a[i];
        let y = &b[i];
        if !(same_item(&x.context, &y.context) && same_text_option(&x.pair_id, &y.pair_id)
            && same_text_option(&x.tool_phase, &y.tool_phase) && x.in_flight == y.in_flight) {
            assert(views(a@)[i as int] != views(b@)[i as int]);
            return false;
        }
        i = i + 1;
    }
    assert(views(a@) =~= views(b@));
    true
}

impl HarnessApplication {
    /// The step to a series with other items.
    pub fn commit_context_items(
        &self,
        current: &ContextSeries,
        items: Vec<CompactionItem>,
        series_id: &str,
        now: i64,
    ) -> (r: ContextTransition)
        ensures
            r@ == successor(self@, current@, None, views(items@), series_id@, now),
    {
        ContextTransition {
            expected_active_series_id: Some(current.id.clone()),
            next_series: ContextSeries {
                id: series_id.to_string(),
                session_id: self.session_id.clone(),
                parent_series_id: Some(current.id.clone()),
                restored_from_checkpoint_id: None,
                items,
                created_at_millis: now,
            },
            compaction_record: None,
        }
    }

    /// The step to a series with one more item.
    pub fn append_context_item(
        &self,
        current: &ContextSeries,
        item: ContextItem,
        series_id: &str,
        now: i64,
    ) -> (r: ContextTransition)
        ensures
            r@ == successor(
                self@,
                current@,
                None,
                appended(current@.items, item@),
                series_id@,
                now,
            ),
    {
        broadcast use group_views;

        let mut items = duplicate_all(&current.items);
        let mut context = item;
        context.order = next_context_order(&items);
        items.push(CompactionItem { context, pair_id: None, tool_phase: None, in_flight: false });
        assert(views(items@) =~= appended(current@.items, item@));
        self.commit_context_items(current, items, series_id, now)
    }

    /// The step to a series in which what a source said is replaced; none if that changes nothing.
    pub fn replace_context_source(
        &self,
        current: &ContextSeries,
        source_identity: &str,
        replacement: Option<ContextItem>,
        series_id: &str,
        now: i64,
    ) -> (r: Option<ContextTransition>)
        ensures
            option_view(r) == ({
                let items = replaced(
                    current@.items,
                    source_identity@,
                    option_view(replacement),
                );
                if items == current@.items {
                    None
                } else {
                    Some(successor(self@, current@, None, items, series_id@, now))
                }
            }),
    {
        broadcast use group_views;

        let ghost all = current@.items;
        let mut items: Vec<CompactionItem> = Vec::new();
        let mut i: usize = 0;
        assert(all.subrange(0, 0) =~= Seq::empty());
        assert(views(items@) =~= Seq::empty());
        while i < current.items.len()
            invariant
                i <= current.items.len(),
                all == views(current.items@),
                views(items@) == without_source(all.subrange(0, i as int), source_identity@),
            decreases current.items.len() - i,
        {
            let ghost next = all.subrange(0, i as int + 1);
            assert(next.drop_last() =~= all.subrange(0, i as int));
            assert(next.last() == current.items@[i as int]@);
            if !same(current.items[i].context.source_identity.as_str(), source_identity) {
                items.push(current.items[i].duplicate());
            }
            i = i + 1;
        }
        assert(all.subrange(0, all.len() as int) =~= all);
        assert(views(items@) == without_source(all, source_identity@));
        match replacement {
            Some(item) => {
                let mut context = item;
                context.order = next_context_order(&items);
                items.push(
                    CompactionItem { context, pair_id: None, tool_phase: None, in_flight: false },
                );
            },
            None => {},
        }
        assert(views(items@) =~= replaced(all, source_identity@, option_view(replacement)));
        if same_items(&items, &current.items) {
            return None;
        }
        Some(self.commit_context_items(current, items, series_id, now))
    }

    /// The step with which the answer of a language server comes into the context, in the place of an
    /// earlier one. It is not trusted.
    pub fn keep_lsp_fact(
        &self,
        current: &ContextSeries,
        tool_name: &str,
        answer: &LspAnswer,
        result: &Json,
        projection: &Projection,
        item_id: String,
        tokens: u32,
        series_id: &str,
        now: i64,
    ) -> (r: Option<ContextTransition>)
        ensures
            option_view(r) == ({
                let source = answer_identity(tool_name@, answer@);
                let items = replaced(
                    current@.items,
                    source,
                    Some(
                        fact_item(
                            item_id@,
                            source,
                            answer_text(
                                tool_name@,
                                answer@,
                                result@,
                                projection_note(projection@),
                            ),
                            tokens,
                            now,
                        ),
                    ),
                );
                if items == current@.items {
                    None
                } else {
                    Some(successor(self@, current@, None, items, series_id@, now))
                }
            }),
    {
        let (identity, content) = record_lsp_tool_fact(tool_name, answer, result, projection);
        let mut item = new_context_item(
            item_id,
            ContextKind::Repository,
            Priority::High,
            identity.as_str(),
            content.as_str(),
            false,
            tokens,
            now,
        );
        item.integrity = IntegrityLabel::Untrusted;
        self.replace_context_source(current, identity.as_str(), Some(item), series_id, now)
    }
}

/// The item that an answer of a language server becomes.
pub open spec fn fact_item(
    id: Seq<char>,
    source: Seq<char>,
    content: Seq<char>,
    tokens: u32,
    now: i64,
) -> ItemView {
    ItemView {
        integrity: IntegrityLabel::Untrusted,
        ..fresh_item(
            id,
            ContextKind::Repository,
            Priority::High,
            source,
            content,
            false,
            tokens,
            now,
        )
    }
}

/// The item that a goal becomes.
pub open spec fn goal_item(id: Seq<char>, text: Seq<char>, tokens: u32, now: i64) -> ItemView {
    fresh_item(
        id,
        ContextKind::Goal,
        Priority::Critical,
        "goal:active"@,
        text,
        true,
        tokens,
        now,
    )
}

/// Whether the context holds a goal already.
pub open spec fn holds_goal(items: Seq<EntryView>, text: Seq<char>) -> bool {
    exists|i: int|
        0 <= i < items.len() && (#[trigger] items[i]).context.source_identity == "goal:active"@
            && items[i].context.content == text
}

/// Whether the context holds the goal of the session.
pub fn goal_in_context(current: &ContextSeries, text: &str) -> (r: bool)
    ensures
        r == holds_goal(current@.items, text@),
{
    let ghost all = current@.items;
    let mut i: usize = 0;
    while i < current.items.len()
        invariant
            i <= current.items.len(),
            all == views(current.items@),
            forall|k: int|
                0 <= k < i ==> !((#[trigger] all[k]).context.source_identity == "goal:active"@
                    && all[k].context.content == text@),
        decreases current.items.len() - i,
    {
        assert(all[i as int] == current.items@[i as int]@);
        let context = &current.items[i].context;
        if same(context.source_identity.as_str(), "goal:active") && same(
            context.content.as_str(),
            text,
        ) {
            return true;
        }
        i = i + 1;
    }
    false
}

/// The item for a goal.
pub fn replace_goal_context(item_id: String, text: &str, tokens: u32, now: i64) -> (r: ContextItem)
    ensures
        r@ == goal_item(item_id@, text@, tokens, now),
{
    new_context_item(
        item_id,
        ContextKind::Goal,
        Priority::Critical,
        "goal:active",
        text,
        true,
        tokens,
        now,
    )
}

/// The item for something that the user pins, whatever else is left out.
pub fn pin(value: &str, source_id: &str, item_id: String, tokens: u32, now: i64) -> (r: Result<
    ContextItem,
    ApplicationError,
>)
    ensures
        outcome(r) == if is_blank_text(value@) {
            failure("empty-pin"@, "Pin 内容不能为空"@)
        } else {
            Outcome::Done(
                fresh_item(
                    item_id@,
                    ContextKind::Pinned,
                    Priority::Critical,
                    "pin:"@ + source_id@,
                    value@,
                    true,
                    tokens,
                    now,
                ),
            )
        },
{
    if is_blank(value) {
        return Err(ApplicationError::new("empty-pin", "Pin 内容不能为空"));
    }
    let mut source: String = "pin:".to_string();
    source.append(source_id);
    Ok(
        new_context_item(
            item_id,
            ContextKind::Pinned,
            Priority::Critical,
            source.as_str(),
            value,
            true,
            tokens,
            now,
        ),
    )
}

/// The item for what the user wants looked at; none if there is nothing to look at any more.
pub fn focus(value: Option<&str>, item_id: String, tokens: u32, now: i64) -> (r: Result<
    Option<ContextItem>,
    ApplicationError,
>)
    ensures
        value matches Some(text) ==> is_blank_text(text@) ==> (r matches Err(e) && e@ == (
        crate::error::ErrorView { code: "empty-focus"@, message: "Focus 不能为空"@ })),
        value matches Some(text) ==> !is_blank_text(text@) ==> (r matches Ok(Some(item)) && item@
            == fresh_item(
            item_id@,
            ContextKind::Task,
            Priority::High,
            "focus:active"@,
            text@,
            true,
            tokens,
            now,
        )),
        value is None ==> r matches Ok(None),
{
    match value {
        Some(text) => {
            if is_blank(text) {
                return Err(ApplicationError::new("empty-focus", "Focus 不能为空"));
            }
            Ok(
                Some(
                    new_context_item(
                        item_id,
                        ContextKind::Task,
                        Priority::High,
                        "focus:active",
                        text,
                        true,
                        tokens,
                        now,
                    ),
                ),
            )
        },
        None => Ok(None),
    }
}

proof fn lemma_greatest(items: Seq<EntryView>, i: int)
    requires
        0 <= i < items.len(),
    ensures
        items[i].context.order <= greatest_order(items),
    decreases items.len(),
{
    if items.len() > 1 && i < items.len() - 1 {
        assert(items.drop_last()[i] == items[i]);
        lemma_greatest(items.drop_last(), i);
    }
}

/// An item that is added comes behind all others, as long as there are places left.
pub proof fn law_added_items_come_last(items: Seq<EntryView>, item: ItemView, i: int)
    requires
        0 <= i < items.len(),
    ensures
        items[i].context.order <= appended(items, item).last().context.order,
        greatest_order(items) < i32::MAX ==> items[i].context.order < appended(
            items,
            item,
        ).last().context.order,
{
    lemma_greatest(items, i);
}

proof fn lemma_without(items: Seq<EntryView>, source: Seq<char>)
    ensures
        without_source(without_source(items, source), source) == without_source(items, source),
        forall|i: int|
            0 <= i < without_source(items, source).len() ==> (#[trigger] without_source(
                items,
                source,
            )[i]).context.source_identity != source,
    decreases items.len(),
{
    if items.len() > 0 {
        lemma_without(items.drop_last(), source);
        let rest = without_source(items.drop_last(), source);
        if items.last().context.source_identity != source {
            assert(rest.push(items.last()).drop_last() =~= rest);
        }
    }
}

/// After a replacement a source says what it was replaced by and nothing else; what other sources
/// said stays.
pub proof fn law_a_source_speaks_once(
    items: Seq<EntryView>,
    source: Seq<char>,
    replacement: Option<ItemView>,
)
    requires
        replacement matches Some(item) ==> item.source_identity == source,
    ensures
        without_source(replaced(items, source, replacement), source) == without_source(
            items,
            source,
        ),
        replacement is None ==> forall|i: int|
            0 <= i < replaced(items, source, replacement).len() ==> (#[trigger] replaced(
                items,
                source,
                replacement,
            )[i]).context.source_identity != source,
        replacement matches Some(item) ==> replaced(items, source, replacement).last().context.content
            == item.content,
{
    lemma_without(items, source);
    let kept = without_source(items, source);
    match replacement {
        Some(item) => {
            assert(appended(kept, item).drop_last() =~= kept);
        },
        None => {},
    }
}

} // verus!
