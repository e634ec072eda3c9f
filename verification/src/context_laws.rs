//! What a context holds, what is kept of it, and what a model is told of it; and what a session shows
//! of its goals.

use vstd::prelude::*;

use crate::application::AppView;
use crate::checkpoints::{
    checkpoint_of, committed, first_series, fork_commands, named, refs_of, reset_check, reset_shown,
    resolved, retained, CheckpointModel, ContextsView, FirstSeriesView,
};
use crate::context::{
    appended, fact_item, fresh_item, goal_item, greatest_order, holds_goal, replaced, successor,
    without_source, CacheClass, Compressibility, ContextKind, EntryView, ItemView,
    Priority, SeriesView, TransitionView,
};
use crate::error::Outcome;
use crate::mission::MissionView;
use crate::profile::ReasoningLevel;
use crate::prompts::{
    fullness, hit_rate, segment_of, segments_of, segments_with, summary_of, MetricsView,
    PromptCacheability, SegmentView,
};
use crate::session::{
    choose_models, current_goal, history_shown, model_course, new_goal, revisions_of, status_shown,
    summary_shown, GoalRevision, GoalView, ModelCourseView,
    RuntimeView, SessionCommandView, SessionModelView, SessionStateView,
};
use crate::sorting::by_rank;
use crate::text::text_less;
use crate::tool_calls::IntegrityLabel;
use crate::turn_laws::held_at;

verus! {

/// A new item is what it was made of. It costs at least one token; what is required is kept to the
/// letter, and nothing else is; the higher its priority, the more important it is.
pub proof fn law_items_are_what_they_are_made_of(
    id: Seq<char>,
    kind: ContextKind,
    priority: Priority,
    source: Seq<char>,
    content: Seq<char>,
    required: bool,
    tokens: u32,
    now: i64,
)
    ensures
        ({
            let x = fresh_item(id, kind, priority, source, content, required, tokens, now);
            &&& x.id == id && x.kind == kind && x.priority == priority && x.content == content
            &&& x.source == source && x.source_identity == source
            &&& x.token_cost >= 1 && (tokens >= 1 ==> x.token_cost == tokens)
            &&& x.timestamp_millis == now && x.ttl_millis is None
            &&& x.content_hash == crate::digest::text_hash(content)
            &&& x.hard_required == required
            &&& x.compressibility == Compressibility::Exact <==> required
            &&& x.integrity == IntegrityLabel::Trusted
            &&& x.cache_class == CacheClass::Static <==> kind is System || kind is Constraint
            &&& x.cache_class == CacheClass::SemiStable <==> kind is Repository || kind is Memory
                || kind is Pinned
        }),
        ({
            let at = |p: Priority|
                fresh_item(id, kind, p, source, content, required, tokens, now).importance;
            at(Priority::Critical) > at(Priority::High) > at(Priority::Medium) > at(Priority::Low)
        }),
{
}

/// What a language server has said is not trusted; a goal is required and comes before all else.
pub proof fn law_facts_are_not_trusted_and_goals_are_required(
    id: Seq<char>,
    source: Seq<char>,
    content: Seq<char>,
    tokens: u32,
    now: i64,
    items: Seq<EntryView>,
)
    ensures
        fact_item(id, source, content, tokens, now).integrity == IntegrityLabel::Untrusted,
        !fact_item(id, source, content, tokens, now).hard_required,
        fact_item(id, source, content, tokens, now).content == content,
        fact_item(id, source, content, tokens, now).source_identity == source,
        goal_item(id, content, tokens, now).hard_required,
        goal_item(id, content, tokens, now).priority is Critical,
        goal_item(id, content, tokens, now).kind is Goal,
        goal_item(id, content, tokens, now).content == content,
        holds_goal(appended(items, goal_item(id, content, tokens, now)), content),
{
    let after = appended(items, goal_item(id, content, tokens, now));
    assert(after[items.len() as int].context.content == content);
    assert(after[items.len() as int].context.source_identity == "goal:active"@);
}

/// The greatest place is one that is taken, and no place that is taken is greater.
pub proof fn law_the_greatest_place_is_taken(items: Seq<EntryView>)
    requires
        items.len() > 0,
    ensures
        exists|i: int| 0 <= i < items.len() && (#[trigger] items[i]).context.order == greatest_order(
            items,
        ),
        forall|i: int|
            0 <= i < items.len() ==> (#[trigger] items[i]).context.order <= greatest_order(items),
    decreases items.len(),
{
    let last = items[items.len() - 1];
    if items.len() > 1 {
        let before = items.drop_last();
        law_the_greatest_place_is_taken(before);
        let i = choose|i: int|
            0 <= i < before.len() && (#[trigger] before[i]).context.order == greatest_order(before);
        assert(items[i].context.order == greatest_order(before));
        assert forall|j: int| 0 <= j < items.len() implies (#[trigger] items[j]).context.order
            <= greatest_order(items) by {
            if j < before.len() {
                assert(before[j].context.order <= greatest_order(before));
            }
        }
    }
    assert(last.context.order <= greatest_order(items));
}

/// An item that is added stands behind the others, which stay as they were; only its place is given to
/// it, the next one after the greatest.
pub proof fn law_added_items_stand_behind(items: Seq<EntryView>, item: ItemView)
    ensures
        ({
            let after = appended(items, item);
            let x = after[items.len() as int];
            &&& after.len() == items.len() + 1
            &&& forall|i: int| 0 <= i < items.len() ==> #[trigger] after[i] == items[i]
            &&& x.context == (ItemView { order: x.context.order, ..item })
            &&& x.pair_id is None && x.tool_phase is None && !x.in_flight
            &&& items.len() == 0 ==> x.context.order == 0
            &&& items.len() > 0 ==> x.context.order == held_at(
                i32::MAX as int,
                greatest_order(items) + 1,
            )
        }),
{
}

/// What other sources than one have said.
pub open spec fn not_from(source: Seq<char>) -> spec_fn(EntryView) -> bool {
    |e: EntryView| e.context.source_identity != source
}

/// Replacing what a source has said takes all of it out, leaves all that others have said in its order,
/// and puts the new thing behind it.
pub proof fn law_replacing_leaves_the_others(
    items: Seq<EntryView>,
    source: Seq<char>,
    item: ItemView,
)
    ensures
        without_source(items, source) == items.filter(not_from(source)),
        replaced(items, source, None) == items.filter(not_from(source)),
        replaced(items, source, Some(item)) == appended(items.filter(not_from(source)), item),
    decreases items.len(),
{
    reveal(Seq::filter);
    if items.len() > 0 {
        law_replacing_leaves_the_others(items.drop_last(), source, item);
    }
}

/// The series after another one has its own name and what it was given, knows the one that it comes
/// from, and is taken only if that one is still in use.
pub proof fn law_series_follow_one_another(
    s: AppView,
    current: SeriesView,
    from: Option<Seq<char>>,
    items: Seq<EntryView>,
    id: Seq<char>,
    now: i64,
    contexts: ContextsView,
    step: TransitionView,
)
    ensures
        ({
            let x = successor(s, current, from, items, id, now);
            &&& x.expected_active_series_id == Some(current.id)
            &&& x.next_series == (SeriesView {
                id,
                session_id: s.session_id,
                parent_series_id: Some(current.id),
                restored_from_checkpoint_id: from,
                items,
                created_at_millis: now,
            })
            &&& x.compaction_record is None
        }),
        contexts.active != step.expected_active_series_id ==> committed(contexts, step) == contexts,
        contexts.active == step.expected_active_series_id ==> {
            let after = committed(contexts, step);
            &&& after.active == Some(step.next_series.id)
            &&& after.stored == contexts.stored.insert(step.next_series.id, step.next_series)
            &&& step.compaction_record is None ==> after.compactions == contexts.compactions
            &&& step.compaction_record matches Some(r) ==> after.compactions
                == contexts.compactions + seq![r]
        },
{
    if let Some(r) = step.compaction_record {
        assert(contexts.compactions.push(r) =~= contexts.compactions + seq![r]);
    }
}

pub open spec fn of_kind(kind: ContextKind) -> spec_fn(EntryView) -> bool {
    |e: EntryView| e.context.kind == kind
}

pub open spec fn id_of() -> spec_fn(EntryView) -> Seq<char> {
    |e: EntryView| e.context.id
}

proof fn lemma_refs(items: Seq<EntryView>, kind: ContextKind)
    ensures
        refs_of(items, kind) == items.filter(of_kind(kind)).map_values(id_of()),
    decreases items.len(),
{
    reveal(Seq::filter);
    if items.len() > 0 {
        lemma_refs(items.drop_last(), kind);
        if items.last().context.kind == kind {
            assert(items.filter(of_kind(kind)).map_values(id_of()) =~= items.drop_last().filter(
                of_kind(kind),
            ).map_values(id_of()).push(items.last().context.id));
        }
    } else {
        assert(items.filter(of_kind(kind)).map_values(id_of()) =~= Seq::<Seq<char>>::empty());
    }
}

/// A checkpoint points at the series in use, at the goal and the mission of that time, and at every
/// decision, constraint, error and memory in the series, in their order.
pub proof fn law_checkpoints_point_at_what_counts(
    s: AppView,
    session: SessionStateView,
    series: SeriesView,
    name: Option<Seq<char>>,
    id: Seq<char>,
    fingerprint: Seq<char>,
    now: i64,
)
    ensures
        ({
            let c = checkpoint_of(s, session, series, name, id, fingerprint, now);
            let ids = |kind: ContextKind| series.items.filter(of_kind(kind)).map_values(id_of());
            &&& c.id == id && c.name == name && c.session_id == s.session_id
            &&& c.context_series_id == series.id && c.created_at_millis == now
            &&& c.goal_revision_id == session.goal.current_revision_id
            &&& c.plan_revision == s.active_mission_id && c.prompt_fingerprint == fingerprint
            &&& c.decision_refs == ids(ContextKind::Decision)
            &&& c.constraint_refs == ids(ContextKind::Constraint)
            &&& c.error_refs == ids(ContextKind::Error)
            &&& c.memory_refs == ids(ContextKind::Memory)
        }),
{
    lemma_refs(series.items, ContextKind::Decision);
    lemma_refs(series.items, ContextKind::Constraint);
    lemma_refs(series.items, ContextKind::Error);
    lemma_refs(series.items, ContextKind::Memory);
}

pub open spec fn is_called(name: Seq<char>) -> spec_fn(CheckpointModel) -> bool {
    |c: CheckpointModel| c.name == Some(name)
}

proof fn lemma_named(all: Seq<CheckpointModel>, name: Seq<char>)
    ensures
        named(all, name) == all.filter(is_called(name)),
    decreases all.len(),
{
    reveal(Seq::filter);
    if all.len() > 0 {
        lemma_named(all.drop_last(), name);
    }
}

proof fn lemma_first(all: Seq<CheckpointModel>, id: Seq<char>)
    requires
        crate::checkpoints::has_id(all, id),
    ensures
        crate::checkpoints::first_with_id(all, id).id == id,
        all.contains(crate::checkpoints::first_with_id(all, id)),
    decreases all.len(),
{
    let i = choose|i: int| 0 <= i < all.len() && (#[trigger] all[i]).id == id;
    if all[0].id != id {
        let rest = all.drop_first();
        assert(rest[i - 1] == all[i]);
        lemma_first(rest, id);
        let c = crate::checkpoints::first_with_id(rest, id);
        let k = rest.index_of(c);
        assert(all[k + 1] == c);
    } else {
        assert(all.contains(all[0]));
    }
}

/// A checkpoint is found by its id. If none has it, it is found by its name, as long as exactly one is
/// called so.
pub proof fn law_checkpoints_are_found(all: Seq<CheckpointModel>, reference: Seq<char>)
    ensures
        ({
            let by_id = exists|i: int| 0 <= i < all.len() && (#[trigger] all[i]).id == reference;
            let called = all.filter(is_called(reference));
            &&& resolved(all, reference) is Done <==> by_id || called.len() == 1
            &&& resolved(all, reference) matches Outcome::Done(c) ==> {
                &&& by_id ==> c.id == reference && all.contains(c)
                &&& !by_id ==> called == seq![c]
            }
            &&& resolved(all, reference) matches Outcome::Failed(e) ==> e.code == if called.len()
                == 0 {
                "checkpoint-not-found"@
            } else {
                "checkpoint-name-ambiguous"@
            }
        }),
{
    lemma_named(all, reference);
    if crate::checkpoints::has_id(all, reference) {
        lemma_first(all, reference);
    } else if all.filter(is_called(reference)).len() == 1 {
        let called = all.filter(is_called(reference));
        assert(called =~= seq![called[0]]);
    }
}

pub open spec fn is_kept() -> spec_fn(EntryView) -> bool {
    |e: EntryView| e.context.kind == ContextKind::Goal || e.context.hard_required
}

/// A reset keeps the goals and what is required, in their order, and tells how many items it has kept
/// and how many not. It has to wait while the active mission is on.
pub proof fn law_resets_keep_goals_and_what_is_required(
    items: Seq<EntryView>,
    checkpoint: Seq<char>,
    current: SeriesView,
    next: Seq<char>,
    s: AppView,
    mission: Option<MissionView>,
)
    requires
        current.items == items,
        items.len() <= usize::MAX,
    ensures
        retained(items) == items.filter(is_kept()),
        retained(items).len() <= items.len(),
        ({
            let shown = reset_shown(checkpoint, current, next);
            &&& shown.retained_items == items.filter(is_kept()).len()
            &&& shown.removed_items + shown.retained_items == items.len()
            &&& shown.checkpoint_id == checkpoint && shown.previous_series_id == current.id
                && shown.next_series_id == next
        }),
        reset_check(s, mission) is Failed <==> s.active_mission_id is Some && mission is Some
            && mission->Some_0.status is Running,
    decreases items.len(),
{
    reveal(Seq::filter);
    if items.len() > 0 {
        law_resets_keep_goals_and_what_is_required(
            items.drop_last(),
            checkpoint,
            SeriesView { items: items.drop_last(), ..current },
            next,
            s,
            mission,
        );
    }
}

/// A child of a session is made at the checkpoint, has the model and the reasoning of its parent once
/// its commands are carried out, and the goal that the parent had at the checkpoint.
pub proof fn law_children_take_after_their_parent(
    s: AppView,
    parent: SessionStateView,
    checkpoint: CheckpointModel,
    child: Seq<char>,
    goal: Seq<char>,
    now: i64,
)
    requires
        parent.model.provider_id is Some <==> parent.model.model_id is Some,
    ensures
        ({
            let commands = fork_commands(s, parent, checkpoint, child, goal, now);
            let fresh = SessionModelView {
                provider_id: None,
                model_id: None,
                reasoning: ReasoningLevel::Off,
            };
            let had = checkpoint.goal_revision_id is Some && parent.goal.revisions.contains_key(
                checkpoint.goal_revision_id->Some_0,
            );
            &&& choose_models(fresh, commands) == parent.model
            &&& commands.len() > 0 && commands[0] == (SessionCommandView::ForkSession {
                child_session_id: child,
                project_id: s.project_id,
                parent_session_id: s.session_id,
                checkpoint_id: checkpoint.id,
            })
            &&& commands.last() is ReviseGoal <==> had
            &&& commands.last() matches SessionCommandView::ReviseGoal { revision } ==> {
                &&& revision.id == goal && revision.parent_revision_id is None
                &&& revision.text
                    == parent.goal.revisions[checkpoint.goal_revision_id->Some_0].text
                &&& revision.created_at_millis == now
            }
        }),
{
    reveal_with_fuel(choose_models, 5);
    let commands = fork_commands(s, parent, checkpoint, child, goal, now);
    let c1 = commands.drop_last();
    let c2 = c1.drop_last();
    let c3 = c2.drop_last();
    if commands.len() > 1 {
        assert(c1.len() == commands.len() - 1);
        assert(c1.last() == commands[commands.len() - 2]);
    }
    if commands.len() > 2 {
        assert(c2.last() == commands[commands.len() - 3]);
    }
    if commands.len() > 3 {
        assert(c3.last() == commands[commands.len() - 4]);
    }
}

/// A session that was forked begins with the context of its parent at the checkpoint; one that was not
/// begins anew; and half of a parentage is none.
pub proof fn law_forks_begin_at_their_checkpoint(x: SessionStateView)
    ensures
        match first_series(x) {
            Outcome::Done(FirstSeriesView::Fork { parent_session_id, checkpoint_id }) =>
                x.parent_session_id == Some(parent_session_id) && x.forked_from_checkpoint_id
                    == Some(checkpoint_id),
            Outcome::Done(FirstSeriesView::Fresh) => x.parent_session_id is None
                && x.forked_from_checkpoint_id is None,
            Outcome::Failed(e) => x.parent_session_id is Some <==> x.forked_from_checkpoint_id
                is None,
        },
{
}

/// An item is told as it is: with its own words, place and source, and in the voice of its kind.
pub proof fn law_items_are_told_as_they_are(items: Seq<ItemView>, i: int)
    requires
        0 <= i < items.len(),
    ensures
        segments_of(items).len() == items.len(),
        ({
            let x = segments_of(items)[i];
            let item = items[i];
            &&& x.id == item.id && x.content == item.content && x.order == item.order
            &&& x.source_reference == item.source
            &&& x.role is System <==> item.kind is System
            &&& x.role is Developer <==> item.kind is Constraint
            &&& x.role is Tool <==> item.kind is Tool
            &&& x.cacheability is Static <==> item.cache_class is Static
            &&& x.cacheability is SemiStable <==> item.cache_class is SemiStable
        }),
{
}

/// The more important an item is, the more it counts.
pub proof fn law_priorities_count(a: ItemView, b: ItemView)
    ensures
        a.priority is Critical && !(b.priority is Critical) ==> segment_of(a).priority > segment_of(
            b,
        ).priority,
        a.priority is High && (b.priority is Medium || b.priority is Low) ==> segment_of(a).priority
            > segment_of(b).priority,
        a.priority is Medium && b.priority is Low ==> segment_of(a).priority > segment_of(b).priority,
        a.priority == b.priority ==> segment_of(a).priority == segment_of(b).priority,
{
}

pub open spec fn stays(stable: bool) -> spec_fn(SegmentView) -> bool {
    |x: SegmentView| (x.cacheability == PromptCacheability::Static) == stable
}

/// What stays the same is told apart from what does not, each in its order.
pub proof fn law_what_stays_is_told_apart(segments: Seq<SegmentView>, stable: bool)
    ensures
        segments_with(segments, stable) == segments.filter(stays(stable)),
    decreases segments.len(),
{
    reveal(Seq::filter);
    if segments.len() > 0 {
        law_what_stays_is_told_apart(segments.drop_last(), stable);
    }
}

/// A context is as full as the hundredths of its limit that are used, counted in whole ones.
pub proof fn law_fullness_is_counted_in_hundredths(used: u32, most: u32)
    requires
        most > 0,
        used <= most,
        used * 100 <= u32::MAX,
    ensures
        fullness(used, most) * most <= used * 100,
        used * 100 < (fullness(used, most) + 1) * most,
{
    let all: int = used * 100;
    let n: int = most as int;
    let q = all / n;
    vstd::arithmetic::div_mod::lemma_fundamental_div_mod(all, n);
    vstd::arithmetic::div_mod::lemma_mod_bound(all, n);
    assert(n * q <= all && all < n * q + n);
    assert(q <= 100) by (nonlinear_arith)
        requires
            n * q <= all,
            all <= 100 * n,
            n > 0,
    ;
    assert(q >= 0) by (nonlinear_arith)
        requires
            all < n * q + n,
            all >= 0,
            n > 0,
    ;
    assert(fullness(used, most) == q);
    assert(q * n <= all && all < (q + 1) * n) by (nonlinear_arith)
        requires
            n * q <= all,
            all < n * q + n,
    ;
}

/// The caches were hit as often as the hundredths tell, in whole ones; nothing is told of caches that
/// were never asked. A cache that is not there counts for nothing.
pub proof fn law_hits_are_counted_in_hundredths(l1: MetricsView, l2: Option<MetricsView>)
    requires
        l1.hits + l1.misses + (match l2 {
            Some(m) => m.hits + m.misses,
            None => 0,
        }) <= u64::MAX / 100,
    ensures
        ({
            let hits = l1.hits + match l2 {
                Some(m) => m.hits as int,
                None => 0,
            };
            let misses = l1.misses + match l2 {
                Some(m) => m.misses as int,
                None => 0,
            };
            &&& hit_rate(l1, l2) is None <==> hits + misses == 0
            &&& hit_rate(l1, l2) matches Some(rate) ==> {
                &&& rate <= 100
                &&& rate * (hits + misses) <= hits * 100
                &&& hits * 100 < (rate + 1) * (hits + misses)
            }
        }),
{
    let hits = l1.hits + match l2 {
        Some(m) => m.hits as int,
        None => 0,
    };
    let misses = l1.misses + match l2 {
        Some(m) => m.misses as int,
        None => 0,
    };
    let n = hits + misses;
    if n > 0 {
        let all = hits * 100;
        let q = all / n;
        vstd::arithmetic::div_mod::lemma_fundamental_div_mod(all, n);
        vstd::arithmetic::div_mod::lemma_mod_bound(all, n);
        assert(q <= 100) by (nonlinear_arith)
            requires
                n * q <= all,
                all <= 100 * n,
                n > 0,
        ;
        assert(q >= 0) by (nonlinear_arith)
            requires
                all < n * q + n,
                all >= 0,
                n > 0,
        ;
        assert(q * n <= all && all < (q + 1) * n) by (nonlinear_arith)
            requires
                n * q <= all,
                all < n * q + n,
        ;
    }
}

/// A summary of items names each of them once, in their order, and costs at least one token and no
/// more than it may.
pub proof fn law_summaries_name_what_they_stand_for(
    items: Seq<EntryView>,
    tokens: u32,
    most: u32,
)
    ensures
        summary_of(items, tokens, most) is Done <==> items.len() > 0 && most > 0,
        summary_of(items, tokens, most) matches Outcome::Done(x) ==> {
            &&& 1 <= x.token_cost <= most
            &&& 1 <= tokens <= most ==> x.token_cost == tokens
            &&& x.completed_actions.len() == items.len()
            &&& forall|i: int|
                0 <= i < items.len() ==> #[trigger] x.completed_actions[i] == "preserved-ref:"@
                    + items[i].context.id
            &&& x.active_assumptions.len() == 0 && x.unresolved_blockers.len() == 0
        },
{
}

/// A goal that the user sets comes after the one that the session has, and says what they have said.
pub proof fn law_goals_come_one_after_the_other(
    x: SessionStateView,
    id: Seq<char>,
    text: Seq<char>,
    now: i64,
)
    ensures
        new_goal(x, id, text, now).id == id,
        new_goal(x, id, text, now).text == text,
        new_goal(x, id, text, now).parent_revision_id == x.goal.current_revision_id,
        new_goal(x, id, text, now).created_at_millis == now,
        current_goal(x.goal) is Some <==> x.goal.current_revision_id is Some
            && x.goal.revisions.contains_key(x.goal.current_revision_id->Some_0),
        current_goal(x.goal) matches Some(r) ==> r
            == x.goal.revisions[x.goal.current_revision_id->Some_0],
{
}

/// The history shows the goals of a session, the latest first, and of those of one time the one with
/// the greater name; as many as are asked for, at least one and no more than two hundred.
pub proof fn law_histories_show_the_latest_first(goal: GoalView, limit: usize)
    ensures
        ({
            let shown = history_shown(goal, limit).revisions;
            let all = revisions_of(goal);
            let most = if limit < 1 {
                1int
            } else {
                held_at(200, limit as int)
            };
            &&& shown.len() == held_at(most, all.len() as int)
            &&& forall|i: int| 0 <= i < shown.len() ==> all.contains(#[trigger] shown[i])
            &&& forall|i: int, j: int|
                0 <= i < j < shown.len() ==> {
                    let a = #[trigger] shown[i];
                    let b = #[trigger] shown[j];
                    a.created_at_millis > b.created_at_millis || (a.created_at_millis
                        == b.created_at_millis && !text_less(a.id, b.id))
                }
            &&& all.len() <= most ==> shown.to_multiset() == all.to_multiset()
            &&& history_shown(goal, limit).current_revision_id == goal.current_revision_id
            &&& history_shown(goal, limit).locked == goal.locked
        }),
{
    broadcast use vstd::seq_lib::group_to_multiset_ensures;

    let all = revisions_of(goal);
    let sorted = by_rank::<GoalRevision>(all);
    crate::sorting::law_sorting_orders_the_items::<GoalRevision>(all);
    let shown = history_shown(goal, limit).revisions;
    assert forall|i: int| 0 <= i < shown.len() implies all.contains(#[trigger] shown[i]) by {
        assert(sorted[i] == shown[i]);
        assert(sorted.contains(shown[i]));
        assert(sorted.to_multiset().count(shown[i]) > 0);
        assert(all.to_multiset().count(shown[i]) > 0);
    }
    assert forall|i: int, j: int| 0 <= i < j < shown.len() implies {
        let a = #[trigger] shown[i];
        let b = #[trigger] shown[j];
        a.created_at_millis > b.created_at_millis || (a.created_at_millis == b.created_at_millis
            && !text_less(a.id, b.id))
    } by {
        assert(sorted[i] == shown[i] && sorted[j] == shown[j]);
        assert(!(sorted[j].created_at_millis > sorted[i].created_at_millis || (
        sorted[j].created_at_millis == sorted[i].created_at_millis && text_less(
            sorted[i].id,
            sorted[j].id,
        ))));
    }
}

/// What is shown of a session is what it is, and whether it is the one in use.
pub proof fn law_sessions_are_shown_as_they_are(
    s: AppView,
    x: SessionStateView,
    runtime: Option<RuntimeView>,
    id: Seq<char>,
)
    ensures
        ({
            let shown = status_shown(s, x, runtime);
            &&& shown.session_id == x.session_id && shown.session_status == x.status
            &&& shown.session_version == x.version && shown.goal_locked == x.goal.locked
            &&& shown.active_mission_id == s.active_mission_id && shown.mode == s.mode_profile.mode
            &&& shown.goal is Some <==> current_goal(x.goal) is Some
            &&& shown.goal matches Some(t) ==> t == current_goal(x.goal)->Some_0.text
            &&& runtime matches Some(r) ==> shown.model == r.provider_id + "/"@ + r.model_id
        }),
        ({
            let shown = summary_shown(s, x, id);
            &&& shown.session_id == id && (shown.current <==> id == s.session_id)
            &&& shown.status == x.status && shown.version == x.version
            &&& shown.parent_session_id == x.parent_session_id
            &&& shown.forked_from_checkpoint_id == x.forked_from_checkpoint_id
            &&& shown.goal == status_shown(s, x, runtime).goal
        }),
{
}

/// A session that has chosen a model keeps it; one that has chosen none takes that of the runtime. The
/// model of tests is given up where it is not there. Half a choice is none.
pub proof fn law_sessions_keep_their_model(
    x: SessionModelView,
    runtime: RuntimeView,
    registered: bool,
)
    ensures
        ({
            let course = model_course(x, runtime, registered);
            let test = x.provider_id == Some("fake"@) && x.model_id == Some("deterministic"@);
            let gives_up = test && !registered;
            &&& course is Failed <==> !gives_up && (x.provider_id is Some <==> x.model_id is None)
            &&& course matches Outcome::Done(c) ==> (c is Restore <==> !gives_up && x.provider_id
                is Some)
            &&& course matches Outcome::Done(ModelCourseView::Restore {
                provider_id,
                model_id,
                reasoning,
            }) ==> x.provider_id == Some(provider_id) && x.model_id == Some(model_id) && reasoning
                == x.reasoning
            &&& course matches Outcome::Done(ModelCourseView::Adopt { commands }) ==> {
                &&& 1 <= commands.len() <= 2
                &&& commands[0] == (SessionCommandView::SelectModel {
                    provider_id: runtime.provider_id,
                    model_id: runtime.model_id,
                })
                &&& commands.len() == 2 ==> commands[1] == (SessionCommandView::SetReasoning {
                    reasoning: runtime.reasoning_requested,
                })
            }
        }),
{
}

} // verus!
