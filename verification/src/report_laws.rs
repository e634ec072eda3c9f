//! What is reported of how long things took, of what tools have found out, and of why something was
//! done.

use vstd::prelude::*;

use crate::context::ItemView;
use crate::json::{
    bool_value, list_value, member, text_value, unsigned_value, JsonView,
};
use crate::lsp::{
    answer_identity, answer_of, answer_text, fact_line, memory_section, one_line, place_in,
    repository_section, retrieval, retrieved_text, with_facts, AnswerView, MemoryHitView,
    RepositoryHitView, VectorMode,
};
use crate::observe::{
    after_one, elapsed, id_text, metric_of, metrics_of, sum_of, why_shown, with_sample, IdsView,
    MetricModel, RecordView, ToolRecord,
};
use crate::plans::PlanModel;
use crate::sorting::by_rank;
use crate::text::{byte_len, decimal, first_of, joined, starts_with_text, text_less};
use crate::turn_laws::held_at;

verus! {

/// Of the samples of a thing the last five hundred and twelve are kept, in the order in which they came.
pub proof fn law_the_last_samples_are_kept(values: Seq<u64>, sample: u64)
    ensures
        ({
            let after = with_sample(values, sample);
            &&& values.len() < 512 ==> after == values + seq![sample]
            &&& values.len() >= 512 ==> after.len() == 512 && after == values.subrange(
                values.len() - 511,
                values.len() as int,
            ) + seq![sample]
        }),
{
    let all = values.push(sample);
    assert(all =~= values + seq![sample]);
    if values.len() >= 512 {
        assert(with_sample(values, sample) =~= values.subrange(
            values.len() - 511,
            values.len() as int,
        ) + seq![sample]);
    }
}

pub open spec fn plus() -> spec_fn(int, u64) -> int {
    |sum: int, value: u64| sum + value
}

proof fn lemma_sum(values: Seq<u64>)
    ensures
        sum_of(values) == values.fold_left(0int, plus()),
    decreases values.len(),
{
    reveal(Seq::fold_left);
    if values.len() > 0 {
        lemma_sum(values.drop_last());
    }
}

/// Of a thing it is reported how often it was seen, how long that took in all, the greatest and the
/// last sample; and the samples half of the way and nineteen twentieths of the way up when all are put
/// in order. Nothing is reported of what was never seen.
pub proof fn law_samples_are_reported(name: Seq<char>, values: Seq<u64>) -> (ordered: Seq<u64>)
    requires
        values.len() <= 512,
        values.fold_left(0int, plus()) <= u64::MAX,
    ensures
        ordered.to_multiset() == values.to_multiset(),
        ordered.len() == values.len(),
        forall|i: int, j: int| 0 <= i < j < ordered.len() ==> #[trigger] ordered[i] <= #[trigger] ordered[j],
        metric_of(name, values) is None <==> values.len() == 0,
        metric_of(name, values) matches Some(m) ==> {
            let n = values.len() as int;
            &&& m.name == name && m.count == n
            &&& m.total_millis == values.fold_left(0int, plus())
            &&& m.max_millis == ordered[n - 1] && m.last_millis == values[n - 1]
            &&& m.p50_millis == ordered[(n - 1) / 2]
            &&& m.p95_millis == ordered[(n - 1) * 95 / 100]
        },
{
    let ordered = by_rank::<u64>(values);
    crate::sorting::law_sorting_orders_the_items::<u64>(values);
    lemma_sum(values);
    assert forall|i: int, j: int| 0 <= i < j < ordered.len() implies #[trigger] ordered[i]
        <= #[trigger] ordered[j] by {
        assert(!(ordered[j] < ordered[i]));
    }
    let n = values.len() as int;
    if n > 0 {
        assert((n - 1) * 50 / 100 == (n - 1) / 2);
    }
    ordered
}

pub open spec fn was_seen(samples: Map<Seq<char>, Seq<u64>>) -> spec_fn(Seq<char>) -> bool {
    |name: Seq<char>| samples.contains_key(name) && samples[name].len() > 0
}

/// Everything that was seen is reported, in the order of the names, and nothing else.
pub proof fn law_everything_seen_is_reported(
    samples: Map<Seq<char>, Seq<u64>>,
    names: Seq<Seq<char>>,
)
    ensures
        metrics_of(samples, names).map_values(|m: MetricModel| m.name) == names.filter(
            was_seen(samples),
        ),
        forall|i: int|
            0 <= i < metrics_of(samples, names).len() ==> Some(
                #[trigger] metrics_of(samples, names)[i],
            ) == metric_of(
                metrics_of(samples, names)[i].name,
                samples[metrics_of(samples, names)[i].name],
            ),
    decreases names.len(),
{
    reveal(Seq::filter);
    let called = |m: MetricModel| m.name;
    if names.len() > 0 {
        let before = names.drop_last();
        law_everything_seen_is_reported(samples, before);
        let all = metrics_of(samples, names);
        let some = metrics_of(samples, before);
        if was_seen(samples)(names.last()) {
            assert(all.map_values(called) =~= some.map_values(called).push(names.last()));
        } else {
            assert(all == some);
        }
        assert forall|i: int| 0 <= i < all.len() implies Some(#[trigger] all[i]) == metric_of(
            all[i].name,
            samples[all[i].name],
        ) by {
            if i < some.len() {
                assert(all[i] == some[i]);
            }
        }
    } else {
        assert(metrics_of(samples, names).map_values(called) =~= names.filter(was_seen(samples)));
    }
}

/// What took from one time to another took the time between them; a clock that ran backwards has
/// measured nothing.
pub proof fn law_time_is_what_is_between(created: i64, updated: i64)
    ensures
        updated >= created ==> elapsed(created, updated) == held_at(
            i64::MAX as int,
            updated - created,
        ),
        updated < created ==> elapsed(created, updated) == 0,
{
}

/// Why something was done is told by the goal, the first sixteen items of the context, and the eight
/// calls that were changed last, the latest first.
pub proof fn law_why_tells_the_latest_calls(
    goal: Option<Seq<char>>,
    mission: Option<Seq<char>>,
    plan: Option<PlanModel>,
    selected: Seq<ItemView>,
    journal: Seq<RecordView>,
) -> (ordered: Seq<RecordView>)
    ensures
        ordered.to_multiset() == journal.to_multiset(),
        ordered.len() == journal.len(),
        forall|i: int, j: int|
            0 <= i < j < ordered.len() ==> (#[trigger] ordered[i]).updated_at_millis >= (
            #[trigger] ordered[j]).updated_at_millis && (ordered[i].updated_at_millis
                == ordered[j].updated_at_millis ==> !text_less(ordered[j].id, ordered[i].id)),
        ({
            let shown = why_shown(goal, mission, plan, selected, journal);
            &&& shown.goal == goal && shown.mission_id == mission
            &&& shown.context_sources.len() == held_at(16, selected.len() as int)
            &&& shown.recent_tools.len() == held_at(8, journal.len() as int)
            &&& forall|i: int|
                0 <= i < shown.recent_tools.len() ==> (#[trigger] shown.recent_tools[i]).invocation_id
                    == ordered[i].id && shown.recent_tools[i].tool_name == ordered[i].tool_name
                    && shown.recent_tools[i].status == ordered[i].status
                    && shown.recent_tools[i].updated_at_millis == ordered[i].updated_at_millis
        }),
{
    let ordered = by_rank::<ToolRecord>(journal);
    crate::sorting::law_sorting_orders_the_items::<ToolRecord>(journal);
    assert forall|i: int, j: int| 0 <= i < j < ordered.len() implies (
    #[trigger] ordered[i]).updated_at_millis >= (#[trigger] ordered[j]).updated_at_millis && (
    ordered[i].updated_at_millis == ordered[j].updated_at_millis ==> !text_less(
        ordered[j].id,
        ordered[i].id,
    )) by {
        assert(!(ordered[j].updated_at_millis > ordered[i].updated_at_millis || (
        ordered[j].updated_at_millis == ordered[i].updated_at_millis && text_less(
            ordered[j].id,
            ordered[i].id,
        ))));
    }
    ordered
}

/// Names that a process makes begin with what they are for, and each is followed by the next.
pub proof fn law_names_follow_one_another(prefix: Seq<char>, ids: IdsView)
    ensures
        id_text(prefix, ids) == prefix + ":"@ + decimal(ids.nonce as nat) + ":"@ + decimal(
            ids.sequence as nat,
        ),
        after_one(ids).nonce == ids.nonce,
        ids.sequence < u64::MAX ==> after_one(ids).sequence == ids.sequence + 1,
        ids.sequence < u64::MAX ==> id_text(prefix, after_one(ids)) != id_text(prefix, ids),
{
    if ids.sequence < u64::MAX {
        crate::observe::law_ids_differ(prefix, after_one(ids), ids);
    }
}

/// A text on one line is as long as it was, with a blank for each end of a line and nothing else
/// changed.
pub proof fn law_lines_become_one(s: Seq<char>, i: int)
    requires
        0 <= i < s.len(),
    ensures
        one_line(s).len() == s.len(),
        one_line(s)[i] != '\r' && one_line(s)[i] != '\n',
        s[i] != '\r' && s[i] != '\n' ==> one_line(s)[i] == s[i],
        s[i] == '\r' || s[i] == '\n' ==> one_line(s)[i] == ' ',
{
}

/// Only what a language server has said is taken for its answer; and it is told whose it is, as far as
/// it says so itself, and else as it was asked.
pub proof fn law_answers_say_whose_they_are(
    tool: Seq<char>,
    arguments: JsonView,
    result: JsonView,
)
    ensures
        answer_of(tool, arguments, result) is Some <==> starts_with_text(tool, "lsp."@),
        answer_of(tool, arguments, result) matches Some(a) ==> {
            let said = text_value(member(result, "path"@));
            let asked = text_value(member(arguments, "path"@));
            let server = text_value(member(arguments, "serverId"@));
            &&& server matches Some(id) ==> a.server_id == id
            &&& said matches Some(p) ==> a.path == p
            &&& said is None ==> (asked matches Some(p) ==> a.path == p)
            &&& said is None && asked is None ==> a.path == "unknown"@
            &&& unsigned_value(member(result, "count"@)) matches Some(n) ==> a.count == n
            &&& unsigned_value(member(result, "returned"@)) matches Some(n) ==> a.returned == n
            &&& a.truncated <==> bool_value(member(result, "truncated"@)) == Some(true)
            &&& a.expected_file_hash == text_value(member(result, "fileHash"@))
        },
{
}

/// A place is told counted from one: as it is for people if it is told for them, and one more than it
/// is for programs if not.
pub proof fn law_places_are_counted_from_one(fact: JsonView, what: Seq<char>)
    ensures
        ({
            let at = match member(fact, "location"@) {
                Some(x) => x,
                None => fact,
            };
            let human = unsigned_value(
                crate::json::member_of(
                    crate::json::member_of(member(at, "humanRange"@), "start"@),
                    what,
                ),
            );
            let raw = unsigned_value(
                crate::json::member_of(
                    crate::json::member_of(member(at, "range"@), "start"@),
                    what,
                ),
            );
            &&& human matches Some(n) ==> place_in(fact, what) == decimal(n as nat)
            &&& human is None ==> (raw matches Some(n) ==> n < u64::MAX ==> place_in(fact, what)
                == decimal((n + 1) as nat))
            &&& human is None && raw is None ==> place_in(fact, what) == "?"@
        }),
{
}

/// The facts of an answer stand behind its first line, one on each line, in their order, for as long
/// as there is room; what has no room is left out with all that comes behind it, and that is said.
pub proof fn law_facts_are_listed_while_there_is_room(
    head: Seq<char>,
    tool: Seq<char>,
    facts: Seq<JsonView>,
    n: int,
)
    requires
        0 < n <= facts.len(),
    ensures
        ({
            let (before, full) = with_facts(head, tool, facts, n - 1);
            let (after, over) = with_facts(head, tool, facts, n);
            let line = fact_line(tool, facts[n - 1]);
            let fits = byte_len(before) + byte_len(line) + 3 <= 8192;
            &&& over <==> full || !fits
            &&& full ==> after == before
            &&& !full && fits ==> after == before + "- "@ + line + "\n"@
            &&& !full && !fits ==> after == before + "- [context-summary-truncated]\n"@
            &&& with_facts(head, tool, facts, 0) == (head, false)
        }),
{
}

/// What is kept of an answer takes no more than its first thirty-two facts, and answers of the same
/// tool, server and file take one another's place.
pub proof fn law_answers_take_one_anothers_place(
    tool: Seq<char>,
    a: AnswerView,
    b: AnswerView,
    result: JsonView,
    note: Seq<char>,
)
    ensures
        a.server_id == b.server_id && a.path == b.path ==> answer_identity(tool, a)
            == answer_identity(tool, b),
        list_value(member(result, "facts"@)) matches Some(facts) ==> answer_text(
            tool,
            a,
            result,
            note,
        ) == with_facts(
            crate::lsp::answer_head(tool, a, note),
            tool,
            facts,
            held_at(32, facts.len() as int),
        ).0,
        list_value(member(result, "facts"@)) is None ==> answer_text(tool, a, result, note)
            == crate::lsp::answer_head(tool, a, note),
{
}

/// What is looked for by meaning: what the user has switched on, and, if they leave it open, only what
/// is looked for unasked.
pub proof fn law_meaning_is_looked_for_if_wanted(mode: VectorMode, unasked: bool)
    ensures
        retrieval(mode, unasked) is Semantic <==> mode is On,
        retrieval(mode, unasked) is Auto <==> mode is Auto && unasked,
        retrieval(mode, unasked) is Lexical <==> mode is Off || (mode is Auto && !unasked),
{
}

pub open spec fn memory_told() -> spec_fn(MemoryHitView) -> Seq<char> {
    |h: MemoryHitView| "- "@ + h.title + ": "@ + first_of(h.content, 1200) + "\n"@
}

pub open spec fn file_told() -> spec_fn(RepositoryHitView) -> Seq<char> {
    |h: RepositoryHitView|
        "- "@ + h.path + " ["@ + h.language + "] "@ + first_of(h.summary, 800) + " symbols="@
            + joined(h.symbols, ","@) + " diagnostics="@ + joined(h.diagnostics, " | "@)
            + " matched="@ + h.matched_by + "\n"@
}

proof fn lemma_memory(start: Seq<char>, hits: Seq<MemoryHitView>)
    ensures
        memory_section(start, hits) == start + hits.map_values(memory_told()).flatten(),
    decreases hits.len(),
{
    if hits.len() > 0 {
        let before = hits.drop_last();
        lemma_memory(start, before);
        let all = before.map_values(memory_told());
        assert(hits.map_values(memory_told()) =~= all.push(memory_told()(hits.last())));
        all.lemma_flatten_push(memory_told()(hits.last()));
        assert(memory_section(start, hits) =~= start + (all.flatten() + memory_told()(
            hits.last(),
        )));
    } else {
        assert(hits.map_values(memory_told()) =~= Seq::<Seq<char>>::empty());
        assert(memory_section(start, hits) =~= start + hits.map_values(memory_told()).flatten());
    }
}

proof fn lemma_files(start: Seq<char>, hits: Seq<RepositoryHitView>)
    ensures
        repository_section(start, hits) == start + hits.map_values(file_told()).flatten(),
    decreases hits.len(),
{
    if hits.len() > 0 {
        let before = hits.drop_last();
        lemma_files(start, before);
        let all = before.map_values(file_told());
        assert(hits.map_values(file_told()) =~= all.push(file_told()(hits.last())));
        all.lemma_flatten_push(file_told()(hits.last()));
        assert(repository_section(start, hits) =~= start + (all.flatten() + file_told()(
            hits.last(),
        )));
    } else {
        assert(hits.map_values(file_told()) =~= Seq::<Seq<char>>::empty());
        assert(repository_section(start, hits) =~= start + hits.map_values(file_told()).flatten());
    }
}

/// What was found is told under its heading, one line for each, in their order; a heading under which
/// there is nothing is left out.
pub proof fn law_all_that_was_found_is_told(
    memory: Seq<MemoryHitView>,
    files: Seq<RepositoryHitView>,
)
    ensures
        ({
            let first = if memory.len() > 0 {
                "\n\n[Retrieved Project Memory]\n"@ + memory.map_values(memory_told()).flatten()
            } else {
                Seq::empty()
            };
            let second = if files.len() > 0 {
                "\n[Retrieved Repository Context]\n"@ + files.map_values(file_told()).flatten()
            } else {
                Seq::empty()
            };
            retrieved_text(memory, files) == first + second
        }),
{
    lemma_memory("\n\n[Retrieved Project Memory]\n"@, memory);
    let first = if memory.len() > 0 {
        "\n\n[Retrieved Project Memory]\n"@ + memory.map_values(memory_told()).flatten()
    } else {
        Seq::empty()
    };
    let told = files.map_values(file_told()).flatten();
    lemma_files(first + "\n[Retrieved Repository Context]\n"@, files);
    if files.len() > 0 {
        assert(first + "\n[Retrieved Repository Context]\n"@ + told =~= first + (
        "\n[Retrieved Repository Context]\n"@ + told));
    } else {
        assert(first + Seq::<char>::empty() =~= first);
    }
}

} // verus!
