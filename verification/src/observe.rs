//! What can be seen of the running application: how long things took, and why it does what it does.

use vstd::prelude::*;
use vstd::string::*;

use crate::application::{ToolInvocationStatus, ToolStatusView};
use crate::context::{ContextItem, ContextKind, ItemView};
use crate::model::{group_views, option_view, views, Duplicate};
use crate::ordered::{enumerates, in_order, TextMap};
use crate::plans::{PlanModel, PlanView};
use crate::session::first_items;
use crate::sorting::{by_rank, law_sorting_orders_the_items, sorted, Ranked};
use crate::text::{
    decimal, decimal_of, lemma_decimal_distinct, lemma_text_less_irreflexive, lemma_text_less_total,
    lemma_text_less_transitive, less, text_less, texts,
};

verus! {

/// How many samples are kept of a thing.
pub const MAX_PROFILE_SAMPLES: usize = 512;

/// The last items of a sequence, at most `n`.
pub open spec fn last_items<T>(items: Seq<T>, n: int) -> Seq<T> {
    if items.len() > n {
        items.subrange(items.len() - n, items.len() as int)
    } else {
        items
    }
}

pub open spec fn with_sample(values: Seq<u64>, elapsed: u64) -> Seq<u64> {
    last_items(values.push(elapsed), MAX_PROFILE_SAMPLES as int)
}

/// Adds a sample; of too many the oldest go.
pub fn push_sample(values: &mut Vec<u64>, elapsed_millis: u64)
    requires
        old(values)@.len() < usize::MAX,
    ensures
        final(values)@ == with_sample(old(values)@, elapsed_millis),
{
    let ghost all = values@.push(elapsed_millis);
    values.push(elapsed_millis);
    let ghost mut gone: int = 0;
    while values.len() > MAX_PROFILE_SAMPLES
        invariant
            0 <= gone <= all.len(),
            values@ == all.subrange(gone, all.len() as int),
            gone > 0 ==> values@.len() >= MAX_PROFILE_SAMPLES,
        decreases values.len(),
    {
        let first = values.remove(0);
        proof {
            gone = gone + 1;
        }
        assert(values@ =~= all.subrange(gone, all.len() as int));
    }
    assert(values@ =~= last_items(all, MAX_PROFILE_SAMPLES as int));
}

/// Samples under the names of what they measure.
pub struct ProfileSamples {
    samples: TextMap<Vec<u64>>,
}

impl View for ProfileSamples {
    type V = Map<Seq<char>, Seq<u64>>;

    closed spec fn view(&self) -> Map<Seq<char>, Seq<u64>> {
        self.samples@
    }
}

/// Whether no thing has more samples than are kept.
pub open spec fn within_window(samples: Map<Seq<char>, Seq<u64>>) -> bool {
    forall|name: Seq<char>| #[trigger]
        samples.contains_key(name) ==> samples[name].len() <= MAX_PROFILE_SAMPLES
}

pub open spec fn samples_of(samples: Map<Seq<char>, Seq<u64>>, name: Seq<char>) -> Seq<u64> {
    if samples.contains_key(name) {
        samples[name]
    } else {
        Seq::empty()
    }
}

impl ProfileSamples {
    #[verifier::type_invariant]
    spec fn bounded(self) -> bool {
        within_window(self.samples@)
    }

    pub fn new() -> (r: Self)
        ensures
            r@ == Map::<Seq<char>, Seq<u64>>::empty(),
    {
        ProfileSamples { samples: TextMap::new() }
    }

    pub fn record_profile_sample(&mut self, name: &str, elapsed_millis: u64)
        ensures
            final(self)@ == old(self)@.insert(
                name@,
                with_sample(samples_of(old(self)@, name@), elapsed_millis),
            ),
            within_window(final(self)@),
    {
        proof {
            use_type_invariant(&*self);
        }
        let mut samples: TextMap<Vec<u64>> = TextMap::new();
        std::mem::swap(&mut samples, &mut self.samples);
        let ghost before = samples@;
        let mut values: Vec<u64> = match samples.remove(name) {
            Some(values) => values,
            None => Vec::new(),
        };
        assert(values@ =~= samples_of(before, name@));
        push_sample(&mut values, elapsed_millis);
        samples.insert(name.to_string(), values);
        assert(samples@ =~= before.insert(
            name@,
            with_sample(samples_of(before, name@), elapsed_millis),
        ));
        self.samples = samples;
    }

    /// Notes how long a search in the memory took, and that it went by meaning.
    pub fn record_retrieval(&mut self, elapsed_millis: u64, by_meaning: bool)
        ensures
            final(self)@ == ({
                let first = old(self)@.insert(
                    "retrieval"@,
                    with_sample(samples_of(old(self)@, "retrieval"@), elapsed_millis),
                );
                if by_meaning {
                    first.insert(
                        "vector"@,
                        with_sample(samples_of(first, "vector"@), elapsed_millis),
                    )
                } else {
                    first
                }
            }),
    {
        self.record_profile_sample("retrieval", elapsed_millis);
        if by_meaning {
            self.record_profile_sample("vector", elapsed_millis);
        }
    }

    /// Notes how long the start took.
    pub fn record_startup_millis(&mut self, elapsed_millis: u64)
        ensures
            final(self)@ == old(self)@.insert(
                "startup"@,
                with_sample(samples_of(old(self)@, "startup"@), elapsed_millis),
            ),
    {
        self.record_profile_sample("startup", elapsed_millis);
    }

    /// Whether the samples of each thing add up to a number that can be held.
    pub fn can_be_summed(&self) -> (r: bool)
        ensures
            r == sums_fit(self@),
    {
        let keys = self.samples.keys();
        let ghost names = texts(keys@);
        let mut i: usize = 0;
        while i < keys.len()
            invariant
                i <= keys.len(),
                self@ == self.samples@,
                names == texts(keys@),
                enumerates(names, self@.dom()),
                forall|k: int| 0 <= k < i ==> sum_of(self@[#[trigger] names[k]]) <= u64::MAX,
            decreases keys.len() - i,
        {
            assert(names[i as int] == keys@[i as int]@);
            assert(names.contains(names[i as int]));
            match self.samples.get(keys[i].as_str()) {
                Some(values) => {
                    if !sum_fits(values) {
                        assert(self@.contains_key(names[i as int]));
                        return false;
                    }
                },
                None => {},
            }
            i = i + 1;
        }
        assert forall|name: Seq<char>| #[trigger] self@.contains_key(name) implies sum_of(self@[name])
            <= u64::MAX by {
            assert(names.contains(name));
            let k = names.index_of(name);
            assert(names[k] == name);
        }
        true
    }

    /// Shows every thing of which there are samples, in the order of the names.
    pub fn profile(&self, uptime_millis: u64) -> (r: ProfileView)
        requires
            sums_fit(self@),
        ensures
            r@ == profile_shown(self@, uptime_millis),
    {
        broadcast use group_views;

        let keys = self.samples.keys();
        let ghost names = in_order(self@.dom());
        let ghost all = self@;
        let mut metrics: Vec<ProfileMetricView> = Vec::new();
        let mut i: usize = 0;
        assert(names.subrange(0, 0) =~= Seq::empty());
        assert(views(metrics@) =~= Seq::empty());
        while i < keys.len()
            invariant
                i <= keys.len(),
                all == self@,
                all == self.samples@,
                sums_fit(all),
                names == in_order(all.dom()),
                names == texts(keys@),
                views(metrics@) == metrics_of(all, names.subrange(0, i as int)),
            decreases keys.len() - i,
        {
            broadcast use group_views;

            let ghost next = names.subrange(0, i as int + 1);
            assert(next.drop_last() =~= names.subrange(0, i as int));
            assert(next.last() == keys@[i as int]@);
            match self.samples.get(keys[i].as_str()) {
                Some(values) => match profile_metric(keys[i].as_str(), values) {
                    Some(metric) => {
                        metrics.push(metric);
                    },
                    None => {},
                },
                None => {},
            }
            i = i + 1;
        }
        assert(names.subrange(0, names.len() as int) =~= names);
        ProfileView { uptime_millis, metrics }
    }
}

/// How long a thing took.
#[derive(Debug, PartialEq, Eq)]
pub struct ProfileMetricView {
    pub name: String,
    pub count: usize,
    pub total_millis: u64,
    pub p50_millis: u64,
    pub p95_millis: u64,
    pub max_millis: u64,
    pub last_millis: u64,
}

pub struct MetricModel {
    pub name: Seq<char>,
    pub count: usize,
    pub total_millis: u64,
    pub p50_millis: u64,
    pub p95_millis: u64,
    pub max_millis: u64,
    pub last_millis: u64,
}

impl View for ProfileMetricView {
    type V = MetricModel;

    open spec fn view(&self) -> MetricModel {
        MetricModel {
            name: self.name@,
            count: self.count,
            total_millis: self.total_millis,
            p50_millis: self.p50_millis,
            p95_millis: self.p95_millis,
            max_millis: self.max_millis,
            last_millis: self.last_millis,
        }
    }
}

/// How long things took.
#[derive(Debug, PartialEq, Eq)]
pub struct ProfileView {
    pub uptime_millis: u64,
    pub metrics: Vec<ProfileMetricView>,
}

pub struct ProfileModel {
    pub uptime_millis: u64,
    pub metrics: Seq<MetricModel>,
}

impl View for ProfileView {
    type V = ProfileModel;

    open spec fn view(&self) -> ProfileModel {
        ProfileModel {
            uptime_millis: self.uptime_millis,
            metrics: views(self.metrics@),
        }
    }
}

pub open spec fn sum_of(values: Seq<u64>) -> nat
    decreases values.len(),
{
    if values.len() == 0 {
        0
    } else {
        sum_of(values.drop_last()) + values.last() as nat
    }
}

pub open spec fn sums_fit(samples: Map<Seq<char>, Seq<u64>>) -> bool {
    forall|name: Seq<char>| #[trigger]
        samples.contains_key(name) ==> sum_of(samples[name]) <= u64::MAX
}

/// The place of a percentile among `count` values in order.
pub open spec fn percentile_place(count: int, percent: int) -> int {
    let scaled = (count - 1) * percent;
    if scaled > usize::MAX {
        usize::MAX as int / 100
    } else {
        scaled / 100
    }
}

/// What samples say of a thing; nothing if there are none.
pub open spec fn metric_of(name: Seq<char>, values: Seq<u64>) -> Option<MetricModel> {
    if values.len() == 0 {
        None
    } else {
        let ordered = by_rank::<u64>(values);
        Some(
            MetricModel {
                name,
                count: values.len() as usize,
                total_millis: sum_of(values) as u64,
                p50_millis: ordered[percentile_place(values.len() as int, 50)],
                p95_millis: ordered[percentile_place(values.len() as int, 95)],
                max_millis: ordered.last(),
                last_millis: values.last(),
            },
        )
    }
}

pub open spec fn metrics_of(samples: Map<Seq<char>, Seq<u64>>, names: Seq<Seq<char>>) -> Seq<
    MetricModel,
>
    decreases names.len(),
{
    if names.len() == 0 {
        Seq::empty()
    } else {
        let before = metrics_of(samples, names.drop_last());
        match metric_of(names.last(), samples_of(samples, names.last())) {
            Some(metric) => before.push(metric),
            None => before,
        }
    }
}

pub open spec fn profile_shown(samples: Map<Seq<char>, Seq<u64>>, uptime_millis: u64) -> ProfileModel {
    ProfileModel { uptime_millis, metrics: metrics_of(samples, in_order(samples.dom())) }
}

proof fn lemma_percentile(count: int, percent: int)
    requires
        count >= 1,
        0 <= percent <= 100,
    ensures
        0 <= (count - 1) * percent,
        0 <= percentile_place(count, percent) < count,
{
    assert(0 <= (count - 1) * percent <= (count - 1) * 100) by (nonlinear_arith)
        requires
            count >= 1,
            0 <= percent <= 100,
    ;
}

fn percentile(ordered: &Vec<u64>, percent: usize) -> (r: u64)
    requires
        ordered@.len() > 0,
        percent <= 100,
    ensures
        r == ordered@[percentile_place(ordered@.len() as int, percent as int)],
{
    proof {
        lemma_percentile(ordered@.len() as int, percent as int);
    }
    let before: usize = ordered.len() - 1;
    let scaled: usize = match before.checked_mul(percent) {
        Some(scaled) => scaled,
        None => usize::MAX,
    };
    ordered[scaled / 100]
}

/// Whether some samples add up to a number that can be held.
fn sum_fits(values: &Vec<u64>) -> (r: bool)
    ensures
        r == (sum_of(values@) <= u64::MAX),
{
    let mut total: u64 = 0;
    let mut i: usize = 0;
    assert(values@.subrange(0, 0) =~= Seq::empty());
    while i < values.len()
        invariant
            i <= values.len(),
            total == sum_of(values@.subrange(0, i as int)),
        decreases values.len() - i,
    {
        let ghost next = values@.subrange(0, i as int + 1);
        assert(next.drop_last() =~= values@.subrange(0, i as int));
        proof {
            lemma_sum_grows(values@, i as int + 1);
        }
        match total.checked_add(values[i]) {
            Some(sum) => {
                total = sum;
            },
            None => {
                return false;
            },
        }
        i = i + 1;
    }
    assert(values@.subrange(0, values@.len() as int) =~= values@);
    true
}

/// What samples say of a thing.
pub fn profile_metric(name: &str, values: &Vec<u64>) -> (r: Option<ProfileMetricView>)
    requires
        sum_of(values@) <= u64::MAX,
    ensures
        option_view(r) == metric_of(name@, values@),
{
    if values.len() == 0 {
        return None;
    }
    let ordered = sorted(values);
    assert(views(values@) =~= values@);
    assert(views(ordered@) =~= ordered@);
    proof {
        law_sorting_orders_the_items::<u64>(values@);
    }
    let mut total_millis: u64 = 0;
    let mut i: usize = 0;
    assert(values@.subrange(0, 0) =~= Seq::empty());
    while i < values.len()
        invariant
            i <= values.len(),
            total_millis == sum_of(values@.subrange(0, i as int)),
            sum_of(values@) <= u64::MAX,
        decreases values.len() - i,
    {
        let ghost next = values@.subrange(0, i as int + 1);
        assert(next.drop_last() =~= values@.subrange(0, i as int));
        proof {
            lemma_sum_grows(values@, i as int + 1);
        }
        total_millis = total_millis + values[i];
        i = i + 1;
    }
    assert(values@.subrange(0, values@.len() as int) =~= values@);
    Some(
        ProfileMetricView {
            name: name.to_string(),
            count: ordered.len(),
            total_millis,
            p50_millis: percentile(&ordered, 50),
            p95_millis: percentile(&ordered, 95),
            max_millis: ordered[ordered.len() - 1],
            last_millis: values[values.len() - 1],
        },
    )
}

proof fn lemma_sum_grows(values: Seq<u64>, n: int)
    requires
        0 <= n <= values.len(),
    ensures
        sum_of(values.subrange(0, n)) <= sum_of(values),
    decreases values.len() - n,
{
    if n == values.len() {
        assert(values.subrange(0, n) =~= values);
    } else {
        assert(values.subrange(0, n + 1).drop_last() =~= values.subrange(0, n));
        lemma_sum_grows(values, n + 1);
    }
}

/// The median is at most the high percentile, which is at most the greatest sample; no sample is
/// greater than the greatest.
pub proof fn law_percentiles_are_in_order(name: Seq<char>, values: Seq<u64>, i: int)
    requires
        0 <= i < values.len(),
    ensures
        metric_of(name, values) matches Some(m) && m.p50_millis <= m.p95_millis <= m.max_millis
            && values[i] <= m.max_millis && m.last_millis <= m.max_millis,
{
    broadcast use vstd::seq_lib::group_to_multiset_ensures;

    let ordered = by_rank::<u64>(values);
    law_sorting_orders_the_items::<u64>(values);
    let n = values.len() as int;
    lemma_percentile(n, 50);
    lemma_percentile(n, 95);
    assert((n - 1) * 50 <= (n - 1) * 95) by (nonlinear_arith)
        requires
            n >= 1,
    ;
    let p50 = percentile_place(n, 50);
    let p95 = percentile_place(n, 95);
    assert(p50 <= p95);
    if p50 < p95 {
        assert(!u64::ranks_before(ordered[p95], ordered[p50]));
    }
    if p95 < n - 1 {
        assert(!u64::ranks_before(ordered[n - 1], ordered[p95]));
    }
    assert forall|k: int| 0 <= k < n implies values[k] <= ordered.last() by {
        assert(values.contains(values[k]));
        assert(ordered.to_multiset().count(values[k]) > 0);
        assert(ordered.contains(values[k]));
        let at = ordered.index_of(values[k]);
        if at < n - 1 {
            assert(!u64::ranks_before(ordered[n - 1], ordered[at]));
        }
    }
}

/// How long a call of a tool took; nothing if the clock ran backwards.
pub open spec fn elapsed(created: i64, updated: i64) -> u64 {
    if updated <= created {
        0
    } else if updated - created > i64::MAX {
        i64::MAX as u64
    } else {
        (updated - created) as u64
    }
}

pub fn tool_wall_millis(created_at_millis: i64, updated_at_millis: i64) -> (r: u64)
    ensures
        r == elapsed(created_at_millis, updated_at_millis),
{
    let span: i128 = updated_at_millis as i128 - created_at_millis as i128;
    if span <= 0 {
        0
    } else if span > 0x7fff_ffff_ffff_ffff {
        0x7fff_ffff_ffff_ffff
    } else {
        span as u64
    }
}

/// A call of a tool as it is on record.
#[derive(Debug, PartialEq, Eq)]
pub struct ToolRecord {
    pub id: String,
    pub tool_name: String,
    pub status: ToolInvocationStatus,
    pub created_at_millis: i64,
    pub updated_at_millis: i64,
}

pub struct RecordView {
    pub id: Seq<char>,
    pub tool_name: Seq<char>,
    pub status: ToolStatusView,
    pub created_at_millis: i64,
    pub updated_at_millis: i64,
}

impl View for ToolRecord {
    type V = RecordView;

    open spec fn view(&self) -> RecordView {
        RecordView {
            id: self.id@,
            tool_name: self.tool_name@,
            status: self.status@,
            created_at_millis: self.created_at_millis,
            updated_at_millis: self.updated_at_millis,
        }
    }
}

impl Duplicate for ToolRecord {
    fn duplicate(&self) -> (r: Self) {
        ToolRecord {
            id: self.id.clone(),
            tool_name: self.tool_name.clone(),
            status: self.status.duplicate(),
            created_at_millis: self.created_at_millis,
            updated_at_millis: self.updated_at_millis,
        }
    }
}

/// A call of a tool that something rests on.
#[derive(Debug, PartialEq, Eq)]
pub struct WhyToolEvidence {
    pub invocation_id: String,
    pub tool_name: String,
    pub status: ToolInvocationStatus,
    pub updated_at_millis: i64,
}

pub struct WhyToolModel {
    pub invocation_id: Seq<char>,
    pub tool_name: Seq<char>,
    pub status: ToolStatusView,
    pub updated_at_millis: i64,
}

impl View for WhyToolEvidence {
    type V = WhyToolModel;

    open spec fn view(&self) -> WhyToolModel {
        WhyToolModel {
            invocation_id: self.invocation_id@,
            tool_name: self.tool_name@,
            status: self.status@,
            updated_at_millis: self.updated_at_millis,
        }
    }
}

/// What the application rests on.
#[derive(Debug, PartialEq, Eq)]
pub struct WhyView {
    pub goal: Option<String>,
    pub mission_id: Option<String>,
    pub summary: String,
    pub context_sources: Vec<String>,
    pub recent_tools: Vec<WhyToolEvidence>,
}

pub struct WhyModel {
    pub goal: Option<Seq<char>>,
    pub mission_id: Option<Seq<char>>,
    pub summary: Seq<char>,
    pub context_sources: Seq<Seq<char>>,
    pub recent_tools: Seq<WhyToolModel>,
}

impl View for WhyView {
    type V = WhyModel;

    open spec fn view(&self) -> WhyModel {
        WhyModel {
            goal: option_view(self.goal),
            mission_id: option_view(self.mission_id),
            summary: self.summary@,
            context_sources: texts(self.context_sources@),
            recent_tools: views(self.recent_tools@),
        }
    }
}

impl Ranked for ToolRecord {
    open spec fn ranks_before(a: RecordView, b: RecordView) -> bool {
        a.updated_at_millis > b.updated_at_millis || (a.updated_at_millis == b.updated_at_millis
            && text_less(a.id, b.id))
    }

    fn is_before(&self, other: &Self) -> (r: bool) {
        self.updated_at_millis > other.updated_at_millis || (self.updated_at_millis
            == other.updated_at_millis && less(self.id.as_str(), other.id.as_str()))
    }

    proof fn lemma_ranks(a: RecordView, b: RecordView, c: RecordView) {
        if text_less(a.id, b.id) && text_less(b.id, a.id) {
            lemma_text_less_transitive(a.id, b.id, a.id);
            lemma_text_less_irreflexive(a.id);
        }
        lemma_text_less_total(a.id, b.id);
        lemma_text_less_total(b.id, c.id);
        if text_less(a.id, b.id) && text_less(b.id, c.id) {
            lemma_text_less_transitive(a.id, b.id, c.id);
        }
        if text_less(c.id, a.id) {
            if text_less(a.id, b.id) {
                lemma_text_less_transitive(c.id, a.id, b.id);
            }
            if text_less(b.id, c.id) {
                lemma_text_less_transitive(b.id, c.id, a.id);
            }
            if text_less(b.id, a.id) && text_less(c.id, b.id) {
                lemma_text_less_transitive(c.id, b.id, a.id);
            }
            if text_less(a.id, c.id) {
                lemma_text_less_transitive(a.id, c.id, a.id);
                lemma_text_less_irreflexive(a.id);
            }
        }
    }
}

pub open spec fn kind_text(kind: ContextKind) -> Seq<char> {
    match kind {
        ContextKind::System => "System"@,
        ContextKind::Constraint => "Constraint"@,
        ContextKind::Goal => "Goal"@,
        ContextKind::Task => "Task"@,
        ContextKind::Agent => "Agent"@,
        ContextKind::Conversation => "Conversation"@,
        ContextKind::Repository => "Repository"@,
        ContextKind::Memory => "Memory"@,
        ContextKind::Pinned => "Pinned"@,
        ContextKind::Tool => "Tool"@,
        ContextKind::Decision => "Decision"@,
        ContextKind::Error => "Error"@,
    }
}

pub fn kind_name(kind: ContextKind) -> (r: &'static str)
    ensures
        r@ == kind_text(kind),
{
    match kind {
        ContextKind::System => "System",
        ContextKind::Constraint => "Constraint",
        ContextKind::Goal => "Goal",
        ContextKind::Task => "Task",
        ContextKind::Agent => "Agent",
        ContextKind::Conversation => "Conversation",
        ContextKind::Repository => "Repository",
        ContextKind::Memory => "Memory",
        ContextKind::Pinned => "Pinned",
        ContextKind::Tool => "Tool",
        ContextKind::Decision => "Decision",
        ContextKind::Error => "Error",
    }
}

pub open spec fn source_text(item: ItemView) -> Seq<char> {
    kind_text(item.kind) + " · "@ + item.source_identity
}

pub open spec fn plan_text(plan: PlanModel) -> Seq<char> {
    "当前计划：accepted="@ + decimal(plan.accepted as nat) + " running="@ + decimal(
        plan.running as nat,
    ) + " pending="@ + decimal(plan.pending as nat) + " blocked="@ + decimal(plan.blocked as nat)
        + "；仅展示可审计依据摘要。"@
}

pub open spec fn tool_evidence(record: RecordView) -> WhyToolModel {
    WhyToolModel {
        invocation_id: record.id,
        tool_name: record.tool_name,
        status: record.status,
        updated_at_millis: record.updated_at_millis,
    }
}

/// What is shown when the user asks why: the goal, the plan, the first sixteen items of the context
/// and the last eight calls of tools.
pub open spec fn why_shown(
    goal: Option<Seq<char>>,
    mission_id: Option<Seq<char>>,
    plan: Option<PlanModel>,
    selected: Seq<ItemView>,
    journal: Seq<RecordView>,
) -> WhyModel {
    WhyModel {
        goal,
        mission_id,
        summary: match plan {
            Some(plan) => plan_text(plan),
            None => "当前没有活动 Mission；依据是 durable Goal 与筛选后的 Context。"@,
        },
        context_sources: first_items(selected, 16).map_values(|item: ItemView| source_text(item)),
        recent_tools: first_items(by_rank::<ToolRecord>(journal), 8).map_values(
            |record: RecordView| tool_evidence(record),
        ),
    }
}

fn describe_plan(plan: &PlanView) -> (r: String)
    ensures
        r@ == plan_text(plan@),
{
    let mut r: String = "当前计划：accepted=".to_string();
    r.append(decimal_of(plan.accepted as u64).as_str());
    r.append(" running=");
    r.append(decimal_of(plan.running as u64).as_str());
    r.append(" pending=");
    r.append(decimal_of(plan.pending as u64).as_str());
    r.append(" blocked=");
    r.append(decimal_of(plan.blocked as u64).as_str());
    r.append("；仅展示可审计依据摘要。");
    r
}

/// Shows what the application rests on.
pub fn why(
    goal: Option<String>,
    mission_id: Option<String>,
    plan: Option<&PlanView>,
    selected: &Vec<ContextItem>,
    journal: &Vec<ToolRecord>,
) -> (r: WhyView)
    ensures
        r@ == why_shown(
            option_view(goal),
            option_view(mission_id),
            match plan {
                Some(plan) => Some(plan@),
                None => None,
            },
            views(selected@),
            views(journal@),
        ),
{
    let ghost items = views(selected@);
    let ghost spec_sources = first_items(items, 16).map_values(|item: ItemView| source_text(item));
    let mut context_sources: Vec<String> = Vec::new();
    let most: usize = if selected.len() < 16 {
        selected.len()
    } else {
        16
    };
    assert(items.len() == selected@.len());
    let mut i: usize = 0;
    while i < most
        invariant
            i <= most <= selected.len(),
            most == spec_sources.len(),
            items == views(selected@),
            spec_sources == first_items(items, 16).map_values(|item: ItemView| source_text(item)),
            context_sources@.len() == i,
            forall|k: int| 0 <= k < i ==> (#[trigger] context_sources@[k])@ == spec_sources[k],
        decreases most - i,
    {
        assert(items[i as int] == selected@[i as int]@);
        let mut text: String = kind_name(selected[i].kind).to_string();
        text.append(" · ");
        text.append(selected[i].source_identity.as_str());
        context_sources.push(text);
        i = i + 1;
    }
    assert(texts(context_sources@) =~= spec_sources);
    let recent = sorted(journal);
    let ghost ranked = views(recent@);
    let ghost spec_tools = first_items(ranked, 8).map_values(
        |record: RecordView| tool_evidence(record),
    );
    let last: usize = if recent.len() < 8 {
        recent.len()
    } else {
        8
    };
    assert(ranked.len() == recent@.len());
    let mut recent_tools: Vec<WhyToolEvidence> = Vec::new();
    let mut j: usize = 0;
    while j < last
        invariant
            j <= last <= recent.len(),
            last == spec_tools.len(),
            ranked == views(recent@),
            spec_tools == first_items(ranked, 8).map_values(
                |record: RecordView| tool_evidence(record),
            ),
            recent_tools@.len() == j,
            forall|k: int| 0 <= k < j ==> (#[trigger] recent_tools@[k])@ == spec_tools[k],
        decreases last - j,
    {
        assert(ranked[j as int] == recent@[j as int]@);
        recent_tools.push(
            WhyToolEvidence {
                invocation_id: recent[j].id.clone(),
                tool_name: recent[j].tool_name.clone(),
                status: recent[j].status.duplicate(),
                updated_at_millis: recent[j].updated_at_millis,
            },
        );
        j = j + 1;
    }
    assert(views(recent_tools@) =~= spec_tools);
    let summary: String = match plan {
        Some(plan) => describe_plan(plan),
        None => "当前没有活动 Mission；依据是 durable Goal 与筛选后的 Context。".to_string(),
    };
    WhyView { goal, mission_id, summary, context_sources, recent_tools }
}

/// The clock of the system.
#[derive(Clone, Copy, Debug, Default)]
pub struct SystemClock;

impl SystemClock {
    /// The time in milliseconds, from what has passed since the epoch; the epoch itself if the clock
    /// stands before it.
    pub fn unix_millis(&self, since_epoch: Option<u128>) -> (r: i64)
        ensures
            r == match since_epoch {
                Some(millis) => if millis > i64::MAX {
                    i64::MAX
                } else {
                    millis as i64
                },
                None => 0,
            },
    {
        match since_epoch {
            Some(millis) => if millis > 0x7fff_ffff_ffff_ffff {
                0x7fff_ffff_ffff_ffff
            } else {
                millis as i64
            },
            None => 0,
        }
    }
}

/// Makes ids that differ within a process, and most likely between processes.
#[derive(Debug)]
pub struct ProcessIdGenerator {
    nonce: u64,
    sequence: u64,
}

pub struct IdsView {
    pub nonce: u64,
    pub sequence: u64,
}

impl View for ProcessIdGenerator {
    type V = IdsView;

    closed spec fn view(&self) -> IdsView {
        IdsView { nonce: self.nonce, sequence: self.sequence }
    }
}

pub open spec fn id_text(prefix: Seq<char>, ids: IdsView) -> Seq<char> {
    prefix + ":"@ + decimal(ids.nonce as nat) + ":"@ + decimal(ids.sequence as nat)
}

pub open spec fn after_one(ids: IdsView) -> IdsView {
    IdsView {
        sequence: if ids.sequence == u64::MAX {
            0
        } else {
            (ids.sequence + 1) as u64
        },
        ..ids
    }
}

impl ProcessIdGenerator {
    pub fn new(now: i64) -> (r: Self)
        ensures
            r@ == (IdsView {
                nonce: if now < 0 {
                    0
                } else {
                    now as u64
                },
                sequence: 1,
            }),
    {
        ProcessIdGenerator {
            nonce: if now < 0 {
                0
            } else {
                now as u64
            },
            sequence: 1,
        }
    }

    pub fn next_id(&mut self, prefix: &str) -> (r: String)
        ensures
            r@ == id_text(prefix@, old(self)@),
            final(self)@ == after_one(old(self)@),
    {
        let sequence: u64 = self.sequence;
        self.sequence = sequence.wrapping_add(1);
        let mut r = prefix.to_string();
        r.append(":");
        r.append(decimal_of(self.nonce).as_str());
        r.append(":");
        r.append(decimal_of(sequence).as_str());
        r
    }
}

/// Two ids that one process makes for the same purpose differ, until it has made all that it can.
pub proof fn law_ids_differ(prefix: Seq<char>, one: IdsView, other: IdsView)
    requires
        one.nonce == other.nonce,
        one.sequence != other.sequence,
    ensures
        id_text(prefix, one) != id_text(prefix, other),
{
    let head = prefix + ":"@ + decimal(one.nonce as nat) + ":"@;
    let n = head.len() as int;
    let a = id_text(prefix, one);
    let b = id_text(prefix, other);
    assert(a.subrange(n, a.len() as int) =~= decimal(one.sequence as nat));
    assert(b.subrange(n, b.len() as int) =~= decimal(other.sequence as nat));
    if a == b {
        lemma_decimal_distinct(one.sequence as nat, other.sequence as nat);
    }
}

/// However many samples come in, no more than the window holds are kept, and the newest is one of
/// them.
pub proof fn law_samples_are_bounded(values: Seq<u64>, elapsed: u64)
    ensures
        with_sample(values, elapsed).len() <= MAX_PROFILE_SAMPLES,
        with_sample(values, elapsed).last() == elapsed,
{
}

} // verus!
