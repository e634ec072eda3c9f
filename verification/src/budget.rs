//! Budgets of missions: a run reserves before it is scheduled, is charged while it runs, and
//! releases what it holds when it ends.

use vstd::prelude::*;
use vstd::string::*;

use crate::error::{failure, outcome, unit_outcome, AgentError, Outcome};
use crate::messages::clamp_i64;
use crate::model::{group_views, option_view, views, Duplicate};
use crate::results::{MissionId, RunId};
use crate::scheduling::saturating_sum;
use crate::text::{decimal, decimal_of, same};

verus! {

#[derive(Clone, Copy, Debug, PartialEq, Eq, Structural)]
pub struct AgentBudgetPolicy {
    pub max_agents: usize,
    pub max_parallel_agents: usize,
    pub max_total_tokens: u64,
    pub max_tool_calls: u64,
    pub max_runtime_millis: u64,
    pub max_retries: u32,
}

impl AgentBudgetPolicy {
    pub fn balanced() -> (r: Self)
        ensures
            r == (AgentBudgetPolicy {
                max_agents: 8,
                max_parallel_agents: 4,
                max_total_tokens: 100_000,
                max_tool_calls: 128,
                max_runtime_millis: 1_800_000,
                max_retries: 3,
            }),
    {
        AgentBudgetPolicy {
            max_agents: 8,
            max_parallel_agents: 4,
            max_total_tokens: 100_000,
            max_tool_calls: 128,
            max_runtime_millis: 30 * 60 * 1_000,
            max_retries: 3,
        }
    }
}

#[derive(Clone, Copy, Debug, PartialEq, Eq, Structural)]
pub struct AgentBudgetRequest {
    pub reserved_tokens: u64,
    pub reserved_tool_calls: u64,
    pub reserved_runtime_millis: u64,
    pub reserved_retries: u32,
}

#[derive(Clone, Copy, Debug, PartialEq, Eq, Structural)]
pub enum BudgetEscrowStatus {
    Active,
    Completed,
    Failed,
    Cancelled,
    Expired,
}

/// What a run has set aside and how much of it is spent.
#[derive(Debug, PartialEq, Eq)]
pub struct AgentBudgetEscrow {
    pub mission_id: MissionId,
    pub run_id: RunId,
    pub reserved_tokens: u64,
    pub consumed_tokens: u64,
    pub reserved_tool_calls: u64,
    pub consumed_tool_calls: u64,
    pub reserved_runtime_millis: u64,
    pub reserved_retries: u32,
    pub status: BudgetEscrowStatus,
    pub expires_at_millis: i64,
    pub version: u64,
}

pub struct EscrowView {
    pub mission_id: Seq<char>,
    pub run_id: Seq<char>,
    pub reserved_tokens: u64,
    pub consumed_tokens: u64,
    pub reserved_tool_calls: u64,
    pub consumed_tool_calls: u64,
    pub reserved_runtime_millis: u64,
    pub reserved_retries: u32,
    pub status: BudgetEscrowStatus,
    pub expires_at_millis: i64,
    pub version: u64,
}

impl View for AgentBudgetEscrow {
    type V = EscrowView;

    open spec fn view(&self) -> EscrowView {
        EscrowView {
            mission_id: self.mission_id@,
            run_id: self.run_id@,
            reserved_tokens: self.reserved_tokens,
            consumed_tokens: self.consumed_tokens,
            reserved_tool_calls: self.reserved_tool_calls,
            consumed_tool_calls: self.consumed_tool_calls,
            reserved_runtime_millis: self.reserved_runtime_millis,
            reserved_retries: self.reserved_retries,
            status: self.status,
            expires_at_millis: self.expires_at_millis,
            version: self.version,
        }
    }
}

impl Duplicate for AgentBudgetEscrow {
    fn duplicate(&self) -> (r: Self) {
        AgentBudgetEscrow {
            mission_id: self.mission_id.clone(),
            run_id: self.run_id.clone(),
            reserved_tokens: self.reserved_tokens,
            consumed_tokens: self.consumed_tokens,
            reserved_tool_calls: self.reserved_tool_calls,
            consumed_tool_calls: self.consumed_tool_calls,
            reserved_runtime_millis: self.reserved_runtime_millis,
            reserved_retries: self.reserved_retries,
            status: self.status,
            expires_at_millis: self.expires_at_millis,
            version: self.version,
        }
    }
}

/// No more is spent than was set aside.
pub open spec fn within_reserve(e: EscrowView) -> bool {
    e.consumed_tokens <= e.reserved_tokens && e.consumed_tool_calls <= e.reserved_tool_calls
}

/// What holds of the escrow table: a run has one escrow, and none is overspent.
pub open spec fn escrows_ok(rows: Seq<EscrowView>) -> bool {
    &&& forall|i: int, j: int|
        0 <= i < j < rows.len() ==> (#[trigger] rows[i]).run_id != (#[trigger] rows[j]).run_id
    &&& forall|i: int| 0 <= i < rows.len() ==> within_reserve(#[trigger] rows[i])
}

pub open spec fn next_version(version: u64) -> u64 {
    saturating_sum(version, 1)
}

/// The place of the escrow of a run.
pub open spec fn place_of_run(rows: Seq<EscrowView>, run: Seq<char>) -> Option<int>
    decreases rows.len(),
{
    if rows.len() == 0 {
        None
    } else {
        match place_of_run(rows.drop_last(), run) {
            Some(i) => Some(i),
            None => if rows.last().run_id == run {
                Some(rows.len() - 1)
            } else {
                None
            },
        }
    }
}

pub open spec fn escrow_of(rows: Seq<EscrowView>, run: Seq<char>) -> Option<EscrowView> {
    match place_of_run(rows, run) {
        Some(i) => Some(rows[i]),
        None => None,
    }
}

pub open spec fn expired_at(e: EscrowView, now: i64) -> EscrowView {
    if e.status == BudgetEscrowStatus::Active && e.expires_at_millis <= now {
        EscrowView {
            status: BudgetEscrowStatus::Expired,
            version: next_version(e.version),
            ..e
        }
    } else {
        e
    }
}

/// The table after the escrows whose time is over have expired.
pub open spec fn swept(rows: Seq<EscrowView>, now: i64) -> Seq<EscrowView> {
    Seq::new(rows.len(), |i: int| expired_at(rows[i], now))
}

/// What the active escrows of a mission hold together.
pub struct Holdings {
    pub agents: nat,
    pub tokens: u64,
    pub tool_calls: u64,
    pub runtime_millis: u64,
}

pub open spec fn holdings(rows: Seq<EscrowView>, mission: Seq<char>) -> Holdings
    decreases rows.len(),
{
    if rows.len() == 0 {
        Holdings { agents: 0, tokens: 0, tool_calls: 0, runtime_millis: 0 }
    } else {
        let before = holdings(rows.drop_last(), mission);
        let e = rows.last();
        if e.mission_id == mission && e.status == BudgetEscrowStatus::Active {
            Holdings {
                agents: before.agents + 1,
                tokens: saturating_sum(before.tokens, e.reserved_tokens),
                tool_calls: saturating_sum(before.tool_calls, e.reserved_tool_calls),
                runtime_millis: saturating_sum(before.runtime_millis, e.reserved_runtime_millis),
            }
        } else {
            before
        }
    }
}

pub open spec fn request_ok(request: AgentBudgetRequest, policy: AgentBudgetPolicy) -> bool {
    &&& 0 < request.reserved_tokens <= policy.max_total_tokens
    &&& request.reserved_tool_calls <= policy.max_tool_calls
    &&& 0 < request.reserved_runtime_millis <= policy.max_runtime_millis
    &&& request.reserved_retries <= policy.max_retries
    &&& policy.max_agents > 0
    &&& policy.max_parallel_agents > 0
}

/// Why a mission may not hold more, if it may not.
pub open spec fn refusal(
    held: Holdings,
    mission: Seq<char>,
    request: AgentBudgetRequest,
    policy: AgentBudgetPolicy,
) -> Option<Outcome<EscrowView>> {
    if held.agents >= policy.max_agents {
        Some(failure("agent-budget-agent-limit"@, "active="@ + decimal(held.agents)))
    } else if saturating_sum(held.tokens, request.reserved_tokens) > policy.max_total_tokens {
        Some(failure("agent-budget-token-limit"@, mission))
    } else if saturating_sum(held.tool_calls, request.reserved_tool_calls)
        > policy.max_tool_calls {
        Some(failure("agent-budget-tool-limit"@, mission))
    } else if saturating_sum(held.runtime_millis, request.reserved_runtime_millis)
        > policy.max_runtime_millis {
        Some(failure("agent-budget-runtime-limit"@, mission))
    } else {
        None
    }
}

pub open spec fn escrow_end(now: i64, runtime_millis: u64) -> i64 {
    clamp_i64(
        now + if runtime_millis > i64::MAX {
            i64::MAX as int
        } else if runtime_millis < 1 {
            1
        } else {
            runtime_millis as int
        },
    )
}

pub open spec fn new_escrow(
    mission: Seq<char>,
    run: Seq<char>,
    request: AgentBudgetRequest,
    now: i64,
) -> EscrowView {
    EscrowView {
        mission_id: mission,
        run_id: run,
        reserved_tokens: request.reserved_tokens,
        consumed_tokens: 0,
        reserved_tool_calls: request.reserved_tool_calls,
        consumed_tool_calls: 0,
        reserved_runtime_millis: request.reserved_runtime_millis,
        reserved_retries: request.reserved_retries,
        status: BudgetEscrowStatus::Active,
        expires_at_millis: escrow_end(now, request.reserved_runtime_millis),
        version: 1,
    }
}

/// Setting aside a budget for a run. Overdue escrows expire first; a run that has an escrow keeps
/// it; a refusal leaves the table as it was.
pub open spec fn reserve_budget(
    rows: Seq<EscrowView>,
    mission: Seq<char>,
    run: Seq<char>,
    request: AgentBudgetRequest,
    policy: AgentBudgetPolicy,
    now: i64,
) -> (Seq<EscrowView>, Outcome<EscrowView>) {
    if !request_ok(request, policy) {
        (rows, failure("agent-budget-request-invalid"@, "policy/request"@))
    } else {
        let current = swept(rows, now);
        match escrow_of(current, run) {
            Some(e) => (current, Outcome::Done(e)),
            None => match refusal(holdings(current, mission), mission, request, policy) {
                Some(refused) => (rows, refused),
                None => {
                    let e = new_escrow(mission, run, request, now);
                    (current.push(e), Outcome::Done(e))
                },
            },
        }
    }
}

pub open spec fn ended(e: EscrowView, status: BudgetEscrowStatus) -> EscrowView {
    EscrowView { status, version: next_version(e.version), ..e }
}

/// Ending an escrow. One that has ended before stays as it is.
pub open spec fn release_budget(
    rows: Seq<EscrowView>,
    run: Seq<char>,
    status: BudgetEscrowStatus,
) -> (Seq<EscrowView>, Outcome<EscrowView>) {
    if status == BudgetEscrowStatus::Active {
        (rows, failure("agent-budget-release-active"@, run))
    } else {
        match place_of_run(rows, run) {
            None => (rows, failure("agent-budget-missing"@, run)),
            Some(i) => if rows[i].status != BudgetEscrowStatus::Active {
                (rows, Outcome::Done(rows[i]))
            } else {
                (rows.update(i, ended(rows[i], status)), Outcome::Done(ended(rows[i], status)))
            },
        }
    }
}

pub open spec fn charged(e: EscrowView, tokens: u64, tool_calls: u64) -> EscrowView {
    EscrowView {
        consumed_tokens: saturating_sum(e.consumed_tokens, tokens),
        consumed_tool_calls: saturating_sum(e.consumed_tool_calls, tool_calls),
        version: next_version(e.version),
        ..e
    }
}

/// Charging a run. An overdue escrow expires; a charge beyond what was set aside is refused.
pub open spec fn charge_budget(
    rows: Seq<EscrowView>,
    run: Seq<char>,
    tokens: u64,
    tool_calls: u64,
    now: i64,
) -> (Seq<EscrowView>, Outcome<EscrowView>) {
    match place_of_run(rows, run) {
        None => (rows, failure("agent-budget-missing"@, run)),
        Some(i) => {
            let e = rows[i];
            let after = charged(e, tokens, tool_calls);
            if e.status != BudgetEscrowStatus::Active {
                (rows, failure("agent-budget-not-active"@, run))
            } else if now >= e.expires_at_millis {
                (
                    rows.update(i, ended(e, BudgetEscrowStatus::Expired)),
                    failure("agent-budget-expired"@, run),
                )
            } else if after.consumed_tokens > e.reserved_tokens {
                (rows, failure("agent-budget-token-escrow"@, run))
            } else if after.consumed_tool_calls > e.reserved_tool_calls {
                (rows, failure("agent-budget-tool-escrow"@, run))
            } else {
                (rows.update(i, after), Outcome::Done(after))
            }
        },
    }
}

/// The place of a run is one where its escrow stands, if there is one.
pub proof fn lemma_place_of_run(rows: Seq<EscrowView>, run: Seq<char>)
    ensures
        match place_of_run(rows, run) {
            Some(i) => 0 <= i < rows.len() && rows[i].run_id == run,
            None => forall|i: int| 0 <= i < rows.len() ==> (#[trigger] rows[i]).run_id != run,
        },
    decreases rows.len(),
{
    if rows.len() > 0 {
        lemma_place_of_run(rows.drop_last(), run);
        if place_of_run(rows, run) is None {
            assert forall|i: int| 0 <= i < rows.len() implies (#[trigger] rows[i]).run_id
                != run by {
                if i < rows.len() - 1 {
                    assert(rows.drop_last()[i] == rows[i]);
                }
            }
        }
    }
}

/// Every operation keeps the table: one escrow for a run, and none of them overspent.
pub proof fn law_escrows_are_kept(
    rows: Seq<EscrowView>,
    mission: Seq<char>,
    run: Seq<char>,
    request: AgentBudgetRequest,
    policy: AgentBudgetPolicy,
    now: i64,
    tokens: u64,
    tool_calls: u64,
    status: BudgetEscrowStatus,
)
    requires
        escrows_ok(rows),
    ensures
        escrows_ok(reserve_budget(rows, mission, run, request, policy, now).0),
        escrows_ok(charge_budget(rows, run, tokens, tool_calls, now).0),
        escrows_ok(release_budget(rows, run, status).0),
{
    lemma_place_of_run(rows, run);
    let current = swept(rows, now);
    assert(escrows_ok(current)) by {
        assert forall|i: int, j: int| 0 <= i < j < current.len() implies (
        #[trigger] current[i]).run_id != (#[trigger] current[j]).run_id by {
            assert(rows[i].run_id != rows[j].run_id);
        }
        assert forall|i: int| 0 <= i < current.len() implies within_reserve(
            #[trigger] current[i],
        ) by {
            assert(within_reserve(rows[i]));
        }
    }
    lemma_place_of_run(current, run);
    if let Some(i) = place_of_run(rows, run) {
        let after = charge_budget(rows, run, tokens, tool_calls, now).0;
        assert(within_reserve(rows[i]));
        assert forall|a: int, b: int| 0 <= a < b < after.len() implies (#[trigger] after[a]).run_id
            != (#[trigger] after[b]).run_id by {
            assert(rows[a].run_id != rows[b].run_id);
        }
        assert forall|a: int| 0 <= a < after.len() implies within_reserve(#[trigger] after[a]) by {
            assert(within_reserve(rows[a]));
        }
        let done = release_budget(rows, run, status).0;
        assert forall|a: int, b: int| 0 <= a < b < done.len() implies (#[trigger] done[a]).run_id
            != (#[trigger] done[b]).run_id by {
            assert(rows[a].run_id != rows[b].run_id);
        }
        assert forall|a: int| 0 <= a < done.len() implies within_reserve(#[trigger] done[a]) by {
            assert(within_reserve(rows[a]));
        }
    }
}

/// A run that was just given an escrow leaves its mission within the policy.
pub proof fn law_reserving_keeps_the_policy(
    rows: Seq<EscrowView>,
    mission: Seq<char>,
    run: Seq<char>,
    request: AgentBudgetRequest,
    policy: AgentBudgetPolicy,
    now: i64,
)
    requires
        escrow_of(swept(rows, now), run) is None,
        reserve_budget(rows, mission, run, request, policy, now).1 is Done,
    ensures
        ({
            let after = reserve_budget(rows, mission, run, request, policy, now).0;
            let held = holdings(after, mission);
            &&& held.agents <= policy.max_agents
            &&& held.tokens <= policy.max_total_tokens
            &&& held.tool_calls <= policy.max_tool_calls
            &&& held.runtime_millis <= policy.max_runtime_millis
            &&& escrow_of(after, run) == Some(new_escrow(mission, run, request, now))
        }),
{
    let current = swept(rows, now);
    let e = new_escrow(mission, run, request, now);
    let after = current.push(e);
    assert(after.drop_last() =~= current);
    lemma_place_of_run(current, run);
}

/// Reserving again for the same run at the same time gives the same escrow and changes nothing.
pub proof fn law_reserving_is_idempotent(
    rows: Seq<EscrowView>,
    mission: Seq<char>,
    run: Seq<char>,
    request: AgentBudgetRequest,
    policy: AgentBudgetPolicy,
    now: i64,
)
    requires
        reserve_budget(rows, mission, run, request, policy, now).1 is Done,
        escrow_of(swept(rows, now), run) is None ==> escrow_end(
            now,
            request.reserved_runtime_millis,
        ) > now,
    ensures
        ({
            let (after, first) = reserve_budget(rows, mission, run, request, policy, now);
            reserve_budget(after, mission, run, request, policy, now) == (after, first)
        }),
{
    let (after, first) = reserve_budget(rows, mission, run, request, policy, now);
    let current = swept(rows, now);
    lemma_place_of_run(current, run);
    assert(swept(after, now) =~= after);
    if escrow_of(current, run) is None {
        assert(after.drop_last() =~= current);
    }
}

/// An escrow that has ended stays as it is: no charge, no release and no reservation changes it.
pub proof fn law_ended_escrows_stay(
    rows: Seq<EscrowView>,
    mission: Seq<char>,
    run: Seq<char>,
    request: AgentBudgetRequest,
    policy: AgentBudgetPolicy,
    now: i64,
    tokens: u64,
    tool_calls: u64,
    status: BudgetEscrowStatus,
)
    requires
        escrow_of(rows, run) matches Some(e) && e.status != BudgetEscrowStatus::Active,
    ensures
        charge_budget(rows, run, tokens, tool_calls, now).0 == rows,
        release_budget(rows, run, status).0 == rows,
        escrow_of(reserve_budget(rows, mission, run, request, policy, now).0, run) == escrow_of(
            rows,
            run,
        ),
{
    lemma_place_of_run(rows, run);
    lemma_swept_place(rows, run, now);
    lemma_place_of_run(swept(rows, now), run);
}

proof fn lemma_swept_place(rows: Seq<EscrowView>, run: Seq<char>, now: i64)
    ensures
        place_of_run(swept(rows, now), run) == place_of_run(rows, run),
    decreases rows.len(),
{
    if rows.len() > 0 {
        assert(swept(rows, now).drop_last() =~= swept(rows.drop_last(), now));
        lemma_swept_place(rows.drop_last(), run, now);
    }
}

/// The escrows of all runs.
pub struct AgentBudgetManager {
    rows: Vec<AgentBudgetEscrow>,
}

impl View for AgentBudgetManager {
    type V = Seq<EscrowView>;

    closed spec fn view(&self) -> Seq<EscrowView> {
        views(self.rows@)
    }
}

pub fn validate_request(request: &AgentBudgetRequest, policy: &AgentBudgetPolicy) -> (r: Result<
    (),
    AgentError,
>)
    ensures
        unit_outcome(r) == if request_ok(*request, *policy) {
            Outcome::Done(())
        } else {
            failure("agent-budget-request-invalid"@, "policy/request"@)
        },
{
    if request.reserved_tokens == 0 || request.reserved_tokens > policy.max_total_tokens
        || request.reserved_tool_calls > policy.max_tool_calls || request.reserved_runtime_millis
        == 0 || request.reserved_runtime_millis > policy.max_runtime_millis
        || request.reserved_retries > policy.max_retries || policy.max_agents == 0
        || policy.max_parallel_agents == 0 {
        return Err(AgentError::new("agent-budget-request-invalid", "policy/request"));
    }
    Ok(())
}

pub open spec fn status_text(status: BudgetEscrowStatus) -> Seq<char> {
    match status {
        BudgetEscrowStatus::Active => "active"@,
        BudgetEscrowStatus::Completed => "completed"@,
        BudgetEscrowStatus::Failed => "failed"@,
        BudgetEscrowStatus::Cancelled => "cancelled"@,
        BudgetEscrowStatus::Expired => "expired"@,
    }
}

/// The name under which a status is stored.
pub fn status_name(status: BudgetEscrowStatus) -> (r: &'static str)
    ensures
        r@ == status_text(status),
{
    match status {
        BudgetEscrowStatus::Active => "active",
        BudgetEscrowStatus::Completed => "completed",
        BudgetEscrowStatus::Failed => "failed",
        BudgetEscrowStatus::Cancelled => "cancelled",
        BudgetEscrowStatus::Expired => "expired",
    }
}

fn find_run(rows: &Vec<AgentBudgetEscrow>, run: &str) -> (r: Option<usize>)
    ensures
        match r {
            Some(i) => place_of_run(views(rows@), run@) == Some(i as int) && i < rows@.len()
                && rows@[i as int]@ == views(rows@)[i as int],
            None => place_of_run(views(rows@), run@) is None,
        },
{
    let ghost all = views(rows@);
    let mut found: Option<usize> = None;
    let mut i: usize = 0;
    assert(all.subrange(0, 0) =~= Seq::empty());
    while i < rows.len()
        invariant
            i <= rows.len(),
            all == views(rows@),
            match found {
                Some(k) => place_of_run(all.subrange(0, i as int), run@) == Some(k as int) && k < i,
                None => place_of_run(all.subrange(0, i as int), run@) is None,
            },
        decreases rows.len() - i,
    {
        let ghost next = all.subrange(0, i as int + 1);
        assert(next.drop_last() =~= all.subrange(0, i as int));
        assert(next.last() == rows@[i as int]@);
        if found.is_none() && same(rows[i].run_id.as_str(), run) {
            found = Some(i);
        }
        i = i + 1;
    }
    assert(all.subrange(0, all.len() as int) =~= all);
    found
}

impl AgentBudgetManager {
    #[verifier::type_invariant]
    spec fn sound(self) -> bool {
        escrows_ok(views(self.rows@))
    }

    pub fn new() -> (r: Self)
        ensures
            r@ == Seq::<EscrowView>::empty(),
    {
        broadcast use group_views;

        AgentBudgetManager { rows: Vec::new() }
    }

    /// The manager with the rows of a stored table, if they are sound.
    pub fn with_rows(rows: Vec<AgentBudgetEscrow>) -> (r: Option<Self>)
        ensures
            r is Some <==> escrows_ok(views(rows@)),
            r matches Some(m) ==> m@ == views(rows@),
    {
        let ghost all = views(rows@);
        let mut j: usize = 0;
        while j < rows.len()
            invariant
                j <= rows.len(),
                all == views(rows@),
                forall|a: int, b: int|
                    0 <= a < b < j ==> (#[trigger] all[a]).run_id != (#[trigger] all[b]).run_id,
                forall|a: int| 0 <= a < j ==> within_reserve(#[trigger] all[a]),
            decreases rows.len() - j,
        {
            assert(all[j as int] == rows@[j as int]@);
            if rows[j].consumed_tokens > rows[j].reserved_tokens || rows[j].consumed_tool_calls
                > rows[j].reserved_tool_calls {
                assert(!within_reserve(all[j as int]));
                return None;
            }
            let mut i: usize = 0;
            while i < j
                invariant
                    i <= j < rows.len(),
                    all == views(rows@),
                    forall|a: int| 0 <= a < i ==> (#[trigger] all[a]).run_id != all[j as int].run_id,
                decreases j - i,
            {
                assert(all[i as int] == rows@[i as int]@);
                assert(all[j as int] == rows@[j as int]@);
                if same(rows[i].run_id.as_str(), rows[j].run_id.as_str()) {
                    assert(all[i as int].run_id == all[j as int].run_id);
                    return None;
                }
                i = i + 1;
            }
            j = j + 1;
        }
        Some(AgentBudgetManager { rows })
    }

    /// The rows of the table, to be stored.
    pub fn rows(&self) -> (r: &Vec<AgentBudgetEscrow>)
        ensures
            views(r@) == self@,
            escrows_ok(self@),
    {
        proof {
            use_type_invariant(self);
        }
        &self.rows
    }

    /// The escrow of a run.
    pub fn get(&self, run_id: &str) -> (r: Option<AgentBudgetEscrow>)
        ensures
            option_view(r) == escrow_of(self@, run_id@),
    {
        match find_run(&self.rows, run_id) {
            Some(i) => Some(self.rows[i].duplicate()),
            None => None,
        }
    }

    pub fn reserve(
        &mut self,
        mission_id: MissionId,
        run_id: RunId,
        request: &AgentBudgetRequest,
        policy: &AgentBudgetPolicy,
        now_millis: i64,
    ) -> (r: Result<AgentBudgetEscrow, AgentError>)
        ensures
            (final(self)@, outcome(r)) == reserve_budget(
                old(self)@,
                mission_id@,
                run_id@,
                *request,
                *policy,
                now_millis,
            ),
    {
        broadcast use group_views;

        let ghost all = self@;
        let ghost current = swept(all, now_millis);
        proof {
            use_type_invariant(&*self);
            law_escrows_are_kept(
                all,
                mission_id@,
                run_id@,
                *request,
                *policy,
                now_millis,
                0,
                0,
                BudgetEscrowStatus::Failed,
            );
        }
        match validate_request(request, policy) {
            Ok(_) => {},
            Err(error) => {
                return Err(error);
            },
        }
        let mut rows: Vec<AgentBudgetEscrow> = Vec::new();
        let mut agents: usize = 0;
        let mut tokens: u64 = 0;
        let mut tools: u64 = 0;
        let mut runtime: u64 = 0;
        let mut i: usize = 0;
        assert(current.subrange(0, 0) =~= Seq::empty());
        while i < self.rows.len()
            invariant
                i <= self.rows.len(),
                all == views(self.rows@),
                current == swept(all, now_millis),
                views(rows@) == current.subrange(0, i as int),
                agents <= i,
                (Holdings { agents: agents as nat, tokens, tool_calls: tools, runtime_millis: runtime })
                    == holdings(current.subrange(0, i as int), mission_id@),
                *self == *old(self),
            decreases self.rows.len() - i,
        {
            broadcast use group_views;

            let mut row = self.rows[i].duplicate();
            assert(row@ == all[i as int]);
            if row.status == BudgetEscrowStatus::Active && row.expires_at_millis <= now_millis {
                row.status = BudgetEscrowStatus::Expired;
                row.version = row.version.saturating_add(1);
            }
            let ghost next = current.subrange(0, i as int + 1);
            proof {
                assert(row@ == current[i as int]);
                assert(next.drop_last() =~= current.subrange(0, i as int));
                assert(next =~= current.subrange(0, i as int).push(row@));
            }
            if row.status == BudgetEscrowStatus::Active && same(
                row.mission_id.as_str(),
                mission_id.as_str(),
            ) {
                agents = agents + 1;
                tokens = tokens.saturating_add(row.reserved_tokens);
                tools = tools.saturating_add(row.reserved_tool_calls);
                runtime = runtime.saturating_add(row.reserved_runtime_millis);
            }
            rows.push(row);
            i = i + 1;
        }
        assert(current.subrange(0, current.len() as int) =~= current);
        if let Some(at) = find_run(&rows, run_id.as_str()) {
            let existing = rows[at].duplicate();
            self.rows = rows;
            return Ok(existing);
        }
        if agents >= policy.max_agents {
            let mut message = "active=".to_owned();
            message.append(decimal_of(agents as u64).as_str());
            return Err(AgentError::new("agent-budget-agent-limit", message.as_str()));
        }
        if tokens.saturating_add(request.reserved_tokens) > policy.max_total_tokens {
            return Err(AgentError::new("agent-budget-token-limit", mission_id.as_str()));
        }
        if tools.saturating_add(request.reserved_tool_calls) > policy.max_tool_calls {
            return Err(AgentError::new("agent-budget-tool-limit", mission_id.as_str()));
        }
        if runtime.saturating_add(request.reserved_runtime_millis) > policy.max_runtime_millis {
            return Err(AgentError::new("agent-budget-runtime-limit", mission_id.as_str()));
        }
        let length: i64 = if request.reserved_runtime_millis > 0x7fff_ffff_ffff_ffff {
            0x7fff_ffff_ffff_ffff
        } else {
            request.reserved_runtime_millis as i64
        };
        let expires_at_millis: i64 = match now_millis.checked_add(length) {
            Some(end) => end,
            None => 0x7fff_ffff_ffff_ffff,
        };
        let escrow = AgentBudgetEscrow {
            mission_id,
            run_id,
            reserved_tokens: request.reserved_tokens,
            consumed_tokens: 0,
            reserved_tool_calls: request.reserved_tool_calls,
            consumed_tool_calls: 0,
            reserved_runtime_millis: request.reserved_runtime_millis,
            reserved_retries: request.reserved_retries,
            status: BudgetEscrowStatus::Active,
            expires_at_millis,
            version: 1,
        };
        rows.push(escrow.duplicate());
        self.rows = rows;
        Ok(escrow)
    }

    pub fn charge(
        &mut self,
        run_id: &str,
        token_delta: u64,
        tool_call_delta: u64,
        now_millis: i64,
    ) -> (r: Result<AgentBudgetEscrow, AgentError>)
        ensures
            (final(self)@, outcome(r)) == charge_budget(
                old(self)@,
                run_id@,
                token_delta,
                tool_call_delta,
                now_millis,
            ),
    {
        broadcast use group_views;

        let ghost all = self@;
        proof {
            use_type_invariant(&*self);
            law_escrows_are_kept(
                all,
                run_id@,
                run_id@,
                AgentBudgetRequest {
                    reserved_tokens: 0,
                    reserved_tool_calls: 0,
                    reserved_runtime_millis: 0,
                    reserved_retries: 0,
                },
                AgentBudgetPolicy {
                    max_agents: 0,
                    max_parallel_agents: 0,
                    max_total_tokens: 0,
                    max_tool_calls: 0,
                    max_runtime_millis: 0,
                    max_retries: 0,
                },
                now_millis,
                token_delta,
                tool_call_delta,
                BudgetEscrowStatus::Failed,
            );
        }
        let at = match find_run(&self.rows, run_id) {
            Some(i) => i,
            None => {
                return Err(AgentError::new("agent-budget-missing", run_id));
            },
        };
        let mut escrow = self.rows[at].duplicate();
        if escrow.status != BudgetEscrowStatus::Active {
            return Err(AgentError::new("agent-budget-not-active", run_id));
        }
        if now_millis >= escrow.expires_at_millis {
            escrow.status = BudgetEscrowStatus::Expired;
            escrow.version = escrow.version.saturating_add(1);
            let mut rows: Vec<AgentBudgetEscrow> = Vec::new();
            std::mem::swap(&mut rows, &mut self.rows);
            rows[at] = escrow;
            self.rows = rows;
            return Err(AgentError::new("agent-budget-expired", run_id));
        }
        let next_tokens = escrow.consumed_tokens.saturating_add(token_delta);
        let next_tools = escrow.consumed_tool_calls.saturating_add(tool_call_delta);
        if next_tokens > escrow.reserved_tokens {
            return Err(AgentError::new("agent-budget-token-escrow", run_id));
        }
        if next_tools > escrow.reserved_tool_calls {
            return Err(AgentError::new("agent-budget-tool-escrow", run_id));
        }
        escrow.consumed_tokens = next_tokens;
        escrow.consumed_tool_calls = next_tools;
        escrow.version = escrow.version.saturating_add(1);
        let reply = escrow.duplicate();
        let mut rows: Vec<AgentBudgetEscrow> = Vec::new();
        std::mem::swap(&mut rows, &mut self.rows);
        rows[at] = escrow;
        self.rows = rows;
        Ok(reply)
    }

    pub fn release(&mut self, run_id: &str, status: BudgetEscrowStatus) -> (r: Result<
        AgentBudgetEscrow,
        AgentError,
    >)
        ensures
            (final(self)@, outcome(r)) == release_budget(old(self)@, run_id@, status),
    {
        broadcast use group_views;

        let ghost all = self@;
        proof {
            use_type_invariant(&*self);
            law_escrows_are_kept(
                all,
                run_id@,
                run_id@,
                AgentBudgetRequest {
                    reserved_tokens: 0,
                    reserved_tool_calls: 0,
                    reserved_runtime_millis: 0,
                    reserved_retries: 0,
                },
                AgentBudgetPolicy {
                    max_agents: 0,
                    max_parallel_agents: 0,
                    max_total_tokens: 0,
                    max_tool_calls: 0,
                    max_runtime_millis: 0,
                    max_retries: 0,
                },
                0,
                0,
                0,
                status,
            );
        }
        if status == BudgetEscrowStatus::Active {
            return Err(AgentError::new("agent-budget-release-active", run_id));
        }
        let at = match find_run(&self.rows, run_id) {
            Some(i) => i,
            None => {
                return Err(AgentError::new("agent-budget-missing", run_id));
            },
        };
        let mut escrow = self.rows[at].duplicate();
        if escrow.status != BudgetEscrowStatus::Active {
            return Ok(escrow);
        }
        escrow.status = status;
        escrow.version = escrow.version.saturating_add(1);
        let reply = escrow.duplicate();
        let mut rows: Vec<AgentBudgetEscrow> = Vec::new();
        std::mem::swap(&mut rows, &mut self.rows);
        rows[at] = escrow;
        self.rows = rows;
        Ok(reply)
    }
}

} // verus!
