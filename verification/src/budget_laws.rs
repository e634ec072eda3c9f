//! What budgets are for: a run spends what it was charged and no more than was set aside, and the
//! runs of a mission hold together no more than its policy allows.

use vstd::prelude::*;

use crate::budget::{
    charge_budget, escrow_of, escrows_ok, holdings, lemma_place_of_run, place_of_run,
    release_budget, reserve_budget, swept, within_reserve, AgentBudgetPolicy, AgentBudgetRequest, BudgetEscrowStatus, EscrowView,
};
use crate::error::{ErrorView, Outcome};
use crate::turn_laws::held_at;

verus! {

/// The escrows of a mission that still hold something at some time.
pub open spec fn live(rows: Seq<EscrowView>, mission: Seq<char>, now: i64) -> Seq<EscrowView> {
    rows.filter(
        |e: EscrowView|
            e.mission_id == mission && e.status == BudgetEscrowStatus::Active && now
                < e.expires_at_millis,
    )
}

/// What some escrows have set aside together.
pub open spec fn set_aside(rows: Seq<EscrowView>, what: spec_fn(EscrowView) -> u64) -> int {
    rows.fold_left(0int, |sum: int, e: EscrowView| sum + what(e))
}

pub open spec fn reserved_tokens() -> spec_fn(EscrowView) -> u64 {
    |e: EscrowView| e.reserved_tokens
}

pub open spec fn reserved_tool_calls() -> spec_fn(EscrowView) -> u64 {
    |e: EscrowView| e.reserved_tool_calls
}

pub open spec fn reserved_runtime() -> spec_fn(EscrowView) -> u64 {
    |e: EscrowView| e.reserved_runtime_millis
}

proof fn lemma_set_aside(rows: Seq<EscrowView>, e: EscrowView, what: spec_fn(EscrowView) -> u64)
    ensures
        set_aside(rows.push(e), what) == set_aside(rows, what) + what(e),
        set_aside(Seq::empty(), what) == 0,
        set_aside(rows, what) >= 0,
    decreases rows.len(),
{
    reveal(Seq::fold_left);
    assert(rows.push(e).drop_last() =~= rows);
    if rows.len() > 0 {
        assert(rows.drop_last().push(rows.last()) =~= rows);
        lemma_set_aside(rows.drop_last(), rows.last(), what);
    }
}

proof fn lemma_holdings(rows: Seq<EscrowView>, mission: Seq<char>, now: i64)
    ensures
        ({
            let held = holdings(swept(rows, now), mission);
            let some = live(rows, mission, now);
            let most = u64::MAX as int;
            &&& held.agents == some.len()
            &&& held.tokens == held_at(most, set_aside(some, reserved_tokens()))
            &&& held.tool_calls == held_at(most, set_aside(some, reserved_tool_calls()))
            &&& held.runtime_millis == held_at(most, set_aside(some, reserved_runtime()))
        }),
    decreases rows.len(),
{
    reveal(Seq::filter);
    if rows.len() == 0 {
        assert(live(rows, mission, now) =~= Seq::empty());
        lemma_set_aside(Seq::empty(), arbitrary(), reserved_tokens());
        lemma_set_aside(Seq::empty(), arbitrary(), reserved_tool_calls());
        lemma_set_aside(Seq::empty(), arbitrary(), reserved_runtime());
    } else {
        let before = rows.drop_last();
        lemma_holdings(before, mission, now);
        assert(swept(rows, now).drop_last() =~= swept(before, now));
        let some = live(before, mission, now);
        lemma_set_aside(some, rows.last(), reserved_tokens());
        lemma_set_aside(some, rows.last(), reserved_tool_calls());
        lemma_set_aside(some, rows.last(), reserved_runtime());
    }
}

proof fn lemma_found_at(rows: Seq<EscrowView>, run: Seq<char>, i: int)
    requires
        escrows_ok(rows),
        0 <= i < rows.len(),
        rows[i].run_id == run,
    ensures
        place_of_run(rows, run) == Some(i),
{
    lemma_place_of_run(rows, run);
    let k = place_of_run(rows, run)->Some_0;
    assert(rows[i].run_id == run);
    if k < i {
        assert(rows[k].run_id != rows[i].run_id);
    } else if i < k {
        assert(rows[i].run_id != rows[k].run_id);
    }
}

/// A run is charged with what is asked as long as its escrow is active, its time is not over and what
/// it has set aside is enough. What it has spent then rises by exactly that, and nothing else of its
/// escrow, and no other escrow, changes but for the version. A charge that is refused spends nothing;
/// one that comes too late ends the escrow.
pub proof fn law_charges_are_spent(
    rows: Seq<EscrowView>,
    run: Seq<char>,
    i: int,
    tokens: u64,
    tool_calls: u64,
    now: i64,
)
    requires
        escrows_ok(rows),
        0 <= i < rows.len(),
        rows[i].run_id == run,
    ensures
        ({
            let e = rows[i];
            let (after, result) = charge_budget(rows, run, tokens, tool_calls, now);
            let most = u64::MAX as int;
            let spent = held_at(most, e.consumed_tokens + tokens);
            let called = held_at(most, e.consumed_tool_calls + tool_calls);
            let active = e.status == BudgetEscrowStatus::Active;
            let x = after[i];
            &&& after.len() == rows.len()
            &&& forall|j: int| 0 <= j < rows.len() && j != i ==> #[trigger] after[j] == rows[j]
            &&& x.mission_id == e.mission_id && x.run_id == run
            &&& x.reserved_tokens == e.reserved_tokens
            &&& x.reserved_tool_calls == e.reserved_tool_calls
            &&& x.reserved_runtime_millis == e.reserved_runtime_millis
            &&& x.reserved_retries == e.reserved_retries
            &&& x.expires_at_millis == e.expires_at_millis
            &&& escrow_of(after, run) == Some(x)
            &&& result is Done <==> active && now < e.expires_at_millis && spent
                <= e.reserved_tokens && called <= e.reserved_tool_calls
            &&& match result {
                Outcome::Done(reply) => {
                    &&& reply == x
                    &&& x.consumed_tokens == spent && x.consumed_tool_calls == called
                    &&& e.reserved_tokens < u64::MAX ==> x.consumed_tokens == e.consumed_tokens
                        + tokens
                    &&& e.reserved_tool_calls < u64::MAX ==> x.consumed_tool_calls
                        == e.consumed_tool_calls + tool_calls
                    &&& x.status == BudgetEscrowStatus::Active
                    &&& x.version == held_at(most, e.version + 1)
                },
                Outcome::Failed(error) => {
                    &&& x.consumed_tokens == e.consumed_tokens
                    &&& x.consumed_tool_calls == e.consumed_tool_calls
                    &&& error.message == run
                    &&& if !active {
                        x == e && error.code == "agent-budget-not-active"@
                    } else if now >= e.expires_at_millis {
                        &&& x.status == BudgetEscrowStatus::Expired
                        &&& x.version == held_at(most, e.version + 1)
                        &&& error.code == "agent-budget-expired"@
                    } else if spent > e.reserved_tokens {
                        x == e && error.code == "agent-budget-token-escrow"@
                    } else {
                        x == e && error.code == "agent-budget-tool-escrow"@
                    }
                },
            }
        }),
{
    lemma_found_at(rows, run, i);
    let (after, result) = charge_budget(rows, run, tokens, tool_calls, now);
    assert(escrows_ok(after)) by {
        assert forall|a: int, b: int| 0 <= a < b < after.len() implies (#[trigger] after[a]).run_id
            != (#[trigger] after[b]).run_id by {
            assert(rows[a].run_id != rows[b].run_id);
        }
        assert forall|a: int| 0 <= a < after.len() implies within_reserve(#[trigger] after[a]) by {
            assert(within_reserve(rows[a]));
        }
    }
    lemma_found_at(after, run, i);
}

/// A run without an escrow can neither be charged nor released, and has nothing to be shown.
pub proof fn law_unknown_runs_spend_nothing(
    rows: Seq<EscrowView>,
    run: Seq<char>,
    tokens: u64,
    tool_calls: u64,
    now: i64,
    status: BudgetEscrowStatus,
)
    requires
        forall|i: int| 0 <= i < rows.len() ==> (#[trigger] rows[i]).run_id != run,
        status != BudgetEscrowStatus::Active,
    ensures
        escrow_of(rows, run) is None,
        charge_budget(rows, run, tokens, tool_calls, now) == (
            rows,
            Outcome::<EscrowView>::Failed(
                ErrorView { code: "agent-budget-missing"@, message: run },
            ),
        ),
        release_budget(rows, run, status) == (
            rows,
            Outcome::<EscrowView>::Failed(
                ErrorView { code: "agent-budget-missing"@, message: run },
            ),
        ),
{
    lemma_place_of_run(rows, run);
}

/// Something that a run is charged with.
pub struct Charge {
    pub tokens: u64,
    pub tool_calls: u64,
    pub now: i64,
}

/// The escrows after a run was charged again and again.
pub open spec fn after_charges(
    rows: Seq<EscrowView>,
    run: Seq<char>,
    charges: Seq<Charge>,
) -> Seq<EscrowView>
    decreases charges.len(),
{
    if charges.len() == 0 {
        rows
    } else {
        let c = charges.last();
        charge_budget(
            after_charges(rows, run, charges.drop_last()),
            run,
            c.tokens,
            c.tool_calls,
            c.now,
        ).0
    }
}

/// Whether a charge was granted after those before it.
pub open spec fn granted(
    rows: Seq<EscrowView>,
    run: Seq<char>,
    charges: Seq<Charge>,
    k: int,
) -> bool {
    let c = charges[k];
    charge_budget(
        after_charges(rows, run, charges.subrange(0, k)),
        run,
        c.tokens,
        c.tool_calls,
        c.now,
    ).1 is Done
}

/// The tokens and the calls of all charges that were granted.
pub open spec fn granted_in_all(rows: Seq<EscrowView>, run: Seq<char>, charges: Seq<Charge>) -> (
    int,
    int,
)
    decreases charges.len(),
{
    if charges.len() == 0 {
        (0, 0)
    } else {
        let (tokens, calls) = granted_in_all(rows, run, charges.drop_last());
        if granted(rows, run, charges, charges.len() - 1) {
            (tokens + charges.last().tokens, calls + charges.last().tool_calls)
        } else {
            (tokens, calls)
        }
    }
}

/// However often a run is charged, it has spent the sum of what was granted, and never more than was
/// set aside for it. No other run spends anything of it.
pub proof fn law_charges_add_up(
    rows: Seq<EscrowView>,
    run: Seq<char>,
    i: int,
    charges: Seq<Charge>,
)
    requires
        escrows_ok(rows),
        0 <= i < rows.len(),
        rows[i].run_id == run,
        rows[i].reserved_tokens < u64::MAX,
        rows[i].reserved_tool_calls < u64::MAX,
    ensures
        ({
            let after = after_charges(rows, run, charges);
            let (tokens, calls) = granted_in_all(rows, run, charges);
            &&& escrows_ok(after)
            &&& after.len() == rows.len()
            &&& after[i].run_id == run
            &&& after[i].reserved_tokens == rows[i].reserved_tokens
            &&& after[i].reserved_tool_calls == rows[i].reserved_tool_calls
            &&& after[i].consumed_tokens == rows[i].consumed_tokens + tokens
            &&& after[i].consumed_tool_calls == rows[i].consumed_tool_calls + calls
            &&& rows[i].consumed_tokens + tokens <= rows[i].reserved_tokens
            &&& rows[i].consumed_tool_calls + calls <= rows[i].reserved_tool_calls
            &&& forall|j: int| 0 <= j < rows.len() && j != i ==> #[trigger] after[j] == rows[j]
        }),
    decreases charges.len(),
{
    assert(within_reserve(rows[i]));
    if charges.len() > 0 {
        let less = charges.drop_last();
        law_charges_add_up(rows, run, i, less);
        let before = after_charges(rows, run, less);
        let c = charges.last();
        assert(charges.subrange(0, charges.len() - 1) =~= less);
        law_charges_are_spent(before, run, i, c.tokens, c.tool_calls, c.now);
        let after = after_charges(rows, run, charges);
        assert(within_reserve(before[i]));
        assert forall|a: int, b: int| 0 <= a < b < after.len() implies (#[trigger] after[a]).run_id
            != (#[trigger] after[b]).run_id by {
            assert(before[a].run_id != before[b].run_id);
        }
        assert forall|a: int| 0 <= a < after.len() implies within_reserve(#[trigger] after[a]) by {
            assert(within_reserve(before[a]));
        }
    }
}

/// Whether a mission may set aside what is asked beside what it holds.
pub open spec fn has_room(
    rows: Seq<EscrowView>,
    mission: Seq<char>,
    request: AgentBudgetRequest,
    policy: AgentBudgetPolicy,
    now: i64,
) -> bool {
    let some = live(rows, mission, now);
    let most = u64::MAX as int;
    &&& some.len() < policy.max_agents
    &&& held_at(most, set_aside(some, reserved_tokens()) + request.reserved_tokens)
        <= policy.max_total_tokens
    &&& held_at(most, set_aside(some, reserved_tool_calls()) + request.reserved_tool_calls)
        <= policy.max_tool_calls
    &&& held_at(most, set_aside(some, reserved_runtime()) + request.reserved_runtime_millis)
        <= policy.max_runtime_millis
}

/// A request that asks for something, and for no more than the policy allows at all.
pub open spec fn is_sensible(request: AgentBudgetRequest, policy: AgentBudgetPolicy) -> bool {
    &&& request.reserved_tokens > 0
    &&& request.reserved_tokens <= policy.max_total_tokens
    &&& request.reserved_tool_calls <= policy.max_tool_calls
    &&& request.reserved_runtime_millis > 0
    &&& request.reserved_runtime_millis <= policy.max_runtime_millis
    &&& request.reserved_retries <= policy.max_retries
    &&& policy.max_agents > 0
    &&& policy.max_parallel_agents > 0
}

/// The escrows that are overdue have expired, and nothing else of the table has changed.
pub open spec fn is_overtaken(rows: Seq<EscrowView>, after: Seq<EscrowView>, now: i64) -> bool {
    &&& after.len() >= rows.len()
    &&& forall|i: int|
        0 <= i < rows.len() ==> if rows[i].status == BudgetEscrowStatus::Active
            && rows[i].expires_at_millis <= now {
            #[trigger] after[i] == (EscrowView {
                status: BudgetEscrowStatus::Expired,
                version: held_at(u64::MAX as int, rows[i].version + 1) as u64,
                ..rows[i]
            })
        } else {
            after[i] == rows[i]
        }
}

/// A run that has no escrow gets one if and only if its request is sensible and the mission has room
/// for it beside what its other runs still hold. The escrow holds what was asked for, with nothing of
/// it spent, and lasts as long as was asked for. A request that is refused changes nothing.
pub proof fn law_reserving_fits_the_policy(
    rows: Seq<EscrowView>,
    mission: Seq<char>,
    run: Seq<char>,
    request: AgentBudgetRequest,
    policy: AgentBudgetPolicy,
    now: i64,
)
    requires
        forall|i: int| 0 <= i < rows.len() ==> (#[trigger] rows[i]).run_id != run,
    ensures
        ({
            let (after, result) = reserve_budget(rows, mission, run, request, policy, now);
            let some = live(rows, mission, now);
            let most = u64::MAX as int;
            &&& result is Done <==> is_sensible(request, policy) && has_room(
                rows,
                mission,
                request,
                policy,
                now,
            )
            &&& match result {
                Outcome::Done(e) => {
                    &&& is_overtaken(rows, after, now)
                    &&& after.len() == rows.len() + 1
                    &&& after.last() == e
                    &&& escrow_of(after, run) == Some(e)
                    &&& e.mission_id == mission && e.run_id == run
                    &&& e.reserved_tokens == request.reserved_tokens
                    &&& e.reserved_tool_calls == request.reserved_tool_calls
                    &&& e.reserved_runtime_millis == request.reserved_runtime_millis
                    &&& e.reserved_retries == request.reserved_retries
                    &&& e.consumed_tokens == 0 && e.consumed_tool_calls == 0
                    &&& e.status == BudgetEscrowStatus::Active
                    &&& e.expires_at_millis == held_at(
                        i64::MAX as int,
                        now + held_at(i64::MAX as int, request.reserved_runtime_millis as int),
                    )
                    &&& e.version == 1
                    &&& policy.max_total_tokens < u64::MAX ==> set_aside(some, reserved_tokens())
                        + e.reserved_tokens <= policy.max_total_tokens
                    &&& policy.max_tool_calls < u64::MAX ==> set_aside(some, reserved_tool_calls())
                        + e.reserved_tool_calls <= policy.max_tool_calls
                },
                Outcome::Failed(error) => {
                    &&& after == rows
                    &&& error.code == if !is_sensible(request, policy) {
                        "agent-budget-request-invalid"@
                    } else if some.len() >= policy.max_agents {
                        "agent-budget-agent-limit"@
                    } else if held_at(
                        most,
                        set_aside(some, reserved_tokens()) + request.reserved_tokens,
                    ) > policy.max_total_tokens {
                        "agent-budget-token-limit"@
                    } else if held_at(
                        most,
                        set_aside(some, reserved_tool_calls()) + request.reserved_tool_calls,
                    ) > policy.max_tool_calls {
                        "agent-budget-tool-limit"@
                    } else {
                        "agent-budget-runtime-limit"@
                    }
                },
            }
        }),
{
    let current = swept(rows, now);
    assert forall|i: int| 0 <= i < current.len() implies (#[trigger] current[i]).run_id != run by {
        assert(rows[i].run_id != run);
    }
    lemma_place_of_run(current, run);
    lemma_holdings(rows, mission, now);
    let some = live(rows, mission, now);
    lemma_set_aside(some, arbitrary(), reserved_tokens());
    lemma_set_aside(some, arbitrary(), reserved_tool_calls());
    lemma_set_aside(some, arbitrary(), reserved_runtime());
    let (after, result) = reserve_budget(rows, mission, run, request, policy, now);
    if let Outcome::Done(e) = result {
        assert(after.drop_last() =~= current);
        assert forall|i: int| 0 <= i < rows.len() implies after[i] == current[i] by {}
    }
}

/// A run that has an escrow keeps it, whatever is asked for it again: only what is overdue expires.
pub proof fn law_a_run_has_one_escrow(
    rows: Seq<EscrowView>,
    mission: Seq<char>,
    run: Seq<char>,
    i: int,
    request: AgentBudgetRequest,
    policy: AgentBudgetPolicy,
    now: i64,
)
    requires
        escrows_ok(rows),
        0 <= i < rows.len(),
        rows[i].run_id == run,
        is_sensible(request, policy),
    ensures
        ({
            let (after, result) = reserve_budget(rows, mission, run, request, policy, now);
            &&& result == Outcome::Done(after[i])
            &&& after.len() == rows.len()
            &&& is_overtaken(rows, after, now)
        }),
{
    let current = swept(rows, now);
    assert(escrows_ok(current)) by {
        assert forall|a: int, b: int| 0 <= a < b < current.len() implies (
        #[trigger] current[a]).run_id != (#[trigger] current[b]).run_id by {
            assert(rows[a].run_id != rows[b].run_id);
        }
        assert forall|a: int| 0 <= a < current.len() implies within_reserve(
            #[trigger] current[a],
        ) by {
            assert(within_reserve(rows[a]));
        }
    }
    lemma_found_at(current, run, i);
}

/// Releasing ends an escrow that is active, in the way that was asked for, and leaves all that it has
/// spent and every other escrow as they were. One that has ended stays ended as it did.
pub proof fn law_releasing_ends_one_escrow(
    rows: Seq<EscrowView>,
    run: Seq<char>,
    i: int,
    status: BudgetEscrowStatus,
)
    requires
        escrows_ok(rows),
        0 <= i < rows.len(),
        rows[i].run_id == run,
    ensures
        ({
            let (after, result) = release_budget(rows, run, status);
            let e = rows[i];
            let x = after[i];
            &&& result is Done <==> status != BudgetEscrowStatus::Active
            &&& after.len() == rows.len()
            &&& forall|j: int| 0 <= j < rows.len() && j != i ==> #[trigger] after[j] == rows[j]
            &&& result matches Outcome::Done(reply) ==> reply == x
            &&& result matches Outcome::Failed(error) ==> x == e && error == (ErrorView {
                code: "agent-budget-release-active"@,
                message: run,
            })
            &&& result is Done && e.status == BudgetEscrowStatus::Active ==> x == (EscrowView {
                status,
                version: held_at(u64::MAX as int, e.version + 1) as u64,
                ..e
            })
            &&& e.status != BudgetEscrowStatus::Active ==> x == e
        }),
{
    lemma_found_at(rows, run, i);
}

} // verus!
