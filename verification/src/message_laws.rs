//! What the message bus is for: what was sent reaches the one it was sent to, in order, and is handed
//! out once at a time until somebody answers for it.

use vstd::prelude::*;

use crate::error::Outcome;
use crate::messages::{
    acknowledge_all, can_acknowledge, claim_first, claim_step, last_sequence, lease_end, page_size,
    place_of_key, send_step, waiting, ClaimView, ClaimedView, MessageView, Query, RowView,
};
use crate::text::is_blank_text;
use crate::turn_laws::held_at;

verus! {

/// A message that somebody asks for: it was sent to them, for the mission if they ask for one, after
/// what they know already, and nobody has answered for it.
pub open spec fn concerns(q: Query) -> spec_fn(RowView) -> bool {
    |row: RowView|
        row.message.to == q.recipient && (q.mission is Some ==> row.message.mission_id
            == q.mission->Some_0) && row.message.sequence > q.after
            && row.message.acknowledged_at_millis is None
}

/// One that nobody else is busy with.
pub open spec fn concerns_and_is_free(q: Query, now: i64) -> spec_fn(RowView) -> bool {
    |row: RowView|
        row.message.to == q.recipient && (q.mission is Some ==> row.message.mission_id
            == q.mission->Some_0) && row.message.sequence > q.after
            && row.message.acknowledged_at_millis is None && (row.claim is Some
            ==> row.claim->Some_0.expires <= now)
}

proof fn lemma_key(rows: Seq<RowView>, key: Seq<char>)
    ensures
        match place_of_key(rows, key) {
            Some(i) => 0 <= i < rows.len() && rows[i].message.idempotency_key == key && forall|j: int|
                0 <= j < i ==> (#[trigger] rows[j]).message.idempotency_key != key,
            None => forall|i: int|
                0 <= i < rows.len() ==> (#[trigger] rows[i]).message.idempotency_key != key,
        },
    decreases rows.len(),
{
    if rows.len() > 0 {
        let less = rows.drop_last();
        lemma_key(less, key);
        match place_of_key(less, key) {
            Some(i) => {
                assert(rows[i] == less[i]);
                assert forall|j: int| 0 <= j < i implies (
                #[trigger] rows[j]).message.idempotency_key != key by {
                    assert(rows[j] == less[j]);
                }
            },
            None => {
                assert forall|j: int| 0 <= j < rows.len() - 1 implies (
                #[trigger] rows[j]).message.idempotency_key != key by {
                    assert(rows[j] == less[j]);
                }
            },
        }
    }
}

proof fn lemma_sequence(rows: Seq<RowView>, to: Seq<char>)
    ensures
        last_sequence(rows, to) >= 0,
        forall|i: int|
            0 <= i < rows.len() && (#[trigger] rows[i]).message.to == to ==> rows[i].message.sequence
                <= last_sequence(rows, to),
        last_sequence(rows, to) > 0 ==> exists|i: int|
            0 <= i < rows.len() && (#[trigger] rows[i]).message.to == to && rows[i].message.sequence
                == last_sequence(rows, to),
    decreases rows.len(),
{
    if rows.len() > 0 {
        let less = rows.drop_last();
        lemma_sequence(less, to);
        assert forall|i: int|
            0 <= i < rows.len() && (
            #[trigger] rows[i]).message.to == to implies rows[i].message.sequence <= last_sequence(
            rows,
            to,
        ) by {
            if i < rows.len() - 1 {
                assert(less[i] == rows[i]);
            }
        }
        if last_sequence(rows, to) > 0 {
            if rows.last().message.to == to && rows.last().message.sequence > last_sequence(
                less,
                to,
            ) {
                assert(rows[rows.len() - 1].message.sequence == last_sequence(rows, to));
            } else {
                let i = choose|i: int|
                    0 <= i < less.len() && (#[trigger] less[i]).message.to == to
                        && less[i].message.sequence == last_sequence(less, to);
                assert(rows[i] == less[i]);
            }
        }
    }
}

/// A message with a new key is stored behind all others as it was given, open and with the next number
/// of its recipient: one more than the greatest that the recipient has, or one if it has none. It is
/// refused if its identifier is taken, or if there is no such number.
pub proof fn law_messages_are_stored_as_sent(rows: Seq<RowView>, message: MessageView)
    requires
        forall|i: int|
            0 <= i < rows.len() ==> (#[trigger] rows[i]).message.idempotency_key
                != message.idempotency_key,
    ensures
        ({
            let (after, result) = send_step(rows, message);
            match result {
                Outcome::Done(sent) => {
                    &&& after == rows.push(RowView { message: sent, claim: None })
                    &&& sent.id == message.id
                    &&& sent.idempotency_key == message.idempotency_key
                    &&& sent.mission_id == message.mission_id
                    &&& sent.from == message.from && sent.to == message.to
                    &&& sent.kind == message.kind
                    &&& sent.payload == message.payload
                    &&& sent.created_at_millis == message.created_at_millis
                    &&& sent.acknowledged_at_millis is None
                    &&& sent.sequence >= 1
                    &&& forall|i: int|
                        0 <= i < rows.len() ==> (#[trigger] rows[i]).message.id != message.id && (
                        rows[i].message.to == message.to ==> rows[i].message.sequence
                            < sent.sequence)
                    &&& sent.sequence == 1 || exists|i: int|
                        0 <= i < rows.len() && (#[trigger] rows[i]).message.to == message.to
                            && rows[i].message.sequence + 1 == sent.sequence
                },
                Outcome::Failed(_) => {
                    &&& after == rows
                    &&& exists|i: int|
                        0 <= i < rows.len() && ((#[trigger] rows[i]).message.id == message.id || (
                        rows[i].message.to == message.to && rows[i].message.sequence >= i64::MAX))
                },
            }
        }),
{
    lemma_key(rows, message.idempotency_key);
    lemma_sequence(rows, message.to);
    let last = last_sequence(rows, message.to);
    if last > 0 {
        let i = choose|i: int|
            0 <= i < rows.len() && (#[trigger] rows[i]).message.to == message.to
                && rows[i].message.sequence == last;
        assert(rows[i].message.sequence == last);
    }
}

/// A message whose key was used before is not stored again: whoever sends it is given the message that
/// was sent with that key first.
pub proof fn law_a_key_is_used_once(rows: Seq<RowView>, message: MessageView, i: int)
    requires
        0 <= i < rows.len(),
        rows[i].message.idempotency_key == message.idempotency_key,
        forall|j: int|
            0 <= j < i ==> (#[trigger] rows[j]).message.idempotency_key != message.idempotency_key,
    ensures
        send_step(rows, message) == (rows, Outcome::Done(rows[i].message)),
{
    lemma_key(rows, message.idempotency_key);
    let k = place_of_key(rows, message.idempotency_key)->Some_0;
    assert(rows[i].message.idempotency_key == message.idempotency_key);
    if k < i {
        assert(rows[k].message.idempotency_key != message.idempotency_key);
    }
}

/// What waits for somebody are the first of all messages that concern them, in their order, as many as
/// they asked for.
pub proof fn law_waiting_messages_come_in_order(rows: Seq<RowView>, q: Query, n: int)
    requires
        n >= 0,
    ensures
        ({
            let all = rows.filter(concerns(q));
            let out = waiting(rows, q, n);
            &&& out.len() == held_at(n, all.len() as int)
            &&& forall|k: int| 0 <= k < out.len() ==> #[trigger] out[k] == all[k].message
        }),
    decreases rows.len(),
{
    reveal(Seq::filter);
    if rows.len() > 0 {
        let less = rows.drop_last();
        law_waiting_messages_come_in_order(less, q, n);
        let before = less.filter(concerns(q));
        let all = rows.filter(concerns(q));
        let out = waiting(rows, q, n);
        assert forall|k: int| 0 <= k < out.len() implies #[trigger] out[k] == all[k].message by {
            if k < waiting(less, q, n).len() {
                assert(waiting(less, q, n)[k] == before[k].message);
            }
        }
    }
}

/// Whoever claims messages is handed the first of those that concern them and that nobody else is busy
/// with, in their order, as many as they asked for. These are under their claim afterwards, and
/// nothing else has changed.
pub proof fn law_claims_take_the_first_that_are_free(
    rows: Seq<RowView>,
    q: Query,
    n: int,
    now: i64,
    claim: ClaimView,
)
    requires
        n >= 0,
    ensures
        ({
            let all = rows.filter(concerns_and_is_free(q, now));
            let (after, out) = claim_first(rows, q, n, now, claim);
            &&& out.len() == held_at(n, all.len() as int)
            &&& forall|k: int|
                0 <= k < out.len() ==> #[trigger] out[k] == (ClaimedView {
                    message: all[k].message,
                    delivery_token: claim.token,
                    lease_expires_at_millis: claim.expires,
                })
            &&& after.len() == rows.len()
            &&& forall|i: int|
                0 <= i < rows.len() ==> #[trigger] after[i] == if concerns_and_is_free(q, now)(
                    rows[i],
                ) && rows.subrange(0, i).filter(concerns_and_is_free(q, now)).len() < n {
                    RowView { message: rows[i].message, claim: Some(claim) }
                } else {
                    rows[i]
                }
        }),
    decreases rows.len(),
{
    reveal(Seq::filter);
    if rows.len() > 0 {
        let free = concerns_and_is_free(q, now);
        let less = rows.drop_last();
        law_claims_take_the_first_that_are_free(less, q, n, now, claim);
        let before = less.filter(free);
        let all = rows.filter(free);
        let (old_after, old_out) = claim_first(less, q, n, now, claim);
        let (after, out) = claim_first(rows, q, n, now, claim);
        assert forall|k: int| 0 <= k < out.len() implies #[trigger] out[k] == (ClaimedView {
            message: all[k].message,
            delivery_token: claim.token,
            lease_expires_at_millis: claim.expires,
        }) by {
            if k < old_out.len() {
                assert(old_out[k] == out[k]);
                assert(before[k] == all[k]);
            }
        }
        assert forall|i: int| 0 <= i < rows.len() implies #[trigger] after[i] == if free(rows[i])
            && rows.subrange(0, i).filter(free).len() < n {
            RowView { message: rows[i].message, claim: Some(claim) }
        } else {
            rows[i]
        } by {
            if i < less.len() {
                assert(after[i] == old_after[i]);
                assert(rows.subrange(0, i) =~= less.subrange(0, i));
            } else {
                assert(rows.subrange(0, i) =~= less);
            }
        }
    }
}

/// A claim needs a token. It lasts for the time that was asked for, and at least for a millisecond;
/// and it takes at least one message and no more than a thousand.
pub proof fn law_claims_last_for_a_while(
    rows: Seq<RowView>,
    q: Query,
    limit: usize,
    token: Seq<char>,
    now: i64,
    lease_millis: i64,
)
    ensures
        ({
            let (after, result) = claim_step(rows, q, limit, token, now, lease_millis);
            let end = held_at(i64::MAX as int, now + if lease_millis > 1 {
                lease_millis as int
            } else {
                1
            });
            let most: int = if limit == 0 {
                1
            } else {
                held_at(1000, limit as int)
            };
            &&& result is Failed <==> is_blank_text(token)
            &&& result matches Outcome::Failed(e) ==> after == rows && e.code
                == "delivery-token-empty"@ && e.message == q.recipient
            &&& result matches Outcome::Done(out) ==> (after, out) == claim_first(
                rows,
                q,
                most,
                now,
                ClaimView { token, expires: end as i64 },
            )
            &&& now < i64::MAX ==> end > now
            &&& lease_end(now, lease_millis) == end
            &&& page_size(limit) == most
        }),
{
}

/// A message is answered for by whoever holds the claim on it, as long as the claim lasts. It then
/// tells when that was and is claimed no more, and nothing else of it and no other message changes.
pub proof fn law_answers_need_the_claim(
    rows: Seq<RowView>,
    id: Seq<char>,
    token: Seq<char>,
    now: i64,
    i: int,
)
    requires
        0 <= i < rows.len(),
    ensures
        ({
            let row = rows[i];
            let after = acknowledge_all(rows, id, token, now);
            let mine = row.message.id == id && row.message.acknowledged_at_millis is None
                && row.claim is Some && row.claim->Some_0.token == token
                && row.claim->Some_0.expires > now;
            &&& after.len() == rows.len()
            &&& mine ==> can_acknowledge(rows, id, token, now) && after[i].claim is None
                && after[i].message == (MessageView {
                acknowledged_at_millis: Some(now),
                ..row.message
            })
            &&& !mine ==> after[i] == row
        }),
{
}

} // verus!
