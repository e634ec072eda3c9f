//! The message bus: messages are sent once, claimed under a lease, and acknowledged by whoever
//! holds the claim.

use vstd::prelude::*;
use vstd::string::*;

use crate::error::{failure, list_outcome, outcome, AgentError, Outcome};
use crate::json::{Json, JsonView};
use crate::model::{group_views, option_view, views, Duplicate};
use crate::ordered::TextMap;
use crate::results::{MeetingRecord, MeetingView, MissionId};
use crate::text::{is_blank, is_blank_text, same};

verus! {

#[derive(Clone, Copy, Debug, PartialEq, Eq, Structural)]
pub enum AgentMessageKind {
    Task,
    Result,
    Question,
    ContextRequest,
    ContextResponse,
    Review,
    Error,
    Event,
    Cancel,
    Steering,
    Meeting,
}

/// A message from one agent to another.
#[derive(Debug, PartialEq, Eq)]
pub struct AgentMessage {
    pub id: String,
    pub idempotency_key: String,
    pub mission_id: MissionId,
    pub from: String,
    pub to: String,
    pub kind: AgentMessageKind,
    pub payload: Json,
    pub sequence: u64,
    pub created_at_millis: i64,
    pub acknowledged_at_millis: Option<i64>,
}

pub struct MessageView {
    pub id: Seq<char>,
    pub idempotency_key: Seq<char>,
    pub mission_id: Seq<char>,
    pub from: Seq<char>,
    pub to: Seq<char>,
    pub kind: AgentMessageKind,
    pub payload: JsonView,
    pub sequence: u64,
    pub created_at_millis: i64,
    pub acknowledged_at_millis: Option<i64>,
}

impl View for AgentMessage {
    type V = MessageView;

    open spec fn view(&self) -> MessageView {
        MessageView {
            id: self.id@,
            idempotency_key: self.idempotency_key@,
            mission_id: self.mission_id@,
            from: self.from@,
            to: self.to@,
            kind: self.kind,
            payload: self.payload@,
            sequence: self.sequence,
            created_at_millis: self.created_at_millis,
            acknowledged_at_millis: self.acknowledged_at_millis,
        }
    }
}

impl Duplicate for AgentMessage {
    fn duplicate(&self) -> (r: Self) {
        AgentMessage {
            id: self.id.clone(),
            idempotency_key: self.idempotency_key.clone(),
            mission_id: self.mission_id.clone(),
            from: self.from.clone(),
            to: self.to.clone(),
            kind: self.kind,
            payload: self.payload.copy(),
            sequence: self.sequence,
            created_at_millis: self.created_at_millis,
            acknowledged_at_millis: self.acknowledged_at_millis,
        }
    }
}

/// A message that was claimed, with the token of the claim and the end of its lease.
#[derive(Debug, PartialEq, Eq)]
pub struct ClaimedMessage {
    pub message: AgentMessage,
    pub delivery_token: String,
    pub lease_expires_at_millis: i64,
}

pub struct ClaimedView {
    pub message: MessageView,
    pub delivery_token: Seq<char>,
    pub lease_expires_at_millis: i64,
}

impl View for ClaimedMessage {
    type V = ClaimedView;

    open spec fn view(&self) -> ClaimedView {
        ClaimedView {
            message: self.message@,
            delivery_token: self.delivery_token@,
            lease_expires_at_millis: self.lease_expires_at_millis,
        }
    }
}

/// A row of the message table: a message, and the claim on it, if there is one.
#[derive(Debug, PartialEq, Eq)]
pub struct StoredMessage {
    pub message: AgentMessage,
    pub claim: Option<DeliveryClaim>,
}

#[derive(Debug, PartialEq, Eq)]
pub struct DeliveryClaim {
    pub delivery_token: String,
    pub lease_expires_at_millis: i64,
}

pub struct ClaimView {
    pub token: Seq<char>,
    pub expires: i64,
}

pub struct RowView {
    pub message: MessageView,
    pub claim: Option<ClaimView>,
}

impl View for DeliveryClaim {
    type V = ClaimView;

    open spec fn view(&self) -> ClaimView {
        ClaimView { token: self.delivery_token@, expires: self.lease_expires_at_millis }
    }
}

impl View for StoredMessage {
    type V = RowView;

    open spec fn view(&self) -> RowView {
        RowView { message: self.message@, claim: option_view(self.claim) }
    }
}

impl Duplicate for StoredMessage {
    fn duplicate(&self) -> (r: Self) {
        StoredMessage {
            message: self.message.duplicate(),
            claim: match &self.claim {
                Some(c) => Some(
                    DeliveryClaim {
                        delivery_token: c.delivery_token.clone(),
                        lease_expires_at_millis: c.lease_expires_at_millis,
                    },
                ),
                None => None,
            },
        }
    }
}

/// What holds of the message table: no identifier and no key occurs twice, and the messages of a
/// recipient stand in the order of their sequence numbers.
pub open spec fn table_ok(rows: Seq<RowView>) -> bool {
    forall|i: int, j: int|
        0 <= i < j < rows.len() ==> rows_apart(#[trigger] rows[i], #[trigger] rows[j])
}

pub open spec fn rows_apart(a: RowView, b: RowView) -> bool {
    &&& a.message.id != b.message.id
    &&& a.message.idempotency_key != b.message.idempotency_key
    &&& a.message.to == b.message.to ==> a.message.sequence < b.message.sequence
}

pub open spec fn clamp_i64(x: int) -> i64 {
    if x > i64::MAX {
        i64::MAX
    } else if x < i64::MIN {
        i64::MIN
    } else {
        x as i64
    }
}

/// The end of a lease: at least one millisecond from now.
pub open spec fn lease_end(now: i64, millis: i64) -> i64 {
    clamp_i64(now + if millis < 1 {
        1
    } else {
        millis as int
    })
}

pub fn lease_end_of(now: i64, millis: i64) -> (r: i64)
    ensures
        r == lease_end(now, millis),
{
    let length: i64 = if millis < 1 {
        1
    } else {
        millis
    };
    match now.checked_add(length) {
        Some(end) => end,
        None => i64::MAX,
    }
}

/// The number of rows that a query returns at most.
pub open spec fn page_size(limit: usize) -> int {
    if limit < 1 {
        1
    } else if limit > 1000 {
        1000
    } else {
        limit as int
    }
}

fn page_size_of(limit: usize) -> (r: usize)
    ensures
        r == page_size(limit),
{
    if limit < 1 {
        1
    } else if limit > 1000 {
        1000
    } else {
        limit
    }
}

/// The place of the message with a key.
pub open spec fn place_of_key(rows: Seq<RowView>, key: Seq<char>) -> Option<int>
    decreases rows.len(),
{
    if rows.len() == 0 {
        None
    } else {
        match place_of_key(rows.drop_last(), key) {
            Some(i) => Some(i),
            None => if rows.last().message.idempotency_key == key {
                Some(rows.len() - 1)
            } else {
                None
            },
        }
    }
}

pub open spec fn has_id(rows: Seq<RowView>, id: Seq<char>) -> bool {
    exists|i: int| 0 <= i < rows.len() && (#[trigger] rows[i]).message.id == id
}

/// The greatest sequence number of a recipient, zero if it has no message.
pub open spec fn last_sequence(rows: Seq<RowView>, to: Seq<char>) -> int
    decreases rows.len(),
{
    if rows.len() == 0 {
        0
    } else {
        let before = last_sequence(rows.drop_last(), to);
        if rows.last().message.to == to && rows.last().message.sequence > before {
            rows.last().message.sequence as int
        } else {
            before
        }
    }
}

pub open spec fn stored(message: MessageView, sequence: int) -> MessageView {
    MessageView { sequence: sequence as u64, acknowledged_at_millis: None, ..message }
}

/// Sending a message. A key that was used before gives back the message that was sent with it.
pub open spec fn send_step(rows: Seq<RowView>, message: MessageView) -> (
    Seq<RowView>,
    Outcome<MessageView>,
) {
    match place_of_key(rows, message.idempotency_key) {
        Some(i) => (rows, Outcome::Done(rows[i].message)),
        None => if has_id(rows, message.id) {
            (rows, failure("agent-sqlite"@, "UNIQUE constraint failed: agent_messages.id"@))
        } else if last_sequence(rows, message.to) >= i64::MAX {
            (rows, failure("agent-sqlite"@, "sequence exhausted"@))
        } else {
            let kept = stored(message, last_sequence(rows, message.to) + 1);
            (rows.push(RowView { message: kept, claim: None }), Outcome::Done(kept))
        },
    }
}

/// Which messages a consumer asks for.
pub struct Query {
    pub recipient: Seq<char>,
    pub mission: Option<Seq<char>>,
    pub after: u64,
}

pub open spec fn asked_for(row: RowView, q: Query) -> bool {
    &&& row.message.to == q.recipient
    &&& q.mission matches Some(m) ==> row.message.mission_id == m
    &&& row.message.sequence > q.after
    &&& row.message.acknowledged_at_millis is None
}

pub open spec fn unclaimed(row: RowView, now: i64) -> bool {
    row.claim matches Some(c) ==> c.expires <= now
}

/// The messages that wait for a recipient, the first `n` of them.
pub open spec fn waiting(rows: Seq<RowView>, q: Query, n: int) -> Seq<MessageView>
    decreases rows.len(),
{
    if rows.len() == 0 {
        Seq::empty()
    } else {
        let before = waiting(rows.drop_last(), q, n);
        if before.len() < n && asked_for(rows.last(), q) {
            before.push(rows.last().message)
        } else {
            before
        }
    }
}

/// Claiming the first `n` messages that are asked for and not under another lease: the table after
/// it, and the messages that were claimed.
pub open spec fn claim_first(
    rows: Seq<RowView>,
    q: Query,
    n: int,
    now: i64,
    claim: ClaimView,
) -> (Seq<RowView>, Seq<ClaimedView>)
    decreases rows.len(),
{
    if rows.len() == 0 {
        (Seq::empty(), Seq::empty())
    } else {
        let (before, out) = claim_first(rows.drop_last(), q, n, now, claim);
        let row = rows.last();
        if out.len() < n && asked_for(row, q) && unclaimed(row, now) {
            (
                before.push(RowView { message: row.message, claim: Some(claim) }),
                out.push(
                    ClaimedView {
                        message: row.message,
                        delivery_token: claim.token,
                        lease_expires_at_millis: claim.expires,
                    },
                ),
            )
        } else {
            (before.push(row), out)
        }
    }
}

pub open spec fn claim_step(
    rows: Seq<RowView>,
    q: Query,
    limit: usize,
    token: Seq<char>,
    now: i64,
    lease_millis: i64,
) -> (Seq<RowView>, Outcome<Seq<ClaimedView>>) {
    if is_blank_text(token) {
        (rows, failure("delivery-token-empty"@, q.recipient))
    } else {
        let (after, out) = claim_first(
            rows,
            q,
            page_size(limit),
            now,
            ClaimView { token, expires: lease_end(now, lease_millis) },
        );
        (after, Outcome::Done(out))
    }
}

/// The claim on a message is held under the token, and its lease has not ended.
pub open spec fn may_acknowledge(row: RowView, id: Seq<char>, token: Seq<char>, now: i64) -> bool {
    &&& row.message.id == id
    &&& row.message.acknowledged_at_millis is None
    &&& row.claim matches Some(c) && c.token == token && c.expires > now
}

pub open spec fn acknowledged(row: RowView, now: i64) -> RowView {
    RowView {
        message: MessageView { acknowledged_at_millis: Some(now), ..row.message },
        claim: None,
    }
}

pub open spec fn acknowledge_all(
    rows: Seq<RowView>,
    id: Seq<char>,
    token: Seq<char>,
    now: i64,
) -> Seq<RowView> {
    Seq::new(
        rows.len(),
        |i: int|
            if may_acknowledge(rows[i], id, token, now) {
                acknowledged(rows[i], now)
            } else {
                rows[i]
            },
    )
}

pub open spec fn can_acknowledge(
    rows: Seq<RowView>,
    id: Seq<char>,
    token: Seq<char>,
    now: i64,
) -> bool {
    exists|i: int| 0 <= i < rows.len() && may_acknowledge(#[trigger] rows[i], id, token, now)
}

/// The messages between agents, and the minutes of their meetings.
pub struct AgentMessageBus {
    rows: Vec<StoredMessage>,
    meetings: TextMap<MeetingRecord>,
}

pub struct BusView {
    pub rows: Seq<RowView>,
    pub meetings: Map<Seq<char>, MeetingView>,
}

impl View for AgentMessageBus {
    type V = BusView;

    closed spec fn view(&self) -> BusView {
        BusView { rows: views(self.rows@), meetings: self.meetings@ }
    }
}

proof fn lemma_place_of_key(rows: Seq<RowView>, key: Seq<char>)
    ensures
        match place_of_key(rows, key) {
            Some(i) => 0 <= i < rows.len() && rows[i].message.idempotency_key == key,
            None => forall|i: int|
                0 <= i < rows.len() ==> (#[trigger] rows[i]).message.idempotency_key != key,
        },
    decreases rows.len(),
{
    if rows.len() > 0 {
        lemma_place_of_key(rows.drop_last(), key);
        if place_of_key(rows, key) is None {
            assert forall|i: int| 0 <= i < rows.len() implies (
            #[trigger] rows[i]).message.idempotency_key != key by {
                if i < rows.len() - 1 {
                    assert(rows.drop_last()[i] == rows[i]);
                }
            }
        }
    }
}

proof fn lemma_last_sequence(rows: Seq<RowView>, to: Seq<char>)
    ensures
        last_sequence(rows, to) >= 0,
        forall|i: int|
            0 <= i < rows.len() && (#[trigger] rows[i]).message.to == to ==> rows[i].message.sequence
                <= last_sequence(rows, to),
    decreases rows.len(),
{
    if rows.len() > 0 {
        lemma_last_sequence(rows.drop_last(), to);
        assert forall|i: int|
            0 <= i < rows.len() && (
            #[trigger] rows[i]).message.to == to implies rows[i].message.sequence <= last_sequence(
            rows,
            to,
        ) by {
            if i < rows.len() - 1 {
                assert(rows.drop_last()[i] == rows[i]);
            }
        }
    }
}

/// Sending keeps the table in order.
pub proof fn law_send_keeps_the_table(rows: Seq<RowView>, message: MessageView)
    requires
        table_ok(rows),
    ensures
        table_ok(send_step(rows, message).0),
{
    let after = send_step(rows, message).0;
    lemma_place_of_key(rows, message.idempotency_key);
    lemma_last_sequence(rows, message.to);
    assert forall|i: int, j: int| 0 <= i < j < after.len() implies rows_apart(
        #[trigger] after[i],
        #[trigger] after[j],
    ) by {
        if j < rows.len() {
            assert(rows_apart(rows[i], rows[j]));
        } else {
            assert(after[i] == rows[i]);
            assert(rows[i].message.id != message.id);
        }
    }
}

proof fn lemma_claim_first(rows: Seq<RowView>, q: Query, n: int, now: i64, claim: ClaimView)
    ensures
        ({
            let (after, out) = claim_first(rows, q, n, now, claim);
            &&& after.len() == rows.len()
            &&& out.len() <= rows.len()
            &&& n >= 0 ==> out.len() <= n
            &&& forall|i: int|
                0 <= i < rows.len() ==> (#[trigger] after[i]).message == rows[i].message
        }),
    decreases rows.len(),
{
    if rows.len() > 0 {
        lemma_claim_first(rows.drop_last(), q, n, now, claim);
        let (after, out) = claim_first(rows, q, n, now, claim);
        assert forall|i: int| 0 <= i < rows.len() implies (#[trigger] after[i]).message
            == rows[i].message by {
            if i < rows.len() - 1 {
                assert(rows.drop_last()[i] == rows[i]);
            }
        }
    }
}

/// Claiming and acknowledging keep the table in order.
pub proof fn law_claims_keep_the_table(
    rows: Seq<RowView>,
    q: Query,
    n: int,
    now: i64,
    claim: ClaimView,
    id: Seq<char>,
    token: Seq<char>,
)
    requires
        table_ok(rows),
    ensures
        table_ok(claim_first(rows, q, n, now, claim).0),
        table_ok(acknowledge_all(rows, id, token, now)),
{
    lemma_claim_first(rows, q, n, now, claim);
    let after = claim_first(rows, q, n, now, claim).0;
    assert forall|i: int, j: int| 0 <= i < j < after.len() implies rows_apart(
        #[trigger] after[i],
        #[trigger] after[j],
    ) by {
        assert(rows_apart(rows[i], rows[j]));
    }
    let done = acknowledge_all(rows, id, token, now);
    assert forall|i: int, j: int| 0 <= i < j < done.len() implies rows_apart(
        #[trigger] done[i],
        #[trigger] done[j],
    ) by {
        assert(rows_apart(rows[i], rows[j]));
    }
}

/// Sending the same message again changes nothing and gives the message that was sent first.
pub proof fn law_send_is_idempotent(rows: Seq<RowView>, first: MessageView, again: MessageView)
    requires
        first.idempotency_key == again.idempotency_key,
        send_step(rows, first).1 is Done,
    ensures
        ({
            let (after, sent) = send_step(rows, first);
            send_step(after, again) == (after, sent)
        }),
{
    let (after, sent) = send_step(rows, first);
    lemma_place_of_key(rows, first.idempotency_key);
    if place_of_key(rows, first.idempotency_key) is None {
        assert(after.drop_last() =~= rows);
        lemma_place_of_key(rows, again.idempotency_key);
    }
}

/// A recipient's messages are numbered upwards: a new one comes after all that it had before.
pub proof fn law_sequence_rises(rows: Seq<RowView>, message: MessageView, i: int)
    requires
        place_of_key(rows, message.idempotency_key) is None,
        send_step(rows, message).1 is Done,
        0 <= i < rows.len(),
        rows[i].message.to == message.to,
    ensures
        rows[i].message.sequence < send_step(rows, message).1->Done_0.sequence,
{
    lemma_last_sequence(rows, message.to);
}

/// The row was claimed under the given claim.
pub open spec fn claimed_under(row: RowView, claim: ClaimView) -> bool {
    row.claim == Some(claim)
}

proof fn lemma_out_is_claimed(
    rows: Seq<RowView>,
    q: Query,
    n: int,
    now: i64,
    claim: ClaimView,
    k: int,
)
    requires
        0 <= k < claim_first(rows, q, n, now, claim).1.len(),
    ensures
        exists|i: int|
            0 <= i < rows.len() && #[trigger] claimed_under(
                claim_first(rows, q, n, now, claim).0[i],
                claim,
            ) && rows[i].message == claim_first(rows, q, n, now, claim).1[k].message,
    decreases rows.len(),
{
    if rows.len() > 0 {
        let (before, earlier) = claim_first(rows.drop_last(), q, n, now, claim);
        let (after, out) = claim_first(rows, q, n, now, claim);
        lemma_claim_first(rows.drop_last(), q, n, now, claim);
        if k < earlier.len() {
            lemma_out_is_claimed(rows.drop_last(), q, n, now, claim, k);
            let i = choose|i: int|
                0 <= i < rows.len() - 1 && #[trigger] claimed_under(before[i], claim)
                    && rows.drop_last()[i].message == earlier[k].message;
            assert(after[i] == before[i]);
            assert(claimed_under(after[i], claim));
            assert(out[k] == earlier[k]);
        } else {
            assert(claimed_under(after[rows.len() - 1], claim));
        }
    }
}

/// What was claimed by one consumer is not handed to another one as long as the lease lasts: no
/// row that is under a claim that has not ended is claimed again.
pub proof fn law_claims_exclude_others(
    rows: Seq<RowView>,
    q: Query,
    n: int,
    now: i64,
    claim: ClaimView,
    i: int,
)
    requires
        0 <= i < rows.len(),
        rows[i].claim matches Some(c) && c.expires > now,
    ensures
        claim_first(rows, q, n, now, claim).0[i] == rows[i],
    decreases rows.len(),
{
    lemma_claim_first(rows.drop_last(), q, n, now, claim);
    if i < rows.len() - 1 {
        assert(rows.drop_last()[i] == rows[i]);
        law_claims_exclude_others(rows.drop_last(), q, n, now, claim, i);
    }
}

/// A message that was acknowledged is never claimed again.
pub proof fn law_acknowledged_messages_rest(
    rows: Seq<RowView>,
    q: Query,
    n: int,
    now: i64,
    claim: ClaimView,
    i: int,
)
    requires
        0 <= i < rows.len(),
        rows[i].message.acknowledged_at_millis is Some,
    ensures
        claim_first(rows, q, n, now, claim).0[i] == rows[i],
    decreases rows.len(),
{
    lemma_claim_first(rows.drop_last(), q, n, now, claim);
    if i < rows.len() - 1 {
        assert(rows.drop_last()[i] == rows[i]);
        law_acknowledged_messages_rest(rows.drop_last(), q, n, now, claim, i);
    }
}

/// A consumer whose lease has ended, or whose claim another one has taken over, acknowledges
/// nothing: only the token that is on the row does, before its lease ends.
pub proof fn law_stale_tokens_acknowledge_nothing(
    rows: Seq<RowView>,
    id: Seq<char>,
    token: Seq<char>,
    now: i64,
)
    requires
        forall|i: int|
            0 <= i < rows.len() && (#[trigger] rows[i]).message.id == id ==> match rows[i].claim {
                Some(c) => c.token != token || c.expires <= now,
                None => true,
            },
    ensures
        !can_acknowledge(rows, id, token, now),
        acknowledge_all(rows, id, token, now) == rows,
{
    assert(acknowledge_all(rows, id, token, now) =~= rows);
}

/// Each message that a consumer was handed is under its claim in the table, so it can acknowledge
/// it before the lease ends.
pub proof fn law_claimed_messages_can_be_acknowledged(
    rows: Seq<RowView>,
    q: Query,
    n: int,
    now: i64,
    claim: ClaimView,
    k: int,
    later: i64,
)
    requires
        0 <= k < claim_first(rows, q, n, now, claim).1.len(),
        later < claim.expires,
    ensures
        can_acknowledge(
            claim_first(rows, q, n, now, claim).0,
            claim_first(rows, q, n, now, claim).1[k].message.id,
            claim.token,
            later,
        ),
{
    let (after, out) = claim_first(rows, q, n, now, claim);
    lemma_out_is_claimed(rows, q, n, now, claim, k);
    lemma_claim_first(rows, q, n, now, claim);
    lemma_claimed_rows_open(rows, q, n, now, claim, k);
    let i = choose|i: int|
        0 <= i < rows.len() && #[trigger] claimed_under(after[i], claim) && rows[i].message
            == out[k].message;
    assert(after[i].message == out[k].message);
    assert(may_acknowledge(after[i], out[k].message.id, claim.token, later));
}

proof fn lemma_claimed_rows_open(
    rows: Seq<RowView>,
    q: Query,
    n: int,
    now: i64,
    claim: ClaimView,
    k: int,
)
    requires
        0 <= k < claim_first(rows, q, n, now, claim).1.len(),
    ensures
        claim_first(rows, q, n, now, claim).1[k].message.acknowledged_at_millis is None,
    decreases rows.len(),
{
    if rows.len() > 0 {
        let earlier = claim_first(rows.drop_last(), q, n, now, claim).1;
        if k < earlier.len() {
            lemma_claimed_rows_open(rows.drop_last(), q, n, now, claim, k);
        }
    }
}

/// No message is handed out twice by one claim.
pub proof fn lemma_claimed_apart(
    rows: Seq<RowView>,
    q: Query,
    n: int,
    now: i64,
    claim: ClaimView,
    j: int,
    k: int,
)
    requires
        table_ok(rows),
        0 <= j < k < claim_first(rows, q, n, now, claim).1.len(),
    ensures
        claim_first(rows, q, n, now, claim).1[j].message.id != claim_first(
            rows,
            q,
            n,
            now,
            claim,
        ).1[k].message.id,
    decreases rows.len(),
{
    if rows.len() > 0 {
        let rest = rows.drop_last();
        let earlier = claim_first(rest, q, n, now, claim).1;
        assert forall|a: int, b: int| 0 <= a < b < rest.len() implies rows_apart(
            #[trigger] rest[a],
            #[trigger] rest[b],
        ) by {
            assert(rows_apart(rows[a], rows[b]));
        }
        if k < earlier.len() {
            lemma_claimed_apart(rest, q, n, now, claim, j, k);
        } else {
            lemma_out_is_claimed(rest, q, n, now, claim, j);
            let i = choose|i: int|
                0 <= i < rest.len() && #[trigger] claimed_under(
                    claim_first(rest, q, n, now, claim).0[i],
                    claim,
                ) && rest[i].message == earlier[j].message;
            assert(rows_apart(rows[i], rows[rows.len() - 1]));
        }
    }
}

impl AgentMessageBus {
    #[verifier::type_invariant]
    spec fn in_order(self) -> bool {
        table_ok(views(self.rows@))
    }

    pub fn new() -> (r: Self)
        ensures
            r@ == (BusView { rows: Seq::empty(), meetings: Map::empty() }),
    {
        broadcast use group_views;

        AgentMessageBus { rows: Vec::new(), meetings: TextMap::new() }
    }

    /// The bus with the rows of a stored table, if they are in order.
    pub fn with_rows(rows: Vec<StoredMessage>, meetings: TextMap<MeetingRecord>) -> (r: Option<Self>)
        ensures
            r is Some <==> table_ok(views(rows@)),
            r matches Some(bus) ==> bus@ == (BusView { rows: views(rows@), meetings: meetings@ }),
    {
        let ghost all = views(rows@);
        let mut j: usize = 0;
        while j < rows.len()
            invariant
                j <= rows.len(),
                all == views(rows@),
                forall|a: int, b: int|
                    0 <= a < b < j ==> rows_apart(#[trigger] all[a], #[trigger] all[b]),
            decreases rows.len() - j,
        {
            let mut i: usize = 0;
            while i < j
                invariant
                    i <= j < rows.len(),
                    all == views(rows@),
                    forall|a: int| 0 <= a < i ==> rows_apart(#[trigger] all[a], all[j as int]),
                decreases j - i,
            {
                let a = &rows[i].message;
                let b = &rows[j].message;
                assert(all[i as int] == rows@[i as int]@);
                assert(all[j as int] == rows@[j as int]@);
                if same(a.id.as_str(), b.id.as_str()) || same(
                    a.idempotency_key.as_str(),
                    b.idempotency_key.as_str(),
                ) || (same(a.to.as_str(), b.to.as_str()) && a.sequence >= b.sequence) {
                    assert(!rows_apart(all[i as int], all[j as int]));
                    return None;
                }
                i = i + 1;
            }
            j = j + 1;
        }
        Some(AgentMessageBus { rows, meetings })
    }

    /// The rows of the table, to be stored.
    pub fn rows(&self) -> (r: &Vec<StoredMessage>)
        ensures
            views(r@) == self@.rows,
            table_ok(self@.rows),
    {
        proof {
            use_type_invariant(self);
        }
        &self.rows
    }

    fn find_key(&self, key: &str) -> (r: Option<usize>)
        ensures
            match r {
                Some(i) => place_of_key(self@.rows, key@) == Some(i as int) && i < self.rows@.len(),
                None => place_of_key(self@.rows, key@) is None,
            },
    {
        let ghost all = views(self.rows@);
        let mut i: usize = 0;
        assert(all.subrange(0, 0) =~= Seq::empty());
        while i < self.rows.len()
            invariant
                i <= self.rows.len(),
                all == views(self.rows@),
                all == self@.rows,
                place_of_key(all.subrange(0, i as int), key@) is None,
            decreases self.rows.len() - i,
        {
            let ghost next = all.subrange(0, i as int + 1);
            assert(next.drop_last() =~= all.subrange(0, i as int));
            assert(next.last() == self.rows@[i as int]@);
            if same(self.rows[i].message.idempotency_key.as_str(), key) {
                proof {
                    lemma_first_place(all, key@, i as int + 1);
                }
                return Some(i);
            }
            i = i + 1;
        }
        assert(all.subrange(0, all.len() as int) =~= all);
        None
    }

    /// Sends a message. A key that was used before is answered with the message of that time.
    pub fn send(&mut self, message: AgentMessage) -> (r: Result<AgentMessage, AgentError>)
        ensures
            (final(self)@.rows, outcome(r)) == send_step(old(self)@.rows, message@),
            final(self)@.meetings == old(self)@.meetings,
    {
        broadcast use group_views;

        proof {
            use_type_invariant(&*self);
            law_send_keeps_the_table(self@.rows, message@);
            lemma_place_of_key(self@.rows, message@.idempotency_key);
        }
        match self.find_key(message.idempotency_key.as_str()) {
            Some(i) => {
                assert(self@.rows[i as int] == self.rows@[i as int]@);
                return Ok(self.rows[i].message.duplicate());
            },
            None => {},
        }
        let ghost all = views(self.rows@);
        let mut last: u64 = 0;
        let mut i: usize = 0;
        assert(all.subrange(0, 0) =~= Seq::empty());
        while i < self.rows.len()
            invariant
                i <= self.rows.len(),
                all == views(self.rows@),
                last == last_sequence(all.subrange(0, i as int), message@.to),
                forall|k: int| 0 <= k < i ==> (#[trigger] all[k]).message.id != message@.id,
                place_of_key(all, message@.idempotency_key) is None,
                self@.rows == all,
                *self == *old(self),
            decreases self.rows.len() - i,
        {
            let row = &self.rows[i];
            let ghost next = all.subrange(0, i as int + 1);
            assert(next.drop_last() =~= all.subrange(0, i as int));
            assert(next.last() == row@);
            assert(all[i as int] == row@);
            if same(row.message.id.as_str(), message.id.as_str()) {
                return Err(
                    AgentError::new("agent-sqlite", "UNIQUE constraint failed: agent_messages.id"),
                );
            }
            if same(row.message.to.as_str(), message.to.as_str()) && row.message.sequence > last {
                last = row.message.sequence;
            }
            i = i + 1;
        }
        assert(all.subrange(0, all.len() as int) =~= all);
        if last >= 0x7fff_ffff_ffff_ffff {
            return Err(AgentError::new("agent-sqlite", "sequence exhausted"));
        }
        let mut kept = message;
        kept.sequence = last + 1;
        kept.acknowledged_at_millis = None;
        let reply = kept.duplicate();
        let mut rows: Vec<StoredMessage> = Vec::new();
        std::mem::swap(&mut rows, &mut self.rows);
        rows.push(StoredMessage { message: kept, claim: None });
        assert(views(rows@) == send_step(all, message@).0);
        self.rows = rows;
        Ok(reply)
    }

    /// The messages that wait for a recipient. This is for looking only: a consumer claims.
    pub fn pending(&self, recipient: &str, after: u64, limit: usize) -> (r: Vec<AgentMessage>)
        ensures
            views(r@) == waiting(
                self@.rows,
                (Query { recipient: recipient@, mission: None, after }),
                page_size(limit),
            ),
    {
        let ghost q = Query { recipient: recipient@, mission: None, after };
        let ghost all = views(self.rows@);
        let most = page_size_of(limit);
        let mut r: Vec<AgentMessage> = Vec::new();
        let mut i: usize = 0;
        assert(all.subrange(0, 0) =~= Seq::empty());
        assert(views(r@) =~= Seq::empty());
        while i < self.rows.len()
            invariant
                i <= self.rows.len(),
                all == views(self.rows@),
                most == page_size(limit),
                q == (Query { recipient: recipient@, mission: None, after }),
                views(r@) == waiting(all.subrange(0, i as int), q, page_size(limit)),
            decreases self.rows.len() - i,
        {
            broadcast use group_views;

            let row = &self.rows[i];
            let ghost next = all.subrange(0, i as int + 1);
            assert(next.drop_last() =~= all.subrange(0, i as int));
            assert(next.last() == row@);
            assert(r@.len() == views(r@).len());
            if r.len() < most && same(row.message.to.as_str(), recipient) && row.message.sequence
                > after && row.message.acknowledged_at_millis.is_none() {
                r.push(row.message.duplicate());
            }
            i = i + 1;
        }
        assert(all.subrange(0, all.len() as int) =~= all);
        r
    }

    /// Claims messages of a recipient under a token, for the time of a lease.
    pub fn claim(
        &mut self,
        recipient: &str,
        after: u64,
        limit: usize,
        delivery_token: &str,
        now: i64,
        lease_millis: i64,
    ) -> (r: Result<Vec<ClaimedMessage>, AgentError>)
        ensures
            (final(self)@.rows, list_outcome(r)) == claim_step(
                old(self)@.rows,
                (Query { recipient: recipient@, mission: None, after }),
                limit,
                delivery_token@,
                now,
                lease_millis,
            ),
            final(self)@.meetings == old(self)@.meetings,
    {
        self.claim_scoped(recipient, None, after, limit, delivery_token, now, lease_millis)
    }

    /// Claims messages of one mission.
    pub fn claim_for_mission(
        &mut self,
        recipient: &str,
        mission_id: &str,
        after: u64,
        limit: usize,
        delivery_token: &str,
        now: i64,
        lease_millis: i64,
    ) -> (r: Result<Vec<ClaimedMessage>, AgentError>)
        ensures
            (final(self)@.rows, list_outcome(r)) == claim_step(
                old(self)@.rows,
                (Query { recipient: recipient@, mission: Some(mission_id@), after }),
                limit,
                delivery_token@,
                now,
                lease_millis,
            ),
            final(self)@.meetings == old(self)@.meetings,
    {
        self.claim_scoped(
            recipient,
            Some(mission_id),
            after,
            limit,
            delivery_token,
            now,
            lease_millis,
        )
    }

    fn claim_scoped(
        &mut self,
        recipient: &str,
        mission_id: Option<&str>,
        after: u64,
        limit: usize,
        delivery_token: &str,
        now: i64,
        lease_millis: i64,
    ) -> (r: Result<Vec<ClaimedMessage>, AgentError>)
        ensures
            (final(self)@.rows, list_outcome(r)) == claim_step(
                old(self)@.rows,
                (Query { recipient: recipient@, mission: option_view(mission_id), after }),
                limit,
                delivery_token@,
                now,
                lease_millis,
            ),
            final(self)@.meetings == old(self)@.meetings,
    {
        if is_blank(delivery_token) {
            return Err(AgentError::new("delivery-token-empty", recipient));
        }
        let expires = lease_end_of(now, lease_millis);
        let most = page_size_of(limit);
        let ghost q = Query { recipient: recipient@, mission: option_view(mission_id), after };
        let ghost claim = ClaimView { token: delivery_token@, expires };
        let ghost all = views(self.rows@);
        proof {
            use_type_invariant(&*self);
            law_claims_keep_the_table(
                all,
                q,
                page_size(limit),
                now,
                claim,
                recipient@,
                delivery_token@,
            );
        }
        let mut rows: Vec<StoredMessage> = Vec::new();
        std::mem::swap(&mut rows, &mut self.rows);
        let mut out: Vec<ClaimedMessage> = Vec::new();
        let mut i: usize = 0;
        proof {
            assert(all.subrange(0, 0) =~= Seq::empty());
            assert(views(out@) =~= Seq::empty());
            assert(views(rows@).subrange(0, 0) =~= Seq::empty());
        }
        while i < rows.len()
            invariant
                i <= rows.len() == all.len(),
                most == page_size(limit),
                expires == lease_end(now, lease_millis),
                q == (Query { recipient: recipient@, mission: option_view(mission_id), after }),
                claim == (ClaimView { token: delivery_token@, expires }),
                forall|k: int| i <= k < all.len() ==> views(rows@)[k] == #[trigger] all[k],
                (views(rows@).subrange(0, i as int), views(out@)) == claim_first(
                    all.subrange(0, i as int),
                    q,
                    page_size(limit),
                    now,
                    claim,
                ),
                self@.meetings == old(self)@.meetings,
            decreases rows.len() - i,
        {
            broadcast use group_views;

            let ghost before = views(rows@);
            let ghost next = all.subrange(0, i as int + 1);
            proof {
                assert(next.drop_last() =~= all.subrange(0, i as int));
                assert(next.last() == rows@[i as int]@);
                assert(out@.len() == views(out@).len());
            }
            let row = &rows[i];
            let wanted = same(row.message.to.as_str(), recipient) && (match mission_id {
                Some(m) => same(row.message.mission_id.as_str(), m),
                None => true,
            }) && row.message.sequence > after && row.message.acknowledged_at_millis.is_none();
            let free = match &row.claim {
                Some(c) => c.lease_expires_at_millis <= now,
                None => true,
            };
            if out.len() < most && wanted && free {
                let message = row.message.duplicate();
                out.push(
                    ClaimedMessage {
                        message: row.message.duplicate(),
                        delivery_token: delivery_token.to_owned(),
                        lease_expires_at_millis: expires,
                    },
                );
                let updated = StoredMessage {
                    message,
                    claim: Some(
                        DeliveryClaim {
                            delivery_token: delivery_token.to_owned(),
                            lease_expires_at_millis: expires,
                        },
                    ),
                };
                rows[i] = updated;
                assert(views(rows@) == before.update(i as int, updated@));
                assert(views(rows@).subrange(0, i as int + 1) =~= before.subrange(
                    0,
                    i as int,
                ).push(updated@));
            } else {
                assert(before.subrange(0, i as int + 1) =~= before.subrange(0, i as int).push(
                    before[i as int],
                ));
            }
            i = i + 1;
        }
        proof {
            assert(all.subrange(0, all.len() as int) =~= all);
            assert(views(rows@).subrange(0, all.len() as int) =~= views(rows@));
        }
        self.rows = rows;
        Ok(out)
    }

    /// Acknowledges a message. Only the holder of the claim can do so, before its lease ends.
    pub fn acknowledge_claim(&mut self, id: &str, delivery_token: &str, now: i64) -> (r: bool)
        ensures
            r == can_acknowledge(old(self)@.rows, id@, delivery_token@, now),
            final(self)@.rows == acknowledge_all(old(self)@.rows, id@, delivery_token@, now),
            final(self)@.meetings == old(self)@.meetings,
    {
        let ghost all = views(self.rows@);
        proof {
            use_type_invariant(&*self);
            law_claims_keep_the_table(
                all,
                Query { recipient: id@, mission: None, after: 0 },
                0,
                now,
                ClaimView { token: id@, expires: 0 },
                id@,
                delivery_token@,
            );
        }
        let mut rows: Vec<StoredMessage> = Vec::new();
        std::mem::swap(&mut rows, &mut self.rows);
        let mut found = false;
        let mut i: usize = 0;
        while i < rows.len()
            invariant
                i <= rows.len() == all.len(),
                forall|k: int| i <= k < all.len() ==> views(rows@)[k] == #[trigger] all[k],
                forall|k: int|
                    0 <= k < i ==> (#[trigger] views(rows@)[k]) == if may_acknowledge(
                        all[k],
                        id@,
                        delivery_token@,
                        now,
                    ) {
                        acknowledged(all[k], now)
                    } else {
                        all[k]
                    },
                found == exists|k: int|
                    0 <= k < i && may_acknowledge(#[trigger] all[k], id@, delivery_token@, now),
                self@.meetings == old(self)@.meetings,
            decreases rows.len() - i,
        {
            broadcast use group_views;

            let ghost before = views(rows@);
            let row = &rows[i];
            assert(all[i as int] == row@);
            let held = match &row.claim {
                Some(c) => same(c.delivery_token.as_str(), delivery_token)
                    && c.lease_expires_at_millis > now,
                None => false,
            };
            if held && same(row.message.id.as_str(), id)
                && row.message.acknowledged_at_millis.is_none() {
                let mut message = row.message.duplicate();
                message.acknowledged_at_millis = Some(now);
                let updated = StoredMessage { message, claim: None };
                rows[i] = updated;
                found = true;
                assert(views(rows@) == before.update(i as int, updated@));
                assert(may_acknowledge(all[i as int], id@, delivery_token@, now));
            }
            i = i + 1;
        }
        assert(views(rows@) =~= acknowledge_all(all, id@, delivery_token@, now));
        self.rows = rows;
        found
    }

    /// Keeps the minutes of a meeting; later minutes of the same meeting replace them.
    pub fn save_meeting(&mut self, meeting: &MeetingRecord)
        ensures
            final(self)@ == (BusView {
                rows: old(self)@.rows,
                meetings: old(self)@.meetings.insert(meeting@.id, meeting@),
            }),
    {
        proof {
            use_type_invariant(&*self);
        }
        let mut meetings: TextMap<MeetingRecord> = TextMap::new();
        std::mem::swap(&mut meetings, &mut self.meetings);
        meetings.insert(meeting.id.clone(), meeting.duplicate());
        self.meetings = meetings;
    }

    /// The meetings by their ids.
    pub fn meetings(&self) -> (r: &TextMap<MeetingRecord>)
        ensures
            r@ == self@.meetings,
    {
        &self.meetings
    }

    pub fn meeting(&self, id: &str) -> (r: Option<&MeetingRecord>)
        ensures
            r is Some <==> self@.meetings.contains_key(id@),
            r matches Some(m) ==> m@ == self@.meetings[id@],
    {
        self.meetings.get(id)
    }
}

proof fn lemma_first_place(rows: Seq<RowView>, key: Seq<char>, n: int)
    requires
        0 <= n <= rows.len(),
        place_of_key(rows.subrange(0, n), key) is Some,
    ensures
        place_of_key(rows, key) == place_of_key(rows.subrange(0, n), key),
    decreases rows.len() - n,
{
    if n == rows.len() {
        assert(rows.subrange(0, n) =~= rows);
    } else {
        assert(rows.subrange(0, n + 1).drop_last() =~= rows.subrange(0, n));
        lemma_first_place(rows, key, n + 1);
    }
}

} // verus!
