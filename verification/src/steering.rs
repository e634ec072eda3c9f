//! Steering: what a user says to a mission while its agents work.

use vstd::prelude::*;
use vstd::string::*;

use crate::application::{AppView, HarnessApplication};
use crate::error::{agent_error, failure, list_outcome, outcome, ApplicationError, Outcome};
use crate::json::{member_of, object, text_json, text_value, Json, JsonView};
use crate::messages::{
    acknowledge_all, can_acknowledge, claim_first, claim_step, lease_end, lemma_claimed_apart,
    law_claimed_messages_can_be_acknowledged, may_acknowledge, page_size, send_step, table_ok,
    AgentMessage, AgentMessageKind, BusView, ClaimView, ClaimedView, MessageView, Query, RowView,
};
use crate::model::{group_views, option_view, views};
use crate::text::{is_blank, is_blank_text, texts, trim, trimmed};

verus! {

/// To whom steering is addressed.
pub open spec fn steering_recipient() -> Seq<char> {
    "kernel:supervisor:steering"@
}

#[derive(Debug, PartialEq, Eq)]
pub struct SteeringView {
    pub message_id: String,
    pub mission_id: String,
    pub recipient: String,
    pub queued: bool,
}

pub struct SteeringViewModel {
    pub message_id: Seq<char>,
    pub mission_id: Seq<char>,
    pub recipient: Seq<char>,
    pub queued: bool,
}

impl View for SteeringView {
    type V = SteeringViewModel;

    open spec fn view(&self) -> SteeringViewModel {
        SteeringViewModel {
            message_id: self.message_id@,
            mission_id: self.mission_id@,
            recipient: self.recipient@,
            queued: self.queued,
        }
    }
}

pub open spec fn steering_payload(instruction: Seq<char>) -> JsonView {
    JsonView::Object(seq![("instruction"@, JsonView::Text(trimmed(instruction)))])
}

pub open spec fn steering_sent(
    mission_id: Seq<char>,
    message_id: Seq<char>,
    instruction: Seq<char>,
    now: i64,
) -> MessageView {
    MessageView {
        id: message_id,
        idempotency_key: "steering:"@ + mission_id + ":"@ + message_id,
        mission_id,
        from: "user:terminal"@,
        to: steering_recipient(),
        kind: AgentMessageKind::Steering,
        payload: steering_payload(instruction),
        sequence: 0,
        created_at_millis: now,
        acknowledged_at_millis: None,
    }
}

/// Steering the active mission.
pub open spec fn steer_mission(
    s: AppView,
    instruction: Seq<char>,
    message_id: Seq<char>,
    now: i64,
) -> (AppView, Outcome<SteeringViewModel>) {
    if is_blank_text(instruction) {
        (s, failure("steering-empty"@, "Steering instruction 不能为空"@))
    } else if s.active_mission_id is None {
        (s, failure("active-mission-missing"@, "当前没有活动 Mission"@))
    } else if s.agent_messages is None {
        (s, failure("agent-message-bus-missing"@, "Agent MessageBus 尚未注入"@))
    } else {
        let mission_id = s.active_mission_id->Some_0;
        let bus = s.agent_messages->Some_0;
        let (rows, sent) = send_step(
            bus.rows,
            steering_sent(mission_id, message_id, instruction, now),
        );
        (
            AppView { agent_messages: Some(BusView { rows, ..bus }), ..s },
            match sent {
                Outcome::Done(message) => Outcome::Done(
                    SteeringViewModel {
                        message_id: message.id,
                        mission_id,
                        recipient: steering_recipient(),
                        queued: true,
                    },
                ),
                Outcome::Failed(e) => Outcome::Failed(e),
            },
        )
    }
}

/// What a message says, if it steers.
pub open spec fn instruction_in(message: MessageView) -> Option<Seq<char>> {
    if message.kind is Steering {
        match text_value(member_of(Some(message.payload), "instruction"@)) {
            Some(text) => if is_blank_text(text) {
                None
            } else {
                Some(trimmed(text))
            },
            None => None,
        }
    } else {
        None
    }
}

/// Hearing the first messages that were claimed: each is acknowledged, and what it says is kept.
pub open spec fn heard(
    rows: Seq<RowView>,
    claimed: Seq<ClaimedView>,
    token: Seq<char>,
    now: i64,
    n: int,
) -> (Seq<RowView>, Outcome<Seq<Seq<char>>>)
    decreases n,
{
    if n <= 0 {
        (rows, Outcome::Done(Seq::empty()))
    } else {
        let (before, so_far) = heard(rows, claimed, token, now, n - 1);
        match so_far {
            Outcome::Failed(e) => (before, Outcome::Failed(e)),
            Outcome::Done(said) => {
                let message = claimed[n - 1].message;
                (
                    acknowledge_all(before, message.id, token, now),
                    if can_acknowledge(before, message.id, token, now) {
                        Outcome::Done(
                            match instruction_in(message) {
                                Some(text) => said.push(text),
                                None => said,
                            },
                        )
                    } else {
                        failure("steering-ack-lost"@, message.id)
                    },
                )
            },
        }
    }
}

pub open spec fn steering_query(mission_id: Seq<char>) -> Query {
    Query { recipient: steering_recipient(), mission: Some(mission_id), after: 0 }
}

/// Taking the steering of a mission: what was said, in the order in which it was said.
pub open spec fn take_steering(
    s: AppView,
    mission_id: Seq<char>,
    token: Seq<char>,
    now: i64,
) -> (AppView, Outcome<Seq<Seq<char>>>) {
    match s.agent_messages {
        None => (s, Outcome::Done(Seq::empty())),
        Some(bus) => {
            let (rows, claimed) = claim_step(
                bus.rows,
                steering_query(mission_id),
                100,
                token,
                now,
                30000,
            );
            match claimed {
                Outcome::Failed(e) => (
                    AppView { agent_messages: Some(BusView { rows, ..bus }), ..s },
                    Outcome::Failed(e),
                ),
                Outcome::Done(messages) => {
                    let (after, said) = heard(rows, messages, token, now, messages.len() as int);
                    (AppView { agent_messages: Some(BusView { rows: after, ..bus }), ..s }, said)
                },
            }
        },
    }
}

proof fn lemma_heard(
    rows: Seq<RowView>,
    claimed: Seq<ClaimedView>,
    token: Seq<char>,
    now: i64,
    n: int,
)
    requires
        0 <= n <= claimed.len(),
        forall|k: int|
            0 <= k < claimed.len() ==> can_acknowledge(
                rows,
                (#[trigger] claimed[k]).message.id,
                token,
                now,
            ),
        forall|j: int, k: int|
            0 <= j < k < claimed.len() ==> (#[trigger] claimed[j]).message.id
                != (#[trigger] claimed[k]).message.id,
    ensures
        heard(rows, claimed, token, now, n).1 is Done,
        forall|k: int|
            n <= k < claimed.len() ==> can_acknowledge(
                heard(rows, claimed, token, now, n).0,
                (#[trigger] claimed[k]).message.id,
                token,
                now,
            ),
    decreases n,
{
    if n > 0 {
        lemma_heard(rows, claimed, token, now, n - 1);
        let before = heard(rows, claimed, token, now, n - 1).0;
        let id = claimed[n - 1].message.id;
        let after = heard(rows, claimed, token, now, n).0;
        assert(can_acknowledge(before, claimed[n - 1].message.id, token, now));
        assert forall|k: int| n <= k < claimed.len() implies can_acknowledge(
            after,
            (#[trigger] claimed[k]).message.id,
            token,
            now,
        ) by {
            assert(can_acknowledge(before, claimed[k].message.id, token, now));
            let i = choose|i: int|
                0 <= i < before.len() && may_acknowledge(
                    #[trigger] before[i],
                    claimed[k].message.id,
                    token,
                    now,
                );
            assert(claimed[n - 1].message.id != claimed[k].message.id);
            assert(after[i] == before[i]);
        }
    }
}

/// Steering is always heard: what a mission takes is never lost on the way. The end of time, at
/// which no lease can be held, is left out.
pub proof fn law_steering_is_heard(s: AppView, mission_id: Seq<char>, token: Seq<char>, now: i64)
    requires
        s.agent_messages matches Some(bus) ==> table_ok(bus.rows),
        !is_blank_text(token),
        now < i64::MAX,
    ensures
        take_steering(s, mission_id, token, now).1 is Done,
{
    if s.agent_messages is Some {
        let rows = s.agent_messages->Some_0.rows;
        let q = steering_query(mission_id);
        let claim = ClaimView { token, expires: lease_end(now, 30000) };
        let (after, out) = claim_first(rows, q, page_size(100), now, claim);
        assert forall|k: int| 0 <= k < out.len() implies can_acknowledge(
            after,
            (#[trigger] out[k]).message.id,
            token,
            now,
        ) by {
            law_claimed_messages_can_be_acknowledged(
                rows,
                q,
                page_size(100),
                now,
                claim,
                k,
                now,
            );
        }
        assert forall|j: int, k: int| 0 <= j < k < out.len() implies (#[trigger] out[j]).message.id
            != (#[trigger] out[k]).message.id by {
            lemma_claimed_apart(rows, q, page_size(100), now, claim, j, k);
        }
        lemma_heard(after, out, token, now, out.len() as int);
    }
}

impl HarnessApplication {
    /// Sends an instruction to the active mission.
    pub fn steer(&mut self, instruction: &str, message_id: String, now: i64) -> (r: Result<
        SteeringView,
        ApplicationError,
    >)
        ensures
            (final(self)@, outcome(r)) == steer_mission(
                old(self)@,
                instruction@,
                message_id@,
                now,
            ),
    {
        if is_blank(instruction) {
            return Err(ApplicationError::new("steering-empty", "Steering instruction 不能为空"));
        }
        let mission_id = match &self.active_mission_id {
            Some(mission_id) => mission_id.clone(),
            None => {
                return Err(
                    ApplicationError::new("active-mission-missing", "当前没有活动 Mission"),
                );
            },
        };
        let mut idempotency_key: String = "steering:".to_string();
        idempotency_key.append(mission_id.as_str());
        idempotency_key.append(":");
        idempotency_key.append(message_id.as_str());
        let members: Vec<(String, Json)> = vec![
            ("instruction".to_string(), text_json(trim(instruction).as_str())),
        ];
        let payload = object(members);
        assert(payload@ == steering_payload(instruction@)) by {
            assert(payload@->Object_0 =~= steering_payload(instruction@)->Object_0);
        }
        let message = AgentMessage {
            id: message_id,
            idempotency_key,
            mission_id: mission_id.clone(),
            from: "user:terminal".to_string(),
            to: "kernel:supervisor:steering".to_string(),
            kind: AgentMessageKind::Steering,
            payload,
            sequence: 0,
            created_at_millis: now,
            acknowledged_at_millis: None,
        };
        match &mut self.agent_messages {
            Some(bus) => match bus.send(message) {
                Ok(sent) => Ok(
                    SteeringView {
                        message_id: sent.id,
                        mission_id,
                        recipient: "kernel:supervisor:steering".to_string(),
                        queued: true,
                    },
                ),
                Err(error) => Err(agent_error(error)),
            },
            None => Err(
                ApplicationError::new(
                    "agent-message-bus-missing",
                    "Agent MessageBus 尚未注入",
                ),
            ),
        }
    }

    /// Takes what was said to a mission, and acknowledges it.
    pub fn take_steering_messages(&mut self, mission_id: &str, delivery_token: &str, now: i64) -> (r:
        Result<Vec<String>, ApplicationError>)
        ensures
            (final(self)@, list_outcome(r)) == take_steering(
                old(self)@,
                mission_id@,
                delivery_token@,
                now,
            ),
    {
        match &mut self.agent_messages {
            None => {
                broadcast use group_views;

                Ok(Vec::new())
            },
            Some(bus) => {
                let claimed = match bus.claim_for_mission(
                    "kernel:supervisor:steering",
                    mission_id,
                    0,
                    100,
                    delivery_token,
                    now,
                    30000,
                ) {
                    Ok(claimed) => claimed,
                    Err(error) => {
                        return Err(agent_error(error));
                    },
                };
                let ghost all = views(claimed@);
                let ghost first = bus@;
                let mut said: Vec<String> = Vec::new();
                let mut lost: Option<String> = None;
                let mut i: usize = 0;
                assert(texts(said@) =~= Seq::empty());
                while i < claimed.len() && lost.is_none()
                    invariant
                        i <= claimed.len(),
                        all == views(claimed@),
                        heard(first.rows, all, delivery_token@, now, i as int) == (
                            bus@.rows,
                            match lost {
                                None => Outcome::Done(texts(said@)),
                                Some(id) => failure("steering-ack-lost"@, id@),
                            },
                        ),
                        bus@.meetings == first.meetings,
                    decreases claimed.len() - i,
                {
                    broadcast use group_views;

                    let message = &claimed[i].message;
                    assert(all[i as int] == claimed@[i as int]@);
                    match instruction_of(message) {
                        Some(text) => {
                            said.push(text);
                        },
                        None => {},
                    }
                    if !bus.acknowledge_claim(message.id.as_str(), delivery_token, now) {
                        lost = Some(message.id.clone());
                    }
                    i = i + 1;
                }
                match lost {
                    Some(id) => {
                        proof {
                            lemma_hearing_stops(
                                first.rows,
                                all,
                                delivery_token@,
                                now,
                                i as int,
                                all.len() as int,
                            );
                        }
                        Err(ApplicationError::new("steering-ack-lost", id.as_str()))
                    },
                    None => Ok(said),
                }
            },
        }
    }
}

proof fn lemma_hearing_stops(
    rows: Seq<RowView>,
    claimed: Seq<ClaimedView>,
    token: Seq<char>,
    now: i64,
    n: int,
    m: int,
)
    requires
        heard(rows, claimed, token, now, n).1 is Failed,
        n <= m,
    ensures
        heard(rows, claimed, token, now, m) == heard(rows, claimed, token, now, n),
    decreases m - n,
{
    if n < m {
        lemma_hearing_stops(rows, claimed, token, now, n, m - 1);
    }
}

fn instruction_of(message: &AgentMessage) -> (r: Option<String>)
    ensures
        option_view(r) == instruction_in(message@),
{
    if message.kind == AgentMessageKind::Steering {
        match message.payload.get_text("instruction") {
            Some(text) => if is_blank(text.as_str()) {
                None
            } else {
                Some(trim(text.as_str()))
            },
            None => None,
        }
    } else {
        None
    }
}

} // verus!
