//! The conversation of the main agent as a whole: from turn to turn, and from call to call, until there
//! is an answer.

use vstd::prelude::*;
use vstd::string::*;

use crate::application::{
    AppView, BatchCallsView, HarnessApplication, InvocationView, LoopView, ModelLoopState,
    PendingCallView, PendingToolBatch, PendingToolCall, ToolInvocation, ToolInvocationStatus,
    ToolStatusView,
};
use crate::error::{failure, ApplicationError, ErrorView, Outcome};
use crate::exchange::{
    AgentToolCall, CallView, ModelEvent, ModelEventView, ModelRequest, ModelRequestView,
    ModelSelection, SelectionView,
};
use crate::json::{Json, JsonView};
use crate::leases::{FileLease, LeaseView, SiteView, WriteSite};
use crate::mission::{EventPriority, EventView, HarnessEvent};
use crate::model::{option_view, views, Duplicate};
use crate::model_loop::{
    after_calls, check_after_calls, check_turn, empty_turn, end_turn, go_on_with, heard_event,
    loop_event, loop_request, model_request, next_turn, steer_loop, steered, steering_event,
    turn_end, LoopTurn, LoopTurnView, TurnEnd, TurnEndView, MAX_MODEL_TURNS,
};
use crate::steering::take_steering;
use crate::text::texts;
use crate::tool_calls::{
    acquire_lease_step, batch_done, finish_tool_batch, lease_path, pending_of, release_lease_step,
    settle_first, tool_status, tool_status_event, LoopCallsView,
};

verus! {

/// Who talks, and for what.
#[derive(Debug, PartialEq, Eq)]
pub struct Talk {
    pub mission_id: String,
    pub run_id: Option<String>,
    pub agent_id: String,
}

pub struct TalkView {
    pub mission_id: Seq<char>,
    pub run_id: Option<Seq<char>>,
    pub agent_id: Seq<char>,
}

impl View for Talk {
    type V = TalkView;

    open spec fn view(&self) -> TalkView {
        TalkView {
            mission_id: self.mission_id@,
            run_id: option_view(self.run_id),
            agent_id: self.agent_id@,
        }
    }
}

/// What a call has found out.
#[derive(Debug, PartialEq, Eq)]
pub struct ToolFact {
    pub tool: String,
    pub arguments: Json,
    pub result: Json,
}

pub struct FactView {
    pub tool: Seq<char>,
    pub arguments: JsonView,
    pub result: JsonView,
}

impl View for ToolFact {
    type V = FactView;

    open spec fn view(&self) -> FactView {
        FactView {
            tool: self.tool@,
            arguments: self.arguments@,
            result: self.result@,
        }
    }
}

/// How far a conversation has come. The calls of a turn are followed by a limit of turns; those of a
/// conversation that goes on after an approval are not.
pub enum TalkPhase {
    Turning { state: ModelLoopState },
    Listening { state: ModelLoopState, turn: LoopTurn },
    Leasing { state: ModelLoopState, batch: PendingToolBatch, limited: bool },
    Invoking { state: ModelLoopState, batch: PendingToolBatch, limited: bool, lease: Option<FileLease> },
    Noting { state: ModelLoopState, batch: PendingToolBatch, limited: bool, invocation: ToolInvocation },
    Over,
}

pub enum TalkPhaseView {
    Turning { state: LoopView },
    Listening { state: LoopView, turn: LoopTurnView },
    Leasing { state: LoopView, batch: BatchCallsView, limited: bool },
    Invoking { state: LoopView, batch: BatchCallsView, limited: bool, lease: Option<LeaseView> },
    Noting { state: LoopView, batch: BatchCallsView, limited: bool, invocation: InvocationView },
    Over,
}

impl View for TalkPhase {
    type V = TalkPhaseView;

    open spec fn view(&self) -> TalkPhaseView {
        match *self {
            TalkPhase::Turning { state } => TalkPhaseView::Turning {
                state: state@,
            },
            TalkPhase::Listening { state, turn } => TalkPhaseView::Listening {
                state: state@,
                turn: turn@,
            },
            TalkPhase::Leasing { state, batch, limited } => TalkPhaseView::Leasing {
                state: state@,
                batch: batch@,
                limited,
            },
            TalkPhase::Invoking { state, batch, limited, lease } => TalkPhaseView::Invoking {
                state: state@,
                batch: batch@,
                limited,
                lease: option_view(lease),
            },
            TalkPhase::Noting { state, batch, limited, invocation } => TalkPhaseView::Noting {
                state: state@,
                batch: batch@,
                limited,
                invocation: invocation@,
            },
            TalkPhase::Over => TalkPhaseView::Over,
        }
    }
}

/// What came of an action.
pub enum TalkReply {
    Go { cancelled: bool, delivery_token: String },
    Event { event: ModelEvent },
    Ended,
    Site { site: WriteSite },
    Invoked { invocation: ToolInvocation },
    CallFailed { error: ApplicationError },
    Noted,
}

pub enum TalkReplyView {
    Go { cancelled: bool, delivery_token: Seq<char> },
    Event { event: ModelEventView },
    Ended,
    Site { site: SiteView },
    Invoked { invocation: InvocationView },
    CallFailed { error: ErrorView },
    Noted,
}

impl View for TalkReply {
    type V = TalkReplyView;

    open spec fn view(&self) -> TalkReplyView {
        match *self {
            TalkReply::Go { cancelled, delivery_token } => TalkReplyView::Go {
                cancelled,
                delivery_token: delivery_token@,
            },
            TalkReply::Event { event } => TalkReplyView::Event {
                event: event@,
            },
            TalkReply::Ended => TalkReplyView::Ended,
            TalkReply::Site { site } => TalkReplyView::Site {
                site: site@,
            },
            TalkReply::Invoked { invocation } => TalkReplyView::Invoked {
                invocation: invocation@,
            },
            TalkReply::CallFailed { error } => TalkReplyView::CallFailed {
                error: error@,
            },
            TalkReply::Noted => TalkReplyView::Noted,
        }
    }
}

/// What is to be done next.
pub enum TalkAction {
    /// Look whether the run was cancelled, and go on.
    Proceed,
    /// Show what was heard, and ask the model.
    Ask { events: Vec<HarnessEvent>, request: ModelRequest },
    /// Show what came, if anything, and wait for more.
    Hear { event: Option<HarnessEvent>, priority: EventPriority },
    /// Find out where a path leads.
    Resolve { path: String },
    Invoke { call: AgentToolCall },
    /// Look up a call that was made before.
    Lookup { invocation_id: String },
    /// Show the state of a call, and keep what it has found out.
    Note { event: HarnessEvent, fact: Option<ToolFact> },
    Answer { output: String },
}

pub enum TalkActionView {
    Proceed,
    Ask { events: Seq<EventView>, request: ModelRequestView },
    Hear { event: Option<EventView>, priority: EventPriority },
    Resolve { path: Seq<char> },
    Invoke { call: CallView },
    Lookup { invocation_id: Seq<char> },
    Note { event: EventView, fact: Option<FactView> },
    Answer { output: Seq<char> },
}

impl View for TalkAction {
    type V = TalkActionView;

    open spec fn view(&self) -> TalkActionView {
        match *self {
            TalkAction::Proceed => TalkActionView::Proceed,
            TalkAction::Ask { events, request } => TalkActionView::Ask {
                events: views(events@),
                request: request@,
            },
            TalkAction::Hear { event, priority } => TalkActionView::Hear {
                event: option_view(event),
                priority,
            },
            TalkAction::Resolve { path } => TalkActionView::Resolve { path: path@ },
            TalkAction::Invoke { call } => TalkActionView::Invoke { call: call@ },
            TalkAction::Lookup { invocation_id } => TalkActionView::Lookup {
                invocation_id: invocation_id@,
            },
            TalkAction::Note { event, fact } => TalkActionView::Note {
                event: event@,
                fact: option_view(fact),
            },
            TalkAction::Answer { output } => TalkActionView::Answer { output: output@ },
        }
    }
}

pub open spec fn talk_reply_fits(phase: TalkPhaseView, reply: TalkReplyView) -> bool {
    match phase {
        TalkPhaseView::Turning { .. } => reply is Go,
        TalkPhaseView::Listening { .. } => reply is Event || reply is Ended,
        TalkPhaseView::Leasing { batch, .. } => reply is Site && batch.calls.len() > 0,
        TalkPhaseView::Invoking { batch, .. } => (reply is Invoked || reply is CallFailed)
            && batch.calls.len() > 0,
        TalkPhaseView::Noting { batch, .. } => reply is Noted && batch.calls.len() > 0,
        TalkPhaseView::Over => false,
    }
}

pub open spec fn talk_on(phase: TalkPhaseView, action: TalkActionView) -> Outcome<
    (TalkPhaseView, TalkActionView),
> {
    Outcome::Done((phase, action))
}

/// A call is made, or looked up if it was made before.
pub open spec fn make_call(call: PendingCallView) -> TalkActionView {
    match call.invocation_id {
        Some(invocation_id) => TalkActionView::Lookup { invocation_id },
        None => TalkActionView::Invoke { call: call.call },
    }
}

/// The next call of a batch; if there is none, the next turn.
pub open spec fn next_call_step(s: AppView, who: TalkView, l: LoopCallsView, limited: bool) -> Outcome<
    (TalkPhaseView, TalkActionView),
> {
    if l.batch.calls.len() == 0 {
        let state = batch_done(l);
        match after_calls(state) {
            Outcome::Failed(e) => if limited {
                Outcome::Failed(e)
            } else {
                talk_on(TalkPhaseView::Turning { state }, TalkActionView::Proceed)
            },
            Outcome::Done(_) => talk_on(TalkPhaseView::Turning { state }, TalkActionView::Proceed),
        }
    } else {
        let call = l.batch.calls[0];
        match lease_path(s, call.call.name, call.call.arguments, who.run_id) {
            Outcome::Failed(e) => Outcome::Failed(e),
            Outcome::Done(Some(path)) => talk_on(
                TalkPhaseView::Leasing { state: l.state, batch: l.batch, limited },
                TalkActionView::Resolve { path },
            ),
            Outcome::Done(None) => talk_on(
                TalkPhaseView::Invoking { state: l.state, batch: l.batch, limited, lease: None },
                make_call(call),
            ),
        }
    }
}

pub open spec fn heard_events(agent: Seq<char>, said: Seq<Seq<char>>) -> Seq<EventView> {
    said.map_values(|instruction: Seq<char>| heard_event(agent, instruction))
}

/// A turn begins: what was said meanwhile is heard, and the model is asked.
pub open spec fn turn_step(
    s: AppView,
    who: TalkView,
    state: LoopView,
    cancelled: bool,
    delivery_token: Seq<char>,
    now: i64,
) -> (AppView, Outcome<(TalkPhaseView, TalkActionView)>) {
    match next_turn(state, cancelled, who.run_id) {
        Outcome::Failed(e) => (s, Outcome::Failed(e)),
        Outcome::Done(_) => {
            let (s1, r1) = take_steering(s, who.mission_id, delivery_token, now);
            (
                s1,
                match r1 {
                    Outcome::Failed(e) => Outcome::Failed(e),
                    Outcome::Done(said) => {
                        let told = steered(state, said);
                        talk_on(
                            TalkPhaseView::Listening { state: told, turn: empty_turn() },
                            TalkActionView::Ask {
                                events: heard_events(who.agent_id, said),
                                request: loop_request(told),
                            },
                        )
                    },
                },
            )
        },
    }
}

/// Something came from the model.
pub open spec fn event_step(
    s: AppView,
    who: TalkView,
    state: LoopView,
    turn: LoopTurnView,
    event: ModelEventView,
    now: i64,
) -> (AppView, Outcome<(TalkPhaseView, TalkActionView)>) {
    let (s1, r1) = loop_event(s, turn, event, who.run_id, who.agent_id, now);
    (
        s1,
        match r1 {
            Outcome::Failed(e) => Outcome::Failed(e),
            Outcome::Done((next, shown)) => talk_on(
                TalkPhaseView::Listening { state, turn: next },
                match shown {
                    Some((event, priority)) => TalkActionView::Hear {
                        event: Some(event),
                        priority,
                    },
                    None => TalkActionView::Hear { event: None, priority: EventPriority::Normal },
                },
            ),
        },
    )
}

/// A turn is over: there is an answer, or there are calls.
pub open spec fn ended_step(s: AppView, who: TalkView, state: LoopView, turn: LoopTurnView) -> Outcome<
    (TalkPhaseView, TalkActionView),
> {
    match turn_end(state, turn) {
        Outcome::Failed(e) => Outcome::Failed(e),
        Outcome::Done(TurnEndView::Answered { output }) => talk_on(
            TalkPhaseView::Over,
            TalkActionView::Answer { output },
        ),
        Outcome::Done(TurnEndView::Calls { state, batch }) => if !s.tools_ready {
            failure("tool-runtime-missing"@, "Model 请求了 Tool，但 Runtime 未注入"@)
        } else {
            next_call_step(s, who, LoopCallsView { state, batch }, true)
        },
    }
}

/// What a call has found out, if it was completed.
pub open spec fn fact_of(call: CallView, invocation: InvocationView) -> Option<FactView> {
    match invocation.status {
        ToolStatusView::Completed => match invocation.result {
            Some(result) => Some(
                FactView { tool: call.name, arguments: call.arguments, result },
            ),
            None => None,
        },
        _ => None,
    }
}

/// One step of a conversation.
pub open spec fn talk_step(
    s: AppView,
    who: TalkView,
    phase: TalkPhaseView,
    reply: TalkReplyView,
    now: i64,
) -> (AppView, Outcome<(TalkPhaseView, TalkActionView)>) {
    match phase {
        TalkPhaseView::Turning { state } => turn_step(
            s,
            who,
            state,
            reply->cancelled,
            reply->delivery_token,
            now,
        ),
        TalkPhaseView::Listening { state, turn } => match reply {
            TalkReplyView::Event { event } => event_step(s, who, state, turn, event, now),
            _ => (s, ended_step(s, who, state, turn)),
        },
        TalkPhaseView::Leasing { state, batch, limited } => {
            let call = batch.calls[0];
            let (s1, r1) = acquire_lease_step(
                s,
                call.call.name,
                call.call.arguments,
                who.run_id,
                reply->site,
                now,
            );
            (
                s1,
                match r1 {
                    Outcome::Failed(e) => Outcome::Failed(e),
                    Outcome::Done(lease) => talk_on(
                        TalkPhaseView::Invoking { state, batch, limited, lease },
                        make_call(call),
                    ),
                },
            )
        },
        TalkPhaseView::Invoking { state, batch, limited, lease } => {
            let (s1, r1) = release_lease_step(s, lease);
            match reply {
                TalkReplyView::CallFailed { error } => (s1, Outcome::Failed(error)),
                _ => (
                    s1,
                    match r1 {
                        Outcome::Failed(e) => Outcome::Failed(e),
                        Outcome::Done(_) => {
                            let invocation = reply->invocation;
                            let call = batch.calls[0].call;
                            talk_on(
                                TalkPhaseView::Noting { state, batch, limited, invocation },
                                TalkActionView::Note {
                                    event: tool_status(call.name, invocation),
                                    fact: fact_of(call, invocation),
                                },
                            )
                        },
                    },
                ),
            }
        },
        TalkPhaseView::Noting { state, batch, limited, invocation } => {
            let (s1, r1) = settle_first(
                s,
                LoopCallsView { state, batch },
                who.mission_id,
                who.run_id,
                invocation,
            );
            (
                s1,
                match r1 {
                    Outcome::Failed(e) => Outcome::Failed(e),
                    Outcome::Done(l) => next_call_step(s1, who, l, limited),
                },
            )
        },
        TalkPhaseView::Over => (s, talk_on(TalkPhaseView::Over, TalkActionView::Proceed)),
    }
}

/// Going on with a conversation that was put aside, if there is one.
pub open spec fn resume_talk(s: AppView, who: TalkView, selection: SelectionView) -> (
    AppView,
    Outcome<Option<(TalkPhaseView, TalkActionView)>>,
) {
    let key = match who.run_id {
        Some(run) => pending_of(s, who.mission_id, run),
        None => None,
    };
    match key {
        None => (s, Outcome::Done(None)),
        Some(key) => {
            let pending = s.pending_model[key];
            let s1 = AppView { pending_model: s.pending_model.remove(key), ..s };
            let (s2, r2) = go_on_with(s1, pending, selection);
            (
                s2,
                match r2 {
                    Outcome::Failed(e) => Outcome::Failed(e),
                    Outcome::Done(_) => if !s2.tools_ready {
                        failure("tool-runtime-missing"@, "Model 请求了 Tool，但 Runtime 未注入"@)
                    } else {
                        match next_call_step(
                            s2,
                            who,
                            LoopCallsView { state: pending.state, batch: pending.batch },
                            false,
                        ) {
                            Outcome::Failed(e) => Outcome::Failed(e),
                            Outcome::Done(step) => Outcome::Done(Some(step)),
                        }
                    },
                },
            )
        },
    }
}

pub open spec fn talked(r: Result<(TalkPhase, TalkAction), ApplicationError>) -> Outcome<
    (TalkPhaseView, TalkActionView),
> {
    match r {
        Ok((phase, action)) => Outcome::Done((phase@, action@)),
        Err(error) => Outcome::Failed(error@),
    }
}

pub open spec fn maybe_talked(r: Result<Option<(TalkPhase, TalkAction)>, ApplicationError>) -> Outcome<
    Option<(TalkPhaseView, TalkActionView)>,
> {
    match r {
        Ok(Some((phase, action))) => Outcome::Done(Some((phase@, action@))),
        Ok(None) => Outcome::Done(None),
        Err(error) => Outcome::Failed(error@),
    }
}

fn run_of_talk(who: &Talk) -> (r: Option<&str>)
    ensures
        option_view(r) == who@.run_id,
{
    match &who.run_id {
        Some(run) => Some(run.as_str()),
        None => None,
    }
}

fn call_action(call: &PendingToolCall) -> (r: TalkAction)
    ensures
        r@ == make_call(call@),
{
    match &call.invocation_id {
        Some(id) => TalkAction::Lookup { invocation_id: id.clone() },
        None => TalkAction::Invoke { call: call.call.duplicate() },
    }
}

pub fn call_fact(call: &AgentToolCall, invocation: &ToolInvocation) -> (r: Option<ToolFact>)
    ensures
        option_view(r) == fact_of(call@, invocation@),
{
    match &invocation.status {
        ToolInvocationStatus::Completed => match &invocation.result {
            Some(result) => Some(
                ToolFact {
                    tool: call.name.clone(),
                    arguments: call.arguments.copy(),
                    result: result.copy(),
                },
            ),
            None => None,
        },
        _ => None,
    }
}

impl HarnessApplication {
    fn go_to_next_call(
        &self,
        who: &Talk,
        state: ModelLoopState,
        batch: PendingToolBatch,
        limited: bool,
    ) -> (r: Result<(TalkPhase, TalkAction), ApplicationError>)
        ensures
            talked(r) == next_call_step(
                self@,
                who@,
                LoopCallsView { state: state@, batch: batch@ },
                limited,
            ),
    {
        assert(batch@.calls.len() == batch.calls@.len());
        if batch.calls.len() == 0 {
            let next = finish_tool_batch(state, batch);
            if limited {
                match check_after_calls(&next) {
                    Ok(()) => {},
                    Err(error) => {
                        return Err(error);
                    },
                }
            }
            return Ok((TalkPhase::Turning { state: next }, TalkAction::Proceed));
        }
        assert(batch@.calls[0] == batch.calls@[0]@);
        match self.write_lease_path(
            batch.calls[0].call.name.as_str(),
            &batch.calls[0].call.arguments,
            run_of_talk(who),
        ) {
            Err(error) => Err(error),
            Ok(Some(path)) => Ok(
                (TalkPhase::Leasing { state, batch, limited }, TalkAction::Resolve { path }),
            ),
            Ok(None) => {
                let action = call_action(&batch.calls[0]);
                Ok((TalkPhase::Invoking { state, batch, limited, lease: None }, action))
            },
        }
    }

    fn take_turn(
        &mut self,
        who: &Talk,
        state: ModelLoopState,
        cancelled: bool,
        delivery_token: &str,
        now: i64,
    ) -> (r: Result<(TalkPhase, TalkAction), ApplicationError>)
        ensures
            (final(self)@, talked(r)) == turn_step(
                old(self)@,
                who@,
                state@,
                cancelled,
                delivery_token@,
                now,
            ),
    {
        match check_turn(&state, cancelled, run_of_talk(who)) {
            Ok(()) => {},
            Err(error) => {
                return Err(error);
            },
        }
        let said = match self.take_steering_messages(who.mission_id.as_str(), delivery_token, now) {
            Ok(said) => said,
            Err(error) => {
                return Err(error);
            },
        };
        let ghost heard = texts(said@);
        let ghost spec = heard_events(who@.agent_id, heard);
        let mut events: Vec<HarnessEvent> = Vec::new();
        let mut i: usize = 0;
        while i < said.len()
            invariant
                i <= said.len(),
                heard == texts(said@),
                spec == heard_events(who@.agent_id, heard),
                events@.len() == i,
                forall|k: int| 0 <= k < i ==> (#[trigger] events@[k])@ == spec[k],
            decreases said.len() - i,
        {
            assert(heard[i as int] == said@[i as int]@);
            events.push(steering_event(who.agent_id.as_str(), said[i].as_str()));
            i = i + 1;
        }
        assert(views(events@) =~= spec);
        assert(views(said@) =~= heard);
        let told = steer_loop(state, &said);
        let request = model_request(&told);
        Ok(
            (
                TalkPhase::Listening { state: told, turn: LoopTurn::new() },
                TalkAction::Ask { events, request },
            ),
        )
    }

    fn end_of_turn(&self, who: &Talk, state: ModelLoopState, turn: LoopTurn) -> (r: Result<
        (TalkPhase, TalkAction),
        ApplicationError,
    >)
        ensures
            talked(r) == ended_step(self@, who@, state@, turn@),
    {
        match end_turn(state, turn) {
            Err(error) => Err(error),
            Ok(TurnEnd::Answered { output }) => Ok(
                (TalkPhase::Over, TalkAction::Answer { output }),
            ),
            Ok(TurnEnd::Calls { state, batch }) => match self.check_model_tools() {
                Err(error) => Err(error),
                Ok(()) => self.go_to_next_call(who, state, batch, true),
            },
        }
    }

    /// Goes on with a conversation that was put aside; nothing if there is none.
    pub fn resume_conversation(&mut self, who: &Talk, selection: &ModelSelection) -> (r: Result<
        Option<(TalkPhase, TalkAction)>,
        ApplicationError,
    >)
        ensures
            (final(self)@, maybe_talked(r)) == resume_talk(old(self)@, who@, selection@),
    {
        let pending = match &who.run_id {
            Some(run) => self.take_pending_model_continuation(who.mission_id.as_str(), run.as_str()),
            None => None,
        };
        let pending = match pending {
            Some(pending) => pending,
            None => {
                return Ok(None);
            },
        };
        match self.resume_model_loop(&pending, selection) {
            Ok(()) => {},
            Err(error) => {
                return Err(error);
            },
        }
        match self.check_model_tools() {
            Ok(()) => {},
            Err(error) => {
                return Err(error);
            },
        }
        match self.go_to_next_call(who, pending.state, pending.batch, false) {
            Ok(step) => Ok(Some(step)),
            Err(error) => Err(error),
        }
    }

    /// One step of a conversation.
    pub fn converse(
        &mut self,
        who: &Talk,
        phase: TalkPhase,
        reply: TalkReply,
        now: i64,
    ) -> (r: Result<(TalkPhase, TalkAction), ApplicationError>)
        requires
            talk_reply_fits(phase@, reply@),
        ensures
            (final(self)@, talked(r)) == talk_step(old(self)@, who@, phase@, reply@, now),
    {
        match (phase, reply) {
            (TalkPhase::Turning { state }, TalkReply::Go { cancelled, delivery_token })
                => self.take_turn(who, state, cancelled, delivery_token.as_str(), now),
            (TalkPhase::Listening { state, turn }, TalkReply::Event { event }) => {
                let mut turn = turn;
                match self.execute_model(
                    &mut turn,
                    &event,
                    run_of_talk(who),
                    who.agent_id.as_str(),
                    now,
                ) {
                    Err(error) => Err(error),
                    Ok(Some((event, priority))) => Ok(
                        (
                            TalkPhase::Listening { state, turn },
                            TalkAction::Hear { event: Some(event), priority },
                        ),
                    ),
                    Ok(None) => Ok(
                        (
                            TalkPhase::Listening { state, turn },
                            TalkAction::Hear { event: None, priority: EventPriority::Normal },
                        ),
                    ),
                }
            },
            (TalkPhase::Listening { state, turn }, _) => self.end_of_turn(who, state, turn),
            (TalkPhase::Leasing { state, batch, limited }, TalkReply::Site { site }) => {
                assert(batch@.calls[0] == batch.calls@[0]@);
                match self.acquire_agent_write_lease(
                    batch.calls[0].call.name.as_str(),
                    &batch.calls[0].call.arguments,
                    run_of_talk(who),
                    &site,
                    now,
                ) {
                    Err(error) => Err(error),
                    Ok(lease) => {
                        let action = call_action(&batch.calls[0]);
                        Ok((TalkPhase::Invoking { state, batch, limited, lease }, action))
                    },
                }
            },
            (TalkPhase::Invoking { lease, .. }, TalkReply::CallFailed { error }) => {
                let _ = self.release_agent_write_lease(lease);
                Err(error)
            },
            (
                TalkPhase::Invoking { state, batch, limited, lease },
                TalkReply::Invoked { invocation },
            ) => {
                match self.release_agent_write_lease(lease) {
                    Ok(()) => {},
                    Err(error) => {
                        return Err(error);
                    },
                }
                assert(batch@.calls[0] == batch.calls@[0]@);
                let event = tool_status_event(batch.calls[0].call.name.as_str(), &invocation);
                let fact = call_fact(&batch.calls[0].call, &invocation);
                Ok(
                    (
                        TalkPhase::Noting { state, batch, limited, invocation },
                        TalkAction::Note { event, fact },
                    ),
                )
            },
            (TalkPhase::Noting { state, batch, limited, invocation }, _) => {
                assert(batch@.calls.len() == batch.calls@.len());
                match self.process_tool_batch(
                    state,
                    batch,
                    who.mission_id.as_str(),
                    run_of_talk(who),
                    &invocation,
                ) {
                    Err(error) => Err(error),
                    Ok((state, batch)) => self.go_to_next_call(who, state, batch, limited),
                }
            },
            _ => Ok((TalkPhase::Over, TalkAction::Proceed)),
        }
    }
}

/// How many turns and calls may still come.
pub open spec fn turns_left(phase: TalkPhaseView) -> int {
    match phase {
        TalkPhaseView::Turning { state } => MAX_MODEL_TURNS - state.next_turn,
        TalkPhaseView::Listening { state, .. } => MAX_MODEL_TURNS - state.next_turn,
        TalkPhaseView::Leasing { state, .. } => MAX_MODEL_TURNS - state.next_turn,
        TalkPhaseView::Invoking { state, .. } => MAX_MODEL_TURNS - state.next_turn,
        TalkPhaseView::Noting { state, .. } => MAX_MODEL_TURNS - state.next_turn,
        TalkPhaseView::Over => 0,
    }
}

/// A lease for what a call writes is held only while the call is made.
pub proof fn law_leases_end_with_their_call(
    s: AppView,
    who: TalkView,
    phase: TalkPhaseView,
    reply: TalkReplyView,
    now: i64,
)
    requires
        talk_reply_fits(phase, reply),
        phase is Invoking,
    ensures
        ({
            let (after, done) = talk_step(s, who, phase, reply, now);
            &&& after == release_lease_step(s, phase->Invoking_lease).0
            &&& done matches Outcome::Done((next, _)) ==> next is Noting
        }),
{
}

/// A model is asked only as long as there are turns left.
pub proof fn law_models_are_asked_a_bounded_number_of_times(
    s: AppView,
    who: TalkView,
    phase: TalkPhaseView,
    reply: TalkReplyView,
    now: i64,
)
    requires
        talk_reply_fits(phase, reply),
    ensures
        talk_step(s, who, phase, reply, now).1 matches Outcome::Done((next, action)) ==> {
            &&& action is Ask ==> turns_left(phase) > 0 && turns_left(next) == turns_left(phase)
            &&& next is Over || turns_left(next) <= turns_left(phase) || phase is Over
            &&& phase is Listening && reply is Ended ==> next is Over || turns_left(next)
                == turns_left(phase) - 1 || phase->Listening_state.next_turn == u8::MAX
        },
{
}

} // verus!
