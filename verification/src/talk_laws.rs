//! What a conversation with a model keeps: everything that was said, every call with its result, and
//! every conversation that was put aside.

use vstd::prelude::*;

use crate::application::{AppView, InvocationView, LoopView, PendingCallView, PendingModelView};
use crate::budget::escrows_ok;
use crate::conversation::{
    ended_step, next_call_step, resume_talk, talk_step, turn_step, TalkActionView, TalkPhaseView,
    TalkReplyView, TalkView,
};
use crate::error::{ErrorView, Outcome};
use crate::exchange::{
    CallView, ContinuationView, InputView, ModelEventView, ModelMessageRole, SelectionView, YieldView,
};
use crate::execution::{RequestView, WorkingView};
use crate::json::{member_of, text_value, JsonView};
use crate::mission::{EventPriority, EventView};
use crate::model_loop::{
    after_calls, empty_turn, fresh_loop, go_on_with, loop_event, loop_request, next_turn, steered,
    turn_end, LoopTurnView, TurnEndView,
};
use crate::ordered::{enumerates, in_order};
use crate::run_laws::law_use_is_charged_to_the_run;
use crate::text::is_blank_text;
use crate::tool_calls::{
    batch_done, continued_request, lease_path, pending_key, pending_of, settle_call, settle_first,
    with_written, yielded, LoopCallsView, ParallelCallsView,
};
use crate::turn_laws::{calls_in, held_at, text_in};
use crate::waves::DescriptorView;

verus! {

/// A turn after some events of a model, if none of them was refused.
pub open spec fn after_events(
    s: AppView,
    t: LoopTurnView,
    events: Seq<ModelEventView>,
    run: Option<Seq<char>>,
    agent: Seq<char>,
    now: i64,
) -> Option<(AppView, LoopTurnView)>
    decreases events.len(),
{
    if events.len() == 0 {
        Some((s, t))
    } else {
        match after_events(s, t, events.drop_last(), run, agent, now) {
            None => None,
            Some((s1, t1)) => match loop_event(s1, t1, events.last(), run, agent, now) {
                (s2, Outcome::Done((t2, _))) => Some((s2, t2)),
                _ => None,
            },
        }
    }
}

/// Whatever a model says in a turn is heard: the text is all pieces one after the other, and the calls
/// are all calls in their order. The turn is complete if the model has said so.
pub proof fn law_turns_hear_all_that_is_said(
    s: AppView,
    events: Seq<ModelEventView>,
    run: Option<Seq<char>>,
    agent: Seq<char>,
    now: i64,
)
    ensures
        after_events(s, empty_turn(), events, run, agent, now) matches Some((_, t)) ==> {
            &&& t.text == text_in(events)
            &&& t.calls == calls_in(events)
            &&& t.completed <==> exists|i: int| 0 <= i < events.len() && #[trigger] events[i] is Completed
            &&& forall|i: int|
                0 <= i < events.len() ==> !(#[trigger] events[i] is Failed) && !(events[i]
                    is Incomplete)
        },
    decreases events.len(),
{
    reveal(Seq::filter);
    let texts = |e: ModelEventView| e is TextDelta;
    let calls = |e: ModelEventView| e is ToolCall;
    let said = |e: ModelEventView| e->TextDelta_delta;
    let asked = |e: ModelEventView| e->call;
    if events.len() == 0 {
        assert(text_in(events) =~= Seq::<char>::empty());
        assert(calls_in(events) =~= Seq::<CallView>::empty());
    } else {
        let before = events.drop_last();
        let last = events.last();
        law_turns_hear_all_that_is_said(s, before, run, agent, now);
        if after_events(s, empty_turn(), events, run, agent, now) is Some {
            let t1 = after_events(s, empty_turn(), before, run, agent, now)->Some_0.1;
            let t = after_events(s, empty_turn(), events, run, agent, now)->Some_0.1;
            assert(events[events.len() - 1] == last);
            if last is TextDelta {
                let all = before.filter(texts).map_values(said);
                assert(events.filter(texts).map_values(said) =~= all.push(said(last)));
                all.lemma_flatten_push(said(last));
                assert(calls_in(events) =~= calls_in(before));
            } else if last is ToolCall {
                assert(calls_in(events) =~= calls_in(before).push(last->call));
                assert(text_in(events) =~= text_in(before));
            } else {
                assert(calls_in(events) =~= calls_in(before));
                assert(text_in(events) =~= text_in(before));
            }
            assert forall|i: int| 0 <= i < events.len() implies !(#[trigger] events[i] is Failed)
                && !(events[i] is Incomplete) by {
                if i < before.len() {
                    assert(before[i] == events[i]);
                }
            }
            if t1.completed {
                let i = choose|i: int|
                    0 <= i < before.len() && #[trigger] before[i] is Completed;
                assert(events[i] is Completed);
            }
            if exists|i: int| 0 <= i < events.len() && #[trigger] events[i] is Completed {
                let i = choose|i: int|
                    0 <= i < events.len() && #[trigger] events[i] is Completed;
                if i < before.len() {
                    assert(before[i] is Completed);
                }
            }
        }
    }
}

/// What is used is charged to the run before anything is made of it: a call as one call, and what is
/// told of tokens as so many tokens. Nothing else is charged, and what cannot be paid is refused.
pub proof fn law_events_are_paid_for(
    s: AppView,
    t: LoopTurnView,
    event: ModelEventView,
    run: Seq<char>,
    agent: Seq<char>,
    now: i64,
    i: int,
)
    requires
        s.agent_budgets matches Some(rows) && escrows_ok(rows) && 0 <= i < rows.len()
            && rows[i].run_id == run,
    ensures
        ({
            let (after, done) = loop_event(s, t, event, Some(run), agent, now);
            let e = s.agent_budgets->Some_0[i];
            let x = after.agent_budgets->Some_0[i];
            let tokens = if event is Usage {
                event->usage.total_tokens as int
            } else {
                0
            };
            let calls = if event is ToolCall {
                1int
            } else {
                0
            };
            &&& after == (AppView { agent_budgets: after.agent_budgets, ..s })
            &&& event !is Usage && event !is ToolCall ==> after == s
            &&& done is Done ==> x.consumed_tokens == held_at(
                u64::MAX as int,
                e.consumed_tokens + tokens,
            ) && x.consumed_tool_calls == held_at(
                u64::MAX as int,
                e.consumed_tool_calls + calls,
            )
            &&& done is Failed ==> x.consumed_tokens == e.consumed_tokens && x.consumed_tool_calls
                == e.consumed_tool_calls
        }),
{
    if event is Usage {
        law_use_is_charged_to_the_run(s, Some(run), event->usage.total_tokens, 0, now, i);
    }
    law_use_is_charged_to_the_run(s, Some(run), 0, 1, now, i);
}

/// What is shown of an event is what was said: text as text, a summary of the reasoning under the name
/// of the agent, and what was used. An answer that is not complete is an error, as is a failure.
pub proof fn law_events_are_shown_as_said(
    s: AppView,
    t: LoopTurnView,
    event: ModelEventView,
    run: Option<Seq<char>>,
    agent: Seq<char>,
    now: i64,
)
    ensures
        ({
            let done = loop_event(s, t, event, run, agent, now).1;
            &&& event matches ModelEventView::Failed { code, message } ==> done
                == Outcome::<(LoopTurnView, Option<(EventView, EventPriority)>)>::Failed(
                ErrorView { code, message },
            )
            &&& event is Incomplete ==> done is Failed && done->Failed_0.code
                == "model-response-incomplete"@
            &&& done matches Outcome::Done((after, shown)) ==> {
                &&& event matches ModelEventView::TextDelta { delta } ==> shown matches Some((
                    EventView::TextOutput { text },
                    _,
                )) && text == delta
                &&& event matches ModelEventView::ReasoningSummaryDelta { delta } ==> after == t
                    && (shown matches Some((EventView::ReasoningSummary { agent_id, summary }, _))
                    && agent_id == agent && summary == delta)
                &&& event is Usage ==> after == t && (shown matches Some((
                    EventView::ModelUsage { usage },
                    _,
                )) && usage == event->usage)
                &&& event matches ModelEventView::Started { response_id } ==> after.response_id
                    == Some(response_id) && shown is None
                &&& event !is Started ==> after.response_id == t.response_id
            }
        }),
{
}

/// A turn that the model has completed ends with an answer if it asks for no call and something was
/// said; the answer is everything that was said in all turns. If it asks for calls, all of them are
/// still to be made, in their order, and the conversation keeps what was said.
pub proof fn law_turns_end_in_an_answer_or_calls(state: LoopView, t: LoopTurnView)
    ensures
        match turn_end(state, t) {
            Outcome::Failed(e) => !t.completed || (t.calls.len() == 0 && is_blank_text(
                state.output + t.text,
            )),
            Outcome::Done(TurnEndView::Answered { output }) => t.completed && t.calls.len() == 0
                && output == state.output + t.text && !is_blank_text(output),
            Outcome::Done(TurnEndView::Calls { state: after, batch }) => {
                &&& t.completed && t.calls.len() > 0
                &&& batch.response_id == t.response_id && batch.results.len() == 0
                &&& batch.calls.len() == t.calls.len()
                &&& forall|i: int|
                    0 <= i < t.calls.len() ==> (#[trigger] batch.calls[i]).call == t.calls[i]
                        && batch.calls[i].invocation_id is None
                &&& after.output == state.output + t.text
                &&& state.next_turn < u8::MAX ==> after.next_turn == state.next_turn + 1
                &&& after.next_input == state.next_input
                &&& after.transcript == if t.text.len() > 0
                    && !state.selection.conversation_continuation {
                    state.transcript + seq![
                        InputView::Message { role: ModelMessageRole::Assistant, content: t.text },
                    ]
                } else {
                    state.transcript
                }
                &&& after.selection == state.selection && after.tools == state.tools
                    && after.canonical_context == state.canonical_context
                    && after.previous_response_id == state.previous_response_id
            },
        },
{
    if t.text.len() > 0 {
        let said = InputView::Message { role: ModelMessageRole::Assistant, content: t.text };
        assert(state.transcript.push(said) =~= state.transcript + seq![said]);
    }
}

/// A model is asked at most eight times, and never for a run that was cancelled. It is asked with all
/// that stands in the conversation, and answers with no more than it may.
pub proof fn law_models_are_asked_eight_times_at_most(
    state: LoopView,
    cancelled: bool,
    run: Option<Seq<char>>,
)
    ensures
        ({
            let asked = next_turn(state, cancelled, run);
            &&& asked is Done <==> state.next_turn < 8 && !cancelled
            &&& asked matches Outcome::Done(r) ==> {
                &&& r.model_id == state.selection.model_id
                &&& r.instructions == state.canonical_context
                &&& r.input == state.next_input && r.tools == state.tools
                &&& r.previous_response_id == state.previous_response_id
                &&& r.max_output_tokens == held_at(1024, state.selection.max_output_tokens as int)
                &&& r.reasoning == state.selection.reasoning_requested
                &&& !r.store && r.timeout_millis == 2 * 60 * 1000
            }
            &&& asked matches Outcome::Failed(e) ==> e.code == if state.next_turn >= 8 {
                "model-tool-loop-exhausted"@
            } else {
                "agent-run-cancelled"@
            }
            &&& after_calls(state) is Done <==> state.next_turn < 8
        }),
{
}

/// A new conversation begins with the prompt and nothing else, and every tool is offered as it is
/// described.
pub proof fn law_conversations_begin_with_the_prompt(
    selection: SelectionView,
    prompt: Seq<char>,
    context: WorkingView,
    retrieved: Seq<char>,
    tools: Seq<DescriptorView>,
)
    ensures
        ({
            let state = fresh_loop(selection, prompt, context, retrieved, tools);
            let said = InputView::Message { role: ModelMessageRole::User, content: prompt };
            &&& state.transcript == seq![said] && state.next_input == seq![said]
            &&& state.next_turn == 0 && state.output.len() == 0
            &&& state.previous_response_id is None && state.selection == selection
            &&& state.tools.len() == tools.len()
            &&& forall|i: int|
                0 <= i < tools.len() ==> (#[trigger] state.tools[i]).name
                    == tools[i].canonical_name && state.tools[i].description
                    == tools[i].description && state.tools[i].input_schema
                    == tools[i].input_schema && state.tools[i].strict
            &&& state.canonical_context == (if context.stable_instructions.len() > 0
                && context.dynamic_context.len() > 0 {
                context.stable_instructions + "\n"@ + context.dynamic_context
            } else {
                context.stable_instructions + context.dynamic_context
            }) + retrieved
        }),
{
    let parts = seq![context.stable_instructions, context.dynamic_context];
    reveal_with_fuel(crate::agent_turn::present, 3);
    reveal_with_fuel(crate::text::joined, 3);
    assert(parts.drop_last() =~= seq![context.stable_instructions]);
    assert(parts.drop_last().drop_last() =~= Seq::<Seq<char>>::empty());
    let shown = crate::agent_turn::present(parts);
    let first = context.stable_instructions;
    let second = context.dynamic_context;
    if first.len() > 0 && second.len() > 0 {
        assert(shown =~= seq![first, second]);
        assert(shown.drop_last() =~= seq![first]);
    } else if first.len() > 0 {
        assert(shown =~= seq![first]);
        assert(first + second =~= first);
    } else if second.len() > 0 {
        assert(shown =~= seq![second]);
        assert(first + second =~= second);
    } else {
        assert(shown =~= Seq::<Seq<char>>::empty());
        assert(first + second =~= Seq::<char>::empty());
    }
}

/// What is said while an agent works is heard in its next turn, behind all that it would hear anyway,
/// in the order in which it was said; and it stays in the conversation if that is told anew each time.
pub proof fn law_steering_comes_last(state: LoopView, said: Seq<Seq<char>>)
    ensures
        ({
            let after = steered(state, said);
            &&& after.next_input.len() == state.next_input.len() + said.len()
            &&& forall|i: int|
                0 <= i < state.next_input.len() ==> #[trigger] after.next_input[i]
                    == state.next_input[i]
            &&& forall|i: int|
                0 <= i < said.len() ==> #[trigger] after.next_input[state.next_input.len() + i]
                    == (InputView::Message {
                    role: ModelMessageRole::User,
                    content: "[Steering]\n"@ + said[i],
                })
            &&& state.selection.conversation_continuation ==> after.transcript == state.transcript
            &&& !state.selection.conversation_continuation ==> after.transcript
                == state.transcript + after.next_input.skip(state.next_input.len() as int)
            &&& after == (LoopView {
                next_input: after.next_input,
                transcript: after.transcript,
                ..state
            })
        }),
{
    let after = steered(state, said);
    assert(after.next_input.skip(state.next_input.len() as int)
        =~= crate::agent_turn::steering_inputs(said));
}

/// A conversation that waited for an approval goes on only with the model that it was held with; with
/// another one it waits on, as it was.
pub proof fn law_conversations_stay_with_their_model(
    s: AppView,
    pending: PendingModelView,
    selection: SelectionView,
)
    ensures
        ({
            let (after, done) = go_on_with(s, pending, selection);
            let before = pending.state.selection;
            let calls = pending.batch.calls;
            &&& done is Done <==> before.provider_id == selection.provider_id && before.model_id
                == selection.model_id
            &&& done is Done ==> after == s
            &&& done is Failed && calls.len() > 0 && calls[0].invocation_id is Some
                ==> after.pending_model == s.pending_model.insert(
                calls[0].invocation_id->Some_0,
                pending,
            )
            &&& after == (AppView { pending_model: after.pending_model, ..s })
        }),
{
}

/// Of a call that was completed the conversation keeps the result, behind everything else; where the
/// conversation is told anew each time it keeps the call before it. The call is done, and the next one
/// is the one behind it.
pub proof fn law_results_stay_in_the_conversation(
    s: AppView,
    l: LoopCallsView,
    mission: Seq<char>,
    run: Option<Seq<char>>,
    invocation: InvocationView,
)
    requires
        l.batch.calls.len() > 0,
    ensures
        ({
            let (after, done) = settle_first(s, l, mission, run, invocation);
            let call = l.batch.calls[0].call;
            &&& done is Done <==> invocation.status is Completed && invocation.result is Some
            &&& done matches Outcome::Done(next) ==> {
                let result = InputView::ToolResult {
                    call_id: call.call_id,
                    output: invocation.result->Some_0,
                };
                let asked = InputView::ToolCall {
                    call_id: call.call_id,
                    name: call.name,
                    arguments: call.arguments,
                };
                &&& after == s
                &&& next.batch.calls.len() == l.batch.calls.len() - 1
                &&& forall|i: int|
                    0 <= i < next.batch.calls.len() ==> #[trigger] next.batch.calls[i]
                        == l.batch.calls[i + 1]
                &&& next.batch.response_id == l.batch.response_id
                &&& if l.state.selection.conversation_continuation {
                    next.batch.results == l.batch.results + seq![result] && next.state == l.state
                } else {
                    next.batch.results == l.batch.results && next.state == (LoopView {
                        transcript: l.state.transcript + seq![asked, result],
                        ..l.state
                    })
                }
            }
        }),
{
    if invocation.result is Some {
        let call = l.batch.calls[0].call;
        let result = InputView::ToolResult {
            call_id: call.call_id,
            output: invocation.result->Some_0,
        };
        let asked = InputView::ToolCall {
            call_id: call.call_id,
            name: call.name,
            arguments: call.arguments,
        };
        assert(l.batch.results.push(result) =~= l.batch.results + seq![result]);
        assert(l.state.transcript.push(asked).push(result) =~= l.state.transcript + seq![
            asked,
            result,
        ]);
    }
}

/// A call that has to be approved puts the conversation aside under the name of the call, with all
/// calls that are left, the one that waits first. Nothing else changes; the run is told what it waits
/// for.
pub proof fn law_waiting_conversations_are_put_aside(
    s: AppView,
    l: LoopCallsView,
    mission: Seq<char>,
    run: Seq<char>,
    invocation: InvocationView,
)
    requires
        l.batch.calls.len() > 0,
        invocation.status is WaitingApproval,
        invocation.approval_request_id is Some,
    ensures
        ({
            let (after, done) = settle_first(s, l, mission, Some(run), invocation);
            let p = after.pending_model[invocation.id];
            &&& done == Outcome::<LoopCallsView>::Failed(
                ErrorView {
                    code: "tool-approval-required"@,
                    message: "invocation="@ + invocation.id,
                },
            )
            &&& after == (AppView { pending_model: s.pending_model.insert(invocation.id, p), ..s })
            &&& p.mission_id == mission && p.run_id == run && p.state == l.state
            &&& p.batch.response_id == l.batch.response_id && p.batch.results == l.batch.results
            &&& p.batch.calls.len() == l.batch.calls.len()
            &&& p.batch.calls[0] == (PendingCallView {
                call: l.batch.calls[0].call,
                invocation_id: Some(invocation.id),
            })
            &&& forall|i: int|
                0 < i < l.batch.calls.len() ==> #[trigger] p.batch.calls[i] == l.batch.calls[i]
        }),
{
}

/// When all calls are made, the model hears all their results: what was not told before, or, where it
/// is told anew each time, the whole conversation.
pub proof fn law_the_model_hears_all_results(l: LoopCallsView)
    ensures
        ({
            let state = batch_done(l);
            &&& l.state.selection.conversation_continuation ==> state.next_input == l.batch.results
                && state.previous_response_id == l.batch.response_id
            &&& !l.state.selection.conversation_continuation ==> state.next_input
                == l.state.transcript && state.previous_response_id is None
            &&& state == (LoopView {
                next_input: state.next_input,
                previous_response_id: state.previous_response_id,
                ..l.state
            })
        }),
{
}

/// Only a call that writes a file holds it meanwhile, and it can only be made by a run, with a path,
/// and where files can be held.
pub proof fn law_writers_hold_their_file(
    s: AppView,
    tool: Seq<char>,
    arguments: JsonView,
    run: Option<Seq<char>>,
)
    ensures
        ({
            let path = text_value(member_of(Some(arguments), "path"@));
            match lease_path(s, tool, arguments, run) {
                Outcome::Done(None) => tool != "files.write"@,
                Outcome::Done(Some(p)) => tool == "files.write"@ && run is Some && path == Some(p)
                    && s.file_leases is Some,
                Outcome::Failed(e) => tool == "files.write"@ && e.code == if run is None {
                    "file-lease-run-missing"@
                } else if path is None {
                    "file-lease-path-missing"@
                } else {
                    "file-lease-runtime-missing"@
                } && (run is None || path is None || s.file_leases is None),
            }
        }),
{
}

/// The calls of a batch are made one after the other, each looked up instead if it was made before;
/// a file that one writes is held first. When none is left the next turn comes, but not after the
/// last.
pub proof fn law_calls_are_made_in_turn(
    s: AppView,
    who: TalkView,
    l: LoopCallsView,
    limited: bool,
)
    ensures
        ({
            let step = next_call_step(s, who, l, limited);
            let first = l.batch.calls[0];
            &&& l.batch.calls.len() == 0 ==> {
                &&& step is Done <==> !limited || l.state.next_turn < 8
                &&& step matches Outcome::Done((phase, action)) ==> action is Proceed && phase == (
                TalkPhaseView::Turning { state: batch_done(l) })
            }
            &&& l.batch.calls.len() > 0 ==> match step {
                Outcome::Failed(e) => first.call.name == "files.write"@,
                Outcome::Done((phase, action)) => {
                    &&& first.call.name == "files.write"@ ==> phase == (TalkPhaseView::Leasing {
                        state: l.state,
                        batch: l.batch,
                        limited,
                    }) && action is Resolve && Some(action->path) == text_value(
                        member_of(Some(first.call.arguments), "path"@),
                    )
                    &&& first.call.name != "files.write"@ ==> phase == (TalkPhaseView::Invoking {
                        state: l.state,
                        batch: l.batch,
                        limited,
                        lease: None,
                    }) && action == (match first.invocation_id {
                        Some(id) => TalkActionView::Lookup { invocation_id: id },
                        None => TalkActionView::Invoke { call: first.call },
                    })
                },
            }
        }),
{
}

/// A lease that was got for a call is given back when the call was made, whatever came of it; what the
/// call has found out is noted if it was completed. A failure of the call is the failure of the run.
pub proof fn law_calls_are_noted(
    s: AppView,
    who: TalkView,
    phase: TalkPhaseView,
    reply: TalkReplyView,
    now: i64,
)
    requires
        phase is Invoking,
        reply is Invoked || reply is CallFailed,
        phase->Invoking_batch.calls.len() > 0,
    ensures
        ({
            let (after, done) = talk_step(s, who, phase, reply, now);
            let lease = phase->Invoking_lease;
            let call = phase->Invoking_batch.calls[0].call;
            &&& lease is None ==> after == s
            &&& after == (AppView { file_leases: after.file_leases, ..s })
            &&& reply matches TalkReplyView::CallFailed { error } ==> done == Outcome::<
                (TalkPhaseView, TalkActionView),
            >::Failed(error)
            &&& (reply is Invoked && lease is None) ==> done is Done
            &&& done matches Outcome::Done((next, action)) ==> {
                let invocation = reply->invocation;
                &&& reply is Invoked
                &&& next == (TalkPhaseView::Noting {
                    state: phase->Invoking_state,
                    batch: phase->Invoking_batch,
                    limited: phase->Invoking_limited,
                    invocation,
                })
                &&& action is Note
                &&& action->fact is Some <==> invocation.status is Completed && invocation.result
                    is Some
                &&& action->fact matches Some(f) ==> f.tool == call.name && f.arguments
                    == call.arguments && Some(f.result) == invocation.result
            }
        }),
{
}

proof fn lemma_pending(
    pending: Map<Seq<char>, PendingModelView>,
    mission: Seq<char>,
    run: Seq<char>,
    n: int,
)
    requires
        0 <= n <= in_order(pending.dom()).len(),
    ensures
        ({
            let keys = in_order(pending.dom());
            match pending_key(pending, mission, run, n) {
                None => forall|i: int|
                    0 <= i < n ==> pending[#[trigger] keys[i]].mission_id != mission
                        || pending[keys[i]].run_id != run,
                Some(key) => exists|i: int|
                    0 <= i < n && #[trigger] keys[i] == key && pending[key].mission_id == mission
                        && pending[key].run_id == run,
            }
        }),
    decreases n,
{
    if n > 0 {
        lemma_pending(pending, mission, run, n - 1);
        let keys = in_order(pending.dom());
        if let Some(key) = pending_key(pending, mission, run, n) {
            if pending_key(pending, mission, run, n - 1) is None {
                assert(keys[n - 1] == key);
            }
        }
    }
}

/// A run goes on with a conversation of its own that was put aside, if there is one and it is with the
/// selected model: the conversation is taken out and the call that it waited for is made first. If
/// there is none, there is nothing to go on with.
pub proof fn law_runs_go_on_where_they_waited(
    s: AppView,
    who: TalkView,
    selection: SelectionView,
)
    requires
        enumerates(in_order(s.pending_model.dom()), s.pending_model.dom()),
    ensures
        ({
            let (after, done) = resume_talk(s, who, selection);
            let waits = |key: Seq<char>|
                s.pending_model.contains_key(key) && s.pending_model[key].mission_id
                    == who.mission_id && Some(s.pending_model[key].run_id) == who.run_id;
            &&& done matches Outcome::Done(None) ==> after == s && forall|key: Seq<char>|
                !#[trigger] waits(key)
            &&& done matches Outcome::Done(Some(step)) ==> exists|key: Seq<char>|
                {
                    let p = s.pending_model[key];
                    &&& #[trigger] waits(key)
                    &&& p.state.selection.provider_id == selection.provider_id
                    &&& p.state.selection.model_id == selection.model_id
                    &&& after == (AppView { pending_model: s.pending_model.remove(key), ..s })
                    &&& Outcome::Done(step) == next_call_step(
                        after,
                        who,
                        LoopCallsView { state: p.state, batch: p.batch },
                        false,
                    )
                }
        }),
{
    let keys = in_order(s.pending_model.dom());
    let waits = |key: Seq<char>|
        s.pending_model.contains_key(key) && s.pending_model[key].mission_id == who.mission_id
            && Some(s.pending_model[key].run_id) == who.run_id;
    if let Some(run) = who.run_id {
        lemma_pending(s.pending_model, who.mission_id, run, keys.len() as int);
        match pending_of(s, who.mission_id, run) {
            None => {
                assert forall|key: Seq<char>| !#[trigger] waits(key) by {
                    if waits(key) {
                        assert(s.pending_model.dom().contains(key));
                        assert(keys.contains(key));
                        let i = keys.index_of(key);
                        assert(keys[i] == key);
                    }
                }
            },
            Some(key) => {
                assert(keys.contains(key));
                assert(s.pending_model.dom().contains(key));
                assert(waits(key));
            },
        }
    } else {
        assert forall|key: Seq<char>| !#[trigger] waits(key) by {}
    }
}

/// A file that was written is named once among those that were, and no other call names one.
pub proof fn law_written_files_are_named_once(
    files: Seq<Seq<char>>,
    tool: Seq<char>,
    output: JsonView,
    file: Seq<char>,
)
    ensures
        ({
            let after = with_written(files, tool, output);
            let path = text_value(member_of(Some(output), "path"@));
            &&& after.contains(file) <==> files.contains(file) || (tool == "files.write"@ && path
                == Some(file))
            &&& files.no_duplicates() ==> after.no_duplicates()
            &&& after.len() <= files.len() + 1
            &&& forall|i: int| 0 <= i < files.len() ==> #[trigger] after[i] == files[i]
        }),
{
    let after = with_written(files, tool, output);
    if after.len() > files.len() {
        assert(after[files.len() as int] == after.last());
        if files.contains(file) {
            let i = files.index_of(file);
            assert(after[i] == file);
        }
    }
}

/// In a team, too, the result of a call that was completed stands in the conversation behind
/// everything else, and the next call is the one behind it. A call that has to be approved changes
/// nothing: the agent waits for it with all that are left behind it. Any other call fails the turn.
pub proof fn law_teams_settle_their_calls(p: ParallelCallsView, invocation: InvocationView)
    requires
        0 <= p.next < p.calls.len(),
    ensures
        ({
            let (after, done) = settle_call(p, invocation);
            let call = p.calls[p.next];
            let c = p.continuation;
            &&& done is Failed ==> after == p && !(invocation.status is WaitingApproval) && !(
            invocation.status is Completed && invocation.result is Some)
            &&& done matches Outcome::Done(Some(w)) ==> {
                &&& after == p && invocation.status is WaitingApproval
                &&& w.invocation == invocation && w.continuation == c && w.waiting_call == call
                &&& w.remaining_calls.len() == p.calls.len() - p.next - 1
                &&& forall|i: int|
                    0 <= i < w.remaining_calls.len() ==> #[trigger] w.remaining_calls[i]
                        == p.calls[p.next + 1 + i]
            }
            &&& done matches Outcome::Done(None) ==> {
                let result = InputView::ToolResult {
                    call_id: call.call_id,
                    output: invocation.result->Some_0,
                };
                let asked = InputView::ToolCall {
                    call_id: call.call_id,
                    name: call.name,
                    arguments: call.arguments,
                };
                &&& invocation.status is Completed && invocation.result is Some
                &&& after.next == p.next + 1 && after.calls == p.calls && after.request == p.request
                &&& after.continuation.next_input == if c.conversation_continuation {
                    c.next_input + seq![result]
                } else {
                    c.next_input
                }
                &&& after.continuation.transcript == if c.conversation_continuation {
                    c.transcript
                } else {
                    c.transcript + seq![asked, result]
                }
                &&& after.continuation == (ContinuationView {
                    next_input: after.continuation.next_input,
                    transcript: after.continuation.transcript,
                    changed_files: with_written(
                        c.changed_files,
                        call.name,
                        invocation.result->Some_0,
                    ),
                    ..c
                })
            }
        }),
{
    if invocation.result is Some {
        let call = p.calls[p.next];
        let result = InputView::ToolResult {
            call_id: call.call_id,
            output: invocation.result->Some_0,
        };
        let asked = InputView::ToolCall {
            call_id: call.call_id,
            name: call.name,
            arguments: call.arguments,
        };
        assert(p.continuation.next_input.push(result) =~= p.continuation.next_input + seq![result]);
        assert(p.continuation.transcript.push(asked).push(result) =~= p.continuation.transcript
            + seq![asked, result]);
    }
}

/// An agent of a team goes on with what it has not told the model yet, or with the whole conversation
/// if it tells it anew each time; what it was told in between it has heard already.
pub proof fn law_teams_go_on_with_their_conversation(
    request: RequestView,
    c: ContinuationView,
    y: YieldView,
)
    ensures
        ({
            let after = continued_request(request, c);
            let told = after.model_continuation->Some_0;
            &&& after.model_continuation is Some && after.steering_messages.len() == 0
            &&& after == (RequestView {
                model_continuation: after.model_continuation,
                steering_messages: after.steering_messages,
                ..request
            })
            &&& c.conversation_continuation ==> told == c
            &&& !c.conversation_continuation ==> told == (ContinuationView {
                previous_response_id: None,
                next_input: c.transcript,
                ..c
            })
        }),
        y.continuation.conversation_continuation ==> yielded(y).previous_response_id
            == y.response_id && yielded(y).next_input.len() == 0 && yielded(y).transcript
            == y.continuation.transcript && yielded(y).output == y.continuation.output,
        !y.continuation.conversation_continuation ==> yielded(y) == y.continuation,
{
}

/// A turn of a conversation asks the model with what stands in it and what was said meanwhile; each
/// thing that was said is shown once.
pub proof fn law_turns_ask_with_what_was_said(
    s: AppView,
    who: TalkView,
    state: LoopView,
    cancelled: bool,
    token: Seq<char>,
    now: i64,
)
    ensures
        ({
            let (after, done) = turn_step(s, who, state, cancelled, token, now);
            &&& after == (AppView { agent_messages: after.agent_messages, ..s })
            &&& state.next_turn >= 8 || cancelled ==> done is Failed && after == s
            &&& done matches Outcome::Done((phase, action)) ==> {
                let told = phase->Listening_state;
                &&& phase is Listening && phase->Listening_turn == empty_turn()
                &&& action is Ask && action->request == loop_request(told)
                &&& told.next_input.len() == state.next_input.len() + action->events.len()
                &&& forall|i: int|
                    0 <= i < state.next_input.len() ==> #[trigger] told.next_input[i]
                        == state.next_input[i]
                &&& told.selection == state.selection && told.output == state.output
                    && told.next_turn == state.next_turn && told.tools == state.tools
                    && told.canonical_context == state.canonical_context
                    && told.previous_response_id == state.previous_response_id
            }
        }),
{
}

/// A conversation is over with the answer of the model; if it asks for calls they can only be made
/// where there are tools.
pub proof fn law_answers_end_conversations(
    s: AppView,
    who: TalkView,
    state: LoopView,
    turn: LoopTurnView,
)
    ensures
        ({
            let done = ended_step(s, who, state, turn);
            &&& turn.completed && turn.calls.len() == 0 && !is_blank_text(state.output + turn.text)
                ==> done == Outcome::Done(
                (
                    TalkPhaseView::Over,
                    TalkActionView::Answer { output: state.output + turn.text },
                ),
            )
            &&& !turn.completed ==> done is Failed
            &&& turn.calls.len() > 0 && !s.tools_ready ==> done is Failed
            &&& turn.calls.len() == 0 && is_blank_text(state.output + turn.text) ==> done is Failed
            &&& done matches Outcome::Done((phase, _)) ==> (phase is Over <==> turn.calls.len()
                == 0)
        }),
{
}

} // verus!
