//! What holds of a turn of an agent, over the events of the turn as they came.

use vstd::prelude::*;

use crate::agent_turn::{
    present, role_contract, starting_state, steering_inputs, turn_events, turn_request, turn_result,
    TurnView,
};
use crate::error::{ErrorView, Outcome};
use crate::exchange::{
    AgentExecutionMetrics, CallView, ContinuationView, InputView, ModelEventView, ModelMessageRole,
    ModelUsage, SelectionView,
};
use crate::execution::RequestView;
use crate::text::{is_blank_text, joined};

verus! {

/// The calls that were asked for, in the order in which they were.
pub open spec fn calls_in(events: Seq<ModelEventView>) -> Seq<CallView> {
    events.filter(|e: ModelEventView| e is ToolCall).map_values(|e: ModelEventView| e->call)
}

/// All that was said, one piece after the other.
pub open spec fn text_in(events: Seq<ModelEventView>) -> Seq<char> {
    events.filter(|e: ModelEventView| e is TextDelta).map_values(
        |e: ModelEventView| e->TextDelta_delta,
    ).flatten()
}

/// How much was used according to all that was told of it.
pub open spec fn used_in(events: Seq<ModelEventView>, what: spec_fn(ModelUsage) -> u64) -> int {
    events.filter(|e: ModelEventView| e is Usage).fold_left(
        0int,
        |sum: int, e: ModelEventView| sum + what(e->usage),
    )
}

/// An event after which nothing is read.
pub open spec fn breaks(event: ModelEventView) -> bool {
    event is Incomplete || event is Failed
}

pub open spec fn unbroken(events: Seq<ModelEventView>) -> bool {
    forall|i: int| 0 <= i < events.len() ==> !breaks(#[trigger] events[i])
}

pub open spec fn is_first_break(events: Seq<ModelEventView>, i: int) -> bool {
    &&& 0 <= i < events.len()
    &&& breaks(events[i])
    &&& forall|j: int| 0 <= j < i ==> !breaks(#[trigger] events[j])
}

/// The answer is the one that was begun last.
pub open spec fn is_answer(events: Seq<ModelEventView>, id: Option<Seq<char>>) -> bool {
    match id {
        Some(id) => exists|i: int|
            0 <= i < events.len() && #[trigger] events[i] == (ModelEventView::Started {
                response_id: id,
            }) && forall|j: int| i < j < events.len() ==> !(#[trigger] events[j] is Started),
        None => forall|j: int| 0 <= j < events.len() ==> !(#[trigger] events[j] is Started),
    }
}

/// A count that stops at the greatest number that can be held.
pub open spec fn held_at(limit: int, n: int) -> int {
    if n < limit {
        n
    } else {
        limit
    }
}

proof fn lemma_calls(before: Seq<ModelEventView>, event: ModelEventView)
    ensures
        calls_in(before.push(event)) == if event is ToolCall {
            calls_in(before).push(event->call)
        } else {
            calls_in(before)
        },
{
    reveal(Seq::filter);
    assert(before.push(event).drop_last() =~= before);
    assert(calls_in(before.push(event)) =~= if event is ToolCall {
        calls_in(before).push(event->call)
    } else {
        calls_in(before)
    });
}

proof fn lemma_text(before: Seq<ModelEventView>, event: ModelEventView)
    ensures
        text_in(before.push(event)) == if event is TextDelta {
            text_in(before) + event->TextDelta_delta
        } else {
            text_in(before)
        },
{
    reveal(Seq::filter);
    assert(before.push(event).drop_last() =~= before);
    let told = before.filter(|e: ModelEventView| e is TextDelta);
    let pieces = told.map_values(|e: ModelEventView| e->TextDelta_delta);
    if event is TextDelta {
        assert(told.push(event).map_values(|e: ModelEventView| e->TextDelta_delta) =~= pieces.push(
            event->TextDelta_delta,
        ));
        pieces.lemma_flatten_push(event->TextDelta_delta);
    }
}

proof fn lemma_used(
    before: Seq<ModelEventView>,
    event: ModelEventView,
    what: spec_fn(ModelUsage) -> u64,
)
    ensures
        used_in(before.push(event), what) == used_in(before, what) + if event is Usage {
            what(event->usage) as int
        } else {
            0
        },
{
    reveal(Seq::filter);
    reveal(Seq::fold_left);
    assert(before.push(event).drop_last() =~= before);
    let told = before.filter(|e: ModelEventView| e is Usage);
    assert(told.push(event).drop_last() =~= told);
}

proof fn lemma_nothing(what: spec_fn(ModelUsage) -> u64)
    ensures
        calls_in(Seq::empty()) == Seq::<CallView>::empty(),
        text_in(Seq::empty()) == Seq::<char>::empty(),
        used_in(Seq::empty(), what) == 0,
{
    reveal(Seq::filter);
    reveal(Seq::fold_left);
    assert(calls_in(Seq::empty()) =~= Seq::<CallView>::empty());
}

pub open spec fn input_tokens() -> spec_fn(ModelUsage) -> u64 {
    |u: ModelUsage| u.input_tokens
}

pub open spec fn output_tokens() -> spec_fn(ModelUsage) -> u64 {
    |u: ModelUsage| u.output_tokens
}

pub open spec fn reasoning_tokens() -> spec_fn(ModelUsage) -> u64 {
    |u: ModelUsage| u.reasoning_tokens
}

pub open spec fn cached_input_tokens() -> spec_fn(ModelUsage) -> u64 {
    |u: ModelUsage| u.cached_input_tokens
}

pub open spec fn is_turn(
    metrics: AgentExecutionMetrics,
    events: Seq<ModelEventView>,
    t: TurnView,
) -> bool {
    let most = u64::MAX as int;
    &&& t.calls == calls_in(events)
    &&& t.text == text_in(events)
    &&& t.completed <==> events.contains(ModelEventView::Completed)
    &&& is_answer(events, t.response_id)
    &&& t.input_tokens == held_at(most, metrics.input_tokens + used_in(events, input_tokens()))
    &&& t.output_tokens == held_at(most, metrics.output_tokens + used_in(events, output_tokens()))
    &&& t.reasoning_tokens == held_at(
        most,
        metrics.reasoning_tokens + used_in(events, reasoning_tokens()),
    )
    &&& t.cached_input_tokens == held_at(
        most,
        metrics.cached_input_tokens + used_in(events, cached_input_tokens()),
    )
}

proof fn lemma_answer(before: Seq<ModelEventView>, event: ModelEventView, id: Option<Seq<char>>)
    requires
        is_answer(before, id),
    ensures
        is_answer(
            before.push(event),
            if event is Started {
                Some(event->response_id)
            } else {
                id
            },
        ),
{
    let events = before.push(event);
    if event is Started {
        assert(events[before.len() as int] == event);
    } else if let Some(given) = id {
        let i = choose|i: int|
            0 <= i < before.len() && #[trigger] before[i] == (ModelEventView::Started {
                response_id: given,
            }) && forall|j: int| i < j < before.len() ==> !(#[trigger] before[j] is Started);
        assert(events[i] == before[i]);
        assert forall|j: int| i < j < events.len() implies !(#[trigger] events[j] is Started) by {
            if j < before.len() {
                assert(events[j] == before[j]);
            }
        }
    } else {
        assert forall|j: int| 0 <= j < events.len() implies !(#[trigger] events[j] is Started) by {
            if j < before.len() {
                assert(events[j] == before[j]);
            }
        }
    }
}

proof fn lemma_turn(metrics: AgentExecutionMetrics, events: Seq<ModelEventView>)
    ensures
        match turn_events(metrics, events) {
            Outcome::Done(t) => unbroken(events) && is_turn(metrics, events, t),
            Outcome::Failed(e) => exists|i: int|
                #![trigger events[i]]
                is_first_break(events, i) && match events[i] {
                    ModelEventView::Incomplete { reason } => e == (ErrorView {
                        code: "agent-model-incomplete"@,
                        message: if reason is Some {
                            reason->Some_0
                        } else {
                            "unknown"@
                        },
                    }),
                    ModelEventView::Failed { code, message } => e == (ErrorView { code, message }),
                    _ => false,
                },
        },
    decreases events.len(),
{
    if events.len() == 0 {
        assert(events =~= Seq::empty());
        lemma_nothing(input_tokens());
        lemma_nothing(output_tokens());
        lemma_nothing(reasoning_tokens());
        lemma_nothing(cached_input_tokens());
    } else {
        let before = events.drop_last();
        let event = events.last();
        assert(before.push(event) =~= events);
        lemma_turn(metrics, before);
        match turn_events(metrics, before) {
            Outcome::Failed(_) => {
                assert(exists|i: int| #![trigger before[i]] is_first_break(before, i));
                let i = choose|i: int| #![trigger before[i]] is_first_break(before, i);
                assert(events[i] == before[i]);
                assert forall|j: int| 0 <= j < i implies !breaks(#[trigger] events[j]) by {
                    assert(events[j] == before[j]);
                }
                assert(is_first_break(events, i));
                assert forall|k: int| is_first_break(before, k) implies k == i by {
                    if k < i {
                        assert(!breaks(before[k]));
                    } else if i < k {
                        assert(!breaks(before[i]));
                    }
                }
            },
            Outcome::Done(t) => {
                let n = before.len() as int;
                assert(events[n] == event);
                assert forall|j: int| 0 <= j < n implies !breaks(#[trigger] events[j]) by {
                    assert(events[j] == before[j]);
                }
                if breaks(event) {
                    assert(is_first_break(events, n));
                } else {
                    lemma_calls(before, event);
                    lemma_text(before, event);
                    lemma_used(before, event, input_tokens());
                    lemma_used(before, event, output_tokens());
                    lemma_used(before, event, reasoning_tokens());
                    lemma_used(before, event, cached_input_tokens());
                    lemma_answer(before, event, t.response_id);
                    let completed = ModelEventView::Completed;
                    if before.contains(completed) {
                        let k = before.index_of(completed);
                        assert(events[k] == completed);
                    }
                    if events.contains(completed) && event != completed {
                        let k = events.index_of(completed);
                        assert(before[k] == completed);
                    }
                    assert forall|j: int| 0 <= j < events.len() implies !breaks(
                        #[trigger] events[j],
                    ) by {}
                }
            },
        }
    }
}

/// An agent that is done with a turn hands back all that its model asked for and said. The calls that
/// it waits for are those of all events that ask for one, in their order and each of them once; what
/// it says is what it said before and all pieces of the turn behind it; and what was used, the calls
/// and the turn are added to what it counted before.
pub proof fn law_turns_hand_back_what_the_model_said(
    state: ContinuationView,
    run_id: Seq<char>,
    events: Seq<ModelEventView>,
)
    requires
        events.len() <= u64::MAX,
        turn_result(state, run_id, events) is Done,
    ensures
        ({
            let r = turn_result(state, run_id, events)->Done_0;
            let calls = calls_in(events);
            let before = state.metrics;
            let most = u64::MAX as int;
            &&& r.summary == state.output + text_in(events)
            &&& r.metrics.turns == held_at(u32::MAX as int, before.turns + 1)
            &&& r.metrics.tool_calls == held_at(most, before.tool_calls + calls.len())
            &&& r.metrics.input_tokens == held_at(
                most,
                before.input_tokens + used_in(events, input_tokens()),
            )
            &&& r.metrics.output_tokens == held_at(
                most,
                before.output_tokens + used_in(events, output_tokens()),
            )
            &&& r.metrics.reasoning_tokens == held_at(
                most,
                before.reasoning_tokens + used_in(events, reasoning_tokens()),
            )
            &&& r.metrics.cached_input_tokens == held_at(
                most,
                before.cached_input_tokens + used_in(events, cached_input_tokens()),
            )
            &&& r.metrics.elapsed_millis == before.elapsed_millis
            &&& r.artifacts.len() == 0 && r.evidence.len() == 0 && r.warnings.len() == 0
                && r.errors.len() == 0 && r.follow_up.len() == 0
            &&& match r.model_tool_yield {
                Some(y) => {
                    &&& y.calls == calls
                    &&& calls.len() > 0
                    &&& r.status == "waiting-tool"@
                    &&& r.confidence == 0x3f00_0000
                    &&& r.changed_files.len() == 0
                    &&& is_answer(events, y.response_id)
                },
                None => {
                    &&& calls.len() == 0
                    &&& r.status == "completed"@
                    &&& r.confidence == 0x3f4c_cccd
                    &&& r.changed_files == state.changed_files
                    &&& !is_blank_text(r.summary)
                },
            }
        }),
{
    lemma_turn(state.metrics, events);
    let calls = calls_in(events);
    assert(calls.len() <= events.len()) by {
        events.lemma_filter_len(|e: ModelEventView| e is ToolCall);
    }
}

/// An agent that waits for calls can go on where it stopped: it knows what it said and what it has
/// counted, it has one turn less, and it keeps all else that it was given. A model that does not
/// keep the conversation itself is reminded of what it said in the turn, if it said something.
pub proof fn law_waiting_agents_can_go_on(
    state: ContinuationView,
    run_id: Seq<char>,
    events: Seq<ModelEventView>,
)
    requires
        turn_result(state, run_id, events) is Done,
        turn_result(state, run_id, events)->Done_0.model_tool_yield is Some,
    ensures
        ({
            let r = turn_result(state, run_id, events)->Done_0;
            let after = r.model_tool_yield->Some_0.continuation;
            let said = text_in(events);
            &&& after.output == r.summary
            &&& after.metrics == r.metrics
            &&& after.next_turn == held_at(u8::MAX as int, state.next_turn + 1)
            &&& after.max_turns == state.max_turns
            &&& after.instructions == state.instructions
            &&& after.next_input == state.next_input
            &&& after.tools == state.tools
            &&& after.previous_response_id == state.previous_response_id
            &&& after.conversation_continuation == state.conversation_continuation
            &&& after.changed_files == state.changed_files
            &&& state.conversation_continuation || said.len() == 0 ==> after.transcript
                == state.transcript
            &&& !state.conversation_continuation && said.len() > 0 ==> after.transcript
                == state.transcript + seq![
                InputView::Message { role: ModelMessageRole::Assistant, content: said },
            ]
        }),
{
    lemma_turn(state.metrics, events);
    let said = text_in(events);
    assert(state.transcript.push(
        InputView::Message { role: ModelMessageRole::Assistant, content: said },
    ) =~= state.transcript + seq![
        InputView::Message { role: ModelMessageRole::Assistant, content: said },
    ]);
}

/// A turn comes to something if its model completed it without breaking off and either asked for a
/// call or the agent has said something that can be read; and if not, the reason is told. What breaks
/// it off first is told before anything else.
pub proof fn law_turns_fail_for_a_reason(
    state: ContinuationView,
    run_id: Seq<char>,
    events: Seq<ModelEventView>,
)
    ensures
        ({
            let completed = events.contains(ModelEventView::Completed);
            let silent = calls_in(events).len() == 0 && is_blank_text(
                state.output + text_in(events),
            );
            match turn_result(state, run_id, events) {
                Outcome::Done(_) => unbroken(events) && completed && !silent,
                Outcome::Failed(e) => if unbroken(events) {
                    if completed {
                        silent && e == (ErrorView {
                            code: "agent-model-empty-result"@,
                            message: run_id,
                        })
                    } else {
                        e == (ErrorView { code: "agent-model-no-completion"@, message: run_id })
                    }
                } else {
                    exists|i: int|
                        #![trigger events[i]]
                        is_first_break(events, i) && match events[i] {
                            ModelEventView::Incomplete { reason } => e == (ErrorView {
                                code: "agent-model-incomplete"@,
                                message: if reason is Some {
                                    reason->Some_0
                                } else {
                                    "unknown"@
                                },
                            }),
                            ModelEventView::Failed { code, message } => e == (ErrorView {
                                code,
                                message,
                            }),
                            _ => false,
                        }
                },
            }
        }),
{
    lemma_turn(state.metrics, events);
}

/// What is written before a part of instructions that is there.
pub open spec fn below(part: Seq<char>) -> Seq<char> {
    if part.len() == 0 {
        Seq::empty()
    } else {
        "\n"@ + part
    }
}

/// A model is asked with what the agent was given. One that begins is told its role and its context,
/// and asked for the objective; one that goes on is asked for what it still has to answer. In either
/// case all that was said to it stands behind that, in its order.
pub proof fn law_models_are_asked_for_what_was_given(
    request: RequestView,
    selection: SelectionView,
    timeout_millis: u64,
)
    ensures
        ({
            let state = starting_state(request, selection.conversation_continuation);
            let asked = turn_request(state, selection, timeout_millis);
            let told = request.steering_messages;
            let first = match request.model_continuation {
                Some(given) => given.next_input,
                None => seq![
                    InputView::Message {
                        role: ModelMessageRole::User,
                        content: request.contract.objective,
                    },
                ],
            };
            &&& asked.input.len() == first.len() + told.len()
            &&& asked.input.subrange(0, first.len() as int) == first
            &&& forall|i: int|
                0 <= i < told.len() ==> asked.input[first.len() + i] == (InputView::Message {
                    role: ModelMessageRole::User,
                    content: "[Steering]\n"@ + #[trigger] told[i],
                })
            &&& asked.input == state.next_input
            &&& asked.instructions == state.instructions
            &&& asked.tools == state.tools
            &&& asked.model_id == selection.model_id
            &&& asked.reasoning == selection.reasoning_requested
            &&& asked.previous_response_id == state.previous_response_id
            &&& asked.max_output_tokens == held_at(2048, selection.max_output_tokens as int)
            &&& asked.timeout_millis == timeout_millis
            &&& !asked.store
            &&& match request.model_continuation {
                Some(given) => {
                    &&& state.instructions == given.instructions
                    &&& state.tools == given.tools
                    &&& state.output == given.output
                    &&& state.metrics == given.metrics
                    &&& state.next_turn == given.next_turn && state.max_turns == given.max_turns
                    &&& state.changed_files == given.changed_files
                    &&& state.conversation_continuation == given.conversation_continuation
                    &&& state.previous_response_id == given.previous_response_id
                    &&& state.transcript.len() == given.transcript.len() + if given.conversation_continuation {
                        0
                    } else {
                        told.len()
                    }
                },
                None => {
                    &&& state.instructions == role_contract(request.contract.role) + below(
                        request.context.stable_instructions,
                    ) + below(request.context.dynamic_context)
                    &&& state.tools == request.model_tools
                    &&& state.transcript == asked.input
                    &&& state.output.len() == 0 && state.changed_files.len() == 0
                    &&& state.next_turn == 0 && state.max_turns == request.contract.max_turns
                    &&& state.conversation_continuation == selection.conversation_continuation
                    &&& state.previous_response_id is None
                    &&& state.metrics.turns == 0 && state.metrics.tool_calls == 0
                        && state.metrics.input_tokens == 0 && state.metrics.output_tokens == 0
                },
            }
        }),
{
    let state = starting_state(request, selection.conversation_continuation);
    let told = steering_inputs(request.steering_messages);
    match request.model_continuation {
        Some(given) => {
            assert((given.next_input + told).subrange(0, given.next_input.len() as int)
                =~= given.next_input);
        },
        None => {
            let first = seq![
                InputView::Message {
                    role: ModelMessageRole::User,
                    content: request.contract.objective,
                },
            ];
            assert((first + told).subrange(0, 1) =~= first);
            lemma_instructions(
                role_contract(request.contract.role),
                request.context.stable_instructions,
                request.context.dynamic_context,
            );
            lemma_role_contract(request.contract.role);
        },
    }
}

proof fn lemma_role_contract(role: crate::roles::AgentRole)
    ensures
        role_contract(role).len() > 0,
{
    reveal(role_contract);
    reveal_strlit("<role-contract>");
}

proof fn lemma_instructions(a: Seq<char>, b: Seq<char>, c: Seq<char>)
    ensures
        a.len() > 0 ==> joined(present(seq![a, b, c]), "\n"@) == a + below(b) + below(c),
{
    let parts = seq![a, b, c];
    assert(parts.drop_last() =~= seq![a, b]);
    assert(seq![a, b].drop_last() =~= seq![a]);
    assert(seq![a].drop_last() =~= Seq::<Seq<char>>::empty());
    reveal_with_fuel(present, 4);
    reveal_with_fuel(joined, 4);
    if a.len() > 0 {
        if b.len() > 0 && c.len() > 0 {
            assert(present(parts) =~= seq![a, b, c]);
            assert(joined(seq![a, b], "\n"@) == a + "\n"@ + b);
            assert(a + "\n"@ + b + "\n"@ + c =~= a + below(b) + below(c));
        } else if b.len() > 0 {
            assert(present(parts) =~= seq![a, b]);
            assert(a + "\n"@ + b =~= a + below(b) + below(c));
        } else if c.len() > 0 {
            assert(present(parts) =~= seq![a, c]);
            assert(seq![a, c].drop_last() =~= seq![a]);
            assert(a + "\n"@ + c =~= a + below(b) + below(c));
        } else {
            assert(present(parts) =~= seq![a]);
            assert(a =~= a + below(b) + below(c));
        }
    }
}

} // verus!
