//! The calls of one answer of an agent of a team, one after the other: until the agent can go on, or
//! has to wait for an approval.

use vstd::prelude::*;
use vstd::string::*;

use crate::application::{
    AppView, HarnessApplication, InvocationView, ToolInvocation, WaitingParallelTool,
    WaitingToolView,
};
use crate::conversation::{call_fact, fact_of, FactView, ToolFact};
use crate::error::{failure, ApplicationError, ErrorView, Outcome};
use crate::exchange::{AgentToolCall, CallView};
use crate::execution::{AgentExecutionRequest, RequestView};
use crate::leases::{FileLease, LeaseView, SiteView, WriteSite};
use crate::mission::{EventView, HarnessEvent};
use crate::model::{option_view, Duplicate};
use crate::runs::set_response_step;
use crate::tool_calls::{
    acquire_lease_step, continued, continued_request, lease_path, release_lease_step, settle_call,
    tool_status, tool_status_event, ParallelCalls, ParallelCallsView,
};

verus! {

/// How far the calls of an answer have come.
pub enum CallsPhase {
    Leasing { calls: ParallelCalls },
    Invoking { calls: ParallelCalls, lease: Option<FileLease> },
    Noting { calls: ParallelCalls, invocation: ToolInvocation },
    Over,
}

pub enum CallsPhaseView {
    Leasing { calls: ParallelCallsView },
    Invoking { calls: ParallelCallsView, lease: Option<LeaseView> },
    Noting { calls: ParallelCallsView, invocation: InvocationView },
    Over,
}

impl View for CallsPhase {
    type V = CallsPhaseView;

    open spec fn view(&self) -> CallsPhaseView {
        match *self {
            CallsPhase::Leasing { calls } => CallsPhaseView::Leasing {
                calls: calls@,
            },
            CallsPhase::Invoking { calls, lease } => CallsPhaseView::Invoking {
                calls: calls@,
                lease: option_view(lease),
            },
            CallsPhase::Noting { calls, invocation } => CallsPhaseView::Noting {
                calls: calls@,
                invocation: invocation@,
            },
            CallsPhase::Over => CallsPhaseView::Over,
        }
    }
}

/// What came of an action.
pub enum CallsReply {
    Site { site: WriteSite },
    Invoked { invocation: ToolInvocation },
    CallFailed { error: ApplicationError },
    Noted,
}

pub enum CallsReplyView {
    Site { site: SiteView },
    Invoked { invocation: InvocationView },
    CallFailed { error: ErrorView },
    Noted,
}

impl View for CallsReply {
    type V = CallsReplyView;

    open spec fn view(&self) -> CallsReplyView {
        match *self {
            CallsReply::Site { site } => CallsReplyView::Site {
                site: site@,
            },
            CallsReply::Invoked { invocation } => CallsReplyView::Invoked {
                invocation: invocation@,
            },
            CallsReply::CallFailed { error } => CallsReplyView::CallFailed {
                error: error@,
            },
            CallsReply::Noted => CallsReplyView::Noted,
        }
    }
}

/// What is to be done next.
pub enum CallsAction {
    /// Find out where a path leads.
    Resolve { path: String },
    Invoke { call: AgentToolCall },
    /// Show the state of a call, and keep what it has found out.
    Note { event: HarnessEvent, fact: Option<ToolFact> },
    /// The agent goes on with this request.
    Resume { request: AgentExecutionRequest },
    /// The agent has to wait for an approval.
    Wait { request: AgentExecutionRequest, waiting: WaitingParallelTool },
}

pub enum CallsActionView {
    Resolve { path: Seq<char> },
    Invoke { call: CallView },
    Note { event: EventView, fact: Option<FactView> },
    Resume { request: RequestView },
    Wait { request: RequestView, waiting: WaitingToolView },
}

impl View for CallsAction {
    type V = CallsActionView;

    open spec fn view(&self) -> CallsActionView {
        match *self {
            CallsAction::Resolve { path } => CallsActionView::Resolve { path: path@ },
            CallsAction::Invoke { call } => CallsActionView::Invoke { call: call@ },
            CallsAction::Note { event, fact } => CallsActionView::Note {
                event: event@,
                fact: option_view(fact),
            },
            CallsAction::Resume { request } => CallsActionView::Resume { request: request@ },
            CallsAction::Wait { request, waiting } => CallsActionView::Wait {
                request: request@,
                waiting: waiting@,
            },
        }
    }
}

/// A call is under way.
pub open spec fn under_way(p: ParallelCallsView) -> bool {
    0 <= p.next < p.calls.len()
}

pub open spec fn calls_reply_fits(phase: CallsPhaseView, reply: CallsReplyView) -> bool {
    match phase {
        CallsPhaseView::Leasing { calls } => reply is Site && under_way(calls),
        CallsPhaseView::Invoking { calls, .. } => (reply is Invoked || reply is CallFailed)
            && under_way(calls),
        CallsPhaseView::Noting { calls, .. } => reply is Noted && under_way(calls),
        CallsPhaseView::Over => false,
    }
}

pub open spec fn calls_on(phase: CallsPhaseView, action: CallsActionView) -> Outcome<
    (CallsPhaseView, CallsActionView),
> {
    Outcome::Done((phase, action))
}

/// The next call; if there is none, the agent goes on.
pub open spec fn parallel_next(s: AppView, p: ParallelCallsView, now: i64) -> (
    AppView,
    Outcome<(CallsPhaseView, CallsActionView)>,
) {
    let run = p.request.contract.run_id;
    if p.next >= p.calls.len() {
        let (s1, r1) = set_response_step(
            s,
            run,
            continued(p.continuation).previous_response_id,
            now,
        );
        (
            s1,
            match r1 {
                Outcome::Failed(e) => Outcome::Failed(e),
                Outcome::Done(_) => calls_on(
                    CallsPhaseView::Over,
                    CallsActionView::Resume {
                        request: continued_request(p.request, p.continuation),
                    },
                ),
            },
        )
    } else {
        let call = p.calls[p.next];
        (
            s,
            match lease_path(s, call.name, call.arguments, Some(run)) {
                Outcome::Failed(e) => Outcome::Failed(e),
                Outcome::Done(Some(path)) => calls_on(
                    CallsPhaseView::Leasing { calls: p },
                    CallsActionView::Resolve { path },
                ),
                Outcome::Done(None) => calls_on(
                    CallsPhaseView::Invoking { calls: p, lease: None },
                    CallsActionView::Invoke { call },
                ),
            },
        )
    }
}

/// The first of the calls.
pub open spec fn parallel_first(s: AppView, p: ParallelCallsView, now: i64) -> (
    AppView,
    Outcome<(CallsPhaseView, CallsActionView)>,
) {
    if s.tools_ready {
        parallel_next(s, p, now)
    } else {
        (s, failure("tool-runtime-missing"@, "后台 Agent 请求了 Tool"@))
    }
}

/// One step of the calls of an answer.
pub open spec fn parallel_step(
    s: AppView,
    phase: CallsPhaseView,
    reply: CallsReplyView,
    now: i64,
) -> (AppView, Outcome<(CallsPhaseView, CallsActionView)>) {
    match phase {
        CallsPhaseView::Leasing { calls } => {
            let call = calls.calls[calls.next];
            let (s1, r1) = acquire_lease_step(
                s,
                call.name,
                call.arguments,
                Some(calls.request.contract.run_id),
                reply->site,
                now,
            );
            (
                s1,
                match r1 {
                    Outcome::Failed(e) => Outcome::Failed(e),
                    Outcome::Done(lease) => calls_on(
                        CallsPhaseView::Invoking { calls, lease },
                        CallsActionView::Invoke { call },
                    ),
                },
            )
        },
        CallsPhaseView::Invoking { calls, lease } => {
            let (s1, r1) = release_lease_step(s, lease);
            (
                s1,
                match r1 {
                    Outcome::Failed(e) => Outcome::Failed(e),
                    Outcome::Done(_) => match reply {
                        CallsReplyView::CallFailed { error } => Outcome::Failed(error),
                        _ => {
                            let call = calls.calls[calls.next];
                            let invocation = reply->invocation;
                            calls_on(
                                CallsPhaseView::Noting { calls, invocation },
                                CallsActionView::Note {
                                    event: tool_status(call.name, invocation),
                                    fact: fact_of(call, invocation),
                                },
                            )
                        },
                    },
                },
            )
        },
        CallsPhaseView::Noting { calls, invocation } => {
            let (next, r1) = settle_call(calls, invocation);
            match r1 {
                Outcome::Failed(e) => (s, Outcome::Failed(e)),
                Outcome::Done(Some(waiting)) => (
                    s,
                    calls_on(
                        CallsPhaseView::Over,
                        CallsActionView::Wait { request: calls.request, waiting },
                    ),
                ),
                Outcome::Done(None) => parallel_next(s, next, now),
            }
        },
        CallsPhaseView::Over => (
            s,
            failure("agent-calls-over"@, "calls"@),
        ),
    }
}

pub open spec fn called(r: Result<(CallsPhase, CallsAction), ApplicationError>) -> Outcome<
    (CallsPhaseView, CallsActionView),
> {
    match r {
        Ok((phase, action)) => Outcome::Done((phase@, action@)),
        Err(error) => Outcome::Failed(error@),
    }
}

impl HarnessApplication {
    fn go_to_next_parallel_call(&mut self, calls: ParallelCalls, now: i64) -> (r: Result<
        (CallsPhase, CallsAction),
        ApplicationError,
    >)
        ensures
            (final(self)@, called(r)) == parallel_next(old(self)@, calls@, now),
    {
        let call = match calls.next_call() {
            Some(call) => call,
            None => {
                return match self.execute_parallel_tool_calls(calls, now) {
                    Ok(request) => Ok((CallsPhase::Over, CallsAction::Resume { request })),
                    Err(error) => Err(error),
                };
            },
        };
        match self.write_lease_path(
            call.name.as_str(),
            &call.arguments,
            Some(calls.request.contract.run_id.as_str()),
        ) {
            Err(error) => Err(error),
            Ok(Some(path)) => Ok((CallsPhase::Leasing { calls }, CallsAction::Resolve { path })),
            Ok(None) => Ok(
                (CallsPhase::Invoking { calls, lease: None }, CallsAction::Invoke { call }),
            ),
        }
    }

    /// Begins the calls of an answer.
    pub fn begin_parallel_calls(&mut self, calls: ParallelCalls, now: i64) -> (r: Result<
        (CallsPhase, CallsAction),
        ApplicationError,
    >)
        ensures
            (final(self)@, called(r)) == parallel_first(old(self)@, calls@, now),
    {
        match self.check_parallel_tools() {
            Ok(()) => self.go_to_next_parallel_call(calls, now),
            Err(error) => Err(error),
        }
    }

    /// One step of the calls of an answer.
    pub fn make_parallel_calls(&mut self, phase: CallsPhase, reply: CallsReply, now: i64) -> (r: Result<
        (CallsPhase, CallsAction),
        ApplicationError,
    >)
        requires
            calls_reply_fits(phase@, reply@),
        ensures
            (final(self)@, called(r)) == parallel_step(old(self)@, phase@, reply@, now),
    {
        match (phase, reply) {
            (CallsPhase::Leasing { calls }, CallsReply::Site { site }) => {
                let total: usize = calls.calls.len();
                assert(calls@.calls.len() == total);
                let call = calls.calls[calls.next].duplicate();
                assert(calls@.calls[calls@.next] == call@);
                match self.acquire_agent_write_lease(
                    call.name.as_str(),
                    &call.arguments,
                    Some(calls.request.contract.run_id.as_str()),
                    &site,
                    now,
                ) {
                    Err(error) => Err(error),
                    Ok(lease) => Ok(
                        (CallsPhase::Invoking { calls, lease }, CallsAction::Invoke { call }),
                    ),
                }
            },
            (CallsPhase::Invoking { calls, lease }, reply) => {
                match self.release_agent_write_lease(lease) {
                    Ok(()) => {},
                    Err(error) => {
                        return Err(error);
                    },
                }
                match reply {
                    CallsReply::Invoked { invocation } => {
                        let total: usize = calls.calls.len();
                        assert(calls@.calls.len() == total);
                        assert(calls@.calls[calls@.next] == calls.calls@[calls.next as int]@);
                        let event = tool_status_event(
                            calls.calls[calls.next].name.as_str(),
                            &invocation,
                        );
                        let fact = call_fact(&calls.calls[calls.next], &invocation);
                        Ok(
                            (
                                CallsPhase::Noting { calls, invocation },
                                CallsAction::Note { event, fact },
                            ),
                        )
                    },
                    CallsReply::CallFailed { error } => Err(error),
                    _ => Err(ApplicationError::new("agent-calls-over", "calls")),
                }
            },
            (CallsPhase::Noting { calls, invocation }, _) => {
                let mut calls = calls;
                match calls.settle(invocation) {
                    Err(error) => Err(error),
                    Ok(Some(waiting)) => Ok(
                        (CallsPhase::Over, CallsAction::Wait { request: calls.request, waiting }),
                    ),
                    Ok(None) => self.go_to_next_parallel_call(calls, now),
                }
            },
            _ => Err(ApplicationError::new("agent-calls-over", "calls")),
        }
    }
}

/// How many calls are still to be made.
pub open spec fn calls_left(phase: CallsPhaseView) -> int {
    match phase {
        CallsPhaseView::Leasing { calls } => 3 * (calls.calls.len() - calls.next),
        CallsPhaseView::Invoking { calls, .. } => 3 * (calls.calls.len() - calls.next) - 1,
        CallsPhaseView::Noting { calls, .. } => 3 * (calls.calls.len() - calls.next) - 2,
        CallsPhaseView::Over => 0,
    }
}

/// The calls of an answer come to an end.
pub proof fn law_calls_come_to_an_end(
    s: AppView,
    phase: CallsPhaseView,
    reply: CallsReplyView,
    now: i64,
)
    requires
        calls_reply_fits(phase, reply),
    ensures
        parallel_step(s, phase, reply, now).1 matches Outcome::Done((next, _)) ==> {
            &&& 0 <= calls_left(next) < calls_left(phase)
        },
{
}

/// An agent of a team that has to wait keeps the calls that are left, and no others.
pub proof fn law_waiting_keeps_the_calls_that_are_left(
    s: AppView,
    calls: ParallelCallsView,
    invocation: InvocationView,
    now: i64,
)
    requires
        under_way(calls),
    ensures
        parallel_step(
            s,
            CallsPhaseView::Noting { calls, invocation },
            CallsReplyView::Noted,
            now,
        ).1 matches Outcome::Done((_, CallsActionView::Wait { request, waiting })) ==> {
            &&& request == calls.request
            &&& waiting.invocation == invocation
            &&& calls.calls.subrange(0, calls.next).push(waiting.waiting_call)
                + waiting.remaining_calls == calls.calls
        },
{
    assert(calls.calls.subrange(0, calls.next).push(calls.calls[calls.next])
        + calls.calls.subrange(calls.next + 1, calls.calls.len() as int) =~= calls.calls);
}

} // verus!
