//! The calls of tools that models ask for: leases for what they write, what is handed to a tool, and
//! what its answer means for the conversation.

use vstd::prelude::*;
use vstd::string::*;

use crate::application::{
    AppView, BatchCallsView, HarnessApplication, InvocationView, LoopView, ModelLoopState,
    PendingCallView, PendingModelContinuation, PendingModelView, PendingToolBatch, PendingToolCall,
    ToolInvocation, ToolInvocationStatus, ToolOrigin, ToolStatusView, WaitingParallelTool,
    WaitingToolView,
};
use crate::error::{agent_error, failure, unit_outcome, ApplicationError, Outcome};
use crate::exchange::{
    AgentModelContinuation, AgentModelToolYield, AgentToolCall, CallView, ContinuationView,
    InputView, ModelInputItem, YieldView,
};
use crate::execution::{AgentExecutionRequest, RequestView};
use crate::json::{member_of, text_value, Json, JsonView};
use crate::leases::{
    acquire_at, holds, law_acquired_leases_can_be_released, leases_ok, without, FileLease,
    LeaseTableView, LeaseView, SiteView, WriteSite,
};
use crate::mission::{HarnessEvent, EventView};
use crate::model::{
    duplicate_all, duplicate_option, group_views, option_view, views, Duplicate,
};
use crate::ordered::{enumerates, in_order};
use crate::paths::write_target;
use crate::runs::set_response_step;
use crate::text::{ascii_lowered, same, texts, to_ascii_lower};

verus! {

/// How far a value can be trusted.
#[derive(Clone, Copy, Debug, PartialEq, Eq, Structural)]
pub enum IntegrityLabel {
    Trusted,
    Untrusted,
}

/// Whom a value may be shown to.
#[derive(Clone, Copy, Debug, PartialEq, Eq, Structural)]
pub enum ConfidentialityLabel {
    ProjectPrivate,
}

/// What is handed to the tools.
#[derive(Debug, PartialEq, Eq)]
pub struct ToolInvokeRequest {
    pub invocation_id: String,
    pub approval_request_id: String,
    pub idempotency_key: String,
    pub project_id: String,
    pub mission_id: String,
    pub run_id: Option<String>,
    pub actor_id: String,
    pub origin: ToolOrigin,
    pub integrity: IntegrityLabel,
    pub confidentiality: ConfidentialityLabel,
    pub tool_name: String,
    pub args: Json,
    pub now_millis: i64,
}

pub struct InvokeView {
    pub invocation_id: Seq<char>,
    pub approval_request_id: Seq<char>,
    pub idempotency_key: Seq<char>,
    pub project_id: Seq<char>,
    pub mission_id: Seq<char>,
    pub run_id: Option<Seq<char>>,
    pub actor_id: Seq<char>,
    pub origin: ToolOrigin,
    pub integrity: IntegrityLabel,
    pub confidentiality: ConfidentialityLabel,
    pub tool_name: Seq<char>,
    pub args: JsonView,
    pub now_millis: i64,
}

impl View for ToolInvokeRequest {
    type V = InvokeView;

    open spec fn view(&self) -> InvokeView {
        InvokeView {
            invocation_id: self.invocation_id@,
            approval_request_id: self.approval_request_id@,
            idempotency_key: self.idempotency_key@,
            project_id: self.project_id@,
            mission_id: self.mission_id@,
            run_id: option_view(self.run_id),
            actor_id: self.actor_id@,
            origin: self.origin,
            integrity: self.integrity,
            confidentiality: self.confidentiality,
            tool_name: self.tool_name@,
            args: self.args@,
            now_millis: self.now_millis,
        }
    }
}

/// The path that a call writes to, if it is one that writes: it needs a run to write for, and leases
/// to be held.
pub open spec fn lease_path(
    s: AppView,
    tool: Seq<char>,
    arguments: JsonView,
    run_id: Option<Seq<char>>,
) -> Outcome<Option<Seq<char>>> {
    if tool != "files.write"@ {
        Outcome::Done(None)
    } else if run_id is None {
        failure("file-lease-run-missing"@, "Agent 写入必须绑定 Run"@)
    } else {
        match text_value(member_of(Some(arguments), "path"@)) {
            None => failure("file-lease-path-missing"@, tool),
            Some(path) => if s.file_leases is None {
                failure("file-lease-runtime-missing"@, "Agent 写入禁止绕过 FileLease"@)
            } else {
                Outcome::Done(Some(path))
            },
        }
    }
}

/// How long a call may keep the file that it writes.
pub const WRITE_LEASE_MILLIS: i64 = 120_000;

pub open spec fn acquire_lease_step(
    s: AppView,
    tool: Seq<char>,
    arguments: JsonView,
    run_id: Option<Seq<char>>,
    site: SiteView,
    now: i64,
) -> (AppView, Outcome<Option<LeaseView>>) {
    match lease_path(s, tool, arguments, run_id) {
        Outcome::Failed(e) => (s, Outcome::Failed(e)),
        Outcome::Done(None) => (s, Outcome::Done(None)),
        Outcome::Done(Some(_)) => {
            let table = s.file_leases->Some_0;
            let (rows, got) = acquire_at(
                table.rows,
                table.root,
                site,
                table.fold_case,
                run_id->Some_0,
                now,
                WRITE_LEASE_MILLIS,
            );
            (
                AppView { file_leases: Some(LeaseTableView { rows, ..table }), ..s },
                match got {
                    Outcome::Done(lease) => Outcome::Done(Some(lease)),
                    Outcome::Failed(e) => Outcome::Failed(e),
                },
            )
        },
    }
}

pub open spec fn release_lease_step(s: AppView, lease: Option<LeaseView>) -> (AppView, Outcome<()>) {
    match lease {
        None => (s, Outcome::Done(())),
        Some(lease) => match s.file_leases {
            None => (s, failure("file-lease-runtime-missing"@, "FileLease Runtime 丢失"@)),
            Some(table) => (
                AppView {
                    file_leases: Some(
                        LeaseTableView {
                            rows: without(table.rows, lease, table.fold_case),
                            ..table
                        },
                    ),
                    ..s
                },
                if holds(table.rows, lease, table.fold_case) {
                    Outcome::Done(())
                } else {
                    failure("file-lease-stale-release"@, lease.path)
                },
            ),
        },
    }
}

pub open spec fn maybe_text(r: Result<Option<String>, ApplicationError>) -> Outcome<
    Option<Seq<char>>,
> {
    match r {
        Ok(v) => Outcome::Done(option_view(v)),
        Err(e) => Outcome::Failed(e@),
    }
}

pub open spec fn maybe_lease(r: Result<Option<FileLease>, ApplicationError>) -> Outcome<
    Option<LeaseView>,
> {
    match r {
        Ok(v) => Outcome::Done(option_view(v)),
        Err(e) => Outcome::Failed(e@),
    }
}

impl HarnessApplication {
    /// The path that a call writes to, if it writes.
    pub fn write_lease_path(&self, tool_name: &str, arguments: &Json, run_id: Option<&str>) -> (r:
        Result<Option<String>, ApplicationError>)
        ensures
            maybe_text(r) == lease_path(self@, tool_name@, arguments@, option_view(run_id)),
    {
        if !same(tool_name, "files.write") {
            return Ok(None);
        }
        if run_id.is_none() {
            return Err(
                ApplicationError::new("file-lease-run-missing", "Agent 写入必须绑定 Run"),
            );
        }
        match arguments.get_text("path") {
            None => Err(ApplicationError::new("file-lease-path-missing", tool_name)),
            Some(path) => if self.file_leases.is_none() {
                Err(
                    ApplicationError::new(
                        "file-lease-runtime-missing",
                        "Agent 写入禁止绕过 FileLease",
                    ),
                )
            } else {
                Ok(Some(path.clone()))
            },
        }
    }

    /// Leases what a call writes to, for its run.
    pub fn acquire_agent_write_lease(
        &mut self,
        tool_name: &str,
        arguments: &Json,
        run_id: Option<&str>,
        site: &WriteSite,
        now: i64,
    ) -> (r: Result<Option<FileLease>, ApplicationError>)
        ensures
            (final(self)@, maybe_lease(r)) == acquire_lease_step(
                old(self)@,
                tool_name@,
                arguments@,
                option_view(run_id),
                site@,
                now,
            ),
    {
        match self.write_lease_path(tool_name, arguments, run_id) {
            Err(error) => {
                return Err(error);
            },
            Ok(None) => {
                return Ok(None);
            },
            Ok(Some(_)) => {},
        }
        match (&mut self.file_leases, run_id) {
            (Some(leases), Some(run_id)) => match leases.acquire(
                site,
                run_id.to_string(),
                now,
                WRITE_LEASE_MILLIS,
            ) {
                Ok(lease) => Ok(Some(lease)),
                Err(error) => Err(agent_error(error)),
            },
            _ => Ok(None),
        }
    }

    /// Gives back the lease of a call, if it has one.
    pub fn release_agent_write_lease(&mut self, lease: Option<FileLease>) -> (r: Result<
        (),
        ApplicationError,
    >)
        ensures
            (final(self)@, unit_outcome(r)) == release_lease_step(old(self)@, option_view(lease)),
    {
        match lease {
            None => Ok(()),
            Some(lease) => match &mut self.file_leases {
                None => Err(
                    ApplicationError::new(
                        "file-lease-runtime-missing",
                        "FileLease Runtime 丢失",
                    ),
                ),
                Some(leases) => if leases.release(&lease) {
                    Ok(())
                } else {
                    Err(ApplicationError::new("file-lease-stale-release", lease.path.as_str()))
                },
            },
        }
    }
}

/// The name of a status.
pub open spec fn status_name_text(status: ToolStatusView) -> Seq<char> {
    match status {
        ToolStatusView::Completed => "Completed"@,
        ToolStatusView::WaitingApproval => "WaitingApproval"@,
        ToolStatusView::Other { name } => name,
    }
}

fn status_name(status: &ToolInvocationStatus) -> (r: String)
    ensures
        r@ == status_name_text(status@),
{
    match status {
        ToolInvocationStatus::Completed => "Completed".to_string(),
        ToolInvocationStatus::WaitingApproval => "WaitingApproval".to_string(),
        ToolInvocationStatus::Other { name } => name.clone(),
    }
}

/// What is shown of a call.
pub open spec fn tool_status(tool: Seq<char>, invocation: InvocationView) -> EventView {
    EventView::ToolStatus {
        tool,
        status: ascii_lowered(status_name_text(invocation.status)),
        summary: invocation.id,
    }
}

pub fn tool_status_event(tool: &str, invocation: &ToolInvocation) -> (r: HarnessEvent)
    ensures
        r@ == tool_status(tool@, invocation@),
{
    HarnessEvent::ToolStatus {
        tool: tool.to_string(),
        status: to_ascii_lower(status_name(&invocation.status).as_str()),
        summary: invocation.id.clone(),
    }
}

/// What an agent of a team hands to a tool.
pub open spec fn agent_invocation(
    project_id: Seq<char>,
    mission_id: Seq<char>,
    run_id: Option<Seq<char>>,
    actor_id: Seq<char>,
    idempotency_key: Seq<char>,
    call: CallView,
    invocation_id: Seq<char>,
    approval_request_id: Seq<char>,
    now: i64,
) -> InvokeView {
    InvokeView {
        invocation_id,
        approval_request_id,
        idempotency_key,
        project_id,
        mission_id,
        run_id,
        actor_id,
        origin: ToolOrigin::Agent,
        integrity: IntegrityLabel::Trusted,
        confidentiality: ConfidentialityLabel::ProjectPrivate,
        tool_name: call.name,
        args: call.arguments,
        now_millis: now,
    }
}

/// The calls of one answer of an agent of a team: how many were made, and the conversation so far.
pub struct ParallelCalls {
    pub request: AgentExecutionRequest,
    pub continuation: AgentModelContinuation,
    pub calls: Vec<AgentToolCall>,
    pub next: usize,
}

pub struct ParallelCallsView {
    pub request: RequestView,
    pub continuation: ContinuationView,
    pub calls: Seq<CallView>,
    pub next: int,
}

impl View for ParallelCalls {
    type V = ParallelCallsView;

    open spec fn view(&self) -> ParallelCallsView {
        ParallelCallsView {
            request: self.request@,
            continuation: self.continuation@,
            calls: views(self.calls@),
            next: self.next as int,
        }
    }
}

/// The conversation as it stands when the calls of an answer are about to be made.
pub open spec fn yielded(y: YieldView) -> ContinuationView {
    if y.continuation.conversation_continuation {
        ContinuationView {
            previous_response_id: y.response_id,
            next_input: Seq::empty(),
            ..y.continuation
        }
    } else {
        y.continuation
    }
}

/// The files that were written, with the one that a result names.
pub open spec fn with_written(files: Seq<Seq<char>>, tool: Seq<char>, output: JsonView) -> Seq<
    Seq<char>,
> {
    match text_value(member_of(Some(output), "path"@)) {
        Some(path) => if tool == "files.write"@ && !files.contains(path) {
            files.push(path)
        } else {
            files
        },
        None => files,
    }
}

pub open spec fn call_item(call: CallView) -> InputView {
    InputView::ToolCall { call_id: call.call_id, name: call.name, arguments: call.arguments }
}

pub open spec fn result_item(call: CallView, output: JsonView) -> InputView {
    InputView::ToolResult { call_id: call.call_id, output }
}

/// The conversation with the result of a call.
pub open spec fn with_result(c: ContinuationView, call: CallView, output: JsonView) -> ContinuationView {
    if c.conversation_continuation {
        ContinuationView {
            changed_files: with_written(c.changed_files, call.name, output),
            next_input: c.next_input.push(result_item(call, output)),
            ..c
        }
    } else {
        ContinuationView {
            changed_files: with_written(c.changed_files, call.name, output),
            transcript: c.transcript.push(call_item(call)).push(result_item(call, output)),
            ..c
        }
    }
}

pub open spec fn waiting_for(p: ParallelCallsView, invocation: InvocationView) -> WaitingToolView {
    WaitingToolView {
        invocation,
        continuation: p.continuation,
        waiting_call: p.calls[p.next],
        remaining_calls: p.calls.subrange(p.next + 1, p.calls.len() as int),
    }
}

/// What the invocation of the next call means: its result is taken, or the agent has to wait for an
/// approval, or the turn has failed.
pub open spec fn settle_call(p: ParallelCallsView, invocation: InvocationView) -> (
    ParallelCallsView,
    Outcome<Option<WaitingToolView>>,
) {
    let call = p.calls[p.next];
    match invocation.status {
        ToolStatusView::Completed => match invocation.result {
            None => (p, failure("tool-result-missing"@, call.name)),
            Some(output) => (
                ParallelCallsView {
                    continuation: with_result(p.continuation, call, output),
                    next: p.next + 1,
                    ..p
                },
                Outcome::Done(None),
            ),
        },
        ToolStatusView::WaitingApproval => (p, Outcome::Done(Some(waiting_for(p, invocation)))),
        ToolStatusView::Other { name } => (
            p,
            failure("parallel-tool-failed"@, "tool="@ + call.name + ", status="@ + name),
        ),
    }
}

/// The conversation with which the model is called again.
pub open spec fn continued(c: ContinuationView) -> ContinuationView {
    if c.conversation_continuation {
        c
    } else {
        ContinuationView { previous_response_id: None, next_input: c.transcript, ..c }
    }
}

/// The request with which an agent goes on after its calls.
pub open spec fn continued_request(request: RequestView, c: ContinuationView) -> RequestView {
    RequestView {
        model_continuation: Some(continued(c)),
        steering_messages: Seq::empty(),
        ..request
    }
}

pub open spec fn maybe_waiting(
    r: Result<Option<WaitingParallelTool>, ApplicationError>,
) -> Outcome<Option<WaitingToolView>> {
    match r {
        Ok(v) => Outcome::Done(option_view(v)),
        Err(e) => Outcome::Failed(e@),
    }
}

/// Takes the result of a call into the conversation.
pub fn append_parallel_tool_result(
    continuation: &mut AgentModelContinuation,
    call: &AgentToolCall,
    output: &Json,
)
    ensures
        final(continuation)@ == with_result(old(continuation)@, call@, output@),
{
    broadcast use group_views;

    if same(call.name.as_str(), "files.write") {
        match output.get_text("path") {
            Some(path) => {
                if !holds_text(&continuation.changed_files, path.as_str()) {
                    continuation.changed_files.push(path.clone());
                }
            },
            None => {},
        }
    }
    let tool_result = ModelInputItem::ToolResult {
        call_id: call.call_id.clone(),
        output: output.copy(),
    };
    if continuation.conversation_continuation {
        continuation.next_input.push(tool_result);
    } else {
        let tool_call = ModelInputItem::ToolCall {
            call_id: call.call_id.clone(),
            name: call.name.clone(),
            arguments: call.arguments.copy(),
        };
        continuation.transcript.push(tool_call);
        continuation.transcript.push(tool_result);
    }
}

fn holds_text(items: &Vec<String>, text: &str) -> (r: bool)
    ensures
        r == texts(items@).contains(text@),
{
    let mut i: usize = 0;
    while i < items.len()
        invariant
            i <= items.len(),
            forall|k: int| 0 <= k < i ==> #[trigger] texts(items@)[k] != text@,
        decreases items.len() - i,
    {
        assert(texts(items@)[i as int] == items@[i as int]@);
        if same(items[i].as_str(), text) {
            assert(texts(items@).contains(text@));
            return true;
        }
        i = i + 1;
    }
    false
}

impl ParallelCalls {
    /// The calls that an agent asked for.
    pub fn of_yield(request: AgentExecutionRequest, tool_yield: AgentModelToolYield) -> (r: Self)
        ensures
            r@ == (ParallelCallsView {
                request: request@,
                continuation: yielded(tool_yield@),
                calls: tool_yield@.calls,
                next: 0,
            }),
    {
        broadcast use group_views;

        let mut continuation = tool_yield.continuation;
        if continuation.conversation_continuation {
            continuation.previous_response_id = tool_yield.response_id;
            continuation.next_input = Vec::new();
        }
        ParallelCalls { request, continuation, calls: tool_yield.calls, next: 0 }
    }

    /// The calls that were left when an agent had to wait for an approval.
    pub fn of_waiting(request: AgentExecutionRequest, waiting: WaitingParallelTool) -> (r: Self)
        ensures
            r@ == (ParallelCallsView {
                request: request@,
                continuation: waiting@.continuation,
                calls: waiting@.remaining_calls,
                next: 0,
            }),
    {
        ParallelCalls {
            request,
            continuation: waiting.continuation,
            calls: waiting.remaining_calls,
            next: 0,
        }
    }

    /// The next call, if one is left.
    pub fn next_call(&self) -> (r: Option<AgentToolCall>)
        ensures
            option_view(r) == (if self@.next < self@.calls.len() {
                Some(self@.calls[self@.next])
            } else {
                None
            }),
    {
        if self.next < self.calls.len() {
            Some(self.calls[self.next].duplicate())
        } else {
            None
        }
    }

    /// What is handed to the tools for a call.
    pub fn invocation(
        &self,
        project_id: &str,
        call: &AgentToolCall,
        invocation_id: String,
        approval_request_id: String,
        now: i64,
    ) -> (r: ToolInvokeRequest)
        ensures
            r@ == agent_invocation(
                project_id@,
                self@.request.contract.mission_id,
                Some(self@.request.contract.run_id),
                self@.request.contract.agent_definition_id,
                self@.request.contract.mission_id + ":"@ + self@.request.contract.run_id + ":"@
                    + call@.call_id,
                call@,
                invocation_id@,
                approval_request_id@,
                now,
            ),
    {
        let contract = &self.request.contract;
        let mut idempotency_key: String = contract.mission_id.clone();
        idempotency_key.append(":");
        idempotency_key.append(contract.run_id.as_str());
        idempotency_key.append(":");
        idempotency_key.append(call.call_id.as_str());
        ToolInvokeRequest {
            invocation_id,
            approval_request_id,
            idempotency_key,
            project_id: project_id.to_string(),
            mission_id: contract.mission_id.clone(),
            run_id: Some(contract.run_id.clone()),
            actor_id: contract.agent_definition_id.clone(),
            origin: ToolOrigin::Agent,
            integrity: IntegrityLabel::Trusted,
            confidentiality: ConfidentialityLabel::ProjectPrivate,
            tool_name: call.name.clone(),
            args: call.arguments.copy(),
            now_millis: now,
        }
    }

    /// Takes what came of the next call.
    pub fn settle(&mut self, invocation: ToolInvocation) -> (r: Result<
        Option<WaitingParallelTool>,
        ApplicationError,
    >)
        requires
            old(self)@.next < old(self)@.calls.len(),
        ensures
            (final(self)@, maybe_waiting(r)) == settle_call(old(self)@, invocation@),
    {
        broadcast use group_views;

        let total: usize = self.calls.len();
        assert(self.next < total);
        let call = self.calls[self.next].duplicate();
        assert(self@.calls[self@.next] == call@);
        match &invocation.status {
            ToolInvocationStatus::Completed => match &invocation.result {
                None => Err(ApplicationError::new("tool-result-missing", call.name.as_str())),
                Some(output) => {
                    append_parallel_tool_result(&mut self.continuation, &call, output);
                    self.next = self.next + 1;
                    Ok(None)
                },
            },
            ToolInvocationStatus::WaitingApproval => {
                let remaining_calls = calls_after(&self.calls, self.next + 1);
                Ok(
                    Some(
                        WaitingParallelTool {
                            invocation,
                            continuation: self.continuation.duplicate(),
                            waiting_call: call,
                            remaining_calls,
                        },
                    ),
                )
            },
            ToolInvocationStatus::Other { name } => {
                let mut message: String = "tool=".to_string();
                message.append(call.name.as_str());
                message.append(", status=");
                message.append(name.as_str());
                Err(ApplicationError::new("parallel-tool-failed", message.as_str()))
            },
        }
    }
}

fn calls_after(calls: &Vec<AgentToolCall>, from: usize) -> (r: Vec<AgentToolCall>)
    requires
        from <= calls.len(),
    ensures
        views(r@) == views(calls@).subrange(from as int, calls@.len() as int),
{
    let mut r: Vec<AgentToolCall> = Vec::new();
    let mut i: usize = from;
    while i < calls.len()
        invariant
            from <= i <= calls.len(),
            r@.len() == i - from,
            forall|k: int| 0 <= k < r@.len() ==> (#[trigger] r@[k])@ == calls@[from + k]@,
        decreases calls.len() - i,
    {
        r.push(calls[i].duplicate());
        i = i + 1;
    }
    assert(views(r@) =~= views(calls@).subrange(from as int, calls@.len() as int));
    r
}

impl HarnessApplication {
    /// Checks that an agent of a team can call tools at all.
    pub fn check_parallel_tools(&self) -> (r: Result<(), ApplicationError>)
        ensures
            unit_outcome(r) == (if self@.tools_ready {
                Outcome::Done(())
            } else {
                failure("tool-runtime-missing"@, "后台 Agent 请求了 Tool"@)
            }),
    {
        if self.tools_ready {
            Ok(())
        } else {
            Err(ApplicationError::new("tool-runtime-missing", "后台 Agent 请求了 Tool"))
        }
    }

    /// The request with which an agent goes on, once all its calls were made.
    pub fn execute_parallel_tool_calls(&mut self, calls: ParallelCalls, now: i64) -> (r: Result<
        AgentExecutionRequest,
        ApplicationError,
    >)
        ensures
            ({
                let next = continued_request(calls@.request, calls@.continuation);
                let (after, done) = set_response_step(
                    old(self)@,
                    calls@.request.contract.run_id,
                    continued(calls@.continuation).previous_response_id,
                    now,
                );
                final(self)@ == after && match r {
                    Ok(request) => done is Done && request@ == next,
                    Err(e) => done == Outcome::<()>::Failed(e@),
                }
            }),
    {
        broadcast use group_views;

        let mut continuation = calls.continuation;
        if !continuation.conversation_continuation {
            continuation.previous_response_id = None;
            continuation.next_input = duplicate_all(&continuation.transcript);
        }
        let mut request = calls.request;
        let response_id = duplicate_option(&continuation.previous_response_id);
        request.model_continuation = Some(continuation);
        request.steering_messages = Vec::new();
        match self.set_agent_session_previous_response(
            request.contract.run_id.as_str(),
            &response_id,
            now,
        ) {
            Ok(()) => Ok(request),
            Err(error) => Err(error),
        }
    }
}

/// The conversation of the main agent after the calls of an answer: the state of the loop, and what
/// is left of the batch.
pub struct LoopCallsView {
    pub state: LoopView,
    pub batch: BatchCallsView,
}

/// The batch without its first call.
pub open spec fn rest_of(batch: BatchCallsView) -> BatchCallsView {
    BatchCallsView { calls: batch.calls.subrange(1, batch.calls.len() as int), ..batch }
}

pub open spec fn with_call_result(l: LoopCallsView, call: CallView, output: JsonView) -> LoopCallsView {
    if l.state.selection.conversation_continuation {
        LoopCallsView {
            batch: BatchCallsView {
                results: l.batch.results.push(result_item(call, output)),
                ..rest_of(l.batch)
            },
            ..l
        }
    } else {
        LoopCallsView {
            state: LoopView {
                transcript: l.state.transcript.push(call_item(call)).push(
                    result_item(call, output),
                ),
                ..l.state
            },
            batch: rest_of(l.batch),
        }
    }
}

/// The conversation that is put aside until a call is approved: the call comes first again, and is
/// known by its invocation.
pub open spec fn put_aside(
    l: LoopCallsView,
    mission_id: Seq<char>,
    run_id: Seq<char>,
    invocation_id: Seq<char>,
) -> PendingModelView {
    PendingModelView {
        mission_id,
        run_id,
        state: l.state,
        batch: BatchCallsView {
            calls: seq![
                PendingCallView {
                    call: l.batch.calls[0].call,
                    invocation_id: Some(invocation_id),
                },
            ] + rest_of(l.batch).calls,
            ..l.batch
        },
    }
}

/// What the invocation of the first call of a batch means.
pub open spec fn settle_first(
    s: AppView,
    l: LoopCallsView,
    mission_id: Seq<char>,
    run_id: Option<Seq<char>>,
    invocation: InvocationView,
) -> (AppView, Outcome<LoopCallsView>) {
    let call = l.batch.calls[0].call;
    match invocation.status {
        ToolStatusView::Completed => match invocation.result {
            None => (s, failure("tool-result-missing"@, call.name)),
            Some(output) => (s, Outcome::Done(with_call_result(l, call, output))),
        },
        ToolStatusView::WaitingApproval => match run_id {
            None => (s, failure("tool-approval-run-missing"@, invocation.id)),
            Some(run) => if invocation.approval_request_id is None {
                (s, failure("tool-approval-id-missing"@, invocation.id))
            } else {
                (
                    AppView {
                        pending_model: s.pending_model.insert(
                            invocation.id,
                            put_aside(l, mission_id, run, invocation.id),
                        ),
                        ..s
                    },
                    failure("tool-approval-required"@, "invocation="@ + invocation.id),
                )
            },
        },
        ToolStatusView::Other { name } => (
            s,
            failure("tool-invocation-not-completed"@, "tool="@ + call.name + ", status="@ + name),
        ),
    }
}

/// The state of the loop once no call is left.
pub open spec fn batch_done(l: LoopCallsView) -> LoopView {
    if l.state.selection.conversation_continuation {
        LoopView {
            previous_response_id: l.batch.response_id,
            next_input: l.batch.results,
            ..l.state
        }
    } else {
        LoopView {
            previous_response_id: None,
            next_input: l.state.transcript,
            ..l.state
        }
    }
}

fn pending_after(calls: &Vec<PendingToolCall>, from: usize) -> (r: Vec<PendingToolCall>)
    requires
        from <= calls.len(),
    ensures
        views(r@) == views(calls@).subrange(from as int, calls@.len() as int),
{
    let mut r: Vec<PendingToolCall> = Vec::new();
    let mut i: usize = from;
    while i < calls.len()
        invariant
            from <= i <= calls.len(),
            r@.len() == i - from,
            forall|k: int| 0 <= k < r@.len() ==> (#[trigger] r@[k])@ == calls@[from + k]@,
        decreases calls.len() - i,
    {
        r.push(calls[i].duplicate());
        i = i + 1;
    }
    assert(views(r@) =~= views(calls@).subrange(from as int, calls@.len() as int));
    r
}

impl HarnessApplication {
    /// Checks that the main agent can call tools at all.
    pub fn check_model_tools(&self) -> (r: Result<(), ApplicationError>)
        ensures
            unit_outcome(r) == (if self@.tools_ready {
                Outcome::Done(())
            } else {
                failure("tool-runtime-missing"@, "Model 请求了 Tool，但 Runtime 未注入"@)
            }),
    {
        if self.tools_ready {
            Ok(())
        } else {
            Err(
                ApplicationError::new(
                    "tool-runtime-missing",
                    "Model 请求了 Tool，但 Runtime 未注入",
                ),
            )
        }
    }

    /// What is handed to the tools for a call of the main agent.
    pub fn model_invocation(
        &self,
        mission_id: &str,
        run_id: Option<&str>,
        agent_id: &str,
        call: &AgentToolCall,
        invocation_id: String,
        approval_request_id: String,
        now: i64,
    ) -> (r: ToolInvokeRequest)
        ensures
            r@ == agent_invocation(
                self@.project_id,
                mission_id@,
                option_view(run_id),
                agent_id@,
                mission_id@ + ":"@ + call@.call_id,
                call@,
                invocation_id@,
                approval_request_id@,
                now,
            ),
    {
        let mut idempotency_key: String = mission_id.to_string();
        idempotency_key.append(":");
        idempotency_key.append(call.call_id.as_str());
        ToolInvokeRequest {
            invocation_id,
            approval_request_id,
            idempotency_key,
            project_id: self.project_id.clone(),
            mission_id: mission_id.to_string(),
            run_id: match run_id {
                Some(run) => Some(run.to_string()),
                None => None,
            },
            actor_id: agent_id.to_string(),
            origin: ToolOrigin::Agent,
            integrity: IntegrityLabel::Trusted,
            confidentiality: ConfidentialityLabel::ProjectPrivate,
            tool_name: call.name.clone(),
            args: call.arguments.copy(),
            now_millis: now,
        }
    }

    /// Takes what came of the first call of a batch. A call that has to be approved puts the
    /// conversation aside, and is the error.
    pub fn process_tool_batch(
        &mut self,
        state: ModelLoopState,
        batch: PendingToolBatch,
        mission_id: &str,
        run_id: Option<&str>,
        invocation: &ToolInvocation,
    ) -> (r: Result<(ModelLoopState, PendingToolBatch), ApplicationError>)
        requires
            batch.calls.len() > 0,
        ensures
            ({
                let (after, done) = settle_first(
                    old(self)@,
                    LoopCallsView { state: state@, batch: batch@ },
                    mission_id@,
                    option_view(run_id),
                    invocation@,
                );
                final(self)@ == after && match r {
                    Ok((next, rest)) => done == Outcome::Done(
                        LoopCallsView { state: next@, batch: rest@ },
                    ),
                    Err(e) => done == Outcome::<LoopCallsView>::Failed(e@),
                }
            }),
    {
        broadcast use group_views;

        let ghost l = LoopCallsView { state: state@, batch: batch@ };
        let call = batch.calls[0].call.duplicate();
        assert(l.batch.calls[0].call == call@);
        let rest = pending_after(&batch.calls, 1);
        let mut state = state;
        let mut batch = batch;
        match &invocation.status {
            ToolInvocationStatus::Completed => match &invocation.result {
                None => Err(ApplicationError::new("tool-result-missing", call.name.as_str())),
                Some(output) => {
                    let tool_result = ModelInputItem::ToolResult {
                        call_id: call.call_id.clone(),
                        output: output.copy(),
                    };
                    if state.selection.conversation_continuation {
                        batch.results.push(tool_result);
                    } else {
                        let tool_call = ModelInputItem::ToolCall {
                            call_id: call.call_id,
                            name: call.name,
                            arguments: call.arguments,
                        };
                        state.transcript.push(tool_call);
                        state.transcript.push(tool_result);
                    }
                    batch.calls = rest;
                    Ok((state, batch))
                },
            },
            ToolInvocationStatus::WaitingApproval => {
                let run = match run_id {
                    Some(run) => run.to_string(),
                    None => {
                        return Err(
                            ApplicationError::new(
                                "tool-approval-run-missing",
                                invocation.id.as_str(),
                            ),
                        );
                    },
                };
                if invocation.approval_request_id.is_none() {
                    return Err(
                        ApplicationError::new("tool-approval-id-missing", invocation.id.as_str()),
                    );
                }
                let mut calls: Vec<PendingToolCall> = Vec::new();
                calls.push(
                    PendingToolCall { call, invocation_id: Some(invocation.id.clone()) },
                );
                let ghost first = views(calls@);
                let mut rest = rest;
                let ghost others = views(rest@);
                calls.append(&mut rest);
                assert(views(calls@) =~= first + others);
                batch.calls = calls;
                let pending = PendingModelContinuation {
                    mission_id: mission_id.to_string(),
                    run_id: run,
                    state,
                    batch,
                };
                assert(pending@ == put_aside(l, mission_id@, run@, invocation@.id)) by {
                    assert(first =~= seq![
                        PendingCallView {
                            call: l.batch.calls[0].call,
                            invocation_id: Some(invocation@.id),
                        },
                    ]);
                }
                self.pending_model_continuations.insert(invocation.id.clone(), pending);
                let mut message: String = "invocation=".to_string();
                message.append(invocation.id.as_str());
                Err(ApplicationError::new("tool-approval-required", message.as_str()))
            },
            ToolInvocationStatus::Other { name } => {
                let mut message: String = "tool=".to_string();
                message.append(call.name.as_str());
                message.append(", status=");
                message.append(name.as_str());
                Err(ApplicationError::new("tool-invocation-not-completed", message.as_str()))
            },
        }
    }
}

/// The state with which the model is called again, once no call of a batch is left.
pub fn finish_tool_batch(state: ModelLoopState, batch: PendingToolBatch) -> (r: ModelLoopState)
    ensures
        r@ == batch_done((LoopCallsView { state: state@, batch: batch@ })),
{
    let mut state = state;
    if state.selection.conversation_continuation {
        state.previous_response_id = batch.response_id;
        state.next_input = batch.results;
    } else {
        state.previous_response_id = None;
        state.next_input = duplicate_all(&state.transcript);
    }
    state
}

/// The first conversation, by the id of the invocation that it waits for, of a run of a mission.
pub open spec fn pending_key(
    pending: Map<Seq<char>, PendingModelView>,
    mission_id: Seq<char>,
    run_id: Seq<char>,
    n: int,
) -> Option<Seq<char>>
    decreases n,
{
    let keys = in_order(pending.dom());
    if n <= 0 {
        None
    } else {
        match pending_key(pending, mission_id, run_id, n - 1) {
            Some(key) => Some(key),
            None => if pending[keys[n - 1]].mission_id == mission_id && pending[keys[n - 1]].run_id
                == run_id {
                Some(keys[n - 1])
            } else {
                None
            },
        }
    }
}

pub open spec fn pending_of(s: AppView, mission_id: Seq<char>, run_id: Seq<char>) -> Option<
    Seq<char>,
> {
    pending_key(
        s.pending_model,
        mission_id,
        run_id,
        in_order(s.pending_model.dom()).len() as int,
    )
}

impl HarnessApplication {
    /// Takes the conversation of a run that waits for an approval.
    pub fn take_pending_model_continuation(&mut self, mission_id: &str, run_id: &str) -> (r: Option<
        PendingModelContinuation,
    >)
        ensures
            match pending_of(old(self)@, mission_id@, run_id@) {
                Some(key) => r is Some && r->Some_0@ == old(self)@.pending_model[key]
                    && final(self)@ == (AppView {
                    pending_model: old(self)@.pending_model.remove(key),
                    ..old(self)@
                }),
                None => r is None && final(self)@ == old(self)@,
            },
    {
        let ghost pending = self.pending_model_continuations@;
        let ghost keys = in_order(pending.dom());
        let mut i: usize = 0;
        let mut found: Option<String> = None;
        while i < self.pending_model_continuations.len()
            invariant
                i <= keys.len(),
                pending == self.pending_model_continuations@,
                keys == in_order(pending.dom()),
                *self == *old(self),
                option_view(found) == pending_key(pending, mission_id@, run_id@, i as int),
                found is Some ==> pending.contains_key(found->Some_0@),
            decreases keys.len() - i,
        {
            let continuation = self.pending_model_continuations.value_at(i);
            if found.is_none() && same(continuation.mission_id.as_str(), mission_id) && same(
                continuation.run_id.as_str(),
                run_id,
            ) {
                let all = self.pending_model_continuations.keys();
                assert(texts(all@)[i as int] == all@[i as int]@);
                assert(texts(all@).contains(texts(all@)[i as int]));
                found = Some(all[i].clone());
            }
            i = i + 1;
        }
        match found {
            Some(key) => self.pending_model_continuations.remove(key.as_str()),
            None => None,
        }
    }

    /// Puts a conversation aside again. It is known by the invocation of its first call.
    pub fn store_pending_model_continuation(&mut self, continuation: PendingModelContinuation) -> (r:
        Result<(), ApplicationError>)
        ensures
            ({
                let calls = continuation@.batch.calls;
                if calls.len() > 0 && calls[0].invocation_id is Some {
                    r is Ok && final(self)@ == (AppView {
                        pending_model: old(self)@.pending_model.insert(
                            calls[0].invocation_id->Some_0,
                            continuation@,
                        ),
                        ..old(self)@
                    })
                } else {
                    final(self)@ == old(self)@ && unit_outcome(r) == failure::<()>(
                        "model-continuation-invalid"@,
                        "等待审批的 Tool Invocation 缺失"@,
                    )
                }
            }),
    {
        let key = if continuation.batch.calls.len() > 0 {
            assert(continuation@.batch.calls[0] == continuation.batch.calls@[0]@);
            duplicate_option(&continuation.batch.calls[0].invocation_id)
        } else {
            None
        };
        match key {
            Some(key) => {
                self.pending_model_continuations.insert(key, continuation);
                Ok(())
            },
            None => Err(
                ApplicationError::new(
                    "model-continuation-invalid",
                    "等待审批的 Tool Invocation 缺失",
                ),
            ),
        }
    }
}

/// A lease for what a call writes can be given back, once.
pub proof fn law_write_leases_are_given_back(
    s: AppView,
    tool: Seq<char>,
    arguments: JsonView,
    run_id: Option<Seq<char>>,
    site: SiteView,
    now: i64,
)
    requires
        s.file_leases matches Some(table) ==> leases_ok(table.rows),
    ensures
        acquire_lease_step(s, tool, arguments, run_id, site, now).1 matches Outcome::Done(lease)
            ==> {
            let after = acquire_lease_step(s, tool, arguments, run_id, site, now).0;
            let released = release_lease_step(after, lease);
            &&& released.1 is Done
            &&& lease is Some ==> release_lease_step(released.0, lease).1 is Failed
        },
{
    match acquire_lease_step(s, tool, arguments, run_id, site, now).1 {
        Outcome::Done(Some(lease)) => {
            let table = s.file_leases->Some_0;
            let path = write_target(table.root, site.joined, site.existing, site.canonical)->Done_0;
            law_acquired_leases_can_be_released(
                table.rows,
                path,
                table.fold_case,
                run_id->Some_0,
                now,
                WRITE_LEASE_MILLIS,
            );
        },
        _ => {},
    }
}

proof fn lemma_pending_key(
    pending: Map<Seq<char>, PendingModelView>,
    mission_id: Seq<char>,
    run_id: Seq<char>,
    n: int,
    at: int,
)
    requires
        0 <= at < n,
        pending[in_order(pending.dom())[at]].mission_id == mission_id,
        pending[in_order(pending.dom())[at]].run_id == run_id,
    ensures
        pending_key(pending, mission_id, run_id, n) matches Some(key) && pending[key].mission_id
            == mission_id && pending[key].run_id == run_id,
    decreases n,
{
    if at < n - 1 {
        lemma_pending_key(pending, mission_id, run_id, n - 1, at);
    } else {
        lemma_pending_found(pending, mission_id, run_id, n - 1);
    }
}

proof fn lemma_pending_found(
    pending: Map<Seq<char>, PendingModelView>,
    mission_id: Seq<char>,
    run_id: Seq<char>,
    n: int,
)
    ensures
        pending_key(pending, mission_id, run_id, n) matches Some(key) ==> pending[key].mission_id
            == mission_id && pending[key].run_id == run_id,
    decreases n,
{
    if n > 0 {
        lemma_pending_found(pending, mission_id, run_id, n - 1);
    }
}

/// A conversation that was put aside is found again by its mission and its run.
pub proof fn law_put_aside_is_found_again(
    s: AppView,
    invocation_id: Seq<char>,
    continuation: PendingModelView,
)
    requires
        enumerates(
            in_order(s.pending_model.insert(invocation_id, continuation).dom()),
            s.pending_model.insert(invocation_id, continuation).dom(),
        ),
    ensures
        ({
            let after = AppView {
                pending_model: s.pending_model.insert(invocation_id, continuation),
                ..s
            };
            pending_of(after, continuation.mission_id, continuation.run_id) matches Some(key)
                && after.pending_model[key].mission_id == continuation.mission_id
                && after.pending_model[key].run_id == continuation.run_id
        }),
{
    let pending = s.pending_model.insert(invocation_id, continuation);
    let keys = in_order(pending.dom());
    assert(pending.dom().contains(invocation_id));
    assert(keys.contains(invocation_id));
    let at = keys.index_of(invocation_id);
    lemma_pending_key(
        pending,
        continuation.mission_id,
        continuation.run_id,
        keys.len() as int,
        at,
    );
}

} // verus!
