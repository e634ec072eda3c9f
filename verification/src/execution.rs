//! What agents are asked to do, and how a batch of them is run.

use vstd::prelude::*;
use vstd::string::*;

use crate::catalog::AgentDefinitionId;
use crate::error::{failure, unit_outcome, AgentError, ErrorView, Outcome};
use crate::exchange::{AgentModelContinuation, ContinuationView, ToolDefinition, ToolView};
use crate::model::{
    duplicate_all, duplicate_option, group_views, lemma_insert_multiset, option_view, views,
    Duplicate,
};
use crate::results::{AgentResult, MissionId, ResultView, RunId};
use crate::roles::AgentRole;
use crate::staffing::TaskId;
use crate::state_store::{AgentEndpointId, AgentSessionId};
use crate::text::{
    is_blank, is_blank_text, lemma_text_less_irreflexive, lemma_text_less_total,
    lemma_text_less_transitive, less, same, text_less, texts, trim, trimmed,
};

verus! {

/// The limits of planning.
#[derive(Clone, Copy, Debug, PartialEq, Eq, Structural)]
pub struct PlanningBudget {
    pub max_planning_iterations: u8,
    pub max_planner_tokens: u32,
    pub max_plan_depth: u8,
    pub max_wall_time_millis: u64,
    pub max_discovery_actions: u32,
}

impl PlanningBudget {
    pub fn bounded_default() -> (r: Self)
        ensures
            r == default_planning(),
    {
        PlanningBudget {
            max_planning_iterations: 2,
            max_planner_tokens: 8192,
            max_plan_depth: 4,
            max_wall_time_millis: 120000,
            max_discovery_actions: 16,
        }
    }
}

pub open spec fn default_planning() -> PlanningBudget {
    PlanningBudget {
        max_planning_iterations: 2,
        max_planner_tokens: 8192,
        max_plan_depth: 4,
        max_wall_time_millis: 120000,
        max_discovery_actions: 16,
    }
}

/// What an agent has to do, within its limits.
#[derive(Debug, PartialEq, Eq)]
pub struct AgentTaskContract {
    pub mission_id: MissionId,
    pub task_id: TaskId,
    pub run_id: RunId,
    pub parent_run_id: Option<RunId>,
    pub endpoint_id: AgentEndpointId,
    pub agent_definition_id: AgentDefinitionId,
    pub role: AgentRole,
    pub objective: String,
    pub acceptance_criteria: Vec<String>,
    pub max_turns: u8,
    pub deadline_millis: i64,
    pub planning_budget: Option<PlanningBudget>,
}

pub struct ContractView {
    pub mission_id: Seq<char>,
    pub task_id: Seq<char>,
    pub run_id: Seq<char>,
    pub parent_run_id: Option<Seq<char>>,
    pub endpoint_id: Seq<char>,
    pub agent_definition_id: Seq<char>,
    pub role: AgentRole,
    pub objective: Seq<char>,
    pub acceptance_criteria: Seq<Seq<char>>,
    pub max_turns: u8,
    pub deadline_millis: i64,
    pub planning_budget: Option<PlanningBudget>,
}

impl View for AgentTaskContract {
    type V = ContractView;

    open spec fn view(&self) -> ContractView {
        ContractView {
            mission_id: self.mission_id@,
            task_id: self.task_id@,
            run_id: self.run_id@,
            parent_run_id: option_view(self.parent_run_id),
            endpoint_id: self.endpoint_id@,
            agent_definition_id: self.agent_definition_id@,
            role: self.role,
            objective: self.objective@,
            acceptance_criteria: texts(self.acceptance_criteria@),
            max_turns: self.max_turns,
            deadline_millis: self.deadline_millis,
            planning_budget: self.planning_budget,
        }
    }
}

impl Duplicate for AgentTaskContract {
    fn duplicate(&self) -> (r: Self) {
        AgentTaskContract {
            mission_id: self.mission_id.clone(),
            task_id: self.task_id.clone(),
            run_id: self.run_id.clone(),
            parent_run_id: duplicate_option(&self.parent_run_id),
            endpoint_id: self.endpoint_id.clone(),
            agent_definition_id: self.agent_definition_id.clone(),
            role: self.role,
            objective: self.objective.clone(),
            acceptance_criteria: duplicate_all(&self.acceptance_criteria),
            max_turns: self.max_turns,
            deadline_millis: self.deadline_millis,
            planning_budget: self.planning_budget,
        }
    }
}

/// What was selected for an agent to know; it never sees the whole session.
#[derive(Debug, PartialEq, Eq)]
pub struct AgentWorkingContext {
    pub stable_instructions: String,
    pub dynamic_context: String,
    pub selected_item_ids: Vec<String>,
    pub excluded_item_ids: Vec<String>,
    pub token_cost: u32,
    pub max_input_tokens: u32,
    pub fingerprint: String,
}

pub struct WorkingView {
    pub stable_instructions: Seq<char>,
    pub dynamic_context: Seq<char>,
    pub selected_item_ids: Seq<Seq<char>>,
    pub excluded_item_ids: Seq<Seq<char>>,
    pub token_cost: u32,
    pub max_input_tokens: u32,
    pub fingerprint: Seq<char>,
}

impl View for AgentWorkingContext {
    type V = WorkingView;

    open spec fn view(&self) -> WorkingView {
        WorkingView {
            stable_instructions: self.stable_instructions@,
            dynamic_context: self.dynamic_context@,
            selected_item_ids: texts(self.selected_item_ids@),
            excluded_item_ids: texts(self.excluded_item_ids@),
            token_cost: self.token_cost,
            max_input_tokens: self.max_input_tokens,
            fingerprint: self.fingerprint@,
        }
    }
}

impl Duplicate for AgentWorkingContext {
    fn duplicate(&self) -> (r: Self) {
        AgentWorkingContext {
            stable_instructions: self.stable_instructions.clone(),
            dynamic_context: self.dynamic_context.clone(),
            selected_item_ids: duplicate_all(&self.selected_item_ids),
            excluded_item_ids: duplicate_all(&self.excluded_item_ids),
            token_cost: self.token_cost,
            max_input_tokens: self.max_input_tokens,
            fingerprint: self.fingerprint.clone(),
        }
    }
}

#[derive(Debug, PartialEq, Eq)]
pub struct AgentExecutionRequest {
    pub session_id: AgentSessionId,
    pub contract: AgentTaskContract,
    pub context: AgentWorkingContext,
    pub steering_messages: Vec<String>,
    pub model_tools: Vec<ToolDefinition>,
    pub model_continuation: Option<AgentModelContinuation>,
}

pub struct RequestView {
    pub session_id: Seq<char>,
    pub contract: ContractView,
    pub context: WorkingView,
    pub steering_messages: Seq<Seq<char>>,
    pub model_tools: Seq<ToolView>,
    pub model_continuation: Option<ContinuationView>,
}

impl View for AgentExecutionRequest {
    type V = RequestView;

    open spec fn view(&self) -> RequestView {
        RequestView {
            session_id: self.session_id@,
            contract: self.contract@,
            context: self.context@,
            steering_messages: texts(self.steering_messages@),
            model_tools: views(self.model_tools@),
            model_continuation: option_view(self.model_continuation),
        }
    }
}

impl Duplicate for AgentExecutionRequest {
    fn duplicate(&self) -> (r: Self) {
        AgentExecutionRequest {
            session_id: self.session_id.clone(),
            contract: self.contract.duplicate(),
            context: self.context.duplicate(),
            steering_messages: duplicate_all(&self.steering_messages),
            model_tools: duplicate_all(&self.model_tools),
            model_continuation: duplicate_option(&self.model_continuation),
        }
    }
}

/// What became of a run.
#[derive(Debug, PartialEq, Eq)]
pub struct AgentExecutionOutcome {
    pub run_id: RunId,
    pub task_id: TaskId,
    pub agent_definition_id: AgentDefinitionId,
    pub result: Option<AgentResult>,
    pub error: Option<AgentError>,
}

pub struct RunOutcomeView {
    pub run_id: Seq<char>,
    pub task_id: Seq<char>,
    pub agent_definition_id: Seq<char>,
    pub result: Option<ResultView>,
    pub error: Option<ErrorView>,
}

impl View for AgentExecutionOutcome {
    type V = RunOutcomeView;

    open spec fn view(&self) -> RunOutcomeView {
        RunOutcomeView {
            run_id: self.run_id@,
            task_id: self.task_id@,
            agent_definition_id: self.agent_definition_id@,
            result: option_view(self.result),
            error: option_view(self.error),
        }
    }
}

impl AgentExecutionOutcome {
    /// The outcome of a run that ended with a result or an error.
    pub fn of(contract: &AgentTaskContract, execution: Result<AgentResult, AgentError>) -> (r: Self)
        ensures
            r@ == (RunOutcomeView {
                run_id: contract@.run_id,
                task_id: contract@.task_id,
                agent_definition_id: contract@.agent_definition_id,
                result: match execution {
                    Ok(result) => Some(result@),
                    Err(_) => None,
                },
                error: match execution {
                    Ok(_) => None,
                    Err(error) => Some(error@),
                },
            }),
    {
        let (result, error) = match execution {
            Ok(result) => (Some(result), None),
            Err(error) => (None, Some(error)),
        };
        AgentExecutionOutcome {
            run_id: contract.run_id.clone(),
            task_id: contract.task_id.clone(),
            agent_definition_id: contract.agent_definition_id.clone(),
            result,
            error,
        }
    }
}

/// Instructions that come in while agents work; each is heard at the start of the next call.
pub struct SharedSteeringBuffer {
    messages: Vec<String>,
}

impl View for SharedSteeringBuffer {
    type V = Seq<Seq<char>>;

    closed spec fn view(&self) -> Seq<Seq<char>> {
        texts(self.messages@)
    }
}

pub open spec fn steer_step(messages: Seq<Seq<char>>, instruction: Seq<char>) -> (
    Seq<Seq<char>>,
    Outcome<()>,
) {
    if is_blank_text(instruction) {
        (messages, failure("steering-empty"@, "instruction"@))
    } else {
        (messages.push(trimmed(instruction)), Outcome::Done(()))
    }
}

impl SharedSteeringBuffer {
    pub fn new() -> (r: Self)
        ensures
            r@ == Seq::<Seq<char>>::empty(),
    {
        broadcast use group_views;

        SharedSteeringBuffer { messages: Vec::new() }
    }

    /// Adds an instruction, without the white space around it.
    pub fn push(&mut self, instruction: &str) -> (r: Result<(), AgentError>)
        ensures
            (final(self)@, unit_outcome(r)) == steer_step(old(self)@, instruction@),
    {
        broadcast use group_views;

        if is_blank(instruction) {
            return Err(AgentError::new("steering-empty", "instruction"));
        }
        self.messages.push(trim(instruction));
        Ok(())
    }

    /// The instructions so far.
    pub fn snapshot(&self) -> (r: Vec<String>)
        ensures
            texts(r@) == self@,
    {
        duplicate_all(&self.messages)
    }
}

/// The instructions after all of `said` were pushed, one after the other.
pub open spec fn steered_with(messages: Seq<Seq<char>>, said: Seq<Seq<char>>) -> Seq<Seq<char>>
    decreases said.len(),
{
    if said.len() == 0 {
        messages
    } else {
        steer_step(steered_with(messages, said.drop_last()), said.last()).0
    }
}

/// The instructions of `said` that are accepted, without the white space around them.
pub open spec fn accepted_of(said: Seq<Seq<char>>) -> Seq<Seq<char>>
    decreases said.len(),
{
    if said.len() == 0 {
        Seq::empty()
    } else if is_blank_text(said.last()) {
        accepted_of(said.drop_last())
    } else {
        accepted_of(said.drop_last()).push(trimmed(said.last()))
    }
}

/// A buffer holds every instruction that was accepted, in the order in which they came, and gives up
/// none: what was read of it before stands at the beginning of what is read later.
pub proof fn law_instructions_are_kept_in_order(messages: Seq<Seq<char>>, said: Seq<Seq<char>>)
    ensures
        steered_with(messages, said) == messages + accepted_of(said),
        messages.is_prefix_of(steered_with(messages, said)),
    decreases said.len(),
{
    if said.len() > 0 {
        law_instructions_are_kept_in_order(messages, said.drop_last());
    }
    assert(steered_with(messages, said) =~= messages + accepted_of(said));
    assert(steered_with(messages, said).subrange(0, messages.len() as int) =~= messages);
}

/// Hands the instructions that came in so far to an agent that is about to be called.
pub struct SteeringAgentHandler {
    pub steering: SharedSteeringBuffer,
}

impl SteeringAgentHandler {
    pub fn new(steering: SharedSteeringBuffer) -> (r: Self)
        ensures
            r.steering == steering,
    {
        SteeringAgentHandler { steering }
    }

    /// The request as the agent gets it.
    pub fn steered(&self, request: AgentExecutionRequest) -> (r: AgentExecutionRequest)
        ensures
            r@ == (RequestView {
                steering_messages: request@.steering_messages + self.steering@,
                ..request@
            }),
    {
        broadcast use group_views;

        let mut request = request;
        let mut more = self.steering.snapshot();
        let mut messages = request.steering_messages;
        messages.append(&mut more);
        request.steering_messages = messages;
        request
    }
}

pub open spec fn plans_within(budget: PlanningBudget, request: RequestView) -> bool {
    &&& budget.max_planning_iterations > 0
    &&& request.contract.max_turns <= budget.max_planning_iterations
    &&& budget.max_plan_depth > 0
    &&& budget.max_wall_time_millis > 0
    &&& budget.max_discovery_actions > 0
    &&& request.context.token_cost <= budget.max_planner_tokens
}

/// Whether a request can be run, by itself.
pub open spec fn request_outcome(request: RequestView) -> Outcome<()> {
    let contract = request.contract;
    if is_blank_text(contract.objective) || contract.max_turns == 0 || is_blank_text(
        request.context.fingerprint,
    ) {
        failure("agent-dispatch-invalid"@, contract.run_id)
    } else if contract.role is Planner && contract.planning_budget is None {
        failure("planner-budget-missing"@, contract.run_id)
    } else if contract.role is Planner && !plans_within(
        contract.planning_budget->Some_0,
        request,
    ) {
        failure("planner-budget-invalid"@, contract.run_id)
    } else {
        Outcome::Done(())
    }
}

pub open spec fn runs_before(requests: Seq<RequestView>, n: int, run_id: Seq<char>) -> bool {
    exists|i: int| 0 <= i < n && (#[trigger] requests[i]).contract.run_id == run_id
}

/// Whether the first requests of a batch can be run together; the error is that of the first that
/// cannot.
pub open spec fn batch_outcome(requests: Seq<RequestView>, n: int) -> Outcome<()>
    decreases n,
{
    if n <= 0 {
        Outcome::Done(())
    } else {
        match batch_outcome(requests, n - 1) {
            Outcome::Failed(e) => Outcome::Failed(e),
            Outcome::Done(_) => {
                let request = requests[n - 1];
                if runs_before(requests, n - 1, request.contract.run_id) {
                    failure("agent-dispatch-duplicate-run"@, request.contract.run_id)
                } else {
                    request_outcome(request)
                }
            },
        }
    }
}

/// Whether a run may start: it may not once it was cancelled, or its time is over.
pub open spec fn start_outcome(contract: ContractView, cancelled: bool, now: i64) -> Outcome<()> {
    if cancelled {
        failure("agent-run-cancelled-before-start"@, contract.run_id)
    } else if now >= contract.deadline_millis {
        failure("agent-run-deadline-exceeded"@, contract.run_id)
    } else {
        Outcome::Done(())
    }
}

fn check_request(request: &AgentExecutionRequest) -> (r: Result<(), AgentError>)
    ensures
        unit_outcome(r) == request_outcome(request@),
{
    let contract = &request.contract;
    if is_blank(contract.objective.as_str()) || contract.max_turns == 0 || is_blank(
        request.context.fingerprint.as_str(),
    ) {
        return Err(AgentError::new("agent-dispatch-invalid", contract.run_id.as_str()));
    }
    if contract.role == AgentRole::Planner {
        match &contract.planning_budget {
            None => {
                return Err(AgentError::new("planner-budget-missing", contract.run_id.as_str()));
            },
            Some(budget) => {
                if budget.max_planning_iterations == 0 || contract.max_turns
                    > budget.max_planning_iterations || budget.max_plan_depth == 0
                    || budget.max_wall_time_millis == 0 || budget.max_discovery_actions == 0
                    || request.context.token_cost > budget.max_planner_tokens {
                    return Err(AgentError::new("planner-budget-invalid", contract.run_id.as_str()));
                }
            },
        }
    }
    Ok(())
}

/// Checks that a run may start.
pub fn check_start(contract: &AgentTaskContract, cancelled: bool, now_millis: i64) -> (r: Result<
    (),
    AgentError,
>)
    ensures
        unit_outcome(r) == start_outcome(contract@, cancelled, now_millis),
{
    if cancelled {
        Err(AgentError::new("agent-run-cancelled-before-start", contract.run_id.as_str()))
    } else if now_millis >= contract.deadline_millis {
        Err(AgentError::new("agent-run-deadline-exceeded", contract.run_id.as_str()))
    } else {
        Ok(())
    }
}

/// The order in which outcomes are merged: by task, and by run among equals.
pub open spec fn merged_before(a: RunOutcomeView, b: RunOutcomeView) -> bool {
    text_less(a.task_id, b.task_id) || (a.task_id == b.task_id && text_less(a.run_id, b.run_id))
}

/// Where an outcome goes among ordered ones: behind all that it does not come before.
pub open spec fn merge_place(ordered: Seq<RunOutcomeView>, item: RunOutcomeView, n: int) -> int
    decreases n,
{
    if n <= 0 {
        0
    } else if merged_before(item, ordered[n - 1]) {
        merge_place(ordered, item, n - 1)
    } else {
        n
    }
}

/// The outcomes in order; those that are equal in it stay as they came.
pub open spec fn merged(outcomes: Seq<RunOutcomeView>) -> Seq<RunOutcomeView>
    decreases outcomes.len(),
{
    if outcomes.len() == 0 {
        Seq::empty()
    } else {
        let before = merged(outcomes.drop_last());
        before.insert(merge_place(before, outcomes.last(), before.len() as int), outcomes.last())
    }
}

pub open spec fn in_merge_order(outcomes: Seq<RunOutcomeView>) -> bool {
    forall|i: int, j: int|
        0 <= i < j < outcomes.len() ==> !merged_before(
            #[trigger] outcomes[j],
            #[trigger] outcomes[i],
        )
}

proof fn lemma_merged_before_transitive(a: RunOutcomeView, b: RunOutcomeView, c: RunOutcomeView)
    requires
        merged_before(a, b),
        merged_before(b, c),
    ensures
        merged_before(a, c),
{
    if text_less(a.task_id, b.task_id) {
        if text_less(b.task_id, c.task_id) {
            lemma_text_less_transitive(a.task_id, b.task_id, c.task_id);
        }
    } else if !text_less(b.task_id, c.task_id) {
        lemma_text_less_transitive(a.run_id, b.run_id, c.run_id);
    }
}

proof fn lemma_not_before_transitive(a: RunOutcomeView, b: RunOutcomeView, c: RunOutcomeView)
    requires
        !merged_before(b, a),
        !merged_before(c, b),
    ensures
        !merged_before(c, a),
{
    lemma_text_less_total(a.task_id, b.task_id);
    lemma_text_less_total(b.task_id, c.task_id);
    lemma_text_less_total(a.run_id, b.run_id);
    lemma_text_less_total(b.run_id, c.run_id);
    if merged_before(c, a) {
        if merged_before(a, b) {
            lemma_merged_before_transitive(c, a, b);
        } else if merged_before(b, c) {
            lemma_merged_before_transitive(b, c, a);
        } else {
            lemma_text_less_irreflexive(a.task_id);
            lemma_text_less_irreflexive(a.run_id);
            lemma_text_less_irreflexive(b.task_id);
        }
    }
}

proof fn lemma_merge_place(ordered: Seq<RunOutcomeView>, item: RunOutcomeView, n: int)
    requires
        0 <= n <= ordered.len(),
    ensures
        0 <= merge_place(ordered, item, n) <= n,
        forall|k: int|
            merge_place(ordered, item, n) <= k < n ==> merged_before(item, #[trigger] ordered[k]),
        merge_place(ordered, item, n) > 0 ==> !merged_before(
            item,
            ordered[merge_place(ordered, item, n) - 1],
        ),
    decreases n,
{
    if n > 0 && merged_before(item, ordered[n - 1]) {
        lemma_merge_place(ordered, item, n - 1);
    }
}

/// Merging keeps every outcome, and brings them in order.
pub proof fn law_merging_orders_the_outcomes(outcomes: Seq<RunOutcomeView>)
    ensures
        in_merge_order(merged(outcomes)),
        merged(outcomes).to_multiset() == outcomes.to_multiset(),
        merged(outcomes).len() == outcomes.len(),
    decreases outcomes.len(),
{
    broadcast use vstd::seq_lib::group_to_multiset_ensures;

    if outcomes.len() > 0 {
        let item = outcomes.last();
        let before = merged(outcomes.drop_last());
        law_merging_orders_the_outcomes(outcomes.drop_last());
        let at = merge_place(before, item, before.len() as int);
        lemma_merge_place(before, item, before.len() as int);
        lemma_insert_multiset(before, at, item);
        assert(outcomes =~= outcomes.drop_last().push(item));
        let after = merged(outcomes);
        assert forall|i: int, j: int| 0 <= i < j < after.len() implies !merged_before(
            #[trigger] after[j],
            #[trigger] after[i],
        ) by {
            let x = if i < at { i } else { i - 1 };
            let y = if j < at { j } else { j - 1 };
            if i != at && j != at {
                assert(after[i] == before[x] && after[j] == before[y]);
            } else if i == at {
                assert(after[j] == before[y]);
                assert(merged_before(item, before[y]));
                if merged_before(before[y], item) {
                    lemma_merged_before_transitive(item, before[y], item);
                    lemma_text_less_irreflexive(item.task_id);
                    lemma_text_less_irreflexive(item.run_id);
                }
            } else {
                assert(after[i] == before[i]);
                if i < at - 1 {
                    assert(!merged_before(before[at - 1], before[i]));
                    lemma_not_before_transitive(before[i], before[at - 1], item);
                }
            }
        }
    }
}

/// How many agents run at the same time.
pub struct BoundedAgentExecutor {
    max_parallel: usize,
}

impl View for BoundedAgentExecutor {
    type V = usize;

    closed spec fn view(&self) -> usize {
        self.max_parallel
    }
}

impl BoundedAgentExecutor {
    pub fn new(max_parallel: usize) -> (r: Result<Self, AgentError>)
        ensures
            match r {
                Ok(e) => max_parallel > 0 && e@ == max_parallel,
                Err(e) => max_parallel == 0 && e@ == (ErrorView {
                    code: "agent-executor-zero-parallelism"@,
                    message: "0"@,
                }),
            },
    {
        if max_parallel == 0 {
            return Err(AgentError::new("agent-executor-zero-parallelism", "0"));
        }
        Ok(BoundedAgentExecutor { max_parallel })
    }

    /// Accepts a batch. Gives the number of workers that run it: as many as may run at the same
    /// time, and no more than there are requests.
    pub fn accept(&self, requests: &Vec<AgentExecutionRequest>) -> (r: Result<usize, AgentError>)
        ensures
            match r {
                Ok(workers) => batch_outcome(views(requests@), requests@.len() as int) is Done
                    && workers == (if self@ < requests@.len() {
                    self@ as int
                } else {
                    requests@.len() as int
                }),
                Err(e) => batch_outcome(views(requests@), requests@.len() as int)
                    == Outcome::<()>::Failed(e@),
            },
    {
        let ghost all = views(requests@);
        let mut i: usize = 0;
        while i < requests.len()
            invariant
                i <= requests.len(),
                all == views(requests@),
                batch_outcome(all, i as int) is Done,
            decreases requests.len() - i,
        {
            let request = &requests[i];
            assert(all[i as int] == request@);
            let repeated = run_before(requests, i, request.contract.run_id.as_str());
            let checked = if repeated {
                Err(
                    AgentError::new(
                        "agent-dispatch-duplicate-run",
                        request.contract.run_id.as_str(),
                    ),
                )
            } else {
                check_request(request)
            };
            match checked {
                Ok(()) => {},
                Err(error) => {
                    assert(batch_outcome(all, i as int + 1) == Outcome::<()>::Failed(error@));
                    proof {
                        lemma_batch_fails(all, i as int + 1, all.len() as int);
                    }
                    return Err(error);
                },
            }
            i = i + 1;
        }
        if self.max_parallel < requests.len() {
            Ok(self.max_parallel)
        } else {
            Ok(requests.len())
        }
    }
}

proof fn lemma_batch_fails(requests: Seq<RequestView>, n: int, m: int)
    requires
        batch_outcome(requests, n) is Failed,
        n <= m,
    ensures
        batch_outcome(requests, m) == batch_outcome(requests, n),
    decreases m - n,
{
    if n < m {
        lemma_batch_fails(requests, n, m - 1);
    }
}

fn run_before(requests: &Vec<AgentExecutionRequest>, n: usize, run_id: &str) -> (r: bool)
    requires
        n <= requests.len(),
    ensures
        r == runs_before(views(requests@), n as int, run_id@),
{
    let mut i: usize = 0;
    while i < n
        invariant
            i <= n <= requests.len(),
            forall|k: int|
                0 <= k < i ==> (#[trigger] views(requests@)[k]).contract.run_id != run_id@,
        decreases n - i,
    {
        assert(views(requests@)[i as int] == requests@[i as int]@);
        if same(requests[i].contract.run_id.as_str(), run_id) {
            return true;
        }
        i = i + 1;
    }
    false
}

/// Brings outcomes, which come in as the runs end, in the order in which they are merged.
pub fn merge_outcomes(outcomes: Vec<AgentExecutionOutcome>) -> (r: Vec<AgentExecutionOutcome>)
    ensures
        views(r@) == merged(views(outcomes@)),
{
    let ghost all = views(outcomes@);
    let mut rest = outcomes;
    let mut r: Vec<AgentExecutionOutcome> = Vec::new();
    let ghost mut done: int = 0;
    assert(all.subrange(0, 0) =~= Seq::empty());
    assert(all.subrange(0, all.len() as int) =~= all);
    while rest.len() > 0
        invariant
            0 <= done <= all.len(),
            views(rest@) == all.subrange(done, all.len() as int),
            views(r@) == merged(all.subrange(0, done)),
        decreases rest.len(),
    {
        broadcast use group_views;

        let ghost before = views(r@);
        let ghost next = all.subrange(0, done + 1);
        assert(views(rest@).len() == rest@.len());
        assert(views(rest@)[0] == all[done]);
        let item = rest.remove(0);
        assert(next.drop_last() =~= all.subrange(0, done));
        assert(next.last() == item@);
        let mut at: usize = r.len();
        while at > 0 && comes_before(&item, &r[at - 1])
            invariant
                at <= r.len(),
                views(r@) == before,
                merge_place(before, item@, before.len() as int) == merge_place(
                    before,
                    item@,
                    at as int,
                ),
            decreases at,
        {
            assert(before[at - 1] == r@[at - 1]@);
            at = at - 1;
        }
        assert(at > 0 ==> before[at - 1] == r@[at - 1]@);
        r.insert(at, item);
        assert(views(rest@) =~= all.subrange(done + 1, all.len() as int));
        proof {
            done = done + 1;
        }
    }
    assert(all.subrange(0, done) =~= all);
    r
}

fn comes_before(a: &AgentExecutionOutcome, b: &AgentExecutionOutcome) -> (r: bool)
    ensures
        r == merged_before(a@, b@),
{
    less(a.task_id.as_str(), b.task_id.as_str()) || (same(a.task_id.as_str(), b.task_id.as_str())
        && less(a.run_id.as_str(), b.run_id.as_str()))
}

} // verus!
