//! What is done for the effects of a mission: a run is started, resumed, verified or cancelled.

use vstd::prelude::*;
use vstd::string::*;

use crate::application::{AppView, HarnessApplication};
use crate::budget::BudgetEscrowStatus;
use crate::error::{
    error_text, failure, list_outcome, outcome, ApplicationError, ErrorView, Outcome,
};
use crate::exchange::{no_metrics, AgentExecutionMetrics};
use crate::json::{object, text_json, Json, JsonView};
use crate::mission::{
    ClaimedEffect, ClaimedEffectView, CommandView, EventPriority, EventView, HarnessEvent,
    MissionCommand, MissionState, MissionStep, MissionStepView, MissionView,
};
use crate::model::views;
use crate::results::{bare_result, plain_result, CONFIDENCE_HALF};
use crate::runs::{cancel_control, finish_run_step, set_status_step};
use crate::state_store::AgentSessionStatus;
use crate::team_finish::{complete_step, completed, save_result_step, waiting_json, waiting_result};
use crate::text::{chars_of, same, starts_with, starts_with_text, string_of};

verus! {

/// The agent of a node.
pub open spec fn agent_of(m: MissionView, node: Seq<char>) -> Outcome<Seq<char>> {
    if m.nodes.contains_key(node) {
        Outcome::Done(m.nodes[node].agent_definition_id)
    } else {
        failure("agent-node-missing"@, node)
    }
}

pub fn agent_of_node(mission: &MissionState, node_id: &str) -> (r: Result<String, ApplicationError>)
    ensures
        outcome(r) == agent_of(mission@, node_id@),
{
    match mission.nodes.get(node_id) {
        Some(node) => Ok(node.agent_definition_id.clone()),
        None => Err(ApplicationError::new("agent-node-missing", node_id)),
    }
}

/// What is done once the main agent has answered: its answer is stored, the node is submitted and
/// the effect is completed.
pub open spec fn submit_step(
    s: AppView,
    claimed: ClaimedEffectView,
    node: Seq<char>,
    run: Seq<char>,
    output: Seq<char>,
    now: i64,
) -> (AppView, Outcome<Seq<MissionStepView>>) {
    let s1 = save_result_step(
        s,
        run,
        plain_result("completed"@, output, no_metrics(), CONFIDENCE_HALF),
        now,
    );
    let (s2, r2) = set_status_step(s1, run, AgentSessionStatus::Submitted, now);
    match r2 {
        Outcome::Failed(e) => (s2, Outcome::Failed(e)),
        Outcome::Done(_) => (
            s2,
            Outcome::Done(
                seq![
                    MissionStepView::Command {
                        command: CommandView::SubmitNode {
                            node_id: node,
                            run_id: run,
                            output_summary: output,
                        },
                    },
                    completed(claimed, None, now),
                ],
            ),
        ),
    }
}

/// The invocation that an error waits for, if it asks for an approval.
pub open spec fn awaited(error: ErrorView) -> Option<Outcome<Seq<char>>> {
    if error.code != "tool-approval-required"@ {
        None
    } else if starts_with_text(error.message, "invocation="@) {
        Some(
            Outcome::Done(
                error.message.subrange("invocation="@.len() as int, error.message.len() as int),
            ),
        )
    } else {
        Some(failure("tool-approval-continuation-invalid"@, error.message))
    }
}

pub fn awaited_invocation(error: &ApplicationError) -> (r: Option<Result<String, ApplicationError>>)
    ensures
        match r {
            None => awaited(error@) is None,
            Some(found) => awaited(error@) == Some(outcome(found)),
        },
{
    if !same(error.code.as_str(), "tool-approval-required") {
        return None;
    }
    let message = error.message.as_str();
    if starts_with(message, "invocation=") {
        let chars = chars_of(message);
        let from: usize = "invocation=".unicode_len();
        Some(Ok(string_of(&chars, from, chars.len())))
    } else {
        Some(Err(ApplicationError::new("tool-approval-continuation-invalid", message)))
    }
}

/// The run of the main agent waits for an approval; its effect is completed.
pub open spec fn await_step(
    s: AppView,
    claimed: ClaimedEffectView,
    run: Seq<char>,
    request_id: Seq<char>,
    invocation_id: Seq<char>,
    now: i64,
) -> (AppView, Outcome<MissionStepView>) {
    let (s1, r1) = set_status_step(s, run, AgentSessionStatus::WaitingApproval, now);
    (
        s1,
        match r1 {
            Outcome::Failed(e) => Outcome::Failed(e),
            Outcome::Done(_) => Outcome::Done(
                completed(claimed, Some(waiting_json(request_id, invocation_id)), now),
            ),
        },
    )
}

/// The run of the main agent has failed, and its effect was completed as failed.
pub open spec fn abandon_step(
    s: AppView,
    agent: Seq<char>,
    node: Seq<char>,
    run: Seq<char>,
    error: ErrorView,
    now: i64,
) -> (AppView, Outcome<MissionStepView>) {
    let (s1, r1) = set_status_step(s, run, AgentSessionStatus::Failed, now);
    match r1 {
        Outcome::Failed(e) => (s1, Outcome::Failed(e)),
        Outcome::Done(_) => {
            let (s2, r2) = finish_run_step(s1, agent, run, BudgetEscrowStatus::Failed, now);
            (
                s2,
                match r2 {
                    Outcome::Failed(e) => Outcome::Failed(e),
                    Outcome::Done(_) => Outcome::Done(
                        MissionStepView::Command {
                            command: CommandView::FailNode {
                                node_id: node,
                                run_id: run,
                                error: error_text(error),
                            },
                        },
                    ),
                },
            )
        },
    }
}

/// Verifying a run: it is over, and its node is accepted.
pub open spec fn verify_step(
    s: AppView,
    m: MissionView,
    claimed: ClaimedEffectView,
    node: Seq<char>,
    run: Seq<char>,
    now: i64,
) -> (AppView, Outcome<Seq<MissionStepView>>) {
    match agent_of(m, node) {
        Outcome::Failed(e) => (s, Outcome::Failed(e)),
        Outcome::Done(agent) => {
            let (s1, r1) = set_status_step(s, run, AgentSessionStatus::Completed, now);
            match r1 {
                Outcome::Failed(e) => (s1, Outcome::Failed(e)),
                Outcome::Done(_) => {
                    let (s2, r2) = finish_run_step(
                        s1,
                        agent,
                        run,
                        BudgetEscrowStatus::Completed,
                        now,
                    );
                    match r2 {
                        Outcome::Failed(e) => (s2, Outcome::Failed(e)),
                        Outcome::Done(_) => (
                            s2,
                            Outcome::Done(
                                seq![
                                    MissionStepView::Command {
                                        command: CommandView::AcceptNode {
                                            node_id: node,
                                            run_id: run,
                                        },
                                    },
                                    completed(claimed, None, now),
                                ],
                            ),
                        ),
                    }
                },
            }
        },
    }
}

pub open spec fn cancelled_run_json(run: Seq<char>, reason: Seq<char>) -> JsonView {
    JsonView::Object(
        seq![
            ("cancelledRunId"@, JsonView::Text(run)),
            ("reason"@, JsonView::Text(reason)),
        ],
    )
}

/// Cancelling a run: it and all below it are asked to stop, and it is over.
pub open spec fn cancel_run_step(
    s: AppView,
    m: MissionView,
    claimed: ClaimedEffectView,
    node: Seq<char>,
    run: Seq<char>,
    reason: Seq<char>,
    now: i64,
) -> (AppView, Outcome<Seq<MissionStepView>>) {
    match agent_of(m, node) {
        Outcome::Failed(e) => (s, Outcome::Failed(e)),
        Outcome::Done(agent) => {
            let s1 = cancel_control(s, run);
            let (s2, r2) = set_status_step(s1, run, AgentSessionStatus::Cancelled, now);
            match r2 {
                Outcome::Failed(e) => (s2, Outcome::Failed(e)),
                Outcome::Done(_) => {
                    let (s3, r3) = finish_run_step(
                        s2,
                        agent,
                        run,
                        BudgetEscrowStatus::Cancelled,
                        now,
                    );
                    match r3 {
                        Outcome::Failed(e) => (s3, Outcome::Failed(e)),
                        Outcome::Done(_) => (
                            s3,
                            Outcome::Done(
                                seq![
                                    MissionStepView::Publish {
                                        event: EventView::AgentStatus {
                                            agent_id: agent,
                                            role: "Worker"@,
                                            status: "cancelled"@,
                                            detail: node + ": "@ + reason,
                                        },
                                        priority: EventPriority::Critical,
                                    },
                                    completed(
                                        claimed,
                                        Some(cancelled_run_json(run, reason)),
                                        now,
                                    ),
                                ],
                            ),
                        ),
                    }
                },
            }
        },
    }
}

impl HarnessApplication {
    /// Submits the answer of the main agent.
    pub fn submit_output(
        &mut self,
        claimed: &ClaimedEffect,
        node_id: &str,
        run_id: &str,
        output: &str,
        now: i64,
    ) -> (r: Result<Vec<MissionStep>, ApplicationError>)
        ensures
            (final(self)@, list_outcome(r)) == submit_step(
                old(self)@,
                claimed@,
                node_id@,
                run_id@,
                output@,
                now,
            ),
    {
        let result = bare_result(
            "completed",
            output.to_string(),
            AgentExecutionMetrics::default(),
            CONFIDENCE_HALF,
        );
        self.save_agent_result(run_id, &result, now);
        match self.set_agent_session_status(run_id, AgentSessionStatus::Submitted, now) {
            Ok(()) => {},
            Err(error) => {
                return Err(error);
            },
        }
        let steps: Vec<MissionStep> = vec![
            MissionStep::Command {
                command: MissionCommand::SubmitNode {
                    node_id: node_id.to_string(),
                    run_id: run_id.to_string(),
                    output_summary: output.to_string(),
                },
            },
            complete_step(claimed, None, now),
        ];
        assert(views(steps@) =~= seq![
            MissionStepView::Command {
                command: CommandView::SubmitNode {
                    node_id: node_id@,
                    run_id: run_id@,
                    output_summary: output@,
                },
            },
            completed(claimed@, None, now),
        ]);
        Ok(steps)
    }

    /// Records that the run of the main agent waits for an approval. Gives the step that completes
    /// its effect.
    pub fn await_approval(
        &mut self,
        claimed: &ClaimedEffect,
        run_id: &str,
        request_id: &str,
        invocation_id: &str,
        now: i64,
    ) -> (r: Result<MissionStep, ApplicationError>)
        ensures
            (final(self)@, outcome(r)) == await_step(
                old(self)@,
                claimed@,
                run_id@,
                request_id@,
                invocation_id@,
                now,
            ),
    {
        match self.set_agent_session_status(run_id, AgentSessionStatus::WaitingApproval, now) {
            Ok(()) => Ok(
                complete_step(claimed, Some(waiting_result(request_id, invocation_id)), now),
            ),
            Err(error) => Err(error),
        }
    }

    /// Gives up the run of the main agent, after its effect was completed as failed. Gives the
    /// step that fails its node.
    pub fn abandon_run(
        &mut self,
        agent_id: &str,
        node_id: &str,
        run_id: &str,
        error: &ApplicationError,
        now: i64,
    ) -> (r: Result<MissionStep, ApplicationError>)
        ensures
            (final(self)@, outcome(r)) == abandon_step(
                old(self)@,
                agent_id@,
                node_id@,
                run_id@,
                error@,
                now,
            ),
    {
        match self.set_agent_session_status(run_id, AgentSessionStatus::Failed, now) {
            Ok(()) => {},
            Err(refused) => {
                return Err(refused);
            },
        }
        match self.finish_agent_run(agent_id, run_id, BudgetEscrowStatus::Failed, now) {
            Ok(()) => {},
            Err(refused) => {
                return Err(refused);
            },
        }
        Ok(
            MissionStep::Command {
                command: MissionCommand::FailNode {
                    node_id: node_id.to_string(),
                    run_id: run_id.to_string(),
                    error: error.text(),
                },
            },
        )
    }

    /// Ends a run that was verified.
    pub fn verify_run(
        &mut self,
        mission: &MissionState,
        claimed: &ClaimedEffect,
        node_id: &str,
        run_id: &str,
        now: i64,
    ) -> (r: Result<Vec<MissionStep>, ApplicationError>)
        ensures
            (final(self)@, list_outcome(r)) == verify_step(
                old(self)@,
                mission@,
                claimed@,
                node_id@,
                run_id@,
                now,
            ),
    {
        let agent_id = match agent_of_node(mission, node_id) {
            Ok(agent_id) => agent_id,
            Err(error) => {
                return Err(error);
            },
        };
        match self.set_agent_session_status(run_id, AgentSessionStatus::Completed, now) {
            Ok(()) => {},
            Err(error) => {
                return Err(error);
            },
        }
        match self.finish_agent_run(
            agent_id.as_str(),
            run_id,
            BudgetEscrowStatus::Completed,
            now,
        ) {
            Ok(()) => {},
            Err(error) => {
                return Err(error);
            },
        }
        let steps: Vec<MissionStep> = vec![
            MissionStep::Command {
                command: MissionCommand::AcceptNode {
                    node_id: node_id.to_string(),
                    run_id: run_id.to_string(),
                },
            },
            complete_step(claimed, None, now),
        ];
        assert(views(steps@) =~= seq![
            MissionStepView::Command {
                command: CommandView::AcceptNode { node_id: node_id@, run_id: run_id@ },
            },
            completed(claimed@, None, now),
        ]);
        Ok(steps)
    }

    /// Ends a run that was cancelled.
    pub fn cancel_run(
        &mut self,
        mission: &MissionState,
        claimed: &ClaimedEffect,
        node_id: &str,
        run_id: &str,
        reason: &str,
        now: i64,
    ) -> (r: Result<Vec<MissionStep>, ApplicationError>)
        ensures
            (final(self)@, list_outcome(r)) == cancel_run_step(
                old(self)@,
                mission@,
                claimed@,
                node_id@,
                run_id@,
                reason@,
                now,
            ),
    {
        let agent_id = match agent_of_node(mission, node_id) {
            Ok(agent_id) => agent_id,
            Err(error) => {
                return Err(error);
            },
        };
        self.cancel_run_control(run_id);
        match self.set_agent_session_status(run_id, AgentSessionStatus::Cancelled, now) {
            Ok(()) => {},
            Err(error) => {
                return Err(error);
            },
        }
        match self.finish_agent_run(
            agent_id.as_str(),
            run_id,
            BudgetEscrowStatus::Cancelled,
            now,
        ) {
            Ok(()) => {},
            Err(error) => {
                return Err(error);
            },
        }
        let mut detail: String = node_id.to_string();
        detail.append(": ");
        detail.append(reason);
        let members: Vec<(String, Json)> = vec![
            ("cancelledRunId".to_string(), text_json(run_id)),
            ("reason".to_string(), text_json(reason)),
        ];
        let result = object(members);
        assert(result@->Object_0 =~= cancelled_run_json(run_id@, reason@)->Object_0);
        let ghost agent = agent_id@;
        let steps: Vec<MissionStep> = vec![
            MissionStep::Publish {
                event: HarnessEvent::AgentStatus {
                    agent_id,
                    role: "Worker".to_string(),
                    status: "cancelled".to_string(),
                    detail,
                },
                priority: EventPriority::Critical,
            },
            complete_step(claimed, Some(result), now),
        ];
        assert(views(steps@) =~= seq![
            MissionStepView::Publish {
                event: EventView::AgentStatus {
                    agent_id: agent,
                    role: "Worker"@,
                    status: "cancelled"@,
                    detail: node_id@ + ": "@ + reason@,
                },
                priority: EventPriority::Critical,
            },
            completed(claimed@, Some(cancelled_run_json(run_id@, reason@)), now),
        ]);
        Ok(steps)
    }
}

} // verus!
