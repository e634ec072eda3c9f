//! The life of an agent's run: what is reserved, recorded and charged for it, and how it ends.

use vstd::prelude::*;
use vstd::string::*;

use crate::application::{AppView, HarnessApplication};
use crate::budget::{
    charge_budget, escrow_of, release_budget, reserve_budget, AgentBudgetRequest,
    BudgetEscrowStatus,
};
use crate::cancellation::{
    cancel_step, finish_step, has_run, lemma_last_run_finishes, register_step, runs_ok, ControlView,
};
use crate::catalog::{active, catalog_ok, release_step, reserve_step, start_step};
use crate::error::{agent_error, failure, unit_outcome, ApplicationError, Outcome};
use crate::execution::{AgentWorkingContext, WorkingView};
use crate::mission::{MissionState, MissionView};
use crate::model::{duplicate_option, option_view};
use crate::roles::{first_role, AgentRole};
use crate::scheduling::saturating_sum;
use crate::state_store::{
    create_session_step, keyed_by_id, next_version, update_endpoint_step, update_session_step,
    AgentEndpointStatus, AgentSession,
    AgentSessionStatus, EndpointView, SessionView,
};

verus! {

pub open spec fn session_of_run(run_id: Seq<char>) -> Seq<char> {
    "agent-session:"@ + run_id
}

/// The id of the session of a run.
pub fn agent_session_id(run_id: &str) -> (r: String)
    ensures
        r@ == session_of_run(run_id@),
{
    let mut r: String = "agent-session:".to_string();
    r.append(run_id);
    r
}

/// The role in which an agent works: the first of its roles; an agent that is not known codes.
pub open spec fn working_role(s: AppView, agent: Seq<char>) -> AgentRole {
    match s.agent_catalog {
        Some(c) => if c.contains_key(agent) {
            match first_role(c[agent].definition.roles) {
                Some(role) => role,
                None => AgentRole::Coder,
            }
        } else {
            AgentRole::Coder
        },
        None => AgentRole::Coder,
    }
}

/// Storing a session that was changed. One that is not there, or not stored at all, is left out.
pub open spec fn put_session(s: AppView, session: SessionView, now: i64) -> (AppView, Outcome<()>) {
    let st = s.agent_state->Some_0;
    let (after, _, done) = update_session_step(
        st,
        session.version,
        SessionView { updated_at_millis: now, ..session },
    );
    (AppView { agent_state: Some(after), ..s }, done)
}

pub open spec fn session_stored(s: AppView, run_id: Seq<char>) -> Option<SessionView> {
    match s.agent_state {
        Some(st) => if st.sessions.contains_key(session_of_run(run_id)) {
            Some(st.sessions[session_of_run(run_id)])
        } else {
            None
        },
        None => None,
    }
}

pub open spec fn set_status_step(
    s: AppView,
    run_id: Seq<char>,
    status: AgentSessionStatus,
    now: i64,
) -> (AppView, Outcome<()>) {
    match session_stored(s, run_id) {
        Some(session) => put_session(s, SessionView { status, ..session }, now),
        None => (s, Outcome::Done(())),
    }
}

pub open spec fn set_fingerprint_step(
    s: AppView,
    run_id: Seq<char>,
    fingerprint: Seq<char>,
    now: i64,
) -> (AppView, Outcome<()>) {
    match session_stored(s, run_id) {
        Some(session) => put_session(
            s,
            SessionView { context_fingerprint: fingerprint, ..session },
            now,
        ),
        None => (s, Outcome::Done(())),
    }
}

pub open spec fn set_response_step(
    s: AppView,
    run_id: Seq<char>,
    response_id: Option<Seq<char>>,
    now: i64,
) -> (AppView, Outcome<()>) {
    match session_stored(s, run_id) {
        Some(session) => put_session(
            s,
            SessionView { previous_response_id: response_id, ..session },
            now,
        ),
        None => (s, Outcome::Done(())),
    }
}

pub open spec fn endpoint_of_agent(agent: Seq<char>) -> Seq<char> {
    "endpoint:"@ + agent
}

pub open spec fn adjusted(e: EndpointView, starting: bool, now: i64) -> EndpointView {
    let active_runs: usize = if starting {
        if e.active_runs == usize::MAX {
            e.active_runs
        } else {
            (e.active_runs + 1) as usize
        }
    } else {
        if e.active_runs == 0 {
            0usize
        } else {
            (e.active_runs - 1) as usize
        }
    };
    EndpointView {
        active_runs,
        status: if active_runs == 0 {
            AgentEndpointStatus::Idle
        } else {
            AgentEndpointStatus::Busy
        },
        last_heartbeat_millis: now,
        ..e
    }
}

/// Counting a run of an agent in or out at its endpoint.
pub open spec fn adjust_step(s: AppView, agent: Seq<char>, starting: bool, now: i64) -> (
    AppView,
    Outcome<()>,
) {
    match s.agent_state {
        Some(st) => if st.endpoints.contains_key(endpoint_of_agent(agent)) {
            let e = st.endpoints[endpoint_of_agent(agent)];
            let (after, _, done) = update_endpoint_step(st, e.version, adjusted(e, starting, now));
            (AppView { agent_state: Some(after), ..s }, done)
        } else {
            (s, Outcome::Done(()))
        },
        None => (s, Outcome::Done(())),
    }
}

pub open spec fn finish_control(s: AppView, run_id: Seq<char>) -> (AppView, Outcome<()>) {
    if has_run(s.run_controls, run_id) {
        let (runs, done) = finish_step(s.run_controls, run_id);
        (AppView { run_controls: runs, ..s }, done)
    } else {
        (s, Outcome::Done(()))
    }
}

pub open spec fn release_agent(s: AppView, agent: Seq<char>) -> (AppView, Outcome<()>) {
    match s.agent_catalog {
        Some(c) => if active(c, agent) > 0 {
            let (after, done) = release_step(c, agent);
            (AppView { agent_catalog: Some(after), ..s }, done)
        } else {
            (s, Outcome::Done(()))
        },
        None => (s, Outcome::Done(())),
    }
}

pub open spec fn as_unit<T>(o: Outcome<T>) -> Outcome<()> {
    match o {
        Outcome::Done(_) => Outcome::Done(()),
        Outcome::Failed(e) => Outcome::Failed(e),
    }
}

pub open spec fn release_escrow(s: AppView, run_id: Seq<char>, status: BudgetEscrowStatus) -> (
    AppView,
    Outcome<()>,
) {
    match s.agent_budgets {
        Some(rows) => if escrow_of(rows, run_id) is Some {
            let (after, done) = release_budget(rows, run_id, status);
            (AppView { agent_budgets: Some(after), ..s }, as_unit(done))
        } else {
            (s, Outcome::Done(()))
        },
        None => (s, Outcome::Done(())),
    }
}

/// Ending a run: its control, its place in the catalog and at its endpoint, and its escrow. What
/// was given back stays so if a later part is refused.
pub open spec fn finish_run_step(
    s: AppView,
    agent: Seq<char>,
    run_id: Seq<char>,
    status: BudgetEscrowStatus,
    now: i64,
) -> (AppView, Outcome<()>) {
    let (s1, r1) = finish_control(s, run_id);
    if r1 is Failed {
        (s1, r1)
    } else {
        let (s2, r2) = release_agent(s1, agent);
        if r2 is Failed {
            (s2, r2)
        } else {
            let (s3, r3) = adjust_step(s2, agent, false, now);
            if r3 is Failed {
                (s3, r3)
            } else {
                release_escrow(s3, run_id, status)
            }
        }
    }
}

/// Charging a run, if there is one and budgets are kept.
pub open spec fn charge_step(
    s: AppView,
    run_id: Option<Seq<char>>,
    tokens: u64,
    tool_calls: u64,
    now: i64,
) -> (AppView, Outcome<()>) {
    match (run_id, s.agent_budgets) {
        (Some(run), Some(rows)) => {
            let (after, done) = charge_budget(rows, run, tokens, tool_calls, now);
            (AppView { agent_budgets: Some(after), ..s }, as_unit(done))
        },
        _ => (s, Outcome::Done(())),
    }
}

/// What is set aside for a run: its context and an answer, sixteen calls, two minutes, one retry.
pub open spec fn run_budget(token_cost: u32) -> AgentBudgetRequest {
    let tokens = saturating_sum(token_cost as u64, 4096);
    AgentBudgetRequest {
        reserved_tokens: if tokens < 8192 {
            8192
        } else {
            tokens
        },
        reserved_tool_calls: 16,
        reserved_runtime_millis: 120000,
        reserved_retries: 1,
    }
}

pub open spec fn reserve_run(
    s: AppView,
    mission_id: Seq<char>,
    run_id: Seq<char>,
    token_cost: u32,
    now: i64,
) -> (AppView, Outcome<()>) {
    match s.agent_budgets {
        Some(rows) => {
            let (after, done) = reserve_budget(
                rows,
                mission_id,
                run_id,
                run_budget(token_cost),
                s.agent_budget_policy,
                now,
            );
            (AppView { agent_budgets: Some(after), ..s }, as_unit(done))
        },
        None => (s, Outcome::Done(())),
    }
}

/// Taking an agent of the catalog for a run; if none is free the control of the run is given up.
pub open spec fn occupy_agent(s: AppView, agent: Seq<char>, run_id: Seq<char>) -> (
    AppView,
    Outcome<()>,
) {
    match s.agent_catalog {
        Some(c) => if c.contains_key(agent) {
            let (c1, r1) = reserve_step(c, agent);
            let (c2, r2) = if r1 is Done {
                start_step(c1, agent)
            } else {
                (c1, r1)
            };
            if r2 is Failed {
                (
                    AppView {
                        agent_catalog: Some(c2),
                        run_controls: finish_step(s.run_controls, run_id).0,
                        ..s
                    },
                    r2,
                )
            } else {
                (AppView { agent_catalog: Some(c2), ..s }, r2)
            }
        } else {
            (s, Outcome::Done(()))
        },
        None => (s, Outcome::Done(())),
    }
}

pub open spec fn new_session(
    mission_id: Seq<char>,
    node_id: Seq<char>,
    run_id: Seq<char>,
    endpoint_id: Seq<char>,
    agent: Seq<char>,
    role: AgentRole,
    fingerprint: Seq<char>,
    now: i64,
) -> SessionView {
    SessionView {
        id: session_of_run(run_id),
        mission_id,
        task_id: node_id,
        run_id,
        parent_run_id: None,
        endpoint_id,
        agent_definition_id: agent,
        role,
        status: AgentSessionStatus::Running,
        context_fingerprint: fingerprint,
        previous_response_id: None,
        created_at_millis: now,
        updated_at_millis: now,
        version: 1,
    }
}

/// Recording that a run is on: its session goes on, or a new one is stored.
pub open spec fn record_run(
    s: AppView,
    mission: MissionView,
    mission_id: Seq<char>,
    node_id: Seq<char>,
    run_id: Seq<char>,
    agent: Seq<char>,
    role: AgentRole,
    fingerprint: Seq<char>,
    now: i64,
) -> (AppView, Outcome<()>) {
    match s.agent_state {
        None => (s, Outcome::Done(())),
        Some(st) => match session_stored(s, run_id) {
            Some(session) => put_session(
                s,
                SessionView {
                    status: AgentSessionStatus::Running,
                    context_fingerprint: fingerprint,
                    ..session
                },
                now,
            ),
            None => if mission.runs.contains_key(run_id) {
                let (after, done) = create_session_step(
                    st,
                    new_session(
                        mission_id,
                        node_id,
                        run_id,
                        mission.runs[run_id].endpoint_id,
                        agent,
                        role,
                        fingerprint,
                        now,
                    ),
                );
                (AppView { agent_state: Some(after), ..s }, done)
            } else {
                (s, failure("agent-run-missing"@, run_id))
            },
        },
    }
}

/// Starting a run: the agent and the role that it is done in, once everything is set aside for it.
pub open spec fn begin_run_step(
    s: AppView,
    mission: MissionView,
    mission_id: Seq<char>,
    node_id: Seq<char>,
    run_id: Seq<char>,
    context: WorkingView,
    now: i64,
) -> (AppView, Outcome<(Seq<char>, AgentRole)>) {
    if !mission.nodes.contains_key(node_id) {
        (s, failure("agent-node-missing"@, node_id))
    } else {
        let agent = mission.nodes[node_id].agent_definition_id;
        let role = working_role(s, agent);
        let (s1, r1) = reserve_run(s, mission_id, run_id, context.token_cost, now);
        if r1 is Failed {
            (s1, Outcome::Failed(r1->Failed_0))
        } else {
            let is_new = !has_run(s1.run_controls, run_id);
            let s2 = if is_new {
                AppView { run_controls: register_step(s1.run_controls, run_id, None).0, ..s1 }
            } else {
                s1
            };
            let (s3, r3) = if is_new {
                occupy_agent(s2, agent, run_id)
            } else {
                (s2, Outcome::Done(()))
            };
            if r3 is Failed {
                (s3, Outcome::Failed(r3->Failed_0))
            } else {
                let (s4, r4) = record_run(
                    s3,
                    mission,
                    mission_id,
                    node_id,
                    run_id,
                    agent,
                    role,
                    context.fingerprint,
                    now,
                );
                if r4 is Failed {
                    (s4, Outcome::Failed(r4->Failed_0))
                } else {
                    let (s5, r5) = if is_new {
                        adjust_step(s4, agent, true, now)
                    } else {
                        (s4, Outcome::Done(()))
                    };
                    if r5 is Failed {
                        (s5, Outcome::Failed(r5->Failed_0))
                    } else {
                        (s5, Outcome::Done((agent, role)))
                    }
                }
            }
        }
    }
}

pub open spec fn pair_outcome(r: Result<(String, AgentRole), ApplicationError>) -> Outcome<
    (Seq<char>, AgentRole),
> {
    match r {
        Ok((agent, role)) => Outcome::Done((agent@, role)),
        Err(e) => Outcome::Failed(e@),
    }
}

/// Asking a run, and all below it, to stop, if it is under control.
pub open spec fn cancel_control(s: AppView, run_id: Seq<char>) -> AppView {
    if has_run(s.run_controls, run_id) {
        AppView { run_controls: cancel_step(s.run_controls, run_id).0, ..s }
    } else {
        s
    }
}

/// The status of a stored session can always be set, whatever it was.
pub proof fn law_a_status_can_be_set(
    s: AppView,
    run_id: Seq<char>,
    status: AgentSessionStatus,
    now: i64,
)
    requires
        s.agent_state matches Some(st) ==> keyed_by_id(st.sessions),
    ensures
        set_status_step(s, run_id, status, now).1 is Done,
        session_stored(s, run_id) matches Some(before) ==> session_stored(
            set_status_step(s, run_id, status, now).0,
            run_id,
        ) == Some(
            SessionView {
                status,
                updated_at_millis: now,
                version: next_version(before.version),
                ..before
            },
        ),
{
}

/// A run that was started anew and then ended leaves the controls of the runs and the catalog as
/// they were before it.
pub proof fn law_finishing_undoes_beginning(
    s: AppView,
    mission: MissionView,
    mission_id: Seq<char>,
    node_id: Seq<char>,
    run_id: Seq<char>,
    context: WorkingView,
    now: i64,
    status: BudgetEscrowStatus,
    later: i64,
)
    requires
        runs_ok(s.run_controls),
        s.agent_catalog matches Some(c) ==> catalog_ok(c),
        !has_run(s.run_controls, run_id),
        begin_run_step(s, mission, mission_id, node_id, run_id, context, now).1 is Done,
    ensures
        ({
            let (on, began) = begin_run_step(
                s,
                mission,
                mission_id,
                node_id,
                run_id,
                context,
                now,
            );
            let off = finish_run_step(on, began->Done_0.0, run_id, status, later).0;
            off.run_controls == s.run_controls && off.agent_catalog == s.agent_catalog
        }),
{
    let (on, began) = begin_run_step(s, mission, mission_id, node_id, run_id, context, now);
    let agent = began->Done_0.0;
    let added = ControlView { run_id, parent: None, cancelled: false };
    assert(on.run_controls == s.run_controls.push(added));
    lemma_last_run_finishes(s.run_controls, added);
    let off = finish_run_step(on, agent, run_id, status, later).0;
    if s.agent_catalog is Some && s.agent_catalog->Some_0.contains_key(agent) {
        let c = s.agent_catalog->Some_0;
        assert(off.agent_catalog->Some_0 =~= c);
    }
}

impl HarnessApplication {
    /// The role in which an agent works.
    pub fn working_role(&self, agent_id: &str) -> (r: AgentRole)
        ensures
            r == working_role(self@, agent_id@),
    {
        match &self.agent_catalog {
            Some(catalog) => match catalog.definition(agent_id) {
                Some(definition) => match definition.roles.first() {
                    Some(role) => role,
                    None => AgentRole::Coder,
                },
                None => AgentRole::Coder,
            },
            None => AgentRole::Coder,
        }
    }

    fn stored_session(&self, run_id: &str) -> (r: Option<AgentSession>)
        ensures
            option_view(r) == session_stored(self@, run_id@),
    {
        match &self.agent_state {
            Some(store) => store.session(agent_session_id(run_id).as_str()),
            None => None,
        }
    }

    fn store_session(&mut self, session: AgentSession, now: i64) -> (r: Result<(), ApplicationError>)
        requires
            old(self)@.agent_state is Some,
        ensures
            (final(self)@, unit_outcome(r)) == put_session(old(self)@, session@, now),
    {
        let mut session = session;
        let expected_version = session.version;
        session.updated_at_millis = now;
        match &mut self.agent_state {
            Some(store) => match store.update_session(expected_version, &mut session) {
                Ok(()) => Ok(()),
                Err(error) => Err(agent_error(error)),
            },
            None => Ok(()),
        }
    }

    pub fn set_agent_session_status(
        &mut self,
        run_id: &str,
        status: AgentSessionStatus,
        now: i64,
    ) -> (r: Result<(), ApplicationError>)
        ensures
            (final(self)@, unit_outcome(r)) == set_status_step(old(self)@, run_id@, status, now),
    {
        match self.stored_session(run_id) {
            Some(session) => {
                let mut session = session;
                session.status = status;
                self.store_session(session, now)
            },
            None => Ok(()),
        }
    }

    pub fn set_agent_session_context_fingerprint(
        &mut self,
        run_id: &str,
        fingerprint: &str,
        now: i64,
    ) -> (r: Result<(), ApplicationError>)
        ensures
            (final(self)@, unit_outcome(r)) == set_fingerprint_step(
                old(self)@,
                run_id@,
                fingerprint@,
                now,
            ),
    {
        match self.stored_session(run_id) {
            Some(session) => {
                let mut session = session;
                session.context_fingerprint = fingerprint.to_string();
                self.store_session(session, now)
            },
            None => Ok(()),
        }
    }

    pub fn set_agent_session_previous_response(
        &mut self,
        run_id: &str,
        response_id: &Option<String>,
        now: i64,
    ) -> (r: Result<(), ApplicationError>)
        ensures
            (final(self)@, unit_outcome(r)) == set_response_step(
                old(self)@,
                run_id@,
                option_view(*response_id),
                now,
            ),
    {
        match self.stored_session(run_id) {
            Some(session) => {
                let mut session = session;
                session.previous_response_id = duplicate_option(response_id);
                self.store_session(session, now)
            },
            None => Ok(()),
        }
    }

    pub fn adjust_agent_endpoint(&mut self, agent_id: &str, starting: bool, now: i64) -> (r: Result<
        (),
        ApplicationError,
    >)
        ensures
            (final(self)@, unit_outcome(r)) == adjust_step(old(self)@, agent_id@, starting, now),
    {
        match &mut self.agent_state {
            Some(store) => {
                let mut endpoint_id: String = "endpoint:".to_string();
                endpoint_id.append(agent_id);
                match store.endpoint(endpoint_id.as_str()) {
                    Some(endpoint) => {
                        let mut endpoint = endpoint;
                        let expected_version = endpoint.version;
                        endpoint.active_runs = if starting {
                            endpoint.active_runs.saturating_add(1)
                        } else {
                            endpoint.active_runs.saturating_sub(1)
                        };
                        endpoint.status = if endpoint.active_runs == 0 {
                            AgentEndpointStatus::Idle
                        } else {
                            AgentEndpointStatus::Busy
                        };
                        endpoint.last_heartbeat_millis = now;
                        match store.update_endpoint(expected_version, &mut endpoint) {
                            Ok(()) => Ok(()),
                            Err(error) => Err(agent_error(error)),
                        }
                    },
                    None => Ok(()),
                }
            },
            None => Ok(()),
        }
    }

    fn finish_run_control(&mut self, run_id: &str) -> (r: Result<(), ApplicationError>)
        ensures
            (final(self)@, unit_outcome(r)) == finish_control(old(self)@, run_id@),
    {
        if self.run_controls.is_cancelled(run_id).is_some() {
            match self.run_controls.finish(run_id) {
                Ok(()) => Ok(()),
                Err(error) => Err(agent_error(error)),
            }
        } else {
            Ok(())
        }
    }

    fn release_catalog_agent(&mut self, agent_id: &str) -> (r: Result<(), ApplicationError>)
        ensures
            (final(self)@, unit_outcome(r)) == release_agent(old(self)@, agent_id@),
    {
        match &mut self.agent_catalog {
            Some(catalog) => if catalog.active_count(agent_id) > 0 {
                match catalog.release(agent_id) {
                    Ok(()) => Ok(()),
                    Err(error) => Err(agent_error(error)),
                }
            } else {
                Ok(())
            },
            None => Ok(()),
        }
    }

    fn release_run_budget(&mut self, run_id: &str, status: BudgetEscrowStatus) -> (r: Result<
        (),
        ApplicationError,
    >)
        ensures
            (final(self)@, unit_outcome(r)) == release_escrow(old(self)@, run_id@, status),
    {
        match &mut self.agent_budgets {
            Some(budgets) => if budgets.get(run_id).is_some() {
                match budgets.release(run_id, status) {
                    Ok(_) => Ok(()),
                    Err(error) => Err(agent_error(error)),
                }
            } else {
                Ok(())
            },
            None => Ok(()),
        }
    }

    /// Ends a run.
    pub fn finish_agent_run(
        &mut self,
        agent_id: &str,
        run_id: &str,
        budget_status: BudgetEscrowStatus,
        now: i64,
    ) -> (r: Result<(), ApplicationError>)
        ensures
            (final(self)@, unit_outcome(r)) == finish_run_step(
                old(self)@,
                agent_id@,
                run_id@,
                budget_status,
                now,
            ),
    {
        match self.finish_run_control(run_id) {
            Ok(()) => {},
            Err(error) => {
                return Err(error);
            },
        }
        match self.release_catalog_agent(agent_id) {
            Ok(()) => {},
            Err(error) => {
                return Err(error);
            },
        }
        match self.adjust_agent_endpoint(agent_id, false, now) {
            Ok(()) => {},
            Err(error) => {
                return Err(error);
            },
        }
        self.release_run_budget(run_id, budget_status)
    }

    pub fn charge_agent_budget(
        &mut self,
        run_id: Option<&str>,
        tokens: u64,
        tool_calls: u64,
        now: i64,
    ) -> (r: Result<(), ApplicationError>)
        ensures
            (final(self)@, unit_outcome(r)) == charge_step(
                old(self)@,
                option_view(run_id),
                tokens,
                tool_calls,
                now,
            ),
    {
        match run_id {
            Some(run) => match &mut self.agent_budgets {
                Some(budgets) => match budgets.charge(run, tokens, tool_calls, now) {
                    Ok(_) => Ok(()),
                    Err(error) => Err(agent_error(error)),
                },
                None => Ok(()),
            },
            None => Ok(()),
        }
    }

    fn reserve_run_budget(
        &mut self,
        mission_id: &str,
        run_id: &str,
        token_cost: u32,
        now: i64,
    ) -> (r: Result<(), ApplicationError>)
        ensures
            (final(self)@, unit_outcome(r)) == reserve_run(
                old(self)@,
                mission_id@,
                run_id@,
                token_cost,
                now,
            ),
    {
        let tokens: u64 = (token_cost as u64).saturating_add(4096);
        let request = AgentBudgetRequest {
            reserved_tokens: if tokens < 8192 {
                8192
            } else {
                tokens
            },
            reserved_tool_calls: 16,
            reserved_runtime_millis: 120000,
            reserved_retries: 1,
        };
        let policy = self.agent_budget_policy;
        match &mut self.agent_budgets {
            Some(budgets) => match budgets.reserve(
                mission_id.to_string(),
                run_id.to_string(),
                &request,
                &policy,
                now,
            ) {
                Ok(_) => Ok(()),
                Err(error) => Err(agent_error(error)),
            },
            None => Ok(()),
        }
    }

    fn occupy_catalog_agent(&mut self, agent_id: &str, run_id: &str) -> (r: Result<
        (),
        ApplicationError,
    >)
        ensures
            (final(self)@, unit_outcome(r)) == occupy_agent(old(self)@, agent_id@, run_id@),
    {
        let refused = match &mut self.agent_catalog {
            Some(catalog) => if catalog.definition(agent_id).is_some() {
                match catalog.reserve(agent_id) {
                    Ok(()) => match catalog.start(agent_id) {
                        Ok(()) => None,
                        Err(error) => Some(error),
                    },
                    Err(error) => Some(error),
                }
            } else {
                None
            },
            None => None,
        };
        match refused {
            Some(error) => {
                let _ = self.run_controls.finish(run_id);
                Err(agent_error(error))
            },
            None => Ok(()),
        }
    }

    fn record_agent_run(
        &mut self,
        mission: &MissionState,
        mission_id: &str,
        node_id: &str,
        run_id: &str,
        agent_id: &str,
        role: AgentRole,
        fingerprint: &str,
        now: i64,
    ) -> (r: Result<(), ApplicationError>)
        ensures
            (final(self)@, unit_outcome(r)) == record_run(
                old(self)@,
                mission@,
                mission_id@,
                node_id@,
                run_id@,
                agent_id@,
                role,
                fingerprint@,
                now,
            ),
    {
        if self.agent_state.is_none() {
            return Ok(());
        }
        match self.stored_session(run_id) {
            Some(session) => {
                let mut session = session;
                session.status = AgentSessionStatus::Running;
                session.context_fingerprint = fingerprint.to_string();
                self.store_session(session, now)
            },
            None => {
                let endpoint_id = match mission.runs.get(run_id) {
                    Some(run) => run.endpoint_id.clone(),
                    None => {
                        return Err(ApplicationError::new("agent-run-missing", run_id));
                    },
                };
                let session = AgentSession {
                    id: agent_session_id(run_id),
                    mission_id: mission_id.to_string(),
                    task_id: node_id.to_string(),
                    run_id: run_id.to_string(),
                    parent_run_id: None,
                    endpoint_id,
                    agent_definition_id: agent_id.to_string(),
                    role,
                    status: AgentSessionStatus::Running,
                    context_fingerprint: fingerprint.to_string(),
                    previous_response_id: None,
                    created_at_millis: now,
                    updated_at_millis: now,
                    version: 1,
                };
                match &mut self.agent_state {
                    Some(store) => match store.create_session(&session) {
                        Ok(()) => Ok(()),
                        Err(error) => Err(agent_error(error)),
                    },
                    None => Ok(()),
                }
            },
        }
    }

    /// Starts the run of a node: sets its budget aside, takes it under control, takes its agent
    /// and records its session. Gives the agent and the role in which it works.
    pub fn begin_agent_run(
        &mut self,
        mission: &MissionState,
        mission_id: &str,
        node_id: &str,
        run_id: &str,
        context: &AgentWorkingContext,
        now: i64,
    ) -> (r: Result<(String, AgentRole), ApplicationError>)
        ensures
            (final(self)@, pair_outcome(r)) == begin_run_step(
                old(self)@,
                mission@,
                mission_id@,
                node_id@,
                run_id@,
                context@,
                now,
            ),
    {
        let agent_id = match mission.nodes.get(node_id) {
            Some(node) => node.agent_definition_id.clone(),
            None => {
                return Err(ApplicationError::new("agent-node-missing", node_id));
            },
        };
        let role = self.working_role(agent_id.as_str());
        match self.reserve_run_budget(mission_id, run_id, context.token_cost, now) {
            Ok(()) => {},
            Err(error) => {
                return Err(error);
            },
        }
        let is_new = self.run_controls.is_cancelled(run_id).is_none();
        if is_new {
            match self.run_controls.register(run_id.to_string(), None) {
                Ok(()) => {},
                Err(error) => {
                    return Err(agent_error(error));
                },
            }
            match self.occupy_catalog_agent(agent_id.as_str(), run_id) {
                Ok(()) => {},
                Err(error) => {
                    return Err(error);
                },
            }
        }
        match self.record_agent_run(
            mission,
            mission_id,
            node_id,
            run_id,
            agent_id.as_str(),
            role,
            context.fingerprint.as_str(),
            now,
        ) {
            Ok(()) => {},
            Err(error) => {
                return Err(error);
            },
        }
        if is_new {
            match self.adjust_agent_endpoint(agent_id.as_str(), true, now) {
                Ok(()) => {},
                Err(error) => {
                    return Err(error);
                },
            }
        }
        Ok((agent_id, role))
    }

    /// Asks a run, and all below it, to stop, if it is under control.
    pub fn cancel_run_control(&mut self, run_id: &str)
        ensures
            final(self)@ == cancel_control(old(self)@, run_id@),
    {
        if self.run_controls.is_cancelled(run_id).is_some() {
            let _ = self.run_controls.cancel_subtree(run_id);
        }
    }
}

} // verus!
