//! What is stored of endpoints, agent sessions, results and task priorities.

use vstd::prelude::*;
use vstd::string::*;

use crate::catalog::AgentDefinitionId;
use crate::error::{failure, unit_outcome, AgentError, Outcome};
use crate::model::{duplicate_option, group_views, option_view, views, Duplicate};
use crate::ordered::{enumerates, in_order, TextMap};
use crate::results::{AgentResult, MissionId, ResultView, RunId};
use crate::roles::AgentRole;
use crate::staffing::TaskId;
use crate::text::{
    decimal, decimal_of, lemma_text_less_irreflexive,
    lemma_text_less_transitive, text_less, texts,
};

verus! {

pub type AgentEndpointId = String;

pub type AgentInstanceId = String;

pub type AgentSessionId = String;

pub type ResponseId = String;

#[derive(Clone, Copy, Debug, PartialEq, Eq, Structural)]
pub enum AgentEndpointStatus {
    Offline,
    Idle,
    Busy,
    Draining,
    Failed,
}

/// A stable place of execution that a scheduler can address.
#[derive(Debug, PartialEq, Eq)]
pub struct AgentEndpoint {
    pub id: AgentEndpointId,
    pub definition_id: AgentDefinitionId,
    pub instance_id: AgentInstanceId,
    pub status: AgentEndpointStatus,
    pub generation: u64,
    pub active_runs: usize,
    pub max_concurrency: usize,
    pub last_heartbeat_millis: i64,
    pub version: u64,
}

pub struct EndpointView {
    pub id: Seq<char>,
    pub definition_id: Seq<char>,
    pub instance_id: Seq<char>,
    pub status: AgentEndpointStatus,
    pub generation: u64,
    pub active_runs: usize,
    pub max_concurrency: usize,
    pub last_heartbeat_millis: i64,
    pub version: u64,
}

impl View for AgentEndpoint {
    type V = EndpointView;

    open spec fn view(&self) -> EndpointView {
        EndpointView {
            id: self.id@,
            definition_id: self.definition_id@,
            instance_id: self.instance_id@,
            status: self.status,
            generation: self.generation,
            active_runs: self.active_runs,
            max_concurrency: self.max_concurrency,
            last_heartbeat_millis: self.last_heartbeat_millis,
            version: self.version,
        }
    }
}

impl Duplicate for AgentEndpoint {
    fn duplicate(&self) -> (r: Self) {
        AgentEndpoint {
            id: self.id.clone(),
            definition_id: self.definition_id.clone(),
            instance_id: self.instance_id.clone(),
            status: self.status,
            generation: self.generation,
            active_runs: self.active_runs,
            max_concurrency: self.max_concurrency,
            last_heartbeat_millis: self.last_heartbeat_millis,
            version: self.version,
        }
    }
}

#[derive(Clone, Copy, Debug, PartialEq, Eq, Structural)]
pub enum AgentSessionStatus {
    Prepared,
    Running,
    WaitingTool,
    WaitingApproval,
    Submitted,
    Completed,
    CancelRequested,
    Cancelled,
    Failed,
}

pub open spec fn is_recoverable(status: AgentSessionStatus) -> bool {
    status is Prepared || status is Running || status is WaitingTool || status is WaitingApproval
        || status is CancelRequested
}

impl AgentSessionStatus {
    /// Whether a session in this status goes on after a restart.
    pub fn recoverable(self) -> (r: bool)
        ensures
            r == is_recoverable(self),
    {
        matches!(
            self,
            AgentSessionStatus::Prepared
            | AgentSessionStatus::Running
            | AgentSessionStatus::WaitingTool
            | AgentSessionStatus::WaitingApproval
            | AgentSessionStatus::CancelRequested
        )
    }
}

pub open spec fn session_status_text(status: AgentSessionStatus) -> Seq<char> {
    match status {
        AgentSessionStatus::Prepared => "prepared"@,
        AgentSessionStatus::Running => "running"@,
        AgentSessionStatus::WaitingTool => "waiting-tool"@,
        AgentSessionStatus::WaitingApproval => "waiting-approval"@,
        AgentSessionStatus::Submitted => "submitted"@,
        AgentSessionStatus::Completed => "completed"@,
        AgentSessionStatus::CancelRequested => "cancel-requested"@,
        AgentSessionStatus::Cancelled => "cancelled"@,
        AgentSessionStatus::Failed => "failed"@,
    }
}

/// The name under which a session's status is stored.
pub fn status_name(status: AgentSessionStatus) -> (r: &'static str)
    ensures
        r@ == session_status_text(status),
{
    match status {
        AgentSessionStatus::Prepared => "prepared",
        AgentSessionStatus::Running => "running",
        AgentSessionStatus::WaitingTool => "waiting-tool",
        AgentSessionStatus::WaitingApproval => "waiting-approval",
        AgentSessionStatus::Submitted => "submitted",
        AgentSessionStatus::Completed => "completed",
        AgentSessionStatus::CancelRequested => "cancel-requested",
        AgentSessionStatus::Cancelled => "cancelled",
        AgentSessionStatus::Failed => "failed",
    }
}

/// A model session of an agent, on its own and recoverable.
#[derive(Debug, PartialEq, Eq)]
pub struct AgentSession {
    pub id: AgentSessionId,
    pub mission_id: MissionId,
    pub task_id: TaskId,
    pub run_id: RunId,
    pub parent_run_id: Option<RunId>,
    pub endpoint_id: AgentEndpointId,
    pub agent_definition_id: AgentDefinitionId,
    pub role: AgentRole,
    pub status: AgentSessionStatus,
    pub context_fingerprint: String,
    pub previous_response_id: Option<ResponseId>,
    pub created_at_millis: i64,
    pub updated_at_millis: i64,
    pub version: u64,
}

pub struct SessionView {
    pub id: Seq<char>,
    pub mission_id: Seq<char>,
    pub task_id: Seq<char>,
    pub run_id: Seq<char>,
    pub parent_run_id: Option<Seq<char>>,
    pub endpoint_id: Seq<char>,
    pub agent_definition_id: Seq<char>,
    pub role: AgentRole,
    pub status: AgentSessionStatus,
    pub context_fingerprint: Seq<char>,
    pub previous_response_id: Option<Seq<char>>,
    pub created_at_millis: i64,
    pub updated_at_millis: i64,
    pub version: u64,
}

impl View for AgentSession {
    type V = SessionView;

    open spec fn view(&self) -> SessionView {
        SessionView {
            id: self.id@,
            mission_id: self.mission_id@,
            task_id: self.task_id@,
            run_id: self.run_id@,
            parent_run_id: option_view(self.parent_run_id),
            endpoint_id: self.endpoint_id@,
            agent_definition_id: self.agent_definition_id@,
            role: self.role,
            status: self.status,
            context_fingerprint: self.context_fingerprint@,
            previous_response_id: option_view(self.previous_response_id),
            created_at_millis: self.created_at_millis,
            updated_at_millis: self.updated_at_millis,
            version: self.version,
        }
    }
}

impl Duplicate for AgentSession {
    fn duplicate(&self) -> (r: Self) {
        AgentSession {
            id: self.id.clone(),
            mission_id: self.mission_id.clone(),
            task_id: self.task_id.clone(),
            run_id: self.run_id.clone(),
            parent_run_id: duplicate_option(&self.parent_run_id),
            endpoint_id: self.endpoint_id.clone(),
            agent_definition_id: self.agent_definition_id.clone(),
            role: self.role,
            status: self.status,
            context_fingerprint: self.context_fingerprint.clone(),
            previous_response_id: duplicate_option(&self.previous_response_id),
            created_at_millis: self.created_at_millis,
            updated_at_millis: self.updated_at_millis,
            version: self.version,
        }
    }
}

/// What has to be done with a store of some schema version before it is used.
#[derive(Clone, Copy, Debug, PartialEq, Eq, Structural)]
pub enum SchemaAction {
    /// The store is new: its version has to be recorded.
    Record,
    Keep,
    /// The tables of the older version have been completed: the new version has to be recorded.
    Migrate,
}

pub const AGENT_STATE_SCHEMA_VERSION: u32 = 2;

/// Decides how a store with a recorded schema version is opened.
pub fn schema_action(version: Option<u32>) -> (r: Result<SchemaAction, AgentError>)
    ensures
        match r {
            Ok(SchemaAction::Record) => version is None,
            Ok(SchemaAction::Keep) => version == Some(2u32),
            Ok(SchemaAction::Migrate) => version == Some(1u32),
            Err(e) => version is Some && version != Some(1u32) && version != Some(2u32) && e@.code
                == "agent-state-schema-unsupported"@ && e@.message == "expected=2, actual="@
                + decimal(version->Some_0 as nat),
        },
{
    match version {
        None => Ok(SchemaAction::Record),
        Some(v) => if v == AGENT_STATE_SCHEMA_VERSION {
            Ok(SchemaAction::Keep)
        } else if v == 1 {
            Ok(SchemaAction::Migrate)
        } else {
            let mut message: String = "expected=2, actual=".to_string();
            message.append(decimal_of(v as u64).as_str());
            Err(AgentError::new("agent-state-schema-unsupported", message.as_str()))
        },
    }
}

/// A result and when it was stored.
#[derive(Debug, PartialEq, Eq)]
pub struct SavedResult {
    pub result: AgentResult,
    pub recorded_at_millis: i64,
}

pub struct SavedView {
    pub result: ResultView,
    pub recorded_at_millis: i64,
}

impl View for SavedResult {
    type V = SavedView;

    open spec fn view(&self) -> SavedView {
        SavedView { result: self.result@, recorded_at_millis: self.recorded_at_millis }
    }
}

/// The priority that was given to a task, and when.
#[derive(Clone, Copy, Debug, PartialEq, Eq, Structural)]
pub struct TaskControl {
    pub priority: i32,
    pub updated_at_millis: i64,
}

impl View for TaskControl {
    type V = TaskControl;

    open spec fn view(&self) -> TaskControl {
        *self
    }
}

pub struct StateView {
    pub endpoints: Map<Seq<char>, EndpointView>,
    pub sessions: Map<Seq<char>, SessionView>,
    pub results: Map<Seq<char>, SavedView>,
    pub controls: Map<Seq<char>, Map<Seq<char>, TaskControl>>,
}

pub open spec fn next_version(version: u64) -> u64 {
    if version == u64::MAX {
        version
    } else {
        (version + 1) as u64
    }
}

pub open spec fn create_endpoint_step(s: StateView, endpoint: EndpointView) -> (
    StateView,
    Outcome<()>,
) {
    if endpoint.version != 1 {
        (s, failure("agent-endpoint-initial-version"@, decimal(endpoint.version as nat)))
    } else if s.endpoints.contains_key(endpoint.id) {
        (s, failure("agent-state-sqlite"@, "UNIQUE constraint failed: agent_endpoints.id"@))
    } else {
        (
            StateView { endpoints: s.endpoints.insert(endpoint.id, endpoint), ..s },
            Outcome::Done(()),
        )
    }
}

/// A stored endpoint is replaced if it has the version that is expected.
pub open spec fn update_endpoint_step(s: StateView, expected: u64, endpoint: EndpointView) -> (
    StateView,
    EndpointView,
    Outcome<()>,
) {
    if s.endpoints.contains_key(endpoint.id) && s.endpoints[endpoint.id].version == expected {
        let next = EndpointView { version: next_version(expected), ..endpoint };
        (
            StateView { endpoints: s.endpoints.insert(endpoint.id, next), ..s },
            next,
            Outcome::Done(()),
        )
    } else {
        (
            s,
            EndpointView { version: expected, ..endpoint },
            failure("agent-endpoint-cas-conflict"@, endpoint.id),
        )
    }
}

pub open spec fn create_session_step(s: StateView, session: SessionView) -> (
    StateView,
    Outcome<()>,
) {
    if session.version != 1 {
        (s, failure("agent-session-initial-version"@, decimal(session.version as nat)))
    } else if s.sessions.contains_key(session.id) {
        (s, failure("agent-state-sqlite"@, "UNIQUE constraint failed: agent_sessions.id"@))
    } else {
        (StateView { sessions: s.sessions.insert(session.id, session), ..s }, Outcome::Done(()))
    }
}

/// A stored session is replaced if it has the version that is expected.
pub open spec fn update_session_step(s: StateView, expected: u64, session: SessionView) -> (
    StateView,
    SessionView,
    Outcome<()>,
) {
    if s.sessions.contains_key(session.id) && s.sessions[session.id].version == expected {
        let next = SessionView { version: next_version(expected), ..session };
        (
            StateView { sessions: s.sessions.insert(session.id, next), ..s },
            next,
            Outcome::Done(()),
        )
    } else {
        (
            s,
            SessionView { version: expected, ..session },
            failure("agent-session-cas-conflict"@, session.id),
        )
    }
}

pub open spec fn controls_of(
    controls: Map<Seq<char>, Map<Seq<char>, TaskControl>>,
    mission: Seq<char>,
) -> Map<Seq<char>, TaskControl> {
    if controls.contains_key(mission) {
        controls[mission]
    } else {
        Map::empty()
    }
}

pub open spec fn with_priority(
    s: StateView,
    mission: Seq<char>,
    task: Seq<char>,
    control: TaskControl,
) -> StateView {
    StateView {
        controls: s.controls.insert(
            mission,
            controls_of(s.controls, mission).insert(task, control),
        ),
        ..s
    }
}

/// The priority of a task; zero for a task that was given none.
pub open spec fn priority_of(s: StateView, mission: Seq<char>, task: Seq<char>) -> i32 {
    if controls_of(s.controls, mission).contains_key(task) {
        controls_of(s.controls, mission)[task].priority
    } else {
        0
    }
}

/// The order in which sessions are recovered: by their last change, and by id among equals.
pub open spec fn recovered_before(a: SessionView, b: SessionView) -> bool {
    a.updated_at_millis < b.updated_at_millis || (a.updated_at_millis == b.updated_at_millis
        && text_less(a.id, b.id))
}

pub open spec fn in_recovery_order(all: Seq<SessionView>) -> bool {
    forall|i: int, j: int|
        0 <= i < j < all.len() ==> recovered_before(#[trigger] all[i], #[trigger] all[j])
}

/// The sessions to recover: all that are recoverable, in order.
pub open spec fn is_recovery(sessions: Map<Seq<char>, SessionView>, all: Seq<SessionView>) -> bool {
    &&& in_recovery_order(all)
    &&& forall|i: int|
        0 <= i < all.len() ==> sessions.contains_key((#[trigger] all[i]).id)
            && sessions[all[i].id] == all[i] && is_recoverable(all[i].status)
    &&& forall|id: Seq<char>| #[trigger]
        sessions.contains_key(id) && is_recoverable(sessions[id].status) ==> all.contains(
            sessions[id],
        )
}

proof fn lemma_recovered_before_transitive(a: SessionView, b: SessionView, c: SessionView)
    requires
        recovered_before(a, b),
        recovered_before(b, c),
    ensures
        recovered_before(a, c),
{
    if a.updated_at_millis == c.updated_at_millis {
        lemma_text_less_transitive(a.id, b.id, c.id);
    }
}

/// What is recovered is fixed by what is stored.
pub proof fn law_recovery_is_determined(
    sessions: Map<Seq<char>, SessionView>,
    one: Seq<SessionView>,
    other: Seq<SessionView>,
)
    requires
        forall|id: Seq<char>| #[trigger] sessions.contains_key(id) ==> sessions[id].id == id,
        is_recovery(sessions, one),
        is_recovery(sessions, other),
    ensures
        one == other,
    decreases one.len(),
{
    if one.len() == 0 {
        if other.len() > 0 {
            assert(sessions.contains_key(other[0].id));
            assert(one.contains(sessions[other[0].id]));
        }
        assert(one =~= other);
    } else {
        assert(sessions.contains_key(one.last().id));
        assert(other.contains(one.last()));
        let k = other.index_of(one.last());
        assert(sessions.contains_key(other.last().id));
        assert(one.contains(other.last()));
        let m = one.index_of(other.last());
        if k < other.len() - 1 {
            assert(recovered_before(other[k], other[other.len() - 1]));
            if m < one.len() - 1 {
                assert(recovered_before(one[m], one[one.len() - 1]));
                lemma_recovered_before_transitive(one.last(), other.last(), one.last());
            }
            lemma_text_less_irreflexive(one.last().id);
            assert(false);
        }
        let gone = one.last();
        let fewer = sessions.remove(gone.id);
        let a = one.drop_last();
        let b = other.drop_last();
        assert forall|s: Seq<SessionView>| #[trigger]
            is_recovery(sessions, s) && s.len() > 0 && s.last() == gone implies is_recovery(
            fewer,
            s.drop_last(),
        ) by {
            let t = s.drop_last();
            assert forall|i: int, j: int| 0 <= i < j < t.len() implies recovered_before(
                #[trigger] t[i],
                #[trigger] t[j],
            ) by {
                assert(recovered_before(s[i], s[j]));
            }
            assert forall|i: int| 0 <= i < t.len() implies fewer.contains_key((#[trigger] t[i]).id)
                && fewer[t[i].id] == t[i] && is_recoverable(t[i].status) by {
                assert(s[i] == t[i]);
                assert(recovered_before(s[i], s[s.len() - 1]));
                lemma_text_less_irreflexive(gone.id);
            }
            assert forall|id: Seq<char>| #[trigger]
                fewer.contains_key(id) && is_recoverable(fewer[id].status) implies t.contains(
                fewer[id],
            ) by {
                assert(sessions.contains_key(id));
                assert(s.contains(sessions[id]));
                let at = s.index_of(sessions[id]);
                assert(s[at].id == id);
                assert(t[at] == sessions[id]);
            }
        }
        assert(is_recovery(sessions, one));
        assert(is_recovery(sessions, other));
        law_recovery_is_determined(fewer, a, b);
        assert(one =~= a.push(gone));
        assert(other =~= b.push(gone));
    }
}

/// Of two updates that expect the same version, the second is refused and changes nothing.
pub proof fn law_only_one_update_wins(
    s: StateView,
    expected: u64,
    first: SessionView,
    second: SessionView,
)
    requires
        first.id == second.id,
        expected < u64::MAX,
        update_session_step(s, expected, first).2 is Done,
    ensures
        ({
            let after = update_session_step(s, expected, first).0;
            let again = update_session_step(after, expected, second);
            &&& again.0 == after
            &&& again.2 == failure::<()>("agent-session-cas-conflict"@, second.id)
        }),
{
}

/// The same holds of endpoints.
pub proof fn law_only_one_endpoint_update_wins(
    s: StateView,
    expected: u64,
    first: EndpointView,
    second: EndpointView,
)
    requires
        first.id == second.id,
        expected < u64::MAX,
        update_endpoint_step(s, expected, first).2 is Done,
    ensures
        ({
            let after = update_endpoint_step(s, expected, first).0;
            let again = update_endpoint_step(after, expected, second);
            &&& again.0 == after
            &&& again.2 == failure::<()>("agent-endpoint-cas-conflict"@, second.id)
        }),
{
}

/// A priority that was set is the one that is read, and no other task's priority changes.
pub proof fn law_priorities_are_apart(
    s: StateView,
    mission: Seq<char>,
    task: Seq<char>,
    control: TaskControl,
    other_mission: Seq<char>,
    other_task: Seq<char>,
)
    ensures
        priority_of(with_priority(s, mission, task, control), mission, task) == control.priority,
        (other_mission, other_task) != (mission, task) ==> priority_of(
            with_priority(s, mission, task, control),
            other_mission,
            other_task,
        ) == priority_of(s, other_mission, other_task),
{
}

/// The sessions that are to be recovered.
pub open spec fn recovery_of(sessions: Map<Seq<char>, SessionView>) -> Seq<SessionView> {
    choose|all: Seq<SessionView>| is_recovery(sessions, all)
}

/// Only one list of sessions is a recovery.
pub proof fn lemma_recovery_of(sessions: Map<Seq<char>, SessionView>, all: Seq<SessionView>)
    requires
        keyed_by_id(sessions),
        is_recovery(sessions, all),
    ensures
        recovery_of(sessions) == all,
{
    law_recovery_is_determined(sessions, all, recovery_of(sessions));
}

/// The store.
pub struct AgentStateStore {
    endpoints: TextMap<AgentEndpoint>,
    sessions: TextMap<AgentSession>,
    results: TextMap<SavedResult>,
    controls: TextMap<TextMap<TaskControl>>,
}

impl View for AgentStateStore {
    type V = StateView;

    closed spec fn view(&self) -> StateView {
        StateView {
            endpoints: self.endpoints@,
            sessions: self.sessions@,
            results: self.results@,
            controls: self.controls@,
        }
    }
}

pub open spec fn keyed_by_id(sessions: Map<Seq<char>, SessionView>) -> bool {
    forall|id: Seq<char>| #[trigger] sessions.contains_key(id) ==> sessions[id].id == id
}

impl AgentStateStore {
    #[verifier::type_invariant]
    spec fn keyed(self) -> bool {
        keyed_by_id(self.sessions@)
    }

    /// An empty store.
    pub fn new() -> (r: Self)
        ensures
            r@ == (StateView {
                endpoints: Map::empty(),
                sessions: Map::empty(),
                results: Map::empty(),
                controls: Map::empty(),
            }),
    {
        AgentStateStore {
            endpoints: TextMap::new(),
            sessions: TextMap::new(),
            results: TextMap::new(),
            controls: TextMap::new(),
        }
    }

    /// The endpoints by their ids.
    pub fn endpoints(&self) -> (r: &TextMap<AgentEndpoint>)
        ensures
            r@ == self@.endpoints,
    {
        &self.endpoints
    }

    /// The sessions by their ids.
    pub fn sessions(&self) -> (r: &TextMap<AgentSession>)
        ensures
            r@ == self@.sessions,
    {
        &self.sessions
    }

    /// The results by their runs.
    pub fn results(&self) -> (r: &TextMap<SavedResult>)
        ensures
            r@ == self@.results,
    {
        &self.results
    }

    /// The priorities by mission and by task.
    pub fn controls(&self) -> (r: &TextMap<TextMap<TaskControl>>)
        ensures
            r@ == self@.controls,
    {
        &self.controls
    }

    /// Puts an endpoint into the store as it was stored before, whatever its version.
    pub fn restore_endpoint(&mut self, endpoint: &AgentEndpoint)
        ensures
            final(self)@ == (StateView {
                endpoints: old(self)@.endpoints.insert(endpoint@.id, endpoint@),
                ..old(self)@
            }),
    {
        proof {
            use_type_invariant(&*self);
        }
        let mut endpoints: TextMap<AgentEndpoint> = TextMap::new();
        std::mem::swap(&mut endpoints, &mut self.endpoints);
        endpoints.insert(endpoint.id.clone(), endpoint.duplicate());
        self.endpoints = endpoints;
    }

    /// Puts a session into the store as it was stored before, whatever its version.
    pub fn restore_session(&mut self, session: &AgentSession)
        ensures
            final(self)@ == (StateView {
                sessions: old(self)@.sessions.insert(session@.id, session@),
                ..old(self)@
            }),
    {
        proof {
            use_type_invariant(&*self);
        }
        let mut sessions: TextMap<AgentSession> = TextMap::new();
        std::mem::swap(&mut sessions, &mut self.sessions);
        sessions.insert(session.id.clone(), session.duplicate());
        self.sessions = sessions;
    }

    pub fn create_endpoint(&mut self, endpoint: &AgentEndpoint) -> (r: Result<(), AgentError>)
        ensures
            (final(self)@, unit_outcome(r)) == create_endpoint_step(old(self)@, endpoint@),
    {
        if endpoint.version != 1 {
            return Err(
                AgentError::new(
                    "agent-endpoint-initial-version",
                    decimal_of(endpoint.version).as_str(),
                ),
            );
        }
        if self.endpoints.contains_key(endpoint.id.as_str()) {
            return Err(
                AgentError::new(
                    "agent-state-sqlite",
                    "UNIQUE constraint failed: agent_endpoints.id",
                ),
            );
        }
        self.restore_endpoint(endpoint);
        Ok(())
    }

    pub fn endpoint(&self, id: &str) -> (r: Option<AgentEndpoint>)
        ensures
            option_view(r) == (if self@.endpoints.contains_key(id@) {
                Some(self@.endpoints[id@])
            } else {
                None
            }),
    {
        match self.endpoints.get(id) {
            Some(endpoint) => Some(endpoint.duplicate()),
            None => None,
        }
    }

    /// Replaces a stored endpoint of the expected version; the given endpoint gets the new version.
    pub fn update_endpoint(&mut self, expected_version: u64, endpoint: &mut AgentEndpoint) -> (r:
        Result<(), AgentError>)
        ensures
            (final(self)@, final(endpoint)@, unit_outcome(r)) == update_endpoint_step(
                old(self)@,
                expected_version,
                old(endpoint)@,
            ),
    {
        let current = match self.endpoints.get(endpoint.id.as_str()) {
            Some(stored) => stored.version == expected_version,
            None => false,
        };
        if !current {
            endpoint.version = expected_version;
            return Err(AgentError::new("agent-endpoint-cas-conflict", endpoint.id.as_str()));
        }
        endpoint.version = expected_version.saturating_add(1);
        self.restore_endpoint(endpoint);
        Ok(())
    }

    pub fn create_session(&mut self, session: &AgentSession) -> (r: Result<(), AgentError>)
        ensures
            (final(self)@, unit_outcome(r)) == create_session_step(old(self)@, session@),
    {
        if session.version != 1 {
            return Err(
                AgentError::new(
                    "agent-session-initial-version",
                    decimal_of(session.version).as_str(),
                ),
            );
        }
        if self.sessions.contains_key(session.id.as_str()) {
            return Err(
                AgentError::new(
                    "agent-state-sqlite",
                    "UNIQUE constraint failed: agent_sessions.id",
                ),
            );
        }
        self.restore_session(session);
        Ok(())
    }

    pub fn session(&self, id: &str) -> (r: Option<AgentSession>)
        ensures
            option_view(r) == (if self@.sessions.contains_key(id@) {
                Some(self@.sessions[id@])
            } else {
                None
            }),
            r matches Some(s) ==> s@.id == id@,
    {
        proof {
            use_type_invariant(self);
        }
        match self.sessions.get(id) {
            Some(session) => Some(session.duplicate()),
            None => None,
        }
    }

    /// Replaces a stored session of the expected version; the given session gets the new version.
    pub fn update_session(&mut self, expected_version: u64, session: &mut AgentSession) -> (r:
        Result<(), AgentError>)
        ensures
            (final(self)@, final(session)@, unit_outcome(r)) == update_session_step(
                old(self)@,
                expected_version,
                old(session)@,
            ),
    {
        let current = match self.sessions.get(session.id.as_str()) {
            Some(stored) => stored.version == expected_version,
            None => false,
        };
        if !current {
            session.version = expected_version;
            return Err(AgentError::new("agent-session-cas-conflict", session.id.as_str()));
        }
        session.version = expected_version.saturating_add(1);
        self.restore_session(session);
        Ok(())
    }

    /// The sessions that go on after a restart, by their last change.
    pub fn recoverable_sessions(&self) -> (r: Vec<AgentSession>)
        ensures
            is_recovery(self@.sessions, views(r@)),
            keyed_by_id(self@.sessions),
    {
        proof {
            use_type_invariant(self);
        }
        let keys = self.sessions.keys();
        let ghost ids = in_order(self.sessions@.dom());
        let mut all: Vec<AgentSession> = Vec::new();
        let mut i: usize = 0;
        while i < keys.len()
            invariant
                i <= keys.len(),
                ids == texts(keys@),
                ids == in_order(self.sessions@.dom()),
                enumerates(ids, self.sessions@.dom()),
                keyed_by_id(self.sessions@),
                in_recovery_order(views(all@)),
                forall|k: int|
                    0 <= k < all@.len() ==> self.sessions@.contains_key((#[trigger] views(all@)[k]).id)
                        && self.sessions@[views(all@)[k].id] == views(all@)[k] && is_recoverable(
                        views(all@)[k].status,
                    ) && (exists|j: int| 0 <= j < i && #[trigger] ids[j] == views(all@)[k].id),
                forall|j: int|
                    0 <= j < i && is_recoverable(self.sessions@[#[trigger] ids[j]].status)
                        ==> views(all@).contains(self.sessions@[ids[j]]),
            decreases keys.len() - i,
        {
            broadcast use group_views;

            let session = self.sessions.value_at(i);
            let ghost before = views(all@);
            assert(ids.contains(ids[i as int]));
            assert(self.sessions@.dom().contains(ids[i as int]));
            assert(session@.id == ids[i as int]);
            if session.status.recoverable() {
                let mut at: usize = all.len();
                while at > 0 && all[at - 1].updated_at_millis > session.updated_at_millis
                    invariant
                        at <= all.len(),
                        views(all@) == before,
                        in_recovery_order(before),
                        forall|k: int|
                            at <= k < before.len() ==> recovered_before(session@, #[trigger] before[k]),
                    decreases at,
                {
                    assert(before[at - 1] == all@[at - 1]@);
                    at = at - 1;
                }
                let ghost item = session@;
                all.insert(at, session.duplicate());
                let ghost after = views(all@);
                proof {
                    assert(after == before.insert(at as int, item));
                    assert forall|k: int| 0 <= k < at implies recovered_before(
                        #[trigger] before[k],
                        item,
                    ) by {
                        assert(before[at - 1].updated_at_millis <= item.updated_at_millis);
                        if k < at - 1 {
                            assert(recovered_before(before[k], before[at - 1]));
                        }
                        let j = choose|j: int| 0 <= j < i && #[trigger] ids[j] == before[k].id;
                        assert(text_less(ids[j], ids[i as int]));
                    }
                    assert forall|a: int, b: int| 0 <= a < b < after.len() implies recovered_before(
                        #[trigger] after[a],
                        #[trigger] after[b],
                    ) by {
                        let x = if a < at { a } else { a - 1 };
                        let y = if b < at { b } else { b - 1 };
                        if a != at && b != at {
                            assert(recovered_before(before[x], before[y]));
                        } else if a == at {
                            assert(after[b] == before[b - 1]);
                        } else {
                            assert(after[a] == before[a]);
                        }
                    }
                    assert forall|k: int| 0 <= k < after.len() implies self.sessions@.contains_key(
                        (#[trigger] after[k]).id,
                    ) && self.sessions@[after[k].id] == after[k] && is_recoverable(after[k].status)
                        && (exists|j: int| 0 <= j < i + 1 && #[trigger] ids[j] == after[k].id) by {
                        if k == at {
                            assert(ids[i as int] == after[k].id);
                        } else {
                            let x = if k < at { k } else { k - 1 };
                            assert(after[k] == before[x]);
                            let j = choose|j: int| 0 <= j < i && #[trigger] ids[j] == before[x].id;
                            assert(ids[j] == after[k].id);
                        }
                    }
                    assert forall|j: int|
                        0 <= j < i + 1 && is_recoverable(
                            self.sessions@[#[trigger] ids[j]].status,
                        ) implies after.contains(self.sessions@[ids[j]]) by {
                        if j == i {
                            assert(after[at as int] == item);
                        } else {
                            assert(before.contains(self.sessions@[ids[j]]));
                            let k = before.index_of(self.sessions@[ids[j]]);
                            let x = if k < at { k } else { k + 1 };
                            assert(after[x] == before[k]);
                        }
                    }
                }
            }
            i = i + 1;
        }
        proof {
            let sessions = self.sessions@;
            assert forall|id: Seq<char>| #[trigger]
                sessions.contains_key(id) && is_recoverable(sessions[id].status) implies views(
                all@,
            ).contains(sessions[id]) by {
                assert(sessions.dom().contains(id));
                assert(ids.contains(id));
                let j = ids.index_of(id);
                assert(ids[j] == id);
            }
        }
        all
    }

    /// Stores the result of a run, in place of one that was stored before.
    pub fn save_result(&mut self, run_id: &str, result: &AgentResult, recorded_at_millis: i64)
        ensures
            final(self)@ == (StateView {
                results: old(self)@.results.insert(
                    run_id@,
                    SavedView { result: result@, recorded_at_millis },
                ),
                ..old(self)@
            }),
    {
        proof {
            use_type_invariant(&*self);
        }
        let mut results: TextMap<SavedResult> = TextMap::new();
        std::mem::swap(&mut results, &mut self.results);
        results.insert(
            run_id.to_string(),
            SavedResult { result: result.duplicate(), recorded_at_millis },
        );
        self.results = results;
    }

    pub fn result(&self, run_id: &str) -> (r: Option<AgentResult>)
        ensures
            option_view(r) == (if self@.results.contains_key(run_id@) {
                Some(self@.results[run_id@].result)
            } else {
                None
            }),
    {
        match self.results.get(run_id) {
            Some(saved) => Some(saved.result.duplicate()),
            None => None,
        }
    }

    pub fn set_task_priority(
        &mut self,
        mission_id: &str,
        task_id: &str,
        priority: i32,
        now_millis: i64,
    )
        ensures
            final(self)@ == with_priority(
                old(self)@,
                mission_id@,
                task_id@,
                (TaskControl { priority, updated_at_millis: now_millis }),
            ),
    {
        proof {
            use_type_invariant(&*self);
        }
        let mut controls: TextMap<TextMap<TaskControl>> = TextMap::new();
        std::mem::swap(&mut controls, &mut self.controls);
        let ghost before = controls@;
        let mut tasks = match controls.remove(mission_id) {
            Some(tasks) => tasks,
            None => TextMap::new(),
        };
        tasks.insert(task_id.to_string(), TaskControl { priority, updated_at_millis: now_millis });
        controls.insert(mission_id.to_string(), tasks);
        assert(before.remove(mission_id@).insert(mission_id@, tasks@) =~= before.insert(
            mission_id@,
            tasks@,
        ));
        self.controls = controls;
    }

    pub fn task_priority(&self, mission_id: &str, task_id: &str) -> (r: i32)
        ensures
            r == priority_of(self@, mission_id@, task_id@),
    {
        match self.controls.get(mission_id) {
            Some(tasks) => match tasks.get(task_id) {
                Some(control) => control.priority,
                None => 0,
            },
            None => 0,
        }
    }
}

} // verus!
