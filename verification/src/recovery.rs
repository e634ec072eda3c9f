//! After a restart: every agent gets an endpoint again, and the work that was cut off is found.

use vstd::prelude::*;
use vstd::string::*;

use crate::application::{AppView, HarnessApplication};
use crate::catalog::{catalog_ok, definitions_in_order, AgentDefinition, DefinitionView};
use crate::error::{agent_error, unit_outcome, AgentError, ApplicationError, Outcome};
use crate::model::views;
use crate::ordered::{enumerates, in_order, lemma_ascending_distinct, TextSet};
use crate::state_store::{
    create_endpoint_step, lemma_recovery_of, recovery_of, update_endpoint_step, AgentEndpoint,
    AgentEndpointStatus, AgentStateStore, EndpointView, SessionView, StateView,
};
use crate::text::texts;

verus! {

pub open spec fn endpoint_of(agent_id: Seq<char>) -> Seq<char> {
    "endpoint:"@ + agent_id
}

/// The agents whose work was cut off.
pub open spec fn interrupted(sessions: Seq<SessionView>) -> Set<Seq<char>> {
    Seq::new(sessions.len(), |i: int| sessions[i].agent_definition_id).to_set()
}

pub open spec fn status_after_restart(busy: Set<Seq<char>>, agent_id: Seq<char>) -> AgentEndpointStatus {
    if busy.contains(agent_id) {
        AgentEndpointStatus::Offline
    } else {
        AgentEndpointStatus::Idle
    }
}

pub open spec fn next_generation(generation: u64) -> u64 {
    if generation == u64::MAX {
        generation
    } else {
        (generation + 1) as u64
    }
}

/// A known endpoint starts a new generation; an unknown one is made.
pub open spec fn reconcile_one(
    s: StateView,
    d: DefinitionView,
    status: AgentEndpointStatus,
    instance: Seq<char>,
    now: i64,
) -> (StateView, Outcome<()>) {
    let id = endpoint_of(d.id);
    if s.endpoints.contains_key(id) {
        let stored = s.endpoints[id];
        let step = update_endpoint_step(
            s,
            stored.version,
            EndpointView {
                instance_id: instance,
                status,
                generation: next_generation(stored.generation),
                active_runs: 0,
                max_concurrency: d.max_concurrency,
                last_heartbeat_millis: now,
                ..stored
            },
        );
        (step.0, step.2)
    } else {
        create_endpoint_step(
            s,
            EndpointView {
                id,
                definition_id: d.id,
                instance_id: instance,
                status,
                generation: 1,
                active_runs: 0,
                max_concurrency: d.max_concurrency,
                last_heartbeat_millis: now,
                version: 1,
            },
        )
    }
}

/// The first `n` agents, one after the other, up to the first error.
pub open spec fn reconcile_first(
    s: StateView,
    all: Seq<DefinitionView>,
    busy: Set<Seq<char>>,
    instances: Seq<Seq<char>>,
    now: i64,
    n: int,
) -> (StateView, Outcome<()>)
    decreases n,
{
    if n <= 0 {
        (s, Outcome::Done(()))
    } else {
        let before = reconcile_first(s, all, busy, instances, now, n - 1);
        if before.1 is Failed {
            before
        } else {
            let d = all[n - 1];
            reconcile_one(before.0, d, status_after_restart(busy, d.id), instances[n - 1], now)
        }
    }
}

/// The mission of the work that was cut off last is the active one, if there is no other.
pub open spec fn mission_after_restart(active: Option<Seq<char>>, sessions: Seq<SessionView>) -> Option<
    Seq<char>,
> {
    if active is None && sessions.len() > 0 {
        Some(sessions.last().mission_id)
    } else {
        active
    }
}

/// Recovery after a restart. Without a catalog or a store there is nothing to recover.
pub open spec fn restart_step(s: AppView, instances: Seq<Seq<char>>, now: i64) -> (
    AppView,
    Outcome<()>,
) {
    match s.agent_catalog {
        None => (s, Outcome::Done(())),
        Some(c) => match s.agent_state {
            None => (s, Outcome::Done(())),
            Some(state) => {
                let sessions = recovery_of(state.sessions);
                let all = definitions_in_order(c);
                let step = reconcile_first(
                    state,
                    all,
                    interrupted(sessions),
                    instances,
                    now,
                    all.len() as int,
                );
                (
                    AppView {
                        active_mission_id: mission_after_restart(s.active_mission_id, sessions),
                        agent_state: Some(step.0),
                        ..s
                    },
                    step.1,
                )
            },
        },
    }
}

fn reconcile_endpoint(
    store: &mut AgentStateStore,
    definition: &AgentDefinition,
    status: AgentEndpointStatus,
    instance_id: &str,
    now: i64,
) -> (r: Result<(), AgentError>)
    ensures
        (final(store)@, unit_outcome(r)) == reconcile_one(
            old(store)@,
            definition@,
            status,
            instance_id@,
            now,
        ),
{
    let mut endpoint_id: String = "endpoint:".to_string();
    endpoint_id.append(definition.id.as_str());
    match store.endpoint(endpoint_id.as_str()) {
        Some(stored) => {
            let mut endpoint = stored;
            let expected_version = endpoint.version;
            endpoint.instance_id = instance_id.to_string();
            endpoint.status = status;
            endpoint.generation = endpoint.generation.saturating_add(1);
            endpoint.active_runs = 0;
            endpoint.max_concurrency = definition.max_concurrency;
            endpoint.last_heartbeat_millis = now;
            store.update_endpoint(expected_version, &mut endpoint)
        },
        None => store.create_endpoint(
            &AgentEndpoint {
                id: endpoint_id,
                definition_id: definition.id.clone(),
                instance_id: instance_id.to_string(),
                status,
                generation: 1,
                active_runs: 0,
                max_concurrency: definition.max_concurrency,
                last_heartbeat_millis: now,
                version: 1,
            },
        ),
    }
}

impl HarnessApplication {
    /// How many agents there are, each of which gets a new instance in a recovery.
    pub fn agent_count(&self) -> (r: usize)
        ensures
            r == match self@.agent_catalog {
                Some(c) => definitions_in_order(c).len(),
                None => 0,
            },
    {
        match &self.agent_catalog {
            Some(catalog) => {
                let ids = catalog.ids();
                assert(texts(ids@).len() == ids@.len());
                ids.len()
            },
            None => 0,
        }
    }

    /// Recovers the agents after a restart.
    pub fn reconcile_agent_runtime(&mut self, instance_ids: &Vec<String>, now: i64) -> (r: Result<
        (),
        ApplicationError,
    >)
        requires
            old(self)@.agent_catalog matches Some(c) ==> definitions_in_order(c).len()
                <= instance_ids@.len(),
        ensures
            (final(self)@, unit_outcome(r)) == restart_step(old(self)@, texts(instance_ids@), now),
    {
        let definitions: Vec<AgentDefinition> = match &self.agent_catalog {
            Some(catalog) => catalog.list(),
            None => {
                return Ok(());
            },
        };
        let ghost s = self@;
        let ghost all = views(definitions@);
        let ghost ids = texts(instance_ids@);
        assert(all.len() == definitions@.len());
        assert(ids.len() == instance_ids@.len());
        let sessions = match &self.agent_state {
            Some(store) => {
                let sessions = store.recoverable_sessions();
                proof {
                    lemma_recovery_of(store@.sessions, views(sessions@));
                }
                sessions
            },
            None => {
                return Ok(());
            },
        };
        let ghost cut = views(sessions@);
        assert(cut.len() == sessions@.len());
        if self.active_mission_id.is_none() && sessions.len() > 0 {
            assert(cut.last() == sessions@.last()@);
            self.active_mission_id = Some(sessions[sessions.len() - 1].mission_id.clone());
        }
        let mut names: Vec<String> = Vec::new();
        let mut j: usize = 0;
        while j < sessions.len()
            invariant
                j <= sessions.len(),
                cut == views(sessions@),
                names@.len() == j,
                forall|k: int| 0 <= k < j ==> (#[trigger] names@[k])@ == cut[k].agent_definition_id,
            decreases sessions.len() - j,
        {
            assert(cut[j as int] == sessions@[j as int]@);
            names.push(sessions[j].agent_definition_id.clone());
            j = j + 1;
        }
        assert(texts(names@) =~= Seq::new(cut.len(), |k: int| cut[k].agent_definition_id));
        let busy = TextSet::of(names);
        match &mut self.agent_state {
            Some(store) => {
                let ghost before = store@;
                let mut lost: Option<AgentError> = None;
                let mut i: usize = 0;
                while i < definitions.len() && lost.is_none()
                    invariant
                        i <= definitions.len() <= instance_ids.len(),
                        all == views(definitions@),
                        ids == texts(instance_ids@),
                        busy@ == interrupted(cut),
                        (store@, match lost {
                            None => Outcome::Done(()),
                            Some(error) => Outcome::Failed(error@),
                        }) == reconcile_first(before, all, interrupted(cut), ids, now, i as int),
                    decreases definitions.len() - i,
                {
                    assert(all[i as int] == definitions@[i as int]@);
                    assert(ids[i as int] == instance_ids@[i as int]@);
                    let status = if busy.contains(definitions[i].id.as_str()) {
                        AgentEndpointStatus::Offline
                    } else {
                        AgentEndpointStatus::Idle
                    };
                    match reconcile_endpoint(
                        store,
                        &definitions[i],
                        status,
                        instance_ids[i].as_str(),
                        now,
                    ) {
                        Ok(()) => {},
                        Err(error) => {
                            lost = Some(error);
                        },
                    }
                    i = i + 1;
                }
                proof {
                    if lost is Some {
                        lemma_stays_failed(
                            before,
                            all,
                            interrupted(cut),
                            ids,
                            now,
                            i as int,
                            all.len() as int,
                        );
                    }
                }
                match lost {
                    Some(error) => Err(agent_error(error)),
                    None => Ok(()),
                }
            },
            None => Ok(()),
        }
    }
}

proof fn lemma_stays_failed(
    s: StateView,
    all: Seq<DefinitionView>,
    busy: Set<Seq<char>>,
    instances: Seq<Seq<char>>,
    now: i64,
    n: int,
    m: int,
)
    requires
        reconcile_first(s, all, busy, instances, now, n).1 is Failed,
        n <= m,
    ensures
        reconcile_first(s, all, busy, instances, now, m) == reconcile_first(
            s,
            all,
            busy,
            instances,
            now,
            n,
        ),
    decreases m - n,
{
    if n < m {
        lemma_stays_failed(s, all, busy, instances, now, n, m - 1);
    }
}

/// What holds of endpoints that were stored under their own ids.
pub open spec fn endpoints_keyed(s: StateView) -> bool {
    forall|id: Seq<char>| #[trigger] s.endpoints.contains_key(id) ==> s.endpoints[id].id == id
}

/// An endpoint as a recovery leaves it: no run is active, and only an agent whose work was cut off
/// is offline.
pub open spec fn is_recovered(
    s: StateView,
    d: DefinitionView,
    busy: Set<Seq<char>>,
    instance: Seq<char>,
    now: i64,
) -> bool {
    let id = endpoint_of(d.id);
    &&& s.endpoints.contains_key(id)
    &&& s.endpoints[id].active_runs == 0
    &&& s.endpoints[id].status == status_after_restart(busy, d.id)
    &&& s.endpoints[id].instance_id == instance
    &&& s.endpoints[id].max_concurrency == d.max_concurrency
    &&& s.endpoints[id].last_heartbeat_millis == now
}

proof fn lemma_endpoints_apart(a: Seq<char>, b: Seq<char>)
    requires
        endpoint_of(a) == endpoint_of(b),
    ensures
        a == b,
{
    let n = "endpoint:"@.len() as int;
    assert(a =~= endpoint_of(a).subrange(n, endpoint_of(a).len() as int));
    assert(b =~= endpoint_of(b).subrange(n, endpoint_of(b).len() as int));
}

proof fn lemma_recovered(
    s: StateView,
    all: Seq<DefinitionView>,
    busy: Set<Seq<char>>,
    instances: Seq<Seq<char>>,
    now: i64,
    n: int,
)
    requires
        endpoints_keyed(s),
        0 <= n <= all.len(),
        forall|i: int, j: int| 0 <= i < j < all.len() ==> (#[trigger] all[i]).id != (#[trigger] all[j]).id,
    ensures
        ({
            let (after, done) = reconcile_first(s, all, busy, instances, now, n);
            &&& done is Done
            &&& endpoints_keyed(after)
            &&& after.sessions == s.sessions
            &&& forall|i: int|
                0 <= i < n ==> is_recovered(after, #[trigger] all[i], busy, instances[i], now)
        }),
    decreases n,
{
    if n > 0 {
        lemma_recovered(s, all, busy, instances, now, n - 1);
        let before = reconcile_first(s, all, busy, instances, now, n - 1).0;
        let after = reconcile_first(s, all, busy, instances, now, n).0;
        assert forall|i: int| 0 <= i < n implies is_recovered(
            after,
            #[trigger] all[i],
            busy,
            instances[i],
            now,
        ) by {
            if i < n - 1 {
                assert(is_recovered(before, all[i], busy, instances[i], now));
                assert(all[i].id != all[n - 1].id);
                if endpoint_of(all[i].id) == endpoint_of(all[n - 1].id) {
                    lemma_endpoints_apart(all[i].id, all[n - 1].id);
                }
            }
        }
    }
}

/// A recovery succeeds. After it every agent of the catalog has an endpoint with no active run, which
/// is offline exactly if work of that agent was cut off; the sessions themselves are untouched.
pub proof fn law_recovery_readies_every_agent(s: AppView, instances: Seq<Seq<char>>, now: i64)
    requires
        s.agent_catalog matches Some(c) && catalog_ok(c) && enumerates(in_order(c.dom()), c.dom()),
        s.agent_state matches Some(state) && endpoints_keyed(state),
    ensures
        ({
            let (after, done) = restart_step(s, instances, now);
            let all = definitions_in_order(s.agent_catalog->0);
            let sessions = recovery_of(s.agent_state->0.sessions);
            &&& done is Done
            &&& after.agent_state->0.sessions == s.agent_state->0.sessions
            &&& forall|i: int|
                0 <= i < all.len() ==> is_recovered(
                    after.agent_state->0,
                    #[trigger] all[i],
                    interrupted(sessions),
                    instances[i],
                    now,
                )
        }),
{
    let c = s.agent_catalog->0;
    let keys = in_order(c.dom());
    let all = definitions_in_order(c);
    assert forall|i: int| 0 <= i < all.len() implies (#[trigger] all[i]).id == keys[i] by {
        assert(keys.contains(keys[i]));
        assert(c.contains_key(keys[i]));
    }
    assert forall|i: int, j: int| 0 <= i < j < all.len() implies (#[trigger] all[i]).id != (
    #[trigger] all[j]).id by {
        if keys[i] == keys[j] {
            lemma_ascending_distinct(keys, i, j);
        }
    }
    lemma_recovered(
        s.agent_state->0,
        all,
        interrupted(recovery_of(s.agent_state->0.sessions)),
        instances,
        now,
        all.len() as int,
    );
}

} // verus!
