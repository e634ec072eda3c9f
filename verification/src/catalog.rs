//! The catalog of agents: what each of them is, and how many instances of it are at work.

use vstd::prelude::*;

use crate::error::{failure, unit_outcome, AgentError, Outcome};
use crate::model::{group_views, views};
use crate::ordered::{in_order, TextMap, TextSet};
use crate::roles::{AgentRole, RoleSet};
use crate::text::{is_blank, is_blank_text, texts};

verus! {

/// Identifiers are texts.
pub type AgentDefinitionId = String;

#[derive(Clone, Copy, Debug, PartialEq, Eq, Structural)]
pub enum AgentLifecycle {
    Sleeping,
    Reserved,
    Running,
    Draining,
    Failed,
}

/// What an agent is: its roles, what it is able to do and allowed to use, and its limits.
#[derive(Debug, PartialEq, Eq)]
pub struct AgentDefinition {
    pub id: AgentDefinitionId,
    pub name: String,
    pub roles: RoleSet,
    pub capabilities: TextSet,
    pub allowed_tools: TextSet,
    pub max_concurrency: usize,
    pub cost_weight: u32,
    pub integrity_floor: String,
}

pub struct DefinitionView {
    pub id: Seq<char>,
    pub name: Seq<char>,
    pub roles: Set<AgentRole>,
    pub capabilities: Set<Seq<char>>,
    pub allowed_tools: Set<Seq<char>>,
    pub max_concurrency: usize,
    pub cost_weight: u32,
    pub integrity_floor: Seq<char>,
}

impl View for AgentDefinition {
    type V = DefinitionView;

    open spec fn view(&self) -> DefinitionView {
        DefinitionView {
            id: self.id@,
            name: self.name@,
            roles: self.roles@,
            capabilities: self.capabilities@,
            allowed_tools: self.allowed_tools@,
            max_concurrency: self.max_concurrency,
            cost_weight: self.cost_weight,
            integrity_floor: self.integrity_floor@,
        }
    }
}

impl AgentDefinition {
    pub fn copy(&self) -> (r: Self)
        ensures
            r@ == self@,
    {
        AgentDefinition {
            id: self.id.clone(),
            name: self.name.clone(),
            roles: self.roles.copy(),
            capabilities: self.capabilities.copy(),
            allowed_tools: self.allowed_tools.copy(),
            max_concurrency: self.max_concurrency,
            cost_weight: self.cost_weight,
            integrity_floor: self.integrity_floor.clone(),
        }
    }
}

/// A definition with the numbers of its reserved and of its running instances.
struct CatalogEntry {
    definition: AgentDefinition,
    reserved: usize,
    running: usize,
}

pub struct EntryView {
    pub definition: DefinitionView,
    pub reserved: nat,
    pub running: nat,
}

impl View for CatalogEntry {
    type V = EntryView;

    closed spec fn view(&self) -> EntryView {
        EntryView {
            definition: self.definition@,
            reserved: self.reserved as nat,
            running: self.running as nat,
        }
    }
}

/// The catalog as a map from identifiers to entries.
pub type CatalogView = Map<Seq<char>, EntryView>;

/// A coordinator or staffing router: it observes, routes and records.
pub open spec fn is_control_plane(d: DefinitionView) -> bool {
    d.roles.contains(AgentRole::Coordinator) || d.roles.contains(AgentRole::StaffingRouter)
}

pub open spec fn is_complete(d: DefinitionView) -> bool {
    &&& !is_blank_text(d.name)
    &&& d.capabilities != Set::<Seq<char>>::empty()
    &&& d.max_concurrency > 0
}

pub open spec fn codes_from_control_plane(d: DefinitionView) -> bool {
    is_control_plane(d) && d.roles.contains(AgentRole::Coder)
}

pub open spec fn entry_ok(id: Seq<char>, e: EntryView) -> bool {
    &&& e.definition.id == id
    &&& is_complete(e.definition)
    &&& !codes_from_control_plane(e.definition)
    &&& e.reserved + e.running <= e.definition.max_concurrency
}

/// What holds of every catalog: each entry is complete, stands under its own identifier, does not
/// mix the control plane with writing code, and has no more active instances than it may have.
pub open spec fn catalog_ok(c: CatalogView) -> bool {
    forall|id: Seq<char>| #[trigger] c.contains_key(id) ==> entry_ok(id, c[id])
}

/// The reserved and the running instances of an agent together.
pub open spec fn active(c: CatalogView, id: Seq<char>) -> nat {
    if c.contains_key(id) {
        c[id].reserved + c[id].running
    } else {
        0
    }
}

pub open spec fn is_available(c: CatalogView, id: Seq<char>) -> bool {
    c.contains_key(id) && active(c, id) < c[id].definition.max_concurrency
}

pub open spec fn lifecycle_of(c: CatalogView, id: Seq<char>) -> Option<AgentLifecycle> {
    if !c.contains_key(id) {
        None
    } else if c[id].running > 0 {
        Some(AgentLifecycle::Running)
    } else if c[id].reserved > 0 {
        Some(AgentLifecycle::Reserved)
    } else {
        Some(AgentLifecycle::Sleeping)
    }
}

pub open spec fn fresh_entry(d: DefinitionView) -> EntryView {
    EntryView { definition: d, reserved: 0, running: 0 }
}

pub open spec fn with_counts(e: EntryView, reserved: int, running: int) -> EntryView {
    EntryView { definition: e.definition, reserved: reserved as nat, running: running as nat }
}

/// Registering a definition: the catalog after it, and what comes back.
pub open spec fn register_step(c: CatalogView, d: DefinitionView) -> (CatalogView, Outcome<()>) {
    if !is_complete(d) {
        (c, failure("agent-definition-invalid"@, d.id))
    } else if codes_from_control_plane(d) {
        (c, failure("agent-control-plane-cannot-code"@, d.id))
    } else if c.contains_key(d.id) {
        (c, failure("agent-definition-exists"@, "duplicate"@))
    } else {
        (c.insert(d.id, fresh_entry(d)), Outcome::Done(()))
    }
}

/// Reserving one more instance.
pub open spec fn reserve_step(c: CatalogView, id: Seq<char>) -> (CatalogView, Outcome<()>) {
    if !is_available(c, id) {
        (c, failure("agent-not-available"@, id))
    } else {
        (
            c.insert(id, with_counts(c[id], c[id].reserved + 1int, c[id].running as int)),
            Outcome::Done(()),
        )
    }
}

/// Turning a reserved instance into a running one.
pub open spec fn start_step(c: CatalogView, id: Seq<char>) -> (CatalogView, Outcome<()>) {
    if !c.contains_key(id) {
        (c, failure("agent-not-found"@, id))
    } else if c[id].reserved == 0 {
        (c, failure("agent-not-reserved"@, id))
    } else {
        (
            c.insert(id, with_counts(c[id], c[id].reserved - 1, c[id].running + 1int)),
            Outcome::Done(()),
        )
    }
}

/// Giving up one instance: a running one, or else a reserved one.
pub open spec fn release_step(c: CatalogView, id: Seq<char>) -> (CatalogView, Outcome<()>) {
    if !c.contains_key(id) {
        (c, failure("agent-not-found"@, id))
    } else if c[id].running > 0 {
        (
            c.insert(id, with_counts(c[id], c[id].reserved as int, c[id].running - 1)),
            Outcome::Done(()),
        )
    } else if c[id].reserved > 0 {
        (
            c.insert(id, with_counts(c[id], c[id].reserved - 1, c[id].running as int)),
            Outcome::Done(()),
        )
    } else {
        (c, failure("agent-not-active"@, id))
    }
}

/// The definitions in ascending order of their identifiers.
pub open spec fn definitions_in_order(c: CatalogView) -> Seq<DefinitionView> {
    Seq::new(in_order(c.dom()).len(), |i: int| c[in_order(c.dom())[i]].definition)
}

/// The agents that can be put to work.
pub struct AgentCatalog {
    entries: TextMap<CatalogEntry>,
}

impl View for AgentCatalog {
    type V = CatalogView;

    closed spec fn view(&self) -> CatalogView {
        self.entries@
    }
}

impl AgentCatalog {
    #[verifier::type_invariant]
    spec fn within_limits(self) -> bool {
        catalog_ok(self.entries@)
    }

    pub fn new() -> (r: Self)
        ensures
            r@ == Map::<Seq<char>, EntryView>::empty(),
    {
        AgentCatalog { entries: TextMap::new() }
    }

    pub fn register(&mut self, definition: AgentDefinition) -> (r: Result<(), AgentError>)
        ensures
            (final(self)@, unit_outcome(r)) == register_step(old(self)@, definition@),
            catalog_ok(final(self)@),
    {
        proof {
            use_type_invariant(&*self);
        }
        if is_blank(definition.name.as_str()) || definition.capabilities.is_empty()
            || definition.max_concurrency == 0 {
            return Err(AgentError::new("agent-definition-invalid", definition.id.as_str()));
        }
        let control_plane = definition.roles.contains(AgentRole::Coordinator)
            || definition.roles.contains(AgentRole::StaffingRouter);
        if control_plane && definition.roles.contains(AgentRole::Coder) {
            return Err(AgentError::new("agent-control-plane-cannot-code", definition.id.as_str()));
        }
        if self.entries.contains_key(definition.id.as_str()) {
            return Err(AgentError::new("agent-definition-exists", "duplicate"));
        }
        let mut entries: TextMap<CatalogEntry> = TextMap::new();
        std::mem::swap(&mut entries, &mut self.entries);
        entries.insert(
            definition.id.clone(),
            CatalogEntry { definition, reserved: 0, running: 0 },
        );
        self.entries = entries;
        Ok(())
    }

    /// Copies of all definitions, in ascending order of their identifiers.
    pub fn list(&self) -> (r: Vec<AgentDefinition>)
        ensures
            views(r@) == definitions_in_order(self@),
            catalog_ok(self@),
    {
        proof {
            use_type_invariant(self);
        }
        let mut r: Vec<AgentDefinition> = Vec::new();
        let count = self.entries.len();
        let mut i: usize = 0;
        while i < count
            invariant
                i <= count == in_order(self@.dom()).len(),
                self@ == self.entries@,
                views(r@) == definitions_in_order(self@).subrange(0, i as int),
            decreases count - i,
        {
            broadcast use group_views;

            r.push(self.entries.value_at(i).definition.copy());
            i = i + 1;
            assert(views(r@) =~= definitions_in_order(self@).subrange(0, i as int));
        }
        assert(definitions_in_order(self@).subrange(0, count as int) =~= definitions_in_order(self@));
        r
    }

    pub fn definition(&self, id: &str) -> (r: Option<&AgentDefinition>)
        ensures
            r is Some <==> self@.contains_key(id@),
            r matches Some(d) ==> d@ == self@[id@].definition,
            catalog_ok(self@),
    {
        proof {
            use_type_invariant(self);
        }
        match self.entries.get(id) {
            Some(entry) => Some(&entry.definition),
            None => None,
        }
    }

    pub fn lifecycle(&self, id: &str) -> (r: Option<AgentLifecycle>)
        ensures
            r == lifecycle_of(self@, id@),
    {
        match self.entries.get(id) {
            Some(entry) => if entry.running > 0 {
                Some(AgentLifecycle::Running)
            } else if entry.reserved > 0 {
                Some(AgentLifecycle::Reserved)
            } else {
                Some(AgentLifecycle::Sleeping)
            },
            None => None,
        }
    }

    pub fn active_count(&self, id: &str) -> (r: usize)
        ensures
            r == active(self@, id@),
            catalog_ok(self@),
    {
        proof {
            use_type_invariant(self);
        }
        match self.entries.get(id) {
            Some(entry) => {
                assert(entry_ok(id@, self@[id@]));
                entry.reserved + entry.running
            },
            None => 0,
        }
    }

    pub fn available(&self, id: &str) -> (r: bool)
        ensures
            r == is_available(self@, id@),
    {
        match self.entries.get(id) {
            Some(entry) => self.active_count(id) < entry.definition.max_concurrency,
            None => false,
        }
    }

    /// The identifiers of the agents, in ascending order.
    pub fn ids(&self) -> (r: &Vec<String>)
        ensures
            texts(r@) == in_order(self@.dom()),
            crate::ordered::enumerates(texts(r@), self@.dom()),
            catalog_ok(self@),
    {
        proof {
            use_type_invariant(self);
        }
        self.entries.keys()
    }

    pub fn reserve(&mut self, id: &str) -> (r: Result<(), AgentError>)
        ensures
            (final(self)@, unit_outcome(r)) == reserve_step(old(self)@, id@),
            catalog_ok(final(self)@),
    {
        proof {
            use_type_invariant(&*self);
        }
        if !self.available(id) {
            return Err(AgentError::new("agent-not-available", id));
        }
        let mut entries: TextMap<CatalogEntry> = TextMap::new();
        std::mem::swap(&mut entries, &mut self.entries);
        let ghost before = entries@;
        assert(entry_ok(id@, before[id@]));
        if let Some(mut entry) = entries.remove(id) {
            entry.reserved = entry.reserved + 1;
            entries.insert(id.to_owned(), entry);
            assert(entries@ =~= before.insert(
                id@,
                with_counts(before[id@], before[id@].reserved + 1int, before[id@].running as int),
            ));
        }
        self.entries = entries;
        Ok(())
    }

    pub fn start(&mut self, id: &str) -> (r: Result<(), AgentError>)
        ensures
            (final(self)@, unit_outcome(r)) == start_step(old(self)@, id@),
            catalog_ok(final(self)@),
    {
        proof {
            use_type_invariant(&*self);
        }
        match self.entries.get(id) {
            Some(entry) => if entry.reserved == 0 {
                return Err(AgentError::new("agent-not-reserved", id));
            },
            None => {
                return Err(AgentError::new("agent-not-found", id));
            },
        }
        let mut entries: TextMap<CatalogEntry> = TextMap::new();
        std::mem::swap(&mut entries, &mut self.entries);
        let ghost before = entries@;
        assert(entry_ok(id@, before[id@]));
        if let Some(mut entry) = entries.remove(id) {
            entry.reserved = entry.reserved - 1;
            entry.running = entry.running + 1;
            entries.insert(id.to_owned(), entry);
            assert(entries@ =~= before.insert(
                id@,
                with_counts(before[id@], before[id@].reserved - 1, before[id@].running + 1int),
            ));
        }
        self.entries = entries;
        Ok(())
    }

    pub fn release(&mut self, id: &str) -> (r: Result<(), AgentError>)
        ensures
            (final(self)@, unit_outcome(r)) == release_step(old(self)@, id@),
            catalog_ok(final(self)@),
    {
        proof {
            use_type_invariant(&*self);
        }
        match self.entries.get(id) {
            Some(entry) => if entry.running == 0 && entry.reserved == 0 {
                return Err(AgentError::new("agent-not-active", id));
            },
            None => {
                return Err(AgentError::new("agent-not-found", id));
            },
        }
        let mut entries: TextMap<CatalogEntry> = TextMap::new();
        std::mem::swap(&mut entries, &mut self.entries);
        let ghost before = entries@;
        assert(entry_ok(id@, before[id@]));
        if let Some(mut entry) = entries.remove(id) {
            if entry.running > 0 {
                entry.running = entry.running - 1;
                entries.insert(id.to_owned(), entry);
                assert(entries@ =~= before.insert(
                    id@,
                    with_counts(before[id@], before[id@].reserved as int, before[id@].running - 1),
                ));
            } else {
                entry.reserved = entry.reserved - 1;
                entries.insert(id.to_owned(), entry);
                assert(entries@ =~= before.insert(
                    id@,
                    with_counts(before[id@], before[id@].reserved - 1, before[id@].running as int),
                ));
            }
        }
        self.entries = entries;
        Ok(())
    }
}

/// The limits of every agent hold after each step that they held before.
pub proof fn law_limits_are_kept(c: CatalogView, d: DefinitionView, id: Seq<char>)
    requires
        catalog_ok(c),
    ensures
        catalog_ok(register_step(c, d).0),
        catalog_ok(reserve_step(c, id).0),
        catalog_ok(start_step(c, id).0),
        catalog_ok(release_step(c, id).0),
{
    assert(c.contains_key(id) ==> entry_ok(id, c[id]));
}

/// A step that is refused changes nothing, and a step for one agent changes no other.
pub proof fn law_steps_touch_one_agent(
    c: CatalogView,
    d: DefinitionView,
    id: Seq<char>,
    other: Seq<char>,
)
    requires
        other != id,
        other != d.id,
    ensures
        register_step(c, d).1 is Failed ==> register_step(c, d).0 == c,
        reserve_step(c, id).1 is Failed ==> reserve_step(c, id).0 == c,
        start_step(c, id).1 is Failed ==> start_step(c, id).0 == c,
        release_step(c, id).1 is Failed ==> release_step(c, id).0 == c,
        active(register_step(c, d).0, other) == active(c, other),
        active(reserve_step(c, id).0, other) == active(c, other),
        active(start_step(c, id).0, other) == active(c, other),
        active(release_step(c, id).0, other) == active(c, other),
{
}

/// Starting a reserved instance keeps the number of active ones; releasing what was just reserved
/// of an agent with nothing running undoes the reservation.
pub proof fn law_reserve_start_release(c: CatalogView, id: Seq<char>)
    requires
        is_available(c, id),
    ensures
        ({
            let reserved = reserve_step(c, id).0;
            let started = start_step(reserved, id);
            &&& active(reserved, id) == active(c, id) + 1
            &&& started.1 == Outcome::Done(())
            &&& active(started.0, id) == active(reserved, id)
            &&& lifecycle_of(started.0, id) == Some(AgentLifecycle::Running)
            &&& release_step(started.0, id) == (c, Outcome::Done(()))
            &&& c[id].running == 0 ==> release_step(reserved, id) == (c, Outcome::Done(()))
        }),
{
    let reserved = reserve_step(c, id).0;
    let started = start_step(reserved, id).0;
    assert(release_step(started, id).0 =~= c);
    if c[id].running == 0 {
        assert(release_step(reserved, id).0 =~= c);
    }
}

/// No registered agent both runs the control plane and writes code.
pub proof fn law_control_plane_never_codes(c: CatalogView, id: Seq<char>)
    requires
        catalog_ok(c),
        c.contains_key(id),
        is_control_plane(c[id].definition),
    ensures
        !c[id].definition.roles.contains(AgentRole::Coder),
{
    assert(entry_ok(id, c[id]));
}

} // verus!
