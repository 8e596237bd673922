//! Where projects and tickets are kept: the storage interface that the use
//! cases rely on, and an in-memory storage that implements it.

use vstd::prelude::*;

use std::collections::HashMap;

use crate::ids::{ProjectId, TicketId};
use crate::project::{Project, ProjectView};
use crate::ticket::{Ticket, TicketView};

verus! {

/// Why a storage could not answer.
#[derive(Debug, Clone, Copy, PartialEq, Eq, Structural)]
pub enum RepositoryError {
    Unavailable,
}

/// What a lookup of `id` in `stored` answers: the project stored under `id`,
/// or nothing when there is none.
pub open spec fn project_lookup(stored: Map<u64, ProjectView>, id: u64, found: Option<Project>) -> bool {
    match found {
        Some(p) => stored.contains_key(id) && p@ == stored[id] && p@.id == id,
        None => !stored.contains_key(id),
    }
}

/// What a lookup of `id` in `stored` answers: the ticket stored under `id`,
/// or nothing when there is none.
pub open spec fn ticket_lookup(stored: Map<u64, TicketView>, id: u64, found: Option<Ticket>) -> bool {
    match found {
        Some(t) => stored.contains_key(id) && t@ == stored[id] && t@.id == id,
        None => !stored.contains_key(id),
    }
}

/// A storage of projects, keyed by project id.
pub trait ProjectRepository {
    /// The projects held, by the number of their id.
    spec fn stored_projects(&self) -> Map<u64, ProjectView>;

    /// Whether the storage answers every request without failing.
    spec fn is_available(&self) -> bool;

    /// The project with id `project_id`, if one is stored.
    fn find_by_id(&self, project_id: ProjectId) -> (result: Result<Option<Project>, RepositoryError>)
        ensures
            self.is_available() ==> result is Ok,
            result matches Ok(found) ==> project_lookup(self.stored_projects(), project_id@, found),
    ;

    /// Stores `project` under its id, replacing what was stored there.
    fn save(&mut self, project: Project) -> (result: Result<(), RepositoryError>)
        ensures
            old(self).is_available() ==> result == Ok::<(), RepositoryError>(()),
            result is Ok ==> final(self).stored_projects() == old(self).stored_projects().insert(
                project@.id,
                project@,
            ),
    ;
}

/// A storage of tickets, keyed by ticket id.
pub trait TicketRepository {
    /// The tickets held, by the number of their id.
    spec fn stored_tickets(&self) -> Map<u64, TicketView>;

    /// Whether the storage answers every request without failing.
    spec fn is_available(&self) -> bool;

    /// The ticket with id `ticket_id`, if one is stored.
    fn find_by_id(&self, ticket_id: TicketId) -> (result: Result<Option<Ticket>, RepositoryError>)
        ensures
            self.is_available() ==> result is Ok,
            result matches Ok(found) ==> ticket_lookup(self.stored_tickets(), ticket_id@, found),
    ;

    /// Stores `ticket` under its id, replacing what was stored there.
    fn save(&mut self, ticket: Ticket) -> (result: Result<(), RepositoryError>)
        ensures
            old(self).is_available() ==> result == Ok::<(), RepositoryError>(()),
            result is Ok ==> final(self).stored_tickets() == old(self).stored_tickets().insert(
                ticket@.id,
                ticket@,
            ),
    ;
}

/// Projects kept in memory.
#[derive(Debug)]
pub struct InMemoryProjectRepository {
    projects: HashMap<u64, Project>,
}

impl InMemoryProjectRepository {
    /// Each project is kept under the number of its own id.
    #[verifier::type_invariant]
    spec fn keyed_by_id(self) -> bool {
        forall|k: u64| #[trigger] self.projects@.contains_key(k) ==> self.projects@[k]@.id == k
    }

    /// An empty storage.
    pub fn new() -> (repository: Self)
        ensures
            repository.stored_projects() == Map::<u64, ProjectView>::empty(),
            repository.is_available(),
    {
        let repository = InMemoryProjectRepository { projects: HashMap::new() };
        assert(repository.stored_projects() =~= Map::<u64, ProjectView>::empty());
        repository
    }
}

impl Default for InMemoryProjectRepository {
    fn default() -> (repository: Self)
        ensures
            repository.stored_projects() == Map::<u64, ProjectView>::empty(),
    {
        InMemoryProjectRepository::new()
    }
}

impl ProjectRepository for InMemoryProjectRepository {
    closed spec fn stored_projects(&self) -> Map<u64, ProjectView> {
        self.projects@.map_values(|p: Project| p@)
    }

    /// Memory always answers.
    open spec fn is_available(&self) -> bool {
        true
    }

    fn find_by_id(&self, project_id: ProjectId) -> (result: Result<Option<Project>, RepositoryError>) {
        broadcast use vstd::std_specs::hash::group_hash_axioms;

        proof {
            use_type_invariant(self);
        }
        match self.projects.get(&project_id.get()) {
            Some(project) => Ok(Some(project.clone())),
            None => Ok(None),
        }
    }

    fn save(&mut self, project: Project) -> (result: Result<(), RepositoryError>) {
        broadcast use vstd::std_specs::hash::group_hash_axioms;

        proof {
            use_type_invariant(&*self);
        }
        let key = project.id().get();
        let ghost stored = project@;
        // The map is taken out while it changes; an empty map stands in for
        // it meanwhile.
        let mut projects: HashMap<u64, Project> = HashMap::new();
        std::mem::swap(&mut projects, &mut self.projects);
        projects.insert(key, project);
        self.projects = projects;
        assert(self.stored_projects() =~= old(self).stored_projects().insert(key, stored));
        Ok(())
    }
}

/// Tickets kept in memory.
#[derive(Debug)]
pub struct InMemoryTicketRepository {
    tickets: HashMap<u64, Ticket>,
}

impl InMemoryTicketRepository {
    /// Each ticket is kept under the number of its own id.
    #[verifier::type_invariant]
    spec fn keyed_by_id(self) -> bool {
        forall|k: u64| #[trigger] self.tickets@.contains_key(k) ==> self.tickets@[k]@.id == k
    }

    /// An empty storage.
    pub fn new() -> (repository: Self)
        ensures
            repository.stored_tickets() == Map::<u64, TicketView>::empty(),
            repository.is_available(),
    {
        let repository = InMemoryTicketRepository { tickets: HashMap::new() };
        assert(repository.stored_tickets() =~= Map::<u64, TicketView>::empty());
        repository
    }
}

impl Default for InMemoryTicketRepository {
    fn default() -> (repository: Self)
        ensures
            repository.stored_tickets() == Map::<u64, TicketView>::empty(),
    {
        InMemoryTicketRepository::new()
    }
}

impl TicketRepository for InMemoryTicketRepository {
    closed spec fn stored_tickets(&self) -> Map<u64, TicketView> {
        self.tickets@.map_values(|t: Ticket| t@)
    }

    /// Memory always answers.
    open spec fn is_available(&self) -> bool {
        true
    }

    fn find_by_id(&self, ticket_id: TicketId) -> (result: Result<Option<Ticket>, RepositoryError>) {
        broadcast use vstd::std_specs::hash::group_hash_axioms;

        proof {
            use_type_invariant(self);
        }
        match self.tickets.get(&ticket_id.get()) {
            Some(ticket) => Ok(Some(ticket.clone())),
            None => Ok(None),
        }
    }

    fn save(&mut self, ticket: Ticket) -> (result: Result<(), RepositoryError>) {
        broadcast use vstd::std_specs::hash::group_hash_axioms;

        proof {
            use_type_invariant(&*self);
        }
        let key = ticket.id().get();
        let ghost stored = ticket@;
        // The map is taken out while it changes; an empty map stands in for
        // it meanwhile.
        let mut tickets: HashMap<u64, Ticket> = HashMap::new();
        std::mem::swap(&mut tickets, &mut self.tickets);
        tickets.insert(key, ticket);
        self.tickets = tickets;
        assert(self.stored_tickets() =~= old(self).stored_tickets().insert(key, stored));
        Ok(())
    }
}

/// What a storage promises across calls, over its stored map: after a save
/// under `key`, looking up `key` finds what was saved; other keys find what
/// they found before; saving under the same key again keeps only the last
/// value. The storages' `save` contracts insert each item under its id.
pub proof fn lemma_find_after_save<V>(stored: Map<u64, V>, key: u64, saved: V, later: V, other: u64)
    requires
        other != key,
    ensures
        stored.insert(key, saved).contains_key(key),
        stored.insert(key, saved)[key] == saved,
        stored.insert(key, saved).contains_key(other) == stored.contains_key(other),
        stored.contains_key(other) ==> stored.insert(key, saved)[other] == stored[other],
        stored.insert(key, saved).insert(key, later) == stored.insert(key, later),
{
    assert(stored.insert(key, saved).insert(key, later) =~= stored.insert(key, later));
}

/// A lookup answer that a storage may give right after saving a ticket
/// finds that very ticket; a lookup of an id that was never saved finds
/// nothing.
pub proof fn lemma_lookup_after_save_finds_the_ticket(
    stored: Map<u64, TicketView>,
    saved: TicketView,
    found: Option<Ticket>,
)
    requires
        ticket_lookup(stored.insert(saved.id, saved), saved.id, found),
    ensures
        found matches Some(t) && t@ == saved,
{
}

/// The same for projects.
pub proof fn lemma_lookup_after_save_finds_the_project(
    stored: Map<u64, ProjectView>,
    saved: ProjectView,
    found: Option<Project>,
)
    requires
        project_lookup(stored.insert(saved.id, saved), saved.id, found),
    ensures
        found matches Some(p) && p@ == saved,
{
}

/// A lookup in a storage that holds nothing finds nothing.
pub proof fn lemma_lookup_in_empty_finds_nothing(id: u64, ticket: Option<Ticket>, project: Option<Project>)
    ensures
        ticket_lookup(Map::empty(), id, ticket) ==> ticket is None,
        project_lookup(Map::empty(), id, project) ==> project is None,
{
}

} // verus!
