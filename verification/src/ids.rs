//! Identifiers of tickets, projects and users: each wraps a number.

use vstd::prelude::*;

verus! {

/// Identifies a ticket.
#[derive(Debug, Clone, Copy, PartialEq, Eq, Hash, Structural)]
pub struct TicketId(u64);

impl View for TicketId {
    type V = u64;

    closed spec fn view(&self) -> u64 {
        self.0
    }
}

impl TicketId {
    pub fn new(value: u64) -> (id: TicketId)
        ensures
            id@ == value,
    {
        TicketId(value)
    }

    pub fn get(self) -> (value: u64)
        ensures
            value == self@,
    {
        self.0
    }
}

/// Identifies a project.
#[derive(Debug, Clone, Copy, PartialEq, Eq, Hash, Structural)]
pub struct ProjectId(u64);

impl View for ProjectId {
    type V = u64;

    closed spec fn view(&self) -> u64 {
        self.0
    }
}

impl ProjectId {
    pub fn new(value: u64) -> (id: ProjectId)
        ensures
            id@ == value,
    {
        ProjectId(value)
    }

    pub fn get(self) -> (value: u64)
        ensures
            value == self@,
    {
        self.0
    }
}

/// Identifies a user.
#[derive(Debug, Clone, Copy, PartialEq, Eq, Hash, Structural)]
pub struct UserId(u64);

impl View for UserId {
    type V = u64;

    closed spec fn view(&self) -> u64 {
        self.0
    }
}

impl UserId {
    pub fn new(value: u64) -> (id: UserId)
        ensures
            id@ == value,
    {
        UserId(value)
    }

    pub fn get(self) -> (value: u64)
        ensures
            value == self@,
    {
        self.0
    }
}

/// Two identifiers of one kind are the same exactly when their numbers are.
pub proof fn lemma_ids_equal_iff_numbers_equal()
    ensures
        forall|a: TicketId, b: TicketId| #![trigger a@, b@] a == b <==> a@ == b@,
        forall|a: ProjectId, b: ProjectId| #![trigger a@, b@] a == b <==> a@ == b@,
        forall|a: UserId, b: UserId| #![trigger a@, b@] a == b <==> a@ == b@,
{
}


} // verus!
