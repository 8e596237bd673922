//! The use cases: assigning a ticket to a member of its project, taking the
//! assignee off again, and doing either by ids against the storages.

use vstd::prelude::*;

use crate::ids::{lemma_ids_equal_iff_numbers_equal, ProjectId, TicketId, UserId};
use crate::project::{has_member, Project, ProjectView};
use crate::repository::{ProjectRepository, RepositoryError, TicketRepository};
use crate::ticket::{user_number, Ticket, TicketView};

verus! {

/// Why an assignment was refused.
#[derive(Debug, Clone, Copy, PartialEq, Eq, Structural)]
pub enum AssignTicketError {
    ProjectMismatch { expected_project_id: ProjectId, ticket_project_id: ProjectId },
    AssigneeIsNotProjectMember { project_id: ProjectId, user_id: UserId },
}

/// Why an assignment by ids failed.
#[derive(Debug, Clone, Copy, PartialEq, Eq, Structural)]
pub enum AssignTicketByIdError {
    ProjectNotFound { project_id: ProjectId },
    TicketNotFound { ticket_id: TicketId },
    AssignmentFailed(AssignTicketError),
    RepositoryFailed(RepositoryError),
}

/// The ticket with `user` as its assignee.
pub open spec fn with_assignee(t: TicketView, user: Option<u64>) -> TicketView {
    TicketView { assigned_to: user, ..t }
}

/// `e` is the refusal of a ticket of another project than `p`.
pub open spec fn is_project_mismatch(e: AssignTicketError, p: ProjectView, t: TicketView) -> bool {
    e matches AssignTicketError::ProjectMismatch { expected_project_id, ticket_project_id }
        && expected_project_id@ == p.id && ticket_project_id@ == t.project_id
}

/// `e` is the refusal of `user`, who is not a member of `p`.
pub open spec fn is_not_member(e: AssignTicketError, p: ProjectView, user: UserId) -> bool {
    e matches AssignTicketError::AssigneeIsNotProjectMember { project_id, user_id } && project_id@
        == p.id && user_id == user
}

/// What assigning `user` to `t` within `p` answers (`result`) and leaves
/// (`after`): a ticket of another project is refused first, then a user who
/// is not a member; otherwise the ticket is assigned to `user`, replacing
/// whoever had it. A refused ticket is left as it was.
pub open spec fn assign_outcome(
    p: ProjectView,
    t: TicketView,
    user: UserId,
    result: Result<(), AssignTicketError>,
    after: TicketView,
) -> bool {
    if t.project_id != p.id {
        result matches Err(e) && is_project_mismatch(e, p, t) && after == t
    } else if !has_member(p.members, user@) {
        result matches Err(e) && is_not_member(e, p, user) && after == t
    } else {
        result == Ok::<(), AssignTicketError>(()) && after == with_assignee(t, Some(user@))
    }
}

/// What taking the assignee off `t` within `p` answers (`result`) and leaves
/// (`after`): a ticket of another project is refused and left as it was;
/// otherwise the ticket is left unassigned and the previous assignee comes
/// back.
pub open spec fn unassign_outcome(
    p: ProjectView,
    t: TicketView,
    result: Result<Option<UserId>, AssignTicketError>,
    after: TicketView,
) -> bool {
    if t.project_id != p.id {
        result matches Err(e) && is_project_mismatch(e, p, t) && after == t
    } else {
        result matches Ok(previous) && user_number(previous) == t.assigned_to && after
            == with_assignee(t, None)
    }
}

/// Assigns `ticket` to `assignee`, who must be a member of `project`, the
/// project of the ticket.
pub fn assign_ticket(project: &Project, ticket: &mut Ticket, assignee_id: UserId) -> (result:
    Result<(), AssignTicketError>)
    ensures
        assign_outcome(project@, old(ticket)@, assignee_id, result, final(ticket)@),
{
    if ticket.project_id().get() != project.id().get() {
        return Err(
            AssignTicketError::ProjectMismatch {
                expected_project_id: project.id(),
                ticket_project_id: ticket.project_id(),
            },
        );
    }
    if !project.contains_member(assignee_id) {
        return Err(
            AssignTicketError::AssigneeIsNotProjectMember {
                project_id: project.id(),
                user_id: assignee_id,
            },
        );
    }
    ticket.assign_to(assignee_id);
    Ok(())
}

/// Takes the assignee off `ticket`, which must belong to `project`, and
/// hands back who had it.
pub fn unassign_ticket(project: &Project, ticket: &mut Ticket) -> (result: Result<
    Option<UserId>,
    AssignTicketError,
>)
    ensures
        unassign_outcome(project@, old(ticket)@, result, final(ticket)@),
{
    if ticket.project_id().get() != project.id().get() {
        return Err(
            AssignTicketError::ProjectMismatch {
                expected_project_id: project.id(),
                ticket_project_id: ticket.project_id(),
            },
        );
    }
    Ok(ticket.take_assignee())
}

/// Looks up the project and the ticket by id, assigns the ticket to
/// `assignee_id` and stores it again. The stored tickets change only through
/// the save of an accepted assignment.
pub fn assign_ticket_by_id<P, T>(
    project_repository: &P,
    ticket_repository: &mut T,
    project_id: ProjectId,
    ticket_id: TicketId,
    assignee_id: UserId,
) -> (result: Result<(), AssignTicketByIdError>) where P: ProjectRepository, T: TicketRepository
    ensures
        ({
            let projects = project_repository.stored_projects();
            let tickets = old(ticket_repository).stored_tickets();
            let p = projects[project_id@];
            let t = tickets[ticket_id@];
            &&& project_repository.is_available() && old(ticket_repository).is_available()
                ==> !(result matches Err(AssignTicketByIdError::RepositoryFailed(_)))
            &&& match result {
                Ok(()) => {
                    &&& projects.contains_key(project_id@)
                    &&& tickets.contains_key(ticket_id@)
                    &&& assign_outcome(p, t, assignee_id, Ok(()), with_assignee(t, Some(assignee_id@)))
                    &&& final(ticket_repository).stored_tickets() == tickets.insert(
                        ticket_id@,
                        with_assignee(t, Some(assignee_id@)),
                    )
                },
                Err(AssignTicketByIdError::ProjectNotFound { project_id: missing }) => {
                    &&& missing == project_id
                    &&& !projects.contains_key(project_id@)
                    &&& final(ticket_repository).stored_tickets() == tickets
                },
                Err(AssignTicketByIdError::TicketNotFound { ticket_id: missing }) => {
                    &&& missing == ticket_id
                    &&& projects.contains_key(project_id@)
                    &&& !tickets.contains_key(ticket_id@)
                    &&& final(ticket_repository).stored_tickets() == tickets
                },
                Err(AssignTicketByIdError::AssignmentFailed(e)) => {
                    &&& projects.contains_key(project_id@)
                    &&& tickets.contains_key(ticket_id@)
                    &&& assign_outcome(p, t, assignee_id, Err(e), t)
                    &&& final(ticket_repository).stored_tickets() == tickets
                },
                Err(AssignTicketByIdError::RepositoryFailed(_)) => {
                    // the project lookup failed
                    ||| !project_repository.is_available() && final(ticket_repository).stored_tickets()
                        == tickets
                    // the ticket lookup failed
                    ||| projects.contains_key(project_id@) && !old(ticket_repository).is_available()
                        && final(ticket_repository).stored_tickets() == tickets
                    // the save of the accepted assignment failed
                    ||| projects.contains_key(project_id@) && tickets.contains_key(ticket_id@)
                        && assign_outcome(p, t, assignee_id, Ok(()), with_assignee(t, Some(assignee_id@)))
                        && !old(ticket_repository).is_available()
                },
            }
        }),
{
    let project = match project_repository.find_by_id(project_id) {
        Ok(Some(project)) => project,
        Ok(None) => {
            return Err(AssignTicketByIdError::ProjectNotFound { project_id });
        },
        Err(e) => {
            return Err(AssignTicketByIdError::RepositoryFailed(e));
        },
    };
    let mut ticket = match ticket_repository.find_by_id(ticket_id) {
        Ok(Some(ticket)) => ticket,
        Ok(None) => {
            return Err(AssignTicketByIdError::TicketNotFound { ticket_id });
        },
        Err(e) => {
            return Err(AssignTicketByIdError::RepositoryFailed(e));
        },
    };
    match assign_ticket(&project, &mut ticket, assignee_id) {
        Ok(()) => {},
        Err(e) => {
            return Err(AssignTicketByIdError::AssignmentFailed(e));
        },
    }
    match ticket_repository.save(ticket) {
        Ok(()) => Ok(()),
        Err(e) => Err(AssignTicketByIdError::RepositoryFailed(e)),
    }
}

/// Looks up the project and the ticket by id, takes the assignee off the
/// ticket, stores it again and hands back who had it. The stored tickets
/// change only through the save of an accepted unassignment.
pub fn unassign_ticket_by_id<P, T>(
    project_repository: &P,
    ticket_repository: &mut T,
    project_id: ProjectId,
    ticket_id: TicketId,
) -> (result: Result<Option<UserId>, AssignTicketByIdError>) where
    P: ProjectRepository,
    T: TicketRepository,

    ensures
        ({
            let projects = project_repository.stored_projects();
            let tickets = old(ticket_repository).stored_tickets();
            let p = projects[project_id@];
            let t = tickets[ticket_id@];
            &&& project_repository.is_available() && old(ticket_repository).is_available()
                ==> !(result matches Err(AssignTicketByIdError::RepositoryFailed(_)))
            &&& match result {
                Ok(previous) => {
                    &&& projects.contains_key(project_id@)
                    &&& tickets.contains_key(ticket_id@)
                    &&& unassign_outcome(p, t, Ok(previous), with_assignee(t, None))
                    &&& final(ticket_repository).stored_tickets() == tickets.insert(
                        ticket_id@,
                        with_assignee(t, None),
                    )
                },
                Err(AssignTicketByIdError::ProjectNotFound { project_id: missing }) => {
                    &&& missing == project_id
                    &&& !projects.contains_key(project_id@)
                    &&& final(ticket_repository).stored_tickets() == tickets
                },
                Err(AssignTicketByIdError::TicketNotFound { ticket_id: missing }) => {
                    &&& missing == ticket_id
                    &&& projects.contains_key(project_id@)
                    &&& !tickets.contains_key(ticket_id@)
                    &&& final(ticket_repository).stored_tickets() == tickets
                },
                Err(AssignTicketByIdError::AssignmentFailed(e)) => {
                    &&& projects.contains_key(project_id@)
                    &&& tickets.contains_key(ticket_id@)
                    &&& unassign_outcome(p, t, Err(e), t)
                    &&& final(ticket_repository).stored_tickets() == tickets
                },
                Err(AssignTicketByIdError::RepositoryFailed(_)) => {
                    // the project lookup failed
                    ||| !project_repository.is_available() && final(ticket_repository).stored_tickets()
                        == tickets
                    // the ticket lookup failed
                    ||| projects.contains_key(project_id@) && !old(ticket_repository).is_available()
                        && final(ticket_repository).stored_tickets() == tickets
                    // the save of the accepted unassignment failed
                    ||| projects.contains_key(project_id@) && tickets.contains_key(ticket_id@)
                        && t.project_id == p.id && !old(ticket_repository).is_available()
                },
            }
        }),
{
    let project = match project_repository.find_by_id(project_id) {
        Ok(Some(project)) => project,
        Ok(None) => {
            return Err(AssignTicketByIdError::ProjectNotFound { project_id });
        },
        Err(e) => {
            return Err(AssignTicketByIdError::RepositoryFailed(e));
        },
    };
    let mut ticket = match ticket_repository.find_by_id(ticket_id) {
        Ok(Some(ticket)) => ticket,
        Ok(None) => {
            return Err(AssignTicketByIdError::TicketNotFound { ticket_id });
        },
        Err(e) => {
            return Err(AssignTicketByIdError::RepositoryFailed(e));
        },
    };
    let previous_assignee = match unassign_ticket(&project, &mut ticket) {
        Ok(previous) => previous,
        Err(e) => {
            return Err(AssignTicketByIdError::AssignmentFailed(e));
        },
    };
    match ticket_repository.save(ticket) {
        Ok(()) => Ok(previous_assignee),
        Err(e) => Err(AssignTicketByIdError::RepositoryFailed(e)),
    }
}

/// The outcome of an assignment is determined by the project, the ticket and
/// the user: two outcomes of the same request are the same.
pub proof fn lemma_assign_outcome_is_unique(
    p: ProjectView,
    t: TicketView,
    user: UserId,
    result1: Result<(), AssignTicketError>,
    after1: TicketView,
    result2: Result<(), AssignTicketError>,
    after2: TicketView,
)
    requires
        assign_outcome(p, t, user, result1, after1),
        assign_outcome(p, t, user, result2, after2),
    ensures
        result1 == result2,
        after1 == after2,
{
    lemma_ids_equal_iff_numbers_equal();
    if result1 is Err && result2 is Err {
        let e1 = result1->Err_0;
        let e2 = result2->Err_0;
        match (e1, e2) {
            (
                AssignTicketError::ProjectMismatch { expected_project_id: a1, ticket_project_id: b1 },
                AssignTicketError::ProjectMismatch { expected_project_id: a2, ticket_project_id: b2 },
            ) => {
                assert(a1@ == a2@ && b1@ == b2@);
            },
            (
                AssignTicketError::AssigneeIsNotProjectMember { project_id: a1, user_id: u1 },
                AssignTicketError::AssigneeIsNotProjectMember { project_id: a2, user_id: u2 },
            ) => {
                assert(a1@ == a2@);
            },
            _ => {},
        }
    }
}

/// The outcome of taking the assignee off is determined by the project and
/// the ticket.
pub proof fn lemma_unassign_outcome_is_unique(
    p: ProjectView,
    t: TicketView,
    result1: Result<Option<UserId>, AssignTicketError>,
    after1: TicketView,
    result2: Result<Option<UserId>, AssignTicketError>,
    after2: TicketView,
)
    requires
        unassign_outcome(p, t, result1, after1),
        unassign_outcome(p, t, result2, after2),
    ensures
        result1 == result2,
        after1 == after2,
{
    lemma_ids_equal_iff_numbers_equal();
    if t.project_id != p.id {
        let e1 = result1->Err_0;
        let e2 = result2->Err_0;
        match (e1, e2) {
            (
                AssignTicketError::ProjectMismatch { expected_project_id: a1, ticket_project_id: b1 },
                AssignTicketError::ProjectMismatch { expected_project_id: a2, ticket_project_id: b2 },
            ) => {
                assert(a1@ == a2@ && b1@ == b2@);
            },
            _ => {},
        }
    } else {
        let a = result1->Ok_0;
        let b = result2->Ok_0;
        assert(user_number(a) == user_number(b));
        if a is Some && b is Some {
            assert(a->0@ == b->0@);
        }
    }
}

/// Taking the assignee off a ticket that was just assigned to `user` hands
/// back `user` and leaves the ticket unassigned.
pub proof fn lemma_unassign_returns_the_assignee(
    p: ProjectView,
    t: TicketView,
    user: UserId,
    after_assign: TicketView,
    result: Result<Option<UserId>, AssignTicketError>,
    after_unassign: TicketView,
)
    requires
        assign_outcome(p, t, user, Ok(()), after_assign),
        unassign_outcome(p, after_assign, result, after_unassign),
    ensures
        result == Ok::<Option<UserId>, AssignTicketError>(Some(user)),
        after_unassign == with_assignee(t, None),
{
    lemma_ids_equal_iff_numbers_equal();
    let previous = result->Ok_0;
    assert(previous->0@ == user@);
}

/// Assigning replaces the previous assignee: after two accepted assignments
/// only the second user holds the ticket.
pub proof fn lemma_assign_replaces_previous(
    p: ProjectView,
    t: TicketView,
    first: UserId,
    second: UserId,
    after_first: TicketView,
    after_second: TicketView,
)
    requires
        assign_outcome(p, t, first, Ok(()), after_first),
        assign_outcome(p, after_first, second, Ok(()), after_second),
    ensures
        after_second == with_assignee(t, Some(second@)),
{
}

/// A refused assignment or unassignment leaves the ticket as it was.
pub proof fn lemma_refusal_leaves_ticket(
    p: ProjectView,
    t: TicketView,
    user: UserId,
    e: AssignTicketError,
    after: TicketView,
    previous_or_error: Result<Option<UserId>, AssignTicketError>,
    after_unassign: TicketView,
)
    ensures
        assign_outcome(p, t, user, Err(e), after) ==> after == t,
        unassign_outcome(p, t, previous_or_error, after_unassign) && previous_or_error is Err
            ==> after_unassign == t,
{
}

/// A ticket of the project is assigned to any member of the project,
/// whatever else the ticket holds, and nothing but its assignee changes; an
/// assignment is refused as a non-member only when the user is not a
/// member, and as a mismatch only when the ticket is of another project.
pub proof fn lemma_members_can_always_be_assigned(
    p: ProjectView,
    t: TicketView,
    user: UserId,
    result: Result<(), AssignTicketError>,
    after: TicketView,
)
    requires
        assign_outcome(p, t, user, result, after),
    ensures
        t.project_id == p.id && has_member(p.members, user@) ==> result == Ok::<(), AssignTicketError>(())
            && after == (TicketView { assigned_to: Some(user@), ..t }),
        result matches Err(AssignTicketError::AssigneeIsNotProjectMember { .. }) ==> !has_member(
            p.members,
            user@,
        ),
        result matches Err(AssignTicketError::ProjectMismatch { .. }) ==> t.project_id != p.id,
        result is Err ==> after == t,
{
}

/// Taking the assignee off a ticket of the project always succeeds and hands
/// back exactly the user the ticket was assigned to, whether or not that
/// user is still a member; the ticket is left unassigned and otherwise as it
/// was.
pub proof fn lemma_unassign_hands_back_the_assignee(
    p: ProjectView,
    t: TicketView,
    result: Result<Option<UserId>, AssignTicketError>,
    after: TicketView,
)
    requires
        unassign_outcome(p, t, result, after),
    ensures
        t.project_id == p.id ==> (result matches Ok(previous) && match previous {
            Some(u) => t.assigned_to == Some(u@),
            None => t.assigned_to is None,
        }),
        t.project_id == p.id ==> after == (TicketView { assigned_to: None, ..t }),
        t.project_id != p.id ==> result is Err && after == t,
{
}

} // verus!
