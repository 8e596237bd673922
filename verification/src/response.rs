//! What the HTTP service answers about a ticket: the body it sends for a
//! stored ticket, and which failure it reports otherwise.

use vstd::prelude::*;

use crate::ids::TicketId;
use vstd::std_specs::convert::FromSpecImpl;

use crate::repository::TicketRepository;
use crate::ticket::{Priority, Ticket, TicketStatus, TicketView};

verus! {

/// The label of a status in responses.
pub open spec fn status_label(status: TicketStatus) -> Seq<char> {
    match status {
        TicketStatus::Backlog => "backlog"@,
        TicketStatus::Todo => "todo"@,
        TicketStatus::InProgress => "in_progress"@,
        TicketStatus::Done => "done"@,
    }
}

/// The label of a priority in responses.
pub open spec fn priority_label(priority: Priority) -> Seq<char> {
    match priority {
        Priority::Low => "low"@,
        Priority::Medium => "medium"@,
        Priority::High => "high"@,
        Priority::Urgent => "urgent"@,
    }
}

/// The label of a status, as the string that responses carry.
pub open spec fn status_str(status: TicketStatus) -> &'static str {
    match status {
        TicketStatus::Backlog => "backlog",
        TicketStatus::Todo => "todo",
        TicketStatus::InProgress => "in_progress",
        TicketStatus::Done => "done",
    }
}

/// The label of a priority, as the string that responses carry.
pub open spec fn priority_str(priority: Priority) -> &'static str {
    match priority {
        Priority::Low => "low",
        Priority::Medium => "medium",
        Priority::High => "high",
        Priority::Urgent => "urgent",
    }
}

pub fn status_name(status: TicketStatus) -> (name: &'static str)
    ensures
        name == status_str(status),
        name@ == status_label(status),
{
    match status {
        TicketStatus::Backlog => "backlog",
        TicketStatus::Todo => "todo",
        TicketStatus::InProgress => "in_progress",
        TicketStatus::Done => "done",
    }
}

pub fn priority_name(priority: Priority) -> (name: &'static str)
    ensures
        name == priority_str(priority),
        name@ == priority_label(priority),
{
    match priority {
        Priority::Low => "low",
        Priority::Medium => "medium",
        Priority::High => "high",
        Priority::Urgent => "urgent",
    }
}

/// A response body as the contracts see it.
#[verifier::ext_equal]
pub struct TicketResponseView {
    pub id: u64,
    pub project_id: u64,
    pub created_by: u64,
    pub assigned_to: Option<u64>,
    pub title: Seq<char>,
    pub description: Seq<char>,
    pub status: Seq<char>,
    pub priority: Seq<char>,
}

/// The body that describes ticket `t`.
pub open spec fn describe_ticket(t: TicketView) -> TicketResponseView {
    TicketResponseView {
        id: t.id,
        project_id: t.project_id,
        created_by: t.created_by,
        assigned_to: t.assigned_to,
        title: t.title,
        description: t.description,
        status: status_label(t.status),
        priority: priority_label(t.priority),
    }
}

/// The body of the answer about one ticket.
#[derive(Debug)]
pub struct TicketResponse {
    pub id: u64,
    pub project_id: u64,
    pub created_by: u64,
    pub assigned_to: Option<u64>,
    pub title: String,
    pub description: String,
    pub status: &'static str,
    pub priority: &'static str,
}

impl View for TicketResponse {
    type V = TicketResponseView;

    open spec fn view(&self) -> TicketResponseView {
        TicketResponseView {
            id: self.id,
            project_id: self.project_id,
            created_by: self.created_by,
            assigned_to: self.assigned_to,
            title: self.title@,
            description: self.description@,
            status: self.status@,
            priority: self.priority@,
        }
    }
}

/// The body that describes ticket `t`, field by field.
pub open spec fn response_of(t: Ticket) -> TicketResponse {
    TicketResponse {
        id: t@.id,
        project_id: t@.project_id,
        created_by: t@.created_by,
        assigned_to: t@.assigned_to,
        title: t.title_text(),
        description: t.description_text(),
        status: status_str(t@.status),
        priority: priority_str(t@.priority),
    }
}

impl TicketResponse {
    /// The body that describes `ticket`.
    pub fn from_ticket(ticket: Ticket) -> (response: TicketResponse)
        ensures
            response == response_of(ticket),
            response@ == describe_ticket(ticket@),
    {
        let assigned_to = match ticket.assigned_to() {
            Some(user) => Some(user.get()),
            None => None,
        };
        let id = ticket.id().get();
        let project_id = ticket.project_id().get();
        let created_by = ticket.created_by().get();
        let status = status_name(ticket.status());
        let priority = priority_name(ticket.priority());
        let (title, description) = ticket.into_texts();
        TicketResponse { id, project_id, created_by, assigned_to, title, description, status, priority }
    }
}

impl From<Ticket> for TicketResponse {
    fn from(ticket: Ticket) -> (response: TicketResponse)
        ensures
            response@ == describe_ticket(ticket@),
    {
        TicketResponse::from_ticket(ticket)
    }
}

impl FromSpecImpl<Ticket> for TicketResponse {
    open spec fn obeys_from_spec() -> bool {
        true
    }

    open spec fn from_spec(v: Ticket) -> TicketResponse {
        response_of(v)
    }
}

/// Why there is no ticket to describe.
#[derive(Debug, Clone, Copy, PartialEq, Eq, Structural)]
pub enum TicketRequestError {
    /// No ticket has the requested id.
    NotFound,
    /// The storage failed to answer.
    StorageFailed,
}

/// The answer about ticket number `ticket_id`: its description when it is
/// stored, `NotFound` when it is not, `StorageFailed` when the storage fails.
pub fn get_ticket<T: TicketRepository>(repository: &T, ticket_id: u64) -> (result: Result<
    TicketResponse,
    TicketRequestError,
>)
    ensures
        repository.is_available() ==> result != Err::<TicketResponse, TicketRequestError>(
            TicketRequestError::StorageFailed,
        ),
        match result {
            Ok(response) => repository.stored_tickets().contains_key(ticket_id) && response@
                == describe_ticket(repository.stored_tickets()[ticket_id]),
            Err(TicketRequestError::NotFound) => !repository.stored_tickets().contains_key(ticket_id),
            Err(TicketRequestError::StorageFailed) => !repository.is_available(),
        },
{
    match repository.find_by_id(TicketId::new(ticket_id)) {
        Ok(Some(ticket)) => Ok(TicketResponse::from_ticket(ticket)),
        Ok(None) => Err(TicketRequestError::NotFound),
        Err(_) => Err(TicketRequestError::StorageFailed),
    }
}

/// Different statuses have different labels, and different priorities
/// have different labels, so a label names exactly one of them.
pub proof fn lemma_labels_are_distinct(a: TicketStatus, b: TicketStatus, x: Priority, y: Priority)
    ensures
        a != b ==> status_label(a) != status_label(b),
        x != y ==> priority_label(x) != priority_label(y),
{
    reveal_strlit("backlog");
    reveal_strlit("todo");
    reveal_strlit("in_progress");
    reveal_strlit("done");
    reveal_strlit("low");
    reveal_strlit("medium");
    reveal_strlit("high");
    reveal_strlit("urgent");
    assert("backlog"@.len() == 7);
    assert("todo"@.len() == 4);
    assert("in_progress"@.len() == 11);
    assert("done"@.len() == 4);
    assert("todo"@[0] != "done"@[0]);
    assert("low"@.len() == 3);
    assert("medium"@.len() == 6);
    assert("high"@.len() == 4);
    assert("urgent"@.len() == 6);
    assert("medium"@[0] != "urgent"@[0]);
}

/// A response describes its own ticket: it carries the ticket's numbers and
/// texts unchanged and the labels of the ticket's own status and priority,
/// so two tickets of different status get responses with different status
/// labels.
pub proof fn lemma_response_reflects_the_ticket(t: TicketView, u: TicketView)
    ensures
        describe_ticket(t).id == t.id,
        describe_ticket(t).project_id == t.project_id,
        describe_ticket(t).created_by == t.created_by,
        describe_ticket(t).assigned_to == t.assigned_to,
        describe_ticket(t).title == t.title,
        describe_ticket(t).description == t.description,
        describe_ticket(t).status == status_label(t.status),
        describe_ticket(t).priority == priority_label(t.priority),
        t.status != u.status ==> describe_ticket(t).status != describe_ticket(u).status,
        t.priority != u.priority ==> describe_ticket(t).priority != describe_ticket(u).priority,
        describe_ticket(t).status == status_str(t.status)@,
{
    lemma_labels_are_distinct(t.status, u.status, t.priority, u.priority);
}

} // verus!
