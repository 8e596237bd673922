//! Tickets: a unit of work inside a project, with a status that follows a
//! fixed workflow (backlog, to do, in progress, done) and an optional
//! assignee.

use vstd::prelude::*;

use crate::ids::{ProjectId, TicketId, UserId};
use crate::text::{is_blank, is_blank_text};

verus! {

/// Where a ticket stands in the workflow.
#[derive(Debug, Clone, Copy, PartialEq, Eq, Structural)]
pub enum TicketStatus {
    Backlog,
    Todo,
    InProgress,
    Done,
}

/// How urgent a ticket is.
#[derive(Debug, Clone, Copy, PartialEq, Eq, Structural)]
pub enum Priority {
    Low,
    Medium,
    High,
    Urgent,
}

/// Why a change to a ticket was refused.
#[derive(Debug, Clone, Copy, PartialEq, Eq, Structural)]
pub enum TicketError {
    EmptyTitle,
    InvalidStatusTransition { from: TicketStatus, to: TicketStatus },
}

/// The workflow: a ticket moves one step forward or one step back, and
/// nowhere else.
pub open spec fn transition_allowed(from: TicketStatus, to: TicketStatus) -> bool {
    match (from, to) {
        (TicketStatus::Backlog, TicketStatus::Todo) => true,
        (TicketStatus::Todo, TicketStatus::Backlog) => true,
        (TicketStatus::Todo, TicketStatus::InProgress) => true,
        (TicketStatus::InProgress, TicketStatus::Todo) => true,
        (TicketStatus::InProgress, TicketStatus::Done) => true,
        (TicketStatus::Done, TicketStatus::InProgress) => true,
        _ => false,
    }
}

/// The abstract content of a ticket, with identifiers as numbers and text as
/// sequences of characters.
#[verifier::ext_equal]
pub struct TicketView {
    pub id: u64,
    pub project_id: u64,
    pub created_by: u64,
    pub assigned_to: Option<u64>,
    pub title: Seq<char>,
    pub description: Seq<char>,
    pub status: TicketStatus,
    pub priority: Priority,
}

/// A ticket as it stands right after it is opened.
pub open spec fn new_ticket_view(
    id: u64,
    project_id: u64,
    created_by: u64,
    title: Seq<char>,
    description: Seq<char>,
    priority: Priority,
) -> TicketView {
    TicketView {
        id,
        project_id,
        created_by,
        assigned_to: None,
        title,
        description,
        status: TicketStatus::Backlog,
        priority,
    }
}

/// What moving a ticket to `to` gives: the moved ticket, or the refusal.
pub open spec fn move_ticket(t: TicketView, to: TicketStatus) -> Result<TicketView, TicketError> {
    if transition_allowed(t.status, to) {
        Ok(TicketView { status: to, ..t })
    } else {
        Err(TicketError::InvalidStatusTransition { from: t.status, to })
    }
}

/// What renaming a ticket gives: the renamed ticket, or the refusal of a
/// blank title.
pub open spec fn retitle_ticket(t: TicketView, title: Seq<char>) -> Result<TicketView, TicketError> {
    if is_blank(title) {
        Err(TicketError::EmptyTitle)
    } else {
        Ok(TicketView { title, ..t })
    }
}

/// The number of a user, if any.
pub open spec fn user_number(u: Option<UserId>) -> Option<u64> {
    match u {
        Some(id) => Some(id@),
        None => None,
    }
}

/// A ticket of a project.
#[derive(Debug)]
pub struct Ticket {
    id: TicketId,
    project_id: ProjectId,
    created_by: UserId,
    assigned_to: Option<UserId>,
    title: String,
    description: String,
    status: TicketStatus,
    priority: Priority,
}

impl View for Ticket {
    type V = TicketView;

    closed spec fn view(&self) -> TicketView {
        TicketView {
            id: self.id@,
            project_id: self.project_id@,
            created_by: self.created_by@,
            assigned_to: user_number(self.assigned_to),
            title: self.title@,
            description: self.description@,
            status: self.status,
            priority: self.priority,
        }
    }
}

impl Clone for Ticket {
    fn clone(&self) -> (copy: Self)
        ensures
            copy@ == self@,
    {
        Ticket {
            id: self.id,
            project_id: self.project_id,
            created_by: self.created_by,
            assigned_to: self.assigned_to,
            title: self.title.clone(),
            description: self.description.clone(),
            status: self.status,
            priority: self.priority,
        }
    }
}

impl Ticket {
    /// Opens a ticket in the backlog, with no one assigned.
    pub fn new(
        id: TicketId,
        project_id: ProjectId,
        created_by: UserId,
        title: String,
        description: String,
        priority: Priority,
    ) -> (ticket: Self)
        ensures
            ticket@ == new_ticket_view(
                id@,
                project_id@,
                created_by@,
                title@,
                description@,
                priority,
            ),
    {
        Ticket {
            id,
            project_id,
            created_by,
            assigned_to: None,
            title,
            description,
            status: TicketStatus::Backlog,
            priority,
        }
    }

    pub fn id(&self) -> (id: TicketId)
        ensures
            id@ == self@.id,
    {
        self.id
    }

    pub fn project_id(&self) -> (id: ProjectId)
        ensures
            id@ == self@.project_id,
    {
        self.project_id
    }

    pub fn title(&self) -> (title: &str)
        ensures
            title@ == self@.title,
    {
        self.title.as_str()
    }

    pub fn description(&self) -> (description: &str)
        ensures
            description@ == self@.description,
    {
        self.description.as_str()
    }

    /// The title as the string the ticket holds.
    pub closed spec fn title_text(self) -> String {
        self.title
    }

    /// The description as the string the ticket holds.
    pub closed spec fn description_text(self) -> String {
        self.description
    }

    /// The strings a ticket holds are its title and description.
    pub proof fn lemma_texts_are_the_view(self)
        ensures
            self.title_text()@ == self@.title,
            self.description_text()@ == self@.description,
    {
    }

    /// Gives up the ticket for its title and description strings.
    pub fn into_texts(self) -> (texts: (String, String))
        ensures
            texts.0 == self.title_text(),
            texts.1 == self.description_text(),
            texts.0@ == self@.title,
            texts.1@ == self@.description,
    {
        (self.title, self.description)
    }

    pub fn status(&self) -> (status: TicketStatus)
        ensures
            status == self@.status,
    {
        self.status
    }

    pub fn priority(&self) -> (priority: Priority)
        ensures
            priority == self@.priority,
    {
        self.priority
    }

    pub fn created_by(&self) -> (user: UserId)
        ensures
            user@ == self@.created_by,
    {
        self.created_by
    }

    /// The user the ticket is assigned to, if any.
    pub fn assigned_to(&self) -> (user: Option<UserId>)
        ensures
            user_number(user) == self@.assigned_to,
    {
        self.assigned_to
    }

    /// Moves the ticket along the workflow; a move the workflow does not
    /// allow is refused and leaves the ticket as it was.
    pub fn move_to(&mut self, new_status: TicketStatus) -> (result: Result<(), TicketError>)
        ensures
            match move_ticket(old(self)@, new_status) {
                Ok(moved) => result == Ok::<(), TicketError>(()) && final(self)@ == moved,
                Err(e) => result == Err::<(), TicketError>(e) && final(self)@ == old(self)@,
            },
    {
        if !self.can_move_to(new_status) {
            return Err(TicketError::InvalidStatusTransition { from: self.status, to: new_status });
        }
        self.status = new_status;
        Ok(())
    }

    pub fn change_priority(&mut self, new_priority: Priority)
        ensures
            final(self)@ == (TicketView { priority: new_priority, ..old(self)@ }),
    {
        self.priority = new_priority;
    }

    /// Renames the ticket; a blank title is refused and leaves the ticket
    /// as it was.
    pub fn change_title(&mut self, new_title: String) -> (result: Result<(), TicketError>)
        ensures
            match retitle_ticket(old(self)@, new_title@) {
                Ok(renamed) => result == Ok::<(), TicketError>(()) && final(self)@ == renamed,
                Err(e) => result == Err::<(), TicketError>(e) && final(self)@ == old(self)@,
            },
    {
        if is_blank_text(new_title.as_str()) {
            return Err(TicketError::EmptyTitle);
        }
        self.title = new_title;
        Ok(())
    }

    pub fn is_completed(&self) -> (completed: bool)
        ensures
            completed == (self@.status == TicketStatus::Done),
    {
        self.status == TicketStatus::Done
    }

    /// Assigns the ticket to `user`, replacing whoever had it.
    pub fn assign_to(&mut self, user: UserId)
        ensures
            final(self)@ == (TicketView { assigned_to: Some(user@), ..old(self)@ }),
    {
        self.assigned_to = Some(user);
    }

    /// Leaves the ticket unassigned and hands back who had it.
    pub fn take_assignee(&mut self) -> (previous: Option<UserId>)
        ensures
            user_number(previous) == old(self)@.assigned_to,
            final(self)@ == (TicketView { assigned_to: None, ..old(self)@ }),
    {
        self.assigned_to.take()
    }

    fn can_move_to(&self, new_status: TicketStatus) -> (allowed: bool)
        ensures
            allowed == transition_allowed(self@.status, new_status),
    {
        match (self.status, new_status) {
            (TicketStatus::Backlog, TicketStatus::Todo)
            | (TicketStatus::Todo, TicketStatus::Backlog)
            | (TicketStatus::Todo, TicketStatus::InProgress)
            | (TicketStatus::InProgress, TicketStatus::Todo)
            | (TicketStatus::InProgress, TicketStatus::Done)
            | (TicketStatus::Done, TicketStatus::InProgress) => true,
            _ => false,
        }
    }
}

/// Every step of the workflow can be taken back: moving a ticket and then
/// moving it to its former status gives back the ticket as it was.
pub proof fn lemma_move_can_be_undone(t: TicketView, to: TicketStatus)
    requires
        move_ticket(t, to) is Ok,
    ensures
        move_ticket(move_ticket(t, to)->Ok_0, t.status) == Ok::<TicketView, TicketError>(t),
{
    assert(TicketView { status: t.status, ..TicketView { status: to, ..t } } =~= t);
}

/// A ticket never moves to the status it already has, reaches `Done` only
/// from `InProgress`, and leaves the backlog only for `Todo`.
pub proof fn lemma_workflow_shape(from: TicketStatus, to: TicketStatus)
    ensures
        !transition_allowed(from, from),
        transition_allowed(from, TicketStatus::Done) <==> from == TicketStatus::InProgress,
        transition_allowed(TicketStatus::Backlog, to) <==> to == TicketStatus::Todo,
{
}

/// A refused change leaves every part of the ticket as it was; an accepted
/// one changes only the part it names.
pub proof fn lemma_changes_touch_one_part(t: TicketView, to: TicketStatus, title: Seq<char>)
    ensures
        (move_ticket(t, to) matches Ok(m) ==> m.status == to && (TicketView { status: t.status, ..m }) == t),
        (retitle_ticket(t, title) matches Ok(r) ==> r.title == title && (TicketView { title: t.title, ..r }) == t),
        (move_ticket(t, to) is Err) <==> !transition_allowed(t.status, to),
        (retitle_ticket(t, title) is Err) <==> is_blank(title),
{
}

/// The place of a status along the workflow, from the backlog to done.
pub open spec fn workflow_position(status: TicketStatus) -> int {
    match status {
        TicketStatus::Backlog => 0,
        TicketStatus::Todo => 1,
        TicketStatus::InProgress => 2,
        TicketStatus::Done => 3,
    }
}

/// A ticket moves exactly one place along the workflow, forward or back:
/// every such move is accepted and every other move is refused, and an
/// accepted move changes the status to the one asked for and nothing else.
pub proof fn lemma_moves_are_single_steps(t: TicketView, to: TicketStatus)
    ensures
        (move_ticket(t, to) is Ok) <==> (workflow_position(to) == workflow_position(t.status) + 1
            || workflow_position(to) == workflow_position(t.status) - 1),
        move_ticket(t, to) matches Ok(m) ==> m == (TicketView { status: to, ..t }),
        move_ticket(t, to) is Err ==> move_ticket(t, to) == Err::<TicketView, TicketError>(
            TicketError::InvalidStatusTransition { from: t.status, to },
        ),
{
}

/// Renaming is refused exactly for a blank title, and an accepted renaming
/// changes the title to the one given and nothing else.
pub proof fn lemma_retitle_refused_only_when_blank(t: TicketView, title: Seq<char>)
    ensures
        (retitle_ticket(t, title) is Ok) <==> !is_blank(title),
        retitle_ticket(t, title) matches Ok(r) ==> r == (TicketView { title, ..t }),
        retitle_ticket(t, title) is Err ==> retitle_ticket(t, title) == Err::<TicketView, TicketError>(
            TicketError::EmptyTitle,
        ),
{
}

} // verus!
