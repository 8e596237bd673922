use issue_tracker::ids::{ProjectId, TicketId, UserId};
use issue_tracker::repository::{InMemoryTicketRepository, TicketRepository};
use issue_tracker::response::{
    get_ticket, priority_name, status_name, TicketRequestError, TicketResponse,
};
use issue_tracker::ticket::{Priority, Ticket, TicketStatus};

fn served_ticket() -> Ticket {
    Ticket::new(
        TicketId::new(100),
        ProjectId::new(10),
        UserId::new(1),
        String::from("Implement authentication"),
        String::from("Create login and registration"),
        Priority::High,
    )
}

#[test]
fn statuses_have_snake_case_names() {
    assert_eq!(status_name(TicketStatus::Backlog), "backlog");
    assert_eq!(status_name(TicketStatus::Todo), "todo");
    assert_eq!(status_name(TicketStatus::InProgress), "in_progress");
    assert_eq!(status_name(TicketStatus::Done), "done");
}

#[test]
fn priorities_have_lower_case_names() {
    assert_eq!(priority_name(Priority::Low), "low");
    assert_eq!(priority_name(Priority::Medium), "medium");
    assert_eq!(priority_name(Priority::High), "high");
    assert_eq!(priority_name(Priority::Urgent), "urgent");
}

#[test]
fn response_describes_the_ticket() {
    let mut ticket = served_ticket();
    ticket.assign_to(UserId::new(7));
    assert_eq!(ticket.move_to(TicketStatus::Todo), Ok(()));
    let response = TicketResponse::from_ticket(ticket);
    assert_eq!(response.id, 100);
    assert_eq!(response.project_id, 10);
    assert_eq!(response.created_by, 1);
    assert_eq!(response.assigned_to, Some(7));
    assert_eq!(response.title, "Implement authentication");
    assert_eq!(response.description, "Create login and registration");
    assert_eq!(response.status, "todo");
    assert_eq!(response.priority, "high");
}

#[test]
fn existing_ticket_is_described() {
    let mut repository = InMemoryTicketRepository::new();
    assert_eq!(repository.save(served_ticket()), Ok(()));
    let response = get_ticket(&repository, 100).expect("ticket 100 is stored");
    assert_eq!(response.id, 100);
    assert_eq!(response.project_id, 10);
    assert_eq!(response.created_by, 1);
    assert_eq!(response.assigned_to, None);
    assert_eq!(response.title, "Implement authentication");
    assert_eq!(response.status, "backlog");
    assert_eq!(response.priority, "high");
}

#[test]
fn missing_ticket_is_not_found() {
    let mut repository = InMemoryTicketRepository::new();
    assert_eq!(repository.save(served_ticket()), Ok(()));
    assert!(matches!(get_ticket(&repository, 999), Err(TicketRequestError::NotFound)));
}

#[test]
fn white_space_test_agrees_with_std_on_every_char() {
    for code in 0u32..=0x10FFFF {
        if let Some(c) = char::from_u32(code) {
            assert_eq!(issue_tracker::text::char_is_whitespace(c), c.is_whitespace(), "{code:#x}");
        }
    }
}

#[test]
fn response_converts_from_ticket() {
    let response: TicketResponse = served_ticket().into();
    assert_eq!(response.id, 100);
    assert_eq!(response.project_id, 10);
    assert_eq!(response.created_by, 1);
    assert_eq!(response.assigned_to, None);
    assert_eq!(response.title, "Implement authentication");
    assert_eq!(response.description, "Create login and registration");
    assert_eq!(response.status, "backlog");
    assert_eq!(response.priority, "high");
}
