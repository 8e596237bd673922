use issue_tracker::application::{
    assign_ticket, assign_ticket_by_id, unassign_ticket, unassign_ticket_by_id,
    AssignTicketByIdError, AssignTicketError,
};
use issue_tracker::ids::{ProjectId, TicketId, UserId};
use issue_tracker::project::Project;
use issue_tracker::repository::{
    InMemoryProjectRepository, InMemoryTicketRepository, ProjectRepository, TicketRepository,
};
use issue_tracker::ticket::{Priority, Ticket};

fn tracker_project() -> Project {
    let mut project = Project::new(
        ProjectId::new(10),
        UserId::new(1),
        String::from("Personal issue tracker"),
        String::from("Maintain of the projects and tickets"),
    )
    .expect("the test project has a valid name");

    project
        .add_member(UserId::new(2))
        .expect("user 2 is allready in the project");
    project
}

fn auth_ticket() -> Ticket {
    Ticket::new(
        TicketId::new(100),
        ProjectId::new(10),
        UserId::new(1),
        String::from("Implement auth"),
        String::from("Create login and register"),
        Priority::High,
    )
}

#[test]
fn application_project_mismatch_does_not_remove_persisted_assignee() {
    let mut project_repository = InMemoryProjectRepository::new();
    let mut ticket_repository = InMemoryTicketRepository::new();

    assert_eq!(project_repository.save(tracker_project()), Ok(()));
    assert_eq!(ticket_repository.save(auth_ticket()), Ok(()));

    assert_eq!(
        assign_ticket_by_id(
            &project_repository,
            &mut ticket_repository,
            ProjectId::new(10),
            TicketId::new(100),
            UserId::new(2),
        ),
        Ok(())
    );

    let another_project = Project::new(
        ProjectId::new(20),
        UserId::new(3),
        String::from("Another project"),
        String::new(),
    )
    .expect("the second test project has a valid name");

    assert_eq!(project_repository.save(another_project), Ok(()));

    let result = unassign_ticket_by_id(
        &project_repository,
        &mut ticket_repository,
        ProjectId::new(20),
        TicketId::new(100),
    );

    assert_eq!(
        result,
        Err(AssignTicketByIdError::AssignmentFailed(
            AssignTicketError::ProjectMismatch {
                expected_project_id: ProjectId::new(20),
                ticket_project_id: ProjectId::new(10),
            }
        ))
    );

    let stored_ticket = ticket_repository
        .find_by_id(TicketId::new(100))
        .expect("the in-memory repository should be available")
        .expect("the test ticket should exist");

    assert_eq!(stored_ticket.assigned_to(), Some(UserId::new(2)));
}

#[test]
fn unassigning_ticket_by_id_returns_previous_assignee_and_saves_ticket() {
    let mut project_repository = InMemoryProjectRepository::new();
    let mut ticket_repository = InMemoryTicketRepository::new();

    assert_eq!(project_repository.save(tracker_project()), Ok(()));
    assert_eq!(ticket_repository.save(auth_ticket()), Ok(()));

    assert_eq!(
        assign_ticket_by_id(
            &project_repository,
            &mut ticket_repository,
            ProjectId::new(10),
            TicketId::new(100),
            UserId::new(2),
        ),
        Ok(())
    );

    let result = unassign_ticket_by_id(
        &project_repository,
        &mut ticket_repository,
        ProjectId::new(10),
        TicketId::new(100),
    );

    assert_eq!(result, Ok(Some(UserId::new(2))));

    let stored_ticket = ticket_repository
        .find_by_id(TicketId::new(100))
        .expect("the id-memory repository should be available")
        .expect("the test ticket should exist");

    assert_eq!(stored_ticket.assigned_to(), None);
}

#[test]
fn unassigning_ticket_returns_previous_assignee() {
    let project = tracker_project();
    let mut ticket = auth_ticket();

    assert_eq!(assign_ticket(&project, &mut ticket, UserId::new(2)), Ok(()));
    assert_eq!(ticket.assigned_to(), Some(UserId::new(2)));

    let result = unassign_ticket(&project, &mut ticket);

    assert_eq!(result, Ok(Some(UserId::new(2))));
    assert_eq!(ticket.assigned_to(), None);
}

#[test]
fn unassigning_unassigned_ticket_return_none() {
    let project = tracker_project();
    let mut ticket = auth_ticket();

    let result = unassign_ticket(&project, &mut ticket);

    assert_eq!(result, Ok(None));
    assert_eq!(ticket.assigned_to(), None);
}

#[test]
fn project_member_can_be_assigned_to_the_ticket() {
    let project = tracker_project();
    let mut ticket = auth_ticket();
    let result = assign_ticket(&project, &mut ticket, UserId::new(1));
    assert_eq!(result, Ok(()));
    assert_eq!(ticket.assigned_to(), Some(UserId::new(1)));
}

#[test]
fn user_from_outside_project_cannot_be_assigned() {
    let project = tracker_project();
    let mut ticket = auth_ticket();
    let result = assign_ticket(&project, &mut ticket, UserId::new(99));
    assert!(result.is_err());
    assert_eq!(ticket.assigned_to(), None);
}

#[test]
fn ticket_from_another_project_cannot_be_assigned() {
    let project = tracker_project();

    let mut ticket = Ticket::new(
        TicketId::new(200),
        ProjectId::new(20),
        UserId::new(1),
        String::from("External ticket"),
        String::new(),
        Priority::High,
    );

    let result = assign_ticket(&project, &mut ticket, UserId::new(2));
    assert_eq!(
        result,
        Err(AssignTicketError::ProjectMismatch {
            expected_project_id: ProjectId::new(10),
            ticket_project_id: ProjectId::new(20)
        })
    );
    assert_eq!(ticket.assigned_to(), None);
}

#[test]
fn assigning_another_user_replace_previous() {
    let mut project = tracker_project();
    project
        .add_member(UserId::new(3))
        .expect("user 3 is allready in the project");
    let mut ticket = auth_ticket();

    assert_eq!(assign_ticket(&project, &mut ticket, UserId::new(2)), Ok(()));
    assert_eq!(assign_ticket(&project, &mut ticket, UserId::new(3)), Ok(()));
    assert_eq!(ticket.assigned_to(), Some(UserId::new(3)));
}

#[test]
fn assigning_ticket_by_id_updates_stored_ticket() {
    let mut project_repository = InMemoryProjectRepository::new();
    let mut ticket_repository = InMemoryTicketRepository::new();

    assert_eq!(project_repository.save(tracker_project()), Ok(()));
    assert_eq!(ticket_repository.save(auth_ticket()), Ok(()));

    let result = assign_ticket_by_id(
        &project_repository,
        &mut ticket_repository,
        ProjectId::new(10),
        TicketId::new(100),
        UserId::new(2),
    );

    assert_eq!(result, Ok(()));

    let stored_ticket = ticket_repository
        .find_by_id(TicketId::new(100))
        .expect("the in-memory repository should be available")
        .expect("the test ticket should exist");

    assert_eq!(stored_ticket.assigned_to(), Some(UserId::new(2)));
}

#[test]
fn assigning_ticket_by_id_rejects_missing_project() {
    let project_repository = InMemoryProjectRepository::new();
    let mut ticket_repository = InMemoryTicketRepository::new();

    assert_eq!(ticket_repository.save(auth_ticket()), Ok(()));

    let result = assign_ticket_by_id(
        &project_repository,
        &mut ticket_repository,
        ProjectId::new(99),
        TicketId::new(100),
        UserId::new(2),
    );

    assert_eq!(
        result,
        Err(AssignTicketByIdError::ProjectNotFound {
            project_id: ProjectId::new(99),
        })
    );
}

#[test]
fn assigning_ticket_by_id_rejects_missing_ticket() {
    let mut project_repository = InMemoryProjectRepository::new();
    let mut ticket_repository = InMemoryTicketRepository::new();

    assert_eq!(project_repository.save(tracker_project()), Ok(()));

    let result = assign_ticket_by_id(
        &project_repository,
        &mut ticket_repository,
        ProjectId::new(10),
        TicketId::new(999),
        UserId::new(2),
    );

    assert_eq!(
        result,
        Err(AssignTicketByIdError::TicketNotFound {
            ticket_id: TicketId::new(999),
        })
    );
}

#[test]
fn rejected_assignment_does_not_update_stored_ticket() {
    let mut project_repository = InMemoryProjectRepository::new();
    let mut ticket_repository = InMemoryTicketRepository::new();

    assert_eq!(project_repository.save(tracker_project()), Ok(()));
    assert_eq!(ticket_repository.save(auth_ticket()), Ok(()));

    let result = assign_ticket_by_id(
        &project_repository,
        &mut ticket_repository,
        ProjectId::new(10),
        TicketId::new(100),
        UserId::new(99),
    );

    assert_eq!(
        result,
        Err(AssignTicketByIdError::AssignmentFailed(
            AssignTicketError::AssigneeIsNotProjectMember {
                project_id: ProjectId::new(10),
                user_id: UserId::new(99),
            }
        ))
    );

    let stored_ticket = ticket_repository
        .find_by_id(TicketId::new(100))
        .expect("the in-memory repository should be available")
        .expect("the test ticket should exist");

    assert_eq!(stored_ticket.assigned_to(), None);
}

#[test]
fn unassigning_ticket_by_id_reports_missing_project_and_ticket() {
    let mut project_repository = InMemoryProjectRepository::new();
    let mut ticket_repository = InMemoryTicketRepository::new();
    assert_eq!(
        unassign_ticket_by_id(&project_repository, &mut ticket_repository, ProjectId::new(10), TicketId::new(100)),
        Err(AssignTicketByIdError::ProjectNotFound { project_id: ProjectId::new(10) })
    );
    assert_eq!(project_repository.save(tracker_project()), Ok(()));
    assert_eq!(
        unassign_ticket_by_id(&project_repository, &mut ticket_repository, ProjectId::new(10), TicketId::new(100)),
        Err(AssignTicketByIdError::TicketNotFound { ticket_id: TicketId::new(100) })
    );
}

#[test]
fn unassigning_ticket_of_another_project_is_refused() {
    let other = Project::new(ProjectId::new(20), UserId::new(3), String::from("Other"), String::new())
        .expect("valid name");
    let mut ticket = auth_ticket();
    ticket.assign_to(UserId::new(2));
    assert_eq!(
        unassign_ticket(&other, &mut ticket),
        Err(AssignTicketError::ProjectMismatch {
            expected_project_id: ProjectId::new(20),
            ticket_project_id: ProjectId::new(10),
        })
    );
    assert_eq!(ticket.assigned_to(), Some(UserId::new(2)));
}
