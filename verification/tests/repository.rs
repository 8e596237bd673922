use issue_tracker::ids::{ProjectId, TicketId, UserId};
use issue_tracker::project::Project;
use issue_tracker::repository::{
    InMemoryProjectRepository, InMemoryTicketRepository, ProjectRepository, TicketRepository,
};
use issue_tracker::ticket::{Priority, Ticket};

#[test]
fn saved_project_can_be_found_by_id() {
    let mut repository = InMemoryProjectRepository::new();

    let project = Project::new(
        ProjectId::new(10),
        UserId::new(1),
        String::from("Atlas"),
        String::new(),
    )
    .expect("the test project has a valid name");

    assert_eq!(repository.save(project), Ok(()));

    let stored_project = repository
        .find_by_id(ProjectId::new(10))
        .expect("the in-memory repository should be available")
        .expect("the saved project should exist");

    assert_eq!(stored_project.id(), ProjectId::new(10));
    assert_eq!(stored_project.name(), "Atlas");
}

#[test]
fn missing_project_returns_none() {
    let repository = InMemoryProjectRepository::new();

    let result = repository
        .find_by_id(ProjectId::new(99))
        .expect("the in-memory repository should be available");

    assert!(result.is_none());
}

#[test]
fn saving_ticket_again_replaces_previous_value() {
    let mut repository = InMemoryTicketRepository::new();

    let mut ticket = Ticket::new(
        TicketId::new(100),
        ProjectId::new(10),
        UserId::new(1),
        String::from("Primer título"),
        String::new(),
        Priority::Medium,
    );

    assert_eq!(repository.save(ticket.clone()), Ok(()));

    assert_eq!(
        ticket.change_title(String::from("Título actualizado")),
        Ok(())
    );
    assert_eq!(repository.save(ticket), Ok(()));

    let stored_ticket = repository
        .find_by_id(TicketId::new(100))
        .expect("the in-memory repository should be available")
        .expect("the saved ticket should exist");

    assert_eq!(stored_ticket.title(), "Título actualizado");
}

#[test]
fn saving_one_ticket_leaves_the_others() {
    let mut repository = InMemoryTicketRepository::default();
    for (id, title) in [(1u64, "one"), (2, "two"), (3, "three")] {
        let ticket = Ticket::new(
            TicketId::new(id),
            ProjectId::new(10),
            UserId::new(1),
            String::from(title),
            String::new(),
            Priority::Low,
        );
        assert_eq!(repository.save(ticket), Ok(()));
    }
    let two = repository
        .find_by_id(TicketId::new(2))
        .expect("memory answers")
        .expect("ticket two is stored");
    assert_eq!(two.id(), TicketId::new(2));
    assert_eq!(two.title(), "two");
    assert!(repository
        .find_by_id(TicketId::new(4))
        .expect("memory answers")
        .is_none());
}

#[test]
fn saving_a_project_again_replaces_it() {
    let mut repository = InMemoryProjectRepository::default();
    let mut project = Project::new(ProjectId::new(7), UserId::new(1), String::from("First"), String::new())
        .expect("valid name");
    assert_eq!(repository.save(project.clone()), Ok(()));
    assert_eq!(project.add_member(UserId::new(2)), Ok(()));
    assert_eq!(repository.save(project), Ok(()));
    let stored = repository
        .find_by_id(ProjectId::new(7))
        .expect("memory answers")
        .expect("project seven is stored");
    assert_eq!(stored.members_count(), 2);
    assert!(stored.contains_member(UserId::new(2)));
}
