# issue_tracker

A small issue tracker whose domain rules are proved with Verus.

- `src/ids.rs` — ticket, project and user identifiers.
- `src/text.rs` — what counts as a blank name or title.
- `src/ticket.rs` — tickets, their workflow (backlog ↔ to do ↔ in progress ↔ done) and assignee.
- `src/project.rs` — projects and their members; the owner stays first, cannot be removed, and no user is a member twice (a type invariant).
- `src/repository.rs` — the storage interfaces and their in-memory implementations.
- `src/application.rs` — assigning and unassigning tickets, directly or by ids.
- `src/response.rs` — the description of a ticket that the HTTP service sends.
- `app/` — the HTTP service (axum) and the command-line walk-throughs.
- `tests/` — tests of the library.
