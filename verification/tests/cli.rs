use jira_wip::handler::{handle_command, Command, CommandOutcome};
use jira_wip::parse::{parse_description, parse_status, parse_title};
use jira_wip::store::TicketStore;
use jira_wip::ticket::{Status, TicketDescription, TicketTitle};

fn title_of(text: &str) -> TicketTitle {
    parse_title(text).unwrap()
}

fn description_of(text: &str) -> TicketDescription {
    parse_description(text).unwrap()
}

#[test]
fn invalid_status_fails_to_be_parsed() {
    let invalid_status = "Not a good status";
    assert!(Status::from_str(invalid_status).is_err());
}

#[test]
fn parse_status_accepts_canonical_names_case_insensitively() {
    assert_eq!(parse_status("todo").unwrap(), Status::ToDo);
    assert_eq!(parse_status("ToDo").unwrap(), Status::ToDo);
    assert_eq!(parse_status("TODO").unwrap(), Status::ToDo);
    assert_eq!(parse_status("inprogress").unwrap(), Status::InProgress);
    assert_eq!(parse_status("InProgress").unwrap(), Status::InProgress);
    assert_eq!(parse_status("done").unwrap(), Status::Done);
    assert_eq!(parse_status("Done").unwrap(), Status::Done);
    assert_eq!(parse_status("DONE").unwrap(), Status::Done);
}

#[test]
fn parse_status_rejects_other_text_and_names_the_input() {
    let err = parse_status("blocked").unwrap_err();
    assert_eq!(err.message(), "not a valid status: blocked");
    assert!(parse_status("").is_err());
    assert!(parse_status("to do").is_err());
    assert!(parse_status("doneee").is_err());
}

#[test]
fn parse_title_and_description_fail_on_empty_text() {
    assert!(parse_title("").is_err());
    assert!(parse_description("").is_err());
}

#[test]
fn parse_title_and_description_keep_the_content() {
    assert_eq!(parse_title("Fix bug").unwrap().text(), "Fix bug");
    assert_eq!(parse_description("NPE on login").unwrap().text(), "NPE on login");
}

#[test]
fn create_adds_ticket_and_reports_its_id() {
    let mut store = TicketStore::new();
    let outcome = handle_command(
        &mut store,
        Command::Create {
            title: title_of("Fix bug"),
            description: description_of("NPE on login"),
        },
    );
    match outcome {
        CommandOutcome::Created { id, ticket } => {
            assert_eq!(ticket.id, id);
            assert_eq!(ticket.title.text(), "Fix bug");
            assert_eq!(ticket.description.text(), "NPE on login");
            assert_eq!(ticket.status, Status::ToDo);
        }
        other => panic!("expected a created report, got {:?}", other),
    }
    let listed = store.list();
    assert_eq!(listed.len(), 1);
    assert_eq!(listed[0].title.text(), "Fix bug");
    assert_eq!(listed[0].description.text(), "NPE on login");
    assert_eq!(listed[0].status, Status::ToDo);
}

#[test]
fn edit_unknown_id_reports_not_found_and_leaves_store_unchanged() {
    let mut store = TicketStore::new();
    handle_command(
        &mut store,
        Command::Create {
            title: title_of("Fix bug"),
            description: description_of("NPE on login"),
        },
    );
    let outcome = handle_command(
        &mut store,
        Command::Edit {
            id: 999,
            status: Some(Status::Done),
            description: None,
            title: None,
        },
    );
    assert!(matches!(outcome, CommandOutcome::EditNotFound { id: 999 }));
    let listed = store.list();
    assert_eq!(listed.len(), 1);
    assert_eq!(listed[0].title.text(), "Fix bug");
    assert_eq!(listed[0].description.text(), "NPE on login");
    assert_eq!(listed[0].status, Status::ToDo);
}

#[test]
fn edit_with_all_fields_absent_is_a_noop_and_still_reports_the_ticket() {
    let mut store = TicketStore::new();
    let id = match handle_command(
        &mut store,
        Command::Create {
            title: title_of("Fix bug"),
            description: description_of("NPE on login"),
        },
    ) {
        CommandOutcome::Created { id, .. } => id,
        other => panic!("expected a created report, got {:?}", other),
    };
    let outcome = handle_command(
        &mut store,
        Command::Edit { id, status: None, description: None, title: None },
    );
    match outcome {
        CommandOutcome::Updated { ticket } => {
            assert_eq!(ticket.id, id);
            assert_eq!(ticket.title.text(), "Fix bug");
            assert_eq!(ticket.description.text(), "NPE on login");
            assert_eq!(ticket.status, Status::ToDo);
        }
        other => panic!("expected an updated report, got {:?}", other),
    }
    let listed = store.list();
    assert_eq!(listed.len(), 1);
    assert_eq!(listed[0].title.text(), "Fix bug");
    assert_eq!(listed[0].description.text(), "NPE on login");
    assert_eq!(listed[0].status, Status::ToDo);
}

#[test]
fn editing_twice_with_the_same_patch_equals_editing_once() {
    let mut once = TicketStore::new();
    let mut twice = TicketStore::new();
    for store in [&mut once, &mut twice] {
        handle_command(
            store,
            Command::Create {
                title: title_of("Fix bug"),
                description: description_of("NPE on login"),
            },
        );
    }
    let patch_against = |store: &mut TicketStore| {
        handle_command(
            store,
            Command::Edit {
                id: 0,
                status: Some(Status::InProgress),
                description: None,
                title: Some(title_of("Fix the login bug")),
            },
        )
    };
    patch_against(&mut once);
    patch_against(&mut twice);
    patch_against(&mut twice);
    let listed_once = once.list();
    let listed_twice = twice.list();
    assert_eq!(listed_once.len(), 1);
    assert_eq!(listed_twice.len(), 1);
    assert_eq!(listed_once[0].id, listed_twice[0].id);
    assert_eq!(listed_once[0].title.text(), listed_twice[0].title.text());
    assert_eq!(listed_once[0].description.text(), listed_twice[0].description.text());
    assert_eq!(listed_once[0].status, listed_twice[0].status);
    assert_eq!(listed_twice[0].title.text(), "Fix the login bug");
    assert_eq!(listed_twice[0].status, Status::InProgress);
}

#[test]
fn edit_with_status_only_keeps_title_and_description() {
    let mut store = TicketStore::new();
    handle_command(
        &mut store,
        Command::Create {
            title: title_of("Fix bug"),
            description: description_of("NPE on login"),
        },
    );
    let outcome = handle_command(
        &mut store,
        Command::Edit { id: 0, status: Some(Status::Done), description: None, title: None },
    );
    match outcome {
        CommandOutcome::Updated { ticket } => {
            assert_eq!(ticket.title.text(), "Fix bug");
            assert_eq!(ticket.description.text(), "NPE on login");
            assert_eq!(ticket.status, Status::Done);
        }
        other => panic!("expected an updated report, got {:?}", other),
    }
}

#[test]
fn delete_finds_a_ticket_once_and_not_a_second_time() {
    let mut store = TicketStore::new();
    let id = match handle_command(
        &mut store,
        Command::Create {
            title: title_of("Fix bug"),
            description: description_of("NPE on login"),
        },
    ) {
        CommandOutcome::Created { id, .. } => id,
        other => panic!("expected a created report, got {:?}", other),
    };
    let first = handle_command(&mut store, Command::Delete { ticket_id: id });
    match first {
        CommandOutcome::Deleted { ticket } => {
            assert_eq!(ticket.id, id);
            assert_eq!(ticket.title.text(), "Fix bug");
        }
        other => panic!("expected a deleted report, got {:?}", other),
    }
    let second = handle_command(&mut store, Command::Delete { ticket_id: id });
    assert!(matches!(second, CommandOutcome::DeleteNotFound { id: 0 }));
    assert!(store.list().is_empty());
}

#[test]
fn list_on_an_empty_store_reports_nothing() {
    let mut store = TicketStore::new();
    let outcome = handle_command(&mut store, Command::List);
    match outcome {
        CommandOutcome::Listed { tickets } => assert!(tickets.is_empty()),
        other => panic!("expected a listing, got {:?}", other),
    }
}

#[test]
fn list_reports_tickets_in_insertion_order() {
    let mut store = TicketStore::new();
    for (title, description) in [("First", "one"), ("Second", "two"), ("Third", "three")] {
        handle_command(
            &mut store,
            Command::Create { title: title_of(title), description: description_of(description) },
        );
    }
    let outcome = handle_command(&mut store, Command::List);
    match outcome {
        CommandOutcome::Listed { tickets } => {
            assert_eq!(tickets.len(), 3);
            assert_eq!(tickets[0].title.text(), "First");
            assert_eq!(tickets[1].title.text(), "Second");
            assert_eq!(tickets[2].title.text(), "Third");
            assert_eq!(tickets[0].id, 0);
            assert_eq!(tickets[1].id, 1);
            assert_eq!(tickets[2].id, 2);
        }
        other => panic!("expected a listing, got {:?}", other),
    }
}

#[test]
fn empty_field_errors_carry_their_messages() {
    assert_eq!(parse_title("").unwrap_err().message(), "a title cannot be empty");
    assert_eq!(
        parse_description("").unwrap_err().message(),
        "a description cannot be empty"
    );
}
