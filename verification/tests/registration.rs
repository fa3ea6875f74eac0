use todos::controllers::auth::{register, Reply};
use todos::error::{Cause, Error, Report};
use todos::models::registration::{Action, Event, Registration, StorageFailure};
use todos::models::timestamp::Timestamp;
use todos::models::users::{FilteredUser, RegisterUser, User};
use uuid::Uuid;

fn text(s: &str) -> String {
    s.to_string()
}

/// A users table with unique emails and usernames, held in memory.
struct Table {
    rows: Vec<User>,
}

impl Table {
    fn new() -> Table {
        Table { rows: Vec::new() }
    }

    fn answer(&mut self, action: &Action) -> Event {
        match action {
            Action::Begin => Event::Begun,
            Action::FindExisting { email, username } => Event::Lookup(
                self.rows
                    .iter()
                    .find(|row| &row.email == email || &row.username == username)
                    .map(|row| row.email.clone()),
            ),
            Action::Insert { email, username, password } => {
                if self.rows.iter().any(|row| &row.email == email) {
                    return Event::Failed(unique_violation("users_email_key"));
                }
                if self.rows.iter().any(|row| &row.username == username) {
                    return Event::Failed(unique_violation("users_username_key"));
                }
                let user = User {
                    id: Uuid::from_u128(self.rows.len() as u128 + 1),
                    username: username.clone(),
                    email: email.clone(),
                    password: password.clone(),
                    created_at: Timestamp::new(1431648000, 0, 0).unwrap(),
                };
                self.rows.push(user.clone());
                Event::Inserted(user)
            }
            Action::Commit => Event::Committed,
            Action::Registered(_) | Action::Failed(_) => panic!("the registration is over"),
        }
    }
}

fn unique_violation(constraint: &str) -> StorageFailure {
    StorageFailure {
        detail: format!("duplicate key value violates unique constraint \"{constraint}\""),
        unique_violation: true,
        constraint: Some(text(constraint)),
    }
}

fn started(username: &str, email: &str) -> (Registration, Action) {
    let dto = RegisterUser::new(username, email, "secret123", "secret123");
    Registration::start(&dto, Ok(text("$argon2id$v=19$stand-in"))).unwrap()
}

fn run(table: &mut Table, start: (Registration, Action)) -> Result<User, Report> {
    let (mut state, mut action) = start;
    let mut steps = 0;
    loop {
        match action {
            Action::Registered(user) => return Ok(user),
            Action::Failed(report) => return Err(report),
            other => {
                steps += 1;
                assert!(steps <= 4);
                let event = table.answer(&other);
                let next = state.advance(event);
                state = next.0;
                action = next.1;
            }
        }
    }
}

fn conflict(reason: &str) -> Report {
    Report::from(Error::EntityAlreadyExists(text(reason)))
}

#[test]
fn register_then_repeat() {
    let mut table = Table::new();
    let dto = RegisterUser::new("ada", "ada@x.io", "secret123", "secret123");

    let first = run(&mut table, User::register(&dto).unwrap());
    let reply = register(first);
    assert_eq!(reply.status(), 201);
    match &reply {
        Reply::Created(user) => {
            assert_eq!(user.username, "ada");
            assert_eq!(user.email, "ada@x.io");
            assert_eq!(user.id, Uuid::from_u128(1));
            assert_eq!(user.created_at, "15-05-2015 00:00");
        }
        Reply::Failed(_) => panic!("the first registration must succeed"),
    }
    assert_eq!(table.rows.len(), 1);
    assert_ne!(table.rows[0].password, "secret123");
    assert!(!table.rows[0].password.is_empty());
    assert!(User::verify_password("secret123", &table.rows[0].password).is_ok());

    let second = run(&mut table, User::register(&dto).unwrap());
    let reply = register(second);
    assert_eq!(reply.status(), 409);
    match reply {
        Reply::Failed(classified) => {
            assert_eq!(classified.response.message, "User with email already exists");
            assert_eq!(
                classified.response.body(),
                "{\"message\":\"User with email already exists\"}"
            );
            assert_eq!(classified.log, vec![text("User with email already exists")]);
        }
        Reply::Created(_) => panic!("the second registration must fail"),
    }
    assert_eq!(table.rows.len(), 1);
}

#[test]
fn registration_asks_for_four_things_in_order() {
    let (state, action) = started("ada", "ada@x.io");
    assert_eq!(action, Action::Begin);
    assert_eq!(
        state,
        Registration::Opening {
            email: text("ada@x.io"),
            username: text("ada"),
            password: text("$argon2id$v=19$stand-in"),
        }
    );

    let (state, action) = state.advance(Event::Begun);
    assert_eq!(action, Action::FindExisting { email: text("ada@x.io"), username: text("ada") });

    let (state, action) = state.advance(Event::Lookup(None));
    assert_eq!(state, Registration::Inserting);
    assert_eq!(
        action,
        Action::Insert {
            email: text("ada@x.io"),
            username: text("ada"),
            password: text("$argon2id$v=19$stand-in"),
        }
    );

    let user = User {
        id: Uuid::from_u128(7),
        username: text("ada"),
        email: text("ada@x.io"),
        password: text("$argon2id$v=19$stand-in"),
        created_at: Timestamp::new(0, 0, 3600).unwrap(),
    };
    let (state, action) = state.advance(Event::Inserted(user.clone()));
    assert_eq!(state, Registration::Committing { user: user.clone() });
    assert_eq!(action, Action::Commit);

    let (state, action) = state.advance(Event::Committed);
    assert_eq!(state, Registration::Finished);
    assert_eq!(action, Action::Registered(user));
}

#[test]
fn same_email_other_username_names_the_email() {
    let mut table = Table::new();
    assert!(run(&mut table, started("ada", "ada@x.io")).is_ok());
    let second = run(&mut table, started("grace", "ada@x.io"));
    assert_eq!(second, Err(conflict("User with email already exists")));
    assert_eq!(table.rows.len(), 1);
}

#[test]
fn same_username_other_email_names_the_username() {
    let mut table = Table::new();
    assert!(run(&mut table, started("ada", "ada@x.io")).is_ok());
    let second = run(&mut table, started("ada", "lovelace@x.io"));
    assert_eq!(second, Err(conflict("username already taken")));
    assert_eq!(table.rows.len(), 1);
}

#[test]
fn other_email_and_username_register_too() {
    let mut table = Table::new();
    let first = run(&mut table, started("ada", "ada@x.io")).unwrap();
    let second = run(&mut table, started("grace", "grace@x.io")).unwrap();
    assert_ne!(first.id, second.id);
    assert_eq!(second.username, "grace");
    assert_eq!(second.email, "grace@x.io");
    assert_eq!(table.rows.len(), 2);
}

#[test]
fn racing_registrations_with_one_email() {
    let mut table = Table::new();
    let (left, _) = started("ada", "ada@x.io");
    let (right, _) = started("grace", "ada@x.io");

    let (left, left_lookup) = left.advance(Event::Begun);
    let (right, right_lookup) = right.advance(Event::Begun);
    let left_found = table.answer(&left_lookup);
    let right_found = table.answer(&right_lookup);
    assert_eq!(left_found, Event::Lookup(None));
    assert_eq!(right_found, Event::Lookup(None));

    let (left, left_insert) = left.advance(left_found);
    let (right, right_insert) = right.advance(right_found);
    let left_done = table.answer(&left_insert);
    let right_done = table.answer(&right_insert);

    let (left, left_commit) = left.advance(left_done);
    assert_eq!(left_commit, Action::Commit);
    let (_, left_end) = left.advance(table.answer(&left_commit));
    assert!(matches!(left_end, Action::Registered(_)));

    let (right, right_end) = right.advance(right_done);
    assert_eq!(right, Registration::Finished);
    assert_eq!(right_end, Action::Failed(conflict("User with email already exists")));
    match right_end {
        Action::Failed(report) => assert_eq!(report.into_response().response.status, 409),
        _ => unreachable!(),
    }
    assert_eq!(table.rows.len(), 1);
}

#[test]
fn unique_violation_on_insert_is_a_conflict() {
    let cases = [
        (Some("users_email_key"), "User with email already exists"),
        (Some("email"), "User with email already exists"),
        (Some("users_username_key"), "username already taken"),
        (Some("EMAIL"), "username already taken"),
        (Some(""), "username already taken"),
        (None, "username already taken"),
    ];
    for (constraint, reason) in cases {
        let failure = StorageFailure {
            detail: text("duplicate key value violates unique constraint"),
            unique_violation: true,
            constraint: constraint.map(text),
        };
        let (state, action) = Registration::Inserting.advance(Event::Failed(failure));
        assert_eq!(state, Registration::Finished);
        assert_eq!(action, Action::Failed(conflict(reason)));
    }
}

#[test]
fn other_storage_failures_go_out_unrecognized() {
    let failure = StorageFailure {
        detail: text("pool timed out while waiting for an open connection"),
        unique_violation: false,
        constraint: None,
    };
    let states = [
        started("ada", "ada@x.io").0,
        started("ada", "ada@x.io").0.advance(Event::Begun).0,
        Registration::Inserting,
    ];
    for state in states {
        let (state, action) = state.advance(Event::Failed(failure.clone()));
        assert_eq!(state, Registration::Finished);
        let report = match action {
            Action::Failed(report) => report,
            other => panic!("unexpected {other:?}"),
        };
        assert_eq!(report.cause, Cause::Other(failure.detail.clone()));
        let out = report.into_response();
        assert_eq!(out.response.status, 500);
        assert_eq!(out.response.message, "Something went wrong on our end.");
        assert_eq!(out.log, vec![failure.detail.clone()]);
    }
}

#[test]
fn unique_violation_outside_insert_is_no_conflict() {
    let failure = unique_violation("users_email_key");
    let (_, action) = started("ada", "ada@x.io").0.advance(Event::Failed(failure.clone()));
    assert_eq!(action, Action::Failed(Report::new(Cause::Other(failure.detail), vec![])));
}

#[test]
fn events_out_of_turn_end_the_registration() {
    let internal = Action::Failed(Report::from(Error::InternalServerError));
    let (state, action) = started("ada", "ada@x.io").0.advance(Event::Committed);
    assert_eq!((state, action), (Registration::Finished, internal.clone()));
    let (state, action) = Registration::Inserting.advance(Event::Lookup(None));
    assert_eq!((state, action), (Registration::Finished, internal.clone()));
    let (state, action) = Registration::Finished.advance(Event::Begun);
    assert_eq!((state, action), (Registration::Finished, internal.clone()));
    let failure = unique_violation("users_email_key");
    let (_, action) = Registration::Finished.advance(Event::Failed(failure));
    assert_eq!(action, internal);
}

#[test]
fn nothing_starts_without_a_hash() {
    let dto = RegisterUser::new("ada", "ada@x.io", "secret123", "secret123");
    let report = Report::from(Error::ArgonPasswordHash(text("cryptographic error")));
    assert_eq!(Registration::start(&dto, Err(report.clone())), Err(report));
}

#[test]
fn confirmation_is_not_compared() {
    let dto = RegisterUser::new("ada", "ada@x.io", "secret123", "something else");
    let (state, action) = Registration::start(&dto, Ok(text("hash"))).unwrap();
    assert_eq!(action, Action::Begin);
    assert!(matches!(state, Registration::Opening { .. }));
}

#[test]
fn reply_to_a_registration() {
    let user = User {
        id: Uuid::from_u128(0x67e5504410b1426f9247bb680e5fe0c8),
        username: text("ada"),
        email: text("ada@x.io"),
        password: text("$argon2id$v=19$stand-in"),
        created_at: Timestamp::new(1431648000, 0, 0).unwrap(),
    };
    assert_eq!(
        register(Ok(user.clone())),
        Reply::Created(FilteredUser {
            id: user.id,
            username: text("ada"),
            email: text("ada@x.io"),
            created_at: text("15-05-2015 00:00"),
        })
    );
    let failed = register(Err(Report::from(Error::EntityAlreadyExists(text("username already taken")))));
    assert_eq!(failed.status(), 409);
}
