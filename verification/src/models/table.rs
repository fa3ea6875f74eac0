//! A model of the users table, and what the registration workflow is proved
//! to do on it.
//!
//! The table is the storage's, not this crate's. The model says what the
//! workflow relies on: a lookup finds a stored user where there is one, and
//! an insert is refused where the email or the username is taken, however
//! many registrations are under way at once.

use vstd::prelude::*;

use super::password::{hash_outcome, PasswordHashErrorView};
use super::registration::{
    failed_with, start, step, ActionView, EventView, RegistrationView,
};
use super::users::{RegisterUserView, UserView};
use crate::error::response::CONFLICT;
use crate::error::ErrorView;

verus! {

/// Some stored user has this email.
pub open spec fn has_email(table: Seq<UserView>, email: Seq<char>) -> bool {
    exists|i: int| 0 <= i < table.len() && (#[trigger] table[i]).email == email
}

/// Some stored user has this username.
pub open spec fn has_username(table: Seq<UserView>, username: Seq<char>) -> bool {
    exists|i: int| 0 <= i < table.len() && (#[trigger] table[i]).username == username
}

/// Some stored user has this id.
pub open spec fn has_id(table: Seq<UserView>, id: uuid::Uuid) -> bool {
    exists|i: int| 0 <= i < table.len() && (#[trigger] table[i]).id == id
}

/// No two stored users share an email, a username or an id.
pub open spec fn unique(table: Seq<UserView>) -> bool {
    forall|i: int, j: int|
        0 <= i < j < table.len() ==> {
            &&& (#[trigger] table[i]).email != (#[trigger] table[j]).email
            &&& table[i].username != table[j].username
            &&& table[i].id != table[j].id
        }
}

/// `event` is an answer that a working storage may give to `action` on
/// `table`, and `after` is the table it leaves.
///
/// A lookup answers with the email of some stored user that has the email
/// or the username asked for, and with nothing only where there is none. An
/// insert is refused as a unique violation where the email or the username
/// is taken; otherwise the row goes in as asked, under an id that no stored
/// user has.
pub open spec fn answers(
    table: Seq<UserView>,
    action: ActionView,
    event: EventView,
    after: Seq<UserView>,
) -> bool {
    match action {
        ActionView::Begin => event == EventView::Begun && after == table,
        ActionView::FindExisting { email, username } => after == table && match event {
            EventView::Lookup(Some(found)) => exists|i: int|
                0 <= i < table.len() && ((#[trigger] table[i]).email == email || table[i].username
                    == username) && table[i].email == found,
            EventView::Lookup(None) => !has_email(table, email) && !has_username(table, username),
            _ => false,
        },
        ActionView::Insert { email, username, password } => if has_email(table, email)
            || has_username(table, username) {
            &&& after == table
            &&& event matches EventView::Failed(failure)
            &&& failure.unique_violation
        } else {
            &&& event matches EventView::Inserted(user)
            &&& user.email == email
            &&& user.username == username
            &&& user.password == password
            &&& !has_id(table, user.id)
            &&& after == table.push(user)
        },
        ActionView::Commit => event == EventView::Committed && after == table,
        ActionView::Registered(_) | ActionView::Failed(_) => false,
    }
}

/// The action that ends the registration of `email`, `username` and the
/// hash `password`, when the storage answers the lookup with `lookup` and
/// the insert, if it comes to one, with `insert`.
pub open spec fn ending(
    email: Seq<char>,
    username: Seq<char>,
    password: Seq<char>,
    lookup: Option<Seq<char>>,
    insert: EventView,
) -> ActionView {
    let opening = RegistrationView::Opening { email, username, password };
    let (checking, _) = step(opening, EventView::Begun);
    let (looked, second) = step(checking, EventView::Lookup(lookup));
    if second is Insert {
        let (inserted, third) = step(looked, insert);
        if third is Commit {
            step(inserted, EventView::Committed).1
        } else {
            third
        }
    } else {
        second
    }
}

/// The failure is a conflict: it is answered with 409 and its own reason.
pub open spec fn is_conflict(action: ActionView, reason: Seq<char>) -> bool {
    &&& action == failed_with(ErrorView::EntityAlreadyExists(reason))
    &&& action matches ActionView::Failed(report)
    &&& report.cause.status() == CONFLICT
    &&& report.cause.message() == reason
}

/// The workflow asks the storage for exactly four things, in order, and
/// commits only after the row went in: opening, lookup, insert, commit.
pub proof fn lemma_order_of_actions(
    request: RegisterUserView,
    password: Seq<char>,
    user: UserView,
)
    ensures
        ({
            &&& start(request, Ok(password)) matches Ok((opening, first))
            &&& first == ActionView::Begin
            &&& step(opening, EventView::Begun) == (
                RegistrationView::Checking {
                    email: request.email,
                    username: request.username,
                    password,
                },
                ActionView::FindExisting { email: request.email, username: request.username },
            )
        }),
        step(
            RegistrationView::Checking {
                email: request.email,
                username: request.username,
                password,
            },
            EventView::Lookup(None),
        ) == (
            RegistrationView::Inserting,
            ActionView::Insert { email: request.email, username: request.username, password },
        ),
        step(RegistrationView::Inserting, EventView::Inserted(user)) == (
            RegistrationView::Committing { user },
            ActionView::Commit,
        ),
        step(RegistrationView::Committing { user }, EventView::Committed) == (
            RegistrationView::Finished,
            ActionView::Registered(user),
        ),
{
}

/// No step but the one that follows a successful insert asks for a commit,
/// and none but the one that follows the commit registers. Every failure
/// ends the registration, and nothing is asked of the storage after the
/// end: a failed registration is not tried again.
pub proof fn lemma_commit_only_after_insert(state: RegistrationView, event: EventView)
    ensures
        step(state, event).1 is Commit <==> state is Inserting && event is Inserted,
        step(state, event).1 is Registered <==> state is Committing && event is Committed,
        step(state, event).1 is Failed || step(state, event).1 is Registered <==> step(
            state,
            event,
        ).0 is Finished,
        state is Finished ==> step(state, event) == (
            RegistrationView::Finished,
            failed_with(ErrorView::InternalServerError),
        ),
        !(step(state, event).1 is Begin),
{
}

/// A hash that the workflow hands to the storage is never empty and never
/// the password itself; and where hashing fails nothing is started, so no
/// transaction is opened.
pub proof fn lemma_stored_password_is_a_hash(
    request: RegisterUserView,
    primitive: Result<Seq<char>, PasswordHashErrorView>,
)
    ensures
        start(request, hash_outcome(request.password, primitive)) matches Ok((opening, first))
            ==> {
            &&& first == ActionView::Begin
            &&& opening matches RegistrationView::Opening { email, username, password }
            &&& email == request.email
            &&& username == request.username
            &&& password.len() > 0
            &&& password != request.password
            &&& primitive == Ok::<Seq<char>, PasswordHashErrorView>(password)
        },
        primitive is Err ==> start(request, hash_outcome(request.password, primitive)) is Err,
{
}

/// Where nobody has the email or the username, the registration ends with
/// the user that the storage inserted, as the storage made it: with the
/// email, the username and the hash of the request and under an id that no
/// user had before. The table gains that one row and stays unique.
pub proof fn lemma_registration_succeeds(
    table: Seq<UserView>,
    email: Seq<char>,
    username: Seq<char>,
    password: Seq<char>,
    lookup: Option<Seq<char>>,
    insert: EventView,
    after: Seq<UserView>,
)
    requires
        unique(table),
        !has_email(table, email),
        !has_username(table, username),
        answers(table, ActionView::FindExisting { email, username }, EventView::Lookup(lookup), table),
        answers(table, ActionView::Insert { email, username, password }, insert, after),
    ensures
        ({
            &&& insert matches EventView::Inserted(user)
            &&& ending(email, username, password, lookup, insert) == ActionView::Registered(user)
            &&& user.email == email
            &&& user.username == username
            &&& user.password == password
            &&& !has_id(table, user.id)
            &&& after == table.push(user)
        }),
        unique(after),
{
    assert(lookup is None) by {
        if lookup is Some {
            let i = choose|i: int|
                0 <= i < table.len() && ((#[trigger] table[i]).email == email || table[i].username
                    == username) && table[i].email == lookup->0;
            assert(table[i].email == email || table[i].username == username);
        }
    }
    let user = insert->Inserted_0;
    assert forall|i: int, j: int| 0 <= i < j < after.len() implies {
        &&& (#[trigger] after[i]).email != (#[trigger] after[j]).email
        &&& after[i].username != after[j].username
        &&& after[i].id != after[j].id
    } by {
        if j == table.len() {
            assert(after[i] == table[i]);
            assert(after[j] == user);
        } else {
            assert(after[i] == table[i]);
            assert(after[j] == table[j]);
        }
    }
}

/// A registration with the email of a stored user fails with a conflict
/// that names the email, where its username is free.
pub proof fn lemma_taken_email_conflicts(
    table: Seq<UserView>,
    email: Seq<char>,
    username: Seq<char>,
    password: Seq<char>,
    lookup: Option<Seq<char>>,
    insert: EventView,
)
    requires
        has_email(table, email),
        !has_username(table, username),
        answers(table, ActionView::FindExisting { email, username }, EventView::Lookup(lookup), table),
    ensures
        is_conflict(
            ending(email, username, password, lookup, insert),
            "User with email already exists"@,
        ),
{
    assert(lookup == Some(email)) by {
        if lookup is Some {
            let i = choose|i: int|
                0 <= i < table.len() && ((#[trigger] table[i]).email == email || table[i].username
                    == username) && table[i].email == lookup->0;
            assert(table[i].username != username);
        }
    }
}

/// A registration with the username of a stored user fails with a conflict
/// that names the username, where its email is free.
pub proof fn lemma_taken_username_conflicts(
    table: Seq<UserView>,
    email: Seq<char>,
    username: Seq<char>,
    password: Seq<char>,
    lookup: Option<Seq<char>>,
    insert: EventView,
)
    requires
        !has_email(table, email),
        has_username(table, username),
        answers(table, ActionView::FindExisting { email, username }, EventView::Lookup(lookup), table),
    ensures
        is_conflict(ending(email, username, password, lookup, insert), "username already taken"@),
{
    assert(lookup is Some && lookup->0 != email) by {
        if lookup is Some {
            let i = choose|i: int|
                0 <= i < table.len() && ((#[trigger] table[i]).email == email || table[i].username
                    == username) && table[i].email == lookup->0;
            assert(table[i].email != email);
        }
    }
}

/// Of two registrations with the same email and different usernames, one
/// after the other, the second fails with a conflict that names the email.
pub proof fn lemma_second_registration_same_email(
    table: Seq<UserView>,
    email: Seq<char>,
    first_username: Seq<char>,
    first_password: Seq<char>,
    first: UserView,
    between: Seq<UserView>,
    second_username: Seq<char>,
    second_password: Seq<char>,
    lookup: Option<Seq<char>>,
    insert: EventView,
)
    requires
        answers(
            table,
            ActionView::Insert {
                email,
                username: first_username,
                password: first_password,
            },
            EventView::Inserted(first),
            between,
        ),
        second_username != first_username,
        !has_username(table, second_username),
        answers(
            between,
            ActionView::FindExisting { email, username: second_username },
            EventView::Lookup(lookup),
            between,
        ),
    ensures
        is_conflict(
            ending(email, second_username, second_password, lookup, insert),
            "User with email already exists"@,
        ),
{
    lemma_pushed_row(table, first);
    lemma_taken_email_conflicts(between, email, second_username, second_password, lookup, insert);
}

/// Of two registrations with the same username and different emails, one
/// after the other, the second fails with a conflict that names the
/// username.
pub proof fn lemma_second_registration_same_username(
    table: Seq<UserView>,
    username: Seq<char>,
    first_email: Seq<char>,
    first_password: Seq<char>,
    first: UserView,
    between: Seq<UserView>,
    second_email: Seq<char>,
    second_password: Seq<char>,
    lookup: Option<Seq<char>>,
    insert: EventView,
)
    requires
        answers(
            table,
            ActionView::Insert { email: first_email, username, password: first_password },
            EventView::Inserted(first),
            between,
        ),
        second_email != first_email,
        !has_email(table, second_email),
        answers(
            between,
            ActionView::FindExisting { email: second_email, username },
            EventView::Lookup(lookup),
            between,
        ),
    ensures
        is_conflict(
            ending(second_email, username, second_password, lookup, insert),
            "username already taken"@,
        ),
{
    lemma_pushed_row(table, first);
    lemma_taken_username_conflicts(
        between,
        second_email,
        username,
        second_password,
        lookup,
        insert,
    );
}

/// Two registrations with the same email race: both looked while nobody had
/// the email, so both go on to insert. Whichever insert the storage takes
/// first succeeds; the other is refused by the unique constraint and fails
/// with a conflict, and the table holds one new row, not two.
pub proof fn lemma_racing_registrations(
    table: Seq<UserView>,
    email: Seq<char>,
    first_username: Seq<char>,
    first_password: Seq<char>,
    first_insert: EventView,
    between: Seq<UserView>,
    second_username: Seq<char>,
    second_password: Seq<char>,
    second_insert: EventView,
    after: Seq<UserView>,
)
    requires
        !has_email(table, email),
        !has_username(table, first_username),
        !has_username(table, second_username),
        answers(
            table,
            ActionView::Insert {
                email,
                username: first_username,
                password: first_password,
            },
            first_insert,
            between,
        ),
        answers(
            between,
            ActionView::Insert {
                email,
                username: second_username,
                password: second_password,
            },
            second_insert,
            after,
        ),
    ensures
        ending(email, first_username, first_password, None, first_insert) is Registered,
        exists|reason: Seq<char>|
            is_conflict(
                ending(email, second_username, second_password, None, second_insert),
                reason,
            ),
        after == between,
        between.len() == table.len() + 1,
{
    let first = first_insert->Inserted_0;
    lemma_pushed_row(table, first);
    let failure = second_insert->Failed_0;
    let reason = if failure.constraint matches Some(name) && crate::text::occurs_in(
        "email"@,
        name,
    ) {
        "User with email already exists"@
    } else {
        "username already taken"@
    };
    assert(is_conflict(
        ending(email, second_username, second_password, None, second_insert),
        reason,
    ));
}

/// A row that went in is found by its email, its username and its id.
proof fn lemma_pushed_row(table: Seq<UserView>, user: UserView)
    ensures
        has_email(table.push(user), user.email),
        has_username(table.push(user), user.username),
        has_id(table.push(user), user.id),
        forall|email: Seq<char>| has_email(table, email) ==> has_email(table.push(user), email),
        forall|username: Seq<char>|
            has_username(table, username) ==> has_username(table.push(user), username),
        forall|email: Seq<char>|
            has_email(table.push(user), email) ==> has_email(table, email) || email == user.email,
        forall|username: Seq<char>|
            has_username(table.push(user), username) ==> has_username(table, username) || username
                == user.username,
{
    let after = table.push(user);
    let last = table.len() as int;
    assert(after[last] == user);
    assert forall|email: Seq<char>| has_email(table, email) implies has_email(after, email) by {
        let i = choose|i: int| 0 <= i < table.len() && (#[trigger] table[i]).email == email;
        assert(after[i] == table[i]);
    }
    assert forall|username: Seq<char>| has_username(table, username) implies has_username(
        after,
        username,
    ) by {
        let i = choose|i: int| 0 <= i < table.len() && (#[trigger] table[i]).username == username;
        assert(after[i] == table[i]);
    }
    assert forall|email: Seq<char>| has_email(after, email) implies has_email(table, email)
        || email == user.email by {
        let i = choose|i: int| 0 <= i < after.len() && (#[trigger] after[i]).email == email;
        if i < table.len() {
            assert(after[i] == table[i]);
        }
    }
    assert forall|username: Seq<char>| has_username(after, username) implies has_username(
        table,
        username,
    ) || username == user.username by {
        let i = choose|i: int| 0 <= i < after.len() && (#[trigger] after[i]).username == username;
        if i < table.len() {
            assert(after[i] == table[i]);
        }
    }
}

} // verus!
