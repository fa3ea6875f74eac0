//! The registration workflow: hash the password, open one transaction, look
//! for a user with the same email or username, insert, commit.
//!
//! The workflow decides and its caller acts. Each step takes what the storage
//! answered and names the next thing to do, so that every decision is made
//! here and none by the code that talks to the storage. The transaction
//! belongs to the caller: it commits only when told to, and rolls back
//! whenever the workflow fails or is dropped.

use vstd::prelude::*;
use vstd::string::*;

use super::password::{
    argon2_phc, begins_like_a_hash, byte_len, generated_salt, hash_outcome,
};
use super::users::{RegisterUser, RegisterUserView, User, UserView};
use crate::error::{Cause, CauseView, Error, ErrorView, Report, ReportView};
use crate::model::{option_view, result_view};
use crate::text::{contains, occurs_in};

verus! {

/// A failed call of the storage.
#[derive(Debug, Clone, PartialEq, Eq)]
pub struct StorageFailure {
    /// The driver's own text. It is logged and never shown.
    pub detail: String,
    /// Whether a row was refused because a unique field is already taken.
    pub unique_violation: bool,
    /// The name of the constraint that refused the row, where the storage
    /// gives one.
    pub constraint: Option<String>,
}

/// The model of a [`StorageFailure`].
pub struct StorageFailureView {
    pub detail: Seq<char>,
    pub unique_violation: bool,
    pub constraint: Option<Seq<char>>,
}

impl View for StorageFailure {
    type V = StorageFailureView;

    open spec fn view(&self) -> StorageFailureView {
        StorageFailureView {
            detail: self.detail@,
            unique_violation: self.unique_violation,
            constraint: option_view(self.constraint),
        }
    }
}

/// What the storage answered to the last action.
#[derive(Debug, Clone, PartialEq, Eq)]
pub enum Event {
    /// The transaction is open.
    Begun,
    /// The lookup is done: the email of a stored user that has the email or
    /// the username asked for, or nothing where there is no such user.
    Lookup(Option<String>),
    /// The row is in: the user as the storage holds it.
    Inserted(User),
    /// The transaction is committed.
    Committed,
    /// The call failed.
    Failed(StorageFailure),
}

/// The model of an [`Event`].
pub enum EventView {
    Begun,
    Lookup(Option<Seq<char>>),
    Inserted(UserView),
    Committed,
    Failed(StorageFailureView),
}

impl View for Event {
    type V = EventView;

    open spec fn view(&self) -> EventView {
        match self {
            Event::Begun => EventView::Begun,
            Event::Lookup(found) => EventView::Lookup(option_view(*found)),
            Event::Inserted(user) => EventView::Inserted(user@),
            Event::Committed => EventView::Committed,
            Event::Failed(failure) => EventView::Failed(failure@),
        }
    }
}

/// What the caller is to do next.
#[derive(Debug, Clone, PartialEq, Eq)]
pub enum Action {
    /// Open the one transaction of this registration.
    Begin,
    /// Look, inside the transaction, for a stored user whose email is `email`
    /// or whose username is `username`.
    FindExisting { email: String, username: String },
    /// Insert the user, inside the transaction. The storage makes the id and
    /// the creation time and answers with the stored row.
    Insert { email: String, username: String, password: String },
    /// Commit the transaction.
    Commit,
    /// The registration is done and committed: this is the new user.
    Registered(User),
    /// The registration failed: roll back the transaction if one is open,
    /// and hand out the report. Nothing is tried again.
    Failed(Report),
}

/// The model of an [`Action`].
pub enum ActionView {
    Begin,
    FindExisting { email: Seq<char>, username: Seq<char> },
    Insert { email: Seq<char>, username: Seq<char>, password: Seq<char> },
    Commit,
    Registered(UserView),
    Failed(ReportView),
}

impl View for Action {
    type V = ActionView;

    open spec fn view(&self) -> ActionView {
        match self {
            Action::Begin => ActionView::Begin,
            Action::FindExisting { email, username } => ActionView::FindExisting {
                email: email@,
                username: username@,
            },
            Action::Insert { email, username, password } => ActionView::Insert {
                email: email@,
                username: username@,
                password: password@,
            },
            Action::Commit => ActionView::Commit,
            Action::Registered(user) => ActionView::Registered(user@),
            Action::Failed(report) => ActionView::Failed(report@),
        }
    }
}

/// Where a registration stands: what it waits for.
#[derive(Debug, Clone, PartialEq, Eq)]
pub enum Registration {
    /// The password is hashed; the transaction is to be opened.
    Opening { email: String, username: String, password: String },
    /// The transaction is open; the lookup is under way.
    Checking { email: String, username: String, password: String },
    /// Nobody has the email or the username; the insert is under way.
    Inserting,
    /// The row is in; the commit is under way.
    Committing { user: User },
    /// Registered or failed: there is nothing left to do.
    Finished,
}

/// The model of a [`Registration`].
pub enum RegistrationView {
    Opening { email: Seq<char>, username: Seq<char>, password: Seq<char> },
    Checking { email: Seq<char>, username: Seq<char>, password: Seq<char> },
    Inserting,
    Committing { user: UserView },
    Finished,
}

impl View for Registration {
    type V = RegistrationView;

    open spec fn view(&self) -> RegistrationView {
        match self {
            Registration::Opening { email, username, password } => RegistrationView::Opening {
                email: email@,
                username: username@,
                password: password@,
            },
            Registration::Checking { email, username, password } => RegistrationView::Checking {
                email: email@,
                username: username@,
                password: password@,
            },
            Registration::Inserting => RegistrationView::Inserting,
            Registration::Committing { user } => RegistrationView::Committing { user: user@ },
            Registration::Finished => RegistrationView::Finished,
        }
    }
}

/// A failure with the given error of the general set as its cause.
pub open spec fn failed_with(error: ErrorView) -> ActionView {
    ActionView::Failed(ReportView::of(CauseView::General(error)))
}

/// The conflict that a lookup found: the email is named where the stored
/// user has the email asked for, the username otherwise.
pub open spec fn lookup_conflict(found_email: Seq<char>, email: Seq<char>) -> ErrorView {
    if found_email == email {
        ErrorView::EntityAlreadyExists("User with email already exists"@)
    } else {
        ErrorView::EntityAlreadyExists("username already taken"@)
    }
}

/// The conflict that the storage found on insert: the email is named where
/// the constraint's name holds `email`, the username otherwise.
pub open spec fn insert_conflict(constraint: Option<Seq<char>>) -> ErrorView {
    if constraint matches Some(name) && occurs_in("email"@, name) {
        ErrorView::EntityAlreadyExists("User with email already exists"@)
    } else {
        ErrorView::EntityAlreadyExists("username already taken"@)
    }
}

/// What a failed call of the storage makes of a registration that waits in
/// `state`. A unique violation on insert is a conflict, whatever the lookup
/// said before. Any other failure goes out as it is, a cause of no known
/// set, with the driver's text for the log.
pub open spec fn storage_failure(state: RegistrationView, failure: StorageFailureView) -> ActionView {
    if state is Inserting && failure.unique_violation {
        failed_with(insert_conflict(failure.constraint))
    } else {
        ActionView::Failed(ReportView::of(CauseView::Other(failure.detail)))
    }
}

/// One step of the workflow: the state after `event`, and what to do next.
///
/// An event that is no answer to the action the state waits for ends the
/// registration with an internal error, and so does any event after the end.
pub open spec fn step(state: RegistrationView, event: EventView) -> (RegistrationView, ActionView) {
    match (state, event) {
        (RegistrationView::Finished, _) => (
            RegistrationView::Finished,
            failed_with(ErrorView::InternalServerError),
        ),
        (_, EventView::Failed(failure)) => (
            RegistrationView::Finished,
            storage_failure(state, failure),
        ),
        (RegistrationView::Opening { email, username, password }, EventView::Begun) => (
            RegistrationView::Checking { email, username, password },
            ActionView::FindExisting { email, username },
        ),
        (RegistrationView::Checking { email, username, password }, EventView::Lookup(None)) => (
            RegistrationView::Inserting,
            ActionView::Insert { email, username, password },
        ),
        (RegistrationView::Checking { email, .. }, EventView::Lookup(Some(found_email))) => (
            RegistrationView::Finished,
            failed_with(lookup_conflict(found_email, email)),
        ),
        (RegistrationView::Inserting, EventView::Inserted(user)) => (
            RegistrationView::Committing { user },
            ActionView::Commit,
        ),
        (RegistrationView::Committing { user }, EventView::Committed) => (
            RegistrationView::Finished,
            ActionView::Registered(user),
        ),
        _ => (RegistrationView::Finished, failed_with(ErrorView::InternalServerError)),
    }
}

/// How a registration starts, given what hashing the password gave: with the
/// hash in hand the transaction is to be opened; without it nothing is
/// opened and the report of the hasher goes out.
pub open spec fn start(request: RegisterUserView, hashed: Result<Seq<char>, ReportView>) -> Result<
    (RegistrationView, ActionView),
    ReportView,
> {
    match hashed {
        Ok(password) => Ok(
            (
                RegistrationView::Opening {
                    email: request.email,
                    username: request.username,
                    password,
                },
                ActionView::Begin,
            ),
        ),
        Err(report) => Err(report),
    }
}

fn fail(error: Error) -> (out: (Registration, Action))
    ensures
        out.0@ == RegistrationView::Finished,
        out.1@ == failed_with(error@),
{
    (Registration::Finished, Action::Failed(Report::from(error)))
}

fn lookup_conflict_error(found_email: &String, email: &String) -> (error: Error)
    ensures
        error@ == lookup_conflict(found_email@, email@),
{
    if *found_email == *email {
        Error::EntityAlreadyExists(String::from_str("User with email already exists"))
    } else {
        Error::EntityAlreadyExists(String::from_str("username already taken"))
    }
}

fn insert_conflict_error(constraint: &Option<String>) -> (error: Error)
    ensures
        error@ == insert_conflict(option_view(*constraint)),
{
    let names_email = match constraint {
        Some(name) => contains(name.as_str(), "email"),
        None => false,
    };
    if names_email {
        Error::EntityAlreadyExists(String::from_str("User with email already exists"))
    } else {
        Error::EntityAlreadyExists(String::from_str("username already taken"))
    }
}

impl Registration {
    /// Starts a registration from the request and from what hashing its
    /// password gave. The confirmation is not looked at: whether it equals
    /// the password is for the caller to check before it comes here.
    pub fn start(request: &RegisterUser<'_>, hashed: Result<String, Report>) -> (outcome: Result<
        (Registration, Action),
        Report,
    >)
        ensures
            result_view(outcome) == start(request@, result_view(hashed)),
    {
        match hashed {
            Ok(password) => Ok(
                (
                    Registration::Opening {
                        email: String::from_str(request.email()),
                        username: String::from_str(request.username()),
                        password,
                    },
                    Action::Begin,
                ),
            ),
            Err(report) => Err(report),
        }
    }

    /// Takes the storage's answer to the last action and says what to do
    /// next.
    pub fn advance(self, event: Event) -> (out: (Registration, Action))
        ensures
            (out.0@, out.1@) == step(self@, event@),
    {
        match (self, event) {
            (Registration::Finished, _) => fail(Error::InternalServerError),
            (state, Event::Failed(failure)) => {
                let on_insert = match state {
                    Registration::Inserting => true,
                    _ => false,
                };
                if on_insert && failure.unique_violation {
                    fail(insert_conflict_error(&failure.constraint))
                } else {
                    let report = Report::new(Cause::Other(failure.detail), Vec::new());
                    assert(report@.chain =~= Seq::empty());
                    (Registration::Finished, Action::Failed(report))
                }
            },
            (Registration::Opening { email, username, password }, Event::Begun) => {
                let action = Action::FindExisting {
                    email: email.clone(),
                    username: username.clone(),
                };
                (Registration::Checking { email, username, password }, action)
            },
            (Registration::Checking { email, username, password }, Event::Lookup(None)) => (
                Registration::Inserting,
                Action::Insert { email, username, password },
            ),
            (Registration::Checking { email, .. }, Event::Lookup(Some(found_email))) => fail(
                lookup_conflict_error(&found_email, &email),
            ),
            (Registration::Inserting, Event::Inserted(user)) => (
                Registration::Committing { user },
                Action::Commit,
            ),
            (Registration::Committing { user }, Event::Committed) => (
                Registration::Finished,
                Action::Registered(user),
            ),
            _ => fail(Error::InternalServerError),
        }
    }
}

impl User {
    /// Begins the registration of a new user: hashes the password, before
    /// anything touches the storage, and names the first action. The result
    /// is what [`start`] makes of the request and of the hash that the
    /// primitive gives for the password under some salt of the generator's
    /// form. A registration does start unless the password is longer than
    /// `u32::MAX` bytes or begins like a hash.
    pub fn register(dto: &RegisterUser<'_>) -> (outcome: Result<(Registration, Action), Report>)
        ensures
            exists|salt: Seq<char>|
                {
                    &&& generated_salt(salt)
                    &&& result_view(outcome) == start(
                        dto@,
                        hash_outcome(dto@.password, #[trigger] argon2_phc(dto@.password, salt)),
                    )
                },
            byte_len(dto@.password) <= u32::MAX && !begins_like_a_hash(dto@.password)
                ==> outcome is Ok,
    {
        let hashed = User::hash_password(dto.password());
        Registration::start(dto, hashed)
    }
}

} // verus!
