//! The authentication and storage error sets.

use vstd::prelude::*;
use vstd::string::*;

use super::response::{ErrorResponse, CONFLICT, INTERNAL_SERVER_ERROR, NOT_FOUND, UNAUTHORIZED};

verus! {

/// Failures of the storage layer.
#[derive(Debug, Clone, PartialEq, Eq)]
pub enum ModelError {
    /// A unique field is already taken; the text says which.
    EntityAlreadyExists(String),
    EntityNotFound,
    /// Any other failure of the storage driver, with the driver's own text.
    Sqlx(String),
}

/// The model of a [`ModelError`].
pub enum ModelErrorView {
    EntityAlreadyExists(Seq<char>),
    EntityNotFound,
    Sqlx(Seq<char>),
}

impl View for ModelError {
    type V = ModelErrorView;

    open spec fn view(&self) -> ModelErrorView {
        match self {
            ModelError::EntityAlreadyExists(reason) => ModelErrorView::EntityAlreadyExists(reason@),
            ModelError::EntityNotFound => ModelErrorView::EntityNotFound,
            ModelError::Sqlx(detail) => ModelErrorView::Sqlx(detail@),
        }
    }
}

impl ModelErrorView {
    /// The error's own text, as it is written to the log.
    pub open spec fn text(self) -> Seq<char> {
        match self {
            ModelErrorView::EntityAlreadyExists(reason) => reason,
            ModelErrorView::EntityNotFound => "Entity not found"@,
            ModelErrorView::Sqlx(detail) => detail,
        }
    }

    pub open spec fn status(self) -> u16 {
        match self {
            ModelErrorView::EntityAlreadyExists(_) => CONFLICT,
            ModelErrorView::EntityNotFound => NOT_FOUND,
            ModelErrorView::Sqlx(_) => INTERNAL_SERVER_ERROR,
        }
    }

    /// The message shown to the client. The driver's text never is.
    pub open spec fn message(self) -> Seq<char> {
        match self {
            ModelErrorView::EntityAlreadyExists(reason) => reason,
            ModelErrorView::EntityNotFound => "Entity not found"@,
            ModelErrorView::Sqlx(_) => "Something went wrong on our end"@,
        }
    }
}

impl ModelError {
    /// The error's own text.
    pub fn to_string(&self) -> (text: String)
        ensures
            text@ == self@.text(),
    {
        match self {
            ModelError::EntityAlreadyExists(reason) => reason.clone(),
            ModelError::EntityNotFound => String::from_str("Entity not found"),
            ModelError::Sqlx(detail) => detail.clone(),
        }
    }

    pub fn response(&self) -> (reply: ErrorResponse)
        ensures
            reply.status == self@.status(),
            reply.message@ == self@.message(),
    {
        match self {
            ModelError::EntityAlreadyExists(reason) => ErrorResponse {
                status: CONFLICT,
                message: reason.clone(),
            },
            ModelError::EntityNotFound => ErrorResponse {
                status: NOT_FOUND,
                message: String::from_str("Entity not found"),
            },
            ModelError::Sqlx(_) => ErrorResponse {
                status: INTERNAL_SERVER_ERROR,
                message: String::from_str("Something went wrong on our end"),
            },
        }
    }
}

/// Failures of authentication.
#[derive(Debug, Clone, Copy, PartialEq, Eq)]
pub enum AuthError {
    ExpiredCredentials,
    MissingCredentials,
    WrongCredentials,
}

impl AuthError {
    /// The error's own text, as it is written to the log.
    pub open spec fn text(self) -> Seq<char> {
        match self {
            AuthError::ExpiredCredentials => "Login session has expired"@,
            AuthError::MissingCredentials => "Credentials missing from HTTP Request header"@,
            AuthError::WrongCredentials => "Invalid username or password"@,
        }
    }

    /// The message shown to the client.
    pub open spec fn message(self) -> Seq<char> {
        match self {
            AuthError::ExpiredCredentials => "Session has expired. Login again"@,
            AuthError::MissingCredentials => "Login to continue"@,
            AuthError::WrongCredentials => "Wrong username or password"@,
        }
    }

    /// The error's own text.
    pub fn to_string(&self) -> (text: String)
        ensures
            text@ == self.text(),
    {
        match self {
            AuthError::ExpiredCredentials => String::from_str("Login session has expired"),
            AuthError::MissingCredentials => String::from_str(
                "Credentials missing from HTTP Request header",
            ),
            AuthError::WrongCredentials => String::from_str("Invalid username or password"),
        }
    }

    /// Every authentication failure is answered with 401.
    pub fn response(&self) -> (reply: ErrorResponse)
        ensures
            reply.status == UNAUTHORIZED,
            reply.message@ == self.message(),
    {
        let message = match self {
            AuthError::ExpiredCredentials => "Session has expired. Login again",
            AuthError::MissingCredentials => "Login to continue",
            AuthError::WrongCredentials => "Wrong username or password",
        };
        ErrorResponse { status: UNAUTHORIZED, message: String::from_str(message) }
    }
}

} // verus!
