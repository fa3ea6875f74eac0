//! The answer to a registration.

use vstd::prelude::*;

use crate::error::response::CREATED;
use crate::error::{Classified, Report};
use crate::models::users::{FilteredUser, User};

verus! {

/// What the caller of `register` receives.
#[derive(Debug, Clone, PartialEq, Eq)]
pub enum Reply {
    /// 201, with the new user as clients may see it.
    Created(FilteredUser),
    /// The status and message of the failure, and the lines for the log.
    Failed(Classified),
}

impl Reply {
    /// The status code of the reply.
    pub open spec fn status_code(&self) -> u16 {
        match self {
            Reply::Created(_) => CREATED,
            Reply::Failed(classified) => classified.response.status,
        }
    }

    /// The status code of the reply.
    pub fn status(&self) -> (code: u16)
        ensures
            code == self.status_code(),
    {
        match self {
            Reply::Created(_) => CREATED,
            Reply::Failed(classified) => classified.response.status,
        }
    }
}

/// Answers a registration with what became of it: the new user without the
/// password's hash, or the failure as its report is classified.
pub fn register(outcome: Result<User, Report>) -> (reply: Reply)
    ensures
        match outcome {
            Ok(user) => reply matches Reply::Created(filtered) && Some(filtered@)
                == user@.filtered(),
            Err(report) => {
                &&& reply matches Reply::Failed(classified)
                &&& classified.response.status == report@.cause.status()
                &&& classified.response.message@ == report@.cause.message()
                &&& classified.log.deep_view() == report@.log()
            },
        },
{
    match outcome {
        Ok(user) => Reply::Created(FilteredUser::from(user)),
        Err(report) => Reply::Failed(report.into_response()),
    }
}

} // verus!
