//! The registration request, the stored user and the view of a user that
//! clients may see.

use std::borrow::Cow;

use vstd::prelude::*;
use vstd::string::*;

use super::password::{
    accept_hash, argon2_hash, argon2_phc, argon2_verify, begins_like_a_hash, byte_len,
    check_names_too_many_lanes, fresh_salt, generated_salt, hash_outcome, hash_text,
    is_b64_text, is_hash_under, lemma_hash_names_one_lane, verify_outcome, PHC_HEAD,
};
use super::timestamp::{Timestamp, TimestampView};
use crate::error::{Error, Report};
use crate::model::result_view;

verus! {

/// `uuid::Uuid`: the id of a stored user, carried as the storage made it.
#[verifier::external_type_specification]
#[verifier::external_body]
pub struct ExUuid(uuid::Uuid);

/// `Uuid` is `Copy`: its `clone` hands back the same id.
pub assume_specification[ <uuid::Uuid as Clone>::clone ](id: &uuid::Uuid) -> (copy: uuid::Uuid)
    ensures
        copy == *id,
;

/// What a caller submits to register: read once, never stored.
#[derive(Debug, PartialEq, Eq)]
pub struct RegisterUser<'a> {
    username: Cow<'a, str>,
    email: Cow<'a, str>,
    password: Cow<'a, str>,
    confirm_password: Cow<'a, str>,
}

/// The model of a [`RegisterUser`].
pub struct RegisterUserView {
    pub username: Seq<char>,
    pub email: Seq<char>,
    pub password: Seq<char>,
    pub confirm_password: Seq<char>,
}

impl<'a> View for RegisterUser<'a> {
    type V = RegisterUserView;

    closed spec fn view(&self) -> RegisterUserView {
        RegisterUserView {
            username: self.username@,
            email: self.email@,
            password: self.password@,
            confirm_password: self.confirm_password@,
        }
    }
}

fn cow_str<'b>(text: &'b Cow<'_, str>) -> (slice: &'b str)
    ensures
        slice@ == text@,
{
    match text {
        Cow::Borrowed(borrowed) => borrowed,
        Cow::Owned(owned) => owned.as_str(),
    }
}

impl<'a> RegisterUser<'a> {
    pub fn new(username: &'a str, email: &'a str, password: &'a str, confirm: &'a str) -> (dto:
        Self)
        ensures
            dto@ == (RegisterUserView {
                username: username@,
                email: email@,
                password: password@,
                confirm_password: confirm@,
            }),
    {
        Self {
            username: Cow::Borrowed(username),
            email: Cow::Borrowed(email),
            password: Cow::Borrowed(password),
            confirm_password: Cow::Borrowed(confirm),
        }
    }

    pub fn username(&self) -> (username: &str)
        ensures
            username@ == self@.username,
    {
        cow_str(&self.username)
    }

    pub fn email(&self) -> (email: &str)
        ensures
            email@ == self@.email,
    {
        cow_str(&self.email)
    }

    pub fn password(&self) -> (password: &str)
        ensures
            password@ == self@.password,
    {
        cow_str(&self.password)
    }

    pub fn confirm_password(&self) -> (confirm: &str)
        ensures
            confirm@ == self@.confirm_password,
    {
        cow_str(&self.confirm_password)
    }
}

/// A stored user. The storage makes the id and the creation time.
#[derive(Debug, Clone, PartialEq, Eq)]
pub struct User {
    pub id: uuid::Uuid,
    pub username: String,
    pub email: String,
    /// The password's hash, never the password.
    pub password: String,
    pub created_at: Timestamp,
}

/// The model of a [`User`].
pub struct UserView {
    pub id: uuid::Uuid,
    pub username: Seq<char>,
    pub email: Seq<char>,
    pub password: Seq<char>,
    pub created_at: TimestampView,
}

impl View for User {
    type V = UserView;

    open spec fn view(&self) -> UserView {
        UserView {
            id: self.id,
            username: self.username@,
            email: self.email@,
            password: self.password@,
            created_at: self.created_at@,
        }
    }
}

/// What clients may see of a user: everything but the password's hash, the
/// creation time as text.
#[derive(Debug, Clone, PartialEq, Eq)]
pub struct FilteredUser {
    pub id: uuid::Uuid,
    pub username: String,
    pub email: String,
    pub created_at: String,
}

/// The model of a [`FilteredUser`].
pub struct FilteredUserView {
    pub id: uuid::Uuid,
    pub username: Seq<char>,
    pub email: Seq<char>,
    pub created_at: Seq<char>,
}

impl View for FilteredUser {
    type V = FilteredUserView;

    open spec fn view(&self) -> FilteredUserView {
        FilteredUserView {
            id: self.id,
            username: self.username@,
            email: self.email@,
            created_at: self.created_at@,
        }
    }
}

impl UserView {
    /// The view of this user that clients may see, where the creation time
    /// can be shown.
    pub open spec fn filtered(self) -> Option<FilteredUserView> {
        match self.created_at.shown() {
            Some(created_at) => Some(
                FilteredUserView {
                    id: self.id,
                    username: self.username,
                    email: self.email,
                    created_at,
                },
            ),
            None => None,
        }
    }
}

// The conversion makes a new `String`, which no spec function can build, so
// the contract of `from` is stated over the views.
impl vstd::std_specs::convert::FromSpecImpl<User> for FilteredUser {
    open spec fn obeys_from_spec() -> bool {
        false
    }

    open spec fn from_spec(user: User) -> FilteredUser {
        arbitrary()
    }
}

impl From<User> for FilteredUser {
    fn from(user: User) -> (filtered: FilteredUser)
        ensures
            Some(filtered@) == user@.filtered(),
    {
        let created_at = user.created_at.format();
        Self { id: user.id, username: user.username, email: user.email, created_at }
    }
}

impl User {
    /// Hashes a password under a fresh random salt.
    ///
    /// The result is what the primitive gives for the password under some
    /// salt of the generator's form, accepted or refused as
    /// [`hash_outcome`] says. A hash is one PHC text: algorithm, version,
    /// costs, that salt and the digest; it is never the password, and the
    /// password checks against it. Hashing fails only where the primitive
    /// does, which is on a password of more than `u32::MAX` bytes, or where
    /// the password is its own hash, which only one that begins like a hash
    /// can be. The password is neither kept nor logged.
    pub fn hash_password(password: &str) -> (outcome: Result<String, Report>)
        ensures
            exists|salt: Seq<char>|
                {
                    &&& generated_salt(salt)
                    &&& result_view(outcome) == hash_outcome(
                        password@,
                        #[trigger] argon2_phc(password@, salt),
                    )
                    &&& outcome matches Ok(phc) ==> is_hash_under(phc@, salt)
                },
            outcome matches Ok(phc) ==> phc@.len() > 0 && phc@ != password@,
            outcome matches Ok(phc) ==> verify_outcome(password@, phc@) is Ok,
            byte_len(password@) <= u32::MAX && !begins_like_a_hash(password@) ==> outcome is Ok,
    {
        let salt = fresh_salt();
        let primitive = argon2_hash(password, salt.as_str());
        proof {
            if let Ok(phc) = result_view(primitive) {
                lemma_hash_names_one_lane(phc, salt@);
                assert(PHC_HEAD@.is_prefix_of(phc)) by {
                    let digest = choose|digest: Seq<char>|
                        is_b64_text(digest) && phc == #[trigger] hash_text(salt@, digest);
                    assert(phc.subrange(0, PHC_HEAD@.len() as int) =~= PHC_HEAD@);
                }
            }
        }
        accept_hash(password, primitive)
    }

    /// Checks a password against a stored hash, with the parameters that the
    /// hash itself names. A text that names more lanes than Argon2 takes is
    /// refused without a check.
    pub fn verify_password(password: &str, phc: &str) -> (outcome: Result<(), Report>)
        ensures
            result_view(outcome) == verify_outcome(password@, phc@),
    {
        if check_names_too_many_lanes(phc) {
            return Err(
                Report::from(Error::ArgonPasswordHash(String::from_str("too many threads"))),
            );
        }
        match argon2_verify(password, phc) {
            Ok(()) => Ok(()),
            Err(err) => Err(Report::from(Error::from(err))),
        }
    }
}

} // verus!
