//! The credential hasher: Argon2 with a fresh random salt for every hash,
//! written as a PHC string that names its own algorithm, version, parameters
//! and salt.

use argon2::{PasswordHasher, PasswordVerifier};
use vstd::prelude::*;
use vstd::string::*;

use crate::error::{CauseView, Error, ErrorView, Report, ReportView};
use crate::model::result_view;
use crate::text::{chars_of, number_at, number_exceeds};

verus! {

/// What the hashing primitive reports when it fails.
#[derive(Debug, Clone, PartialEq, Eq)]
pub enum PasswordHashError {
    /// The password is not the one that the hash was made from.
    Password,
    /// Any other failure, with the primitive's own text.
    Other(String),
}

/// The model of a [`PasswordHashError`].
pub enum PasswordHashErrorView {
    Password,
    Other(Seq<char>),
}

impl View for PasswordHashError {
    type V = PasswordHashErrorView;

    open spec fn view(&self) -> PasswordHashErrorView {
        match self {
            PasswordHashError::Password => PasswordHashErrorView::Password,
            PasswordHashError::Other(detail) => PasswordHashErrorView::Other(detail@),
        }
    }
}

impl PasswordHashErrorView {
    /// The error of the general set that stands for this failure: a password
    /// that does not match is a credentials failure with a fixed reason,
    /// anything else is kept with its text.
    pub open spec fn error(self) -> ErrorView {
        match self {
            PasswordHashErrorView::Password => ErrorView::InvalidCredentials(
                "Invalid login credentials"@,
            ),
            PasswordHashErrorView::Other(detail) => ErrorView::ArgonPasswordHash(detail),
        }
    }
}

impl vstd::std_specs::convert::FromSpecImpl<PasswordHashError> for Error {
    open spec fn obeys_from_spec() -> bool {
        false
    }

    open spec fn from_spec(err: PasswordHashError) -> Error {
        arbitrary()
    }
}

impl From<PasswordHashError> for Error {
    fn from(err: PasswordHashError) -> (error: Error)
        ensures
            error@ == err@.error(),
    {
        match err {
            PasswordHashError::Password => Error::InvalidCredentials(
                String::from_str("Invalid login credentials"),
            ),
            PasswordHashError::Other(detail) => Error::ArgonPasswordHash(detail),
        }
    }
}

/// The PHC string that Argon2, with its default algorithm, version and cost
/// parameters, derives from a password under a salt given in B64, or the
/// failure it reports.
pub uninterp spec fn argon2_phc(password: Seq<char>, salt: Seq<char>) -> Result<
    Seq<char>,
    PasswordHashErrorView,
>;

/// What checking a password against a PHC string gives, the parameters being
/// read from the string.
pub uninterp spec fn argon2_check(password: Seq<char>, phc: Seq<char>) -> Result<
    (),
    PasswordHashErrorView,
>;

/// A character of the B64 alphabet: a letter, a digit, `+` or `/`.
pub open spec fn is_b64_char(c: char) -> bool {
    ||| 'A' <= c <= 'Z'
    ||| 'a' <= c <= 'z'
    ||| '0' <= c <= '9'
    ||| c == '+'
    ||| c == '/'
}

/// A text of B64 characters only.
pub open spec fn is_b64_text(text: Seq<char>) -> bool {
    forall|i: int| 0 <= i < text.len() ==> is_b64_char(#[trigger] text[i])
}

/// A salt as the generator gives it: sixteen bytes in B64 without padding,
/// which is 22 characters, the last of them one of the four that leave no
/// bit over.
pub open spec fn generated_salt(salt: Seq<char>) -> bool {
    &&& salt.len() == 22
    &&& is_b64_text(salt)
    &&& salt[21] == 'A' || salt[21] == 'Q' || salt[21] == 'g' || salt[21] == 'w'
}

/// How every hash of this crate begins: the algorithm, its version and the
/// costs, which are Argon2's defaults.
pub const PHC_HEAD: &'static str = "$argon2id$v=19$m=19456,t=2,p=1";

/// The PHC text of a salt and a digest: the head, then the salt and the
/// digest, each behind a `$`.
pub open spec fn hash_text(salt: Seq<char>, digest: Seq<char>) -> Seq<char> {
    PHC_HEAD@ + seq!['$'] + salt + seq!['$'] + digest
}

/// `phc` is a hash under `salt`: the PHC text of the salt and of some
/// digest, both in B64.
pub open spec fn is_hash_under(phc: Seq<char>, salt: Seq<char>) -> bool {
    &&& is_b64_text(salt)
    &&& exists|digest: Seq<char>| is_b64_text(digest) && phc == #[trigger] hash_text(salt, digest)
}

/// The number of bytes that a text takes in UTF-8.
pub open spec fn byte_len(text: Seq<char>) -> nat {
    vstd::utf8::encode_utf8(text).len()
}

/// A password begins like a hash of this crate. Only such a password can be
/// its own hash.
pub open spec fn begins_like_a_hash(password: Seq<char>) -> bool {
    PHC_HEAD@.is_prefix_of(password)
}

/// `SaltString::generate` of password-hash on the operating system's random
/// generator: sixteen random bytes, written in B64 without padding. Which
/// salt comes is chance; its form is not.
#[verifier::external_body]
pub(crate) fn fresh_salt() -> (salt: String)
    ensures
        generated_salt(salt@),
{
    let salt = argon2::password_hash::SaltString::generate(
        &mut argon2::password_hash::rand_core::OsRng,
    );
    salt.as_str().to_string()
}

/// `PasswordHasher::hash_password` of `argon2::Argon2::default()`, its result
/// written out with `to_string`. The salt is read with
/// `SaltString::from_b64`, whose failure is reported like one of the hash.
///
/// Beside the name, the contract says what the source shows of every call:
/// - a hash is written as the PHC format has it, under Argon2's default
///   algorithm, version and costs: the head, the salt as it was given, and
///   the digest in B64, and a salt that Argon2 can decode is B64 itself;
/// - with a salt of the generator's form the call fails only on a password
///   of more than `u32::MAX` bytes, the one limit Argon2 puts on it;
/// - a check of the password against the hash recomputes the digest from
///   the algorithm, version, costs and salt that the text names, which are
///   those it was made with, and so succeeds.
#[verifier::external_body]
pub(crate) fn argon2_hash(password: &str, salt: &str) -> (outcome: Result<String, PasswordHashError>)
    ensures
        result_view(outcome) == argon2_phc(password@, salt@),
        outcome matches Ok(phc) ==> is_hash_under(phc@, salt@),
        generated_salt(salt@) && byte_len(password@) <= u32::MAX ==> outcome is Ok,
        outcome matches Ok(phc) ==> argon2_check(password@, phc@) is Ok,
{
    let salt = argon2::password_hash::SaltString::from_b64(salt);
    let hashed = match &salt {
        Ok(salt) => argon2::Argon2::default().hash_password(password.as_bytes(), salt),
        Err(err) => Err(*err),
    };
    match hashed {
        Ok(hash) => Ok(hash.to_string()),
        Err(argon2::password_hash::Error::Password) => Err(PasswordHashError::Password),
        Err(err) => Err(PasswordHashError::Other(err.to_string())),
    }
}

/// The most lanes that Argon2 takes.
pub const MAX_LANES: u32 = 16_777_215;

/// The parameter `p`, the number of lanes, is named at position `at` of a
/// PHC text: `p=` stands there, behind the `$` that opens the parameters or
/// the `,` that parts two of them.
pub open spec fn names_lanes_at(phc: Seq<char>, at: int) -> bool {
    &&& 1 <= at
    &&& at + 1 < phc.len()
    &&& phc[at - 1] == '$' || phc[at - 1] == ','
    &&& phc[at] == 'p'
    &&& phc[at + 1] == '='
}

/// A PHC text names more lanes than Argon2 takes.
pub open spec fn names_too_many_lanes(phc: Seq<char>) -> bool {
    exists|at: int| #[trigger]
        names_lanes_at(phc, at) && number_at(phc, at + 2, 0) > MAX_LANES
}

/// Whether a PHC text names more lanes than Argon2 takes.
pub fn check_names_too_many_lanes(phc: &str) -> (too_many: bool)
    ensures
        too_many == names_too_many_lanes(phc@),
{
    let chars = chars_of(phc);
    if chars.len() < 3 {
        return false;
    }
    let last: usize = chars.len() - 1;
    let mut at: usize = 1;
    while at < last
        invariant
            chars@ == phc@,
            last == chars.len() - 1,
            1 <= at <= last,
            forall|k: int|
                1 <= k < at ==> !(#[trigger] names_lanes_at(phc@, k) && number_at(phc@, k + 2, 0)
                    > MAX_LANES),
        decreases chars.len() - at,
    {
        let opens = chars[at - 1] == '$' || chars[at - 1] == ',';
        if opens && chars[at] == 'p' && chars[at + 1] == '=' {
            if number_exceeds(&chars, at + 2, MAX_LANES) {
                assert(names_lanes_at(phc@, at as int));
                return true;
            }
        }
        at += 1;
    }
    false
}

/// `PasswordVerifier::verify_password` of `argon2::Argon2::default()` on the
/// hash that `PasswordHash::new` reads from the text; a text that cannot be
/// read is reported like a failed check. The check runs with the costs that
/// the text names, not with the defaults. The `requires` leaves out a text
/// that names more lanes than Argon2 takes: with such a number the check of
/// the costs can overflow before it refuses them.
#[verifier::external_body]
pub(crate) fn argon2_verify(password: &str, phc: &str) -> (outcome: Result<(), PasswordHashError>)
    requires
        !names_too_many_lanes(phc@),
    ensures
        result_view(outcome) == argon2_check(password@, phc@),
{
    let checked = match argon2::password_hash::PasswordHash::new(phc) {
        Ok(hash) => argon2::Argon2::default().verify_password(password.as_bytes(), &hash),
        Err(err) => Err(err),
    };
    match checked {
        Ok(()) => Ok(()),
        Err(argon2::password_hash::Error::Password) => Err(PasswordHashError::Password),
        Err(err) => Err(PasswordHashError::Other(err.to_string())),
    }
}

/// What becomes of the primitive's answer: a hash is accepted if it is not
/// empty and is not the password itself; a failure is reported as the error
/// that stands for it.
pub open spec fn hash_outcome(
    password: Seq<char>,
    primitive: Result<Seq<char>, PasswordHashErrorView>,
) -> Result<Seq<char>, ReportView> {
    match primitive {
        Ok(phc) => if phc.len() > 0 && phc != password {
            Ok(phc)
        } else {
            Err(ReportView::of(CauseView::General(ErrorView::InternalServerError)))
        },
        Err(err) => Err(ReportView::of(CauseView::General(err.error()))),
    }
}

/// What becomes of the outcome of a check.
pub open spec fn check_outcome(primitive: Result<(), PasswordHashErrorView>) -> Result<
    (),
    ReportView,
> {
    match primitive {
        Ok(()) => Ok(()),
        Err(err) => Err(ReportView::of(CauseView::General(err.error()))),
    }
}

/// What checking a password against a stored text gives: a text that names
/// more lanes than Argon2 takes is refused unchecked, as a hash that cannot
/// be used; any other text is checked, and the outcome of the check decides.
pub open spec fn verify_outcome(password: Seq<char>, phc: Seq<char>) -> Result<(), ReportView> {
    if names_too_many_lanes(phc) {
        Err(ReportView::of(CauseView::General(ErrorView::ArgonPasswordHash("too many threads"@))))
    } else {
        check_outcome(argon2_check(password, phc))
    }
}

/// Two hashes under different salts are different texts, whatever the
/// passwords are.
pub proof fn lemma_hashes_differ_where_salts_differ(
    first: Seq<char>,
    first_salt: Seq<char>,
    second: Seq<char>,
    second_salt: Seq<char>,
)
    requires
        is_hash_under(first, first_salt),
        is_hash_under(second, second_salt),
        first_salt != second_salt,
    ensures
        first != second,
{
    if first == second {
        let first_digest = choose|digest: Seq<char>|
            is_b64_text(digest) && first == #[trigger] hash_text(first_salt, digest);
        let second_digest = choose|digest: Seq<char>|
            is_b64_text(digest) && second == #[trigger] hash_text(second_salt, digest);
        let head = PHC_HEAD@.len() as int;
        let first_end = head + 1 + first_salt.len();
        let second_end = head + 1 + second_salt.len();
        assert(first[first_end] == '$');
        assert(second[second_end] == '$');
        if first_salt.len() < second_salt.len() {
            assert(second[first_end] == second_salt[first_end - head - 1]);
            assert(is_b64_char(second_salt[first_end - head - 1]));
            assert(false);
        }
        if second_salt.len() < first_salt.len() {
            assert(first[second_end] == first_salt[second_end - head - 1]);
            assert(is_b64_char(first_salt[second_end - head - 1]));
            assert(false);
        }
        assert forall|i: int| 0 <= i < first_salt.len() implies first_salt[i] == second_salt[i] by {
            assert(first[head + 1 + i] == first_salt[i]);
            assert(second[head + 1 + i] == second_salt[i]);
        }
        assert(first_salt =~= second_salt);
    }
}

/// A hash of this crate names one lane, so that it is never refused
/// unchecked.
pub proof fn lemma_hash_names_one_lane(phc: Seq<char>, salt: Seq<char>)
    requires
        is_hash_under(phc, salt),
    ensures
        !names_too_many_lanes(phc),
{
    let digest = choose|digest: Seq<char>|
        is_b64_text(digest) && phc == #[trigger] hash_text(salt, digest);
    reveal_strlit("$argon2id$v=19$m=19456,t=2,p=1");
    let head = PHC_HEAD@;
    assert(head.len() == 30);
    assert forall|k: int| 0 <= k < 30 implies phc[k] == head[k] by {}
    assert(phc[30] == '$');
    assert forall|k: int| 30 < k < phc.len() implies phc[k] != '=' by {
        if k < 31 + salt.len() {
            assert(phc[k] == salt[k - 31]);
            assert(is_b64_char(salt[k - 31]));
        } else if k == 31 + salt.len() {
            assert(phc[k] == '$');
        } else {
            assert(phc[k] == digest[k - 32 - salt.len()]);
            assert(is_b64_char(digest[k - 32 - salt.len()]));
        }
    }
    assert forall|at: int| #[trigger] names_lanes_at(phc, at) implies number_at(phc, at + 2, 0)
        <= MAX_LANES by {
        assert(at + 1 < 30);
        assert(head[at] == 'p' && head[at + 1] == '=');
        assert(head[27] == 'p' && head[28] == '=' && head[29] == '1');
        assert(head[1] == 'a' && head[2] == 'r' && head[3] == 'g' && head[4] == 'o' && head[5]
            == 'n' && head[6] == '2' && head[7] == 'i' && head[8] == 'd' && head[9] == '$');
        assert(head[10] == 'v' && head[11] == '=' && head[12] == '1' && head[13] == '9'
            && head[14] == '$' && head[15] == 'm' && head[16] == '=' && head[17] == '1');
        assert(head[18] == '9' && head[19] == '4' && head[20] == '5' && head[21] == '6'
            && head[22] == ',' && head[23] == 't' && head[24] == '=' && head[25] == '2'
            && head[26] == ',');
        assert(at == 27);
        assert(phc[29] == '1');
        reveal_with_fuel(number_at, 3);
        assert(number_at(phc, 29, 0) == 1);
    }
}

/// The password has no part in any report: a failure of the primitive is
/// reported the same whatever the password was, and a hash that is refused
/// is an internal error and nothing more.
pub proof fn lemma_no_report_tells_the_password(
    password: Seq<char>,
    other: Seq<char>,
    primitive: Result<Seq<char>, PasswordHashErrorView>,
)
    ensures
        primitive is Err ==> hash_outcome(password, primitive) == hash_outcome(other, primitive),
        primitive is Ok && hash_outcome(password, primitive) is Err ==> hash_outcome(
            password,
            primitive,
        ) == Err::<Seq<char>, ReportView>(
            ReportView::of(CauseView::General(ErrorView::InternalServerError)),
        ),
        hash_outcome(password, primitive) matches Ok(phc) ==> primitive == Ok::<
            Seq<char>,
            PasswordHashErrorView,
        >(phc) && phc.len() > 0 && phc != password,
{
}

/// Accepts or refuses what the primitive gave for `password`.
pub fn accept_hash(password: &str, primitive: Result<String, PasswordHashError>) -> (outcome:
    Result<String, Report>)
    ensures
        result_view(outcome) == hash_outcome(password@, result_view(primitive)),
{
    match primitive {
        Ok(phc) => {
            if phc.as_str().unicode_len() > 0 && !crate::text::str_eq(phc.as_str(), password) {
                Ok(phc)
            } else {
                Err(Report::from(Error::InternalServerError))
            }
        },
        Err(err) => Err(Report::from(Error::from(err))),
    }
}

} // verus!
