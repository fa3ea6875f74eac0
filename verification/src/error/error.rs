//! The general error set, the report that carries any failure out of a
//! handler, and the classification of a report into an HTTP response.

use vstd::prelude::*;
use vstd::string::*;

use super::kinds::{AuthError, ModelError, ModelErrorView};
use super::response::{
    ErrorResponse, CONFLICT, INTERNAL_SERVER_ERROR, NOT_FOUND, UNAUTHORIZED,
};
use crate::model::option_view;

verus! {

/// The general error set. A variant that stands for a failure of another
/// layer carries that failure's text, which is logged and never shown.
#[derive(Debug, Clone, PartialEq, Eq)]
pub enum Error {
    Axum(String),
    Argon(String),
    ArgonPasswordHash(String),
    Config(String),
    ConfigFile(String),
    EntityAlreadyExists(String),
    EntityNotFound,
    InternalServerError,
    InvalidCredentials(String),
    IoError(String),
    TracingSubscriber(String),
    NotFound,
    Sqlx(String),
    Serde(String),
    WrongCredentials(String),
}

/// The model of an [`Error`].
pub enum ErrorView {
    Axum(Seq<char>),
    Argon(Seq<char>),
    ArgonPasswordHash(Seq<char>),
    Config(Seq<char>),
    ConfigFile(Seq<char>),
    EntityAlreadyExists(Seq<char>),
    EntityNotFound,
    InternalServerError,
    InvalidCredentials(Seq<char>),
    IoError(Seq<char>),
    TracingSubscriber(Seq<char>),
    NotFound,
    Sqlx(Seq<char>),
    Serde(Seq<char>),
    WrongCredentials(Seq<char>),
}

impl View for Error {
    type V = ErrorView;

    open spec fn view(&self) -> ErrorView {
        match self {
            Error::Axum(detail) => ErrorView::Axum(detail@),
            Error::Argon(detail) => ErrorView::Argon(detail@),
            Error::ArgonPasswordHash(detail) => ErrorView::ArgonPasswordHash(detail@),
            Error::Config(detail) => ErrorView::Config(detail@),
            Error::ConfigFile(detail) => ErrorView::ConfigFile(detail@),
            Error::EntityAlreadyExists(reason) => ErrorView::EntityAlreadyExists(reason@),
            Error::EntityNotFound => ErrorView::EntityNotFound,
            Error::InternalServerError => ErrorView::InternalServerError,
            Error::InvalidCredentials(reason) => ErrorView::InvalidCredentials(reason@),
            Error::IoError(detail) => ErrorView::IoError(detail@),
            Error::TracingSubscriber(detail) => ErrorView::TracingSubscriber(detail@),
            Error::NotFound => ErrorView::NotFound,
            Error::Sqlx(detail) => ErrorView::Sqlx(detail@),
            Error::Serde(detail) => ErrorView::Serde(detail@),
            Error::WrongCredentials(reason) => ErrorView::WrongCredentials(reason@),
        }
    }
}

impl ErrorView {
    /// The error's own text, as it is written to the log.
    pub open spec fn text(self) -> Seq<char> {
        match self {
            ErrorView::Axum(detail) => detail,
            ErrorView::Argon(detail) => detail,
            ErrorView::ArgonPasswordHash(detail) => detail,
            ErrorView::Config(detail) => detail,
            ErrorView::ConfigFile(detail) => detail,
            ErrorView::EntityAlreadyExists(reason) => reason,
            ErrorView::EntityNotFound => "Entity not found."@,
            ErrorView::InternalServerError => "Internal server error"@,
            ErrorView::InvalidCredentials(reason) => reason,
            ErrorView::IoError(detail) => detail,
            ErrorView::TracingSubscriber(detail) => detail,
            ErrorView::NotFound => "Page not found"@,
            ErrorView::Sqlx(detail) => detail,
            ErrorView::Serde(detail) => detail,
            ErrorView::WrongCredentials(reason) => reason,
        }
    }

    pub open spec fn status(self) -> u16 {
        match self {
            ErrorView::NotFound | ErrorView::EntityNotFound => NOT_FOUND,
            ErrorView::EntityAlreadyExists(_) => CONFLICT,
            ErrorView::WrongCredentials(_) | ErrorView::InvalidCredentials(_) => UNAUTHORIZED,
            _ => INTERNAL_SERVER_ERROR,
        }
    }

    /// The message shown to the client: the reason of a conflict or of a
    /// credentials failure as it stands, and a fixed text for everything else.
    pub open spec fn message(self) -> Seq<char> {
        match self {
            ErrorView::NotFound => "Page not found"@,
            ErrorView::EntityNotFound => "Entity not found"@,
            ErrorView::EntityAlreadyExists(reason) => reason,
            ErrorView::WrongCredentials(reason) | ErrorView::InvalidCredentials(reason) => reason,
            _ => "Internal server error"@,
        }
    }
}

impl Error {
    /// The error's own text.
    pub fn to_string(&self) -> (text: String)
        ensures
            text@ == self@.text(),
    {
        match self {
            Error::EntityNotFound => String::from_str("Entity not found."),
            Error::InternalServerError => String::from_str("Internal server error"),
            Error::NotFound => String::from_str("Page not found"),
            Error::Axum(text)
            | Error::Argon(text)
            | Error::ArgonPasswordHash(text)
            | Error::Config(text)
            | Error::ConfigFile(text)
            | Error::EntityAlreadyExists(text)
            | Error::InvalidCredentials(text)
            | Error::IoError(text)
            | Error::TracingSubscriber(text)
            | Error::Sqlx(text)
            | Error::Serde(text)
            | Error::WrongCredentials(text) => text.clone(),
        }
    }

    pub fn response(&self) -> (reply: ErrorResponse)
        ensures
            reply.status == self@.status(),
            reply.message@ == self@.message(),
    {
        match self {
            Error::NotFound => ErrorResponse {
                status: NOT_FOUND,
                message: String::from_str("Page not found"),
            },
            Error::EntityNotFound => ErrorResponse {
                status: NOT_FOUND,
                message: String::from_str("Entity not found"),
            },
            Error::EntityAlreadyExists(reason) => ErrorResponse {
                status: CONFLICT,
                message: reason.clone(),
            },
            Error::InternalServerError => ErrorResponse {
                status: INTERNAL_SERVER_ERROR,
                message: String::from_str("Internal server error"),
            },
            Error::WrongCredentials(reason) | Error::InvalidCredentials(reason) => ErrorResponse {
                status: UNAUTHORIZED,
                message: reason.clone(),
            },
            _ => ErrorResponse {
                status: INTERNAL_SERVER_ERROR,
                message: String::from_str("Internal server error"),
            },
        }
    }
}

/// What lies at the bottom of a report: an error of one of the three known
/// sets, or a failure that belongs to none of them, kept as its text.
#[derive(Debug, Clone, PartialEq, Eq)]
pub enum Cause {
    General(Error),
    Auth(AuthError),
    Model(ModelError),
    Other(String),
}

/// The model of a [`Cause`].
pub enum CauseView {
    General(ErrorView),
    Auth(AuthError),
    Model(ModelErrorView),
    Other(Seq<char>),
}

impl View for Cause {
    type V = CauseView;

    open spec fn view(&self) -> CauseView {
        match self {
            Cause::General(error) => CauseView::General(error@),
            Cause::Auth(error) => CauseView::Auth(*error),
            Cause::Model(error) => CauseView::Model(error@),
            Cause::Other(detail) => CauseView::Other(detail@),
        }
    }
}

impl CauseView {
    /// The cause's own text, as it is written to the log.
    pub open spec fn text(self) -> Seq<char> {
        match self {
            CauseView::General(error) => error.text(),
            CauseView::Auth(error) => error.text(),
            CauseView::Model(error) => error.text(),
            CauseView::Other(detail) => detail,
        }
    }

    pub open spec fn status(self) -> u16 {
        match self {
            CauseView::General(error) => error.status(),
            CauseView::Auth(_) => UNAUTHORIZED,
            CauseView::Model(error) => error.status(),
            CauseView::Other(_) => INTERNAL_SERVER_ERROR,
        }
    }

    /// The message shown to the client.
    pub open spec fn message(self) -> Seq<char> {
        match self {
            CauseView::General(error) => error.message(),
            CauseView::Auth(error) => error.message(),
            CauseView::Model(error) => error.message(),
            CauseView::Other(_) => "Something went wrong on our end."@,
        }
    }

    /// The cause that is recognized when a failure was held against the three
    /// sets in their fixed order: the first set that knows it wins.
    pub open spec fn recognized(
        general: Option<ErrorView>,
        auth: Option<AuthError>,
        model: Option<ModelErrorView>,
        detail: Seq<char>,
    ) -> CauseView {
        match (general, auth, model) {
            (Some(error), _, _) => CauseView::General(error),
            (None, Some(error), _) => CauseView::Auth(error),
            (None, None, Some(error)) => CauseView::Model(error),
            (None, None, None) => CauseView::Other(detail),
        }
    }
}

impl Cause {
    /// Picks the cause of a failure from what each of the three sets made of
    /// it, in the fixed order general, authentication, storage. `detail` is
    /// the failure's text, kept when no set knows it.
    pub fn recognize(
        general: Option<Error>,
        auth: Option<AuthError>,
        model: Option<ModelError>,
        detail: String,
    ) -> (cause: Cause)
        ensures
            cause@ == CauseView::recognized(
                option_view(general),
                auth,
                option_view(model),
                detail@,
            ),
    {
        match general {
            Some(error) => Cause::General(error),
            None => match auth {
                Some(error) => Cause::Auth(error),
                None => match model {
                    Some(error) => Cause::Model(error),
                    None => Cause::Other(detail),
                },
            },
        }
    }

    /// The cause's own text.
    pub fn to_string(&self) -> (text: String)
        ensures
            text@ == self@.text(),
    {
        match self {
            Cause::General(error) => error.to_string(),
            Cause::Auth(error) => error.to_string(),
            Cause::Model(error) => error.to_string(),
            Cause::Other(detail) => detail.clone(),
        }
    }

    pub fn response(&self) -> (reply: ErrorResponse)
        ensures
            reply.status == self@.status(),
            reply.message@ == self@.message(),
    {
        match self {
            Cause::General(error) => error.response(),
            Cause::Auth(error) => error.response(),
            Cause::Model(error) => error.response(),
            Cause::Other(_) => ErrorResponse {
                status: INTERNAL_SERVER_ERROR,
                message: String::from_str("Something went wrong on our end."),
            },
        }
    }
}

/// The one error type that leaves a handler: a cause, and below it the texts
/// of the failures that led to it, the nearest first.
#[derive(Debug, Clone, PartialEq, Eq)]
pub struct Report {
    pub cause: Cause,
    pub chain: Vec<String>,
}

/// The model of a [`Report`].
pub struct ReportView {
    pub cause: CauseView,
    pub chain: Seq<Seq<char>>,
}

impl View for Report {
    type V = ReportView;

    open spec fn view(&self) -> ReportView {
        ReportView { cause: self.cause@, chain: self.chain.deep_view() }
    }
}

impl ReportView {
    /// A report of a cause with nothing below it.
    pub open spec fn of(cause: CauseView) -> ReportView {
        ReportView { cause, chain: Seq::empty() }
    }

    /// Everything a report knows, one line per failure: the cause first, then
    /// the whole chain below it.
    pub open spec fn log(self) -> Seq<Seq<char>> {
        seq![self.cause.text()] + self.chain
    }
}

/// A classified report: the response for the client, and the lines that
/// must be written to the log at error severity before the response is sent.
#[derive(Debug, Clone, PartialEq, Eq)]
pub struct Classified {
    pub response: ErrorResponse,
    pub log: Vec<String>,
}

impl Report {
    /// A report of `cause` with the given chain below it.
    pub fn new(cause: Cause, chain: Vec<String>) -> (report: Report)
        ensures
            report@ == (ReportView { cause: cause@, chain: chain.deep_view() }),
    {
        Report { cause, chain }
    }

    /// The lines to log: the cause's text, then every text of the chain.
    pub fn log_lines(&self) -> (lines: Vec<String>)
        ensures
            lines.deep_view() == self@.log(),
    {
        let mut lines: Vec<String> = Vec::new();
        lines.push(self.cause.to_string());
        assert(lines.deep_view() =~= seq![self@.cause.text()]);
        let mut i: usize = 0;
        while i < self.chain.len()
            invariant
                i <= self.chain.len(),
                lines.deep_view() == seq![self@.cause.text()] + self.chain.deep_view().subrange(
                    0,
                    i as int,
                ),
            decreases self.chain.len() - i,
        {
            let ghost before = lines.deep_view();
            lines.push(self.chain[i].clone());
            assert(lines.deep_view() =~= before.push(self.chain.deep_view()[i as int]));
            assert(lines.deep_view() =~= seq![self@.cause.text()] + self.chain.deep_view().subrange(
                0,
                i + 1,
            ));
            i += 1;
        }
        assert(self.chain.deep_view().subrange(0, self.chain.len() as int)
            =~= self.chain.deep_view());
        lines
    }

    /// Classifies the report: the status and the client's message follow from
    /// the cause alone, and the log receives the full chain whatever the
    /// cause is.
    pub fn into_response(self) -> (out: Classified)
        ensures
            out.response.status == self@.cause.status(),
            out.response.message@ == self@.cause.message(),
            out.log.deep_view() == self@.log(),
    {
        let log = self.log_lines();
        let response = self.cause.response();
        Classified { response, log }
    }
}

// Each conversion below makes a new `Vec`, which no spec function can build,
// so the contract of `from` is stated over the views and `from_spec` is left
// open.
impl vstd::std_specs::convert::FromSpecImpl<Error> for Report {
    open spec fn obeys_from_spec() -> bool {
        false
    }

    open spec fn from_spec(error: Error) -> Report {
        arbitrary()
    }
}

impl From<Error> for Report {
    fn from(error: Error) -> (report: Report)
        ensures
            report@ == ReportView::of(CauseView::General(error@)),
    {
        let report = Report { cause: Cause::General(error), chain: Vec::new() };
        assert(report.chain.deep_view() =~= Seq::empty());
        report
    }
}

impl vstd::std_specs::convert::FromSpecImpl<AuthError> for Report {
    open spec fn obeys_from_spec() -> bool {
        false
    }

    open spec fn from_spec(error: AuthError) -> Report {
        arbitrary()
    }
}

impl From<AuthError> for Report {
    fn from(error: AuthError) -> (report: Report)
        ensures
            report@ == ReportView::of(CauseView::Auth(error)),
    {
        let report = Report { cause: Cause::Auth(error), chain: Vec::new() };
        assert(report.chain.deep_view() =~= Seq::empty());
        report
    }
}

impl vstd::std_specs::convert::FromSpecImpl<ModelError> for Report {
    open spec fn obeys_from_spec() -> bool {
        false
    }

    open spec fn from_spec(error: ModelError) -> Report {
        arbitrary()
    }
}

impl From<ModelError> for Report {
    fn from(error: ModelError) -> (report: Report)
        ensures
            report@ == ReportView::of(CauseView::Model(error@)),
    {
        let report = Report { cause: Cause::Model(error), chain: Vec::new() };
        assert(report.chain.deep_view() =~= Seq::empty());
        report
    }
}

impl CauseView {
    /// The reason that a cause shows as it stands: that of a conflict or of
    /// a credentials failure. No other cause has one.
    pub open spec fn shown_reason(self) -> Option<Seq<char>> {
        match self {
            CauseView::General(ErrorView::EntityAlreadyExists(reason)) => Some(reason),
            CauseView::General(ErrorView::InvalidCredentials(reason)) => Some(reason),
            CauseView::General(ErrorView::WrongCredentials(reason)) => Some(reason),
            CauseView::Model(ModelErrorView::EntityAlreadyExists(reason)) => Some(reason),
            _ => None,
        }
    }
}

/// The messages that are fixed in advance and say nothing of the failure
/// behind them.
pub open spec fn is_fixed_message(message: Seq<char>) -> bool {
    ||| message == "Page not found"@
    ||| message == "Entity not found"@
    ||| message == "Internal server error"@
    ||| message == "Something went wrong on our end"@
    ||| message == "Something went wrong on our end."@
    ||| message == "Session has expired. Login again"@
    ||| message == "Login to continue"@
    ||| message == "Wrong username or password"@
}

/// Every report is answered with one of four status codes.
pub proof fn lemma_status_is_known(cause: CauseView)
    ensures
        cause.status() == UNAUTHORIZED || cause.status() == NOT_FOUND || cause.status() == CONFLICT
            || cause.status() == INTERNAL_SERVER_ERROR,
{
}

/// A conflict is answered with 409 and its reason, word for word, whether
/// it comes from the general or from the storage set.
pub proof fn lemma_conflict_shows_its_reason(reason: Seq<char>)
    ensures
        CauseView::General(ErrorView::EntityAlreadyExists(reason)).status() == CONFLICT,
        CauseView::General(ErrorView::EntityAlreadyExists(reason)).message() == reason,
        CauseView::Model(ModelErrorView::EntityAlreadyExists(reason)).status() == CONFLICT,
        CauseView::Model(ModelErrorView::EntityAlreadyExists(reason)).message() == reason,
{
}

/// A credentials failure is answered with 401 and its reason, word for
/// word.
pub proof fn lemma_credentials_show_their_reason(reason: Seq<char>)
    ensures
        CauseView::General(ErrorView::InvalidCredentials(reason)).status() == UNAUTHORIZED,
        CauseView::General(ErrorView::InvalidCredentials(reason)).message() == reason,
        CauseView::General(ErrorView::WrongCredentials(reason)).status() == UNAUTHORIZED,
        CauseView::General(ErrorView::WrongCredentials(reason)).message() == reason,
{
}

/// A cause of no known set is answered with 500 and a fixed message, and
/// its text stands in the log all the same, at the head of the whole chain.
pub proof fn lemma_unrecognized_cause(detail: Seq<char>, chain: Seq<Seq<char>>)
    ensures
        CauseView::Other(detail).status() == INTERNAL_SERVER_ERROR,
        CauseView::Other(detail).message() == "Something went wrong on our end."@,
        (ReportView { cause: CauseView::Other(detail), chain }).log() == seq![detail] + chain,
        (ReportView { cause: CauseView::Other(detail), chain }).log().contains(detail),
{
    let log = (ReportView { cause: CauseView::Other(detail), chain }).log();
    assert(log[0] == detail);
}

/// The log of a report holds the cause's text and every text of the chain,
/// whatever the client is shown.
pub proof fn lemma_log_holds_the_whole_chain(report: ReportView)
    ensures
        report.log().len() == report.chain.len() + 1,
        report.log()[0] == report.cause.text(),
        forall|i: int| 0 <= i < report.chain.len() ==> report.log()[i + 1] == #[trigger] report.chain[i],
{
}

/// Nothing of a failure reaches the client but the reason of a conflict or
/// of a credentials failure: every other message is fixed in advance,
/// whatever text the failure carries.
pub proof fn lemma_only_designed_reasons_are_shown(cause: CauseView)
    ensures
        match cause.shown_reason() {
            Some(reason) => cause.message() == reason,
            None => is_fixed_message(cause.message()),
        },
{
}

/// The three sets are tried in their fixed order: a failure that the
/// general set knows is classified by it, whatever the others say; one that
/// only the later sets know goes to the first of them; one that none knows
/// is kept as its text.
pub proof fn lemma_first_set_wins(
    general: Option<ErrorView>,
    auth: Option<AuthError>,
    model: Option<ModelErrorView>,
    detail: Seq<char>,
)
    ensures
        general matches Some(error) ==> CauseView::recognized(general, auth, model, detail)
            == CauseView::General(error),
        general is None ==> (auth matches Some(error) ==> CauseView::recognized(
            general,
            auth,
            model,
            detail,
        ) == CauseView::Auth(error)),
        general is None && auth is None ==> (model matches Some(error)
            ==> CauseView::recognized(general, auth, model, detail) == CauseView::Model(error)),
        general is None && auth is None && model is None ==> CauseView::recognized(
            general,
            auth,
            model,
            detail,
        ) == CauseView::Other(detail),
{
}

} // verus!
