//! The filter that the log subscriber starts from, and the directives that
//! are added to it.

use tracing_subscriber::filter::Directive;
use vstd::prelude::*;
use vstd::string::*;

verus! {

/// `tracing_subscriber::filter::Directive`: one parsed directive, handed on
/// to the subscriber as the parser made it.
#[verifier::external_type_specification]
#[verifier::external_body]
pub struct ExDirective(Directive);

/// Whether tracing-subscriber reads a text as one filter directive.
pub uninterp spec fn directive_parses(text: Seq<char>) -> bool;

/// Whether `char::is_whitespace` holds of a character.
pub uninterp spec fn is_white_space(c: char) -> bool;

/// `char::is_whitespace` of std: whether the character has the Unicode
/// property White_Space, which is what `str::trim` takes off a text.
#[verifier::external_body]
pub(crate) fn is_whitespace(c: char) -> (white: bool)
    ensures
        white == is_white_space(c),
{
    c.is_whitespace()
}

/// A text that the parser of directives can be given. The parser cuts the
/// text at byte offsets that it counts after trimming. Those are offsets
/// into the text itself where nothing is trimmed off its head, and they are
/// safe in any case where every character takes one byte.
pub open spec fn can_be_parsed(text: Seq<char>) -> bool {
    ||| vstd::utf8::is_ascii_chars(text)
    ||| text.len() == 0
    ||| !is_white_space(text[0])
}

/// Whether the parser of directives can be given the text.
pub fn check_can_be_parsed(text: &str) -> (safe: bool)
    ensures
        safe == can_be_parsed(text@),
{
    if text.is_ascii() {
        true
    } else if text.unicode_len() == 0 {
        true
    } else {
        !is_whitespace(text.get_char(0))
    }
}

/// `<Directive as FromStr>::from_str` of tracing-subscriber: the directive
/// that the text stands for, if it stands for one. The `requires` leaves
/// out the texts on which the parser may cut a character in two.
#[verifier::external_body]
pub(crate) fn parse_directive(text: &str) -> (directive: Option<Directive>)
    requires
        can_be_parsed(text@),
    ensures
        directive is Some <==> directive_parses(text@),
{
    text.parse::<Directive>().ok()
}

/// A text that is taken as a directive: one that the parser can be given
/// and reads.
pub open spec fn is_directive(text: Seq<char>) -> bool {
    can_be_parsed(text) && directive_parses(text)
}

/// The name under which this package's own spans and events are logged.
pub const PACKAGE: &'static str = "todos";

/// The characters of [`PACKAGE`].
pub open spec fn package() -> Seq<char> {
    PACKAGE@
}

/// The text of the directive that sets `level` for `target`.
pub open spec fn directive_text(target: Seq<char>, level: Seq<char>) -> Seq<char> {
    target + "="@ + level
}

/// The text of the directive that sets `level` for `target`.
pub fn directive_string(target: &str, level: &str) -> (text: String)
    ensures
        text@ == directive_text(target@, level@),
{
    let mut text = String::from_str(target);
    text.append("=");
    text.append(level);
    text
}

/// How reading a filter from the environment ended.
#[derive(Debug, Clone, PartialEq, Eq)]
pub enum EnvLookup {
    /// The variable held a filter, which is in use.
    Found,
    /// The variable is not set.
    NotPresent,
    /// The lookup failed and named no cause.
    Unexplained,
    /// The variable is set to something that is no filter; the text says
    /// what is wrong with it.
    Invalid(String),
}

/// The filter that the subscriber starts from.
#[derive(Debug, Clone, PartialEq, Eq)]
pub enum BaseFilter {
    /// The filter that the environment gave.
    Environment,
    /// The filter that this text stands for.
    Parse(String),
}

/// The model of a [`BaseFilter`].
pub enum BaseFilterView {
    Environment,
    Parse(Seq<char>),
}

impl View for BaseFilter {
    type V = BaseFilterView;

    open spec fn view(&self) -> BaseFilterView {
        match self {
            BaseFilter::Environment => BaseFilterView::Environment,
            BaseFilter::Parse(text) => BaseFilterView::Parse(text@),
        }
    }
}

/// The filter to start from where the environment gave none: this package
/// at `level` where no directive is configured, and the empty filter where
/// the configured directives say everything themselves.
pub open spec fn fallback_filter(no_directives: bool, level: Seq<char>) -> BaseFilterView {
    if no_directives {
        BaseFilterView::Parse(directive_text(package(), level))
    } else {
        BaseFilterView::Parse(Seq::empty())
    }
}

/// The filter to start from where the environment gave none.
pub fn fallback(no_directives: bool, level: &str) -> (base: BaseFilter)
    ensures
        base@ == fallback_filter(no_directives, level@),
{
    if no_directives {
        BaseFilter::Parse(directive_string(PACKAGE, level))
    } else {
        BaseFilter::Parse(String::new())
    }
}

} // verus!
