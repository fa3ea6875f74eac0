//! The creation time of a stored record.

use vstd::prelude::*;

use crate::model::option_view;

verus! {

/// The pattern under which a creation time is shown: day, month and year,
/// then hour and minute, as in `15-05-2015 00:00`.
pub const CREATED_AT_FORMAT: &'static str = "%d-%m-%Y %H:%M";

/// The characters of [`CREATED_AT_FORMAT`].
pub open spec fn created_at_pattern() -> Seq<char> {
    CREATED_AT_FORMAT@
}

/// What chrono writes for the instant `secs` seconds and `nanos` nanoseconds
/// after the Unix epoch, seen `offset_secs` seconds east of UTC, under a
/// strftime pattern; `None` where chrono has no such instant or offset, or
/// refuses the pattern.
pub uninterp spec fn strftime_text(
    secs: i64,
    nanos: u32,
    offset_secs: i32,
    pattern: Seq<char>,
) -> Option<Seq<char>>;

/// `chrono::DateTime::format` on the instant that `DateTime::from_timestamp`
/// and `FixedOffset::east_opt` make of the three numbers. `None` comes back
/// where either of the two returns `None` or where writing under the pattern
/// fails. It is called with the one pattern of this crate, which asks for
/// numbers of the local date and time only.
#[verifier::external_body]
fn strftime(secs: i64, nanos: u32, offset_secs: i32, pattern: &str) -> (text: Option<String>)
    requires
        pattern@ == created_at_pattern(),
    ensures
        option_view(text) == strftime_text(secs, nanos, offset_secs, pattern@),
{
    let zone = chrono::FixedOffset::east_opt(offset_secs)?;
    let instant = chrono::DateTime::from_timestamp(secs, nanos)?.with_timezone(&zone);
    let mut text = String::new();
    instant.format(pattern).write_to(&mut text).ok()?;
    Some(text)
}

/// An instant with the offset from UTC under which it is shown. Only
/// instants that can be shown as a creation time exist.
#[derive(Debug, Clone, Copy, PartialEq, Eq)]
pub struct Timestamp {
    secs: i64,
    nanos: u32,
    offset_secs: i32,
}

/// The model of a [`Timestamp`].
pub struct TimestampView {
    /// Seconds since the Unix epoch.
    pub secs: i64,
    /// Nanoseconds after the last whole second.
    pub nanos: u32,
    /// Seconds east of UTC.
    pub offset_secs: i32,
}

impl TimestampView {
    /// The instant as it is shown, where it can be shown.
    pub open spec fn shown(self) -> Option<Seq<char>> {
        strftime_text(self.secs, self.nanos, self.offset_secs, created_at_pattern())
    }
}

impl View for Timestamp {
    type V = TimestampView;

    closed spec fn view(&self) -> TimestampView {
        TimestampView { secs: self.secs, nanos: self.nanos, offset_secs: self.offset_secs }
    }
}

impl Timestamp {
    #[verifier::type_invariant]
    spec fn can_be_shown(self) -> bool {
        self@.shown() is Some
    }

    /// The timestamp of the given instant and offset, if it can be shown.
    pub fn new(secs: i64, nanos: u32, offset_secs: i32) -> (made: Option<Timestamp>)
        ensures
            made is Some <==> (TimestampView { secs, nanos, offset_secs }).shown() is Some,
            made matches Some(timestamp) ==> timestamp@ == (TimestampView {
                secs,
                nanos,
                offset_secs,
            }),
    {
        match strftime(secs, nanos, offset_secs, CREATED_AT_FORMAT) {
            Some(_) => Some(Timestamp { secs, nanos, offset_secs }),
            None => None,
        }
    }

    /// Seconds since the Unix epoch.
    pub fn secs(&self) -> (secs: i64)
        ensures
            secs == self@.secs,
    {
        self.secs
    }

    /// Nanoseconds after the last whole second.
    pub fn nanos(&self) -> (nanos: u32)
        ensures
            nanos == self@.nanos,
    {
        self.nanos
    }

    /// Seconds east of UTC.
    pub fn offset_secs(&self) -> (offset_secs: i32)
        ensures
            offset_secs == self@.offset_secs,
    {
        self.offset_secs
    }

    /// The timestamp as it is shown to clients.
    pub fn format(&self) -> (text: String)
        ensures
            Some(text@) == self@.shown(),
    {
        proof {
            use_type_invariant(self);
        }
        match strftime(self.secs, self.nanos, self.offset_secs, CREATED_AT_FORMAT) {
            Some(text) => text,
            None => vstd::pervasive::unreached(),
        }
    }
}

} // verus!
