//! Modification times and their display as a UTC calendar time.
//!
//! An instant is handed in as its distance from the Unix epoch. The
//! conversion to a calendar date and the formatting are done by the `chrono`
//! crate; their results are named here and not described further.

use chrono::NaiveDateTime;
use vstd::prelude::*;

verus! {

/// An instant, given by its distance from the Unix epoch
/// (1970-01-01 00:00:00 UTC): `secs` seconds and `nanos` nanoseconds,
/// counted backwards where `before_epoch` is set and forwards otherwise.
#[derive(Clone, Copy, Debug, PartialEq, Eq, Structural)]
pub struct Timestamp {
    pub before_epoch: bool,
    pub secs: u64,
    pub nanos: u32,
}

/// Why an instant has no display.
#[derive(Clone, Copy, Debug, PartialEq, Eq, Structural)]
pub enum ClockError {
    /// The instant lies before the Unix epoch.
    BeforeEpoch,
    /// The instant lies beyond the calendar dates that can be represented.
    OutOfRange,
}

#[verifier::external_type_specification]
#[verifier::external_body]
pub struct ExNaiveDateTime(chrono::NaiveDateTime);

/// What `NaiveDateTime::from_timestamp_millis` of the `chrono` crate returns
/// for `millis` milliseconds since the Unix epoch.
pub uninterp spec fn utc_from_millis(millis: i64) -> Option<NaiveDateTime>;

/// The text that `NaiveDateTime::format` of the `chrono` crate produces for
/// `instant` under the strftime pattern `pattern`.
pub uninterp spec fn utc_text(instant: NaiveDateTime, pattern: Seq<char>) -> Seq<char>;

/// The strftime pattern of a displayed time: the day of the month padded
/// with a space to two characters, the abbreviated name of the month, and
/// hour and minute of the 24-hour clock.
pub open spec fn time_pattern() -> Seq<char> {
    "%e %b %R"@
}

impl Timestamp {
    /// Whether the instant lies strictly before the Unix epoch.
    pub open spec fn predates_epoch(self) -> bool {
        self.before_epoch && (self.secs > 0 || self.nanos > 0)
    }

    /// The whole milliseconds between the Unix epoch and the instant.
    pub open spec fn whole_millis(self) -> nat {
        (self.secs * 1000 + self.nanos / 1_000_000) as nat
    }

    /// The whole milliseconds since the Unix epoch, for an instant that does
    /// not predate the epoch and whose milliseconds fit in an `i64`.
    pub fn millis(&self) -> (r: Result<i64, ClockError>)
        ensures
            r == epoch_millis(*self),
    {
        if self.before_epoch && (self.secs > 0 || self.nanos > 0) {
            return Err(ClockError::BeforeEpoch);
        }
        let total: u128 = (self.secs as u128) * 1000 + ((self.nanos / 1_000_000) as u128);
        if total > i64::MAX as u128 {
            Err(ClockError::OutOfRange)
        } else {
            Ok(total as i64)
        }
    }
}

/// The whole milliseconds since the Unix epoch as an `i64`, or the reason
/// why there are none.
pub open spec fn epoch_millis(t: Timestamp) -> Result<i64, ClockError> {
    if t.predates_epoch() {
        Err(ClockError::BeforeEpoch)
    } else if t.whole_millis() > i64::MAX {
        Err(ClockError::OutOfRange)
    } else {
        Ok(t.whole_millis() as i64)
    }
}

/// The display of a calendar time, where there is one.
pub open spec fn instant_display(instant: Option<NaiveDateTime>) -> Result<Seq<char>, ClockError> {
    match instant {
        Some(at) => Ok(utc_text(at, time_pattern())),
        None => Err(ClockError::OutOfRange),
    }
}

/// The display of an instant: its UTC calendar time under
/// [`time_pattern`], or the reason why it has none.
pub open spec fn time_display(t: Timestamp) -> Result<Seq<char>, ClockError> {
    match epoch_millis(t) {
        Ok(millis) => instant_display(utc_from_millis(millis)),
        Err(e) => Err(e),
    }
}

/// The view of a display or of the error in its place.
pub open spec fn display_view(r: Result<String, ClockError>) -> Result<Seq<char>, ClockError> {
    match r {
        Ok(text) => Ok(text@),
        Err(e) => Err(e),
    }
}

/// Calls `NaiveDateTime::from_timestamp_millis` of the `chrono` crate, which
/// returns `None` where the milliseconds are out of the range of its
/// calendar. The contract only names the result.
#[verifier::external_body]
#[allow(deprecated)]
pub(crate) fn instant_from_millis(millis: i64) -> (instant: Option<NaiveDateTime>)
    ensures
        instant == utc_from_millis(millis),
{
    NaiveDateTime::from_timestamp_millis(millis)
}

/// Calls `NaiveDateTime::format` of the `chrono` crate and turns the
/// delayed format that it returns into a string. The pattern is fixed to
/// [`time_pattern`], whose items chrono can always write: with a pattern it
/// cannot parse the conversion to a string panics. The contract only names
/// the result.
#[verifier::external_body]
fn format_instant(instant: &NaiveDateTime, pattern: &str) -> (text: String)
    requires
        pattern@ == time_pattern(),
    ensures
        text@ == utc_text(*instant, pattern@),
{
    instant.format(pattern).to_string()
}

/// The display of a calendar time: its text under [`time_pattern`], or
/// `OutOfRange` where there is no calendar time.
pub fn display_instant(instant: Option<NaiveDateTime>) -> (r: Result<String, ClockError>)
    ensures
        display_view(r) == instant_display(instant),
{
    match instant {
        Some(at) => Ok(format_instant(&at, "%e %b %R")),
        None => Err(ClockError::OutOfRange),
    }
}

} // verus!
