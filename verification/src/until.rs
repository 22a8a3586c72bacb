//! The deadline as the user writes it: a local date and time of day.

use crate::error::ScheduleError;
use crate::time::Instant;
use vstd::prelude::*;

verus! {

/// The form in which a deadline is written: `YYYY-MM-DD HH:MM:SS`.
pub const DATETIME_FORMAT: &'static str = "%Y-%m-%d %H:%M:%S";

/// `chrono::NaiveDateTime`: a date and a time of day without a time zone.
/// What it holds is out of sight.
#[verifier::external_type_specification]
#[verifier::external_body]
pub struct ExNaiveDateTime(chrono::NaiveDateTime);

/// `chrono::ParseError`: why a text was not read as a date and time.
#[verifier::external_type_specification]
#[verifier::external_body]
pub struct ExParseError(chrono::ParseError);

/// The instants that a date and time of day name in a time zone.
#[derive(Clone, Copy, Debug, PartialEq, Eq, Structural)]
pub enum LocalInstant {
    /// None: the clocks skipped that time of day.
    Missing,
    /// Exactly one.
    Single(Instant),
    /// Two, the earlier first: the clocks showed that time of day twice.
    Ambiguous(Instant, Instant),
}

/// Whether `value` is a date and time of day that `chrono` reads in the form
/// [`DATETIME_FORMAT`].
pub uninterp spec fn timestamp_parses(value: Seq<char>) -> bool;

/// `chrono::NaiveDateTime::parse_from_str` with [`DATETIME_FORMAT`]. The
/// parser reads nothing but its arguments, so whether it accepts is a fact
/// about `value` alone; which date and time come out is left open.
#[verifier::external_body]
fn parse_naive(value: &str) -> (r: Result<chrono::NaiveDateTime, chrono::ParseError>)
    ensures
        r.is_ok() == timestamp_parses(value@),
{
    chrono::NaiveDateTime::parse_from_str(value, DATETIME_FORMAT)
}

/// `chrono::NaiveDateTime::and_local_timezone` with `chrono::Local`: the
/// instants that `naive` names in the machine's time zone. The answer hangs
/// on that zone, so nothing is claimed of it.
#[verifier::external_body]
fn in_local_zone(naive: &chrono::NaiveDateTime) -> (r: LocalInstant)
{
    match naive.and_local_timezone(chrono::Local) {
        chrono::LocalResult::None => LocalInstant::Missing,
        chrono::LocalResult::Single(t) => LocalInstant::Single(
            Instant { secs: t.timestamp(), nanos: t.timestamp_subsec_nanos() },
        ),
        chrono::LocalResult::Ambiguous(a, b) => LocalInstant::Ambiguous(
            Instant { secs: a.timestamp(), nanos: a.timestamp_subsec_nanos() },
            Instant { secs: b.timestamp(), nanos: b.timestamp_subsec_nanos() },
        ),
    }
}

impl LocalInstant {
    /// The one instant, if there is exactly one.
    pub open spec fn single_spec(self) -> Result<Instant, ScheduleError> {
        match self {
            LocalInstant::Single(t) => Ok(t),
            _ => Err(ScheduleError::TimezoneAmbiguous),
        }
    }

    /// The one instant, or `ScheduleError::TimezoneAmbiguous` where there is
    /// none or there are two.
    pub fn single(self) -> (r: Result<Instant, ScheduleError>)
        ensures
            r == self.single_spec(),
    {
        match self {
            LocalInstant::Single(t) => Ok(t),
            _ => Err(ScheduleError::TimezoneAmbiguous),
        }
    }
}

/// Reads a deadline written as `YYYY-MM-DD HH:MM:SS` in local time.
///
/// Fails with `ScheduleError::InvalidTimestamp` exactly when `value` is not
/// such a timestamp. Otherwise the machine's time zone decides: the result
/// is that of [`LocalInstant::single`] on the instants that the timestamp
/// names there.
pub fn parse_date_time(value: &str) -> (r: Result<Instant, ScheduleError>)
    ensures
        !timestamp_parses(value@) ==> r == Err::<Instant, ScheduleError>(
            ScheduleError::InvalidTimestamp,
        ),
        timestamp_parses(value@) ==> exists|local: LocalInstant| r == local.single_spec(),
{
    match parse_naive(value) {
        Err(_) => Err(ScheduleError::InvalidTimestamp),
        Ok(naive) => in_local_zone(&naive).single(),
    }
}

} // verus!
