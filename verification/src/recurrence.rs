//! The recurrence rule: a cron expression and the fire times it gives.

use crate::error::ScheduleError;
use crate::time::Instant;
use std::str::FromStr;
use vstd::prelude::*;

verus! {

/// `cron::Schedule`: a parsed cron expression. What it holds is out of sight.
#[verifier::external_type_specification]
#[verifier::external_body]
pub struct ExSchedule(cron::Schedule);

/// `cron::error::Error`: why a cron expression did not parse.
#[verifier::external_type_specification]
#[verifier::external_body]
pub struct ExCronError(cron::error::Error);

/// The fire times of a rule that are still to come, in the machine's local
/// time zone: a `cron::OwnedScheduleIterator<chrono::Local>`. What it holds
/// is out of sight.
#[verifier::external_body]
pub struct Upcoming {
    times: cron::OwnedScheduleIterator<chrono::Local>,
}

/// A cron expression that has been parsed: seconds, minutes, hours, days of
/// the month, months, days of the week and, at will, years.
pub struct RecurrenceRule {
    schedule: cron::Schedule,
}

/// Whether `expression` is a cron expression that the `cron` crate accepts.
pub uninterp spec fn cron_accepts(expression: Seq<char>) -> bool;

/// `cron::Schedule::from_str`: parses a cron expression. The parser reads
/// nothing but its argument, so whether it accepts is a fact about the
/// expression alone; which schedule comes out is left open.
#[verifier::external_body]
fn parse_schedule(expression: &str) -> (r: Result<cron::Schedule, cron::error::Error>)
    ensures
        r.is_ok() == cron_accepts(expression@),
{
    cron::Schedule::from_str(expression)
}

impl RecurrenceRule {
    /// Parses a cron expression. It fails, with
    /// `ScheduleError::InvalidExpression`, exactly on what is none.
    pub fn parse(expression: &str) -> (r: Result<RecurrenceRule, ScheduleError>)
        ensures
            r.is_ok() == cron_accepts(expression@),
            r matches Err(e) ==> e == ScheduleError::InvalidExpression,
    {
        RecurrenceRule::from_parsed(parse_schedule(expression))
    }

    /// The rule for a schedule that the `cron` crate has parsed, and
    /// `ScheduleError::InvalidExpression` for its refusal.
    pub fn from_parsed(parsed: Result<cron::Schedule, cron::error::Error>) -> (r: Result<
        RecurrenceRule,
        ScheduleError,
    >)
        ensures
            r.is_ok() == parsed.is_ok(),
            r matches Err(e) ==> e == ScheduleError::InvalidExpression,
    {
        match parsed {
            Ok(schedule) => Ok(RecurrenceRule { schedule }),
            Err(_) => Err(ScheduleError::InvalidExpression),
        }
    }

    /// `cron::Schedule::upcoming_owned` in the machine's local time zone: the
    /// fire times that follow the moment of the call, worked out one by one
    /// as they are asked for. Nothing is claimed of them.
    #[verifier::external_body]
    pub(crate) fn upcoming(&self) -> (r: Upcoming)
    {
        Upcoming { times: self.schedule.upcoming_owned(chrono::Local) }
    }
}

impl Upcoming {
    /// `Iterator::next` of `cron::OwnedScheduleIterator`: the next fire time,
    /// or `None` once the rule has no more. Nothing is claimed of the time.
    #[verifier::external_body]
    pub(crate) fn next_time(&mut self) -> (r: Option<Instant>)
    {
        match self.times.next() {
            Some(t) => Some(Instant { secs: t.timestamp(), nanos: t.timestamp_subsec_nanos() }),
            None => None,
        }
    }
}

} // verus!
