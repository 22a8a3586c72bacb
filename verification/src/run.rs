//! A whole run, as mathematics: what the scheduler's decisions add up to
//! when the host follows them against a given course of events.

use crate::config::CronThat;
use crate::error::{ConfigError, IoError, RunError};
use crate::scheduler::{Action, Notice, RunOutcome, Scheduler};
use crate::time::Instant;
use vstd::prelude::*;

verus! {

/// What the world supplies for one scheduled occurrence.
#[derive(Debug, PartialEq, Eq)]
pub struct Tick {
    /// The next fire time of the recurrence rule, `None` once it has no more.
    pub fire: Option<Instant>,
    /// The clock as read for the stop condition.
    pub checked: Instant,
    /// The clock as read for the wait.
    pub started: Instant,
    /// How the invocation ends, if it is made.
    pub outcome: Result<RunOutcome, IoError>,
}

/// What a run came to.
pub struct Summary {
    /// How often the command was invoked.
    pub invocations: nat,
    /// How many warnings were given.
    pub warnings: nat,
    /// How the run ended; `None` if the events ran out before it did.
    pub result: Option<Result<(), RunError>>,
}

/// What a run against recorded events came to, as [`replay`] counts it.
#[derive(Debug, PartialEq, Eq)]
pub struct Report {
    /// Whether the immediate invocation was made.
    pub immediate: bool,
    /// How often the command was invoked on schedule.
    pub scheduled: usize,
    /// How many warnings were given.
    pub warnings: usize,
    /// How the run ended; `None` if the events ran out before it did.
    pub result: Option<Result<(), RunError>>,
}

impl View for Report {
    type V = Summary;

    open spec fn view(&self) -> Summary {
        Summary {
            invocations: if self.immediate {
                (self.scheduled + 1) as nat
            } else {
                self.scheduled as nat
            },
            warnings: self.warnings as nat,
            result: self.result,
        }
    }
}

/// How many of `ticks` hold an invocation that was launched and failed.
pub open spec fn failures(ticks: Seq<Tick>) -> nat
    decreases ticks.len(),
{
    if ticks.len() == 0 {
        0
    } else {
        let here: nat = if ticks.first().outcome matches Ok(o) && !o.success {
            1
        } else {
            0
        };
        here + failures(ticks.drop_first())
    }
}

/// The scheduled part of a run: from state `s`, one tick for each occurrence.
pub open spec fn scheduled(s: Scheduler, ticks: Seq<Tick>) -> Summary
    decreases ticks.len(),
{
    if ticks.len() == 0 {
        Summary { invocations: 0, warnings: 0, result: None }
    } else {
        let t = ticks.first();
        match s.decide_spec(t.fire, t.checked, t.started) {
            Action::Stop => Summary { invocations: 0, warnings: 0, result: Some(Ok(())) },
            Action::Invoke { .. } => match s.verdict(t.outcome) {
                Err(e) => Summary { invocations: 1, warnings: 0, result: Some(Err(e)) },
                Ok(notice) => {
                    let rest = scheduled(s.after(t.outcome), ticks.drop_first());
                    let warned: nat = if notice == Notice::Warning {
                        1
                    } else {
                        0
                    };
                    Summary {
                        invocations: rest.invocations + 1,
                        warnings: rest.warnings + warned,
                        result: rest.result,
                    }
                },
            },
        }
    }
}

/// A run from state `s`: the immediate invocation if it is owed, which ends
/// with `first`, then the scheduled part.
pub open spec fn run(s: Scheduler, first: Result<RunOutcome, IoError>, ticks: Seq<Tick>)
    -> Summary {
    if s.immediate {
        match s.verdict(first) {
            Err(e) => Summary { invocations: 1, warnings: 0, result: Some(Err(e)) },
            Ok(_) => {
                let rest = scheduled(s.after(first), ticks);
                Summary {
                    invocations: rest.invocations + 1,
                    warnings: rest.warnings,
                    result: rest.result,
                }
            },
        }
    } else {
        scheduled(s, ticks)
    }
}

fn outcome_of(outcome: &Result<RunOutcome, IoError>) -> (r: Result<RunOutcome, IoError>)
    ensures
        r == *outcome,
{
    match outcome {
        Ok(o) => Ok(*o),
        Err(e) => Err(IoError { message: e.message.clone() }),
    }
}

/// Runs `config` against recorded events in place of a clock, a recurrence
/// rule and a command: `first` is how the immediate invocation ends, and
/// each of `ticks` holds what there is to know at one scheduled occurrence.
/// A configuration that breaks a rule is refused; otherwise the report is
/// that of [`run`].
pub fn replay(config: &CronThat, first: &Result<RunOutcome, IoError>, ticks: &Vec<Tick>) -> (r:
    Result<Report, ConfigError>)
    ensures
        match r {
            Ok(report) => config.fault().is_none() && report@ == run(
                Scheduler::initial(*config),
                *first,
                ticks@,
            ),
            Err(e) => config.fault() == Some(e),
        },
{
    let mut state = match Scheduler::new(config) {
        Err(e) => { return Err(e); },
        Ok(state) => state,
    };
    let mut report = Report { immediate: false, scheduled: 0, warnings: 0, result: None };
    if state.immediate {
        report.immediate = true;
        match state.record(outcome_of(first)) {
            Err(e) => {
                report.result = Some(Err(e));
                return Ok(report);
            },
            Ok(_) => {},
        }
    }
    let ghost begun = state;
    let mut i: usize = 0;
    assert(ticks@.skip(0) == ticks@);
    while i < ticks.len()
        invariant
            i <= ticks.len(),
            !state.immediate,
            config.fault().is_none(),
            report.immediate == config.now,
            config.now ==> Scheduler::initial(*config).verdict(*first).is_ok(),
            begun == if config.now {
                Scheduler::initial(*config).after(*first)
            } else {
                Scheduler::initial(*config)
            },
            report.scheduled <= i,
            report.warnings <= i,
            report.result.is_none(),
            scheduled(begun, ticks@).invocations == report.scheduled + scheduled(
                state,
                ticks@.skip(i as int),
            ).invocations,
            scheduled(begun, ticks@).warnings == report.warnings + scheduled(
                state,
                ticks@.skip(i as int),
            ).warnings,
            scheduled(begun, ticks@).result == scheduled(state, ticks@.skip(i as int)).result,
        decreases ticks.len() - i,
    {
        proof {
            assert(ticks@.skip(i as int).drop_first() == ticks@.skip(i + 1));
        }
        let tick = &ticks[i];
        match state.decide(tick.fire, &tick.checked, &tick.started) {
            Action::Stop => {
                report.result = Some(Ok(()));
                return Ok(report);
            },
            Action::Invoke { .. } => {
                report.scheduled = report.scheduled + 1;
                match state.record(outcome_of(&tick.outcome)) {
                    Err(e) => {
                        report.result = Some(Err(e));
                        return Ok(report);
                    },
                    Ok(Notice::Warning) => {
                        report.warnings = report.warnings + 1;
                    },
                    Ok(Notice::Quiet) => {},
                }
            },
        }
        i = i + 1;
    }
    Ok(report)
}

} // verus!
