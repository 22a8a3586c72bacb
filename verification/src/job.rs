//! One run against the real clock and the real recurrence rule.

use crate::config::CronThat;
use crate::error::{IoError, RunError, ScheduleError};
use crate::recurrence::{cron_accepts, RecurrenceRule, Upcoming};
use crate::scheduler::{Action, Notice, RunOutcome, Scheduler};
use crate::time::{clock_now, Instant};
use vstd::prelude::*;

verus! {

/// A run in progress. The host asks [`Job::advance`] what to do, does it,
/// and hands the outcome of each invocation to [`Job::report`].
pub struct Job {
    rule: RecurrenceRule,
    upcoming: Option<Upcoming>,
    state: Scheduler,
}

impl Job {
    /// The decisions' state.
    pub closed spec fn scheduler(&self) -> Scheduler {
        self.state
    }

    /// The decisions' state.
    pub fn state(&self) -> (r: Scheduler)
        ensures
            r == self.scheduler(),
    {
        self.state
    }

    /// Says what to do next. The fire time comes from the recurrence rule,
    /// whose times are first asked for when the immediate invocation is
    /// over, and the clock is read afresh for the stop condition and for the
    /// wait: the action is what [`Scheduler::decide_spec`] makes of them.
    pub fn advance(&mut self) -> (action: Action)
        ensures
            final(self).scheduler() == old(self).scheduler(),
            exists|fire: Option<Instant>, checked: Instant, started: Instant|
                action == old(self).scheduler().decide_spec(fire, checked, started),
    {
        if self.state.immediate {
            let ghost idle = Instant { secs: 0, nanos: 0 };
            assert(Action::Invoke { wait: None } == self.state.decide_spec(None, idle, idle));
            return Action::Invoke { wait: None };
        }
        let mut times = match self.upcoming.take() {
            Some(times) => times,
            None => self.rule.upcoming(),
        };
        let fire = times.next_time();
        self.upcoming = Some(times);
        let checked = clock_now();
        if fire.is_none() || self.state.limit.must_stop(self.state.index, &checked) {
            assert(Action::Stop == self.state.decide_spec(fire, checked, checked));
            return Action::Stop;
        }
        let started = clock_now();
        let action = self.state.decide(fire, &checked, &started);
        action
    }

    /// Takes note of how the invocation just made has ended: see
    /// [`Scheduler::record`].
    pub fn report(&mut self, outcome: Result<RunOutcome, IoError>) -> (r: Result<Notice, RunError>)
        ensures
            final(self).scheduler() == old(self).scheduler().after(outcome),
            r == old(self).scheduler().verdict(outcome),
    {
        self.state.record(outcome)
    }
}

impl CronThat {
    /// Why no run can begin with this configuration, if none can: the rule
    /// that it breaks, or else a cron expression that does not parse.
    pub open spec fn refusal(self) -> Option<RunError> {
        match self.fault() {
            Some(e) => Some(RunError::Config(e)),
            None => if cron_accepts(self.cron_expression@) {
                None
            } else {
                Some(RunError::Schedule(ScheduleError::InvalidExpression))
            },
        }
    }

    /// Begins a run: checks the configuration, then parses the cron
    /// expression. Nothing is invoked and no clock is read yet.
    pub fn start(&self) -> (r: Result<Job, RunError>)
        ensures
            match r {
                Ok(job) => self.refusal().is_none() && job.scheduler() == Scheduler::initial(*self),
                Err(e) => self.refusal() == Some(e),
            },
    {
        let state = match Scheduler::new(self) {
            Err(e) => { return Err(RunError::Config(e)); },
            Ok(state) => state,
        };
        match RecurrenceRule::parse(self.cron_expression.as_str()) {
            Err(e) => Err(RunError::Schedule(e)),
            Ok(rule) => Ok(Job { rule, upcoming: None, state }),
        }
    }
}

} // verus!
