//! The scheduler's decisions: whether to stop, how long to wait, and what a
//! failed invocation means.
//!
//! A [`Scheduler`] holds no clock and launches nothing. Its host reads the
//! clock and the fire times, asks [`Scheduler::decide`] what to do, does it,
//! and tells [`Scheduler::record`] how the command ended.

use crate::config::{CronThat, Limit};
use crate::error::{ConfigError, IoError, RunError};
use crate::time::{wait_between, Instant, Wait};
use vstd::prelude::*;

verus! {

/// How one invocation of the command ended.
#[derive(Clone, Copy, Debug, PartialEq, Eq, Structural)]
pub struct RunOutcome {
    /// Whether the command reported the exit status zero.
    pub success: bool,
}

/// What the host is to do next.
#[derive(Clone, Copy, Debug, PartialEq, Eq, Structural)]
pub enum Action {
    /// End the run; it has succeeded.
    Stop,
    /// Invoke the command, after sleeping for `wait` if there is one.
    Invoke { wait: Option<Wait> },
}

/// What the host is to tell its user after an invocation.
#[derive(Clone, Copy, Debug, PartialEq, Eq, Structural)]
pub enum Notice {
    /// Nothing.
    Quiet,
    /// The command failed, and the run goes on.
    Warning,
}

/// The state of one run between two invocations.
#[derive(Clone, Copy, Debug, PartialEq, Eq, Structural)]
pub struct Scheduler {
    /// When to stop.
    pub limit: Limit,
    /// Whether a failed scheduled invocation ends the run.
    pub stop_on_error: bool,
    /// Whether the invocation that precedes the schedule is still to be made.
    pub immediate: bool,
    /// The number, from zero, of the scheduled occurrence that comes next.
    pub index: usize,
}

impl RunOutcome {
    /// The outcome of a command that exited with `status`: a success if and
    /// only if the status is zero.
    pub fn from_status(status: i32) -> (r: RunOutcome)
        ensures
            r.success == (status == 0),
    {
        RunOutcome { success: status == 0 }
    }
}

impl Scheduler {
    /// The state in which a run with `config` begins.
    pub open spec fn initial(config: CronThat) -> Scheduler {
        Scheduler {
            limit: config.limit_spec(),
            stop_on_error: config.stop_on_error,
            immediate: config.now,
            index: 0,
        }
    }

    /// What to do next. While the immediate invocation is owed, it is made
    /// without a look at schedule, limit or clock. After it, `fire` is the
    /// next fire time (`None` once the rule has no more), `checked` the clock
    /// as read for the stop condition and `started` the clock as read for the
    /// wait.
    pub open spec fn decide_spec(self, fire: Option<Instant>, checked: Instant, started: Instant)
        -> Action {
        if self.immediate {
            Action::Invoke { wait: None }
        } else {
            match fire {
                None => Action::Stop,
                Some(f) => if self.limit.reached(self.index as int, checked) {
                    Action::Stop
                } else {
                    Action::Invoke { wait: wait_between(f, started) }
                },
            }
        }
    }

    /// The state after an invocation that ended with `outcome`. The immediate
    /// invocation does not count as an occurrence; a command that could not
    /// be launched changes nothing.
    pub open spec fn after(self, outcome: Result<RunOutcome, IoError>) -> Scheduler {
        if outcome.is_err() {
            self
        } else if self.immediate {
            Scheduler { immediate: false, ..self }
        } else if self.index < usize::MAX {
            Scheduler { index: (self.index + 1) as usize, ..self }
        } else {
            self
        }
    }

    /// What an invocation that ended with `outcome` means for the run. A
    /// command that could not be launched ends it, whatever the policy. How
    /// the immediate invocation exits is of no account. A failed scheduled
    /// invocation ends the run if failures are fatal, and otherwise earns a
    /// warning.
    pub open spec fn verdict(self, outcome: Result<RunOutcome, IoError>) -> Result<
        Notice,
        RunError,
    > {
        match outcome {
            Err(e) => Err(RunError::Io(e)),
            Ok(o) => if self.immediate || o.success {
                Ok(Notice::Quiet)
            } else if self.stop_on_error {
                Err(RunError::CommandFailed)
            } else {
                Ok(Notice::Warning)
            },
        }
    }

    /// Checks `config` and gives the state in which its run begins.
    pub fn new(config: &CronThat) -> (r: Result<Scheduler, ConfigError>)
        ensures
            r == match config.fault() {
                Some(e) => Err::<Scheduler, ConfigError>(e),
                None => Ok(Scheduler::initial(*config)),
            },
    {
        match config.check_args() {
            Err(e) => Err(e),
            Ok(()) => Ok(
                Scheduler {
                    limit: config.limit(),
                    stop_on_error: config.stop_on_error,
                    immediate: config.now,
                    index: 0,
                },
            ),
        }
    }

    /// Decides what to do next: see [`Scheduler::decide_spec`].
    pub fn decide(&self, fire: Option<Instant>, checked: &Instant, started: &Instant) -> (r: Action)
        ensures
            r == self.decide_spec(fire, *checked, *started),
    {
        if self.immediate {
            return Action::Invoke { wait: None };
        }
        match fire {
            None => Action::Stop,
            Some(f) => {
                if self.limit.must_stop(self.index, checked) {
                    Action::Stop
                } else {
                    Action::Invoke { wait: f.wait_from(started) }
                }
            },
        }
    }

    /// Takes note of how the invocation just made has ended, and says what
    /// that means for the run: see [`Scheduler::after`] and
    /// [`Scheduler::verdict`].
    pub fn record(&mut self, outcome: Result<RunOutcome, IoError>) -> (r: Result<Notice, RunError>)
        ensures
            *final(self) == old(self).after(outcome),
            r == old(self).verdict(outcome),
    {
        match outcome {
            Err(e) => Err(RunError::Io(e)),
            Ok(o) => {
                if self.immediate {
                    self.immediate = false;
                    return Ok(Notice::Quiet);
                }
                if self.index < usize::MAX {
                    self.index = self.index + 1;
                }
                if o.success {
                    Ok(Notice::Quiet)
                } else if self.stop_on_error {
                    Err(RunError::CommandFailed)
                } else {
                    Ok(Notice::Warning)
                }
            },
        }
    }
}

} // verus!
