//! The configuration of one run and the rules it must keep.

use crate::error::ConfigError;
use crate::time::Instant;
use vstd::prelude::*;
use vstd::string::*;

verus! {

/// What to run, when, and until when.
#[derive(Clone, Debug, PartialEq, Eq)]
pub struct CronThat {
    /// Cron expression with seconds precision.
    pub cron_expression: String,
    /// The command and its arguments.
    pub command: Vec<String>,
    /// Whether a non-zero exit status of the command ends the run.
    pub stop_on_error: bool,
    /// How many scheduled invocations to make, if limited.
    pub repetitions: Option<usize>,
    /// The instant after which no invocation is made, if any.
    pub until: Option<Instant>,
    /// Whether to invoke the command once at once, before the schedule is consulted.
    pub now: bool,
}

/// When the schedule stops asking for invocations.
#[derive(Clone, Copy, Debug, PartialEq, Eq, Structural)]
pub enum Limit {
    /// Never.
    Unbounded,
    /// After this many scheduled invocations.
    Count(usize),
    /// Once the clock has passed this instant.
    Deadline(Instant),
}

/// The tokens joined by single spaces.
pub open spec fn joined(tokens: Seq<Seq<char>>) -> Seq<char>
    decreases tokens.len(),
{
    if tokens.len() == 0 {
        Seq::empty()
    } else if tokens.len() == 1 {
        tokens[0]
    } else {
        joined(tokens.drop_last()) + seq![' '] + tokens.last()
    }
}

impl Limit {
    /// Whether occurrence number `i` (from zero), considered at `now`, is not to be run.
    pub open spec fn reached(self, i: int, now: Instant) -> bool {
        match self {
            Limit::Unbounded => false,
            Limit::Count(n) => i >= n,
            Limit::Deadline(d) => now@ > d@,
        }
    }

    /// Whether the schedule stops before occurrence number `i`, considered at `now`.
    pub fn must_stop(&self, i: usize, now: &Instant) -> (r: bool)
        ensures
            r == self.reached(i as int, *now),
    {
        match self {
            Limit::Unbounded => false,
            Limit::Count(n) => i >= *n,
            Limit::Deadline(d) => now.is_after(d),
        }
    }
}

impl CronThat {
    /// The command's tokens as sequences of characters.
    pub open spec fn tokens(self) -> Seq<Seq<char>> {
        self.command@.map_values(|s: String| s@)
    }

    /// The first rule that the configuration breaks, if it breaks one.
    pub open spec fn fault(self) -> Option<ConfigError> {
        if self.repetitions.is_some() && self.until.is_some() {
            Some(ConfigError::ConflictingLimits)
        } else if self.command@.len() == 0 {
            Some(ConfigError::EmptyCommand)
        } else {
            None
        }
    }

    /// The stop condition that the configuration asks for. A repetition limit
    /// goes before a deadline.
    pub open spec fn limit_spec(self) -> Limit {
        match (self.repetitions, self.until) {
            (Some(n), _) => Limit::Count(n),
            (None, Some(d)) => Limit::Deadline(d),
            (None, None) => Limit::Unbounded,
        }
    }

    /// Checks the configuration: a repetition limit and a deadline exclude
    /// each other, and there must be a command.
    pub fn check_args(&self) -> (r: Result<(), ConfigError>)
        ensures
            r == match self.fault() {
                Some(e) => Err::<(), ConfigError>(e),
                None => Ok(()),
            },
    {
        if self.repetitions.is_some() && self.until.is_some() {
            return Err(ConfigError::ConflictingLimits);
        }
        if self.command.len() == 0 {
            return Err(ConfigError::EmptyCommand);
        }
        Ok(())
    }

    /// The stop condition that the configuration asks for.
    pub fn limit(&self) -> (r: Limit)
        ensures
            r == self.limit_spec(),
    {
        match self.repetitions {
            Some(n) => Limit::Count(n),
            None => match self.until {
                Some(d) => Limit::Deadline(d),
                None => Limit::Unbounded,
            },
        }
    }

    /// Whether the schedule stops before occurrence number `i`, considered at `now`.
    pub fn must_stop(&self, i: usize, now: &Instant) -> (r: bool)
        ensures
            r == self.limit_spec().reached(i as int, *now),
    {
        self.limit().must_stop(i, now)
    }

    /// The command as one line: its tokens joined by single spaces.
    pub fn command_line(&self) -> (r: String)
        ensures
            r@ == joined(self.tokens()),
    {
        let mut line = String::new();
        let n: usize = self.command.len();
        let mut i: usize = 0;
        while i < n
            invariant
                n == self.command@.len(),
                i <= n,
                line@ == joined(self.tokens().take(i as int)),
            decreases n - i,
        {
            proof {
                reveal_strlit(" ");
                assert(self.tokens().take(i + 1).drop_last() == self.tokens().take(i as int));
            }
            if i > 0 {
                line.append(" ");
            }
            line.append(self.command[i].as_str());
            i += 1;
        }
        assert(self.tokens().take(n as int) == self.tokens());
        line
    }
}

} // verus!
