//! What can go wrong, and the words for it.

use vstd::prelude::*;
use vstd::string::*;

verus! {

/// A configuration that breaks one of its own rules. Found once, before
/// anything is scheduled.
#[derive(Clone, Copy, Debug, PartialEq, Eq, Structural)]
pub enum ConfigError {
    /// Both a repetition limit and a deadline are set.
    ConflictingLimits,
    /// There is no command to run.
    EmptyCommand,
}

/// A schedule or a deadline that cannot be understood.
#[derive(Clone, Copy, Debug, PartialEq, Eq, Structural)]
pub enum ScheduleError {
    /// The cron expression does not parse.
    InvalidExpression,
    /// The deadline is not a timestamp of the form `YYYY-MM-DD HH:MM:SS`.
    InvalidTimestamp,
    /// The deadline does not name exactly one instant of local time.
    TimezoneAmbiguous,
}

/// The command could not be launched at all.
#[derive(Clone, Debug, PartialEq, Eq)]
pub struct IoError {
    /// What the launcher said.
    pub message: String,
}

/// Why a run ended early.
#[derive(Clone, Debug, PartialEq, Eq)]
pub enum RunError {
    /// The configuration breaks a rule.
    Config(ConfigError),
    /// The schedule cannot be understood.
    Schedule(ScheduleError),
    /// The command exited with a non-zero status while failures are fatal.
    CommandFailed,
    /// The command could not be launched.
    Io(IoError),
}

impl ConfigError {
    /// The words for this error.
    pub open spec fn message_spec(self) -> Seq<char> {
        match self {
            ConfigError::ConflictingLimits => "repetitions and until are mutually exclusive"@,
            ConfigError::EmptyCommand => "no command to execute"@,
        }
    }

    /// The diagnostic for this error.
    pub fn message(&self) -> (r: String)
        ensures
            r@ == self.message_spec(),
    {
        match self {
            ConfigError::ConflictingLimits => String::from_str(
                "repetitions and until are mutually exclusive",
            ),
            ConfigError::EmptyCommand => String::from_str("no command to execute"),
        }
    }
}

impl ScheduleError {
    /// The words for this error.
    pub open spec fn message_spec(self) -> Seq<char> {
        match self {
            ScheduleError::InvalidExpression => "invalid cron expression"@,
            ScheduleError::InvalidTimestamp => "invalid timestamp"@,
            ScheduleError::TimezoneAmbiguous => "cannot parse with timezone"@,
        }
    }

    /// The diagnostic for this error.
    pub fn message(&self) -> (r: String)
        ensures
            r@ == self.message_spec(),
    {
        match self {
            ScheduleError::InvalidExpression => String::from_str("invalid cron expression"),
            ScheduleError::InvalidTimestamp => String::from_str("invalid timestamp"),
            ScheduleError::TimezoneAmbiguous => String::from_str("cannot parse with timezone"),
        }
    }
}

impl RunError {
    /// The words for this error.
    pub open spec fn message_spec(self) -> Seq<char> {
        match self {
            RunError::Config(e) => e.message_spec(),
            RunError::Schedule(e) => e.message_spec(),
            RunError::CommandFailed => "command exited with non-zero status code"@,
            RunError::Io(e) => e.message@,
        }
    }

    /// The diagnostic for this error.
    pub fn message(&self) -> (r: String)
        ensures
            r@ == self.message_spec(),
    {
        match self {
            RunError::Config(e) => e.message(),
            RunError::Schedule(e) => e.message(),
            RunError::CommandFailed => String::from_str("command exited with non-zero status code"),
            RunError::Io(e) => e.message.clone(),
        }
    }
}

} // verus!
