//! Points on the timeline and the spans between them.

use vstd::prelude::*;

verus! {

/// Nanoseconds in one second.
pub const NANOS_PER_SEC: u32 = 1_000_000_000;

/// A point on the timeline, as a Unix timestamp.
///
/// `secs` counts whole non-leap seconds since 1970-01-01 00:00:00 UTC and
/// `nanos` the nanoseconds past that second. A value of `nanos` of one
/// billion or more denotes a leap second; such an instant counts as the last
/// nanosecond of the second it extends.
#[derive(Clone, Copy, Debug, PartialEq, Eq, Structural)]
pub struct Instant {
    pub secs: i64,
    pub nanos: u32,
}

/// A span of time, never negative: whole seconds and the nanoseconds past them.
#[derive(Clone, Copy, Debug, PartialEq, Eq, Structural)]
pub struct Wait {
    pub secs: u64,
    pub nanos: u32,
}

impl View for Instant {
    type V = int;

    /// Nanoseconds since the Unix epoch.
    open spec fn view(&self) -> int {
        self.secs * NANOS_PER_SEC + self.subsec()
    }
}

impl View for Wait {
    type V = int;

    /// The length of the span in nanoseconds.
    open spec fn view(&self) -> int {
        self.secs * NANOS_PER_SEC + self.nanos
    }
}

/// The span of `nanos` nanoseconds, for `nanos` that is not negative.
pub open spec fn wait_of(nanos: int) -> Wait {
    Wait { secs: (nanos / NANOS_PER_SEC as int) as u64, nanos: (nanos % NANOS_PER_SEC as int) as u32 }
}

/// How long to wait at `now` for `fire`: nothing once `fire` has been reached.
pub open spec fn wait_between(fire: Instant, now: Instant) -> Option<Wait> {
    if fire@ > now@ {
        Some(wait_of(fire@ - now@))
    } else {
        None
    }
}

/// `chrono::Local::now`: the clock. Two readings need not agree, and nothing
/// is claimed of one. It panics where the system clock stands before 1970.
#[verifier::external_body]
pub(crate) fn clock_now() -> (r: Instant)
{
    let t = chrono::Local::now();
    Instant { secs: t.timestamp(), nanos: t.timestamp_subsec_nanos() }
}

impl Instant {
    /// The nanoseconds past the whole second, a leap second read as the last one.
    pub open spec fn subsec(self) -> int {
        if self.nanos < NANOS_PER_SEC {
            self.nanos as int
        } else {
            NANOS_PER_SEC - 1
        }
    }

    fn subsec_nanos(&self) -> (r: u32)
        ensures
            r == self.subsec(),
            r < NANOS_PER_SEC,
    {
        if self.nanos < NANOS_PER_SEC {
            self.nanos
        } else {
            NANOS_PER_SEC - 1
        }
    }

    /// Whether this instant lies strictly after `other`.
    pub fn is_after(&self, other: &Instant) -> (r: bool)
        ensures
            r == (self@ > other@),
    {
        if self.secs != other.secs {
            self.secs > other.secs
        } else {
            self.subsec_nanos() > other.subsec_nanos()
        }
    }

    /// The time left at `now` until this instant, if any is left.
    pub fn wait_from(&self, now: &Instant) -> (r: Option<Wait>)
        ensures
            r == wait_between(*self, *now),
            r matches Some(w) ==> w@ == self@ - now@ && w.nanos < NANOS_PER_SEC,
    {
        if !self.is_after(now) {
            return None;
        }
        let whole: i128 = self.secs as i128 - now.secs as i128;
        let part: i64 = self.subsec_nanos() as i64 - now.subsec_nanos() as i64;
        let wait = if part < 0 {
            Wait { secs: (whole - 1) as u64, nanos: (part + NANOS_PER_SEC as i64) as u32 }
        } else {
            Wait { secs: whole as u64, nanos: part as u32 }
        };
        Some(wait)
    }
}

/// A wait ends exactly at the fire time: where there is one, it is a
/// positive span that, added to `now`, gives `fire`. Where there is none,
/// `fire` has been reached.
pub proof fn law_wait_ends_at_fire_time(fire: Instant, now: Instant)
    ensures
        match wait_between(fire, now) {
            Some(w) => w@ > 0 && now@ + w@ == fire@ && w.nanos < NANOS_PER_SEC,
            None => now@ >= fire@,
        },
{
}

} // verus!
