//! What holds of every run.

use crate::config::CronThat;
use crate::error::{IoError, RunError};
use crate::run::{failures, run, scheduled, Tick};
use crate::scheduler::{RunOutcome, Scheduler};
use crate::time::Instant;
use vstd::prelude::*;

verus! {

/// One for an immediate invocation, zero for none.
pub open spec fn immediate_runs(config: CronThat) -> nat {
    if config.now {
        1
    } else {
        0
    }
}

/// Whether the invocation of `t` is launched and does not end the run.
pub open spec fn carries_on(stop_on_error: bool, t: Tick) -> bool {
    t.outcome matches Ok(o) && (o.success || !stop_on_error)
}

/// Whether occurrence number `i` of a run is invoked and the run goes on
/// after it: the rule has a fire time for it, the limit is not reached, the
/// command is launched, and it does not fail while failures are fatal.
pub open spec fn goes_on(s: Scheduler, i: int, t: Tick) -> bool {
    t.fire.is_some() && !s.limit.reached(i, t.checked) && carries_on(s.stop_on_error, t)
}

/// The state in which the scheduled part of a run with `config` begins:
/// the immediate invocation, if there was one, is over.
pub open spec fn on_schedule(config: CronThat) -> Scheduler {
    Scheduler { immediate: false, ..Scheduler::initial(config) }
}

/// `s` after `k` more scheduled invocations.
pub open spec fn later(s: Scheduler, k: int) -> Scheduler {
    Scheduler {
        index: if s.index + k < usize::MAX {
            (s.index + k) as usize
        } else {
            usize::MAX
        },
        ..s
    }
}

proof fn lemma_failures_all(ticks: Seq<Tick>)
    requires
        forall|i: int|
            0 <= i < ticks.len() ==> (#[trigger] ticks[i]).outcome == Ok::<RunOutcome, IoError>(
                RunOutcome { success: false },
            ),
    ensures
        failures(ticks) == ticks.len(),
    decreases ticks.len(),
{
    if ticks.len() > 0 {
        let rest = ticks.drop_first();
        assert forall|i: int| 0 <= i < rest.len() implies (#[trigger] rest[i]).outcome == Ok::<
            RunOutcome,
            IoError,
        >(RunOutcome { success: false }) by {
            assert(rest[i] == ticks[i + 1]);
        }
        lemma_failures_all(rest);
    }
}

/// As long as the run goes on, each occurrence adds one invocation, and one
/// warning if it failed; how the run ends is up to what follows.
proof fn lemma_goes_on(s: Scheduler, ticks: Seq<Tick>, k: int)
    requires
        !s.immediate,
        0 <= k <= ticks.len(),
        forall|i: int| 0 <= i < k ==> goes_on(s, s.index + i, #[trigger] ticks[i]),
    ensures
        scheduled(s, ticks).invocations == k + scheduled(later(s, k), ticks.skip(k)).invocations,
        scheduled(s, ticks).warnings == failures(ticks.take(k)) + scheduled(
            later(s, k),
            ticks.skip(k),
        ).warnings,
        scheduled(s, ticks).result == scheduled(later(s, k), ticks.skip(k)).result,
    decreases k,
{
    if k == 0 {
        assert(ticks.skip(0) == ticks);
        assert(later(s, 0) == s);
    } else {
        assert(goes_on(s, s.index + 0, ticks[0]));
        let next = s.after(ticks.first().outcome);
        let rest = ticks.drop_first();
        assert forall|i: int| 0 <= i < k - 1 implies goes_on(
            next,
            next.index + i,
            #[trigger] rest[i],
        ) by {
            assert(goes_on(s, s.index + (i + 1), ticks[i + 1]));
        }
        lemma_goes_on(next, rest, k - 1);
        assert(later(next, k - 1) == later(s, k));
        assert(rest.skip(k - 1) == ticks.skip(k));
        assert(ticks.take(k).drop_first() == rest.take(k - 1));
    }
}

/// The same of a whole run, the immediate invocation included.
proof fn lemma_begun(
    config: CronThat,
    first: Result<RunOutcome, IoError>,
    ticks: Seq<Tick>,
    k: int,
)
    requires
        config.now ==> first.is_ok(),
        0 <= k <= ticks.len(),
        forall|i: int| 0 <= i < k ==> goes_on(on_schedule(config), i, #[trigger] ticks[i]),
    ensures
        run(Scheduler::initial(config), first, ticks).invocations == immediate_runs(config) + k
            + scheduled(later(on_schedule(config), k), ticks.skip(k)).invocations,
        run(Scheduler::initial(config), first, ticks).warnings == failures(ticks.take(k))
            + scheduled(later(on_schedule(config), k), ticks.skip(k)).warnings,
        run(Scheduler::initial(config), first, ticks).result == scheduled(
            later(on_schedule(config), k),
            ticks.skip(k),
        ).result,
{
    let s = Scheduler::initial(config);
    if s.immediate {
        assert(s.after(first) == on_schedule(config));
    } else {
        assert(s == on_schedule(config));
    }
    lemma_goes_on(on_schedule(config), ticks, k);
}

/// A run limited to `n` repetitions invokes the command `n` times on
/// schedule, and once more if an immediate invocation is asked for; then it
/// ends in success. That holds as long as the rule has a fire time for each
/// of the `n` occurrences, every invocation is launched, and none fails
/// while failures are fatal. Each failed scheduled invocation earns one
/// warning.
pub proof fn law_repetitions(
    config: CronThat,
    n: usize,
    first: Result<RunOutcome, IoError>,
    ticks: Seq<Tick>,
)
    requires
        config.fault().is_none(),
        config.repetitions == Some(n),
        config.now ==> first.is_ok(),
        ticks.len() > n,
        forall|i: int|
            0 <= i < n ==> (#[trigger] ticks[i]).fire.is_some() && carries_on(
                config.stop_on_error,
                ticks[i],
            ),
    ensures
        run(Scheduler::initial(config), first, ticks).invocations == n + immediate_runs(config),
        run(Scheduler::initial(config), first, ticks).warnings == failures(ticks.take(n as int)),
        run(Scheduler::initial(config), first, ticks).result == Some(Ok::<(), RunError>(())),
{
    lemma_begun(config, first, ticks, n as int);
    assert(ticks.skip(n as int).first() == ticks[n as int]);
}

/// Where failures are not fatal and every one of the `n` scheduled
/// invocations of a run limited to `n` repetitions fails, the run still
/// makes all of them, gives `n` warnings, and ends in success.
pub proof fn law_failures_are_warnings(
    config: CronThat,
    n: usize,
    first: Result<RunOutcome, IoError>,
    ticks: Seq<Tick>,
)
    requires
        config.fault().is_none(),
        config.repetitions == Some(n),
        !config.stop_on_error,
        config.now ==> first.is_ok(),
        ticks.len() > n,
        forall|i: int|
            0 <= i < n ==> (#[trigger] ticks[i]).fire.is_some() && ticks[i].outcome == Ok::<
                RunOutcome,
                IoError,
            >(RunOutcome { success: false }),
    ensures
        run(Scheduler::initial(config), first, ticks).invocations == n + immediate_runs(config),
        run(Scheduler::initial(config), first, ticks).warnings == n,
        run(Scheduler::initial(config), first, ticks).result == Some(Ok::<(), RunError>(())),
{
    law_repetitions(config, n, first, ticks);
    lemma_failures_all(ticks.take(n as int));
}

/// A run with a deadline invokes the command at every occurrence for which
/// the clock, as read for the stop condition, has not passed the deadline,
/// and stops at the first for which it has: with `k` occurrences before
/// that one, `k` scheduled invocations are made, and never one after the
/// deadline. An immediate invocation comes on top.
pub proof fn law_deadline(
    config: CronThat,
    deadline: Instant,
    k: int,
    first: Result<RunOutcome, IoError>,
    ticks: Seq<Tick>,
)
    requires
        config.fault().is_none(),
        config.until == Some(deadline),
        config.now ==> first.is_ok(),
        0 <= k < ticks.len(),
        forall|i: int|
            0 <= i < k ==> (#[trigger] ticks[i]).fire.is_some() && ticks[i].checked@ <= deadline@
                && carries_on(config.stop_on_error, ticks[i]),
        ticks[k].fire.is_none() || ticks[k].checked@ > deadline@,
    ensures
        run(Scheduler::initial(config), first, ticks).invocations == k + immediate_runs(config),
        run(Scheduler::initial(config), first, ticks).warnings == failures(ticks.take(k)),
        run(Scheduler::initial(config), first, ticks).result == Some(Ok::<(), RunError>(())),
{
    lemma_begun(config, first, ticks, k);
    assert(ticks.skip(k).first() == ticks[k]);
}

/// Where failures are fatal, the first scheduled invocation that fails ends
/// the run with `RunError::CommandFailed`. With `k` occurrences before it,
/// `k + 1` scheduled invocations have been made, and the immediate one if
/// it was asked for. So a command that fails every time is invoked once on
/// schedule.
pub proof fn law_stop_on_error(
    config: CronThat,
    k: int,
    first: Result<RunOutcome, IoError>,
    ticks: Seq<Tick>,
)
    requires
        config.fault().is_none(),
        config.stop_on_error,
        config.now ==> first.is_ok(),
        0 <= k < ticks.len(),
        forall|i: int| 0 <= i < k ==> goes_on(on_schedule(config), i, #[trigger] ticks[i]),
        ticks[k].fire.is_some(),
        !config.limit_spec().reached(k, ticks[k].checked),
        ticks[k].outcome == Ok::<RunOutcome, IoError>(RunOutcome { success: false }),
    ensures
        run(Scheduler::initial(config), first, ticks).invocations == k + 1 + immediate_runs(config),
        run(Scheduler::initial(config), first, ticks).result == Some(
            Err::<(), RunError>(RunError::CommandFailed),
        ),
        ticks[0].outcome == Ok::<RunOutcome, IoError>(RunOutcome { success: false }) ==> k == 0,
{
    lemma_begun(config, first, ticks, k);
    assert(ticks.skip(k).first() == ticks[k]);
    if k > 0 {
        assert(goes_on(on_schedule(config), 0, ticks[0]));
    }
}

/// Where the command cannot be launched, the run ends at once with the
/// launcher's error, whatever the policy on failures. With `k` occurrences
/// before that one, `k + 1` scheduled invocations have been tried.
pub proof fn law_launch_failure(
    config: CronThat,
    k: int,
    error: IoError,
    first: Result<RunOutcome, IoError>,
    ticks: Seq<Tick>,
)
    requires
        config.fault().is_none(),
        config.now ==> first.is_ok(),
        0 <= k < ticks.len(),
        forall|i: int| 0 <= i < k ==> goes_on(on_schedule(config), i, #[trigger] ticks[i]),
        ticks[k].fire.is_some(),
        !config.limit_spec().reached(k, ticks[k].checked),
        ticks[k].outcome == Err::<RunOutcome, IoError>(error),
    ensures
        run(Scheduler::initial(config), first, ticks).invocations == k + 1 + immediate_runs(config),
        run(Scheduler::initial(config), first, ticks).result == Some(
            Err::<(), RunError>(RunError::Io(error)),
        ),
{
    lemma_begun(config, first, ticks, k);
    assert(ticks.skip(k).first() == ticks[k]);
}

/// A run without a limit never stops of its own accord: as long as the rule
/// has fire times, every invocation is launched and none fails while
/// failures are fatal, it invokes the command at every occurrence and has
/// not ended when the events run out.
pub proof fn law_unbounded(
    config: CronThat,
    first: Result<RunOutcome, IoError>,
    ticks: Seq<Tick>,
)
    requires
        config.fault().is_none(),
        config.repetitions.is_none(),
        config.until.is_none(),
        config.now ==> first.is_ok(),
        forall|i: int|
            0 <= i < ticks.len() ==> (#[trigger] ticks[i]).fire.is_some() && carries_on(
                config.stop_on_error,
                ticks[i],
            ),
    ensures
        run(Scheduler::initial(config), first, ticks).invocations == ticks.len() + immediate_runs(
            config,
        ),
        run(Scheduler::initial(config), first, ticks).result.is_none(),
{
    lemma_begun(config, first, ticks, ticks.len() as int);
}

} // verus!
