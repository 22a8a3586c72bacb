use chrono::{DateTime, Local, TimeDelta, Timelike};
use cronthat::config::CronThat;
use cronthat::error::{IoError, RunError};
use cronthat::scheduler::{Action, Notice, RunOutcome};
use cronthat::until::{parse_date_time, DATETIME_FORMAT};
use std::time::{Duration, Instant};

const EVERY_SECOND: &str = "* * * * * *";

fn config() -> CronThat {
    CronThat {
        cron_expression: String::from(EVERY_SECOND),
        command: vec![String::from("echo helloworld")],
        stop_on_error: false,
        repetitions: None,
        until: None,
        now: false,
    }
}

fn spin_until(end: Instant) {
    while Instant::now() < end {
        std::hint::spin_loop();
    }
}

/// Waits until the clock stands well inside a second, so that a run which
/// starts now does not start on the edge of one.
fn settle() {
    loop {
        let part = Local::now().nanosecond();
        if (100_000_000..400_000_000).contains(&part) {
            return;
        }
        spin_until(Instant::now() + Duration::from_millis(20));
    }
}

struct Seen {
    result: Result<(), RunError>,
    output: String,
    started: Vec<Instant>,
    wall: Vec<DateTime<Local>>,
    warnings: usize,
    /// Whether the machine held the run up for so long that its timing
    /// shows nothing.
    stalled: bool,
}

const JITTER: Duration = Duration::from_millis(200);

/// Runs `config` against the real clock and the real schedule. The command
/// is a line added to the output, and it ends as `success` says. `begun` is
/// when the test read the clock for its own purposes.
fn live(config: &CronThat, success: bool, begun: Instant) -> Seen {
    let mut seen = Seen {
        result: Ok(()),
        output: String::new(),
        started: Vec::new(),
        wall: Vec::new(),
        warnings: 0,
        stalled: false,
    };
    let mut asked = begun;
    let mut job = match config.start() {
        Ok(job) => job,
        Err(e) => {
            seen.result = Err(e);
            return seen;
        }
    };
    loop {
        let action = job.advance();
        if asked.elapsed() > JITTER {
            seen.stalled = true;
        }
        match action {
            Action::Stop => return seen,
            Action::Invoke { wait } => {
                if let Some(w) = wait {
                    let end = Instant::now() + Duration::new(w.secs, w.nanos);
                    spin_until(end);
                    if end.elapsed() > JITTER {
                        seen.stalled = true;
                    }
                }
                seen.started.push(Instant::now());
                seen.wall.push(Local::now());
                seen.output.push_str("helloworld\n");
                let outcome: Result<RunOutcome, IoError> = Ok(RunOutcome { success });
                match job.report(outcome) {
                    Ok(Notice::Quiet) => {}
                    Ok(Notice::Warning) => seen.warnings += 1,
                    Err(e) => {
                        seen.result = Err(e);
                        return seen;
                    }
                }
                asked = Instant::now();
            }
        }
    }
}

#[test]
fn live_two_repetitions_take_two_seconds() {
    settle();
    let begun = Instant::now();
    let mut c = config();
    c.repetitions = Some(2);
    let seen = live(&c, true, begun);
    if seen.stalled {
        return;
    }
    assert_eq!(seen.result, Ok(()));
    assert_eq!(seen.output, "helloworld\nhelloworld\n");
    assert!(begun.elapsed() < Duration::from_millis(2500));
    assert!(seen.started[1] - seen.started[0] >= Duration::from_millis(800));
    assert!(seen.started[1] - seen.started[0] <= Duration::from_millis(1200));
    for at in seen.wall {
        assert!(at.nanosecond() < 200_000_000);
    }
}

#[test]
fn live_deadline_in_three_seconds() {
    settle();
    let begun = Instant::now();
    let in_three_seconds = Local::now() + TimeDelta::seconds(3);
    let until = in_three_seconds.format(DATETIME_FORMAT).to_string();
    let mut c = config();
    c.until = Some(parse_date_time(&until).unwrap());
    let seen = live(&c, true, begun);
    if seen.stalled {
        return;
    }
    assert_eq!(seen.result, Ok(()));
    assert_eq!(seen.output, "helloworld\nhelloworld\nhelloworld\n");
    assert!(begun.elapsed() < Duration::from_millis(3500));
}

#[test]
fn live_immediate_invocation_and_deadline_in_one_second() {
    settle();
    let begun = Instant::now();
    let in_one_second = Local::now() + TimeDelta::seconds(1);
    let mut c = config();
    c.now = true;
    c.until = Some(parse_date_time(&in_one_second.format(DATETIME_FORMAT).to_string()).unwrap());
    let seen = live(&c, true, begun);
    if seen.stalled {
        return;
    }
    assert_eq!(seen.result, Ok(()));
    assert_eq!(seen.output, "helloworld\nhelloworld\n");
    assert!(begun.elapsed() < Duration::from_millis(1500));
    assert!(seen.started[0] - begun < JITTER);
}

#[test]
fn live_failures_do_not_stop_the_run() {
    settle();
    let begun = Instant::now();
    let mut c = config();
    c.repetitions = Some(2);
    let seen = live(&c, false, begun);
    assert_eq!(seen.result, Ok(()));
    assert_eq!(seen.started.len(), 2);
    assert_eq!(seen.warnings, 2);
    assert!(seen.stalled || begun.elapsed() < Duration::from_millis(2500));
}

#[test]
fn live_failure_stops_the_run_on_request() {
    settle();
    let begun = Instant::now();
    let mut c = config();
    c.stop_on_error = true;
    let seen = live(&c, false, begun);
    assert_eq!(seen.result, Err(RunError::CommandFailed));
    assert_eq!(seen.started.len(), 1);
    assert!(seen.stalled || begun.elapsed() < Duration::from_millis(1500));
}
