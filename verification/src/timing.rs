//! Timing arithmetic of the periodic tasks: jitter, deadlines, overruns and
//! the share of a period that work takes. Durations and instants are counted
//! in microseconds.

use vstd::prelude::*;

use crate::units::{ms, us};

verus! {

/// Period of the control loop: 1 ms.
pub const CONTROL_LOOP_INTERVAL: u64 = 1_000;

/// Period of the sensor readings: 10 ms.
pub const SENSOR_INTERVAL: u64 = 10_000;

/// Period of the display updates: 33 ms.
pub const UI_INTERVAL: u64 = 33_000;

/// Period of the housekeeping: 1 s.
pub const HOUSEKEEPING_INTERVAL: u64 = 1_000_000;

/// Overruns in a row after which the robust task enters its safe mode.
pub const MAX_OVERRUNS: u32 = 5;

/// `std::hint::black_box`: the value itself, opaque to the optimiser.
#[verifier::external_body]
fn opaque(x: i32) -> (r: i32)
    ensures
        r == x,
{
    std::hint::black_box(x)
}

/// How far an elapsed time lies from the expected one.
pub fn jitter(elapsed: u64, expected: u64) -> (r: u64)
    ensures
        r == if elapsed > expected {
            elapsed - expected
        } else {
            expected - elapsed
        },
{
    if elapsed > expected {
        elapsed - expected
    } else {
        expected - elapsed
    }
}

/// The largest jitter seen, and whether `jitter` is a new maximum.
pub fn track_max_jitter(max_jitter: u64, jitter: u64) -> (r: (u64, bool))
    ensures
        r.1 == (jitter > max_jitter),
        r.0 == if jitter > max_jitter {
            jitter
        } else {
            max_jitter
        },
{
    if jitter > max_jitter {
        (jitter, true)
    } else {
        (max_jitter, false)
    }
}

/// The next deadline of the adaptive task: one interval later, or one
/// interval after `now` where the work overran that deadline.
pub fn next_deadline(deadline: u64, interval: u64, now: u64) -> (r: (u64, bool))
    requires
        deadline + interval <= u64::MAX,
        now + interval <= u64::MAX,
    ensures
        r.1 == (deadline + interval < now),
        r.0 == if deadline + interval < now {
            now + interval
        } else {
            deadline + interval
        },
{
    let next = deadline + interval;
    if next < now {
        (now + interval, true)
    } else {
        (next, false)
    }
}

/// What the robust task does after a period.
#[derive(Debug, Clone, Copy, PartialEq, Eq, Structural)]
pub enum OverrunAction {
    /// Go on.
    Continue,
    /// Log the overrun and go on.
    Warn,
    /// Enter the safe mode.
    EnterSafeMode,
}

/// Counts work timeouts in a row: a period on time clears the count; more
/// than [`MAX_OVERRUNS`] in a row enter the safe mode and clear the count.
pub fn overrun_step(consecutive_overruns: u32, timed_out: bool) -> (r: (u32, OverrunAction))
    requires
        consecutive_overruns <= MAX_OVERRUNS,
    ensures
        !timed_out ==> r == (0u32, OverrunAction::Continue),
        timed_out && consecutive_overruns + 1 > MAX_OVERRUNS ==> r == (
            0u32,
            OverrunAction::EnterSafeMode,
        ),
        timed_out && consecutive_overruns + 1 <= MAX_OVERRUNS ==> r == (
            (consecutive_overruns + 1) as u32,
            OverrunAction::Warn,
        ),
        r.0 <= MAX_OVERRUNS,
{
    if timed_out {
        let overruns = consecutive_overruns + 1;
        if overruns > MAX_OVERRUNS {
            (0, OverrunAction::EnterSafeMode)
        } else {
            (overruns, OverrunAction::Warn)
        }
    } else {
        (0, OverrunAction::Continue)
    }
}

/// Duration of the simulated work of the `counter`-th period: 1 to 10 ms.
pub fn variable_work_delay(counter: u32) -> (r: u64)
    ensures
        r == (1 + counter % 10) * 1000,
        1_000 <= r <= 10_000,
{
    ms((1 + (counter % 10)) as u64)
}

/// Percentage of a period that work takes, rounded down.
pub fn utilization(work: u64, period: u64) -> (r: u64)
    requires
        period > 0,
        work * 100 <= u64::MAX,
    ensures
        r == (work * 100) / (period as int),
{
    (work * 100) / period
}

/// Utilisation of the control loop, the sensor loop and the display loop
/// in the timing budget: 50 µs of 100 µs, 500 µs of 1 ms, 10 ms of 33 ms.
pub fn analyze_timing_budget() -> (r: (u64, u64, u64))
    ensures
        r == (50u64, 50u64, 30u64),
{
    let control_period = us(100);
    let sensor_period = ms(1);
    let ui_period = ms(33);
    let control_work = us(50);
    let sensor_work = us(500);
    let ui_work = ms(10);
    let control_util = utilization(control_work, control_period);
    let sensor_util = utilization(sensor_work, sensor_period);
    let ui_util = utilization(ui_work / 1000, ui_period / 1000);
    (control_util, sensor_util, ui_util)
}

/// The critical work of the 1 kHz task: a hundred opaque steps.
pub fn fast_critical_work() {
    let mut i: u32 = 0;
    while i < 100
        invariant
            i <= 100,
        decreases 100 - i,
    {
        opaque(42);
        i += 1;
    }
}

/// The control step of the 10 kHz loop: ten opaque steps.
pub fn control_step() {
    let mut i: u32 = 0;
    while i < 10
        invariant
            i <= 10,
        decreases 10 - i,
    {
        opaque(42);
        i += 1;
    }
}

/// The control step of the 1 kHz loop, which does nothing yet.
pub fn fast_control_step() {
}

} // verus!
