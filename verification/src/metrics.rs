//! The metrics clock's formulas and its per-tick decision.
//!
//! A periodic loop in the surrounding program samples the shared keystroke
//! counters every half second, hands the snapshot to [`clock_tick`], and
//! either reports the derived metrics or stops the session when the
//! configured duration has elapsed.

use vstd::prelude::*;

verus! {

/// Words per minute by the five-characters-per-word convention:
/// `floor(typed / 5 / minutes)` with `minutes == elapsed_secs / 60`, which
/// over the integers is `floor(typed * 12 / elapsed_secs)`; zero before any
/// time has elapsed.
pub open spec fn spec_wpm(typed: int, elapsed_secs: int) -> int {
    if elapsed_secs == 0 {
        0
    } else {
        (typed * 12) / elapsed_secs
    }
}

/// Accuracy percentage: `floor(100 * (typed - errors) / typed)`. An empty
/// sample counts as perfect; a sample with more errors than keystrokes
/// (the two counters are read in separate loads, so a snapshot may pair a
/// fresh error count with a stale typed count) floors at zero.
pub open spec fn spec_accuracy(typed: int, errors: int) -> int {
    if typed == 0 {
        100
    } else if errors >= typed {
        0
    } else {
        (100 * (typed - errors)) / typed
    }
}

/// Seconds still to run: the total duration less the elapsed time, floored
/// at zero.
pub open spec fn spec_remaining(total_secs: int, elapsed_secs: int) -> int {
    if elapsed_secs >= total_secs {
        0
    } else {
        total_secs - elapsed_secs
    }
}

/// What the metrics clock does on one sampling tick.
#[derive(Clone, Copy, PartialEq, Eq, Structural, Debug)]
pub enum ClockTick {
    /// The configured duration has elapsed: flip the shared active flag off
    /// and leave the loop on this very tick.
    Expired,
    /// Still running: report these live metrics.
    Report { wpm: u64, accuracy: u16, remaining_secs: u64 },
}

/// Live words-per-minute from the typed-character counter.
pub fn compute_wpm(typed: u16, elapsed_secs: u64) -> (wpm: u64)
    ensures
        wpm == spec_wpm(typed as int, elapsed_secs as int),
{
    if elapsed_secs == 0 {
        0
    } else {
        (typed as u64) * 12 / elapsed_secs
    }
}

/// Live accuracy percentage from the two keystroke counters.
pub fn compute_accuracy(typed: u16, errors: u16) -> (acc: u16)
    ensures
        acc == spec_accuracy(typed as int, errors as int),
{
    if typed == 0 {
        100
    } else if errors >= typed {
        0
    } else {
        let diff: u32 = (typed - errors) as u32;
        let num: u32 = 100 * diff;
        let acc32: u32 = num / (typed as u32);
        assert(acc32 <= 100) by (nonlinear_arith)
            requires
                num == 100 * diff,
                acc32 == num / (typed as u32),
                0 < diff <= typed as u32,
        ;
        acc32 as u16
    }
}

/// Whole seconds still to run, for the MM:SS display.
pub fn remaining_secs(total_secs: u64, elapsed_secs: u64) -> (r: u64)
    ensures
        r == spec_remaining(total_secs as int, elapsed_secs as int),
{
    if elapsed_secs >= total_secs {
        0
    } else {
        total_secs - elapsed_secs
    }
}

/// Splits a second count into the minutes and seconds of an MM:SS display.
pub fn remaining_mmss(remaining: u64) -> (r: (u64, u64))
    ensures
        r.0 == remaining as int / 60,
        r.1 == remaining as int % 60,
{
    (remaining / 60, remaining % 60)
}

/// One sampling tick of the metrics clock: expires the session exactly when
/// the elapsed time has reached the total duration — on that same tick, not
/// one later — and otherwise derives the metrics to report.
pub fn clock_tick(elapsed_secs: u64, total_secs: u64, typed: u16, errors: u16) -> (t: ClockTick)
    ensures
        elapsed_secs >= total_secs <==> t == ClockTick::Expired,
        elapsed_secs < total_secs ==> t == (ClockTick::Report {
            wpm: spec_wpm(typed as int, elapsed_secs as int) as u64,
            accuracy: spec_accuracy(typed as int, errors as int) as u16,
            remaining_secs: (total_secs - elapsed_secs) as u64,
        }),
{
    if elapsed_secs >= total_secs {
        ClockTick::Expired
    } else {
        ClockTick::Report {
            wpm: compute_wpm(typed, elapsed_secs),
            accuracy: compute_accuracy(typed, errors),
            remaining_secs: total_secs - elapsed_secs,
        }
    }
}

/// The boundary laws of the metrics formulas: before any time has elapsed
/// the speed is zero, and before any keystroke the accuracy is perfect.
pub proof fn lemma_metrics_at_start(typed: int, errors: int)
    ensures
        spec_wpm(typed, 0) == 0,
        spec_accuracy(0, errors) == 100,
{
}

} // verus!
