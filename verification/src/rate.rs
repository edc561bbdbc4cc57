//! Rate estimation: from two successive counter readings to a utilization
//! percentage.
//!
//! The counter and the clock both count whole milliseconds, so a percentage
//! is kept as an exact fraction instead of being rounded.

use vstd::prelude::*;

verus! {

/// A reading of the sampling clock, in whole milliseconds.
#[derive(Clone, Copy, Debug, PartialEq, Eq, Structural)]
pub struct Timestamp {
    pub millis: u64,
}

impl Timestamp {
    /// Milliseconds from `earlier` to `self`; zero when the clock did not
    /// move forward.
    pub open spec fn elapsed_since(self, earlier: Timestamp) -> int {
        if self.millis > earlier.millis {
            self.millis - earlier.millis
        } else {
            0
        }
    }

    /// Milliseconds from `earlier` to `self`.  A clock that stood still or
    /// ran backwards yields zero, never a negative span.
    pub fn millis_since(self, earlier: Timestamp) -> (elapsed: u64)
        ensures
            elapsed == self.elapsed_since(earlier),
    {
        if self.millis > earlier.millis {
            self.millis - earlier.millis
        } else {
            0
        }
    }
}

/// A utilization percentage, kept as the exact fraction
/// `numerator / denominator`.
///
/// The value is not clamped: a counter that went backwards gives a negative
/// percentage, and one that ran ahead of the clock gives more than 100.
#[derive(Clone, Copy, Debug, PartialEq, Eq, Structural)]
pub struct Percentage {
    pub numerator: i128,
    pub denominator: u64,
}

impl Percentage {
    /// A percentage can be turned into a quotient: its denominator is not zero.
    pub open spec fn wf(self) -> bool {
        self.denominator > 0
    }

    /// The percentage that stands for "no utilization measured".
    pub open spec fn spec_zero() -> Percentage {
        Percentage { numerator: 0, denominator: 1 }
    }

    /// Zero percent.
    pub fn zero() -> (p: Percentage)
        ensures
            p == Self::spec_zero(),
    {
        Percentage { numerator: 0, denominator: 1 }
    }
}

/// What the estimator remembers from one tick to the next.
#[derive(Clone, Copy, Debug, PartialEq, Eq, Structural)]
pub struct EstimatorState {
    /// The counter value of the previous tick.
    pub previous_raw: u64,
    /// When the previous tick was taken.
    pub previous_instant: Timestamp,
}

/// The percentage for a counter that moved from `previous_raw` to
/// `current_raw` while `elapsed_ms` milliseconds passed: the counter's change
/// as a share of the elapsed time, and zero when no time passed.
pub open spec fn rate_between(previous_raw: u64, current_raw: u64, elapsed_ms: int) -> Percentage {
    if 0 < elapsed_ms <= u64::MAX {
        Percentage {
            numerator: (100 * (current_raw - previous_raw)) as i128,
            denominator: elapsed_ms as u64,
        }
    } else {
        Percentage::spec_zero()
    }
}

impl EstimatorState {
    /// The state a monitor starts from: a counter of zero, read at `now`.
    pub open spec fn spec_initial(now: Timestamp) -> EstimatorState {
        EstimatorState { previous_raw: 0, previous_instant: now }
    }

    /// The state at startup.
    pub fn initial(now: Timestamp) -> (state: EstimatorState)
        ensures
            state == Self::spec_initial(now),
    {
        EstimatorState { previous_raw: 0, previous_instant: now }
    }

    /// The percentage that a reading of `current_raw` at `now` yields.
    pub open spec fn percentage_at(self, current_raw: u64, now: Timestamp) -> Percentage {
        rate_between(self.previous_raw, current_raw, now.elapsed_since(self.previous_instant))
    }

    /// The state after a reading of `current_raw` at `now`: the reading
    /// becomes the baseline, whatever it was.
    pub open spec fn advanced(self, current_raw: u64, now: Timestamp) -> EstimatorState {
        EstimatorState { previous_raw: current_raw, previous_instant: now }
    }

    /// Derives the utilization since the previous tick and advances the
    /// baseline to this reading.
    ///
    /// The baseline moves on every call, also when `current_raw` is the zero
    /// that stands for a failed read.
    pub fn derive(self, current_raw: u64, now: Timestamp) -> (out: (Percentage, EstimatorState))
        ensures
            out.0 == self.percentage_at(current_raw, now),
            out.1 == self.advanced(current_raw, now),
            out.0.wf(),
    {
        let elapsed_ms: u64 = now.millis_since(self.previous_instant);
        let percentage = if elapsed_ms > 0 {
            let current: i128 = current_raw as i128;
            let previous: i128 = self.previous_raw as i128;
            let delta_counter: i128 = current - previous;
            Percentage { numerator: 100 * delta_counter, denominator: elapsed_ms }
        } else {
            Percentage::zero()
        };
        (percentage, EstimatorState { previous_raw: current_raw, previous_instant: now })
    }
}

/// Between two readings taken at different times, the percentage is the
/// counter's change divided by the elapsed milliseconds, times one hundred:
/// `percentage * (t2 - t1) == 100 * (r2 - r1)`.
///
/// The first reading may be taken from any state; only the two readings
/// decide the result.
pub proof fn lemma_rate_is_counter_change_over_time(
    state: EstimatorState,
    r1: u64,
    t1: Timestamp,
    r2: u64,
    t2: Timestamp,
)
    requires
        t2.millis > t1.millis,
    ensures
        ({
            let after_first = state.advanced(r1, t1);
            let percentage = after_first.percentage_at(r2, t2);
            &&& percentage.numerator == 100 * (r2 - r1)
            &&& percentage.denominator == t2.millis - t1.millis
            &&& percentage.wf()
        }),
{
}

/// When the clock did not move forward between two ticks, the percentage is
/// zero and still a well-formed fraction: nothing is divided by zero.
pub proof fn lemma_rate_is_zero_without_elapsed_time(
    state: EstimatorState,
    current_raw: u64,
    now: Timestamp,
)
    requires
        now.millis <= state.previous_instant.millis,
    ensures
        state.percentage_at(current_raw, now) == Percentage::spec_zero(),
        state.percentage_at(current_raw, now).wf(),
{
}

} // verus!
