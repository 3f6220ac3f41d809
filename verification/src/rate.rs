//! Sliding-window frame rate estimation.
//!
//! The estimator keeps the last `N` intervals between frames, in nanoseconds,
//! in a circular history. The rate it reports is `N` frames per sum of the
//! history, kept as an exact ratio. Slots that were never written hold zero,
//! so the rate reads high until the history has been filled once.

use vstd::arithmetic::div_mod::{lemma_mod_self_0, lemma_small_mod};
use vstd::prelude::*;

verus! {

/// Nanoseconds in one second.
pub const NANOS_PER_SECOND: u64 = 1_000_000_000;

/// Sum of a history of intervals.
pub open spec fn total(intervals: Seq<u64>) -> nat
    decreases intervals.len(),
{
    if intervals.len() == 0 {
        0
    } else {
        total(intervals.drop_last()) + intervals.last() as nat
    }
}

/// A frame rate as an exact ratio: `frames` frames in `nanos` nanoseconds.
#[derive(Clone, Copy, Debug, PartialEq, Eq, Structural)]
pub struct FrameRate {
    /// Number of intervals that were summed.
    pub frames: u64,
    /// Sum of those intervals, in nanoseconds.
    pub nanos: u128,
}

/// The rate that a history of intervals stands for.
pub open spec fn rate_of(intervals: Seq<u64>) -> FrameRate {
    FrameRate { frames: intervals.len() as u64, nanos: total(intervals) as u128 }
}

impl FrameRate {
    /// Whether the rate is strictly below nine tenths of `target_fps` frames
    /// per second. A rate over no time at all is not below anything.
    pub open spec fn low_for(self, target_fps: u32) -> bool {
        10 * NANOS_PER_SECOND * self.frames < (9 * target_fps) * self.nanos
    }

    /// The rate in thousandths of a frame per second, rounded down; none
    /// where no time has passed.
    pub open spec fn milli(self) -> Option<int> {
        if self.nanos == 0 {
            None
        } else {
            Some((1000 * NANOS_PER_SECOND * self.frames) / (self.nanos as int))
        }
    }

    /// Decides whether the rate has dropped below nine tenths of
    /// `target_fps`, the point at which capture is reported as slow.
    pub fn is_low(&self, target_fps: u32) -> (low: bool)
        ensures
            low == self.low_for(target_fps),
    {
        let weight: u128 = 9 * (target_fps as u128);
        if weight == 0 {
            proof {
                assert(weight * self.nanos == 0) by (nonlinear_arith)
                    requires
                        weight == 0,
                ;
            }
            return false;
        }
        let scaled: u128 = 10_000_000_000 * (self.frames as u128);
        proof {
            lemma_quotient_below(scaled as int, weight as int, self.nanos as int);
        }
        scaled / weight < self.nanos
    }

    /// The rate in thousandths of a frame per second, rounded down.
    pub fn milli_fps(&self) -> (milli: Option<u128>)
        ensures
            milli is Some <==> self.milli() is Some,
            milli matches Some(m) ==> self.milli() == Some(m as int),
    {
        if self.nanos == 0 {
            None
        } else {
            let scaled: u128 = 1_000_000_000_000 * (self.frames as u128);
            Some(scaled / self.nanos)
        }
    }
}

/// For a positive divisor, a quotient is below a bound exactly when the
/// dividend is below the bound's multiple.
proof fn lemma_quotient_below(a: int, d: int, n: int)
    requires
        0 <= a,
        0 < d,
    ensures
        (a / d < n) <==> (a < d * n),
{
    let q = a / d;
    let r = a % d;
    assert(a == d * q + r && 0 <= r < d) by (nonlinear_arith)
        requires
            q == a / d,
            r == a % d,
            0 < d,
    ;
    if q < n {
        assert(d * q + d <= d * n) by (nonlinear_arith)
            requires
                q + 1 <= n,
                0 < d,
        ;
    } else {
        assert(d * n <= d * q) by (nonlinear_arith)
            requires
                n <= q,
                0 < d,
        ;
    }
}

/// No interval is more than the largest `u64`, so a history's sum is at most
/// that many times its length.
pub proof fn total_is_bounded(intervals: Seq<u64>)
    ensures
        total(intervals) <= intervals.len() * u64::MAX,
    decreases intervals.len(),
{
    if intervals.len() > 0 {
        total_is_bounded(intervals.drop_last());
        let n = intervals.len() as int;
        assert((n - 1) * u64::MAX + u64::MAX == n * u64::MAX) by (nonlinear_arith);
    }
}

/// Overwriting one slot changes the sum by the difference between the new
/// interval and the one it replaces.
pub proof fn total_after_update(intervals: Seq<u64>, slot: int, interval: u64)
    requires
        0 <= slot < intervals.len(),
    ensures
        total(intervals.update(slot, interval)) == total(intervals) - intervals[slot] + interval,
    decreases intervals.len(),
{
    let updated = intervals.update(slot, interval);
    if slot == intervals.len() - 1 {
        assert(updated.drop_last() =~= intervals.drop_last());
    } else {
        total_after_update(intervals.drop_last(), slot, interval);
        assert(updated.drop_last() =~= intervals.drop_last().update(slot, interval));
    }
}

/// A history in which every interval is `interval` sums to that interval
/// times its length: once the window is full of a steady cadence, the rate is
/// exactly one frame per `interval`.
pub proof fn steady_history_total(intervals: Seq<u64>, interval: u64)
    requires
        forall|i: int| 0 <= i < intervals.len() ==> intervals[i] == interval,
    ensures
        total(intervals) == intervals.len() * interval,
    decreases intervals.len(),
{
    if intervals.len() > 0 {
        steady_history_total(intervals.drop_last(), interval);
        let n = intervals.len() as int;
        assert((n - 1) * interval + interval == n * interval) by (nonlinear_arith);
    }
}

/// The state of an estimator: its history and the slot written next.
pub struct RateView {
    pub history: Seq<u64>,
    pub index: nat,
}

impl RateView {
    /// The state after one more interval: it overwrites the slot under the
    /// cursor, and the cursor moves on, back to the start after the last slot.
    pub open spec fn record(self, interval: u64) -> RateView {
        RateView {
            history: self.history.update(self.index as int, interval),
            index: (self.index + 1) % self.history.len(),
        }
    }
}

/// Fixed-size circular history of inter-frame intervals with a write cursor.
pub struct RateEstimator {
    history: Vec<u64>,
    index: usize,
}

impl View for RateEstimator {
    type V = RateView;

    closed spec fn view(&self) -> RateView {
        RateView { history: self.history@, index: self.index as nat }
    }
}

impl RateEstimator {
    /// The history is not empty and the cursor points into it.
    pub open spec fn well_formed(&self) -> bool {
        self@.history.len() > 0 && self@.index < self@.history.len()
    }

    /// An estimator over the last `size` intervals, all still zero.
    pub fn new(size: usize) -> (estimator: RateEstimator)
        requires
            size > 0,
        ensures
            estimator.well_formed(),
            estimator@.index == 0,
            estimator@.history.len() == size,
            forall|i: int| 0 <= i < size ==> estimator@.history[i] == 0,
    {
        let mut history: Vec<u64> = Vec::new();
        let mut filled: usize = 0;
        while filled < size
            invariant
                filled <= size,
                history@.len() == filled,
                forall|i: int| 0 <= i < filled ==> history@[i] == 0,
            decreases size - filled,
        {
            history.push(0);
            filled = filled + 1;
        }
        RateEstimator { history, index: 0 }
    }

    /// Number of intervals in the window.
    pub fn len(&self) -> (len: usize)
        ensures
            len == self@.history.len(),
    {
        self.history.len()
    }

    /// The rate over the window as it stands.
    pub fn rate(&self) -> (rate: FrameRate)
        ensures
            rate == rate_of(self@.history),
    {
        let mut nanos: u128 = 0;
        let mut i: usize = 0;
        while i < self.history.len()
            invariant
                i <= self.history.len(),
                nanos == total(self.history@.take(i as int)),
            decreases self.history.len() - i,
        {
            proof {
                let next = self.history@.take(i + 1);
                assert(next.drop_last() =~= self.history@.take(i as int));
                total_is_bounded(next);
                assert(next.len() * u64::MAX <= u128::MAX) by (nonlinear_arith)
                    requires
                        next.len() <= u64::MAX,
                ;
            }
            nanos = nanos + self.history[i] as u128;
            i = i + 1;
        }
        proof {
            assert(self.history@.take(i as int) =~= self.history@);
        }
        FrameRate { frames: self.history.len() as u64, nanos }
    }

    /// Records the interval since the previous frame and returns the rate
    /// over the window that results.
    pub fn record(&mut self, interval_nanos: u64) -> (rate: FrameRate)
        requires
            old(self).well_formed(),
        ensures
            final(self).well_formed(),
            final(self)@ == old(self)@.record(interval_nanos),
            rate == rate_of(final(self)@.history),
    {
        let len = self.history.len();
        self.history[self.index] = interval_nanos;
        self.index = if self.index + 1 == len {
            0
        } else {
            self.index + 1
        };
        proof {
            let next = old(self)@.index + 1;
            if next == len {
                lemma_mod_self_0(len as int);
            } else {
                lemma_small_mod(next, len as nat);
            }
        }
        self.rate()
    }
}

/// Takes the time of a new frame: records the interval since `prev`, moves
/// `prev` to `now` and returns the rate over the window.
///
/// Times are nanoseconds on a monotonic clock; should `now` lie before
/// `prev`, the interval counts as zero.
pub fn update_fps(prev: &mut u64, now: u64, estimator: &mut RateEstimator) -> (rate: FrameRate)
    requires
        old(estimator).well_formed(),
    ensures
        *final(prev) == now,
        final(estimator).well_formed(),
        final(estimator)@ == old(estimator)@.record(
            if now >= *old(prev) {
                (now - *old(prev)) as u64
            } else {
                0
            },
        ),
        rate == rate_of(final(estimator)@.history),
{
    let elapsed: u64 = if now >= *prev {
        now - *prev
    } else {
        0
    };
    *prev = now;
    estimator.record(elapsed)
}

} // verus!
