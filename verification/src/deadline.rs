//! Soft deadlines of the pipeline's stages.
//!
//! Each timed stage has a budget. A stage that takes longer than its budget
//! has overrun: that is counted and told to the caller, who reports it. An
//! overrun is a measurement, never an error, and changes nothing in what the
//! pipeline does next.

use crate::count::{bump, count_up};
use vstd::prelude::*;

verus! {

/// Pixels in one megapixel.
pub const PIXELS_PER_MEGAPIXEL: u64 = 1_000_000;

/// Nanoseconds in one second.
pub const NANOS_PER_SECOND: u64 = 1_000_000_000;

/// How the budget of a stage is set.
#[derive(Clone, Copy, Debug, PartialEq, Eq, Structural)]
pub enum Budget {
    /// The same time for every frame, in nanoseconds.
    Fixed(u64),
    /// Time in proportion to the frame's size: so many nanoseconds for every
    /// million pixels.
    PerMegapixel(u64),
}

/// The least of `value` and the largest `u64`.
pub open spec fn capped(value: int) -> u64 {
    if value <= u64::MAX {
        value as u64
    } else {
        u64::MAX
    }
}

impl Budget {
    /// The time allowed for a frame of `width` x `height` pixels, in
    /// nanoseconds: rounded down, and no more than a `u64` can say.
    pub open spec fn limit(self, width: u32, height: u32) -> u64 {
        match self {
            Budget::Fixed(nanos) => nanos,
            Budget::PerMegapixel(nanos) => capped(
                (nanos * (width * height)) / (PIXELS_PER_MEGAPIXEL as int),
            ),
        }
    }

    /// The budget of one frame period at `fps` frames per second.
    pub fn frame_period(fps: u32) -> (budget: Budget)
        requires
            fps > 0,
        ensures
            budget == Budget::Fixed((NANOS_PER_SECOND / fps as u64) as u64),
    {
        Budget::Fixed(NANOS_PER_SECOND / (fps as u64))
    }

    /// The time allowed for a frame of `width` x `height` pixels.
    pub fn limit_for(&self, width: u32, height: u32) -> (limit: u64)
        ensures
            limit == self.limit(width, height),
    {
        match self {
            Budget::Fixed(nanos) => *nanos,
            Budget::PerMegapixel(nanos) => {
                assert(width * height <= 0xFFFF_FFFF * 0xFFFF_FFFF) by (nonlinear_arith)
                    requires
                        0 <= width <= 0xFFFF_FFFF,
                        0 <= height <= 0xFFFF_FFFF,
                ;
                let pixels: u128 = (width as u128) * (height as u128);
                assert(nanos * pixels <= 0xFFFF_FFFF_FFFF_FFFF * (0xFFFF_FFFF * 0xFFFF_FFFF))
                    by (nonlinear_arith)
                    requires
                        0 <= *nanos <= 0xFFFF_FFFF_FFFF_FFFF,
                        0 <= pixels <= 0xFFFF_FFFF * 0xFFFF_FFFF,
                ;
                let scaled: u128 = (*nanos as u128) * pixels / (PIXELS_PER_MEGAPIXEL as u128);
                if scaled <= u64::MAX as u128 {
                    scaled as u64
                } else {
                    u64::MAX
                }
            },
        }
    }
}

/// The tally of one stage: how often it ran, how often it overran, and the
/// longest it took.
#[derive(Clone, Copy, Debug, PartialEq, Eq, Structural)]
pub struct DeadlineMonitor {
    /// The budget that the stage is held to.
    pub budget: Budget,
    /// Runs of the stage that were measured.
    pub measured: u64,
    /// Runs that took longer than the budget.
    pub overruns: u64,
    /// The longest run, in nanoseconds.
    pub longest: u64,
}

impl DeadlineMonitor {
    /// Whether a run of `elapsed` nanoseconds on a frame of `width` x
    /// `height` pixels is over the budget.
    pub open spec fn overrun(self, elapsed: u64, width: u32, height: u32) -> bool {
        elapsed > self.budget.limit(width, height)
    }

    /// The tally after such a run.
    pub open spec fn after(self, elapsed: u64, width: u32, height: u32) -> DeadlineMonitor {
        DeadlineMonitor {
            budget: self.budget,
            measured: bump(self.measured),
            overruns: if self.overrun(elapsed, width, height) {
                bump(self.overruns)
            } else {
                self.overruns
            },
            longest: if elapsed > self.longest {
                elapsed
            } else {
                self.longest
            },
        }
    }

    /// A monitor that has measured nothing.
    pub fn new(budget: Budget) -> (monitor: DeadlineMonitor)
        ensures
            monitor == (DeadlineMonitor { budget, measured: 0, overruns: 0, longest: 0 }),
    {
        DeadlineMonitor { budget, measured: 0, overruns: 0, longest: 0 }
    }

    /// Takes the measurement of one run of the stage and says whether it was
    /// over the budget.
    pub fn check(&mut self, elapsed: u64, width: u32, height: u32) -> (late: bool)
        ensures
            late == old(self).overrun(elapsed, width, height),
            *final(self) == old(self).after(elapsed, width, height),
    {
        let late = elapsed > self.budget.limit_for(width, height);
        self.measured = count_up(self.measured);
        if late {
            self.overruns = count_up(self.overruns);
        }
        if elapsed > self.longest {
            self.longest = elapsed;
        }
        late
    }
}

/// A stage is never counted as late more often than it was measured, as long
/// as the count of measurements has not reached its limit.
pub proof fn overruns_stay_within_measurements(
    monitor: DeadlineMonitor,
    elapsed: u64,
    width: u32,
    height: u32,
)
    requires
        monitor.overruns <= monitor.measured,
        monitor.measured < u64::MAX,
    ensures
        monitor.after(elapsed, width, height).overruns <= monitor.after(
            elapsed,
            width,
            height,
        ).measured,
        monitor.after(elapsed, width, height).longest >= elapsed,
        monitor.after(elapsed, width, height).longest >= monitor.longest,
{
}

} // verus!
