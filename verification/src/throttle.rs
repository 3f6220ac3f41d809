//! Frame-rate ceiling of a tile worker.
//!
//! A tile worker encodes at most one frame per frame period, whatever the
//! rate at which frames reach it: a frame that arrives before one period of
//! the target rate has passed since the last successful encode is skipped
//! without being encoded. This is a drop by time, apart from the drop of a
//! frame that finds its channel full. A frame whose encoding fails does not
//! use up the period.
//!
//! Times are nanoseconds on a monotonic clock. The period of a rate is kept
//! as the least whole number of nanoseconds that is not shorter than it, so
//! that a frame is admitted exactly when a full period has passed.

use vstd::prelude::*;

verus! {

/// Nanoseconds in one second.
pub const NANOS_PER_SECOND: u64 = 1_000_000_000;

/// The interval between encodes for a ceiling of `target_fps` frames per
/// second: one frame period, `1 / target_fps` seconds, in nanoseconds and
/// rounded up.
pub open spec fn interval_for(target_fps: u32) -> int
    recommends
        target_fps > 0,
{
    (NANOS_PER_SECOND + target_fps - 1) / (target_fps as int)
}

/// Time passed from `last` to `now`; none if `now` lies before `last`.
pub open spec fn elapsed(last: u64, now: u64) -> int {
    if now >= last {
        now - last
    } else {
        0
    }
}

/// Whether a frame arriving at `now` may be encoded, the last successful
/// encode having been at `last`.
pub open spec fn admits(last: u64, interval: u64, now: u64) -> bool {
    elapsed(last, now) >= interval
}

/// The times of the successful encodes in a run of a worker.
///
/// Each frame is the time at which it arrives and whether encoding it, if it
/// comes to that, succeeds. A frame is skipped unless the throttle admits it;
/// an admitted frame that encodes successfully becomes the new `last`.
pub open spec fn encodes(last: u64, interval: u64, frames: Seq<(u64, bool)>) -> Seq<u64>
    decreases frames.len(),
{
    if frames.len() == 0 {
        seq![]
    } else {
        let (now, ok) = frames.first();
        if admits(last, interval, now) && ok {
            seq![now] + encodes(now, interval, frames.drop_first())
        } else {
            encodes(last, interval, frames.drop_first())
        }
    }
}

/// Whether the frames arrive in the order of the clock, none before `start`.
pub open spec fn in_clock_order(start: u64, frames: Seq<(u64, bool)>) -> bool {
    &&& forall|i: int| 0 <= i < frames.len() ==> start <= (#[trigger] frames[i]).0
    &&& forall|i: int, j: int|
        0 <= i <= j < frames.len() ==> (#[trigger] frames[i]).0 <= (#[trigger] frames[j]).0
}

/// The throttle of one worker: the interval it keeps and the time of its last
/// successful encode.
#[derive(Clone, Copy, Debug, PartialEq, Eq, Structural)]
pub struct Throttle {
    interval: u64,
    last: u64,
}

impl Throttle {
    /// The interval between encodes, in nanoseconds.
    pub closed spec fn spec_interval(&self) -> u64 {
        self.interval
    }

    /// The time of the last successful encode.
    pub closed spec fn spec_last(&self) -> u64 {
        self.last
    }

    /// A throttle for at most `target_fps` encodes per second, started at
    /// `now`: the first encode is due one interval later.
    pub fn new(target_fps: u32, now: u64) -> (throttle: Throttle)
        requires
            target_fps > 0,
        ensures
            throttle.spec_interval() == interval_for(target_fps),
            throttle.spec_last() == now,
    {
        let fps: u64 = target_fps as u64;
        Throttle { interval: (NANOS_PER_SECOND + fps - 1) / fps, last: now }
    }

    /// The interval between encodes, in nanoseconds.
    #[verifier::when_used_as_spec(spec_interval)]
    pub fn interval(&self) -> (interval: u64)
        ensures
            interval == self.spec_interval(),
    {
        self.interval
    }

    /// The time of the last successful encode.
    #[verifier::when_used_as_spec(spec_last)]
    pub fn last(&self) -> (last: u64)
        ensures
            last == self.spec_last(),
    {
        self.last
    }

    /// Decides whether a frame arriving at `now` may be encoded.
    pub fn admits(&self, now: u64) -> (admitted: bool)
        ensures
            admitted == admits(self.spec_last(), self.spec_interval(), now),
    {
        let waited: u64 = if now >= self.last {
            now - self.last
        } else {
            0
        };
        waited >= self.interval
    }

    /// Records a successful encode of the frame that arrived at `now`.
    pub fn mark(&mut self, now: u64)
        ensures
            final(self).spec_interval() == old(self).spec_interval(),
            final(self).spec_last() == now,
    {
        self.last = now;
    }
}

/// Every successful encode is a frame of the run whose encoding succeeds.
pub proof fn encodes_come_from_frames(last: u64, interval: u64, frames: Seq<(u64, bool)>, k: int)
    requires
        0 <= k < encodes(last, interval, frames).len(),
    ensures
        exists|i: int|
            0 <= i < frames.len() && (#[trigger] frames[i]).0 == encodes(last, interval, frames)[k]
                && frames[i].1,
    decreases frames.len(),
{
    let (now, ok) = frames.first();
    let rest = frames.drop_first();
    if admits(last, interval, now) && ok {
        if k == 0 {
            assert(frames[0].0 == encodes(last, interval, frames)[k]);
        } else {
            encodes_come_from_frames(now, interval, rest, k - 1);
            let i = choose|i: int|
                0 <= i < rest.len() && (#[trigger] rest[i]).0 == encodes(now, interval, rest)[k - 1]
                    && rest[i].1;
            assert(frames[i + 1] == rest[i]);
        }
    } else {
        encodes_come_from_frames(last, interval, rest, k);
        let i = choose|i: int|
            0 <= i < rest.len() && (#[trigger] rest[i]).0 == encodes(last, interval, rest)[k]
                && rest[i].1;
        assert(frames[i + 1] == rest[i]);
    }
}

/// The first successful encode of a run comes a full interval after the
/// point from which the throttle counts.
pub proof fn first_encode_waits(last: u64, interval: u64, frames: Seq<(u64, bool)>)
    requires
        in_clock_order(last, frames),
        encodes(last, interval, frames).len() > 0,
    ensures
        encodes(last, interval, frames)[0] - last >= interval,
    decreases frames.len(),
{
    let (now, ok) = frames.first();
    let rest = frames.drop_first();
    if admits(last, interval, now) && ok {
        assert(last <= frames[0].0);
    } else {
        assert forall|i: int| 0 <= i < rest.len() implies last <= (#[trigger] rest[i]).0 by {
            assert(rest[i] == frames[i + 1]);
        }
        assert forall|i: int, j: int| 0 <= i <= j < rest.len() implies (#[trigger] rest[i]).0 <= (
        #[trigger] rest[j]).0 by {
            assert(rest[i] == frames[i + 1]);
            assert(rest[j] == frames[j + 1]);
        }
        first_encode_waits(last, interval, rest);
    }
}

/// Successful encodes keep their distance: with frames arriving in clock
/// order, the `j`-th successful encode comes at least `j - i` intervals after
/// the `i`-th.
pub proof fn encodes_are_spaced(
    last: u64,
    interval: u64,
    frames: Seq<(u64, bool)>,
    i: int,
    j: int,
)
    requires
        in_clock_order(last, frames),
        0 <= i <= j < encodes(last, interval, frames).len(),
    ensures
        encodes(last, interval, frames)[j] - encodes(last, interval, frames)[i] >= (j - i)
            * interval,
    decreases frames.len(), j - i,
{
    let (now, ok) = frames.first();
    let rest = frames.drop_first();
    assert forall|a: int, b: int| 0 <= a <= b < rest.len() implies (#[trigger] rest[a]).0 <= (
    #[trigger] rest[b]).0 by {
        assert(rest[a] == frames[a + 1]);
        assert(rest[b] == frames[b + 1]);
    }
    if i == j {
        assert((j - i) * interval == 0) by (nonlinear_arith)
            requires
                i == j,
        ;
    } else if admits(last, interval, now) && ok {
        assert forall|a: int| 0 <= a < rest.len() implies now <= (#[trigger] rest[a]).0 by {
            assert(rest[a] == frames[a + 1]);
            assert(frames[0].0 <= frames[a + 1].0);
        }
        let run = encodes(last, interval, frames);
        let tail = encodes(now, interval, rest);
        assert(run =~= seq![now] + tail);
        if i == 0 {
            // From the encode at `now` to the first of the tail is one
            // interval; from there on the tail keeps its own distance.
            first_encode_waits(now, interval, rest);
            encodes_are_spaced(now, interval, rest, 0, j - 1);
            assert(run[j] == tail[j - 1]);
            assert(tail[0] - now >= interval);
            assert(tail[j - 1] - tail[0] >= (j - 1) * interval);
            assert((j - 1) * interval + interval == (j - 0) * interval) by (nonlinear_arith);
        } else {
            encodes_are_spaced(now, interval, rest, i - 1, j - 1);
            assert(run[i] == tail[i - 1]);
            assert(run[j] == tail[j - 1]);
        }
    } else {
        assert forall|a: int| 0 <= a < rest.len() implies last <= (#[trigger] rest[a]).0 by {
            assert(rest[a] == frames[a + 1]);
        }
        encodes_are_spaced(last, interval, rest, i, j);
    }
}

/// A worker's rate has a ceiling: the successful encodes that fall within
/// any stretch of time shorter than `window` number at most one more than the
/// intervals that fit into the window.
pub proof fn encodes_in_window_are_bounded(
    last: u64,
    interval: u64,
    frames: Seq<(u64, bool)>,
    i: int,
    j: int,
    window: nat,
)
    requires
        interval > 0,
        in_clock_order(last, frames),
        0 <= i <= j < encodes(last, interval, frames).len(),
        encodes(last, interval, frames)[j] - encodes(last, interval, frames)[i] < window,
    ensures
        j - i + 1 <= window / (interval as nat) + 1,
{
    encodes_are_spaced(last, interval, frames, i, j);
    let count = j - i;
    let d = interval as int;
    let w = window as int;
    assert(count <= w / d) by (nonlinear_arith)
        requires
            count * d < w,
            0 <= count,
            0 < d,
    ;
}

/// The interval of a rate is its frame period: a frame is admitted exactly
/// when the time since the last successful encode, taken `target_fps` times,
/// makes up a second. The interval is never zero, so there is a ceiling at
/// every rate.
pub proof fn interval_is_one_frame_period(target_fps: u32, last: u64, now: u64)
    requires
        target_fps > 0,
    ensures
        0 < interval_for(target_fps) <= NANOS_PER_SECOND,
        elapsed(last, now) >= interval_for(target_fps) <==> elapsed(last, now) * target_fps
            >= NANOS_PER_SECOND,
{
    let fps = target_fps as int;
    let second = NANOS_PER_SECOND as int;
    let interval = interval_for(target_fps);
    let waited = elapsed(last, now);
    // The interval is the least count of nanoseconds that, taken `fps`
    // times, makes up a second.
    assert(interval * fps >= second && (interval - 1) * fps < second && 0 < interval <= second)
        by (nonlinear_arith)
        requires
            interval == (second + fps - 1) / fps,
            fps > 0,
            second > 0,
    ;
    if waited >= interval {
        assert(waited * fps >= interval * fps) by (nonlinear_arith)
            requires
                waited >= interval,
                fps > 0,
        ;
    } else {
        assert(waited * fps <= (interval - 1) * fps) by (nonlinear_arith)
            requires
                waited <= interval - 1,
                fps > 0,
        ;
    }
}

/// No second sees more encodes than the ceiling allows: with a throttle for
/// `target_fps` frames per second, the successful encodes that lie less than
/// a second apart number at most `target_fps`.
pub proof fn encodes_per_second_stay_within_the_ceiling(
    target_fps: u32,
    last: u64,
    frames: Seq<(u64, bool)>,
    i: int,
    j: int,
)
    requires
        target_fps > 0,
        in_clock_order(last, frames),
        0 <= i <= j < encodes(last, interval_for(target_fps) as u64, frames).len(),
        encodes(last, interval_for(target_fps) as u64, frames)[j] - encodes(
            last,
            interval_for(target_fps) as u64,
            frames,
        )[i] < NANOS_PER_SECOND,
    ensures
        j - i + 1 <= target_fps,
{
    interval_is_one_frame_period(target_fps, 0, 0);
    let interval = interval_for(target_fps) as u64;
    encodes_are_spaced(last, interval, frames, i, j);
    let count = j - i;
    let fps = target_fps as int;
    let second = NANOS_PER_SECOND as int;
    let d = interval as int;
    assert(d * fps >= second) by (nonlinear_arith)
        requires
            d == (second + fps - 1) / fps,
            fps > 0,
            second > 0,
    ;
    assert(count < fps) by (nonlinear_arith)
        requires
            count * d < second,
            d * fps >= second,
            0 <= count,
            0 < d,
            0 < fps,
    ;
}

} // verus!
