//! What capture does with each frame.
//!
//! Capture reads one frame after another from the camera. For every frame it
//! takes the time for the rate estimate, publishes the raw export, and offers
//! a duplicate of the frame to every active sink. None of this waits for a
//! sink: a sink that is not ready loses the frame, and capture goes on.
//!
//! Reading the camera and publishing are the caller's. The state that capture
//! keeps from frame to frame, and what becomes of it with each frame, is here.

use crate::channel::{fan_out, Delivery, SinkChannel, SinkReceiver, SinkStats};
use crate::rate::{rate_of, update_fps, FrameRate, RateEstimator, RateView};
use crate::sink::{active_sinks, registry, SinkFlags, SinkKind, TILE_SINK_CAPACITY};
use vstd::layout::size_of;
use vstd::prelude::*;

verus! {

/// Number of intervals over which the capture rate is estimated.
pub const HISTORY_LEN: usize = 60;

/// The capture rate that the sensor is expected to deliver, in frames per
/// second.
pub const NOMINAL_FPS: u32 = 30;

/// Opens the channels of all active sinks, in the order in which each frame
/// is offered to them, and returns the sending ends and the receiving ends.
pub fn open_sinks<T>(flags: &SinkFlags) -> (ends: (Vec<SinkChannel<T>>, Vec<SinkReceiver<T>>))
    requires
        TILE_SINK_CAPACITY * size_of::<T>() <= isize::MAX,
    ensures
        ends.0.len() == active_sinks(*flags).len(),
        ends.1.len() == active_sinks(*flags).len(),
        forall|i: int|
            0 <= i < ends.0.len() ==> {
                &&& (#[trigger] ends.0[i]).kind() == active_sinks(*flags)[i]
                &&& ends.0[i].stats() == SinkStats::zero()
            },
        forall|i: int|
            0 <= i < ends.1.len() ==> (#[trigger] ends.1[i]).kind() == active_sinks(*flags)[i],
{
    let entries = registry(flags);
    let mut senders: Vec<SinkChannel<T>> = Vec::new();
    let mut receivers: Vec<SinkReceiver<T>> = Vec::new();
    let mut i: usize = 0;
    while i < entries.len()
        invariant
            i <= entries.len(),
            entries@.len() == active_sinks(*flags).len(),
            forall|k: int| 0 <= k < entries.len() ==> (#[trigger] entries[k]).kind == active_sinks(
                *flags,
            )[k],
            TILE_SINK_CAPACITY * size_of::<T>() <= isize::MAX,
            senders.len() == i,
            receivers.len() == i,
            forall|k: int|
                0 <= k < i ==> {
                    &&& (#[trigger] senders[k]).kind() == active_sinks(*flags)[k]
                    &&& senders[k].stats() == SinkStats::zero()
                },
            forall|k: int| 0 <= k < i ==> (#[trigger] receivers[k]).kind() == active_sinks(*flags)[k],
        decreases entries.len() - i,
    {
        let kind = entries[i].kind;
        assert(kind.spec_capacity() * size_of::<T>() <= isize::MAX) by (nonlinear_arith)
            requires
                kind.spec_capacity() <= TILE_SINK_CAPACITY,
                TILE_SINK_CAPACITY * size_of::<T>() <= isize::MAX,
        ;
        let (tx, rx) = SinkChannel::open(kind);
        senders.push(tx);
        receivers.push(rx);
        i = i + 1;
    }
    (senders, receivers)
}

/// What capture has to report of one frame.
pub struct FrameReport {
    /// The capture rate over the last frames.
    pub rate: FrameRate,
    /// Whether that rate is below nine tenths of the nominal rate.
    pub low: bool,
    /// What became of the frame at each sink, in the order of the sinks.
    pub deliveries: Vec<Delivery>,
}

/// What capture keeps from frame to frame, as seen from outside.
pub struct CaptureView {
    /// Time of the last frame.
    pub prev: u64,
    /// The rate estimator.
    pub rate: RateView,
    /// The sinks, in the order in which frames are offered to them.
    pub sinks: Seq<SinkKind>,
    /// The counts of each sink.
    pub stats: Seq<SinkStats>,
}

/// The state of capture: the time of the last frame, the rate estimator and
/// the sending ends of the sinks' channels.
#[verifier::reject_recursive_types(T)]
pub struct Capture<T> {
    prev: u64,
    estimator: RateEstimator,
    channels: Vec<SinkChannel<T>>,
}

impl<T> View for Capture<T> {
    type V = CaptureView;

    closed spec fn view(&self) -> CaptureView {
        CaptureView {
            prev: self.prev,
            rate: self.estimator@,
            sinks: Seq::new(self.channels.len() as nat, |i: int| self.channels[i].kind()),
            stats: Seq::new(self.channels.len() as nat, |i: int| self.channels[i].stats()),
        }
    }
}

impl<T> Capture<T> {
    /// The rate estimator is in order.
    pub closed spec fn well_formed(&self) -> bool {
        self.estimator.well_formed()
    }

    /// Capture that starts at `now` and feeds `channels`.
    pub fn new(channels: Vec<SinkChannel<T>>, now: u64) -> (capture: Capture<T>)
        ensures
            capture.well_formed(),
            capture@.prev == now,
            capture@.rate.index == 0,
            capture@.rate.history == Seq::new(HISTORY_LEN as nat, |i: int| 0u64),
            capture@.sinks == Seq::new(channels.len() as nat, |i: int| channels[i].kind()),
            capture@.stats == Seq::new(channels.len() as nat, |i: int| channels[i].stats()),
    {
        let estimator = RateEstimator::new(HISTORY_LEN);
        proof {
            assert(estimator@.history =~= Seq::new(HISTORY_LEN as nat, |i: int| 0u64));
        }
        Capture { prev: now, estimator, channels }
    }

    /// Number of sinks that capture feeds.
    pub fn sinks(&self) -> (count: usize)
        ensures
            count == self@.sinks.len(),
            count == self@.stats.len(),
    {
        self.channels.len()
    }

    /// The counts of sink `index`.
    pub fn counts(&self, index: usize) -> (stats: SinkStats)
        requires
            index < self@.stats.len(),
        ensures
            stats == self@.stats[index as int],
    {
        self.channels[index].counts()
    }

    /// Takes a frame captured at `now`, with one duplicate of its handle for
    /// each sink where one could be made.
    ///
    /// The interval since the last frame goes into the rate estimate. Every
    /// sink is offered its duplicate once, without waiting, and its counts
    /// move by its own delivery alone.
    pub fn on_frame(&mut self, now: u64, duplicates: Vec<Option<T>>) -> (report: FrameReport)
        requires
            old(self).well_formed(),
            duplicates.len() == old(self)@.sinks.len(),
        ensures
            final(self).well_formed(),
            final(self)@.prev == now,
            final(self)@.rate == old(self)@.rate.record(
                if now >= old(self)@.prev {
                    (now - old(self)@.prev) as u64
                } else {
                    0
                },
            ),
            report.rate == rate_of(final(self)@.rate.history),
            report.low == report.rate.low_for(NOMINAL_FPS),
            final(self)@.sinks == old(self)@.sinks,
            report.deliveries.len() == old(self)@.sinks.len(),
            final(self)@.stats.len() == old(self)@.stats.len(),
            forall|i: int|
                0 <= i < report.deliveries.len() ==> #[trigger] final(self)@.stats[i] == old(
                    self,
                )@.stats[i].record(report.deliveries[i]),
            forall|i: int|
                0 <= i < report.deliveries.len() ==> ((#[trigger] report.deliveries[i])
                    == Delivery::NotDuplicated <==> duplicates[i] is None),
    {
        let rate = update_fps(&mut self.prev, now, &mut self.estimator);
        let low = rate.is_low(NOMINAL_FPS);
        let ghost offered = duplicates@;
        let deliveries = fan_out(&mut self.channels, duplicates);
        proof {
            assert(self@.sinks =~= old(self)@.sinks);
            assert forall|i: int| 0 <= i < deliveries.len() implies #[trigger] self@.stats[i]
                == old(self)@.stats[i].record(deliveries[i]) by {
                assert(self.channels[i].stats() == old(self).channels[i].stats().record(
                    deliveries[i],
                ));
            }
            assert forall|i: int| 0 <= i < deliveries.len() implies ((#[trigger] deliveries[i])
                == Delivery::NotDuplicated <==> offered[i] is None) by {
                assert(self.channels[i].kind() == old(self).channels[i].kind());
            }
        }
        FrameReport { rate, low, deliveries }
    }
}

} // verus!
