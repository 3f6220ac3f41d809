//! Bounded, non-blocking hand-off of frames from capture to one sink.
//!
//! Every sink has a channel of its own with a small fixed capacity. Capture
//! offers each frame without waiting: where the channel is full, because the
//! sink is still busy with an earlier frame, the new frame is dropped and the
//! queued ones stay. A slow sink therefore skips frames; it never holds up
//! capture or another sink.
//!
//! The module has two parts. The first is the sending and receiving end as
//! the pipeline uses them, over channels of the `kanal` crate, with a count
//! of what became of every frame offered. The second is a model of one
//! channel and its worker, over which the ordering of what a worker sees is
//! proved.

use crate::count::{bump, count_up};
use crate::sink::SinkKind;
use vstd::layout::size_of;
use vstd::prelude::*;

verus! {

/// The sending end of a channel of the `kanal` crate. Verus sees nothing
/// inside it.
#[verifier::external_type_specification]
#[verifier::external_body]
#[verifier::reject_recursive_types(T)]
pub struct ExSender<T>(kanal::Sender<T>);

/// The receiving end of a channel of the `kanal` crate. Verus sees nothing
/// inside it.
#[verifier::external_type_specification]
#[verifier::external_body]
#[verifier::reject_recursive_types(T)]
pub struct ExReceiver<T>(kanal::Receiver<T>);

/// Calls `kanal::bounded`, which makes a channel with a queue of `capacity`
/// items and returns its two ends.
///
/// Nothing is claimed of the ends. The queue is allocated at once, which
/// panics where its size in bytes is beyond `isize::MAX`; those capacities
/// are left out.
#[verifier::external_body]
fn bounded<T>(capacity: usize) -> (ends: (kanal::Sender<T>, kanal::Receiver<T>))
    requires
        capacity * size_of::<T>() <= isize::MAX,
{
    kanal::bounded(capacity)
}

/// Calls `kanal::Sender::try_send`, which hands `item` to the channel if
/// there is room for it or a receiver waiting, and gives up at once if not.
///
/// The result is `Some(true)` where the channel took the item, `Some(false)`
/// where it was full and the item was dropped, and `None` where the channel
/// is closed. Which of the three comes back depends on what the receiver has
/// done in the meantime, so nothing is claimed of it.
#[verifier::external_body]
fn try_send_now<T>(tx: &kanal::Sender<T>, item: T) -> (taken: Option<bool>) {
    tx.try_send(item).ok()
}

/// Calls `kanal::Receiver::recv`, which waits until an item can be taken
/// from the channel.
///
/// The result is the item, or `None` once the channel is closed. Nothing is
/// claimed of it.
#[verifier::external_body]
fn recv_next<T>(rx: &kanal::Receiver<T>) -> (item: Option<T>) {
    rx.recv().ok()
}

/// What became of a frame that was to go to a sink.
#[derive(Clone, Copy, Debug, PartialEq, Eq, Structural)]
pub enum Delivery {
    /// The channel took the frame.
    Queued,
    /// The channel was full: the frame was dropped.
    DroppedFull,
    /// The sink's worker has gone: the frame was dropped.
    DroppedClosed,
    /// No duplicate of the frame's handle could be made for this sink.
    NotDuplicated,
}

/// What a non-blocking send reports, as a delivery.
pub open spec fn delivery_of(taken: Option<bool>) -> Delivery {
    match taken {
        Some(true) => Delivery::Queued,
        Some(false) => Delivery::DroppedFull,
        None => Delivery::DroppedClosed,
    }
}

/// Reads what a non-blocking send reports.
pub fn classify(taken: Option<bool>) -> (delivery: Delivery)
    ensures
        delivery == delivery_of(taken),
{
    match taken {
        Some(true) => Delivery::Queued,
        Some(false) => Delivery::DroppedFull,
        None => Delivery::DroppedClosed,
    }
}

/// Counts of what became of the frames that capture had for one sink. A
/// counter that has reached the largest `u64` stays there.
#[derive(Clone, Copy, Debug, PartialEq, Eq, Structural)]
pub struct SinkStats {
    /// Frames that the channel took.
    pub queued: u64,
    /// Frames dropped because the channel was full.
    pub dropped_full: u64,
    /// Frames dropped because the channel was closed.
    pub dropped_closed: u64,
    /// Frames for which no duplicate handle could be made.
    pub not_duplicated: u64,
}

impl SinkStats {
    /// The counts before any frame.
    pub open spec fn zero() -> SinkStats {
        SinkStats { queued: 0, dropped_full: 0, dropped_closed: 0, not_duplicated: 0 }
    }

    /// The counts after one more frame with the given delivery: its counter
    /// goes up by one, the others stay.
    pub open spec fn record(self, delivery: Delivery) -> SinkStats {
        match delivery {
            Delivery::Queued => SinkStats { queued: bump(self.queued), ..self },
            Delivery::DroppedFull => SinkStats { dropped_full: bump(self.dropped_full), ..self },
            Delivery::DroppedClosed => SinkStats {
                dropped_closed: bump(self.dropped_closed),
                ..self
            },
            Delivery::NotDuplicated => SinkStats {
                not_duplicated: bump(self.not_duplicated),
                ..self
            },
        }
    }

    /// Frames offered so far, whatever became of them.
    pub open spec fn offered(self) -> int {
        self.queued + self.dropped_full + self.dropped_closed + self.not_duplicated
    }

    /// Counts with every counter at zero.
    pub fn new() -> (stats: SinkStats)
        ensures
            stats == SinkStats::zero(),
    {
        SinkStats { queued: 0, dropped_full: 0, dropped_closed: 0, not_duplicated: 0 }
    }

    /// Counts one more frame with the given delivery.
    pub fn note(&mut self, delivery: Delivery)
        ensures
            *final(self) == old(self).record(delivery),
    {
        match delivery {
            Delivery::Queued => {
                self.queued = count_up(self.queued);
            },
            Delivery::DroppedFull => {
                self.dropped_full = count_up(self.dropped_full);
            },
            Delivery::DroppedClosed => {
                self.dropped_closed = count_up(self.dropped_closed);
            },
            Delivery::NotDuplicated => {
                self.not_duplicated = count_up(self.not_duplicated);
            },
        }
    }
}

/// The sending end of one sink's channel, with the sink's counts.
#[verifier::reject_recursive_types(T)]
pub struct SinkChannel<T> {
    kind: SinkKind,
    stats: SinkStats,
    tx: kanal::Sender<T>,
}

/// The receiving end of one sink's channel.
#[verifier::reject_recursive_types(T)]
pub struct SinkReceiver<T> {
    kind: SinkKind,
    rx: kanal::Receiver<T>,
}

impl<T> SinkReceiver<T> {
    /// The sink that this end belongs to.
    pub closed spec fn kind(&self) -> SinkKind {
        self.kind
    }

    /// The sink that this end belongs to.
    pub fn sink(&self) -> (kind: SinkKind)
        ensures
            kind == self.kind(),
    {
        self.kind
    }

    /// Waits for the next frame. `None` means that capture has shut down and
    /// the worker is to stop; nothing else ends a worker.
    pub fn recv(&self) -> (frame: Option<T>) {
        recv_next(&self.rx)
    }
}

impl<T> SinkChannel<T> {
    /// The sink that this channel feeds.
    pub closed spec fn kind(&self) -> SinkKind {
        self.kind
    }

    /// What became of the frames offered so far.
    pub closed spec fn stats(&self) -> SinkStats {
        self.stats
    }

    /// Opens the channel of a sink, with the capacity that its kind calls
    /// for, and returns both ends.
    pub fn open(kind: SinkKind) -> (ends: (SinkChannel<T>, SinkReceiver<T>))
        requires
            kind.spec_capacity() * size_of::<T>() <= isize::MAX,
        ensures
            ends.0.kind() == kind,
            ends.0.stats() == SinkStats::zero(),
            ends.1.kind() == kind,
    {
        let (tx, rx) = bounded(kind.capacity());
        (SinkChannel { kind, stats: SinkStats::new(), tx }, SinkReceiver { kind, rx })
    }

    /// The sink that this channel feeds.
    pub fn sink(&self) -> (kind: SinkKind)
        ensures
            kind == self.kind(),
    {
        self.kind
    }

    /// What became of the frames offered so far.
    pub fn counts(&self) -> (stats: SinkStats)
        ensures
            stats == self.stats(),
    {
        self.stats
    }

    /// Offers `frame` to the sink without waiting, and counts what became of
    /// it. Where the channel does not take the frame, the frame is dropped.
    ///
    /// Whether the channel takes the frame is up to the sink's worker; every
    /// outcome is counted, and none of them is an error for capture.
    pub fn try_send(&mut self, frame: T) -> (delivery: Delivery)
        ensures
            delivery != Delivery::NotDuplicated,
            final(self).kind() == old(self).kind(),
            final(self).stats() == old(self).stats().record(delivery),
    {
        let delivery = classify(try_send_now(&self.tx, frame));
        self.stats.note(delivery);
        delivery
    }

    /// Offers the sink its duplicate of a frame, if one could be made. A
    /// missing duplicate is counted and otherwise passed over.
    pub fn offer(&mut self, duplicate: Option<T>) -> (delivery: Delivery)
        ensures
            (delivery == Delivery::NotDuplicated) <==> duplicate is None,
            final(self).kind() == old(self).kind(),
            final(self).stats() == old(self).stats().record(delivery),
    {
        match duplicate {
            Some(frame) => self.try_send(frame),
            None => {
                self.stats.note(Delivery::NotDuplicated);
                Delivery::NotDuplicated
            },
        }
    }
}

/// Offers one captured frame to every sink, each through its own channel and
/// with its own duplicate, in the order of `channels`.
///
/// What happens at one sink has no bearing on another: every sink is offered
/// its duplicate exactly once, and its counts move by its own delivery alone.
pub fn fan_out<T>(channels: &mut Vec<SinkChannel<T>>, duplicates: Vec<Option<T>>) -> (deliveries:
    Vec<Delivery>)
    requires
        duplicates.len() == old(channels).len(),
    ensures
        final(channels).len() == old(channels).len(),
        deliveries.len() == old(channels).len(),
        forall|i: int|
            0 <= i < deliveries.len() ==> {
                &&& (#[trigger] final(channels)[i]).kind() == old(channels)[i].kind()
                &&& final(channels)[i].stats() == old(channels)[i].stats().record(deliveries[i])
                &&& (deliveries[i] == Delivery::NotDuplicated) <==> duplicates[i] is None
            },
{
    let mut duplicates = duplicates;
    let mut deliveries: Vec<Delivery> = Vec::new();
    let ghost all = duplicates@;
    let count = channels.len();
    let mut i: usize = 0;
    while i < count
        invariant
            i <= count,
            count == channels.len(),
            count == old(channels).len(),
            all.len() == count,
            deliveries.len() == i,
            duplicates@ == all.skip(i as int),
            forall|k: int|
                0 <= k < i ==> {
                    &&& (#[trigger] channels[k]).kind() == old(channels)[k].kind()
                    &&& channels[k].stats() == old(channels)[k].stats().record(deliveries[k])
                    &&& (deliveries[k] == Delivery::NotDuplicated) <==> all[k] is None
                },
            forall|k: int| i <= k < count ==> (#[trigger] channels[k]) == old(channels)[k],
        decreases count - i,
    {
        let duplicate = duplicates.remove(0);
        assert(duplicate == all[i as int]);
        let delivery = channels[i].offer(duplicate);
        deliveries.push(delivery);
        i = i + 1;
    }
    deliveries
}

/// Every frame that capture has for a sink is counted once, under exactly one
/// heading, as long as no counter has reached its limit.
pub proof fn every_offer_is_counted(stats: SinkStats, delivery: Delivery)
    requires
        stats.queued < u64::MAX,
        stats.dropped_full < u64::MAX,
        stats.dropped_closed < u64::MAX,
        stats.not_duplicated < u64::MAX,
    ensures
        stats.record(delivery).offered() == stats.offered() + 1,
        stats.record(delivery).queued == stats.queued + if delivery == Delivery::Queued {
            1int
        } else {
            0int
        },
{
}

/// One event at a sink's channel.
pub enum ChannelStep {
    /// Capture offers the frame with this capture time.
    Offer(int),
    /// The worker asks for its next frame.
    Take,
}

/// One sink's channel together with what its worker has received so far.
/// Frames are told apart by their capture times.
pub struct ChannelModel {
    /// How many frames the channel holds.
    pub capacity: nat,
    /// The frames waiting in the channel, oldest first.
    pub queue: Seq<int>,
    /// The frames that the worker has received, in the order of receipt.
    pub seen: Seq<int>,
}

impl ChannelModel {
    /// An empty channel whose worker has not received anything.
    pub open spec fn start(capacity: nat) -> ChannelModel {
        ChannelModel { capacity, queue: seq![], seen: seq![] }
    }

    /// Whether the channel has no room.
    pub open spec fn full(self) -> bool {
        self.queue.len() >= self.capacity
    }

    /// What a non-blocking send reports.
    pub open spec fn delivery(self) -> Delivery {
        if self.full() {
            Delivery::DroppedFull
        } else {
            Delivery::Queued
        }
    }

    /// The channel after capture has offered `stamp`: the frame joins the
    /// queue if there is room, and is dropped if not.
    pub open spec fn offer(self, stamp: int) -> ChannelModel {
        if self.full() {
            self
        } else {
            ChannelModel { queue: self.queue.push(stamp), ..self }
        }
    }

    /// The channel after the worker has asked for a frame: it receives the
    /// oldest one. With nothing queued the worker waits, and nothing changes.
    pub open spec fn take(self) -> ChannelModel {
        if self.queue.len() == 0 {
            self
        } else {
            ChannelModel {
                queue: self.queue.drop_first(),
                seen: self.seen.push(self.queue.first()),
                ..self
            }
        }
    }

    /// The channel after one event.
    pub open spec fn step(self, step: ChannelStep) -> ChannelModel {
        match step {
            ChannelStep::Offer(stamp) => self.offer(stamp),
            ChannelStep::Take => self.take(),
        }
    }

    /// The channel after a run of events.
    pub open spec fn run(self, steps: Seq<ChannelStep>) -> ChannelModel
        decreases steps.len(),
    {
        if steps.len() == 0 {
            self
        } else {
            self.run(steps.drop_last()).step(steps.last())
        }
    }

    /// Everything that has entered the channel and not been dropped: what
    /// the worker has received, then what is still queued.
    pub open spec fn passed(self) -> Seq<int> {
        self.seen + self.queue
    }
}

/// The capture times that a run of events offers, in order.
pub open spec fn offered(steps: Seq<ChannelStep>) -> Seq<int>
    decreases steps.len(),
{
    if steps.len() == 0 {
        seq![]
    } else {
        match steps.last() {
            ChannelStep::Offer(stamp) => offered(steps.drop_last()).push(stamp),
            ChannelStep::Take => offered(steps.drop_last()),
        }
    }
}

/// Whether every element is greater than the one before.
pub open spec fn strictly_increasing(stamps: Seq<int>) -> bool {
    forall|i: int, j: int| 0 <= i < j < stamps.len() ==> stamps[i] < stamps[j]
}

/// A send to a full channel changes nothing but the count of drops: the
/// queued frames stay as they are, nothing reaches the worker, and the new
/// frame is reported as dropped. What the worker is doing plays no part.
pub proof fn full_channel_drops_the_new_frame(channel: ChannelModel, stamp: int)
    requires
        channel.full(),
    ensures
        channel.offer(stamp) == channel,
        channel.delivery() == Delivery::DroppedFull,
{
}

/// A channel never holds more frames than its capacity.
pub proof fn queue_stays_within_capacity(capacity: nat, steps: Seq<ChannelStep>)
    ensures
        ChannelModel::start(capacity).run(steps).queue.len() <= capacity,
        ChannelModel::start(capacity).run(steps).capacity == capacity,
    decreases steps.len(),
{
    if steps.len() > 0 {
        queue_stays_within_capacity(capacity, steps.drop_last());
    }
}

/// Whether `result` is what is left of `from` when only the places in `picks`
/// are kept, in their order: a selection that may skip elements but neither
/// reorders nor repeats them, and holds nothing that `from` does not.
pub open spec fn selects(picks: Seq<int>, from: Seq<int>, result: Seq<int>) -> bool {
    &&& picks.len() == result.len()
    &&& strictly_increasing(picks)
    &&& forall|i: int|
        0 <= i < picks.len() ==> 0 <= #[trigger] picks[i] < from.len() && from[picks[i]]
            == result[i]
}

/// What has passed through the channel, received or still queued, is a
/// selection of what capture offered. The places selected are returned.
proof fn passed_frames_are_a_selection(capacity: nat, steps: Seq<ChannelStep>) -> (picks: Seq<int>)
    ensures
        selects(picks, offered(steps), ChannelModel::start(capacity).run(steps).passed()),
    decreases steps.len(),
{
    if steps.len() == 0 {
        seq![]
    } else {
        let before = steps.drop_last();
        let was = ChannelModel::start(capacity).run(before);
        let now = was.step(steps.last());
        let earlier = passed_frames_are_a_selection(capacity, before);
        match steps.last() {
            ChannelStep::Offer(stamp) => {
                if was.full() {
                    earlier
                } else {
                    let picks = earlier.push(offered(before).len() as int);
                    assert(now.passed() =~= was.passed().push(stamp));
                    picks
                }
            },
            ChannelStep::Take => {
                assert(now.passed() =~= was.passed());
                earlier
            },
        }
    }
}

/// A worker receives a selection of the frames that capture offered: the
/// channel may skip frames, but it never reorders, repeats or invents one.
/// The places of the received frames among the offered ones are returned.
pub proof fn worker_sees_a_selection_of_offers(capacity: nat, steps: Seq<ChannelStep>) -> (picks:
    Seq<int>)
    ensures
        selects(picks, offered(steps), ChannelModel::start(capacity).run(steps).seen),
{
    let end = ChannelModel::start(capacity).run(steps);
    let all = passed_frames_are_a_selection(capacity, steps);
    let picks = all.take(end.seen.len() as int);
    assert forall|i: int| 0 <= i < picks.len() implies 0 <= #[trigger] picks[i] < offered(
        steps,
    ).len() && offered(steps)[picks[i]] == end.seen[i] by {
        assert(picks[i] == all[i]);
        assert(end.passed()[i] == end.seen[i]);
    }
    assert forall|i: int, j: int| 0 <= i < j < picks.len() implies picks[i] < picks[j] by {
        assert(picks[i] == all[i]);
        assert(picks[j] == all[j]);
    }
    picks
}

/// With capture times that only go up, the capture times that a worker
/// observes are strictly increasing, and each of them is the capture time of
/// a frame that capture offered.
pub proof fn worker_sees_frames_in_capture_order(capacity: nat, steps: Seq<ChannelStep>)
    requires
        strictly_increasing(offered(steps)),
    ensures
        strictly_increasing(ChannelModel::start(capacity).run(steps).seen),
        forall|i: int|
            0 <= i < ChannelModel::start(capacity).run(steps).seen.len() ==> offered(
                steps,
            ).contains(#[trigger] ChannelModel::start(capacity).run(steps).seen[i]),
{
    let seen = ChannelModel::start(capacity).run(steps).seen;
    let picks = worker_sees_a_selection_of_offers(capacity, steps);
    assert forall|i: int, j: int| 0 <= i < j < seen.len() implies seen[i] < seen[j] by {
        assert(picks[i] < picks[j]);
        assert(offered(steps)[picks[i]] == seen[i]);
        assert(offered(steps)[picks[j]] == seen[j]);
    }
    assert forall|i: int| 0 <= i < seen.len() implies offered(steps).contains(#[trigger] seen[i]) by {
        assert(offered(steps)[picks[i]] == seen[i]);
    }
}

} // verus!
