//! Decisions of the sink workers.
//!
//! A worker takes frames from its channel one at a time, turns each into a
//! compressed message and publishes it. Converting, encoding and publishing
//! are done by others; what is decided here is what happens to each frame
//! and what a worker remembers from one frame to the next.
//!
//! A frame that fails at some stage is counted and given up. The worker goes
//! on with the next frame: only the closing of its channel ends it.

use crate::channel::strictly_increasing;
use crate::count::{bump, count_up};
use crate::frame::Stamp;
use crate::image::{Rect, Region};
use crate::message::{build_tile_video_msg, buildable, compressed_video_cdr, tile_frame_id_of};
use crate::throttle::{admits, interval_for, Throttle};
use crate::tile::TilePosition;
use vstd::prelude::*;

verus! {

/// Width of the source that a tile worker assumes until it has seen a frame.
pub const ASSUMED_SOURCE_WIDTH: u32 = 3840;

/// Height of the source that a tile worker assumes until it has seen a frame.
pub const ASSUMED_SOURCE_HEIGHT: u32 = 2160;

/// The stage at which a frame was given up.
#[derive(Clone, Copy, Debug, PartialEq, Eq, Structural)]
pub enum Stage {
    /// Resizing or reformatting the frame.
    Convert,
    /// Compressing the frame.
    Encode,
    /// Building the message from the compressed frame.
    Message,
    /// Handing the message to the transport.
    Publish,
}

impl Stage {
    /// Whether the stage comes after encoding: a frame given up there has
    /// been encoded.
    pub open spec fn spec_follows_encode(&self) -> bool {
        *self == Stage::Message || *self == Stage::Publish
    }

    /// Decides whether the stage comes after encoding.
    #[verifier::when_used_as_spec(spec_follows_encode)]
    pub fn follows_encode(&self) -> (after: bool)
        ensures
            after == self.spec_follows_encode(),
    {
        match self {
            Stage::Convert | Stage::Encode => false,
            Stage::Message | Stage::Publish => true,
        }
    }
}

/// Whether a frame that ended this way was encoded: it was published, or
/// given up only after encoding.
pub open spec fn encoded(failure: Option<Stage>) -> bool {
    match failure {
        None => true,
        Some(stage) => stage.spec_follows_encode(),
    }
}

/// What became of a frame that a worker received.
#[derive(Clone, Copy, Debug, PartialEq, Eq, Structural)]
pub enum Outcome {
    /// The frame was compressed and published.
    Published,
    /// The frame came too soon after the last one and was skipped.
    Throttled,
    /// The frame was given up at a stage.
    Failed(Stage),
}

/// Counts of what became of the frames that a worker received. A counter
/// that has reached the largest `u64` stays there.
#[derive(Clone, Copy, Debug, PartialEq, Eq, Structural)]
pub struct WorkerStats {
    /// Frames compressed and published.
    pub published: u64,
    /// Frames skipped by the frame-rate ceiling.
    pub throttled: u64,
    /// Frames given up at some stage.
    pub failed: u64,
}

impl WorkerStats {
    /// The counts before any frame.
    pub open spec fn zero() -> WorkerStats {
        WorkerStats { published: 0, throttled: 0, failed: 0 }
    }

    /// The counts after one more frame with the given outcome.
    pub open spec fn record(self, outcome: Outcome) -> WorkerStats {
        match outcome {
            Outcome::Published => WorkerStats { published: bump(self.published), ..self },
            Outcome::Throttled => WorkerStats { throttled: bump(self.throttled), ..self },
            Outcome::Failed(_) => WorkerStats { failed: bump(self.failed), ..self },
        }
    }

    /// Counts with every counter at zero.
    pub fn new() -> (stats: WorkerStats)
        ensures
            stats == WorkerStats::zero(),
    {
        WorkerStats { published: 0, throttled: 0, failed: 0 }
    }

    /// Counts one more frame with the given outcome.
    pub fn note(&mut self, outcome: Outcome)
        ensures
            *final(self) == old(self).record(outcome),
    {
        match outcome {
            Outcome::Published => {
                self.published = count_up(self.published);
            },
            Outcome::Throttled => {
                self.throttled = count_up(self.throttled);
            },
            Outcome::Failed(_) => {
                self.failed = count_up(self.failed);
            },
        }
    }
}

/// What a tile worker does with a frame it has received.
#[derive(Clone, Copy, Debug, PartialEq, Eq, Structural)]
pub enum TileAction {
    /// Drop the frame: the ceiling on the frame rate does not admit it yet.
    Skip,
    /// Encode the part of the frame inside `crop`. `recropped` says that the
    /// crop differs from the one in force before, so that the encoder has to
    /// be told.
    Encode { crop: Rect, recropped: bool },
}

/// A frame that a tile worker has taken for encoding: when it arrived, and
/// when it was captured.
#[derive(Clone, Copy, Debug, PartialEq, Eq, Structural)]
pub struct Taken {
    /// Arrival time at the worker, on the worker's clock.
    pub arrived: u64,
    /// Capture time of the frame, as it came with the frame.
    pub stamp: Stamp,
}

/// What a tile worker remembers between frames.
pub struct TileWorkerView {
    /// The quadrant that the worker encodes.
    pub position: TilePosition,
    /// The least time between two encodes, in nanoseconds.
    pub interval: u64,
    /// The arrival time of the last frame that was encoded.
    pub last: u64,
    /// Width of the last frame that was taken for encoding.
    pub source_width: u32,
    /// Height of the last frame that was taken for encoding.
    pub source_height: u32,
    /// The crop rectangle in force.
    pub crop: Region,
    /// The frame that is being encoded, if one is.
    pub pending: Option<Taken>,
    /// What became of the frames received so far.
    pub stats: WorkerStats,
}

impl TileWorkerView {
    /// The state after a frame of `width` x `height` pixels, captured at
    /// `stamp`, has arrived at `now`.
    ///
    /// A frame that the ceiling does not admit is counted and changes nothing
    /// else. An admitted frame is taken for encoding: the crop becomes the
    /// worker's quadrant of that very frame.
    pub open spec fn on_frame(self, now: u64, stamp: Stamp, width: u32, height: u32) -> TileWorkerView {
        if admits(self.last, self.interval, now) {
            TileWorkerView {
                source_width: width,
                source_height: height,
                crop: self.position.region(width as int, height as int),
                pending: Some(Taken { arrived: now, stamp }),
                ..self
            }
        } else {
            TileWorkerView { stats: self.stats.record(Outcome::Throttled), ..self }
        }
    }

    /// The state after the frame that was taken for encoding has been
    /// published or given up. Only a frame that was encoded moves the point
    /// from which the ceiling counts.
    pub open spec fn on_done(self, failure: Option<Stage>) -> TileWorkerView {
        match self.pending {
            None => self,
            Some(taken) => TileWorkerView {
                last: if encoded(failure) {
                    taken.arrived
                } else {
                    self.last
                },
                pending: None,
                stats: self.stats.record(
                    match failure {
                        None => Outcome::Published,
                        Some(stage) => Outcome::Failed(stage),
                    },
                ),
                ..self
            },
        }
    }

    /// What the worker does with a frame of `width` x `height` pixels that
    /// arrives at `now`.
    pub open spec fn action(self, now: u64, width: u32, height: u32) -> TileAction {
        if admits(self.last, self.interval, now) {
            TileAction::Encode {
                crop: rect_of(self.position.region(width as int, height as int)),
                recropped: width != self.source_width || height != self.source_height,
            }
        } else {
            TileAction::Skip
        }
    }
}

/// The rectangle with the coordinates of `region`.
pub open spec fn rect_of(region: Region) -> Rect {
    Rect {
        x: region.x as i32,
        y: region.y as i32,
        width: region.width as i32,
        height: region.height as i32,
    }
}

/// The worker of one tile sink: its quadrant, its ceiling on the frame rate,
/// and the crop it has told the encoder.
pub struct TileWorker {
    position: TilePosition,
    throttle: Throttle,
    source_width: u32,
    source_height: u32,
    crop: Rect,
    pending: Option<Taken>,
    stats: WorkerStats,
}

impl View for TileWorker {
    type V = TileWorkerView;

    closed spec fn view(&self) -> TileWorkerView {
        TileWorkerView {
            position: self.position,
            interval: self.throttle.spec_interval(),
            last: self.throttle.spec_last(),
            source_width: self.source_width,
            source_height: self.source_height,
            crop: self.crop@,
            pending: self.pending,
            stats: self.stats,
        }
    }
}

impl TileWorker {
    /// The crop in force is the worker's quadrant of the source size it
    /// last worked with.
    pub open spec fn well_formed(&self) -> bool {
        self@.crop == self@.position.region(self@.source_width as int, self@.source_height as int)
    }

    /// A worker for the tile at `position` that encodes at most `target_fps`
    /// frames per second, started at `now`.
    ///
    /// Until the first frame says otherwise, the source is taken to be
    /// 3840 x 2160 pixels.
    pub fn new(position: TilePosition, target_fps: u32, now: u64) -> (worker: TileWorker)
        requires
            target_fps > 0,
        ensures
            worker.well_formed(),
            worker@.position == position,
            worker@.interval == interval_for(target_fps),
            worker@.last == now,
            worker@.source_width == ASSUMED_SOURCE_WIDTH,
            worker@.source_height == ASSUMED_SOURCE_HEIGHT,
            worker@.pending is None,
            worker@.stats == WorkerStats::zero(),
    {
        TileWorker {
            position,
            throttle: Throttle::new(target_fps, now),
            source_width: ASSUMED_SOURCE_WIDTH,
            source_height: ASSUMED_SOURCE_HEIGHT,
            crop: position.crop_rect(ASSUMED_SOURCE_WIDTH, ASSUMED_SOURCE_HEIGHT),
            pending: None,
            stats: WorkerStats::new(),
        }
    }

    /// The quadrant that the worker encodes.
    pub fn position(&self) -> (position: TilePosition)
        ensures
            position == self@.position,
    {
        self.position
    }

    /// The crop rectangle in force.
    pub fn crop(&self) -> (crop: Rect)
        ensures
            crop@ == self@.crop,
    {
        self.crop
    }

    /// What became of the frames received so far.
    pub fn stats(&self) -> (stats: WorkerStats)
        ensures
            stats == self@.stats,
    {
        self.stats
    }

    /// Decides what to do with a frame of `width` x `height` pixels that was
    /// captured at `stamp` and received at `now`.
    ///
    /// The crop handed out with an `Encode` is always the worker's quadrant
    /// of the frame at hand, whatever size earlier frames had.
    pub fn on_frame(&mut self, now: u64, stamp: Stamp, width: u32, height: u32) -> (action:
        TileAction)
        requires
            old(self).well_formed(),
        ensures
            final(self).well_formed(),
            final(self)@ == old(self)@.on_frame(now, stamp, width, height),
            action == old(self)@.action(now, width, height),
            action matches TileAction::Encode { crop, .. } ==> crop@ == old(self)@.position.region(
                width as int,
                height as int,
            ),
    {
        if !self.throttle.admits(now) {
            self.stats.note(Outcome::Throttled);
            return TileAction::Skip;
        }
        let recropped = width != self.source_width || height != self.source_height;
        if recropped {
            self.crop = self.position.crop_rect(width, height);
            self.source_width = width;
            self.source_height = height;
        }
        self.pending = Some(Taken { arrived: now, stamp });
        TileAction::Encode { crop: self.crop, recropped }
    }

    /// Builds the message of the frame that is being encoded from its H.264
    /// data. The header carries the capture time of that very frame and the
    /// tile's frame identifier.
    ///
    /// Returns the serialized message, or nothing where no frame is being
    /// encoded or the data or the frame identifier is too long for a message.
    pub fn message(&self, data: Vec<u8>, camera_frame_id: &str) -> (message: Option<Vec<u8>>)
        ensures
            message is Some <==> self@.pending is Some && buildable(
                tile_frame_id_of(camera_frame_id@, self@.position),
                "h264"@,
                data@.len(),
            ),
            message matches Some(bytes) ==> (self@.pending matches Some(taken) && bytes@
                == compressed_video_cdr(
                taken.stamp.seconds as i32,
                taken.stamp.nanos,
                tile_frame_id_of(camera_frame_id@, self@.position),
                "h264"@,
                data@,
            )),
    {
        match self.pending {
            None => None,
            Some(taken) => build_tile_video_msg(data, &taken.stamp, camera_frame_id, self.position),
        }
    }

    /// Takes note that the frame handed out for encoding has been published
    /// (`failure` is `None`) or given up at a stage. Without such a frame
    /// nothing happens.
    pub fn on_done(&mut self, failure: Option<Stage>)
        requires
            old(self).well_formed(),
        ensures
            final(self).well_formed(),
            final(self)@ == old(self)@.on_done(failure),
    {
        match self.pending {
            None => {},
            Some(taken) => {
                match failure {
                    None => {
                        self.throttle.mark(taken.arrived);
                        self.stats.note(Outcome::Published);
                    },
                    Some(stage) => {
                        if stage.follows_encode() {
                            self.throttle.mark(taken.arrived);
                        }
                        self.stats.note(Outcome::Failed(stage));
                    },
                }
                self.pending = None;
            },
        }
    }
}

/// One frame in the life of a tile worker: when it arrived, when it was
/// captured, how large it was, and at which stage it would be given up, if at
/// any.
pub struct Arrival {
    pub now: u64,
    pub stamp: Stamp,
    pub width: u32,
    pub height: u32,
    pub failure: Option<Stage>,
}

impl TileWorkerView {
    /// The state after a run of frames, each dealt with to the end before the
    /// next one arrives.
    pub open spec fn after(self, frames: Seq<Arrival>) -> TileWorkerView
        decreases frames.len(),
    {
        if frames.len() == 0 {
            self
        } else {
            let frame = frames.first();
            self.on_frame(frame.now, frame.stamp, frame.width, frame.height).on_done(
                frame.failure,
            ).after(frames.drop_first())
        }
    }

    /// The capture times in the headers of the messages that the worker
    /// publishes over a run of frames, in the order of publishing: for every
    /// frame that is taken for encoding and not given up, the capture time
    /// that the worker holds for it.
    pub open spec fn published(self, frames: Seq<Arrival>) -> Seq<Stamp>
        decreases frames.len(),
    {
        if frames.len() == 0 {
            seq![]
        } else {
            let frame = frames.first();
            let taken = self.on_frame(frame.now, frame.stamp, frame.width, frame.height);
            let rest = taken.on_done(frame.failure).published(frames.drop_first());
            match taken.pending {
                Some(held) => if frame.failure is None {
                    seq![held.stamp] + rest
                } else {
                    rest
                },
                None => rest,
            }
        }
    }
}

/// Arrival times of a run of frames, each with whether it is encoded if it
/// comes to that.
pub open spec fn timeline(frames: Seq<Arrival>) -> Seq<(u64, bool)> {
    frames.map_values(|frame: Arrival| (frame.now, encoded(frame.failure)))
}

/// A tile worker encodes exactly the frames that its ceiling admits and that
/// do not fail before: over any run of frames, the ceiling counts from the
/// last of the [`encodes`], and no more frames are published than were
/// encoded.
///
/// [`encodes`]: crate::throttle::encodes
pub proof fn worker_encodes_what_the_ceiling_admits(worker: TileWorkerView, frames: Seq<Arrival>)
    requires
        worker.pending is None,
        worker.stats.published + frames.len() <= u64::MAX,
    ensures
        worker.after(frames).pending is None,
        worker.after(frames).interval == worker.interval,
        worker.after(frames).position == worker.position,
        worker.stats.published <= worker.after(frames).stats.published <= worker.stats.published
            + crate::throttle::encodes(worker.last, worker.interval, timeline(frames)).len(),
        crate::throttle::encodes(worker.last, worker.interval, timeline(frames)).len()
            <= frames.len(),
        worker.after(frames).last == if crate::throttle::encodes(
            worker.last,
            worker.interval,
            timeline(frames),
        ).len() == 0 {
            worker.last
        } else {
            crate::throttle::encodes(worker.last, worker.interval, timeline(frames)).last()
        },
    decreases frames.len(),
{
    if frames.len() > 0 {
        let frame = frames.first();
        let rest = frames.drop_first();
        let next = worker.on_frame(frame.now, frame.stamp, frame.width, frame.height).on_done(
            frame.failure,
        );
        assert(timeline(frames).first() == (frame.now, encoded(frame.failure)));
        assert(timeline(frames).drop_first() =~= timeline(rest));
        worker_encodes_what_the_ceiling_admits(next, rest);
        let tail = crate::throttle::encodes(next.last, next.interval, timeline(rest));
        if admits(worker.last, worker.interval, frame.now) && encoded(frame.failure) {
            let run = crate::throttle::encodes(worker.last, worker.interval, timeline(frames));
            assert(run =~= seq![frame.now] + tail);
            if tail.len() > 0 {
                assert(run.last() == tail.last());
            }
        }
    }
}

/// The messages that a tile worker publishes carry a selection of the
/// capture times that it received: each is the capture time of a frame of
/// the run that was not given up, and they come in the order in which the
/// frames were received, none of them twice. The places of those frames in
/// the run are returned.
pub proof fn published_stamps_are_a_selection(worker: TileWorkerView, frames: Seq<Arrival>) -> (picks:
    Seq<int>)
    requires
        worker.pending is None,
    ensures
        picks.len() == worker.published(frames).len(),
        strictly_increasing(picks),
        forall|k: int|
            0 <= k < picks.len() ==> {
                &&& 0 <= #[trigger] picks[k] < frames.len()
                &&& frames[picks[k]].stamp == worker.published(frames)[k]
                &&& frames[picks[k]].failure is None
            },
    decreases frames.len(),
{
    if frames.len() == 0 {
        seq![]
    } else {
        let frame = frames.first();
        let rest = frames.drop_first();
        let taken = worker.on_frame(frame.now, frame.stamp, frame.width, frame.height);
        let next = taken.on_done(frame.failure);
        let later = published_stamps_are_a_selection(next, rest);
        let shifted = Seq::new(later.len(), |k: int| later[k] + 1);
        assert forall|k: int| 0 <= k < shifted.len() implies {
            &&& 0 < #[trigger] shifted[k] < frames.len()
            &&& frames[shifted[k]].stamp == next.published(rest)[k]
            &&& frames[shifted[k]].failure is None
        } by {
            assert(0 <= later[k] < rest.len());
            assert(rest[later[k]] == frames[later[k] + 1]);
        }
        assert forall|a: int, b: int| 0 <= a < b < shifted.len() implies shifted[a] < shifted[b] by {
            assert(later[a] < later[b]);
        }
        if taken.pending is Some && frame.failure is None {
            let picks = seq![0int] + shifted;
            assert(worker.published(frames) =~= seq![frame.stamp] + next.published(rest));
            assert forall|k: int| 0 <= k < picks.len() implies {
                &&& 0 <= #[trigger] picks[k] < frames.len()
                &&& frames[picks[k]].stamp == worker.published(frames)[k]
                &&& frames[picks[k]].failure is None
            } by {
                if k > 0 {
                    assert(picks[k] == shifted[k - 1]);
                }
            }
            assert forall|a: int, b: int| 0 <= a < b < picks.len() implies picks[a] < picks[b] by {
                assert(picks[b] == shifted[b - 1]);
                if a > 0 {
                    assert(picks[a] == shifted[a - 1]);
                }
            }
            picks
        } else {
            assert(worker.published(frames) =~= next.published(rest));
            shifted
        }
    }
}

/// Whether `stamp` is the capture time of one of the frames.
pub open spec fn received(frames: Seq<Arrival>, stamp: Stamp) -> bool {
    exists|i: int| 0 <= i < frames.len() && (#[trigger] frames[i]).stamp == stamp
}

/// Where capture times only go up along the frames that a tile worker
/// receives, they only go up along the messages that it publishes, and every
/// one of them is the capture time of a frame that it received.
pub proof fn published_stamps_keep_capture_order(worker: TileWorkerView, frames: Seq<Arrival>)
    requires
        worker.pending is None,
        forall|i: int, j: int|
            #![trigger frames[i], frames[j]]
            0 <= i < j < frames.len() ==> frames[i].stamp.precedes(frames[j].stamp),
    ensures
        forall|a: int, b: int|
            #![trigger worker.published(frames)[a], worker.published(frames)[b]]
            0 <= a < b < worker.published(frames).len() ==> worker.published(frames)[a].precedes(
                worker.published(frames)[b],
            ),
        forall|a: int|
            0 <= a < worker.published(frames).len() ==> received(
                frames,
                #[trigger] worker.published(frames)[a],
            ),
{
    let picks = published_stamps_are_a_selection(worker, frames);
    let out = worker.published(frames);
    assert forall|a: int, b: int|
        #![trigger out[a], out[b]]
        0 <= a < b < out.len() implies out[a].precedes(out[b]) by {
        assert(picks[a] < picks[b]);
        assert(frames[picks[a]].stamp == out[a]);
        assert(frames[picks[b]].stamp == out[b]);
    }
    assert forall|a: int| 0 <= a < out.len() implies received(frames, #[trigger] out[a]) by {
        assert(frames[picks[a]].stamp == out[a]);
    }
}

} // verus!
