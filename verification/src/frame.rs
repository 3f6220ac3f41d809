//! Captured frames: capture time, description and buffer handle.

use crate::image::{Image, ImageView};
use vstd::prelude::*;

verus! {

/// Nanoseconds in one second.
pub const NANOS_PER_SECOND: u32 = 1_000_000_000;

/// A point in time as whole seconds and nanoseconds within the second.
#[derive(Clone, Copy, Debug, PartialEq, Eq, Structural)]
pub struct Stamp {
    /// Whole seconds.
    pub seconds: i64,
    /// Nanoseconds since the start of that second.
    pub nanos: u32,
}

impl Stamp {
    /// The stamp as one count of nanoseconds.
    pub open spec fn total_nanos(self) -> int {
        self.seconds * (NANOS_PER_SECOND as int) + self.nanos
    }

    /// Whether the nanoseconds stay within their second.
    pub open spec fn normal(self) -> bool {
        self.nanos < NANOS_PER_SECOND
    }

    /// Whether `self` is strictly earlier than `other`.
    pub open spec fn precedes(self, other: Stamp) -> bool {
        self.total_nanos() < other.total_nanos()
    }

    /// Decides whether `self` is strictly earlier than `other`, both being
    /// normal: earlier second first, and within one second the earlier
    /// nanosecond.
    pub fn is_before(&self, other: &Stamp) -> (earlier: bool)
        requires
            self.normal(),
            other.normal(),
        ensures
            earlier == self.precedes(*other),
    {
        self.seconds < other.seconds || (self.seconds == other.seconds && self.nanos
            < other.nanos)
    }

    /// The stamp in the form that message headers carry: seconds cut down to
    /// their low 32 bits, and the nanoseconds.
    pub fn header_time(&self) -> (time: (i32, u32))
        ensures
            time.0 == self.seconds as i32,
            time.1 == self.nanos,
            i32::MIN <= self.seconds <= i32::MAX ==> time.0 == self.seconds,
    {
        (#[verifier::truncate] (self.seconds as i32), self.nanos)
    }
}

/// What a frame handle says of its frame.
pub struct FrameView {
    pub image: ImageView,
    pub timestamp: Stamp,
}

/// One captured frame: when it was captured, what it looks like, and an owned
/// handle to its buffer.
///
/// A handle is the only owner of its buffer handle. Handing a frame to a sink
/// takes a handle of its own, made from a duplicate of the buffer handle with
/// [`FrameHandle::duplicate_with`]; the two are then released independently.
pub struct FrameHandle<B> {
    image: Image,
    timestamp: Stamp,
    buffer: B,
}

impl<B> View for FrameHandle<B> {
    type V = FrameView;

    closed spec fn view(&self) -> FrameView {
        FrameView { image: self.image@, timestamp: self.timestamp }
    }
}

impl<B> FrameHandle<B> {
    /// The buffer handle that this frame owns.
    pub closed spec fn spec_buffer(&self) -> B {
        self.buffer
    }

    /// A handle for the frame captured at `timestamp` into `buffer`.
    pub fn new(image: Image, timestamp: Stamp, buffer: B) -> (frame: FrameHandle<B>)
        ensures
            frame@ == (FrameView { image: image@, timestamp }),
            frame.spec_buffer() == buffer,
    {
        FrameHandle { image, timestamp, buffer }
    }

    /// Dimensions and format of the frame.
    pub fn image(&self) -> (image: Image)
        ensures
            image@ == self@.image,
    {
        self.image
    }

    /// Capture time of the frame.
    pub fn timestamp(&self) -> (timestamp: Stamp)
        ensures
            timestamp == self@.timestamp,
    {
        self.timestamp
    }

    /// The buffer handle, borrowed.
    pub fn buffer(&self) -> (buffer: &B)
        ensures
            *buffer == self.spec_buffer(),
    {
        &self.buffer
    }

    /// Gives up the frame for its buffer handle.
    pub fn into_buffer(self) -> (buffer: B)
        ensures
            buffer == self.spec_buffer(),
    {
        self.buffer
    }

    /// A second handle to the same frame, owning `duplicate`: same capture
    /// time, same description, a buffer handle of its own.
    pub fn duplicate_with(&self, duplicate: B) -> (copy: FrameHandle<B>)
        ensures
            copy@ == self@,
            copy.spec_buffer() == duplicate,
    {
        FrameHandle { image: self.image, timestamp: self.timestamp, buffer: duplicate }
    }
}

/// Stamps that differ are ordered one way or the other, never both.
pub proof fn stamps_are_totally_ordered(a: Stamp, b: Stamp)
    requires
        a.normal(),
        b.normal(),
    ensures
        a == b || a.precedes(b) || b.precedes(a),
        !(a.precedes(b) && b.precedes(a)),
{
    assert(a.seconds == b.seconds ==> a.total_nanos() - b.total_nanos() == a.nanos - b.nanos);
    if a.seconds < b.seconds {
        assert(a.seconds * (NANOS_PER_SECOND as int) + (NANOS_PER_SECOND as int) <= b.seconds * (
        NANOS_PER_SECOND as int));
    }
    if b.seconds < a.seconds {
        assert(b.seconds * (NANOS_PER_SECOND as int) + (NANOS_PER_SECOND as int) <= a.seconds * (
        NANOS_PER_SECOND as int));
    }
}

} // verus!
