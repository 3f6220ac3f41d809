//! Settings and bookkeeping of the video encoder.
//!
//! The encoder itself is hardware. What is worked out here is what it is
//! created with, and the count of output since the last keyframe from which
//! the bitrate is estimated.

use crate::args::H264Bitrate;
use crate::image::Rect;
use vstd::prelude::*;

verus! {

/// The sensor's nominal frame rate, in frames per second.
pub const TARGET_FPS: i32 = 30;

/// The count of output that a stretch between keyframes has to exceed for
/// its bitrate to be reported.
pub const REPORT_FLOOR: usize = 1000;

/// What an encoder is created with.
#[derive(Clone, Copy, Debug, PartialEq, Eq, Structural)]
pub struct EncoderSetup {
    /// Target bitrate.
    pub bitrate: H264Bitrate,
    /// Frame rate that the encoder is told.
    pub fps: i32,
    /// Part of each source frame that is encoded.
    pub crop: Rect,
    /// Width of the encoded stream in pixels.
    pub output_width: i32,
    /// Height of the encoded stream in pixels.
    pub output_height: i32,
    /// Duration that every output frame is given.
    pub frame_duration: i64,
}

/// The frame rate that an encoder is told: the sink's ceiling if it has one,
/// the sensor's nominal rate if not.
pub open spec fn fps_for(target_fps: Option<i32>) -> i32 {
    match target_fps {
        Some(fps) => fps,
        None => TARGET_FPS,
    }
}

/// The rectangle that covers a whole `width` x `height` frame.
pub open spec fn whole_frame(width: i32, height: i32) -> Rect {
    Rect { x: 0, y: 0, width, height }
}

/// Setup of an encoder for whole frames of `width` x `height` pixels at the
/// sensor's nominal rate.
pub fn setup(width: i32, height: i32, bitrate: H264Bitrate) -> (setup: EncoderSetup)
    ensures
        setup == (EncoderSetup {
            bitrate,
            fps: TARGET_FPS,
            crop: whole_frame(width, height),
            output_width: width,
            output_height: height,
            frame_duration: 30,
        }),
{
    EncoderSetup {
        bitrate,
        fps: TARGET_FPS,
        crop: Rect { x: 0, y: 0, width, height },
        output_width: width,
        output_height: height,
        frame_duration: 30,
    }
}

/// Setup of an encoder that encodes the part of each source frame inside
/// `crop_rect`, given as `(x, y, width, height)`, to a stream of
/// `output_width` x `output_height` pixels, at `target_fps` frames per second
/// if given.
pub fn setup_with_crop(
    output_width: i32,
    output_height: i32,
    crop_rect: (i32, i32, i32, i32),
    bitrate: H264Bitrate,
    target_fps: Option<i32>,
) -> (setup: EncoderSetup)
    ensures
        setup == (EncoderSetup {
            bitrate,
            fps: fps_for(target_fps),
            crop: Rect {
                x: crop_rect.0,
                y: crop_rect.1,
                width: crop_rect.2,
                height: crop_rect.3,
            },
            output_width,
            output_height,
            frame_duration: fps_for(target_fps) as i64,
        }),
{
    let fps = match target_fps {
        Some(fps) => fps,
        None => TARGET_FPS,
    };
    let (x, y, width, height) = crop_rect;
    EncoderSetup {
        bitrate,
        fps,
        crop: Rect { x, y, width, height },
        output_width,
        output_height,
        frame_duration: fps as i64,
    }
}

/// A stream size in the encoder's signed coordinates; none where a side is
/// beyond their range.
pub fn encoder_size(width: u32, height: u32) -> (size: Option<(i32, i32)>)
    ensures
        size is Some <==> width <= i32::MAX && height <= i32::MAX,
        size matches Some(s) ==> s.0 == width && s.1 == height,
{
    if width <= i32::MAX as u32 && height <= i32::MAX as u32 {
        Some((width as i32, height as i32))
    } else {
        None
    }
}

/// `count` more than `total`, as far as a `usize` can say.
pub open spec fn add_capped(total: usize, count: usize) -> usize {
    if total + count <= usize::MAX {
        (total + count) as usize
    } else {
        usize::MAX
    }
}

/// Count of encoder output since the last keyframe that closed a stretch.
#[derive(Clone, Copy, Debug, PartialEq, Eq, Structural)]
pub struct BitrateMeter {
    /// Accumulated output since the last keyframe (for bitrate estimation).
    pub bits: usize,
}

impl BitrateMeter {
    /// Whether a frame closes the stretch counted so far: it is a keyframe,
    /// and the stretch is above the floor.
    pub open spec fn closes(self, is_key: bool) -> bool {
        is_key && self.bits > REPORT_FLOOR
    }

    /// The count after a frame of `len` bytes: the frame is added to the
    /// stretch, which starts anew if the frame closes it. A count at the
    /// largest `usize` stays there.
    pub open spec fn after(self, len: usize, is_key: bool) -> BitrateMeter {
        BitrateMeter {
            bits: add_capped(
                if self.closes(is_key) {
                    0
                } else {
                    self.bits
                },
                len,
            ),
        }
    }

    /// A meter that has counted nothing.
    pub fn new() -> (meter: BitrateMeter)
        ensures
            meter.bits == 0,
    {
        BitrateMeter { bits: 0 }
    }

    /// Counts an encoded frame of `len` bytes. Where the frame closes a
    /// stretch, the stretch is reported: eight times its count.
    pub fn record(&mut self, len: usize, is_key: bool) -> (report: Option<u128>)
        ensures
            *final(self) == old(self).after(len, is_key),
            report is Some <==> old(self).closes(is_key),
            report matches Some(bits) ==> bits == 8 * old(self).bits,
    {
        let report = if is_key && self.bits > REPORT_FLOOR {
            let bits: u128 = 8 * (self.bits as u128);
            self.bits = 0;
            Some(bits)
        } else {
            None
        };
        self.bits = self.bits.saturating_add(len);
        report
    }
}

} // verus!
