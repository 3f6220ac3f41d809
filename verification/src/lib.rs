//! Core of a camera node: one capture loop that feeds several sinks.
//!
//! A camera node reads frames from a video device at a fixed rate and hands
//! each of them to a number of sinks that compress and publish it: a still
//! image, a full-frame video stream, and four video streams that each show a
//! quadrant of the frame. Sinks run at their own pace. Capture never waits
//! for one of them: a sink that is busy skips frames.
//!
//! This library holds what the node decides and computes, with its contracts
//! proved. The devices, the encoders and the transport are driven by the
//! program around it.
//!
//! - [`capture`]: the state of the capture loop and what each frame does to it
//! - [`channel`]: the bounded hand-off of frames to a sink, and what a sink
//!   can observe of the frames that capture offers
//! - [`sink`]: the sinks, their channel capacities and their order
//! - [`worker`]: what a sink's worker does with a frame, for tiles with a
//!   ceiling on the frame rate and a crop that follows the frame's size
//! - [`throttle`]: the ceiling on a worker's frame rate
//! - [`tile`]: the quadrants of a frame
//! - [`rate`]: the estimate of the capture rate
//! - [`deadline`]: soft deadlines of the stages
//! - [`frame`], [`image`]: frames, their description, formats and sizes
//! - [`video`]: settings and bookkeeping of the video encoder
//! - [`message`]: the messages that go out
//! - [`calib`]: the camera calibration read at startup
//! - [`args`]: settings given at startup

pub mod args;
pub mod calib;
pub mod capture;
pub mod channel;
pub mod count;
pub mod deadline;
pub mod frame;
pub mod image;
pub mod message;
pub mod rate;
pub mod sink;
pub mod throttle;
pub mod tile;
pub mod video;
pub mod worker;
