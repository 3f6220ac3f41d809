//! Settings that the pipeline is started with.

use vstd::prelude::*;

verus! {

/// How the camera mirrors the captured frame.
#[derive(Clone, Copy, Debug, PartialEq, Eq, Structural)]
pub enum MirrorSetting {
    Off,
    Horizontal,
    Vertical,
    Both,
}

/// Target bitrate of the H.264 encoder.
#[derive(Clone, Copy, Debug, PartialEq, Eq, Structural)]
pub enum H264Bitrate {
    Auto,
    Mbps5,
    Mbps25,
    Mbps50,
    Mbps100,
}

/// Outcome of opening the camera at a requested resolution.
#[derive(Clone, Copy, Debug, PartialEq, Eq, Structural)]
pub struct Negotiated {
    /// The width that the pipeline works with from here on.
    pub width: u32,
    /// The height that the pipeline works with from here on.
    pub height: u32,
    /// Whether the device chose another resolution than the one asked for.
    pub differs: bool,
}

/// Settles the capture resolution once the device has been opened.
///
/// The device may pick another resolution than the one requested. The
/// pipeline then goes on with what the device reports, and the caller is told
/// so that it can warn.
pub fn negotiate(requested: (u32, u32), actual: (u32, u32)) -> (outcome: Negotiated)
    ensures
        outcome.width == actual.0,
        outcome.height == actual.1,
        outcome.differs == (requested != actual),
{
    Negotiated {
        width: actual.0,
        height: actual.1,
        differs: requested.0 != actual.0 || requested.1 != actual.1,
    }
}

} // verus!
