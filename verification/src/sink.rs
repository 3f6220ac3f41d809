//! The sinks of a camera node and the order in which they are served.
//!
//! Besides the raw export, which is always on, a node may compress each frame
//! to a still image, to one full-frame video stream, and to four tile video
//! streams. Which of these run is decided once, at startup.

use crate::tile::{tile_order, TilePosition};
use vstd::prelude::*;

verus! {

/// Channel capacity of a sink with a single stream.
pub const SINGLE_SINK_CAPACITY: usize = 1;

/// Channel capacity of a tile sink: room for the burst that four tiles fed
/// from one frame make.
pub const TILE_SINK_CAPACITY: usize = 3;

/// One consumer of captured frames.
#[derive(Clone, Copy, Debug, PartialEq, Eq, Structural)]
pub enum SinkKind {
    /// Full-frame video compression.
    H264,
    /// Still-image compression.
    Jpeg,
    /// Video compression of one quadrant.
    Tile(TilePosition),
}

impl SinkKind {
    /// How many frames the sink's channel holds.
    pub open spec fn spec_capacity(&self) -> usize {
        match self {
            SinkKind::Tile(_) => TILE_SINK_CAPACITY,
            _ => SINGLE_SINK_CAPACITY,
        }
    }

    /// How many frames the sink's channel holds.
    #[verifier::when_used_as_spec(spec_capacity)]
    pub fn capacity(&self) -> (capacity: usize)
        ensures
            capacity == self.spec_capacity(),
    {
        match self {
            SinkKind::Tile(_) => TILE_SINK_CAPACITY,
            _ => SINGLE_SINK_CAPACITY,
        }
    }

    /// The name of the sink's worker.
    pub open spec fn spec_worker_name(self) -> Seq<char> {
        match self {
            SinkKind::H264 => "h264"@,
            SinkKind::Jpeg => "jpeg"@,
            SinkKind::Tile(TilePosition::TopLeft) => "h264_tile_topleft"@,
            SinkKind::Tile(TilePosition::TopRight) => "h264_tile_topright"@,
            SinkKind::Tile(TilePosition::BottomLeft) => "h264_tile_bottomleft"@,
            SinkKind::Tile(TilePosition::BottomRight) => "h264_tile_bottomright"@,
        }
    }

    /// The name of the sink's worker.
    pub fn worker_name(&self) -> (name: &'static str)
        ensures
            name@ == self.spec_worker_name(),
    {
        match self {
            SinkKind::H264 => "h264",
            SinkKind::Jpeg => "jpeg",
            SinkKind::Tile(TilePosition::TopLeft) => "h264_tile_topleft",
            SinkKind::Tile(TilePosition::TopRight) => "h264_tile_topright",
            SinkKind::Tile(TilePosition::BottomLeft) => "h264_tile_bottomleft",
            SinkKind::Tile(TilePosition::BottomRight) => "h264_tile_bottomright",
        }
    }
}

/// Which sinks are switched on, and the ceiling of the tile streams.
#[derive(Clone, Copy, Debug, PartialEq, Eq, Structural)]
pub struct SinkFlags {
    /// Stream full-frame H.264.
    pub h264: bool,
    /// Stream JPEGs.
    pub jpeg: bool,
    /// Stream the four H.264 tiles.
    pub h264_tiles: bool,
    /// Ceiling of each tile stream, in frames per second.
    pub h264_tiles_fps: u32,
}

/// One line of the registry: a sink, the capacity of its channel, and its
/// ceiling in frames per second if it keeps one.
#[derive(Clone, Copy, Debug, PartialEq, Eq, Structural)]
pub struct SinkEntry {
    pub kind: SinkKind,
    pub capacity: usize,
    pub throttle_fps: Option<u32>,
}

/// The registry line of a sink.
pub open spec fn entry_of(kind: SinkKind, flags: SinkFlags) -> SinkEntry {
    SinkEntry {
        kind,
        capacity: kind.spec_capacity(),
        throttle_fps: match kind {
            SinkKind::Tile(_) => Some(flags.h264_tiles_fps),
            _ => None,
        },
    }
}

/// The sinks that are switched on, in the order in which each frame is
/// offered to them: full video, still image, then the tiles row by row.
pub open spec fn active_sinks(flags: SinkFlags) -> Seq<SinkKind> {
    let video = if flags.h264 {
        seq![SinkKind::H264]
    } else {
        seq![]
    };
    let still = if flags.jpeg {
        seq![SinkKind::Jpeg]
    } else {
        seq![]
    };
    let tiles = if flags.h264_tiles {
        tile_order().map_values(|p: TilePosition| SinkKind::Tile(p))
    } else {
        seq![]
    };
    video + still + tiles
}

/// Whether a sink is switched on.
pub open spec fn enabled(kind: SinkKind, flags: SinkFlags) -> bool {
    match kind {
        SinkKind::H264 => flags.h264,
        SinkKind::Jpeg => flags.jpeg,
        SinkKind::Tile(_) => flags.h264_tiles,
    }
}

/// The registry for a set of flags: one line for each active sink.
pub open spec fn registry_of(flags: SinkFlags) -> Seq<SinkEntry> {
    active_sinks(flags).map_values(|kind: SinkKind| entry_of(kind, flags))
}

/// Builds the registry of sinks from the startup flags.
pub fn registry(flags: &SinkFlags) -> (entries: Vec<SinkEntry>)
    ensures
        entries@ == registry_of(*flags),
{
    let mut entries: Vec<SinkEntry> = Vec::new();
    if flags.h264 {
        entries.push(
            SinkEntry { kind: SinkKind::H264, capacity: SinkKind::H264.capacity(), throttle_fps: None },
        );
    }
    if flags.jpeg {
        entries.push(
            SinkEntry { kind: SinkKind::Jpeg, capacity: SinkKind::Jpeg.capacity(), throttle_fps: None },
        );
    }
    if flags.h264_tiles {
        let positions = TilePosition::all();
        let ghost before = entries@;
        let mut i: usize = 0;
        while i < 4
            invariant
                i <= 4,
                positions@ == tile_order(),
                entries@ == before + Seq::new(
                    i as nat,
                    |k: int| entry_of(SinkKind::Tile(tile_order()[k]), *flags),
                ),
            decreases 4 - i,
        {
            let kind = SinkKind::Tile(positions[i]);
            entries.push(
                SinkEntry {
                    kind,
                    capacity: kind.capacity(),
                    throttle_fps: Some(flags.h264_tiles_fps),
                },
            );
            i = i + 1;
        }
    }
    proof {
        assert(entries@ =~= registry_of(*flags));
    }
    entries
}

/// A sink is in the registry exactly when it is switched on, and then once.
pub proof fn registry_lists_enabled_sinks_once(flags: SinkFlags, kind: SinkKind)
    ensures
        enabled(kind, flags) <==> active_sinks(flags).contains(kind),
        forall|i: int, j: int|
            0 <= i < j < active_sinks(flags).len() ==> active_sinks(flags)[i] != active_sinks(
                flags,
            )[j],
        active_sinks(flags).len() <= 6,
{
    let sinks = active_sinks(flags);
    let tiles = tile_order().map_values(|p: TilePosition| SinkKind::Tile(p));
    assert(tiles.len() == 4);
    assert(tiles[0] == SinkKind::Tile(TilePosition::TopLeft));
    assert(tiles[1] == SinkKind::Tile(TilePosition::TopRight));
    assert(tiles[2] == SinkKind::Tile(TilePosition::BottomLeft));
    assert(tiles[3] == SinkKind::Tile(TilePosition::BottomRight));
    if enabled(kind, flags) {
        let video: int = if flags.h264 { 1 } else { 0 };
        let still: int = if flags.jpeg { 1 } else { 0 };
        match kind {
            SinkKind::H264 => {
                assert(sinks[0] == kind);
            },
            SinkKind::Jpeg => {
                assert(sinks[video] == kind);
            },
            SinkKind::Tile(p) => {
                let k: int = match p {
                    TilePosition::TopLeft => 0,
                    TilePosition::TopRight => 1,
                    TilePosition::BottomLeft => 2,
                    TilePosition::BottomRight => 3,
                };
                assert(sinks[video + still + k] == kind);
            },
        }
    }
}

} // verus!
