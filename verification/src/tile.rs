//! Quadrant tiling of a source frame.
//!
//! A source frame is cut into four tiles, one per quadrant. Each tile is half
//! the source's width and half its height, rounded down, and is encoded as a
//! stream of its own.

use crate::image::{Rect, Region};
use vstd::prelude::*;

verus! {

/// Which quadrant of the source frame a tile covers.
#[derive(Clone, Copy, Debug, PartialEq, Eq, Structural)]
pub enum TilePosition {
    TopLeft,
    TopRight,
    BottomLeft,
    BottomRight,
}

/// Width or height of a tile cut from a source of that extent.
pub open spec fn half(extent: int) -> int {
    extent / 2
}

/// The quadrant that holds the pixel at column `px`, row `py`.
pub open spec fn tile_at(source_width: int, source_height: int, px: int, py: int) -> TilePosition {
    if px < half(source_width) {
        if py < half(source_height) {
            TilePosition::TopLeft
        } else {
            TilePosition::BottomLeft
        }
    } else {
        if py < half(source_height) {
            TilePosition::TopRight
        } else {
            TilePosition::BottomRight
        }
    }
}

impl TilePosition {
    /// Whether the tile is in the right-hand column.
    pub open spec fn is_right(self) -> bool {
        self == TilePosition::TopRight || self == TilePosition::BottomRight
    }

    /// Whether the tile is in the lower row.
    pub open spec fn is_bottom(self) -> bool {
        self == TilePosition::BottomLeft || self == TilePosition::BottomRight
    }

    /// The tile's rectangle in a source of the given size: half the source
    /// each way, starting at the source's origin or one tile further along.
    pub open spec fn region(self, source_width: int, source_height: int) -> Region {
        Region {
            x: if self.is_right() {
                half(source_width)
            } else {
                0
            },
            y: if self.is_bottom() {
                half(source_height)
            } else {
                0
            },
            width: half(source_width),
            height: half(source_height),
        }
    }

    /// Crop rectangle `(x, y, width, height)` of this tile in a source frame
    /// of `source_width` x `source_height` pixels.
    pub fn get_crop_params(&self, source_width: u32, source_height: u32) -> (crop: (
        u32,
        u32,
        u32,
        u32,
    ))
        ensures
            crop.0 == self.region(source_width as int, source_height as int).x,
            crop.1 == self.region(source_width as int, source_height as int).y,
            crop.2 == self.region(source_width as int, source_height as int).width,
            crop.3 == self.region(source_width as int, source_height as int).height,
    {
        let source_tile_width = source_width / 2;
        let source_tile_height = source_height / 2;

        match self {
            TilePosition::TopLeft => (0, 0, source_tile_width, source_tile_height),
            TilePosition::TopRight => (source_tile_width, 0, source_tile_width, source_tile_height),
            TilePosition::BottomLeft => (0, source_tile_height, source_tile_width, source_tile_height),
            TilePosition::BottomRight => (
                source_tile_width,
                source_tile_height,
                source_tile_width,
                source_tile_height,
            ),
        }
    }

    /// Size in pixels of the stream encoded from each tile.
    pub fn get_output_dimensions() -> (dims: (u32, u32))
        ensures
            dims == (1920u32, 1080u32),
    {
        (1920, 1080)
    }

    /// The tile's crop as a rectangle in the encoder's signed coordinates.
    ///
    /// Half of any `u32` fits an `i32`, so nothing is lost.
    pub fn crop_rect(&self, source_width: u32, source_height: u32) -> (rect: Rect)
        ensures
            rect@ == self.region(source_width as int, source_height as int),
    {
        let (x, y, width, height) = self.get_crop_params(source_width, source_height);
        Rect { x: x as i32, y: y as i32, width: width as i32, height: height as i32 }
    }

    /// The four positions, in the order in which their workers are started
    /// and fed.
    pub fn all() -> (positions: [TilePosition; 4])
        ensures
            positions@ == tile_order(),
    {
        [
            TilePosition::TopLeft,
            TilePosition::TopRight,
            TilePosition::BottomLeft,
            TilePosition::BottomRight,
        ]
    }

    /// The position's place in [`TilePosition::all`].
    pub fn index(&self) -> (i: usize)
        ensures
            i < 4,
            tile_order()[i as int] == *self,
    {
        match self {
            TilePosition::TopLeft => 0,
            TilePosition::TopRight => 1,
            TilePosition::BottomLeft => 2,
            TilePosition::BottomRight => 3,
        }
    }
}

/// The four tile positions, row by row.
pub open spec fn tile_order() -> Seq<TilePosition> {
    seq![
        TilePosition::TopLeft,
        TilePosition::TopRight,
        TilePosition::BottomLeft,
        TilePosition::BottomRight,
    ]
}

/// No pixel lies in two different tiles, whatever the source size.
pub proof fn tiles_never_overlap(
    a: TilePosition,
    b: TilePosition,
    source_width: nat,
    source_height: nat,
    px: int,
    py: int,
)
    requires
        a != b,
    ensures
        !(a.region(source_width as int, source_height as int).contains(px, py) && b.region(
            source_width as int,
            source_height as int,
        ).contains(px, py)),
{
}

/// Every pixel of a tile is a pixel of the source frame.
pub proof fn tiles_lie_within_source(
    tile: TilePosition,
    source_width: nat,
    source_height: nat,
    px: int,
    py: int,
)
    requires
        tile.region(source_width as int, source_height as int).contains(px, py),
    ensures
        0 <= px < source_width,
        0 <= py < source_height,
{
}

/// The tiles together are exactly the part of the source that two tile widths
/// and two tile heights span: a pixel is in some tile if and only if it lies
/// there, and then the tile is the one [`tile_at`] names.
pub proof fn tiles_cover_doubled_halves(
    source_width: nat,
    source_height: nat,
    px: int,
    py: int,
)
    ensures
        (exists|t: TilePosition| #[trigger]
            t.region(source_width as int, source_height as int).contains(px, py)) <==> (0 <= px < 2
            * half(source_width as int) && 0 <= py < 2 * half(source_height as int)),
        forall|t: TilePosition| #[trigger]
            t.region(source_width as int, source_height as int).contains(px, py) ==> t == tile_at(
                source_width as int,
                source_height as int,
                px,
                py,
            ),
{
    let w = source_width as int;
    let h = source_height as int;
    if 0 <= px < 2 * half(w) && 0 <= py < 2 * half(h) {
        assert(tile_at(w, h, px, py).region(w, h).contains(px, py));
    }
}

/// The four tiles partition a source frame of even width and height: every
/// pixel of the frame lies in exactly one tile, with no overlap and no gap.
pub proof fn tiles_partition_source(source_width: nat, source_height: nat, px: int, py: int)
    requires
        source_width % 2 == 0,
        source_height % 2 == 0,
        0 <= px < source_width,
        0 <= py < source_height,
    ensures
        tile_at(source_width as int, source_height as int, px, py).region(
            source_width as int,
            source_height as int,
        ).contains(px, py),
        forall|t: TilePosition| #[trigger]
            t.region(source_width as int, source_height as int).contains(px, py) ==> t == tile_at(
                source_width as int,
                source_height as int,
                px,
                py,
            ),
{
}

/// The four tiles of an even-sized source have, together, as many pixels as
/// the source.
pub proof fn tiles_fill_source_area(source_width: nat, source_height: nat)
    requires
        source_width % 2 == 0,
        source_height % 2 == 0,
    ensures
        4 * TilePosition::TopLeft.region(source_width as int, source_height as int).area()
            == source_width * source_height,
        forall|t: TilePosition| #[trigger]
            t.region(source_width as int, source_height as int).area() == TilePosition::TopLeft.region(
                source_width as int,
                source_height as int,
            ).area(),
{
    let hw = half(source_width as int);
    let hh = half(source_height as int);
    assert(source_width == 2 * hw);
    assert(source_height == 2 * hh);
    assert(4 * (hw * hh) == (2 * hw) * (2 * hh)) by (nonlinear_arith);
}

} // verus!
