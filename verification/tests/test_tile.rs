use edgefirst_camera::image::Rect;
use edgefirst_camera::tile::TilePosition;

fn contains(rect: (u32, u32, u32, u32), px: u32, py: u32) -> bool {
    let (x, y, w, h) = rect;
    x <= px && px < x + w && y <= py && py < y + h
}

#[test]
fn crop_params_of_a_4k_source() {
    assert_eq!(TilePosition::TopLeft.get_crop_params(3840, 2160), (0, 0, 1920, 1080));
    assert_eq!(TilePosition::TopRight.get_crop_params(3840, 2160), (1920, 0, 1920, 1080));
    assert_eq!(TilePosition::BottomLeft.get_crop_params(3840, 2160), (0, 1080, 1920, 1080));
    assert_eq!(TilePosition::BottomRight.get_crop_params(3840, 2160), (1920, 1080, 1920, 1080));
}

#[test]
fn tiles_of_a_4k_source_partition_it() {
    let tiles = TilePosition::all().map(|p| p.get_crop_params(3840, 2160));
    let area: u64 = tiles.iter().map(|t| t.2 as u64 * t.3 as u64).sum();
    assert_eq!(area, 3840 * 2160);
    for (px, py) in [(0, 0), (1919, 1079), (1920, 1079), (1919, 1080), (1920, 1080), (3839, 2159)] {
        let hits = tiles.iter().filter(|t| contains(**t, px, py)).count();
        assert_eq!(hits, 1, "pixel ({px}, {py})");
    }
    for t in tiles {
        assert!(t.0 + t.2 <= 3840 && t.1 + t.3 <= 2160);
    }
}

#[test]
fn tiles_of_a_small_even_source_partition_it() {
    for (w, h) in [(8u32, 6u32), (2, 2), (4, 10)] {
        let tiles = TilePosition::all().map(|p| p.get_crop_params(w, h));
        for py in 0..h {
            for px in 0..w {
                let hits = tiles.iter().filter(|t| contains(**t, px, py)).count();
                assert_eq!(hits, 1, "pixel ({px}, {py}) of {w}x{h}");
            }
        }
    }
}

#[test]
fn tiles_of_an_odd_source_leave_the_last_row_and_column() {
    let tiles = TilePosition::all().map(|p| p.get_crop_params(7, 5));
    assert_eq!(tiles, [(0, 0, 3, 2), (3, 0, 3, 2), (0, 2, 3, 2), (3, 2, 3, 2)]);
    for py in 0..5 {
        for px in 0..7 {
            let hits = tiles.iter().filter(|t| contains(**t, px, py)).count();
            let expected = if px < 6 && py < 4 { 1 } else { 0 };
            assert_eq!(hits, expected, "pixel ({px}, {py})");
        }
    }
}

#[test]
fn tiles_of_degenerate_sources() {
    assert_eq!(TilePosition::BottomRight.get_crop_params(0, 0), (0, 0, 0, 0));
    assert_eq!(TilePosition::BottomRight.get_crop_params(1, 1), (0, 0, 0, 0));
    assert_eq!(
        TilePosition::BottomRight.get_crop_params(u32::MAX, u32::MAX),
        (2147483647, 2147483647, 2147483647, 2147483647)
    );
}

#[test]
fn output_dimensions_are_1080p() {
    assert_eq!(TilePosition::get_output_dimensions(), (1920, 1080));
}

#[test]
fn crop_rect_matches_crop_params() {
    let rect = TilePosition::BottomRight.crop_rect(3840, 2160);
    assert_eq!(rect, Rect { x: 1920, y: 1080, width: 1920, height: 1080 });
    let top = TilePosition::TopRight.crop_rect(1280, 720);
    assert_eq!(top, Rect { x: 640, y: 0, width: 640, height: 360 });
    let edge = TilePosition::BottomRight.crop_rect(u32::MAX, u32::MAX);
    assert_eq!(edge, Rect { x: i32::MAX, y: i32::MAX, width: i32::MAX, height: i32::MAX });
}

#[test]
fn positions_are_listed_row_by_row() {
    let all = TilePosition::all();
    assert_eq!(
        all,
        [
            TilePosition::TopLeft,
            TilePosition::TopRight,
            TilePosition::BottomLeft,
            TilePosition::BottomRight
        ]
    );
    for (i, p) in all.iter().enumerate() {
        assert_eq!(p.index(), i);
    }
}

#[test]
fn geometry_follows_the_negotiated_resolution() {
    // Asked for 1920x1080, the device gave 1280x720.
    assert_eq!(TilePosition::TopLeft.get_crop_params(1280, 720), (0, 0, 640, 360));
    assert_eq!(TilePosition::TopRight.get_crop_params(1280, 720), (640, 0, 640, 360));
    assert_eq!(TilePosition::BottomLeft.get_crop_params(1280, 720), (0, 360, 640, 360));
    assert_eq!(TilePosition::BottomRight.get_crop_params(1280, 720), (640, 360, 640, 360));
}
