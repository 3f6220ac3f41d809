use edgefirst_camera::args::{negotiate, Negotiated};
use edgefirst_camera::sink::{registry, SinkEntry, SinkFlags, SinkKind};
use edgefirst_camera::tile::TilePosition;

#[test]
fn the_registry_lists_the_active_sinks_in_order() {
    let flags = SinkFlags { h264: true, jpeg: true, h264_tiles: true, h264_tiles_fps: 15 };
    let entries = registry(&flags);
    assert_eq!(
        entries,
        vec![
            SinkEntry { kind: SinkKind::H264, capacity: 1, throttle_fps: None },
            SinkEntry { kind: SinkKind::Jpeg, capacity: 1, throttle_fps: None },
            SinkEntry { kind: SinkKind::Tile(TilePosition::TopLeft), capacity: 3, throttle_fps: Some(15) },
            SinkEntry { kind: SinkKind::Tile(TilePosition::TopRight), capacity: 3, throttle_fps: Some(15) },
            SinkEntry { kind: SinkKind::Tile(TilePosition::BottomLeft), capacity: 3, throttle_fps: Some(15) },
            SinkEntry { kind: SinkKind::Tile(TilePosition::BottomRight), capacity: 3, throttle_fps: Some(15) },
        ]
    );
}

#[test]
fn the_registry_follows_the_flags() {
    let none = SinkFlags { h264: false, jpeg: false, h264_tiles: false, h264_tiles_fps: 15 };
    assert!(registry(&none).is_empty());
    let still = SinkFlags { jpeg: true, ..none };
    assert_eq!(
        registry(&still),
        vec![SinkEntry { kind: SinkKind::Jpeg, capacity: 1, throttle_fps: None }]
    );
    let tiles = SinkFlags { h264_tiles: true, h264_tiles_fps: 10, ..none };
    let entries = registry(&tiles);
    assert_eq!(entries.len(), 4);
    assert!(entries.iter().all(|e| e.capacity == 3 && e.throttle_fps == Some(10)));
    let video_and_tiles = SinkFlags { h264: true, ..tiles };
    let entries = registry(&video_and_tiles);
    assert_eq!(entries.len(), 5);
    assert_eq!(entries[0].kind, SinkKind::H264);
    assert_eq!(entries[4].kind, SinkKind::Tile(TilePosition::BottomRight));
}

#[test]
fn capacities_and_names_of_the_sinks() {
    assert_eq!(SinkKind::H264.capacity(), 1);
    assert_eq!(SinkKind::Jpeg.capacity(), 1);
    assert_eq!(SinkKind::H264.worker_name(), "h264");
    assert_eq!(SinkKind::Jpeg.worker_name(), "jpeg");
    let names = TilePosition::all().map(|p| SinkKind::Tile(p).worker_name());
    assert_eq!(
        names,
        ["h264_tile_topleft", "h264_tile_topright", "h264_tile_bottomleft", "h264_tile_bottomright"]
    );
    for position in TilePosition::all() {
        assert_eq!(SinkKind::Tile(position).capacity(), 3);
    }
}

#[test]
fn the_pipeline_goes_on_with_the_negotiated_resolution() {
    assert_eq!(
        negotiate((1920, 1080), (1280, 720)),
        Negotiated { width: 1280, height: 720, differs: true }
    );
    assert_eq!(
        negotiate((1920, 1080), (1920, 1080)),
        Negotiated { width: 1920, height: 1080, differs: false }
    );
    assert!(negotiate((1920, 1080), (1920, 1088)).differs);
    assert!(negotiate((1920, 1080), (1080, 1920)).differs);
}
