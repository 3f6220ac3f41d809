use edgefirst_camera::frame::Stamp;
use edgefirst_camera::image::Rect;
use edgefirst_camera::throttle::Throttle;
use edgefirst_camera::tile::TilePosition;
use edgefirst_camera::worker::{Outcome, Stage, TileAction, TileWorker, WorkerStats};
use edgefirst_schemas::foxglove_msgs::FoxgloveCompressedVideo;

const MS: u64 = 1_000_000;
const SECOND: u64 = 1_000_000_000;

/// The period of 15 frames per second, rounded up to whole nanoseconds.
const PERIOD_15: u64 = 66_666_667;

fn stamp(n: u64) -> Stamp {
    Stamp { seconds: 100 + (n / 30) as i64, nanos: ((n % 30) * 33_333_333) as u32 }
}

#[test]
fn the_interval_is_one_frame_period() {
    assert_eq!(Throttle::new(15, 0).interval(), 66_666_667);
    assert_eq!(Throttle::new(30, 0).interval(), 33_333_334);
    assert_eq!(Throttle::new(1, 0).interval(), SECOND);
    assert_eq!(Throttle::new(2, 0).interval(), 500_000_000);
    assert_eq!(Throttle::new(1000, 0).interval(), MS);
    assert_eq!(Throttle::new(1001, 0).interval(), 999_001);
    assert_eq!(Throttle::new(1_000_000_000, 0).interval(), 1);
    assert_eq!(Throttle::new(1_000_000_001, 0).interval(), 1);
    assert_eq!(Throttle::new(u32::MAX, 0).interval(), 1);
    assert_eq!(Throttle::new(15, 42).last(), 42);
}

#[test]
fn a_frame_is_admitted_once_a_full_period_has_passed() {
    let mut throttle = Throttle::new(15, SECOND);
    assert!(!throttle.admits(SECOND));
    // 66 ms is not yet a fifteenth of a second.
    assert!(!throttle.admits(SECOND + 66 * MS));
    assert!(!throttle.admits(SECOND + 66_666_666));
    assert!(throttle.admits(SECOND + 66_666_667));
    assert!(throttle.admits(SECOND + 67 * MS));
    assert!(throttle.admits(u64::MAX));
    // A clock that steps back has not passed any time.
    assert!(!throttle.admits(0));
    throttle.mark(SECOND + 67 * MS);
    assert_eq!(throttle.last(), SECOND + 67 * MS);
    assert_eq!(throttle.interval(), PERIOD_15);
    assert!(!throttle.admits(SECOND + 133 * MS));
    assert!(throttle.admits(SECOND + 134 * MS));
}

#[test]
fn admission_is_elapsed_times_rate_reaching_a_second() {
    for fps in [1u32, 7, 15, 24, 30, 60, 999, 1000, 1001, 123_456, u32::MAX] {
        let throttle = Throttle::new(fps, 1_000);
        let interval = throttle.interval();
        for waited in [0, 1, interval - 1, interval, interval + 1, 2 * interval] {
            let full = waited as u128 * fps as u128 >= SECOND as u128;
            assert_eq!(throttle.admits(1_000 + waited), full, "{fps} fps, {waited} ns");
        }
    }
}

#[test]
fn every_rate_has_a_ceiling() {
    // Two frames at the same instant are never both encoded.
    for fps in [1001u32, 2000, 1_000_000_000, u32::MAX] {
        let mut worker = TileWorker::new(TilePosition::TopLeft, fps, 0);
        assert!(matches!(worker.on_frame(SECOND, stamp(1), 64, 64), TileAction::Encode { .. }));
        worker.on_done(None);
        assert_eq!(worker.on_frame(SECOND, stamp(2), 64, 64), TileAction::Skip);
    }
    // At 1000 frames per second two encodes are a millisecond apart.
    let mut worker = TileWorker::new(TilePosition::TopLeft, 1000, 0);
    assert!(matches!(worker.on_frame(SECOND, stamp(1), 64, 64), TileAction::Encode { .. }));
    worker.on_done(None);
    assert_eq!(worker.on_frame(SECOND + MS - 1, stamp(2), 64, 64), TileAction::Skip);
    assert!(matches!(worker.on_frame(SECOND + MS, stamp(3), 64, 64), TileAction::Encode { .. }));
}

#[test]
fn a_tile_worker_at_15_fps_fed_at_30_fps_encodes_at_most_15_per_second() {
    let mut worker = TileWorker::new(TilePosition::TopLeft, 15, 0);
    let mut encodes = Vec::new();
    // Three seconds of frames, one every thirtieth of a second.
    for n in 1..=90u64 {
        let now = n * 33_333_334;
        match worker.on_frame(now, stamp(n), 3840, 2160) {
            TileAction::Skip => {}
            TileAction::Encode { .. } => {
                encodes.push(now);
                worker.on_done(None);
            }
        }
    }
    // Every second frame is encoded.
    assert_eq!(encodes.len(), 45);
    for start in (0..2 * SECOND).step_by(10_000_000) {
        let count = encodes.iter().filter(|t| start <= **t && **t < start + SECOND).count();
        assert!((14..=15).contains(&count), "{count} encodes in the second from {start}");
    }
    assert!(encodes.windows(2).all(|pair| pair[1] - pair[0] >= PERIOD_15));
    let stats = worker.stats();
    assert_eq!(stats.published as usize, encodes.len());
    assert_eq!(stats.published + stats.throttled, 90);
    assert_eq!(stats.failed, 0);
}

#[test]
fn frames_that_come_a_little_early_wait_for_the_next() {
    // Frames a nanosecond short of a thirtieth of a second apart: the second
    // frame after an encode comes just before the period is over.
    let mut worker = TileWorker::new(TilePosition::TopLeft, 15, 0);
    let mut encodes = Vec::new();
    for n in 1..=90u64 {
        let now = n * 33_333_333;
        if let TileAction::Encode { .. } = worker.on_frame(now, stamp(n), 3840, 2160) {
            encodes.push(now);
            worker.on_done(None);
        }
    }
    assert_eq!(encodes.len(), 30);
    assert!(encodes.windows(2).all(|pair| pair[1] - pair[0] >= PERIOD_15));
}

#[test]
fn a_burst_is_cut_down_to_the_ceiling() {
    let mut worker = TileWorker::new(TilePosition::TopLeft, 15, 0);
    let mut encodes = 0;
    // A thousand frames within one second: one is encoded every 67 ms.
    for n in 1..=1000u64 {
        if let TileAction::Encode { .. } = worker.on_frame(n * MS, stamp(n), 3840, 2160) {
            encodes += 1;
            worker.on_done(None);
        }
    }
    assert_eq!(encodes, 14);
    // A frame every nanosecond for a second would give fifteen.
    let mut throttle = Throttle::new(15, 0);
    let mut count = 0;
    let mut now = 0;
    while now + throttle.interval() < SECOND {
        now += throttle.interval();
        assert!(throttle.admits(now));
        assert!(!throttle.admits(now - 1));
        throttle.mark(now);
        count += 1;
    }
    assert_eq!(count, 14);
    assert!(throttle.admits(now + throttle.interval()));
}

#[test]
fn a_tile_worker_starts_with_a_4k_crop() {
    let worker = TileWorker::new(TilePosition::BottomRight, 15, 0);
    assert_eq!(worker.position(), TilePosition::BottomRight);
    assert_eq!(worker.crop(), Rect { x: 1920, y: 1080, width: 1920, height: 1080 });
    assert_eq!(worker.stats(), WorkerStats { published: 0, throttled: 0, failed: 0 });
}

#[test]
fn a_tile_worker_recrops_when_the_source_changes() {
    let mut worker = TileWorker::new(TilePosition::BottomRight, 15, 0);
    assert_eq!(
        worker.on_frame(100 * MS, stamp(1), 3840, 2160),
        TileAction::Encode {
            crop: Rect { x: 1920, y: 1080, width: 1920, height: 1080 },
            recropped: false
        }
    );
    worker.on_done(None);
    // The device turns out to deliver 1280x720.
    assert_eq!(
        worker.on_frame(200 * MS, stamp(2), 1280, 720),
        TileAction::Encode { crop: Rect { x: 640, y: 360, width: 640, height: 360 }, recropped: true }
    );
    worker.on_done(None);
    assert_eq!(worker.crop(), Rect { x: 640, y: 360, width: 640, height: 360 });
    assert_eq!(
        worker.on_frame(300 * MS, stamp(3), 1280, 720),
        TileAction::Encode {
            crop: Rect { x: 640, y: 360, width: 640, height: 360 },
            recropped: false
        }
    );
    worker.on_done(None);
    // Only the height changes.
    assert_eq!(
        worker.on_frame(400 * MS, stamp(4), 1280, 800),
        TileAction::Encode { crop: Rect { x: 640, y: 400, width: 640, height: 400 }, recropped: true }
    );
}

#[test]
fn a_skipped_frame_does_not_touch_the_crop() {
    let mut worker = TileWorker::new(TilePosition::TopRight, 15, 0);
    assert_eq!(worker.on_frame(10 * MS, stamp(1), 1280, 720), TileAction::Skip);
    assert_eq!(worker.crop(), Rect { x: 1920, y: 0, width: 1920, height: 1080 });
    assert_eq!(worker.stats(), WorkerStats { published: 0, throttled: 1, failed: 0 });
    // Nothing was handed out, so there is nothing to finish and no message.
    assert_eq!(worker.message(vec![1, 2, 3], "camera_optical"), None);
    worker.on_done(None);
    assert_eq!(worker.stats(), WorkerStats { published: 0, throttled: 1, failed: 0 });
}

#[test]
fn a_failed_frame_does_not_count_against_the_ceiling() {
    let mut worker = TileWorker::new(TilePosition::TopLeft, 15, 0);
    assert!(matches!(worker.on_frame(67 * MS, stamp(1), 3840, 2160), TileAction::Encode { .. }));
    worker.on_done(Some(Stage::Encode));
    // The next frame may be tried at once, and the worker goes on.
    assert!(matches!(worker.on_frame(68 * MS, stamp(2), 3840, 2160), TileAction::Encode { .. }));
    worker.on_done(Some(Stage::Convert));
    assert!(matches!(worker.on_frame(69 * MS, stamp(3), 3840, 2160), TileAction::Encode { .. }));
    worker.on_done(None);
    assert_eq!(worker.on_frame(70 * MS, stamp(4), 3840, 2160), TileAction::Skip);
    assert_eq!(worker.on_frame(135 * MS, stamp(5), 3840, 2160), TileAction::Skip);
    assert!(matches!(worker.on_frame(136 * MS, stamp(6), 3840, 2160), TileAction::Encode { .. }));
    assert_eq!(worker.stats(), WorkerStats { published: 1, throttled: 2, failed: 2 });
}

#[test]
fn an_encoded_frame_counts_against_the_ceiling_even_if_it_is_not_published() {
    let mut worker = TileWorker::new(TilePosition::TopLeft, 15, 0);
    assert!(matches!(worker.on_frame(67 * MS, stamp(1), 3840, 2160), TileAction::Encode { .. }));
    worker.on_done(Some(Stage::Publish));
    assert_eq!(worker.on_frame(68 * MS, stamp(2), 3840, 2160), TileAction::Skip);
    assert!(matches!(worker.on_frame(134 * MS, stamp(3), 3840, 2160), TileAction::Encode { .. }));
    worker.on_done(Some(Stage::Message));
    assert_eq!(worker.on_frame(200 * MS, stamp(4), 3840, 2160), TileAction::Skip);
    assert!(matches!(worker.on_frame(201 * MS, stamp(5), 3840, 2160), TileAction::Encode { .. }));
    assert_eq!(worker.stats(), WorkerStats { published: 0, throttled: 2, failed: 2 });
    assert!(!Stage::Convert.follows_encode());
    assert!(!Stage::Encode.follows_encode());
    assert!(Stage::Message.follows_encode());
    assert!(Stage::Publish.follows_encode());
}

#[test]
fn published_messages_carry_the_capture_times_of_their_frames_in_order() {
    let mut worker = TileWorker::new(TilePosition::BottomLeft, 15, 0);
    let mut received = Vec::new();
    let mut published = Vec::new();
    for n in 1..=60u64 {
        let captured = stamp(n);
        received.push((captured.seconds as i32, captured.nanos));
        let now = n * 33_333_334 + 5 * MS;
        if let TileAction::Encode { .. } = worker.on_frame(now, captured, 3840, 2160) {
            // Every fifth encode fails.
            if published.len() % 5 == 4 && n % 4 == 0 {
                worker.on_done(Some(Stage::Encode));
                continue;
            }
            let bytes = worker.message(vec![n as u8], "camera_optical").unwrap();
            let msg: FoxgloveCompressedVideo = cdr::deserialize(&bytes).unwrap();
            assert_eq!(msg.header.frame_id, "camera_optical_bottomleft");
            assert_eq!(msg.data, vec![n as u8]);
            published.push((msg.header.stamp.sec, msg.header.stamp.nanosec));
            worker.on_done(None);
        }
    }
    assert!(published.len() >= 25);
    assert!(published.len() < received.len());
    assert!(published.windows(2).all(|pair| pair[0] < pair[1]));
    assert!(published.iter().all(|s| received.contains(s)));
    assert_eq!(worker.stats().published as usize, published.len());
}

#[test]
fn worker_counts() {
    let mut stats = WorkerStats::new();
    stats.note(Outcome::Published);
    stats.note(Outcome::Throttled);
    stats.note(Outcome::Throttled);
    stats.note(Outcome::Failed(Stage::Convert));
    stats.note(Outcome::Failed(Stage::Encode));
    stats.note(Outcome::Failed(Stage::Message));
    stats.note(Outcome::Failed(Stage::Publish));
    assert_eq!(stats, WorkerStats { published: 1, throttled: 2, failed: 4 });
    stats.failed = u64::MAX;
    stats.note(Outcome::Failed(Stage::Encode));
    assert_eq!(stats.failed, u64::MAX);
}
