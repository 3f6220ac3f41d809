use edgefirst_camera::args::H264Bitrate;
use edgefirst_camera::deadline::{Budget, DeadlineMonitor};
use edgefirst_camera::image::Rect;
use edgefirst_camera::video::{
    encoder_size, setup, setup_with_crop, BitrateMeter, EncoderSetup, TARGET_FPS,
};

#[test]
fn setup_of_a_full_frame_encoder() {
    assert_eq!(
        setup(1920, 1080, H264Bitrate::Mbps25),
        EncoderSetup {
            bitrate: H264Bitrate::Mbps25,
            fps: 30,
            crop: Rect { x: 0, y: 0, width: 1920, height: 1080 },
            output_width: 1920,
            output_height: 1080,
            frame_duration: 30,
        }
    );
    assert_eq!(TARGET_FPS, 30);
}

#[test]
fn setup_of_a_tile_encoder() {
    assert_eq!(
        setup_with_crop(1920, 1080, (1920, 0, 1920, 1080), H264Bitrate::Auto, Some(15)),
        EncoderSetup {
            bitrate: H264Bitrate::Auto,
            fps: 15,
            crop: Rect { x: 1920, y: 0, width: 1920, height: 1080 },
            output_width: 1920,
            output_height: 1080,
            frame_duration: 15,
        }
    );
    let nominal = setup_with_crop(640, 480, (0, 0, 640, 480), H264Bitrate::Mbps5, None);
    assert_eq!(nominal.fps, 30);
    assert_eq!(nominal.frame_duration, 30);
}

#[test]
fn stream_sizes_in_encoder_coordinates() {
    assert_eq!(encoder_size(1920, 1080), Some((1920, 1080)));
    assert_eq!(encoder_size(i32::MAX as u32, 0), Some((i32::MAX, 0)));
    assert_eq!(encoder_size(1 << 31, 1080), None);
    assert_eq!(encoder_size(1920, u32::MAX), None);
}

#[test]
fn the_meter_reports_a_stretch_at_its_closing_keyframe() {
    let mut meter = BitrateMeter::new();
    assert_eq!(meter.bits, 0);
    // The first keyframe opens the first stretch.
    assert_eq!(meter.record(600, true), None);
    assert_eq!(meter.record(300, false), None);
    assert_eq!(meter.record(300, false), None);
    assert_eq!(meter.bits, 1200);
    assert_eq!(meter.record(700, true), Some(9600));
    assert_eq!(meter.bits, 700);
    // A stretch at or below the floor is not reported and goes on.
    assert_eq!(meter.record(300, true), None);
    assert_eq!(meter.bits, 1000);
    assert_eq!(meter.record(1, true), None);
    assert_eq!(meter.bits, 1001);
    assert_eq!(meter.record(5, true), Some(8008));
    assert_eq!(meter.bits, 5);
    assert_eq!(meter.record(5000, false), None);
    assert_eq!(meter.record(0, false), None);
    assert_eq!(meter.bits, 5005);
}

#[test]
fn the_meter_stops_at_its_limit() {
    let mut meter = BitrateMeter { bits: usize::MAX - 1 };
    assert_eq!(meter.record(10, false), None);
    assert_eq!(meter.bits, usize::MAX);
    assert_eq!(meter.record(10, true), Some(8 * (usize::MAX as u128)));
    assert_eq!(meter.bits, 10);
}

#[test]
fn budgets() {
    assert_eq!(Budget::Fixed(5_000_000).limit_for(3840, 2160), 5_000_000);
    assert_eq!(Budget::frame_period(30), Budget::Fixed(33_333_333));
    assert_eq!(Budget::frame_period(1), Budget::Fixed(1_000_000_000));
    // 2 ms per megapixel on 1920x1080: 2.0736 megapixels.
    assert_eq!(Budget::PerMegapixel(2_000_000).limit_for(1920, 1080), 4_147_200);
    assert_eq!(Budget::PerMegapixel(1).limit_for(999, 1000), 0);
    assert_eq!(Budget::PerMegapixel(1).limit_for(1000, 1000), 1);
    assert_eq!(Budget::PerMegapixel(7).limit_for(0, 1000), 0);
    assert_eq!(Budget::PerMegapixel(u64::MAX).limit_for(u32::MAX, u32::MAX), u64::MAX);
    assert_eq!(Budget::PerMegapixel(u64::MAX).limit_for(1000, 1000), u64::MAX);
    assert_eq!(Budget::PerMegapixel(u64::MAX).limit_for(1000, 999), 18428297329635842063);
}

#[test]
fn an_overrun_is_counted_and_nothing_else() {
    let mut monitor = DeadlineMonitor::new(Budget::Fixed(10));
    assert_eq!(
        monitor,
        DeadlineMonitor { budget: Budget::Fixed(10), measured: 0, overruns: 0, longest: 0 }
    );
    assert!(!monitor.check(9, 1920, 1080));
    assert!(!monitor.check(10, 1920, 1080));
    assert!(monitor.check(11, 1920, 1080));
    assert!(!monitor.check(0, 1920, 1080));
    assert!(monitor.check(100, 1920, 1080));
    assert!(monitor.check(50, 1920, 1080));
    assert_eq!(
        monitor,
        DeadlineMonitor { budget: Budget::Fixed(10), measured: 6, overruns: 3, longest: 100 }
    );
}

#[test]
fn a_budget_by_size_follows_the_frame() {
    let mut monitor = DeadlineMonitor::new(Budget::PerMegapixel(1_000_000));
    // One millisecond per megapixel: 2.0736 ms for 1080p, 8.2944 ms for 4K.
    assert!(monitor.check(3_000_000, 1920, 1080));
    assert!(!monitor.check(3_000_000, 3840, 2160));
    assert!(!monitor.check(8_294_400, 3840, 2160));
    assert!(monitor.check(8_294_401, 3840, 2160));
    assert_eq!(monitor.measured, 4);
    assert_eq!(monitor.overruns, 2);
    assert_eq!(monitor.longest, 8_294_401);
    monitor.measured = u64::MAX;
    monitor.overruns = u64::MAX;
    assert!(monitor.check(u64::MAX, 1, 1));
    assert_eq!(monitor.measured, u64::MAX);
    assert_eq!(monitor.overruns, u64::MAX);
    assert_eq!(monitor.longest, u64::MAX);
}
