use edgefirst_camera::rate::{update_fps, FrameRate, RateEstimator};

fn fps(rate: &FrameRate) -> f64 {
    rate.frames as f64 * 1e9 / rate.nanos as f64
}

#[test]
fn sixty_intervals_of_a_thirtieth_report_thirty_fps() {
    let mut estimator = RateEstimator::new(60);
    let mut rate = estimator.rate();
    for _ in 0..60 {
        rate = estimator.record(33_333_333);
    }
    assert_eq!(rate, FrameRate { frames: 60, nanos: 60 * 33_333_333 });
    assert!((fps(&rate) - 30.0).abs() < 1e-3);
    assert_eq!(rate.milli_fps(), Some(30_000));
    assert!(!rate.is_low(30));
}

#[test]
fn a_new_estimator_is_all_zero() {
    let estimator = RateEstimator::new(60);
    assert_eq!(estimator.len(), 60);
    let rate = estimator.rate();
    assert_eq!(rate, FrameRate { frames: 60, nanos: 0 });
    assert_eq!(rate.milli_fps(), None);
    assert!(!rate.is_low(30));
}

#[test]
fn warm_up_reads_high() {
    // With one slot of four written, three still count as zero.
    let mut estimator = RateEstimator::new(4);
    let rate = estimator.record(100_000_000);
    assert_eq!(rate, FrameRate { frames: 4, nanos: 100_000_000 });
    assert_eq!(rate.milli_fps(), Some(40_000));
    let rate = estimator.record(100_000_000);
    assert_eq!(rate.milli_fps(), Some(20_000));
    estimator.record(100_000_000);
    let rate = estimator.record(100_000_000);
    assert_eq!(rate.milli_fps(), Some(10_000));
}

#[test]
fn the_history_is_circular() {
    let mut estimator = RateEstimator::new(3);
    estimator.record(1);
    estimator.record(2);
    assert_eq!(estimator.record(3).nanos, 6);
    // The fourth interval overwrites the first.
    assert_eq!(estimator.record(10).nanos, 15);
    assert_eq!(estimator.record(20).nanos, 33);
    assert_eq!(estimator.record(30).nanos, 60);
    assert_eq!(estimator.record(0).nanos, 50);
}

#[test]
fn a_window_of_one() {
    let mut estimator = RateEstimator::new(1);
    assert_eq!(estimator.record(5), FrameRate { frames: 1, nanos: 5 });
    assert_eq!(estimator.record(7), FrameRate { frames: 1, nanos: 7 });
}

#[test]
fn large_intervals_do_not_overflow() {
    let mut estimator = RateEstimator::new(3);
    estimator.record(u64::MAX);
    estimator.record(u64::MAX);
    let rate = estimator.record(u64::MAX);
    assert_eq!(rate.nanos, 3 * (u64::MAX as u128));
    assert_eq!(rate.milli_fps(), Some(0));
    assert!(rate.is_low(1));
}

#[test]
fn update_fps_takes_the_time_between_frames() {
    let mut estimator = RateEstimator::new(2);
    let mut prev: u64 = 1_000;
    let rate = update_fps(&mut prev, 1_500, &mut estimator);
    assert_eq!(prev, 1_500);
    assert_eq!(rate, FrameRate { frames: 2, nanos: 500 });
    let rate = update_fps(&mut prev, 1_800, &mut estimator);
    assert_eq!(prev, 1_800);
    assert_eq!(rate, FrameRate { frames: 2, nanos: 800 });
    // A clock that steps back counts as no time passed.
    let rate = update_fps(&mut prev, 1_700, &mut estimator);
    assert_eq!(prev, 1_700);
    assert_eq!(rate, FrameRate { frames: 2, nanos: 300 });
}

#[test]
fn low_means_below_nine_tenths_of_the_target() {
    // Exactly 27 fps is not low for a target of 30.
    let at = FrameRate { frames: 27, nanos: 1_000_000_000 };
    assert!(!at.is_low(30));
    let below = FrameRate { frames: 27, nanos: 1_000_000_001 };
    assert!(below.is_low(30));
    let above = FrameRate { frames: 27, nanos: 999_999_999 };
    assert!(!above.is_low(30));
    assert!(!FrameRate { frames: 30, nanos: 1_000_000_000 }.is_low(30));
    assert!(FrameRate { frames: 26, nanos: 1_000_000_000 }.is_low(30));
    assert!(!FrameRate { frames: 0, nanos: 0 }.is_low(30));
    assert!(FrameRate { frames: 0, nanos: 1 }.is_low(30));
    assert!(!FrameRate { frames: 0, nanos: 1 }.is_low(0));
    assert!(FrameRate { frames: u64::MAX, nanos: u128::MAX }.is_low(u32::MAX));
}

#[test]
fn milli_fps_rounds_down() {
    assert_eq!(FrameRate { frames: 1, nanos: 3 }.milli_fps(), Some(333_333_333_333));
    assert_eq!(FrameRate { frames: 60, nanos: 2_000_000_001 }.milli_fps(), Some(29_999));
    assert_eq!(FrameRate { frames: 60, nanos: 2_000_000_000 }.milli_fps(), Some(30_000));
    assert_eq!(
        FrameRate { frames: u64::MAX, nanos: 1 }.milli_fps(),
        Some(u64::MAX as u128 * 1_000_000_000_000)
    );
}
