use rdp_remote::adaptive::{classify_rate, AdaptiveController, BandwidthTier};
use std::time::Duration;

#[test]
fn adaptive_test_bandwidth_tier_resolution() {
    let mut controller = AdaptiveController::new_with_interval(Duration::from_secs(2));

    assert_eq!(controller.current_tier(), BandwidthTier::Medium);

    controller.add_bytes_sent(600_000);
    let tier = controller.force_check();
    assert_eq!(tier, Some(BandwidthTier::High));
    assert_eq!(controller.current_tier(), BandwidthTier::High);

    controller.add_bytes_sent(300_000);
    let tier = controller.force_check();
    assert_eq!(tier, Some(BandwidthTier::Medium));

    controller.add_bytes_sent(150_000);
    let tier = controller.force_check();
    assert_eq!(tier, Some(BandwidthTier::Low));

    controller.add_bytes_sent(75_000);
    let tier = controller.force_check();
    assert_eq!(tier, Some(BandwidthTier::VeryLow));
}

fn check_tier_parameters() {
    assert_eq!(BandwidthTier::High.width(), 1920);
    assert_eq!(BandwidthTier::High.height(), 1080);
    assert_eq!(BandwidthTier::High.fps(), 30);
    assert_eq!(BandwidthTier::High.bitrate_kbps(), 2000);
    assert_eq!(BandwidthTier::High.frame_interval(), Duration::from_millis(33));

    assert_eq!(BandwidthTier::Medium.width(), 1280);
    assert_eq!(BandwidthTier::Medium.height(), 720);
    assert_eq!(BandwidthTier::Medium.fps(), 15);
    assert_eq!(BandwidthTier::Medium.bitrate_kbps(), 1000);
    assert_eq!(BandwidthTier::Medium.frame_interval(), Duration::from_millis(66));

    assert_eq!(BandwidthTier::Low.width(), 1280);
    assert_eq!(BandwidthTier::Low.height(), 720);
    assert_eq!(BandwidthTier::Low.fps(), 10);
    assert_eq!(BandwidthTier::Low.bitrate_kbps(), 600);
    assert_eq!(BandwidthTier::Low.frame_interval(), Duration::from_millis(100));

    assert_eq!(BandwidthTier::VeryLow.width(), 800);
    assert_eq!(BandwidthTier::VeryLow.height(), 600);
    assert_eq!(BandwidthTier::VeryLow.fps(), 8);
    assert_eq!(BandwidthTier::VeryLow.bitrate_kbps(), 300);
    assert_eq!(BandwidthTier::VeryLow.frame_interval(), Duration::from_millis(125));
}

#[test]
fn adaptive_test_bandwidth_tier_parameters() {
    check_tier_parameters();
}

#[test]
fn adaptive_test_test_bandwidth_tier_parameters() {
    check_tier_parameters();
}

#[test]
fn adaptive_test_test_check_interval() {
    let mut controller = AdaptiveController::new();
    let tier = controller.check_and_adjust();
    assert_eq!(tier, None);
}

#[test]
fn tier_thresholds_are_strict() {
    // Exactly 2000 kbit/s over one second is not above 2000: Medium.
    assert_eq!(classify_rate(250_000, 1_000_000_000), BandwidthTier::Medium);
    assert_eq!(classify_rate(250_001, 1_000_000_000), BandwidthTier::High);
    // Exactly 1000 kbit/s is Low, exactly 500 kbit/s is VeryLow.
    assert_eq!(classify_rate(125_000, 1_000_000_000), BandwidthTier::Low);
    assert_eq!(classify_rate(62_500, 1_000_000_000), BandwidthTier::VeryLow);
    assert_eq!(classify_rate(62_501, 1_000_000_000), BandwidthTier::Low);
}

#[test]
fn unchanged_tier_is_not_reported() {
    let mut controller = AdaptiveController::new();
    // 300 000 bytes in 2 s is 1200 kbit/s: still Medium.
    controller.add_bytes_sent(300_000);
    assert_eq!(controller.force_check(), None);
    assert_eq!(controller.current_tier(), BandwidthTier::Medium);
}

#[test]
fn apply_measurement_uses_bytes_since_last_period() {
    let mut controller = AdaptiveController::new();
    controller.add_bytes_sent(600_000);
    assert_eq!(controller.apply_measurement(2_000_000_000), Some(BandwidthTier::High));
    // Nothing more was sent: the next period measures zero bytes.
    assert_eq!(controller.apply_measurement(2_000_000_000), Some(BandwidthTier::VeryLow));
}

#[test]
fn zero_interval_force_check_accumulates() {
    let mut controller = AdaptiveController::new_with_interval(Duration::from_secs(0));
    controller.add_bytes_sent(600_000);
    assert_eq!(controller.force_check(), None);
    assert_eq!(controller.current_tier(), BandwidthTier::Medium);
    // The bytes were kept: a measurement now sees them.
    assert_eq!(controller.apply_measurement(1_000_000_000), Some(BandwidthTier::High));
}

#[test]
fn check_waits_for_a_full_period() {
    let mut controller = AdaptiveController::new_with_interval(Duration::from_millis(100));
    // 50 ms after the start the period is not over: nothing happens.
    controller.add_bytes_sent(600_000);
    assert!(!controller.period_elapsed(50_000_000));
    assert_eq!(controller.check_and_adjust_after(50_000_000, 50_000_000), None);
    assert_eq!(controller.current_tier(), BandwidthTier::Medium);
    // 150 ms after: 600 000 bytes in 150 ms is far above 2 Mbps.
    assert!(controller.period_elapsed(150_000_000));
    assert_eq!(controller.check_and_adjust_after(150_000_000, 150_000_000), Some(BandwidthTier::High));
    // The next period starts from the bytes counted so far.
    assert_eq!(controller.check_and_adjust_after(150_000_000, 150_000_000), Some(BandwidthTier::VeryLow));
}
