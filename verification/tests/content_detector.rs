use rdp_remote::content_detector::{ContentChange, ContentDetector};
use std::time::Duration;

#[test]
fn test_content_detector_active() {
    let mut detector = ContentDetector::default();
    detector.force_update(true);
    assert_eq!(detector.current_state(), ContentChange::Active);
}

#[test]
fn test_content_detector_quiet() {
    let mut detector = ContentDetector::new(0, 3, Duration::from_millis(100));

    detector.force_update(false);
    assert_eq!(detector.current_state(), ContentChange::Active);

    detector.force_update(false);
    assert_eq!(detector.current_state(), ContentChange::Active);

    detector.force_update(false);
    assert_eq!(detector.current_state(), ContentChange::NoChange);
}

#[test]
fn test_content_detector_sample_rate() {
    let detector = ContentDetector::new(4, 3, Duration::from_millis(100));
    assert_eq!(detector.sample_rate(), 4);
}

#[test]
fn test_content_detector_reset() {
    let mut detector = ContentDetector::new(0, 3, Duration::from_millis(100));

    detector.force_update(false);
    detector.force_update(false);
    detector.force_update(false);
    assert_eq!(detector.current_state(), ContentChange::NoChange);

    detector.reset();
    assert_eq!(detector.current_state(), ContentChange::NoChange);
    assert_eq!(detector.unchanged_count(), 0);
}

#[test]
fn change_after_quiet_makes_active_again() {
    let mut detector = ContentDetector::new(0, 2, Duration::from_millis(100));
    detector.report(false);
    detector.report(false);
    assert_eq!(detector.current_state(), ContentChange::NoChange);
    detector.report(true);
    assert_eq!(detector.current_state(), ContentChange::Active);
    assert_eq!(detector.unchanged_count(), 0);
}

#[test]
fn default_detector_settings() {
    let detector = ContentDetector::default();
    assert_eq!(detector.sample_rate(), 4);
    assert_eq!(detector.quiet_threshold(), 3);
    assert_eq!(detector.current_state(), ContentChange::Active);
}

#[test]
fn check_before_interval_is_not_due() {
    let mut detector = ContentDetector::new(0, 3, Duration::from_secs(3600));
    assert!(!detector.check_and_update());
}

#[test]
fn active_until_threshold_after_change() {
    let mut detector = ContentDetector::new(0, 4, Duration::from_millis(100));
    detector.reset();
    detector.report(true);
    for _ in 0..3 {
        detector.report(false);
        assert_eq!(detector.current_state(), ContentChange::Active);
    }
    detector.report(false);
    assert_eq!(detector.current_state(), ContentChange::NoChange);
    detector.report(false);
    assert_eq!(detector.current_state(), ContentChange::NoChange);
    assert_eq!(detector.quiet_threshold(), 4);
    assert_eq!(detector.sample_rate(), 0);
}
