use rdp_remote::frame_skipper::FrameSkipper;

#[test]
fn test_frame_skipper_no_skip() {
    let mut skipper = FrameSkipper::new(30);
    assert!(!skipper.should_skip(true));
    assert_eq!(skipper.target_fps(), 30);
}

#[test]
fn test_frame_skipper_skip_after_threshold() {
    let mut skipper = FrameSkipper::new(30);
    for _ in 0..4 {
        assert!(!skipper.should_skip(false));
    }
    assert!(skipper.should_skip(false));
    assert_eq!(skipper.target_fps(), 5);
}

#[test]
fn test_frame_skipper() {
    let mut skipper = FrameSkipper::new(30);

    assert!(!skipper.should_skip(true));
    assert_eq!(skipper.target_fps(), 30);

    for _ in 0..4 {
        assert!(!skipper.should_skip(false));
    }
    assert!(skipper.should_skip(false));
    assert_eq!(skipper.target_fps(), 5);
}

#[test]
fn change_resets_skipping() {
    let mut skipper = FrameSkipper::new(30);
    for _ in 0..6 {
        skipper.should_skip(false);
    }
    assert_eq!(skipper.target_fps(), 5);
    assert!(!skipper.should_skip(true));
    assert_eq!(skipper.target_fps(), 30);
    assert!(!skipper.should_skip(false));
}

#[test]
fn rate_is_full_below_threshold_and_minimum_after() {
    let mut skipper = FrameSkipper::new(24);
    let reports = [false, false, true, false, false, false, false, false, false, true, false];
    let mut run = 0;
    for &changed in reports.iter() {
        run = if changed { 0 } else { run + 1 };
        let skip = skipper.should_skip(changed);
        assert_eq!(skip, !changed && run >= 5);
        assert_eq!(skipper.target_fps(), if run >= 5 { 5 } else { 24 });
    }
}
