use rdp_remote::screen::{
    blank_frame, capture_step, copy_pitched_rows, frame_from_mapped, AcquireOutcome, CaptureStep, CapturedFrame,
};

fn frame_struct_check() {
    let frame = CapturedFrame {
        width: 1920,
        height: 1080,
        data: vec![0u8; 1920 * 1080 * 4],
        stride: 1920 * 4,
        timestamp_us: 123456789,
    };

    assert_eq!(frame.width, 1920);
    assert_eq!(frame.height, 1080);
    assert_eq!(frame.data.len(), 1920 * 1080 * 4);
    assert_eq!(frame.stride, 1920 * 4);
    assert_eq!(frame.timestamp_us, 123456789);
}

fn frame_clone_check() {
    let frame = CapturedFrame {
        width: 1280,
        height: 720,
        data: vec![42u8; 1280 * 720 * 4],
        stride: 1280 * 4,
        timestamp_us: 1000000,
    };

    let cloned = frame.clone();
    assert_eq!(frame.width, cloned.width);
    assert_eq!(frame.height, cloned.height);
    assert_eq!(frame.data, cloned.data);
    assert_eq!(frame.stride, cloned.stride);
    assert_eq!(frame.timestamp_us, cloned.timestamp_us);
}

fn frame_debug_check() {
    let frame = CapturedFrame { width: 1920, height: 1080, data: vec![], stride: 1920 * 4, timestamp_us: 0 };

    let debug_output = format!("{:?}", frame);
    assert!(debug_output.contains("1920"));
    assert!(debug_output.contains("1080"));
}

#[test]
fn dxgi_test_captured_frame_struct() {
    frame_struct_check();
}

#[test]
fn dxgi_test_captured_frame_clone() {
    frame_clone_check();
}

#[test]
fn dxgi_test_captured_frame_debug() {
    frame_debug_check();
}

#[test]
fn tests_test_captured_frame_struct() {
    frame_struct_check();
}

#[test]
fn tests_test_captured_frame_clone() {
    frame_clone_check();
}

#[test]
fn tests_test_captured_frame_debug() {
    frame_debug_check();
}

#[test]
fn pitched_rows_drop_padding() {
    // Two rows of one pixel, rows 8 bytes apart.
    let mapped = [1u8, 2, 3, 4, 99, 99, 99, 99, 5, 6, 7, 8];
    assert_eq!(copy_pitched_rows(&mapped, 8, 1, 2), vec![1, 2, 3, 4, 5, 6, 7, 8]);
    // The last row needs no padding after it.
    let mapped = [1u8, 2, 3, 4, 0, 0, 5, 6, 7, 8];
    assert_eq!(copy_pitched_rows(&mapped, 6, 1, 2), vec![1, 2, 3, 4, 5, 6, 7, 8]);
    assert_eq!(copy_pitched_rows(&[], 16, 4, 0), Vec::<u8>::new());
}

#[test]
fn frame_from_mapped_keeps_size_and_time() {
    let mapped = vec![7u8; 3 * 16];
    let f = frame_from_mapped(&mapped, 16, 2, 3, 55);
    assert_eq!((f.width, f.height, f.stride, f.timestamp_us), (2, 3, 8, 55));
    assert_eq!(f.data, vec![7u8; 24]);
}

#[test]
fn blank_frame_is_zero() {
    let f = blank_frame(4, 2, 9);
    assert_eq!(f.data, vec![0u8; 32]);
    assert_eq!(f.stride, 16);
    assert_eq!(f.timestamp_us, 9);
}

#[test]
fn capture_steps() {
    assert_eq!(capture_step(AcquireOutcome::NewFrame, false), CaptureStep::ReadNewFrame);
    assert_eq!(capture_step(AcquireOutcome::TimedOut, true), CaptureStep::RepeatLastFrame);
    assert_eq!(capture_step(AcquireOutcome::TimedOut, false), CaptureStep::BlankFrame);
    assert_eq!(capture_step(AcquireOutcome::AccessLost, true), CaptureStep::Reinitialize);
    assert_eq!(capture_step(AcquireOutcome::Failed, true), CaptureStep::Fail);
}
