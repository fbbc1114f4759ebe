use rdp_remote::roi::{RoiDetector, TileRegion};

#[test]
fn test_compute_tile_hash() {
    let blank = vec![0u8; 16];
    let hash = RoiDetector::compute_tile_hash(&blank);
    assert_eq!(hash, 0);

    let non_blank = vec![0xFFu8; 16];
    let hash = RoiDetector::compute_tile_hash(&non_blank);
    assert!(hash > 0);
}

#[test]
fn test_roi_detector_creation() {
    let detector = RoiDetector::new(1920, 1080, 32);
    assert_eq!(detector.tile_size(), 32);
    assert_eq!(detector.tiles_x(), 60);
    assert_eq!(detector.tiles_y(), 34);
}

#[test]
fn test_roi_detector_detection_no_change() {
    let width = 128u32;
    let height = 128u32;
    let tile_size = 32u32;

    let mut detector = RoiDetector::new(width, height, tile_size);
    let frame = vec![0u8; (width * height * 4) as usize];

    let changes = detector.detect_changes(&frame, width, height);
    assert_eq!(changes.len(), 0);

    let changes = detector.detect_changes(&frame, width, height);
    assert_eq!(changes.len(), 0);
}

#[test]
fn test_roi_detector_detection_with_change() {
    let width = 128u32;
    let height = 128u32;
    let tile_size = 32u32;

    let mut detector = RoiDetector::new(width, height, tile_size);
    let mut frame = vec![0u8; (width * height * 4) as usize];

    let _ = detector.detect_changes(&frame, width, height);

    for row in 0..tile_size {
        let row_start = (row * width) as usize * 4;
        let tile_start = row_start;
        for i in 0..(tile_size * 4) as usize {
            frame[tile_start + i] = 0xFF;
        }
    }

    let changes = detector.detect_changes(&frame, width, height);
    assert_eq!(changes.len(), 1);
    assert_eq!(changes[0].x, 0);
    assert_eq!(changes[0].y, 0);
    assert_eq!(changes[0].width, tile_size);
    assert_eq!(changes[0].height, tile_size);
}

fn modify_tile(frame: &mut [u8], width: u32, tile_x: u32, tile_y: u32, tile_size: u32) {
    for row in 0..tile_size {
        let row_start = ((tile_y * tile_size + row) * width) as usize * 4;
        let tile_start = row_start + (tile_x * tile_size * 4) as usize;
        for i in 0..(tile_size * 4) as usize {
            frame[tile_start + i] = 0xFF;
        }
    }
}

#[test]
fn test_tile_region_merge() {
    let mut detector = RoiDetector::new(128, 128, 32);
    let mut frame = vec![0u8; (128 * 128 * 4) as usize];

    for row in 0..2 {
        for col in 0..2 {
            modify_tile(&mut frame, 128, col, row, 32);
        }
    }

    let _ = detector.detect_changes(&frame, 128, 128);

    for row in 0..3 {
        for col in 0..3 {
            modify_tile(&mut frame, 128, col, row, 32);
        }
    }

    let changes = detector.detect_changes(&frame, 128, 128);
    assert_eq!(changes.len(), 1);
    assert_eq!(changes[0].width, 96);
    assert_eq!(changes[0].height, 96);
}

#[test]
fn test_roi_detector_edge_cases() {
    let detector = RoiDetector::new(1920, 1080, 32);
    assert_eq!(detector.tiles_x(), 60);
    assert_eq!(detector.tiles_y(), 34);

    let detector = RoiDetector::new(64, 64, 32);
    assert_eq!(detector.tiles_x(), 2);
    assert_eq!(detector.tiles_y(), 2);

    let detector = RoiDetector::new(64, 64, 64);
    assert_eq!(detector.tiles_x(), 1);
    assert_eq!(detector.tiles_y(), 1);
}

#[test]
fn test_roi_detection() {
    let width = 640u32;
    let height = 480u32;
    let mut roi = RoiDetector::new(width, height, 32);

    let frame1 = vec![128u8; (width * height * 4) as usize];
    let changes1 = roi.detect_changes(&frame1, width, height);
    assert!(!changes1.is_empty());

    let frame2 = vec![128u8; (width * height * 4) as usize];
    let changes2 = roi.detect_changes(&frame2, width, height);
    assert!(changes2.is_empty());
}

#[test]
fn same_frame_twice_reports_nothing() {
    let mut roi = RoiDetector::new(96, 64, 32);
    let mut frame = vec![0u8; 96 * 64 * 4];
    for (i, b) in frame.iter_mut().enumerate() {
        *b = (i % 251) as u8;
    }
    let _ = roi.detect_changes(&frame, 96, 64);
    assert!(roi.detect_changes(&frame, 96, 64).is_empty());
}

#[test]
fn changed_tiles_are_covered_by_one_region() {
    let mut roi = RoiDetector::new(128, 128, 32);
    let mut frame = vec![0u8; 128 * 128 * 4];
    // Tiles (1, 0) and (3, 2) change: the region spans columns 1..=3 and rows 0..=2.
    modify_tile(&mut frame, 128, 1, 0, 32);
    modify_tile(&mut frame, 128, 3, 2, 32);
    let changes = roi.detect_changes(&frame, 128, 128);
    assert_eq!(changes, vec![TileRegion { x: 32, y: 0, width: 96, height: 96 }]);
}

#[test]
fn short_frame_reports_nothing() {
    let mut roi = RoiDetector::new(64, 64, 32);
    let frame = vec![0xFFu8; 64 * 64 * 4 - 1];
    assert!(roi.detect_changes(&frame, 64, 64).is_empty());
}

#[test]
fn tile_hash_sums_pixels() {
    // Two pixels of value 1 each (in either byte order the sum is the same
    // when the bytes are symmetric).
    let tile = [1u8, 1, 1, 1, 2, 2, 2, 2];
    assert_eq!(RoiDetector::compute_tile_hash(&tile), 0x0101_0101 + 0x0202_0202);
    // A trailing partial pixel is ignored.
    let tile = [1u8, 1, 1, 1, 9, 9];
    assert_eq!(RoiDetector::compute_tile_hash(&tile), 0x0101_0101);
}

#[test]
fn merge_tiles_gives_bounding_rectangle() {
    assert_eq!(
        RoiDetector::merge_tiles(vec![(0, 0), (3, 3)], 32),
        vec![TileRegion { x: 0, y: 0, width: 128, height: 128 }]
    );
    assert_eq!(RoiDetector::merge_tiles(vec![], 32), Vec::<TileRegion>::new());
    // Order and repeats do not matter.
    assert_eq!(
        RoiDetector::merge_tiles(vec![(2, 1), (1, 2), (2, 1)], 16),
        vec![TileRegion { x: 16, y: 16, width: 32, height: 32 }]
    );
    // More than nine tiles are merged the same way.
    let many: Vec<(u32, u32)> = (0..12).map(|i| (i % 4 + 1, i / 4)).collect();
    assert_eq!(RoiDetector::merge_tiles(many, 8), vec![TileRegion { x: 8, y: 0, width: 32, height: 24 }]);
}
