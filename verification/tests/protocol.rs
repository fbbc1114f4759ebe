use bytes::Bytes;
use rdp_remote::protocol::{EncodedFrame, VideoCodec, VideoFrameHeader};

#[test]
fn bytes_test_test_encoded_frame_clone_shares_data() {
    let data = Bytes::from(vec![1u8, 2, 3, 4, 5]);
    let header = VideoFrameHeader { width: 1920, height: 1080, timestamp_us: 0, is_keyframe: true, codec: VideoCodec::VP9 };

    let frame1 = EncodedFrame::new(data, header.clone());
    let frame2 = frame1.clone();

    assert_eq!(frame1.data.len(), frame2.data.len());
    assert_eq!(&frame1.data[..], &frame2.data[..]);
}

#[test]
fn test_bytes_from_vec() {
    let vec_data = vec![10u8, 20, 30];
    let bytes = Bytes::from(vec_data);

    assert_eq!(bytes.len(), 3);
    assert_eq!(bytes[0], 10);
    assert_eq!(bytes[1], 20);
    assert_eq!(bytes[2], 30);
}

#[test]
fn bytes_test_test_encoded_frame_from_vec() {
    let data = vec![0u8; 256];
    let header = VideoFrameHeader { width: 1280, height: 720, timestamp_us: 1000, is_keyframe: false, codec: VideoCodec::H264 };

    let frame = EncodedFrame::from_vec(data, header);

    assert_eq!(frame.data.len(), 256);
    assert!(!frame.header.is_keyframe);
}

#[test]
fn test_encoded_frame_methods() {
    let data = Bytes::from(vec![1u8, 2, 3]);
    let header = VideoFrameHeader { width: 640, height: 480, timestamp_us: 500, is_keyframe: true, codec: VideoCodec::VP9 };

    let frame = EncodedFrame::new(data, header.clone());

    assert_eq!(frame.data().len(), 3);
    assert_eq!(frame.len(), 3);
    assert!(!frame.is_empty());

    let empty_frame = EncodedFrame::new(Bytes::new(), header);
    assert!(empty_frame.is_empty());
    assert_eq!(empty_frame.len(), 0);
}

#[test]
fn test_bytes_clone_is_zero_copy() {
    let original = Bytes::from(vec![1u8, 2, 3, 4, 5, 6, 7, 8, 9, 10]);
    let clone1 = original.clone();
    let clone2 = original.clone();

    assert_eq!(original.len(), clone1.len());
    assert_eq!(original.len(), clone2.len());
    assert_eq!(&original[..], &clone1[..]);
    assert_eq!(&original[..], &clone2[..]);
}

#[test]
fn from_vec_keeps_the_bytes() {
    let header = VideoFrameHeader { width: 1, height: 1, timestamp_us: 0, is_keyframe: false, codec: VideoCodec::VP9 };
    let frame = EncodedFrame::from_vec(vec![5, 6, 7], header);
    assert_eq!(&frame.data()[..], &[5, 6, 7]);
    assert_eq!(frame.len(), 3);
}

#[test]
fn test_encoded_frame_bytes_storage() {
    let data = Bytes::from(vec![0u8; 100]);
    let header = VideoFrameHeader { width: 1920, height: 1080, timestamp_us: 0, is_keyframe: true, codec: VideoCodec::VP9 };

    let frame = EncodedFrame::new(data, header);

    assert_eq!(frame.data.len(), 100);
    assert!(frame.header.is_keyframe);
    assert!(!frame.is_empty());
}

#[test]
fn zerocopy_test_test_encoded_frame_from_vec() {
    let data = vec![0u8; 256];
    let header = VideoFrameHeader { width: 1280, height: 720, timestamp_us: 1000, is_keyframe: false, codec: VideoCodec::H264 };

    let frame = EncodedFrame::from_vec(data, header);

    assert_eq!(frame.len(), 256);
    assert!(!frame.header.is_keyframe);
}

#[test]
fn zerocopy_test_test_encoded_frame_clone_shares_data() {
    let data = Bytes::from(vec![1u8, 2, 3, 4, 5]);
    let header = VideoFrameHeader { width: 1920, height: 1080, timestamp_us: 0, is_keyframe: true, codec: VideoCodec::VP9 };

    let frame1 = EncodedFrame::new(data, header.clone());
    let frame2 = frame1.clone();

    assert_eq!(frame1.data.len(), frame2.data.len());
    assert_eq!(&frame1.data[..], &frame2.data[..]);
    assert_eq!(frame2.header.width, 1920);
}
