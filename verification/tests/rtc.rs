use rdp_remote::rtc::{frame_from_payload, ice_candidate_message, is_connected, Error, PeerConnectionState, ReceivedVideoFrame};
use rdp_remote::signaling::SignalingMessage;

#[test]
fn test_received_video_frame_struct() {
    let frame = ReceivedVideoFrame { data: vec![1, 2, 3, 4], timestamp_us: 123456, is_keyframe: true };

    assert_eq!(frame.data, vec![1, 2, 3, 4]);
    assert_eq!(frame.timestamp_us, 123456);
    assert!(frame.is_keyframe);
}

#[test]
fn error_texts() {
    assert_eq!(Error::WebRtc("boom".to_string()).to_string(), "WebRTC error: boom");
    assert_eq!(Error::Sdp("bad".to_string()).to_string(), "SDP error: bad");
    assert_eq!(Error::Ice("x".to_string()).to_string(), "ICE error: x");
    assert_eq!(Error::Track("t".to_string()).to_string(), "Track error: t");
    assert_eq!(Error::Send("s".to_string()).to_string(), "Send error: s");
}

#[test]
fn stack_errors_become_webrtc_errors() {
    let e: Error = Error::from(webrtc::Error::ErrConnectionClosed);
    match e {
        Error::WebRtc(text) => assert!(!text.is_empty()),
        other => panic!("unexpected {:?}", other),
    }
}

#[test]
fn only_connected_counts_as_connected() {
    assert!(is_connected(PeerConnectionState::Connected));
    assert!(!is_connected(PeerConnectionState::Connecting));
    assert!(!is_connected(PeerConnectionState::Closed));
}

#[test]
fn payload_frame_has_no_time_or_key() {
    let f = frame_from_payload(vec![9, 8, 7]);
    assert_eq!(f.data, vec![9, 8, 7]);
    assert_eq!(f.timestamp_us, 0);
    assert!(!f.is_keyframe);
}

#[test]
fn ice_message_defaults() {
    match ice_candidate_message("cand".to_string(), None, None) {
        SignalingMessage::IceCandidate { candidate, sdp_mid, sdp_m_line_index } => {
            assert_eq!(candidate, "cand");
            assert_eq!(sdp_mid, "");
            assert_eq!(sdp_m_line_index, 0);
        }
        other => panic!("unexpected {:?}", other),
    }
    match ice_candidate_message("c".to_string(), Some("0".to_string()), Some(2)) {
        SignalingMessage::IceCandidate { sdp_mid, sdp_m_line_index, .. } => {
            assert_eq!(sdp_mid, "0");
            assert_eq!(sdp_m_line_index, 2);
        }
        other => panic!("unexpected {:?}", other),
    }
}
