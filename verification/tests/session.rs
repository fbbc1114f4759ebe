use rdp_remote::rtc::PeerConnectionState;
use rdp_remote::session::{
    agent_action, agent_opening, client_action, client_opening, connect_wait, AgentAction, ClientAction, ConnectWait,
    FramePacer, SessionError, SignalEvent, CONNECT_POLLS, FRAME_DURATION_US,
};
use rdp_remote::signaling::SignalingMessage;

#[test]
fn agent_opens_with_register_then_connect() {
    let msgs = agent_opening("agent-1".to_string(), Some("client-1".to_string()));
    assert_eq!(msgs.len(), 2);
    assert!(matches!(&msgs[0], SignalingMessage::Register { device_id } if device_id == "agent-1"));
    assert!(matches!(&msgs[1], SignalingMessage::Connect { target_device_id } if target_device_id == "client-1"));
    let msgs = agent_opening("agent-1".to_string(), None);
    assert_eq!(msgs.len(), 1);
    let msgs = client_opening("client-1".to_string(), "agent-1".to_string());
    assert!(matches!(&msgs[1], SignalingMessage::Connect { target_device_id } if target_device_id == "agent-1"));
}

#[test]
fn agent_answers_connect_with_offer() {
    let connect = SignalEvent::Text(Some(SignalingMessage::Connect { target_device_id: "c".to_string() }));
    assert!(matches!(agent_action(connect), AgentAction::SendOffer));
    let answer = SignalEvent::Text(Some(SignalingMessage::Answer { sdp: "v=0".to_string() }));
    assert!(matches!(agent_action(answer), AgentAction::AcceptAnswer(s) if s == "v=0"));
    let offer = SignalEvent::Text(Some(SignalingMessage::Offer { sdp: "v=0".to_string() }));
    assert!(matches!(agent_action(offer), AgentAction::Ignore));
    assert!(matches!(agent_action(SignalEvent::Text(None)), AgentAction::Ignore));
    assert!(matches!(agent_action(SignalEvent::Other), AgentAction::Ignore));
    match agent_action(SignalEvent::Closed) {
        AgentAction::Fail(e) => assert_eq!(e.to_string(), "WebSocket closed"),
        other => panic!("unexpected {:?}", other),
    }
    match agent_action(SignalEvent::Failed("reset".to_string())) {
        AgentAction::Fail(e) => assert_eq!(e.to_string(), "WebSocket error: reset"),
        other => panic!("unexpected {:?}", other),
    }
}

#[test]
fn client_answers_offers_and_adds_candidates() {
    let offer = SignalEvent::Text(Some(SignalingMessage::Offer { sdp: "o".to_string() }));
    assert!(matches!(client_action(offer), ClientAction::AnswerOffer(s) if s == "o"));
    let ice = SignalEvent::Text(Some(SignalingMessage::IceCandidate {
        candidate: "c".to_string(),
        sdp_mid: "0".to_string(),
        sdp_m_line_index: 1,
    }));
    assert!(matches!(client_action(ice), ClientAction::AddIceCandidate { sdp_m_line_index: 1, .. }));
    let answer = SignalEvent::Text(Some(SignalingMessage::Answer { sdp: "a".to_string() }));
    assert!(matches!(client_action(answer), ClientAction::Ignore));
    assert!(matches!(client_action(SignalEvent::Closed), ClientAction::Fail(SessionError::WebSocketClosed)));
}

#[test]
fn client_waits_for_connection() {
    assert_eq!(connect_wait(PeerConnectionState::Connected, 1), ConnectWait::Connected);
    assert_eq!(connect_wait(PeerConnectionState::Failed, 1), ConnectWait::Failed);
    assert_eq!(connect_wait(PeerConnectionState::Disconnected, 50), ConnectWait::Failed);
    assert_eq!(connect_wait(PeerConnectionState::Connecting, 1), ConnectWait::WaitAgain);
    assert_eq!(connect_wait(PeerConnectionState::New, CONNECT_POLLS), ConnectWait::StopWaiting);
}

#[test]
fn pacer_sleeps_rest_of_interval_and_reports_every_thirtieth() {
    let mut pacer = FramePacer::new();
    let step = pacer.frame_done(10_000_000);
    assert_eq!(step.sleep_nanos, 23_000_000);
    assert!(!step.report);
    let step = pacer.frame_done(40_000_000);
    assert_eq!(step.sleep_nanos, 0);
    for _ in 2..29 {
        pacer.frame_done(0);
    }
    let step = pacer.frame_done(0);
    assert_eq!(pacer.frames(), 30);
    assert!(step.report);
    assert_eq!(FRAME_DURATION_US, 33_333);
}
