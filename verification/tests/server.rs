use rdp_remote::server_auth::AuthManager;
use rdp_remote::server::{ServerAction, ServerEvent, ServerPhase, ServerReply, ServerSession};
use rdp_remote::signaling::SignalingMessage;

fn text(m: SignalingMessage) -> ServerEvent {
    ServerEvent::Text(Some(m))
}

fn auth(token: &str) -> ServerEvent {
    text(SignalingMessage::Auth { token: token.to_string() })
}

fn register(id: &str) -> ServerEvent {
    text(SignalingMessage::Register { device_id: id.to_string() })
}

fn registered(id: &str) -> ServerSession {
    let mut s = ServerSession::new();
    s.step(auth("tok"));
    s.step(ServerEvent::Verdict(Some(id.to_string())));
    let actions = s.step(register(id));
    assert!(matches!(&actions[..], [ServerAction::RegisterDevice(d)] if d == id));
    s
}

#[test]
fn auth_then_register() {
    let mut s = ServerSession::new();
    let actions = s.step(auth("tok"));
    assert!(matches!(&actions[..], [ServerAction::VerifyToken(t)] if t == "tok"));
    let actions = s.step(ServerEvent::Verdict(Some("dev-1".to_string())));
    assert!(matches!(&actions[..], [ServerAction::Reply(ServerReply::AuthAccepted)]));
    assert!(matches!(s.phase(), ServerPhase::AwaitingRegister { device_id } if device_id == "dev-1"));
    let actions = s.step(register("dev-1"));
    assert!(matches!(&actions[..], [ServerAction::RegisterDevice(d)] if d == "dev-1"));
    assert!(matches!(s.phase(), ServerPhase::Registered { .. }));
}

#[test]
fn refused_token_closes() {
    let mut s = ServerSession::new();
    s.step(auth("bad"));
    let actions = s.step(ServerEvent::Verdict(None));
    assert!(matches!(&actions[..], [ServerAction::Reply(ServerReply::InvalidToken), ServerAction::Close]));
    assert!(s.is_closed());
}

#[test]
fn first_message_must_be_auth() {
    let mut s = ServerSession::new();
    let actions = s.step(register("dev-1"));
    assert!(matches!(&actions[..], [ServerAction::Reply(ServerReply::ExpectedAuth), ServerAction::Close]));

    let mut s = ServerSession::new();
    let actions = s.step(ServerEvent::End);
    assert!(matches!(&actions[..], [ServerAction::Reply(ServerReply::NoAuthToken), ServerAction::Close]));

    let mut s = ServerSession::new();
    let actions = s.step(ServerEvent::Text(None));
    assert!(matches!(&actions[..], [ServerAction::Close]));
}

#[test]
fn register_must_match_token() {
    let mut s = ServerSession::new();
    s.step(auth("tok"));
    s.step(ServerEvent::Verdict(Some("dev-1".to_string())));
    let actions = s.step(register("dev-2"));
    assert!(matches!(&actions[..], [ServerAction::Reply(ServerReply::DeviceIdMismatch), ServerAction::Close]));

    let mut s = ServerSession::new();
    s.step(auth("tok"));
    s.step(ServerEvent::Verdict(Some("dev-1".to_string())));
    let actions = s.step(text(SignalingMessage::Offer { sdp: "x".to_string() }));
    assert!(matches!(&actions[..], [ServerAction::Reply(ServerReply::InvalidRegister), ServerAction::Close]));
}

#[test]
fn connect_is_forwarded_with_sender_id() {
    let mut s = registered("agent-1");
    let actions = s.step(text(SignalingMessage::Connect { target_device_id: "client-1".to_string() }));
    match &actions[..] {
        [ServerAction::ForwardTo { target, message: SignalingMessage::Connect { target_device_id } }] => {
            assert_eq!(target, "client-1");
            assert_eq!(target_device_id, "agent-1");
        }
        other => panic!("unexpected {:?}", other),
    }
}

#[test]
fn offers_answers_and_candidates_are_broadcast() {
    let mut s = registered("a");
    let actions = s.step(text(SignalingMessage::Offer { sdp: "o".to_string() }));
    assert!(matches!(&actions[..], [ServerAction::BroadcastExcept(d)] if d == "a"));
    let actions = s.step(text(SignalingMessage::Answer { sdp: "o".to_string() }));
    assert!(matches!(&actions[..], [ServerAction::BroadcastExcept(_)]));
    let actions = s.step(text(SignalingMessage::IceCandidate {
        candidate: "c".to_string(),
        sdp_mid: "0".to_string(),
        sdp_m_line_index: 0,
    }));
    assert!(matches!(&actions[..], [ServerAction::BroadcastExcept(_)]));
    let actions = s.step(text(SignalingMessage::Error { message: "e".to_string() }));
    assert!(actions.is_empty());
    let actions = s.step(ServerEvent::Other);
    assert!(actions.is_empty());
}

#[test]
fn end_unregisters_and_closed_stays_closed() {
    let mut s = registered("a");
    let actions = s.step(ServerEvent::End);
    assert!(matches!(&actions[..], [ServerAction::UnregisterDevice(d), ServerAction::Close] if d == "a"));
    assert!(s.is_closed());
    assert!(s.step(register("a")).is_empty());
    assert!(s.is_closed());
}

#[test]
fn reply_messages() {
    assert!(matches!(
        ServerReply::AuthAccepted.message(),
        SignalingMessage::AuthResponse { success: true, message: None }
    ));
    match ServerReply::NoAuthToken.message() {
        SignalingMessage::AuthResponse { success: false, message: Some(m) } => assert_eq!(m, "no auth token"),
        other => panic!("unexpected {:?}", other),
    }
    match ServerReply::DeviceIdMismatch.message() {
        SignalingMessage::AuthResponse { success: false, message: Some(m) } => assert_eq!(m, "device id mismatch"),
        other => panic!("unexpected {:?}", other),
    }
    match ServerReply::InvalidRegister.message() {
        SignalingMessage::Error { message } => assert_eq!(message, "invalid register"),
        other => panic!("unexpected {:?}", other),
    }
    match ServerReply::InvalidToken.message() {
        SignalingMessage::AuthResponse { success: false, message: Some(m) } => assert_eq!(m, "invalid token"),
        other => panic!("unexpected {:?}", other),
    }
    match ServerReply::ExpectedAuth.message() {
        SignalingMessage::AuthResponse { success: false, message: Some(m) } => assert_eq!(m, "expected auth message"),
        other => panic!("unexpected {:?}", other),
    }
}

#[test]
fn receive_checks_tokens_itself() {
    let auth = AuthManager::new("server-secret");
    let token = auth.generate_token("dev-9").unwrap();

    let mut s = ServerSession::new();
    let actions = s.receive(&auth, auth_event(&token));
    assert!(matches!(&actions[..], [ServerAction::Reply(ServerReply::AuthAccepted)]));
    let actions = s.receive(&auth, register("dev-9"));
    assert!(matches!(&actions[..], [ServerAction::RegisterDevice(d)] if d == "dev-9"));

    let other = AuthManager::new("another-secret");
    let forged = other.generate_token("dev-9").unwrap();
    let mut s = ServerSession::new();
    let actions = s.receive(&auth, auth_event(&forged));
    assert!(matches!(&actions[..], [ServerAction::Reply(ServerReply::InvalidToken), ServerAction::Close]));
    assert!(s.is_closed());
}

fn auth_event(token: &str) -> ServerEvent {
    auth(token)
}
