//! The sessions of the agent and the client with the signaling server.
//!
//! Each side registers, asks for (client) or waits for (agent) a connection,
//! and trades session descriptions and ICE candidates until the WebRTC
//! connection is set up. The agent then streams a frame every 33 ms; the
//! client waits for the connection and receives frames. The socket and the
//! peer connection are outside this module: it decides what each message
//! received means and what is sent.

use crate::rtc::PeerConnectionState;
use crate::signaling::SignalingMessage;
use vstd::prelude::*;
use vstd::string::StringExecFns;

verus! {

broadcast use vstd::string::group_string_axioms;

/// Something that came from the signaling server.
#[derive(Debug, Clone)]
pub enum SignalEvent {
    /// A text frame, with the signaling message it decodes to, or `None`
    /// when it is not one.
    Text(Option<SignalingMessage>),
    /// A frame that is not text.
    Other,
    /// Reading the stream failed with this error.
    Failed(String),
    /// The stream ended.
    Closed,
}

/// Why a session with the signaling server stopped.
#[derive(Debug, Clone)]
pub enum SessionError {
    /// Reading the stream failed.
    WebSocket(String),
    /// The server closed the stream.
    WebSocketClosed,
}

/// The display text of a session error.
pub open spec fn session_error_text(e: SessionError) -> Seq<char> {
    match e {
        SessionError::WebSocket(d) => "WebSocket error: "@ + d@,
        SessionError::WebSocketClosed => "WebSocket closed"@,
    }
}

impl SessionError {
    /// The error's display text.
    pub fn to_string(&self) -> (s: String)
        ensures
            s@ == session_error_text(*self),
    {
        match self {
            SessionError::WebSocket(d) => {
                let mut s = "WebSocket error: ".to_string();
                s.append(d.as_str());
                s
            },
            SessionError::WebSocketClosed => "WebSocket closed".to_string(),
        }
    }
}

/// The error that ends a session on `event`, if any.
pub open spec fn stream_failure(event: SignalEvent) -> Option<SessionError> {
    match event {
        SignalEvent::Failed(e) => Some(SessionError::WebSocket(e)),
        SignalEvent::Closed => Some(SessionError::WebSocketClosed),
        _ => None,
    }
}

/// The messages a device sends first: it registers, and asks for a
/// connection to `target` when it has one.
pub open spec fn opening_spec(device_id: String, target: Option<String>) -> Seq<SignalingMessage> {
    match target {
        Some(t) => seq![
            SignalingMessage::Register { device_id },
            SignalingMessage::Connect { target_device_id: t },
        ],
        None => seq![SignalingMessage::Register { device_id }],
    }
}

/// The messages the agent sends once it reaches the server: it registers
/// as `device_id`, then asks for a connection to `target` if one was given.
pub fn agent_opening(device_id: String, target: Option<String>) -> (msgs: Vec<SignalingMessage>)
    ensures
        msgs@ == opening_spec(device_id, target),
{
    let mut msgs: Vec<SignalingMessage> = Vec::new();
    msgs.push(SignalingMessage::Register { device_id });
    if let Some(t) = target {
        msgs.push(SignalingMessage::Connect { target_device_id: t });
    }
    proof {
        assert(msgs@ =~= opening_spec(device_id, target));
    }
    msgs
}

/// The messages the client sends once it reaches the server: it registers
/// as `device_id`, then asks for a connection to the agent `target_agent`.
pub fn client_opening(device_id: String, target_agent: String) -> (msgs: Vec<SignalingMessage>)
    ensures
        msgs@ == opening_spec(device_id, Some(target_agent)),
{
    agent_opening(device_id, Some(target_agent))
}

/// What the agent does with a message from the server while it sets up
/// the connection.
#[derive(Debug, Clone)]
pub enum AgentAction {
    /// Create an offer and send it in an `offer` message.
    SendOffer,
    /// Apply the remote answer; the connection is then set up.
    AcceptAnswer(String),
    /// Add the remote ICE candidate.
    AddIceCandidate { candidate: String, sdp_mid: String, sdp_m_line_index: u16 },
    /// Nothing.
    Ignore,
    /// Stop with this error.
    Fail(SessionError),
}

/// The agent's answer to an event while it sets up the connection: a
/// `connect` request is answered with an offer, an `answer` completes the
/// setup, a remote ICE candidate is added, and the end of the stream stops
/// the agent.
pub open spec fn agent_action_spec(event: SignalEvent) -> AgentAction {
    match event {
        SignalEvent::Text(Some(SignalingMessage::Connect { .. })) => AgentAction::SendOffer,
        SignalEvent::Text(Some(SignalingMessage::Answer { sdp })) => AgentAction::AcceptAnswer(sdp),
        SignalEvent::Text(
            Some(SignalingMessage::IceCandidate { candidate, sdp_mid, sdp_m_line_index }),
        ) => AgentAction::AddIceCandidate { candidate, sdp_mid, sdp_m_line_index },
        SignalEvent::Failed(e) => AgentAction::Fail(SessionError::WebSocket(e)),
        SignalEvent::Closed => AgentAction::Fail(SessionError::WebSocketClosed),
        _ => AgentAction::Ignore,
    }
}

/// What the agent does with `event` while it sets up the connection.
pub fn agent_action(event: SignalEvent) -> (a: AgentAction)
    ensures
        a == agent_action_spec(event),
        event matches SignalEvent::Text(Some(SignalingMessage::Connect { .. })) ==> a == AgentAction::SendOffer,
        event matches SignalEvent::Text(Some(SignalingMessage::Answer { sdp })) ==> a == AgentAction::AcceptAnswer(
            sdp,
        ),
        event matches SignalEvent::Text(
            Some(SignalingMessage::IceCandidate { candidate, sdp_mid, sdp_m_line_index }),
        ) ==> a == (AgentAction::AddIceCandidate {
            candidate: candidate,
            sdp_mid: sdp_mid,
            sdp_m_line_index: sdp_m_line_index,
        }),
        event matches SignalEvent::Failed(e) ==> a == AgentAction::Fail(SessionError::WebSocket(e)),
        event == SignalEvent::Closed ==> a == AgentAction::Fail(SessionError::WebSocketClosed),
{
    match event {
        SignalEvent::Text(Some(SignalingMessage::Connect { .. })) => AgentAction::SendOffer,
        SignalEvent::Text(Some(SignalingMessage::Answer { sdp })) => AgentAction::AcceptAnswer(sdp),
        SignalEvent::Text(Some(SignalingMessage::IceCandidate { candidate, sdp_mid, sdp_m_line_index })) => {
            AgentAction::AddIceCandidate { candidate, sdp_mid, sdp_m_line_index }
        },
        SignalEvent::Failed(e) => AgentAction::Fail(SessionError::WebSocket(e)),
        SignalEvent::Closed => AgentAction::Fail(SessionError::WebSocketClosed),
        _ => AgentAction::Ignore,
    }
}

/// What the client does with a message from the server while it sets up
/// the connection.
#[derive(Debug, Clone)]
pub enum ClientAction {
    /// Apply the remote offer, add a receive-only video transceiver, answer
    /// it in an `answer` message and start receiving video; the setup is
    /// then done.
    AnswerOffer(String),
    /// Add the remote ICE candidate.
    AddIceCandidate { candidate: String, sdp_mid: String, sdp_m_line_index: u16 },
    /// Nothing.
    Ignore,
    /// Stop with this error.
    Fail(SessionError),
}

/// The client's answer to an event while it sets up the connection.
pub open spec fn client_action_spec(event: SignalEvent) -> ClientAction {
    match event {
        SignalEvent::Text(Some(SignalingMessage::Offer { sdp })) => ClientAction::AnswerOffer(sdp),
        SignalEvent::Text(
            Some(SignalingMessage::IceCandidate { candidate, sdp_mid, sdp_m_line_index }),
        ) => ClientAction::AddIceCandidate { candidate, sdp_mid, sdp_m_line_index },
        SignalEvent::Failed(e) => ClientAction::Fail(SessionError::WebSocket(e)),
        SignalEvent::Closed => ClientAction::Fail(SessionError::WebSocketClosed),
        _ => ClientAction::Ignore,
    }
}

/// What the client does with `event` while it sets up the connection.
pub fn client_action(event: SignalEvent) -> (a: ClientAction)
    ensures
        a == client_action_spec(event),
        event matches SignalEvent::Text(Some(SignalingMessage::Offer { sdp })) ==> a == ClientAction::AnswerOffer(
            sdp,
        ),
        event matches SignalEvent::Text(
            Some(SignalingMessage::IceCandidate { candidate, sdp_mid, sdp_m_line_index }),
        ) ==> a == (ClientAction::AddIceCandidate {
            candidate: candidate,
            sdp_mid: sdp_mid,
            sdp_m_line_index: sdp_m_line_index,
        }),
        event matches SignalEvent::Failed(e) ==> a == ClientAction::Fail(SessionError::WebSocket(e)),
        event == SignalEvent::Closed ==> a == ClientAction::Fail(SessionError::WebSocketClosed),
{
    match event {
        SignalEvent::Text(Some(SignalingMessage::Offer { sdp })) => ClientAction::AnswerOffer(sdp),
        SignalEvent::Text(Some(SignalingMessage::IceCandidate { candidate, sdp_mid, sdp_m_line_index })) => {
            ClientAction::AddIceCandidate { candidate, sdp_mid, sdp_m_line_index }
        },
        SignalEvent::Failed(e) => ClientAction::Fail(SessionError::WebSocket(e)),
        SignalEvent::Closed => ClientAction::Fail(SessionError::WebSocketClosed),
        _ => ClientAction::Ignore,
    }
}

/// Times the client looks at the connection state, 100 ms apart, before it
/// goes on to receive frames anyway.
pub const CONNECT_POLLS: u32 = 100;

/// Milliseconds between two looks at the connection state.
pub const CONNECT_POLL_MS: u64 = 100;

/// What the client does after looking at the connection state.
#[derive(Debug, Clone, Copy, PartialEq, Eq, Structural)]
pub enum ConnectWait {
    /// The connection is up: go on.
    Connected,
    /// The connection failed, closed or was lost: stop.
    Failed,
    /// Not yet: wait 100 ms and look again.
    WaitAgain,
    /// Every look has been taken: go on without knowing.
    StopWaiting,
}

/// The client's decision after its `polls_done`-th look found `state`.
pub open spec fn connect_wait_spec(state: PeerConnectionState, polls_done: u32) -> ConnectWait {
    match state {
        PeerConnectionState::Connected => ConnectWait::Connected,
        PeerConnectionState::Failed | PeerConnectionState::Closed | PeerConnectionState::Disconnected => {
            ConnectWait::Failed
        },
        _ => if polls_done < CONNECT_POLLS {
            ConnectWait::WaitAgain
        } else {
            ConnectWait::StopWaiting
        },
    }
}

/// What the client does after its `polls_done`-th look at the connection
/// found it in `state`.
pub fn connect_wait(state: PeerConnectionState, polls_done: u32) -> (w: ConnectWait)
    requires
        1 <= polls_done <= CONNECT_POLLS,
    ensures
        w == connect_wait_spec(state, polls_done),
{
    match state {
        PeerConnectionState::Connected => ConnectWait::Connected,
        PeerConnectionState::Failed | PeerConnectionState::Closed | PeerConnectionState::Disconnected => {
            ConnectWait::Failed
        },
        _ => if polls_done < CONNECT_POLLS {
            ConnectWait::WaitAgain
        } else {
            ConnectWait::StopWaiting
        },
    }
}

/// Time between the starts of two frames the agent streams, in
/// milliseconds.
pub const FRAME_INTERVAL_MS: u64 = 33;

/// Duration announced for each frame sent, in microseconds.
pub const FRAME_DURATION_US: u64 = 33_333;

/// The agent reports its progress every this many frames.
pub const PROGRESS_EVERY: u64 = 30;

/// What follows a streamed frame.
#[derive(Debug, Clone, Copy, PartialEq, Eq, Structural)]
pub struct PaceStep {
    /// Whether to report the number of frames streamed so far.
    pub report: bool,
    /// How long to sleep before the next frame, in nanoseconds.
    pub sleep_nanos: u64,
}

/// Counts the frames the agent streams and spaces them 33 ms apart.
pub struct FramePacer {
    frames: u64,
}

impl FramePacer {
    /// Frames streamed so far.
    pub closed spec fn spec_frames(&self) -> nat {
        self.frames as nat
    }

    /// A pacer before the first frame.
    pub fn new() -> (p: Self)
        ensures
            p.spec_frames() == 0,
    {
        FramePacer { frames: 0 }
    }

    /// Frames streamed so far.
    pub fn frames(&self) -> (n: u64)
        ensures
            n == self.spec_frames(),
    {
        self.frames
    }

    /// Records that a frame was handled in `elapsed_nanos`: it counts the
    /// frame, reports every 30th, and sleeps for what is left of the 33 ms.
    pub fn frame_done(&mut self, elapsed_nanos: u128) -> (step: PaceStep)
        requires
            old(self).spec_frames() < u64::MAX,
        ensures
            final(self).spec_frames() == old(self).spec_frames() + 1,
            step.report == (final(self).spec_frames() % (PROGRESS_EVERY as nat) == 0),
            step.sleep_nanos == (if elapsed_nanos < FRAME_INTERVAL_MS * 1_000_000 {
                FRAME_INTERVAL_MS * 1_000_000 - elapsed_nanos
            } else {
                0
            }),
    {
        self.frames = self.frames + 1;
        let interval: u64 = FRAME_INTERVAL_MS * 1_000_000;
        let sleep_nanos: u64 = if elapsed_nanos < interval as u128 {
            interval - elapsed_nanos as u64
        } else {
            0
        };
        PaceStep { report: self.frames % PROGRESS_EVERY == 0, sleep_nanos }
    }
}

/// Law: the agent keeps its pace. A frame handled in less than the interval
/// is followed by exactly the sleep that brings its start-to-start time to
/// the interval, and a slower one by none.
pub proof fn law_frames_start_an_interval_apart(elapsed_nanos: u128, sleep_nanos: u64)
    requires
        sleep_nanos == (if elapsed_nanos < FRAME_INTERVAL_MS * 1_000_000 {
            FRAME_INTERVAL_MS * 1_000_000 - elapsed_nanos
        } else {
            0
        }),
    ensures
        elapsed_nanos + sleep_nanos >= FRAME_INTERVAL_MS * 1_000_000,
        elapsed_nanos < FRAME_INTERVAL_MS * 1_000_000 ==> elapsed_nanos + sleep_nanos == FRAME_INTERVAL_MS
            * 1_000_000,
{
}

/// Law: during setup the agent adds each ICE candidate the client sends,
/// exactly as received: the candidate, its media id and its line index go
/// to the peer connection unchanged and in their own places. A `connect`
/// is answered with an offer, an answer is applied as it came, and the end
/// of the stream stops the agent.
pub proof fn law_agent_applies_remote_messages(c: String, m: String, i: u16, sdp: String, target: String, e: String)
    ensures
        agent_action_spec(
            SignalEvent::Text(
                Some(SignalingMessage::IceCandidate { candidate: c, sdp_mid: m, sdp_m_line_index: i }),
            ),
        ) == (AgentAction::AddIceCandidate { candidate: c, sdp_mid: m, sdp_m_line_index: i }),
        agent_action_spec(SignalEvent::Text(Some(SignalingMessage::Connect { target_device_id: target })))
            == AgentAction::SendOffer,
        agent_action_spec(SignalEvent::Text(Some(SignalingMessage::Answer { sdp: sdp }))) == AgentAction::AcceptAnswer(
            sdp,
        ),
        agent_action_spec(SignalEvent::Text(Some(SignalingMessage::Offer { sdp: sdp }))) == AgentAction::Ignore,
        agent_action_spec(SignalEvent::Failed(e)) == AgentAction::Fail(SessionError::WebSocket(e)),
        agent_action_spec(SignalEvent::Closed) == AgentAction::Fail(SessionError::WebSocketClosed),
{
}

/// Law: during setup the client adds each ICE candidate the agent sends,
/// exactly as received, answers the agent's offer with that offer's own
/// session description, ignores an answer, and stops when the stream ends.
pub proof fn law_client_applies_remote_messages(c: String, m: String, i: u16, sdp: String, e: String)
    ensures
        client_action_spec(
            SignalEvent::Text(
                Some(SignalingMessage::IceCandidate { candidate: c, sdp_mid: m, sdp_m_line_index: i }),
            ),
        ) == (ClientAction::AddIceCandidate { candidate: c, sdp_mid: m, sdp_m_line_index: i }),
        client_action_spec(SignalEvent::Text(Some(SignalingMessage::Offer { sdp: sdp }))) == ClientAction::AnswerOffer(
            sdp,
        ),
        client_action_spec(SignalEvent::Text(Some(SignalingMessage::Answer { sdp: sdp }))) == ClientAction::Ignore,
        client_action_spec(SignalEvent::Failed(e)) == ClientAction::Fail(SessionError::WebSocket(e)),
        client_action_spec(SignalEvent::Closed) == ClientAction::Fail(SessionError::WebSocketClosed),
{
}

} // verus!
