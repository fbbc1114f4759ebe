//! What the peers of a WebRTC session share with the rest of the system:
//! their errors, the states of a peer connection, the frames the client
//! receives and the ICE candidates they trade.

use crate::signaling::SignalingMessage;
use vstd::prelude::*;
use webrtc::Error as StackError;

verus! {

broadcast use vstd::string::group_string_axioms;

#[verifier::external_type_specification]
#[verifier::external_body]
pub struct ExStackError(StackError);

/// Calls `to_string` on an error of the `webrtc` crate: its display text.
/// The text is the crate's own wording, so nothing is stated of it.
#[verifier::external_body]
fn rtc_error_text(e: &StackError) -> (t: String) {
    e.to_string()
}

/// An error of a WebRTC operation, with its description.
#[derive(Debug)]
pub enum Error {
    /// The WebRTC stack failed.
    WebRtc(String),
    /// A session description could not be used.
    Sdp(String),
    /// An ICE candidate could not be used.
    Ice(String),
    /// A media track failed.
    Track(String),
    /// A frame could not be sent.
    Send(String),
}

/// The label a kind of error is displayed with.
pub open spec fn error_label(e: Error) -> Seq<char> {
    match e {
        Error::WebRtc(_) => "WebRTC error: "@,
        Error::Sdp(_) => "SDP error: "@,
        Error::Ice(_) => "ICE error: "@,
        Error::Track(_) => "Track error: "@,
        Error::Send(_) => "Send error: "@,
    }
}

/// The description an error carries.
pub open spec fn error_detail(e: Error) -> Seq<char> {
    match e {
        Error::WebRtc(d) => d@,
        Error::Sdp(d) => d@,
        Error::Ice(d) => d@,
        Error::Track(d) => d@,
        Error::Send(d) => d@,
    }
}

impl Error {
    /// The error's display text: its label followed by its description.
    pub fn to_string(&self) -> (s: String)
        ensures
            s@ == error_label(*self) + error_detail(*self),
    {
        let (label, detail) = match self {
            Error::WebRtc(d) => ("WebRTC error: ", d),
            Error::Sdp(d) => ("SDP error: ", d),
            Error::Ice(d) => ("ICE error: ", d),
            Error::Track(d) => ("Track error: ", d),
            Error::Send(d) => ("Send error: ", d),
        };
        let mut s = label.to_string();
        s.append(detail.as_str());
        s
    }
}

impl From<StackError> for Error {
    /// An error of the WebRTC stack, described by its display text.
    fn from(e: StackError) -> (r: Self)
        ensures
            r is WebRtc,
    {
        Error::WebRtc(rtc_error_text(&e))
    }
}

impl vstd::std_specs::convert::FromSpecImpl<StackError> for Error {
    /// The description is the stack's own text, so no single value is
    /// named as the result.
    open spec fn obeys_from_spec() -> bool {
        false
    }

    open spec fn from_spec(e: StackError) -> Self {
        Error::WebRtc(arbitrary())
    }
}

/// The state of a peer connection.
#[derive(Debug, Clone, Copy, PartialEq, Eq, Structural)]
pub enum PeerConnectionState {
    Unspecified,
    New,
    Connecting,
    Connected,
    Disconnected,
    Failed,
    Closed,
}

/// Whether a peer connection in `state` is connected.
pub fn is_connected(state: PeerConnectionState) -> (b: bool)
    ensures
        b == (state == PeerConnectionState::Connected),
{
    match state {
        PeerConnectionState::Connected => true,
        _ => false,
    }
}

/// A video frame received from the remote peer.
#[derive(Debug, Clone)]
pub struct ReceivedVideoFrame {
    pub data: Vec<u8>,
    pub timestamp_us: u64,
    pub is_keyframe: bool,
}

/// The frame made of the payload of one received RTP packet. The packet
/// carries no capture time that the frame could keep, and telling a
/// keyframe would need the payload parsed, so both are left unset.
pub fn frame_from_payload(payload: Vec<u8>) -> (f: ReceivedVideoFrame)
    ensures
        f.data@ == payload@,
        f.timestamp_us == 0,
        !f.is_keyframe,
{
    ReceivedVideoFrame { data: payload, timestamp_us: 0, is_keyframe: false }
}

/// The signaling message that passes a locally gathered ICE candidate on to
/// the remote peer; a missing media id is sent empty and a missing line
/// index as 0.
pub fn ice_candidate_message(candidate: String, sdp_mid: Option<String>, sdp_m_line_index: Option<u16>) -> (m:
    SignalingMessage)
    ensures
        m matches SignalingMessage::IceCandidate { candidate: c, sdp_mid: mid, sdp_m_line_index: index } && c
            == candidate && mid@ == (match sdp_mid {
            Some(s) => s@,
            None => Seq::<char>::empty(),
        }) && index == (match sdp_m_line_index {
            Some(i) => i,
            None => 0u16,
        }),
{
    let mid = match sdp_mid {
        Some(s) => s,
        None => String::new(),
    };
    let index: u16 = match sdp_m_line_index {
        Some(i) => i,
        None => 0,
    };
    SignalingMessage::IceCandidate { candidate, sdp_mid: mid, sdp_m_line_index: index }
}

} // verus!
