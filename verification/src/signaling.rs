//! Messages exchanged with the signaling server. On the wire each is a JSON
//! object whose `type` field names the variant.

use vstd::prelude::*;

verus! {

/// A signaling message.
#[derive(Debug, Clone)]
pub enum SignalingMessage {
    /// An SDP offer (`"offer"`).
    Offer { sdp: String },
    /// An SDP answer (`"answer"`).
    Answer { sdp: String },
    /// An ICE candidate (`"ice-candidate"`).
    IceCandidate { candidate: String, sdp_mid: String, sdp_m_line_index: u16 },
    /// A device announces itself (`"register"`).
    Register { device_id: String },
    /// A request to connect to another device (`"connect"`).
    Connect { target_device_id: String },
    /// An error report (`"error"`).
    Error { message: String },
    /// A remote input event (`"input"`).
    Input { event: InputEvent },
    /// Clipboard text to share (`"clipboard"`).
    Clipboard { content: String },
    /// A device presents its token (`"auth"`).
    Auth { token: String },
    /// The server's answer to an authentication (`"auth-response"`).
    AuthResponse { success: bool, message: Option<String> },
}

/// An input event carried by a signaling message.
#[derive(Debug, Clone)]
pub enum InputEvent {
    /// `"mouse_move"`
    MouseMove { x: i32, y: i32 },
    /// `"mouse_button"`
    MouseButton { button: MouseButton, pressed: bool },
    /// `"mouse_wheel"`
    MouseWheel { delta: i32 },
    /// `"keyboard"`
    Keyboard { key: u16, pressed: bool },
}

/// A mouse button (`"left"`, `"right"`, `"middle"`).
#[derive(Debug, Clone)]
pub enum MouseButton {
    Left,
    Right,
    Middle,
}

} // verus!
