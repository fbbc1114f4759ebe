//! Verified core of a remote-desktop system: the signaling server's
//! handling of connections and tokens, the signaling sessions of the agent
//! and the client, bandwidth adaptation, frame skipping and pacing, change
//! detection, screen frames, the renderer's texture decisions, remote input,
//! clipboard and file-transfer state machines, and device passwords.

pub mod adaptive;
pub mod client_clipboard;
pub mod clipboard;
pub mod clock;
pub mod content_detector;
pub mod device_auth;
pub mod encoder;
pub mod file_transfer;
pub mod frame_skipper;
pub mod input;
pub mod protocol;
pub mod render;
pub mod roi;
pub mod rtc;
pub mod screen;
pub mod server;
pub mod server_auth;
pub mod session;
pub mod signaling;
pub mod text;
