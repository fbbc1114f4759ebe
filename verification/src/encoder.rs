//! Video encoding: the frames an encoder produces and the interface of an
//! encoder.

use vstd::prelude::*;

verus! {

/// An encoded video frame.
pub struct EncodedFrame {
    /// The compressed bitstream of the frame.
    pub data: Vec<u8>,
    /// Whether the frame can be decoded on its own.
    pub is_keyframe: bool,
    /// Capture time in microseconds.
    pub timestamp_us: u64,
    /// Width in pixels.
    pub width: u32,
    /// Height in pixels.
    pub height: u32,
}

/// Why a frame could not be encoded.
#[derive(Debug, Clone)]
pub enum EncodeError {
    /// The pixels do not make a frame of the size given.
    InvalidFrame(String),
    /// The codec failed.
    Codec(String),
}

/// A video encoder.
pub trait VideoEncoder {
    /// Encodes a frame of BGRA pixels, four bytes each, row after row.
    fn encode(&mut self, frame: &[u8], width: u32, height: u32, timestamp_us: u64) -> Result<
        EncodedFrame,
        EncodeError,
    >;

    /// Sets the target bitrate in kbit/s.
    fn set_bitrate(&mut self, bitrate_kbps: u32);

    /// Makes the next frame a keyframe.
    fn force_keyframe(&mut self);
}

} // verus!
