//! Encoded video frames as they travel from the agent to the client. The
//! encoded bytes are held in a shared, reference-counted buffer, so frames
//! are passed on without copying them.

use bytes::Bytes;
use vstd::prelude::*;

verus! {

#[verifier::external_type_specification]
#[verifier::external_body]
pub struct ExBytes(Bytes);

/// The bytes a `Bytes` buffer holds.
pub uninterp spec fn bytes_contents(b: Bytes) -> Seq<u8>;

/// Calls `Bytes::from(Vec<u8>)`: the buffer takes over the vector and holds
/// its bytes.
#[verifier::external_body]
fn bytes_from_vec(v: Vec<u8>) -> (b: Bytes)
    ensures
        bytes_contents(b) == v@,
{
    Bytes::from(v)
}

/// `Bytes::clone`: the copy shares the buffer, so it holds the same bytes.
pub assume_specification[ <Bytes as Clone>::clone ](b: &Bytes) -> (r: Bytes)
    ensures
        bytes_contents(r) == bytes_contents(*b),
;

/// Calls `Bytes::len`: the number of bytes held.
#[verifier::external_body]
fn bytes_len(b: &Bytes) -> (n: usize)
    ensures
        n == bytes_contents(*b).len(),
{
    b.len()
}

/// Calls `Bytes::is_empty`: whether no byte is held.
#[verifier::external_body]
fn bytes_is_empty(b: &Bytes) -> (e: bool)
    ensures
        e == (bytes_contents(*b).len() == 0),
{
    b.is_empty()
}

/// Video codec of a frame.
#[derive(Debug, Clone, Copy, PartialEq, Eq, Structural)]
pub enum VideoCodec {
    VP9,
    H264,
}

/// Description of an encoded frame.
#[derive(Debug, Clone, Copy)]
pub struct VideoFrameHeader {
    pub width: u32,
    pub height: u32,
    pub timestamp_us: u64,
    pub is_keyframe: bool,
    pub codec: VideoCodec,
}

/// An encoded frame and its description.
#[derive(Debug)]
pub struct EncodedFrame {
    pub data: Bytes,
    pub header: VideoFrameHeader,
}

impl Clone for EncodedFrame {
    /// A frame sharing this frame's buffer, so holding the same bytes, with
    /// the same description.
    fn clone(&self) -> (f: Self)
        ensures
            bytes_contents(f.data) == bytes_contents(self.data),
            f.header == self.header,
    {
        EncodedFrame { data: self.data.clone(), header: self.header }
    }
}

impl EncodedFrame {
    /// A frame over an existing buffer.
    pub fn new(data: Bytes, header: VideoFrameHeader) -> (f: Self)
        ensures
            f.data == data,
            f.header == header,
    {
        EncodedFrame { data, header }
    }

    /// A frame that takes over the bytes of a vector without copying them.
    pub fn from_vec(data: Vec<u8>, header: VideoFrameHeader) -> (f: Self)
        ensures
            bytes_contents(f.data) == data@,
            f.header == header,
    {
        EncodedFrame { data: bytes_from_vec(data), header }
    }

    /// The frame's bytes.
    pub fn data(&self) -> (d: &Bytes)
        ensures
            *d == self.data,
    {
        &self.data
    }

    /// Number of bytes in the frame.
    pub fn len(&self) -> (n: usize)
        ensures
            n == bytes_contents(self.data).len(),
    {
        bytes_len(&self.data)
    }

    /// Whether the frame holds no byte.
    pub fn is_empty(&self) -> (e: bool)
        ensures
            e == (bytes_contents(self.data).len() == 0),
    {
        bytes_is_empty(&self.data)
    }
}

} // verus!
