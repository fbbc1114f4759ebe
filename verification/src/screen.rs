//! Screen capture: the frames captured, the interface of a capturer, and
//! what a capturer computes around the capture itself.
//!
//! A frame holds BGRA pixels, four bytes each, row after row with no gap.
//! The graphics driver hands a captured image over as rows spaced by a
//! pitch that may exceed the width of a row; the rows are copied out
//! without the padding.

use vstd::arithmetic::div_mod::{lemma_fundamental_div_mod, lemma_mod_pos_bound};
use vstd::prelude::*;

verus! {

/// Bytes in a BGRA pixel.
pub const BYTES_PER_PIXEL: u32 = 4;

/// A captured frame.
#[derive(Debug, Clone)]
pub struct CapturedFrame {
    /// Width in pixels.
    pub width: u32,
    /// Height in pixels.
    pub height: u32,
    /// BGRA pixels, four bytes each, row after row.
    pub data: Vec<u8>,
    /// Bytes from the start of one row to the start of the next.
    pub stride: u32,
    /// Capture time in microseconds.
    pub timestamp_us: u64,
}

/// Why a capture failed.
#[derive(Debug, Clone)]
pub enum CaptureError {
    /// The capture device could not be set up.
    Initialization(String),
    /// No frame could be acquired.
    Acquire(String),
    /// The captured image could not be read.
    Read(String),
}

/// A source of screen frames.
pub trait ScreenCapture {
    /// Captures a frame of the screen.
    fn capture_frame(&mut self) -> Result<CapturedFrame, CaptureError>;

    /// The width and height of the screen in pixels.
    fn get_dimensions(&self) -> (u32, u32);
}

/// Whether a frame of `width` by `height` pixels has a byte count that the
/// capturer's 32-bit arithmetic holds.
pub open spec fn frame_fits(width: u32, height: u32) -> bool {
    &&& width * BYTES_PER_PIXEL <= u32::MAX
    &&& width * height * BYTES_PER_PIXEL <= u32::MAX
}

/// Whether `data` holds the rows of an image of `height` rows of `row_len`
/// bytes, copied from `mapped` where they start `pitch` bytes apart.
pub open spec fn rows_copied(data: Seq<u8>, mapped: Seq<u8>, pitch: int, row_len: int, height: int) -> bool {
    &&& data.len() == height * row_len
    &&& forall|y: int, x: int|
        0 <= y < height && 0 <= x < row_len ==> #[trigger] data[y * row_len + x] == mapped[y * pitch + x]
}

/// The rows of an image of `height` rows of `row_len` bytes that start
/// `pitch` bytes apart in `mapped`, put end to end: byte `i` of the result is
/// byte `i % row_len` of row `i / row_len`.
pub open spec fn pitched_rows(mapped: Seq<u8>, pitch: int, row_len: int, height: int) -> Seq<u8> {
    Seq::new((height * row_len) as nat, |i: int| mapped[(i / row_len) * pitch + i % row_len])
}

proof fn lemma_rows_copied_is_pitched_rows(data: Seq<u8>, mapped: Seq<u8>, pitch: int, row_len: int, height: int)
    requires
        0 <= row_len,
        0 <= height,
        rows_copied(data, mapped, pitch, row_len, height),
    ensures
        data == pitched_rows(mapped, pitch, row_len, height),
{
    let expected = pitched_rows(mapped, pitch, row_len, height);
    assert(height * row_len >= 0) by (nonlinear_arith)
        requires
            0 <= row_len,
            0 <= height,
    ;
    assert forall|i: int| 0 <= i < data.len() implies data[i] == expected[i] by {
        assert(row_len > 0) by (nonlinear_arith)
            requires
                0 <= i < height * row_len,
                0 <= height,
                0 <= row_len,
        ;
        let q = i / row_len;
        let r = i % row_len;
        lemma_fundamental_div_mod(i, row_len);
        lemma_mod_pos_bound(i, row_len);
        assert(0 <= q < height) by (nonlinear_arith)
            requires
                i == row_len * q + r,
                0 <= r < row_len,
                0 <= i < height * row_len,
        ;
        assert(i == q * row_len + r) by (nonlinear_arith)
            requires
                i == row_len * q + r,
        ;
        assert(data[q * row_len + r] == mapped[q * pitch + r]);
    }
    assert(data =~= expected);
}

proof fn lemma_row_offsets(y: int, height: int, row_len: int, pitch: int)
    requires
        0 <= y < height,
        0 <= row_len <= pitch,
    ensures
        y * pitch <= (height - 1) * pitch,
        y * row_len + row_len <= height * row_len,
        (y + 1) * row_len == y * row_len + row_len,
{
    assert(y * pitch <= (height - 1) * pitch) by (nonlinear_arith)
        requires
            0 <= y <= height - 1,
            0 <= pitch,
    ;
    assert(y * row_len + row_len <= height * row_len) by (nonlinear_arith)
        requires
            0 <= y < height,
            0 <= row_len,
    ;
    assert((y + 1) * row_len == y * row_len + row_len) by (nonlinear_arith);
}

/// The pixels of a `width` by `height` image that the driver mapped with
/// rows `row_pitch` bytes apart, copied into rows with no gap.
pub fn copy_pitched_rows(mapped: &[u8], row_pitch: usize, width: u32, height: u32) -> (data: Vec<u8>)
    requires
        frame_fits(width, height),
        width * BYTES_PER_PIXEL <= row_pitch,
        height > 0 ==> (height - 1) * row_pitch + width * BYTES_PER_PIXEL <= mapped@.len(),
    ensures
        rows_copied(data@, mapped@, row_pitch as int, width * BYTES_PER_PIXEL, height as int),
        data@ == pitched_rows(mapped@, row_pitch as int, width * BYTES_PER_PIXEL, height as int),
{
    let row_len: usize = (width * BYTES_PER_PIXEL) as usize;
    let rows: usize = height as usize;
    let total: usize = mapped.len();
    assert(row_len * rows == width * height * BYTES_PER_PIXEL) by (nonlinear_arith)
        requires
            row_len == width * BYTES_PER_PIXEL,
            rows == height,
    ;
    let mut data: Vec<u8> = Vec::with_capacity(row_len * rows);
    let mut y: usize = 0;
    while y < rows
        invariant
            row_len == width * BYTES_PER_PIXEL,
            rows == height,
            frame_fits(width, height),
            row_len <= row_pitch,
            rows > 0 ==> (rows - 1) * row_pitch + row_len <= mapped@.len(),
            total == mapped@.len(),
            y <= rows,
            rows_copied(data@, mapped@, row_pitch as int, row_len as int, y as int),
        decreases rows - y,
    {
        proof {
            lemma_row_offsets(y as int, rows as int, row_len as int, row_pitch as int);
        }
        let row_start: usize = y * row_pitch;
        let ghost before = data@;
        let mut x: usize = 0;
        while x < row_len
            invariant
                row_len == width * BYTES_PER_PIXEL,
                rows == height,
                frame_fits(width, height),
                y < rows,
                row_start == y * row_pitch,
                row_start + row_len <= mapped@.len(),
                total == mapped@.len(),
                before.len() == y * row_len,
                y * row_len + row_len <= rows * row_len,
                x <= row_len,
                data@.len() == y * row_len + x,
                forall|i: int| 0 <= i < y * row_len ==> #[trigger] data@[i] == before[i],
                forall|i: int| 0 <= i < x ==> #[trigger] data@[y * row_len + i] == mapped@[row_start + i],
            decreases row_len - x,
        {
            data.push(mapped[row_start + x]);
            x = x + 1;
        }
        proof {
            assert forall|yy: int, xx: int| 0 <= yy < y + 1 && 0 <= xx < row_len implies #[trigger] data@[yy
                * row_len + xx] == mapped@[yy * row_pitch + xx] by {
                if yy < y {
                    lemma_row_offsets(yy, y as int, row_len as int, row_pitch as int);
                    assert(data@[yy * row_len + xx] == before[yy * row_len + xx]);
                }
            }
        }
        y = y + 1;
    }
    proof {
        lemma_rows_copied_is_pitched_rows(data@, mapped@, row_pitch as int, row_len as int, rows as int);
    }
    data
}

/// A frame of `width` by `height` black pixels, all bytes zero, taken at
/// `timestamp_us`.
pub fn blank_frame(width: u32, height: u32, timestamp_us: u64) -> (f: CapturedFrame)
    requires
        frame_fits(width, height),
    ensures
        f.width == width,
        f.height == height,
        f.stride == width * BYTES_PER_PIXEL,
        f.timestamp_us == timestamp_us,
        f.data@.len() == width * height * BYTES_PER_PIXEL,
        forall|i: int| 0 <= i < f.data@.len() ==> #[trigger] f.data@[i] == 0,
{
    let len: usize = (width * height * BYTES_PER_PIXEL) as usize;
    let mut data: Vec<u8> = Vec::with_capacity(len);
    let mut i: usize = 0;
    while i < len
        invariant
            i <= len,
            data@.len() == i,
            forall|j: int| 0 <= j < i ==> #[trigger] data@[j] == 0,
        decreases len - i,
    {
        data.push(0);
        i = i + 1;
    }
    CapturedFrame { width, height, data, stride: width * BYTES_PER_PIXEL, timestamp_us }
}

/// The frame made of the pixels copied out of a mapped image, taken at
/// `timestamp_us`.
pub fn frame_from_mapped(mapped: &[u8], row_pitch: usize, width: u32, height: u32, timestamp_us: u64) -> (f:
    CapturedFrame)
    requires
        frame_fits(width, height),
        width * BYTES_PER_PIXEL <= row_pitch,
        height > 0 ==> (height - 1) * row_pitch + width * BYTES_PER_PIXEL <= mapped@.len(),
    ensures
        f.width == width,
        f.height == height,
        f.stride == width * BYTES_PER_PIXEL,
        f.timestamp_us == timestamp_us,
        rows_copied(f.data@, mapped@, row_pitch as int, width * BYTES_PER_PIXEL, height as int),
        f.data@ == pitched_rows(mapped@, row_pitch as int, width * BYTES_PER_PIXEL, height as int),
{
    let data = copy_pitched_rows(mapped, row_pitch, width, height);
    CapturedFrame { width, height, data, stride: width * BYTES_PER_PIXEL, timestamp_us }
}

/// How asking the driver for the next frame went.
#[derive(Debug, Clone, Copy, PartialEq, Eq, Structural)]
pub enum AcquireOutcome {
    /// A new frame is ready.
    NewFrame,
    /// No new frame came within the wait.
    TimedOut,
    /// Access to the desktop was lost; the capture must be set up again.
    AccessLost,
    /// Another failure.
    Failed,
}

/// What a capturer does after asking for a frame.
#[derive(Debug, Clone, Copy, PartialEq, Eq, Structural)]
pub enum CaptureStep {
    /// Copy out the new frame.
    ReadNewFrame,
    /// Hand out again the last frame captured.
    RepeatLastFrame,
    /// Hand out a blank frame: nothing was captured yet.
    BlankFrame,
    /// Set the capture up again, then capture again.
    Reinitialize,
    /// Fail.
    Fail,
}

/// The step after asking for a frame: with no new frame the screen has not
/// changed, so the last frame stands, or a blank one before any.
pub open spec fn capture_step_spec(outcome: AcquireOutcome, has_last_frame: bool) -> CaptureStep {
    match outcome {
        AcquireOutcome::NewFrame => CaptureStep::ReadNewFrame,
        AcquireOutcome::TimedOut => if has_last_frame {
            CaptureStep::RepeatLastFrame
        } else {
            CaptureStep::BlankFrame
        },
        AcquireOutcome::AccessLost => CaptureStep::Reinitialize,
        AcquireOutcome::Failed => CaptureStep::Fail,
    }
}

/// What to do after asking for a frame went as `outcome`.
pub fn capture_step(outcome: AcquireOutcome, has_last_frame: bool) -> (s: CaptureStep)
    ensures
        s == capture_step_spec(outcome, has_last_frame),
{
    match outcome {
        AcquireOutcome::NewFrame => CaptureStep::ReadNewFrame,
        AcquireOutcome::TimedOut => if has_last_frame {
            CaptureStep::RepeatLastFrame
        } else {
            CaptureStep::BlankFrame
        },
        AcquireOutcome::AccessLost => CaptureStep::Reinitialize,
        AcquireOutcome::Failed => CaptureStep::Fail,
    }
}

} // verus!
