use vstd::prelude::*;

use crate::error::OverlayError;

verus! {

/// Every pixel buffer holds four bytes per pixel.
pub const BYTES_PER_PIXEL: u32 = 4;

/// Size in bytes of a tightly packed `width` x `height` frame.
pub open spec fn frame_bytes(width: u32, height: u32) -> int {
    width as int * height as int * BYTES_PER_PIXEL as int
}

/// Size in bytes of one tightly packed row of `width` pixels.
pub open spec fn row_bytes(width: u32) -> int {
    width as int * BYTES_PER_PIXEL as int
}

/// `width * height * 4`, or an error where that does not fit in `usize`.
pub fn expected_rgba_size(width: u32, height: u32) -> (r: Result<usize, OverlayError>)
    ensures
        frame_bytes(width, height) <= usize::MAX ==> r == Ok::<usize, OverlayError>(
            frame_bytes(width, height) as usize,
        ),
        frame_bytes(width, height) > usize::MAX ==> r == Err::<usize, OverlayError>(
            OverlayError::FrameTooLarge,
        ),
{
    let w = width as usize;
    let h = height as usize;
    match w.checked_mul(h) {
        Some(area) => match area.checked_mul(BYTES_PER_PIXEL as usize) {
            Some(size) => Ok(size),
            None => Err(OverlayError::FrameTooLarge),
        },
        None => {
            proof {
                assert(w * h <= w * h * 4) by (nonlinear_arith);
            }
            Err(OverlayError::FrameTooLarge)
        },
    }
}

/// `width * 4`, or an error where that does not fit in `usize`.
pub fn row_pitch_bytes(width: u32) -> (r: Result<usize, OverlayError>)
    ensures
        row_bytes(width) <= usize::MAX ==> r == Ok::<usize, OverlayError>(
            row_bytes(width) as usize,
        ),
        row_bytes(width) > usize::MAX ==> r == Err::<usize, OverlayError>(
            OverlayError::RowPitchTooLarge,
        ),
{
    match (width as usize).checked_mul(BYTES_PER_PIXEL as usize) {
        Some(pitch) => Ok(pitch),
        None => Err(OverlayError::RowPitchTooLarge),
    }
}

/// What a frame submission turned out to be.
#[derive(Clone, Copy, Debug, PartialEq, Eq, Structural)]
pub enum FrameCheck {
    /// Zero width or height with an empty buffer: nothing is submitted,
    /// and that is no error.
    Empty,
    /// A well-sized frame whose rows are `row_pitch` bytes apart.
    Pixels { row_pitch: usize },
}

/// Checks a frame before anything touches the GPU or the runtime.
/// The buffer must hold exactly `width * height * 4` bytes; any other
/// length is refused. A zero-sized frame therefore needs an empty buffer,
/// and is then skipped.
pub fn check_frame(buffer_len: usize, width: u32, height: u32) -> (r: Result<FrameCheck, OverlayError>)
    ensures
        (width == 0 || height == 0) && buffer_len == 0 ==> r == Ok::<FrameCheck, OverlayError>(
            FrameCheck::Empty,
        ),
        (width == 0 || height == 0) && buffer_len != 0 ==> r == Err::<FrameCheck, OverlayError>(
            OverlayError::BufferSizeMismatch { expected: 0, actual: buffer_len },
        ),
        (width != 0 && height != 0 && frame_bytes(width, height) > usize::MAX) ==> r == Err::<
            FrameCheck,
            OverlayError,
        >(OverlayError::FrameTooLarge),
        (width != 0 && height != 0 && frame_bytes(width, height) <= usize::MAX && buffer_len
            != frame_bytes(width, height)) ==> r == Err::<FrameCheck, OverlayError>(
            OverlayError::BufferSizeMismatch {
                expected: frame_bytes(width, height) as usize,
                actual: buffer_len,
            },
        ),
        (width != 0 && height != 0 && buffer_len == frame_bytes(width, height)) ==> r == Ok::<
            FrameCheck,
            OverlayError,
        >(FrameCheck::Pixels { row_pitch: row_bytes(width) as usize }),
{
    if width == 0 || height == 0 {
        if buffer_len != 0 {
            return Err(OverlayError::BufferSizeMismatch { expected: 0, actual: buffer_len });
        }
        return Ok(FrameCheck::Empty);
    }
    let expected = expected_rgba_size(width, height)?;
    if buffer_len != expected {
        return Err(OverlayError::BufferSizeMismatch { expected, actual: buffer_len });
    }
    proof {
        assert(row_bytes(width) <= frame_bytes(width, height)) by (nonlinear_arith)
            requires
                height >= 1,
        ;
    }
    let row_pitch = row_pitch_bytes(width)?;
    Ok(FrameCheck::Pixels { row_pitch })
}

} // verus!
