//! Frame sizes exchanged with the SDI card.
//!
//! The card's output runs in 1080p60 BGRA; frames of another size are not
//! sent. Captured input frames are copied whole, row padding included.
use vstd::prelude::*;

verus! {

/// Width of the card's output mode.
pub const DECKLINK_WIDTH: u32 = 1920;
/// Height of the card's output mode.
pub const DECKLINK_HEIGHT: u32 = 1080;

/// Number of bytes copied into an output frame of the card for a frame of
/// `frame_w` x `frame_h` whose data holds `data_len` bytes: the whole
/// 1920 x 1080 BGRA frame, or `None` (the frame is skipped) when the frame has
/// another size or its data is shorter than that.
pub fn decklink_output_bytes(frame_w: u32, frame_h: u32, data_len: usize) -> (n: Option<usize>)
    ensures
        n is Some <==> (frame_w == DECKLINK_WIDTH && frame_h == DECKLINK_HEIGHT && data_len >= 1920 * 1080 * 4),
        n matches Some(k) ==> k == 1920 * 1080 * 4,
{
    if frame_w != DECKLINK_WIDTH || frame_h != DECKLINK_HEIGHT {
        return None;
    }
    let bytes: usize = 1920 * 1080 * 4;
    if data_len < bytes {
        None
    } else {
        Some(bytes)
    }
}

/// Row length in bytes of a BGRA output frame `width` pixels wide.
pub fn bgra_row_bytes(width: u32) -> (n: u32)
    requires
        width * 4 <= u32::MAX,
    ensures
        n == width * 4,
{
    width * 4
}

/// Number of bytes copied out of a captured input frame of `width` x `height`
/// with rows `row_bytes` apart: `None` (the frame is dropped) for an empty
/// frame, else `row_bytes * height`.
pub fn decklink_input_bytes(width: u32, height: u32, row_bytes: u32) -> (n: Option<usize>)
    requires
        row_bytes * height <= u32::MAX,
    ensures
        n is None <==> (width == 0 || height == 0),
        n matches Some(k) ==> k == row_bytes * height,
{
    if width == 0 || height == 0 {
        return None;
    }
    Some((row_bytes * height) as usize)
}

} // verus!
