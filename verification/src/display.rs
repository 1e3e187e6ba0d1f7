//! Static description of a machine: its name and its display geometry.
//! The geometry is fixed for the lifetime of a machine instance and fixes
//! the exact size of the frame buffer.

use vstd::prelude::*;

verus! {

/// The pixel encoding of the frame buffer. Only monochrome (one bit per
/// pixel, packed eight to a byte, most significant bit first) exists today.
#[derive(Debug, Copy, Clone, PartialEq, Eq, Structural)]
pub enum FrameBufferFormat {
    Monochrome,
}

/// The display geometry of a machine: positive width and height in pixels,
/// and the pixel encoding.
#[derive(Debug, Copy, Clone, PartialEq, Eq, Structural)]
pub struct DisplayInfo {
    pub width: u32,
    pub height: u32,
    pub format: FrameBufferFormat,
}

/// An immutable snapshot describing a machine: a text label and its
/// display geometry.
#[derive(Debug, Clone)]
pub struct MachineInfo {
    pub name: String,
    pub display: DisplayInfo,
}

/// The byte length of a monochrome frame buffer for the given geometry:
/// one bit per pixel, rounded up to whole bytes.
pub open spec fn spec_frame_buffer_len(width: u32, height: u32) -> int {
    (width * height + 7) / 8
}

} // verus!
