use vstd::prelude::*;
use crate::scale::FRAME_PIXELS;

verus! {

/// A borrowed NES frame buffer: 256×240 palette-indexed pixels.
///
/// The NES PPU outputs one byte per pixel, where each byte is an
/// index into the 64-entry NES colour palette.
pub struct Frame<'a> {
    data: &'a [u8; FRAME_PIXELS],
}

impl<'a> View for Frame<'a> {
    type V = Seq<u8>;

    /// The frame's bytes, row-major, 256 per row.
    closed spec fn view(&self) -> Seq<u8> {
        self.data@
    }
}

impl<'a> Frame<'a> {
    /// A frame always holds 256×240 bytes: its reported width times its
    /// reported height.
    pub proof fn lemma_len(&self)
        ensures
            self@.len() == FRAME_PIXELS,
            self@.len() == 256 * 240,
    {
    }

    /// Wrap a reference to the emulator's PPU frame buffer.
    pub fn new(data: &'a [u8; FRAME_PIXELS]) -> (f: Self)
        ensures
            f@ == data@,
    {
        Frame { data }
    }

    /// Width in pixels (always 256).
    pub fn width(&self) -> (w: u32)
        ensures
            w == 256,
    {
        256
    }

    /// Height in pixels (always 240).
    pub fn height(&self) -> (h: u32)
        ensures
            h == 240,
    {
        240
    }

    /// Raw palette-indexed pixel data.
    pub fn as_bytes(&self) -> (b: &[u8])
        ensures
            b@ == self@,
            b@.len() == FRAME_PIXELS,
    {
        self.data.as_slice()
    }

    /// Get the palette index at a pixel coordinate.
    ///
    /// The pixel is the byte at offset `y * 256 + x`, which must lie in the frame.
    pub fn pixel(&self, x: u32, y: u32) -> (p: u8)
        requires
            y * 256 + x < FRAME_PIXELS,
        ensures
            p == self@[y * 256 + x],
    {
        self.data[y as usize * 256 + x as usize]
    }
}

} // verus!
