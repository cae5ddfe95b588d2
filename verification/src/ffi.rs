use vstd::prelude::*;
use crate::frame::Frame;
use crate::mcu::{native_order, stores_pixel_be, stores_pixel_in, stores_pixel_le, McuSurface};
use crate::palette::{image_in, nes_colours, Palette};
use crate::scale::FRAME_PIXELS;

verus! {

/// Convert a NES frame buffer to ARGB pixels with the standard palette,
/// scaled to `width`×`height`: the computation behind the C entry point.
///
/// `src` is the palette-indexed frame (256×240). Pixel `i` (row-major) of
/// the output takes bytes `4 * i .. 4 * i + 4` of `dst` as a native-endian
/// ARGB8888 word; the bytes past `width * height * 4` are left as they were.
/// The scaling arithmetic must fit in `u32`.
pub fn render_frame(src: &[u8; FRAME_PIXELS], dst: &mut [u8], width: u32, height: u32)
    requires
        width * height * 4 <= old(dst)@.len(),
        width > 0 && height > 0 ==> (width - 1) * 256 <= u32::MAX,
        width > 0 && height > 0 ==> (height - 1) * 240 <= u32::MAX,
    ensures
        final(dst)@.len() == old(dst)@.len(),
        forall|i: int|
            0 <= i < width * height ==> stores_pixel_in(
                final(dst)@,
                i,
                #[trigger] image_in(nes_colours(), src@, width as nat, height as nat)[i],
                native_order(),
            ),
        (forall|i: int|
            0 <= i < width * height ==> stores_pixel_le(
                final(dst)@,
                i,
                #[trigger] image_in(nes_colours(), src@, width as nat, height as nat)[i],
            )) || (forall|i: int|
            0 <= i < width * height ==> stores_pixel_be(
                final(dst)@,
                i,
                #[trigger] image_in(nes_colours(), src@, width as nat, height as nat)[i],
            )),
        forall|j: int|
            width * height * 4 <= j < old(dst)@.len() ==> #[trigger] final(dst)@[j] == old(
                dst,
            )@[j],
{
    let frame = Frame::new(src);
    let surface = McuSurface::new(width, height);
    let palette = Palette::nes();
    assert(palette.scaled_image(frame@, width as nat, height as nat) == image_in(
        nes_colours(),
        src@,
        width as nat,
        height as nat,
    ));
    surface.render_into(&frame, &palette, dst);
}

} // verus!
