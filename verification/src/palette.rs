use vstd::prelude::*;
use crate::scale::{
    source_x, source_y, source_index, last_source_index, lemma_source_in_frame, lemma_source_index_bounded,
    lemma_native_size_is_identity, FRAME_PIXELS,
};

verus! {

/// The 64 ARGB colours (0xAARRGGBB) of the standard NES palette, in index order.
pub open spec fn nes_colours() -> Seq<u32> {
    seq![
        0xFF545454u32, 0xFF001E74, 0xFF080090, 0xFF440088, 0xFF7C005C, 0xFFA4001C, 0xFFA80000,
        0xFF880000, 0xFF5C2800, 0xFF284400, 0xFF005400, 0xFF005030, 0xFF004444, 0xFF000000,
        0xFF000000, 0xFF000000, 0xFFB4B4B4, 0xFF0C54C4, 0xFF303CD8, 0xFF742CC4, 0xFFAC1898,
        0xFFD8004C, 0xFFDC0800, 0xFFBC3000, 0xFF805000, 0xFF486800, 0xFF107800, 0xFF007444,
        0xFF00686C, 0xFF000000, 0xFF000000, 0xFF000000, 0xFFFCFCFC, 0xFF64B0FC, 0xFF9090FC,
        0xFFC87CFC, 0xFFFC74FC, 0xFFFC74B8, 0xFFFC7870, 0xFFFC9838, 0xFFF0B800, 0xFFBCD000,
        0xFF84DC48, 0xFF58D878, 0xFF44D0A8, 0xFF000000, 0xFF000000, 0xFF000000, 0xFFFCFCFC,
        0xFFC0E4FC, 0xFFD0D4FC, 0xFFE8CCFC, 0xFFFCC8FC, 0xFFFCC4E0, 0xFFFCC8B8, 0xFFFCD4A0,
        0xFFFCE090, 0xFFE4EC88, 0xFFC8F090, 0xFFA8F0A8, 0xFFB0ECC8, 0xFF000000, 0xFF000000,
        0xFF000000,
    ]
}

/// Every colour of the standard NES palette is opaque: its alpha byte is 0xFF.
pub proof fn lemma_nes_colours_opaque()
    ensures
        nes_colours().len() == 64,
        forall|i: int| 0 <= i < 64 ==> #[trigger] nes_colours()[i] / 0x100_0000 == 0xFF,
{
    assert forall|i: int| 0 <= i < 64 implies #[trigger] nes_colours()[i] / 0x100_0000 == 0xFF by {
    }
}

/// The colour that palette index `index` selects from the table `colours`:
/// only the index's low six bits count.
pub open spec fn colour_in(colours: Seq<u32>, index: u8) -> u32 {
    colours[(index % 64) as int]
}

/// Output pixel `i` (row-major) of a `width`×`height` surface that shows the
/// palette-indexed frame `src` through the colour table `colours`.
pub open spec fn pixel_in(colours: Seq<u32>, src: Seq<u8>, width: nat, height: nat, i: int) -> u32 {
    colour_in(colours, src[source_index(i % width as int, i / width as int, width as int, height as int)])
}

/// The `width * height` output pixels, row-major, of a `width`×`height`
/// surface that shows `src` through the colour table `colours`.
pub open spec fn image_in(colours: Seq<u32>, src: Seq<u8>, width: nat, height: nat) -> Seq<u32> {
    Seq::new(width * height, |i: int| pixel_in(colours, src, width, height, i))
}

/// NES colour palette: converts 6-bit colour indices to 32-bit ARGB values.
#[derive(Clone, Copy)]
pub struct Palette {
    colours: [u32; 64],
}

impl View for Palette {
    type V = Seq<u32>;

    closed spec fn view(&self) -> Seq<u32> {
        self.colours@
    }
}

impl Palette {
    /// The colour that a palette index selects: only its low six bits count.
    pub open spec fn colour_of(self, index: u8) -> u32 {
        colour_in(self@, index)
    }

    /// A palette always holds 64 colours.
    pub proof fn lemma_len(self)
        ensures
            self@.len() == 64,
    {
    }

    /// The `width * height` output pixels, row-major, of a surface showing `src`.
    pub open spec fn scaled_image(self, src: Seq<u8>, width: nat, height: nat) -> Seq<u32> {
        image_in(self@, src, width, height)
    }

    /// What `fill_frame` needs of its inputs: the source holds every offset
    /// that the scaled surface reads, the destination holds `width * height`
    /// pixels, and the index arithmetic fits in `u32`.
    pub open spec fn fill_frame_accepts(src_len: nat, dst_len: nat, width: u32, height: u32) -> bool {
        &&& width * height <= dst_len
        &&& width * height <= 0x1_0000_0000
        &&& width > 0 && height > 0 ==> (width - 1) * 256 <= u32::MAX
        &&& width > 0 && height > 0 ==> (height - 1) * 240 <= u32::MAX
        &&& width > 0 && height > 0 ==> last_source_index(width as int, height as int) < src_len
    }

    /// Standard NES colour palette.
    pub fn nes() -> (p: Self)
        ensures
            p@ == nes_colours(),
    {
        let p = Palette {
            colours: [
                0xFF545454, 0xFF001E74, 0xFF080090, 0xFF440088, 0xFF7C005C, 0xFFA4001C, 0xFFA80000,
                0xFF880000, 0xFF5C2800, 0xFF284400, 0xFF005400, 0xFF005030, 0xFF004444, 0xFF000000,
                0xFF000000, 0xFF000000, 0xFFB4B4B4, 0xFF0C54C4, 0xFF303CD8, 0xFF742CC4, 0xFFAC1898,
                0xFFD8004C, 0xFFDC0800, 0xFFBC3000, 0xFF805000, 0xFF486800, 0xFF107800, 0xFF007444,
                0xFF00686C, 0xFF000000, 0xFF000000, 0xFF000000, 0xFFFCFCFC, 0xFF64B0FC, 0xFF9090FC,
                0xFFC87CFC, 0xFFFC74FC, 0xFFFC74B8, 0xFFFC7870, 0xFFFC9838, 0xFFF0B800, 0xFFBCD000,
                0xFF84DC48, 0xFF58D878, 0xFF44D0A8, 0xFF000000, 0xFF000000, 0xFF000000, 0xFFFCFCFC,
                0xFFC0E4FC, 0xFFD0D4FC, 0xFFE8CCFC, 0xFFFCC8FC, 0xFFFCC4E0, 0xFFFCC8B8, 0xFFFCD4A0,
                0xFFFCE090, 0xFFE4EC88, 0xFFC8F090, 0xFFA8F0A8, 0xFFB0ECC8, 0xFF000000, 0xFF000000,
                0xFF000000,
            ],
        };
        assert(p@ =~= nes_colours());
        p
    }

    /// Convert a NES palette index to a 32-bit ARGB colour.
    pub fn colour(&self, index: u8) -> (c: u32)
        ensures
            c == self.colour_of(index),
    {
        assert(index & 0x3F == index % 64) by (bit_vector);
        self.colours[(index & 0x3F) as usize]
    }

    /// Convert an entire NES frame to ARGB pixels, scaling it to
    /// `width`×`height` by nearest neighbour.
    ///
    /// `src` is the palette-indexed frame (256×240); the first
    /// `width * height` entries of `dst` receive the output, row-major,
    /// and the rest of `dst` is left as it was.
    pub fn fill_frame(&self, src: &[u8], dst: &mut [u32], width: u32, height: u32)
        requires
            Self::fill_frame_accepts(src@.len(), old(dst)@.len(), width, height),
        ensures
            final(dst)@ == self.scaled_image(src@, width as nat, height as nat) + old(dst)@.skip(
                width * height,
            ),
    {
        let ghost w = width as int;
        let ghost h = height as int;
        let ghost image = self.scaled_image(src@, width as nat, height as nat);
        let mut y: u32 = 0;
        while y < height
            invariant
                Self::fill_frame_accepts(src@.len(), old(dst)@.len(), width, height),
                y <= height,
                w == width as int,
                h == height as int,
                image == self.scaled_image(src@, width as nat, height as nat),
                dst@.len() == old(dst)@.len(),
                forall|i: int| 0 <= i < y * w ==> dst@[i] == #[trigger] image[i],
                forall|i: int| y * w <= i < dst@.len() ==> dst@[i] == #[trigger] old(dst)@[i],
            decreases height - y,
        {
            let mut x: u32 = 0;
            while x < width
                invariant
                    Self::fill_frame_accepts(src@.len(), old(dst)@.len(), width, height),
                    y < height,
                    x <= width,
                    w == width as int,
                    h == height as int,
                    image == self.scaled_image(src@, width as nat, height as nat),
                    dst@.len() == old(dst)@.len(),
                    forall|i: int| 0 <= i < y * w + x ==> dst@[i] == #[trigger] image[i],
                    forall|i: int| y * w + x <= i < dst@.len() ==> dst@[i] == #[trigger] old(dst)@[i],
                decreases width - x,
            {
                proof {
                    lemma_source_in_frame(x as int, y as int, w, h);
                    lemma_source_index_bounded(x as int, y as int, w, h);
                    assert(y * w + x < w * h) by (nonlinear_arith)
                        requires
                            y < h,
                            x < w,
                    ;
                    vstd::arithmetic::div_mod::lemma_fundamental_div_mod_converse(
                        y * w + x,
                        w,
                        y as int,
                        x as int,
                    );
                }
                let sx = x * 256 / width;
                let sy = y * 240 / height;
                let index = src[(sy * 256 + sx) as usize];
                let k = y * width + x;
                dst[k as usize] = self.colour(index);
                x = x + 1;
            }
            assert(y * w + w == (y + 1) * w) by (nonlinear_arith);
            y = y + 1;
        }
        assert(y * w == w * h) by (nonlinear_arith)
            requires
                y == h,
        ;
        assert(final(dst)@ =~= image + old(dst)@.skip(w * h));
    }
}

impl Default for Palette {
    /// The standard NES palette.
    fn default() -> (p: Self)
        ensures
            p@ == nes_colours(),
    {
        Self::nes()
    }
}

/// Indices that agree in their low six bits select the same colour; in
/// particular the two high bits of an index are ignored.
pub proof fn lemma_colour_ignores_high_bits(p: Palette, a: u8, b: u8)
    requires
        a & 0x3F == b & 0x3F,
    ensures
        p.colour_of(a) == p.colour_of(b),
        p.colour_of(a) == p.colour_of(a & 0x3F),
{
    assert(a & 0x3F == a % 64) by (bit_vector);
    assert(b & 0x3F == b % 64) by (bit_vector);
    assert((a & 0x3F) % 64 == a % 64) by (bit_vector);
}

/// At the native 256×240 size the output is the frame converted pixel for
/// pixel: output pixel `i` is the colour of source byte `i`.
pub proof fn lemma_native_size_is_pixel_for_pixel(colours: Seq<u32>, src: Seq<u8>)
    ensures
        image_in(colours, src, 256, 240).len() == FRAME_PIXELS,
        forall|i: int|
            0 <= i < FRAME_PIXELS ==> #[trigger] image_in(colours, src, 256, 240)[i] == colour_in(
                colours,
                src[i],
            ),
{
    assert forall|i: int| 0 <= i < FRAME_PIXELS implies #[trigger] image_in(
        colours,
        src,
        256,
        240,
    )[i] == colour_in(colours, src[i]) by {
        let x = i % 256;
        let y = i / 256;
        assert(0 <= x < 256);
        assert(0 <= y < 240);
        assert(i == y * 256 + x);
        lemma_native_size_is_identity(x, y);
    }
}

/// The standard NES palette, entry by entry: palette index `k` (0x00 to
/// 0x3F) is shown as the ARGB colour listed for it.
pub proof fn lemma_nes_palette_entries(p: Palette)
    requires
        p@ == nes_colours(),
    ensures
        p.colour_of(0x00) == 0xFF545454,
        p.colour_of(0x01) == 0xFF001E74,
        p.colour_of(0x02) == 0xFF080090,
        p.colour_of(0x03) == 0xFF440088,
        p.colour_of(0x04) == 0xFF7C005C,
        p.colour_of(0x05) == 0xFFA4001C,
        p.colour_of(0x06) == 0xFFA80000,
        p.colour_of(0x07) == 0xFF880000,
        p.colour_of(0x08) == 0xFF5C2800,
        p.colour_of(0x09) == 0xFF284400,
        p.colour_of(0x0A) == 0xFF005400,
        p.colour_of(0x0B) == 0xFF005030,
        p.colour_of(0x0C) == 0xFF004444,
        p.colour_of(0x0D) == 0xFF000000,
        p.colour_of(0x0E) == 0xFF000000,
        p.colour_of(0x0F) == 0xFF000000,
        p.colour_of(0x10) == 0xFFB4B4B4,
        p.colour_of(0x11) == 0xFF0C54C4,
        p.colour_of(0x12) == 0xFF303CD8,
        p.colour_of(0x13) == 0xFF742CC4,
        p.colour_of(0x14) == 0xFFAC1898,
        p.colour_of(0x15) == 0xFFD8004C,
        p.colour_of(0x16) == 0xFFDC0800,
        p.colour_of(0x17) == 0xFFBC3000,
        p.colour_of(0x18) == 0xFF805000,
        p.colour_of(0x19) == 0xFF486800,
        p.colour_of(0x1A) == 0xFF107800,
        p.colour_of(0x1B) == 0xFF007444,
        p.colour_of(0x1C) == 0xFF00686C,
        p.colour_of(0x1D) == 0xFF000000,
        p.colour_of(0x1E) == 0xFF000000,
        p.colour_of(0x1F) == 0xFF000000,
        p.colour_of(0x20) == 0xFFFCFCFC,
        p.colour_of(0x21) == 0xFF64B0FC,
        p.colour_of(0x22) == 0xFF9090FC,
        p.colour_of(0x23) == 0xFFC87CFC,
        p.colour_of(0x24) == 0xFFFC74FC,
        p.colour_of(0x25) == 0xFFFC74B8,
        p.colour_of(0x26) == 0xFFFC7870,
        p.colour_of(0x27) == 0xFFFC9838,
        p.colour_of(0x28) == 0xFFF0B800,
        p.colour_of(0x29) == 0xFFBCD000,
        p.colour_of(0x2A) == 0xFF84DC48,
        p.colour_of(0x2B) == 0xFF58D878,
        p.colour_of(0x2C) == 0xFF44D0A8,
        p.colour_of(0x2D) == 0xFF000000,
        p.colour_of(0x2E) == 0xFF000000,
        p.colour_of(0x2F) == 0xFF000000,
        p.colour_of(0x30) == 0xFFFCFCFC,
        p.colour_of(0x31) == 0xFFC0E4FC,
        p.colour_of(0x32) == 0xFFD0D4FC,
        p.colour_of(0x33) == 0xFFE8CCFC,
        p.colour_of(0x34) == 0xFFFCC8FC,
        p.colour_of(0x35) == 0xFFFCC4E0,
        p.colour_of(0x36) == 0xFFFCC8B8,
        p.colour_of(0x37) == 0xFFFCD4A0,
        p.colour_of(0x38) == 0xFFFCE090,
        p.colour_of(0x39) == 0xFFE4EC88,
        p.colour_of(0x3A) == 0xFFC8F090,
        p.colour_of(0x3B) == 0xFFA8F0A8,
        p.colour_of(0x3C) == 0xFFB0ECC8,
        p.colour_of(0x3D) == 0xFF000000,
        p.colour_of(0x3E) == 0xFF000000,
        p.colour_of(0x3F) == 0xFF000000,
{
}

/// For an index below 64, the colour is the palette entry at that index;
/// any other index shows the entry of its low six bits.
pub proof fn lemma_colour_is_entry(p: Palette, index: u8)
    ensures
        index < 64 ==> p.colour_of(index) == p@[index as int],
        p.colour_of(index) == p@[(index & 0x3F) as int],
{
    assert(index & 0x3F == index % 64) by (bit_vector);
    assert(index < 64 ==> index % 64 == index);
}

/// Output pixel `(x, y)` of a `width`×`height` surface sits at index
/// `y * width + x` of the image and shows the colour of frame pixel
/// `(source_x(x, width), source_y(y, height))`.
pub proof fn lemma_scaled_pixel_at(
    colours: Seq<u32>,
    src: Seq<u8>,
    width: nat,
    height: nat,
    x: int,
    y: int,
)
    requires
        0 <= x < width,
        0 <= y < height,
    ensures
        image_in(colours, src, width, height).len() == width * height,
        0 <= y * width + x < width * height,
        image_in(colours, src, width, height)[y * width + x] == colour_in(
            colours,
            src[source_y(y, height as int) * 256 + source_x(x, width as int)],
        ),
{
    assert(0 <= y * width + x < width * height) by (nonlinear_arith)
        requires
            0 <= x < width,
            0 <= y < height,
    ;
    vstd::arithmetic::div_mod::lemma_fundamental_div_mod_converse(
        y * width + x,
        width as int,
        y,
        x,
    );
}

} // verus!
