//! Software framebuffer compositor for MCU targets.
use vstd::prelude::*;
use vstd::endian::{endianness, Endian};
use crate::frame::Frame;
use crate::palette::Palette;
use crate::scale::{lemma_source_in_frame, FRAME_PIXELS};

verus! {

/// Byte `n` (0 = least significant) of the colour `c`.
pub open spec fn colour_byte(c: u32, n: int) -> u8 {
    if n == 0 {
        (c % 0x100) as u8
    } else if n == 1 {
        (c / 0x100 % 0x100) as u8
    } else if n == 2 {
        (c / 0x1_0000 % 0x100) as u8
    } else {
        (c / 0x100_0000 % 0x100) as u8
    }
}

/// Bytes `4 * i .. 4 * i + 4` of `bytes` hold `c` least significant byte first.
pub open spec fn stores_pixel_le(bytes: Seq<u8>, i: int, c: u32) -> bool {
    &&& bytes[4 * i] == colour_byte(c, 0)
    &&& bytes[4 * i + 1] == colour_byte(c, 1)
    &&& bytes[4 * i + 2] == colour_byte(c, 2)
    &&& bytes[4 * i + 3] == colour_byte(c, 3)
}

/// Bytes `4 * i .. 4 * i + 4` of `bytes` hold `c` most significant byte first.
pub open spec fn stores_pixel_be(bytes: Seq<u8>, i: int, c: u32) -> bool {
    &&& bytes[4 * i] == colour_byte(c, 3)
    &&& bytes[4 * i + 1] == colour_byte(c, 2)
    &&& bytes[4 * i + 2] == colour_byte(c, 1)
    &&& bytes[4 * i + 3] == colour_byte(c, 0)
}

/// Bytes `4 * i .. 4 * i + 4` of `bytes` hold the colour `c` as a native
/// ARGB8888 word, in one of the two byte orders that a machine can have.
pub open spec fn stores_pixel(bytes: Seq<u8>, i: int, c: u32) -> bool {
    stores_pixel_le(bytes, i, c) || stores_pixel_be(bytes, i, c)
}

/// The order in which the four bytes of a word are laid out in memory.
#[derive(Clone, Copy, Debug)]
pub enum ByteOrder {
    /// Least significant byte first.
    LittleEndian,
    /// Most significant byte first.
    BigEndian,
}

/// Bytes `4 * i .. 4 * i + 4` of `bytes` hold `c` laid out in `order`.
pub open spec fn stores_pixel_in(bytes: Seq<u8>, i: int, c: u32, order: ByteOrder) -> bool {
    match order {
        ByteOrder::LittleEndian => stores_pixel_le(bytes, i, c),
        ByteOrder::BigEndian => stores_pixel_be(bytes, i, c),
    }
}

/// The byte order of the machine that runs the code, as vstd's
/// `endianness()` abstracts it.
pub open spec fn native_order() -> ByteOrder {
    match endianness() {
        Endian::Little => ByteOrder::LittleEndian,
        Endian::Big => ByteOrder::BigEndian,
    }
}

/// The four bytes of `c` laid out in `order`.
fn colour_bytes(c: u32, order: ByteOrder) -> (b: [u8; 4])
    ensures
        stores_pixel_in(b@, 0, c, order),
{
    let b0 = (c % 0x100) as u8;
    let b1 = (c / 0x100 % 0x100) as u8;
    let b2 = (c / 0x1_0000 % 0x100) as u8;
    let b3 = (c / 0x100_0000 % 0x100) as u8;
    match order {
        ByteOrder::LittleEndian => [b0, b1, b2, b3],
        ByteOrder::BigEndian => [b3, b2, b1, b0],
    }
}

/// The word whose memory representation reveals a machine's byte order:
/// its four bytes are all different.
pub const BYTE_ORDER_PROBE: u32 = 0x0102_0304;

/// The byte order in which `probe` holds `BYTE_ORDER_PROBE`, given that it
/// holds it in one of the two orders.
pub fn byte_order_of(probe: [u8; 4]) -> (o: ByteOrder)
    requires
        stores_pixel(probe@, 0, BYTE_ORDER_PROBE),
    ensures
        stores_pixel_in(probe@, 0, BYTE_ORDER_PROBE, o),
{
    if probe[0] == 0x04 {
        ByteOrder::LittleEndian
    } else {
        ByteOrder::BigEndian
    }
}

/// The byte order of the machine that runs the code: the native
/// representation of `BYTE_ORDER_PROBE`, and the order in which it holds
/// that word.
fn native_byte_order() -> (r: ([u8; 4], ByteOrder))
    ensures
        stores_pixel_in(r.0@, 0, BYTE_ORDER_PROBE, r.1),
        r.1 == native_order(),
{
    let probe = native_bytes(BYTE_ORDER_PROBE);
    let order = byte_order_of(probe);
    proof {
        assert(colour_byte(BYTE_ORDER_PROBE, 0) == 4);
        assert(colour_byte(BYTE_ORDER_PROBE, 3) == 1);
    }
    (probe, order)
}

/// `u32::to_ne_bytes`: the memory representation of `c` in the byte order
/// of the machine that runs the code. Rust's targets are little- or
/// big-endian; the order is the one that vstd's `endianness()` stands for,
/// which is left abstract, so nothing here says which of the two it is.
#[verifier::external_body]
fn native_bytes(c: u32) -> (b: [u8; 4])
    ensures
        stores_pixel(b@, 0, c),
        stores_pixel_in(b@, 0, c, native_order()),
{
    c.to_ne_bytes()
}

/// Software framebuffer compositor: converts a borrowed NES frame to
/// ARGB8888 pixels in a caller-provided byte buffer.
pub struct McuSurface {
    width: u32,
    height: u32,
}

impl View for McuSurface {
    /// The output dimensions, width first.
    type V = (u32, u32);

    closed spec fn view(&self) -> (u32, u32) {
        (self.width, self.height)
    }
}

impl McuSurface {
    /// Create a new MCU surface with the given output dimensions.
    pub fn new(width: u32, height: u32) -> (s: Self)
        ensures
            s@ == (width, height),
    {
        McuSurface { width, height }
    }

    /// Current output dimensions.
    pub fn dimensions(&self) -> (d: (u32, u32))
        ensures
            d == self@,
    {
        (self.width, self.height)
    }

    /// What `render_into` needs: `dst` holds `width * height * 4` bytes and
    /// the index arithmetic fits in `usize`.
    pub open spec fn render_into_accepts(self, dst_len: nat) -> bool {
        let (w, h) = self@;
        &&& w * h * 4 <= dst_len
        &&& w > 0 && h > 0 ==> (w - 1) * 256 <= usize::MAX
        &&& w > 0 && h > 0 ==> (h - 1) * 240 <= usize::MAX
    }

    /// Render a NES frame into the caller's output buffer.
    ///
    /// Pixel `i` (row-major) of the scaled image takes bytes
    /// `4 * i .. 4 * i + 4` of `dst`, as a native-endian ARGB8888 word:
    /// every pixel in the same byte order, that of the machine. The bytes
    /// past `width * height * 4` are left as they were.
    ///
    /// Returns the number of bytes written.
    pub fn render_into(&self, frame: &Frame, palette: &Palette, dst: &mut [u8]) -> (n: usize)
        requires
            self.render_into_accepts(old(dst)@.len()),
        ensures
            n == self@.0 * self@.1 * 4,
            final(dst)@.len() == old(dst)@.len(),
            forall|i: int|
                0 <= i < self@.0 * self@.1 ==> stores_pixel_in(
                    final(dst)@,
                    i,
                    #[trigger] palette.scaled_image(frame@, self@.0 as nat, self@.1 as nat)[i],
                    native_order(),
                ),
            (forall|i: int|
                0 <= i < self@.0 * self@.1 ==> stores_pixel_le(
                    final(dst)@,
                    i,
                    #[trigger] palette.scaled_image(frame@, self@.0 as nat, self@.1 as nat)[i],
                )) || (forall|i: int|
                0 <= i < self@.0 * self@.1 ==> stores_pixel_be(
                    final(dst)@,
                    i,
                    #[trigger] palette.scaled_image(frame@, self@.0 as nat, self@.1 as nat)[i],
                )),
            forall|j: int|
                n <= j < old(dst)@.len() ==> #[trigger] final(dst)@[j] == old(dst)@[j],
    {
        let (_probe, order) = native_byte_order();
        self.render_into_ordered(frame, palette, dst, order)
    }

    /// Render a NES frame into `dst` with every pixel laid out in `order`.
    ///
    /// Pixel `i` (row-major) of the scaled image takes bytes
    /// `4 * i .. 4 * i + 4` of `dst`; the bytes past `width * height * 4`
    /// are left as they were. Returns the number of bytes written.
    pub fn render_into_ordered(
        &self,
        frame: &Frame,
        palette: &Palette,
        dst: &mut [u8],
        order: ByteOrder,
    ) -> (n: usize)
        requires
            self.render_into_accepts(old(dst)@.len()),
        ensures
            n == self@.0 * self@.1 * 4,
            final(dst)@.len() == old(dst)@.len(),
            forall|i: int|
                0 <= i < self@.0 * self@.1 ==> stores_pixel_in(
                    final(dst)@,
                    i,
                    #[trigger] palette.scaled_image(frame@, self@.0 as nat, self@.1 as nat)[i],
                    order,
                ),
            forall|j: int|
                n <= j < old(dst)@.len() ==> #[trigger] final(dst)@[j] == old(dst)@[j],
    {
        let src = frame.as_bytes();
        let w = self.width as usize;
        let h = self.height as usize;
        let len = dst.len();
        proof {
            assert(w * h * 4 <= len);
            assert(0 <= w * h) by (nonlinear_arith)
                requires
                    0 <= w,
                    0 <= h,
            ;
        }
        let required = w * h * 4;
        let n = if len < required {
            len
        } else {
            required
        };
        let ghost wi = w as int;
        let ghost hi = h as int;
        let ghost image = palette.scaled_image(frame@, w as nat, h as nat);
        let mut y: usize = 0;
        while y < h
            invariant
                self.render_into_accepts(old(dst)@.len()),
                wi == w,
                hi == h,
                w == self@.0,
                h == self@.1,
                src@ == frame@,
                src@.len() == FRAME_PIXELS,
                n == w * h * 4,
                y <= h,
                image == palette.scaled_image(frame@, w as nat, h as nat),
                dst@.len() == old(dst)@.len(),
                forall|i: int| 0 <= i < y * wi ==> stores_pixel_in(dst@, i, #[trigger] image[i], order),
                forall|j: int| 4 * (y * wi) <= j < dst@.len() ==> #[trigger] dst@[j] == old(dst)@[j],
            decreases h - y,
        {
            let mut x: usize = 0;
            while x < w
                invariant
                    self.render_into_accepts(old(dst)@.len()),
                    wi == w,
                    hi == h,
                    w == self@.0,
                    h == self@.1,
                    src@ == frame@,
                    src@.len() == FRAME_PIXELS,
                    n == w * h * 4,
                    y < h,
                    x <= w,
                    image == palette.scaled_image(frame@, w as nat, h as nat),
                    dst@.len() == old(dst)@.len(),
                    forall|i: int| 0 <= i < y * wi + x ==> stores_pixel_in(dst@, i, #[trigger] image[i], order),
                    forall|j: int|
                        4 * (y * wi + x) <= j < dst@.len() ==> #[trigger] dst@[j] == old(dst)@[j],
                decreases w - x,
            {
                proof {
                    lemma_source_in_frame(x as int, y as int, wi, hi);
                    assert(y * wi + x < wi * hi) by (nonlinear_arith)
                        requires
                            y < hi,
                            x < wi,
                    ;
                    assert((y * wi + x) * 4 + 4 <= wi * hi * 4) by (nonlinear_arith)
                        requires
                            y * wi + x < wi * hi,
                    ;
                    vstd::arithmetic::div_mod::lemma_fundamental_div_mod_converse(
                        y * wi + x,
                        wi,
                        y as int,
                        x as int,
                    );
                }
                let sx = x * 256 / w;
                let sy = y * 240 / h;
                let index = src[sy * 256 + sx];
                let k = y * w + x;
                let bytes = colour_bytes(palette.colour(index), order);
                let base = k * 4;
                let ghost before = dst@;
                dst[base] = bytes[0];
                dst[base + 1] = bytes[1];
                dst[base + 2] = bytes[2];
                dst[base + 3] = bytes[3];
                proof {
                    assert(image[k as int] == palette.colour_of(frame@[sy * 256 + sx]));
                    assert(stores_pixel_in(dst@, k as int, image[k as int], order));
                    assert forall|i: int| 0 <= i < k implies stores_pixel_in(
                        dst@,
                        i,
                        #[trigger] image[i],
                        order,
                    ) by {
                        assert(stores_pixel_in(before, i, image[i], order));
                        assert(4 * i + 3 < base);
                    }
                }
                x = x + 1;
            }
            assert(y * wi + wi == (y + 1) * wi) by (nonlinear_arith);
            y = y + 1;
        }
        proof {
            assert(y * wi == wi * hi) by (nonlinear_arith)
                requires
                    y == hi,
            ;
        }
        n
    }
}

/// `render_into_ordered` and `Palette::fill_frame` agree: for the same
/// palette, frame and output size, the bytes that `render_into_ordered`
/// leaves for pixel `i` hold, in its byte order, the word that `fill_frame`
/// leaves at index `i`.
pub proof fn lemma_render_into_matches_fill_frame(
    palette: Palette,
    frame: Seq<u8>,
    width: u32,
    height: u32,
    words_before: Seq<u32>,
    words: Seq<u32>,
    bytes: Seq<u8>,
    order: ByteOrder,
)
    requires
        words == palette.scaled_image(frame, width as nat, height as nat) + words_before.skip(
            width * height,
        ),
        width * height <= words_before.len(),
        forall|i: int|
            0 <= i < width * height ==> stores_pixel_in(
                bytes,
                i,
                #[trigger] palette.scaled_image(frame, width as nat, height as nat)[i],
                order,
            ),
    ensures
        forall|i: int|
            0 <= i < width * height ==> stores_pixel_in(bytes, i, #[trigger] words[i], order),
{
    assert forall|i: int| 0 <= i < width * height implies stores_pixel_in(
        bytes,
        i,
        #[trigger] words[i],
        order,
    ) by {
        assert(words[i] == palette.scaled_image(frame, width as nat, height as nat)[i]);
    }
}

/// The four bytes `b0, b1, b2, b3` are the base-256 digits of `c`, lowest
/// first, exactly when they are its bytes 0 to 3.
pub proof fn lemma_colour_bytes_are_digits(c: u32, b0: u8, b1: u8, b2: u8, b3: u8)
    ensures
        (b0 == colour_byte(c, 0) && b1 == colour_byte(c, 1) && b2 == colour_byte(c, 2) && b3
            == colour_byte(c, 3)) <==> b0 + 0x100 * b1 + 0x1_0000 * b2 + 0x100_0000 * b3 == c,
{
    assert((b0 == (c % 0x100) as u8 && b1 == (c / 0x100 % 0x100) as u8 && b2 == (c / 0x1_0000
        % 0x100) as u8 && b3 == (c / 0x100_0000 % 0x100) as u8) <==> b0 + 0x100 * b1 + 0x1_0000
        * b2 + 0x100_0000 * b3 == c) by (bit_vector);
}

/// A pixel stored least significant byte first holds exactly the word
/// whose base-256 digits, lowest first, are its four bytes; stored most
/// significant byte first, the word whose digits are its bytes in reverse.
pub proof fn lemma_stored_pixel_value(bytes: Seq<u8>, i: int, c: u32)
    requires
        0 <= i,
        4 * i + 4 <= bytes.len(),
    ensures
        stores_pixel_le(bytes, i, c) <==> bytes[4 * i] + 0x100 * bytes[4 * i + 1] + 0x1_0000
            * bytes[4 * i + 2] + 0x100_0000 * bytes[4 * i + 3] == c,
        stores_pixel_be(bytes, i, c) <==> bytes[4 * i + 3] + 0x100 * bytes[4 * i + 2] + 0x1_0000
            * bytes[4 * i + 1] + 0x100_0000 * bytes[4 * i] == c,
{
    lemma_colour_bytes_are_digits(c, bytes[4 * i], bytes[4 * i + 1], bytes[4 * i + 2], bytes[4 * i + 3]);
    lemma_colour_bytes_are_digits(c, bytes[4 * i + 3], bytes[4 * i + 2], bytes[4 * i + 1], bytes[4 * i]);
}

/// The machine's byte order is vstd's `endianness()` read as a byte order:
/// little-endian hardware lays out least significant byte first.
pub proof fn lemma_native_order_follows_endianness()
    ensures
        native_order() == ByteOrder::LittleEndian <==> endianness() == Endian::Little,
        native_order() == ByteOrder::BigEndian <==> endianness() == Endian::Big,
{
}

/// The four bytes that a pixel laid out in the machine's order occupies are
/// exactly the bytes `u32::to_ne_bytes` gives for its word: `ne` is any
/// four-byte sequence that holds `c` in the machine's order, as the result
/// of `to_ne_bytes(c)` does.
pub proof fn lemma_native_pixel_is_ne_bytes(bytes: Seq<u8>, i: int, c: u32, ne: Seq<u8>)
    requires
        0 <= i,
        4 * i + 4 <= bytes.len(),
        ne.len() == 4,
        stores_pixel_in(bytes, i, c, native_order()),
        stores_pixel_in(ne, 0, c, native_order()),
    ensures
        bytes.subrange(4 * i, 4 * i + 4) == ne,
{
    assert(bytes.subrange(4 * i, 4 * i + 4) =~= ne);
}

} // verus!
