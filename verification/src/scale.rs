//! Nearest-neighbour mapping from an output surface back onto the
//! 256×240 NES frame.
use vstd::prelude::*;
use vstd::arithmetic::div_mod::{lemma_div_is_ordered, lemma_multiply_divide_lt};

verus! {

/// Number of pixels in a NES frame (256×240).
pub const FRAME_PIXELS: usize = 61440;

/// Column of the NES frame that output column `x` of a `width`-wide surface shows.
pub open spec fn source_x(x: int, width: int) -> int {
    x * 256 / width
}

/// Row of the NES frame that output row `y` of a `height`-high surface shows.
pub open spec fn source_y(y: int, height: int) -> int {
    y * 240 / height
}

/// Offset in the NES frame of the pixel shown at output pixel `(x, y)`
/// of a `width`×`height` surface.
pub open spec fn source_index(x: int, y: int, width: int, height: int) -> int {
    source_y(y, height) * 256 + source_x(x, width)
}

/// The largest frame offset that a `width`×`height` surface reads
/// (that of its bottom-right pixel).
pub open spec fn last_source_index(width: int, height: int) -> int {
    source_index(width - 1, height - 1, width, height)
}

/// Every output pixel of a non-empty surface maps inside the 256×240 frame.
pub proof fn lemma_source_in_frame(x: int, y: int, width: int, height: int)
    requires
        0 <= x < width,
        0 <= y < height,
    ensures
        0 <= source_x(x, width) < 256,
        0 <= source_y(y, height) < 240,
        0 <= source_index(x, y, width, height) < FRAME_PIXELS,
{
    assert(x * 256 < width * 256) by (nonlinear_arith)
        requires
            x < width,
    ;
    assert(0 <= x * 256) by (nonlinear_arith)
        requires
            0 <= x,
    ;
    lemma_multiply_divide_lt(x * 256, width, 256);
    assert(y * 240 < height * 240) by (nonlinear_arith)
        requires
            y < height,
    ;
    assert(0 <= y * 240) by (nonlinear_arith)
        requires
            0 <= y,
    ;
    lemma_multiply_divide_lt(y * 240, height, 240);
    assert(0 <= x * 256 / width) by (nonlinear_arith)
        requires
            0 <= x * 256,
            0 < width,
    ;
    assert(0 <= y * 240 / height) by (nonlinear_arith)
        requires
            0 <= y * 240,
            0 < height,
    ;
}

/// The frame offset read for `(x, y)` never exceeds the one read for the
/// bottom-right output pixel.
pub proof fn lemma_source_index_bounded(x: int, y: int, width: int, height: int)
    requires
        0 <= x < width,
        0 <= y < height,
    ensures
        source_index(x, y, width, height) <= last_source_index(width, height),
{
    lemma_div_is_ordered(x * 256, (width - 1) * 256, width);
    lemma_div_is_ordered(y * 240, (height - 1) * 240, height);
}

/// Nearest neighbour across the width: output column `x` of a
/// `width`-wide surface shows the frame column `s` with
/// `s * width <= x * 256 < (s + 1) * width`, the column under the left edge
/// of output pixel `x` when the 256 frame columns are stretched over
/// `width` output columns.
pub proof fn lemma_source_x_is_nearest(x: int, width: int)
    requires
        0 <= x,
        0 < width,
    ensures
        source_x(x, width) * width <= x * 256,
        x * 256 < (source_x(x, width) + 1) * width,
{
    let s = source_x(x, width);
    vstd::arithmetic::div_mod::lemma_fundamental_div_mod(x * 256, width);
    vstd::arithmetic::div_mod::lemma_mod_bound(x * 256, width);
    assert(s * width <= x * 256 < (s + 1) * width) by (nonlinear_arith)
        requires
            x * 256 == width * s + (x * 256) % width,
            0 <= (x * 256) % width < width,
    ;
}

/// Nearest neighbour down the height: output row `y` of a `height`-high
/// surface shows the frame row `s` with `s * height <= y * 240 < (s + 1) * height`.
pub proof fn lemma_source_y_is_nearest(y: int, height: int)
    requires
        0 <= y,
        0 < height,
    ensures
        source_y(y, height) * height <= y * 240,
        y * 240 < (source_y(y, height) + 1) * height,
{
    let s = source_y(y, height);
    vstd::arithmetic::div_mod::lemma_fundamental_div_mod(y * 240, height);
    vstd::arithmetic::div_mod::lemma_mod_bound(y * 240, height);
    assert(s * height <= y * 240 < (s + 1) * height) by (nonlinear_arith)
        requires
            y * 240 == height * s + (y * 240) % height,
            0 <= (y * 240) % height < height,
    ;
}

/// At an integer scale `k` every frame pixel becomes a `k`×`k` block:
/// output column `k * c + r` (for `0 <= r < k`) of a `256 * k`-wide
/// surface shows frame column `c`, and output row `k * d + r` of a
/// `240 * k`-high surface shows frame row `d`.
pub proof fn lemma_integer_scale(k: int, c: int, d: int, r: int)
    requires
        0 < k,
        0 <= c < 256,
        0 <= d < 240,
        0 <= r < k,
    ensures
        source_x(k * c + r, 256 * k) == c,
        source_y(k * d + r, 240 * k) == d,
{
    assert((k * c + r) * 256 == c * (256 * k) + 256 * r) by (nonlinear_arith);
    assert(0 <= 256 * r < 256 * k) by (nonlinear_arith)
        requires
            0 <= r < k,
    ;
    vstd::arithmetic::div_mod::lemma_fundamental_div_mod_converse(
        (k * c + r) * 256,
        256 * k,
        c,
        256 * r,
    );
    assert((k * d + r) * 240 == d * (240 * k) + 240 * r) by (nonlinear_arith);
    assert(0 <= 240 * r < 240 * k) by (nonlinear_arith)
        requires
            0 <= r < k,
    ;
    vstd::arithmetic::div_mod::lemma_fundamental_div_mod_converse(
        (k * d + r) * 240,
        240 * k,
        d,
        240 * r,
    );
}

/// Whatever the output size, the pixels read lie inside a 256×240 frame,
/// so a full frame always holds every offset that the scaling reads.
pub proof fn lemma_full_frame_suffices(width: int, height: int)
    requires
        width > 0,
        height > 0,
    ensures
        0 <= last_source_index(width, height) < FRAME_PIXELS,
{
    lemma_source_in_frame(width - 1, height - 1, width, height);
}

/// At the native 256×240 size the mapping is the identity on frame offsets.
pub proof fn lemma_native_size_is_identity(x: int, y: int)
    requires
        0 <= x < 256,
        0 <= y < 240,
    ensures
        source_index(x, y, 256, 240) == y * 256 + x,
{
    vstd::arithmetic::div_mod::lemma_div_by_multiple(x, 256);
    vstd::arithmetic::div_mod::lemma_div_by_multiple(y, 240);
}

} // verus!
