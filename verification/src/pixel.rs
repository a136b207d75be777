//! One RGBA pixel and where it lies in a packed byte sequence.
//!
//! A buffer holds its pixels row by row, left to right and top to bottom,
//! four bytes to the pixel in the order red, green, blue, alpha.

use vstd::prelude::*;

verus! {

/// Four 8-bit channels in the order red, green, blue, alpha.
#[derive(Clone, Copy, Debug, PartialEq, Eq, Structural)]
pub struct RgbaPixel {
    pub r: u8,
    pub g: u8,
    pub b: u8,
    pub a: u8,
}

/// How many bytes an image of the given size takes: four to the pixel.
pub open spec fn buffer_len(width: u32, height: u32) -> int {
    width * height * 4
}

/// Where the pixel in column `x` of row `y` begins in the buffer of an image
/// `width` pixels wide.
pub open spec fn pixel_offset(width: u32, x: u32, y: u32) -> int {
    4 * (y * width + x)
}

/// The pixel whose first byte stands at `at` in `bytes`.
pub open spec fn pixel_at(bytes: Seq<u8>, at: int) -> RgbaPixel {
    RgbaPixel { r: bytes[at], g: bytes[at + 1], b: bytes[at + 2], a: bytes[at + 3] }
}

/// The `n`-th pixel of a packed buffer, counting from zero.
pub open spec fn nth_pixel(bytes: Seq<u8>, n: int) -> RgbaPixel {
    pixel_at(bytes, 4 * n)
}

/// `bytes` with the four channels of `p` written from position `at` on.
pub open spec fn with_pixel(bytes: Seq<u8>, at: int, p: RgbaPixel) -> Seq<u8> {
    bytes.update(at, p.r).update(at + 1, p.g).update(at + 2, p.b).update(at + 3, p.a)
}

/// Writing pixel `n` sets that pixel and leaves the length and every other
/// pixel alone.
pub proof fn lemma_with_pixel(bytes: Seq<u8>, n: int, p: RgbaPixel)
    requires
        0 <= n,
        4 * n + 4 <= bytes.len(),
    ensures
        with_pixel(bytes, 4 * n, p).len() == bytes.len(),
        nth_pixel(with_pixel(bytes, 4 * n, p), n) == p,
        forall|m: int|
            0 <= m && 4 * m + 4 <= bytes.len() && m != n ==> #[trigger] nth_pixel(
                with_pixel(bytes, 4 * n, p),
                m,
            ) == nth_pixel(bytes, m),
{
}

/// Inside an image, a pixel's place in row-major order is below the pixel
/// count, and its four bytes lie inside the buffer.
pub proof fn lemma_pixel_in_buffer(width: u32, height: u32, x: u32, y: u32)
    requires
        x < width,
        y < height,
    ensures
        0 <= y * width + x < width * height,
        0 <= pixel_offset(width, x, y),
        pixel_offset(width, x, y) + 4 <= buffer_len(width, height),
{
    assert((y + 1) * width <= height * width) by (nonlinear_arith)
        requires
            y + 1 <= height,
    ;
    assert((y + 1) * width == y * width + width) by (nonlinear_arith);
    assert(height * width == width * height) by (nonlinear_arith);
    assert(0 <= y * width) by (nonlinear_arith);
}

} // verus!
