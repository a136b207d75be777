//! The `image` crate's pixel buffer as the filters use it.
//!
//! Nothing in this module is proved: each function below states what the
//! outside call does, and the rest of the crate is verified against these
//! statements.

use crate::pixel::{buffer_len, pixel_at, pixel_offset, with_pixel, RgbaPixel};
use image::{ImageBuffer, Rgba};
use vstd::prelude::*;

verus! {

/// An RGBA image of the `image` crate, eight bits to the sample, over a
/// `Vec<u8>`. Its contents are known only through [`samples`] and
/// [`dimensions`].
#[verifier::external_body]
pub struct Raster {
    inner: ImageBuffer<Rgba<u8>, Vec<u8>>,
}

/// The samples that an image's container holds, in storage order.
pub uninterp spec fn samples(img: Raster) -> Seq<u8>;

/// The width and height that an image was made with.
pub uninterp spec fn dimensions(img: Raster) -> (u32, u32);

/// `ImageBuffer::from_raw`: the image exists exactly when `buf` holds at least
/// four samples for each of the `width * height` pixels and four times the
/// width is itself a `usize`; it then keeps `buf` whole as its samples.
#[verifier::external_body]
pub(crate) fn from_raw(width: u32, height: u32, buf: Vec<u8>) -> (made: Option<Raster>)
    ensures
        made.is_some() <==> (4 * width <= usize::MAX && buffer_len(width, height) <= buf@.len()),
        made matches Some(img) ==> samples(img) == buf@ && dimensions(img) == (width, height),
{
    match ImageBuffer::from_raw(width, height, buf) {
        Some(inner) => Some(Raster { inner }),
        None => None,
    }
}

/// `ImageBuffer::new`: an image of the given size with every sample zero. The
/// outside function panics when four times the width, or the whole sample
/// count, is too large for a `usize`.
#[verifier::external_body]
pub(crate) fn blank(width: u32, height: u32) -> (img: Raster)
    requires
        4 * width <= usize::MAX,
        buffer_len(width, height) <= usize::MAX,
    ensures
        dimensions(img) == (width, height),
        samples(img) == Seq::new(buffer_len(width, height) as nat, |i: int| 0u8),
{
    Raster { inner: ImageBuffer::new(width, height) }
}

/// `ImageBuffer::get_pixel`: the four samples that begin at the pixel's
/// offset. The outside function panics outside the image's bounds.
#[verifier::external_body]
pub(crate) fn get_pixel(img: &Raster, x: u32, y: u32) -> (p: RgbaPixel)
    requires
        x < dimensions(*img).0,
        y < dimensions(*img).1,
    ensures
        p == pixel_at(samples(*img), pixel_offset(dimensions(*img).0, x, y)),
{
    let Rgba([r, g, b, a]) = *img.inner.get_pixel(x, y);
    RgbaPixel { r, g, b, a }
}

/// `ImageBuffer::put_pixel`: overwrites the four samples that begin at the
/// pixel's offset and leaves everything else as it was. The outside function
/// panics outside the image's bounds.
#[verifier::external_body]
pub(crate) fn put_pixel(img: &mut Raster, x: u32, y: u32, p: RgbaPixel)
    requires
        x < dimensions(*old(img)).0,
        y < dimensions(*old(img)).1,
    ensures
        dimensions(*final(img)) == dimensions(*old(img)),
        samples(*final(img)) == with_pixel(
            samples(*old(img)),
            pixel_offset(dimensions(*old(img)).0, x, y),
            p,
        ),
{
    img.inner.put_pixel(x, y, Rgba([p.r, p.g, p.b, p.a]));
}

/// `ImageBuffer::into_raw`: hands out the container with the image's samples.
#[verifier::external_body]
pub(crate) fn into_raw(img: Raster) -> (buf: Vec<u8>)
    ensures
        buf@ == samples(img),
{
    img.inner.into_raw()
}

} // verus!
