//! The filters over whole buffers.

use crate::formula::{
    cold_inverse_of, cold_inverse_pixel, grayscale_of, grayscale_pixel, sepia_of, sepia_pixel,
    spectral_glow_of, spectral_glow_pixel,
};
use crate::pixel::{
    buffer_len, lemma_pixel_in_buffer, lemma_with_pixel, nth_pixel, pixel_at, pixel_offset,
    RgbaPixel,
};
use crate::raster::{blank, dimensions, from_raw, get_pixel, into_raw, put_pixel, samples, Raster};
use vstd::prelude::*;
use vstd::slice::slice_to_vec;

verus! {

/// The colour transforms on offer.
#[derive(Clone, Copy, Debug, PartialEq, Eq, Structural)]
pub enum Filter {
    Grayscale,
    Sepia,
    ColdInverse,
    SpectralGlow,
}

/// Why a buffer was not filtered.
#[derive(Clone, Copy, Debug, PartialEq, Eq, Structural)]
pub enum FilterError {
    /// The buffer does not hold exactly four bytes for each of the
    /// `width * height` pixels.
    BufferSizeMismatch,
}

impl Filter {
    /// What the filter makes of one pixel.
    pub open spec fn applied(self, p: RgbaPixel) -> RgbaPixel {
        match self {
            Filter::Grayscale => grayscale_of(p),
            Filter::Sepia => sepia_of(p),
            Filter::ColdInverse => cold_inverse_of(p),
            Filter::SpectralGlow => spectral_glow_of(p),
        }
    }

    /// Whether the filter hands alpha through untouched.
    pub open spec fn keeps_alpha(self) -> bool {
        self == Filter::Grayscale || self == Filter::Sepia
    }

    /// Applies the filter to one pixel.
    pub fn apply(self, p: RgbaPixel) -> (q: RgbaPixel)
        ensures
            q == self.applied(p),
            self.keeps_alpha() ==> q.a == p.a,
    {
        match self {
            Filter::Grayscale => grayscale_pixel(p),
            Filter::Sepia => sepia_pixel(p),
            Filter::ColdInverse => cold_inverse_pixel(p),
            Filter::SpectralGlow => spectral_glow_pixel(p),
        }
    }
}

/// `output` is `input` with every pixel put through `filter`, each at the
/// place where it stood.
pub open spec fn is_filtered(filter: Filter, input: Seq<u8>, output: Seq<u8>) -> bool {
    &&& output.len() == input.len()
    &&& forall|n: int|
        0 <= n && 4 * n + 4 <= input.len() ==> #[trigger] nth_pixel(output, n) == filter.applied(
            nth_pixel(input, n),
        )
}

/// Every pixel of `output` has the alpha of the pixel of `input` at the same
/// place.
pub open spec fn same_alpha(input: Seq<u8>, output: Seq<u8>) -> bool {
    forall|n: int|
        0 <= n && 4 * n + 4 <= input.len() ==> (#[trigger] nth_pixel(output, n)).a == nth_pixel(
            input,
            n,
        ).a
}

/// Filters a packed RGBA buffer of `width * height` pixels into a new buffer
/// of the same size. A buffer of any other length is refused.
pub fn transform(filter: Filter, img_data: &[u8], width: u32, height: u32) -> (result: Result<
    Vec<u8>,
    FilterError,
>)
    ensures
        result is Ok <==> img_data@.len() == buffer_len(width, height),
        result matches Err(e) ==> e == FilterError::BufferSizeMismatch,
        result matches Ok(out) ==> is_filtered(filter, img_data@, out@),
        result matches Ok(out) ==> out@.len() == img_data@.len(),
        result matches Ok(out) ==> filter.keeps_alpha() ==> same_alpha(img_data@, out@),
        (width == 0 || height == 0) && img_data@.len() == 0 ==> (result matches Ok(out)
            && out@.len() == 0),
{
    let len: usize = img_data.len();
    if width == 0 || height == 0 {
        assert(buffer_len(width, height) == 0) by (nonlinear_arith)
            requires
                width == 0 || height == 0,
        ;
        if len == 0 {
            return Ok(Vec::new());
        }
        return Err(FilterError::BufferSizeMismatch);
    }
    assert(4 * width <= buffer_len(width, height) && width * height <= buffer_len(width, height))
        by (nonlinear_arith)
        requires
            1 <= width,
            1 <= height,
    ;
    let source: Raster = match from_raw(width, height, slice_to_vec(img_data)) {
        Some(img) => img,
        None => {
            return Err(FilterError::BufferSizeMismatch);
        },
    };
    let pixels: usize = (width as usize) * (height as usize);
    if pixels * 4 != len {
        return Err(FilterError::BufferSizeMismatch);
    }
    let mut output: Raster = blank(width, height);
    let mut y: u32 = 0;
    while y < height
        invariant
            y <= height,
            len == buffer_len(width, height),
            dimensions(source) == (width, height),
            samples(source) == img_data@,
            img_data@.len() == len,
            dimensions(output) == (width, height),
            samples(output).len() == len,
            forall|n: int|
                0 <= n < y * width ==> #[trigger] nth_pixel(samples(output), n) == filter.applied(
                    nth_pixel(img_data@, n),
                ),
        decreases height - y,
    {
        let mut x: u32 = 0;
        while x < width
            invariant
                x <= width,
                y < height,
                len == buffer_len(width, height),
                dimensions(source) == (width, height),
                samples(source) == img_data@,
                img_data@.len() == len,
                dimensions(output) == (width, height),
                samples(output).len() == len,
                forall|n: int|
                    0 <= n < y * width + x ==> #[trigger] nth_pixel(samples(output), n)
                        == filter.applied(nth_pixel(img_data@, n)),
            decreases width - x,
        {
            let ghost before = samples(output);
            let p: RgbaPixel = get_pixel(&source, x, y);
            let q: RgbaPixel = filter.apply(p);
            put_pixel(&mut output, x, y, q);
            proof {
                lemma_pixel_in_buffer(width, height, x, y);
                lemma_with_pixel(before, y * width + x, q);
            }
            x = x + 1;
        }
        assert(y * width + width == (y + 1) * width) by (nonlinear_arith);
        y = y + 1;
    }
    let out: Vec<u8> = into_raw(output);
    assert(height * width == width * height) by (nonlinear_arith);
    Ok(out)
}

/// Grayscale: every colour channel becomes the pixel's luma; alpha stays.
pub fn grayscale(img_data: &[u8], width: u32, height: u32) -> (result: Result<Vec<u8>, FilterError>)
    ensures
        result is Ok <==> img_data@.len() == buffer_len(width, height),
        result matches Err(e) ==> e == FilterError::BufferSizeMismatch,
        result matches Ok(out) ==> is_filtered(Filter::Grayscale, img_data@, out@),
        result matches Ok(out) ==> out@.len() == img_data@.len(),
        result matches Ok(out) ==> same_alpha(img_data@, out@),
        (width == 0 || height == 0) && img_data@.len() == 0 ==> (result matches Ok(out)
            && out@.len() == 0),
{
    transform(Filter::Grayscale, img_data, width, height)
}

/// Sepia: the colour channels go through the sepia matrix; alpha stays.
pub fn sepia(img_data: &[u8], width: u32, height: u32) -> (result: Result<Vec<u8>, FilterError>)
    ensures
        result is Ok <==> img_data@.len() == buffer_len(width, height),
        result matches Err(e) ==> e == FilterError::BufferSizeMismatch,
        result matches Ok(out) ==> is_filtered(Filter::Sepia, img_data@, out@),
        result matches Ok(out) ==> out@.len() == img_data@.len(),
        result matches Ok(out) ==> same_alpha(img_data@, out@),
        (width == 0 || height == 0) && img_data@.len() == 0 ==> (result matches Ok(out)
            && out@.len() == 0),
{
    transform(Filter::Sepia, img_data, width, height)
}

/// Cold inverse: the colour channels are inverted and tinted towards blue;
/// alpha is dimmed.
pub fn cold_inverse(img_data: &[u8], width: u32, height: u32) -> (result: Result<
    Vec<u8>,
    FilterError,
>)
    ensures
        result is Ok <==> img_data@.len() == buffer_len(width, height),
        result matches Err(e) ==> e == FilterError::BufferSizeMismatch,
        result matches Ok(out) ==> is_filtered(Filter::ColdInverse, img_data@, out@),
        result matches Ok(out) ==> out@.len() == img_data@.len(),
        (width == 0 || height == 0) && img_data@.len() == 0 ==> (result matches Ok(out)
            && out@.len() == 0),
{
    transform(Filter::ColdInverse, img_data, width, height)
}

/// Spectral glow: red and green are dimmed, blue is boosted, and a glow that
/// grows with the pixel's intensity is laid over blue and alpha.
pub fn spectral_glow(img_data: &[u8], width: u32, height: u32) -> (result: Result<
    Vec<u8>,
    FilterError,
>)
    ensures
        result is Ok <==> img_data@.len() == buffer_len(width, height),
        result matches Err(e) ==> e == FilterError::BufferSizeMismatch,
        result matches Ok(out) ==> is_filtered(Filter::SpectralGlow, img_data@, out@),
        result matches Ok(out) ==> out@.len() == img_data@.len(),
        (width == 0 || height == 0) && img_data@.len() == 0 ==> (result matches Ok(out)
            && out@.len() == 0),
{
    transform(Filter::SpectralGlow, img_data, width, height)
}

/// A filtered buffer keeps the row-major layout: the pixel in column `x` of
/// row `y` of the output is the filter's answer to the pixel in column `x` of
/// row `y` of the input.
pub proof fn lemma_pixel_stays_in_place(
    filter: Filter,
    input: Seq<u8>,
    output: Seq<u8>,
    width: u32,
    height: u32,
    x: u32,
    y: u32,
)
    requires
        input.len() == buffer_len(width, height),
        is_filtered(filter, input, output),
        x < width,
        y < height,
    ensures
        pixel_offset(width, x, y) + 4 <= output.len(),
        pixel_at(output, pixel_offset(width, x, y)) == filter.applied(
            pixel_at(input, pixel_offset(width, x, y)),
        ),
{
    lemma_pixel_in_buffer(width, height, x, y);
    assert(nth_pixel(output, y * width + x) == filter.applied(nth_pixel(input, y * width + x)));
}

/// Filtering is a function of its input: two buffers that are both `input`
/// put through `filter` agree byte for byte.
pub proof fn lemma_same_input_same_output(
    filter: Filter,
    input: Seq<u8>,
    width: u32,
    height: u32,
    first: Seq<u8>,
    second: Seq<u8>,
)
    requires
        input.len() == buffer_len(width, height),
        is_filtered(filter, input, first),
        is_filtered(filter, input, second),
    ensures
        first == second,
{
    assert forall|i: int| 0 <= i < first.len() implies first[i] == second[i] by {
        let n = i / 4;
        assert(nth_pixel(first, n) == nth_pixel(second, n));
    }
    assert(first =~= second);
}

/// Filters that keep alpha do so in every pixel of a filtered buffer.
pub proof fn lemma_alpha_passes_through(filter: Filter, input: Seq<u8>, output: Seq<u8>)
    requires
        filter.keeps_alpha(),
        is_filtered(filter, input, output),
    ensures
        same_alpha(input, output),
{
}

} // verus!
