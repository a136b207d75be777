//! The four colour formulas, one pixel at a time.
//!
//! The weights are decimal fractions, so every channel is stated exactly as
//! a whole-number quotient: `0.299 * r` is `299 * r / 1000`, and cutting a
//! sum of such terms down to a whole number is one integer division. A
//! channel that may pass 255 is capped there first.

use crate::glow::{glow, glow_level};
use crate::pixel::RgbaPixel;
use vstd::prelude::*;

verus! {

/// `v` capped at the largest value a channel can hold.
pub open spec fn capped(v: int) -> int {
    if v > 255 {
        255
    } else {
        v
    }
}

/// Perceived brightness: `0.299 r + 0.587 g + 0.114 b`, fraction dropped.
pub open spec fn luma(p: RgbaPixel) -> int {
    (299 * p.r + 587 * p.g + 114 * p.b) / 1000
}

/// Grayscale: the three colour channels all take the luma; alpha stays.
pub open spec fn grayscale_of(p: RgbaPixel) -> RgbaPixel {
    RgbaPixel { r: luma(p) as u8, g: luma(p) as u8, b: luma(p) as u8, a: p.a }
}

/// Sepia red: `0.393 r + 0.769 g + 0.189 b`, capped, fraction dropped.
pub open spec fn sepia_red(p: RgbaPixel) -> int {
    capped((393 * p.r + 769 * p.g + 189 * p.b) / 1000)
}

/// Sepia green: `0.349 r + 0.686 g + 0.168 b`, capped, fraction dropped.
pub open spec fn sepia_green(p: RgbaPixel) -> int {
    capped((349 * p.r + 686 * p.g + 168 * p.b) / 1000)
}

/// Sepia blue: `0.272 r + 0.534 g + 0.131 b`, capped, fraction dropped.
pub open spec fn sepia_blue(p: RgbaPixel) -> int {
    capped((272 * p.r + 534 * p.g + 131 * p.b) / 1000)
}

/// Sepia: the colour channels go through the sepia matrix; alpha stays.
pub open spec fn sepia_of(p: RgbaPixel) -> RgbaPixel {
    RgbaPixel {
        r: sepia_red(p) as u8,
        g: sepia_green(p) as u8,
        b: sepia_blue(p) as u8,
        a: p.a,
    }
}

/// `0.9 a` rounded to the nearest whole number, halves upwards.
pub open spec fn faded_alpha(a: u8) -> int {
    (9 * a + 5) / 10
}

/// Cold inverse: each colour channel is inverted and then scaled, red by
/// 0.5, green by 0.8 and blue by 1.1, capped, fraction dropped; alpha is
/// scaled by 0.9 and rounded.
pub open spec fn cold_inverse_of(p: RgbaPixel) -> RgbaPixel {
    RgbaPixel {
        r: capped((255 - p.r) * 5 / 10) as u8,
        g: capped((255 - p.g) * 8 / 10) as u8,
        b: capped((255 - p.b) * 11 / 10) as u8,
        a: faded_alpha(p.a) as u8,
    }
}

/// Blue before the glow is added: `1.4 b + 0.2 r`, capped, fraction dropped.
pub open spec fn boosted_blue(p: RgbaPixel) -> int {
    capped((14 * p.b + 2 * p.r) / 10)
}

/// The glow term of a pixel.
pub open spec fn glow_of(p: RgbaPixel) -> int {
    glow_level(p.r + p.g + p.b)
}

/// Spectral glow: red is scaled by 0.6 and green by 0.7; blue is boosted and
/// then takes the glow on top, stopping at 255; alpha is
/// `0.95 a + 0.2 glow`. Each is capped and has its fraction dropped.
pub open spec fn spectral_glow_of(p: RgbaPixel) -> RgbaPixel {
    RgbaPixel {
        r: capped(6 * p.r / 10) as u8,
        g: capped(7 * p.g / 10) as u8,
        b: capped(boosted_blue(p) + glow_of(p)) as u8,
        a: capped((95 * p.a + 20 * glow_of(p)) / 100) as u8,
    }
}

/// Caps a value at 255 and narrows it to a channel.
fn cap(v: u32) -> (c: u8)
    ensures
        c == capped(v as int),
{
    if v > 255 {
        255
    } else {
        v as u8
    }
}

/// Applies the grayscale formula to one pixel.
pub fn grayscale_pixel(p: RgbaPixel) -> (q: RgbaPixel)
    ensures
        q == grayscale_of(p),
        q.a == p.a,
{
    let r: u32 = p.r as u32;
    let g: u32 = p.g as u32;
    let b: u32 = p.b as u32;
    let gray: u8 = ((299 * r + 587 * g + 114 * b) / 1000) as u8;
    RgbaPixel { r: gray, g: gray, b: gray, a: p.a }
}

/// Applies the sepia formula to one pixel.
pub fn sepia_pixel(p: RgbaPixel) -> (q: RgbaPixel)
    ensures
        q == sepia_of(p),
        q.a == p.a,
{
    let r: u32 = p.r as u32;
    let g: u32 = p.g as u32;
    let b: u32 = p.b as u32;
    RgbaPixel {
        r: cap((393 * r + 769 * g + 189 * b) / 1000),
        g: cap((349 * r + 686 * g + 168 * b) / 1000),
        b: cap((272 * r + 534 * g + 131 * b) / 1000),
        a: p.a,
    }
}

/// Applies the cold-inverse formula to one pixel.
pub fn cold_inverse_pixel(p: RgbaPixel) -> (q: RgbaPixel)
    ensures
        q == cold_inverse_of(p),
{
    let r: u32 = (255 - p.r) as u32;
    let g: u32 = (255 - p.g) as u32;
    let b: u32 = (255 - p.b) as u32;
    let a: u32 = p.a as u32;
    RgbaPixel {
        r: cap(r * 5 / 10),
        g: cap(g * 8 / 10),
        b: cap(b * 11 / 10),
        a: ((9 * a + 5) / 10) as u8,
    }
}

/// Applies the spectral-glow formula to one pixel.
pub fn spectral_glow_pixel(p: RgbaPixel) -> (q: RgbaPixel)
    ensures
        q == spectral_glow_of(p),
        boosted_blue(p) + glow_of(p) >= 255 ==> q.b == 255,
{
    let r: u32 = p.r as u32;
    let g: u32 = p.g as u32;
    let b: u32 = p.b as u32;
    let a: u32 = p.a as u32;
    let boosted: u8 = cap((14 * b + 2 * r) / 10);
    let light: u8 = glow(p.r, p.g, p.b);
    RgbaPixel {
        r: cap(6 * r / 10),
        g: cap(7 * g / 10),
        b: boosted.saturating_add(light),
        a: cap((95 * a + 20 * (light as u32)) / 100),
    }
}

} // verus!
