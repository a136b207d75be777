use wasmfunctions::formula::{
    cold_inverse_pixel, grayscale_pixel, sepia_pixel, spectral_glow_pixel,
};
use wasmfunctions::glow::glow;
use wasmfunctions::{Filter, RgbaPixel};

fn px(r: u8, g: u8, b: u8, a: u8) -> RgbaPixel {
    RgbaPixel { r, g, b, a }
}

#[test]
fn grayscale_of_white_and_black() {
    assert_eq!(grayscale_pixel(px(255, 255, 255, 255)), px(255, 255, 255, 255));
    assert_eq!(grayscale_pixel(px(0, 0, 0, 255)), px(0, 0, 0, 255));
}

#[test]
fn grayscale_drops_the_fraction() {
    // 0.299 * 10 + 0.587 * 20 + 0.114 * 30 = 18.15
    assert_eq!(grayscale_pixel(px(10, 20, 30, 40)), px(18, 18, 18, 40));
    // 59.8 + 58.7 + 5.7 = 124.2
    assert_eq!(grayscale_pixel(px(200, 100, 50, 255)), px(124, 124, 124, 255));
    // 0.299 + 1.174 + 0.342 = 1.815
    assert_eq!(grayscale_pixel(px(1, 2, 3, 4)), px(1, 1, 1, 4));
}

#[test]
fn grayscale_keeps_a_whole_luma() {
    // 2.392 + 46.96 + 3.648 = 53 exactly
    assert_eq!(grayscale_pixel(px(8, 80, 32, 7)), px(53, 53, 53, 7));
}

#[test]
fn grayscale_of_a_gray_pixel_is_itself() {
    for v in 0..=255u8 {
        assert_eq!(grayscale_pixel(px(v, v, v, 9)), px(v, v, v, 9));
    }
}

#[test]
fn sepia_of_white_and_black() {
    // 1.351 * 255 and 1.203 * 255 pass the cap; 0.937 * 255 = 238.935
    assert_eq!(sepia_pixel(px(255, 255, 255, 0)), px(255, 255, 238, 0));
    assert_eq!(sepia_pixel(px(255, 255, 255, 255)), px(255, 255, 238, 255));
    assert_eq!(sepia_pixel(px(0, 0, 0, 255)), px(0, 0, 0, 255));
}

#[test]
fn sepia_matrix_values() {
    // red 3.93 + 15.38 + 5.67 = 24.98, green 3.49 + 13.72 + 5.04 = 22.25,
    // blue 2.72 + 10.68 + 3.93 = 17.33
    assert_eq!(sepia_pixel(px(10, 20, 30, 40)), px(24, 22, 17, 40));
    assert_eq!(sepia_pixel(px(200, 100, 50, 255)), px(164, 146, 114, 255));
    assert_eq!(sepia_pixel(px(250, 128, 114, 15)), px(218, 194, 151, 15));
}

#[test]
fn sepia_caps_each_channel_on_its_own() {
    // red 290.604 is capped, green 258.403 is capped, blue 201.294 is not
    assert_eq!(sepia_pixel(px(255, 238, 39, 1)), px(255, 255, 201, 1));
}

#[test]
fn cold_inverse_of_black_and_white() {
    // 127.5, 204 and 280.5 capped; alpha 90
    assert_eq!(cold_inverse_pixel(px(0, 0, 0, 100)), px(127, 204, 255, 90));
    assert_eq!(cold_inverse_pixel(px(0, 0, 0, 255)), px(127, 204, 255, 230));
    assert_eq!(cold_inverse_pixel(px(255, 255, 255, 255)), px(0, 0, 0, 230));
}

#[test]
fn cold_inverse_values() {
    assert_eq!(cold_inverse_pixel(px(10, 20, 30, 40)), px(122, 188, 247, 36));
    assert_eq!(cold_inverse_pixel(px(200, 100, 50, 255)), px(27, 124, 225, 230));
    assert_eq!(cold_inverse_pixel(px(120, 130, 140, 5)), px(67, 100, 126, 5));
}

#[test]
fn cold_inverse_rounds_alpha_to_nearest() {
    // 0.9, 4.5, 13.5, 228.6, 229.5
    assert_eq!(cold_inverse_pixel(px(0, 0, 0, 1)).a, 1);
    assert_eq!(cold_inverse_pixel(px(0, 0, 0, 5)).a, 5);
    assert_eq!(cold_inverse_pixel(px(0, 0, 0, 15)).a, 14);
    assert_eq!(cold_inverse_pixel(px(0, 0, 0, 254)).a, 229);
    assert_eq!(cold_inverse_pixel(px(0, 0, 0, 255)).a, 230);
    assert_eq!(cold_inverse_pixel(px(0, 0, 0, 0)).a, 0);
}

#[test]
fn cold_inverse_drops_the_colour_fraction() {
    // red (255 - 254) * 0.5 = 0.5, green (255 - 254) * 0.8 = 0.8,
    // blue (255 - 254) * 1.1 = 1.1
    assert_eq!(cold_inverse_pixel(px(254, 254, 254, 0)), px(0, 0, 1, 0));
}

#[test]
fn cold_inverse_blue_cap_begins_at_23() {
    // (255 - 23) * 1.1 = 255.2, (255 - 24) * 1.1 = 254.1
    assert_eq!(cold_inverse_pixel(px(0, 0, 23, 0)).b, 255);
    assert_eq!(cold_inverse_pixel(px(0, 0, 24, 0)).b, 254);
}

#[test]
fn spectral_glow_of_black_and_white() {
    assert_eq!(spectral_glow_pixel(px(0, 0, 0, 0)), px(0, 0, 0, 0));
    // alpha 0.95 * 255 = 242.25
    assert_eq!(spectral_glow_pixel(px(0, 0, 0, 255)), px(0, 0, 0, 242));
    // red 153, green 178.5, blue capped, glow 50, alpha 242.25 + 10
    assert_eq!(spectral_glow_pixel(px(255, 255, 255, 255)), px(153, 178, 255, 252));
}

#[test]
fn spectral_glow_values() {
    // glow 1: blue 42 + 2 = 44, plus 1; alpha 38 + 0.2
    assert_eq!(spectral_glow_pixel(px(10, 20, 30, 40)), px(6, 14, 45, 38));
    // glow 15: blue 70 + 40 = 110, plus 15; alpha 242.25 + 3
    assert_eq!(spectral_glow_pixel(px(200, 100, 50, 255)), px(120, 70, 125, 245));
    // glow 18: blue 196 + 24 = 220, plus 18; alpha 4.75 + 3.6
    assert_eq!(spectral_glow_pixel(px(120, 130, 140, 5)), px(72, 91, 238, 8));
    // blue 12.6 + 0.4 = 13 exactly, no glow
    assert_eq!(spectral_glow_pixel(px(2, 0, 9, 0)).b, 13);
}

#[test]
fn spectral_glow_blue_stops_at_255() {
    // boosted blue is capped at 255 and the glow of 27 comes on top
    assert_eq!(spectral_glow_pixel(px(255, 0, 255, 200)), px(153, 0, 255, 195));
    // boosted blue 250.4 + 0 = 250, glow 12: 262 without the stop
    let q = spectral_glow_pixel(px(0, 118, 179, 0));
    assert_eq!(glow(0, 118, 179), 12);
    assert_eq!(q.b, 255);
    // just below: boosted 238, glow 11
    let q = spectral_glow_pixel(px(0, 110, 170, 0));
    assert_eq!(glow(0, 110, 170), 11);
    assert_eq!(q.b, 249);
}

#[test]
fn glow_at_the_ends() {
    assert_eq!(glow(0, 0, 0), 0);
    assert_eq!(glow(255, 255, 255), 50);
    assert_eq!(glow(255, 255, 254), 49);
}

#[test]
fn glow_steps() {
    // 50 * (56 / 765)^1.5 = 0.990, 50 * (57 / 765)^1.5 = 1.017
    assert_eq!(glow(56, 0, 0), 0);
    assert_eq!(glow(57, 0, 0), 1);
    // the step to 17 lies between the sums 372 and 373
    assert_eq!(glow(124, 124, 124), 16);
    assert_eq!(glow(124, 124, 125), 17);
    assert_eq!(glow(200, 200, 100), 26);
    assert_eq!(glow(255, 255, 235), 48);
    assert_eq!(glow(255, 255, 234), 47);
}

#[test]
fn glow_depends_on_the_sum_alone() {
    assert_eq!(glow(100, 50, 0), glow(0, 75, 75));
    assert_eq!(glow(255, 0, 0), glow(85, 85, 85));
}

#[test]
fn glow_never_falls_as_the_sum_grows() {
    let mut last = 0u8;
    for s in 0..=765u32 {
        let r = s.min(255) as u8;
        let g = (s - r as u32).min(255) as u8;
        let b = (s - r as u32 - g as u32) as u8;
        let k = glow(r, g, b);
        assert!(k >= last);
        assert!(k <= 50);
        last = k;
    }
    assert_eq!(last, 50);
}

#[test]
fn filter_apply_picks_the_formula() {
    let p = px(250, 128, 114, 15);
    assert_eq!(Filter::Grayscale.apply(p), px(162, 162, 162, 15));
    assert_eq!(Filter::Sepia.apply(p), px(218, 194, 151, 15));
    assert_eq!(Filter::ColdInverse.apply(p), px(2, 101, 155, 14));
    assert_eq!(Filter::SpectralGlow.apply(p), px(150, 89, 234, 19));
}

#[test]
fn alpha_passes_through_gray_and_sepia_pixels() {
    for a in 0..=255u8 {
        assert_eq!(grayscale_pixel(px(13, 200, 77, a)).a, a);
        assert_eq!(sepia_pixel(px(13, 200, 77, a)).a, a);
    }
}
