//! Scaling on concrete pixel buffers: exact letterboxing, cropping,
//! resample dimensions and error conditions.

use enkei::image::error::ImageError;
use enkei::image::scaling::{Filter, RgbaImage, Scaling};
use enkei::ScaledMode;

fn solid(width: u32, height: u32, rgba: [u8; 4]) -> RgbaImage {
    let mut data = Vec::new();
    for _ in 0..(width * height) {
        data.extend_from_slice(&rgba);
    }
    RgbaImage { data, width, height }
}

#[test]
fn centered_mode_letterboxes_exactly() {
    // a red pixel centered in 3x3, all else exactly black
    let src = solid(1, 1, [255, 0, 0, 255]);
    let out = Scaling::Centered
        .scale(&src, &ScaledMode { width: 3, height: 3 }, Filter::Good)
        .unwrap();
    let expected: Vec<u8> = vec![
        0, 0, 0, 0, 0, 0, 0, 0, 0, //
        0, 0, 0, 255, 0, 0, 0, 0, 0, //
        0, 0, 0, 0, 0, 0, 0, 0, 0,
    ];
    assert_eq!(out, expected);
}

#[test]
fn centered_mode_crops_an_oversized_source() {
    // a 3x1 source in a 1x1 target shows the middle pixel
    let mut data = Vec::new();
    data.extend_from_slice(&[10, 10, 10, 255]);
    data.extend_from_slice(&[20, 21, 22, 255]);
    data.extend_from_slice(&[30, 30, 30, 255]);
    let src = RgbaImage { data, width: 3, height: 1 };
    let out = Scaling::Centered
        .scale(&src, &ScaledMode { width: 1, height: 1 }, Filter::Good)
        .unwrap();
    assert_eq!(out, vec![20, 21, 22]);
}

#[test]
fn fit_mode_never_crops_and_pads_black() {
    // a 1x1 red source in a 3x1 target: no resampling is needed, the
    // letterbox columns are exactly black
    let src = solid(1, 1, [255, 0, 0, 255]);
    let out = Scaling::Fit.scale(&src, &ScaledMode { width: 3, height: 1 }, Filter::Best).unwrap();
    assert_eq!(out, vec![0, 0, 0, 255, 0, 0, 0, 0, 0]);
}

#[test]
fn fill_mode_output_has_exact_target_dimensions() {
    let src = solid(2, 1, [9, 8, 7, 255]);
    let out = Scaling::Fill.scale(&src, &ScaledMode { width: 2, height: 2 }, Filter::Fast).unwrap();
    // dimensions are the target's exactly: 2x2 pixels, 3 bytes each
    assert_eq!(out.len(), 12);
    // a constant source stays constant through resampling and cropping:
    // no letterbox pixel appears in fill mode
    for px in out.chunks(3) {
        assert_eq!(px, &[9, 8, 7]);
    }
}

#[test]
fn fill_mode_resamples_through_the_convolution() {
    // a 2x2 source of one black and three light pixels downscaled to one
    // pixel must mix the values: an unscaled buffer would show pure black
    let mut data = Vec::new();
    data.extend_from_slice(&[0, 0, 0, 255]);
    data.extend_from_slice(&[200, 200, 200, 255]);
    data.extend_from_slice(&[200, 200, 200, 255]);
    data.extend_from_slice(&[200, 200, 200, 255]);
    let src = RgbaImage { data, width: 2, height: 2 };
    let out = Scaling::Fill.scale(&src, &ScaledMode { width: 1, height: 1 }, Filter::Fast).unwrap();
    assert_eq!(out.len(), 3);
    assert!(out[0] >= 100 && out[0] <= 200, "expected a mixed value, got {}", out[0]);
}

#[test]
fn negative_target_is_rejected() {
    let src = solid(1, 1, [1, 2, 3, 255]);
    let r = Scaling::Fill.scale(&src, &ScaledMode { width: -1, height: 10 }, Filter::Good);
    assert!(matches!(r, Err(ImageError::Generic(_))));
}

#[test]
fn oversized_target_is_a_resource_limit() {
    let src = solid(1, 1, [1, 2, 3, 255]);
    let r = Scaling::Fit.scale(
        &src,
        &ScaledMode { width: i32::MAX, height: i32::MAX },
        Filter::Good,
    );
    assert!(matches!(r, Err(ImageError::ResourceLimit(_))));
}

#[test]
fn empty_target_gives_an_empty_buffer() {
    let src = solid(4, 4, [5, 5, 5, 255]);
    let out = Scaling::Fill.scale(&src, &ScaledMode { width: 0, height: 7 }, Filter::Good).unwrap();
    assert_eq!(out.len(), 0);
}

#[test]
fn fit_mode_scales_by_the_smaller_ratio() {
    // 2x2 source into 4x2: width ratio 2, height ratio 1; fit scales by 1,
    // keeps the source untouched and letterboxes the width
    let src = solid(2, 2, [50, 60, 70, 255]);
    let out = Scaling::Fit.scale(&src, &ScaledMode { width: 4, height: 2 }, Filter::Good).unwrap();
    assert_eq!(out.len(), 24);
    // columns 0 and 3 black, columns 1 and 2 the source color
    for y in 0..2 {
        let row = &out[y * 12..y * 12 + 12];
        assert_eq!(&row[0..3], &[0, 0, 0]);
        assert_eq!(&row[3..6], &[50, 60, 70]);
        assert_eq!(&row[6..9], &[50, 60, 70]);
        assert_eq!(&row[9..12], &[0, 0, 0]);
    }
}
