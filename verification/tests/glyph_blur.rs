use gpui_platform::glyph_blur::{
    blur_mask_with, blur_source, padding, plan_blur, size, BlurPlan, DevicePixels, Size,
    MAX_BLUR_RADIUS,
};

/// The blur with `f32` samples: a normalised Gaussian sampled at integer offsets, where the
/// radius is two standard deviations.
fn blur_mask(
    mask: &[u8],
    mask_size: Size<DevicePixels>,
    radius: u8,
) -> (Size<DevicePixels>, Vec<u8>) {
    let pad = padding(radius) as usize;
    let sigma = radius as f32 / 2.;
    let kernel: Vec<f32> = (0..=pad * 2)
        .map(|i| {
            let d = i as f32 - pad as f32;
            (-(d * d) / (2. * sigma * sigma)).exp()
        })
        .collect();
    let total: f32 = kernel.iter().sum();
    let kernel: Vec<f32> = kernel.into_iter().map(|k| k / total).collect();
    blur_mask_with(
        mask,
        mask_size,
        radius,
        &kernel,
        0.,
        |sum, coverage, weight| sum + coverage as f32 * weight,
        |sum, sample, weight| sum + sample * weight,
        |sum| sum.round().clamp(0., 255.) as u8,
    )
}

fn solid(width: usize, height: usize) -> Vec<u8> {
    vec![255; width * height]
}

/// The whole point: a blurred mask has intermediate coverage. Painted copies of a glyph only
/// ever produce 0 or 255, which is why they read as ghost letters rather than as a shadow.
#[test]
fn the_edge_is_a_ramp_rather_than_a_step() {
    let (size, blurred) = blur_mask(&solid(8, 8), size(DevicePixels(8), DevicePixels(8)), 4);
    let width = size.width.0 as usize;
    let mid = size.height.0 as usize / 2;
    let row = &blurred[mid * width..(mid + 1) * width];
    let intermediate = row.iter().filter(|v| **v > 0 && **v < 250).count();
    assert!(
        intermediate >= 4,
        "a Gaussian edge has to pass through partial coverage, got {row:?}"
    );
    assert!(
        row.iter().any(|v| *v > 200),
        "the middle of a solid block must stay solid, got {row:?}"
    );
    assert!(
        row[0] <= 2,
        "three sigma out there is all but nothing left to spread, got {}",
        row[0]
    );
}

/// A shadow that loses ink is a shadow that reads dimmer than it was asked for; the kernel is
/// re-normalised for exactly this.
#[test]
fn the_blur_conserves_ink() {
    let sharp = solid(6, 6);
    let (_, blurred) = blur_mask(&sharp, size(DevicePixels(6), DevicePixels(6)), 3);
    let before: u64 = sharp.iter().map(|v| *v as u64).sum();
    let after: u64 = blurred.iter().map(|v| *v as u64).sum();
    let drift = (after as f64 - before as f64).abs() / before as f64;
    assert!(drift < 0.02, "lost {:.1}% of the coverage", drift * 100.);
}

/// The tile has to grow by exactly what [`padding`] promises, because the paint path offsets
/// the sprite by the *unblurred* raster origin minus that padding.
#[test]
fn the_tile_grows_by_the_padding() {
    for radius in [1u8, 2, 5, MAX_BLUR_RADIUS] {
        let pad = padding(radius);
        let (grown, bytes) = blur_mask(&solid(4, 3), size(DevicePixels(4), DevicePixels(3)), radius);
        assert_eq!(grown.width.0, 4 + pad * 2, "radius {radius}");
        assert_eq!(grown.height.0, 3 + pad * 2, "radius {radius}");
        assert_eq!(bytes.len(), (grown.width.0 * grown.height.0) as usize);
    }
}

/// Zero is the identity, so a shadow with no blur costs no atlas growth at all.
#[test]
fn a_zero_radius_is_the_sharp_mask() {
    let sharp = solid(4, 4);
    let (grown, bytes) = blur_mask(&sharp, size(DevicePixels(4), DevicePixels(4)), 0);
    assert_eq!(grown.width.0, 4);
    assert_eq!(bytes, sharp);
}

/// A blur is symmetric, and an asymmetric one puts the shadow beside the glyph instead of
/// under it.
#[test]
fn the_blur_is_symmetric() {
    let mut mask = vec![0u8; 9 * 9];
    mask[4 * 9 + 4] = 255;
    let (grown, blurred) = blur_mask(&mask, size(DevicePixels(9), DevicePixels(9)), 4);
    let width = grown.width.0 as usize;
    let height = grown.height.0 as usize;
    for y in 0..height {
        for x in 0..width {
            assert_eq!(
                blurred[y * width + x],
                blurred[y * width + (width - 1 - x)],
                "asymmetric at ({x}, {y})"
            );
            assert_eq!(
                blurred[y * width + x],
                blurred[(height - 1 - y) * width + x],
                "asymmetric at ({x}, {y})"
            );
        }
    }
}

#[test]
fn a_short_mask_is_returned_as_it_is() {
    let short = vec![7u8; 5];
    let (kept, bytes) = blur_mask(&short, size(DevicePixels(3), DevicePixels(2)), 4);
    assert_eq!((kept.width.0, kept.height.0), (3, 2));
    assert_eq!(bytes, short);
}

#[test]
fn a_single_pixel_spreads_by_the_kernel_weights() {
    // One full pixel, radius 1: pad 2, sigma 0.5. The centre keeps the centre weight squared.
    let (grown, blurred) = blur_mask(&[255], size(DevicePixels(1), DevicePixels(1)), 1);
    assert_eq!((grown.width.0, grown.height.0), (5, 5));
    let weights: Vec<f32> = (0..5).map(|i: i32| (-((i - 2) * (i - 2)) as f32 / 0.5).exp()).collect();
    let total: f32 = weights.iter().sum();
    let centre = (255. * (weights[2] / total) * (weights[2] / total)).round() as u8;
    assert_eq!(blurred[2 * 5 + 2], centre);
    assert_eq!(blurred[0], 0);
}

#[test]
fn padding_is_three_sigma_rounded_up() {
    assert_eq!(padding(0), 0);
    assert_eq!(padding(1), 2);
    assert_eq!(padding(2), 3);
    assert_eq!(padding(3), 5);
    assert_eq!(padding(4), 6);
    assert_eq!(padding(5), 8);
    assert_eq!(padding(MAX_BLUR_RADIUS), 36);
    for radius in 0..=255u8 {
        let sigma = radius as f32 / 2.;
        let expected = if radius == 0 { 0 } else { (sigma * 3.).ceil() as i32 };
        assert_eq!(padding(radius), expected, "radius {radius}");
    }
}

#[test]
fn the_plan_grows_the_tile_by_the_padding() {
    for radius in [1u8, 2, 5, MAX_BLUR_RADIUS] {
        let pad = padding(radius) as usize;
        let plan = plan_blur(4, 3, 12, radius).expect("a solid mask is blurred");
        assert_eq!(
            plan,
            BlurPlan { width: 4, height: 3, pad, out_width: 4 + pad * 2, out_height: 3 + pad * 2 },
            "radius {radius}"
        );
    }
}

#[test]
fn nothing_to_blur_keeps_the_sharp_mask() {
    assert_eq!(plan_blur(4, 4, 16, 0), None);
    assert_eq!(plan_blur(0, 4, 16, 4), None);
    assert_eq!(plan_blur(4, -1, 16, 4), None);
    assert_eq!(plan_blur(4, 4, 15, 4), None);
    assert!(plan_blur(4, 4, 17, 4).is_some());
}

#[test]
fn taps_read_inside_the_mask_only() {
    // pad 2: grown positions 0..8 over a row of 4; tap 2 is the centre.
    assert_eq!(blur_source(0, 0, 2, 4), None);
    assert_eq!(blur_source(2, 2, 2, 4), Some(0));
    assert_eq!(blur_source(5, 2, 2, 4), Some(3));
    assert_eq!(blur_source(6, 2, 2, 4), None);
    assert_eq!(blur_source(7, 0, 2, 4), Some(3));
    assert_eq!(blur_source(0, 4, 2, 4), Some(0));
}

#[test]
fn mirrored_taps_read_mirrored_pixels() {
    let (pad, len) = (3usize, 5usize);
    let grown = len + 2 * pad;
    for out in 0..grown {
        for tap in 0..=2 * pad {
            let mirrored = blur_source(grown - 1 - out, 2 * pad - tap, pad, len);
            assert_eq!(blur_source(out, tap, pad, len).map(|s| len - 1 - s), mirrored);
        }
    }
}
