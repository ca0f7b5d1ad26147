use signal_link::image_ops::{
    resize_luma_to_max_dimension, scale_luma_image, threshold_luma_image, GrayImg,
};

fn gray_from_fn(width: u32, height: u32, f: impl Fn(u32, u32) -> u8) -> GrayImg {
    let mut data = Vec::new();
    for y in 0..height {
        for x in 0..width {
            data.push(f(x, y));
        }
    }
    GrayImg { width, height, data }
}

#[test]
fn image_transforms_keep_expected_dimensions_and_values() {
    let src = gray_from_fn(10, 8, |x, y| ((x + y) as u8) * 10);

    let same = scale_luma_image(&src, 100);
    assert_eq!((same.width, same.height), (src.width, src.height));
    assert_eq!(same.data, src.data);

    let scaled = scale_luma_image(&src, 50);
    assert_eq!((scaled.width, scaled.height), (5, 4));

    let resized = resize_luma_to_max_dimension(&src, 6);
    assert_eq!((resized.width, resized.height), (6, 5));

    let threshold = threshold_luma_image(
        &gray_from_fn(2, 1, |x, _| if x == 0 { 100 } else { 200 }),
        150,
        false,
    );
    assert_eq!(threshold.data[0], 0);
    assert_eq!(threshold.data[1], 255);

    let no_resize = resize_luma_to_max_dimension(&src, 20);
    assert_eq!((no_resize.width, no_resize.height), (src.width, src.height));
    assert_eq!(no_resize.data, src.data);
}

#[test]
fn resize_to_max_dimension_never_exceeds_bound() {
    let wide = gray_from_fn(100, 37, |x, y| (x * y) as u8);
    let bounded = resize_luma_to_max_dimension(&wide, 10);
    assert!(bounded.width.max(bounded.height) <= 10);
    assert!(bounded.width >= 1 && bounded.height >= 1);

    let tall = gray_from_fn(3, 50, |x, y| (x + y) as u8);
    let bounded_tall = resize_luma_to_max_dimension(&tall, 7);
    assert!(bounded_tall.width.max(bounded_tall.height) <= 7);
    assert!(bounded_tall.width >= 1 && bounded_tall.height >= 1);
}

#[test]
fn scale_dimension_law_rounds_and_clamps() {
    let src = gray_from_fn(10, 8, |_, _| 7);
    // round(10 * 1.15) = 12 (11.5 rounds up), round(8 * 1.15) = 9 (9.2 down)
    let up = scale_luma_image(&src, 115);
    assert_eq!((up.width, up.height), (12, 9));

    // a tiny image never scales below one pixel per axis
    let dot = gray_from_fn(1, 1, |_, _| 0);
    let shrunk = scale_luma_image(&dot, 10);
    assert_eq!((shrunk.width, shrunk.height), (1, 1));
}

#[test]
fn binarize_is_idempotent_and_invert_complements() {
    let src = gray_from_fn(4, 3, |x, y| (x * 80 + y * 40) as u8);

    let once = threshold_luma_image(&src, 140, false);
    let twice = threshold_luma_image(&once, 140, false);
    assert_eq!(once.data, twice.data);
    assert!(once.data.iter().all(|&v| v == 0 || v == 255));

    let plain = threshold_luma_image(&src, 140, false);
    let flipped = threshold_luma_image(&src, 140, true);
    for (a, b) in plain.data.iter().zip(flipped.data.iter()) {
        assert_eq!((*a as u16) + (*b as u16), 255);
    }
}
