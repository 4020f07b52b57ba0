use ray_tracing::camera::Frac;
use ray_tracing::raster::{image_height, pixel_index, sample_point, OFFSET_STEPS};

#[test]
fn image_height_truncates() {
    assert_eq!(image_height(400), 225);
    assert_eq!(image_height(256), 144);
    assert_eq!(image_height(17), 9);
    assert_eq!(image_height(1), 0);
    assert_eq!(image_height(0), 0);
}

#[test]
fn pixel_index_is_row_major() {
    assert_eq!(pixel_index(0, 0, 400, 225), 0);
    assert_eq!(pixel_index(0, 399, 400, 225), 399);
    assert_eq!(pixel_index(1, 0, 400, 225), 400);
    assert_eq!(pixel_index(224, 399, 400, 225), 400 * 225 - 1);
}

#[test]
fn sample_point_of_corners() {
    // Top-left pixel, no jitter: u = 0, v = 1.
    let (u, v) = sample_point(0, 0, 0, 0, 5, 3).unwrap();
    assert_eq!(u, Frac::new(0, 4 * OFFSET_STEPS));
    assert_eq!(v, Frac::new(2 * OFFSET_STEPS, 2 * OFFSET_STEPS));
    // Bottom-right pixel: u = 1, v = 0.
    let (u, v) = sample_point(2, 4, 0, 0, 5, 3).unwrap();
    assert_eq!(u, Frac::new(4 * OFFSET_STEPS, 4 * OFFSET_STEPS));
    assert_eq!(v, Frac::new(0, 2 * OFFSET_STEPS));
}

#[test]
fn sample_point_adds_jitter() {
    let half = (OFFSET_STEPS / 2) as u32;
    let (u, v) = sample_point(1, 1, half, half, 5, 3).unwrap();
    // u = (1 + 0.5) / 4, v = (1 + 0.5) / 2
    assert_eq!(u.num * 8, 3 * u.den);
    assert_eq!(v.num * 4, 3 * v.den);
}

#[test]
fn sample_point_rejects_degenerate_images() {
    assert_eq!(sample_point(0, 0, 0, 0, 1, 3), None);
    assert_eq!(sample_point(0, 0, 0, 0, 5, 1), None);
    assert_eq!(sample_point(3, 0, 0, 0, 5, 3), None);
    assert_eq!(sample_point(0, 5, 0, 0, 5, 3), None);
    assert_eq!(sample_point(0, 0, 0, 0, 0x1_0001, 3), None);
}
