use ray_tracing::color::{format_color, pack_rgb, quantize_channel, unpack_rgb};

fn scaled(average: f64) -> i64 {
    (256.0 * average).floor() as i64
}

#[test]
fn quantize_clamps_both_ends() {
    assert_eq!(quantize_channel(-1), 0);
    assert_eq!(quantize_channel(0), 0);
    assert_eq!(quantize_channel(128), 128);
    assert_eq!(quantize_channel(255), 255);
    assert_eq!(quantize_channel(256), 255);
    assert_eq!(quantize_channel(i64::MAX), 255);
    assert_eq!(quantize_channel(i64::MIN), 0);
}

#[test]
fn bright_average_saturates_at_255() {
    // A sum of 10 samples at 1.5 averages to 1.5; one of 9.995 to 0.9995.
    assert_eq!(quantize_channel(scaled(15.0 / 10.0)), 255);
    assert_eq!(quantize_channel(scaled(9.995 / 10.0)), 255);
    assert_eq!(format_color(scaled(1.5), scaled(2.0), scaled(0.9995)), 0xffffff);
}

#[test]
fn pack_rgb_places_channels() {
    assert_eq!(pack_rgb(0x12, 0x34, 0x56), 0x123456);
    assert_eq!(pack_rgb(0, 0, 0), 0);
    assert_eq!(pack_rgb(255, 0, 0), 0xff0000);
    assert_eq!(pack_rgb(0, 0, 255), 0x0000ff);
}

#[test]
fn format_color_of_sky_and_normal_colors() {
    // Averages (0.5, 0.7, 1.0): 128, floor(179.2) = 179, clamped 255.
    assert_eq!(format_color(scaled(0.5), scaled(0.7), scaled(1.0)), 0x80b3ff);
    // A negative channel gives 0.
    assert_eq!(format_color(scaled(-0.25), 0, 1), 0x000001);
}

#[test]
fn unpack_reverses_pack() {
    assert_eq!(unpack_rgb(0x80b3ff), (0x80, 0xb3, 0xff));
    assert_eq!(unpack_rgb(pack_rgb(1, 2, 3)), (1, 2, 3));
}
