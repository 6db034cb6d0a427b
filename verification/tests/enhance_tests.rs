use skyboxer::encode::ColorKind;
use skyboxer::enhance::{enhance_scale, enhanced_size, enlarged_kind};

#[test]
fn enhance_scale_targets_16384() {
    assert_eq!(enhance_scale(4096), 4);
    assert_eq!(enhance_scale(5000), 3);
    assert_eq!(enhance_scale(2048), 8);
}

#[test]
fn enhance_scale_is_at_most_eight() {
    assert_eq!(enhance_scale(1), 8);
    assert_eq!(enhance_scale(100), 8);
}

#[test]
fn enhance_scale_always_upscales() {
    assert_eq!(enhance_scale(8193), 2);
    assert_eq!(enhance_scale(20000), 2);
    assert_eq!(enhance_scale(u32::MAX), 2);
}

#[test]
fn enhanced_size_scales_both_sides() {
    assert_eq!(enhanced_size(4096, 2048), (16384, 8192));
    assert_eq!(enhanced_size(1000, 500), (8000, 4000));
    assert_eq!(enhanced_size(10000, 5000), (20000, 10000));
}

#[test]
fn enlarged_formats() {
    assert_eq!(enlarged_kind(ColorKind::Rgba16), ColorKind::Rgba16);
    assert_eq!(enlarged_kind(ColorKind::Rgb8), ColorKind::Rgb8);
    assert_eq!(enlarged_kind(ColorKind::Luma8), ColorKind::Rgba8);
    assert_eq!(enlarged_kind(ColorKind::Rgb16), ColorKind::Rgba8);
    assert_eq!(enlarged_kind(ColorKind::Rgba8), ColorKind::Rgba8);
}
