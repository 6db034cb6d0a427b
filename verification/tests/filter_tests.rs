use skyboxer::filters::{brighten_rgba16, brighten_rgba8};

#[test]
fn brighten_rgba8_moves_color_and_keeps_alpha() {
    let mut data = vec![10u8, 250, 0, 128, 255, 1, 2, 3];
    brighten_rgba8(&mut data, 10);
    assert_eq!(data, vec![20, 255, 10, 128, 255, 11, 12, 3]);
}

#[test]
fn brighten_rgba8_darkens_and_clamps_at_zero() {
    let mut data = vec![10u8, 250, 0, 7];
    brighten_rgba8(&mut data, -20);
    assert_eq!(data, vec![0, 230, 0, 7]);
}

#[test]
fn brighten_rgba8_by_zero_is_identity() {
    let mut data = vec![1u8, 2, 3, 4, 5, 6, 7, 8];
    brighten_rgba8(&mut data, 0);
    assert_eq!(data, vec![1, 2, 3, 4, 5, 6, 7, 8]);
}

#[test]
fn brighten_rgba8_extreme_amounts() {
    let mut data = vec![10u8, 20, 30, 40];
    brighten_rgba8(&mut data, i32::MIN);
    assert_eq!(data, vec![0, 0, 0, 40]);
    let mut data = vec![10u8, 20, 30, 40];
    brighten_rgba8(&mut data, i32::MAX - 255);
    assert_eq!(data, vec![255, 255, 255, 40]);
    // only color samples are added to, so a bright alpha cannot overflow
    let mut data = vec![0u8, 0, 0, 255];
    brighten_rgba8(&mut data, i32::MAX);
    assert_eq!(data, vec![255, 255, 255, 255]);
}

#[test]
fn brighten_rgba16_moves_color_and_keeps_alpha() {
    let mut data = vec![1000u16, 65000, 0, 500];
    brighten_rgba16(&mut data, 1000);
    assert_eq!(data, vec![2000, 65535, 1000, 500]);
    brighten_rgba16(&mut data, -1500);
    assert_eq!(data, vec![500, 64035, 0, 500]);
}
