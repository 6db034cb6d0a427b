use skyboxer::encode::{encode_rgba16_png, png_bit_depth, to_big_endian, ColorKind, PngError};

#[test]
fn big_endian_puts_high_byte_first() {
    assert_eq!(to_big_endian(&vec![0x1234, 0xff00, 0x00ff]), vec![0x12, 0x34, 0xff, 0x00, 0x00, 0xff]);
    assert!(to_big_endian(&vec![]).is_empty());
}

#[test]
fn big_endian_round_trip() {
    let values: Vec<u16> = vec![0, 1, 255, 256, 65535, 4660];
    let bytes = to_big_endian(&values);
    let back: Vec<u16> = bytes.chunks(2).map(|c| u16::from_be_bytes([c[0], c[1]])).collect();
    assert_eq!(back, values);
}

#[test]
fn bit_depth_by_color_kind() {
    for k in [ColorKind::Luma8, ColorKind::LumaA8, ColorKind::Rgb8, ColorKind::Rgba8] {
        assert_eq!(png_bit_depth(k), 8);
    }
    for k in [
        ColorKind::Luma16,
        ColorKind::LumaA16,
        ColorKind::Rgb16,
        ColorKind::Rgba16,
        ColorKind::Rgb32F,
        ColorKind::Rgba32F,
        ColorKind::Other,
    ] {
        assert_eq!(png_bit_depth(k), 16);
    }
}

#[test]
fn rgba16_png_decodes_to_the_same_samples() {
    let samples: Vec<u16> = vec![0, 1, 0x1234, 65535, 300, 40000, 7, 8];
    let bytes = match encode_rgba16_png(2, 1, &samples) {
        Ok(b) => b,
        Err(_) => panic!("encoding failed"),
    };
    assert_eq!(&bytes[..8], &[137, 80, 78, 71, 13, 10, 26, 10]);
    let decoder = png::Decoder::new(std::io::Cursor::new(bytes));
    let mut reader = decoder.read_info().unwrap();
    let mut buf = vec![0u8; reader.output_buffer_size()];
    let info = reader.next_frame(&mut buf).unwrap();
    assert_eq!(info.width, 2);
    assert_eq!(info.height, 1);
    assert_eq!(info.bit_depth, png::BitDepth::Sixteen);
    assert_eq!(info.color_type, png::ColorType::Rgba);
    let decoded: Vec<u16> = buf[..info.buffer_size()]
        .chunks(2)
        .map(|c| u16::from_be_bytes([c[0], c[1]]))
        .collect();
    assert_eq!(decoded, samples);
}

#[test]
fn rgba16_png_zero_size_is_a_header_error() {
    assert!(matches!(encode_rgba16_png(0, 1, &vec![]), Err(PngError::Header(_))));
    assert!(matches!(encode_rgba16_png(3, 0, &vec![]), Err(PngError::Header(_))));
}

#[test]
fn rgba16_png_short_data_is_a_data_error() {
    assert!(matches!(encode_rgba16_png(2, 2, &vec![0u16; 15]), Err(PngError::Data(_))));
    assert!(matches!(encode_rgba16_png(1, 1, &vec![0u16; 5]), Err(PngError::Data(_))));
}

#[test]
fn rgba16_png_too_large_is_refused() {
    assert!(matches!(encode_rgba16_png(u32::MAX, u32::MAX, &vec![]), Err(PngError::TooLarge)));
}
