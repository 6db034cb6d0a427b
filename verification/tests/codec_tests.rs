use skyboxer::codec::{encode_png, load_image, CodecError, DecodedImage, Samples};
use skyboxer::encode::ColorKind;

#[test]
fn png8_round_trip() {
    let img = DecodedImage {
        kind: ColorKind::Rgb8,
        width: 2,
        height: 1,
        samples: Samples::Eight(vec![1, 2, 3, 250, 251, 252]),
    };
    let bytes = match encode_png(&img) {
        Ok(b) => b,
        Err(_) => panic!("encoding failed"),
    };
    assert_eq!(&bytes[..8], &[137, 80, 78, 71, 13, 10, 26, 10]);
    let back = match load_image(&bytes) {
        Ok(i) => i,
        Err(_) => panic!("decoding failed"),
    };
    assert_eq!(back.kind, ColorKind::Rgb8);
    assert_eq!((back.width, back.height), (2, 1));
    match back.samples {
        Samples::Eight(s) => assert_eq!(s, vec![1, 2, 3, 250, 251, 252]),
        Samples::Sixteen(_) => panic!("wrong depth"),
    }
}

#[test]
fn png16_round_trip() {
    let img = DecodedImage {
        kind: ColorKind::LumaA16,
        width: 1,
        height: 2,
        samples: Samples::Sixteen(vec![0x1234, 65535, 7, 0]),
    };
    let bytes = match encode_png(&img) {
        Ok(b) => b,
        Err(_) => panic!("encoding failed"),
    };
    let back = match load_image(&bytes) {
        Ok(i) => i,
        Err(_) => panic!("decoding failed"),
    };
    assert_eq!(back.kind, ColorKind::LumaA16);
    assert_eq!((back.width, back.height), (1, 2));
    match back.samples {
        Samples::Sixteen(s) => assert_eq!(s, vec![0x1234, 65535, 7, 0]),
        Samples::Eight(_) => panic!("wrong depth"),
    }
}

#[test]
fn garbage_is_a_decode_error() {
    assert!(matches!(load_image(b"not an image"), Err(CodecError::Decode(_))));
    assert!(matches!(load_image(&[]), Err(CodecError::Decode(_))));
}

#[test]
fn zero_sized_png_is_an_encode_error() {
    let img = DecodedImage { kind: ColorKind::Luma8, width: 0, height: 3, samples: Samples::Eight(vec![]) };
    assert!(matches!(encode_png(&img), Err(CodecError::Encode(_))));
}
