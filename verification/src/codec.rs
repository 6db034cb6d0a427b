//! Reading an image file into plain samples, and writing plain samples back
//! as a PNG file, through the `image` crate.

use vstd::prelude::*;
use crate::encode::{ColorKind, is_eight_bit};
use crate::encode::ColorKind::{Luma8, LumaA8, Rgb8, Rgba8, Luma16, LumaA16, Rgb16, Rgba16};
use image::DynamicImage::{
    ImageLuma8,
    ImageLumaA8,
    ImageRgb8,
    ImageRgba8,
    ImageLuma16,
    ImageLumaA16,
    ImageRgb16,
};
use image::ExtendedColorType;
use image::GenericImageView;
use self::Samples::{Eight, Sixteen};

verus! {

/// The samples of an image, interleaved pixel by pixel, row by row.
pub enum Samples {
    /// 8-bit samples.
    Eight(Vec<u8>),
    /// 16-bit samples.
    Sixteen(Vec<u16>),
}

/// The sample values, whatever their width.
pub open spec fn sample_values(samples: Samples) -> Seq<u16> {
    match samples {
        Samples::Eight(v) => v@.map_values(|b: u8| b as u16),
        Samples::Sixteen(v) => v@,
    }
}

/// A number for each pixel format.
pub open spec fn kind_code(kind: ColorKind) -> u8 {
    match kind {
        ColorKind::Luma8 => 0,
        ColorKind::LumaA8 => 1,
        ColorKind::Rgb8 => 2,
        ColorKind::Rgba8 => 3,
        ColorKind::Luma16 => 4,
        ColorKind::LumaA16 => 5,
        ColorKind::Rgb16 => 6,
        ColorKind::Rgba16 => 7,
        ColorKind::Rgb32F => 8,
        ColorKind::Rgba32F => 9,
        ColorKind::Other => 10,
    }
}

/// Samples per pixel of the pixel format.
pub open spec fn channels(kind: ColorKind) -> int {
    match kind {
        ColorKind::Luma8 | ColorKind::Luma16 => 1,
        ColorKind::LumaA8 | ColorKind::LumaA16 => 2,
        ColorKind::Rgb8 | ColorKind::Rgb16 | ColorKind::Rgb32F => 3,
        _ => 4,
    }
}

/// Whether the pixel format has integer samples.
pub open spec fn is_integer_kind(kind: ColorKind) -> bool {
    kind != ColorKind::Rgb32F && kind != ColorKind::Rgba32F && kind != ColorKind::Other
}

/// An image held as plain values.
pub struct DecodedImage {
    pub kind: ColorKind,
    pub width: u32,
    pub height: u32,
    pub samples: Samples,
}

impl DecodedImage {
    /// The pixel format has integer samples, 8-bit ones are held as `Eight`
    /// and 16-bit ones as `Sixteen`, and there is one sample per channel per
    /// pixel.
    pub open spec fn wf(&self) -> bool {
        &&& is_integer_kind(self.kind)
        &&& (self.samples is Eight <==> is_eight_bit(self.kind))
        &&& sample_values(self.samples).len() == channels(self.kind) * self.width * self.height
    }

    /// The image as a tuple of plain values: format, width, height, samples.
    pub open spec fn describe(&self) -> (u8, u32, u32, Seq<u16>) {
        (kind_code(self.kind), self.width, self.height, sample_values(self.samples))
    }
}

/// The image that `image::load_from_memory` reads from `bytes`, as format
/// code, width, height and samples, or `None` where it refuses them.
pub uninterp spec fn decoded(bytes: Seq<u8>) -> Option<(u8, u32, u32, Seq<u16>)>;

/// The PNG file that `image::write_buffer_with_format` writes for an image
/// given as format code, width, height and samples.
pub uninterp spec fn png_file(color: u8, width: u32, height: u32, samples: Seq<u16>) -> Seq<u8>;

#[verifier::external_type_specification]
#[verifier::external_body]
pub struct ExImageError(image::ImageError);

/// Calls `image::load_from_memory` and hands out the decoded buffer's
/// samples as they are; an RGBA16 image, and any other format, leaves
/// through `into_rgba16`, which hands an RGBA16 buffer back unchanged. With
/// the crate's PNG and JPEG decoders every image has one of the eight
/// integer formats.
///
/// Claimed: a decoded image is well formed and is what [`decoded`] names,
/// and the call succeeds exactly on the bytes that [`decoded`] accepts. The
/// crate sizes its buffers exactly, one sample per channel per pixel, and
/// allocates them with `vec!`, so refusal depends on the bytes alone.
#[verifier::external_body]
fn read_image(bytes: &[u8]) -> (r: Result<DecodedImage, image::ImageError>)
    ensures
        r matches Ok(i) ==> i.wf() && decoded(bytes@) == Some(i.describe()),
        r is Ok <==> decoded(bytes@) is Some,
{
    let img = image::load_from_memory(bytes)?;
    let (width, height) = img.dimensions();
    let (kind, samples) = match img {
        ImageLuma8(b) => (Luma8, Eight(b.into_raw())),
        ImageLumaA8(b) => (LumaA8, Eight(b.into_raw())),
        ImageRgb8(b) => (Rgb8, Eight(b.into_raw())),
        ImageRgba8(b) => (Rgba8, Eight(b.into_raw())),
        ImageLuma16(b) => (Luma16, Sixteen(b.into_raw())),
        ImageLumaA16(b) => (LumaA16, Sixteen(b.into_raw())),
        ImageRgb16(b) => (Rgb16, Sixteen(b.into_raw())),
        other => (Rgba16, Sixteen(other.into_rgba16().into_raw())),
    };
    Ok(DecodedImage { kind, width, height, samples })
}

/// Calls `image::write_buffer_with_format` with the PNG format on 8-bit
/// samples, the same call that `DynamicImage::write_to` makes for these
/// formats.
///
/// Claimed: the call succeeds exactly when both dimensions are non-zero (the
/// `png` crate refuses the header otherwise, and writing 8-bit data into a
/// vector cannot fail), and the bytes written are what [`png_file`] names
/// for the samples' values. The encoder panics unless there is one sample
/// per channel per pixel, which `requires` demands.
#[verifier::external_body]
fn write_png8(kind: ColorKind, width: u32, height: u32, samples: &[u8]) -> (r: Result<
    Vec<u8>,
    image::ImageError,
>)
    requires
        is_eight_bit(kind),
        samples@.len() == channels(kind) * width * height,
    ensures
        r is Ok <==> (width > 0 && height > 0),
        r matches Ok(bytes) ==> bytes@ == png_file(
            kind_code(kind),
            width,
            height,
            samples@.map_values(|b: u8| b as u16),
        ),
{
    let color = match kind {
        Luma8 => ExtendedColorType::L8,
        LumaA8 => ExtendedColorType::La8,
        Rgb8 => ExtendedColorType::Rgb8,
        _ => ExtendedColorType::Rgba8,
    };
    let mut out: Vec<u8> = Vec::new();
    let mut cursor = std::io::Cursor::new(&mut out);
    image::write_buffer_with_format(&mut cursor, samples, width, height, color, image::ImageFormat::Png)?;
    Ok(out)
}

/// Calls `image::write_buffer_with_format` with the PNG format on 16-bit
/// samples, handed over in native byte order as the function expects (the
/// encoder writes them big-endian), the same call that `DynamicImage::write_to`
/// makes for these formats. The same function as [`write_png8`], for the
/// other sample width.
///
/// Claimed: a zero dimension is refused, and the bytes written are what
/// [`png_file`] names. Reordering the samples reserves memory fallibly, and a
/// failure there is also reported as an error; that case is left unsaid, so
/// success is not promised.
#[verifier::external_body]
fn write_png16(kind: ColorKind, width: u32, height: u32, samples: &[u16]) -> (r: Result<
    Vec<u8>,
    image::ImageError,
>)
    requires
        is_integer_kind(kind),
        !is_eight_bit(kind),
        samples@.len() == channels(kind) * width * height,
    ensures
        (width == 0 || height == 0) ==> r is Err,
        r matches Ok(bytes) ==> bytes@ == png_file(kind_code(kind), width, height, samples@),
{
    let color = match kind {
        Luma16 => ExtendedColorType::L16,
        LumaA16 => ExtendedColorType::La16,
        Rgb16 => ExtendedColorType::Rgb16,
        _ => ExtendedColorType::Rgba16,
    };
    let bytes: Vec<u8> = samples.iter().flat_map(|v| v.to_ne_bytes()).collect();
    let mut out: Vec<u8> = Vec::new();
    let mut cursor = std::io::Cursor::new(&mut out);
    image::write_buffer_with_format(&mut cursor, &bytes, width, height, color, image::ImageFormat::Png)?;
    Ok(out)
}

/// Why an image could not be read or written.
pub enum CodecError {
    /// The input bytes are not an image the decoders accept.
    Decode(image::ImageError),
    /// The PNG encoder refused the image.
    Encode(image::ImageError),
}

/// Reads an image file from memory.
pub fn load_image(bytes: &[u8]) -> (r: Result<DecodedImage, CodecError>)
    ensures
        r matches Ok(i) ==> i.wf() && decoded(bytes@) == Some(i.describe()),
        r is Ok <==> decoded(bytes@) is Some,
        r is Err ==> r matches Err(CodecError::Decode(_)),
{
    match read_image(bytes) {
        Ok(i) => Ok(i),
        Err(e) => Err(CodecError::Decode(e)),
    }
}

/// Writes an image as a PNG file with its own pixel format and bit depth.
pub fn encode_png(img: &DecodedImage) -> (r: Result<Vec<u8>, CodecError>)
    requires
        img.wf(),
    ensures
        (img.width == 0 || img.height == 0) ==> r matches Err(CodecError::Encode(_)),
        is_eight_bit(img.kind) && img.width > 0 && img.height > 0 ==> r is Ok,
        r is Err ==> r matches Err(CodecError::Encode(_)),
        r matches Ok(bytes) ==> bytes@ == png_file(
            kind_code(img.kind),
            img.width,
            img.height,
            sample_values(img.samples),
        ),
{
    let written = match &img.samples {
        Eight(s) => write_png8(img.kind, img.width, img.height, s.as_slice()),
        Sixteen(s) => write_png16(img.kind, img.width, img.height, s.as_slice()),
    };
    match written {
        Ok(bytes) => Ok(bytes),
        Err(e) => Err(CodecError::Encode(e)),
    }
}

} // verus!
