//! PNG output: which bit depth an image is written with, the big-endian
//! sample order that 16-bit PNG data needs, and the 16-bit RGBA encoder.

use vstd::prelude::*;

verus! {

/// The pixel formats an image can arrive in.
#[derive(Clone, Copy, Debug, PartialEq, Eq, Structural)]
pub enum ColorKind {
    Luma8,
    LumaA8,
    Rgb8,
    Rgba8,
    Luma16,
    LumaA16,
    Rgb16,
    Rgba16,
    Rgb32F,
    Rgba32F,
    /// Any other pixel format.
    Other,
}

/// Whether the pixel format has 8-bit samples.
pub open spec fn is_eight_bit(kind: ColorKind) -> bool {
    kind == ColorKind::Luma8 || kind == ColorKind::LumaA8 || kind == ColorKind::Rgb8 || kind
        == ColorKind::Rgba8
}

/// The bit depth a skybox is written with: 8 for the 8-bit formats, 16 for
/// every other one, so that no precision is lost.
pub fn png_bit_depth(kind: ColorKind) -> (r: u16)
    ensures
        r == (if is_eight_bit(kind) {
            8u16
        } else {
            16u16
        }),
        r == 8 <==> (kind == ColorKind::Luma8 || kind == ColorKind::LumaA8 || kind == ColorKind::Rgb8
            || kind == ColorKind::Rgba8),
        r == 8 || r == 16,
{
    match kind {
        ColorKind::Luma8 | ColorKind::LumaA8 | ColorKind::Rgb8 | ColorKind::Rgba8 => 8,
        _ => 16,
    }
}

/// The bytes of `values` in big-endian order: high byte first.
pub open spec fn be_bytes(values: Seq<u16>) -> Seq<u8> {
    Seq::new(
        2 * values.len(),
        |j: int|
            if j % 2 == 0 {
                (values[j / 2] / 256) as u8
            } else {
                (values[j / 2] % 256) as u8
            },
    )
}

/// Each value becomes two bytes, the high byte first: the first byte is the
/// value over 256, the second the remainder, and together they spell it.
pub proof fn lemma_big_endian_high_byte_first(values: Seq<u16>, i: int)
    requires
        0 <= i < values.len(),
    ensures
        be_bytes(values).len() == 2 * values.len(),
        be_bytes(values)[2 * i] == values[i] / 256,
        be_bytes(values)[2 * i + 1] == values[i] % 256,
        be_bytes(values)[2 * i] * 256 + be_bytes(values)[2 * i + 1] == values[i],
{
}

/// The 16-bit values that big-endian `bytes` spell, two bytes each.
pub open spec fn be_values(bytes: Seq<u8>) -> Seq<u16> {
    Seq::new(bytes.len() / 2, |i: int| (bytes[2 * i] * 256 + bytes[2 * i + 1]) as u16)
}

/// Writes 16-bit samples as big-endian bytes, the order that PNG requires.
pub fn to_big_endian(values: &Vec<u16>) -> (out: Vec<u8>)
    requires
        2 * values@.len() <= usize::MAX,
    ensures
        out@ == be_bytes(values@),
{
    let n: usize = values.len();
    let mut out: Vec<u8> = Vec::new();
    let mut i: usize = 0;
    while i < n
        invariant
            n == values@.len(),
            i <= n,
            out@.len() == 2 * i,
            forall|j: int| 0 <= j < out@.len() ==> #[trigger] out@[j] == be_bytes(values@)[j],
        decreases n - i,
    {
        let v: u16 = values[i];
        let hi: u8 = (v >> 8) as u8;
        let lo: u8 = (v & 0xff) as u8;
        assert(hi == (v / 256) as u8 && lo == (v % 256) as u8) by (bit_vector)
            requires
                hi == (v >> 8) as u8,
                lo == (v & 0xff) as u8,
        ;
        out.push(hi);
        out.push(lo);
        i = i + 1;
    }
    assert(out@ =~= be_bytes(values@));
    out
}

/// Reading the big-endian bytes of a sequence of samples back gives the
/// samples.
pub proof fn lemma_big_endian_round_trip(values: Seq<u16>)
    ensures
        be_values(be_bytes(values)) == values,
{
    let b = be_bytes(values);
    assert forall|i: int| 0 <= i < values.len() implies #[trigger] be_values(b)[i] == values[i] by {
        let v: u16 = values[i];
        assert(b[2 * i] == (v / 256) as u8);
        assert(b[2 * i + 1] == (v % 256) as u8);
        assert((v / 256) * 256 + v % 256 == v);
    }
    assert(be_values(b) =~= values);
}

/// The bytes of an RGBA PNG file with 16-bit samples, `width` x `height`
/// pixels, whose image data is `samples` (big-endian, row by row), as the
/// `png` crate's encoder writes it with its default settings.
pub uninterp spec fn png_rgba16_file(width: u32, height: u32, samples: Seq<u8>) -> Seq<u8>;

#[verifier::external_type_specification]
#[verifier::external_body]
pub struct ExEncodingError(png::EncodingError);

/// Runs `png::Encoder` on a fresh byte vector: `Encoder::new`, color type
/// RGBA, bit depth sixteen, `write_header`, then `Writer::write_image_data`,
/// and the writer's drop, which appends the closing chunk.
///
/// The crate's source shows that the header fails exactly when a dimension
/// is zero and the image data fails exactly when its length is not eight
/// bytes per pixel; writing into a vector cannot fail otherwise. The data
/// size is computed in `usize`, so the image must be small enough for eight
/// bytes per pixel to be counted there. The bytes written are named by
/// [`png_rgba16_file`].
#[verifier::external_body]
fn write_png_rgba16(width: u32, height: u32, samples: &[u8]) -> (r: Result<
    Vec<u8>,
    png::EncodingError,
>)
    requires
        8 * width * height <= usize::MAX,
    ensures
        r is Ok <==> (width > 0 && height > 0 && samples@.len() == 8 * width * height),
        r matches Ok(bytes) ==> bytes@ == png_rgba16_file(width, height, samples@),
{
    let mut png_bytes: Vec<u8> = Vec::new();
    {
        let mut encoder = png::Encoder::new(&mut png_bytes, width, height);
        encoder.set_color(png::ColorType::Rgba);
        encoder.set_depth(png::BitDepth::Sixteen);
        let mut writer = encoder.write_header()?;
        writer.write_image_data(samples)?;
    }
    Ok(png_bytes)
}

/// Why a 16-bit PNG could not be written.
pub enum PngError {
    /// The header was refused: a dimension is zero.
    Header(png::EncodingError),
    /// The image data was refused: it does not hold one RGBA pixel per cell.
    Data(png::EncodingError),
    /// The image has more bytes of data than an address can count.
    TooLarge,
}

/// Sorts the outcome of the encoder into the library's result: a failure is
/// a header failure when a dimension is zero and a data failure otherwise.
pub fn classify_png_result(width: u32, height: u32, r: Result<Vec<u8>, png::EncodingError>) -> (out:
    Result<Vec<u8>, PngError>)
    ensures
        r matches Ok(bytes) ==> out == Ok::<Vec<u8>, PngError>(bytes),
        r is Err && (width == 0 || height == 0) ==> out matches Err(PngError::Header(_)),
        r is Err && width > 0 && height > 0 ==> out matches Err(PngError::Data(_)),
{
    match r {
        Ok(bytes) => Ok(bytes),
        Err(e) => {
            if width == 0 || height == 0 {
                Err(PngError::Header(e))
            } else {
                Err(PngError::Data(e))
            }
        },
    }
}

/// Encodes a `width` x `height` RGBA image with 16-bit samples, given row by
/// row in native order, as a PNG file: the samples are written big-endian.
pub fn encode_rgba16_png(width: u32, height: u32, samples: &Vec<u16>) -> (r: Result<
    Vec<u8>,
    PngError,
>)
    requires
        2 * samples@.len() <= usize::MAX,
    ensures
        r is Ok <==> (width > 0 && height > 0 && samples@.len() == 4 * width * height),
        (width == 0 || height == 0) ==> r matches Err(PngError::Header(_)),
        (width > 0 && height > 0 && 8 * width * height > usize::MAX) ==> r matches Err(
            PngError::TooLarge,
        ),
        (width > 0 && height > 0 && 8 * width * height <= usize::MAX && samples@.len() != 4
            * width * height) ==> r matches Err(PngError::Data(_)),
        r matches Ok(bytes) ==> bytes@ == png_rgba16_file(width, height, be_bytes(samples@)),
{
    proof {
        let (w, h) = (width as int, height as int);
        assert(8 * w * h == 2 * (4 * w * h)) by (nonlinear_arith);
        assert(8 * w * h == (w * h) * 8) by (nonlinear_arith);
    }
    if width > 0 && height > 0 {
        let fits: bool = match (width as usize).checked_mul(height as usize) {
            Some(pixels) => pixels.checked_mul(8).is_some(),
            None => {
                proof {
                    let (w, h) = (width as int, height as int);
                    assert(w * h <= 8 * w * h) by (nonlinear_arith)
                        requires
                            w > 0,
                            h > 0,
                    ;
                }
                false
            },
        };
        if !fits {
            return Err(PngError::TooLarge);
        }
    } else {
        proof {
            let (w, h) = (width as int, height as int);
            assert(8 * w * h == 0) by (nonlinear_arith)
                requires
                    w == 0 || h == 0,
            ;
        }
    }
    let big_endian = to_big_endian(samples);
    let written = write_png_rgba16(width, height, big_endian.as_slice());
    classify_png_result(width, height, written)
}

} // verus!
