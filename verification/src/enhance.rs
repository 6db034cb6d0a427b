//! The size a panorama is upscaled to before it is cut into faces, when the
//! caller asks for enhancement.
//!
//! The scale factor aims at a panorama [`ENHANCE_TARGET_WIDTH`] pixels wide,
//! which gives faces of the largest width rendered, and always upscales: it
//! lies between 2 and 8.

use vstd::prelude::*;
use crate::encode::ColorKind;

verus! {

/// The panorama width that enhancement aims at.
pub const ENHANCE_TARGET_WIDTH: u32 = 16384;

/// The smallest enhancement factor.
pub const MIN_ENHANCE_SCALE: u32 = 2;

/// The largest enhancement factor.
pub const MAX_ENHANCE_SCALE: u32 = 8;

/// The factor by which a panorama `width` pixels wide is enlarged: the target
/// width over `width`, held inside `2..=8`.
pub open spec fn enhance_factor(width: u32) -> int {
    let s = ENHANCE_TARGET_WIDTH / width;
    if s < MIN_ENHANCE_SCALE {
        MIN_ENHANCE_SCALE as int
    } else if s > MAX_ENHANCE_SCALE {
        MAX_ENHANCE_SCALE as int
    } else {
        s as int
    }
}

/// The enhancement factor for a panorama `width` pixels wide.
pub fn enhance_scale(width: u32) -> (r: u32)
    requires
        width > 0,
    ensures
        r == enhance_factor(width),
        MIN_ENHANCE_SCALE <= r <= MAX_ENHANCE_SCALE,
        2 <= 16384u32 / width <= 8 ==> r == 16384u32 / width,
        16384u32 / width < 2 ==> r == 2,
        16384u32 / width > 8 ==> r == 8,
{
    let s: u32 = ENHANCE_TARGET_WIDTH / width;
    if s < MIN_ENHANCE_SCALE {
        MIN_ENHANCE_SCALE
    } else if s > MAX_ENHANCE_SCALE {
        MAX_ENHANCE_SCALE
    } else {
        s
    }
}

/// The width and height a `width` x `height` panorama is enlarged to: both
/// multiplied by the enhancement factor.
pub fn enhanced_size(width: u32, height: u32) -> (r: (u32, u32))
    requires
        width > 0,
        width * enhance_factor(width) <= u32::MAX,
        height * enhance_factor(width) <= u32::MAX,
    ensures
        r.0 == width * enhance_factor(width),
        r.1 == height * enhance_factor(width),
{
    let scale: u32 = enhance_scale(width);
    (width * scale, height * scale)
}

/// The pixel format of an enlarged panorama: RGBA16 and RGB8 panoramas keep
/// their format, every other one is enlarged as RGBA8.
pub open spec fn enlarged_format(kind: ColorKind) -> ColorKind {
    if kind == ColorKind::Rgba16 || kind == ColorKind::Rgb8 {
        kind
    } else {
        ColorKind::Rgba8
    }
}

/// The pixel format a panorama of format `kind` is enlarged in.
pub fn enlarged_kind(kind: ColorKind) -> (r: ColorKind)
    ensures
        r == enlarged_format(kind),
{
    match kind {
        ColorKind::Rgba16 => ColorKind::Rgba16,
        ColorKind::Rgb8 => ColorKind::Rgb8,
        _ => ColorKind::Rgba8,
    }
}

/// The factor is how many times the panorama's width fits into the target
/// width, held inside `2..=8`: `r` copies of the width fit into 16384 unless
/// `r` was raised to 2, and `r + 1` copies do not unless `r` was lowered to 8.
pub proof fn lemma_enhance_factor_is_quotient(width: u32)
    requires
        width > 0,
    ensures
        2 <= enhance_factor(width) <= 8,
        enhance_factor(width) * width <= 16384 || enhance_factor(width) == 2,
        enhance_factor(width) == 8 || 16384 < (enhance_factor(width) + 1) * width,
{
    let w: int = width as int;
    let q: int = 16384int / w;
    let r: int = 16384int % w;
    vstd::arithmetic::div_mod::lemma_fundamental_div_mod(16384int, w);
    assert(16384 == w * q + r && 0 <= r < w);
    assert(q == ENHANCE_TARGET_WIDTH / width);
    let f: int = enhance_factor(width);
    assert(q * w <= 16384 < (q + 1) * w) by (nonlinear_arith)
        requires
            16384 == w * q + r,
            0 <= r < w,
    ;
    if q < 2 {
        assert((q + 1) * w <= 3 * w) by (nonlinear_arith)
            requires
                q < 2,
                w > 0,
        ;
    } else if q > 8 {
        assert(8 * w <= q * w) by (nonlinear_arith)
            requires
                q > 8,
                w > 0,
        ;
    }
}

/// Enhancement never shrinks a panorama, and enlarges it at least twofold and
/// at most eightfold in each direction.
pub proof fn lemma_enhance_enlarges(width: u32, height: u32)
    requires
        width > 0,
    ensures
        2 * width <= width * enhance_factor(width) <= 8 * width,
        2 * height <= height * enhance_factor(width) <= 8 * height,
{
    let f: int = enhance_factor(width);
    assert(2 <= f <= 8);
    assert(2 * width <= width * f <= 8 * width) by (nonlinear_arith)
        requires
            2 <= f <= 8,
            width > 0,
    ;
    assert(2 * height <= height * f <= 8 * height) by (nonlinear_arith)
        requires
            2 <= f <= 8,
            height >= 0,
    ;
}

} // verus!
