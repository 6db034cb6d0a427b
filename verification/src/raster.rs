//! A row-major grid of pixels, and the index arithmetic that every pixel loop
//! of the library relies on.

use vstd::prelude::*;

verus! {

/// A `width` x `height` image whose pixel at column `x`, row `y` is
/// `pixels[y * width + x]`.
pub struct Raster<T> {
    pub width: u32,
    pub height: u32,
    pub pixels: Vec<T>,
}

impl<T> Raster<T> {
    /// The pixel vector holds exactly one pixel per grid cell.
    pub open spec fn wf(&self) -> bool {
        self.pixels@.len() == self.width * self.height
    }

    /// The pixel at column `x`, row `y`.
    pub open spec fn at(&self, x: int, y: int) -> T {
        self.pixels@[y * self.width + x]
    }

    /// Whether `(x, y)` names a cell of the grid.
    pub open spec fn contains(&self, x: int, y: int) -> bool {
        0 <= x < self.width && 0 <= y < self.height
    }
}

/// Inside a row of length `w`, the flat index `y * w + x` splits back into
/// column `x` and row `y`.
pub proof fn lemma_grid_index(x: int, y: int, w: int)
    requires
        0 <= x < w,
        0 <= y,
    ensures
        (y * w + x) % w == x,
        (y * w + x) / w == y,
{
    vstd::arithmetic::div_mod::lemma_fundamental_div_mod_converse(y * w + x, w, y, x);
}

/// The flat index of a cell of a `w` x `h` grid lies inside the pixel vector.
pub proof fn lemma_grid_bound(x: int, y: int, w: int, h: int)
    requires
        0 <= x < w,
        0 <= y < h,
    ensures
        0 <= y * w + x < w * h,
{
    assert(0 <= y * w + x < w * h) by (nonlinear_arith)
        requires
            0 <= x < w,
            0 <= y < h,
    ;
}

/// One more row adds one row length to the flat index.
pub proof fn lemma_next_row(y: int, w: int)
    ensures
        (y + 1) * w == y * w + w,
{
    assert((y + 1) * w == y * w + w) by (nonlinear_arith);
}

} // verus!
