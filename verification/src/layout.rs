//! Cube faces and skybox layouts.
//!
//! Faces are numbered by the direction they look at:
//! `0` is +z, `1` is -z, `2` is +x, `3` is -x, `4` is +y, `5` is -y.
//! The projection that decides which panorama pixel each face pixel shows
//! works on floating point and is computed by the caller; this module samples
//! the panorama at the coordinates it produced and assembles the six faces.

use vstd::prelude::*;
use crate::raster::{Raster, lemma_grid_index, lemma_grid_bound, lemma_next_row};
use crate::text::same_text;

verus! {

/// The largest face edge that is ever rendered.
pub const MAX_FACE_WIDTH: u32 = 4096;

/// How the six faces are arranged in the output image.
#[derive(Clone, Copy, Debug, PartialEq, Eq, Structural)]
pub enum SkyboxType {
    /// One column of six faces: +x, -x, +y, -y, +z, -z from top to bottom.
    Bevy,
    /// A cross of four columns and three rows:
    /// ```text
    ///       [top]
    /// [left][front][right][back]
    ///       [bottom]
    /// ```
    Unity,
}

/// Edge length of a rendered face: the panorama's width over four, capped
/// by `max_width` and by [`MAX_FACE_WIDTH`].
pub open spec fn face_width_for(source_width: u32, max_width: u32) -> int {
    let quarter = source_width / 4;
    let a = if max_width <= quarter { max_width as int } else { quarter as int };
    if a <= MAX_FACE_WIDTH { a } else { MAX_FACE_WIDTH as int }
}

/// What a face pixel shows when the projection sends it to `coord` of the
/// panorama: that panorama pixel, or `blank` where `coord` lies outside it.
pub open spec fn sample<T>(source: Raster<T>, coord: (u32, u32), blank: T) -> T {
    if coord.0 < source.width && coord.1 < source.height {
        source.at(coord.0 as int, coord.1 as int)
    } else {
        blank
    }
}

/// Edge length of a rendered face for a panorama `source_width` pixels wide.
pub fn face_size(source_width: u32, max_width: u32) -> (r: u32)
    ensures
        r == face_width_for(source_width, max_width),
        r <= max_width,
        r <= source_width / 4,
        r <= MAX_FACE_WIDTH,
        r == max_width || r == source_width / 4 || r == MAX_FACE_WIDTH,
{
    let quarter: u32 = source_width / 4;
    let a: u32 = if max_width <= quarter { max_width } else { quarter };
    if a <= MAX_FACE_WIDTH { a } else { MAX_FACE_WIDTH }
}

/// Renders one cube face from the panorama `source`.
///
/// The face is `n` x `n` pixels, `n` being [`face_size`] of the panorama's
/// width and `max_width`. `coords[y * n + x]` is the panorama pixel that the
/// projection assigns to face pixel `(x, y)`; face pixels whose coordinate
/// falls outside the panorama keep the value `blank`.
pub fn render_face<T: Copy>(
    source: &Raster<T>,
    max_width: u32,
    coords: &Vec<(u32, u32)>,
    blank: T,
) -> (out: Raster<T>)
    requires
        source.wf(),
        coords@.len() == face_width_for(source.width, max_width) * face_width_for(
            source.width,
            max_width,
        ),
    ensures
        out.wf(),
        out.width == face_width_for(source.width, max_width),
        out.height == out.width,
        forall|x: int, y: int|
            out.contains(x, y) ==> #[trigger] out.at(x, y) == sample(
                *source,
                coords@[y * out.width + x],
                blank,
            ),
{
    let n: u32 = face_size(source.width, max_width);
    let mut pixels: Vec<T> = Vec::new();
    let mut y: u32 = 0;
    while y < n
        invariant
            source.wf(),
            n == face_width_for(source.width, max_width),
            coords@.len() == n * n,
            y <= n,
            pixels@.len() == y * n,
            forall|i: int|
                0 <= i < pixels@.len() ==> #[trigger] pixels@[i] == sample(
                    *source,
                    coords@[i],
                    blank,
                ),
        decreases n - y,
    {
        let mut x: u32 = 0;
        while x < n
            invariant
                source.wf(),
                n == face_width_for(source.width, max_width),
                coords@.len() == n * n,
                y < n,
                x <= n,
                pixels@.len() == y * n + x,
                forall|i: int|
                    0 <= i < pixels@.len() ==> #[trigger] pixels@[i] == sample(
                        *source,
                        coords@[i],
                        blank,
                    ),
            decreases n - x,
        {
            proof {
                lemma_grid_bound(x as int, y as int, n as int, n as int);
                assert(coords@.len() == coords.len());
            }
            let k: usize = (y as usize) * (n as usize) + (x as usize);
            let (sx, sy) = coords[k];
            let p = if sx < source.width && sy < source.height {
                proof {
                    lemma_grid_bound(sx as int, sy as int, source.width as int, source.height as int);
                    assert(source.pixels@.len() == source.pixels.len());
                }
                source.pixels[(sy as usize) * (source.width as usize) + (sx as usize)]
            } else {
                blank
            };
            pixels.push(p);
            x = x + 1;
        }
        proof {
            lemma_next_row(y as int, n as int);
        }
        y = y + 1;
    }
    let out = Raster { width: n, height: n, pixels };
    assert forall|x: int, y: int| out.contains(x, y) implies #[trigger] out.at(x, y) == sample(
        *source,
        coords@[y * out.width + x],
        blank,
    ) by {
        lemma_grid_bound(x, y, n as int, n as int);
    }
    out
}

impl SkyboxType {
    /// Number of face columns in the layout.
    pub open spec fn columns(self) -> int {
        match self {
            SkyboxType::Bevy => 1,
            SkyboxType::Unity => 4,
        }
    }

    /// Number of face rows in the layout.
    pub open spec fn rows(self) -> int {
        match self {
            SkyboxType::Bevy => 6,
            SkyboxType::Unity => 3,
        }
    }

    /// The face shown in layout cell (`col`, `row`), if any.
    pub open spec fn face_at(self, col: int, row: int) -> Option<int> {
        match self {
            SkyboxType::Bevy => {
                if col != 0 {
                    None
                } else if row == 0 {
                    Some(2)
                } else if row == 1 {
                    Some(3)
                } else if row == 2 {
                    Some(4)
                } else if row == 3 {
                    Some(5)
                } else if row == 4 {
                    Some(0)
                } else if row == 5 {
                    Some(1)
                } else {
                    None
                }
            },
            SkyboxType::Unity => {
                if row == 0 && col == 1 {
                    Some(4)
                } else if row == 1 && col == 0 {
                    Some(3)
                } else if row == 1 && col == 1 {
                    Some(0)
                } else if row == 1 && col == 2 {
                    Some(2)
                } else if row == 1 && col == 3 {
                    Some(1)
                } else if row == 2 && col == 1 {
                    Some(5)
                } else {
                    None
                }
            },
        }
    }

    /// The pixel at `(x, y)` of the assembled image whose faces are `w` x `h`:
    /// the matching pixel of the face whose cell holds it, or `blank` in a cell
    /// that holds no face.
    pub open spec fn layout_pixel<T>(
        self,
        faces: Seq<Raster<T>>,
        w: int,
        h: int,
        blank: T,
        x: int,
        y: int,
    ) -> T {
        match self.face_at(x / w, y / h) {
            Some(f) => faces[f].at(x % w, y % h),
            None => blank,
        }
    }

    /// The six faces are all `w` x `h` images.
    pub open spec fn faces_fit<T>(faces: Seq<Raster<T>>, w: int, h: int) -> bool {
        &&& faces.len() == 6
        &&& forall|f: int|
            0 <= f < 6 ==> {
                &&& (#[trigger] faces[f]).wf()
                &&& faces[f].width == w
                &&& faces[f].height == h
            }
    }

    /// Which face occupies layout cell (`col`, `row`).
    fn face_index(&self, col: u32, row: u32) -> (r: Option<usize>)
        ensures
            match r {
                Some(f) => self.face_at(col as int, row as int) == Some(f as int),
                None => self.face_at(col as int, row as int) is None,
            },
            r matches Some(f) ==> f < 6,
    {
        match self {
            SkyboxType::Bevy => {
                if col != 0 {
                    None
                } else if row == 0 {
                    Some(2)
                } else if row == 1 {
                    Some(3)
                } else if row == 2 {
                    Some(4)
                } else if row == 3 {
                    Some(5)
                } else if row == 4 {
                    Some(0)
                } else if row == 5 {
                    Some(1)
                } else {
                    None
                }
            },
            SkyboxType::Unity => {
                if row == 0 && col == 1 {
                    Some(4)
                } else if row == 1 && col == 0 {
                    Some(3)
                } else if row == 1 && col == 1 {
                    Some(0)
                } else if row == 1 && col == 2 {
                    Some(2)
                } else if row == 1 && col == 3 {
                    Some(1)
                } else if row == 2 && col == 1 {
                    Some(5)
                } else {
                    None
                }
            },
        }
    }

    /// The number of face columns and rows of the layout.
    fn grid(&self) -> (r: (u32, u32))
        ensures
            r.0 == self.columns(),
            r.1 == self.rows(),
    {
        match self {
            SkyboxType::Bevy => (1, 6),
            SkyboxType::Unity => (4, 3),
        }
    }

    /// One pixel of the assembled image.
    fn pixel_of<T: Copy>(&self, faces: &Vec<Raster<T>>, w: u32, h: u32, blank: T, x: u32, y: u32) -> (p: T)
        requires
            Self::faces_fit(faces@, w as int, h as int),
            w > 0,
            h > 0,
        ensures
            p == self.layout_pixel(faces@, w as int, h as int, blank, x as int, y as int),
    {
        match self.face_index(x / w, y / h) {
            Some(f) => {
                let fx: u32 = x % w;
                let fy: u32 = y % h;
                let face = &faces[f];
                proof {
                    assert(face.wf());
                    lemma_grid_bound(fx as int, fy as int, w as int, h as int);
                    assert(face.pixels@.len() == face.pixels.len());
                }
                face.pixels[(fy as usize) * (w as usize) + (fx as usize)]
            },
            None => blank,
        }
    }

    /// Assembles the six rendered faces into one image.
    ///
    /// `faces[f]` is the render of face `f` (see the module documentation).
    /// A Bevy skybox stacks +x, -x, +y, -y, +z, -z in one column; a Unity
    /// skybox is the cross of four columns and three rows, with +y on top of
    /// +z, -y below it, and -x, +z, +x, -z along the middle row. Cells of the
    /// cross that hold no face are `blank`.
    pub fn render<T: Copy>(&self, faces: &Vec<Raster<T>>, blank: T) -> (out: Raster<T>)
        requires
            Self::faces_fit(faces@, faces@[2].width as int, faces@[2].height as int),
            faces@[2].width * self.columns() <= u32::MAX,
            faces@[2].height * self.rows() <= u32::MAX,
        ensures
            out.wf(),
            out.width == faces@[2].width * self.columns(),
            out.height == faces@[2].height * self.rows(),
            forall|x: int, y: int|
                out.contains(x, y) ==> #[trigger] out.at(x, y) == self.layout_pixel(
                    faces@,
                    faces@[2].width as int,
                    faces@[2].height as int,
                    blank,
                    x,
                    y,
                ),
            forall|x: int, y: int|
                out.contains(x, y) && self.face_at(
                    x / (faces@[2].width as int),
                    y / (faces@[2].height as int),
                ) is None ==> #[trigger] out.at(x, y) == blank,
    {
        let w: u32 = faces[2].width;
        let h: u32 = faces[2].height;
        let (cols, rows) = self.grid();
        let width: u32 = w * cols;
        let height: u32 = h * rows;
        let mut pixels: Vec<T> = Vec::new();
        let mut y: u32 = 0;
        while y < height
            invariant
                Self::faces_fit(faces@, w as int, h as int),
                width == w * self.columns(),
                height == h * self.rows(),
                y <= height,
                pixels@.len() == y * width,
                forall|i: int|
                    0 <= i < pixels@.len() ==> #[trigger] pixels@[i] == self.layout_pixel(
                        faces@,
                        w as int,
                        h as int,
                        blank,
                        i % (width as int),
                        i / (width as int),
                    ),
            decreases height - y,
        {
            let mut x: u32 = 0;
            while x < width
                invariant
                    Self::faces_fit(faces@, w as int, h as int),
                    width == w * self.columns(),
                    height == h * self.rows(),
                    y < height,
                    x <= width,
                    pixels@.len() == y * width + x,
                    forall|i: int|
                        0 <= i < pixels@.len() ==> #[trigger] pixels@[i] == self.layout_pixel(
                            faces@,
                            w as int,
                            h as int,
                            blank,
                            i % (width as int),
                            i / (width as int),
                        ),
                decreases width - x,
            {
                proof {
                    assert(w > 0 && h > 0) by (nonlinear_arith)
                        requires
                            x < width,
                            y < height,
                            width == w * self.columns(),
                            height == h * self.rows(),
                            self.columns() > 0,
                            self.rows() > 0,
                    ;
                    lemma_grid_index(x as int, y as int, width as int);
                }
                let p = self.pixel_of(faces, w, h, blank, x, y);
                pixels.push(p);
                x = x + 1;
            }
            proof {
                lemma_next_row(y as int, width as int);
            }
            y = y + 1;
        }
        proof {
            vstd::arithmetic::mul::lemma_mul_is_commutative(width as int, height as int);
        }
        let out = Raster { width, height, pixels };
        assert forall|x: int, y: int| out.contains(x, y) implies #[trigger] out.at(x, y)
            == self.layout_pixel(faces@, w as int, h as int, blank, x, y) by {
            lemma_grid_bound(x, y, width as int, height as int);
            lemma_grid_index(x, y, width as int);
        }
        assert forall|x: int, y: int|
            out.contains(x, y) && self.face_at(x / (w as int), y / (h as int)) is None implies
            #[trigger] out.at(x, y) == blank by {
            assert(out.at(x, y) == self.layout_pixel(faces@, w as int, h as int, blank, x, y));
        }
        out
    }

    /// Reads a layout name: `"unity"` selects the cross, anything else the
    /// Bevy strip.
    pub fn from_format(format: &str) -> (r: SkyboxType)
        ensures
            r == (if format@ == "unity"@ {
                SkyboxType::Unity
            } else {
                SkyboxType::Bevy
            }),
    {
        if same_text(format, "unity") {
            SkyboxType::Unity
        } else {
            SkyboxType::Bevy
        }
    }
}

/// The layout cell that holds face `f`.
pub open spec fn slot_of(layout: SkyboxType, f: int) -> (int, int) {
    match layout {
        SkyboxType::Bevy => (
            0,
            if f == 2 {
                0
            } else if f == 3 {
                1
            } else if f == 4 {
                2
            } else if f == 5 {
                3
            } else if f == 0 {
                4
            } else {
                5
            },
        ),
        SkyboxType::Unity => {
            if f == 4 {
                (1, 0)
            } else if f == 3 {
                (0, 1)
            } else if f == 0 {
                (1, 1)
            } else if f == 2 {
                (2, 1)
            } else if f == 1 {
                (3, 1)
            } else {
                (1, 2)
            }
        },
    }
}

/// Every face appears in exactly one cell of each layout, and that cell lies
/// inside the layout's grid.
pub proof fn lemma_each_face_once(layout: SkyboxType, f: int)
    requires
        0 <= f < 6,
    ensures
        layout.face_at(slot_of(layout, f).0, slot_of(layout, f).1) == Some(f),
        0 <= slot_of(layout, f).0 < layout.columns(),
        0 <= slot_of(layout, f).1 < layout.rows(),
        forall|c: int, r: int| #[trigger] layout.face_at(c, r) == Some(f) ==> (c, r) == slot_of(
            layout,
            f,
        ),
{
}

/// Each layout shows every face whole and unchanged: pixel `(x, y)` of face
/// `f` appears at offset `(x, y)` inside the cell of face `f`.
pub proof fn lemma_face_placement<T>(
    layout: SkyboxType,
    faces: Seq<Raster<T>>,
    w: int,
    h: int,
    blank: T,
    f: int,
    x: int,
    y: int,
)
    requires
        0 <= f < 6,
        0 <= x < w,
        0 <= y < h,
    ensures
        layout.layout_pixel(
            faces,
            w,
            h,
            blank,
            slot_of(layout, f).0 * w + x,
            slot_of(layout, f).1 * h + y,
        ) == faces[f].at(x, y),
{
    lemma_each_face_once(layout, f);
    let (c, r) = slot_of(layout, f);
    lemma_grid_index(x, c, w);
    lemma_grid_index(y, r, h);
}

/// The face edge is the least of the three bounds: a quarter of the
/// panorama's width, `max_width` and [`MAX_FACE_WIDTH`].
pub proof fn lemma_face_width_is_least_bound(source_width: u32, max_width: u32)
    ensures
        face_width_for(source_width, max_width) <= max_width,
        face_width_for(source_width, max_width) <= source_width / 4,
        face_width_for(source_width, max_width) <= 4096,
        face_width_for(source_width, max_width) == max_width || face_width_for(
            source_width,
            max_width,
        ) == source_width / 4 || face_width_for(source_width, max_width) == 4096,
{
}

/// The Unity cross: +y above +z; -x, +z, +x, -z along the middle row; -y
/// below +z; the six other cells hold only the blank pixel.
pub proof fn lemma_unity_cross<T>(faces: Seq<Raster<T>>, w: int, h: int, blank: T, x: int, y: int)
    requires
        0 <= x < w,
        0 <= y < h,
    ensures
        SkyboxType::Unity.layout_pixel(faces, w, h, blank, w + x, y) == faces[4].at(x, y),
        SkyboxType::Unity.layout_pixel(faces, w, h, blank, x, h + y) == faces[3].at(x, y),
        SkyboxType::Unity.layout_pixel(faces, w, h, blank, w + x, h + y) == faces[0].at(x, y),
        SkyboxType::Unity.layout_pixel(faces, w, h, blank, 2 * w + x, h + y) == faces[2].at(x, y),
        SkyboxType::Unity.layout_pixel(faces, w, h, blank, 3 * w + x, h + y) == faces[1].at(x, y),
        SkyboxType::Unity.layout_pixel(faces, w, h, blank, w + x, 2 * h + y) == faces[5].at(x, y),
        SkyboxType::Unity.layout_pixel(faces, w, h, blank, x, y) == blank,
        SkyboxType::Unity.layout_pixel(faces, w, h, blank, 2 * w + x, y) == blank,
        SkyboxType::Unity.layout_pixel(faces, w, h, blank, 3 * w + x, y) == blank,
        SkyboxType::Unity.layout_pixel(faces, w, h, blank, x, 2 * h + y) == blank,
        SkyboxType::Unity.layout_pixel(faces, w, h, blank, 2 * w + x, 2 * h + y) == blank,
        SkyboxType::Unity.layout_pixel(faces, w, h, blank, 3 * w + x, 2 * h + y) == blank,
{
    lemma_grid_index(x, 0, w);
    lemma_grid_index(x, 1, w);
    lemma_grid_index(x, 2, w);
    lemma_grid_index(x, 3, w);
    lemma_grid_index(y, 0, h);
    lemma_grid_index(y, 1, h);
    lemma_grid_index(y, 2, h);
}

/// The Bevy strip: one column holding +x, -x, +y, -y, +z, -z from top to
/// bottom, and nothing to its right.
pub proof fn lemma_bevy_strip<T>(faces: Seq<Raster<T>>, w: int, h: int, blank: T, x: int, y: int)
    requires
        0 <= x < w,
        0 <= y < h,
    ensures
        SkyboxType::Bevy.layout_pixel(faces, w, h, blank, x, y) == faces[2].at(x, y),
        SkyboxType::Bevy.layout_pixel(faces, w, h, blank, x, h + y) == faces[3].at(x, y),
        SkyboxType::Bevy.layout_pixel(faces, w, h, blank, x, 2 * h + y) == faces[4].at(x, y),
        SkyboxType::Bevy.layout_pixel(faces, w, h, blank, x, 3 * h + y) == faces[5].at(x, y),
        SkyboxType::Bevy.layout_pixel(faces, w, h, blank, x, 4 * h + y) == faces[0].at(x, y),
        SkyboxType::Bevy.layout_pixel(faces, w, h, blank, x, 5 * h + y) == faces[1].at(x, y),
{
    lemma_grid_index(x, 0, w);
    lemma_grid_index(y, 0, h);
    lemma_grid_index(y, 1, h);
    lemma_grid_index(y, 2, h);
    lemma_grid_index(y, 3, h);
    lemma_grid_index(y, 4, h);
    lemma_grid_index(y, 5, h);
}

/// Every cell of a layout that holds no face shows only the blank pixel.
pub proof fn lemma_empty_cells_are_blank<T>(
    layout: SkyboxType,
    faces: Seq<Raster<T>>,
    w: int,
    h: int,
    blank: T,
    x: int,
    y: int,
)
    requires
        layout.face_at(x / w, y / h) is None,
    ensures
        layout.layout_pixel(faces, w, h, blank, x, y) == blank,
{
}

/// A face pixel whose coordinate lies inside the panorama shows the panorama
/// pixel stored at that coordinate; any other shows the blank pixel.
pub proof fn lemma_sample_reads_the_named_pixel<T>(source: Raster<T>, sx: u32, sy: u32, blank: T)
    ensures
        sx < source.width && sy < source.height ==> sample(source, (sx, sy), blank)
            == source.pixels@[sy * source.width + sx],
        sx >= source.width || sy >= source.height ==> sample(source, (sx, sy), blank) == blank,
{
}

} // verus!
