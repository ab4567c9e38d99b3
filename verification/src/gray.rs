//! Gray pixel images.

use vstd::prelude::*;

use crate::bitmap::{cell, lemma_cell};

verus! {

/// A gray image: its size and its levels, row by row from the top left. Level 0
/// is black, level 255 is white.
#[verifier::ext_equal]
pub struct GrayImage {
    pub width: nat,
    pub height: nat,
    pub levels: Seq<u8>,
}

impl GrayImage {
    /// The level at a coordinate of the image.
    pub open spec fn level(self, x: int, y: int) -> u8 {
        self.levels[cell(self.width as int, x, y)]
    }
}

/// A rectangle that may reach beyond an image.
pub struct InkRect {
    pub x: int,
    pub y: int,
    pub width: int,
    pub height: int,
}

impl InkRect {
    /// Whether a coordinate lies in the rectangle.
    pub open spec fn covers(self, x: int, y: int) -> bool {
        self.x <= x < self.x + self.width && self.y <= y < self.y + self.height
    }
}

/// An extent as a count of steps: those beyond the range of `i32` count as none.
pub open spec fn extent(n: u32) -> int {
    if n <= i32::MAX {
        n as int
    } else {
        0
    }
}

/// `level` under ink of the given opacity.
pub open spec fn inked(level: u8, alpha: u8) -> u8 {
    if level <= 255 - alpha {
        level
    } else {
        (255 - alpha) as u8
    }
}

/// A gray image.
#[derive(Debug)]
pub struct GrayCanvas {
    width: u32,
    height: u32,
    levels: Vec<u8>,
}

impl View for GrayCanvas {
    type V = GrayImage;

    closed spec fn view(&self) -> GrayImage {
        GrayImage {
            width: self.width as nat,
            height: self.height as nat,
            levels: self.levels@,
        }
    }
}

impl GrayCanvas {
    /// There are as many levels as the size says.
    pub open spec fn wf(&self) -> bool {
        &&& self@.levels.len() == self@.width * self@.height
        &&& self@.width <= u32::MAX
        &&& self@.height <= u32::MAX
    }

    /// The image with the given levels, if there are as many as the size says.
    pub fn from_levels(width: u32, height: u32, levels: Vec<u8>) -> (image: Option<GrayCanvas>)
        ensures
            match image {
                Some(image) => {
                    &&& image.wf()
                    &&& image@ == (GrayImage {
                        width: width as nat,
                        height: height as nat,
                        levels: levels@,
                    })
                },
                None => levels@.len() != width * height,
            },
    {
        assert(0 <= width * height <= u32::MAX * u32::MAX) by (nonlinear_arith)
            requires
                0 <= width <= u32::MAX,
                0 <= height <= u32::MAX,
        ;
        if levels.len() as u64 == width as u64 * height as u64 {
            Some(GrayCanvas { width, height, levels })
        } else {
            None
        }
    }

    /// An image of one level.
    pub fn filled(width: u32, height: u32, level: u8) -> (image: GrayCanvas)
        ensures
            image.wf(),
            image@ == (GrayImage {
                width: width as nat,
                height: height as nat,
                levels: Seq::new((width * height) as nat, |i: int| level),
            }),
    {
        let mut levels: Vec<u8> = Vec::new();
        let mut y: u32 = 0;
        assert(0 == 0 * width as int) by (nonlinear_arith);
        while y < height
            invariant
                y <= height,
                levels@.len() == y * width,
                forall|i: int| 0 <= i < levels@.len() ==> levels@[i] == level,
            decreases height - y,
        {
            let mut x: u32 = 0;
            while x < width
                invariant
                    x <= width,
                    levels@.len() == y * width + x,
                    forall|i: int| 0 <= i < levels@.len() ==> levels@[i] == level,
                decreases width - x,
            {
                levels.push(level);
                x = x + 1;
            }
            assert(y * width + width == (y + 1) * width) by (nonlinear_arith);
            y = y + 1;
        }
        assert(width * height == height * width) by (nonlinear_arith);
        assert(levels@ =~= Seq::new((width * height) as nat, |i: int| level));
        GrayCanvas { width, height, levels }
    }

    /// Number of columns.
    pub fn width(&self) -> (width: u32)
        ensures
            width == self@.width,
    {
        self.width
    }

    /// Number of rows.
    pub fn height(&self) -> (height: u32)
        ensures
            height == self@.height,
    {
        self.height
    }

    /// The levels, row by row from the top left.
    pub fn levels(&self) -> (levels: &Vec<u8>)
        ensures
            levels@ == self@.levels,
    {
        &self.levels
    }

    /// Where a pixel stands in the list of levels.
    fn index(&self, x: u32, y: u32) -> (i: usize)
        requires
            self.wf(),
            x < self.width,
            y < self.height,
        ensures
            i == cell(self.width as int, x as int, y as int),
            i < self.levels@.len(),
    {
        proof {
            lemma_cell(self.width as int, self.height as int, x as int, y as int);
            assert(self.levels.len() == self.levels@.len());
        }
        y as usize * self.width as usize + x as usize
    }

    /// The level at a coordinate of the image.
    pub fn level(&self, x: u32, y: u32) -> (level: u8)
        requires
            self.wf(),
            x < self@.width,
            y < self@.height,
        ensures
            level == self@.level(x as int, y as int),
    {
        self.levels[self.index(x, y)]
    }

    /// Puts ink of opacity `alpha` on the rectangle at `(x, y)`, moved left by
    /// `x_offset` and down by `y_offset`. What lies outside the image is left
    /// out, and no pixel gets lighter.
    pub fn draw_ink(
        &mut self,
        x: i32,
        y: i32,
        width: u32,
        height: u32,
        alpha: u8,
        x_offset: i32,
        y_offset: i32,
    )
        requires
            old(self).wf(),
        ensures
            final(self).wf(),
            final(self)@.width == old(self)@.width,
            final(self)@.height == old(self)@.height,
            forall|i: int, j: int|
                0 <= i < old(self)@.width && 0 <= j < old(self)@.height
                    ==> #[trigger] final(self)@.level(i, j) == (if (InkRect {
                    x: x - x_offset,
                    y: y + y_offset,
                    width: extent(width),
                    height: extent(height),
                }).covers(i, j) {
                    inked(old(self)@.level(i, j), alpha)
                } else {
                    old(self)@.level(i, j)
                }),
    {
        let ghost rect = InkRect {
            x: x - x_offset,
            y: y + y_offset,
            width: extent(width),
            height: extent(height),
        };
        let ink: u8 = 255 - alpha;
        let (left, right) = clip(x as i64 - x_offset as i64, width, self.width);
        let (top, bottom) = clip(y as i64 + y_offset as i64, height, self.height);
        let mut fy: u32 = top;
        while fy < bottom
            invariant
                top <= fy,
                fy <= bottom || fy == top,
                left < right ==> right <= self.width,
                top < bottom ==> bottom <= self.height,
                ink == 255 - alpha,
                self.wf(),
                self@.width == old(self)@.width,
                self@.height == old(self)@.height,
                forall|i: int, j: int|
                    0 <= i < self@.width && 0 <= j < self@.height ==> #[trigger] self@.level(i, j)
                        == (if left <= i < right && top <= j < fy {
                        inked(old(self)@.level(i, j), alpha)
                    } else {
                        old(self)@.level(i, j)
                    }),
            decreases bottom - fy,
        {
            let mut fx: u32 = left;
            while fx < right
                invariant
                    left <= fx,
                    fx <= right || fx == left,
                    left < right ==> right <= self.width,
                    top <= fy < bottom <= self.height,
                    ink == 255 - alpha,
                    self.wf(),
                    self@.width == old(self)@.width,
                    self@.height == old(self)@.height,
                    forall|i: int, j: int|
                        0 <= i < self@.width && 0 <= j < self@.height ==> #[trigger] self@.level(
                            i,
                            j,
                        ) == (if (left <= i < right && top <= j < fy) || (left <= i < fx && j
                            == fy) {
                            inked(old(self)@.level(i, j), alpha)
                        } else {
                            old(self)@.level(i, j)
                        }),
                decreases right - fx,
            {
                let ghost before = self@;
                let at: usize = self.index(fx, fy);
                let level: u8 = self.levels[at];
                assert(level == self@.level(fx as int, fy as int));
                if ink < level {
                    self.levels.set(at, ink);
                }
                assert forall|i: int, j: int|
                    0 <= i < self@.width && 0 <= j < self@.height implies #[trigger] self@.level(
                    i,
                    j,
                ) == (if i == fx && j == fy {
                    inked(before.level(i, j), alpha)
                } else {
                    before.level(i, j)
                }) by {
                    lemma_cell(self.width as int, self.height as int, fx as int, fy as int);
                    lemma_cell(self.width as int, self.height as int, i, j);
                    assert(cell(self.width as int, i, j) == at ==> i == fx && j == fy);
                }
                fx = fx + 1;
            }
            fy = fy + 1;
        }
        assert forall|i: int, j: int|
            0 <= i < self@.width && 0 <= j < self@.height implies #[trigger] self@.level(i, j) == (
        if rect.covers(i, j) {
            inked(old(self)@.level(i, j), alpha)
        } else {
            old(self)@.level(i, j)
        }) by {
            assert((left <= i < right && top <= j < bottom) == rect.covers(i, j));
        }
    }
}

/// `n` moved into `0..=limit`.
spec fn clamped(n: int, limit: int) -> int {
    if n <= 0 {
        0
    } else if n >= limit {
        limit
    } else {
        n
    }
}

/// The part of `0..limit` that a run of `run` steps from `start` covers.
fn clip(start: i64, run: u32, limit: u32) -> (range: (u32, u32))
    requires
        -0x1_0000_0000 <= start <= 0x1_0000_0000,
    ensures
        range.0 == clamped(start as int, limit as int),
        range.1 == clamped(start + extent(run), limit as int),
{
    let steps: i64 = if run <= 0x7fff_ffff {
        run as i64
    } else {
        0
    };
    let end: i64 = start + steps;
    let from: u32 = if start <= 0 {
        0
    } else if start >= limit as i64 {
        limit
    } else {
        start as u32
    };
    let to: u32 = if end <= 0 {
        0
    } else if end >= limit as i64 {
        limit
    } else {
        end as u32
    };
    (from, to)
}

/// Longest side of an image that the filter is given. Up to this length the
/// coordinates that the filter computes are off by less than half a pixel, so
/// that each output pixel has source pixels under it.
pub const MAX_RESIZE_SIDE: u32 = 0x10_0000;

/// Whether an image can be resized. One that keeps its size is copied. Otherwise
/// the new image has to fit into memory and, where there is anything to filter,
/// the sides are bounded and the four 32-bit samples fit that the filter keeps
/// for each pixel between its two passes.
pub open spec fn resizable(image: GrayImage, width: int, height: int) -> bool {
    ||| width == image.width && height == image.height
    ||| {
        &&& width * height <= isize::MAX
        &&& image.width == 0 || image.height == 0 || {
            &&& image.width <= MAX_RESIZE_SIDE
            &&& image.height <= MAX_RESIZE_SIDE
            &&& 16 * image.width * height <= isize::MAX
        }
    }
}

/// The levels of an image of `width` times `height` pixels at another size, by a
/// triangle filter.
pub uninterp spec fn triangle_resized(
    levels: Seq<u8>,
    width: nat,
    height: nat,
    new_width: nat,
    new_height: nat,
) -> Seq<u8>;

/// Calls `image::imageops::resize` with `FilterType::Triangle` on an 8-bit gray
/// image. The result depends on nothing but the pixels and the two sizes, has
/// the new size, and is the image itself where the size stays the same.
#[verifier::external_body]
fn resize_levels(levels: &Vec<u8>, width: u32, height: u32, new_width: u32, new_height: u32) -> (r:
    Vec<u8>)
    requires
        levels@.len() == width * height,
        resizable(
            (GrayImage { width: width as nat, height: height as nat, levels: levels@ }),
            new_width as int,
            new_height as int,
        ),
    ensures
        r@ == triangle_resized(
            levels@,
            width as nat,
            height as nat,
            new_width as nat,
            new_height as nat,
        ),
        r@.len() == new_width * new_height,
        new_width == width && new_height == height ==> r@ == levels@,
{
    let source = image::GrayImage::from_raw(width, height, levels.clone()).unwrap();
    let filter = image::imageops::FilterType::Triangle;
    image::imageops::resize(&source, new_width, new_height, filter).into_raw()
}

impl GrayImage {
    /// The image at another size.
    pub open spec fn resized(self, width: nat, height: nat) -> GrayImage {
        GrayImage {
            width,
            height,
            levels: triangle_resized(self.levels, self.width, self.height, width, height),
        }
    }
}

impl GrayCanvas {
    /// Whether the image can be resized.
    pub fn can_be_resized(&self, width: u32, height: u32) -> (possible: bool)
        requires
            self.wf(),
        ensures
            possible == resizable(self@, width as int, height as int),
    {
        if width == self.width && height == self.height {
            return true;
        }
        let limit: u128 = isize::MAX as u128;
        proof {
            assert(0 <= width * height <= u32::MAX * u32::MAX) by (nonlinear_arith)
                requires
                    0 <= width <= u32::MAX,
                    0 <= height <= u32::MAX,
            ;
            assert(0 <= 16 * self.width * height <= 16 * u32::MAX * u32::MAX) by (nonlinear_arith)
                requires
                    0 <= self.width <= u32::MAX,
                    0 <= height <= u32::MAX,
            ;
        }
        if width as u128 * height as u128 > limit {
            return false;
        }
        if self.width == 0 || self.height == 0 {
            return true;
        }
        self.width <= MAX_RESIZE_SIDE && self.height <= MAX_RESIZE_SIDE && 16 * self.width as u128
            * height as u128 <= limit
    }

    /// The image at another size, by a triangle filter.
    pub fn resized(&self, width: u32, height: u32) -> (image: GrayCanvas)
        requires
            self.wf(),
            resizable(self@, width as int, height as int),
        ensures
            image.wf(),
            image@ == self@.resized(width as nat, height as nat),
            width == self@.width && height == self@.height ==> image@ == self@,
    {
        let levels: Vec<u8> = resize_levels(&self.levels, self.width, self.height, width, height);
        GrayCanvas { width, height, levels }
    }
}

} // verus!
