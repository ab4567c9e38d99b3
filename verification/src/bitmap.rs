//! One-bit pixel images.

use vstd::prelude::*;

use crate::gray::{GrayCanvas, GrayImage};

verus! {

/// A one-bit image: its size and the coordinates of its dark pixels, counted
/// from the top left corner.
#[verifier::ext_equal]
pub struct Raster {
    pub width: nat,
    pub height: nat,
    pub dark: Set<(int, int)>,
}

impl Raster {
    /// Whether a coordinate lies in the image.
    pub open spec fn covers(self, x: int, y: int) -> bool {
        0 <= x < self.width && 0 <= y < self.height
    }

    /// An image without a dark pixel.
    pub open spec fn blank(width: nat, height: nat) -> Raster {
        Raster { width, height, dark: Set::empty() }
    }

    /// The image with left and right, or top and bottom, exchanged.
    pub open spec fn mirrored(self, flip_h: bool, flip_v: bool) -> Raster {
        Raster {
            dark: Set::new(
                |p: (int, int)|
                    self.covers(p.0, p.1) && self.dark.contains(
                        (
                            if flip_h {
                                self.width - 1 - p.0
                            } else {
                                p.0
                            },
                            if flip_v {
                                self.height - 1 - p.1
                            } else {
                                p.1
                            },
                        ),
                    ),
            ),
            ..self
        }
    }

    /// The image at another size: each pixel takes the color of the source pixel
    /// at its place.
    pub open spec fn resized(self, width: nat, height: nat) -> Raster {
        Raster {
            width,
            height,
            dark: Set::new(
                |p: (int, int)|
                    0 <= p.0 < width && 0 <= p.1 < height && self.dark.contains(
                        (p.0 * self.width / width as int, p.1 * self.height / height as int),
                    ),
            ),
        }
    }

    /// The image with the dark pixels of `source` added, `source` lying with its
    /// corner at `(x, y)`. What would lie outside is left out.
    pub open spec fn overlaid(self, source: Raster, x: int, y: int) -> Raster {
        Raster {
            dark: Set::new(
                |p: (int, int)|
                    self.dark.contains(p) || (self.covers(p.0, p.1) && source.dark.contains(
                        (p.0 - x, p.1 - y),
                    )),
            ),
            ..self
        }
    }
}

/// The image in which the gray levels up to `threshold` are dark.
pub open spec fn thresholded(image: GrayImage, threshold: u8) -> Raster {
    Raster {
        width: image.width,
        height: image.height,
        dark: Set::new(
            |p: (int, int)|
                0 <= p.0 < image.width && 0 <= p.1 < image.height && image.level(p.0, p.1)
                    <= threshold,
        ),
    }
}

/// The dark pixels of `whole` that come before `(x, y)` when rows are drawn from
/// the top and each from the left.
pub open spec fn dark_before(whole: Raster, x: int, y: int) -> Set<(int, int)> {
    Set::new(
        |p: (int, int)| whole.dark.contains(p) && (p.1 < y || (p.1 == y && p.0 < x)),
    )
}

/// A one-bit image.
#[derive(Debug)]
pub struct LabelBitmap {
    width: u32,
    height: u32,
    pixels: Vec<bool>,
}

/// Where the pixel at `(x, y)` stands in a list of rows of `width` pixels.
pub open spec fn cell(width: int, x: int, y: int) -> int {
    y * width + x
}

/// The cells of a grid are distinct, and are those of the list.
pub proof fn lemma_cell(width: int, height: int, x: int, y: int)
    requires
        0 <= x < width,
        0 <= y < height,
    ensures
        0 <= cell(width, x, y) < width * height,
        0 <= y * width <= (height - 1) * width,
        (height - 1) * width == height * width - width,
        forall|x2: int, y2: int|
            0 <= x2 < width && 0 <= y2 < height && #[trigger] cell(width, x2, y2) == cell(
                width,
                x,
                y,
            ) ==> x2 == x && y2 == y,
{
    assert(0 <= y * width <= (height - 1) * width) by (nonlinear_arith)
        requires
            0 <= y <= height - 1,
            0 <= width,
    ;
    assert((height - 1) * width == height * width - width) by (nonlinear_arith);
    assert(height * width == width * height) by (nonlinear_arith);
    assert forall|x2: int, y2: int|
        0 <= x2 < width && 0 <= y2 < height && #[trigger] cell(width, x2, y2) == cell(
            width,
            x,
            y,
        ) implies x2 == x && y2 == y by {
        vstd::arithmetic::div_mod::lemma_fundamental_div_mod_converse(
            cell(width, x, y),
            width,
            y,
            x,
        );
        vstd::arithmetic::div_mod::lemma_fundamental_div_mod_converse(
            cell(width, x2, y2),
            width,
            y2,
            x2,
        );
    }
}

impl View for LabelBitmap {
    type V = Raster;

    closed spec fn view(&self) -> Raster {
        Raster {
            width: self.width as nat,
            height: self.height as nat,
            dark: Set::new(
                |p: (int, int)|
                    0 <= p.0 < self.width && 0 <= p.1 < self.height && self.pixels@[cell(
                        self.width as int,
                        p.0,
                        p.1,
                    )],
            ),
        }
    }
}

impl LabelBitmap {
    /// The list holds as many pixels as the size says.
    pub closed spec fn wf(&self) -> bool {
        self.pixels@.len() == self.width * self.height
    }

    /// What the model shows of every image.
    pub proof fn lemma_view(&self)
        ensures
            self@.width <= u32::MAX,
            self@.height <= u32::MAX,
            forall|p: (int, int)| #[trigger] self@.dark.contains(p) ==> self@.covers(p.0, p.1),
    {
    }

    /// An image without a dark pixel.
    pub fn new(width: u32, height: u32) -> (bitmap: LabelBitmap)
        ensures
            bitmap.wf(),
            bitmap@ == Raster::blank(width as nat, height as nat),
    {
        let mut pixels: Vec<bool> = Vec::new();
        let mut y: u32 = 0;
        assert(0 == 0 * width as int) by (nonlinear_arith);
        while y < height
            invariant
                y <= height,
                pixels@.len() == y * width,
                forall|i: int| 0 <= i < pixels@.len() ==> !pixels@[i],
            decreases height - y,
        {
            let mut x: u32 = 0;
            while x < width
                invariant
                    x <= width,
                    pixels@.len() == y * width + x,
                    forall|i: int| 0 <= i < pixels@.len() ==> !pixels@[i],
                decreases width - x,
            {
                pixels.push(false);
                x = x + 1;
            }
            assert(y * width + width == (y + 1) * width) by (nonlinear_arith);
            y = y + 1;
        }
        assert(width * height == height * width) by (nonlinear_arith);
        let bitmap = LabelBitmap { width, height, pixels };
        assert(bitmap@ =~= Raster::blank(width as nat, height as nat)) by {
            assert forall|p: (int, int)| !bitmap@.dark.contains(p) by {
                if 0 <= p.0 < width && 0 <= p.1 < height {
                    lemma_cell(width as int, height as int, p.0, p.1);
                }
            }
        }
        bitmap
    }

    /// Number of columns.
    pub fn width(&self) -> (width: u32)
        ensures
            width == self@.width,
    {
        self.width
    }

    /// Number of rows.
    pub fn height(&self) -> (height: u32)
        ensures
            height == self@.height,
    {
        self.height
    }

    /// Where a pixel of the image stands in the list.
    fn index(&self, x: u32, y: u32) -> (i: usize)
        requires
            self.wf(),
            x < self.width,
            y < self.height,
        ensures
            i == cell(self.width as int, x as int, y as int),
            i < self.pixels@.len(),
    {
        proof {
            lemma_cell(self.width as int, self.height as int, x as int, y as int);
            assert(self.pixels.len() == self.pixels@.len());
        }
        y as usize * self.width as usize + x as usize
    }

    /// Whether the pixel at `(x, y)` is dark; outside the image none is.
    pub fn get_pixel(&self, x: u32, y: u32) -> (dark: bool)
        requires
            self.wf(),
        ensures
            dark == self@.dark.contains((x as int, y as int)),
    {
        if x >= self.width || y >= self.height {
            return false;
        }
        self.pixels[self.index(x, y)]
    }

    /// Colors the pixel at `(x, y)`; outside the image nothing happens.
    pub fn set_pixel(&mut self, x: u32, y: u32, dark: bool)
        requires
            old(self).wf(),
        ensures
            final(self).wf(),
            final(self)@ == (Raster {
                dark: if !old(self)@.covers(x as int, y as int) {
                    old(self)@.dark
                } else if dark {
                    old(self)@.dark.insert((x as int, y as int))
                } else {
                    old(self)@.dark.remove((x as int, y as int))
                },
                ..old(self)@
            }),
    {
        if x < self.width && y < self.height {
            let i: usize = self.index(x, y);
            self.pixels.set(i, dark);
            assert forall|p: (int, int)|
                self@.dark.contains(p) == (if p == (x as int, y as int) {
                    dark
                } else {
                    old(self)@.dark.contains(p)
                }) by {
                if 0 <= p.0 < self.width && 0 <= p.1 < self.height {
                    lemma_cell(self.width as int, self.height as int, x as int, y as int);
                    lemma_cell(self.width as int, self.height as int, p.0, p.1);
                    assert(cell(self.width as int, p.0, p.1) == i ==> p.0 == x && p.1 == y);
                }
            }
        }
        assert(self@ =~= (Raster {
            dark: if !old(self)@.covers(x as int, y as int) {
                old(self)@.dark
            } else if dark {
                old(self)@.dark.insert((x as int, y as int))
            } else {
                old(self)@.dark.remove((x as int, y as int))
            },
            ..old(self)@
        }));
    }

    /// Goes one pixel on while drawing `whole` from the top left.
    fn draw_next(&mut self, x: u32, y: u32, dark: bool, Ghost(whole): Ghost<Raster>)
        requires
            old(self).wf(),
            old(self)@.width == whole.width,
            old(self)@.height == whole.height,
            x < whole.width,
            y < whole.height,
            old(self)@.dark == dark_before(whole, x as int, y as int),
            dark == whole.dark.contains((x as int, y as int)),
        ensures
            final(self).wf(),
            final(self)@.width == whole.width,
            final(self)@.height == whole.height,
            final(self)@.dark == dark_before(whole, x + 1, y as int),
    {
        if dark {
            self.set_pixel(x, y, true);
        }
        assert(self@.dark =~= dark_before(whole, x + 1, y as int));
    }

    /// The image with left and right, or top and bottom, exchanged.
    pub fn mirrored(&self, flip_h: bool, flip_v: bool) -> (bitmap: LabelBitmap)
        requires
            self.wf(),
        ensures
            bitmap.wf(),
            bitmap@ == self@.mirrored(flip_h, flip_v),
    {
        let ghost whole = self@.mirrored(flip_h, flip_v);
        let mut bitmap = LabelBitmap::new(self.width, self.height);
        let mut y: u32 = 0;
        assert(bitmap@.dark =~= dark_before(whole, 0, 0));
        while y < self.height
            invariant
                y <= self.height,
                self.wf(),
                whole == self@.mirrored(flip_h, flip_v),
                bitmap.wf(),
                bitmap@.width == whole.width,
                bitmap@.height == whole.height,
                bitmap@.dark == dark_before(whole, 0, y as int),
            decreases self.height - y,
        {
            let mut x: u32 = 0;
            while x < self.width
                invariant
                    x <= self.width,
                    y < self.height,
                    self.wf(),
                    whole == self@.mirrored(flip_h, flip_v),
                    bitmap.wf(),
                    bitmap@.width == whole.width,
                    bitmap@.height == whole.height,
                    bitmap@.dark == dark_before(whole, x as int, y as int),
                decreases self.width - x,
            {
                let from_x: u32 = if flip_h {
                    self.width - 1 - x
                } else {
                    x
                };
                let from_y: u32 = if flip_v {
                    self.height - 1 - y
                } else {
                    y
                };
                let dark: bool = self.get_pixel(from_x, from_y);
                bitmap.draw_next(x, y, dark, Ghost(whole));
                x = x + 1;
            }
            assert(dark_before(whole, self.width as int, y as int) =~= dark_before(
                whole,
                0,
                y + 1,
            ));
            y = y + 1;
        }
        assert(bitmap@ =~= whole);
        bitmap
    }

    /// The image at another size, by the nearest source pixel.
    pub fn scale_to_size(&self, width: u32, height: u32) -> (bitmap: LabelBitmap)
        requires
            self.wf(),
        ensures
            bitmap.wf(),
            bitmap@ == self@.resized(width as nat, height as nat),
    {
        let ghost whole = self@.resized(width as nat, height as nat);
        let mut bitmap = LabelBitmap::new(width, height);
        let mut y: u32 = 0;
        assert(bitmap@.dark =~= dark_before(whole, 0, 0));
        while y < height
            invariant
                y <= height,
                self.wf(),
                whole == self@.resized(width as nat, height as nat),
                bitmap.wf(),
                bitmap@.width == whole.width,
                bitmap@.height == whole.height,
                bitmap@.dark == dark_before(whole, 0, y as int),
            decreases height - y,
        {
            let mut x: u32 = 0;
            while x < width
                invariant
                    x <= width,
                    y < height,
                    self.wf(),
                    whole == self@.resized(width as nat, height as nat),
                    bitmap.wf(),
                    bitmap@.width == whole.width,
                    bitmap@.height == whole.height,
                    bitmap@.dark == dark_before(whole, x as int, y as int),
                decreases width - x,
            {
                let from_x: u32 = nearest(x, self.width, width);
                let from_y: u32 = nearest(y, self.height, height);
                let dark: bool = self.get_pixel(from_x, from_y);
                bitmap.draw_next(x, y, dark, Ghost(whole));
                x = x + 1;
            }
            assert(dark_before(whole, width as int, y as int) =~= dark_before(whole, 0, y + 1));
            y = y + 1;
        }
        assert(bitmap@ =~= whole);
        bitmap
    }

    /// The one-bit image of a gray one: levels up to `threshold` are dark.
    pub fn from_gray_image(image: &GrayCanvas, threshold: u8) -> (bitmap: LabelBitmap)
        requires
            image.wf(),
        ensures
            bitmap.wf(),
            bitmap@ == thresholded(image@, threshold),
    {
        let ghost whole = thresholded(image@, threshold);
        let width: u32 = image.width();
        let height: u32 = image.height();
        let mut bitmap = LabelBitmap::new(width, height);
        let mut y: u32 = 0;
        assert(bitmap@.dark =~= dark_before(whole, 0, 0));
        while y < height
            invariant
                y <= height,
                image.wf(),
                width == image@.width,
                height == image@.height,
                whole == thresholded(image@, threshold),
                bitmap.wf(),
                bitmap@.width == whole.width,
                bitmap@.height == whole.height,
                bitmap@.dark == dark_before(whole, 0, y as int),
            decreases height - y,
        {
            let mut x: u32 = 0;
            while x < width
                invariant
                    x <= width,
                    y < height,
                    image.wf(),
                    width == image@.width,
                    height == image@.height,
                    whole == thresholded(image@, threshold),
                    bitmap.wf(),
                    bitmap@.width == whole.width,
                    bitmap@.height == whole.height,
                    bitmap@.dark == dark_before(whole, x as int, y as int),
                decreases width - x,
            {
                let dark: bool = image.level(x, y) <= threshold;
                bitmap.draw_next(x, y, dark, Ghost(whole));
                x = x + 1;
            }
            assert(dark_before(whole, width as int, y as int) =~= dark_before(whole, 0, y + 1));
            y = y + 1;
        }
        assert(bitmap@ =~= whole);
        bitmap
    }
}

/// The source coordinate of a pixel in a scaled image.
fn nearest(at: u32, from: u32, to: u32) -> (source: u32)
    requires
        at < to,
    ensures
        source == at * from / to as int,
{
    proof {
        assert(0 <= at * from <= u32::MAX * u32::MAX) by (nonlinear_arith)
            requires
                0 <= at <= u32::MAX,
                0 <= from <= u32::MAX,
        ;
        assert(at * from / to as int <= u32::MAX) by (nonlinear_arith)
            requires
                0 <= at < to,
                0 <= from <= u32::MAX,
        ;
    }
    (at as u64 * from as u64 / to as u64) as u32
}

impl Clone for LabelBitmap {
    fn clone(&self) -> (bitmap: Self)
        ensures
            bitmap@ == self@,
            self.wf() ==> bitmap.wf(),
    {
        let bitmap = LabelBitmap {
            width: self.width,
            height: self.height,
            pixels: self.pixels.clone(),
        };
        assert(bitmap.pixels@ =~= self.pixels@);
        bitmap
    }
}

} // verus!
