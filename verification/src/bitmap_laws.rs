//! What holds of every image that is scaled, mirrored, put together or cut from
//! gray levels.

use vstd::arithmetic::div_mod::{lemma_fundamental_div_mod, lemma_fundamental_div_mod_converse};
use vstd::prelude::*;

use crate::bitmap::{cell, thresholded, LabelBitmap, Raster};
use crate::gray::{extent, inked, resizable, GrayImage};

verus! {

/// A scaled coordinate comes from the source coordinate that it lies over.
proof fn lemma_over(x: int, to: int, from: int, source: int)
    requires
        0 <= x < to,
        source * to <= x * from < (source + 1) * to,
    ensures
        x * from / to == source,
{
    assert((source + 1) * to == source * to + to) by (nonlinear_arith);
    lemma_fundamental_div_mod_converse(x * from, to, source, x * from - source * to);
}

/// A scaled image shows the whole source: a pixel has the color of the source
/// pixel that its upper left corner lies over when both images are drawn at the
/// same size, whether the image grows or shrinks.
pub proof fn law_scaled_pixels_show_what_they_lie_over(
    image: Raster,
    width: nat,
    height: nat,
    x: int,
    y: int,
    source_x: int,
    source_y: int,
)
    requires
        0 <= x < width,
        0 <= y < height,
        source_x * width <= x * image.width < (source_x + 1) * width,
        source_y * height <= y * image.height < (source_y + 1) * height,
    ensures
        image.resized(width, height).width == width,
        image.resized(width, height).height == height,
        image.resized(width, height).dark.contains((x, y)) == image.dark.contains(
            (source_x, source_y),
        ),
{
    lemma_over(x, width as int, image.width as int, source_x);
    lemma_over(y, height as int, image.height as int, source_y);
}

/// A scaled image has no dark pixel outside.
pub proof fn law_scaled_images_stay_inside(image: Raster, width: nat, height: nat, p: (int, int))
    requires
        image.resized(width, height).dark.contains(p),
    ensures
        0 <= p.0 < width,
        0 <= p.1 < height,
{
}

/// An image that is shrunk by whole factors keeps the first pixel of each part.
pub proof fn law_shrinking_keeps_the_picture_whole(
    image: Raster,
    width: nat,
    height: nat,
    columns: int,
    rows: int,
    x: int,
    y: int,
)
    requires
        0 < columns,
        0 < rows,
        image.width == columns * width,
        image.height == rows * height,
        0 <= x < width,
        0 <= y < height,
    ensures
        image.resized(width, height).dark.contains((x, y)) == image.dark.contains(
            (columns * x, rows * y),
        ),
{
    let (w, h) = (width as int, height as int);
    assert((columns * x) * w <= x * (columns * w) < (columns * x + 1) * w) by (nonlinear_arith)
        requires
            0 < w,
    ;
    assert((rows * y) * h <= y * (rows * h) < (rows * y + 1) * h) by (nonlinear_arith)
        requires
            0 < h,
    ;
    law_scaled_pixels_show_what_they_lie_over(image, width, height, x, y, columns * x, rows * y);
}

/// An image that grows by whole factors shows each pixel as a rectangle.
pub proof fn law_growing_repeats_each_pixel(
    image: Raster,
    columns: int,
    rows: int,
    source_x: int,
    source_y: int,
    dx: int,
    dy: int,
)
    requires
        0 <= dx < columns,
        0 <= dy < rows,
        0 <= source_x < image.width,
        0 <= source_y < image.height,
    ensures
        image.resized((columns * image.width) as nat, (rows * image.height) as nat).dark.contains(
            (source_x * columns + dx, source_y * rows + dy),
        ) == image.dark.contains((source_x, source_y)),
{
    let (w, h) = (image.width as int, image.height as int);
    let (x, y) = (source_x * columns + dx, source_y * rows + dy);
    assert(0 <= x < columns * w && source_x * (columns * w) <= x * w < (source_x + 1) * (columns
        * w)) by (nonlinear_arith)
        requires
            0 <= dx < columns,
            0 <= source_x < w,
            x == source_x * columns + dx,
    ;
    assert(0 <= y < rows * h && source_y * (rows * h) <= y * h < (source_y + 1) * (rows * h))
        by (nonlinear_arith)
        requires
            0 <= dy < rows,
            0 <= source_y < h,
            y == source_y * rows + dy,
    ;
    law_scaled_pixels_show_what_they_lie_over(
        image,
        (columns * w) as nat,
        (rows * h) as nat,
        x,
        y,
        source_x,
        source_y,
    );
}

/// At its own size an image stays as it is.
pub proof fn law_the_same_size_changes_nothing(bitmap: LabelBitmap)
    ensures
        bitmap@.resized(bitmap@.width, bitmap@.height) == bitmap@,
{
    let image = bitmap@;
    bitmap.lemma_view();
    assert forall|p: (int, int)|
        image.resized(image.width, image.height).dark.contains(p) == image.dark.contains(p) by {
        if 0 <= p.0 < image.width && 0 <= p.1 < image.height {
            let (w, h) = (image.width as int, image.height as int);
            assert((p.0 + 1) * w == p.0 * w + w) by (nonlinear_arith);
            assert((p.1 + 1) * h == p.1 * h + h) by (nonlinear_arith);
            law_scaled_pixels_show_what_they_lie_over(
                image,
                image.width,
                image.height,
                p.0,
                p.1,
                p.0,
                p.1,
            );
        }
    }
    assert(image.resized(image.width, image.height) =~= image);
}

/// The source coordinate that a scaled coordinate lies over is one of the image.
proof fn lemma_lies_over(at: int, to: int, from: int)
    requires
        0 <= at < to,
        0 < from,
    ensures
        0 <= at * from / to < from,
        (at * from / to) * to <= at * from < (at * from / to + 1) * to,
{
    let q = at * from / to;
    lemma_fundamental_div_mod(at * from, to);
    assert(to * q == q * to) by (nonlinear_arith);
    assert((q + 1) * to == q * to + to) by (nonlinear_arith);
    assert(0 <= at * from < to * from) by (nonlinear_arith)
        requires
            0 <= at < to,
            0 < from,
    ;
    assert(q >= 0) by (nonlinear_arith)
        requires
            at * from < (q + 1) * to,
            0 <= at * from,
            0 < to,
    ;
    assert(q < from) by (nonlinear_arith)
        requires
            q * to <= at * from,
            at * from < to * from,
            0 < to,
    ;
}

/// The part of a picture to the right of a column, and below a row, stays there
/// when the picture is scaled: where it is all of one color, so is the same part
/// of the result, up to its last column and row.
pub proof fn law_parts_keep_their_place(
    image: Raster,
    width: nat,
    height: nat,
    column: int,
    row: int,
    color: bool,
    x: int,
    y: int,
)
    requires
        0 < image.width,
        0 < image.height,
        0 <= x < width,
        0 <= y < height,
        column * width <= x * image.width,
        row * height <= y * image.height,
        forall|sx: int, sy: int|
            column <= sx && row <= sy && image.covers(sx, sy) ==> #[trigger] image.dark.contains(
                (sx, sy),
            ) == color,
    ensures
        image.resized(width, height).dark.contains((x, y)) == color,
{
    let (w, h) = (width as int, height as int);
    let (sx, sy) = (x * image.width / w, y * image.height / h);
    lemma_lies_over(x, w, image.width as int);
    lemma_lies_over(y, h, image.height as int);
    assert(column <= sx) by (nonlinear_arith)
        requires
            column * w <= x * image.width,
            x * image.width < (sx + 1) * w,
            0 < w,
    ;
    assert(row <= sy) by (nonlinear_arith)
        requires
            row * h <= y * image.height,
            y * image.height < (sy + 1) * h,
            0 < h,
    ;
    law_scaled_pixels_show_what_they_lie_over(image, width, height, x, y, sx, sy);
    assert(image.covers(sx, sy));
}

/// Mirroring left-right exchanges the first column with the last and keeps the
/// rows; mirroring top-bottom exchanges the first row with the last and keeps the
/// columns; without either nothing moves.
pub proof fn law_mirroring_exchanges_the_sides(image: Raster, x: int, y: int)
    requires
        image.covers(x, y),
    ensures
        image.mirrored(true, false).dark.contains((image.width - 1 - x, y))
            == image.dark.contains((x, y)),
        image.mirrored(false, true).dark.contains((x, image.height - 1 - y))
            == image.dark.contains((x, y)),
        image.mirrored(true, true).dark.contains((image.width - 1 - x, image.height - 1 - y))
            == image.dark.contains((x, y)),
        image.mirrored(false, false).dark.contains((x, y)) == image.dark.contains((x, y)),
{
}

/// Mirroring keeps the size of an image and puts nothing outside.
pub proof fn law_mirrored_images_stay_inside(image: Raster, flip_h: bool, flip_v: bool)
    ensures
        image.mirrored(flip_h, flip_v).width == image.width,
        image.mirrored(flip_h, flip_v).height == image.height,
        forall|p: (int, int)| #[trigger]
            image.mirrored(flip_h, flip_v).dark.contains(p) ==> image.covers(p.0, p.1),
{
}

/// Laying an image over another moves its corner to the given place, adds its
/// dark pixels and takes none away; where the two do not meet nothing changes.
pub proof fn law_overlaying_adds_ink(below: Raster, above: Raster, x: int, y: int, p: (int, int))
    ensures
        below.overlaid(above, x, y).width == below.width,
        below.overlaid(above, x, y).height == below.height,
        below.dark.contains(p) ==> below.overlaid(above, x, y).dark.contains(p),
        below.covers(p.0 + x, p.1 + y) && above.dark.contains(p) ==> below.overlaid(
            above,
            x,
            y,
        ).dark.contains((p.0 + x, p.1 + y)),
        !below.dark.contains((p.0 + x, p.1 + y)) && !above.dark.contains(p) ==> !below.overlaid(
            above,
            x,
            y,
        ).dark.contains((p.0 + x, p.1 + y)),
        !below.covers(p.0, p.1) && !below.dark.contains(p) ==> !below.overlaid(
            above,
            x,
            y,
        ).dark.contains(p),
{
}

/// The darker of two gray levels is printed where the lighter one is, and black
/// always is, white only at the highest threshold.
pub proof fn law_dark_levels_are_printed(image: GrayImage, threshold: u8, x: int, y: int)
    requires
        0 <= x < image.width,
        0 <= y < image.height,
    ensures
        ({
            let level = image.levels[y * image.width + x];
            let printed = thresholded(image, threshold).dark.contains((x, y));
            &&& thresholded(image, threshold).width == image.width
            &&& thresholded(image, threshold).height == image.height
            &&& level == threshold ==> printed
            &&& level < threshold ==> printed
            &&& level > threshold ==> !printed
        }),
        forall|p: (int, int)| #[trigger]
            thresholded(image, threshold).dark.contains(p) ==> 0 <= p.0 < image.width && 0 <= p.1
                < image.height,
{
}

/// Ink of an opacity leaves a level no lighter than the rest of the paper's white,
/// and keeps what is darker.
pub proof fn law_ink_only_darkens(level: u8, alpha: u8)
    ensures
        inked(level, alpha) <= level,
        inked(level, alpha) + alpha <= 255,
        inked(level, alpha) == level || inked(level, alpha) + alpha == 255,
{
}

/// An extent counts for what it is wherever it can be stepped through.
pub proof fn law_extents_count_in_full(n: u32)
    ensures
        n <= 0x7fff_ffff ==> extent(n) == n,
        n > 0x7fff_ffff ==> extent(n) == 0,
{
}

/// The pixels of a row follow each other, and the rows follow each other.
pub proof fn law_rows_follow_each_other(width: int, x: int, y: int)
    ensures
        cell(width, 0, 0) == 0,
        cell(width, x + 1, y) == cell(width, x, y) + 1,
        cell(width, x, y + 1) == cell(width, x, y) + width,
{
    assert((y + 1) * width == y * width + width) by (nonlinear_arith);
    assert(0 * width == 0) by (nonlinear_arith);
}

/// An image can be resized if it keeps its size, or if the result has few enough
/// pixels to be held and the image is empty, or neither side of it is longer than
/// 2 to the power of 20 and the samples of one pass can be held.
pub proof fn law_which_images_can_be_resized(image: GrayImage, width: int, height: int)
    ensures
        width == image.width && height == image.height ==> resizable(image, width, height),
        width * height <= isize::MAX && (image.width == 0 || image.height == 0) ==> resizable(
            image,
            width,
            height,
        ),
        width * height <= isize::MAX && image.width <= 1048576 && image.height <= 1048576 && 16
            * image.width * height <= isize::MAX ==> resizable(image, width, height),
        resizable(image, width, height) && !(width == image.width && height == image.height)
            ==> width * height <= isize::MAX,
{
}

/// An image that nothing was drawn on has its size and is all light.
pub proof fn law_new_images_are_light(width: nat, height: nat, p: (int, int))
    ensures
        Raster::blank(width, height).width == width,
        Raster::blank(width, height).height == height,
        !Raster::blank(width, height).dark.contains(p),
{
}

/// An image covers its first pixel and its last, and nothing beyond.
pub proof fn law_images_cover_their_size(image: Raster, x: int, y: int)
    ensures
        image.covers(x, y) <==> x >= 0 && y >= 0 && x + 1 <= image.width && y + 1 <= image.height,
{
}

} // verus!
