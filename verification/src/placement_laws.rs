//! What holds of the places and the ink of the elements of a label.

use vstd::arithmetic::div_mod::{lemma_fundamental_div_mod, lemma_fundamental_div_mod_converse};
use vstd::prelude::*;

use crate::bitmap::Raster;
use crate::bitmap_laws::law_scaled_pixels_show_what_they_lie_over;
use crate::document::{ElementModel, LabelDocument, LayoutMode};
use crate::error::{RenderError, RenderFault};
use crate::gray::{resizable, GrayCanvas, GrayImage};
use crate::layout::{
    asks_for_text, element_ink, given_coordinate, image_size, is_empty_text, kind_name, label_job,
    lemma_first_fault, lemma_right_edge, lemma_slot, logical_bounds, raster_slot, rotation_fault,
    scaled_edge, target_edge, ElementBounds, Job, LabelModel, RenderedLabel, StandardTarget,
};
use crate::layout_laws::{law_whole_factors_are_exact, lemma_no_fault};
use crate::message::decimal;
use crate::rotation::unrotated;

verus! {

/// A scaled coordinate is the nearest one on the target, the upper one of two that
/// are as near.
pub proof fn law_edges_are_rounded_to_the_nearest(value: int, from_dpi: int, to_dpi: int)
    requires
        0 < from_dpi,
    ensures
        ({
            let off = scaled_edge(value, from_dpi, to_dpi) * from_dpi - value * to_dpi;
            -from_dpi < 2 * off <= from_dpi
        }),
{
    let wide = value * to_dpi + from_dpi / 2;
    lemma_fundamental_div_mod(wide, from_dpi);
    let q = wide / from_dpi;
    assert(from_dpi * q == q * from_dpi) by (nonlinear_arith);
}

/// There is only one nearest coordinate.
pub proof fn law_the_nearest_edge_is_the_scaled_one(
    value: int,
    from_dpi: int,
    to_dpi: int,
    edge: int,
)
    requires
        0 < from_dpi,
        -from_dpi < 2 * (edge * from_dpi - value * to_dpi) <= from_dpi,
    ensures
        scaled_edge(value, from_dpi, to_dpi) == edge,
{
    let wide = value * to_dpi + from_dpi / 2;
    lemma_fundamental_div_mod_converse(wide, from_dpi, edge, wide - edge * from_dpi);
}

/// A coordinate fits the target if it is at most the largest number of 32 bits, and
/// is the nearest there.
pub proof fn law_edges_fit_or_are_refused(value: int, from_dpi: u16, to_dpi: u16)
    requires
        0 < from_dpi,
        0 <= value,
    ensures
        match target_edge(value, from_dpi, to_dpi) {
            Ok(edge) => -from_dpi < 2 * (edge * from_dpi - value * to_dpi) <= from_dpi,
            Err(fault) => fault == RenderFault::Layout(
                "positioned layout dimensions are too large"@,
            ) && 0xffff_ffff < scaled_edge(value, from_dpi as int, to_dpi as int),
        },
{
    law_edges_are_rounded_to_the_nearest(value, from_dpi as int, to_dpi as int);
    assert(0 <= value * to_dpi) by (nonlinear_arith)
        requires
            0 <= value,
            0 <= to_dpi,
    ;
    vstd::arithmetic::div_mod::lemma_div_pos_is_pos(
        value * to_dpi + from_dpi as int / 2,
        from_dpi as int,
    );
}

/// The rectangle of an element reaches along the tape from its left edge to its
/// right edge, by the resolution along the tape, and across it from its upper edge
/// to its lower one, by the resolution across; each edge lies at the nearest dot.
pub proof fn law_rectangles_follow_the_edges(
    bounds: ElementBounds,
    document_dpi: u16,
    target: StandardTarget,
    element_index: int,
    element_kind: Seq<char>,
)
    requires
        document_dpi > 0,
    ensures
        raster_slot(bounds, document_dpi, target, element_index, element_kind) matches Ok(
            (slot, right),
        ) ==> {
            let d = document_dpi as int;
            let (feed, cross) = (target.feed_dpi as int, target.cross_dpi as int);
            &&& right == bounds.x + bounds.width
            &&& -d < 2 * (slot.x * d - bounds.x * feed) <= d
            &&& -d < 2 * ((slot.x + slot.width) * d - (bounds.x + bounds.width) * feed) <= d
            &&& -d < 2 * (slot.y * d - bounds.y * cross) <= d
            &&& -d < 2 * ((slot.y + slot.height) * d - (bounds.y + bounds.height) * cross) <= d
            &&& slot.y + slot.height <= target.tape_width_px
        },
{
    let d = document_dpi as int;
    let (feed, cross) = (target.feed_dpi as int, target.cross_dpi as int);
    lemma_slot(bounds, document_dpi, target, element_index, element_kind);
    law_edges_are_rounded_to_the_nearest(bounds.x as int, d, feed);
    law_edges_are_rounded_to_the_nearest(bounds.x + bounds.width, d, feed);
    law_edges_are_rounded_to_the_nearest(bounds.y as int, d, cross);
    law_edges_are_rounded_to_the_nearest(bounds.y + bounds.height, d, cross);
}

/// At the resolution of the document an element keeps its bounds, if its edges are
/// numbers of 32 bits and its lower edge lies on the tape; otherwise it is refused.
pub proof fn law_equal_resolutions_keep_the_bounds(
    bounds: ElementBounds,
    dpi: u16,
    tape_width_px: u32,
    element_index: int,
    element_kind: Seq<char>,
)
    requires
        dpi > 0,
    ensures
        ({
            let target = StandardTarget { tape_width_px, cross_dpi: dpi, feed_dpi: dpi };
            let placed = raster_slot(bounds, dpi, target, element_index, element_kind);
            &&& placed is Ok <==> bounds.x + bounds.width <= 0xffff_ffff && bounds.y
                + bounds.height <= tape_width_px
            &&& placed matches Ok((slot, right)) ==> slot == bounds && right == bounds.x
                + bounds.width
        }),
{
    let d = dpi as int;
    law_whole_factors_are_exact(bounds.x as int, d, 1);
    law_whole_factors_are_exact(bounds.x + bounds.width, d, 1);
    law_whole_factors_are_exact(bounds.y as int, d, 1);
    law_whole_factors_are_exact(bounds.y + bounds.height, d, 1);
}

/// A picture is as large as it is asked to be. Without a height it is as high as
/// the label; without a width it keeps its shape, to the pixel below, but is never
/// made so thin that it is gone.
pub proof fn law_pictures_keep_their_shape(
    source: Raster,
    target_width: Option<u32>,
    target_height: Option<u32>,
    logical_height: u32,
)
    ensures
        ({
            let (width, height) = image_size(source, target_width, target_height, logical_height);
            &&& target_height matches Some(asked) ==> height == asked
            &&& target_height is None ==> height == logical_height
            &&& target_width matches Some(asked) ==> width == asked
            &&& target_width is None && source.height == 0 ==> width == 0
            &&& target_width is None && source.height > 0 && source.width * height
                < source.height * 2 ==> width == 1
            &&& target_width is None && source.height > 0 && source.height <= source.width * height
                < source.height * 0x1_0000_0000 ==> width * source.height <= source.width * height
                < (width + 1) * source.height
        }),
{
    let height = match target_height {
        Some(height) => height,
        None => logical_height,
    };
    if source.height > 0 {
        let (a, b) = (source.width * height, source.height as int);
        let q = a / b;
        lemma_fundamental_div_mod(a, b);
        assert(0 <= a) by (nonlinear_arith)
            requires
                a == source.width * height,
                0 <= source.width,
                0 <= height,
        ;
        assert(b * q == q * b) by (nonlinear_arith);
        assert((q + 1) * b == q * b + b) by (nonlinear_arith);
        assert(q >= 0 && (a >= b ==> q >= 1) && (a < 2 * b ==> q <= 1) && (a < b * 0x1_0000_0000
            ==> q < 0x1_0000_0000)) by (nonlinear_arith)
            requires
                q * b <= a < q * b + b,
                0 < b,
                0 <= a,
        ;
    }
}

/// The bounds of a picture or a text lie where it says, and are as large as the
/// picture is asked to be or as the text came out; an empty text has no extent.
pub proof fn law_bounds_lie_where_the_element_says(
    element: ElementModel,
    text: Option<Result<GrayImage, RenderFault>>,
    logical_height: u32,
)
    ensures
        logical_bounds(element, text, logical_height) matches Ok(bounds) ==> match element {
            ElementModel::Text { content, x, y, .. } => {
                &&& x == Some(bounds.x)
                &&& y == Some(bounds.y)
                &&& content.len() == 0 ==> bounds.width == 0 && bounds.height == 0
                &&& content.len() > 0 ==> bounds.width == text->0->Ok_0.width as u32
                    && bounds.height == text->0->Ok_0.height as u32
            },
            ElementModel::Image { bitmap, x, y, target_width, target_height, .. } => {
                &&& x == Some(bounds.x)
                &&& y == Some(bounds.y)
                &&& (bounds.width, bounds.height) == image_size(
                    bitmap->0,
                    target_width,
                    target_height,
                    logical_height,
                )
            },
            _ => false,
        },
{
}

/// An element has bounds if it has all that its kind asks for: a text both
/// coordinates and, unless it is empty, a size, a rendering and no rotation; a
/// picture both coordinates, its pixels and no rotation.
pub proof fn law_elements_need_all_their_parts(
    element: ElementModel,
    text: Option<Result<GrayImage, RenderFault>>,
    logical_height: u32,
)
    ensures
        logical_bounds(element, text, logical_height) is Ok <==> match element {
            ElementModel::Text { content, x, y, font_size, rotation, .. } => {
                &&& x is Some
                &&& y is Some
                &&& content.len() > 0 ==> unrotated(rotation) && font_size is Some
                    && text->0 is Ok
            },
            ElementModel::Image { bitmap, x, y, rotation, .. } => {
                &&& x is Some
                &&& y is Some
                &&& bitmap is Some
                &&& unrotated(rotation)
            },
            ElementModel::CutMark => false,
            ElementModel::Padding { .. } => false,
        },
{
}

/// A coordinate that is given is taken as it is.
pub proof fn law_given_coordinates_are_taken(value: u32, element: Seq<char>, axis: Seq<char>)
    ensures
        given_coordinate(Some(value), element, axis) == Ok::<u32, RenderFault>(value),
        given_coordinate(None, element, axis) is Err,
{
}

/// Each pixel of a picture on the label shows the pixel of the source that it lies
/// over, counted from the right where the picture is mirrored left-right, and from
/// below where it is mirrored top-bottom.
pub proof fn law_pictures_appear_on_the_label(
    element: ElementModel,
    text: Option<Result<GrayImage, RenderFault>>,
    slot: ElementBounds,
    x: int,
    y: int,
    source_x: int,
    source_y: int,
)
    requires
        element matches ElementModel::Image { bitmap, .. } && bitmap is Some,
        0 <= x < slot.width,
        0 <= y < slot.height,
        source_x * slot.width <= x * element->bitmap->0.width < (source_x + 1) * slot.width,
        source_y * slot.height <= y * element->bitmap->0.height < (source_y + 1) * slot.height,
    ensures
        element matches ElementModel::Image { bitmap, flip_h, flip_v, .. } ==> {
            let ink = element_ink(element, text, slot);
            let at = (
                if flip_h {
                    slot.width - 1 - x
                } else {
                    x
                },
                if flip_v {
                    slot.height - 1 - y
                } else {
                    y
                },
            );
            &&& ink.width == slot.width
            &&& ink.height == slot.height
            &&& ink.dark.contains(at) == bitmap->0.dark.contains((source_x, source_y))
        },
{
    law_scaled_pixels_show_what_they_lie_over(
        element->bitmap->0,
        slot.width as nat,
        slot.height as nat,
        x,
        y,
        source_x,
        source_y,
    );
}

/// Each pixel of a text on the label is dark if the text, brought to the size of
/// its rectangle, is at most half as light there as the paper; mirrored texts are
/// counted from the right or from below.
pub proof fn law_texts_appear_on_the_label(
    element: ElementModel,
    coverage: GrayImage,
    slot: ElementBounds,
    x: int,
    y: int,
)
    requires
        element is Text,
        0 <= x < slot.width,
        0 <= y < slot.height,
    ensures
        element matches ElementModel::Text { flip_h, flip_v, .. } ==> {
            let ink = element_ink(element, Some(Ok(coverage)), slot);
            let sized = coverage.resized(slot.width as nat, slot.height as nat);
            let at = (
                if flip_h {
                    slot.width - 1 - x
                } else {
                    x
                },
                if flip_v {
                    slot.height - 1 - y
                } else {
                    y
                },
            );
            &&& sized.width == slot.width
            &&& sized.height == slot.height
            &&& ink.width == slot.width
            &&& ink.height == slot.height
            &&& ink.dark.contains(at) == (sized.levels[y * slot.width + x] <= 127)
        },
{
}

/// What an element leaves on the raster is its ink, with its corner at the corner
/// of its rectangle.
pub proof fn law_marks_stand_in_their_rectangles(job: Job, i: int, p: (int, int))
    ensures
        match job.placement(i)->Ok_0.slot {
            None => !job.inks(i, p),
            Some(slot) => job.inks(i, (slot.x + p.0, slot.y + p.1)) == element_ink(
                job.document.elements[i],
                job.texts[i],
                slot,
            ).dark.contains(p),
        },
{
    let slot = job.placement(i)->Ok_0.slot;
    if slot is Some {
        assert((slot->0.x + p.0 - slot->0.x, slot->0.y + p.1 - slot->0.y) == p);
    }
}

/// A pixel of the label is dark if an element makes it dark, and only then. Where
/// the whole label is mirrored, its pixels are counted from the right or from
/// below. The preview shows the same.
pub proof fn law_labels_show_their_elements(job: Job, x: int, y: int)
    requires
        job.label() is Ok,
        0 <= x < job.label()->Ok_0.printer_raster.width,
        0 <= y < job.label()->Ok_0.printer_raster.height,
    ensures
        ({
            let label = job.label()->Ok_0;
            let raster = label.printer_raster;
            let at = (
                if job.document.flip_h {
                    raster.width - 1 - x
                } else {
                    x
                },
                if job.document.flip_v {
                    raster.height - 1 - y
                } else {
                    y
                },
            );
            &&& raster.dark.contains(at) <==> exists|i: int|
                0 <= i < job.document.elements.len() && #[trigger] job.inks(i, (x, y))
            &&& label.preview == raster
            &&& raster.height == job.target.tape_width_px
        }),
{
}

/// A label is as long on the raster as in the document, at the resolution along the
/// tape, and as high in the document as the tape is, at the resolution across; both
/// to the nearest pixel.
pub proof fn law_labels_have_the_size_of_the_document(job: Job)
    requires
        job.label() is Ok,
    ensures
        ({
            let label = job.label()->Ok_0;
            let d = job.document.dpi as int;
            let (feed, cross) = (job.target.feed_dpi as int, job.target.cross_dpi as int);
            let (tape, height) = (
                job.target.tape_width_px as int,
                label.logical_dimensions.height as int,
            );
            &&& d > 0
            &&& feed > 0
            &&& cross > 0
            &&& -d < 2 * (label.printer_raster.width * d - label.logical_dimensions.width * feed)
                <= d
            &&& tape * d + cross < 0xffff_ffff * cross ==> -cross < 2 * (height * cross - tape * d)
                <= cross
            &&& label.logical_dimensions.width == job.logical_width()
            &&& label.logical_dimensions.width >= job.document.min_length
            &&& label.logical_dimensions.width >= job.document.end_padding
        }),
{
    let n = job.document.elements.len() as int;
    let d = job.document.dpi as int;
    let (feed, cross) = (job.target.feed_dpi as int, job.target.cross_dpi as int);
    let tape = job.target.tape_width_px as int;
    lemma_right_edge(job, n);
    law_edges_are_rounded_to_the_nearest(job.logical_width(), d, feed);
    law_edges_are_rounded_to_the_nearest(tape, cross, d);
    assert(0 <= job.logical_width() * feed) by (nonlinear_arith)
        requires
            0 <= job.logical_width(),
            0 < feed,
    ;
    vstd::arithmetic::div_mod::lemma_div_pos_is_pos(job.logical_width() * feed + d / 2, d);
    assert(0 <= tape * d) by (nonlinear_arith)
        requires
            0 <= tape,
            0 < d,
    ;
    vstd::arithmetic::div_mod::lemma_div_pos_is_pos(tape * d + cross / 2, cross);
    let edge = scaled_edge(tape, cross, d);
    if tape * d + cross < 0xffff_ffff * cross {
        assert(edge < 0xffff_ffff) by (nonlinear_arith)
            requires
                2 * (edge * cross - tape * d) <= cross,
                tape * d + cross < 0xffff_ffff * cross,
                0 < cross,
        ;
    }
}

/// Along the tape an element reaches to its right edge; an empty text asks for no
/// length. The bounds that are reported are those of the elements, in their order.
pub proof fn law_reported_bounds_are_those_of_the_elements(job: Job, i: int)
    requires
        job.label() is Ok,
        0 <= i < job.document.elements.len(),
    ensures
        ({
            let label = job.label()->Ok_0;
            let element = job.document.elements[i];
            let bounds = label.element_bounds[i];
            &&& label.element_bounds.len() == job.document.elements.len()
            &&& logical_bounds(element, job.texts[i], label.logical_dimensions.height) == Ok::<
                ElementBounds,
                RenderFault,
            >(bounds)
            &&& is_empty_text(element) ==> job.placement(i)->Ok_0.right == 0
            &&& !is_empty_text(element) ==> job.placement(i)->Ok_0.right == bounds.x
                + bounds.width
            &&& !is_empty_text(element) ==> bounds.x + bounds.width + job.document.end_padding
                <= label.logical_dimensions.width
        }),
{
    let n = job.document.elements.len() as int;
    lemma_first_fault(job, 0, n);
    lemma_right_edge(job, n);
    assert(job.placement(i) is Ok);
    if !is_empty_text(job.document.elements[i]) {
        let place = job.placement(i)->Ok_0;
        lemma_slot(
            place.bounds,
            job.document.dpi,
            job.target,
            i,
            kind_name(job.document.elements[i]),
        );
    }
}

/// A label can be drawn if its document is one of a supported version with
/// positioned elements, no resolution is zero, each element finds its place, and
/// its length fits into 32 bits in the document and on the raster.
pub proof fn law_what_it_takes_to_draw_a_label(job: Job)
    ensures
        job.label() is Ok <==> {
            &&& 1 <= job.document.version <= 2
            &&& job.document.dpi > 0
            &&& job.target.cross_dpi > 0
            &&& job.target.feed_dpi > 0
            &&& job.document.layout == LayoutMode::Positioned
            &&& forall|i: int|
                0 <= i < job.document.elements.len() ==> (#[trigger] job.placement(i)) is Ok
            &&& job.right_edge(job.document.elements.len() as int) + job.document.end_padding
                <= 0xffff_ffff
            &&& scaled_edge(
                job.logical_width(),
                job.document.dpi as int,
                job.target.feed_dpi as int,
            ) <= 0xffff_ffff
        },
{
    let n = job.document.elements.len() as int;
    lemma_first_fault(job, 0, n);
    if forall|i: int| 0 <= i < n ==> (#[trigger] job.placement(i)) is Ok {
        lemma_no_fault(job, n);
    }
}

/// The first element that cannot be drawn tells why the label cannot.
pub proof fn law_the_first_fault_is_told(job: Job, i: int)
    requires
        job.document_fault() is None,
        0 <= i < job.document.elements.len(),
        job.placement(i) is Err,
        forall|k: int| 0 <= k < i ==> (#[trigger] job.placement(k)) is Ok,
    ensures
        job.label() matches Err(fault) && job.placement(i)->Err_0 == fault,
{
    lemma_no_fault(job, i);
    lemma_first_fault(job, i + 1, job.document.elements.len() as int);
}

/// A job is for the document and the tape that were given, with the resolution in
/// both directions, and takes each text at the index of its element.
pub proof fn law_jobs_are_what_was_given(
    document: LabelDocument,
    tape_width_px: u32,
    dpi: u16,
    texts: Seq<Option<Result<GrayCanvas, RenderError>>>,
    i: int,
)
    requires
        0 <= i < document.elements@.len(),
    ensures
        ({
            let job = label_job(document, tape_width_px, dpi, texts);
            &&& job.document == document@
            &&& job.target.tape_width_px == tape_width_px
            &&& job.target.cross_dpi == dpi
            &&& job.target.feed_dpi == dpi
            &&& job.texts.len() == document.elements@.len()
            &&& i < texts.len() ==> match texts[i] {
                None => job.texts[i] is None,
                Some(Ok(coverage)) => job.texts[i] == Some(Ok::<GrayImage, RenderFault>(coverage@)),
                Some(Err(error)) => job.texts[i] == Some(Err::<GrayImage, RenderFault>(error@)),
            }
            &&& i >= texts.len() ==> job.texts[i] is None
        }),
{
}

/// A text is rendered if it says something and has its coordinates and its size,
/// and is not turned; pictures need none.
pub proof fn law_which_elements_need_a_rendering(element: ElementModel)
    ensures
        asks_for_text(element) <==> (element matches ElementModel::Text {
            content,
            x,
            y,
            font_size,
            rotation,
            ..
        } && content.len() > 0 && x is Some && y is Some && font_size is Some && unrotated(
            rotation,
        )),
{
}

/// The model of a label shows its fields.
pub proof fn law_label_models_show_the_fields(label: RenderedLabel)
    ensures
        label@.printer_raster == label.printer_raster@,
        label@.preview == label.preview@,
        label@.logical_dimensions == label.logical_dimensions,
        label@.element_bounds == label.element_bounds@,
{
}

/// The text of an element is looked at if the document is one that can be laid out,
/// all elements before it find their places, and it is to be rendered.
pub proof fn law_which_texts_are_looked_at(job: Job, i: int)
    requires
        0 <= i < job.document.elements.len(),
    ensures
        job.wants_text(i) <==> {
            &&& 1 <= job.document.version <= 2
            &&& job.document.dpi > 0
            &&& job.target.cross_dpi > 0
            &&& job.target.feed_dpi > 0
            &&& job.document.layout == LayoutMode::Positioned
            &&& forall|k: int| 0 <= k < i ==> (#[trigger] job.placement(k)) is Ok
            &&& asks_for_text(job.document.elements[i])
        },
{
    lemma_first_fault(job, 0, i);
    if forall|k: int| 0 <= k < i ==> (#[trigger] job.placement(k)) is Ok {
        lemma_no_fault(job, i);
    }
}

/// Only a rendered text can be too large to be drawn: one that cannot be brought to
/// the size of its rectangle.
pub proof fn law_only_texts_can_be_too_large(job: Job, i: int)
    ensures
        !(job.document.elements[i] is Text) ==> job.can_be_resized(i),
        job.texts[i] is None ==> job.can_be_resized(i),
        job.document.elements[i] is Text ==> ((job.texts[i] matches Some(Ok(coverage)) && (
        job.placement(i) matches Ok(place) && place.slot is Some)) ==> job.can_be_resized(i)
            == resizable(
            job.texts[i]->0->Ok_0,
            job.placement(i)->Ok_0.slot->0.width as int,
            job.placement(i)->Ok_0.slot->0.height as int,
        )),
        job.is_drawable() <==> (job.label() is Ok ==> forall|k: int|
            0 <= k < job.document.elements.len() ==> #[trigger] job.can_be_resized(k)),
{
}

/// What an element adds follows from its bounds: an empty text adds no rectangle
/// and no length, another the rectangle of its bounds and its right edge.
pub proof fn law_placements_follow_from_the_bounds(job: Job, i: int)
    ensures
        ({
            let element = job.document.elements[i];
            match logical_bounds(element, job.texts[i], job.logical_height()) {
                Err(fault) => job.placement(i) is Err && job.placement(i)->Err_0 == fault,
                Ok(bounds) => {
                    &&& job.placement(i) matches Ok(place) ==> place.bounds == bounds
                    &&& is_empty_text(element) ==> (job.placement(i) matches Ok(place)
                        && place.slot is None && place.right == 0)
                    &&& !is_empty_text(element) ==> match raster_slot(
                        bounds,
                        job.document.dpi,
                        job.target,
                        i,
                        if element is Image {
                            "image"@
                        } else {
                            "text"@
                        },
                    ) {
                        Err(fault) => job.placement(i) is Err && job.placement(i)->Err_0 == fault,
                        Ok((slot, right)) => job.placement(i) matches Ok(place) && place.slot
                            == Some(slot) && place.right == right,
                    }
                },
            }
        }),
{
}

/// An element beyond the tape is told by its kind and its number, counted from one,
/// with its bounds and its rows.
pub proof fn law_elements_beyond_the_tape_are_told(
    bounds: ElementBounds,
    document_dpi: u16,
    target: StandardTarget,
    element_index: int,
    element_kind: Seq<char>,
)
    requires
        bounds.x + bounds.width <= 0xffff_ffff,
        bounds.y + bounds.height <= 0xffff_ffff,
        scaled_edge(bounds.x + bounds.width, document_dpi as int, target.feed_dpi as int)
            <= 0xffff_ffff,
        target.tape_width_px < scaled_edge(
            bounds.y + bounds.height,
            document_dpi as int,
            target.cross_dpi as int,
        ) <= 0xffff_ffff,
    ensures
        raster_slot(bounds, document_dpi, target, element_index, element_kind) == Err::<
            (ElementBounds, u32),
            RenderFault,
        >(
            RenderFault::Layout(
                "positioned "@ + element_kind + " element "@ + decimal((element_index + 1) as nat)
                    + " exceeds the "@ + decimal(target.tape_width_px as nat)
                    + " px printable raster height: vertical bounds y="@ + decimal(bounds.y as nat)
                    + ", height="@ + decimal(bounds.height as nat) + " at "@ + decimal(
                    document_dpi as nat,
                ) + " dpi map to rows "@ + decimal(
                    scaled_edge(
                        bounds.y as int,
                        document_dpi as int,
                        target.cross_dpi as int,
                    ) as nat,
                ) + ".."@ + decimal(
                    scaled_edge(
                        bounds.y + bounds.height,
                        document_dpi as int,
                        target.cross_dpi as int,
                    ) as nat,
                ) + " at "@ + decimal(target.cross_dpi as nat) + " dpi"@,
            ),
        ),
{
}

/// An element that is turned is refused by its kind.
pub proof fn law_turned_elements_are_told(rotation: u32, element: Seq<char>)
    ensures
        rotation_fault(rotation, element) is None <==> unrotated(rotation),
        rotation_fault(rotation, element) matches Some(fault) ==> fault == RenderFault::Layout(
            "positioned "@ + element + " rotation is not supported"@,
        ),
{
}

/// What a text lacks is told: its coordinates first, the left one before the upper
/// one; then, of a text that says something, that it is turned, that it has no
/// size, and why it could not be rendered.
pub proof fn law_what_a_text_lacks_is_told(
    element: ElementModel,
    text: Option<Result<GrayImage, RenderFault>>,
    logical_height: u32,
)
    ensures
        element matches ElementModel::Text { content, x, y, font_size, rotation, .. } ==> {
            let bounds = logical_bounds(element, text, logical_height);
            let told = |fault: RenderFault| bounds == Err::<ElementBounds, RenderFault>(fault);
            let placed = x is Some && y is Some && content.len() > 0;
            &&& x is None ==> told(
                RenderFault::Layout("positioned "@ + "text"@ + " requires "@ + "x"@),
            )
            &&& x is Some && y is None ==> told(
                RenderFault::Layout("positioned "@ + "text"@ + " requires "@ + "y"@),
            )
            &&& placed && !unrotated(rotation) ==> told(
                RenderFault::Layout("positioned "@ + "text"@ + " rotation is not supported"@),
            )
            &&& placed && unrotated(rotation) && font_size is None ==> told(
                RenderFault::Layout("positioned text requires font_size"@),
            )
            &&& placed && unrotated(rotation) && font_size is Some && text->0 is Err ==> told(
                text->0->Err_0,
            )
        },
{
}

/// What a picture lacks is told: that it is turned first, then that it has no
/// pixels, then its coordinates. Flow-only elements are refused.
pub proof fn law_what_a_picture_lacks_is_told(
    element: ElementModel,
    text: Option<Result<GrayImage, RenderFault>>,
    logical_height: u32,
)
    ensures
        ({
            let bounds = logical_bounds(element, text, logical_height);
            let told = |fault: RenderFault| bounds == Err::<ElementBounds, RenderFault>(fault);
            &&& element matches ElementModel::Image { bitmap, x, y, rotation, .. } ==> {
                let shown = unrotated(rotation) && bitmap is Some;
                &&& !unrotated(rotation) ==> told(
                    RenderFault::Layout("positioned "@ + "image"@ + " rotation is not supported"@),
                )
                &&& unrotated(rotation) && bitmap is None ==> told(
                    RenderFault::Layout("positioned image has no decoded bitmap"@),
                )
                &&& shown && x is None ==> told(
                    RenderFault::Layout("positioned "@ + "image"@ + " requires "@ + "x"@),
                )
                &&& shown && x is Some && y is None ==> told(
                    RenderFault::Layout("positioned "@ + "image"@ + " requires "@ + "y"@),
                )
            }
            &&& element is CutMark || element is Padding ==> told(
                RenderFault::Layout("cut marks and padding are only supported by flow layouts"@),
            )
        }),
{
}

/// Bounds whose edges are no numbers of 32 bits are told by the kind and the number
/// of the element, those along the tape first; then edges that are none on the
/// raster.
pub proof fn law_bounds_that_are_too_large_are_told(
    bounds: ElementBounds,
    document_dpi: u16,
    target: StandardTarget,
    element_index: int,
    element_kind: Seq<char>,
)
    ensures
        ({
            let placed = raster_slot(bounds, document_dpi, target, element_index, element_kind);
            let label = "positioned "@ + element_kind + " element "@ + decimal(
                (element_index + 1) as nat,
            );
            let told = |text: Seq<char>|
                placed == Err::<(ElementBounds, u32), RenderFault>(RenderFault::Layout(text));
            let (wide, high) = (
                bounds.x + bounds.width > 0xffff_ffff,
                bounds.y + bounds.height > 0xffff_ffff,
            );
            &&& wide ==> told(label + " has horizontal bounds that are too large"@)
            &&& !wide && high ==> told(label + " has vertical bounds that are too large"@)
            &&& !wide && !high && (scaled_edge(
                bounds.x + bounds.width,
                document_dpi as int,
                target.feed_dpi as int,
            ) > 0xffff_ffff || scaled_edge(
                bounds.y + bounds.height,
                document_dpi as int,
                target.cross_dpi as int,
            ) > 0xffff_ffff) ==> told("positioned layout dimensions are too large"@)
        }),
{
}

/// What is wrong with a document as a whole is told before its elements are looked
/// at, the version first, and a length that is too large behind them.
pub proof fn law_what_is_wrong_with_a_document_is_told(job: Job)
    ensures
        ({
            let told = |fault: RenderFault| job.label() == Err::<LabelModel, RenderFault>(fault);
            let known = 1 <= job.document.version <= 2;
            let zero = job.document.dpi == 0 || job.target.cross_dpi == 0 || job.target.feed_dpi
                == 0;
            let positioned = job.document.layout == LayoutMode::Positioned;
            let n = job.document.elements.len() as int;
            let fine = known && !zero && positioned && forall|i: int|
                0 <= i < n ==> (#[trigger] job.placement(i)) is Ok;
            let length = job.right_edge(n) + job.document.end_padding;
            &&& !known ==> told(RenderFault::UnsupportedVersion(job.document.version))
            &&& known && zero ==> told(
                RenderFault::Layout(
                    "document and target resolutions must be greater than zero"@,
                ),
            )
            &&& known && !zero && !positioned ==> told(
                RenderFault::Layout("expected a positioned document"@),
            )
            &&& fine && length > 0xffff_ffff ==> told(
                RenderFault::Layout("positioned label length is too large"@),
            )
            &&& fine && length <= 0xffff_ffff && scaled_edge(
                job.logical_width(),
                job.document.dpi as int,
                job.target.feed_dpi as int,
            ) > 0xffff_ffff ==> told(
                RenderFault::Layout("positioned layout dimensions are too large"@),
            )
        }),
{
    let n = job.document.elements.len() as int;
    if forall|i: int| 0 <= i < n ==> (#[trigger] job.placement(i)) is Ok {
        lemma_no_fault(job, n);
    }
}

} // verus!
