//! Labels whose elements stand at coordinates of their own.

use vstd::prelude::*;

use crate::bitmap::{thresholded, LabelBitmap, Raster};
use crate::document::{
    version_fault, DocumentModel, ElementModel, LabelDocument, LabelElement, LayoutMode,
};
use crate::error::{render_outcome, RenderError, RenderFault};
use crate::gray::{resizable, GrayCanvas, GrayImage};
use crate::message::{decimal, push_decimal};
use crate::rotation::{effectively_unrotated, unrotated};
use crate::text::{
    lines_of, request_tight_text, split_lines, tight_text, RequestModel, TextRequest, NORMAL_WEIGHT,
};

verus! {

/// A printer that the label is drawn for.
#[derive(Debug, Clone, Copy, PartialEq, Eq, Structural)]
pub struct StandardTarget {
    /// Printable dots across the tape.
    pub tape_width_px: u32,
    /// Resolution across the tape.
    pub cross_dpi: u16,
    /// Resolution along the tape.
    pub feed_dpi: u16,
}

/// Rectangle in logical document pixels.
#[derive(Debug, Clone, Copy, PartialEq, Eq, Structural)]
pub struct ElementBounds {
    pub x: u32,
    pub y: u32,
    pub width: u32,
    pub height: u32,
}

/// Logical dimensions of the rendered label.
#[derive(Debug, Clone, Copy, PartialEq, Eq, Structural)]
pub struct LabelDimensions {
    pub width: u32,
    pub height: u32,
}

/// All render products derived from one document and runtime target.
#[derive(Debug)]
pub struct RenderedLabel {
    /// Exact anisotropic raster sent to the printer.
    pub printer_raster: LabelBitmap,
    /// Square-pixel representation of the physical print.
    pub preview: LabelBitmap,
    /// Final label dimensions in logical document pixels.
    pub logical_dimensions: LabelDimensions,
    /// Final logical bounds in document element order.
    pub element_bounds: Vec<ElementBounds>,
}

/// Mathematical value of a [`RenderedLabel`].
#[verifier::ext_equal]
pub struct LabelModel {
    pub printer_raster: Raster,
    pub preview: Raster,
    pub logical_dimensions: LabelDimensions,
    pub element_bounds: Seq<ElementBounds>,
}

impl View for RenderedLabel {
    type V = LabelModel;

    open spec fn view(&self) -> LabelModel {
        LabelModel {
            printer_raster: self.printer_raster@,
            preview: self.preview@,
            logical_dimensions: self.logical_dimensions,
            element_bounds: self.element_bounds@,
        }
    }
}

impl RenderedLabel {
    /// Raster and preview are proper images.
    pub open spec fn wf(&self) -> bool {
        self.printer_raster.wf() && self.preview.wf()
    }
}

impl Clone for RenderedLabel {
    fn clone(&self) -> (label: Self)
        ensures
            label@ == self@,
            self.wf() ==> label.wf(),
    {
        let label = RenderedLabel {
            printer_raster: self.printer_raster.clone(),
            preview: self.preview.clone(),
            logical_dimensions: self.logical_dimensions,
            element_bounds: self.element_bounds.clone(),
        };
        assert(label@ =~= self@);
        label
    }
}

/// A coordinate at another resolution, rounded to the nearest.
pub open spec fn scaled_edge(value: int, from_dpi: int, to_dpi: int) -> int {
    (value * to_dpi + from_dpi / 2) / from_dpi
}

/// A coordinate at another resolution fits into 64 bits and is not negative.
proof fn lemma_scaled_edge(value: int, from_dpi: int, to_dpi: int)
    requires
        0 <= value <= u32::MAX,
        0 < from_dpi <= u16::MAX,
        0 <= to_dpi <= u16::MAX,
    ensures
        0 <= value * to_dpi <= u32::MAX * u16::MAX,
        0 <= scaled_edge(value, from_dpi, to_dpi),
{
    assert(0 <= value * to_dpi <= u32::MAX * u16::MAX) by (nonlinear_arith)
        requires
            0 <= value <= u32::MAX,
            0 <= to_dpi <= u16::MAX,
    ;
    vstd::arithmetic::div_mod::lemma_div_pos_is_pos(value * to_dpi + from_dpi / 2, from_dpi);
}

/// Scaling keeps the order of coordinates.
pub proof fn law_edges_keep_their_order(left: int, right: int, from_dpi: int, to_dpi: int)
    requires
        0 <= left <= right,
        0 < from_dpi,
        0 <= to_dpi,
    ensures
        scaled_edge(left, from_dpi, to_dpi) <= scaled_edge(right, from_dpi, to_dpi),
{
    assert(left * to_dpi <= right * to_dpi) by (nonlinear_arith)
        requires
            left <= right,
            0 <= to_dpi,
    ;
    vstd::arithmetic::div_mod::lemma_div_is_ordered(
        left * to_dpi + from_dpi / 2,
        right * to_dpi + from_dpi / 2,
        from_dpi,
    );
}

/// A length at another resolution, rounded to the nearest and reduced to 32 bits.
pub fn scale(value: u32, from_dpi: u16, to_dpi: u16) -> (scaled: u32)
    requires
        from_dpi > 0,
    ensures
        scaled == scaled_edge(value as int, from_dpi as int, to_dpi as int) % 0x1_0000_0000,
{
    proof {
        lemma_scaled_edge(value as int, from_dpi as int, to_dpi as int);
    }
    let wide: u64 = (value as u64 * to_dpi as u64 + from_dpi as u64 / 2) / from_dpi as u64;
    (wide % 0x1_0000_0000) as u32
}

/// A coordinate on the target, unless it does not fit into 32 bits.
pub open spec fn target_edge(value: int, from_dpi: u16, to_dpi: u16) -> Result<u32, RenderFault> {
    let scaled = scaled_edge(value, from_dpi as int, to_dpi as int);
    if scaled <= u32::MAX {
        Ok(scaled as u32)
    } else {
        Err(RenderFault::Layout("positioned layout dimensions are too large"@))
    }
}

/// Maps a coordinate of the document to the target.
pub fn scale_positioned_edge(value: u32, from_dpi: u16, to_dpi: u16) -> (result: Result<
    u32,
    RenderError,
>)
    requires
        from_dpi > 0,
    ensures
        render_outcome(result) == target_edge(value as int, from_dpi, to_dpi),
{
    proof {
        lemma_scaled_edge(value as int, from_dpi as int, to_dpi as int);
    }
    let scaled: u64 = (value as u64 * to_dpi as u64 + from_dpi as u64 / 2) / from_dpi as u64;
    if scaled <= 0xffff_ffff {
        Ok(scaled as u32)
    } else {
        Err(RenderError::Layout("positioned layout dimensions are too large".to_string()))
    }
}

/// A coordinate that an element has to give.
pub open spec fn given_coordinate(
    value: Option<u32>,
    element: Seq<char>,
    axis: Seq<char>,
) -> Result<u32, RenderFault> {
    match value {
        Some(value) => Ok(value),
        None => Err(RenderFault::Layout("positioned "@ + element + " requires "@ + axis)),
    }
}

/// Asks for a coordinate of an element.
pub fn required_coordinate(value: Option<u32>, element: &str, axis: &str) -> (result: Result<
    u32,
    RenderError,
>)
    ensures
        render_outcome(result) == given_coordinate(value, element@, axis@),
{
    match value {
        Some(value) => Ok(value),
        None => {
            let mut text = "positioned ".to_string();
            text.append(element);
            text.append(" requires ");
            text.append(axis);
            Err(RenderError::Layout(text))
        },
    }
}

/// The fault in an element that is turned.
pub open spec fn rotation_fault(rotation: u32, element: Seq<char>) -> Option<RenderFault> {
    if unrotated(rotation) {
        None
    } else {
        Some(RenderFault::Layout("positioned "@ + element + " rotation is not supported"@))
    }
}

/// Refuses an element that is turned.
pub fn require_no_rotation(rotation: u32, element: &str) -> (result: Result<(), RenderError>)
    ensures
        match result {
            Ok(_) => rotation_fault(rotation, element@) is None,
            Err(error) => rotation_fault(rotation, element@) == Some(error@),
        },
{
    if effectively_unrotated(rotation) {
        Ok(())
    } else {
        let mut text = "positioned ".to_string();
        text.append(element);
        text.append(" rotation is not supported");
        Err(RenderError::Layout(text))
    }
}

/// How messages refer to an element: by its kind and its number, counted from one.
pub open spec fn element_label(element_index: int, element_kind: Seq<char>) -> Seq<char> {
    "positioned "@ + element_kind + " element "@ + decimal((element_index + 1) as nat)
}

/// Writes how messages refer to an element.
fn label_text(element_index: usize, element_kind: &str) -> (text: String)
    requires
        element_index < usize::MAX,
    ensures
        text@ == element_label(element_index as int, element_kind@),
{
    let mut text = "positioned ".to_string();
    text.append(element_kind);
    text.append(" element ");
    push_decimal(&mut text, (element_index + 1) as u64);
    text
}

/// The message on an element that reaches beyond the tape.
pub open spec fn clipping_text(
    bounds: ElementBounds,
    document_dpi: u16,
    target: StandardTarget,
    label: Seq<char>,
) -> Seq<char> {
    label + " exceeds the "@ + decimal(target.tape_width_px as nat)
        + " px printable raster height: vertical bounds y="@ + decimal(bounds.y as nat)
        + ", height="@ + decimal(bounds.height as nat) + " at "@ + decimal(document_dpi as nat)
        + " dpi map to rows "@ + decimal(
        scaled_edge(bounds.y as int, document_dpi as int, target.cross_dpi as int) as nat,
    ) + ".."@ + decimal(
        scaled_edge(
            bounds.y + bounds.height,
            document_dpi as int,
            target.cross_dpi as int,
        ) as nat,
    ) + " at "@ + decimal(target.cross_dpi as nat) + " dpi"@
}

/// The raster rectangle of an element and its right edge in the document.
///
/// Both edges of the element are scaled, not its size.
pub open spec fn raster_slot(
    bounds: ElementBounds,
    document_dpi: u16,
    target: StandardTarget,
    element_index: int,
    element_kind: Seq<char>,
) -> Result<(ElementBounds, u32), RenderFault> {
    let label = element_label(element_index, element_kind);
    let from = document_dpi as int;
    let left = scaled_edge(bounds.x as int, from, target.feed_dpi as int);
    let right = scaled_edge(bounds.x + bounds.width, from, target.feed_dpi as int);
    let top = scaled_edge(bounds.y as int, from, target.cross_dpi as int);
    let bottom = scaled_edge(bounds.y + bounds.height, from, target.cross_dpi as int);
    if bounds.x + bounds.width > u32::MAX {
        Err(RenderFault::Layout(label + " has horizontal bounds that are too large"@))
    } else if bounds.y + bounds.height > u32::MAX {
        Err(RenderFault::Layout(label + " has vertical bounds that are too large"@))
    } else if right > u32::MAX || bottom > u32::MAX {
        Err(RenderFault::Layout("positioned layout dimensions are too large"@))
    } else if bottom > target.tape_width_px {
        Err(RenderFault::Layout(clipping_text(bounds, document_dpi, target, label)))
    } else {
        Ok(
            (
                ElementBounds {
                    x: left as u32,
                    y: top as u32,
                    width: (right - left) as u32,
                    height: (bottom - top) as u32,
                },
                (bounds.x + bounds.width) as u32,
            ),
        )
    }
}

/// Maps both edges of a positioned element to the target raster and rejects a
/// bottom edge beyond the printer's actual cross-tape print area. Scaling the
/// edges (rather than the origin and size independently) keeps a valid element
/// whose logical bottom edge is exactly on the boundary exactly on the raster
/// boundary after rounding.
pub fn positioned_raster_bounds(
    bounds: ElementBounds,
    document_dpi: u16,
    target: &StandardTarget,
    element_index: usize,
    element_kind: &str,
) -> (result: Result<(ElementBounds, u32), RenderError>)
    requires
        document_dpi > 0,
        element_index < usize::MAX,
    ensures
        render_outcome(result) == raster_slot(
            bounds,
            document_dpi,
            *target,
            element_index as int,
            element_kind@,
        ),
{
    if bounds.width > 0xffff_ffff - bounds.x {
        let mut text = label_text(element_index, element_kind);
        text.append(" has horizontal bounds that are too large");
        return Err(RenderError::Layout(text));
    }
    if bounds.height > 0xffff_ffff - bounds.y {
        let mut text = label_text(element_index, element_kind);
        text.append(" has vertical bounds that are too large");
        return Err(RenderError::Layout(text));
    }
    let right: u32 = bounds.x + bounds.width;
    let bottom: u32 = bounds.y + bounds.height;
    proof {
        law_edges_keep_their_order(
            bounds.x as int,
            right as int,
            document_dpi as int,
            target.feed_dpi as int,
        );
        law_edges_keep_their_order(
            bounds.y as int,
            bottom as int,
            document_dpi as int,
            target.cross_dpi as int,
        );
        lemma_scaled_edge(bounds.x as int, document_dpi as int, target.feed_dpi as int);
        lemma_scaled_edge(bounds.y as int, document_dpi as int, target.cross_dpi as int);
    }
    let raster_left: u32 = scale_positioned_edge(bounds.x, document_dpi, target.feed_dpi)?;
    let raster_right: u32 = scale_positioned_edge(right, document_dpi, target.feed_dpi)?;
    let raster_top: u32 = scale_positioned_edge(bounds.y, document_dpi, target.cross_dpi)?;
    let raster_bottom: u32 = scale_positioned_edge(bottom, document_dpi, target.cross_dpi)?;
    if raster_bottom > target.tape_width_px {
        let mut text = label_text(element_index, element_kind);
        text.append(" exceeds the ");
        push_decimal(&mut text, target.tape_width_px as u64);
        text.append(" px printable raster height: vertical bounds y=");
        push_decimal(&mut text, bounds.y as u64);
        text.append(", height=");
        push_decimal(&mut text, bounds.height as u64);
        text.append(" at ");
        push_decimal(&mut text, document_dpi as u64);
        text.append(" dpi map to rows ");
        push_decimal(&mut text, raster_top as u64);
        text.append("..");
        push_decimal(&mut text, raster_bottom as u64);
        text.append(" at ");
        push_decimal(&mut text, target.cross_dpi as u64);
        text.append(" dpi");
        return Err(RenderError::Layout(text));
    }
    Ok(
        (
            ElementBounds {
                x: raster_left,
                y: raster_top,
                width: raster_right - raster_left,
                height: raster_bottom - raster_top,
            },
            right,
        ),
    )
}

/// Adds the dark pixels of `source`, its corner lying at `(x, y)`.
pub fn blit(destination: &mut LabelBitmap, source: &LabelBitmap, x: u32, y: u32)
    requires
        old(destination).wf(),
        source.wf(),
        forall|p: (int, int)| #[trigger]
            source@.dark.contains(p) ==> x + p.0 <= u32::MAX && y + p.1 <= u32::MAX,
    ensures
        final(destination).wf(),
        final(destination)@ == old(destination)@.overlaid(source@, x as int, y as int),
{
    let width: u32 = source.width();
    let height: u32 = source.height();
    proof {
        source.lemma_view();
        old(destination).lemma_view();
    }
    let mut source_y: u32 = 0;
    while source_y < height
        invariant
            source_y <= height,
            width == source@.width,
            height == source@.height,
            source.wf(),
            destination.wf(),
            destination@.width == old(destination)@.width,
            destination@.height == old(destination)@.height,
            forall|p: (int, int)| #[trigger]
                source@.dark.contains(p) ==> x + p.0 <= u32::MAX && y + p.1 <= u32::MAX,
            forall|p: (int, int)| #[trigger]
                destination@.dark.contains(p) == (old(destination)@.dark.contains(p) || (
                old(destination)@.covers(p.0, p.1) && source@.dark.contains((p.0 - x, p.1 - y))
                    && p.1 - y < source_y)),
        decreases height - source_y,
    {
        let mut source_x: u32 = 0;
        proof {
            source.lemma_view();
        }
        while source_x < width
            invariant
                source_y < height,
                source_x <= width,
                width == source@.width,
                height == source@.height,
                source.wf(),
                destination.wf(),
                destination@.width == old(destination)@.width,
                destination@.height == old(destination)@.height,
                forall|p: (int, int)| #[trigger]
                    source@.dark.contains(p) ==> x + p.0 <= u32::MAX && y + p.1 <= u32::MAX,
                forall|p: (int, int)| #[trigger]
                    destination@.dark.contains(p) == (old(destination)@.dark.contains(p) || (
                    old(destination)@.covers(p.0, p.1) && source@.dark.contains(
                        (p.0 - x, p.1 - y),
                    ) && (p.1 - y < source_y || (p.1 - y == source_y && p.0 - x < source_x)))),
            decreases width - source_x,
        {
            if source.get_pixel(source_x, source_y) {
                destination.set_pixel(x + source_x, y + source_y, true);
            }
            source_x = source_x + 1;
        }
        proof {
            source.lemma_view();
        }
        source_y = source_y + 1;
    }
    proof {
        source.lemma_view();
    }
    assert(destination@ =~= old(destination)@.overlaid(source@, x as int, y as int));
}

/// The size of a picture in document pixels: a height that is not given is that
/// of the label, a width that is not given keeps the shape of the picture.
pub open spec fn image_size(
    source: Raster,
    target_width: Option<u32>,
    target_height: Option<u32>,
    logical_height: u32,
) -> (u32, u32) {
    let height = match target_height {
        Some(height) => height,
        None => logical_height,
    };
    let width = match target_width {
        Some(width) => width,
        None => if source.height > 0 {
            let width = source.width * height / source.height as int;
            if width < 1 {
                1
            } else {
                (width % 0x1_0000_0000) as u32
            }
        } else {
            0
        },
    };
    (width, height)
}

/// Computes the size of a picture in document pixels.
pub fn image_dimensions(
    source: &LabelBitmap,
    target_width: Option<u32>,
    target_height: Option<u32>,
    logical_height: u32,
) -> (size: (u32, u32))
    ensures
        size == image_size(source@, target_width, target_height, logical_height),
{
    let height: u32 = match target_height {
        Some(height) => height,
        None => logical_height,
    };
    let source_width: u32 = source.width();
    let source_height: u32 = source.height();
    let width: u32 = match target_width {
        Some(width) => width,
        None => if source_height > 0 {
            assert(0 <= source_width * height <= u32::MAX * u32::MAX) by (nonlinear_arith)
                requires
                    0 <= source_width <= u32::MAX,
                    0 <= height <= u32::MAX,
            ;
            let wide: u64 = source_width as u64 * height as u64 / source_height as u64;
            if wide < 1 {
                1
            } else {
                (wide % 0x1_0000_0000) as u32
            }
        } else {
            0
        },
    };
    (width, height)
}

/// Whether an element is a text without a character.
pub open spec fn is_empty_text(element: ElementModel) -> bool {
    match element {
        ElementModel::Text { content, .. } => content.len() == 0,
        _ => false,
    }
}

/// Whether an element is drawn from a rendering of its text: it is a text that
/// says something, where it stands and how large it is, and is not turned.
pub open spec fn asks_for_text(element: ElementModel) -> bool {
    match element {
        ElementModel::Text { content, x, y, font_size, rotation, .. } => {
            &&& content.len() > 0
            &&& x is Some
            &&& y is Some
            &&& unrotated(rotation)
            &&& font_size is Some
        },
        _ => false,
    }
}

/// Tells whether an element is drawn from a rendering of its text.
fn is_drawn_from_text(element: &LabelElement) -> (asks: bool)
    ensures
        asks == asks_for_text(element@),
{
    match element {
        LabelElement::Text { content, x, y, font_size, rotation, .. } => {
            !content.as_str().is_empty() && x.is_some() && y.is_some() && effectively_unrotated(
                *rotation,
            ) && font_size.is_some()
        },
        _ => false,
    }
}

/// The kind of an element in messages.
pub open spec fn kind_name(element: ElementModel) -> Seq<char> {
    if element is Image {
        "image"@
    } else {
        "text"@
    }
}

/// The bounds of an element in document pixels.
///
/// `text` is what became of rendering its text.
pub open spec fn logical_bounds(
    element: ElementModel,
    text: Option<Result<GrayImage, RenderFault>>,
    logical_height: u32,
) -> Result<ElementBounds, RenderFault> {
    match element {
        ElementModel::Image { bitmap, x, y, rotation, target_width, target_height, .. } => {
            if rotation_fault(rotation, "image"@) is Some {
                Err(rotation_fault(rotation, "image"@)->0)
            } else if bitmap is None {
                Err(RenderFault::Layout("positioned image has no decoded bitmap"@))
            } else {
                match (
                    given_coordinate(x, "image"@, "x"@),
                    given_coordinate(y, "image"@, "y"@),
                ) {
                    (Err(fault), _) => Err(fault),
                    (_, Err(fault)) => Err(fault),
                    (Ok(x), Ok(y)) => {
                        let (width, height) = image_size(
                            bitmap->0,
                            target_width,
                            target_height,
                            logical_height,
                        );
                        Ok(ElementBounds { x, y, width, height })
                    },
                }
            }
        },
        ElementModel::Text { content, x, y, font_size, rotation, .. } => {
            match (given_coordinate(x, "text"@, "x"@), given_coordinate(y, "text"@, "y"@)) {
                (Err(fault), _) => Err(fault),
                (_, Err(fault)) => Err(fault),
                (Ok(x), Ok(y)) => if content.len() == 0 {
                    Ok(ElementBounds { x, y, width: 0, height: 0 })
                } else if rotation_fault(rotation, "text"@) is Some {
                    Err(rotation_fault(rotation, "text"@)->0)
                } else if font_size is None {
                    Err(RenderFault::Layout("positioned text requires font_size"@))
                } else {
                    match text->0 {
                        Err(fault) => Err(fault),
                        Ok(coverage) => Ok(
                            ElementBounds {
                                x,
                                y,
                                width: coverage.width as u32,
                                height: coverage.height as u32,
                            },
                        ),
                    }
                },
            }
        },
        ElementModel::CutMark | ElementModel::Padding { .. } => Err(
            RenderFault::Layout("cut marks and padding are only supported by flow layouts"@),
        ),
    }
}

/// The ink of an element at the size of its raster rectangle.
pub open spec fn element_ink(
    element: ElementModel,
    text: Option<Result<GrayImage, RenderFault>>,
    slot: ElementBounds,
) -> Raster {
    let (width, height) = (slot.width as nat, slot.height as nat);
    match element {
        ElementModel::Image { bitmap, flip_h, flip_v, .. } => bitmap->0.resized(
            width,
            height,
        ).mirrored(flip_h, flip_v),
        ElementModel::Text { flip_h, flip_v, .. } => thresholded(
            text->0->Ok_0.resized(width, height),
            127,
        ).mirrored(flip_h, flip_v),
        _ => Raster::blank(width, height),
    }
}

/// Ink and where its corner lies in the raster.
pub struct Mark {
    pub ink: Raster,
    pub x: int,
    pub y: int,
}

impl Mark {
    /// Whether a pixel of the raster gets dark.
    pub open spec fn inks(self, p: (int, int)) -> bool {
        self.ink.dark.contains((p.0 - self.x, p.1 - self.y))
    }
}

/// What an element adds to a label.
pub struct Placement {
    /// Its bounds in document pixels.
    pub bounds: ElementBounds,
    /// How far the label reaches for its sake, in document pixels.
    pub right: u32,
    /// Its rectangle on the raster. An empty text has none.
    pub slot: Option<ElementBounds>,
}

/// What an element adds to a label, or why it cannot be drawn.
pub open spec fn placement(
    element: ElementModel,
    text: Option<Result<GrayImage, RenderFault>>,
    logical_height: u32,
    document_dpi: u16,
    target: StandardTarget,
    element_index: int,
) -> Result<Placement, RenderFault> {
    match logical_bounds(element, text, logical_height) {
        Err(fault) => Err(fault),
        Ok(bounds) => if is_empty_text(element) {
            Ok(Placement { bounds, right: 0, slot: None })
        } else {
            match raster_slot(bounds, document_dpi, target, element_index, kind_name(element)) {
                Err(fault) => Err(fault),
                Ok((slot, right)) => Ok(Placement { bounds, right, slot: Some(slot) }),
            }
        },
    }
}

/// A document, the printer it is drawn for, and what became of rendering the
/// texts of its elements.
pub struct Job {
    pub document: DocumentModel,
    pub target: StandardTarget,
    pub texts: Seq<Option<Result<GrayImage, RenderFault>>>,
}

impl Job {
    /// Height of the label in document pixels.
    pub open spec fn logical_height(self) -> u32 {
        (scaled_edge(
            self.target.tape_width_px as int,
            self.target.cross_dpi as int,
            self.document.dpi as int,
        ) % 0x1_0000_0000) as u32
    }

    /// What the element at an index adds.
    pub open spec fn placement(self, i: int) -> Result<Placement, RenderFault> {
        placement(
            self.document.elements[i],
            self.texts[i],
            self.logical_height(),
            self.document.dpi,
            self.target,
            i,
        )
    }

    /// The fault in the first of the first `n` elements that cannot be drawn.
    pub open spec fn element_fault(self, n: int) -> Option<RenderFault>
        decreases n,
    {
        if n <= 0 {
            None
        } else if self.element_fault(n - 1) is Some {
            self.element_fault(n - 1)
        } else {
            match self.placement(n - 1) {
                Err(fault) => Some(fault),
                Ok(_) => None,
            }
        }
    }

    /// How far the first `n` elements reach.
    pub open spec fn right_edge(self, n: int) -> int
        decreases n,
    {
        if n <= 0 {
            0
        } else {
            vstd::math::max(self.right_edge(n - 1), self.placement(n - 1)->Ok_0.right as int)
        }
    }

    /// Length of the label in document pixels.
    pub open spec fn logical_width(self) -> int {
        vstd::math::max(
            self.document.min_length as int,
            self.right_edge(self.document.elements.len() as int) + self.document.end_padding,
        )
    }

    /// What the element at an index leaves on the raster.
    pub open spec fn mark(self, i: int) -> Option<Mark> {
        match self.placement(i)->Ok_0.slot {
            Some(slot) => Some(
                Mark {
                    ink: element_ink(self.document.elements[i], self.texts[i], slot),
                    x: slot.x as int,
                    y: slot.y as int,
                },
            ),
            None => None,
        }
    }

    /// Whether the element at an index makes a pixel of the raster dark.
    pub open spec fn inks(self, i: int, p: (int, int)) -> bool {
        match self.mark(i) {
            Some(mark) => mark.inks(p),
            None => false,
        }
    }

    /// The raster with the ink of the first `n` elements.
    pub open spec fn composed(self, n: int) -> Raster {
        let width = scaled_edge(
            self.logical_width(),
            self.document.dpi as int,
            self.target.feed_dpi as int,
        );
        let height = self.target.tape_width_px as int;
        Raster {
            width: width as nat,
            height: height as nat,
            dark: Set::new(
                |p: (int, int)|
                    0 <= p.0 < width && 0 <= p.1 < height && exists|i: int|
                        0 <= i < n && #[trigger] self.inks(i, p),
            ),
        }
    }

    /// The finished raster.
    pub open spec fn raster(self) -> Raster {
        self.composed(self.document.elements.len() as int).mirrored(
            self.document.flip_h,
            self.document.flip_v,
        )
    }

    /// Why no element is looked at.
    pub open spec fn document_fault(self) -> Option<RenderFault> {
        if version_fault(self.document.version) is Some {
            version_fault(self.document.version)
        } else if self.document.dpi == 0 || self.target.cross_dpi == 0 || self.target.feed_dpi
            == 0 {
            Some(
                RenderFault::Layout(
                    "document and target resolutions must be greater than zero"@,
                ),
            )
        } else if self.document.layout != LayoutMode::Positioned {
            Some(RenderFault::Layout("expected a positioned document"@))
        } else {
            None
        }
    }

    /// Whether the rendered text of the element at an index is looked at, which
    /// takes that all elements before it can be drawn.
    pub open spec fn wants_text(self, i: int) -> bool {
        &&& self.document_fault() is None
        &&& self.element_fault(i) is None
        &&& asks_for_text(self.document.elements[i])
    }

    /// Why the label cannot be drawn.
    pub open spec fn fault(self) -> Option<RenderFault> {
        let n = self.document.elements.len() as int;
        if self.document_fault() is Some {
            self.document_fault()
        } else if self.element_fault(n) is Some {
            self.element_fault(n)
        } else if self.right_edge(n) + self.document.end_padding > u32::MAX {
            Some(RenderFault::Layout("positioned label length is too large"@))
        } else {
            match target_edge(self.logical_width(), self.document.dpi, self.target.feed_dpi) {
                Err(fault) => Some(fault),
                Ok(_) => None,
            }
        }
    }

    /// Whether the rendered text of the element at an index can be brought to the
    /// size of its rectangle on the raster.
    pub open spec fn can_be_resized(self, i: int) -> bool {
        match (self.texts[i], self.placement(i)) {
            (Some(Ok(coverage)), Ok(place)) => self.document.elements[i] is Text
                && place.slot is Some ==> resizable(
                coverage,
                place.slot->0.width as int,
                place.slot->0.height as int,
            ),
            _ => true,
        }
    }

    /// Whether the texts of a label that gets drawn can be resized.
    pub open spec fn is_drawable(self) -> bool {
        self.fault() is None ==> forall|i: int|
            0 <= i < self.document.elements.len() ==> #[trigger] self.can_be_resized(i)
    }

    /// The label, or why it cannot be drawn.
    pub open spec fn label(self) -> Result<LabelModel, RenderFault> {
        match self.fault() {
            Some(fault) => Err(fault),
            None => Ok(
                LabelModel {
                    printer_raster: self.raster(),
                    preview: self.raster(),
                    logical_dimensions: LabelDimensions {
                        width: self.logical_width() as u32,
                        height: self.logical_height(),
                    },
                    element_bounds: Seq::new(
                        self.document.elements.len(),
                        |i: int| self.placement(i)->Ok_0.bounds,
                    ),
                },
            ),
        }
    }
}

/// The mathematical value of what became of rendering a text.
pub open spec fn text_model(text: Option<Result<GrayCanvas, RenderError>>) -> Option<
    Result<GrayImage, RenderFault>,
> {
    match text {
        None => None,
        Some(Ok(coverage)) => Some(Ok(coverage@)),
        Some(Err(error)) => Some(Err(error@)),
    }
}

/// A rendered text is a proper image.
pub open spec fn is_proper(text: Option<Result<GrayCanvas, RenderError>>) -> bool {
    match text {
        Some(Ok(coverage)) => coverage.wf(),
        _ => true,
    }
}

/// All rendered texts are proper images.
pub open spec fn are_proper(texts: Seq<Option<Result<GrayCanvas, RenderError>>>) -> bool {
    forall|i: int| 0 <= i < texts.len() ==> is_proper(#[trigger] texts[i])
}

/// The text at an index; behind the end there is none.
pub open spec fn text_at(texts: Seq<Option<Result<GrayCanvas, RenderError>>>, i: int) -> Option<
    Result<GrayCanvas, RenderError>,
> {
    if 0 <= i < texts.len() {
        texts[i]
    } else {
        None
    }
}

/// A document drawn for a printer with the same resolution in both directions.
pub open spec fn label_job(
    document: LabelDocument,
    tape_width_px: u32,
    dpi: u16,
    texts: Seq<Option<Result<GrayCanvas, RenderError>>>,
) -> Job {
    Job {
        document: document@,
        target: StandardTarget { tape_width_px, cross_dpi: dpi, feed_dpi: dpi },
        texts: Seq::new(document.elements@.len(), |i: int| text_model(text_at(texts, i))),
    }
}

/// Every text that is looked at is there.
pub open spec fn texts_are_ready(job: Job) -> bool {
    forall|i: int|
        0 <= i < job.document.elements.len() && #[trigger] job.wants_text(i) ==> job.texts[i]
            is Some
}

/// Looks a rendered text up.
fn find_text<'a>(texts: &'a Vec<Option<Result<GrayCanvas, RenderError>>>, i: usize) -> (text:
    Option<&'a Result<GrayCanvas, RenderError>>)
    ensures
        match text {
            Some(text) => text_at(texts@, i as int) == Some(*text),
            None => text_at(texts@, i as int) is None,
        },
{
    if i < texts.len() {
        texts[i].as_ref()
    } else {
        None
    }
}

/// An element that is to be drawn into its raster rectangle.
enum PositionedElement<'a> {
    Image { source: &'a LabelBitmap, slot: ElementBounds, flip_h: bool, flip_v: bool },
    Text { coverage: &'a GrayCanvas, slot: ElementBounds, flip_h: bool, flip_v: bool },
}

impl<'a> PositionedElement<'a> {
    spec fn slot(&self) -> ElementBounds {
        match *self {
            PositionedElement::Image { slot, .. } => slot,
            PositionedElement::Text { slot, .. } => slot,
        }
    }

    spec fn ink(&self) -> Raster {
        let (width, height) = (self.slot().width as nat, self.slot().height as nat);
        match *self {
            PositionedElement::Image { source, flip_h, flip_v, .. } => source@.resized(
                width,
                height,
            ).mirrored(flip_h, flip_v),
            PositionedElement::Text { coverage, flip_h, flip_v, .. } => thresholded(
                coverage@.resized(width, height),
                127,
            ).mirrored(flip_h, flip_v),
        }
    }

    /// Whether this is the given element with its rendered text.
    spec fn draws(
        &self,
        element: ElementModel,
        text: Option<Result<GrayImage, RenderFault>>,
    ) -> bool {
        match (*self, element) {
            (
                PositionedElement::Image { source, flip_h, flip_v, .. },
                ElementModel::Image { bitmap, flip_h: h, flip_v: v, .. },
            ) => bitmap == Some(source@) && flip_h == h && flip_v == v,
            (
                PositionedElement::Text { coverage, flip_h, flip_v, .. },
                ElementModel::Text { flip_h: h, flip_v: v, .. },
            ) => text == Some(Ok::<GrayImage, RenderFault>(coverage@)) && flip_h == h && flip_v == v,
            _ => false,
        }
    }

    spec fn mark(&self) -> Mark {
        Mark { ink: self.ink(), x: self.slot().x as int, y: self.slot().y as int }
    }

    spec fn wf(&self) -> bool {
        &&& self.slot().x + self.slot().width <= u32::MAX
        &&& self.slot().y + self.slot().height <= u32::MAX
        &&& match *self {
            PositionedElement::Image { source, .. } => source.wf(),
            PositionedElement::Text { coverage, .. } => coverage.wf(),
        }
    }

    spec fn is_drawable(&self) -> bool {
        match *self {
            PositionedElement::Image { .. } => true,
            PositionedElement::Text { coverage, slot, .. } => resizable(
                coverage@,
                slot.width as int,
                slot.height as int,
            ),
        }
    }

    /// Whether the element can be brought to the size of its rectangle.
    fn can_be_drawn(&self) -> (possible: bool)
        requires
            self.wf(),
        ensures
            possible == self.is_drawable(),
    {
        match self {
            PositionedElement::Image { .. } => true,
            PositionedElement::Text { coverage, slot, .. } => coverage.can_be_resized(
                slot.width,
                slot.height,
            ),
        }
    }

    /// Adds the element to the raster.
    fn draw(&self, raster: &mut LabelBitmap)
        requires
            self.wf(),
            self.is_drawable(),
            old(raster).wf(),
        ensures
            final(raster).wf(),
            final(raster)@ == old(raster)@.overlaid(self.mark().ink, self.mark().x, self.mark().y),
    {
        match self {
            PositionedElement::Image { source, slot, flip_h, flip_v } => {
                let image = source.scale_to_size(slot.width, slot.height).mirrored(
                    *flip_h,
                    *flip_v,
                );
                blit(raster, &image, slot.x, slot.y);
            },
            PositionedElement::Text { coverage, slot, flip_h, flip_v } => {
                let scaled = coverage.resized(slot.width, slot.height);
                let image = LabelBitmap::from_gray_image(&scaled, 127).mirrored(*flip_h, *flip_v);
                blit(raster, &image, slot.x, slot.y);
            },
        }
    }
}

/// A text that was looked up.
spec fn owned_text(text: Option<&Result<GrayCanvas, RenderError>>) -> Option<
    Result<GrayCanvas, RenderError>,
> {
    match text {
        Some(text) => Some(*text),
        None => None,
    }
}

/// Finds the place of one element.
fn place_element<'a>(
    element: &'a LabelElement,
    text: Option<&'a Result<GrayCanvas, RenderError>>,
    logical_height: u32,
    document_dpi: u16,
    target: &StandardTarget,
    element_index: usize,
) -> (result: Result<(ElementBounds, u32, Option<PositionedElement<'a>>), RenderError>)
    requires
        element.wf(),
        is_proper(owned_text(text)),
        asks_for_text(element@) ==> text is Some,
        document_dpi > 0,
        element_index < usize::MAX,
    ensures
        match (
            placement(
                element@,
                text_model(owned_text(text)),
                logical_height,
                document_dpi,
                *target,
                element_index as int,
            ),
            result,
        ) {
            (Err(fault), Err(error)) => error@ == fault,
            (Ok(place), Ok((bounds, right, positioned))) => {
                &&& bounds == place.bounds
                &&& right == place.right
                &&& match positioned {
                    Some(positioned) => {
                        &&& positioned.wf()
                        &&& place.slot == Some(positioned.slot())
                        &&& positioned.draws(element@, text_model(owned_text(text)))
                    },
                    None => place.slot is None,
                }
            },
            _ => false,
        },
{
    match element {
        LabelElement::Image {
            bitmap,
            x,
            y,
            rotation,
            target_width,
            target_height,
            flip_h,
            flip_v,
        } => {
            require_no_rotation(*rotation, "image")?;
            let source = match bitmap {
                Some(source) => source,
                None => {
                    return Err(
                        RenderError::Layout("positioned image has no decoded bitmap".to_string()),
                    );
                },
            };
            let x: u32 = required_coordinate(*x, "image", "x")?;
            let y: u32 = required_coordinate(*y, "image", "y")?;
            let (width, height) = image_dimensions(
                source,
                *target_width,
                *target_height,
                logical_height,
            );
            let bounds = ElementBounds { x, y, width, height };
            let (slot, right) = positioned_raster_bounds(
                bounds,
                document_dpi,
                target,
                element_index,
                "image",
            )?;
            proof {
                lemma_slot(bounds, document_dpi, *target, element_index as int, "image"@);
            }
            let positioned = PositionedElement::Image {
                source,
                slot,
                flip_h: *flip_h,
                flip_v: *flip_v,
            };
            Ok((bounds, right, Some(positioned)))
        },
        LabelElement::Text { content, x, y, font_size, rotation, flip_h, flip_v, .. } => {
            let x: u32 = required_coordinate(*x, "text", "x")?;
            let y: u32 = required_coordinate(*y, "text", "y")?;
            if content.as_str().is_empty() {
                return Ok((ElementBounds { x, y, width: 0, height: 0 }, 0, None));
            }
            require_no_rotation(*rotation, "text")?;
            if font_size.is_none() {
                return Err(RenderError::Layout("positioned text requires font_size".to_string()));
            }
            let coverage = match text {
                Some(text) => match text {
                    Ok(coverage) => coverage,
                    Err(error) => {
                        return Err(error.clone());
                    },
                },
                None => {
                    return Err(RenderError::Text("no text to render".to_string()));
                },
            };
            let bounds = ElementBounds {
                x,
                y,
                width: coverage.width(),
                height: coverage.height(),
            };
            let (slot, right) = positioned_raster_bounds(
                bounds,
                document_dpi,
                target,
                element_index,
                "text",
            )?;
            proof {
                lemma_slot(bounds, document_dpi, *target, element_index as int, "text"@);
            }
            let positioned = PositionedElement::Text {
                coverage,
                slot,
                flip_h: *flip_h,
                flip_v: *flip_v,
            };
            Ok((bounds, right, Some(positioned)))
        },
        LabelElement::CutMark => Err(
            RenderError::Layout(
                "cut marks and padding are only supported by flow layouts".to_string(),
            ),
        ),
        LabelElement::Padding { .. } => Err(
            RenderError::Layout(
                "cut marks and padding are only supported by flow layouts".to_string(),
            ),
        ),
    }
}

/// A raster rectangle lies on the tape, and its edges are those of the element.
pub proof fn lemma_slot(
    bounds: ElementBounds,
    document_dpi: u16,
    target: StandardTarget,
    element_index: int,
    element_kind: Seq<char>,
)
    requires
        document_dpi > 0,
    ensures
        match raster_slot(bounds, document_dpi, target, element_index, element_kind) {
            Ok((slot, right)) => {
                &&& right == bounds.x + bounds.width
                &&& slot.x == scaled_edge(
                    bounds.x as int,
                    document_dpi as int,
                    target.feed_dpi as int,
                )
                &&& slot.y == scaled_edge(
                    bounds.y as int,
                    document_dpi as int,
                    target.cross_dpi as int,
                )
                &&& slot.x + slot.width == scaled_edge(
                    right as int,
                    document_dpi as int,
                    target.feed_dpi as int,
                ) <= u32::MAX
                &&& slot.y + slot.height == scaled_edge(
                    bounds.y + bounds.height,
                    document_dpi as int,
                    target.cross_dpi as int,
                ) <= target.tape_width_px
            },
            Err(_) => true,
        },
{
    let (from, feed, cross) = (
        document_dpi as int,
        target.feed_dpi as int,
        target.cross_dpi as int,
    );
    law_edges_keep_their_order(bounds.x as int, bounds.x + bounds.width, from, feed);
    law_edges_keep_their_order(bounds.y as int, bounds.y + bounds.height, from, cross);
    lemma_scaled_edge(bounds.x as int, from, feed);
    lemma_scaled_edge(bounds.y as int, from, cross);
}

/// The first fault decides.
pub proof fn lemma_first_fault(job: Job, k: int, n: int)
    requires
        0 <= k <= n,
    ensures
        job.element_fault(k) is Some ==> job.element_fault(n) == job.element_fault(k),
        job.element_fault(n) is None ==> forall|i: int|
            k <= i < n ==> (#[trigger] job.placement(i)) is Ok,
    decreases n - k,
{
    if k < n {
        lemma_first_fault(job, k, n - 1);
    }
}

/// How far elements reach is not negative, and no less than any of them reaches.
pub proof fn lemma_right_edge(job: Job, n: int)
    ensures
        0 <= job.right_edge(n) <= u32::MAX,
        forall|i: int|
            0 <= i < n ==> (#[trigger] job.placement(i))->Ok_0.right <= job.right_edge(n),
    decreases n,
{
    if n > 0 {
        lemma_right_edge(job, n - 1);
    }
}

/// Finds the places of all elements.
fn place_elements<'a>(
    document: &'a LabelDocument,
    texts: &'a Vec<Option<Result<GrayCanvas, RenderError>>>,
    logical_height: u32,
    target: &StandardTarget,
    Ghost(job): Ghost<Job>,
) -> (result: Result<
    (Vec<ElementBounds>, Vec<Option<PositionedElement<'a>>>, u32),
    RenderError,
>)
    requires
        document.wf(),
        are_proper(texts@),
        texts_are_ready(job),
        job.document_fault() is None,
        target.cross_dpi == target.feed_dpi,
        job == label_job(*document, target.tape_width_px, target.feed_dpi, texts@),
        logical_height == job.logical_height(),
    ensures
        match result {
            Err(error) => job.element_fault(document.elements@.len() as int) == Some(error@),
            Ok((bounds, positioned, right_edge)) => {
                &&& job.element_fault(document.elements@.len() as int) is None
                &&& right_edge == job.right_edge(document.elements@.len() as int)
                &&& bounds@.len() == document.elements@.len()
                &&& positioned@.len() == document.elements@.len()
                &&& forall|i: int|
                    0 <= i < document.elements@.len() ==> {
                        let place = (#[trigger] job.placement(i))->Ok_0;
                        &&& bounds@[i] == place.bounds
                        &&& is_placed(positioned@[i], job, i)
                    }
            },
        },
{
    let count: usize = document.elements.len();
    let mut bounds: Vec<ElementBounds> = Vec::new();
    let mut positioned: Vec<Option<PositionedElement>> = Vec::new();
    let mut right_edge: u32 = 0;
    let mut element_index: usize = 0;
    while element_index < count
        invariant
            element_index <= count == document.elements@.len(),
            document.wf(),
            are_proper(texts@),
            texts_are_ready(job),
            job.document_fault() is None,
            target.cross_dpi == target.feed_dpi,
            job == label_job(*document, target.tape_width_px, target.feed_dpi, texts@),
            logical_height == job.logical_height(),
            job.element_fault(element_index as int) is None,
            right_edge == job.right_edge(element_index as int),
            bounds@.len() == element_index,
            positioned@.len() == element_index,
            forall|i: int|
                0 <= i < element_index ==> {
                    let place = (#[trigger] job.placement(i))->Ok_0;
                    &&& bounds@[i] == place.bounds
                    &&& is_placed(positioned@[i], job, i)
                },
        decreases count - element_index,
    {
        proof {
            lemma_first_fault(job, element_index + 1, count as int);
            assert(job.wants_text(element_index as int) == asks_for_text(
                document.elements@[element_index as int]@,
            ));
        }
        let (element_bounds, element_right_edge, element) = place_element(
            &document.elements[element_index],
            find_text(texts, element_index),
            logical_height,
            document.dpi,
            target,
            element_index,
        )?;
        if element_right_edge > right_edge {
            right_edge = element_right_edge;
        }
        bounds.push(element_bounds);
        positioned.push(element);
        element_index = element_index + 1;
    }
    Ok((bounds, positioned, right_edge))
}

/// Whether this is what is to be drawn of the element at an index.
spec fn is_placed(element: Option<PositionedElement>, job: Job, i: int) -> bool {
    let slot = job.placement(i)->Ok_0.slot;
    match element {
        Some(element) => {
            &&& element.wf()
            &&& slot == Some(element.slot())
            &&& element.draws(job.document.elements[i], job.texts[i])
        },
        None => slot is None,
    }
}

/// What is drawn of an element is the mark that it leaves.
proof fn lemma_placed_mark(element: Option<PositionedElement>, job: Job, i: int)
    requires
        is_placed(element, job, i),
        job.placement(i) is Ok,
    ensures
        element is Some ==> job.mark(i) == Some(element->0.mark()),
        element is None ==> job.mark(i) is None,
        job.can_be_resized(i) == (element is None || element->0.is_drawable()),
{
}

/// Whether an element that is to be drawn makes a pixel dark.
spec fn darkens(element: Option<PositionedElement>, p: (int, int)) -> bool {
    match element {
        Some(element) => element.mark().inks(p),
        None => false,
    }
}

/// Adds elements to the raster.
fn draw_elements(positioned: &Vec<Option<PositionedElement>>, raster: &mut LabelBitmap)
    requires
        old(raster).wf(),
        forall|i: int|
            0 <= i < positioned@.len() && (#[trigger] positioned@[i]) is Some
                ==> positioned@[i]->0.wf() && positioned@[i]->0.is_drawable(),
    ensures
        final(raster).wf(),
        final(raster)@ == (Raster {
            dark: Set::new(
                |p: (int, int)|
                    old(raster)@.dark.contains(p) || (old(raster)@.covers(p.0, p.1) && exists|i: int|
                        0 <= i < positioned@.len() && #[trigger] darkens(positioned@[i], p)),
            ),
            ..old(raster)@
        }),
{
    let mut i: usize = 0;
    while i < positioned.len()
        invariant
            i <= positioned@.len(),
            forall|i: int|
                0 <= i < positioned@.len() && (#[trigger] positioned@[i]) is Some
                    ==> positioned@[i]->0.wf() && positioned@[i]->0.is_drawable(),
            raster.wf(),
            raster@.width == old(raster)@.width,
            raster@.height == old(raster)@.height,
            forall|p: (int, int)| #[trigger]
                raster@.dark.contains(p) == (old(raster)@.dark.contains(p) || (
                old(raster)@.covers(p.0, p.1) && exists|k: int|
                    0 <= k < i && #[trigger] darkens(positioned@[k], p))),
        decreases positioned@.len() - i,
    {
        let ghost before = raster@;
        if let Some(element) = &positioned[i] {
            element.draw(raster);
        }
        assert forall|p: (int, int)| #[trigger]
            raster@.dark.contains(p) == (old(raster)@.dark.contains(p) || (old(raster)@.covers(
                p.0,
                p.1,
            ) && exists|k: int| 0 <= k < i + 1 && #[trigger] darkens(positioned@[k], p))) by {
            assert(raster@.dark.contains(p) == (before.dark.contains(p) || (before.covers(p.0, p.1)
                && darkens(positioned@[i as int], p))));
        }
        i = i + 1;
    }
    assert(raster@ =~= (Raster {
        dark: Set::new(
            |p: (int, int)|
                old(raster)@.dark.contains(p) || (old(raster)@.covers(p.0, p.1) && exists|i: int|
                    0 <= i < positioned@.len() && #[trigger] darkens(positioned@[i], p)),
        ),
        ..old(raster)@
    }));
}

/// Checks a document before its elements are looked at.
fn check_document(document: &LabelDocument, target: &StandardTarget, Ghost(job): Ghost<Job>) -> (
    result: Result<(), RenderError>)
    requires
        job.document == document@,
        job.target == *target,
    ensures
        match result {
            Ok(_) => job.document_fault() is None,
            Err(error) => job.document_fault() == Some(error@),
        },
{
    document.validate_version()?;
    if document.dpi == 0 || target.cross_dpi == 0 || target.feed_dpi == 0 {
        return Err(
            RenderError::Layout(
                "document and target resolutions must be greater than zero".to_string(),
            ),
        );
    }
    if document.layout != LayoutMode::Positioned {
        return Err(RenderError::Layout("expected a positioned document".to_string()));
    }
    Ok(())
}

/// Finds the first element whose text has to be rendered before the document can
/// be, given the texts that are there.
pub fn next_text(
    document: &LabelDocument,
    tape_width_px: u32,
    dpi: u16,
    texts: &Vec<Option<Result<GrayCanvas, RenderError>>>,
) -> (next: Option<usize>)
    requires
        document.wf(),
        are_proper(texts@),
    ensures
        ({
            let job = label_job(*document, tape_width_px, dpi, texts@);
            match next {
                Some(i) => {
                    &&& i < document.elements@.len()
                    &&& job.wants_text(i as int)
                    &&& job.texts[i as int] is None
                    &&& forall|k: int|
                        0 <= k < i && #[trigger] job.wants_text(k) ==> job.texts[k] is Some
                },
                None => texts_are_ready(job),
            }
        }),
{
    let target = StandardTarget { tape_width_px, cross_dpi: dpi, feed_dpi: dpi };
    let ghost job = label_job(*document, tape_width_px, dpi, texts@);
    if check_document(document, &target, Ghost(job)).is_err() {
        return None;
    }
    let logical_height: u32 = scale(target.tape_width_px, target.cross_dpi, document.dpi);
    let count: usize = document.elements.len();
    let mut i: usize = 0;
    while i < count
        invariant
            i <= count == document.elements@.len(),
            document.wf(),
            are_proper(texts@),
            target == (StandardTarget { tape_width_px, cross_dpi: dpi, feed_dpi: dpi }),
            job == label_job(*document, tape_width_px, dpi, texts@),
            job.document_fault() is None,
            logical_height == job.logical_height(),
            job.element_fault(i as int) is None,
            forall|k: int| 0 <= k < i && #[trigger] job.wants_text(k) ==> job.texts[k] is Some,
        decreases count - i,
    {
        let element = &document.elements[i];
        let text = find_text(texts, i);
        if is_drawn_from_text(element) && text.is_none() {
            return Some(i);
        }
        if place_element(element, text, logical_height, document.dpi, &target, i).is_err() {
            proof {
                assert(job.placement(i as int) is Err);
                assert forall|k: int|
                    0 <= k < count && #[trigger] job.wants_text(k) implies job.texts[k] is Some by {
                    if k > i {
                        lemma_first_fault(job, i + 1, k);
                    }
                }
            }
            return None;
        }
        i = i + 1;
    }
    None
}

/// What the font engine is asked for an element: the lines of its content in the
/// family of the document at the size of the element, in normal weight and
/// tightly bounded. The size is in points and counts at the resolution of the
/// document.
pub open spec fn requested_text(document: DocumentModel, index: int) -> RequestModel {
    match document.elements[index] {
        ElementModel::Text { content, font_size: Some(font_size), .. } => tight_text(
            lines_of(content),
            document.font_name,
            font_size,
            NORMAL_WEIGHT,
        ),
        _ => tight_text(Seq::empty(), document.font_name, 0, NORMAL_WEIGHT),
    }
}

/// Tells what the font engine is asked for an element that [`next_text`] found.
pub fn text_request(document: &LabelDocument, index: usize) -> (request: TextRequest)
    requires
        index < document.elements@.len(),
        asks_for_text(document@.elements[index as int]),
    ensures
        request@ == requested_text(document@, index as int),
{
    match &document.elements[index] {
        LabelElement::Text { content, font_size: Some(font_size), .. } => request_tight_text(
            split_lines(content.as_str()),
            document.font_name.as_str(),
            *font_size,
            NORMAL_WEIGHT,
        ),
        _ => request_tight_text(Vec::new(), document.font_name.as_str(), 0, NORMAL_WEIGHT),
    }
}

/// A document with all that has to be known to draw it.
struct Arrangement<'a> {
    bounds: Vec<ElementBounds>,
    positioned: Vec<Option<PositionedElement<'a>>>,
    dimensions: LabelDimensions,
    raster_width: u32,
}

impl<'a> Arrangement<'a> {
    /// Whether this is what is to be drawn of a job.
    spec fn arranges(&self, job: Job) -> bool {
        let n = job.document.elements.len();
        &&& job.fault() is None
        &&& self.dimensions.width == job.logical_width()
        &&& self.dimensions.height == job.logical_height()
        &&& self.raster_width == scaled_edge(
            job.logical_width(),
            job.document.dpi as int,
            job.target.feed_dpi as int,
        )
        &&& self.bounds@.len() == n
        &&& self.positioned@.len() == n
        &&& forall|i: int|
            0 <= i < n ==> {
                let place = (#[trigger] job.placement(i))->Ok_0;
                &&& job.placement(i) is Ok
                &&& self.bounds@[i] == place.bounds
                &&& is_placed(self.positioned@[i], job, i)
            }
    }
}

/// Finds the places of all elements and the size of the label.
fn arrange<'a>(
    document: &'a LabelDocument,
    texts: &'a Vec<Option<Result<GrayCanvas, RenderError>>>,
    target: &StandardTarget,
    Ghost(job): Ghost<Job>,
) -> (result: Result<Arrangement<'a>, RenderError>)
    requires
        document.wf(),
        are_proper(texts@),
        texts_are_ready(job),
        target.cross_dpi == target.feed_dpi,
        job == label_job(*document, target.tape_width_px, target.feed_dpi, texts@),
    ensures
        match result {
            Ok(arrangement) => arrangement.arranges(job),
            Err(error) => job.fault() == Some(error@),
        },
{
    check_document(document, target, Ghost(job))?;
    let logical_height: u32 = scale(target.tape_width_px, target.cross_dpi, document.dpi);
    let (bounds, positioned, right_edge) = place_elements(
        document,
        texts,
        logical_height,
        target,
        Ghost(job),
    )?;
    if document.end_padding > 0xffff_ffff - right_edge {
        return Err(RenderError::Layout("positioned label length is too large".to_string()));
    }
    let padded_right_edge: u32 = right_edge + document.end_padding;
    let logical_width: u32 = if document.min_length > padded_right_edge {
        document.min_length
    } else {
        padded_right_edge
    };
    proof {
        lemma_scaled_edge(logical_width as int, document.dpi as int, target.feed_dpi as int);
        lemma_first_fault(job, 0, document.elements@.len() as int);
    }
    let raster_width: u32 = scale_positioned_edge(logical_width, document.dpi, target.feed_dpi)?;
    let dimensions = LabelDimensions { width: logical_width, height: logical_height };
    Ok(Arrangement { bounds, positioned, dimensions, raster_width })
}

/// Finds the first text that cannot be resized.
fn first_oversized(arrangement: &Arrangement, Ghost(job): Ghost<Job>) -> (found: Option<usize>)
    requires
        arrangement.arranges(job),
    ensures
        match found {
            Some(i) => {
                &&& i < job.document.elements.len()
                &&& !job.can_be_resized(i as int)
                &&& forall|k: int| 0 <= k < i ==> #[trigger] job.can_be_resized(k)
            },
            None => job.is_drawable(),
        },
{
    let mut i: usize = 0;
    while i < arrangement.positioned.len()
        invariant
            i <= arrangement.positioned@.len(),
            arrangement.arranges(job),
            forall|k: int| 0 <= k < i ==> #[trigger] job.can_be_resized(k),
        decreases arrangement.positioned@.len() - i,
    {
        proof {
            assert(is_placed(arrangement.positioned@[i as int], job, i as int)) by {
                assert(job.placement(i as int) is Ok);
            }
            lemma_placed_mark(arrangement.positioned@[i as int], job, i as int);
        }
        if let Some(element) = &arrangement.positioned[i] {
            if !element.can_be_drawn() {
                return Some(i);
            }
        }
        i = i + 1;
    }
    None
}

/// Draws what was arranged.
fn compose(
    arrangement: Arrangement,
    document: &LabelDocument,
    target: &StandardTarget,
    Ghost(job): Ghost<Job>,
) -> (rendered: RenderedLabel)
    requires
        arrangement.arranges(job),
        job.is_drawable(),
        job.document == document@,
        job.target == *target,
    ensures
        rendered.wf(),
        job.label() == Ok::<LabelModel, RenderFault>(rendered@),
{
    let ghost n = document.elements@.len() as int;
    let ghost positioned = arrangement.positioned@;
    let mut printer_raster = LabelBitmap::new(arrangement.raster_width, target.tape_width_px);
    assert forall|i: int| 0 <= i < n implies {
        &&& (#[trigger] positioned[i]) is Some ==> positioned[i]->0.wf()
            && positioned[i]->0.is_drawable()
        &&& positioned[i] is Some ==> job.mark(i) == Some(positioned[i]->0.mark())
        &&& positioned[i] is None ==> job.mark(i) is None
    } by {
        assert(job.placement(i) is Ok);
        assert(job.can_be_resized(i));
        lemma_placed_mark(positioned[i], job, i);
    }
    draw_elements(&arrangement.positioned, &mut printer_raster);
    assert(printer_raster@ =~= job.composed(n)) by {
        assert forall|i: int, p: (int, int)| 0 <= i < n implies #[trigger] job.inks(i, p)
            == darkens(positioned[i], p) by {
        }
        assert forall|p: (int, int)|
            job.composed(n).dark.contains(p) == printer_raster@.dark.contains(p) by {
            if job.composed(n).dark.contains(p) {
                let i = choose|i: int| 0 <= i < n && #[trigger] job.inks(i, p);
                assert(darkens(positioned[i], p));
            }
            if printer_raster@.dark.contains(p) {
                let i = choose|i: int|
                    0 <= i < positioned.len() && #[trigger] darkens(positioned[i], p);
                assert(job.inks(i, p));
            }
        }
    }
    if document.flip_h || document.flip_v {
        printer_raster = printer_raster.mirrored(document.flip_h, document.flip_v);
    }
    assert(printer_raster@ =~= job.raster());
    let preview = printer_raster.clone();
    let rendered = RenderedLabel {
        printer_raster,
        preview,
        logical_dimensions: arrangement.dimensions,
        element_bounds: arrangement.bounds,
    };
    assert forall|i: int| 0 <= i < n implies rendered.element_bounds@[i] == (
    #[trigger] job.placement(i))->Ok_0.bounds by {
    }
    assert(rendered@ =~= job.label()->Ok_0);
    rendered
}

/// Renders a document for a specific runtime printer target.
///
/// `texts` holds, at the index of each element that [`next_text`] asks for, what
/// became of rendering its text at the resolution of the document.
pub fn render_positioned_document(
    document: &LabelDocument,
    tape_width_px: u32,
    dpi: u16,
    texts: &Vec<Option<Result<GrayCanvas, RenderError>>>,
) -> (result: Result<RenderedLabel, RenderError>)
    requires
        document.wf(),
        are_proper(texts@),
        texts_are_ready(label_job(*document, tape_width_px, dpi, texts@)),
        label_job(*document, tape_width_px, dpi, texts@).is_drawable(),
    ensures
        match (label_job(*document, tape_width_px, dpi, texts@).label(), result) {
            (Ok(label), Ok(rendered)) => rendered.wf() && rendered@ == label,
            (Err(fault), Err(error)) => error@ == fault,
            _ => false,
        },
{
    let target = StandardTarget { tape_width_px, cross_dpi: dpi, feed_dpi: dpi };
    let ghost job = label_job(*document, tape_width_px, dpi, texts@);
    let arrangement = arrange(document, texts, &target, Ghost(job))?;
    Ok(compose(arrangement, document, &target, Ghost(job)))
}

/// How far the rendering of a document has come.
#[derive(Debug)]
pub enum RenderStep {
    /// The text of the element at this index has to be rendered first.
    NeedsText(usize),
    /// The rendered text of the element at this index is too large to be brought
    /// to its size on the raster.
    TooLarge(usize),
    /// The label, or why it cannot be drawn.
    Finished(Result<RenderedLabel, RenderError>),
}

/// Renders a document as far as the texts go that are there.
///
/// The rendering starts without texts. Whenever one is asked for, what became of
/// rendering it is put at its index.
pub fn render_step(
    document: &LabelDocument,
    tape_width_px: u32,
    dpi: u16,
    texts: &Vec<Option<Result<GrayCanvas, RenderError>>>,
) -> (step: RenderStep)
    requires
        document.wf(),
        are_proper(texts@),
    ensures
        ({
            let job = label_job(*document, tape_width_px, dpi, texts@);
            match step {
                RenderStep::NeedsText(i) => {
                    &&& i < document.elements@.len()
                    &&& job.wants_text(i as int)
                    &&& job.texts[i as int] is None
                    &&& forall|k: int|
                        0 <= k < i && #[trigger] job.wants_text(k) ==> job.texts[k] is Some
                },
                RenderStep::TooLarge(i) => {
                    &&& texts_are_ready(job)
                    &&& job.fault() is None
                    &&& i < document.elements@.len()
                    &&& !job.can_be_resized(i as int)
                    &&& forall|k: int| 0 <= k < i ==> #[trigger] job.can_be_resized(k)
                },
                RenderStep::Finished(result) => {
                    &&& texts_are_ready(job)
                    &&& job.is_drawable()
                    &&& match (job.label(), result) {
                        (Ok(label), Ok(rendered)) => rendered.wf() && rendered@ == label,
                        (Err(fault), Err(error)) => error@ == fault,
                        _ => false,
                    }
                },
            }
        }),
{
    if let Some(i) = next_text(document, tape_width_px, dpi, texts) {
        return RenderStep::NeedsText(i);
    }
    let target = StandardTarget { tape_width_px, cross_dpi: dpi, feed_dpi: dpi };
    let ghost job = label_job(*document, tape_width_px, dpi, texts@);
    let arrangement = match arrange(document, texts, &target, Ghost(job)) {
        Ok(arrangement) => arrangement,
        Err(error) => return RenderStep::Finished(Err(error)),
    };
    if let Some(i) = first_oversized(&arrangement, Ghost(job)) {
        return RenderStep::TooLarge(i);
    }
    RenderStep::Finished(Ok(compose(arrangement, document, &target, Ghost(job))))
}

} // verus!
