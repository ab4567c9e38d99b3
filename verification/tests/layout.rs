use ptouch::bitmap::LabelBitmap;
use ptouch::document::{LabelDocument, LabelElement, LayoutMode};
use ptouch::error::RenderError;
use ptouch::gray::GrayCanvas;
use ptouch::layout::{
    blit, image_dimensions, next_text, positioned_raster_bounds, render_positioned_document,
    render_step, require_no_rotation, required_coordinate, scale, scale_positioned_edge,
    text_request, ElementBounds, LabelDimensions, RenderStep, RenderedLabel, StandardTarget,
};
use ptouch::text::TextAlign;

type Rendering = Option<Result<GrayCanvas, RenderError>>;

fn empty() -> LabelDocument {
    LabelDocument {
        version: 2,
        tape_width_mm: 24,
        dpi: 180,
        layout: LayoutMode::Positioned,
        min_length: 80,
        end_padding: 3,
        font_name: "sans-serif".to_string(),
        font_margin: 0,
        flip_h: false,
        flip_v: false,
        elements: Vec::new(),
    }
}

fn text(x: Option<u32>, y: Option<u32>) -> LabelElement {
    LabelElement::Text {
        content: "A".to_string(),
        x,
        y,
        font_size: Some(7.0f32.to_bits()),
        align: TextAlign::Left,
        rotation: 0.0f32.to_bits(),
        flip_h: false,
        flip_v: false,
    }
}

fn image(bitmap: LabelBitmap, x: u32, y: u32) -> LabelElement {
    LabelElement::Image {
        bitmap: Some(bitmap),
        x: Some(x),
        y: Some(y),
        rotation: 0.0f32.to_bits(),
        target_width: None,
        target_height: None,
        flip_h: false,
        flip_v: false,
    }
}

fn doc(y: u32) -> LabelDocument {
    let mut document = empty();
    document.elements.push(text(Some(10), Some(y)));
    document
}

/// Coverage of the size that seven points take at 180 dpi.
fn coverage() -> GrayCanvas {
    let levels = (0..12 * 21).map(|i| if i % 5 == 0 { 0 } else { 255 }).collect();
    GrayCanvas::from_levels(12, 21, levels).unwrap()
}

fn letter() -> Rendering {
    Some(Ok(coverage()))
}

fn render(document: &LabelDocument, tape: u32, dpi: u16) -> Result<RenderedLabel, RenderError> {
    let texts = document.elements.iter().map(|_| letter()).collect();
    render_positioned_document(document, tape, dpi, &texts)
}

fn refusal(document: &LabelDocument, tape: u32, dpi: u16) -> String {
    render(document, tape, dpi).unwrap_err().message()
}

fn dark(bitmap: &LabelBitmap) -> Vec<(u32, u32)> {
    let mut pixels = Vec::new();
    for y in 0..bitmap.height() {
        for x in 0..bitmap.width() {
            if bitmap.get_pixel(x, y) {
                pixels.push((x, y));
            }
        }
    }
    pixels
}

fn filled(width: u32, height: u32) -> LabelBitmap {
    let mut bitmap = LabelBitmap::new(width, height);
    for y in 0..height {
        for x in 0..width {
            bitmap.set_pixel(x, y, true);
        }
    }
    bitmap
}

#[test]
fn positioned_bounds_determine_length_and_reject_clipping() {
    let result = render(&doc(12), 128, 180).unwrap();
    assert_eq!(result.element_bounds[0].x, 10);
    assert_eq!(result.element_bounds[0].y, 12);
    assert_eq!(
        result.printer_raster.width(),
        80.max(13 + result.element_bounds[0].width)
    );
    let height = result.element_bounds[0].height;
    assert!(render(&doc(128 - height), 128, 180).is_ok());
    assert!(render(&doc(129 - height), 128, 180).is_err());
}

#[test]
fn positioned_design_scales_to_the_printer_dpi() {
    let document = doc(12);
    let low = render(&document, 128, 180).unwrap();
    let high = render(&document, 256, 360).unwrap();
    assert_eq!(high.printer_raster.width(), low.printer_raster.width() * 2);
    assert_eq!(
        high.printer_raster.height(),
        low.printer_raster.height() * 2
    );
    assert_eq!(high.element_bounds, low.element_bounds);
    assert_eq!(high.logical_dimensions, low.logical_dimensions);
}

#[test]
fn text_appears_where_it_is_placed() {
    let label = render(&doc(12), 128, 180).unwrap();
    let bounds = ElementBounds { x: 10, y: 12, width: 12, height: 21 };
    assert_eq!(label.element_bounds, vec![bounds]);
    assert_eq!(label.logical_dimensions, LabelDimensions { width: 80, height: 128 });
    let expected: Vec<(u32, u32)> = (0..12 * 21u32)
        .filter(|i| i % 5 == 0)
        .map(|i| (10 + i % 12, 12 + i / 12))
        .collect();
    assert_eq!(dark(&label.printer_raster), expected);
    assert_eq!(dark(&label.preview), expected);
    let copy = label.clone();
    assert_eq!(dark(&copy.printer_raster), expected);
}

#[test]
fn text_is_resized_with_the_printer() {
    let mut document = empty();
    document.min_length = 0;
    document.end_padding = 0;
    document.elements.push(text(Some(0), Some(0)));
    let black_and_white = GrayCanvas::from_levels(2, 1, vec![0, 255]).unwrap();
    let texts = vec![Some(Ok(black_and_white))];
    let label = render_positioned_document(&document, 4, 360, &texts).unwrap();
    assert_eq!((label.printer_raster.width(), label.printer_raster.height()), (4, 4));
    assert_eq!(dark(&label.printer_raster), vec![(0, 0), (1, 0), (0, 1), (1, 1)]);
}

#[test]
fn resizing_blends_neighbors() {
    let source = GrayCanvas::from_levels(2, 1, vec![0, 255]).unwrap();
    let wide = source.resized(4, 1);
    assert_eq!(wide.levels(), &vec![0, 64, 191, 255]);
    let same = source.resized(2, 1);
    assert_eq!(same.levels(), &vec![0, 255]);
    assert_eq!(source.resized(0, 3).levels().len(), 0);
    assert_eq!(source.resized(2, 0).levels().len(), 0);
    let nothing = GrayCanvas::from_levels(0, 0, vec![]).unwrap();
    assert_eq!(nothing.resized(2, 3).levels().len(), 6);
    assert!(GrayCanvas::from_levels(2, 2, vec![0; 3]).is_none());
}

#[test]
fn images_are_scaled_and_mirrored_into_their_bounds() {
    let mut picture = LabelBitmap::new(2, 1);
    picture.set_pixel(0, 0, true);
    let mut document = empty();
    document.min_length = 0;
    document.end_padding = 0;
    document.elements.push(LabelElement::Image {
        bitmap: Some(picture),
        x: Some(1),
        y: Some(0),
        rotation: 360.0f32.to_bits(),
        target_width: None,
        target_height: Some(2),
        flip_h: true,
        flip_v: false,
    });
    let label = render(&document, 3, 180).unwrap();
    let bounds = ElementBounds { x: 1, y: 0, width: 4, height: 2 };
    assert_eq!(label.element_bounds, vec![bounds]);
    assert_eq!(label.printer_raster.width(), 5);
    assert_eq!(dark(&label.printer_raster), vec![(3, 0), (4, 0), (3, 1), (4, 1)]);

    document.flip_h = true;
    document.flip_v = true;
    let mirrored = render(&document, 3, 180).unwrap();
    assert_eq!(dark(&mirrored.printer_raster), vec![(0, 1), (1, 1), (0, 2), (1, 2)]);
    let back = mirrored.printer_raster.mirrored(true, true);
    assert_eq!(dark(&back), dark(&label.printer_raster));
}

#[test]
fn pictures_keep_their_shape() {
    let picture = LabelBitmap::new(30, 20);
    assert_eq!(image_dimensions(&picture, None, None, 10), (15, 10));
    assert_eq!(image_dimensions(&picture, Some(7), None, 10), (7, 10));
    assert_eq!(image_dimensions(&picture, None, Some(4), 10), (6, 4));
    assert_eq!(image_dimensions(&picture, None, Some(0), 10), (1, 0));
    assert_eq!(image_dimensions(&LabelBitmap::new(30, 0), None, None, 10), (0, 10));
}

#[test]
fn an_empty_text_takes_no_place() {
    let mut document = empty();
    document.min_length = 5;
    document.elements.push(LabelElement::Text {
        content: String::new(),
        x: Some(1000),
        y: Some(1000),
        font_size: None,
        align: TextAlign::Left,
        rotation: 90.0f32.to_bits(),
        flip_h: false,
        flip_v: false,
    });
    let label = render_positioned_document(&document, 128, 180, &vec![None]).unwrap();
    let bounds = ElementBounds { x: 1000, y: 1000, width: 0, height: 0 };
    assert_eq!(label.element_bounds, vec![bounds]);
    assert_eq!(label.logical_dimensions.width, 5);
    assert!(dark(&label.printer_raster).is_empty());
}

#[test]
fn the_label_is_as_long_as_its_elements_ask_for() {
    let mut document = empty();
    document.min_length = 0;
    document.elements.push(text(Some(4), Some(0)));
    document.elements.push(text(Some(100), Some(0)));
    document.elements.push(text(Some(40), Some(0)));
    let label = render(&document, 128, 180).unwrap();
    assert_eq!(label.logical_dimensions.width, 100 + 12 + 3);
    assert_eq!(label.element_bounds.len(), 3);
    document.elements.clear();
    let label = render(&document, 128, 180).unwrap();
    assert_eq!(label.logical_dimensions.width, 3);
}

#[test]
fn documents_are_checked_in_order() {
    let mut document = empty();
    document.version = 3;
    document.dpi = 0;
    document.layout = LayoutMode::Flow;
    assert_eq!(refusal(&document, 128, 180), "unsupported document version 3");
    document.version = 1;
    let zero = "document and target resolutions must be greater than zero";
    assert_eq!(refusal(&document, 128, 180), zero);
    document.dpi = 180;
    assert_eq!(refusal(&document, 128, 0), zero);
    assert_eq!(refusal(&document, 128, 180), "expected a positioned document");
    document.layout = LayoutMode::Positioned;
    assert!(render(&document, 128, 180).is_ok());
}

#[test]
fn elements_are_checked_in_order() {
    let mut document = empty();
    document.elements.push(text(None, None));
    document.elements.push(LabelElement::CutMark);
    assert_eq!(refusal(&document, 128, 180), "positioned text requires x");
    document.elements[0] = text(Some(1), None);
    assert_eq!(refusal(&document, 128, 180), "positioned text requires y");
    document.elements[0] = text(Some(1), Some(1));
    let flow_only = "cut marks and padding are only supported by flow layouts";
    assert_eq!(refusal(&document, 128, 180), flow_only);
    document.elements[1] = LabelElement::Padding { length: 3 };
    assert_eq!(refusal(&document, 128, 180), flow_only);
}

#[test]
fn texts_need_a_size_and_must_not_be_turned() {
    let turned = |rotation: f32, size: Option<f32>| {
        let mut document = empty();
        document.elements.push(LabelElement::Text {
            content: "A".to_string(),
            x: Some(0),
            y: Some(0),
            font_size: size.map(f32::to_bits),
            align: TextAlign::Left,
            rotation: rotation.to_bits(),
            flip_h: false,
            flip_v: false,
        });
        document
    };
    let refused = "positioned text rotation is not supported";
    assert_eq!(refusal(&turned(90.0, None), 128, 180), refused);
    assert_eq!(
        refusal(&turned(0.0, None), 128, 180),
        "positioned text requires font_size"
    );
    assert!(render(&turned(-720.0, Some(7.0)), 128, 180).is_ok());
    let failed = vec![Some(Err(RenderError::Text("no text to render".to_string())))];
    let error = render_positioned_document(&turned(0.0, Some(7.0)), 128, 180, &failed);
    assert!(matches!(
        error,
        Err(RenderError::Text(text)) if text == "no text to render"
    ));
}

#[test]
fn images_need_pixels_and_must_not_be_turned() {
    let picture = |bitmap: Option<LabelBitmap>, x: Option<u32>, y: Option<u32>, rotation: f32| {
        let mut document = empty();
        document.elements.push(LabelElement::Image {
            bitmap,
            x,
            y,
            rotation: rotation.to_bits(),
            target_width: None,
            target_height: None,
            flip_h: false,
            flip_v: false,
        });
        document
    };
    assert_eq!(
        refusal(&picture(None, None, None, 45.0), 128, 180),
        "positioned image rotation is not supported"
    );
    assert_eq!(
        refusal(&picture(None, None, None, 0.0), 128, 180),
        "positioned image has no decoded bitmap"
    );
    let pixel = || Some(filled(1, 1));
    assert_eq!(
        refusal(&picture(pixel(), None, None, 0.0), 128, 180),
        "positioned image requires x"
    );
    assert_eq!(
        refusal(&picture(pixel(), Some(0), None, 0.0), 128, 180),
        "positioned image requires y"
    );
    let label = render(&picture(pixel(), Some(0), Some(0), 0.0), 128, 180).unwrap();
    let bounds = ElementBounds { x: 0, y: 0, width: 128, height: 128 };
    assert_eq!(label.element_bounds, vec![bounds]);
    assert_eq!(dark(&label.printer_raster).len(), 128 * 128);
}

#[test]
fn elements_beyond_the_tape_are_named() {
    let message = refusal(&doc(120), 128, 180);
    assert_eq!(
        message,
        "positioned text element 1 exceeds the 128 px printable raster height: \
         vertical bounds y=120, height=21 at 180 dpi map to rows 120..141 at 180 dpi"
    );
    let mut document = doc(0);
    document.elements.push(image(filled(1, 1), 0, 1));
    assert_eq!(
        refusal(&document, 256, 360),
        "positioned image element 2 exceeds the 256 px printable raster height: \
         vertical bounds y=1, height=128 at 180 dpi map to rows 2..258 at 360 dpi"
    );
}

#[test]
fn bounds_that_do_not_fit_are_refused() {
    let target = StandardTarget { tape_width_px: 128, cross_dpi: 360, feed_dpi: 360 };
    let place = |x, y, width, height| {
        let bounds = ElementBounds { x, y, width, height };
        positioned_raster_bounds(bounds, 180, &target, 4, "image")
    };
    assert_eq!(
        place(u32::MAX, 0, 1, 1).unwrap_err().message(),
        "positioned image element 5 has horizontal bounds that are too large"
    );
    assert_eq!(
        place(0, u32::MAX, 1, 1).unwrap_err().message(),
        "positioned image element 5 has vertical bounds that are too large"
    );
    assert_eq!(
        place(0x8000_0000, 0, 1, 1).unwrap_err().message(),
        "positioned layout dimensions are too large"
    );
    let slot = ElementBounds { x: 6, y: 4, width: 10, height: 14 };
    assert_eq!(place(3, 2, 5, 7).unwrap(), (slot, 8));
    let mut document = doc(0);
    document.end_padding = u32::MAX;
    assert_eq!(refusal(&document, 128, 180), "positioned label length is too large");
    document.end_padding = 0;
    document.min_length = u32::MAX;
    assert_eq!(
        refusal(&document, 256, 360),
        "positioned layout dimensions are too large"
    );
}

#[test]
fn edges_are_rounded_to_the_nearest() {
    assert_eq!(scale(76, 180, 360), 152);
    assert_eq!(scale(1, 360, 180), 1);
    assert_eq!(scale(1, 300, 100), 0);
    assert_eq!(scale(u32::MAX, 1, 2), u32::MAX - 1);
    assert_eq!(scale_positioned_edge(5, 180, 300).unwrap(), 8);
    assert_eq!(scale_positioned_edge(5, 180, 180).unwrap(), 5);
    assert!(scale_positioned_edge(u32::MAX, 1, 2).is_err());
    for value in 0..500u32 {
        assert_eq!(scale(scale(value, 60, 180), 180, 60), value);
        assert_eq!(scale(value, 60, 180), value * 3);
        assert!(scale(value, 300, 180) <= scale(value + 1, 300, 180));
    }
}

#[test]
fn elements_that_meet_stay_together() {
    let target = StandardTarget { tape_width_px: 1000, cross_dpi: 180, feed_dpi: 180 };
    for width in 1..40 {
        let left = ElementBounds { x: 7, y: 0, width, height: 1 };
        let right = ElementBounds { x: 7 + width, y: 0, width: 9, height: 1 };
        let (a, _) = positioned_raster_bounds(left, 300, &target, 0, "text").unwrap();
        let (b, _) = positioned_raster_bounds(right, 300, &target, 1, "text").unwrap();
        assert_eq!(a.x + a.width, b.x);
    }
}

#[test]
fn full_height_elements_end_on_the_last_row() {
    for tape in 1..200u32 {
        let target = StandardTarget { tape_width_px: tape, cross_dpi: 180, feed_dpi: 180 };
        let bounds = ElementBounds { x: 0, y: 0, width: 1, height: scale(tape, 180, 300) };
        let (slot, _) = positioned_raster_bounds(bounds, 300, &target, 0, "image").unwrap();
        assert_eq!(slot.y + slot.height, tape);
    }
    // No row of a coarser document lies on an odd row of the tape.
    let target = StandardTarget { tape_width_px: 1, cross_dpi: 360, feed_dpi: 360 };
    let bounds = ElementBounds { x: 0, y: 0, width: 1, height: scale(1, 360, 180) };
    assert!(positioned_raster_bounds(bounds, 180, &target, 0, "image").is_err());
}

#[test]
fn ink_is_added_and_clipped() {
    let mut destination = LabelBitmap::new(3, 2);
    destination.set_pixel(0, 0, true);
    blit(&mut destination, &filled(2, 2), 2, 1);
    assert_eq!(dark(&destination), vec![(0, 0), (2, 1)]);
    blit(&mut destination, &LabelBitmap::new(3, 2), 0, 0);
    assert_eq!(dark(&destination), vec![(0, 0), (2, 1)]);
}

#[test]
fn coordinates_and_angles_are_asked_for() {
    assert_eq!(required_coordinate(Some(3), "text", "x").unwrap(), 3);
    assert_eq!(
        required_coordinate(None, "image", "y").unwrap_err().message(),
        "positioned image requires y"
    );
    assert!(require_no_rotation(0.25f32.to_bits(), "text").is_ok());
    assert_eq!(
        require_no_rotation(90.0f32.to_bits(), "text").unwrap_err().message(),
        "positioned text rotation is not supported"
    );
}

#[test]
fn texts_are_asked_for_one_after_the_other() {
    let mut document = doc(0);
    document.elements.push(image(filled(1, 1), 0, 0));
    document.elements.push(text(Some(40), Some(0)));
    let mut texts: Vec<Rendering> = Vec::new();
    assert!(matches!(render_step(&document, 128, 180, &texts), RenderStep::NeedsText(0)));
    texts.push(letter());
    assert_eq!(next_text(&document, 128, 180, &texts), Some(2));
    texts.push(None);
    texts.push(letter());
    match render_step(&document, 128, 180, &texts) {
        RenderStep::Finished(Ok(label)) => assert_eq!(label.element_bounds.len(), 3),
        _ => panic!("expected a label"),
    }
}

#[test]
fn no_text_is_asked_for_behind_a_fault() {
    let mut document = empty();
    document.elements.push(LabelElement::CutMark);
    document.elements.push(text(Some(0), Some(0)));
    assert_eq!(next_text(&document, 128, 180, &vec![]), None);
    document.elements[0] = text(None, Some(0));
    assert_eq!(next_text(&document, 128, 180, &vec![]), None);
    document.elements[0] = text(Some(0), Some(0));
    assert_eq!(next_text(&document, 128, 180, &vec![]), Some(0));
    assert_eq!(next_text(&document, 128, 0, &vec![]), None);
    let failed = vec![Some(Err(RenderError::Text("no text to render".to_string())))];
    assert!(matches!(
        render_step(&document, 128, 180, &failed),
        RenderStep::Finished(Err(RenderError::Text(_)))
    ));
}

#[test]
fn the_font_engine_is_asked_for_the_lines_of_an_element() {
    let mut document = empty();
    document.elements.push(LabelElement::Text {
        content: "one\r\ntwo\n".to_string(),
        x: Some(0),
        y: Some(0),
        font_size: Some(7.5f32.to_bits()),
        align: TextAlign::Right,
        rotation: 0.0f32.to_bits(),
        flip_h: false,
        flip_v: false,
    });
    let request = text_request(&document, 0);
    assert_eq!(request.lines, vec!["one", "two"]);
    assert_eq!(request.font_name, "sans-serif");
    assert_eq!(f32::from_bits(request.font_size), 7.5);
    assert_eq!(request.font_weight, 400);
    assert_eq!(request.align, TextAlign::Left);
    assert_eq!(request.font_margin, 0);
    assert!(!request.center_vertically);
}

fn tall(rows: u32) -> Vec<Rendering> {
    vec![Some(Ok(GrayCanvas::filled(1, rows, 0)))]
}

#[test]
fn texts_that_are_never_resized_may_have_any_size() {
    let rows = (1 << 20) + 1;
    let error = match render_step(&doc(0), 128, 180, &tall(rows)) {
        RenderStep::Finished(Err(error)) => error,
        _ => panic!("expected an error"),
    };
    assert!(error.message().contains("exceeds the 128 px printable raster height"));
    let mut document = doc(0);
    document.elements.push(LabelElement::CutMark);
    assert!(matches!(
        render_step(&document, rows, 180, &tall(rows)),
        RenderStep::Finished(Err(_))
    ));
    // At the same size there is nothing to filter.
    document.elements.pop();
    document.min_length = 0;
    match render_step(&document, rows, 180, &tall(rows)) {
        RenderStep::Finished(Ok(label)) => assert!(label.printer_raster.get_pixel(10, rows - 1)),
        _ => panic!("expected a label"),
    }
    assert!(matches!(
        render_step(&document, rows, 179, &tall(rows)),
        RenderStep::TooLarge(0)
    ));
}

#[test]
fn images_tell_whether_they_can_be_resized() {
    let image = GrayCanvas::filled(2, 1, 0);
    assert!(image.can_be_resized(2, 1));
    assert!(image.can_be_resized(400, 300));
    assert!(!image.can_be_resized(u32::MAX, u32::MAX));
    let tall = GrayCanvas::filled(1, (1 << 20) + 1, 0);
    assert!(!tall.can_be_resized(2, 2));
    assert!(GrayCanvas::filled(0, 7, 0).can_be_resized(2, 2));
}

#[test]
fn order_and_empty_texts_leave_the_raster_as_it_is() {
    let silent = || LabelElement::Text {
        content: String::new(),
        x: Some(500),
        y: Some(3),
        font_size: None,
        align: TextAlign::Left,
        rotation: 0.0f32.to_bits(),
        flip_h: false,
        flip_v: false,
    };
    let label = |elements: Vec<LabelElement>| {
        let mut document = empty();
        document.elements = elements;
        render(&document, 128, 180).unwrap()
    };
    let a = label(vec![text(Some(4), Some(0)), silent(), image(filled(1, 1), 90, 0)]);
    let b = label(vec![image(filled(1, 1), 90, 0), text(Some(4), Some(0)), silent()]);
    let c = label(vec![text(Some(4), Some(0)), image(filled(1, 1), 90, 0)]);
    for other in [&b, &c] {
        assert_eq!(dark(&other.printer_raster), dark(&a.printer_raster));
        assert_eq!(other.logical_dimensions, a.logical_dimensions);
    }
    assert_eq!(b.element_bounds[1], a.element_bounds[0]);
    assert_eq!(c.element_bounds[1], a.element_bounds[2]);
}
