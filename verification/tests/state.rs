use ptouch::bitmap::LabelBitmap;
use ptouch::document::{LabelDocument, LabelElement, LayoutMode};
use ptouch::state::{AppState, PrinterCommand, PrinterResponse, FULL_SIZE};
use ptouch::protocol::PrintQuality;
use ptouch::tape::TapeInfo;
use ptouch::text::TextAlign;

fn sample() -> LabelDocument {
    LabelDocument {
        version: 2,
        tape_width_mm: 24,
        dpi: 180,
        layout: LayoutMode::Positioned,
        min_length: 230,
        end_padding: 3,
        font_name: "sans-serif".to_string(),
        font_margin: 0,
        flip_h: false,
        flip_v: true,
        elements: vec![LabelElement::Text {
            content: "Sample".to_string(),
            x: Some(141),
            y: Some(12),
            font_size: Some(7.0f32.to_bits()),
            align: TextAlign::Left,
            rotation: 0.0f32.to_bits(),
            flip_h: false,
            flip_v: false,
        }],
    }
}

#[test]
fn positioned_editor_roundtrip_retains_coordinates_and_dimensions() {
    let mut state = AppState::default();
    state.apply_document(sample());
    let reopened = state.to_document();
    assert_eq!(reopened.layout, LayoutMode::Positioned);
    assert_eq!((reopened.min_length, reopened.end_padding), (230, 3));
    assert!(matches!(
        &reopened.elements[0],
        LabelElement::Text {
            x: Some(141),
            y: Some(12),
            ..
        }
    ));
}

#[test]
fn switching_layout_mode_does_not_discard_rotated_content() {
    let mut state = AppState::default();
    state.elements.push(LabelElement::Text {
        content: "Rotated".into(),
        x: None,
        y: None,
        font_size: Some(12.0f32.to_bits()),
        align: TextAlign::Left,
        rotation: 90.0f32.to_bits(),
        flip_h: false,
        flip_v: false,
    });
    assert!(!state.can_use_positioned_layout());
    assert!(matches!(
        &state.elements[0],
        LabelElement::Text { rotation, .. } if f32::from_bits(*rotation) == 90.0
    ));
    state.elements.clear();
    state.elements.push(LabelElement::CutMark);
    assert!(!state.can_use_positioned_layout());
}

#[test]
fn unrotated_elements_can_be_positioned() {
    let mut state = AppState::default();
    assert!(state.can_use_positioned_layout());
    state.apply_document(sample());
    assert!(state.can_use_positioned_layout());
    state.elements.push(LabelElement::Image {
        bitmap: Some(LabelBitmap::new(1, 1)),
        x: None,
        y: None,
        rotation: (-0.25f32).to_bits(),
        target_width: None,
        target_height: None,
        flip_h: false,
        flip_v: false,
    });
    assert!(state.can_use_positioned_layout());
    state.elements.push(LabelElement::Padding { length: 1 });
    assert!(!state.can_use_positioned_layout());
}

#[test]
fn documents_are_saved_in_the_version_of_their_layout() {
    let mut state = AppState::default();
    assert_eq!(state.to_document().version, 1);
    state.selected_element = Some(4);
    state.needs_rerender = false;
    state.apply_document(sample());
    assert_eq!(state.selected_element, None);
    assert!(!state.needs_rerender);
    let saved = state.to_document();
    assert_eq!(saved.version, 2);
    assert_eq!(saved.tape_width_mm, 24);
    assert_eq!(saved.dpi, 180);
    assert_eq!(saved.font_name, "sans-serif");
    assert_eq!((saved.flip_h, saved.flip_v), (false, true));
    assert!(saved.validate_version().is_ok());
    assert!(matches!(
        &saved.elements[0],
        LabelElement::Text { content, .. } if content == "Sample"
    ));
    state.layout = LayoutMode::Flow;
    assert_eq!(state.to_document().version, 1);
}

#[test]
fn versions_one_and_two_are_supported() {
    let mut document = sample();
    for (version, supported) in [(0, false), (1, true), (2, true), (3, false)] {
        document.version = version;
        assert_eq!(document.validate_version().is_ok(), supported);
    }
}

#[test]
fn a_new_editor_is_empty() {
    let state = AppState::default();
    assert!(state.elements.is_empty());
    assert_eq!((state.tape_width_mm, state.tape_width_px), (12, 76));
    assert_eq!(state.font_name, "DejaVuSans");
    assert_eq!(state.status_message, "Ready");
    assert_eq!(f32::from_bits(state.zoom), 1.0);
    assert_eq!(state.zoom, FULL_SIZE);
    assert_eq!((state.document_dpi, state.printer_dpi), (180, 180));
    assert!(state.needs_rerender && state.zoom_fit && state.auto_cut);
    assert_eq!(state.print_quality, PrintQuality::Standard);
}

#[test]
fn the_printer_resolution_counts_once_one_is_connected() {
    let mut state = AppState::default();
    state.printer_dpi = 360;
    state.document_dpi = 200;
    assert_eq!(state.render_dpi(), 200);
    state.printer_connected = true;
    assert_eq!(state.render_dpi(), 360);
}

#[test]
fn the_tape_is_no_wider_than_the_printer() {
    let tapes = vec![
        TapeInfo { width_mm: 12, dpi: 180, pixels: 76 },
        TapeInfo { width_mm: 24, dpi: 180, pixels: 128 },
        TapeInfo { width_mm: 24, dpi: 360, pixels: 320 },
    ];
    let mut state = AppState::default();
    state.tape_width_mm = 24;
    state.update_tape_pixels(&tapes);
    assert_eq!(state.tape_width_px, 128);
    state.printer_connected = true;
    state.printer_dpi = 360;
    state.printer_max_px = 256;
    state.update_tape_pixels(&tapes);
    assert_eq!(state.tape_width_px, 256);
    state.printer_max_px = 400;
    state.update_tape_pixels(&tapes);
    assert_eq!(state.tape_width_px, 320);
    state.tape_width_mm = 99;
    state.update_tape_pixels(&tapes);
    assert_eq!(state.tape_width_px, 320);
}

#[test]
fn the_selection_stays_on_an_element() {
    let mut state = AppState::default();
    state.selected_element = Some(0);
    state.validate_selection();
    assert_eq!(state.selected_element, None);
    state.elements.push(LabelElement::CutMark);
    state.elements.push(LabelElement::CutMark);
    state.selected_element = Some(7);
    state.validate_selection();
    assert_eq!(state.selected_element, Some(1));
    state.validate_selection();
    assert_eq!(state.selected_element, Some(1));
    state.selected_element = Some(0);
    state.validate_selection();
    assert_eq!(state.selected_element, Some(0));
}

#[test]
fn a_dirty_preview_is_rendered_again() {
    let mut state = AppState::default();
    state.needs_rerender = false;
    state.mark_dirty();
    assert!(state.needs_rerender);
}

#[test]
fn editor_and_worker_exchange_messages() {
    let command = PrinterCommand::Print {
        raster_lines: vec![vec![1, 2]],
        chain_print: true,
        auto_cut: false,
        quality: PrintQuality::High,
    };
    assert!(matches!(
        command,
        PrinterCommand::Print { quality: PrintQuality::High, .. }
    ));
    let response = PrinterResponse::Error("Cutter jam".to_string());
    assert!(matches!(response, PrinterResponse::Error(text) if text == "Cutter jam"));
}
