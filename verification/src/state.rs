//! State of the label editor, and the messages between it and the printer worker.

use vstd::prelude::*;

use crate::bitmap::LabelBitmap;
use crate::document::{
    clone_elements, element_models, version_fault, DocumentModel, ElementModel, LabelDocument,
    LabelElement, LayoutMode,
};
use crate::error::RenderFault;
use crate::gray::GrayImage;
use crate::layout::{asks_for_text, is_empty_text, logical_bounds, ElementBounds};
use crate::protocol::PrintQuality;
use crate::rotation::{effectively_unrotated, unrotated};
use crate::tape::{tape_dots, tape_pixels, TapeInfo};

verus! {

/// Commands sent from the UI thread to the printer worker.
#[derive(Debug)]
pub enum PrinterCommand {
    /// Poll for a connected printer (query status only, no init).
    Poll,
    /// Print raster data.
    Print {
        raster_lines: Vec<Vec<u8>>,
        chain_print: bool,
        auto_cut: bool,
        quality: PrintQuality,
    },
    /// Feed tape forward and cut.
    FeedAndCut,
}

/// Responses sent from the printer worker back to the UI thread.
#[derive(Debug)]
pub enum PrinterResponse {
    /// A printer was found and its status queried.
    Connected {
        model_name: String,
        media_width: u8,
        media_type: String,
        max_px: u16,
        dpi: u16,
        quality_modes: bool,
    },
    /// No printer found or previously connected printer lost.
    Disconnected,
    /// Print job completed successfully.
    PrintDone,
    /// Feed and cut completed successfully.
    FeedAndCutDone,
    /// An operation failed.
    Error(String),
}

/// Central application state shared across all panels.
#[derive(Debug)]
pub struct AppState {
    /// List of label elements in composition order.
    pub elements: Vec<LabelElement>,
    /// Index of the currently selected element, if any.
    pub selected_element: Option<usize>,
    /// Current tape width in millimeters.
    pub tape_width_mm: u8,
    /// Current tape width in pixels (derived from tape_width_mm).
    pub tape_width_px: u32,
    /// Font name used for text rendering.
    pub font_name: String,
    /// Resolution used by the saved layout coordinates.
    pub document_dpi: u16,
    pub layout: LayoutMode,
    pub min_length: u32,
    pub end_padding: u32,
    pub element_bounds: Vec<ElementBounds>,
    /// Font top/bottom margin in pixels.
    pub font_margin: u32,
    /// Mirror the whole composed label left-right (horizontal).
    pub overall_flip_h: bool,
    /// Mirror the whole composed label top-bottom (vertical).
    pub overall_flip_v: bool,
    /// Cached list of available system font family names.
    pub available_fonts: Vec<String>,
    /// The rendered preview bitmap (1-bit).
    pub preview_bitmap: Option<LabelBitmap>,
    /// Flag indicating the preview needs to be re-rendered.
    pub needs_rerender: bool,
    /// Current zoom level (1.0 = 100%), as the bits of a floating point number.
    pub zoom: u32,
    /// Whether zoom should auto-fit to the canvas.
    pub zoom_fit: bool,
    /// Printer connection status message.
    pub printer_status: Option<String>,
    /// Detected printer model name.
    pub printer_model: Option<String>,
    /// Status bar message for transient feedback.
    pub status_message: String,
    /// Buffer for manual rotation angle input in properties panel.
    pub rotation_input: String,
    /// Buffer for font search/filter in properties panel.
    pub font_search: String,
    /// Auto-cut after printing. When false, chain print mode (no cut).
    pub auto_cut: bool,
    /// Whether a printer is currently connected (detected by background poll).
    pub printer_connected: bool,
    /// Whether a printer operation (print, feed & cut) is in progress.
    pub operation_in_progress: bool,
    /// Maximum printable pixels of the last connected printer (0 initially).
    pub printer_max_px: u16,
    /// Print resolution of the last connected printer (180 initially).
    /// Kept across disconnects so the canvas does not resize on a
    /// transient USB glitch.
    pub printer_dpi: u16,
    /// Whether the last connected printer supports print quality modes.
    pub printer_quality_modes: bool,
    /// Selected print quality for the next print job.
    pub print_quality: PrintQuality,
}

/// The bits of the number one.
pub const FULL_SIZE: u32 = 0x3f80_0000;

impl Default for AppState {
    fn default() -> (state: Self)
        ensures
            state.wf(),
            state.elements@.len() == 0,
            state.selected_element is None,
            state.tape_width_mm == 12,
            state.tape_width_px == 76,
            state.font_name@ == "DejaVuSans"@,
            state.document_dpi == 180,
            state.layout == LayoutMode::Flow,
            state.min_length == 0,
            state.end_padding == 0,
            state.element_bounds@.len() == 0,
            state.font_margin == 0,
            !state.overall_flip_h,
            !state.overall_flip_v,
            state.available_fonts@.len() == 0,
            state.preview_bitmap is None,
            state.needs_rerender,
            state.zoom == FULL_SIZE,
            state.zoom_fit,
            state.printer_status is None,
            state.printer_model is None,
            state.status_message@ == "Ready"@,
            state.rotation_input@ == ""@,
            state.font_search@ == ""@,
            state.auto_cut,
            !state.printer_connected,
            !state.operation_in_progress,
            state.printer_max_px == 0,
            state.printer_dpi == 180,
            !state.printer_quality_modes,
            state.print_quality == PrintQuality::Standard,
    {
        AppState {
            elements: Vec::new(),
            selected_element: None,
            tape_width_mm: 12,
            tape_width_px: 76,
            font_name: "DejaVuSans".to_string(),
            document_dpi: 180,
            layout: LayoutMode::Flow,
            min_length: 0,
            end_padding: 0,
            element_bounds: Vec::new(),
            font_margin: 0,
            overall_flip_h: false,
            overall_flip_v: false,
            available_fonts: Vec::new(),
            preview_bitmap: None,
            needs_rerender: true,
            zoom: FULL_SIZE,
            zoom_fit: true,
            printer_status: None,
            printer_model: None,
            status_message: "Ready".to_string(),
            rotation_input: "".to_string(),
            font_search: "".to_string(),
            auto_cut: true,
            printer_connected: false,
            operation_in_progress: false,
            printer_max_px: 0,
            printer_dpi: 180,
            printer_quality_modes: false,
            print_quality: PrintQuality::Standard,
        }
    }
}

/// Whether an element loses nothing in a positioned layout: it is no flow-only
/// element, and is not turned.
pub open spec fn is_positionable(element: ElementModel) -> bool {
    match element {
        ElementModel::Text { rotation, .. } => unrotated(rotation),
        ElementModel::Image { rotation, .. } => unrotated(rotation),
        ElementModel::CutMark => false,
        ElementModel::Padding { .. } => false,
    }
}

/// The format version that a layout is saved in.
pub open spec fn layout_version(layout: LayoutMode) -> u32 {
    if layout == LayoutMode::Positioned {
        2
    } else {
        1
    }
}

impl AppState {
    /// The pictures among the elements are proper images.
    pub open spec fn wf(&self) -> bool {
        forall|i: int| 0 <= i < self.elements@.len() ==> (#[trigger] self.elements@[i]).wf()
    }

    /// The document that the editor holds.
    pub open spec fn document(&self) -> DocumentModel {
        DocumentModel {
            version: layout_version(self.layout),
            tape_width_mm: self.tape_width_mm,
            dpi: self.document_dpi,
            layout: self.layout,
            min_length: self.min_length,
            end_padding: self.end_padding,
            font_name: self.font_name@,
            font_margin: self.font_margin,
            flip_h: self.overall_flip_h,
            flip_v: self.overall_flip_v,
            elements: element_models(self.elements@),
        }
    }

    /// The state with a document loaded.
    pub open spec fn with_document(self, document: LabelDocument) -> AppState {
        AppState {
            tape_width_mm: document.tape_width_mm,
            document_dpi: document.dpi,
            layout: document.layout,
            min_length: document.min_length,
            end_padding: document.end_padding,
            font_name: document.font_name,
            font_margin: document.font_margin,
            overall_flip_h: document.flip_h,
            overall_flip_v: document.flip_v,
            elements: document.elements,
            selected_element: None,
            ..self
        }
    }

    /// The resolution that the label is rendered for.
    pub open spec fn rendering_dpi(&self) -> u16 {
        if self.printer_connected {
            self.printer_dpi
        } else {
            self.document_dpi
        }
    }

    /// The printable dots across the current tape: no more than the printer has,
    /// and what they were where the tape is not known.
    pub open spec fn printable_dots(&self, tapes: Seq<TapeInfo>) -> u32 {
        match tape_dots(tapes, self.tape_width_mm, self.rendering_dpi()) {
            None => self.tape_width_px,
            Some(dots) => if 0 < self.printer_max_px < dots {
                self.printer_max_px as u32
            } else {
                dots as u32
            },
        }
    }

    /// The selection moved back to the last element where it lies behind it.
    pub open spec fn valid_selection(&self) -> Option<usize> {
        match self.selected_element {
            Some(index) if index >= self.elements@.len() => if self.elements@.len() == 0 {
                None
            } else {
                Some((self.elements@.len() - 1) as usize)
            },
            selection => selection,
        }
    }

    /// Switching layout modes must not discard flow-only elements or rotations.
    pub fn can_use_positioned_layout(&self) -> (possible: bool)
        ensures
            possible == forall|i: int|
                0 <= i < self.elements@.len() ==> is_positionable(#[trigger] self.elements@[i]@),
    {
        let mut i: usize = 0;
        while i < self.elements.len()
            invariant
                i <= self.elements@.len(),
                forall|k: int| 0 <= k < i ==> is_positionable(#[trigger] self.elements@[k]@),
            decreases self.elements@.len() - i,
        {
            let fits: bool = match &self.elements[i] {
                LabelElement::Text { rotation, .. } => effectively_unrotated(*rotation),
                LabelElement::Image { rotation, .. } => effectively_unrotated(*rotation),
                LabelElement::CutMark => false,
                LabelElement::Padding { .. } => false,
            };
            assert(fits == is_positionable(self.elements@[i as int]@));
            if !fits {
                return false;
            }
            i = i + 1;
        }
        true
    }

    /// Converts the editor state into its serialized document model.
    pub fn to_document(&self) -> (document: LabelDocument)
        ensures
            document@ == self.document(),
            self.wf() ==> document.wf(),
    {
        LabelDocument {
            version: if self.layout == LayoutMode::Positioned {
                2
            } else {
                1
            },
            tape_width_mm: self.tape_width_mm,
            dpi: self.document_dpi,
            layout: self.layout,
            min_length: self.min_length,
            end_padding: self.end_padding,
            font_name: self.font_name.clone(),
            font_margin: self.font_margin,
            flip_h: self.overall_flip_h,
            flip_v: self.overall_flip_v,
            elements: clone_elements(&self.elements),
        }
    }

    /// Replaces editor fields with a loaded document.
    pub fn apply_document(&mut self, document: LabelDocument)
        ensures
            *final(self) == old(self).with_document(document),
            document.wf() ==> final(self).wf(),
    {
        self.tape_width_mm = document.tape_width_mm;
        self.document_dpi = document.dpi;
        self.layout = document.layout;
        self.min_length = document.min_length;
        self.end_padding = document.end_padding;
        self.font_name = document.font_name;
        self.font_margin = document.font_margin;
        self.overall_flip_h = document.flip_h;
        self.overall_flip_v = document.flip_v;
        self.elements = document.elements;
        self.selected_element = None;
    }

    /// Uses the document's design resolution until a printer supplies geometry.
    pub fn render_dpi(&self) -> (dpi: u16)
        ensures
            dpi == self.rendering_dpi(),
    {
        if self.printer_connected {
            self.printer_dpi
        } else {
            self.document_dpi
        }
    }

    /// Updates the tape width in pixels based on the current tape_width_mm
    /// and the connected printer's resolution.
    pub fn update_tape_pixels(&mut self, tapes: &Vec<TapeInfo>)
        ensures
            *final(self) == (AppState {
                tape_width_px: old(self).printable_dots(tapes@),
                ..*old(self)
            }),
    {
        if let Some(dots) = tape_pixels(tapes, self.tape_width_mm, self.render_dpi()) {
            let px: u32 = dots as u32;
            self.tape_width_px =
            if self.printer_max_px > 0 && (self.printer_max_px as u32) < px {
                self.printer_max_px as u32
            } else {
                px
            };
        }
    }

    /// Marks the preview as needing re-render.
    pub fn mark_dirty(&mut self)
        ensures
            *final(self) == (AppState { needs_rerender: true, ..*old(self) }),
    {
        self.needs_rerender = true;
    }

    /// Ensures the selected element index is valid.
    pub fn validate_selection(&mut self)
        ensures
            *final(self) == (AppState {
                selected_element: old(self).valid_selection(),
                ..*old(self)
            }),
            final(self).selected_element matches Some(index) ==> index
                < final(self).elements@.len(),
    {
        if let Some(index) = self.selected_element {
            if index >= self.elements.len() {
                self.selected_element =
                if self.elements.len() == 0 {
                    None
                } else {
                    Some(self.elements.len() - 1)
                };
            }
        }
    }
}

/// A loaded document is saved as it was, in the format version of its layout.
pub proof fn law_loaded_documents_are_saved_unchanged(state: AppState, document: LabelDocument)
    ensures
        state.with_document(document).document() == (DocumentModel {
            version: layout_version(document.layout),
            ..document@
        }),
        document.version == layout_version(document.layout) ==> state.with_document(
            document,
        ).document() == document@,
{
}

/// Every saved document has a supported format version.
pub proof fn law_saved_versions_are_supported(state: AppState)
    ensures
        version_fault(state.document().version) is None,
{
}

/// Correcting the selection a second time changes nothing, and a selection of an
/// element stays.
pub proof fn law_selection_is_corrected_once(state: AppState)
    ensures
        (AppState { selected_element: state.valid_selection(), ..state }).valid_selection()
            == state.valid_selection(),
        state.selected_element matches Some(index) && index < state.elements@.len()
            ==> state.valid_selection() == state.selected_element,
{
}

/// An element that has all a positioned layout asks for finds its bounds there if
/// the editor may switch to that layout, and only then, but for an empty text.
pub proof fn law_switching_keeps_every_element(
    element: ElementModel,
    text: Option<Result<GrayImage, RenderFault>>,
    logical_height: u32,
)
    requires
        element matches ElementModel::Text { x, y, font_size, .. } ==> x is Some && y is Some
            && font_size is Some,
        element matches ElementModel::Image { bitmap, x, y, .. } ==> bitmap is Some && x is Some
            && y is Some,
        asks_for_text(element) ==> text matches Some(Ok(_)),
    ensures
        is_positionable(element) ==> logical_bounds(element, text, logical_height) is Ok,
        logical_bounds(element, text, logical_height) is Ok ==> is_positionable(element)
            || is_empty_text(element),
{
}

} // verus!
