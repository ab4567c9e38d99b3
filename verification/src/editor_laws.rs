//! What holds of every document, and of the editor that loads and saves it.

use vstd::prelude::*;

use crate::document::{
    element_models, level_name, version_fault, ElementModel, LabelDocument, LabelElement, LayoutMode,
    QrErrorCorrection,
};
use crate::error::RenderFault;
use crate::rotation::unrotated;
use crate::state::{is_positionable, layout_version, AppState};
use crate::tape::{tape_dots, tape_entry, TapeInfo};

verus! {

/// Loading gives each field of the editor the value of the field of the document
/// that it stands for, selects nothing, and leaves all else as it was.
pub proof fn law_loading_takes_over_each_field(state: AppState, document: LabelDocument)
    ensures
        ({
            let loaded = state.with_document(document);
            &&& loaded.tape_width_mm == document.tape_width_mm
            &&& loaded.document_dpi == document.dpi
            &&& loaded.layout == document.layout
            &&& loaded.min_length == document.min_length
            &&& loaded.end_padding == document.end_padding
            &&& loaded.font_name == document.font_name
            &&& loaded.font_margin == document.font_margin
            &&& loaded.overall_flip_h == document.flip_h
            &&& loaded.overall_flip_v == document.flip_v
            &&& loaded.elements == document.elements
            &&& loaded.selected_element is None
            &&& loaded.tape_width_px == state.tape_width_px
            &&& loaded.element_bounds == state.element_bounds
            &&& loaded.available_fonts == state.available_fonts
            &&& loaded.preview_bitmap == state.preview_bitmap
            &&& loaded.needs_rerender == state.needs_rerender
            &&& loaded.zoom == state.zoom
            &&& loaded.zoom_fit == state.zoom_fit
            &&& loaded.printer_status == state.printer_status
            &&& loaded.printer_model == state.printer_model
            &&& loaded.status_message == state.status_message
            &&& loaded.rotation_input == state.rotation_input
            &&& loaded.font_search == state.font_search
            &&& loaded.auto_cut == state.auto_cut
            &&& loaded.printer_connected == state.printer_connected
            &&& loaded.operation_in_progress == state.operation_in_progress
            &&& loaded.printer_max_px == state.printer_max_px
            &&& loaded.printer_dpi == state.printer_dpi
            &&& loaded.printer_quality_modes == state.printer_quality_modes
            &&& loaded.print_quality == state.print_quality
        }),
{
}

/// Saving gives each field of the document the value of the field of the editor
/// that it stands for, and keeps all elements in their order.
pub proof fn law_saving_writes_each_field(state: AppState)
    ensures
        ({
            let saved = state.document();
            &&& saved.tape_width_mm == state.tape_width_mm
            &&& saved.dpi == state.document_dpi
            &&& saved.layout == state.layout
            &&& saved.min_length == state.min_length
            &&& saved.end_padding == state.end_padding
            &&& saved.font_name == state.font_name@
            &&& saved.font_margin == state.font_margin
            &&& saved.flip_h == state.overall_flip_h
            &&& saved.flip_v == state.overall_flip_v
            &&& state.layout is Flow ==> saved.version == 1
            &&& state.layout is Positioned ==> saved.version == 2
            &&& saved.elements.len() == state.elements@.len()
            &&& forall|i: int|
                0 <= i < state.elements@.len() ==> #[trigger] saved.elements[i]
                    == state.elements@[i]@
        }),
{
}

/// The model of a document shows its fields.
pub proof fn law_document_models_show_the_fields(document: LabelDocument)
    ensures
        document@.version == document.version,
        document@.tape_width_mm == document.tape_width_mm,
        document@.dpi == document.dpi,
        document@.layout == document.layout,
        document@.min_length == document.min_length,
        document@.end_padding == document.end_padding,
        document@.font_name == document.font_name@,
        document@.font_margin == document.font_margin,
        document@.flip_h == document.flip_h,
        document@.flip_v == document.flip_v,
        document@.elements.len() == document.elements@.len(),
        forall|i: int|
            0 <= i < document.elements@.len() ==> #[trigger] document@.elements[i]
                == document.elements@[i]@,
{
}

/// The model of an element shows its kind and its fields.
pub proof fn law_element_models_show_the_fields(element: LabelElement)
    ensures
        element matches LabelElement::Text {
            content,
            x,
            y,
            font_size,
            align,
            rotation,
            flip_h,
            flip_v,
        } ==> (element@ matches ElementModel::Text {
            content: c,
            x: mx,
            y: my,
            font_size: size,
            align: a,
            rotation: r,
            flip_h: h,
            flip_v: v,
        } && c == content@ && mx == x && my == y && size == font_size && a == align && r
            == rotation && h == flip_h && v == flip_v),
        element matches LabelElement::Image {
            bitmap,
            x,
            y,
            rotation,
            target_width,
            target_height,
            flip_h,
            flip_v,
        } ==> (element@ matches ElementModel::Image {
            bitmap: b,
            x: mx,
            y: my,
            rotation: r,
            target_width: tw,
            target_height: th,
            flip_h: h,
            flip_v: v,
        } && (b is Some <==> bitmap is Some) && (bitmap is Some ==> b->0 == bitmap->0@) && mx == x
            && my == y && r == rotation && tw == target_width && th == target_height && h == flip_h
            && v == flip_v),
        element is CutMark <==> element@ is CutMark,
        element matches LabelElement::Padding { length } ==> (element@ matches ElementModel::Padding {
            length: l,
        } && l == length),
{
}

/// Documents of the versions 1 and 2 are supported and no others, which are named
/// in the fault.
pub proof fn law_two_versions_are_supported(version: u32)
    ensures
        version_fault(version) is None <==> 1 <= version <= 2,
        version_fault(version) matches Some(fault) ==> fault == RenderFault::UnsupportedVersion(
            version,
        ),
{
}

/// Each error correction level has a name of its own.
pub proof fn law_levels_have_their_own_names(a: QrErrorCorrection, b: QrErrorCorrection)
    ensures
        level_name(a) == level_name(b) ==> a == b,
        a is Low ==> level_name(a) == "LOW"@,
        a is High ==> level_name(a) == "HIGH"@,
        a is Medium ==> level_name(a) == "MEDIUM"@,
        a is Quartile ==> level_name(a) == "QUARTILE"@,
{
    reveal_strlit("LOW");
    reveal_strlit("MEDIUM");
    reveal_strlit("QUARTILE");
    reveal_strlit("HIGH");
    assert("LOW"@.len() == 3 && "MEDIUM"@.len() == 6 && "QUARTILE"@.len() == 8 && "HIGH"@.len()
        == 4);
}

/// The label is rendered for a connected printer, and otherwise as it was designed.
pub proof fn law_a_connected_printer_sets_the_resolution(state: AppState)
    ensures
        state.printer_connected ==> state.rendering_dpi() == state.printer_dpi,
        !state.printer_connected ==> state.rendering_dpi() == state.document_dpi,
{
}

/// The tape is as wide as the table says, but no wider than a printer whose width
/// is known; of a tape that is not in the table nothing is learnt.
pub proof fn law_the_tape_fits_the_printer(state: AppState, tapes: Seq<TapeInfo>)
    ensures
        ({
            let dots = state.printable_dots(tapes);
            match tape_dots(
                tapes,
                state.tape_width_mm,
                if state.printer_connected {
                    state.printer_dpi
                } else {
                    state.document_dpi
                },
            ) {
                None => dots == state.tape_width_px,
                Some(listed) => {
                    &&& dots <= listed
                    &&& state.printer_max_px > 0 ==> dots <= state.printer_max_px
                    &&& dots == listed || (state.printer_max_px > 0 && dots
                        == state.printer_max_px)
                },
            }
        }),
{
}

/// A selection behind the last element moves to the last element, and goes where
/// there is none.
pub proof fn law_selections_move_to_the_last_element(state: AppState)
    ensures
        state.valid_selection() matches Some(index) ==> index < state.elements@.len(),
        state.selected_element is None ==> state.valid_selection() is None,
        state.selected_element matches Some(index) && index < state.elements@.len()
            ==> state.valid_selection() == state.selected_element,
        state.selected_element matches Some(index) && index >= state.elements@.len()
            && state.elements@.len() > 0 ==> (state.valid_selection() matches Some(last) && last
            + 1 == state.elements@.len()),
        state.elements@.len() == 0 ==> state.valid_selection() is None,
{
}

/// Texts and pictures can be positioned unless they are turned, flow-only elements
/// never.
pub proof fn law_turned_and_flow_only_elements_cannot_be_positioned(element: ElementModel)
    ensures
        element matches ElementModel::Text { rotation, .. } ==> is_positionable(element)
            == unrotated(rotation),
        element matches ElementModel::Image { rotation, .. } ==> is_positionable(element)
            == unrotated(rotation),
        element is CutMark || element is Padding ==> !is_positionable(element),
{
}

/// A flow layout is saved in the older version, which a positioned one is not in.
pub proof fn law_positioned_layouts_need_the_newer_version(layout: LayoutMode)
    ensures
        layout == LayoutMode::Positioned <==> layout_version(layout) == 2,
        layout == LayoutMode::Flow <==> layout_version(layout) == 1,
{
}

/// What a table of tapes says of a width and a resolution is in the table, for that
/// width and that resolution, and no entry before it is; if it says nothing there
/// is no such entry.
pub proof fn law_tapes_are_found_by_width_and_resolution(
    tapes: Seq<TapeInfo>,
    width_mm: u8,
    dpi: u16,
)
    ensures
        match tape_dots(tapes, width_mm, dpi) {
            Some(dots) => exists|i: int|
                {
                    &&& 0 <= i < tapes.len()
                    &&& (#[trigger] tapes[i]).width_mm == width_mm
                    &&& tapes[i].dpi == dpi
                    &&& tapes[i].pixels == dots
                    &&& forall|k: int|
                        0 <= k < i ==> (#[trigger] tapes[k]).width_mm != width_mm || tapes[k].dpi
                            != dpi
                },
            None => forall|i: int|
                0 <= i < tapes.len() ==> (#[trigger] tapes[i]).width_mm != width_mm || tapes[i].dpi
                    != dpi,
        },
    decreases tapes.len(),
{
    if tapes.len() > 0 {
        let rest = tapes.drop_first();
        law_tapes_are_found_by_width_and_resolution(rest, width_mm, dpi);
        if tapes[0].width_mm == width_mm && tapes[0].dpi == dpi {
        } else {
            match tape_dots(tapes, width_mm, dpi) {
                Some(dots) => {
                    let i = choose|i: int|
                        {
                            &&& 0 <= i < rest.len()
                            &&& (#[trigger] rest[i]).width_mm == width_mm
                            &&& rest[i].dpi == dpi
                            &&& rest[i].pixels == dots
                            &&& forall|k: int|
                                0 <= k < i ==> (#[trigger] rest[k]).width_mm != width_mm
                                    || rest[k].dpi != dpi
                        };
                    assert(tapes[i + 1] == rest[i]);
                    assert forall|k: int| 0 <= k < i + 1 implies (#[trigger] tapes[k]).width_mm
                        != width_mm || tapes[k].dpi != dpi by {
                        if k > 0 {
                            assert(tapes[k] == rest[k - 1]);
                        }
                    }
                },
                None => {
                    assert forall|i: int| 0 <= i < tapes.len() implies (#[trigger] tapes[i]).width_mm
                        != width_mm || tapes[i].dpi != dpi by {
                        if i > 0 {
                            assert(tapes[i] == rest[i - 1]);
                        }
                    }
                },
            }
        }
    }
}

/// The entry that is found for a tape has its width and its resolution, and tells
/// its dots.
pub proof fn law_found_tapes_have_what_was_asked_for(
    tapes: Seq<TapeInfo>,
    width_mm: u8,
    dpi: u16,
)
    ensures
        tape_entry(tapes, width_mm, dpi) matches Some(tape) ==> {
            &&& tape.width_mm == width_mm
            &&& tape.dpi == dpi
            &&& tape_dots(tapes, width_mm, dpi) == Some(tape.pixels)
            &&& tapes.contains(tape)
        },
        tape_entry(tapes, width_mm, dpi) is None <==> tape_dots(tapes, width_mm, dpi) is None,
    decreases tapes.len(),
{
    if tapes.len() > 0 {
        let rest = tapes.drop_first();
        law_found_tapes_have_what_was_asked_for(rest, width_mm, dpi);
        if tapes[0].width_mm == width_mm && tapes[0].dpi == dpi {
            assert(tapes.contains(tapes[0]));
        } else if let Some(tape) = tape_entry(rest, width_mm, dpi) {
            let i = choose|i: int| 0 <= i < rest.len() && rest[i] == tape;
            assert(tapes[i + 1] == tape);
        }
    }
}

/// The models of a list of elements are those of each element, in order.
pub proof fn law_lists_of_elements_show_each_element(elements: Seq<LabelElement>, i: int)
    ensures
        element_models(elements).len() == elements.len(),
        0 <= i < elements.len() ==> element_models(elements)[i] == elements[i]@,
{
}

} // verus!
