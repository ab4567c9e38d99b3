//! Label documents.

use vstd::prelude::*;

use crate::bitmap::{LabelBitmap, Raster};
use crate::error::{RenderError, RenderFault};
use crate::text::TextAlign;

verus! {

/// How the elements of a label find their places.
#[derive(Debug, Clone, Copy, PartialEq, Eq, Structural)]
pub enum LayoutMode {
    /// One behind the other.
    Flow,
    /// Each at its own coordinates.
    Positioned,
}

/// Error correction levels of QR codes.
#[derive(Debug, Clone, Copy, PartialEq, Eq, Structural)]
pub enum QrErrorCorrection {
    Low,
    Medium,
    Quartile,
    High,
}

/// The name of an error correction level in capitals.
pub open spec fn level_name(level: QrErrorCorrection) -> Seq<char> {
    match level {
        QrErrorCorrection::Low => "LOW"@,
        QrErrorCorrection::Medium => "MEDIUM"@,
        QrErrorCorrection::Quartile => "QUARTILE"@,
        QrErrorCorrection::High => "HIGH"@,
    }
}

impl QrErrorCorrection {
    /// The name of the level in capitals.
    pub fn name(&self) -> (name: &'static str)
        ensures
            name@ == level_name(*self),
    {
        match self {
            QrErrorCorrection::Low => "LOW",
            QrErrorCorrection::Medium => "MEDIUM",
            QrErrorCorrection::Quartile => "QUARTILE",
            QrErrorCorrection::High => "HIGH",
        }
    }
}

/// A QR code given by its codewords rather than by its content.
#[derive(Debug)]
pub struct QrSource {
    /// The data codewords in base64.
    pub data_codewords_base64: String,
    /// Version of the symbol, 1 to 40.
    pub version: u8,
    /// Mask pattern of the symbol, 0 to 7.
    pub mask_pattern: u8,
}

/// An element of a label.
///
/// Angles and font sizes are kept as the bits of a 32-bit floating point number.
#[derive(Debug)]
pub enum LabelElement {
    /// Lines of text.
    Text {
        content: String,
        x: Option<u32>,
        y: Option<u32>,
        /// Font size in points, as the bits of a floating point number.
        font_size: Option<u32>,
        align: TextAlign,
        /// Angle in degrees, as the bits of a floating point number.
        rotation: u32,
        flip_h: bool,
        flip_v: bool,
    },
    /// A picture.
    Image {
        bitmap: Option<LabelBitmap>,
        x: Option<u32>,
        y: Option<u32>,
        /// Angle in degrees, as the bits of a floating point number.
        rotation: u32,
        target_width: Option<u32>,
        target_height: Option<u32>,
        flip_h: bool,
        flip_v: bool,
    },
    /// A mark to cut at.
    CutMark,
    /// Free space.
    Padding { length: u32 },
}

/// Mathematical value of a [`LabelElement`].
#[verifier::ext_equal]
pub enum ElementModel {
    Text {
        content: Seq<char>,
        x: Option<u32>,
        y: Option<u32>,
        font_size: Option<u32>,
        align: TextAlign,
        rotation: u32,
        flip_h: bool,
        flip_v: bool,
    },
    Image {
        bitmap: Option<Raster>,
        x: Option<u32>,
        y: Option<u32>,
        rotation: u32,
        target_width: Option<u32>,
        target_height: Option<u32>,
        flip_h: bool,
        flip_v: bool,
    },
    CutMark,
    Padding { length: u32 },
}

impl View for LabelElement {
    type V = ElementModel;

    open spec fn view(&self) -> ElementModel {
        match *self {
            LabelElement::Text { content, x, y, font_size, align, rotation, flip_h, flip_v } => {
                ElementModel::Text {
                    content: content@,
                    x,
                    y,
                    font_size,
                    align,
                    rotation,
                    flip_h,
                    flip_v,
                }
            },
            LabelElement::Image {
                bitmap,
                x,
                y,
                rotation,
                target_width,
                target_height,
                flip_h,
                flip_v,
            } => {
                ElementModel::Image {
                    bitmap: match bitmap {
                        Some(bitmap) => Some(bitmap@),
                        None => None,
                    },
                    x,
                    y,
                    rotation,
                    target_width,
                    target_height,
                    flip_h,
                    flip_v,
                }
            },
            LabelElement::CutMark => ElementModel::CutMark,
            LabelElement::Padding { length } => ElementModel::Padding { length },
        }
    }
}

impl LabelElement {
    /// The picture of an image element is a proper image.
    pub open spec fn wf(&self) -> bool {
        match *self {
            LabelElement::Image { bitmap: Some(bitmap), .. } => bitmap.wf(),
            _ => true,
        }
    }
}

impl Clone for LabelElement {
    fn clone(&self) -> (element: Self)
        ensures
            element@ == self@,
            self.wf() ==> element.wf(),
    {
        match self {
            LabelElement::Text { content, x, y, font_size, align, rotation, flip_h, flip_v } => {
                LabelElement::Text {
                    content: content.clone(),
                    x: *x,
                    y: *y,
                    font_size: *font_size,
                    align: *align,
                    rotation: *rotation,
                    flip_h: *flip_h,
                    flip_v: *flip_v,
                }
            },
            LabelElement::Image {
                bitmap,
                x,
                y,
                rotation,
                target_width,
                target_height,
                flip_h,
                flip_v,
            } => {
                LabelElement::Image {
                    bitmap: match bitmap {
                        Some(bitmap) => Some(bitmap.clone()),
                        None => None,
                    },
                    x: *x,
                    y: *y,
                    rotation: *rotation,
                    target_width: *target_width,
                    target_height: *target_height,
                    flip_h: *flip_h,
                    flip_v: *flip_v,
                }
            },
            LabelElement::CutMark => LabelElement::CutMark,
            LabelElement::Padding { length } => LabelElement::Padding { length: *length },
        }
    }
}

/// The models of a list of elements.
pub open spec fn element_models(elements: Seq<LabelElement>) -> Seq<ElementModel> {
    Seq::new(elements.len(), |i: int| elements[i]@)
}

/// Copies a list of elements.
pub fn clone_elements(elements: &Vec<LabelElement>) -> (copy: Vec<LabelElement>)
    ensures
        element_models(copy@) == element_models(elements@),
        (forall|i: int| 0 <= i < elements@.len() ==> (#[trigger] elements@[i]).wf()) ==> (forall|
            i: int,
        |
            0 <= i < copy@.len() ==> (#[trigger] copy@[i]).wf()),
{
    let mut copy: Vec<LabelElement> = Vec::new();
    let mut i: usize = 0;
    while i < elements.len()
        invariant
            i <= elements@.len(),
            copy@.len() == i,
            forall|k: int| 0 <= k < i ==> (#[trigger] copy@[k])@ == elements@[k]@,
            forall|k: int| 0 <= k < i && elements@[k].wf() ==> (#[trigger] copy@[k]).wf(),
        decreases elements@.len() - i,
    {
        copy.push(elements[i].clone());
        i = i + 1;
    }
    assert(element_models(copy@) =~= element_models(elements@));
    copy
}

/// A label document.
#[derive(Debug)]
pub struct LabelDocument {
    /// Version of the document format.
    pub version: u32,
    pub tape_width_mm: u8,
    /// Resolution of the coordinates.
    pub dpi: u16,
    pub layout: LayoutMode,
    /// Least length of the label.
    pub min_length: u32,
    /// Free space behind the last element.
    pub end_padding: u32,
    pub font_name: String,
    pub font_margin: u32,
    pub flip_h: bool,
    pub flip_v: bool,
    pub elements: Vec<LabelElement>,
}

/// Mathematical value of a [`LabelDocument`].
#[verifier::ext_equal]
pub struct DocumentModel {
    pub version: u32,
    pub tape_width_mm: u8,
    pub dpi: u16,
    pub layout: LayoutMode,
    pub min_length: u32,
    pub end_padding: u32,
    pub font_name: Seq<char>,
    pub font_margin: u32,
    pub flip_h: bool,
    pub flip_v: bool,
    pub elements: Seq<ElementModel>,
}

impl View for LabelDocument {
    type V = DocumentModel;

    open spec fn view(&self) -> DocumentModel {
        DocumentModel {
            version: self.version,
            tape_width_mm: self.tape_width_mm,
            dpi: self.dpi,
            layout: self.layout,
            min_length: self.min_length,
            end_padding: self.end_padding,
            font_name: self.font_name@,
            font_margin: self.font_margin,
            flip_h: self.flip_h,
            flip_v: self.flip_v,
            elements: element_models(self.elements@),
        }
    }
}

/// The fault in a format version, if it is not supported.
pub open spec fn version_fault(version: u32) -> Option<RenderFault> {
    if version == 1 || version == 2 {
        None
    } else {
        Some(RenderFault::UnsupportedVersion(version))
    }
}

impl LabelDocument {
    /// The pictures of the elements are proper images.
    pub open spec fn wf(&self) -> bool {
        forall|i: int| 0 <= i < self.elements@.len() ==> (#[trigger] self.elements@[i]).wf()
    }

    /// Checks that the format version is a supported one.
    pub fn validate_version(&self) -> (result: Result<(), RenderError>)
        ensures
            match result {
                Ok(_) => version_fault(self@.version) is None,
                Err(error) => version_fault(self@.version) == Some(error@),
            },
    {
        if self.version == 1 || self.version == 2 {
            Ok(())
        } else {
            Err(RenderError::UnsupportedVersion(self.version))
        }
    }
}

} // verus!
