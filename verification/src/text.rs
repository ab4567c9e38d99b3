//! Text on labels.

use vstd::prelude::*;

use crate::bitmap::{LabelBitmap, Raster};
use crate::error::{RenderError, RenderFault};
use crate::gray::{extent, inked, GrayCanvas, GrayImage, InkRect};

verus! {

/// Text alignment within the label.
#[derive(Debug, Clone, Copy, PartialEq, Eq, Structural)]
pub enum TextAlign {
    /// Align text to the left edge.
    Left,
    /// Center text horizontally.
    Center,
    /// Align text to the right edge.
    Right,
}

impl Default for TextAlign {
    fn default() -> (align: Self)
        ensures
            align == TextAlign::Left,
    {
        TextAlign::Left
    }
}

/// Gray levels up to this one are printed.
pub const INK_THRESHOLD: u8 = 127;

/// The family that a text is set in.
#[derive(Debug)]
pub enum FontFamily {
    /// The default family without serifs.
    SansSerif,
    /// The family of the given name.
    Named(String),
}

/// Mathematical value of a [`FontFamily`].
pub enum FamilyModel {
    SansSerif,
    Named(Seq<char>),
}

impl View for FontFamily {
    type V = FamilyModel;

    open spec fn view(&self) -> FamilyModel {
        match *self {
            FontFamily::SansSerif => FamilyModel::SansSerif,
            FontFamily::Named(name) => FamilyModel::Named(name@),
        }
    }
}

/// The family for a font name; none stands for the default one.
pub open spec fn family_model(font_name: Seq<char>) -> FamilyModel {
    if font_name.len() == 0 {
        FamilyModel::SansSerif
    } else {
        FamilyModel::Named(font_name)
    }
}

/// The characters of a list of lines.
pub open spec fn line_texts(lines: Seq<&str>) -> Seq<Seq<char>> {
    Seq::new(lines.len(), |i: int| lines[i]@)
}

/// The lines with a line break between each and the next.
pub open spec fn joined(lines: Seq<Seq<char>>) -> Seq<char>
    decreases lines.len(),
{
    if lines.len() == 0 {
        Seq::empty()
    } else if lines.len() == 1 {
        lines[0]
    } else {
        joined(lines.drop_last()) + "\n"@ + lines.last()
    }
}

/// Joins lines with line breaks.
pub fn join_lines(lines: &[&str]) -> (text: String)
    ensures
        text@ == joined(line_texts(lines@)),
{
    let mut text = "".to_string();
    proof {
        reveal_strlit("");
    }
    let mut i: usize = 0;
    assert(text@ =~= joined(line_texts(lines@).take(0)));
    while i < lines.len()
        invariant
            i <= lines@.len(),
            text@ == joined(line_texts(lines@).take(i as int)),
        decreases lines@.len() - i,
    {
        let ghost grown = line_texts(lines@).take(i + 1);
        assert(grown.drop_last() =~= line_texts(lines@).take(i as int));
        if i > 0 {
            text.append("\n");
        }
        text.append(lines[i]);
        assert(text@ =~= joined(grown));
        i = i + 1;
    }
    assert(line_texts(lines@).take(i as int) =~= line_texts(lines@));
    text
}

/// A font weight within the range that fonts know.
pub open spec fn font_weight_model(weight: u16) -> u16 {
    if weight < 1 {
        1
    } else if weight > 1000 {
        1000
    } else {
        weight
    }
}

/// What is handed to the font engine, and how its output is placed.
#[derive(Debug)]
pub struct TextPlan {
    /// The text, its lines joined by line breaks.
    pub text: String,
    /// Number of lines.
    pub line_count: usize,
    /// Height of the image.
    pub print_width: u32,
    /// Height between the margins.
    pub available_height: u32,
    pub family: FontFamily,
    /// Font weight, 1 to 1000.
    pub weight: u16,
    pub align: TextAlign,
    pub font_margin: u32,
    pub center_vertically: bool,
}

/// Mathematical value of a [`TextPlan`].
#[verifier::ext_equal]
pub struct PlanModel {
    pub text: Seq<char>,
    pub line_count: nat,
    pub print_width: u32,
    pub available_height: u32,
    pub family: FamilyModel,
    pub weight: u16,
    pub align: TextAlign,
    pub font_margin: u32,
    pub center_vertically: bool,
}

impl View for TextPlan {
    type V = PlanModel;

    open spec fn view(&self) -> PlanModel {
        PlanModel {
            text: self.text@,
            line_count: self.line_count as nat,
            print_width: self.print_width,
            available_height: self.available_height,
            family: self.family@,
            weight: self.weight,
            align: self.align,
            font_margin: self.font_margin,
            center_vertically: self.center_vertically,
        }
    }
}

impl TextPlan {
    /// The largest whole height of a line with which all lines fit between the
    /// margins.
    pub fn largest_line_height(&self) -> (height: u32)
        requires
            self.line_count > 0,
        ensures
            height * self.line_count <= self.available_height,
            self.available_height < (height + 1) * self.line_count,
    {
        let count: u64 = self.line_count as u64;
        let height: u64 = self.available_height as u64 / count;
        proof {
            let (h, n, a) = (height as int, count as int, self.available_height as int);
            vstd::arithmetic::div_mod::lemma_fundamental_div_mod(a, n);
            assert(n * h == h * n) by (nonlinear_arith);
            assert((h + 1) * n == h * n + n) by (nonlinear_arith);
            assert(h <= h * n) by (nonlinear_arith)
                requires
                    n >= 1,
                    h >= 0,
            ;
        }
        height as u32
    }
}

/// How a text is rendered, or why it cannot be.
pub open spec fn planned_text(
    lines: Seq<Seq<char>>,
    print_width: u32,
    font_name: Seq<char>,
    font_margin: u32,
    align: TextAlign,
    font_weight: u16,
    center_vertically: bool,
) -> Result<PlanModel, RenderFault> {
    if print_width == 0 {
        Err(RenderFault::Text("print_width must be > 0"@))
    } else if joined(lines).len() == 0 {
        Err(RenderFault::Text("no text to render"@))
    } else if print_width <= font_margin * 2 {
        Err(RenderFault::Text("font_margin too large for tape width"@))
    } else {
        Ok(
            PlanModel {
                text: joined(lines),
                line_count: lines.len(),
                print_width,
                available_height: (print_width - font_margin * 2) as u32,
                family: family_model(font_name),
                weight: font_weight_model(font_weight),
                align,
                font_margin,
                center_vertically,
            },
        )
    }
}

/// A planning result with the mathematical values of its parts.
pub open spec fn plan_outcome(result: Result<TextPlan, RenderError>) -> Result<
    PlanModel,
    RenderFault,
> {
    match result {
        Ok(plan) => Ok(plan@),
        Err(error) => Err(error@),
    }
}

/// Decides how a text is rendered.
///
/// - `lines`: text lines to render (joined with newlines)
/// - `print_width`: height of the tape in pixels, which is the height of the image
/// - `font_name`: font family name to use; empty for the default one
/// - `font_margin`: margin in pixels on each side (top and bottom)
/// - `align`: horizontal text alignment
pub fn plan_text(
    lines: &[&str],
    print_width: u32,
    font_name: &str,
    font_margin: u32,
    align: TextAlign,
    font_weight: u16,
    center_vertically: bool,
) -> (result: Result<TextPlan, RenderError>)
    requires
        print_width > 0 && joined(line_texts(lines@)).len() > 0 ==> font_margin * 2 <= u32::MAX,
    ensures
        plan_outcome(result) == planned_text(
            line_texts(lines@),
            print_width,
            font_name@,
            font_margin,
            align,
            font_weight,
            center_vertically,
        ),
{
    if print_width == 0 {
        return Err(RenderError::Text("print_width must be > 0".to_string()));
    }
    let text: String = join_lines(lines);
    if text.as_str().is_empty() {
        return Err(RenderError::Text("no text to render".to_string()));
    }
    if print_width <= font_margin * 2 {
        return Err(RenderError::Text("font_margin too large for tape width".to_string()));
    }
    let family = if font_name.is_empty() {
        FontFamily::SansSerif
    } else {
        FontFamily::Named(font_name.to_string())
    };
    let weight: u16 = if font_weight < 1 {
        1
    } else if font_weight > 1000 {
        1000
    } else {
        font_weight
    };
    Ok(
        TextPlan {
            text,
            line_count: lines.len(),
            print_width,
            available_height: print_width - font_margin * 2,
            family,
            weight,
            align,
            font_margin,
            center_vertically,
        },
    )
}

/// The weight of ordinary text.
pub const NORMAL_WEIGHT: u16 = 400;

/// How a text of a given weight is rendered across the tape.
pub open spec fn weighted_text(
    lines: Seq<Seq<char>>,
    print_width: u32,
    font: (Seq<char>, u16),
    font_margin: u32,
    align: TextAlign,
) -> Result<PlanModel, RenderFault> {
    planned_text(lines, print_width, font.0, font_margin, align, font.1, true)
}

/// How an ordinary text is rendered across the tape.
pub open spec fn ordinary_text(
    lines: Seq<Seq<char>>,
    print_width: u32,
    font_name: Seq<char>,
    font_margin: u32,
    align: TextAlign,
) -> Result<PlanModel, RenderFault> {
    planned_text(lines, print_width, font_name, font_margin, align, NORMAL_WEIGHT, true)
}

/// Decides how a text of a given family and weight is rendered across the tape.
pub fn plan_weighted_text(
    lines: &[&str],
    print_width: u32,
    font: (&str, u16),
    font_margin: u32,
    align: TextAlign,
) -> (result: Result<TextPlan, RenderError>)
    requires
        print_width > 0 && joined(line_texts(lines@)).len() > 0 ==> font_margin * 2 <= u32::MAX,
    ensures
        plan_outcome(result) == weighted_text(
            line_texts(lines@),
            print_width,
            (font.0@, font.1),
            font_margin,
            align,
        ),
{
    plan_text(lines, print_width, font.0, font_margin, align, font.1, true)
}

/// Decides how an ordinary text is rendered across the tape.
pub fn plan_ordinary_text(
    lines: &[&str],
    print_width: u32,
    font_name: &str,
    font_margin: u32,
    align: TextAlign,
) -> (result: Result<TextPlan, RenderError>)
    requires
        print_width > 0 && joined(line_texts(lines@)).len() > 0 ==> font_margin * 2 <= u32::MAX,
    ensures
        plan_outcome(result) == ordinary_text(
            line_texts(lines@),
            print_width,
            font_name@,
            font_margin,
            align,
        ),
{
    plan_text(lines, print_width, font_name, font_margin, align, NORMAL_WEIGHT, true)
}

/// A text of weight 400 is rendered as an ordinary one.
pub proof fn law_ordinary_text_has_normal_weight(
    lines: Seq<Seq<char>>,
    print_width: u32,
    font_name: Seq<char>,
    font_margin: u32,
    align: TextAlign,
)
    ensures
        weighted_text(lines, print_width, (font_name, 400), font_margin, align) == ordinary_text(
            lines,
            print_width,
            font_name,
            font_margin,
            align,
        ),
{
}

/// A weight acts as the nearest one from 1 to 1000: 0 as 1, and all above 1000
/// as 1000.
pub proof fn law_weights_act_as_the_nearest_known(
    lines: Seq<Seq<char>>,
    print_width: u32,
    font_name: Seq<char>,
    weight: u16,
    font_margin: u32,
    align: TextAlign,
)
    ensures
        weighted_text(lines, print_width, (font_name, weight), font_margin, align)
            == weighted_text(
            lines,
            print_width,
            (font_name, font_weight_model(weight)),
            font_margin,
            align,
        ),
        1 <= font_weight_model(weight) <= 1000,
        weight == 0 ==> font_weight_model(weight) == 1,
        weight > 1000 ==> font_weight_model(weight) == 1000,
{
}

/// Number of characters before the first line break, or of all where there is
/// none.
pub open spec fn line_end(text: Seq<char>) -> int
    decreases text.len(),
{
    if text.len() == 0 || text[0] == '\n' {
        0
    } else {
        1 + line_end(text.drop_first())
    }
}

/// A line that a line feed ends, without the carriage return before it.
pub open spec fn without_return(line: Seq<char>) -> Seq<char> {
    if line.len() > 0 && line.last() == '\r' {
        line.drop_last()
    } else {
        line
    }
}

/// The lines of a text. Each ends with a line feed, or a carriage return and a
/// line feed, which do not belong to it; behind the last line they may be
/// missing. A carriage return that no line feed follows stays.
pub open spec fn lines_of(text: Seq<char>) -> Seq<Seq<char>>
    decreases text.len(),
    via lines_of_decreases
{
    if text.len() == 0 {
        Seq::empty()
    } else if line_end(text) == text.len() {
        seq![text]
    } else {
        seq![without_return(text.take(line_end(text)))] + lines_of(text.skip(line_end(text) + 1))
    }
}

#[via_fn]
proof fn lines_of_decreases(text: Seq<char>) {
    lemma_line_end(text);
}

/// Where a line ends.
proof fn lemma_line_end(text: Seq<char>)
    ensures
        0 <= line_end(text) <= text.len(),
        line_end(text) < text.len() ==> text[line_end(text)] == '\n',
    decreases text.len(),
{
    if text.len() > 0 && text[0] != '\n' {
        lemma_line_end(text.drop_first());
    }
}

/// A line ends at the first line feed.
proof fn lemma_line_end_is(text: Seq<char>, end: int)
    requires
        0 <= end <= text.len(),
        forall|k: int| 0 <= k < end ==> text[k] != '\n',
        end < text.len() ==> text[end] == '\n',
    ensures
        line_end(text) == end,
    decreases text.len(),
{
    if end > 0 {
        lemma_line_end_is(text.drop_first(), end - 1);
    }
}

/// The characters of a list of strings.
pub open spec fn string_texts(lines: Seq<String>) -> Seq<Seq<char>> {
    Seq::new(lines.len(), |i: int| lines[i]@)
}

/// Splits a text into its lines.
pub fn split_lines(text: &str) -> (lines: Vec<String>)
    ensures
        string_texts(lines@) == lines_of(text@),
{
    let mut lines: Vec<String> = Vec::new();
    let count: usize = text.unicode_len();
    let mut start: usize = 0;
    let mut at: usize = 0;
    let mut returned: bool = false;
    assert(text@.skip(0) =~= text@);
    assert(string_texts(lines@) + lines_of(text@) =~= lines_of(text@));
    for c in it: text.chars()
        invariant
            it.seq() == text@,
            count == text@.len(),
            at == it.index(),
            start <= at <= count,
            returned == (start < at && text@[at - 1] == '\r'),
            forall|k: int| start <= k < at ==> text@[k] != '\n',
            lines_of(text@) == string_texts(lines@) + lines_of(text@.skip(start as int)),
    {
        if c == '\n' {
            let end: usize = if returned {
                at - 1
            } else {
                at
            };
            let ghost rest = text@.skip(start as int);
            let ghost before = string_texts(lines@);
            lines.push(text.substring_char(start, end).to_string());
            proof {
                lemma_line_end_is(rest, at - start);
                assert(rest.skip(at - start + 1) =~= text@.skip(at + 1));
                assert(without_return(rest.take(at - start)) =~= text@.subrange(
                    start as int,
                    end as int,
                ));
                assert(string_texts(lines@) =~= before.push(
                    text@.subrange(start as int, end as int),
                ));
                assert(lines_of(text@) =~= string_texts(lines@) + lines_of(text@.skip(at + 1)));
            }
            start = at + 1;
        }
        returned = c == '\r';
        at = at + 1;
    }
    let ghost rest = text@.skip(start as int);
    if start < count {
        let ghost before = string_texts(lines@);
        lines.push(text.substring_char(start, count).to_string());
        proof {
            lemma_line_end_is(rest, count - start);
            assert(rest =~= text@.subrange(start as int, count as int));
            assert(string_texts(lines@) =~= before.push(rest));
            assert(lines_of(rest) =~= seq![rest]);
        }
    }
    assert(string_texts(lines@) =~= lines_of(text@));
    lines
}

/// What the font engine is asked to render.
#[derive(Debug)]
pub struct TextRequest {
    pub lines: Vec<String>,
    /// Font family name; empty for the default one.
    pub font_name: String,
    /// Font size in points, as the bits of a floating point number.
    pub font_size: u32,
    pub font_weight: u16,
    pub align: TextAlign,
    pub font_margin: u32,
    pub center_vertically: bool,
}

/// Mathematical value of a [`TextRequest`].
#[verifier::ext_equal]
pub struct RequestModel {
    pub lines: Seq<Seq<char>>,
    pub font_name: Seq<char>,
    pub font_size: u32,
    pub font_weight: u16,
    pub align: TextAlign,
    pub font_margin: u32,
    pub center_vertically: bool,
}

impl View for TextRequest {
    type V = RequestModel;

    open spec fn view(&self) -> RequestModel {
        RequestModel {
            lines: string_texts(self.lines@),
            font_name: self.font_name@,
            font_size: self.font_size,
            font_weight: self.font_weight,
            align: self.align,
            font_margin: self.font_margin,
            center_vertically: self.center_vertically,
        }
    }
}

/// The request for a tightly bounded text: left, without a margin, and as high
/// as its lines.
pub open spec fn tight_text(
    lines: Seq<Seq<char>>,
    font_name: Seq<char>,
    font_size: u32,
    font_weight: u16,
) -> RequestModel {
    RequestModel {
        lines,
        font_name,
        font_size,
        font_weight,
        align: TextAlign::Left,
        font_margin: 0,
        center_vertically: false,
    }
}

/// Asks for a tightly bounded text.
pub fn request_tight_text(
    lines: Vec<String>,
    font_name: &str,
    font_size: u32,
    font_weight: u16,
) -> (request: TextRequest)
    ensures
        request@ == tight_text(string_texts(lines@), font_name@, font_size, font_weight),
{
    TextRequest {
        lines,
        font_name: font_name.to_string(),
        font_size,
        font_weight,
        align: TextAlign::Left,
        font_margin: 0,
        center_vertically: false,
    }
}

/// A rectangle of ink as the font engine draws it.
#[derive(Debug, Clone, Copy, PartialEq, Eq, Structural)]
pub struct InkSpan {
    pub x: i32,
    pub y: i32,
    pub width: u32,
    pub height: u32,
    /// Opacity, 0 to 255.
    pub alpha: u8,
}

/// What the font engine measured.
#[derive(Debug, Clone, Copy, PartialEq, Eq, Structural)]
pub struct TextExtent {
    /// Width from the leftmost glyph to the rightmost, rounded up.
    pub width: u32,
    /// Where the leftmost glyph begins, rounded down.
    pub left: i32,
    /// Height of all lines.
    pub height: u32,
}

/// How far down a text starts: it is centered where it is asked to be and is
/// lower than the image, and otherwise keeps the margin.
pub open spec fn vertical_offset(plan: PlanModel, text_height: u32) -> int {
    if plan.center_vertically && text_height < plan.print_width {
        (plan.print_width - text_height) / 2
    } else {
        plan.font_margin as int
    }
}

/// Where ink lands on the image of a text.
pub open spec fn ink_rect(plan: PlanModel, measured: TextExtent, span: InkSpan) -> InkRect {
    InkRect {
        x: span.x - measured.left,
        y: span.y + vertical_offset(plan, measured.height),
        width: extent(span.width),
        height: extent(span.height),
    }
}

/// The level of a pixel under ink: the darkest that any of it gives.
pub open spec fn level_under(
    plan: PlanModel,
    measured: TextExtent,
    spans: Seq<InkSpan>,
    x: int,
    y: int,
) -> u8
    decreases spans.len(),
{
    if spans.len() == 0 {
        255
    } else {
        let below = level_under(plan, measured, spans.drop_last(), x, y);
        if ink_rect(plan, measured, spans.last()).covers(x, y) {
            inked(below, spans.last().alpha)
        } else {
            below
        }
    }
}

/// The width of the image of a text.
pub open spec fn image_width(measured: TextExtent) -> nat {
    if measured.width < 1 {
        1
    } else {
        measured.width as nat
    }
}

/// Whether an image is that of a text: as wide as the text, as high as the tape,
/// and inked where the font engine drew.
pub open spec fn is_text_image(
    image: GrayImage,
    plan: PlanModel,
    measured: TextExtent,
    spans: Seq<InkSpan>,
) -> bool {
    &&& image.width == image_width(measured)
    &&& image.height == plan.print_width
    &&& image.levels.len() == image.width * image.height
    &&& forall|x: int, y: int|
        0 <= x < image.width && 0 <= y < image.height ==> #[trigger] image.level(x, y)
            == level_under(plan, measured, spans, x, y)
}

/// Draws the gray image of a text from what the font engine measured and drew.
pub fn render_text_gray_to_height(plan: &TextPlan, measured: &TextExtent, spans: &Vec<InkSpan>) -> (image:
    GrayCanvas)
    requires
        plan.font_margin <= i32::MAX,
    ensures
        image.wf(),
        is_text_image(image@, plan@, *measured, spans@),
{
    let width: u32 = if measured.width < 1 {
        1
    } else {
        measured.width
    };
    let y_offset: i32 = if plan.center_vertically && measured.height < plan.print_width {
        ((plan.print_width - measured.height) / 2) as i32
    } else {
        plan.font_margin as i32
    };
    let mut image = GrayCanvas::filled(width, plan.print_width, 255);
    assert forall|x: int, y: int|
        0 <= x < image@.width && 0 <= y < image@.height implies #[trigger] image@.level(x, y)
        == 255 by {
        crate::bitmap::lemma_cell(image@.width as int, image@.height as int, x, y);
    }
    let mut i: usize = 0;
    while i < spans.len()
        invariant
            i <= spans@.len(),
            image.wf(),
            image@.width == image_width(*measured),
            image@.height == plan.print_width,
            y_offset == vertical_offset(plan@, measured.height),
            forall|x: int, y: int|
                0 <= x < image@.width && 0 <= y < image@.height ==> #[trigger] image@.level(x, y)
                    == level_under(plan@, *measured, spans@.take(i as int), x, y),
        decreases spans@.len() - i,
    {
        let span = spans[i];
        let ghost before = image@;
        image.draw_ink(
            span.x,
            span.y,
            span.width,
            span.height,
            span.alpha,
            measured.left,
            y_offset,
        );
        assert forall|x: int, y: int|
            0 <= x < image@.width && 0 <= y < image@.height implies #[trigger] image@.level(x, y)
            == level_under(plan@, *measured, spans@.take(i + 1), x, y) by {
            assert(spans@.take(i + 1).drop_last() =~= spans@.take(i as int));
            assert(before.level(x, y) == level_under(
                plan@,
                *measured,
                spans@.take(i as int),
                x,
                y,
            ));
        }
        i = i + 1;
    }
    assert(spans@.take(i as int) =~= spans@);
    image
}

/// The pixels that a text prints: those that ink of at least half opacity covers.
pub open spec fn text_raster(plan: PlanModel, measured: TextExtent, spans: Seq<InkSpan>) -> Raster {
    Raster {
        width: image_width(measured),
        height: plan.print_width as nat,
        dark: Set::new(
            |p: (int, int)|
                {
                    &&& 0 <= p.0 < image_width(measured)
                    &&& 0 <= p.1 < plan.print_width
                    &&& exists|i: int|
                        0 <= i < spans.len() && #[trigger] spans[i].alpha >= 128 && ink_rect(
                            plan,
                            measured,
                            spans[i],
                        ).covers(p.0, p.1)
                },
        ),
    }
}

/// A pixel is dark enough to print just where ink of at least half opacity
/// covers it.
pub proof fn law_half_opacity_prints(
    plan: PlanModel,
    measured: TextExtent,
    spans: Seq<InkSpan>,
    x: int,
    y: int,
)
    ensures
        level_under(plan, measured, spans, x, y) <= INK_THRESHOLD <==> exists|i: int|
            0 <= i < spans.len() && #[trigger] spans[i].alpha >= 128 && ink_rect(
                plan,
                measured,
                spans[i],
            ).covers(x, y),
    decreases spans.len(),
{
    if spans.len() > 0 {
        let rest = spans.drop_last();
        law_half_opacity_prints(plan, measured, rest, x, y);
        if level_under(plan, measured, rest, x, y) <= INK_THRESHOLD {
            let i = choose|i: int|
                0 <= i < rest.len() && #[trigger] rest[i].alpha >= 128 && ink_rect(
                    plan,
                    measured,
                    rest[i],
                ).covers(x, y);
            assert(spans[i] == rest[i]);
        }
        assert(spans.last() == spans[spans.len() - 1]);
        assert forall|i: int| 0 <= i < rest.len() implies #[trigger] spans[i] == rest[i] by {
        }
        if level_under(plan, measured, spans, x, y) > INK_THRESHOLD {
            assert forall|i: int|
                0 <= i < spans.len() && #[trigger] spans[i].alpha >= 128 implies !ink_rect(
                plan,
                measured,
                spans[i],
            ).covers(x, y) by {
                if i < rest.len() {
                    assert(spans[i] == rest[i]);
                }
            }
        }
    }
}

/// Draws the one-bit image of a text from what the font engine measured and drew.
pub fn render_text(plan: &TextPlan, measured: &TextExtent, spans: &Vec<InkSpan>) -> (bitmap:
    LabelBitmap)
    requires
        plan.font_margin <= i32::MAX,
    ensures
        bitmap.wf(),
        bitmap@ == text_raster(plan@, *measured, spans@),
{
    let gray = render_text_gray_to_height(plan, measured, spans);
    let bitmap = LabelBitmap::from_gray_image(&gray, INK_THRESHOLD);
    assert(bitmap@ =~= text_raster(plan@, *measured, spans@)) by {
        assert forall|p: (int, int)|
            bitmap@.dark.contains(p) == text_raster(plan@, *measured, spans@).dark.contains(p) by {
            law_half_opacity_prints(plan@, *measured, spans@, p.0, p.1);
        }
    }
    bitmap
}

} // verus!
