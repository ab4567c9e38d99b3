//! What holds of every rendered text.

use vstd::prelude::*;

use crate::document::DocumentModel;
use crate::error::{RenderError, RenderFault};
use crate::gray::GrayImage;
use crate::layout::{asks_for_text, requested_text};
use crate::text::{
    image_width, ink_rect, is_text_image, joined, law_half_opacity_prints, level_under, line_end,
    line_texts, lines_of, ordinary_text, plan_outcome, planned_text, string_texts, text_raster,
    tight_text, weighted_text, FamilyModel, FontFamily, InkSpan, PlanModel, TextAlign, TextExtent, TextPlan,
    TextRequest,
};

verus! {

/// A text that is to be centered and is lower than the tape leaves as many rows
/// free above as below, but for one, whatever the margin.
pub proof fn law_centered_text_has_equal_room(plan: PlanModel, measured: TextExtent, span: InkSpan)
    requires
        plan.center_vertically,
        measured.height < plan.print_width,
        span.y == 0,
    ensures
        ({
            let above = ink_rect(plan, measured, span).y;
            let below = plan.print_width - above - measured.height;
            &&& 0 <= above
            &&& above == below || above + 1 == below
        }),
{
}

/// A text that is not to be centered, or fills the tape, starts at the margin.
pub proof fn law_other_text_starts_at_the_margin(
    plan: PlanModel,
    measured: TextExtent,
    span: InkSpan,
)
    requires
        !plan.center_vertically || measured.height >= plan.print_width,
        span.y == 0,
    ensures
        ink_rect(plan, measured, span).y == plan.font_margin,
{
}

/// Ink keeps its size and its distance from other ink, and what is drawn where the
/// leftmost glyph begins lands in the first column.
pub proof fn law_ink_keeps_its_distances(
    plan: PlanModel,
    measured: TextExtent,
    a: InkSpan,
    b: InkSpan,
)
    ensures
        ink_rect(plan, measured, b).x - ink_rect(plan, measured, a).x == b.x - a.x,
        ink_rect(plan, measured, b).y - ink_rect(plan, measured, a).y == b.y - a.y,
        a.x == measured.left ==> ink_rect(plan, measured, a).x == 0,
        a.width <= i32::MAX ==> ink_rect(plan, measured, a).width == a.width,
        a.height <= i32::MAX ==> ink_rect(plan, measured, a).height == a.height,
        a.width > i32::MAX ==> ink_rect(plan, measured, a).width == 0,
        a.height > i32::MAX ==> ink_rect(plan, measured, a).height == 0,
{
}

/// A rectangle covers its first column and row, and its last, and nothing beyond.
pub proof fn law_rectangles_cover_what_they_measure(
    plan: PlanModel,
    measured: TextExtent,
    span: InkSpan,
    x: int,
    y: int,
)
    ensures
        ({
            let rect = ink_rect(plan, measured, span);
            rect.covers(x, y) <==> {
                &&& 0 <= x - rect.x
                &&& x - rect.x <= rect.width - 1
                &&& 0 <= y - rect.y
                &&& y - rect.y <= rect.height - 1
            }
        }),
{
}

/// A pixel is as dark as the strongest ink on it, and white where there is none.
pub proof fn law_the_strongest_ink_counts(
    plan: PlanModel,
    measured: TextExtent,
    spans: Seq<InkSpan>,
    x: int,
    y: int,
)
    ensures
        forall|i: int|
            0 <= i < spans.len() && ink_rect(plan, measured, #[trigger] spans[i]).covers(x, y)
                ==> level_under(plan, measured, spans, x, y) + spans[i].alpha <= 255,
        level_under(plan, measured, spans, x, y) == 255 || exists|i: int|
            0 <= i < spans.len() && ink_rect(plan, measured, #[trigger] spans[i]).covers(x, y)
                && level_under(plan, measured, spans, x, y) + spans[i].alpha == 255,
    decreases spans.len(),
{
    if spans.len() > 0 {
        let rest = spans.drop_last();
        law_the_strongest_ink_counts(plan, measured, rest, x, y);
        let level = level_under(plan, measured, spans, x, y);
        let below = level_under(plan, measured, rest, x, y);
        assert forall|i: int|
            0 <= i < spans.len() && ink_rect(plan, measured, #[trigger] spans[i]).covers(
                x,
                y,
            ) implies level + spans[i].alpha <= 255 by {
            if i < rest.len() {
                assert(spans[i] == rest[i]);
            }
        }
        if level != 255 {
            if level == below {
                let i = choose|i: int|
                    0 <= i < rest.len() && ink_rect(plan, measured, #[trigger] rest[i]).covers(x, y)
                        && below + rest[i].alpha == 255;
                assert(spans[i] == rest[i]);
            } else {
                let i = spans.len() - 1;
                assert(spans[i] == spans.last());
            }
        }
    }
}

/// A text is as wide as its glyphs, but at least one column, and as high as the
/// tape.
pub proof fn law_text_images_are_as_large_as_the_text(
    plan: PlanModel,
    measured: TextExtent,
    spans: Seq<InkSpan>,
)
    ensures
        measured.width > 0 ==> image_width(measured) == measured.width,
        measured.width == 0 ==> image_width(measured) == 1,
        text_raster(plan, measured, spans).width == image_width(measured),
        text_raster(plan, measured, spans).height == plan.print_width,
{
}

/// A plan holds what was asked for, each in its own place: the alignment, the
/// margin, the height, whether to center, the family unless it has no name, and
/// the weight where fonts know it. The margin is kept free on both sides.
pub proof fn law_plans_hold_what_was_asked_for(
    lines: Seq<Seq<char>>,
    print_width: u32,
    font_name: Seq<char>,
    font_margin: u32,
    align: TextAlign,
    font_weight: u16,
    center_vertically: bool,
)
    ensures
        planned_text(
            lines,
            print_width,
            font_name,
            font_margin,
            align,
            font_weight,
            center_vertically,
        ) matches Ok(plan) ==> {
            &&& plan.print_width == print_width
            &&& plan.font_margin == font_margin
            &&& plan.align == align
            &&& plan.center_vertically == center_vertically
            &&& plan.line_count == lines.len()
            &&& plan.available_height > 0
            &&& font_margin + plan.available_height + font_margin == print_width
            &&& font_name.len() > 0 ==> plan.family == FamilyModel::Named(font_name)
            &&& font_name.len() == 0 ==> plan.family == FamilyModel::SansSerif
            &&& 1 <= font_weight <= 1000 ==> plan.weight == font_weight
            &&& font_weight == 0 ==> plan.weight == 1
            &&& font_weight > 1000 ==> plan.weight == 1000
            &&& plan.text.len() > 0
        },
{
}

/// A text can be rendered if the tape has a height, there is a character, and both
/// margins leave room; each fault has its own message, in this order.
pub proof fn law_texts_are_refused_for_a_reason(
    lines: Seq<Seq<char>>,
    print_width: u32,
    font_name: Seq<char>,
    font_margin: u32,
    align: TextAlign,
    font_weight: u16,
    center_vertically: bool,
)
    ensures
        ({
            let result = planned_text(
                lines,
                print_width,
                font_name,
                font_margin,
                align,
                font_weight,
                center_vertically,
            );
            &&& result is Ok <==> print_width > 0 && joined(lines).len() > 0 && font_margin
                + font_margin < print_width
            &&& print_width == 0 ==> result == Err::<PlanModel, RenderFault>(
                RenderFault::Text("print_width must be > 0"@),
            )
            &&& print_width > 0 && joined(lines).len() == 0 ==> result == Err::<
                PlanModel,
                RenderFault,
            >(RenderFault::Text("no text to render"@))
            &&& print_width > 0 && joined(lines).len() > 0 && font_margin + font_margin
                >= print_width ==> result == Err::<PlanModel, RenderFault>(
                RenderFault::Text("font_margin too large for tape width"@),
            )
        }),
{
}

/// The model of a plan shows its fields.
pub proof fn law_plan_models_show_the_fields(plan: TextPlan)
    ensures
        plan@.text == plan.text@,
        plan@.line_count == plan.line_count,
        plan@.print_width == plan.print_width,
        plan@.available_height == plan.available_height,
        plan@.family matches FamilyModel::Named(name) ==> plan.family matches FontFamily::Named(s)
            && s@ == name,
        plan@.family is SansSerif <==> plan.family is SansSerif,
        plan@.weight == plan.weight,
        plan@.align == plan.align,
        plan@.font_margin == plan.font_margin,
        plan@.center_vertically == plan.center_vertically,
{
}

/// The model of a request shows its fields.
pub proof fn law_request_models_show_the_fields(request: TextRequest)
    ensures
        request@.lines.len() == request.lines@.len(),
        forall|i: int|
            0 <= i < request.lines@.len() ==> #[trigger] request@.lines[i] == request.lines@[i]@,
        request@.font_name == request.font_name@,
        request@.font_size == request.font_size,
        request@.font_weight == request.font_weight,
        request@.align == request.align,
        request@.font_margin == request.font_margin,
        request@.center_vertically == request.center_vertically,
{
}

/// The font engine is asked for the lines of the element at the element's size, in
/// the document's family and in weight 400, at the left, without margins and not
/// centered.
pub proof fn law_requests_follow_the_element(document: DocumentModel, index: int)
    requires
        0 <= index < document.elements.len(),
        asks_for_text(document.elements[index]),
    ensures
        ({
            let request = requested_text(document, index);
            &&& request.lines == lines_of(document.elements[index]->content)
            &&& Some(request.font_size) == document.elements[index]->font_size
            &&& request.font_name == document.font_name
            &&& request.font_weight == 400
            &&& request.align == TextAlign::Left
            &&& request.font_margin == 0
            &&& !request.center_vertically
        }),
{
}

/// A tight request holds what was asked for.
pub proof fn law_tight_requests_hold_what_was_asked_for(
    lines: Seq<Seq<char>>,
    font_name: Seq<char>,
    font_size: u32,
    font_weight: u16,
)
    ensures
        ({
            let request = tight_text(lines, font_name, font_size, font_weight);
            &&& request.lines == lines
            &&& request.font_name == font_name
            &&& request.font_size == font_size
            &&& request.font_weight == font_weight
            &&& request.align == TextAlign::Left
            &&& request.font_margin == 0
            &&& !request.center_vertically
        }),
{
}

/// Whether a line can stand in a text: it holds no line feed, and no carriage
/// return at its end.
pub open spec fn is_line(line: Seq<char>) -> bool {
    &&& forall|i: int| 0 <= i < line.len() ==> #[trigger] line[i] != '\n'
    &&& line.len() > 0 ==> line.last() != '\r'
}

/// A text starts with its first line.
proof fn lemma_first_line(lines: Seq<Seq<char>>)
    requires
        lines.len() >= 2,
    ensures
        joined(lines) == lines[0] + seq!['\n'] + joined(lines.drop_first()),
    decreases lines.len(),
{
    reveal_strlit("\n");
    assert("\n"@ =~= seq!['\n']);
    let rest = lines.drop_first();
    if lines.len() == 2 {
        assert(lines.drop_last() =~= seq![lines[0]]);
        assert(rest =~= seq![lines[1]]);
        assert(joined(lines.drop_last()) == lines[0]);
        assert(joined(rest) == lines[1]);
        assert(joined(lines) =~= lines[0] + seq!['\n'] + joined(rest));
    } else {
        lemma_first_line(lines.drop_last());
        assert(lines.drop_last().drop_first() =~= rest.drop_last());
        assert(rest.last() == lines.last());
        assert(joined(lines) =~= lines[0] + seq!['\n'] + joined(rest));
    }
}

/// The first line of a text ends where its first line feed stands.
proof fn lemma_line_end_at(text: Seq<char>, end: int)
    requires
        0 <= end <= text.len(),
        forall|k: int| 0 <= k < end ==> text[k] != '\n',
        end < text.len() ==> text[end] == '\n',
    ensures
        line_end(text) == end,
    decreases text.len(),
{
    if end > 0 {
        lemma_line_end_at(text.drop_first(), end - 1);
    }
}

/// Lines that are joined and split again are the same lines.
pub proof fn law_joined_lines_are_split_again(lines: Seq<Seq<char>>)
    requires
        forall|i: int| 0 <= i < lines.len() ==> is_line(#[trigger] lines[i]),
        lines.len() > 0 ==> lines.last().len() > 0,
    ensures
        lines_of(joined(lines)) == lines,
    decreases lines.len(),
{
    let text = joined(lines);
    if lines.len() == 0 {
        assert(lines_of(text) =~= lines);
    } else if lines.len() == 1 {
        assert(is_line(lines[0]));
        assert(text == lines[0]);
        lemma_line_end_at(text, text.len() as int);
        assert(lines_of(text) =~= lines);
    } else {
        let rest = lines.drop_first();
        let first = lines[0];
        lemma_first_line(lines);
        assert(is_line(first));
        assert forall|i: int| 0 <= i < rest.len() implies is_line(#[trigger] rest[i]) by {
            assert(rest[i] == lines[i + 1]);
        }
        assert(rest.last() == lines.last());
        law_joined_lines_are_split_again(rest);
        lemma_line_end_at(text, first.len() as int);
        assert(text.take(first.len() as int) =~= first);
        assert(text.skip(first.len() as int + 1) =~= joined(rest));
        assert(lines_of(text) =~= seq![first] + lines_of(joined(rest)));
        assert(seq![first] + rest =~= lines);
    }
}

/// A carriage return before a line feed belongs to the line break, and a line
/// break behind the last line starts no further one.
pub proof fn law_line_breaks_may_have_a_return(line: Seq<char>, rest: Seq<char>)
    requires
        is_line(line),
    ensures
        lines_of(line + seq!['\n'] + rest) == seq![line] + lines_of(rest),
        lines_of(line + seq!['\r', '\n'] + rest) == seq![line] + lines_of(rest),
        lines_of(Seq::<char>::empty()).len() == 0,
{
    let plain = line + seq!['\n'] + rest;
    lemma_line_end_at(plain, line.len() as int);
    assert(plain.take(line.len() as int) =~= line);
    assert(plain.skip(line.len() as int + 1) =~= rest);
    let long = line + seq!['\r', '\n'] + rest;
    assert(forall|k: int| 0 <= k < line.len() ==> long[k] == line[k]);
    assert(long[line.len() as int] == '\r');
    lemma_line_end_at(long, line.len() as int + 1);
    assert(long.take(line.len() as int + 1).drop_last() =~= line);
    assert(long.skip(line.len() as int + 2) =~= rest);
}

/// A pixel of the one-bit image is dark just where the gray image of the same text
/// is at most half as light as the paper.
pub proof fn law_both_images_show_the_same_text(
    image: GrayImage,
    plan: PlanModel,
    measured: TextExtent,
    spans: Seq<InkSpan>,
    x: int,
    y: int,
)
    requires
        is_text_image(image, plan, measured, spans),
        0 <= x < image.width,
        0 <= y < image.height,
    ensures
        image.width == text_raster(plan, measured, spans).width,
        image.height == text_raster(plan, measured, spans).height,
        image.levels[y * image.width + x] == level_under(plan, measured, spans, x, y),
        text_raster(plan, measured, spans).dark.contains((x, y)) == (image.levels[y * image.width
            + x] <= 127),
{
    assert(image.level(x, y) == level_under(plan, measured, spans, x, y));
    law_half_opacity_prints(plan, measured, spans, x, y);
}

/// Text across the tape is centered, in the family and the weight that are asked
/// for, with the margin and the alignment that are; ordinary text has weight 400.
pub proof fn law_text_across_the_tape_is_centered(
    lines: Seq<Seq<char>>,
    print_width: u32,
    font: (Seq<char>, u16),
    font_margin: u32,
    align: TextAlign,
)
    ensures
        weighted_text(lines, print_width, font, font_margin, align) is Ok <==> print_width > 0
            && joined(lines).len() > 0 && font_margin + font_margin < print_width,
        weighted_text(lines, print_width, font, font_margin, align) matches Ok(plan) ==> {
            &&& plan.center_vertically
            &&& plan.text == joined(lines)
            &&& plan.print_width == print_width
            &&& plan.font_margin == font_margin
            &&& plan.align == align
            &&& font.0.len() > 0 ==> plan.family == FamilyModel::Named(font.0)
            &&& font.0.len() == 0 ==> plan.family is SansSerif
            &&& 1 <= font.1 <= 1000 ==> plan.weight == font.1
        },
        ordinary_text(lines, print_width, font.0, font_margin, align) matches Ok(plan) ==> {
            &&& plan.center_vertically
            &&& plan.text == joined(lines)
            &&& plan.print_width == print_width
            &&& plan.font_margin == font_margin
            &&& plan.align == align
            &&& font.0.len() > 0 ==> plan.family == FamilyModel::Named(font.0)
            &&& plan.weight == 400
        },
        ordinary_text(lines, print_width, font.0, font_margin, align) is Ok <==> weighted_text(
            lines,
            print_width,
            font,
            font_margin,
            align,
        ) is Ok,
{
}

/// The text of a plan is that of its lines.
pub proof fn law_plans_hold_the_lines(
    lines: Seq<Seq<char>>,
    print_width: u32,
    font_name: Seq<char>,
    font_margin: u32,
    align: TextAlign,
    font_weight: u16,
    center_vertically: bool,
)
    requires
        forall|i: int| 0 <= i < lines.len() ==> is_line(#[trigger] lines[i]),
        lines.len() > 0 ==> lines.last().len() > 0,
    ensures
        planned_text(
            lines,
            print_width,
            font_name,
            font_margin,
            align,
            font_weight,
            center_vertically,
        ) matches Ok(plan) ==> lines_of(plan.text) == lines,
{
    law_joined_lines_are_split_again(lines);
}

/// The characters of a list of lines are those of each line, in order.
pub proof fn law_lists_of_lines_show_each_line(
    lines: Seq<&str>,
    strings: Seq<String>,
    result: Result<TextPlan, RenderError>,
    i: int,
)
    ensures
        line_texts(lines).len() == lines.len(),
        0 <= i < lines.len() ==> line_texts(lines)[i] == lines[i]@,
        string_texts(strings).len() == strings.len(),
        0 <= i < strings.len() ==> string_texts(strings)[i] == strings[i]@,
        result matches Ok(plan) ==> plan_outcome(result) == Ok::<PlanModel, RenderFault>(plan@),
        result matches Err(error) ==> plan_outcome(result) == Err::<PlanModel, RenderFault>(
            error@,
        ),
{
}

} // verus!
