//! What holds of every label with positioned elements.

use vstd::arithmetic::div_mod::{lemma_fundamental_div_mod, lemma_fundamental_div_mod_converse};
use vstd::prelude::*;

use crate::document::DocumentModel;
use crate::error::RenderFault;
use crate::gray::GrayImage;
use crate::layout::{
    is_empty_text, kind_name, law_edges_keep_their_order, lemma_first_fault, lemma_right_edge,
    lemma_slot, logical_bounds, raster_slot, scaled_edge, ElementBounds, Job, StandardTarget,
};

verus! {

/// A coordinate stays as it is between equal resolutions, and is multiplied by
/// `factor` where the target has `factor` times the resolution.
pub proof fn law_whole_factors_are_exact(value: int, dpi: int, factor: int)
    requires
        0 < dpi,
        0 <= factor,
    ensures
        scaled_edge(value, dpi, dpi) == value,
        scaled_edge(value, dpi, factor * dpi) == factor * value,
{
    lemma_fundamental_div_mod_converse(value * dpi + dpi / 2, dpi, value, dpi / 2);
    assert(value * (factor * dpi) == (factor * value) * dpi) by (nonlinear_arith);
    lemma_fundamental_div_mod_converse(
        value * (factor * dpi) + dpi / 2,
        dpi,
        factor * value,
        dpi / 2,
    );
}

/// A length at a whole multiple of the resolution comes back to what it was.
pub proof fn law_whole_factors_are_undone(value: int, dpi: int, factor: int)
    requires
        0 < dpi,
        0 < factor,
    ensures
        scaled_edge(factor * value, factor * dpi, dpi) == value,
{
    let wide = factor * dpi;
    assert(wide > 0) by (nonlinear_arith)
        requires
            0 < dpi,
            0 < factor,
            wide == factor * dpi,
    ;
    assert((factor * value) * dpi == value * wide) by (nonlinear_arith)
        requires
            wide == factor * dpi,
    ;
    lemma_fundamental_div_mod_converse((factor * value) * dpi + wide / 2, wide, value, wide / 2);
}

/// The last row of the tape, taken to the document and back, is the last row of
/// the tape again: always where the document's resolution is at least that of
/// the printer, and otherwise wherever some coordinate of the document lies
/// there at all.
pub proof fn law_tape_edge_comes_back(tape_width_px: int, document_dpi: int, dpi: int)
    requires
        0 <= tape_width_px,
        0 < document_dpi,
        0 < dpi,
        dpi <= document_dpi || exists|row: int|
            #[trigger] scaled_edge(row, document_dpi, dpi) == tape_width_px,
    ensures
        scaled_edge(scaled_edge(tape_width_px, dpi, document_dpi), document_dpi, dpi)
            == tape_width_px,
{
    let (t, d) = (dpi, document_dpi);
    let wide = tape_width_px * d + t / 2;
    let logical = scaled_edge(tape_width_px, t, d);
    lemma_fundamental_div_mod(wide, t);
    let rest = wide % t;
    assert(logical * t == t * logical) by (nonlinear_arith);
    assert(wide == logical * t + rest);
    if t <= d {
        let back = logical * t + d / 2 - tape_width_px * d;
        assert(back == t / 2 - rest + d / 2);
        if t == d {
            law_whole_factors_are_exact(tape_width_px, d, 1);
            law_whole_factors_are_exact(logical, d, 1);
        } else {
            assert(0 <= back < d);
            lemma_fundamental_div_mod_converse(logical * t + d / 2, d, tape_width_px, back);
        }
    } else {
        let row = choose|row: int| #[trigger] scaled_edge(row, d, t) == tape_width_px;
        lemma_fundamental_div_mod(row * t + d / 2, d);
        let over = (row * t + d / 2) % d;
        assert(d * tape_width_px == tape_width_px * d) by (nonlinear_arith);
        assert(row * t + d / 2 == tape_width_px * d + over);
        let off = d / 2 - over + t / 2;
        assert(wide == row * t + off);
        assert(0 <= off < t);
        lemma_fundamental_div_mod_converse(wide, t, row, off);
    }
}

/// Every element can be placed in a label that can be drawn.
proof fn lemma_placed(job: Job, i: int)
    requires
        job.fault() is None,
        0 <= i < job.document.elements.len(),
    ensures
        job.placement(i) is Ok,
        job.document.dpi > 0,
{
    lemma_first_fault(job, 0, job.document.elements.len() as int);
}

/// Where the mark of an element lies.
proof fn lemma_mark(job: Job, i: int)
    requires
        job.fault() is None,
        0 <= i < job.document.elements.len(),
        job.mark(i) is Some,
    ensures
        ({
            let place = job.placement(i)->Ok_0;
            let mark = job.mark(i)->0;
            let from = job.document.dpi as int;
            let feed = job.target.feed_dpi as int;
            let cross = job.target.cross_dpi as int;
            &&& place.right == place.bounds.x + place.bounds.width
            &&& mark.x == scaled_edge(place.bounds.x as int, from, feed) >= 0
            &&& mark.y == scaled_edge(place.bounds.y as int, from, cross) >= 0
            &&& mark.x + mark.ink.width == scaled_edge(place.right as int, from, feed)
            &&& mark.y + mark.ink.height == scaled_edge(
                place.bounds.y + place.bounds.height,
                from,
                cross,
            ) <= job.target.tape_width_px
            &&& forall|p: (int, int)| #[trigger]
                mark.ink.dark.contains(p) ==> mark.ink.covers(p.0, p.1)
        }),
{
    lemma_placed(job, i);
    let place = job.placement(i)->Ok_0;
    let element = job.document.elements[i];
    lemma_slot(
        place.bounds,
        job.document.dpi,
        job.target,
        i,
        kind_name(element),
    );
}

/// Nothing that an element draws is lost: its rectangle lies within the raster,
/// so that each of its dark pixels is dark there.
pub proof fn law_nothing_is_clipped(job: Job, i: int)
    requires
        job.fault() is None,
        0 <= i < job.document.elements.len(),
    ensures
        job.placement(i) is Ok,
        ({
            let raster = job.composed(job.document.elements.len() as int);
            match job.mark(i) {
                None => true,
                Some(mark) => {
                    &&& 0 <= mark.x
                    &&& 0 <= mark.y
                    &&& mark.x + mark.ink.width <= raster.width
                    &&& mark.y + mark.ink.height <= raster.height
                    &&& forall|p: (int, int)| #[trigger]
                        mark.inks(p) ==> raster.dark.contains(p)
                },
            }
        }),
{
    let n = job.document.elements.len() as int;
    lemma_placed(job, i);
    let place = job.placement(i)->Ok_0;
    if job.mark(i) is Some {
        lemma_mark(job, i);
        lemma_right_edge(job, n);
        law_edges_keep_their_order(
            place.right as int,
            job.logical_width(),
            job.document.dpi as int,
            job.target.feed_dpi as int,
        );
        let mark = job.mark(i)->0;
        let raster = job.composed(n);
        assert forall|p: (int, int)| #[trigger] mark.inks(p) implies raster.dark.contains(p) by {
            assert(mark.ink.dark.contains((p.0 - mark.x, p.1 - mark.y)));
            assert(job.inks(i, p));
        }
    }
}

/// Elements that meet at an edge in the document meet at an edge in the raster.
pub proof fn law_neighbors_stay_neighbors(job: Job, i: int, j: int)
    requires
        job.fault() is None,
        0 <= i < job.document.elements.len(),
        0 <= j < job.document.elements.len(),
        job.mark(i) is Some,
        job.mark(j) is Some,
    ensures
        ({
            let (a, b) = (job.placement(i)->Ok_0, job.placement(j)->Ok_0);
            let (drawn_a, drawn_b) = (job.mark(i)->0, job.mark(j)->0);
            &&& a.bounds.x + a.bounds.width == b.bounds.x ==> drawn_a.x + drawn_a.ink.width
                == drawn_b.x
            &&& a.bounds.y + a.bounds.height == b.bounds.y ==> drawn_a.y + drawn_a.ink.height
                == drawn_b.y
        }),
{
    lemma_mark(job, i);
    lemma_mark(job, j);
}

/// How far elements reach is decided by one of them.
proof fn lemma_right_edge_is_reached(job: Job, n: int)
    ensures
        job.right_edge(n) == 0 || exists|i: int|
            0 <= i < n && (#[trigger] job.placement(i))->Ok_0.right == job.right_edge(n),
    decreases n,
{
    if n > 0 {
        lemma_right_edge_is_reached(job, n - 1);
        if job.right_edge(n) == job.placement(n - 1)->Ok_0.right {
        } else if job.right_edge(n - 1) != 0 {
            let i = choose|i: int|
                0 <= i < n - 1 && (#[trigger] job.placement(i))->Ok_0.right == job.right_edge(
                    n - 1,
                );
            assert(job.placement(i)->Ok_0.right == job.right_edge(n));
        }
    }
}

/// A label is just as long as its least length and its elements, with the free
/// space behind the last of them, ask for.
pub proof fn law_label_is_as_long_as_needed(job: Job)
    requires
        job.fault() is None,
    ensures
        ({
            let n = job.document.elements.len() as int;
            let padding = job.document.end_padding;
            &&& job.logical_width() >= job.document.min_length
            &&& job.logical_width() >= padding
            &&& forall|i: int|
                0 <= i < n ==> job.logical_width() >= (#[trigger] job.placement(i))->Ok_0.right
                    + padding
            &&& {
                ||| job.logical_width() == job.document.min_length
                ||| job.logical_width() == padding
                ||| exists|i: int|
                    0 <= i < n && (#[trigger] job.placement(i))->Ok_0.right + padding
                        == job.logical_width()
            }
        }),
{
    let n = job.document.elements.len() as int;
    lemma_right_edge(job, n);
    lemma_right_edge_is_reached(job, n);
}

/// Mirroring the whole label a second time gives the label that is not mirrored.
pub proof fn law_mirroring_twice_changes_nothing(job: Job)
    ensures
        job.raster().mirrored(job.document.flip_h, job.document.flip_v) == job.composed(
            job.document.elements.len() as int,
        ),
{
    let plain = job.composed(job.document.elements.len() as int);
    assert(plain.mirrored(job.document.flip_h, job.document.flip_v).mirrored(
        job.document.flip_h,
        job.document.flip_v,
    ) =~= plain);
}

/// An element whose lower edge lies on the lower edge of the label ends on the
/// last row of the tape.
pub proof fn law_boundary_elements_touch_the_boundary(
    bounds: ElementBounds,
    document_dpi: u16,
    target: StandardTarget,
    element_index: int,
    element_kind: Seq<char>,
)
    requires
        0 < document_dpi,
        0 < target.cross_dpi,
        target.cross_dpi <= document_dpi || exists|row: int| #[trigger]
            scaled_edge(row, document_dpi as int, target.cross_dpi as int)
                == target.tape_width_px,
        bounds.y + bounds.height == scaled_edge(
            target.tape_width_px as int,
            target.cross_dpi as int,
            document_dpi as int,
        ) <= u32::MAX,
        bounds.x + bounds.width <= u32::MAX,
        scaled_edge(bounds.x + bounds.width, document_dpi as int, target.feed_dpi as int)
            <= u32::MAX,
    ensures
        match raster_slot(bounds, document_dpi, target, element_index, element_kind) {
            Ok((slot, _)) => slot.y + slot.height == target.tape_width_px,
            Err(_) => false,
        },
{
    law_tape_edge_comes_back(
        target.tape_width_px as int,
        document_dpi as int,
        target.cross_dpi as int,
    );
    lemma_slot(bounds, document_dpi, target, element_index, element_kind);
}

/// The same job for a printer with the resolution of the document.
pub open spec fn at_document_resolution(job: Job, tape_width_px: u32) -> Job {
    Job {
        target: StandardTarget {
            tape_width_px,
            cross_dpi: job.document.dpi,
            feed_dpi: job.document.dpi,
        },
        ..job
    }
}

/// The same job for a printer with `factor` times the resolution of the document.
pub open spec fn at_multiple(job: Job, tape_width_px: u32, factor: int) -> Job {
    Job {
        target: StandardTarget {
            tape_width_px: (factor * tape_width_px) as u32,
            cross_dpi: (factor * job.document.dpi) as u16,
            feed_dpi: (factor * job.document.dpi) as u16,
        },
        ..job
    }
}

/// Both jobs see a label of the same height.
proof fn lemma_same_logical_height(job: Job, tape_width_px: u32, factor: int)
    requires
        0 < job.document.dpi,
        0 < factor,
        factor * job.document.dpi <= u16::MAX,
        factor * tape_width_px <= u32::MAX,
    ensures
        at_document_resolution(job, tape_width_px).logical_height() == tape_width_px,
        at_multiple(job, tape_width_px, factor).logical_height() == tape_width_px,
        0 < factor * job.document.dpi,
        0 <= factor * tape_width_px,
{
    let dpi = job.document.dpi as int;
    assert(0 < factor * dpi) by (nonlinear_arith)
        requires
            0 < factor,
            0 < dpi,
    ;
    assert(0 <= factor * tape_width_px) by (nonlinear_arith)
        requires
            0 < factor,
    ;
    law_whole_factors_are_exact(tape_width_px as int, dpi, factor);
    law_whole_factors_are_undone(tape_width_px as int, dpi, factor);
}

/// One element in both jobs.
proof fn lemma_element_at_multiple(job: Job, tape_width_px: u32, factor: int, i: int)
    requires
        0 < job.document.dpi,
        0 < factor,
        factor * job.document.dpi <= u16::MAX,
        factor * tape_width_px <= u32::MAX,
    ensures
        ({
            let low = at_document_resolution(job, tape_width_px).placement(i);
            let high = at_multiple(job, tape_width_px, factor).placement(i);
            &&& high is Ok <==> low is Ok && factor * low->Ok_0.right <= u32::MAX
            &&& high is Ok ==> {
                &&& high->Ok_0.bounds == low->Ok_0.bounds
                &&& high->Ok_0.right == low->Ok_0.right
            }
        }),
{
    let low = at_document_resolution(job, tape_width_px);
    let high = at_multiple(job, tape_width_px, factor);
    let dpi = job.document.dpi as int;
    lemma_same_logical_height(job, tape_width_px, factor);
    let (element, text) = (job.document.elements[i], job.texts[i]);
    let found = logical_bounds(element, text, tape_width_px);
    assert(factor * 0 == 0);
    if found is Ok && !is_empty_text(element) {
        let bounds = found->Ok_0;
        let right = bounds.x + bounds.width;
        let bottom = bounds.y + bounds.height;
        law_whole_factors_are_exact(bounds.x as int, dpi, factor);
        law_whole_factors_are_exact(right, dpi, factor);
        law_whole_factors_are_exact(bounds.y as int, dpi, factor);
        law_whole_factors_are_exact(bottom, dpi, factor);
        assert((factor * bottom <= factor * tape_width_px) == (bottom <= tape_width_px))
            by (nonlinear_arith)
            requires
                0 < factor,
        ;
        assert(right <= factor * right) by (nonlinear_arith)
            requires
                0 < factor,
                0 <= right,
        ;
    }
}

/// The first `n` elements in both jobs.
proof fn lemma_elements_at_multiple(job: Job, tape_width_px: u32, factor: int, n: int)
    requires
        0 < job.document.dpi,
        0 < factor,
        factor * job.document.dpi <= u16::MAX,
        factor * tape_width_px <= u32::MAX,
        0 <= n,
    ensures
        ({
            let low = at_document_resolution(job, tape_width_px);
            let high = at_multiple(job, tape_width_px, factor);
            &&& high.element_fault(n) is None <==> low.element_fault(n) is None && factor
                * low.right_edge(n) <= u32::MAX
            &&& high.element_fault(n) is None ==> {
                &&& high.right_edge(n) == low.right_edge(n)
                &&& forall|i: int|
                    0 <= i < n ==> (#[trigger] high.placement(i))->Ok_0.bounds == low.placement(
                        i,
                    )->Ok_0.bounds
            }
        }),
    decreases n,
{
    let low = at_document_resolution(job, tape_width_px);
    let high = at_multiple(job, tape_width_px, factor);
    assert(factor * 0 == 0);
    if n > 0 {
        lemma_elements_at_multiple(job, tape_width_px, factor, n - 1);
        lemma_element_at_multiple(job, tape_width_px, factor, n - 1);
        let (a, b) = (low.right_edge(n - 1), low.placement(n - 1)->Ok_0.right as int);
        assert(a <= b ==> factor * a <= factor * b) by (nonlinear_arith)
            requires
                0 < factor,
        ;
        assert(b <= a ==> factor * b <= factor * a) by (nonlinear_arith)
            requires
                0 < factor,
        ;
    }
}

/// A printer with `factor` times the resolution draws the label `factor` times as
/// large, at the same places in the document.
///
/// It can draw every label that the other can, as long as the length of its
/// raster fits into 32 bits.
pub proof fn law_designs_scale_with_the_printer(job: Job, tape_width_px: u32, factor: int)
    requires
        0 < job.document.dpi,
        0 < factor,
        factor * job.document.dpi <= u16::MAX,
        factor * tape_width_px <= u32::MAX,
    ensures
        ({
            let low = at_document_resolution(job, tape_width_px);
            let high = at_multiple(job, tape_width_px, factor);
            &&& high.label() is Ok <==> low.label() is Ok && factor * low.logical_width()
                <= u32::MAX
            &&& high.label() is Ok ==> {
                let (a, b) = (low.label()->Ok_0, high.label()->Ok_0);
                &&& b.printer_raster.width == factor * a.printer_raster.width
                &&& b.printer_raster.height == factor * a.printer_raster.height
                &&& b.logical_dimensions == a.logical_dimensions
                &&& b.element_bounds == a.element_bounds
            }
        }),
{
    let low = at_document_resolution(job, tape_width_px);
    let high = at_multiple(job, tape_width_px, factor);
    let n = job.document.elements.len() as int;
    lemma_same_logical_height(job, tape_width_px, factor);
    lemma_elements_at_multiple(job, tape_width_px, factor, n);
    lemma_right_edge(low, n);
    let (reach, length) = (low.right_edge(n), low.logical_width());
    assert(factor * reach <= factor * length) by (nonlinear_arith)
        requires
            0 < factor,
            reach <= length,
    ;
    assert(length <= factor * length) by (nonlinear_arith)
        requires
            0 < factor,
            0 <= length,
    ;
    law_whole_factors_are_exact(length, job.document.dpi as int, factor);
    if high.label() is Ok {
        assert(high.label()->Ok_0.element_bounds =~= low.label()->Ok_0.element_bounds);
    }
}

/// A text decides nothing about the elements before its own.
proof fn lemma_earlier_elements(job: Job, i: int, text: Result<GrayImage, RenderFault>, n: int)
    requires
        0 <= i < job.texts.len(),
        n <= i,
    ensures
        (Job { texts: job.texts.update(i, Some(text)), ..job }).element_fault(n)
            == job.element_fault(n),
    decreases n,
{
    if n > 0 {
        lemma_earlier_elements(job, i, text, n - 1);
    }
}

/// Once a text has been rendered, the same texts up to it are looked at, so that
/// the next one that is asked for stands behind it.
pub proof fn law_texts_are_asked_for_in_order(
    job: Job,
    i: int,
    text: Result<GrayImage, RenderFault>,
    k: int,
)
    requires
        0 <= k <= i < job.texts.len(),
    ensures
        (Job { texts: job.texts.update(i, Some(text)), ..job }).wants_text(k) == job.wants_text(k),
{
    lemma_earlier_elements(job, i, text, k);
}

/// Elements that can all be placed have no fault.
pub proof fn lemma_no_fault(job: Job, n: int)
    requires
        forall|i: int| 0 <= i < n ==> (#[trigger] job.placement(i)) is Ok,
    ensures
        job.element_fault(n) is None,
    decreases n,
{
    if n > 0 {
        lemma_no_fault(job, n - 1);
    }
}

/// Where an element finds its place does not depend on its number.
proof fn lemma_number_does_not_matter(a: Job, i: int, b: Job, k: int)
    requires
        a.document.elements[i] == b.document.elements[k],
        a.texts[i] == b.texts[k],
        a.document.dpi == b.document.dpi,
        a.target == b.target,
        a.placement(i) is Ok,
    ensures
        a.placement(i) == b.placement(k),
        a.mark(i) == b.mark(k),
{
}

/// Whether two jobs are for the same printer and differ in nothing but their
/// elements.
pub open spec fn differ_in_elements(a: Job, b: Job) -> bool {
    &&& a.target == b.target
    &&& a.document == (DocumentModel { elements: a.document.elements, ..b.document })
}

/// Two jobs with the same elements, but for empty texts that the second lacks:
/// its element `i` is element `f(i)` of the first, and element `k` of the first is
/// its element `g(k)`.
proof fn lemma_same_elements(a: Job, b: Job, f: spec_fn(int) -> int, g: spec_fn(int) -> int)
    requires
        differ_in_elements(a, b),
        a.fault() is None,
        forall|i: int|
            0 <= i < b.document.elements.len() ==> {
                &&& 0 <= #[trigger] f(i) < a.document.elements.len()
                &&& b.document.elements[i] == a.document.elements[f(i)]
                &&& b.texts[i] == a.texts[f(i)]
            },
        forall|k: int|
            0 <= k < a.document.elements.len() ==> is_empty_text(a.document.elements[k]) || {
                &&& 0 <= #[trigger] g(k) < b.document.elements.len()
                &&& f(g(k)) == k
            },
    ensures
        b.fault() is None,
        b.raster() == a.raster(),
        b.logical_width() == a.logical_width(),
        b.logical_height() == a.logical_height(),
        forall|i: int|
            0 <= i < b.document.elements.len() ==> (#[trigger] b.placement(i)) == a.placement(
                f(i),
            ),
{
    let (n, m) = (a.document.elements.len() as int, b.document.elements.len() as int);
    lemma_first_fault(a, 0, n);
    assert forall|i: int| 0 <= i < m implies (#[trigger] b.placement(i)) == a.placement(f(i))
        && b.placement(i) is Ok && b.mark(i) == a.mark(f(i)) by {
        assert(a.placement(f(i)) is Ok);
        lemma_number_does_not_matter(a, f(i), b, i);
    }
    lemma_no_fault(b, m);
    lemma_right_edge(a, n);
    lemma_right_edge(b, m);
    lemma_right_edge_is_reached(a, n);
    lemma_right_edge_is_reached(b, m);
    assert(b.right_edge(m) <= a.right_edge(n)) by {
        if b.right_edge(m) != 0 {
            let i = choose|i: int|
                0 <= i < m && (#[trigger] b.placement(i))->Ok_0.right == b.right_edge(m);
            assert(a.placement(f(i))->Ok_0.right == b.right_edge(m));
        }
    }
    assert(a.right_edge(n) <= b.right_edge(m)) by {
        if a.right_edge(n) != 0 {
            let k = choose|k: int|
                0 <= k < n && (#[trigger] a.placement(k))->Ok_0.right == a.right_edge(n);
            assert(a.placement(k) is Ok);
            assert(!is_empty_text(a.document.elements[k]));
            let i = g(k);
            assert(b.placement(i) == a.placement(f(i)));
        }
    }
    assert(b.composed(m) =~= a.composed(n)) by {
        assert forall|p: (int, int)|
            b.composed(m).dark.contains(p) == a.composed(n).dark.contains(p) by {
            if b.composed(m).dark.contains(p) {
                let i = choose|i: int| 0 <= i < m && #[trigger] b.inks(i, p);
                assert(b.placement(i) == a.placement(f(i)));
                assert(a.inks(f(i), p));
            }
            if a.composed(n).dark.contains(p) {
                let k = choose|k: int| 0 <= k < n && #[trigger] a.inks(k, p);
                assert(a.placement(k) is Ok);
                assert(!is_empty_text(a.document.elements[k]));
                let i = g(k);
                assert(b.placement(i) == a.placement(f(i)));
                assert(b.inks(i, p));
            }
        }
    }
}

/// Whether `order` is a reordering of as many places, and `back` undoes it.
pub open spec fn is_reordering(order: Seq<int>, back: Seq<int>) -> bool {
    &&& back.len() == order.len()
    &&& forall|i: int|
        0 <= i < order.len() ==> 0 <= #[trigger] order[i] < order.len() && back[order[i]] == i
    &&& forall|k: int|
        0 <= k < back.len() ==> 0 <= #[trigger] back[k] < back.len() && order[back[k]] == k
}

/// The job with its elements, and their texts, in another order.
pub open spec fn reordered(job: Job, order: Seq<int>) -> Job {
    Job {
        document: DocumentModel {
            elements: Seq::new(order.len(), |i: int| job.document.elements[order[i]]),
            ..job.document
        },
        texts: Seq::new(order.len(), |i: int| job.texts[order[i]]),
        ..job
    }
}

/// The order of the elements decides neither whether a label can be drawn, nor
/// its raster and its size, but only the order of the bounds.
pub proof fn law_the_order_of_elements_does_not_matter(job: Job, order: Seq<int>, back: Seq<int>)
    requires
        is_reordering(order, back),
        order.len() == job.document.elements.len(),
    ensures
        reordered(job, order).label() is Ok <==> job.label() is Ok,
        job.label() is Ok ==> {
            let (a, b) = (job.label()->Ok_0, reordered(job, order).label()->Ok_0);
            &&& b.printer_raster == a.printer_raster
            &&& b.preview == a.preview
            &&& b.logical_dimensions == a.logical_dimensions
            &&& b.element_bounds == Seq::new(order.len(), |i: int| a.element_bounds[order[i]])
        },
{
    let other = reordered(job, order);
    let f = |i: int| order[i];
    let g = |k: int| back[k];
    if job.fault() is None {
        lemma_same_elements(job, other, f, g);
        let (a, b) = (job.label()->Ok_0, other.label()->Ok_0);
        assert(b.element_bounds =~= Seq::new(order.len(), |i: int| a.element_bounds[order[i]]));
    }
    if other.fault() is None {
        lemma_same_elements(other, job, g, f);
    }
}

/// The job without the element at an index.
pub open spec fn without_element(job: Job, at: int) -> Job {
    Job {
        document: DocumentModel {
            elements: job.document.elements.remove(at),
            ..job.document
        },
        texts: job.texts.remove(at),
        ..job
    }
}

/// A label that can be drawn looks the same, and has the same size, without an
/// empty text.
pub proof fn law_empty_texts_leave_no_trace(job: Job, at: int)
    requires
        0 <= at < job.document.elements.len(),
        job.texts.len() == job.document.elements.len(),
        is_empty_text(job.document.elements[at]),
        job.label() is Ok,
    ensures
        without_element(job, at).label() is Ok,
        ({
            let (a, b) = (job.label()->Ok_0, without_element(job, at).label()->Ok_0);
            &&& b.printer_raster == a.printer_raster
            &&& b.preview == a.preview
            &&& b.logical_dimensions == a.logical_dimensions
            &&& b.element_bounds == a.element_bounds.remove(at)
        }),
{
    let other = without_element(job, at);
    let f = |i: int|
        if i < at {
            i
        } else {
            i + 1
        };
    let g = |k: int|
        if k < at {
            k
        } else {
            k - 1
        };
    lemma_same_elements(job, other, f, g);
    let (a, b) = (job.label()->Ok_0, other.label()->Ok_0);
    assert forall|i: int| 0 <= i < b.element_bounds.len() implies b.element_bounds[i]
        == a.element_bounds.remove(at)[i] by {
        assert(other.placement(i) == job.placement(f(i)));
    }
    assert(b.element_bounds =~= a.element_bounds.remove(at));
}

} // verus!
