//! The stat bars: the four stats in display order, their labels, and the
//! geometry of the four bar slices across the stat-bar band.

use vstd::prelude::*;

use crate::geometry::{min_int, rect_new, sat_add, sat_sub, Rect};

verus! {

/// A creature stat.
#[derive(Clone, Copy, Debug, PartialEq, Eq, Structural)]
pub enum StatKind {
    Strength,
    Dexterity,
    Intelligence,
    Vitality,
}

/// Number of stats, and so of bars.
pub const STAT_COUNT: u16 = 4;
/// Gap, in cells, between adjacent stat bars.
pub const STAT_BAR_GAP: u16 = 1;
/// Height, in rows, of the label row under each bar.
pub const STAT_LABEL_H: u16 = 1;
/// Height, in rows, of one bar's outline.
pub const STAT_BAR_OUTLINE_H: u16 = 2;

/// The stats in display order, left to right.
pub open spec fn stat_at(i: int) -> StatKind {
    if i == 0 { StatKind::Strength }
    else if i == 1 { StatKind::Dexterity }
    else if i == 2 { StatKind::Intelligence }
    else { StatKind::Vitality }
}

/// The stat shown in bar `i` (left to right).
pub fn stat_kind_at(i: usize) -> (k: StatKind)
    requires
        i < STAT_COUNT,
    ensures
        k == stat_at(i as int),
{
    if i == 0 { StatKind::Strength }
    else if i == 1 { StatKind::Dexterity }
    else if i == 2 { StatKind::Intelligence }
    else { StatKind::Vitality }
}

pub open spec fn stat_label_spec(kind: StatKind) -> Seq<char> {
    match kind {
        StatKind::Strength => seq!['S', 'T', 'R'],
        StatKind::Dexterity => seq!['D', 'E', 'X'],
        StatKind::Intelligence => seq!['I', 'N', 'T'],
        StatKind::Vitality => seq!['V', 'I', 'T'],
    }
}

/// The three-letter label under a stat's bar.
pub fn stat_label(kind: StatKind) -> (s: &'static str)
    ensures
        s@ == stat_label_spec(kind),
{
    match kind {
        StatKind::Strength => {
            proof { reveal_strlit("STR"); }
            "STR"
        },
        StatKind::Dexterity => {
            proof { reveal_strlit("DEX"); }
            "DEX"
        },
        StatKind::Intelligence => {
            proof { reveal_strlit("INT"); }
            "INT"
        },
        StatKind::Vitality => {
            proof { reveal_strlit("VIT"); }
            "VIT"
        },
    }
}

/// Each stat has its own label, so no two bars read alike.
pub proof fn lemma_stat_labels_distinct(a: StatKind, b: StatKind)
    ensures
        a != b ==> stat_label_spec(a) != stat_label_spec(b),
{
    if a != b && stat_label_spec(a) == stat_label_spec(b) {
        assert(stat_label_spec(a)[0] == stat_label_spec(b)[0]);
        assert(stat_label_spec(a)[2] == stat_label_spec(b)[2]);
    }
}

/// Blank cells kept before the first bar.
pub const STAT_BAR_LEFT_MARGIN: u16 = 2;
/// Blank cells kept after the last bar, clear of the details panel.
pub const STAT_BAR_DETAILS_MARGIN: u16 = 4;

/// Width of each of the four bars in a band `band_width` cells wide: the
/// width left between the two margins, less the three gaps, split four
/// ways (rounded down, never negative).
pub open spec fn stat_slice_width_spec(band_width: int) -> int {
    sat_sub(band_width - STAT_BAR_LEFT_MARGIN - STAT_BAR_DETAILS_MARGIN, STAT_BAR_GAP * (STAT_COUNT - 1))
        / STAT_COUNT as int
}

/// The width of each bar slice in a stat-bar band `band_width` cells wide.
pub fn stat_slice_width(band_width: u16) -> (w: u16)
    ensures
        w == stat_slice_width_spec(band_width as int),
{
    let usable = band_width as i32 - (STAT_BAR_LEFT_MARGIN + STAT_BAR_DETAILS_MARGIN) as i32;
    let spare = usable - (STAT_BAR_GAP * (STAT_COUNT - 1)) as i32;
    let spare = if spare >= 0 { spare } else { 0 };
    (spare / STAT_COUNT as i32) as u16
}

/// Left column of slice `i`: after the left margin, each slice and its gap
/// in turn.
pub open spec fn slice_x(bar: Rect, i: int) -> int {
    bar.x + STAT_BAR_LEFT_MARGIN + i * (stat_slice_width_spec(bar.width as int) + STAT_BAR_GAP)
}

/// Slice `i` of the band split into `(outline, fill, label)`: the outline
/// is the slice's top `STAT_BAR_OUTLINE_H` rows, the label the row directly
/// below it, and the fill the outline's interior, one cell in from every
/// side.
pub open spec fn stat_slice_parts_spec(bar: Rect, i: int) -> (Rect, Rect, Rect) {
    let x = slice_x(bar, i);
    let w = stat_slice_width_spec(bar.width as int);
    let outline_h = min_int(STAT_BAR_OUTLINE_H as int, bar.height as int);
    let label_h = min_int(STAT_LABEL_H as int, bar.height - outline_h);
    let outline = rect_new(x, bar.y as int, w, outline_h);
    (
        outline,
        rect_new(
            sat_add(outline.x as int, 1),
            sat_add(outline.y as int, 1),
            sat_sub(outline.width as int, 2),
            sat_sub(outline.height as int, 2),
        ),
        rect_new(x, bar.y + outline_h, w, label_h),
    )
}

/// The four bar slices of the stat-bar band `bar`, in display order (see
/// `stat_slice_parts_spec`).
pub fn stat_slice_parts(bar: Rect) -> (r: Vec<(Rect, Rect, Rect)>)
    requires
        bar.wf(),
        bar.x + STAT_BAR_LEFT_MARGIN + STAT_COUNT <= u16::MAX,
    ensures
        r@.len() == STAT_COUNT,
        forall|i: int| 0 <= i < STAT_COUNT ==> #[trigger] r@[i] == stat_slice_parts_spec(bar, i),
{
    let w = stat_slice_width(bar.width);
    let outline_h = if STAT_BAR_OUTLINE_H <= bar.height { STAT_BAR_OUTLINE_H } else { bar.height };
    let rest = bar.height - outline_h;
    let label_h = if STAT_LABEL_H <= rest { STAT_LABEL_H } else { rest };
    let mut out: Vec<(Rect, Rect, Rect)> = Vec::new();
    let mut i: u16 = 0;
    while i < STAT_COUNT
        invariant
            i <= STAT_COUNT,
            bar.wf(),
            bar.x + STAT_BAR_LEFT_MARGIN + STAT_COUNT <= u16::MAX,
            w == stat_slice_width_spec(bar.width as int),
            outline_h == min_int(STAT_BAR_OUTLINE_H as int, bar.height as int),
            label_h == min_int(STAT_LABEL_H as int, bar.height - outline_h),
            out@.len() == i,
            forall|j: int| 0 <= j < i ==> #[trigger] out@[j] == stat_slice_parts_spec(bar, j),
        decreases STAT_COUNT - i,
    {
        let ghost wi = w as int;
        assert(i * (wi + 1) <= 3 * wi + 3) by (nonlinear_arith)
            requires i < 4, wi >= 0;
        assert(4 * wi + 3 <= bar.width - 6 || wi == 0) by (nonlinear_arith)
            requires wi == (if bar.width - 6 - 3 >= 0 { bar.width - 9 } else { 0 }) / 4;
        let x = bar.x + STAT_BAR_LEFT_MARGIN + i * (w + STAT_BAR_GAP);
        let outline = Rect::new(x, bar.y, w, outline_h);
        let fill = Rect::new(
            outline.x.saturating_add(1),
            outline.y.saturating_add(1),
            outline.width.saturating_sub(2),
            outline.height.saturating_sub(2),
        );
        let label = Rect::new(x, bar.y + outline_h, w, label_h);
        out.push((outline, fill, label));
        i = i + 1;
    }
    out
}

/// The four slices sit left to right without overlapping, the first after
/// the left margin and (when the bars have any width) the last ending
/// before the right margin; every label lies directly beneath its own
/// outline, the two spanning the band exactly when it is outline plus
/// label tall; a non-empty fill lies strictly inside its outline.
pub proof fn lemma_stat_slices_layout(bar: Rect, i: int, j: int)
    requires
        bar.wf(),
        bar.x + STAT_BAR_LEFT_MARGIN + STAT_COUNT <= u16::MAX,
        0 <= i < j < STAT_COUNT,
    ensures
        ({
            let (oi, fi, li) = stat_slice_parts_spec(bar, i);
            let (oj, _fj, _lj) = stat_slice_parts_spec(bar, j);
            let w = stat_slice_width_spec(bar.width as int);
            &&& oi.x < oj.x
            &&& oi.x + oi.width + STAT_BAR_GAP <= oj.x
            &&& stat_slice_parts_spec(bar, 0).0.x == bar.x + STAT_BAR_LEFT_MARGIN
            &&& w > 0 ==> stat_slice_parts_spec(bar, STAT_COUNT - 1).0.x + w + STAT_BAR_DETAILS_MARGIN
                <= bar.x + bar.width
            &&& li.x == oi.x && li.width == oi.width && li.y == oi.y + oi.height
            &&& bar.height == STAT_BAR_OUTLINE_H + STAT_LABEL_H ==> oi.height == STAT_BAR_OUTLINE_H
                && li.y + li.height == bar.y + bar.height
            &&& fi.width > 0 && fi.height > 0 ==> {
                &&& oi.x < fi.x && fi.x + fi.width < oi.x + oi.width
                &&& oi.y < fi.y && fi.y + fi.height < oi.y + oi.height
            }
        }),
{
    let w = stat_slice_width_spec(bar.width as int);
    assert(4 * w + 3 <= bar.width - 6 || w == 0) by (nonlinear_arith)
        requires w == sat_sub(bar.width - 6, 3) / 4;
    assert(i * (w + 1) + w + 1 <= j * (w + 1)) by (nonlinear_arith)
        requires i < j, w >= 0;
    assert(3 * (w + 1) + w <= 4 * w + 3);
    assert(j * (w + 1) <= 3 * (w + 1)) by (nonlinear_arith)
        requires j <= 3, w >= 0;
    assert(i * (w + 1) >= 0) by (nonlinear_arith)
        requires i >= 0, w >= 0;
}

} // verus!
