//! The roster screen's layout: the header block (a blank top row, then
//! `name` and `level`), the dot row pinned to the bottom, and between them a
//! 2:1 split into the left column (stat-bar band above the sprite) and the
//! details panel (stamina above the ability list).
//!
//! The columns hang from `details_top`, the row below the home button plus
//! a clearance gap. The stat-bar band sits one cell above it, and the
//! details panel is raised two dots above it, so both share a cell row.
//! Fixed-height bands keep their height when the area is too small (they
//! run past the area's bottom rather than shrinking); the sprite, the body
//! and the ability list absorb what is left and degrade to zero.

use vstd::prelude::*;

use crate::dots::DotRect;
use crate::geometry::{max_int, min_int, rect_new, sat_sub, Rect};
use crate::stats::{STAT_BAR_OUTLINE_H, STAT_LABEL_H};

verus! {

/// Inset of the buttons and the details panel from the area's edges.
pub const EDGE_MARGIN: u16 = 1;
/// Extra inset of the details panel from the right edge, beyond
/// `EDGE_MARGIN`.
pub const DETAILS_LEFT_SHIFT: u16 = 1;
/// Blank row above the `name`/`level` header block.
pub const HEADER_GAP_H: u16 = 1;
/// Height of the `name` band.
pub const NAME_H: u16 = 2;
/// Height of the `level` band directly below `name`.
pub const LEVEL_H: u16 = 1;
/// Height of the dot row: the dots plus one row of role labels.
pub const DOT_H: u16 = 3;
/// Height of the role-label row at the bottom of the dot row.
pub const DOT_LABEL_H: u16 = 1;
/// Height of the stamina region at the top of the details panel.
pub const PANEL_H: u16 = 5;
/// Height of the home button in the top-right corner.
pub const HOME_H: u16 = 3;
/// Blank rows between the home button's bottom and the details panel.
pub const DETAILS_TOP_GAP: u16 = 2;
/// Cells the stat-bar band is raised above `details_top`.
pub const STAT_BAR_TOP_LIFT_CELLS: u16 = 1;
/// Height of the stat-bar band: one bar outline and its label row.
pub const STAT_BAR_BAND_H: u16 = STAT_BAR_OUTLINE_H + STAT_LABEL_H;
/// Dots the details panel is moved up (top and bottom).
pub const DETAILS_PANEL_TOP_LIFT_DOTS: i32 = 1;
/// Dots the details panel's top is raised further (its bottom stays).
pub const DETAILS_PANEL_TOP_GROWTH_DOTS: i32 = 1;
/// Sprite fit-box insets inside the sprite band: left and right in cells,
/// top in cells plus a margin in dots, bottom in cells.
pub const SPRITE_INSET_LEFT: u16 = 1;
pub const SPRITE_INSET_RIGHT: u16 = 3;
pub const SPRITE_INSET_TOP: u16 = 0;
pub const SPRITE_INSET_BOTTOM: u16 = 1;
pub const SPRITE_GROWTH_MARGIN_DOTS: u16 = 2;

/// The named whole-cell rects of the roster screen, top to bottom.
#[derive(Clone, Copy, Debug, PartialEq, Eq, Structural)]
pub struct RosterLayout {
    pub name: Rect,
    pub level: Rect,
    pub sprite: Rect,
    pub dot_row: Rect,
}

/// The area the layout accepts: its cells, and the rows of the fixed bands
/// (header, dot row, stamina region), have coordinates that fit a `u16`.
pub open spec fn layout_area_ok(area: Rect) -> bool {
    &&& area.wf()
    &&& area.width <= u16::MAX / 2
    &&& area.y + HEADER_GAP_H + NAME_H + LEVEL_H + DOT_H + PANEL_H <= u16::MAX
}

/// Rows left for the body between the header block and the dot row.
pub open spec fn body_rows(area: Rect) -> int {
    sat_sub(area.height as int, (HEADER_GAP_H + NAME_H + LEVEL_H + DOT_H) as int)
}

/// The dot row's top.
pub open spec fn dot_row_y(area: Rect) -> int {
    area.y + HEADER_GAP_H + NAME_H + LEVEL_H + body_rows(area)
}

/// The row the columns hang from: below the home button and its gap, but
/// never below the dot row.
pub open spec fn details_top(area: Rect) -> int {
    min_int(area.y + EDGE_MARGIN + HOME_H + DETAILS_TOP_GAP, dot_row_y(area))
}

/// Rows between `details_top` and the dot row.
pub open spec fn column_rows(area: Rect) -> int {
    sat_sub(dot_row_y(area), details_top(area))
}

/// Width of the left column: two thirds of the area.
pub open spec fn left_width(area: Rect) -> int {
    area.width * 2 / 3
}

/// Width of the details panel: the rest.
pub open spec fn details_width(area: Rect) -> int {
    area.width - left_width(area)
}

/// Left column of the details panel: inset `EDGE_MARGIN +
/// DETAILS_LEFT_SHIFT` from the area's right edge (clamped at column 0).
pub open spec fn details_x(area: Rect) -> int {
    sat_sub(area.x + area.width, (EDGE_MARGIN + DETAILS_LEFT_SHIFT) + details_width(area))
}

pub open spec fn layout_spec(area: Rect) -> RosterLayout {
    let dt = details_top(area);
    RosterLayout {
        name: rect_new(area.x as int, area.y + HEADER_GAP_H, area.width as int, NAME_H as int),
        level: rect_new(area.x as int, area.y + HEADER_GAP_H + NAME_H, area.width as int, LEVEL_H as int),
        sprite: rect_new(
            area.x as int,
            dt - STAT_BAR_TOP_LIFT_CELLS + STAT_BAR_BAND_H,
            left_width(area),
            sat_sub(column_rows(area) + STAT_BAR_TOP_LIFT_CELLS, STAT_BAR_BAND_H as int),
        ),
        dot_row: rect_new(area.x as int, dot_row_y(area), area.width as int, DOT_H as int),
    }
}

pub open spec fn stat_bar_spec(area: Rect) -> Rect {
    rect_new(area.x as int, details_top(area) - STAT_BAR_TOP_LIFT_CELLS, left_width(area), STAT_BAR_BAND_H as int)
}

pub open spec fn stamina_spec(area: Rect) -> Rect {
    rect_new(details_x(area), details_top(area) - 1, details_width(area), PANEL_H as int)
}

pub open spec fn ability_list_spec(area: Rect) -> Rect {
    rect_new(
        details_x(area),
        details_top(area) + PANEL_H - 1,
        details_width(area),
        sat_sub(column_rows(area), PANEL_H as int),
    )
}

proof fn lemma_layout_values(area: Rect)
    requires
        layout_area_ok(area),
    ensures
        0 <= left_width(area) <= area.width,
        details_width(area) >= 0,
        area.y + HEADER_GAP_H + NAME_H + LEVEL_H <= dot_row_y(area),
        dot_row_y(area) + DOT_H <= u16::MAX,
        area.height >= (HEADER_GAP_H + NAME_H + LEVEL_H + DOT_H) ==> dot_row_y(area) + DOT_H == area.y + area.height,
        details_top(area) >= area.y + HEADER_GAP_H + NAME_H + LEVEL_H,
        details_top(area) <= dot_row_y(area),
        column_rows(area) == dot_row_y(area) - details_top(area),
{
    let w = area.width as int;
    assert(w * 2 / 3 <= w && w * 2 / 3 >= 0) by (nonlinear_arith)
        requires w >= 0;
}

/// Splits `area` into the header block, the sprite band and the dot row
/// (see `layout_spec`).
pub fn layout(area: Rect) -> (l: RosterLayout)
    requires
        layout_area_ok(area),
    ensures
        l == layout_spec(area),
{
    proof { lemma_layout_values(area); }
    let (dt, rows) = column_geometry(area);
    let body_h = area.height.saturating_sub(HEADER_GAP_H + NAME_H + LEVEL_H + DOT_H);
    let name = Rect::new(area.x, area.y + HEADER_GAP_H, area.width, NAME_H);
    let level = Rect::new(area.x, area.y + HEADER_GAP_H + NAME_H, area.width, LEVEL_H);
    let dot_row = Rect::new(area.x, area.y + HEADER_GAP_H + NAME_H + LEVEL_H + body_h, area.width, DOT_H);
    let left_w = area.width * 2 / 3;
    let sprite = Rect::new(
        area.x,
        dt - STAT_BAR_TOP_LIFT_CELLS + STAT_BAR_BAND_H,
        left_w,
        (rows + STAT_BAR_TOP_LIFT_CELLS).saturating_sub(STAT_BAR_BAND_H),
    );
    RosterLayout { name, level, sprite, dot_row }
}

/// `(details_top, column_rows)` of `area`.
fn column_geometry(area: Rect) -> (r: (u16, u16))
    requires
        layout_area_ok(area),
    ensures
        r.0 == details_top(area),
        r.1 == column_rows(area),
{
    proof { lemma_layout_values(area); }
    let body_h = area.height.saturating_sub(HEADER_GAP_H + NAME_H + LEVEL_H + DOT_H);
    let dot_y = area.y + HEADER_GAP_H + NAME_H + LEVEL_H + body_h;
    let below_home = area.y + EDGE_MARGIN + HOME_H + DETAILS_TOP_GAP;
    let dt = if below_home <= dot_y { below_home } else { dot_y };
    (dt, dot_y - dt)
}

/// The stat-bar band: the left column's top `STAT_BAR_BAND_H` rows,
/// raised `STAT_BAR_TOP_LIFT_CELLS` above `details_top`.
pub fn stat_bar_rect(area: Rect) -> (r: Rect)
    requires
        layout_area_ok(area),
    ensures
        r == stat_bar_spec(area),
{
    proof { lemma_layout_values(area); }
    let (dt, _rows) = column_geometry(area);
    Rect::new(area.x, dt - STAT_BAR_TOP_LIFT_CELLS, area.width * 2 / 3, STAT_BAR_BAND_H)
}

/// The details panel's left column (see `details_x`).
fn details_left(area: Rect) -> (x: u16)
    requires
        layout_area_ok(area),
    ensures
        x == details_x(area),
{
    proof { lemma_layout_values(area); }
    let details_w = area.width - area.width * 2 / 3;
    (area.x + area.width).saturating_sub((EDGE_MARGIN + DETAILS_LEFT_SHIFT) + details_w)
}

/// The stamina region at the top of the details panel.
pub fn stamina_rect(area: Rect) -> (r: Rect)
    requires
        layout_area_ok(area),
    ensures
        r == stamina_spec(area),
{
    proof { lemma_layout_values(area); }
    let (dt, _rows) = column_geometry(area);
    let x = details_left(area);
    Rect::new(x, dt - 1, area.width - area.width * 2 / 3, PANEL_H)
}

/// The ability list below the stamina region, down to the row above the
/// dot row.
pub fn ability_list_rect(area: Rect) -> (r: Rect)
    requires
        layout_area_ok(area),
    ensures
        r == ability_list_spec(area),
{
    proof { lemma_layout_values(area); }
    let (dt, rows) = column_geometry(area);
    let x = details_left(area);
    Rect::new(x, dt + PANEL_H - 1, area.width - area.width * 2 / 3, rows.saturating_sub(PANEL_H))
}

pub open spec fn dot_bands_spec(row: Rect) -> (Rect, Rect) {
    let label_h = min_int(DOT_LABEL_H as int, row.height as int);
    let dots_h = row.height - label_h;
    (
        rect_new(row.x as int, row.y as int, row.width as int, dots_h),
        rect_new(row.x as int, row.y + dots_h, row.width as int, label_h),
    )
}

/// Splits the dot row into the band the dots live in (top) and the
/// one-row band of role labels (bottom).
pub fn dot_bands(row: Rect) -> (r: (Rect, Rect))
    requires
        row.wf(),
    ensures
        r == dot_bands_spec(row),
{
    let label_h = if DOT_LABEL_H <= row.height { DOT_LABEL_H } else { row.height };
    let dots_h = row.height.saturating_sub(label_h);
    let dots_band = Rect::new(row.x, row.y, row.width, dots_h);
    let label_band = Rect::new(row.x, row.y + dots_h, row.width, label_h);
    (dots_band, label_band)
}

/// Dot height of the ability list's region inside the details panel.
pub open spec fn ability_dots_h(area: Rect) -> int {
    max_int(0, column_rows(area) * 4 + DETAILS_PANEL_TOP_GROWTH_DOTS - PANEL_H * 4)
}

pub open spec fn details_panel_spec(area: Rect) -> (DotRect, Rect, Rect) {
    let dt = details_top(area);
    let x = details_x(area);
    let w = details_width(area);
    (
        DotRect {
            x: (x * 2) as i32,
            y: (dt * 4 - DETAILS_PANEL_TOP_LIFT_DOTS - DETAILS_PANEL_TOP_GROWTH_DOTS) as i32,
            w: (w * 2) as i32,
            h: (PANEL_H * 4 + ability_dots_h(area)) as i32,
        },
        rect_new(x + 1, dt, sat_sub(w, 2), PANEL_H - 1),
        rect_new(x + 1, dt + PANEL_H - 1, sat_sub(w, 2), max_int(0, ability_dots_h(area) - 4) / 4),
    )
}

/// The details panel's geometry: `(border, stamina_text, ability_text)`.
/// The border, in dots, encloses the stamina and ability-list regions
/// together; the stamina text is inset one cell from the left, right and
/// top border, the ability text one cell from the left, right and bottom
/// border (the two regions share an unbordered boundary).
pub fn details_panel_rects(area: Rect) -> (r: (DotRect, Rect, Rect))
    requires
        layout_area_ok(area),
    ensures
        r == details_panel_spec(area),
{
    proof { lemma_layout_values(area); }
    let (dt, rows) = column_geometry(area);
    let x = details_left(area);
    let w = area.width - area.width * 2 / 3;
    let ab_dots: i32 = {
        let v = rows as i32 * 4 + DETAILS_PANEL_TOP_GROWTH_DOTS - PANEL_H as i32 * 4;
        if v >= 0 { v } else { 0 }
    };
    let border = DotRect {
        x: x as i32 * 2,
        y: dt as i32 * 4 - DETAILS_PANEL_TOP_LIFT_DOTS - DETAILS_PANEL_TOP_GROWTH_DOTS,
        w: w as i32 * 2,
        h: PANEL_H as i32 * 4 + ab_dots,
    };
    let ab_text_dots = if ab_dots >= 4 { ab_dots - 4 } else { 0 };
    assert(ab_text_dots / 4 <= u16::MAX);
    let stamina_text = Rect::new(x + 1, dt, w.saturating_sub(2), PANEL_H - 1);
    let ability_text = Rect::new(x + 1, dt + PANEL_H - 1, w.saturating_sub(2), (ab_text_dots / 4) as u16);
    (border, stamina_text, ability_text)
}

pub open spec fn sprite_fit_box_spec(band: Rect) -> DotRect {
    DotRect {
        x: (band.x * 2 + SPRITE_INSET_LEFT * 2) as i32,
        y: (band.y * 4 + SPRITE_INSET_TOP * 4 + SPRITE_GROWTH_MARGIN_DOTS) as i32,
        w: max_int(0, band.width * 2 - (SPRITE_INSET_LEFT + SPRITE_INSET_RIGHT) * 2) as i32,
        h: max_int(0, band.height * 4 - SPRITE_INSET_TOP * 4 - SPRITE_GROWTH_MARGIN_DOTS - SPRITE_INSET_BOTTOM * 4) as i32,
    }
}

/// The dot-space box the sprite is fitted into inside its band: inset
/// `SPRITE_INSET_LEFT` cells from the left, `SPRITE_INSET_RIGHT` from the
/// right, `SPRITE_INSET_TOP` cells plus `SPRITE_GROWTH_MARGIN_DOTS` dots
/// from the top and `SPRITE_INSET_BOTTOM` cells from the bottom (the
/// sprite's baseline). A band too small for the insets gives a box of zero
/// width or height, into which nothing is drawn.
pub fn sprite_fit_box(band: Rect) -> (r: DotRect)
    ensures
        r == sprite_fit_box_spec(band),
{
    let w = band.width as i32 * 2 - (SPRITE_INSET_LEFT + SPRITE_INSET_RIGHT) as i32 * 2;
    let h = band.height as i32 * 4 - SPRITE_INSET_TOP as i32 * 4 - SPRITE_GROWTH_MARGIN_DOTS as i32
        - SPRITE_INSET_BOTTOM as i32 * 4;
    DotRect {
        x: band.x as i32 * 2 + SPRITE_INSET_LEFT as i32 * 2,
        y: band.y as i32 * 4 + SPRITE_INSET_TOP as i32 * 4 + SPRITE_GROWTH_MARGIN_DOTS as i32,
        w: if w >= 0 { w } else { 0 },
        h: if h >= 0 { h } else { 0 },
    }
}

/// A non-empty sprite box lies inside its band with the insets kept clear:
/// its bottom (the sprite's baseline) sits `SPRITE_INSET_BOTTOM` cells
/// above the band's bottom.
pub proof fn lemma_sprite_box_inside_band(band: Rect)
    ensures
        ({
            let b = sprite_fit_box_spec(band);
            b.w > 0 && b.h > 0 ==> {
                &&& b.x == band.x * 2 + SPRITE_INSET_LEFT * 2
                &&& b.x + b.w + SPRITE_INSET_RIGHT * 2 == (band.x + band.width) * 2
                &&& b.y + b.h + SPRITE_INSET_BOTTOM * 4 == (band.y + band.height) * 4
                &&& b.y >= band.y * 4
            }
        }),
{
}

/// The layout's structure: the header block sits one blank row down, with
/// `level` tight under `name`; the stat-bar band and the details panel
/// start on the same cell row; the sprite opens directly under the
/// stat-bar band in the same columns and, given two body rows, ends on the
/// dot row; the dot row ends at the area's bottom once the area holds the
/// header and dot rows. The details panel is a third of the width, inset
/// `EDGE_MARGIN + DETAILS_LEFT_SHIFT` from the right edge, and overlaps
/// the sprite band by exactly that many columns (when the left column
/// reaches that far). With room for the home button and its gap, a blank
/// row separates `level` from the stat-bar band.
pub proof fn lemma_layout_structure(area: Rect)
    requires
        layout_area_ok(area),
    ensures
        ({
            let l = layout_spec(area);
            let sb = stat_bar_spec(area);
            let st = stamina_spec(area);
            let ab = ability_list_spec(area);
            &&& l.name.y == area.y + HEADER_GAP_H && l.name.height == NAME_H
            &&& l.level.y == l.name.y + l.name.height && l.level.height == LEVEL_H
            &&& sb.y == st.y
            &&& ab.y == st.y + st.height && ab.x == st.x && ab.width == st.width
            &&& l.sprite.y == sb.y + sb.height && l.sprite.x == sb.x && l.sprite.width == sb.width
            &&& column_rows(area) >= 2 ==> l.sprite.y + l.sprite.height == l.dot_row.y
            &&& area.height >= (HEADER_GAP_H + NAME_H + LEVEL_H + DOT_H)
                ==> l.dot_row.y + l.dot_row.height == area.y + area.height
            &&& st.width == area.width - area.width * 2 / 3
            &&& area.x + area.width * 2 / 3 >= (EDGE_MARGIN + DETAILS_LEFT_SHIFT) ==> {
                &&& st.x + st.width + EDGE_MARGIN + DETAILS_LEFT_SHIFT == area.x + area.width
                &&& l.sprite.x + l.sprite.width == ab.x + EDGE_MARGIN + DETAILS_LEFT_SHIFT
            }
            &&& dot_row_y(area) >= area.y + EDGE_MARGIN + HOME_H + DETAILS_TOP_GAP
                ==> l.level.y + l.level.height < sb.y
        }),
{
    lemma_layout_values(area);
}

} // verus!
