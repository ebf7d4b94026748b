//! Braille-dot geometry: a terminal cell is 2 dots wide and 4 dots tall.
//! Rects in dot space are signed so that offsets and insets can run past an
//! edge before being clipped.

use vstd::prelude::*;

use crate::geometry::{max_int, min_int, Rect};

verus! {

/// A rectangle in dot space.
#[derive(Clone, Copy, Debug, Default, PartialEq, Eq, Structural)]
pub struct DotRect {
    pub x: i32,
    pub y: i32,
    pub w: i32,
    pub h: i32,
}

/// Whether `v` fits an `i32`.
pub open spec fn fits_i32(v: int) -> bool {
    i32::MIN <= v <= i32::MAX
}

/// The dot-space rect covering exactly the cells of `r`.
pub open spec fn cell_rect_to_dots_spec(r: Rect) -> DotRect {
    DotRect { x: (r.x * 2) as i32, y: (r.y * 4) as i32, w: (r.width * 2) as i32, h: (r.height * 4) as i32 }
}

/// Converts a whole-cell rect into dot space.
pub fn cell_rect_to_dots(r: Rect) -> (d: DotRect)
    ensures
        d == cell_rect_to_dots_spec(r),
{
    DotRect { x: r.x as i32 * 2, y: r.y as i32 * 4, w: r.width as i32 * 2, h: r.height as i32 * 4 }
}

// ---------------------------------------------------------------------
// Prompt-editor popup chrome
// ---------------------------------------------------------------------

/// Close (X) button size, in cells.
pub const CLOSE_W_CELLS: i32 = 3;
pub const CLOSE_H_CELLS: i32 = 3;
/// Close button inset from the popup's top and right edges, in cells.
pub const CLOSE_TOP_INSET_CELLS: i32 = 0;
pub const CLOSE_RIGHT_INSET_CELLS: i32 = 2;
/// Diagnostics badge inset from the popup's left and top edges, in cells.
pub const BADGE_LEFT_INSET_CELLS: i32 = 2;
pub const BADGE_TOP_INSET_CELLS: i32 = 1;
/// The badge text's width, in cells.
pub const BADGE_W_CELLS: i32 = 4;

pub open spec fn popup_close_spec(popup: DotRect) -> DotRect {
    DotRect {
        x: (popup.x + popup.w - CLOSE_RIGHT_INSET_CELLS * 2 - CLOSE_W_CELLS * 2) as i32,
        y: (popup.y + CLOSE_TOP_INSET_CELLS * 4) as i32,
        w: (CLOSE_W_CELLS * 2) as i32,
        h: (CLOSE_H_CELLS * 4) as i32,
    }
}

pub open spec fn popup_badge_spec(popup: DotRect) -> DotRect {
    DotRect {
        x: (popup.x + BADGE_LEFT_INSET_CELLS * 2) as i32,
        y: (popup.y + BADGE_TOP_INSET_CELLS * 4) as i32,
        w: (BADGE_W_CELLS * 2) as i32,
        h: 4,
    }
}

/// The popup's corner chrome: the close (X) box in the top-right corner and
/// the diagnostics badge slot mirroring it in the top-left.
pub fn popup_chrome(popup: DotRect) -> (r: (DotRect, DotRect))
    requires
        fits_i32(popup.x + popup.w),
        fits_i32(popup.x + popup.w - CLOSE_RIGHT_INSET_CELLS * 2 - CLOSE_W_CELLS * 2),
        fits_i32(popup.x + BADGE_LEFT_INSET_CELLS * 2),
        fits_i32(popup.y + BADGE_TOP_INSET_CELLS * 4),
    ensures
        r == (popup_close_spec(popup), popup_badge_spec(popup)),
{
    let close_w = CLOSE_W_CELLS * 2;
    let close_h = CLOSE_H_CELLS * 4;
    let close = DotRect {
        x: popup.x + popup.w - CLOSE_RIGHT_INSET_CELLS * 2 - close_w,
        y: popup.y + CLOSE_TOP_INSET_CELLS * 4,
        w: close_w,
        h: close_h,
    };
    let badge = DotRect {
        x: popup.x + BADGE_LEFT_INSET_CELLS * 2,
        y: popup.y + BADGE_TOP_INSET_CELLS * 4,
        w: (BADGE_W_CELLS * 2) as i32,
        h: 4,
    };
    (close, badge)
}

/// Both chrome boxes sit inside a popup wide and tall enough to hold them,
/// the close box flush `CLOSE_RIGHT_INSET_CELLS` cells off the right edge.
pub proof fn lemma_popup_chrome_inside(popup: DotRect)
    requires
        popup.w >= (CLOSE_RIGHT_INSET_CELLS + CLOSE_W_CELLS) * 2,
        popup.h >= CLOSE_H_CELLS * 4,
        fits_i32(popup.x + popup.w),
        fits_i32(popup.y + popup.h),
    ensures
        ({
            let c = popup_close_spec(popup);
            let b = popup_badge_spec(popup);
            &&& popup.x <= c.x && c.x + c.w + CLOSE_RIGHT_INSET_CELLS * 2 == popup.x + popup.w
            &&& popup.y <= c.y && c.y + c.h <= popup.y + popup.h
            &&& b.x == popup.x + BADGE_LEFT_INSET_CELLS * 2 && b.y == popup.y + BADGE_TOP_INSET_CELLS * 4
        }),
{
}

// ---------------------------------------------------------------------
// Arrow buttons flanking the dot row
// ---------------------------------------------------------------------

/// Arrow button size, in cells.
pub const ARROW_W_CELLS: i32 = 4;
/// Blank cells between each arrow and the dot-cluster group it flanks.
pub const ARROW_DOT_GAP_CELLS: i32 = 3;
/// Minimum inset of an arrow from the band's edges, in cells.
pub const ARROW_EDGE_CELLS: i32 = 1;

pub open spec fn arrow_xs_spec(group_left: int, group_right: int, band: DotRect) -> (int, int) {
    let gap = ARROW_DOT_GAP_CELLS * 2;
    let edge = ARROW_EDGE_CELLS * 2;
    let aw = ARROW_W_CELLS * 2;
    (
        max_int(group_left * 2 - gap - aw, band.x + edge),
        min_int(group_right * 2 + gap, band.x + band.w - edge - aw),
    )
}

/// The x (in dots) of the left and right arrow buttons: each sits
/// `ARROW_DOT_GAP_CELLS` outside the cluster group spanning cell columns
/// `group_left..group_right`, but never closer than `ARROW_EDGE_CELLS` to
/// the band's edge.
pub fn arrow_xs(group_left: u16, group_right: u16, band: DotRect) -> (r: (i32, i32))
    requires
        fits_i32(band.x + band.w),
        fits_i32(band.x + ARROW_EDGE_CELLS * 2),
        fits_i32(band.x + band.w - ARROW_EDGE_CELLS * 2 - ARROW_W_CELLS * 2),
    ensures
        r.0 == arrow_xs_spec(group_left as int, group_right as int, band).0,
        r.1 == arrow_xs_spec(group_left as int, group_right as int, band).1,
{
    let gap_dots = ARROW_DOT_GAP_CELLS * 2;
    let edge_dots = ARROW_EDGE_CELLS * 2;
    let arrow_w_dots = ARROW_W_CELLS * 2;
    let band_left = band.x;
    let band_right = band.x + band.w;
    let l = group_left as i32 * 2 - gap_dots - arrow_w_dots;
    let l_min = band_left + edge_dots;
    let left_x = if l >= l_min { l } else { l_min };
    let rr = group_right as i32 * 2 + gap_dots;
    let r_max = band_right - edge_dots - arrow_w_dots;
    let right_x = if rr <= r_max { rr } else { r_max };
    (left_x, right_x)
}

/// The arrows stay clear of the band's edges, and whenever there is room
/// they keep the full gap from the cluster group.
pub proof fn lemma_arrows_flank_group(group_left: int, group_right: int, band: DotRect)
    ensures
        ({
            let (l, r) = arrow_xs_spec(group_left, group_right, band);
            &&& l >= band.x + ARROW_EDGE_CELLS * 2
            &&& r + ARROW_W_CELLS * 2 <= band.x + band.w - ARROW_EDGE_CELLS * 2
            &&& l + ARROW_W_CELLS * 2 <= group_left * 2 - ARROW_DOT_GAP_CELLS * 2
                || l == band.x + ARROW_EDGE_CELLS * 2
            &&& r >= group_right * 2 + ARROW_DOT_GAP_CELLS * 2
                || r == band.x + band.w - ARROW_EDGE_CELLS * 2 - ARROW_W_CELLS * 2
        }),
{
}

// ---------------------------------------------------------------------
// Section-header underline
// ---------------------------------------------------------------------

/// Dot rows of a header underline.
pub const HEADER_UNDERLINE_THICKNESS_DOTS: i32 = 2;
/// Extra dots the underline runs past the header text.
pub const HEADER_UNDERLINE_PAD_DOTS: i32 = 2;

pub open spec fn header_underline_spec(header: DotRect, header_cell: Rect, text_chars: int) -> Option<DotRect> {
    let w = max_int(min_int(text_chars * 2 + HEADER_UNDERLINE_PAD_DOTS, header.w as int), 0);
    if text_chars == 0 || header.h <= 0 || w == 0 {
        None
    } else {
        Some(DotRect {
            x: (header_cell.x * 2) as i32,
            y: (header_cell.bottom_spec() * 4) as i32,
            w: w as i32,
            h: HEADER_UNDERLINE_THICKNESS_DOTS,
        })
    }
}

/// Where a section header's underline is lit: the dot rows directly below
/// the header text's cell row (`header_cell` is the header's cell rect),
/// spanning the text's width plus `HEADER_UNDERLINE_PAD_DOTS`, clamped to
/// the header's width. Nothing for empty text, a collapsed header, or no
/// width.
pub fn header_underline(header: DotRect, header_cell: Rect, text_chars: usize) -> (r: Option<DotRect>)
    requires
        text_chars * 2 + HEADER_UNDERLINE_PAD_DOTS <= i32::MAX,
    ensures
        r == header_underline_spec(header, header_cell, text_chars as int),
{
    if text_chars == 0 || header.h <= 0 {
        return None;
    }
    let text_w = text_chars as i32 * 2;
    let padded = text_w + HEADER_UNDERLINE_PAD_DOTS;
    let clamped = if padded <= header.w { padded } else { header.w };
    let w = if clamped >= 0 { clamped } else { 0 };
    if w == 0 {
        return None;
    }
    Some(DotRect {
        x: header_cell.x as i32 * 2,
        y: header_cell.bottom() as i32 * 4,
        w,
        h: HEADER_UNDERLINE_THICKNESS_DOTS,
    })
}

// ---------------------------------------------------------------------
// Sprite blit
// ---------------------------------------------------------------------

pub open spec fn blit_column_spec(area: Rect, x: int, col_offset: int) -> Option<u16> {
    let dest = area.x + x + col_offset;
    if dest < area.x || dest >= area.right_spec() {
        None
    } else {
        Some(dest as u16)
    }
}

/// The destination column of sprite column `x` when the sprite drawn into
/// `area` is shifted by `col_offset` columns, or `None` when it lands
/// outside `area` and is dropped.
pub fn blit_column(area: Rect, x: u16, col_offset: i32) -> (r: Option<u16>)
    ensures
        r == blit_column_spec(area, x as int, col_offset as int),
{
    let dest = area.x as i64 + x as i64 + col_offset as i64;
    if dest < area.left() as i64 || dest >= area.right() as i64 {
        None
    } else {
        Some(dest as u16)
    }
}

/// Whether a cell symbol is the blank `" "` an empty cell holds.
pub open spec fn is_blank_symbol(symbol: Seq<char>) -> bool {
    symbol == seq![' ']
}

pub open spec fn blit_target_spec(area: Rect, x: int, col_offset: int, symbol: Seq<char>) -> Option<u16> {
    if is_blank_symbol(symbol) {
        None
    } else {
        blit_column_spec(area, x, col_offset)
    }
}

/// Where a sprite cell in column `x` holding `symbol` is copied when the
/// sprite is shifted by `col_offset` columns: nowhere for a blank cell (so
/// the sprite's empty cells never overwrite what is drawn below it) or for
/// one that lands outside `area`; otherwise the shifted column.
pub fn blit_target(area: Rect, x: u16, col_offset: i32, symbol: &str) -> (r: Option<u16>)
    ensures
        r == blit_target_spec(area, x as int, col_offset as int, symbol@),
{
    let blank = symbol.unicode_len() == 1 && symbol.get_char(0) == ' ';
    proof {
        if symbol@.len() == 1 && symbol@[0] == ' ' {
            assert(symbol@ =~= seq![' ']);
        }
    }
    if blank {
        None
    } else {
        blit_column(area, x, col_offset)
    }
}

/// A blank sprite cell is never copied; a copied cell lands inside the
/// area.
pub proof fn lemma_blit_skips_blank(area: Rect, x: int, col_offset: int, symbol: Seq<char>)
    ensures
        is_blank_symbol(symbol) ==> blit_target_spec(area, x, col_offset, symbol) is None,
        blit_target_spec(area, x, col_offset, symbol) matches Some(d) ==> area.x <= d < area.right_spec(),
{
}

/// A shifted sprite never draws outside its area, and an unshifted one
/// draws every column of the area in place.
pub proof fn lemma_blit_stays_inside(area: Rect, x: int, col_offset: int)
    ensures
        blit_column_spec(area, x, col_offset) matches Some(d) ==> area.x <= d < area.right_spec(),
        col_offset == 0 && 0 <= x && area.x + x < area.right_spec() ==> blit_column_spec(area, x, 0)
            == Some((area.x + x) as u16),
{
}

} // verus!
