use roster_manager::details::level_text;
use roster_manager::dots::DotRect;
use roster_manager::layout::{
    ability_list_rect, details_panel_rects, dot_bands, layout, sprite_fit_box, stamina_rect,
    stat_bar_rect, DETAILS_LEFT_SHIFT, DOT_H, DOT_LABEL_H, EDGE_MARGIN, HEADER_GAP_H, LEVEL_H, NAME_H,
    STAT_BAR_BAND_H,
};
use roster_manager::stats::{stat_slice_parts, STAT_BAR_OUTLINE_H, STAT_LABEL_H};
use roster_manager::Rect;

#[test]
fn layout_layout_rects_ordered_top_to_bottom() {
    let area = Rect::new(0, 0, 80, 30);
    let l = layout(area);
    let stat_bar = stat_bar_rect(area);

    assert!(l.name.y < l.level.y, "name.y ({}) must be above level.y ({})", l.name.y, l.level.y);
    assert_eq!(l.name.y + l.name.height, l.level.y, "level must sit directly under name with no blank row");
    assert!(
        l.level.y + l.level.height <= stat_bar.y,
        "stat_bar must not start above level's bottom edge (level {}+{} vs stat_bar.y {})",
        l.level.y,
        l.level.height,
        stat_bar.y
    );
    let stamina = stamina_rect(area);
    let ability_list = ability_list_rect(area);
    assert!(stamina.y < ability_list.y, "stamina must be above ability_list");
    assert!(stat_bar.y < l.sprite.y, "stat_bar must be above sprite");
    assert!(l.sprite.y < l.dot_row.y, "sprite must be above dot_row");
}

#[test]
fn header_block_shifted_down_one_cell_gap_above() {
    for (w, h) in [(80u16, 30u16), (40u16, 20u16), (60u16, 24u16)] {
        let area = Rect::new(0, 0, w, h);
        let l = layout(area);
        let stat_bar = stat_bar_rect(area);
        assert_eq!(l.name.y, area.y + HEADER_GAP_H, "w={w},h={h}: name.y must be pushed down by HEADER_GAP_H");
        assert_eq!(l.name.y + l.name.height, l.level.y, "w={w},h={h}: level must stay tight under name");
        assert_eq!(stat_bar.y, stamina_rect(area).y, "w={w},h={h}: body position unchanged by the header shift");
    }
}

#[test]
fn layout_details_panel_width_is_one_third() {
    for width in [60u16, 90u16] {
        let area = Rect::new(0, 0, width, 30);
        let expected = width - (width * 2 / 3);
        assert_eq!(stamina_rect(area).width, expected, "width={width}: stamina.width");
        assert_eq!(ability_list_rect(area).width, expected, "width={width}: ability_list.width");
    }
}

#[test]
fn layout_stat_bar_spans_sprite_columns_and_sits_above() {
    let area = Rect::new(0, 0, 80, 30);
    let l = layout(area);
    let stat_bar = stat_bar_rect(area);
    assert_eq!(stat_bar.left(), l.sprite.left(), "stat_bar.left() must equal sprite.left()");
    assert_eq!(stat_bar.right(), l.sprite.right(), "stat_bar.right() must equal sprite.right()");
    assert!(
        stat_bar.y + stat_bar.height <= l.sprite.y,
        "stat_bar ({}+{}) must sit above sprite.y ({})",
        stat_bar.y,
        stat_bar.height,
        l.sprite.y
    );
}

#[test]
fn stat_bar_top_and_details_panel_top_share_a_cell() {
    for (w, h) in [(80u16, 30u16), (40u16, 20u16), (60u16, 24u16)] {
        let area = Rect::new(0, 0, w, h);
        assert_eq!(stat_bar_rect(area).y, stamina_rect(area).y, "w={w},h={h}");
    }
}

#[test]
fn real_gap_between_header_and_stat_bar() {
    let l = layout(Rect::new(0, 0, 80, 30));
    let stat_bar = stat_bar_rect(Rect::new(0, 0, 80, 30));
    let gap = stat_bar.y.saturating_sub(l.level.y + l.level.height);
    assert!(gap >= 1, "expected a real blank gap (>=1 row) between level and stat_bar, got {gap}");
}

#[test]
fn layout_sprite_and_ability_list_columns_disjoint() {
    for width in [80u16, 60u16] {
        let area = Rect::new(0, 0, width, 30);
        let l = layout(area);
        let ability_list = ability_list_rect(area);
        let tolerance = EDGE_MARGIN + DETAILS_LEFT_SHIFT;
        assert!(
            l.sprite.right() <= ability_list.left() + tolerance,
            "width={}: sprite ({:?}) must not extend more than {tolerance} cells into ability_list ({:?})",
            width,
            l.sprite,
            ability_list
        );
    }
}

#[test]
fn details_panel_pulled_left_off_right_edge() {
    for width in [60u16, 90u16] {
        let area = Rect::new(0, 0, width, 30);
        let stamina = stamina_rect(area);
        let ability_list = ability_list_rect(area);
        let expected_x = area.right() - (EDGE_MARGIN + DETAILS_LEFT_SHIFT + stamina.width);
        assert_eq!(stamina.x, expected_x, "width={width}: details panel x");
        assert_eq!(ability_list.x, expected_x, "width={width}: ability_list shares the panel x");
        assert_eq!(area.right() - stamina.right(), EDGE_MARGIN + DETAILS_LEFT_SHIFT, "width={width}");
    }
}

#[test]
fn stat_bar_band_is_tight_and_sprite_grows() {
    assert_eq!(STAT_BAR_BAND_H, STAT_BAR_OUTLINE_H + STAT_LABEL_H);
    for (w, h) in [(80u16, 30u16), (60u16, 24u16), (40u16, 20u16)] {
        let area = Rect::new(0, 0, w, h);
        let l = layout(area);
        let stat_bar = stat_bar_rect(area);
        assert_eq!(l.sprite.y, stat_bar.y + stat_bar.height, "w={w},h={h}: sprite opens below the band");
        assert_eq!(l.sprite.y + l.sprite.height, l.dot_row.y, "w={w},h={h}: sprite baseline at dot_row");
        let sprite_if_band_padded = l.dot_row.y.saturating_sub(stat_bar.y + stat_bar.height + 1);
        assert!(l.sprite.height > sprite_if_band_padded, "w={w},h={h}");
    }
}

#[test]
fn stat_bar_fill_is_short_and_band_is_tight() {
    let stat_bar = stat_bar_rect(Rect::new(0, 0, 80, 30));
    for (i, (outline, _fill, label)) in stat_slice_parts(stat_bar).iter().enumerate() {
        assert_eq!(outline.height, STAT_BAR_OUTLINE_H, "slice {i}");
        assert_eq!(label.y + label.height, stat_bar.bottom(), "slice {i}");
        assert_eq!(stat_bar.height, outline.height + label.height, "slice {i}");
    }
}

#[test]
fn stat_bar_slices_are_four_disjoint_ordered_columns() {
    for w in [40u16, 80u16] {
        let stat_bar = stat_bar_rect(Rect::new(0, 0, w, 30));
        let slices = stat_slice_parts(stat_bar);
        assert_eq!(slices.len(), 4, "expected 4 stat slices at width {w}");
        for i in 0..slices.len() - 1 {
            let (a, _, _) = slices[i];
            let (b, _, _) = slices[i + 1];
            assert!(a.right() <= b.left(), "slice {i} must not overlap slice {} at width {w}", i + 1);
            assert!(a.left() < b.left(), "slices must be strictly left-to-right at width {w}");
        }
    }
}

#[test]
fn sprite_name_level_text_renders_below_name_for_current_creature() {
    let l = layout(Rect::new(0, 0, 40, 20));
    assert_eq!(l.level.y, l.name.y + l.name.height);
    assert!(level_text(5).contains("LVL 5"));
}

#[test]
fn full_screen_layout_has_exact_rects() {
    let area = Rect::new(0, 0, 80, 30);
    let l = layout(area);
    assert_eq!(l.name, Rect::new(0, 1, 80, NAME_H));
    assert_eq!(l.level, Rect::new(0, 3, 80, LEVEL_H));
    assert_eq!(l.dot_row, Rect::new(0, 27, 80, DOT_H));
    assert_eq!(l.sprite, Rect::new(0, 8, 53, 19));
    assert_eq!(stat_bar_rect(area), Rect::new(0, 5, 53, 3));
    assert_eq!(stamina_rect(area), Rect::new(51, 5, 27, 5));
    assert_eq!(ability_list_rect(area), Rect::new(51, 10, 27, 16));
    assert_eq!(stamina_rect(Rect::new(0, 0, 60, 30)).x, 38);
}

#[test]
fn details_panel_border_and_text_rects() {
    let (border, stamina_text, ability_text) = details_panel_rects(Rect::new(0, 0, 80, 30));
    // top raised two dots above row 6; 5 stamina rows plus 21 rows of dots less 19
    assert_eq!(border, DotRect { x: 102, y: 22, w: 54, h: 20 + 65 });
    assert_eq!(stamina_text, Rect::new(52, 6, 25, 4));
    assert_eq!(ability_text, Rect::new(52, 10, 25, 15));
}

#[test]
fn short_area_keeps_fixed_bands_and_empties_the_rest() {
    let area = Rect::new(0, 0, 40, 9);
    let l = layout(area);
    assert_eq!(l.dot_row, Rect::new(0, 6, 40, 3));
    assert_eq!(stat_bar_rect(area).y, 5);
    assert_eq!(l.sprite.height, 0);
    assert_eq!(ability_list_rect(area).height, 0);
}

#[test]
fn dot_bands_split_off_the_label_row() {
    let row = Rect::new(0, 27, 80, DOT_H);
    let (dots, labels) = dot_bands(row);
    assert_eq!(dots, Rect::new(0, 27, 80, DOT_H - DOT_LABEL_H));
    assert_eq!(labels, Rect::new(0, 29, 80, DOT_LABEL_H));
    let (dots, labels) = dot_bands(Rect::new(3, 4, 10, 0));
    assert_eq!(dots.height, 0);
    assert_eq!(labels.height, 0);
}

#[test]
fn sprite_box_keeps_the_insets_clear() {
    let band = Rect::new(0, 8, 53, 19);
    assert_eq!(sprite_fit_box(band), DotRect { x: 2, y: 34, w: 98, h: 70 });
    let tiny = sprite_fit_box(Rect::new(2, 3, 3, 1));
    assert_eq!((tiny.w, tiny.h), (0, 0));
}
