use roster_manager::dots::{
    arrow_xs, blit_column, blit_target, cell_rect_to_dots, header_underline, popup_chrome, DotRect,
    HEADER_UNDERLINE_THICKNESS_DOTS,
};
use roster_manager::Rect;

#[test]
fn cells_convert_to_two_by_four_dots() {
    assert_eq!(cell_rect_to_dots(Rect::new(3, 2, 5, 1)), DotRect { x: 6, y: 8, w: 10, h: 4 });
}

#[test]
fn close_box_sits_top_right_and_badge_top_left() {
    let popup = DotRect { x: 20, y: 8, w: 120, h: 80 };
    let (close, badge) = popup_chrome(popup);
    assert_eq!(close, DotRect { x: 20 + 120 - 4 - 6, y: 8, w: 6, h: 12 });
    assert_eq!(badge, DotRect { x: 24, y: 12, w: 8, h: 4 });
    assert!(close.x + close.w <= popup.x + popup.w);
}

#[test]
fn arrows_flank_the_cluster_group_or_stop_at_the_edges() {
    let band = DotRect { x: 0, y: 108, w: 160, h: 8 };
    // group spans cells 30..50: arrows keep a 3-cell gap outside it
    assert_eq!(arrow_xs(30, 50, band), (60 - 6 - 8, 100 + 6));
    // a group that reaches the edges pushes the arrows against the insets
    assert_eq!(arrow_xs(2, 78, band), (2, 160 - 2 - 8));
}

#[test]
fn header_underline_runs_under_the_text() {
    let header = DotRect { x: 10, y: 20, w: 40, h: 4 };
    let cell = Rect::new(5, 5, 20, 1);
    assert_eq!(
        header_underline(header, cell, 9),
        Some(DotRect { x: 10, y: 24, w: 20, h: HEADER_UNDERLINE_THICKNESS_DOTS })
    );
    // clamped to the header's width
    assert_eq!(header_underline(header, cell, 30).map(|u| u.w), Some(40));
    assert_eq!(header_underline(header, cell, 0), None);
    assert_eq!(header_underline(DotRect { h: 0, ..header }, cell, 9), None);
}

#[test]
fn shifted_sprite_columns_are_dropped_outside_the_area() {
    let area = Rect::new(10, 0, 5, 3);
    assert_eq!(blit_column(area, 0, 0), Some(10));
    assert_eq!(blit_column(area, 4, 0), Some(14));
    assert_eq!(blit_column(area, 4, 1), None);
    assert_eq!(blit_column(area, 0, -1), None);
    assert_eq!(blit_column(area, 2, -2), Some(10));
}

#[test]
fn blank_sprite_cells_are_never_copied() {
    let area = Rect::new(10, 0, 5, 3);
    assert_eq!(blit_target(area, 1, 0, " "), None);
    assert_eq!(blit_target(area, 1, 0, "\u{28ff}"), Some(11));
    assert_eq!(blit_target(area, 1, 2, "x"), Some(13));
    assert_eq!(blit_target(area, 4, 2, "x"), None);
    assert_eq!(blit_target(area, 1, 0, "  "), Some(11));
}

#[test]
fn underline_spans_header_text_width() {
    let header = DotRect { x: 0, y: 0, w: 40, h: 4 };
    let u = header_underline(header, Rect::new(0, 0, 20, 1), "Abilities".chars().count()).unwrap();
    for col in [0, 9, 17, 19] {
        assert!(u.x <= col && col < u.x + u.w, "dot col {col} at underline row 4 must be lit");
    }
    assert!(u.y <= 4 && 4 < u.y + u.h);
    assert!(!(u.x <= 24 && 24 < u.x + u.w), "dot col 24 is past the text+pad span");
}
