use ratatui::style::Color;
use roster_manager::diagnostics::{
    badge_placement, badge_rect, byte_to_pos, decorations_for, span_to_line_col, Decoration, Diagnostic,
    BADGE_TEXT_CELLS,
};
use roster_manager::Rect;

const BG: Color = Color::Rgb(10, 20, 30);

fn diagnostic(message: &str) -> Diagnostic {
    Diagnostic { message: message.to_string(), span: None }
}

fn spanned(message: &str, span: std::ops::Range<usize>) -> Diagnostic {
    Diagnostic { message: message.to_string(), span: Some(span) }
}

#[test]
fn prompt_too_long_span_none_yields_no_decoration() {
    let text = "anything";
    let only_unspanned = vec![diagnostic("prompt is 1004 words; limit is 500")];
    assert_eq!(decorations_for(text, &only_unspanned, BG).decorations(), vec![]);

    let mixed = vec![
        diagnostic("prompt is 1004 words; limit is 500"),
        spanned("unknown target `x`", 0..4),
    ];
    let decorations = decorations_for(text, &mixed, BG).decorations();
    assert_eq!(decorations.len(), 1, "PromptTooLong must not contribute a decoration");
    assert_eq!(
        decorations[0].span,
        span_to_line_col(text, &(0..4)).unwrap(),
        "the remaining decoration must be the spanned diagnostic's own span"
    );
}

#[test]
fn decoration_index_maps_back_to_its_diagnostic() {
    let text = "anything";
    let diags = vec![
        diagnostic("prompt is 1004 words; limit is 500"),
        spanned("unknown target `x`", 0..4),
    ];

    let decos = decorations_for(text, &diags, BG);

    assert_eq!(decos.decorations().len(), 1);
    assert_eq!(
        decos.diagnostic_index(0),
        Some(1),
        "the sole decoration came from diags[1] (the span-less one at index 0 was filtered out)"
    );
    assert_eq!(decos.diagnostic_index(1), None, "out-of-range decoration index must be None");
}

#[test]
fn decorations_keep_order_skip_unmappable_and_carry_the_tint() {
    let text = "ab\ncd @X\nef";
    let diags = vec![
        spanned("on line one", 6..8),
        spanned("past the end", 5..40),
        diagnostic("whole text"),
        spanned("first line", 0..2),
    ];
    let decos = decorations_for(text, &diags, BG);
    assert_eq!(
        decos.decorations(),
        vec![
            Decoration { span: ((1, 3), (1, 5)), bg: BG },
            Decoration { span: ((0, 0), (0, 2)), bg: BG },
        ]
    );
    assert_eq!(decos.diagnostic_index(0), Some(0));
    assert_eq!(decos.diagnostic_index(1), Some(3));
    assert_eq!(decos.diagnostic_index(2), None);
}

#[test]
fn badge_rect_is_none_for_a_degenerate_area() {
    assert_eq!(badge_rect(Rect::new(0, 0, 0, 5)), None, "zero-width area");
    assert_eq!(badge_rect(Rect::new(0, 0, 5, 0)), None, "zero-height area");
}

#[test]
fn badge_sits_left_on_the_middle_row_and_is_clipped() {
    assert_eq!(badge_rect(Rect::new(2, 2, 10, 1)), Some(Rect::new(2, 2, BADGE_TEXT_CELLS, 1)));
    assert_eq!(badge_rect(Rect::new(0, 0, 20, 3)), Some(Rect::new(0, 1, 4, 1)));
    assert_eq!(badge_rect(Rect::new(5, 10, 2, 4)), Some(Rect::new(5, 12, 2, 1)));
}

#[test]
fn badge_placement_depends_only_on_whether_there_are_diagnostics() {
    let area = Rect::new(0, 0, 20, 3);
    assert_eq!(badge_placement(area, 0), None, "no diagnostics, no badge");
    assert_eq!(badge_placement(area, 1), badge_rect(area));
    assert_eq!(badge_placement(area, 1), badge_placement(area, 5));
    assert_eq!(badge_placement(Rect::new(0, 0, 0, 3), 5), None);
}

#[test]
fn positions_step_one_char_at_a_time() {
    let text = "ab\nçd";
    let got: Vec<Option<(usize, usize)>> = (0..=text.len()).map(|b| byte_to_pos(text, b)).collect();
    assert_eq!(
        got,
        vec![Some((0, 0)), Some((0, 1)), Some((0, 2)), Some((1, 0)), None, Some((1, 1)), Some((1, 2))]
    );
    assert_eq!(byte_to_pos("", 0), Some((0, 0)));
}
