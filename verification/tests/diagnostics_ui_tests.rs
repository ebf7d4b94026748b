use roster_manager::diagnostics::{count_header, span_to_line_col, BADGE_TEXT};

#[test]
fn badge_text_is_four_ascii_cells() {
    assert!(BADGE_TEXT.is_ascii(), "BADGE_TEXT must be ASCII, was {:?}", BADGE_TEXT);
    assert_eq!(BADGE_TEXT.chars().count(), 4, "BADGE_TEXT must be exactly 4 cells wide");
}

#[test]
fn count_header_pluralizes_at_the_boundary() {
    assert_eq!(count_header(1), "1 issue");
    assert_ne!(count_header(1), "1 issues", "must not pluralize the singular");
    assert_eq!(count_header(2), "2 issues");
}

#[test]
fn multibyte_before_span_does_not_shift_it() {
    let text = "café — @Volt_Scorpion";
    let start = text.find('@').expect("test text must contain @");
    let end = start + "@Volt_Scorpion".len();

    let span = span_to_line_col(text, &(start..end)).expect("span must be on `text`");

    assert_eq!(span.0, (0, 7), "byte col must not be used as the char col");
}

#[test]
fn span_on_later_line_maps_to_that_line() {
    let text = "line0\nline1 @Target\nline2";
    let start = text.find('@').expect("test text must contain @");
    let end = start + "@Target".len();

    let span = span_to_line_col(text, &(start..end)).expect("span must be on `text`");

    assert_eq!(span, ((1, 6), (1, 13)));
}

#[test]
fn mapping_matches_set_text_line_split_on_crlf() {
    let text = "hdr\r\n@Volt_Scorpion x";
    let start = text.find('@').expect("test text must contain @");
    let end = start + "@Volt_Scorpion".len();

    let span = span_to_line_col(text, &(start..end)).expect("span must be on `text`");

    assert_eq!(span.0, (1, 0), "must follow split('\\n'), not str::lines()");
}

#[test]
fn trailing_newline_final_empty_line_is_addressable() {
    let text = "alpha\n";
    let end = text.len();

    let span = span_to_line_col(text, &(end..end)).expect("end-of-text position must be addressable");

    assert_eq!(span, ((1, 0), (1, 0)), "the final empty line after a trailing newline must exist");
}

#[test]
fn span_end_is_exclusive() {
    let text = "abc @Foo def";
    let start = text.find('@').expect("test text must contain @");
    let end = start + "@Foo".len();

    let span = span_to_line_col(text, &(start..end)).expect("span must be on `text`");

    assert_eq!(span.1, (0, end), "end col must be one past the token's last char");
    assert_eq!(text.chars().nth(end - 1), Some('o'), "sanity: last char of the token is 'o'");
    assert_eq!(text.chars().nth(end), Some(' '), "sanity: the char AT end col is past the token");
}

#[test]
fn out_of_range_or_non_boundary_span_is_none_not_panic() {
    assert_eq!(span_to_line_col("abc", &(0..99)), None, "out-of-range end must be None, not panic");

    let text = "café";
    let e_byte = text.find('é').unwrap();
    assert_eq!(
        span_to_line_col(text, &(e_byte..e_byte + 1)),
        None,
        "a non-char-boundary offset inside a multi-byte char must be None, not panic"
    );
}
