//! Diagnostics presentation for a creature's instructions text: the `[!!]`
//! warning badge's placement, the warning card's pluralized count header,
//! and the mapping of a diagnostic's byte span onto the char-indexed
//! `(line, col)` positions a text editor addresses. Lines are split on
//! `'\n'` exactly (a `'\r'` is an ordinary char, and a trailing newline
//! yields a final empty line).

use std::ops::Range;

use vstd::prelude::*;
use vstd::utf8::*;
use vstd::std_specs::iter::IteratorSpec;
use vstd::string::StringSliceAdditionalSpecFns;

use ratatui::style::Color;

use crate::geometry::{rect_new, Rect};
use crate::text::{decimal, digits_value, is_ascii_digit, lemma_decimal_reads_back, push_decimal};

verus! {

broadcast use vstd::string::group_string_axioms, vstd::utf8::group_utf8_lib;

#[verifier::external_type_specification]
#[verifier::external_body]
pub struct ExColor(Color);

/// The warning badge's text: ASCII, exactly four cells wide.
pub const BADGE_TEXT: &'static str = "[!!]";

/// Number of cells the badge text occupies.
pub const BADGE_TEXT_CELLS: u16 = 4;

// ---------------------------------------------------------------------
// Warning badge
// ---------------------------------------------------------------------

/// The cells the badge occupies inside `area`: left-aligned at `area.x`, on
/// the vertically centered row, at most `BADGE_TEXT_CELLS` wide and clipped
/// to `area`'s width; `None` when `area` has no room at all.
pub open spec fn badge_rect_spec(area: Rect) -> Option<Rect> {
    if area.width == 0 || area.height == 0 {
        None
    } else {
        let width = if area.width < BADGE_TEXT_CELLS { area.width as int } else { BADGE_TEXT_CELLS as int };
        Some(rect_new(area.x as int, area.y + area.height / 2, width, 1))
    }
}

/// Where the `[!!]` badge is drawn inside `area`, or `None` when `area`
/// cannot hold it (zero width or height).
pub fn badge_rect(area: Rect) -> (r: Option<Rect>)
    requires
        area.y + area.height / 2 <= u16::MAX,
    ensures
        r == badge_rect_spec(area),
{
    if area.width == 0 || area.height == 0 {
        return None;
    }
    let width = if area.width < BADGE_TEXT_CELLS { area.width } else { BADGE_TEXT_CELLS };
    let row = area.y + area.height / 2;
    Some(Rect::new(area.x, row, width, 1))
}

/// The badge is drawn inside its area, on the area's middle row, starting
/// at its left edge, one row tall and as wide as the badge text (or the
/// area, if narrower); it is missing exactly when the area has no cells.
pub proof fn lemma_badge_inside_area(area: Rect)
    requires
        area.wf(),
    ensures
        badge_rect_spec(area) is None <==> (area.width == 0 || area.height == 0),
        badge_rect_spec(area) matches Some(r) ==> {
            &&& area.encloses(r)
            &&& r.x == area.x && r.y == area.y + area.height / 2 && r.height == 1
            &&& r.width == (if area.width < 4 { area.width as int } else { 4 })
        },
{
}

/// The badge text for a non-empty diagnostic list, or nothing at all: the
/// badge is shown exactly when there is at least one diagnostic and the
/// area has room for it.
pub fn badge_placement(area: Rect, diagnostic_count: usize) -> (r: Option<Rect>)
    requires
        area.y + area.height / 2 <= u16::MAX,
    ensures
        diagnostic_count == 0 ==> r is None,
        diagnostic_count > 0 ==> r == badge_rect_spec(area),
{
    if diagnostic_count == 0 {
        None
    } else {
        badge_rect(area)
    }
}

// ---------------------------------------------------------------------
// Warning card header
// ---------------------------------------------------------------------

/// `"N issue"` for `N == 1`, `"N issues"` otherwise.
pub open spec fn count_header_spec(count: nat) -> Seq<char> {
    decimal(count) + seq![' ', 'i', 's', 's', 'u', 'e'] + if count == 1 {
        Seq::<char>::empty()
    } else {
        seq!['s']
    }
}

/// The warning card's header line: the diagnostic count, pluralized at the
/// boundary (`1` → `"1 issue"`, anything else → `"N issues"`).
pub fn count_header(count: usize) -> (s: String)
    ensures
        s@ == count_header_spec(count as nat),
{
    let mut s = String::new();
    push_decimal(&mut s, count as u64);
    proof { reveal_strlit(" issue"); }
    s.append(" issue");
    if count != 1 {
        proof { reveal_strlit("s"); }
        s.append("s");
    }
    assert(s@ =~= count_header_spec(count as nat));
    s
}

/// The header reads as the count, then `" issue"`, pluralized exactly when
/// the count is not one: it ends in `"issues"` for every count but 1, and
/// in `"issue"` for 1; the digits before the space read back as the count.
pub proof fn lemma_count_header_plural(count: nat)
    ensures
        ({
            let h = count_header_spec(count);
            let k = decimal(count).len() as int;
            &&& digits_value(h.subrange(0, k)) == count
            &&& h[k] == ' '
            &&& (h.last() == 's') <==> count != 1
            &&& count == 1 ==> h.subrange(k, h.len() as int) =~= seq![' ', 'i', 's', 's', 'u', 'e']
            &&& count != 1 ==> h.subrange(k, h.len() as int) =~= seq![' ', 'i', 's', 's', 'u', 'e', 's']
        }),
{
    lemma_decimal_reads_back(count);
    let h = count_header_spec(count);
    let d = decimal(count);
    let k = d.len() as int;
    assert(h.subrange(0, k) =~= d);
    assert(h[k] == ' ');
    if count == 1 {
        assert(h.last() == 'e');
    } else {
        assert(h.last() == 's');
    }
}

// ---------------------------------------------------------------------
// Byte offset -> (line, col)
// ---------------------------------------------------------------------

/// Number of `'\n'` chars in `s`.
pub open spec fn newline_count(s: Seq<char>) -> nat
    decreases s.len(),
{
    if s.len() == 0 {
        0
    } else {
        newline_count(s.drop_last()) + if s.last() == '\n' { 1nat } else { 0nat }
    }
}

/// Number of chars after the last `'\n'` in `s` (all of `s` if it has
/// none).
pub open spec fn column_after_last_newline(s: Seq<char>) -> nat
    decreases s.len(),
{
    if s.len() == 0 {
        0
    } else if s.last() == '\n' {
        0
    } else {
        column_after_last_newline(s.drop_last()) + 1
    }
}

/// The chars of `text` that precede byte offset `byte`.
pub open spec fn chars_before(text: &str, byte: int) -> Seq<char> {
    decode_utf8(text.spec_bytes().subrange(0, byte))
}

/// The `(line, col)` at byte offset `byte` of `text`, both counted in chars
/// from zero, or `None` when `byte` is past the end or inside a multi-byte
/// char.
pub open spec fn pos_spec(text: &str, byte: int) -> Option<(usize, usize)> {
    if 0 <= byte <= text.spec_bytes().len() && is_char_boundary(text.spec_bytes(), byte) {
        let before = chars_before(text, byte);
        Some((newline_count(before) as usize, column_after_last_newline(before) as usize))
    } else {
        None
    }
}

/// The end-exclusive `(line, col)` span of a byte range, or `None` when
/// either end does not land on a char boundary of `text`.
pub open spec fn span_spec(text: &str, span: Range<usize>) -> Option<((usize, usize), (usize, usize))> {
    match (pos_spec(text, span.start as int), pos_spec(text, span.end as int)) {
        (Some(a), Some(b)) => Some((a, b)),
        _ => None,
    }
}

proof fn lemma_counts_bounded(s: Seq<char>)
    ensures
        newline_count(s) <= s.len(),
        column_after_last_newline(s) <= s.len(),
    decreases s.len(),
{
    if s.len() > 0 {
        lemma_counts_bounded(s.drop_last());
    }
}

proof fn lemma_encode_len(chars: Seq<char>)
    ensures
        chars.len() <= encode_utf8(chars).len(),
    decreases chars.len(),
{
    if chars.len() > 0 {
        lemma_encode_len(chars.drop_first());
    }
}

proof fn lemma_encode_append(a: Seq<char>, b: Seq<char>)
    ensures
        encode_utf8(a + b) == encode_utf8(a) + encode_utf8(b),
    decreases a.len(),
{
    if a.len() == 0 {
        assert(a + b =~= b);
        assert(encode_utf8(a) + encode_utf8(b) =~= encode_utf8(b));
    } else {
        assert((a + b).drop_first() =~= a.drop_first() + b);
        assert((a + b)[0] == a[0]);
        lemma_encode_append(a.drop_first(), b);
        assert(encode_utf8(a + b) =~= encode_utf8(a) + encode_utf8(b));
    }
}

/// The bytes of one char's encoding: at least one, a first byte that is
/// not a continuation byte, and continuation bytes after it.
proof fn lemma_scalar_bytes(c: char)
    ensures
        ({
            let e = encode_scalar(c as u32);
            &&& 1 <= e.len() <= 4
            &&& !is_continuation_byte(e[0])
            &&& forall|j: int| 1 <= j < e.len() ==> is_continuation_byte(#[trigger] e[j])
        }),
{
    let s = c as u32;
    assert(is_scalar(s));
    let e = encode_scalar(s);
    if has_width_1_encoding(s) {
        assert(((s & 0x7F) as u8) <= 0x7f) by (bit_vector);
    } else if has_width_2_encoding(s) {
        assert((0xC0u8 | ((s >> 6) & 0x1F) as u8) >= 0xC0) by (bit_vector);
        assert(0x80 <= (0x80u8 | (s & 0x3F) as u8) <= 0xbf) by (bit_vector);
    } else if has_width_3_encoding(s) {
        assert((0xE0u8 | ((s >> 12) & 0x0F) as u8) >= 0xE0) by (bit_vector);
        assert(0x80 <= (0x80u8 | ((s >> 6) & 0x3F) as u8) <= 0xbf) by (bit_vector);
        assert(0x80 <= (0x80u8 | (s & 0x3F) as u8) <= 0xbf) by (bit_vector);
    } else {
        assert((0xF0u8 | ((s >> 18) & 0x7) as u8) >= 0xF0) by (bit_vector);
        assert(0x80 <= (0x80u8 | ((s >> 12) & 0x3F) as u8) <= 0xbf) by (bit_vector);
        assert(0x80 <= (0x80u8 | ((s >> 6) & 0x3F) as u8) <= 0xbf) by (bit_vector);
        assert(0x80 <= (0x80u8 | (s & 0x3F) as u8) <= 0xbf) by (bit_vector);
    }
}

/// Byte offset at which char `i` of `chars` starts.
pub open spec fn char_offset(chars: Seq<char>, i: int) -> int {
    encode_utf8(chars.take(i)).len() as int
}

/// The encoding of `chars` splits at char `i`: its first `char_offset(i)`
/// bytes encode the first `i` chars, and that offset is a char boundary.
proof fn lemma_prefix_at_char(chars: Seq<char>, i: int)
    requires
        0 <= i <= chars.len(),
    ensures
        encode_utf8(chars).subrange(0, char_offset(chars, i)) == encode_utf8(chars.take(i)),
        is_char_boundary(encode_utf8(chars), char_offset(chars, i)),
        char_offset(chars, i) <= encode_utf8(chars).len(),
        i < chars.len() ==> encode_utf8(chars.skip(i)) == encode_scalar(chars[i] as u32)
            + encode_utf8(chars.skip(i + 1)),
        encode_utf8(chars) == encode_utf8(chars.take(i)) + encode_utf8(chars.skip(i)),
{
    assert(chars =~= chars.take(i) + chars.skip(i));
    lemma_encode_append(chars.take(i), chars.skip(i));
    let bytes = encode_utf8(chars);
    let off = char_offset(chars, i);
    assert(bytes.subrange(0, off) =~= encode_utf8(chars.take(i)));
    if i < chars.len() {
        assert(chars.skip(i).drop_first() =~= chars.skip(i + 1));
        assert(chars.skip(i)[0] == chars[i]);
        lemma_scalar_bytes(chars[i]);
        assert(bytes[off] == encode_scalar(chars[i] as u32)[0]);
        assert(!is_char_boundary(bytes, off) ==> is_continuation_byte(bytes[off]));
    } else {
        assert(chars.take(i) =~= chars);
    }
}

/// The position at the offset where char `j` starts is the line and column
/// reached after the first `j` chars.
proof fn lemma_pos_at_char(text: &str, j: int)
    requires
        0 <= j <= text@.len(),
        text.spec_bytes().len() <= usize::MAX,
    ensures
        pos_spec(text, char_offset(text@, j)) == Some(
            (newline_count(text@.take(j)) as usize, column_after_last_newline(text@.take(j)) as usize),
        ),
{
    lemma_prefix_at_char(text@, j);
    assert(chars_before(text, char_offset(text@, j)) == text@.take(j));
}

/// No offset strictly inside char `i`'s encoding has a position.
proof fn lemma_inside_char(text: &str, i: int, k: int)
    requires
        0 <= i < text@.len(),
        char_offset(text@, i) < k < char_offset(text@, i) + encode_scalar(text@[i] as u32).len(),
    ensures
        pos_spec(text, k) is None,
{
    let chars = text@;
    let bytes = text.spec_bytes();
    let b = char_offset(chars, i);
    let e = encode_scalar(chars[i] as u32);
    lemma_prefix_at_char(chars, i);
    lemma_scalar_bytes(chars[i]);
    assert(bytes == encode_utf8(chars.take(i)) + (e + encode_utf8(chars.skip(i + 1))));
    assert(bytes[k] == e[k - b]);
    assert(is_continuation_byte(e[k - b]));
}

/// Stepping through `text` one char at a time: offset 0 is `(0, 0)`; the
/// offset where char `i` starts has a position; one char later the
/// position is one column to the right, or the start of the next line
/// after a `'\n'`; and every offset inside the char's encoding has none.
pub proof fn lemma_byte_to_pos_steps(text: &str, i: int)
    requires
        0 <= i < text@.len(),
        text.spec_bytes().len() <= usize::MAX,
    ensures
        pos_spec(text, 0) == Some((0usize, 0usize)),
        ({
            let chars = text@;
            let c = chars[i];
            let b = char_offset(chars, i);
            let b2 = char_offset(chars, i + 1);
            &&& b2 == b + encode_scalar(c as u32).len()
            &&& pos_spec(text, b) == Some(
                (newline_count(chars.take(i)) as usize, column_after_last_newline(chars.take(i)) as usize),
            )
            &&& pos_spec(text, b2) == Some(
                if c == '\n' {
                    ((newline_count(chars.take(i)) + 1) as usize, 0usize)
                } else {
                    (newline_count(chars.take(i)) as usize, (column_after_last_newline(chars.take(i)) + 1) as usize)
                },
            )
            &&& forall|k: int| b < k < b2 ==> (#[trigger] pos_spec(text, k)) is None
        }),
{
    let chars = text@;
    let c = chars[i];
    lemma_pos_at_char(text, 0);
    assert(chars.take(0) =~= Seq::<char>::empty());
    assert(char_offset(chars, 0) == 0);
    lemma_pos_at_char(text, i);
    lemma_pos_at_char(text, i + 1);
    assert(chars.take(i + 1) =~= chars.take(i) + seq![c]);
    lemma_encode_append(chars.take(i), seq![c]);
    assert(seq![c].drop_first() =~= Seq::<char>::empty());
    assert(encode_utf8(seq![c]) =~= encode_scalar(c as u32));
    assert(chars.take(i + 1).drop_last() =~= chars.take(i));
    assert(chars.take(i + 1).last() == c);
    assert forall|k: int| char_offset(chars, i) < k < char_offset(chars, i + 1) implies (#[trigger] pos_spec(text, k)) is None by {
        lemma_inside_char(text, i, k);
    }
}

/// Char-indexed `(line, col)` of byte offset `byte`; `None` (never a panic)
/// when the offset is out of range or not on a char boundary.
pub fn byte_to_pos(text: &str, byte: usize) -> (r: Option<(usize, usize)>)
    ensures
        r == pos_spec(text, byte as int),
{
    if byte > text.as_bytes().len() {
        return None;
    }
    if !text.is_char_boundary(byte) {
        assert(!is_char_boundary(text.spec_bytes(), byte as int));
        return None;
    }
    let (before, _rest) = text.split_at(byte);
    let ghost chars = before@;
    proof {
        assert(encode_utf8(chars) =~= text.spec_bytes().subrange(0, byte as int));
        assert(chars == chars_before(text, byte as int));
        lemma_encode_len(chars);
    }
    let mut line: usize = 0;
    let mut col: usize = 0;
    for c in iter: before.chars()
        invariant
            iter.seq() == chars,
            iter.index() <= chars.len(),
            line == newline_count(chars.take(iter.index() as int)),
            col == column_after_last_newline(chars.take(iter.index() as int)),
            chars.len() <= usize::MAX,
    {
        proof {
            let k = iter.index() as int;
            assert(chars.take(k + 1).drop_last() =~= chars.take(k));
            assert(chars.take(k + 1).last() == c);
            lemma_counts_bounded(chars.take(k));
        }
        if c == '\n' {
            line = line + 1;
            col = 0;
        } else {
            col = col + 1;
        }
    }
    assert(chars.take(chars.len() as int) =~= chars);
    Some((line, col))
}

/// A diagnostic's byte range mapped to the end-exclusive, char-indexed
/// `((line, col), (line, col))` span an editor decoration takes; `None` if
/// either end does not lie on `text`.
pub fn span_to_line_col(text: &str, span: &Range<usize>) -> (r: Option<((usize, usize), (usize, usize))>)
    ensures
        r == span_spec(text, *span),
{
    let start = match byte_to_pos(text, span.start) {
        Some(p) => p,
        None => return None,
    };
    let end = match byte_to_pos(text, span.end) {
        Some(p) => p,
        None => return None,
    };
    Some((start, end))
}

// ---------------------------------------------------------------------
// Diagnostic spans -> editor decorations
// ---------------------------------------------------------------------

/// One lint finding over an instructions text: its message, and the byte
/// range of `text` it points at (`None` for findings about the text as a
/// whole, such as an over-long prompt).
#[derive(Clone, Debug, PartialEq, Eq)]
pub struct Diagnostic {
    pub message: String,
    pub span: Option<Range<usize>>,
}

/// A tinted span in a text editor: end-exclusive, char-indexed
/// `((line, col), (line, col))`, painted with background `bg`.
#[derive(Clone, Copy, Debug, PartialEq, Eq)]
pub struct Decoration {
    pub span: ((usize, usize), (usize, usize)),
    pub bg: Color,
}

/// The decorations for a diagnostic list, each paired with the index of the
/// diagnostic it came from. A span-less or unmappable diagnostic contributes
/// no decoration, so a decoration's position is in general NOT its
/// diagnostic's index: `diagnostic_index` maps one back to the other.
#[derive(Clone, Debug, Default, PartialEq)]
pub struct DiagnosticDecorations {
    entries: Vec<(usize, Decoration)>,
}

/// The `(diagnostic index, decoration)` pairs for `diags`, in input order:
/// one for each diagnostic whose span maps onto `text`.
pub open spec fn decoration_entries(text: &str, diags: Seq<Diagnostic>, bg: Color) -> Seq<(usize, Decoration)>
    decreases diags.len(),
{
    if diags.len() == 0 {
        Seq::empty()
    } else {
        let prev = decoration_entries(text, diags.drop_last(), bg);
        let i = (diags.len() - 1) as usize;
        match diags.last().span {
            Some(r) => match span_spec(text, r) {
                Some(sp) => prev.push((i, Decoration { span: sp, bg })),
                None => prev,
            },
            None => prev,
        }
    }
}

/// Whether diagnostic `d` yields a decoration over `text`.
pub open spec fn has_decoration(text: &str, d: Diagnostic) -> bool {
    match d.span {
        Some(r) => span_spec(text, r) is Some,
        None => false,
    }
}

impl DiagnosticDecorations {
    pub closed spec fn entries_spec(&self) -> Seq<(usize, Decoration)> {
        self.entries@
    }

    /// The decoration list, in order; position `i` belongs to diagnostic
    /// `self.diagnostic_index(i)`.
    pub fn decorations(&self) -> (r: Vec<Decoration>)
        ensures
            r@.len() == self.entries_spec().len(),
            forall|k: int| 0 <= k < r@.len() ==> r@[k] == #[trigger] self.entries_spec()[k].1,
    {
        let mut out: Vec<Decoration> = Vec::new();
        let n = self.entries.len();
        for k in 0..n
            invariant
                n == self.entries@.len(),
                out@.len() == k,
                forall|j: int| 0 <= j < k ==> out@[j] == #[trigger] self.entries@[j].1,
        {
            out.push(self.entries[k].1);
        }
        out
    }

    /// The index, in the diagnostic list this was built from, of the
    /// diagnostic behind decoration `decoration_index`; `None` when out of
    /// range.
    pub fn diagnostic_index(&self, decoration_index: usize) -> (r: Option<usize>)
        ensures
            decoration_index < self.entries_spec().len() ==> r == Some(
                self.entries_spec()[decoration_index as int].0,
            ),
            decoration_index >= self.entries_spec().len() ==> r is None,
    {
        if decoration_index < self.entries.len() {
            Some(self.entries[decoration_index].0)
        } else {
            None
        }
    }
}

/// One decoration per diagnostic whose span maps onto `text`, in input
/// order, tinted `bg`. `text` must be the text the editor holds, or the
/// offsets desync.
pub fn decorations_for(text: &str, diagnostics: &[Diagnostic], bg: Color) -> (r: DiagnosticDecorations)
    ensures
        r.entries_spec() == decoration_entries(text, diagnostics@, bg),
{
    let mut entries: Vec<(usize, Decoration)> = Vec::new();
    let n = diagnostics.len();
    for i in 0..n
        invariant
            n == diagnostics@.len(),
            entries@ == decoration_entries(text, diagnostics@.take(i as int), bg),
    {
        proof {
            assert(diagnostics@.take(i + 1).drop_last() =~= diagnostics@.take(i as int));
        }
        let d = &diagnostics[i];
        match &d.span {
            Some(range) => match span_to_line_col(text, range) {
                Some(span) => entries.push((i, Decoration { span, bg })),
                None => {},
            },
            None => {},
        }
    }
    assert(diagnostics@.take(n as int) =~= diagnostics@);
    DiagnosticDecorations { entries }
}

/// Every decoration comes from a diagnostic with a mappable span, carries
/// exactly that span's `(line, col)` mapping, and the decorations keep the
/// diagnostics' order; conversely every diagnostic with a mappable span has
/// exactly one decoration.
pub proof fn lemma_decorations_track_diagnostics(text: &str, diags: Seq<Diagnostic>, bg: Color)
    requires
        diags.len() <= usize::MAX,
    ensures
        ({
            let e = decoration_entries(text, diags, bg);
            &&& forall|k: int| 0 <= k < e.len() ==> {
                let i = (#[trigger] e[k]).0 as int;
                &&& 0 <= i < diags.len()
                &&& has_decoration(text, diags[i])
                &&& e[k].1.bg == bg
                &&& Some(e[k].1.span) == span_spec(text, diags[i].span->0)
            }
            &&& forall|k1: int, k2: int| 0 <= k1 < k2 < e.len() ==> (#[trigger] e[k1]).0 < (#[trigger] e[k2]).0
            &&& forall|i: int| 0 <= i < diags.len() && has_decoration(text, #[trigger] diags[i])
                ==> exists|k: int| 0 <= k < e.len() && (#[trigger] e[k]).0 == i
        }),
    decreases diags.len(),
{
    if diags.len() > 0 {
        let prev = diags.drop_last();
        lemma_decorations_track_diagnostics(text, prev, bg);
        let e = decoration_entries(text, diags, bg);
        let ep = decoration_entries(text, prev, bg);
        assert forall|i: int| 0 <= i < diags.len() && has_decoration(text, #[trigger] diags[i])
            implies exists|k: int| 0 <= k < e.len() && (#[trigger] e[k]).0 == i by {
            if i < diags.len() - 1 {
                assert(prev[i] == diags[i]);
                let k = choose|k: int| 0 <= k < ep.len() && (#[trigger] ep[k]).0 == i;
                assert(e[k] == ep[k]);
            } else {
                assert(diags.last() == diags[i]);
                let r = diags[i].span->0;
                let sp = span_spec(text, r)->0;
                assert(e == ep.push(((diags.len() - 1) as usize, Decoration { span: sp, bg })));
                assert(e[e.len() - 1].0 == i);
            }
        }
        assert forall|k: int| 0 <= k < e.len() implies {
            let i = (#[trigger] e[k]).0 as int;
            &&& 0 <= i < diags.len()
            &&& has_decoration(text, diags[i])
            &&& e[k].1.bg == bg
            &&& Some(e[k].1.span) == span_spec(text, diags[i].span->0)
        } by {
            if k < ep.len() {
                assert(e[k] == ep[k]);
                assert(prev[ep[k].0 as int] == diags[ep[k].0 as int]);
            }
        }
        assert forall|k1: int, k2: int| 0 <= k1 < k2 < e.len() implies (#[trigger] e[k1]).0 < (#[trigger] e[k2]).0 by {
            if k2 < ep.len() {
                assert(e[k1] == ep[k1]);
                assert(e[k2] == ep[k2]);
            } else {
                assert(e[k1] == ep[k1]);
            }
        }
    }
}

} // verus!
