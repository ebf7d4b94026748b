//! The details panel's text: the stamina / exhaustion status line, the
//! ability list's lines, and the Edit button's geometry.

use vstd::prelude::*;

use crate::dots::DotRect;
use crate::geometry::{sat_sub, Rect};
use crate::text::{decimal, push_decimal};

verus! {

/// Seconds per day, for whole days of recovery remaining.
pub const SECS_PER_DAY: u64 = 86400;

/// Whole days needed to cover `secs` seconds (rounded up).
pub open spec fn days_remaining(secs: nat) -> nat {
    ((secs + SECS_PER_DAY - 1) / SECS_PER_DAY as int) as nat
}

fn days_ceil(secs: u64) -> (d: u64)
    ensures
        d == days_remaining(secs as nat),
{
    let q = secs / SECS_PER_DAY;
    if secs % SECS_PER_DAY == 0 { q } else { q + 1 }
}

pub open spec fn exhausted_text_spec(secs: nat) -> Seq<char> {
    seq!['E', 'x', 'h', 'a', 'u', 's', 't', 'e', 'd', ':', ' '] + decimal(days_remaining(secs))
        + seq![' ', 'd', 'a', 'y', 's', ' ', 'r', 'e', 'm', 'a', 'i', 'n']
}

fn exhausted_text(secs: u64) -> (s: String)
    ensures
        s@ == exhausted_text_spec(secs as nat),
{
    let days = days_ceil(secs);
    proof { reveal_strlit("Exhausted: "); reveal_strlit(" days remain"); }
    let mut s = String::from_str("Exhausted: ");
    push_decimal(&mut s, days);
    s.append(" days remain");
    assert(s@ =~= exhausted_text_spec(secs as nat));
    s
}

pub open spec fn stamina_text_spec(injured_remaining_secs: Option<u64>, percent: nat) -> Seq<char> {
    match injured_remaining_secs {
        Some(secs) => exhausted_text_spec(secs as nat),
        None => seq!['S', 't', 'a', 'm', 'i', 'n', 'a', ':', ' '] + decimal(percent) + seq!['%'],
    }
}

/// The stamina status line: `"Exhausted: {days} days remain"` while
/// injured (days rounded up from the remaining recovery time), else
/// `"Stamina: {percent}%"`.
pub fn stamina_text(injured_remaining_secs: Option<u64>, percent: u64) -> (s: String)
    ensures
        s@ == stamina_text_spec(injured_remaining_secs, percent as nat),
{
    match injured_remaining_secs {
        Some(secs) => exhausted_text(secs),
        None => {
            proof { reveal_strlit("Stamina: "); reveal_strlit("%"); }
            let mut s = String::from_str("Stamina: ");
            push_decimal(&mut s, percent);
            s.append("%");
            assert(s@ =~= stamina_text_spec(injured_remaining_secs, percent as nat));
            s
        },
    }
}

pub open spec fn stamina_row_label_spec(injured_remaining_secs: Option<u64>) -> Seq<char> {
    match injured_remaining_secs {
        Some(secs) => exhausted_text_spec(secs as nat),
        None => seq!['S', 't', 'a', 'm', 'i', 'n', 'a'],
    }
}

/// The label at the left of the stamina row: the bare word `"Stamina"`
/// for a rested creature, the days-remain line while injured.
pub fn stamina_row_label(injured_remaining_secs: Option<u64>) -> (s: String)
    ensures
        s@ == stamina_row_label_spec(injured_remaining_secs),
{
    match injured_remaining_secs {
        Some(secs) => exhausted_text(secs),
        None => {
            proof { reveal_strlit("Stamina"); }
            String::from_str("Stamina")
        },
    }
}

/// The day count covers the whole remaining time, and by less than a day.
pub proof fn lemma_days_cover(secs: nat)
    ensures
        days_remaining(secs) * SECS_PER_DAY >= secs,
        secs > 0 ==> (days_remaining(secs) - 1) * SECS_PER_DAY < secs,
        secs == 0 ==> days_remaining(secs) == 0,
{
    let d = days_remaining(secs) as int;
    let s = secs as int;
    assert(d * 86400 >= s && (s > 0 ==> (d - 1) * 86400 < s)) by (nonlinear_arith)
        requires d == (s + 86399) / 86400, s >= 0;
}

pub open spec fn level_text_spec(level: nat) -> Seq<char> {
    seq!['L', 'V', 'L', ' '] + decimal(level)
}

/// The level line under the name: `"LVL {level}"`.
pub fn level_text(level: u32) -> (s: String)
    ensures
        s@ == level_text_spec(level as nat),
{
    proof { reveal_strlit("LVL "); }
    let mut s = String::from_str("LVL ");
    push_decimal(&mut s, level as u64);
    assert(s@ =~= level_text_spec(level as nat));
    s
}

// ---------------------------------------------------------------------
// Ability list
// ---------------------------------------------------------------------

/// An ability as the details panel shows it.
#[derive(Clone, Debug, PartialEq, Eq)]
pub struct Ability {
    pub description: String,
}

/// Cells of the ability grid, in reading order (top left, top right,
/// bottom left, bottom right).
pub const ABILITY_GRID_CELLS: usize = 4;

/// The text of ability grid cell `i`: the `i`-th ability's description, or
/// nothing (a blank cell) when there are fewer abilities.
pub open spec fn ability_cell_spec(abilities: Seq<Ability>, i: int) -> Option<Seq<char>> {
    if i < abilities.len() { Some(abilities[i].description@) } else { None }
}

/// The texts of the four ability grid cells (see `ability_cell_spec`);
/// abilities past the fourth are not shown.
pub fn ability_cell_texts(abilities: &[Ability]) -> (r: Vec<Option<String>>)
    ensures
        r@.len() == ABILITY_GRID_CELLS,
        forall|i: int| 0 <= i < ABILITY_GRID_CELLS ==> (match #[trigger] r@[i] {
            Some(t) => ability_cell_spec(abilities@, i) == Some(t@),
            None => ability_cell_spec(abilities@, i) is None,
        }),
{
    let mut out: Vec<Option<String>> = Vec::new();
    for i in 0..ABILITY_GRID_CELLS
        invariant
            out@.len() == i,
            forall|j: int| 0 <= j < i ==> (match #[trigger] out@[j] {
                Some(t) => ability_cell_spec(abilities@, j) == Some(t@),
                None => ability_cell_spec(abilities@, j) is None,
            }),
    {
        if i < abilities.len() {
            let t = abilities[i].description.clone();
            proof { assert(t@ == abilities@[i as int].description@); }
            out.push(Some(t));
        } else {
            out.push(None);
        }
    }
    out
}

// ---------------------------------------------------------------------
// Edit button
// ---------------------------------------------------------------------

/// Height, in dots, of the Edit button's outline box.
pub const EDIT_BOX_H_DOTS: i32 = 6;

/// The Edit button's drawing geometry for its cell region `cr`: the
/// outline box (`None` for an empty region), a 6-dot box hugging the
/// label row, starting 3 dots into the region; and the label rect, the
/// region minus one border column on each side.
pub fn edit_button_geometry(cr: Rect) -> (r: (Option<DotRect>, Rect))
    requires
        cr.x < u16::MAX,
    ensures
        r.0 == (if cr.width == 0 || cr.height == 0 {
            None
        } else {
            Some(DotRect { x: (cr.x * 2) as i32, y: (cr.y * 4 + 3) as i32, w: (cr.width * 2) as i32, h: EDIT_BOX_H_DOTS })
        }),
        r.1 == (Rect { x: (cr.x + 1) as u16, y: cr.y, width: sat_sub(cr.width as int, 2) as u16, height: cr.height }),
{
    let label_rect = Rect { x: cr.x + 1, y: cr.y, width: cr.width.saturating_sub(2), height: cr.height };
    if cr.width == 0 || cr.height == 0 {
        return (None, label_rect);
    }
    let outline = DotRect { x: cr.x as i32 * 2, y: cr.y as i32 * 4 + 3, w: cr.width as i32 * 2, h: EDIT_BOX_H_DOTS };
    (Some(outline), label_rect)
}

} // verus!
