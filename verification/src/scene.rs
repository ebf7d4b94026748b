//! The roster carousel's state machine: which creature is shown, the
//! in-flight slide between two roster positions, select-and-swap of two
//! creatures, the hover state of the details panel's hit targets, and the
//! routing of key/mouse input into those transitions.
//!
//! Time is kept as a nanosecond count (`u128`), which holds every
//! `std::time::Duration` exactly; `DURATION_MAX_NANOS` is the largest one.
//! Drawing, file I/O and the text editors live with the caller, who hands in
//! what they produced (button hits, the current creature's ability count,
//! freshly laid-out hit rects) and performs the effects handed back.

use vstd::prelude::*;

use vstd::arithmetic::div_mod::lemma_small_mod;

use crate::geometry::{Position, Rect};
use crate::popup::{flush_spec, key_route_spec, toggled, KeyRoute, PopupKey, PopupState};

verus! {

/// Duration of the slide between two roster positions (300 ms).
pub const SLIDE_DUR_NANOS: u128 = 300_000_000;

/// Each half-cycle of the selected dot's blink (400 ms).
pub const BLINK_PERIOD_MILLIS: u128 = 400;

/// Nanoseconds per millisecond.
pub const NANOS_PER_MILLI: u128 = 1_000_000;

/// The largest representable duration, in nanoseconds (`u64::MAX` seconds
/// plus 999 999 999 ns).
pub const DURATION_MAX_NANOS: u128 = 18_446_744_073_709_551_615_999_999_999;

/// Number of ability cells in the details panel's grid.
pub const ABILITY_CELLS: usize = 4;

/// Direction of carousel travel.
#[derive(Clone, Copy, Debug, PartialEq, Eq, Structural)]
pub enum Direction {
    Left,
    Right,
}

/// An in-flight slide: the roster position that is leaving, the direction
/// of travel, and the clock value at which the slide began.
#[derive(Clone, Copy, Debug, PartialEq, Eq, Structural)]
pub struct Slide {
    pub prev_index: usize,
    pub dir: Direction,
    pub start: u128,
}

/// A key press, as far as the roster screen distinguishes keys.
#[derive(Clone, Copy, Debug, PartialEq, Eq, Structural)]
pub enum Key {
    Left,
    Right,
    Space,
    Other,
}

/// One mouse event, already hit-tested by the screen's buttons: which
/// buttons report a completed click, and where the cursor moved to if the
/// event was a move.
#[derive(Clone, Copy, Debug, PartialEq, Eq, Structural)]
pub struct MouseHits {
    pub left: bool,
    pub right: bool,
    pub home: bool,
    pub dot: bool,
    pub edit: bool,
    pub hatchery: bool,
    pub moved_to: Option<Position>,
}

#[derive(Clone, Copy, Debug, PartialEq, Eq, Structural)]
pub enum InputEvent {
    Key(Key),
    Mouse(MouseHits),
}

/// Another screen to switch to.
#[derive(Clone, Copy, Debug, PartialEq, Eq, Structural)]
pub enum SceneTarget {
    MainHub,
    Hatchery,
}

/// What the caller must do after an input event.
#[derive(Clone, Copy, Debug, PartialEq, Eq, Structural)]
pub struct InputEffects {
    /// The prompt editor is open: the event belongs to it, and nothing on
    /// the roster screen changed.
    pub to_editor: bool,
    /// Switch to this screen.
    pub transition: Option<SceneTarget>,
    /// Two creatures were swapped: reload the current creature's
    /// instructions and persist the roster.
    pub roster_changed: bool,
    /// Open the prompt editor on the current creature.
    pub open_editor: bool,
}

pub open spec fn no_effects() -> InputEffects {
    InputEffects { to_editor: false, transition: None, roster_changed: false, open_editor: false }
}

/// The roster screen's state, in mathematical form.
pub struct RosterView<C> {
    pub current_index: usize,
    pub creatures: Seq<C>,
    pub elapsed: u128,
    pub slide: Option<Slide>,
    pub selected_index: Option<usize>,
    pub editor_open: bool,
    pub hovered_ability: Option<usize>,
    pub ability_hit_rects: Seq<Option<Rect>>,
    pub badge_hit_rect: Option<Rect>,
    pub hovered_badge: bool,
}

/// The roster carousel over creatures of type `C`.
pub struct RosterManager<C> {
    current_index: usize,
    creatures: Vec<C>,
    elapsed: u128,
    slide: Option<Slide>,
    selected_index: Option<usize>,
    editor_open: bool,
    hovered_ability: Option<usize>,
    ability_hit_rects: [Option<Rect>; 4],
    badge_hit_rect: Option<Rect>,
    hovered_badge: bool,
}

impl<C> View for RosterManager<C> {
    type V = RosterView<C>;

    closed spec fn view(&self) -> RosterView<C> {
        RosterView {
            current_index: self.current_index,
            creatures: self.creatures@,
            elapsed: self.elapsed,
            slide: self.slide,
            selected_index: self.selected_index,
            editor_open: self.editor_open,
            hovered_ability: self.hovered_ability,
            ability_hit_rects: self.ability_hit_rects@,
            badge_hit_rect: self.badge_hit_rect,
            hovered_badge: self.hovered_badge,
        }
    }
}

// ---------------------------------------------------------------------
// The state machine, as spec functions over `RosterView`
// ---------------------------------------------------------------------

/// The roster position one step from `i` in direction `dir`, wrapping
/// around a roster of `n` creatures.
pub open spec fn step_index(i: int, dir: Direction, n: int) -> int {
    match dir {
        Direction::Right => (i + 1) % n,
        Direction::Left => (i + n - 1) % n,
    }
}

impl<C> RosterView<C> {
    /// The state's internal consistency: a non-empty roster, every stored
    /// index in range, four ability hit rects, and a clock no later than the
    /// largest duration.
    pub open spec fn wf(self) -> bool {
        &&& self.creatures.len() > 0
        &&& self.creatures.len() <= usize::MAX
        &&& self.current_index < self.creatures.len()
        &&& (self.selected_index matches Some(s) ==> s < self.creatures.len())
        &&& (self.slide matches Some(s) ==> s.prev_index < self.creatures.len() && s.start <= self.elapsed)
        &&& self.ability_hit_rects.len() == ABILITY_CELLS
        &&& self.elapsed <= DURATION_MAX_NANOS
    }

    /// The slide still in flight: one that began less than
    /// `SLIDE_DUR_NANOS` ago. A finished slide counts as none even before
    /// `update` clears it.
    pub open spec fn active_slide(self) -> Option<Slide> {
        match self.slide {
            Some(s) => if self.elapsed - s.start < SLIDE_DUR_NANOS { Some(s) } else { None },
            None => None,
        }
    }

    /// Navigation: ignored while a slide is in flight; otherwise moves one
    /// position (wrapping) and starts a slide away from the old position.
    pub open spec fn navigate(self, dir: Direction) -> RosterView<C> {
        if self.active_slide() is Some {
            self
        } else {
            RosterView {
                current_index: step_index(self.current_index as int, dir, self.creatures.len() as int) as usize,
                slide: Some(Slide { prev_index: self.current_index, dir, start: self.elapsed }),
                ..self
            }
        }
    }

    /// The Space / current-dot action: select the current creature when
    /// nothing is selected; cancel when the current creature is the selected
    /// one; otherwise swap the selected creature with the current one and
    /// clear the selection.
    pub open spec fn toggle_selection(self) -> RosterView<C> {
        match self.selected_index {
            None => RosterView { selected_index: Some(self.current_index), ..self },
            Some(sel) => if sel == self.current_index {
                RosterView { selected_index: None, ..self }
            } else {
                RosterView {
                    creatures: self.creatures
                        .update(sel as int, self.creatures[self.current_index as int])
                        .update(self.current_index as int, self.creatures[sel as int]),
                    selected_index: None,
                    ..self
                }
            },
        }
    }

    /// Whether `toggle_selection` swaps two creatures in this state.
    pub open spec fn toggle_swaps(self) -> bool {
        self.selected_index matches Some(sel) && sel != self.current_index
    }

    /// Advancing the clock by `dt`: a slide that has run its full duration
    /// is cleared.
    pub open spec fn update(self, dt: u128) -> RosterView<C> {
        let elapsed = (self.elapsed + dt) as u128;
        match self.slide {
            Some(s) => if elapsed - s.start >= SLIDE_DUR_NANOS {
                RosterView { elapsed, slide: None, ..self }
            } else {
                RosterView { elapsed, ..self }
            },
            None => RosterView { elapsed, ..self },
        }
    }

    /// Whether `update(dt)` settles a slide (the caller then reloads the
    /// now-current creature's instructions).
    pub open spec fn update_settles(self, dt: u128) -> bool {
        self.slide matches Some(s) && self.elapsed + dt - s.start >= SLIDE_DUR_NANOS
    }

    /// The hover state after the cursor moved to `p`.
    pub open spec fn hover(self, p: Position) -> RosterView<C> {
        RosterView {
            hovered_ability: first_hit(self.ability_hit_rects, p, 0),
            hovered_badge: self.badge_hit_rect matches Some(r) && r.contains_spec(p),
            ..self
        }
    }

    /// A mouse event, in the order the screen reacts to it: hover first;
    /// then Home or Hatchery switch screens and end the event; otherwise
    /// right, left, the current dot and Edit act in that order.
    pub open spec fn mouse(self, m: MouseHits) -> RosterView<C> {
        let s0 = match m.moved_to {
            Some(p) => self.hover(p),
            None => self,
        };
        if m.home || m.hatchery {
            s0
        } else {
            let s1 = if m.right { s0.navigate(Direction::Right) } else { s0 };
            let s2 = if m.left { s1.navigate(Direction::Left) } else { s1 };
            let s3 = if m.dot { s2.toggle_selection() } else { s2 };
            if m.edit { RosterView { editor_open: true, ..s3 } } else { s3 }
        }
    }

    pub open spec fn mouse_effects(self, m: MouseHits) -> InputEffects {
        let s0 = match m.moved_to {
            Some(p) => self.hover(p),
            None => self,
        };
        if m.home {
            InputEffects { transition: Some(SceneTarget::MainHub), ..no_effects() }
        } else if m.hatchery {
            InputEffects { transition: Some(SceneTarget::Hatchery), ..no_effects() }
        } else {
            let s1 = if m.right { s0.navigate(Direction::Right) } else { s0 };
            let s2 = if m.left { s1.navigate(Direction::Left) } else { s1 };
            InputEffects {
                roster_changed: m.dot && s2.toggle_swaps(),
                open_editor: m.edit,
                ..no_effects()
            }
        }
    }

    pub open spec fn key(self, k: Key) -> RosterView<C> {
        match k {
            Key::Left => self.navigate(Direction::Left),
            Key::Right => self.navigate(Direction::Right),
            Key::Space => self.toggle_selection(),
            Key::Other => self,
        }
    }

    pub open spec fn key_effects(self, k: Key) -> InputEffects {
        match k {
            Key::Space => InputEffects { roster_changed: self.toggle_swaps(), ..no_effects() },
            _ => no_effects(),
        }
    }

    /// An input event: everything goes to the prompt editor while it is
    /// open; otherwise keys and mouse events act as above.
    pub open spec fn input(self, ev: InputEvent) -> RosterView<C> {
        if self.editor_open {
            self
        } else {
            match ev {
                InputEvent::Key(k) => self.key(k),
                InputEvent::Mouse(m) => self.mouse(m),
            }
        }
    }

    pub open spec fn input_effects(self, ev: InputEvent) -> InputEffects {
        if self.editor_open {
            InputEffects { to_editor: true, ..no_effects() }
        } else {
            match ev {
                InputEvent::Key(k) => self.key_effects(k),
                InputEvent::Mouse(m) => self.mouse_effects(m),
            }
        }
    }

    /// Whether the selected dot paints filled: it blinks, holding each
    /// state for `BLINK_PERIOD_MILLIS` of the clock.
    pub open spec fn blink_on(self) -> bool {
        blink_on_at(self.elapsed as int)
    }

    /// Whether dot `i` of the dot row paints filled: the selected dot
    /// blinks; every other dot is filled exactly when it is the current
    /// position.
    pub open spec fn dot_filled(self, i: int) -> bool {
        if self.selected_index == Some(i as usize) && 0 <= i <= usize::MAX {
            self.blink_on()
        } else {
            i == self.current_index
        }
    }

    /// The hit rects a frame leaves behind. At rest: the ability cells of
    /// the current creature's populated abilities (the first
    /// `ability_count` of the grid) and the drawn badge, if any. During a
    /// slide the details panel is not drawn, so nothing is hit-testable.
    pub open spec fn refresh_hit_rects(self, cells: Seq<Rect>, ability_count: int, badge: Option<Rect>) -> RosterView<C> {
        if self.active_slide() is Some {
            RosterView {
                ability_hit_rects: Seq::new(ABILITY_CELLS as nat, |i: int| None::<Rect>),
                badge_hit_rect: None,
                ..self
            }
        } else {
            RosterView {
                ability_hit_rects: Seq::new(
                    ABILITY_CELLS as nat,
                    |i: int| if i < ability_count { Some(cells[i]) } else { None },
                ),
                badge_hit_rect: badge,
                ..self
            }
        }
    }

    /// The ability whose tooltip is shown: the hovered one, only while no
    /// editor is open, no slide is in flight, and it is one of the current
    /// creature's `ability_count` abilities.
    pub open spec fn tooltip_ability(self, ability_count: int) -> Option<usize> {
        if !self.editor_open && self.active_slide() is None {
            match self.hovered_ability {
                Some(i) => if (i as int) < ability_count { Some(i) } else { None },
                None => None,
            }
        } else {
            None
        }
    }

    /// The badge the warning card hangs from: shown only while the badge is
    /// hovered, no editor is open and no slide is in flight.
    pub open spec fn warning_card_anchor(self) -> Option<Rect> {
        if !self.editor_open && self.active_slide() is None && self.hovered_badge {
            self.badge_hit_rect
        } else {
            None
        }
    }
}

/// Whether the blinking dot paints filled at clock value `t` (ns).
pub open spec fn blink_on_at(t: int) -> bool {
    (t / NANOS_PER_MILLI as int / BLINK_PERIOD_MILLIS as int) % 2 == 0
}

/// The first index at or after `i` whose rect is present and contains `p`.
pub open spec fn first_hit(rects: Seq<Option<Rect>>, p: Position, i: int) -> Option<usize>
    decreases rects.len() - i,
{
    if i < 0 || i >= rects.len() {
        None
    } else if rects[i] matches Some(r) && r.contains_spec(p) {
        Some(i as usize)
    } else {
        first_hit(rects, p, i + 1)
    }
}

/// One step from position `i` stays inside a roster of `n`, and a step
/// left is the position just before `i` (wrapping to the end).
pub proof fn lemma_step_index_in_range(i: int, dir: Direction, n: int)
    requires
        0 <= i < n,
    ensures
        0 <= step_index(i, dir, n) < n,
        dir == Direction::Left ==> step_index(i, dir, n) == if i == 0 { n - 1 } else { i - 1 },
        dir == Direction::Right ==> step_index(i, dir, n) == if i + 1 == n { 0 } else { i + 1 },
{
    if i == 0 {
        lemma_small_mod((n - 1) as nat, n as nat);
    } else {
        assert((i + n - 1) % n == i - 1) by (nonlinear_arith)
            requires 0 < i < n;
    }
    if i + 1 < n {
        lemma_small_mod((i + 1) as nat, n as nat);
    }
}


// ---------------------------------------------------------------------
// Laws of the roster state machine
// ---------------------------------------------------------------------

pub open spec fn opposite(dir: Direction) -> Direction {
    match dir {
        Direction::Left => Direction::Right,
        Direction::Right => Direction::Left,
    }
}

/// Every transition keeps the state consistent: navigation, selection,
/// clock ticks, hovering and input routing never leave an index out of
/// range or empty the roster.
pub proof fn lemma_transitions_preserve_wf<C>(v: RosterView<C>, dir: Direction, dt: u128, p: Position, ev: InputEvent)
    requires
        v.wf(),
    ensures
        v.navigate(dir).wf(),
        v.toggle_selection().wf(),
        v.elapsed + dt <= DURATION_MAX_NANOS ==> v.update(dt).wf(),
        v.hover(p).wf(),
        v.input(ev).wf(),
{
    lemma_navigate_wf(v, dir);
    lemma_hover_wf(v, p);
    match ev {
        InputEvent::Key(_) => {
            lemma_navigate_wf(v, Direction::Left);
            lemma_navigate_wf(v, Direction::Right);
        },
        InputEvent::Mouse(m) => {
            let s0 = match m.moved_to {
                Some(q) => v.hover(q),
                None => v,
            };
            lemma_hover_wf(v, if m.moved_to is Some { m.moved_to->0 } else { p });
            lemma_navigate_wf(s0, Direction::Right);
            let s1 = if m.right { s0.navigate(Direction::Right) } else { s0 };
            lemma_navigate_wf(s1, Direction::Left);
        },
    }
}

proof fn lemma_navigate_wf<C>(v: RosterView<C>, dir: Direction)
    requires
        v.wf(),
    ensures
        v.navigate(dir).wf(),
{
    lemma_step_index_in_range(v.current_index as int, dir, v.creatures.len() as int);
}

proof fn lemma_hover_wf<C>(v: RosterView<C>, p: Position)
    requires
        v.wf(),
    ensures
        v.hover(p).wf(),
{
}

/// Carousel wraparound: a step in one direction followed, once its slide
/// has settled, by a step in the opposite direction returns to the same
/// creature.
pub proof fn lemma_navigate_round_trip<C>(v: RosterView<C>, dir: Direction, dt: u128)
    requires
        v.wf(),
        v.active_slide() is None,
        dt >= SLIDE_DUR_NANOS,
        v.elapsed + dt <= DURATION_MAX_NANOS,
    ensures
        v.navigate(dir).update(dt).navigate(opposite(dir)).current_index == v.current_index,
        v.navigate(dir).update(dt).active_slide() is None,
{
    let n = v.creatures.len() as int;
    let i = v.current_index as int;
    lemma_step_index_in_range(i, dir, n);
    let j = step_index(i, dir, n);
    lemma_step_index_in_range(j, opposite(dir), n);
}

/// A navigation fired while a slide is in flight is ignored entirely.
pub proof fn lemma_navigate_ignored_during_slide<C>(v: RosterView<C>, dir: Direction)
    requires
        v.active_slide() is Some,
    ensures
        v.navigate(dir) == v,
{
}

/// A navigation at rest moves to the neighbouring position and starts a
/// slide that is in flight immediately and settles after exactly
/// `SLIDE_DUR_NANOS`.
pub proof fn lemma_navigate_starts_slide<C>(v: RosterView<C>, dir: Direction, dt: u128)
    requires
        v.wf(),
        v.active_slide() is None,
        v.elapsed + dt <= DURATION_MAX_NANOS,
    ensures
        v.navigate(dir).active_slide() == Some(Slide { prev_index: v.current_index, dir, start: v.elapsed }),
        v.navigate(dir).update_settles(dt) <==> dt >= SLIDE_DUR_NANOS,
        (v.navigate(dir).update(dt).active_slide() is None) <==> dt >= SLIDE_DUR_NANOS,
{
}

/// Selecting and then pressing again on the same creature (without
/// navigating) cancels the selection and leaves everything else as it was.
pub proof fn lemma_select_then_cancel<C>(v: RosterView<C>)
    requires
        v.selected_index is None,
    ensures
        v.toggle_selection().selected_index == Some(v.current_index),
        v.toggle_selection().toggle_selection() == v,
{
}

/// A swap exchanges exactly the selected and the current creature, keeps
/// the roster's length, and keeps the same creatures (as a multiset).
pub proof fn lemma_swap_is_permutation<C>(v: RosterView<C>)
    requires
        v.wf(),
        v.toggle_swaps(),
    ensures
        ({
            let w = v.toggle_selection();
            let sel = v.selected_index->0 as int;
            let cur = v.current_index as int;
            &&& w.creatures.len() == v.creatures.len()
            &&& w.creatures[sel] == v.creatures[cur]
            &&& w.creatures[cur] == v.creatures[sel]
            &&& forall|k: int| 0 <= k < v.creatures.len() && k != sel && k != cur
                ==> #[trigger] w.creatures[k] == v.creatures[k]
            &&& w.creatures.to_multiset() == v.creatures.to_multiset()
            &&& w.selected_index is None
            &&& w.current_index == v.current_index
        }),
{
    broadcast use vstd::seq_lib::to_multiset_update;
    let s = v.creatures;
    let a = v.selected_index->0 as int;
    let b = v.current_index as int;
    let s1 = s.update(a, s[b]);
    let s2 = s1.update(b, s[a]);
    assert(s1[b] == s[b]);
    assert(s1.to_multiset() == s.to_multiset().insert(s[b]).remove(s[a]));
    assert(s2.to_multiset() == s1.to_multiset().insert(s[a]).remove(s[b]));
    s.to_multiset_ensures();
    assert(s.to_multiset().count(s[a]) > 0) by {
        assert(s.contains(s[a]));
    }
    assert(s2.to_multiset() =~= s.to_multiset());
}

/// The selected dot blinks: its filled state flips every
/// `BLINK_PERIOD_MILLIS` of the clock.
pub proof fn lemma_blink_alternates(t: int)
    requires
        t >= 0,
    ensures
        blink_on_at(t + BLINK_PERIOD_MILLIS * NANOS_PER_MILLI) != blink_on_at(t),
{
    let t2 = t + 400_000_000;
    assert(t2 / 1_000_000 == t / 1_000_000 + 400) by (nonlinear_arith)
        requires t2 == t + 400_000_000, t >= 0;
    let m = t / 1_000_000;
    assert((m + 400) / 400 == m / 400 + 1) by (nonlinear_arith)
        requires m >= 0;
}

/// Hovering picks the first populated ability hit rect under the cursor:
/// that rect contains the cursor and no earlier one does; no hover means no
/// populated rect contains it.
pub proof fn lemma_hover_picks_first_hit(rects: Seq<Option<Rect>>, p: Position)
    requires
        rects.len() <= usize::MAX,
    ensures
        (first_hit(rects, p, 0) matches Some(i) ==> {
            &&& i < rects.len()
            &&& (rects[i as int] matches Some(r) && r.contains_spec(p))
            &&& forall|j: int| 0 <= j < i ==> !(#[trigger] rects[j] matches Some(r) && r.contains_spec(p))
        }),
        (first_hit(rects, p, 0) is None ==> forall|j: int|
            0 <= j < rects.len() ==> !(#[trigger] rects[j] matches Some(r) && r.contains_spec(p))),
{
    lemma_first_hit_from(rects, p, 0);
}

proof fn lemma_first_hit_from(rects: Seq<Option<Rect>>, p: Position, i: int)
    requires
        0 <= i <= rects.len(),
        rects.len() <= usize::MAX,
    ensures
        (first_hit(rects, p, i) matches Some(k) ==> {
            &&& i <= k < rects.len()
            &&& (rects[k as int] matches Some(r) && r.contains_spec(p))
            &&& forall|j: int| i <= j < k ==> !(#[trigger] rects[j] matches Some(r) && r.contains_spec(p))
        }),
        (first_hit(rects, p, i) is None ==> forall|j: int|
            i <= j < rects.len() ==> !(#[trigger] rects[j] matches Some(r) && r.contains_spec(p))),
    decreases rects.len() - i,
{
    if i < rects.len() {
        lemma_first_hit_from(rects, p, i + 1);
    }
}

/// With nothing selected, exactly one dot is filled: the current position's.
/// With a selection, every dot but the selected one is filled exactly when
/// it is the current position.
pub proof fn lemma_filled_dot_follows_current<C>(v: RosterView<C>, i: int)
    requires
        0 <= i <= usize::MAX,
    ensures
        v.selected_index is None ==> (v.dot_filled(i) <==> i == v.current_index),
        v.selected_index != Some(i as usize) ==> (v.dot_filled(i) <==> i == v.current_index),
        v.selected_index == Some(i as usize) ==> v.dot_filled(i) == v.blink_on(),
{
}

/// A mouse event that only clicks the current position's dot.
pub open spec fn dot_click() -> MouseHits {
    MouseHits { left: false, right: false, home: false, dot: true, edit: false, hatchery: false, moved_to: None }
}

/// Space and a click on the current dot do the same thing. With nothing
/// selected they select the current creature; pressed again on the
/// selected creature they cancel the selection; pressed on another
/// creature they exchange the selected creature and the current one
/// (nothing else moves, the position stays) and clear the selection, and
/// exactly then the caller is told the roster changed (to reload and save).
pub proof fn lemma_select_and_swap<C>(v: RosterView<C>, ev: InputEvent)
    requires
        v.wf(),
        !v.editor_open,
        ev == InputEvent::Key(Key::Space) || ev == InputEvent::Mouse(dot_click()),
    ensures
        ({
            let w = v.input(ev);
            let e = v.input_effects(ev);
            &&& w.current_index == v.current_index
            &&& w.slide == v.slide && w.elapsed == v.elapsed && !w.editor_open
            &&& w.creatures.len() == v.creatures.len()
            &&& e.transition is None && !e.open_editor && !e.to_editor
            &&& v.selected_index is None ==> {
                &&& w.selected_index == Some(v.current_index)
                &&& w.creatures == v.creatures
                &&& !e.roster_changed
            }
            &&& v.selected_index == Some(v.current_index) ==> {
                &&& w.selected_index is None
                &&& w.creatures == v.creatures
                &&& !e.roster_changed
            }
            &&& forall|a: usize| v.selected_index == Some(a) && a != v.current_index ==> {
                &&& w.selected_index is None
                &&& e.roster_changed
                &&& w.creatures[a as int] == v.creatures[v.current_index as int]
                &&& w.creatures[v.current_index as int] == v.creatures[a as int]
                &&& forall|j: int| 0 <= j < v.creatures.len() && j != a && j != v.current_index
                    ==> #[trigger] w.creatures[j] == v.creatures[j]
            }
        }),
        v.input(InputEvent::Mouse(dot_click())) == v.input(InputEvent::Key(Key::Space)),
        v.input_effects(InputEvent::Mouse(dot_click())) == v.input_effects(InputEvent::Key(Key::Space)),
{
}

/// The arrow keys and the arrow buttons move the same way. At rest (editor
/// closed, no slide in flight) Right moves to the next creature, wrapping
/// from the last to the first, and Left to the previous one, wrapping from
/// the first to the last; a slide starts from the old position, and the
/// roster itself is untouched. During a slide neither moves.
pub proof fn lemma_arrows_step_the_carousel<C>(v: RosterView<C>, right: bool)
    requires
        v.wf(),
        !v.editor_open,
    ensures
        ({
            let key = if right { Key::Right } else { Key::Left };
            let hits = MouseHits { right: right, left: !right, ..dot_click() };
            let click = MouseHits { dot: false, ..hits };
            let w = v.input(InputEvent::Key(key));
            let n = v.creatures.len() as int;
            let i = v.current_index as int;
            &&& v.input(InputEvent::Mouse(click)) == w
            &&& v.input_effects(InputEvent::Mouse(click)) == v.input_effects(InputEvent::Key(key))
            &&& !v.input_effects(InputEvent::Key(key)).roster_changed
            &&& w.creatures == v.creatures && w.selected_index == v.selected_index
            &&& v.active_slide() is None ==> {
                &&& right ==> w.current_index == (if i + 1 < n { i + 1 } else { 0 })
                &&& !right ==> w.current_index == (if i == 0 { n - 1 } else { i - 1 })
                &&& w.slide == Some(Slide { prev_index: v.current_index, dir: if right { Direction::Right } else { Direction::Left }, start: v.elapsed })
            }
            &&& v.active_slide() is Some ==> w == v
        }),
{
    let n = v.creatures.len() as int;
    let i = v.current_index as int;
    if i + 1 < n {
        vstd::arithmetic::div_mod::lemma_small_mod((i + 1) as nat, n as nat);
    } else {
        vstd::arithmetic::div_mod::lemma_mod_self_0(n);
    }
    if i > 0 {
        vstd::arithmetic::div_mod::lemma_mod_add_multiples_vanish(i - 1, n);
        vstd::arithmetic::div_mod::lemma_small_mod((i - 1) as nat, n as nat);
    } else {
        vstd::arithmetic::div_mod::lemma_small_mod((n - 1) as nat, n as nat);
    }
}

/// The ability tooltip and the warning card are never shown while a slide
/// is in flight or the prompt editor is open, whatever is hovered; a shown
/// tooltip is for a hovered ability the creature has, and a shown card
/// hangs from the hovered badge.
pub proof fn lemma_overlays_only_at_rest<C>(v: RosterView<C>, ability_count: int)
    ensures
        v.active_slide() is Some ==> v.tooltip_ability(ability_count) is None && v.warning_card_anchor() is None,
        v.editor_open ==> v.tooltip_ability(ability_count) is None && v.warning_card_anchor() is None,
        v.tooltip_ability(ability_count) matches Some(i) ==> {
            &&& v.hovered_ability == Some(i)
            &&& (i as int) < ability_count
            &&& !v.editor_open && v.active_slide() is None
        },
        v.warning_card_anchor() matches Some(r) ==> {
            &&& v.hovered_badge && v.badge_hit_rect == Some(r)
            &&& !v.editor_open && v.active_slide() is None
        },
{
}

/// While the prompt editor is open, every input event goes to it: the
/// roster screen (selection, position, hover, slide) is left exactly as it
/// was and asks for nothing else.
pub proof fn lemma_editor_open_input_is_inert<C>(v: RosterView<C>, ev: InputEvent)
    requires
        v.editor_open,
    ensures
        v.input(ev) == v,
        v.input_effects(ev) == (InputEffects { to_editor: true, ..no_effects() }),
{
}

/// Home wins over every other button in the same mouse event, and Hatchery
/// over all but Home: the screen switches and the roster, selection and
/// slide are left as they were (only the hover follows the cursor).
pub proof fn lemma_screen_switch_wins<C>(v: RosterView<C>, m: MouseHits)
    requires
        !v.editor_open,
        m.home || m.hatchery,
    ensures
        ({
            let w = v.input(InputEvent::Mouse(m));
            let e = v.input_effects(InputEvent::Mouse(m));
            &&& w.creatures == v.creatures && w.current_index == v.current_index
            &&& w.selected_index == v.selected_index && w.slide == v.slide && !w.editor_open
            &&& e.transition == Some(if m.home { SceneTarget::MainHub } else { SceneTarget::Hatchery })
            &&& !e.roster_changed && !e.open_editor && !e.to_editor
        }),
{
}

/// A frame drawn during a slide leaves nothing hit-testable: wherever the
/// cursor then moves, no ability and no badge is hovered, so no tooltip or
/// warning card appears.
pub proof fn lemma_slide_frame_has_no_hover<C>(
    v: RosterView<C>,
    cells: Seq<Rect>,
    ability_count: int,
    badge: Option<Rect>,
    p: Position,
)
    requires
        v.active_slide() is Some,
    ensures
        ({
            let w = v.refresh_hit_rects(cells, ability_count, badge).hover(p);
            &&& w.hovered_ability is None
            &&& !w.hovered_badge
            &&& w.tooltip_ability(ability_count) is None
            &&& w.warning_card_anchor() is None
        }),
{
    let rects = v.refresh_hit_rects(cells, ability_count, badge).ability_hit_rects;
    lemma_first_hit_from(rects, p, 0);
}

// ---------------------------------------------------------------------
// Executable state machine
// ---------------------------------------------------------------------

/// Exchanges `v[a]` and `v[b]`.
fn swap_entries<C>(v: &mut Vec<C>, a: usize, b: usize)
    requires
        a < old(v)@.len(),
        b < old(v)@.len(),
        a != b,
    ensures
        final(v)@ == old(v)@.update(a as int, old(v)@[b as int]).update(b as int, old(v)@[a as int]),
{
    let ghost orig = v@;
    let (lo, hi) = if a < b { (a, b) } else { (b, a) };
    let x = v.remove(hi);
    let y = v.remove(lo);
    v.insert(lo, x);
    v.insert(hi, y);
    assert(v@ =~= orig.update(a as int, orig[b as int]).update(b as int, orig[a as int]));
}

impl<C> RosterManager<C> {
    /// A roster screen over `creatures`, showing the first one, with the
    /// clock at zero, nothing selected and no slide, editor or hover.
    pub fn new(creatures: Vec<C>) -> (r: Self)
        requires
            creatures@.len() > 0,
        ensures
            r@.wf(),
            r@.creatures == creatures@,
            r@.current_index == 0,
            r@.elapsed == 0,
            r@.slide is None,
            r@.selected_index is None,
            !r@.editor_open,
            r@.hovered_ability is None,
            r@.ability_hit_rects == seq![None::<Rect>, None, None, None],
            r@.badge_hit_rect is None,
            !r@.hovered_badge,
    {
        let _n = creatures.len();
        let r = RosterManager {
            current_index: 0,
            creatures,
            elapsed: 0,
            slide: None,
            selected_index: None,
            editor_open: false,
            hovered_ability: None,
            ability_hit_rects: [None, None, None, None],
            badge_hit_rect: None,
            hovered_badge: false,
        };
        assert(r.ability_hit_rects@ =~= seq![None::<Rect>, None, None, None]);
        assert(r@.ability_hit_rects.len() == ABILITY_CELLS);
        r
    }

    pub fn current_index(&self) -> (r: usize)
        ensures
            r == self@.current_index,
    {
        self.current_index
    }

    pub fn selected_index(&self) -> (r: Option<usize>)
        ensures
            r == self@.selected_index,
    {
        self.selected_index
    }

    pub fn elapsed(&self) -> (r: u128)
        ensures
            r == self@.elapsed,
    {
        self.elapsed
    }

    pub fn creatures(&self) -> (r: &Vec<C>)
        ensures
            r@ == self@.creatures,
    {
        &self.creatures
    }

    pub fn editor_open(&self) -> (r: bool)
        ensures
            r == self@.editor_open,
    {
        self.editor_open
    }

    pub fn hovered_ability(&self) -> (r: Option<usize>)
        ensures
            r == self@.hovered_ability,
    {
        self.hovered_ability
    }

    pub fn hovered_badge(&self) -> (r: bool)
        ensures
            r == self@.hovered_badge,
    {
        self.hovered_badge
    }

    pub fn badge_hit_rect(&self) -> (r: Option<Rect>)
        ensures
            r == self@.badge_hit_rect,
    {
        self.badge_hit_rect
    }

    pub fn ability_hit_rect(&self, i: usize) -> (r: Option<Rect>)
        requires
            self@.wf(),
            i < ABILITY_CELLS,
        ensures
            r == self@.ability_hit_rects[i as int],
    {
        self.ability_hit_rects[i]
    }

    /// Points the carousel at roster position `i` directly (the one field
    /// the debug inspector edits), without starting a slide.
    pub fn set_current_index(&mut self, i: usize)
        requires
            old(self)@.wf(),
            i < old(self)@.creatures.len(),
        ensures
            final(self)@ == (RosterView { current_index: i, ..old(self)@ }),
            final(self)@.wf(),
    {
        self.current_index = i;
    }

    /// The slide in flight, if any (see `RosterView::active_slide`).
    pub fn active_slide(&self) -> (r: Option<Slide>)
        requires
            self@.wf(),
        ensures
            r == self@.active_slide(),
    {
        match self.slide {
            Some(s) => if self.elapsed - s.start < SLIDE_DUR_NANOS { Some(s) } else { None },
            None => None,
        }
    }

    /// Moves one roster position in direction `dir` (wrapping), starting a
    /// slide; ignored while a slide is in flight.
    pub fn navigate(&mut self, dir: Direction)
        requires
            old(self)@.wf(),
        ensures
            final(self)@ == old(self)@.navigate(dir),
            final(self)@.wf(),
    {
        if self.active_slide().is_some() {
            return;
        }
        let prev_index = self.current_index;
        let n = self.creatures.len();
        self.current_index = match dir {
            Direction::Right => (self.current_index + 1) % n,
            Direction::Left => if self.current_index == 0 { n - 1 } else { self.current_index - 1 },
        };
        self.slide = Some(Slide { prev_index, dir, start: self.elapsed });
        proof {
            lemma_step_index_in_range(prev_index as int, dir, n as int);
        }
        assert(self@ == old(self)@.navigate(dir));
    }

    /// Selects, cancels, or swaps (see `RosterView::toggle_selection`).
    /// Returns whether two creatures were swapped.
    pub fn toggle_selection(&mut self) -> (swapped: bool)
        requires
            old(self)@.wf(),
        ensures
            final(self)@ == old(self)@.toggle_selection(),
            swapped == old(self)@.toggle_swaps(),
            final(self)@.wf(),
    {
        match self.selected_index {
            None => {
                self.selected_index = Some(self.current_index);
                false
            },
            Some(sel) => {
                if sel == self.current_index {
                    self.selected_index = None;
                    false
                } else {
                    swap_entries(&mut self.creatures, sel, self.current_index);
                    self.selected_index = None;
                    true
                }
            },
        }
    }

    /// Advances the clock by `dt` nanoseconds, clearing a slide that has
    /// run its full duration. Returns whether a slide settled.
    pub fn update(&mut self, dt: u128) -> (settled: bool)
        requires
            old(self)@.wf(),
            old(self)@.elapsed + dt <= DURATION_MAX_NANOS,
        ensures
            final(self)@ == old(self)@.update(dt),
            settled == old(self)@.update_settles(dt),
            final(self)@.wf(),
    {
        self.elapsed = self.elapsed + dt;
        match self.slide {
            Some(s) => {
                if self.elapsed - s.start >= SLIDE_DUR_NANOS {
                    self.slide = None;
                    true
                } else {
                    false
                }
            },
            None => false,
        }
    }

    /// Whether the selected dot currently paints filled.
    pub fn blink_on(&self) -> (r: bool)
        ensures
            r == self@.blink_on(),
    {
        (self.elapsed / NANOS_PER_MILLI / BLINK_PERIOD_MILLIS) % 2 == 0
    }

    /// Whether dot `i` of the dot row paints filled.
    pub fn dot_filled(&self, i: usize) -> (r: bool)
        ensures
            r == self@.dot_filled(i as int),
    {
        if self.selected_index == Some(i) {
            self.blink_on()
        } else {
            i == self.current_index
        }
    }

    /// Updates the hover state for a cursor at `p`: the first populated
    /// ability hit rect containing it, and whether the badge contains it.
    pub fn hover(&mut self, p: Position)
        requires
            old(self)@.wf(),
        ensures
            final(self)@ == old(self)@.hover(p),
            final(self)@.wf(),
    {
        let mut found: Option<usize> = None;
        let mut i: usize = ABILITY_CELLS;
        while i > 0
            invariant
                i <= ABILITY_CELLS,
                self@ == old(self)@,
                self@.wf(),
                found == first_hit(self@.ability_hit_rects, p, i as int),
            decreases i,
        {
            i = i - 1;
            match self.ability_hit_rects[i] {
                Some(r) => {
                    if r.contains(p) {
                        found = Some(i);
                    }
                },
                None => {},
            }
        }
        self.hovered_ability = found;
        self.hovered_badge = match self.badge_hit_rect {
            Some(r) => r.contains(p),
            None => false,
        };
        assert(self@ =~= old(self)@.hover(p)) by {
            assert(self@.ability_hit_rects == old(self)@.ability_hit_rects);
        }
    }

    /// Routes one input event (see `RosterView::input`) and returns what
    /// the caller must do next.
    pub fn handle_input(&mut self, ev: InputEvent) -> (e: InputEffects)
        requires
            old(self)@.wf(),
        ensures
            final(self)@ == old(self)@.input(ev),
            e == old(self)@.input_effects(ev),
            final(self)@.wf(),
    {
        if self.editor_open {
            return InputEffects { to_editor: true, transition: None, roster_changed: false, open_editor: false };
        }
        match ev {
            InputEvent::Key(k) => {
                match k {
                    Key::Left => {
                        self.navigate(Direction::Left);
                        InputEffects { to_editor: false, transition: None, roster_changed: false, open_editor: false }
                    },
                    Key::Right => {
                        self.navigate(Direction::Right);
                        InputEffects { to_editor: false, transition: None, roster_changed: false, open_editor: false }
                    },
                    Key::Space => {
                        let swapped = self.toggle_selection();
                        InputEffects { to_editor: false, transition: None, roster_changed: swapped, open_editor: false }
                    },
                    Key::Other => {
                        InputEffects { to_editor: false, transition: None, roster_changed: false, open_editor: false }
                    },
                }
            },
            InputEvent::Mouse(m) => {
                match m.moved_to {
                    Some(p) => self.hover(p),
                    None => {},
                }
                if m.home {
                    return InputEffects {
                        to_editor: false,
                        transition: Some(SceneTarget::MainHub),
                        roster_changed: false,
                        open_editor: false,
                    };
                }
                if m.hatchery {
                    return InputEffects {
                        to_editor: false,
                        transition: Some(SceneTarget::Hatchery),
                        roster_changed: false,
                        open_editor: false,
                    };
                }
                if m.right {
                    self.navigate(Direction::Right);
                }
                if m.left {
                    self.navigate(Direction::Left);
                }
                let mut swapped = false;
                if m.dot {
                    swapped = self.toggle_selection();
                }
                if m.edit {
                    self.editor_open = true;
                }
                InputEffects { to_editor: false, transition: None, roster_changed: swapped, open_editor: m.edit }
            },
        }
    }

    /// Records the hit rects of the frame just drawn (see
    /// `RosterView::refresh_hit_rects`): `cells` are the four ability grid
    /// cells, `ability_count` the current creature's number of abilities,
    /// `badge` the drawn badge rect.
    pub fn refresh_hit_rects(&mut self, cells: [Rect; 4], ability_count: usize, badge: Option<Rect>)
        requires
            old(self)@.wf(),
        ensures
            final(self)@ == old(self)@.refresh_hit_rects(cells@, ability_count as int, badge),
            final(self)@.wf(),
    {
        if self.active_slide().is_some() {
            self.ability_hit_rects = [None, None, None, None];
            self.badge_hit_rect = None;
        } else {
            let mut hits: [Option<Rect>; 4] = [None, None, None, None];
            for i in 0..4usize
                invariant
                    hits@.len() == 4,
                    forall|j: int| 0 <= j < i ==> #[trigger] hits@[j] == (if j < ability_count { Some(cells@[j]) } else { None::<Rect> }),
                    forall|j: int| i <= j < 4 ==> #[trigger] hits@[j] == None::<Rect>,
            {
                if i < ability_count {
                    hits.set(i, Some(cells[i]));
                }
            }
            self.ability_hit_rects = hits;
            self.badge_hit_rect = badge;
        }
        assert(self@.ability_hit_rects =~= old(self)@.refresh_hit_rects(cells@, ability_count as int, badge).ability_hit_rects);
    }

    /// Which ability's tooltip to draw, if any.
    pub fn tooltip_ability(&self, ability_count: usize) -> (r: Option<usize>)
        requires
            self@.wf(),
        ensures
            r == self@.tooltip_ability(ability_count as int),
    {
        if !self.editor_open && self.active_slide().is_none() {
            match self.hovered_ability {
                Some(i) => if i < ability_count { Some(i) } else { None },
                None => None,
            }
        } else {
            None
        }
    }

    /// The badge rect to hang the warning card from, if it is shown.
    pub fn warning_card_anchor(&self) -> (r: Option<Rect>)
        requires
            self@.wf(),
        ensures
            r == self@.warning_card_anchor(),
    {
        if !self.editor_open && self.active_slide().is_none() && self.hovered_badge {
            self.badge_hit_rect
        } else {
            None
        }
    }

    /// Closes the prompt editor whose state is `popup`, the instructions
    /// buffer being at `revision`. Returns the caller's steps, in order: the
    /// pending edit is written first (only when there is one), then the
    /// current creature's instructions are re-read.
    pub fn close_editor(&mut self, popup: &mut PopupState, revision: u64) -> (steps: Vec<CloseStep>)
        requires
            old(self)@.wf(),
        ensures
            final(self)@ == (RosterView { editor_open: false, ..old(self)@ }),
            final(self)@.wf(),
            *final(popup) == flush_spec(*old(popup), revision).0,
            steps@ == close_steps_spec(flush_spec(*old(popup), revision).1),
    {
        let write = popup.flush_pending(revision);
        self.editor_open = false;
        let mut steps: Vec<CloseStep> = Vec::new();
        if write {
            steps.push(CloseStep::WriteInstructions);
        }
        steps.push(CloseStep::ReloadInstructions);
        assert(steps@ =~= close_steps_spec(write));
        steps
    }

    /// A key press while the prompt editor is open: routed by the popup
    /// (see `key_route_spec`). A `Close` closes the editor as
    /// `close_editor` does and returns its steps; any other route leaves
    /// the roster screen as it was and returns no steps.
    pub fn editor_key(
        &mut self,
        popup: &mut PopupState,
        key: PopupKey,
        mention_active: bool,
        revision: u64,
    ) -> (r: (KeyRoute, Vec<CloseStep>))
        requires
            old(self)@.wf(),
        ensures
            r.0 == key_route_spec(old(popup).focus, key, mention_active),
            final(self)@.wf(),
            r.0 == KeyRoute::Close ==> {
                &&& final(self)@ == (RosterView { editor_open: false, ..old(self)@ })
                &&& *final(popup) == flush_spec(*old(popup), revision).0
                &&& r.1@ == close_steps_spec(flush_spec(*old(popup), revision).1)
            },
            r.0 != KeyRoute::Close ==> {
                &&& final(self)@ == old(self)@
                &&& r.1@.len() == 0
                &&& final(popup).dirty == old(popup).dirty
                &&& final(popup).debounce == old(popup).debounce
                &&& final(popup).last_revision == old(popup).last_revision
                &&& final(popup).focus == (if r.0 == KeyRoute::FocusToggled { toggled(old(popup).focus) } else { old(popup).focus })
            },
    {
        let route = popup.route_key(key, mention_active);
        match route {
            KeyRoute::Close => {
                let steps = self.close_editor(popup, revision);
                (route, steps)
            },
            _ => (route, Vec::new()),
        }
    }
}

/// What closing the prompt editor asks the caller to do.
#[derive(Clone, Copy, Debug, PartialEq, Eq, Structural)]
pub enum CloseStep {
    /// Write the instructions buffer's pending edit to disk.
    WriteInstructions,
    /// Re-read (and re-lint) the current creature's instructions.
    ReloadInstructions,
}

/// The close steps, in order: the write when an edit is pending, then the
/// reload.
pub open spec fn close_steps_spec(write_pending: bool) -> Seq<CloseStep> {
    if write_pending {
        seq![CloseStep::WriteInstructions, CloseStep::ReloadInstructions]
    } else {
        seq![CloseStep::ReloadInstructions]
    }
}

/// Closing the editor always ends by re-reading the instructions, and
/// writes a pending edit before that, never after.
pub proof fn lemma_close_writes_before_reload(write_pending: bool)
    ensures
        close_steps_spec(write_pending).last() == CloseStep::ReloadInstructions,
        close_steps_spec(write_pending).contains(CloseStep::WriteInstructions) <==> write_pending,
        write_pending ==> close_steps_spec(write_pending)[0] == CloseStep::WriteInstructions,
{
    if !write_pending {
        assert(close_steps_spec(write_pending)[0] == CloseStep::ReloadInstructions);
    } else {
        assert(close_steps_spec(write_pending)[0] == CloseStep::WriteInstructions);
    }
}

} // verus!
