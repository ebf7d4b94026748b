//! The prompt-editor popup's own state: which of its two editors has the
//! keyboard, the routing of keys and clicks between them, and the
//! write-debounce that batches instructions edits into one disk write.
//!
//! The text editors themselves (and the disk write) belong to the caller;
//! the caller reports the instructions editor's buffer revision and
//! whether an `@`-mention list is open, and performs the routing and the
//! writes handed back.

use vstd::prelude::*;

use crate::geometry::{Position, Rect};

verus! {

/// Idle time after the last instructions edit before it is written (300 ms).
pub const WRITE_DEBOUNCE_NANOS: u128 = 300_000_000;

/// Which editor receives keyboard input.
#[derive(Clone, Copy, Debug, PartialEq, Eq, Structural)]
pub enum PopupFocus {
    AgentInput,
    Instructions,
}

/// A key press, as far as the popup distinguishes keys.
#[derive(Clone, Copy, Debug, PartialEq, Eq, Structural)]
pub enum PopupKey {
    Esc,
    Tab,
    Other,
}

/// Where a key press goes.
#[derive(Clone, Copy, Debug, PartialEq, Eq, Structural)]
pub enum KeyRoute {
    /// Close the popup.
    Close,
    /// Hand the key to the focused editor.
    ToFocused(PopupFocus),
    /// The key switched focus; no editor sees it.
    FocusToggled,
}

/// Where a left click goes.
#[derive(Clone, Copy, Debug, PartialEq, Eq, Structural)]
pub enum ClickRoute {
    /// The click landed in this editor's box: it takes the focus and the
    /// click.
    Focus(PopupFocus),
    /// The click landed outside both boxes: nothing happens.
    Ignored,
}

pub struct PopupState {
    pub focus: PopupFocus,
    pub dirty: bool,
    pub debounce: u128,
    pub last_revision: u64,
}

/// Where a key goes when `focus` has the keyboard and `mention_active`
/// says whether that editor has an `@`-mention list open.
pub open spec fn key_route_spec(focus: PopupFocus, key: PopupKey, mention_active: bool) -> KeyRoute {
    match key {
        PopupKey::Esc => if mention_active { KeyRoute::ToFocused(focus) } else { KeyRoute::Close },
        PopupKey::Tab => if mention_active { KeyRoute::ToFocused(focus) } else { KeyRoute::FocusToggled },
        PopupKey::Other => KeyRoute::ToFocused(focus),
    }
}

pub open spec fn toggled(f: PopupFocus) -> PopupFocus {
    match f {
        PopupFocus::AgentInput => PopupFocus::Instructions,
        PopupFocus::Instructions => PopupFocus::AgentInput,
    }
}

/// The state after a look at the instructions buffer's revision: a change
/// since the last look marks the text dirty and restarts the debounce.
pub open spec fn poll_spec(s: PopupState, revision: u64) -> PopupState {
    if revision != s.last_revision {
        PopupState { last_revision: revision, dirty: true, debounce: WRITE_DEBOUNCE_NANOS, ..s }
    } else {
        s
    }
}

/// A flush after a final look at the revision: the new state, and whether
/// the text must be written now.
pub open spec fn flush_spec(s: PopupState, revision: u64) -> (PopupState, bool) {
    let p = poll_spec(s, revision);
    if p.dirty {
        (PopupState { dirty: false, debounce: 0, ..p }, true)
    } else {
        (p, false)
    }
}

/// A clock tick of `dt` ns after a look at the revision: a pending edit's
/// debounce runs down, and the text is written when it reaches zero.
pub open spec fn update_spec(s: PopupState, dt: u128, revision: u64) -> (PopupState, bool) {
    let p = poll_spec(s, revision);
    if !p.dirty {
        (p, false)
    } else if p.debounce <= dt {
        (PopupState { dirty: false, debounce: 0, ..p }, true)
    } else {
        (PopupState { debounce: (p.debounce - dt) as u128, ..p }, false)
    }
}

impl PopupState {
    /// The state right after opening: instructions focused, nothing
    /// pending, and the current buffer revision taken as already seen (so
    /// opening on existing text is not mistaken for an edit).
    pub fn new(revision: u64) -> (r: PopupState)
        ensures
            r.focus == PopupFocus::Instructions,
            !r.dirty,
            r.debounce == 0,
            r.last_revision == revision,
    {
        PopupState { focus: PopupFocus::Instructions, dirty: false, debounce: 0, last_revision: revision }
    }

    /// Switches keyboard focus to the other editor.
    pub fn toggle_focus(&mut self)
        ensures
            final(self).focus == toggled(old(self).focus),
            final(self).dirty == old(self).dirty,
            final(self).debounce == old(self).debounce,
            final(self).last_revision == old(self).last_revision,
    {
        self.focus = match self.focus {
            PopupFocus::AgentInput => PopupFocus::Instructions,
            PopupFocus::Instructions => PopupFocus::AgentInput,
        };
    }

    /// Notes the instructions buffer's revision: a change since the last
    /// look marks the text dirty and restarts the debounce.
    pub fn poll(&mut self, revision: u64)
        ensures
            final(self).focus == old(self).focus,
            final(self).last_revision == revision,
            revision != old(self).last_revision ==> final(self).dirty && final(self).debounce
                == WRITE_DEBOUNCE_NANOS,
            revision == old(self).last_revision ==> final(self).dirty == old(self).dirty
                && final(self).debounce == old(self).debounce,
            *final(self) == poll_spec(*old(self), revision),
    {
        if revision != self.last_revision {
            self.last_revision = revision;
            self.dirty = true;
            self.debounce = WRITE_DEBOUNCE_NANOS;
        }
    }

    /// Flushes a pending edit (after a final look at the revision): returns
    /// whether the caller must write the instructions text now. Afterwards
    /// nothing is pending.
    pub fn flush_pending(&mut self, revision: u64) -> (write: bool)
        ensures
            write == (old(self).dirty || revision != old(self).last_revision),
            !final(self).dirty,
            final(self).focus == old(self).focus,
            final(self).last_revision == revision,
            write ==> final(self).debounce == 0,
            !write ==> final(self).debounce == old(self).debounce,
            (*final(self), write) == flush_spec(*old(self), revision),
    {
        self.poll(revision);
        if !self.dirty {
            return false;
        }
        self.dirty = false;
        self.debounce = 0;
        true
    }

    /// A clock tick of `dt` ns: looks at the revision, then, while an edit
    /// is pending, runs the debounce down and flushes when it reaches zero.
    /// Returns whether the caller must write the instructions text now.
    pub fn update(&mut self, dt: u128, revision: u64) -> (write: bool)
        ensures
            final(self).focus == old(self).focus,
            final(self).last_revision == revision,
            ({
                let dirty = old(self).dirty || revision != old(self).last_revision;
                let remaining = if revision != old(self).last_revision {
                    WRITE_DEBOUNCE_NANOS as int
                } else {
                    old(self).debounce as int
                };
                &&& write == (dirty && remaining <= dt)
                &&& !dirty ==> !final(self).dirty && final(self).debounce == old(self).debounce
                &&& dirty && remaining > dt ==> final(self).dirty && final(self).debounce == remaining - dt
                &&& write ==> !final(self).dirty && final(self).debounce == 0
            }),
            (*final(self), write) == update_spec(*old(self), dt, revision),
    {
        self.poll(revision);
        if !self.dirty {
            return false;
        }
        self.debounce = self.debounce.saturating_sub(dt);
        if self.debounce == 0 {
            self.flush_pending(revision)
        } else {
            false
        }
    }

    /// Routes a key press. `Esc` closes the popup, and `Tab` switches
    /// focus, unless the focused editor has an `@`-mention list open, which
    /// then takes the key; every other key goes to the focused editor.
    pub fn route_key(&mut self, key: PopupKey, mention_active: bool) -> (r: KeyRoute)
        ensures
            final(self).dirty == old(self).dirty,
            final(self).debounce == old(self).debounce,
            final(self).last_revision == old(self).last_revision,
            r == (match key {
                PopupKey::Esc => if mention_active { KeyRoute::ToFocused(old(self).focus) } else { KeyRoute::Close },
                PopupKey::Tab => if mention_active { KeyRoute::ToFocused(old(self).focus) } else { KeyRoute::FocusToggled },
                PopupKey::Other => KeyRoute::ToFocused(old(self).focus),
            }),
            final(self).focus == (if key == PopupKey::Tab && !mention_active { toggled(old(self).focus) } else { old(self).focus }),
            r == key_route_spec(old(self).focus, key, mention_active),
    {
        match key {
            PopupKey::Esc => {
                if mention_active { KeyRoute::ToFocused(self.focus) } else { KeyRoute::Close }
            },
            PopupKey::Tab => {
                if mention_active {
                    KeyRoute::ToFocused(self.focus)
                } else {
                    self.toggle_focus();
                    KeyRoute::FocusToggled
                }
            },
            PopupKey::Other => KeyRoute::ToFocused(self.focus),
        }
    }

    /// Routes a left click at `p`: a click in the agent input's box focuses
    /// it; otherwise one in the instructions box focuses that; a click
    /// elsewhere is ignored and leaves focus unchanged.
    pub fn route_click(&mut self, p: Position, agent_input: Rect, instructions: Rect) -> (r: ClickRoute)
        ensures
            final(self).dirty == old(self).dirty,
            final(self).debounce == old(self).debounce,
            final(self).last_revision == old(self).last_revision,
            agent_input.contains_spec(p) ==> r == ClickRoute::Focus(PopupFocus::AgentInput),
            !agent_input.contains_spec(p) && instructions.contains_spec(p) ==> r == ClickRoute::Focus(
                PopupFocus::Instructions,
            ),
            !agent_input.contains_spec(p) && !instructions.contains_spec(p) ==> r == ClickRoute::Ignored,
            r matches ClickRoute::Focus(f) ==> final(self).focus == f,
            r == ClickRoute::Ignored ==> final(self).focus == old(self).focus,
    {
        if agent_input.contains(p) {
            self.focus = PopupFocus::AgentInput;
            ClickRoute::Focus(PopupFocus::AgentInput)
        } else if instructions.contains(p) {
            self.focus = PopupFocus::Instructions;
            ClickRoute::Focus(PopupFocus::Instructions)
        } else {
            ClickRoute::Ignored
        }
    }
}

/// With no edit pending and no new edit, a tick changes nothing and writes
/// nothing.
pub proof fn lemma_quiet_tick_is_inert(s: PopupState, dt: u128)
    requires
        !s.dirty,
    ensures
        update_spec(s, dt, s.last_revision) == (s, false),
{
}

/// An edit is written exactly once, and only after the debounce: ticks that
/// leave less than the full debounce of quiet write nothing, the tick that
/// completes it writes, and after that nothing is pending.
pub proof fn lemma_edit_written_once_after_debounce(s: PopupState, revision: u64, d1: u128, d2: u128)
    requires
        revision != s.last_revision,
        d1 < WRITE_DEBOUNCE_NANOS,
        d1 + d2 >= WRITE_DEBOUNCE_NANOS,
    ensures
        ({
            let (s1, w1) = update_spec(s, d1, revision);
            let (s2, w2) = update_spec(s1, d2, revision);
            &&& !w1
            &&& s1.dirty && s1.debounce == WRITE_DEBOUNCE_NANOS - d1
            &&& w2
            &&& !s2.dirty && s2.last_revision == revision
            &&& forall|d3: u128| #[trigger] update_spec(s2, d3, revision) == (s2, false)
        }),
{
}

/// A burst of edits coalesces: each new edit restarts the full debounce,
/// whatever was left of the previous one, and nothing is written meanwhile.
pub proof fn lemma_edit_burst_restarts_debounce(s: PopupState, r1: u64, r2: u64, d1: u128, d2: u128)
    requires
        r1 != s.last_revision,
        r2 != r1,
        d1 < WRITE_DEBOUNCE_NANOS,
        d2 < WRITE_DEBOUNCE_NANOS,
    ensures
        ({
            let (s1, w1) = update_spec(s, d1, r1);
            let (s2, w2) = update_spec(s1, d2, r2);
            &&& !w1 && !w2
            &&& s2.dirty && s2.debounce == WRITE_DEBOUNCE_NANOS - d2
        }),
{
}

/// Tab without an open mention list, pressed twice, returns focus to where
/// it was.
pub proof fn lemma_toggle_focus_involution(f: PopupFocus)
    ensures
        toggled(toggled(f)) == f,
        toggled(f) != f,
{
}

/// `text`, front-truncated to fit `max_width` cells: unchanged when it
/// fits (or when there is no width at all), otherwise `'…'` followed by its
/// last `max_width - 1` chars.
pub open spec fn fit_path_spec(text: Seq<char>, max_width: int) -> Seq<char> {
    if max_width == 0 || text.len() <= max_width {
        text
    } else {
        seq!['…'] + text.subrange(text.len() - (max_width - 1), text.len() as int)
    }
}

/// Front-truncates a file path so its tail (file name and extension) stays
/// visible in `max_width` cells.
pub fn fit_path_text(text: &str, max_width: u16) -> (r: String)
    ensures
        r@ == fit_path_spec(text@, max_width as int),
{
    let n = text.unicode_len();
    let max_width = max_width as usize;
    if max_width == 0 || n <= max_width {
        return String::from_str(text);
    }
    let keep = max_width - 1;
    let tail = text.substring_char(n - keep, n);
    proof { reveal_strlit("…"); }
    let mut out = String::from_str("…");
    out.append(tail);
    out
}

/// A fitted path never needs more cells than allowed (when any are), and
/// always ends with the path's own last chars.
pub proof fn lemma_fit_path_fits(text: Seq<char>, max_width: int)
    requires
        max_width >= 0,
    ensures
        max_width > 0 ==> fit_path_spec(text, max_width).len() <= max_width,
        max_width > 0 ==> fit_path_spec(text, max_width).len() == if text.len() <= max_width { text.len() as int } else { max_width },
        max_width > 0 && text.len() > max_width ==> fit_path_spec(text, max_width).subrange(1, max_width)
            == text.subrange(text.len() - (max_width - 1), text.len() as int),
{
    if max_width > 0 && text.len() > max_width {
        let r = fit_path_spec(text, max_width);
        assert(r.subrange(1, max_width) =~= text.subrange(text.len() - (max_width - 1), text.len() as int));
    }
}

} // verus!
