//! Whole-cell terminal rectangles, with the clamping conventions of a
//! terminal buffer: a rect never extends past coordinate `u16::MAX`, and its
//! right/bottom edges saturate there.

use vstd::prelude::*;

verus! {

/// `a + b`, clamped to `u16::MAX`.
pub open spec fn sat_add(a: int, b: int) -> int {
    if a + b > u16::MAX as int { u16::MAX as int } else { a + b }
}

/// `a - b`, clamped at zero.
pub open spec fn sat_sub(a: int, b: int) -> int {
    if a - b < 0 { 0 } else { a - b }
}

pub open spec fn min_int(a: int, b: int) -> int {
    if a <= b { a } else { b }
}

pub open spec fn max_int(a: int, b: int) -> int {
    if a >= b { a } else { b }
}

/// A cell position inside the terminal.
#[derive(Clone, Copy, Debug, Default, PartialEq, Eq, Structural)]
pub struct Position {
    pub x: u16,
    pub y: u16,
}

/// A rectangle of whole terminal cells: origin `(x, y)`, size
/// `width × height`.
#[derive(Clone, Copy, Debug, Default, PartialEq, Eq, Structural)]
pub struct Rect {
    pub x: u16,
    pub y: u16,
    pub width: u16,
    pub height: u16,
}

/// The rect `Rect::new(x, y, width, height)` builds: the size is clamped so
/// the rect ends at or before coordinate `u16::MAX`.
pub open spec fn rect_new(x: int, y: int, width: int, height: int) -> Rect {
    Rect {
        x: x as u16,
        y: y as u16,
        width: min_int(width, u16::MAX - x) as u16,
        height: min_int(height, u16::MAX - y) as u16,
    }
}

impl Rect {
    /// The rect lies entirely within the coordinate range: it ends at or
    /// before `u16::MAX` in both directions. Every rect built by `Rect::new`
    /// has this property.
    pub open spec fn wf(self) -> bool {
        &&& self.x + self.width <= u16::MAX
        &&& self.y + self.height <= u16::MAX
    }

    /// `inner` lies within `self`.
    pub open spec fn encloses(self, inner: Rect) -> bool {
        &&& self.x <= inner.x
        &&& inner.x + inner.width <= self.x + self.width
        &&& self.y <= inner.y
        &&& inner.y + inner.height <= self.y + self.height
    }

    /// The first column to the right of the rect (saturating).
    pub open spec fn right_spec(self) -> int {
        sat_add(self.x as int, self.width as int)
    }

    /// The first row below the rect (saturating).
    pub open spec fn bottom_spec(self) -> int {
        sat_add(self.y as int, self.height as int)
    }

    pub open spec fn contains_spec(self, p: Position) -> bool {
        &&& self.x <= p.x
        &&& p.x < self.right_spec()
        &&& self.y <= p.y
        &&& p.y < self.bottom_spec()
    }

    pub open spec fn intersection_spec(self, other: Rect) -> Rect {
        let x1 = max_int(self.x as int, other.x as int);
        let y1 = max_int(self.y as int, other.y as int);
        let x2 = min_int(self.right_spec(), other.right_spec());
        let y2 = min_int(self.bottom_spec(), other.bottom_spec());
        Rect {
            x: x1 as u16,
            y: y1 as u16,
            width: sat_sub(x2, x1) as u16,
            height: sat_sub(y2, y1) as u16,
        }
    }

    /// Builds a rect at `(x, y)`, clamping `width`/`height` so that the rect
    /// does not run past `u16::MAX`.
    pub fn new(x: u16, y: u16, width: u16, height: u16) -> (r: Rect)
        ensures
            r == rect_new(x as int, y as int, width as int, height as int),
            r.wf(),
    {
        let max_width = u16::MAX - x;
        let max_height = u16::MAX - y;
        let width = if width > max_width { max_width } else { width };
        let height = if height > max_height { max_height } else { height };
        Rect { x, y, width, height }
    }

    pub fn left(&self) -> (r: u16)
        ensures
            r == self.x,
    {
        self.x
    }

    pub fn top(&self) -> (r: u16)
        ensures
            r == self.y,
    {
        self.y
    }

    /// The first column to the right of the rect, saturating at `u16::MAX`.
    pub fn right(&self) -> (r: u16)
        ensures
            r == self.right_spec(),
    {
        self.x.saturating_add(self.width)
    }

    /// The first row below the rect, saturating at `u16::MAX`.
    pub fn bottom(&self) -> (r: u16)
        ensures
            r == self.bottom_spec(),
    {
        self.y.saturating_add(self.height)
    }

    /// True when the rect covers no cell.
    pub fn is_empty(&self) -> (r: bool)
        ensures
            r == (self.width == 0 || self.height == 0),
    {
        self.width == 0 || self.height == 0
    }

    /// Whether `p` lies inside the rect.
    pub fn contains(&self, p: Position) -> (r: bool)
        ensures
            r == self.contains_spec(p),
    {
        p.x >= self.x && p.x < self.right() && p.y >= self.y && p.y < self.bottom()
    }

    /// The overlap of two rects; an empty overlap has zero width or height.
    pub fn intersection(&self, other: Rect) -> (r: Rect)
        ensures
            r == self.intersection_spec(other),
    {
        let x1 = if self.x >= other.x { self.x } else { other.x };
        let y1 = if self.y >= other.y { self.y } else { other.y };
        let (sr, or) = (self.right(), other.right());
        let (sb, ob) = (self.bottom(), other.bottom());
        let x2 = if sr <= or { sr } else { or };
        let y2 = if sb <= ob { sb } else { ob };
        Rect { x: x1, y: y1, width: x2.saturating_sub(x1), height: y2.saturating_sub(y1) }
    }
}

} // verus!
